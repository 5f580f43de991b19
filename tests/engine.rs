use std::sync::{Arc, Mutex};

use rusqlite::types::Value;
use rusqlite::{params_from_iter, Connection};
use rust_sqlite_wrapper::database::{check_sole_owner, GuardError};
use rust_sqlite_wrapper::marshal::{render_rows, to_parameters, BoundParameter, DynamicValue, EngineValue};
use rust_sqlite_wrapper::schema::build_create_table;
use rust_sqlite_wrapper::statement::build_insert;

fn engine_value(p: &BoundParameter) -> Value {
    match p {
        BoundParameter::Integer(i) => Value::Integer(*i),
        BoundParameter::Real(bits) => Value::Real(f64::from_bits(*bits)),
        BoundParameter::Text(s) => Value::Text(s.clone()),
        BoundParameter::Boolean(b) => Value::Integer(if *b { 1 } else { 0 }),
    }
}

fn cell(v: Value) -> EngineValue {
    match v {
        Value::Integer(i) => EngineValue::Integer(i),
        Value::Real(f) => EngineValue::Real(f.to_string()),
        Value::Text(s) => EngineValue::Text(s),
        Value::Blob(b) => EngineValue::Blob(b),
        Value::Null => EngineValue::Null,
    }
}

fn run(conn: &Connection, sql: &str, params: &[BoundParameter]) -> usize {
    conn.execute(sql, params_from_iter(params.iter().map(engine_value))).unwrap()
}

fn fetch(conn: &Connection, sql: &str, params: &[BoundParameter]) -> Vec<Vec<String>> {
    let mut stmt = conn.prepare(sql).unwrap();
    let n = stmt.column_count();
    let rows: Vec<Vec<EngineValue>> = stmt
        .query_map(params_from_iter(params.iter().map(engine_value)), |row| {
            let mut cells = Vec::new();
            for i in 0..n {
                cells.push(cell(row.get::<_, Value>(i)?));
            }
            Ok(cells)
        })
        .unwrap()
        .collect::<Result<_, _>>()
        .unwrap();
    render_rows(&rows)
}

fn people(conn: &Connection) {
    let columns = vec![
        ("name".to_string(), "str".to_string()),
        ("age".to_string(), "int".to_string()),
    ];
    let sql = build_create_table("T", &columns).unwrap();
    assert_eq!(run(conn, &sql, &[]), 0);
}

#[test]
fn inserted_row_reads_back_as_text() {
    let conn = Connection::open_in_memory().unwrap();
    people(&conn);
    let values = vec![
        ("name".to_string(), DynamicValue::Text("Ann".to_string())),
        ("age".to_string(), DynamicValue::Integer(30)),
    ];
    let (sql, params) = build_insert("t", &values).unwrap();
    assert_eq!(run(&conn, &sql, &params), 1);
    let rows = fetch(&conn, "SELECT name, age FROM t", &[]);
    assert_eq!(rows, vec![vec!["Ann".to_string(), "30".to_string()]]);
}

#[test]
fn creating_a_table_twice_leaves_one_table() {
    let conn = Connection::open_in_memory().unwrap();
    people(&conn);
    people(&conn);
    let rows = fetch(&conn, "SELECT count(*) FROM sqlite_master WHERE type = 'table' AND name = 't'", &[]);
    assert_eq!(rows, vec![vec!["1".to_string()]]);
}

#[test]
fn query_without_matches_gives_no_rows() {
    let conn = Connection::open_in_memory().unwrap();
    people(&conn);
    let params = to_parameters(&vec![DynamicValue::Text("nobody".to_string())]).unwrap();
    let rows = fetch(&conn, "SELECT name, age FROM t WHERE name = ?", &params);
    assert!(rows.is_empty());
}

#[test]
fn blob_and_null_cells_have_fixed_text() {
    let conn = Connection::open_in_memory().unwrap();
    run(&conn, "CREATE TABLE b (data BLOB, missing TEXT)", &[]);
    run(&conn, "INSERT INTO b (data, missing) VALUES (x'0102ff', NULL)", &[]);
    let rows = fetch(&conn, "SELECT data, missing FROM b", &[]);
    assert_eq!(rows, vec![vec!["[1, 2, 255]".to_string(), "NULL".to_string()]]);
}

#[test]
fn raw_statement_binds_every_kind() {
    let conn = Connection::open_in_memory().unwrap();
    run(&conn, "CREATE TABLE k (i INTEGER, r REAL, s TEXT, b BOOLEAN)", &[]);
    let params = to_parameters(&vec![
        DynamicValue::Integer(-5),
        DynamicValue::Real(2.5f64.to_bits()),
        DynamicValue::Text("x".to_string()),
        DynamicValue::Boolean(true),
    ])
    .unwrap();
    assert_eq!(run(&conn, "INSERT INTO k (i, r, s, b) VALUES (?, ?, ?, ?)", &params), 1);
    let rows = fetch(&conn, "SELECT i, r, s, b FROM k", &[]);
    assert_eq!(
        rows,
        vec![vec!["-5".to_string(), "2.5".to_string(), "x".to_string(), "1".to_string()]]
    );
}

#[test]
fn close_waits_for_other_handles() {
    let shared = Arc::new(Mutex::new(Connection::open_in_memory().unwrap()));
    let second = Arc::clone(&shared);
    assert_eq!(check_sole_owner(Arc::strong_count(&shared)), Err(GuardError::StillReferenced));
    drop(second);
    assert_eq!(check_sole_owner(Arc::strong_count(&shared)), Ok(()));
}

