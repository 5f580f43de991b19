//! Table creation: resolving type descriptors and writing the DDL statement.
use vstd::prelude::*;
use vstd::string::StringExecFns;
use crate::text::{joined, lemma_joined_push, lower_of, lowercase, same_text};

verus! {

/// The column types a table can be created with.
#[derive(Clone, Copy, Debug, PartialEq, Eq, Structural)]
pub enum ColumnType {
    Text,
    Integer,
    Real,
    Boolean,
}

/// A column whose type descriptor is not one of `str`, `int`, `float`, `bool`.
#[derive(Clone, Debug)]
pub enum SchemaError {
    UnsupportedColumnType { table: String, column: String },
}

impl ColumnType {
    /// The SQL type written for the column.
    pub open spec fn sql_name(self) -> Seq<char> {
        match self {
            ColumnType::Text => "TEXT"@,
            ColumnType::Integer => "INTEGER"@,
            ColumnType::Real => "REAL"@,
            ColumnType::Boolean => "BOOLEAN"@,
        }
    }

    pub fn sql(&self) -> (r: &'static str)
        ensures
            r@ == self.sql_name(),
    {
        match self {
            ColumnType::Text => "TEXT",
            ColumnType::Integer => "INTEGER",
            ColumnType::Real => "REAL",
            ColumnType::Boolean => "BOOLEAN",
        }
    }
}

/// The column type that a host type name stands for.
pub open spec fn column_type_spec(descriptor: Seq<char>) -> Option<ColumnType> {
    if descriptor == "str"@ {
        Some(ColumnType::Text)
    } else if descriptor == "int"@ {
        Some(ColumnType::Integer)
    } else if descriptor == "float"@ {
        Some(ColumnType::Real)
    } else if descriptor == "bool"@ {
        Some(ColumnType::Boolean)
    } else {
        None
    }
}

/// Looks a host type name up in the fixed table.
pub fn column_type_of(descriptor: &str) -> (r: Option<ColumnType>)
    ensures
        r == column_type_spec(descriptor@),
{
    if same_text(descriptor, "str") {
        Some(ColumnType::Text)
    } else if same_text(descriptor, "int") {
        Some(ColumnType::Integer)
    } else if same_text(descriptor, "float") {
        Some(ColumnType::Real)
    } else if same_text(descriptor, "bool") {
        Some(ColumnType::Boolean)
    } else {
        None
    }
}

/// Whether column `i` of `columns` has an unknown descriptor.
pub open spec fn unsupported_at(columns: Seq<(String, String)>, i: int) -> bool {
    column_type_spec(columns[i].1@) is None
}

/// Whether every descriptor of `columns` is known.
pub open spec fn all_resolvable(columns: Seq<(String, String)>) -> bool {
    forall|i: int| 0 <= i < columns.len() ==> !#[trigger] unsupported_at(columns, i)
}

/// Whether `i` is the first column with an unknown descriptor.
pub open spec fn first_unsupported(columns: Seq<(String, String)>, i: int) -> bool {
    &&& 0 <= i < columns.len()
    &&& unsupported_at(columns, i)
    &&& forall|j: int| 0 <= j < i ==> !#[trigger] unsupported_at(columns, j)
}

/// The error raised for the first unknown descriptor of a table's columns.
pub open spec fn schema_error_for(
    e: SchemaError,
    table: Seq<char>,
    columns: Seq<(String, String)>,
) -> bool {
    match e {
        SchemaError::UnsupportedColumnType { table: t, column: c } => {
            &&& t@ == table
            &&& exists|i: int| first_unsupported(columns, i) && c@ == columns[i].0@
        },
    }
}

/// The resolved columns by name view, in the caller's order; meaningful
/// when every descriptor is known.
pub open spec fn resolved(columns: Seq<(String, String)>) -> Seq<(Seq<char>, ColumnType)> {
    columns.map_values(|c: (String, String)| (c.0@, column_type_spec(c.1@).unwrap()))
}

/// Resolved columns by name view.
pub open spec fn column_views(columns: Seq<(String, ColumnType)>) -> Seq<(Seq<char>, ColumnType)> {
    columns.map_values(|c: (String, ColumnType)| (c.0@, c.1))
}

/// Resolves every descriptor, keeping the caller's column order.
pub fn resolve_columns(table: &str, columns: &Vec<(String, String)>) -> (r: Result<
    Vec<(String, ColumnType)>,
    SchemaError,
>)
    ensures
        r is Ok <==> all_resolvable(columns@),
        r matches Err(e) ==> schema_error_for(e, table@, columns@),
        r matches Ok(cs) ==> column_views(cs@) == resolved(columns@),
{
    let mut out: Vec<(String, ColumnType)> = Vec::new();
    let mut i: usize = 0;
    while i < columns.len()
        invariant
            i <= columns@.len(),
            out@.len() == i,
            forall|j: int| 0 <= j < i ==> !#[trigger] unsupported_at(columns@, j),
            forall|j: int|
                0 <= j < i ==> (#[trigger] out@[j]).0@ == columns@[j].0@ && Some(out@[j].1)
                    == column_type_spec(columns@[j].1@),
        decreases columns@.len() - i,
    {
        match column_type_of(columns[i].1.as_str()) {
            Some(t) => {
                out.push((columns[i].0.clone(), t));
            },
            None => {
                let e = SchemaError::UnsupportedColumnType {
                    table: String::from_str(table),
                    column: columns[i].0.clone(),
                };
                assert(first_unsupported(columns@, i as int));
                return Err(e);
            },
        }
        i += 1;
    }
    assert(column_views(out@) =~= resolved(columns@));
    Ok(out)
}

/// The definition of one resolved column: its name, a space, its SQL type.
pub open spec fn column_def(c: (Seq<char>, ColumnType)) -> Seq<char> {
    c.0 + " "@ + c.1.sql_name()
}

/// The DDL statement for a table with resolved columns.
pub open spec fn create_table_sql(table: Seq<char>, columns: Seq<(Seq<char>, ColumnType)>) -> Seq<
    char,
> {
    "CREATE TABLE IF NOT EXISTS "@ + table + " ("@ + joined(
        columns.map_values(|c: (Seq<char>, ColumnType)| column_def(c)),
        ", "@,
    ) + ")"@
}

/// Writes the DDL statement for an already case-normalised table name.
///
/// No quoting is applied to identifiers. An empty column list gives an empty
/// pair of parentheses, which the engine rejects.
pub fn create_table_statement(table: &str, columns: &Vec<(String, ColumnType)>) -> (r: String)
    ensures
        r@ == create_table_sql(table@, column_views(columns@)),
{
    let ghost cols = column_views(columns@);
    let mut s = String::from_str("CREATE TABLE IF NOT EXISTS ");
    s.append(table);
    s.append(" (");
    let ghost head = s@;
    let mut i: usize = 0;
    while i < columns.len()
        invariant
            i <= columns@.len(),
            cols == column_views(columns@),
            s@ == head + joined(
                cols.subrange(0, i as int).map_values(|c: (Seq<char>, ColumnType)| column_def(c)),
                ", "@,
            ),
        decreases columns@.len() - i,
    {
        let ghost parts = cols.subrange(0, i as int).map_values(
            |c: (Seq<char>, ColumnType)| column_def(c),
        );
        if i > 0 {
            s.append(", ");
        }
        s.append(columns[i].0.as_str());
        s.append(" ");
        s.append(columns[i].1.sql());
        proof {
            lemma_joined_push(parts, ", "@, column_def(cols[i as int]));
            assert(cols.subrange(0, i + 1).map_values(|c: (Seq<char>, ColumnType)| column_def(c))
                =~= parts.push(column_def(cols[i as int])));
            assert(s@ =~= head + joined(parts.push(column_def(cols[i as int])), ", "@));
        }
        i += 1;
    }
    s.append(")");
    assert(cols.subrange(0, cols.len() as int) =~= cols);
    assert(s@ =~= create_table_sql(table@, cols));
    s
}

/// Builds `CREATE TABLE IF NOT EXISTS` for a table, its name lower-cased and
/// its columns in the caller's order; fails on the first unknown descriptor
/// before any statement exists.
pub fn build_create_table(table: &str, columns: &Vec<(String, String)>) -> (r: Result<
    String,
    SchemaError,
>)
    ensures
        r is Ok <==> all_resolvable(columns@),
        r matches Err(e) ==> schema_error_for(e, table@, columns@),
        r matches Ok(sql) ==> sql@ == create_table_sql(lower_of(table@), resolved(columns@)),
{
    let resolved = resolve_columns(table, columns)?;
    let lowered = lowercase(table);
    let sql = create_table_statement(lowered.as_str(), &resolved);
    Ok(sql)
}

/// Every table-creation statement starts with `CREATE TABLE IF NOT EXISTS `,
/// so running it again on a table it already created changes nothing.
pub proof fn lemma_create_table_if_not_exists(table: Seq<char>, columns: Seq<(Seq<char>, ColumnType)>)
    ensures
        create_table_sql(table, columns).len() >= 27,
        create_table_sql(table, columns).subrange(0, 27) == "CREATE TABLE IF NOT EXISTS "@,
{
    reveal_strlit("CREATE TABLE IF NOT EXISTS ");
    let head = "CREATE TABLE IF NOT EXISTS "@;
    let rest = table + " ("@ + joined(
        columns.map_values(|c: (Seq<char>, ColumnType)| column_def(c)),
        ", "@,
    ) + ")"@;
    assert(create_table_sql(table, columns) =~= head + rest);
    assert((head + rest).subrange(0, 27) =~= head);
}

} // verus!
