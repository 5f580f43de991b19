//! Data statements: an `INSERT` with one placeholder per column, and its
//! parameters in the same order.
use vstd::prelude::*;
use vstd::string::StringExecFns;
use crate::marshal::{parameter_of, to_parameter, BoundParameter, DynamicValue, MarshalError};
use crate::text::{joined, lemma_joined_push};

verus! {

/// `n` positional placeholders.
pub open spec fn placeholders(n: nat) -> Seq<Seq<char>> {
    Seq::new(n, |k: int| "?"@)
}

/// The column names of an ordered mapping, by view.
pub open spec fn names_of(values: Seq<(String, DynamicValue)>) -> Seq<Seq<char>> {
    values.map_values(|v: (String, DynamicValue)| v.0@)
}

/// `INSERT INTO <table> (<c1>, <c2>, ...) VALUES (?, ?, ...)`.
pub open spec fn insert_sql(table: Seq<char>, names: Seq<Seq<char>>) -> Seq<char> {
    "INSERT INTO "@ + table + " ("@ + joined(names, ", "@) + ") VALUES ("@ + joined(
        placeholders(names.len()),
        ", "@,
    ) + ")"@
}

/// Whether every value of the mapping can be bound.
pub open spec fn all_values_supported(values: Seq<(String, DynamicValue)>) -> bool {
    forall|i: int| 0 <= i < values.len() ==> (#[trigger] values[i]).1.kind() is Some
}

/// Builds the insert statement for an ordered column-to-value mapping and
/// the parameters it binds, parameter `i` for column `i`. Fails before any
/// statement exists when a value cannot be bound.
///
/// The table name is used as given: no case normalisation, no quoting.
pub fn build_insert(table: &str, values: &Vec<(String, DynamicValue)>) -> (r: Result<
    (String, Vec<BoundParameter>),
    MarshalError,
>)
    ensures
        r is Ok <==> all_values_supported(values@),
        r is Err ==> r == Err::<(String, Vec<BoundParameter>), MarshalError>(
            MarshalError::UnsupportedType,
        ),
        r matches Ok((sql, ps)) ==> {
            &&& sql@ == insert_sql(table@, names_of(values@))
            &&& ps@.len() == values@.len()
            &&& forall|i: int|
                0 <= i < values@.len() ==> parameter_of(#[trigger] values@[i].1) == Some(ps@[i])
        },
{
    let ghost names = names_of(values@);
    let mut cols = String::new();
    let mut marks = String::new();
    let mut params: Vec<BoundParameter> = Vec::new();
    let mut i: usize = 0;
    while i < values.len()
        invariant
            i <= values@.len(),
            names == names_of(values@),
            cols@ == joined(names.subrange(0, i as int), ", "@),
            marks@ == joined(placeholders(i as nat), ", "@),
            params@.len() == i,
            forall|j: int| 0 <= j < i ==> parameter_of(#[trigger] values@[j].1) == Some(params@[j]),
        decreases values@.len() - i,
    {
        match to_parameter(&values[i].1) {
            Ok(p) => params.push(p),
            Err(e) => {
                assert(!all_values_supported(values@)) by {
                    assert(values@[i as int].1.kind() is None);
                }
                return Err(e);
            },
        }
        let ghost before = names.subrange(0, i as int);
        if i > 0 {
            cols.append(", ");
            marks.append(", ");
        }
        cols.append(values[i].0.as_str());
        marks.append("?");
        proof {
            lemma_joined_push(before, ", "@, names[i as int]);
            assert(names.subrange(0, i + 1) =~= before.push(names[i as int]));
            assert(cols@ =~= joined(names.subrange(0, i + 1), ", "@));
            lemma_joined_push(placeholders(i as nat), ", "@, "?"@);
            assert(placeholders((i + 1) as nat) =~= placeholders(i as nat).push("?"@));
            assert(marks@ =~= joined(placeholders((i + 1) as nat), ", "@));
        }
        i += 1;
    }
    assert(all_values_supported(values@)) by {
        assert forall|j: int| 0 <= j < values@.len() implies (#[trigger] values@[j]).1.kind() is Some by {
            assert(parameter_of(values@[j].1) is Some);
        }
    }
    assert(names.subrange(0, names.len() as int) =~= names);
    let mut sql = String::from_str("INSERT INTO ");
    sql.append(table);
    sql.append(" (");
    sql.append(cols.as_str());
    sql.append(") VALUES (");
    sql.append(marks.as_str());
    sql.append(")");
    assert(sql@ =~= insert_sql(table@, names));
    Ok((sql, params))
}

} // verus!
