//! Conversions between host values, bound parameters and reported cell text.
use vstd::prelude::*;
use crate::text::{decimal, int_text, integer_text, joined, lemma_joined_push, push_decimal};

verus! {

/// The logical kinds that a parameter or a column can have.
#[derive(Clone, Copy, Debug, PartialEq, Eq, Structural)]
pub enum ValueKind {
    Integer,
    Real,
    Text,
    Boolean,
}

/// A host value as classified once at the host boundary.
///
/// The boundary gives each value exactly one variant. A host boolean is
/// classified as `Boolean`, never as `Integer`, even in hosts whose booleans
/// are also integers. A real is carried as its IEEE-754 binary64 bit pattern.
/// Everything the library cannot bind (null, collections, other objects) is
/// `Unsupported`.
#[derive(Clone, Debug)]
pub enum DynamicValue {
    Integer(i64),
    Real(u64),
    Text(String),
    Boolean(bool),
    Unsupported,
}

/// A value ready for positional binding; its tag is one of the four kinds.
#[derive(Clone, Debug)]
pub enum BoundParameter {
    Integer(i64),
    Real(u64),
    Text(String),
    Boolean(bool),
}

/// The host value could not be bound.
#[derive(Clone, Copy, Debug, PartialEq, Eq, Structural)]
pub enum MarshalError {
    UnsupportedType,
}

impl DynamicValue {
    /// The kind of a supported value; `None` for an unsupported one.
    pub open spec fn kind(self) -> Option<ValueKind> {
        match self {
            DynamicValue::Integer(_) => Some(ValueKind::Integer),
            DynamicValue::Real(_) => Some(ValueKind::Real),
            DynamicValue::Text(_) => Some(ValueKind::Text),
            DynamicValue::Boolean(_) => Some(ValueKind::Boolean),
            DynamicValue::Unsupported => None,
        }
    }
}

impl BoundParameter {
    pub open spec fn kind(self) -> ValueKind {
        match self {
            BoundParameter::Integer(_) => ValueKind::Integer,
            BoundParameter::Real(_) => ValueKind::Real,
            BoundParameter::Text(_) => ValueKind::Text,
            BoundParameter::Boolean(_) => ValueKind::Boolean,
        }
    }
}

/// The parameter that a host value binds as, with its payload unchanged.
pub open spec fn parameter_of(v: DynamicValue) -> Option<BoundParameter> {
    match v {
        DynamicValue::Integer(i) => Some(BoundParameter::Integer(i)),
        DynamicValue::Real(bits) => Some(BoundParameter::Real(bits)),
        DynamicValue::Text(s) => Some(BoundParameter::Text(s)),
        DynamicValue::Boolean(b) => Some(BoundParameter::Boolean(b)),
        DynamicValue::Unsupported => None,
    }
}

/// Marshals one host value, checking integer, real, text and boolean in turn.
pub fn to_parameter(value: &DynamicValue) -> (r: Result<BoundParameter, MarshalError>)
    ensures
        r is Ok <==> value.kind() is Some,
        r matches Ok(p) ==> Some(p.kind()) == value.kind(),
        match parameter_of(*value) {
            Some(p) => r == Ok::<BoundParameter, MarshalError>(p),
            None => r == Err::<BoundParameter, MarshalError>(MarshalError::UnsupportedType),
        },
{
    match value {
        DynamicValue::Integer(i) => Ok(BoundParameter::Integer(*i)),
        DynamicValue::Real(bits) => Ok(BoundParameter::Real(*bits)),
        DynamicValue::Text(s) => Ok(BoundParameter::Text(s.clone())),
        DynamicValue::Boolean(b) => Ok(BoundParameter::Boolean(*b)),
        DynamicValue::Unsupported => Err(MarshalError::UnsupportedType),
    }
}

/// Whether every value of the sequence can be bound.
pub open spec fn all_supported(values: Seq<DynamicValue>) -> bool {
    forall|i: int| 0 <= i < values.len() ==> (#[trigger] values[i]).kind() is Some
}

/// Marshals an argument list in order, failing on the first value that
/// cannot be bound.
pub fn to_parameters(values: &Vec<DynamicValue>) -> (r: Result<Vec<BoundParameter>, MarshalError>)
    ensures
        r is Ok <==> all_supported(values@),
        r is Err ==> r == Err::<Vec<BoundParameter>, MarshalError>(MarshalError::UnsupportedType),
        r matches Ok(ps) ==> ps@.len() == values@.len() && forall|i: int|
            0 <= i < values@.len() ==> parameter_of(#[trigger] values@[i]) == Some(ps@[i]),
{
    let mut out: Vec<BoundParameter> = Vec::new();
    let mut i: usize = 0;
    while i < values.len()
        invariant
            i <= values@.len(),
            out@.len() == i,
            forall|j: int| 0 <= j < i ==> parameter_of(#[trigger] values@[j]) == Some(out@[j]),
        decreases values@.len() - i,
    {
        match to_parameter(&values[i]) {
            Ok(p) => out.push(p),
            Err(e) => {
                assert(!all_supported(values@)) by {
                    assert(values@[i as int].kind() is None);
                }
                return Err(e);
            },
        }
        i += 1;
    }
    assert(all_supported(values@)) by {
        assert forall|j: int| 0 <= j < values@.len() implies (#[trigger] values@[j]).kind() is Some by {
            assert(parameter_of(values@[j]) is Some);
        }
    }
    Ok(out)
}

/// One cell of a result row as the engine reports it.
///
/// A real cell arrives as the decimal text that the engine boundary renders
/// for it (the shortest text that reads back as the same binary64 value).
#[derive(Clone, Debug)]
pub enum EngineValue {
    Integer(i64),
    Real(String),
    Text(String),
    Blob(Vec<u8>),
    Null,
}

/// The byte values in decimal, comma separated, inside square brackets.
pub open spec fn blob_text(b: Seq<u8>) -> Seq<char> {
    seq!['['] + joined(b.map_values(|x: u8| decimal(x as nat)), seq![',', ' ']) + seq![']']
}

/// The text a cell is reported as.
pub open spec fn display_text(cell: EngineValue) -> Seq<char> {
    match cell {
        EngineValue::Integer(i) => int_text(i as int),
        EngineValue::Real(t) => t@,
        EngineValue::Text(s) => s@,
        EngineValue::Blob(b) => blob_text(b@),
        EngineValue::Null => seq!['N', 'U', 'L', 'L'],
    }
}

/// Renders a byte string in the fixed, bracketed list form.
pub fn blob_display(b: &Vec<u8>) -> (r: String)
    ensures
        r@ == blob_text(b@),
{
    let ghost sep = seq![',', ' '];
    let mut s = String::new();
    s.push('[');
    let mut i: usize = 0;
    while i < b.len()
        invariant
            i <= b@.len(),
            sep == seq![',', ' '],
            s@ == seq!['['] + joined(b@.subrange(0, i as int).map_values(|x: u8| decimal(x as nat)), sep),
        decreases b@.len() - i,
    {
        let ghost before = s@;
        let ghost parts = b@.subrange(0, i as int).map_values(|x: u8| decimal(x as nat));
        if i > 0 {
            s.push(',');
            s.push(' ');
        }
        push_decimal(&mut s, b[i] as u64);
        proof {
            lemma_joined_push(parts, sep, decimal(b@[i as int] as nat));
            assert(b@.subrange(0, i + 1).map_values(|x: u8| decimal(x as nat))
                =~= parts.push(decimal(b@[i as int] as nat)));
            assert(s@ =~= seq!['['] + joined(parts.push(decimal(b@[i as int] as nat)), sep));
        }
        i += 1;
    }
    s.push(']');
    assert(b@.subrange(0, b@.len() as int) =~= b@);
    assert(s@ =~= blob_text(b@));
    s
}

/// Reports a cell as text; never fails.
pub fn to_display_text(cell: &EngineValue) -> (r: String)
    ensures
        r@ == display_text(*cell),
{
    match cell {
        EngineValue::Integer(i) => integer_text(*i),
        EngineValue::Real(t) => t.clone(),
        EngineValue::Text(s) => s.clone(),
        EngineValue::Blob(b) => blob_display(b),
        EngineValue::Null => {
            let mut s = String::new();
            s.push('N');
            s.push('U');
            s.push('L');
            s.push('L');
            s
        },
    }
}

/// Reports every cell of a row, in column order.
pub fn render_row(cells: &Vec<EngineValue>) -> (r: Vec<String>)
    ensures
        r@.len() == cells@.len(),
        forall|i: int| 0 <= i < cells@.len() ==> (#[trigger] r@[i])@ == display_text(cells@[i]),
{
    let mut out: Vec<String> = Vec::new();
    let mut i: usize = 0;
    while i < cells.len()
        invariant
            i <= cells@.len(),
            out@.len() == i,
            forall|j: int| 0 <= j < i ==> (#[trigger] out@[j])@ == display_text(cells@[j]),
        decreases cells@.len() - i,
    {
        out.push(to_display_text(&cells[i]));
        i += 1;
    }
    out
}

/// Reports every row of a result set, in row order; no rows give no rows.
pub fn render_rows(rows: &Vec<Vec<EngineValue>>) -> (r: Vec<Vec<String>>)
    ensures
        r@.len() == rows@.len(),
        forall|i: int| 0 <= i < rows@.len() ==> (#[trigger] r@[i])@.len() == rows@[i]@.len(),
        forall|i: int, j: int|
            0 <= i < rows@.len() && 0 <= j < rows@[i]@.len() ==> (#[trigger] r@[i]@[j])@
                == display_text(rows@[i]@[j]),
{
    let mut out: Vec<Vec<String>> = Vec::new();
    let mut i: usize = 0;
    while i < rows.len()
        invariant
            i <= rows@.len(),
            out@.len() == i,
            forall|k: int| 0 <= k < i ==> (#[trigger] out@[k])@.len() == rows@[k]@.len(),
            forall|k: int, j: int|
                0 <= k < i && 0 <= j < rows@[k]@.len() ==> (#[trigger] out@[k]@[j])@
                    == display_text(rows@[k]@[j]),
        decreases rows@.len() - i,
    {
        out.push(render_row(&rows[i]));
        i += 1;
    }
    out
}

} // verus!
