use vstd::prelude::*;

verus! {

/// A parameter bound into a statement.
#[derive(Debug, Clone, PartialEq)]
pub enum SqlParam {
    Null,
    Integer(i64),
    Text(String),
}

/// One column value of a stored row. A real number is carried as its
/// IEEE-754 bit pattern.
#[derive(Debug, Clone, PartialEq)]
pub enum SqlValue {
    Null,
    Integer(i64),
    Real(u64),
    Text(String),
    Blob(Vec<u8>),
}

/// Errors of the entity store.
#[derive(Debug, Clone, Copy, PartialEq, Eq)]
pub enum StoreError {
    /// The underlying store failed: I/O, a constraint, a malformed statement.
    StorageFailure,
    /// No row has the requested identifier.
    NotFound,
    /// More than one row answered a lookup by identifier.
    AmbiguousResult,
    /// A row does not have the shape of the record it should hold.
    DecodeFailure,
    /// An update was attempted on a record that was never created.
    Unpersisted,
    /// A new user asked for a name that a stored user already has.
    UsernameTaken,
}

/// A statement to run against the store with the parameters bound to it,
/// positionally.
pub struct SqlRequest {
    pub sql: &'static str,
    pub params: Vec<SqlParam>,
}

/// The column value that a bound parameter is stored as.
pub open spec fn stored(p: SqlParam) -> SqlValue {
    match p {
        SqlParam::Null => SqlValue::Null,
        SqlParam::Integer(i) => SqlValue::Integer(i),
        SqlParam::Text(s) => SqlValue::Text(s),
    }
}

/// The row that a list of bound parameters is stored as.
pub open spec fn stored_row(ps: Seq<SqlParam>) -> Seq<SqlValue> {
    ps.map_values(|p: SqlParam| stored(p))
}

/// The parameter an optional identifier is bound as.
pub open spec fn opt_i64_param(o: Option<i64>) -> SqlParam {
    match o {
        Some(i) => SqlParam::Integer(i),
        None => SqlParam::Null,
    }
}

/// The parameter an unsigned field is bound as: its two's-complement bits.
pub open spec fn u64_param(x: u64) -> SqlParam {
    SqlParam::Integer(x as i64)
}

/// The parameter an optional unsigned field is bound as.
pub open spec fn opt_u64_param(o: Option<u64>) -> SqlParam {
    match o {
        Some(x) => u64_param(x),
        None => SqlParam::Null,
    }
}

/// The signed integer a column holds, if it holds one.
pub open spec fn i64_of(v: SqlValue) -> Option<i64> {
    match v {
        SqlValue::Integer(i) => Some(i),
        _ => None,
    }
}

/// The optional signed integer a column holds: `NULL` or an integer.
pub open spec fn opt_i64_of(v: SqlValue) -> Option<Option<i64>> {
    match v {
        SqlValue::Null => Some(None),
        SqlValue::Integer(i) => Some(Some(i)),
        _ => None,
    }
}

/// The unsigned integer a column holds, read back from its two's-complement bits.
pub open spec fn u64_of(v: SqlValue) -> Option<u64> {
    match v {
        SqlValue::Integer(i) => Some(i as u64),
        _ => None,
    }
}

/// The optional unsigned integer a column holds: `NULL` or an integer.
pub open spec fn opt_u64_of(v: SqlValue) -> Option<Option<u64>> {
    match v {
        SqlValue::Null => Some(None),
        SqlValue::Integer(i) => Some(Some(i as u64)),
        _ => None,
    }
}

/// The IEEE-754 bit pattern a coordinate column holds: stored as an integer,
/// or as a real number.
pub open spec fn bits_of(v: SqlValue) -> Option<u64> {
    match v {
        SqlValue::Integer(i) => Some(i as u64),
        SqlValue::Real(b) => Some(b),
        _ => None,
    }
}

/// The string a column holds, if it holds text.
pub open spec fn text_of(v: SqlValue) -> Option<String> {
    match v {
        SqlValue::Text(s) => Some(s),
        _ => None,
    }
}

pub fn bind_opt_i64(o: Option<i64>) -> (r: SqlParam)
    ensures
        r == opt_i64_param(o),
{
    match o {
        Some(i) => SqlParam::Integer(i),
        None => SqlParam::Null,
    }
}

pub fn bind_u64(x: u64) -> (r: SqlParam)
    ensures
        r == u64_param(x),
{
    SqlParam::Integer(x as i64)
}

pub fn bind_opt_u64(o: Option<u64>) -> (r: SqlParam)
    ensures
        r == opt_u64_param(o),
{
    match o {
        Some(x) => bind_u64(x),
        None => SqlParam::Null,
    }
}

pub fn read_i64(v: &SqlValue) -> (r: Option<i64>)
    ensures
        r == i64_of(*v),
{
    match v {
        SqlValue::Integer(i) => Some(*i),
        _ => None,
    }
}

pub fn read_opt_i64(v: &SqlValue) -> (r: Option<Option<i64>>)
    ensures
        r == opt_i64_of(*v),
{
    match v {
        SqlValue::Null => Some(None),
        SqlValue::Integer(i) => Some(Some(*i)),
        _ => None,
    }
}

pub fn read_u64(v: &SqlValue) -> (r: Option<u64>)
    ensures
        r == u64_of(*v),
{
    match v {
        SqlValue::Integer(i) => Some(*i as u64),
        _ => None,
    }
}

pub fn read_opt_u64(v: &SqlValue) -> (r: Option<Option<u64>>)
    ensures
        r == opt_u64_of(*v),
{
    match v {
        SqlValue::Null => Some(None),
        SqlValue::Integer(i) => Some(Some(*i as u64)),
        _ => None,
    }
}

pub fn read_bits(v: &SqlValue) -> (r: Option<u64>)
    ensures
        r == bits_of(*v),
{
    match v {
        SqlValue::Integer(i) => Some(*i as u64),
        SqlValue::Real(b) => Some(*b),
        _ => None,
    }
}

pub fn read_text(v: &SqlValue) -> (r: Option<String>)
    ensures
        r == text_of(*v),
{
    match v {
        SqlValue::Text(s) => Some(s.clone()),
        _ => None,
    }
}

/// Reading back an unsigned field bound as a parameter gives the field.
pub proof fn lemma_u64_round_trip(x: u64)
    ensures
        u64_of(stored(u64_param(x))) == Some(x),
        bits_of(stored(u64_param(x))) == Some(x),
        opt_u64_of(stored(opt_u64_param(Some(x)))) == Some(Some(x)),
{
    assert((x as i64) as u64 == x) by (bit_vector);
}

} // verus!
