use vstd::prelude::*;
use std::str::from_utf8;
use rusqlite::params_from_iter;
use rusqlite::types::{Value, ValueRef};
use crate::value::SqlValue::{Blob, Integer, Null, Real, Text};
use crate::value::{SqlParam, SqlValue};

verus! {

#[verifier::external_type_specification]
#[verifier::external_body]
pub struct ExConnection(rusqlite::Connection);

#[verifier::external_type_specification]
#[verifier::external_body]
pub struct ExError(rusqlite::Error);

/// Relies on rusqlite::Connection::last_insert_rowid: the rowid of the most
/// recent successful insert on this connection (nothing is assumed of it).
pub assume_specification[ rusqlite::Connection::last_insert_rowid ](conn: &rusqlite::Connection) -> i64;

/// Relies on rusqlite::Connection::execute: runs one statement with the given
/// parameters bound positionally (params_from_iter) and reports how many rows it changed. What it
/// returns depends on the stored data, so nothing is assumed of the result.
#[verifier::external_body]
pub(crate) fn execute(conn: &rusqlite::Connection, sql: &str, params: Vec<SqlParam>) -> (r: Result<usize, rusqlite::Error>)
{
    let values = params.into_iter().map(|p| match p {
        SqlParam::Null => Value::Null,
        SqlParam::Integer(i) => Value::Integer(i),
        SqlParam::Text(s) => Value::Text(s),
    });
    conn.execute(sql, params_from_iter(values))
}

/// Relies on rusqlite's Connection::prepare, Statement::column_count,
/// Statement::query_map and Row::get_ref: runs one query with the given
/// parameters bound positionally (params_from_iter) and hands back every
/// result row, each with one value per result column. Text that is not UTF-8
/// comes back as rusqlite's Utf8Error. What
/// it returns depends on the stored data, so nothing is assumed of the rows.
#[verifier::external_body]
pub(crate) fn query_rows(conn: &rusqlite::Connection, sql: &str, params: Vec<SqlParam>) -> (r: Result<Vec<Vec<SqlValue>>, rusqlite::Error>)
{
    let mut stmt = conn.prepare(sql)?;
    let n = stmt.column_count();
    let rows = stmt.query_map(params_from_iter(params.into_iter().map(|p| match p {
        SqlParam::Null => Value::Null,
        SqlParam::Integer(i) => Value::Integer(i),
        SqlParam::Text(s) => Value::Text(s),
    })), |row| (0..n).map(|i| Ok(match row.get_ref(i)? {
        ValueRef::Null => Null,
        ValueRef::Integer(i) => Integer(i),
        ValueRef::Real(f) => Real(f.to_bits()),
        ValueRef::Text(t) => Text(from_utf8(t)?.to_owned()),
        ValueRef::Blob(b) => Blob(b.to_vec()),
    })).collect())?;
    rows.collect()
}

} // verus!
