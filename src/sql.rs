//! The SQLite connection, reached through rusqlite, and the plain values
//! that cross it.
use vstd::prelude::*;

verus! {

#[verifier::external_type_specification]
#[verifier::external_body]
pub struct ExConnection(rusqlite::Connection);

#[verifier::external_type_specification]
#[verifier::external_body]
pub struct ExSqlError(rusqlite::Error);

#[verifier::external_type_specification]
#[verifier::external_body]
pub struct ExSqlValue(rusqlite::types::Value);

/// A value bound to a statement parameter.
#[derive(Clone, Debug)]
pub enum SqlParam {
    Null,
    Integer(i64),
    Text(String),
    Blob(Vec<u8>),
}

/// A value read from a result column. A real number is carried as the bit
/// pattern of its double-precision value.
#[derive(Clone, Debug)]
pub enum SqlValue {
    Null,
    Integer(i64),
    Real(u64),
    Text(String),
    Blob(Vec<u8>),
}

/// Relies on rusqlite's `Connection::open_in_memory`.
#[verifier::external_body]
pub(crate) fn open_in_memory() -> (r: Result<rusqlite::Connection, rusqlite::Error>) {
    rusqlite::Connection::open_in_memory()
}

/// Relies on the variants of rusqlite's `Value` that match those of
/// `SqlParam`, one for one.
#[verifier::external_body]
fn bind_values(params: &Vec<SqlParam>) -> Vec<rusqlite::types::Value> {
    params.iter().map(|p| match p {
        SqlParam::Null => rusqlite::types::Value::Null,
        SqlParam::Integer(i) => rusqlite::types::Value::Integer(*i),
        SqlParam::Text(s) => rusqlite::types::Value::Text(s.clone()),
        SqlParam::Blob(b) => rusqlite::types::Value::Blob(b.clone()),
    }).collect()
}

/// Relies on the variants of rusqlite's `Value`, one for one.
#[verifier::external_body]
fn column_value(v: rusqlite::types::Value) -> SqlValue {
    match v {
        rusqlite::types::Value::Null => SqlValue::Null,
        rusqlite::types::Value::Integer(i) => SqlValue::Integer(i),
        rusqlite::types::Value::Real(x) => SqlValue::Real(x.to_bits()),
        rusqlite::types::Value::Text(s) => SqlValue::Text(s),
        rusqlite::types::Value::Blob(b) => SqlValue::Blob(b),
    }
}

/// Relies on rusqlite's `Connection::execute`: runs one statement with the
/// parameters bound in order, and returns the number of rows it changed.
#[verifier::external_body]
pub(crate) fn execute(conn: &rusqlite::Connection, sql: &str, params: &Vec<SqlParam>) -> (r: Result<
    usize,
    rusqlite::Error,
>) {
    conn.execute(sql, rusqlite::params_from_iter(bind_values(params)))
}

/// Relies on rusqlite's `Connection::execute_batch`: runs the statements of
/// the text in order.
#[verifier::external_body]
pub(crate) fn execute_batch(conn: &rusqlite::Connection, sql: &str) -> (r: Result<(), rusqlite::Error>) {
    conn.execute_batch(sql)
}

/// Relies on rusqlite's `Connection::last_insert_rowid`: the row identity
/// that the last successful insert assigned.
#[verifier::external_body]
pub(crate) fn last_insert_rowid(conn: &rusqlite::Connection) -> (r: i64) {
    conn.last_insert_rowid()
}

/// Relies on rusqlite's `Connection::prepare` and `Statement::query_map`:
/// runs a query with the parameters bound in order and returns each row's
/// columns in order.
#[verifier::external_body]
pub(crate) fn query(conn: &rusqlite::Connection, sql: &str, params: &Vec<SqlParam>) -> (r: Result<
    Vec<Vec<SqlValue>>,
    rusqlite::Error,
>) {
    let mut stmt = conn.prepare(sql)?;
    let n = stmt.column_count();
    let rows = stmt.query_map(rusqlite::params_from_iter(bind_values(params)), |row| {
        (0..n).map(|i| row.get::<usize, rusqlite::types::Value>(i).map(column_value)).collect()
    })?;
    rows.collect()
}

} // verus!
