//! The SQLite connection: statements go in as text and plain values, rows
//! come back as plain values.

use rusqlite::types::ValueRef;
use rusqlite::{params_from_iter, Connection, ToSql};
use vstd::prelude::*;

verus! {

#[verifier::external_type_specification]
#[verifier::external_body]
pub struct ExConnection(Connection);

#[verifier::external_type_specification]
#[verifier::external_body]
pub struct ExError(rusqlite::Error);

/// A value bound to a parameter of a statement.
#[derive(Debug, Clone, PartialEq, Eq)]
pub enum SqlParam {
    Integer(i64),
    Text(String),
}

/// A value read from a column. A real number is held by its bits.
#[derive(Debug, Clone, PartialEq, Eq)]
pub enum SqlValue {
    Null,
    Integer(i64),
    Real(u64),
    Text(String),
    Blob(Vec<u8>),
}

/// One row of a result, column by column.
pub type Row = Vec<SqlValue>;

/// `rusqlite::Connection::execute`: runs one statement and returns the number
/// of rows it changed. The values of `params` are bound to the statement's
/// parameters in their order, an integer as an integer and a text as a text.
/// What the statement does depends on the database, so nothing is claimed of
/// the result.
#[verifier::external_body]
pub(crate) fn execute(conn: &Connection, sql: &str, params: &Vec<SqlParam>) -> Result<
    usize,
    rusqlite::Error,
> {
    let bound = params.iter().map(|param| match param {
        SqlParam::Integer(n) => n as &dyn ToSql,
        SqlParam::Text(text) => text as &dyn ToSql,
    });
    conn.execute(sql, params_from_iter(bound))
}

/// `rusqlite::Connection::prepare` and `rusqlite::Statement::query_map`: the
/// rows of a query in the order SQLite yields them. The values of `params`
/// are bound as in [`execute`]. Each column is read with
/// `rusqlite::Row::get_ref` and copied variant by variant; a text is read with
/// `rusqlite::Row::get`, which reports text that is not UTF-8 as an error. The
/// rows depend on the database, so nothing is claimed of them.
#[verifier::external_body]
pub(crate) fn query(conn: &Connection, sql: &str, params: &Vec<SqlParam>) -> Result<
    Vec<Row>,
    rusqlite::Error,
> {
    let bound = params.iter().map(|param| match param {
        SqlParam::Integer(n) => n as &dyn ToSql,
        SqlParam::Text(text) => text as &dyn ToSql,
    });
    let mut statement = conn.prepare(sql)?;
    let rows = statement.query_map(params_from_iter(bound), |row| {
        (0..row.as_ref().column_count()).map(|column| Ok(match row.get_ref(column)? {
            ValueRef::Null => SqlValue::Null,
            ValueRef::Integer(n) => SqlValue::Integer(n),
            ValueRef::Real(x) => SqlValue::Real(x.to_bits()),
            ValueRef::Text(_) => SqlValue::Text(row.get(column)?),
            ValueRef::Blob(bytes) => SqlValue::Blob(bytes.to_vec()),
        })).collect()
    })?;
    rows.collect()
}

/// `rusqlite::Connection::last_insert_rowid`: the row id of the latest
/// successful insert on this connection. Nothing is claimed of it.
pub assume_specification[ Connection::last_insert_rowid ](conn: &Connection) -> i64
;

/// The text that `rusqlite::Error` displays. Nothing is claimed of it.
#[verifier::external_body]
pub(crate) fn error_text(error: &rusqlite::Error) -> String {
    error.to_string()
}

} // verus!
