//! The calls into rusqlite that the record store makes. What they return
//! depends on the database file, so no wrapper promises anything of its
//! result; the statements and values handed to them are fixed in
//! `statements` and `record`.

use vstd::prelude::*;
use crate::record::{SqlValue, StoredRow};

verus! {

#[verifier::external_type_specification]
#[verifier::external_body]
pub struct ExConnection(rusqlite::Connection);

#[verifier::external_type_specification]
#[verifier::external_body]
pub struct ExStatement<'conn>(rusqlite::Statement<'conn>);

#[verifier::external_type_specification]
#[verifier::external_body]
pub struct ExRow<'stmt>(rusqlite::Row<'stmt>);

#[verifier::external_type_specification]
#[verifier::external_body]
pub struct ExError(rusqlite::Error);

/// Relies on rusqlite::Connection::open: opens, or creates, the database file
/// at `path`.
#[verifier::external_body]
pub(crate) fn open_connection(path: &str) -> (r: Result<rusqlite::Connection, rusqlite::Error>) {
    rusqlite::Connection::open(path)
}

/// Relies on rusqlite::Connection::execute: runs one statement with `params`
/// bound to ?1, ?2, ... in order, and returns the number of rows changed.
#[verifier::external_body]
pub(crate) fn execute_statement(
    conn: &rusqlite::Connection,
    sql: &str,
    params: Vec<SqlValue>,
) -> (r: Result<usize, rusqlite::Error>) {
    let values = params.into_iter().map(|v| match v {
        SqlValue::Null => rusqlite::types::Value::Null,
        SqlValue::Integer(i) => rusqlite::types::Value::Integer(i),
        SqlValue::Text(s) => rusqlite::types::Value::Text(s),
    });
    conn.execute(sql, rusqlite::params_from_iter(values))
}

/// Relies on rusqlite::Connection::last_insert_rowid: the rowid of the most
/// recent successful insert on this connection.
#[verifier::external_body]
pub(crate) fn last_insert_rowid(conn: &rusqlite::Connection) -> (r: i64) {
    conn.last_insert_rowid()
}

/// Relies on rusqlite::Connection::prepare: compiles one statement.
#[verifier::external_body]
pub(crate) fn prepare_statement<'conn>(
    conn: &'conn rusqlite::Connection,
    sql: &str,
) -> (r: Result<rusqlite::Statement<'conn>, rusqlite::Error>) {
    conn.prepare(sql)
}

/// Relies on rusqlite::Statement::query_map: runs a statement without
/// parameters and decodes each result row, in the order the rows come, with
/// `read_stored_row`; the first failure ends the walk.
#[verifier::external_body]
pub(crate) fn query_rows(stmt: &mut rusqlite::Statement) -> (r: Result<Vec<StoredRow>, rusqlite::Error>) {
    stmt.query_map([], |row| crate::store::read_stored_row(row))?.collect()
}

/// Relies on rusqlite::Row::get at type i64: the integer in the named column.
#[verifier::external_body]
pub(crate) fn column_integer(row: &rusqlite::Row, column: &str) -> (r: Result<i64, rusqlite::Error>) {
    row.get(column)
}

/// Relies on rusqlite::Row::get at type String: the text in the named column.
#[verifier::external_body]
pub(crate) fn column_text(row: &rusqlite::Row, column: &str) -> (r: Result<String, rusqlite::Error>) {
    row.get(column)
}

/// Relies on rusqlite::Row::get at type Option<String>: the text in the named
/// column, or `None` where it is NULL.
#[verifier::external_body]
pub(crate) fn column_optional_text(
    row: &rusqlite::Row,
    column: &str,
) -> (r: Result<Option<String>, rusqlite::Error>) {
    row.get(column)
}

/// Relies on rusqlite::Error's Display impl: a description of the failure.
#[verifier::external_body]
pub(crate) fn error_text(e: &rusqlite::Error) -> (r: String) {
    e.to_string()
}

} // verus!
