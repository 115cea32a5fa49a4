//! The calls into `rusqlite`, each behind a contract that Verus believes.
//!
//! What a database answers depends on the file behind it, so none of these
//! contracts promises success or says what a statement does to the stored rows.
//! The one thing claimed is a refusal that `rusqlite` decides before it reaches
//! the database.

use vstd::prelude::*;

verus! {

/// `rusqlite::Connection`, a handle to one open database. Opaque here.
#[verifier::external_type_specification]
#[verifier::external_body]
pub struct ExConnection(rusqlite::Connection);

/// `rusqlite::Statement`, a statement compiled for one connection. Opaque here.
#[verifier::external_type_specification]
#[verifier::external_body]
pub struct ExStatement<'c>(rusqlite::Statement<'c>);

/// `rusqlite::Error`, whatever went wrong in a call into the database. Opaque
/// here but for what it says of itself when displayed.
#[verifier::external_type_specification]
#[verifier::external_body]
pub struct ExError(rusqlite::Error);

/// One row of the entries table as the database hands it out: id, text, timestamp.
pub type RawRow = (i64, String, String);

/// `rusqlite::Connection::open`: opens the database at `path`, a file name or
/// an SQLite URI, for reading and writing, creating the file if there is none.
/// Claimed: a path that holds a NUL character is refused. `rusqlite` turns the
/// path into a C string before it opens anything, and that conversion fails on
/// a NUL. Of every other path the outcome is the database's, and nothing is
/// claimed of it.
#[verifier::external_body]
pub(crate) fn open_connection(path: &str) -> (outcome: Result<rusqlite::Connection, rusqlite::Error>)
    ensures
        path@.contains('\0') ==> outcome is Err,
{
    rusqlite::Connection::open(path)
}

/// `rusqlite::Connection::execute`: runs the single statement `sql` with `params`
/// bound to its placeholders in order, and on success returns the number of rows
/// that it changed. Nothing is claimed of the outcome.
#[verifier::external_body]
pub(crate) fn execute(conn: &rusqlite::Connection, sql: &str, params: &Vec<String>) -> (outcome: Result<usize, rusqlite::Error>)
{
    conn.execute(sql, rusqlite::params_from_iter(params.iter()))
}

/// `rusqlite::Connection::last_insert_rowid`: the row id of the most recent
/// successful insert on this connection. Nothing is claimed of its value.
#[verifier::external_body]
pub(crate) fn last_insert_rowid(conn: &rusqlite::Connection) -> (rowid: i64)
{
    conn.last_insert_rowid()
}

/// `rusqlite::Connection::prepare`: compiles the single statement `sql` for
/// this connection. Nothing is claimed of the outcome.
#[verifier::external_body]
pub(crate) fn prepare<'c>(conn: &'c rusqlite::Connection, sql: &str) -> (outcome: Result<rusqlite::Statement<'c>, rusqlite::Error>)
{
    conn.prepare(sql)
}

/// `rusqlite::Statement::query_map`: runs the prepared query with `params` bound
/// to its placeholders in order, and reads columns 0, 1 and 2 of each row it
/// yields with `rusqlite::Row::get`. The outer result fails when the parameters
/// cannot be bound; each inner one fails when its row cannot be stepped to or
/// read as an integer and two strings. Nothing is claimed of the outcome.
#[verifier::external_body]
pub(crate) fn query_rows(stmt: &mut rusqlite::Statement<'_>, params: &Vec<String>) -> (outcome: Result<Vec<Result<RawRow, rusqlite::Error>>, rusqlite::Error>)
{
    let rows = stmt.query_map(rusqlite::params_from_iter(params.iter()), |row| {
        Ok((row.get(0)?, row.get(1)?, row.get(2)?))
    })?;
    Ok(rows.collect())
}

} // verus!
