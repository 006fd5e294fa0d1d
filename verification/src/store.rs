//! The database connection, as far as the engine uses it.
//!
//! Nothing here is proved: these functions hand SQL text to SQLite and hand
//! back what it answered. What a call returns depends on what the database
//! holds at that moment, so none of them promises anything about its result.

use crate::sql::ColumnInfo;
use fallible_iterator::FallibleIterator;
use vstd::prelude::*;

verus! {

/// `rusqlite::Connection`, of which the proofs know nothing.
#[verifier::external_type_specification]
#[verifier::external_body]
pub struct ExConnection(rusqlite::Connection);

/// `rusqlite::Error`, of which the proofs know nothing.
#[verifier::external_type_specification]
#[verifier::external_body]
pub struct ExError(rusqlite::Error);

/// Runs one statement through `rusqlite::Connection::execute`, with no
/// parameter bound, and returns the number of rows it changed. Nothing is
/// claimed of the outcome.
#[verifier::external_body]
pub(crate) fn execute(db: &rusqlite::Connection, sql: &str) -> (r: Result<
    usize,
    rusqlite::Error,
>) {
    db.execute(sql, [])
}

/// Runs a batch of statements through `rusqlite::Connection::execute_batch`.
/// Nothing is claimed of the outcome.
#[verifier::external_body]
pub(crate) fn execute_batch(db: &rusqlite::Connection, sql: &str) -> (r: Result<
    (),
    rusqlite::Error,
>) {
    db.execute_batch(sql)
}

/// Reads the first column of the first row of a query as an integer, through
/// `rusqlite::Connection::query_row` and `rusqlite::Row::get`. Nothing is
/// claimed of the outcome.
#[verifier::external_body]
pub(crate) fn query_int(db: &rusqlite::Connection, sql: &str) -> (r: Result<i32, rusqlite::Error>) {
    db.query_row(sql, [], |row| row.get(0))
}

/// Collects the first column of every row of a query as text, in the order
/// in which the rows come: `rusqlite::Connection::prepare`,
/// `rusqlite::Statement::query`, `rusqlite::Rows::map` and the `collect` of
/// `fallible_iterator`. Nothing is claimed of the outcome.
#[verifier::external_body]
pub(crate) fn query_texts(db: &rusqlite::Connection, sql: &str) -> (r: Result<
    Vec<String>,
    rusqlite::Error,
>) {
    let mut stmt = db.prepare(sql)?;
    let rows = stmt.query([])?;
    rows.map(|row| row.get(0)).collect()
}

/// Collects the six columns of every row of a schema pragma, in the order in
/// which the rows come, by the same calls as `query_texts`. Nothing is
/// claimed of the outcome.
#[verifier::external_body]
pub(crate) fn query_columns(db: &rusqlite::Connection, sql: &str) -> (r: Result<
    Vec<ColumnInfo>,
    rusqlite::Error,
>) {
    let mut stmt = db.prepare(sql)?;
    let rows = stmt.query([])?;
    rows.map(
        |row|
            Ok(
                ColumnInfo {
                    cid: row.get(0)?,
                    name: row.get(1)?,
                    decl_type: row.get(2)?,
                    notnull: row.get(3)?,
                    dflt_value: row.get(4)?,
                    pk: row.get(5)?,
                },
            ),
    ).collect()
}

} // verus!
