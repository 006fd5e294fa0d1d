//! What can go wrong while the engine talks to the database.

use vstd::prelude::*;

verus! {

/// An error of the undo engine. Misuse that the engine tolerates, such as
/// freezing twice or undoing with nothing left to undo, is no error: those
/// calls do nothing.
#[derive(Debug)]
pub enum UndoError {
    /// The schema of a table to record lists no column.
    NoColumns,
    /// Reading the schema of a table failed.
    Schema(rusqlite::Error),
    /// The database rejected a statement.
    Sql(rusqlite::Error),
}

} // verus!
