//! Undo and redo for SQLite tables.
//!
//! Temporary triggers on each registered table write, for every changed row,
//! the SQL statement that reverts the change into a session-local log.
//! Barriers cut that log into intervals, one per user-visible action, and an
//! undo or redo step replays one interval backwards.

pub mod error;
pub mod history;
pub mod sql;
pub mod store;
pub mod undo;
