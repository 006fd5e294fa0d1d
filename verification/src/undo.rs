//! The undo engine: a database connection together with the interval
//! tracker, and the operations that keep the two in step.
//!
//! What the database answers is not known to the proofs. The contracts
//! therefore say which transition of [`History`] each operation performs, for
//! whatever sequence numbers the log reported, and in which states an
//! operation can stop when the database fails under it.

use crate::error::UndoError;
use crate::history::{History, Stack, Undo};
use crate::sql::{
    delete_above_sql, delete_interval_sql, drop_trigger_sql, is_recorder_name,
    select_interval_sql, table_info_sql, table_triggers_sql, BEGIN, COMMIT, CREATE_LOG, DROP_LOG,
    LOG_NEXT, LOG_TAIL, TRIGGER_NAMES,
};
use crate::store::{execute, execute_batch, query_columns, query_int, query_texts};
use vstd::prelude::*;

verus! {

/// Undo and redo over the tables of one SQLite connection.
pub struct SQLiteUndoRedo<'c> {
    db: &'c rusqlite::Connection,
    _undo: Undo,
}

impl<'c> View for SQLiteUndoRedo<'c> {
    type V = History;

    closed spec fn view(&self) -> History {
        self._undo@
    }
}

/// Whether `after` is a state in which a step from `from` may stop when the
/// database fails under it: the interval is taken from `from`; the open
/// interval may have moved; and the mirror interval may be on the other stack
/// already.
pub open spec fn step_cut_short(before: History, from: Stack, after: History) -> bool {
    let taken = before.popped(from).started(after.firstlog);
    after == taken || exists|end: i32| after == #[trigger] taken.pushed(from.other(), end)
}

impl<'c> SQLiteUndoRedo<'c> {
    /// An inactive engine on the connection `conn`.
    pub fn new(conn: &'c rusqlite::Connection) -> (r: SQLiteUndoRedo<'c>)
        ensures
            r@ == History::initial(),
    {
        SQLiteUndoRedo { db: conn, _undo: Undo::new() }
    }

    /// The interval tracker, for reading.
    pub fn state(&self) -> (r: &Undo)
        ensures
            r@ == self@,
            r@.wf(),
    {
        proof {
            use_type_invariant(&self._undo);
        }
        &self._undo
    }

    /// Starts recording the changes of the tables `args`. Does nothing if
    /// recording is on already.
    ///
    /// On success both stacks are empty, the engine is active and not frozen,
    /// and the open interval begins where the log said.
    pub fn activate(&mut self, args: &[&str]) -> (r: Result<(), UndoError>)
        ensures
            old(self)@.active ==> r is Ok && final(self)@ == old(self)@,
            r is Ok ==> final(self)@ == old(self)@.activate(final(self)@.firstlog),
            r is Ok ==> final(self)@.active && final(self)@.freeze is Some,
            r is Ok && !old(self)@.active ==> final(self)@.undostack.len() == 0
                && final(self)@.redostack.len() == 0 && final(self)@.freeze == Some(-1i32),
            r is Err ==> !old(self)@.active && (final(self)@ == old(self)@ || (r->Err_0 is Sql
                && final(self)@ == old(self)@.reset(true))),
    {
        proof {
            use_type_invariant(&self._undo);
        }
        if self._undo.is_active() {
            return Ok(());
        }
        match _create_triggers(self.db, args) {
            Ok(()) => {},
            Err(e) => {
                return Err(e);
            },
        }
        self._undo.reset(true);
        self._start_interval()
    }

    /// Stops recording: drops the recording triggers and the log, and
    /// forgets both stacks. Does nothing if recording is off already.
    pub fn deactivate(&mut self) -> (r: Result<(), UndoError>)
        ensures
            !old(self)@.active ==> r is Ok && final(self)@ == old(self)@,
            r is Ok ==> final(self)@ == old(self)@.deactivate(),
            r is Ok ==> !final(self)@.active && final(self)@.undostack.len() == 0
                && final(self)@.redostack.len() == 0,
            r is Ok && old(self)@.active ==> final(self)@.freeze == Some(-1i32),
            r is Err ==> r->Err_0 is Sql && final(self)@ == old(self)@,
    {
        proof {
            use_type_invariant(&self._undo);
        }
        if !self._undo.is_active() {
            return Ok(());
        }
        match _drop_triggers(self.db) {
            Ok(()) => {},
            Err(e) => {
                return Err(e);
            },
        }
        self._undo.reset(false);
        Ok(())
    }

    /// Stops taking changes into the undo stack: from now until `unfreeze`,
    /// what the log receives stays out of every interval. Does nothing if the
    /// engine was never activated, or is frozen already.
    pub fn freeze(&mut self) -> (r: Result<(), UndoError>)
        ensures
            !old(self)@.freezable() ==> r is Ok && final(self)@ == old(self)@,
            r is Ok ==> exists|tail: i32| final(self)@ == #[trigger] old(self)@.freeze(tail),
            r is Ok && old(self)@.freezable() ==> final(self)@.freeze is Some,
            r is Err ==> r->Err_0 is Sql && final(self)@ == old(self)@,
    {
        if !self._undo.is_freezable() {
            assert(self@ == old(self)@.freeze(0));
            return Ok(());
        }
        match query_int(self.db, LOG_TAIL) {
            Ok(tail) => {
                self._undo.freeze(tail);
                assert(self@ == old(self)@.freeze(tail));
                Ok(())
            },
            Err(e) => Err(UndoError::Sql(e)),
        }
    }

    /// Takes changes into the undo stack again, and removes from the log
    /// what it received while frozen. Does nothing if the engine is not
    /// frozen.
    pub fn unfreeze(&mut self) -> (r: Result<(), UndoError>)
        ensures
            !old(self)@.frozen() ==> r is Ok,
            r is Ok ==> final(self)@ == old(self)@.unfreeze(),
            r is Err ==> r->Err_0 is Sql && final(self)@ == old(self)@,
    {
        let mark = match self._undo.freeze_mark() {
            Some(k) => if k >= 0 {
                k
            } else {
                return Ok(());
            },
            None => {
                return Ok(());
            },
        };
        let sql = delete_above_sql(mark);
        match execute(self.db, sql.as_str()) {
            Ok(_) => {
                self._undo.unfreeze();
                Ok(())
            },
            Err(e) => Err(UndoError::Sql(e)),
        }
    }

    /// Notes that something undoable has happened. The caller makes the
    /// barrier itself: nothing is scheduled.
    pub fn event(self) {
    }

    /// Closes the open interval now: what the log received since the last
    /// barrier becomes one step on the undo stack, and the redo stack is
    /// dropped. Does nothing if the engine is inactive, or if the log
    /// received nothing.
    pub fn barrier(&mut self) -> (r: Result<(), UndoError>)
        ensures
            !old(self)@.active ==> r is Ok,
            r is Ok ==> exists|end: i32| final(self)@ == #[trigger] old(self)@.barrier(end, final(self)@.firstlog),
            r is Ok ==> final(self)@.redostack.len() == 0 || final(self)@ == old(self)@,
            r is Err ==> r->Err_0 is Sql && final(self)@ == old(self)@,
    {
        if !self._undo.is_active() {
            assert(self@ == old(self)@.barrier(0, self@.firstlog));
            self.refresh();
            return Ok(());
        }
        let end = match query_int(self.db, LOG_TAIL) {
            Ok(end) => end,
            Err(e) => {
                return Err(UndoError::Sql(e));
            },
        };
        let next = match query_int(self.db, LOG_NEXT) {
            Ok(next) => next,
            Err(e) => {
                return Err(UndoError::Sql(e));
            },
        };
        self._undo.barrier(end, next);
        assert(self@ == old(self)@.barrier(end, self@.firstlog));
        self.refresh();
        Ok(())
    }

    /// Undoes the latest step on the undo stack and puts its mirror on the
    /// redo stack. Does nothing if the undo stack is empty.
    pub fn undo(&mut self) -> (r: Result<(), UndoError>)
        ensures
            old(self)@.undostack.len() == 0 ==> r is Ok && final(self)@ == old(self)@,
            r is Ok ==> exists|mid: i32, end: i32|
                final(self)@ == #[trigger] old(self)@.undo(mid, end, final(self)@.firstlog),
            r is Ok && old(self)@.undostack.len() > 0 ==> final(self)@.undostack == old(
                self,
            )@.undostack.drop_last() && final(self)@.redostack.drop_last() == old(self)@.redostack,
            r is Err ==> r->Err_0 is Sql && step_cut_short(old(self)@, Stack::Undo, final(self)@),
    {
        let r = self._step(Stack::Undo, Stack::Redo);
        proof {
            if r is Ok {
                let (mid, end) = choose|mid: i32, end: i32|
                    self@ == #[trigger] old(self)@.step(Stack::Undo, mid, end, self@.firstlog);
                assert(self@ == old(self)@.undo(mid, end, self@.firstlog));
            }
        }
        r
    }

    /// Redoes the latest step on the redo stack and puts its mirror on the
    /// undo stack. Does nothing if the redo stack is empty.
    pub fn redo(&mut self) -> (r: Result<(), UndoError>)
        ensures
            old(self)@.redostack.len() == 0 ==> r is Ok && final(self)@ == old(self)@,
            r is Ok ==> exists|mid: i32, end: i32|
                final(self)@ == #[trigger] old(self)@.redo(mid, end, final(self)@.firstlog),
            r is Ok && old(self)@.redostack.len() > 0 ==> final(self)@.redostack == old(
                self,
            )@.redostack.drop_last() && final(self)@.undostack.drop_last() == old(self)@.undostack,
            r is Err ==> r->Err_0 is Sql && step_cut_short(old(self)@, Stack::Redo, final(self)@),
    {
        let r = self._step(Stack::Redo, Stack::Undo);
        proof {
            if r is Ok {
                let (mid, end) = choose|mid: i32, end: i32|
                    self@ == #[trigger] old(self)@.step(Stack::Redo, mid, end, self@.firstlog);
                assert(self@ == old(self)@.redo(mid, end, self@.firstlog));
            }
        }
        r
    }

    /// Called after every barrier and every step, when the controls of a
    /// user interface may have to change. No observer is attached here.
    pub fn refresh(&self) {
    }

    /// Called after a step has changed the tables, when everything drawn
    /// from them may have to be drawn again. No observer is attached here.
    pub fn reload_all(&self) {
    }

    /// Tells which of the two controls of a user interface have something to
    /// act on: first undo, then redo.
    pub fn status_refresh(&self) -> (r: (bool, bool))
        ensures
            r.0 == (self@.undostack.len() > 0),
            r.1 == (self@.redostack.len() > 0),
    {
        proof {
            use_type_invariant(&self._undo);
        }
        (self._undo.can_undo(), self._undo.can_redo())
    }

    /// Opens the next interval where the log says its next row will go.
    pub fn _start_interval(&mut self) -> (r: Result<(), UndoError>)
        ensures
            r is Ok ==> final(self)@ == old(self)@.started(final(self)@.firstlog),
            r is Err ==> r->Err_0 is Sql && final(self)@ == old(self)@,
    {
        proof {
            use_type_invariant(&self._undo);
        }
        match query_int(self.db, LOG_NEXT) {
            Ok(next) => {
                self._undo.start_interval(next);
                Ok(())
            },
            Err(e) => Err(UndoError::Sql(e)),
        }
    }

    /// Does one step of undo (`v1` the undo stack, `v2` the redo stack) or of
    /// redo (the other way round): takes the top interval of `v1`, replays
    /// its log rows from the last to the first inside one transaction, and
    /// puts the interval of the rows that the replay logged onto `v2`.
    ///
    /// Where the database fails, the step stops there: the interval stays
    /// taken, and a transaction that was opened stays open.
    fn _step(&mut self, v1: Stack, v2: Stack) -> (r: Result<(), UndoError>)
        requires
            v2 == v1.other(),
        ensures
            old(self)@.stack(v1).len() == 0 ==> r is Ok && final(self)@ == old(self)@,
            r is Ok ==> exists|mid: i32, end: i32|
                final(self)@ == #[trigger] old(self)@.step(v1, mid, end, final(self)@.firstlog),
            r is Ok && old(self)@.stack(v1).len() > 0 ==> final(self)@.stack(v1) == old(
                self,
            )@.stack(v1).drop_last() && final(self)@.stack(v2).drop_last() == old(self)@.stack(v2),
            r is Err ==> r->Err_0 is Sql && old(self)@.stack(v1).len() > 0 && step_cut_short(
                old(self)@,
                v1,
                final(self)@,
            ),
    {
        proof {
            use_type_invariant(&self._undo);
        }
        let (begin, end) = match self._undo.pop(v1) {
            Some(op) => op,
            None => {
                assert(self@ == old(self)@.step(v1, 0, 0, self@.firstlog));
                return Ok(());
            },
        };
        match execute(self.db, BEGIN) {
            Ok(_) => {},
            Err(e) => {
                return Err(UndoError::Sql(e));
            },
        }
        let q1 = select_interval_sql(begin, end);
        let sqllist = match query_texts(self.db, q1.as_str()) {
            Ok(sqllist) => sqllist,
            Err(e) => {
                return Err(UndoError::Sql(e));
            },
        };
        let q2 = delete_interval_sql(begin, end);
        match execute(self.db, q2.as_str()) {
            Ok(_) => {},
            Err(e) => {
                return Err(UndoError::Sql(e));
            },
        }
        match query_int(self.db, LOG_NEXT) {
            Ok(mid) => {
                self._undo.start_interval(mid);
            },
            Err(e) => {
                return Err(UndoError::Sql(e));
            },
        }
        let ghost rewound = self@;
        let mut i: usize = 0;
        while i < sqllist.len()
            invariant
                i <= sqllist.len(),
                self@ == rewound,
                old(self)@.stack(v1).len() > 0,
                rewound == old(self)@.popped(v1).started(rewound.firstlog),
            decreases sqllist.len() - i,
        {
            match execute(self.db, sqllist[i].as_str()) {
                Ok(_) => {},
                Err(e) => {
                    return Err(UndoError::Sql(e));
                },
            }
            i += 1;
        }
        match execute(self.db, COMMIT) {
            Ok(_) => {},
            Err(e) => {
                return Err(UndoError::Sql(e));
            },
        }
        self.reload_all();
        let end = match query_int(self.db, LOG_TAIL) {
            Ok(end) => end,
            Err(e) => {
                return Err(UndoError::Sql(e));
            },
        };
        self._undo.push(v2, end);
        assert(self@ == old(self)@.popped(v1).started(rewound.firstlog).pushed(v2, end));
        match query_int(self.db, LOG_NEXT) {
            Ok(next) => {
                self._undo.start_interval(next);
                assert(self@ == old(self)@.step(v1, rewound.firstlog, end, self@.firstlog));
                self.refresh();
                Ok(())
            },
            Err(e) => Err(UndoError::Sql(e)),
        }
    }
}

/// Creates the log and, for each table of `args`, the triggers that record
/// in it how to revert every insert, update and delete of that table.
///
/// A table whose schema cannot be read, or lists no column, ends the work
/// with a schema error; what was installed before it stays.
pub fn _create_triggers(db: &rusqlite::Connection, args: &[&str]) -> (r: Result<(), UndoError>)
    ensures
        r is Err && !(r->Err_0 is Sql) ==> args@.len() > 0,
{
    let _ = execute(db, DROP_LOG);
    match execute(db, CREATE_LOG) {
        Ok(_) => {},
        Err(e) => {
            return Err(UndoError::Sql(e));
        },
    }
    let mut i: usize = 0;
    while i < args.len()
        invariant
            i <= args.len(),
        decreases args.len() - i,
    {
        let tbl = args[i];
        let pragma = table_info_sql(tbl);
        let collist = match query_columns(db, pragma.as_str()) {
            Ok(collist) => collist,
            Err(e) => {
                return Err(UndoError::Schema(e));
            },
        };
        let sql = match table_triggers_sql(tbl, &collist) {
            Ok(sql) => sql,
            Err(e) => {
                return Err(e);
            },
        };
        match execute_batch(db, sql.as_str()) {
            Ok(()) => {},
            Err(e) => {
                return Err(UndoError::Sql(e));
            },
        }
        i += 1;
    }
    Ok(())
}

/// Drops every temporary trigger that is named as `_create_triggers` names
/// its triggers, and the log.
pub fn _drop_triggers(db: &rusqlite::Connection) -> (r: Result<(), UndoError>)
    ensures
        r is Err ==> r->Err_0 is Sql,
{
    let tlist = match query_texts(db, TRIGGER_NAMES) {
        Ok(tlist) => tlist,
        Err(e) => {
            return Err(UndoError::Sql(e));
        },
    };
    let mut i: usize = 0;
    while i < tlist.len()
        invariant
            i <= tlist.len(),
        decreases tlist.len() - i,
    {
        let trigger = tlist[i].as_str();
        if is_recorder_name(trigger) {
            let sql = drop_trigger_sql(trigger);
            match execute(db, sql.as_str()) {
                Ok(_) => {},
                Err(e) => {
                    return Err(UndoError::Sql(e));
                },
            }
        }
        i += 1;
    }
    let _ = execute(db, DROP_LOG);
    Ok(())
}

} // verus!
