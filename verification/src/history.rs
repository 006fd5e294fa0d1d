//! The interval tracker: which stretches of the log make up one undoable
//! action each, and how barriers, freezing and undo or redo steps move them.
//!
//! The tracker never reads the database. Each operation takes what was
//! observed there (the last sequence number of the log, the next free one) as
//! ordinary arguments, so its result is a function of its inputs.

use vstd::prelude::*;

verus! {

/// One of the two stacks of intervals.
#[derive(Clone, Copy, Debug, PartialEq, Eq, Structural)]
pub enum Stack {
    /// Recorded actions, the latest on top.
    Undo,
    /// Undone actions, the latest undone on top.
    Redo,
}

impl Stack {
    /// The stack that receives what a step takes from this one.
    pub open spec fn other(self) -> Stack {
        match self {
            Stack::Undo => Stack::Redo,
            Stack::Redo => Stack::Undo,
        }
    }

    /// The stack that receives what a step takes from this one.
    pub fn opposite(self) -> (r: Stack)
        ensures
            r == self.other(),
    {
        match self {
            Stack::Undo => Stack::Redo,
            Stack::Redo => Stack::Undo,
        }
    }
}

/// The state of the tracker as a mathematical value. An interval is a pair
/// `(begin, end)` of log sequence numbers, both inclusive.
pub struct History {
    /// Whether changes are being recorded.
    pub active: bool,
    /// Intervals that can be undone, the latest last.
    pub undostack: Seq<(i32, i32)>,
    /// Intervals that can be redone, the latest undone last.
    pub redostack: Seq<(i32, i32)>,
    /// The sequence number that the next log row is expected to get; the
    /// begin of the interval that is open now.
    pub firstlog: i32,
    /// `None` before the first activation, `Some(-1)` while not frozen, and
    /// `Some(k)` with `k >= 0` while frozen at log row `k`.
    pub freeze: Option<i32>,
}

impl History {
    /// The state of a tracker that was never activated.
    pub open spec fn initial() -> History {
        History {
            active: false,
            undostack: Seq::empty(),
            redostack: Seq::empty(),
            firstlog: 1,
            freeze: None,
        }
    }

    /// The intervals on one of the stacks.
    pub open spec fn stack(self, which: Stack) -> Seq<(i32, i32)> {
        match which {
            Stack::Undo => self.undostack,
            Stack::Redo => self.redostack,
        }
    }

    /// Whether recording is frozen.
    pub open spec fn frozen(self) -> bool {
        self.freeze matches Some(k) && k >= 0
    }

    /// Whether a freeze would take effect: the tracker was activated once
    /// and is not frozen.
    pub open spec fn freezable(self) -> bool {
        self.freeze matches Some(k) && k < 0
    }

    /// Both stacks emptied and the freeze lifted, with `active` as given.
    pub open spec fn reset(self, active: bool) -> History {
        History {
            active,
            undostack: Seq::empty(),
            redostack: Seq::empty(),
            freeze: Some(-1i32),
            ..self
        }
    }

    /// The open interval moved to begin at `next`.
    pub open spec fn started(self, next: i32) -> History {
        History { firstlog: next, ..self }
    }

    /// The end of an interval that closes at log row `end`: while frozen at
    /// `k`, rows above `k` stay out.
    pub open spec fn clamp(self, end: i32) -> i32 {
        match self.freeze {
            Some(k) if k >= 0 && end > k => k,
            _ => end,
        }
    }

    /// The top interval of `from` removed, if there is one.
    pub open spec fn popped(self, from: Stack) -> History {
        if self.stack(from).len() == 0 {
            self
        } else {
            match from {
                Stack::Undo => History { undostack: self.undostack.drop_last(), ..self },
                Stack::Redo => History { redostack: self.redostack.drop_last(), ..self },
            }
        }
    }

    /// The interval from `firstlog` to `end` put on top of `onto`. An
    /// inactive tracker takes no interval.
    pub open spec fn pushed(self, onto: Stack, end: i32) -> History {
        if !self.active {
            self
        } else {
            match onto {
                Stack::Undo => History {
                    undostack: self.undostack.push((self.firstlog, end)),
                    ..self
                },
                Stack::Redo => History {
                    redostack: self.redostack.push((self.firstlog, end)),
                    ..self
                },
            }
        }
    }

    /// What `activate` makes of this state when the log, just created,
    /// gives `next` as its next sequence number.
    pub open spec fn activate(self, next: i32) -> History {
        if self.active {
            self
        } else {
            self.reset(true).started(next)
        }
    }

    /// What `deactivate` makes of this state.
    pub open spec fn deactivate(self) -> History {
        if self.active {
            self.reset(false)
        } else {
            self
        }
    }

    /// What `freeze` makes of this state when the log ends at row `tail`:
    /// the mark is set to `tail`, unless the tracker was never activated or
    /// is frozen already.
    pub open spec fn freeze(self, tail: i32) -> History {
        if self.freezable() {
            History { freeze: Some(tail), ..self }
        } else {
            self
        }
    }

    /// What `unfreeze` makes of this state: the mark is lifted, if the
    /// tracker is frozen.
    pub open spec fn unfreeze(self) -> History {
        if self.frozen() {
            History { freeze: Some(-1i32), ..self }
        } else {
            self
        }
    }

    /// What `barrier` makes of this state when the log ends at row `end` and
    /// `next` is its next sequence number. Where the tracker is inactive, or
    /// no row was logged since the interval opened (`next` is still
    /// `firstlog`), nothing changes. Otherwise the open interval, cut at the
    /// freeze mark, goes onto the undo stack, the redo stack is dropped, and
    /// the next interval opens at `next`.
    pub open spec fn barrier(self, end: i32, next: i32) -> History {
        if !self.active || next == self.firstlog {
            self
        } else {
            History {
                undostack: self.undostack.push((self.firstlog, self.clamp(end))),
                redostack: Seq::empty(),
                firstlog: next,
                ..self
            }
        }
    }

    /// What a step from `from` to the other stack makes of this state. The
    /// step takes the top interval of `from` and removes its rows from the
    /// log, after which `mid` is the next sequence number. Replaying the
    /// rows logs their reversals, up to row `end`; these form the interval
    /// that goes onto the other stack. `next` is the next sequence number
    /// after that. With `from` empty the step changes nothing.
    pub open spec fn step(self, from: Stack, mid: i32, end: i32, next: i32) -> History {
        if self.stack(from).len() == 0 {
            self
        } else {
            self.popped(from).started(mid).pushed(from.other(), end).started(next)
        }
    }

    /// What `undo` makes of this state; see `step`.
    pub open spec fn undo(self, mid: i32, end: i32, next: i32) -> History {
        self.step(Stack::Undo, mid, end, next)
    }

    /// What `redo` makes of this state; see `step`.
    pub open spec fn redo(self, mid: i32, end: i32, next: i32) -> History {
        self.step(Stack::Redo, mid, end, next)
    }

    /// An inactive tracker holds no interval, and an active one has a freeze
    /// mark.
    pub open spec fn wf(self) -> bool {
        &&& !self.active ==> self.undostack.len() == 0 && self.redostack.len() == 0
        &&& self.active ==> self.freeze is Some
    }
}

impl History {
    /// Every interval on either stack ends below `bound`.
    pub open spec fn ends_below(self, bound: int) -> bool {
        &&& forall|i: int|
            0 <= i < self.undostack.len() ==> (#[trigger] self.undostack[i]).1 < bound
        &&& forall|i: int|
            0 <= i < self.redostack.len() ==> (#[trigger] self.redostack[i]).1 < bound
    }

    /// Every interval on either stack holds at least one row.
    pub open spec fn proper(self) -> bool {
        &&& forall|i: int|
            0 <= i < self.undostack.len() ==> (#[trigger] self.undostack[i]).0
                <= self.undostack[i].1
        &&& forall|i: int|
            0 <= i < self.redostack.len() ==> (#[trigger] self.redostack[i]).0
                <= self.redostack[i].1
    }

    /// No interval is empty, and the open interval begins above them all.
    pub open spec fn ordered(self) -> bool {
        self.proper() && self.ends_below(self.firstlog as int)
    }

    /// Activating an inactive tracker leaves both stacks empty, the tracker
    /// active and not frozen, and the open interval at the reported number.
    pub proof fn activation_starts_clean(self, next: i32)
        requires
            !self.active,
        ensures
            self.activate(next).active,
            self.activate(next).undostack.len() == 0,
            self.activate(next).redostack.len() == 0,
            self.activate(next).freeze == Some(-1i32),
            self.activate(next).firstlog == next,
            self.activate(next).ordered(),
    {
    }

    /// After deactivation the tracker is inactive and both stacks are empty;
    /// if it was active before, it is also not frozen.
    pub proof fn deactivation_clears(self)
        requires
            self.wf(),
        ensures
            !self.deactivate().active,
            self.deactivate().undostack.len() == 0,
            self.deactivate().redostack.len() == 0,
            self.active ==> self.deactivate().freeze == Some(-1i32),
            self.deactivate().ordered(),
    {
    }

    /// A barrier when the log received no row since the interval opened
    /// changes nothing, and so a barrier made twice on the same log does
    /// what one does.
    pub proof fn barrier_is_idempotent(self, end: i32, next: i32)
        ensures
            self.barrier(end, self.firstlog) == self,
            self.barrier(end, next).barrier(end, next) == self.barrier(end, next),
    {
    }

    /// A barrier that closes an interval leaves the redo stack empty; any
    /// other barrier changes nothing.
    pub proof fn barrier_empties_redo(self, end: i32, next: i32)
        ensures
            self.active && next != self.firstlog ==> self.barrier(end, next).redostack.len() == 0,
            !(self.active && next != self.firstlog) ==> self.barrier(end, next) == self,
    {
    }

    /// While frozen at row `k`, no barrier takes a row above `k` into an
    /// interval.
    pub proof fn frozen_rows_stay_out(self, end: i32, next: i32)
        requires
            self.active,
            self.frozen(),
            next != self.firstlog,
        ensures
            self.barrier(end, next).undostack.last().1 <= self.freeze->Some_0,
            self.barrier(end, next).undostack.last().1 <= end,
    {
    }

    /// An undo followed by a redo gives the redo stack back as it was, and
    /// the undo stack with its top interval renumbered to the rows that the
    /// redo logged; where these rows got the old numbers, the undo stack is
    /// as it was. Activity and freeze mark do not change.
    pub proof fn redo_mirrors_undo(
        self,
        mid: i32,
        end: i32,
        next: i32,
        mid2: i32,
        end2: i32,
        next2: i32,
    )
        requires
            self.wf(),
            self.undostack.len() > 0,
        ensures
            ({
                let after = self.undo(mid, end, next).redo(mid2, end2, next2);
                &&& after.redostack == self.redostack
                &&& after.undostack == self.undostack.drop_last().push((mid2, end2))
                &&& (mid2, end2) == self.undostack.last() ==> after.undostack == self.undostack
                &&& after.active == self.active
                &&& after.freeze == self.freeze
                &&& after.firstlog == next2
            }),
    {
        let undone = self.undo(mid, end, next);
        assert(undone.redostack == self.redostack.push((mid, end)));
        assert(undone.redostack.drop_last() == self.redostack);
        let after = undone.redo(mid2, end2, next2);
        if (mid2, end2) == self.undostack.last() {
            assert(self.undostack.drop_last().push((mid2, end2)) == self.undostack);
        }
    }

    /// After a barrier every interval ends below the open one, if that held
    /// before and the numbers come from a log that still holds the rows of
    /// every interval on the stacks: then `next` lies above them all, and
    /// above `end`.
    ///
    /// The interval that the barrier records holds at least one row if, in
    /// addition, the log did not shrink since the interval opened, `next`
    /// follows `end` directly, and no freeze cut the interval short. A
    /// barrier while frozen can record an interval without rows.
    pub proof fn barrier_keeps_order(self, end: i32, next: i32)
        requires
            self.ends_below(self.firstlog as int),
            self.ends_below(next as int),
            end < next,
        ensures
            self.barrier(end, next).ends_below(self.barrier(end, next).firstlog as int),
            self.proper() && self.firstlog <= next && next == end + 1 && self.clamp(end) == end
                ==> self.barrier(end, next).proper(),
    {
    }

    /// After a step every interval ends below the open one, if the numbers
    /// come from a log that still holds the rows of every interval that
    /// stays on the stacks, and that only grows during the replay: then `mid`
    /// lies above those intervals, and `next` above `mid` and `end`.
    ///
    /// The mirror interval holds at least one row if, in addition, the
    /// replay logged one.
    pub proof fn step_keeps_order(self, from: Stack, mid: i32, end: i32, next: i32)
        requires
            self.wf(),
            self.stack(from).len() > 0,
            self.popped(from).ends_below(mid as int),
            mid <= next,
            end < next,
        ensures
            self.step(from, mid, end, next).ends_below(self.step(from, mid, end, next).firstlog as int),
            self.proper() && mid <= end ==> self.step(from, mid, end, next).proper(),
    {
    }

    /// Freezing and unfreezing move no interval.
    pub proof fn freezing_keeps_order(self, tail: i32)
        ensures
            self.ordered() ==> self.freeze(tail).ordered() && self.unfreeze().ordered(),
    {
    }

    /// A freeze mark stays where it was set through every barrier and every
    /// step, so that unfreezing removes from the log exactly the rows above
    /// the row that was its last when recording froze.
    pub proof fn freeze_mark_is_kept(
        self,
        tail: i32,
        from: Stack,
        mid: i32,
        end: i32,
        next: i32,
    )
        requires
            self.freezable(),
        ensures
            self.freeze(tail).freeze == Some(tail),
            self.freeze(tail).barrier(end, next).freeze == Some(tail),
            self.freeze(tail).step(from, mid, end, next).freeze == Some(tail),
            tail >= 0 ==> self.freeze(tail).freeze(end) == self.freeze(tail),
    {
    }

    /// No operation makes an inactive tracker hold an interval, or takes the
    /// freeze mark from an active one.
    pub proof fn operations_keep_wf(self, from: Stack, mid: i32, end: i32, next: i32)
        requires
            self.wf(),
        ensures
            History::initial().wf(),
            self.activate(next).wf(),
            self.deactivate().wf(),
            self.freeze(end).wf(),
            self.unfreeze().wf(),
            self.barrier(end, next).wf(),
            self.step(from, mid, end, next).wf(),
    {
    }
}

/// The tracker's state: the stacks of intervals, the begin of the open
/// interval, and the freeze mark.
pub struct Undo {
    active: bool,
    undostack: Vec<(i32, i32)>,
    redostack: Vec<(i32, i32)>,
    firstlog: i32,
    freeze: Option<i32>,
}

impl View for Undo {
    type V = History;

    closed spec fn view(&self) -> History {
        History {
            active: self.active,
            undostack: self.undostack@,
            redostack: self.redostack@,
            firstlog: self.firstlog,
            freeze: self.freeze,
        }
    }
}

impl Undo {
    /// What holds of every tracker: see [`History::wf`].
    #[verifier::type_invariant]
    pub open spec fn well_formed(self) -> bool {
        self@.wf()
    }

    /// A tracker that was never activated.
    pub fn new() -> (r: Undo)
        ensures
            r@ == History::initial(),
    {
        Undo {
            active: false,
            undostack: Vec::new(),
            redostack: Vec::new(),
            firstlog: 1,
            freeze: None,
        }
    }

    /// Whether changes are being recorded.
    pub fn is_active(&self) -> (r: bool)
        ensures
            r == self@.active,
    {
        self.active
    }

    /// The intervals that can be undone, the latest last.
    pub fn undostack(&self) -> (r: &Vec<(i32, i32)>)
        ensures
            r@ == self@.undostack,
    {
        &self.undostack
    }

    /// The intervals that can be redone, the latest undone last.
    pub fn redostack(&self) -> (r: &Vec<(i32, i32)>)
        ensures
            r@ == self@.redostack,
    {
        &self.redostack
    }

    /// The begin of the open interval.
    pub fn firstlog(&self) -> (r: i32)
        ensures
            r == self@.firstlog,
    {
        self.firstlog
    }

    /// The freeze mark: `None` before the first activation, `Some(-1)` while
    /// not frozen, and the log row at which recording froze otherwise.
    pub fn freeze_mark(&self) -> (r: Option<i32>)
        ensures
            r == self@.freeze,
    {
        self.freeze
    }

    /// Whether recording is frozen.
    pub fn is_frozen(&self) -> (r: bool)
        ensures
            r == self@.frozen(),
    {
        match self.freeze {
            Some(k) => k >= 0,
            None => false,
        }
    }

    /// Whether a freeze would take effect.
    pub fn is_freezable(&self) -> (r: bool)
        ensures
            r == self@.freezable(),
    {
        match self.freeze {
            Some(k) => k < 0,
            None => false,
        }
    }

    /// Whether an undo step has an interval to take.
    pub fn can_undo(&self) -> (r: bool)
        ensures
            r == (self@.active && self@.undostack.len() > 0),
    {
        self.active && self.undostack.len() > 0
    }

    /// Whether a redo step has an interval to take.
    pub fn can_redo(&self) -> (r: bool)
        ensures
            r == (self@.active && self@.redostack.len() > 0),
    {
        self.active && self.redostack.len() > 0
    }

    /// Empties both stacks and lifts the freeze; `active` says whether
    /// recording is on afterwards.
    pub fn reset(&mut self, active: bool)
        ensures
            final(self)@ == old(self)@.reset(active),
    {
        proof {
            use_type_invariant(&*self);
        }
        self.undostack = Vec::new();
        self.redostack = Vec::new();
        self.freeze = Some(-1);
        self.active = active;
    }

    /// Opens the next interval at `next`.
    pub fn start_interval(&mut self, next: i32)
        ensures
            final(self)@ == old(self)@.started(next),
    {
        proof {
            use_type_invariant(&*self);
        }
        self.firstlog = next;
    }

    /// Freezes recording at log row `tail`, the last row of the log. Does
    /// nothing if the tracker was never activated, or is frozen already.
    pub fn freeze(&mut self, tail: i32)
        ensures
            final(self)@ == old(self)@.freeze(tail),
    {
        proof {
            use_type_invariant(&*self);
        }
        if self.is_freezable() {
            self.freeze = Some(tail);
        }
    }

    /// Lifts the freeze. Does nothing if the tracker is not frozen.
    pub fn unfreeze(&mut self)
        ensures
            final(self)@ == old(self)@.unfreeze(),
    {
        proof {
            use_type_invariant(&*self);
        }
        if self.is_frozen() {
            self.freeze = Some(-1);
        }
    }

    /// Closes the open interval at log row `end`, the last row of the log,
    /// and opens the next one at `next`, the next free sequence number.
    /// Does nothing if the tracker is inactive, or if no row was logged
    /// since the interval opened.
    pub fn barrier(&mut self, end: i32, next: i32)
        ensures
            final(self)@ == old(self)@.barrier(end, next),
    {
        proof {
            use_type_invariant(&*self);
        }
        if !self.active {
            return ;
        }
        let mut end = end;
        match self.freeze {
            Some(k) => {
                if k >= 0 && end > k {
                    end = k;
                }
            },
            None => {},
        }
        let begin = self.firstlog;
        self.firstlog = next;
        if begin == self.firstlog {
            return ;
        }
        let mut stack = Vec::new();
        core::mem::swap(&mut stack, &mut self.undostack);
        stack.push((begin, end));
        self.undostack = stack;
        self.redostack = Vec::new();
    }

    /// Takes the top interval from a stack.
    pub fn pop(&mut self, from: Stack) -> (r: Option<(i32, i32)>)
        ensures
            final(self)@ == old(self)@.popped(from),
            r == (if old(self)@.stack(from).len() == 0 {
                None
            } else {
                Some(old(self)@.stack(from).last())
            }),
    {
        proof {
            use_type_invariant(&*self);
        }
        let mut stack = Vec::new();
        match from {
            Stack::Undo => {
                core::mem::swap(&mut stack, &mut self.undostack);
                let top = stack.pop();
                self.undostack = stack;
                top
            },
            Stack::Redo => {
                core::mem::swap(&mut stack, &mut self.redostack);
                let top = stack.pop();
                self.redostack = stack;
                top
            },
        }
    }

    /// Puts the interval from the begin of the open interval to `end` on top
    /// of a stack.
    pub fn push(&mut self, onto: Stack, end: i32)
        ensures
            final(self)@ == old(self)@.pushed(onto, end),
    {
        proof {
            use_type_invariant(&*self);
        }
        if !self.active {
            return ;
        }
        let interval = (self.firstlog, end);
        let mut stack = Vec::new();
        match onto {
            Stack::Undo => {
                core::mem::swap(&mut stack, &mut self.undostack);
                stack.push(interval);
                self.undostack = stack;
            },
            Stack::Redo => {
                core::mem::swap(&mut stack, &mut self.redostack);
                stack.push(interval);
                self.redostack = stack;
            },
        }
    }
}

} // verus!
