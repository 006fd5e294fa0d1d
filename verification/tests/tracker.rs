use sqlite_undo::history::{Stack, Undo};

fn active_at(first: i32) -> Undo {
    let mut undo = Undo::new();
    undo.reset(true);
    undo.start_interval(first);
    undo
}

#[test]
fn new_tracker_was_never_activated() {
    let undo = Undo::new();

    assert_eq!(undo.is_active(), false);
    assert_eq!(*undo.undostack(), []);
    assert_eq!(*undo.redostack(), []);
    assert_eq!(undo.firstlog(), 1);
    assert_eq!(undo.freeze_mark(), None);
    assert_eq!(undo.is_frozen(), false);
    assert_eq!(undo.is_freezable(), false);
    assert_eq!(undo.can_undo(), false);
    assert_eq!(undo.can_redo(), false);
}

#[test]
fn reset_empties_the_stacks_and_lifts_the_freeze() {
    let mut undo = active_at(1);
    undo.barrier(3, 4);
    undo.pop(Stack::Undo);
    undo.push(Stack::Redo, 5);
    undo.barrier(6, 7);
    undo.freeze(6);

    undo.reset(true);

    assert_eq!(undo.is_active(), true);
    assert_eq!(*undo.undostack(), []);
    assert_eq!(*undo.redostack(), []);
    assert_eq!(undo.freeze_mark(), Some(-1));
    assert_eq!(undo.firstlog(), 7);

    undo.reset(false);

    assert_eq!(undo.is_active(), false);
    assert_eq!(undo.freeze_mark(), Some(-1));
}

#[test]
fn close_interval_records_what_was_logged() {
    let mut undo = active_at(1);

    undo.barrier(1, 2);
    assert_eq!(*undo.undostack(), [(1, 1)]);
    assert_eq!(undo.firstlog(), 2);

    undo.barrier(4, 5);
    assert_eq!(*undo.undostack(), [(1, 1), (2, 4)]);
    assert_eq!(undo.firstlog(), 5);
    assert_eq!(undo.can_undo(), true);
}

#[test]
fn close_interval_without_rows_changes_nothing() {
    let mut undo = active_at(1);
    undo.barrier(1, 2);
    undo.pop(Stack::Undo);
    undo.push(Stack::Redo, 1);

    undo.barrier(1, 2);
    undo.barrier(1, 2);

    assert_eq!(*undo.undostack(), []);
    assert_eq!(*undo.redostack(), [(2, 1)]);
    assert_eq!(undo.firstlog(), 2);
}

#[test]
fn close_interval_drops_the_redo_stack() {
    let mut undo = active_at(1);
    undo.barrier(1, 2);
    undo.pop(Stack::Undo);
    undo.start_interval(1);
    undo.push(Stack::Redo, 1);
    undo.start_interval(2);
    assert_eq!(*undo.redostack(), [(1, 1)]);
    assert_eq!(undo.can_redo(), true);

    undo.barrier(2, 3);

    assert_eq!(*undo.redostack(), []);
    assert_eq!(*undo.undostack(), [(2, 2)]);
    assert_eq!(undo.can_redo(), false);
}

#[test]
fn close_interval_of_an_inactive_tracker_does_nothing() {
    let mut undo = Undo::new();

    undo.barrier(5, 6);

    assert_eq!(*undo.undostack(), []);
    assert_eq!(undo.firstlog(), 1);
}

#[test]
fn close_interval_while_frozen_stops_at_the_mark() {
    let mut undo = active_at(1);
    undo.barrier(1, 2);
    undo.freeze(1);
    assert_eq!(undo.is_frozen(), true);

    undo.barrier(2, 3);

    assert_eq!(*undo.undostack(), [(1, 1), (2, 1)]);
    assert_eq!(undo.firstlog(), 3);

    undo.barrier(5, 6);

    assert_eq!(*undo.undostack(), [(1, 1), (2, 1), (3, 1)]);
}

#[test]
fn close_interval_below_the_mark_is_not_cut() {
    let mut undo = active_at(1);
    undo.freeze(10);

    undo.barrier(10, 11);
    assert_eq!(*undo.undostack(), [(1, 10)]);

    undo.unfreeze();
    undo.barrier(20, 21);
    assert_eq!(*undo.undostack(), [(1, 10), (11, 20)]);
}

#[test]
fn freeze_mark_regimes() {
    let mut undo = active_at(1);
    assert_eq!(undo.is_freezable(), true);
    assert_eq!(undo.is_frozen(), false);

    undo.freeze(0);
    assert_eq!(undo.freeze_mark(), Some(0));
    assert_eq!(undo.is_freezable(), false);
    assert_eq!(undo.is_frozen(), true);

    undo.unfreeze();
    assert_eq!(undo.freeze_mark(), Some(-1));
    assert_eq!(undo.is_freezable(), true);

    undo.freeze(-7);
    assert_eq!(undo.is_frozen(), false);
    undo.barrier(3, 4);
    assert_eq!(*undo.undostack(), [(1, 3)]);
}

#[test]
fn pop_takes_the_latest_interval() {
    let mut undo = active_at(1);
    undo.barrier(1, 2);
    undo.barrier(4, 5);

    assert_eq!(undo.pop(Stack::Redo), None);
    assert_eq!(undo.pop(Stack::Undo), Some((2, 4)));
    assert_eq!(undo.pop(Stack::Undo), Some((1, 1)));
    assert_eq!(undo.pop(Stack::Undo), None);
    assert_eq!(*undo.undostack(), []);
}

#[test]
fn push_puts_the_open_interval_on_a_stack() {
    let mut undo = active_at(3);

    undo.push(Stack::Redo, 5);
    undo.start_interval(6);
    undo.push(Stack::Undo, 9);

    assert_eq!(*undo.redostack(), [(3, 5)]);
    assert_eq!(*undo.undostack(), [(6, 9)]);
    assert_eq!(undo.firstlog(), 6);
}

#[test]
fn push_on_an_inactive_tracker_does_nothing() {
    let mut undo = Undo::new();

    undo.push(Stack::Undo, 4);
    undo.push(Stack::Redo, 4);

    assert_eq!(*undo.undostack(), []);
    assert_eq!(*undo.redostack(), []);
}

#[test]
fn opposite_stack() {
    assert_eq!(Stack::Undo.opposite(), Stack::Redo);
    assert_eq!(Stack::Redo.opposite(), Stack::Undo);
}

#[test]
fn undo_then_redo_gives_the_stacks_back() {
    let mut undo = active_at(1);
    undo.barrier(1, 2);
    undo.barrier(4, 5);
    let before_undo = undo.undostack().clone();
    let before_redo = undo.redostack().clone();

    let taken = undo.pop(Stack::Undo);
    assert_eq!(taken, Some((2, 4)));
    undo.start_interval(2);
    undo.push(Stack::Undo.opposite(), 4);
    undo.start_interval(5);
    assert_eq!(*undo.undostack(), [(1, 1)]);
    assert_eq!(*undo.redostack(), [(2, 4)]);

    let taken = undo.pop(Stack::Redo);
    assert_eq!(taken, Some((2, 4)));
    undo.start_interval(2);
    undo.push(Stack::Redo.opposite(), 4);
    undo.start_interval(5);

    assert_eq!(*undo.undostack(), before_undo);
    assert_eq!(*undo.redostack(), before_redo);
}

#[test]
fn intervals_stay_below_the_open_one() {
    let mut undo = active_at(1);
    undo.barrier(2, 3);
    undo.barrier(3, 4);
    undo.pop(Stack::Undo);
    undo.start_interval(3);
    undo.push(Stack::Redo, 3);
    undo.start_interval(4);

    for (begin, end) in undo.undostack().iter().chain(undo.redostack().iter()) {
        assert!(begin <= end);
        assert!(*end < undo.firstlog());
    }
    assert_eq!(*undo.undostack(), [(1, 2)]);
    assert_eq!(*undo.redostack(), [(3, 3)]);
}

#[test]
fn freeze_of_a_tracker_never_activated_does_nothing() {
    let mut undo = Undo::new();

    undo.freeze(3);
    assert_eq!(undo.freeze_mark(), None);

    undo.unfreeze();
    assert_eq!(undo.freeze_mark(), None);
}

#[test]
fn freeze_while_frozen_keeps_the_first_mark() {
    let mut undo = active_at(1);

    undo.freeze(2);
    undo.freeze(5);

    assert_eq!(undo.freeze_mark(), Some(2));
}

#[test]
fn unfreeze_while_not_frozen_does_nothing() {
    let mut undo = active_at(1);
    undo.freeze(-7);

    undo.unfreeze();

    assert_eq!(undo.freeze_mark(), Some(-7));
}

#[test]
fn barrier_twice_on_the_same_log_is_one_barrier() {
    let mut once = active_at(1);
    once.barrier(3, 4);
    let mut twice = active_at(1);
    twice.barrier(3, 4);
    twice.barrier(3, 4);

    assert_eq!(*twice.undostack(), *once.undostack());
    assert_eq!(*twice.redostack(), *once.redostack());
    assert_eq!(twice.firstlog(), once.firstlog());
    assert_eq!(*twice.undostack(), [(1, 3)]);
}
