//! Merge semantics of the store: first arrival, partial updates, progress
//! timing and idempotence, all on explicit timestamps.

use logger_bro::ClientState;
use logger_bro::ClientStore;
use logger_bro::TaskStatus;

#[test]
fn first_record_stored_verbatim() {
    let (_reporter, mut store) = ClientStore::new();
    let mut first = ClientState::partial(logger_bro::TaskId(7), 10, 20);
    first.total = Some(42);
    let expected = first.clone();
    store.apply(first);
    let snap = store.snapshot();
    assert_eq!(snap.len(), 1);
    assert_eq!(snap[0], expected);
}

#[test]
fn full_record_stored_verbatim() {
    let (_reporter, mut store) = ClientStore::new();
    let state = ClientState::new("alpha".to_string(), Some(10), 100);
    let expected = state.clone();
    store.apply(state);
    let snap = store.snapshot();
    assert_eq!(snap.len(), 1);
    assert_eq!(snap[0], expected);
    assert_eq!(snap[0].label.as_deref(), Some("alpha"));
    assert_eq!(snap[0].status, Some(TaskStatus::Running));
    assert_eq!(snap[0].current, Some(0));
    assert_eq!(snap[0].total, Some(10));
    assert_eq!(snap[0].start_time, 100);
    assert_eq!(snap[0].last_update, 100);
    assert_eq!(snap[0].last_progress_update, 100);
    assert_eq!(snap[0].last_iter_duration, None);
}

#[test]
fn unset_fields_leave_existing_values() {
    let (_reporter, mut store) = ClientStore::new();
    let state = ClientState::new("beta".to_string(), Some(8), 100);
    let id = state.id;
    store.apply(state);

    let empty = ClientState::partial(id, 100, 600);
    store.apply(empty);
    let snap = store.snapshot();
    assert_eq!(snap.len(), 1);
    let rec = &snap[0];
    assert_eq!(rec.label.as_deref(), Some("beta"));
    assert_eq!(rec.status, Some(TaskStatus::Running));
    assert_eq!(rec.total, Some(8));
    assert_eq!(rec.current, Some(0));
    assert_eq!(rec.last_update, 600);
    assert_eq!(rec.last_progress_update, 100);
    assert_eq!(rec.last_iter_duration, None);
}

#[test]
fn set_fields_overwrite() {
    let (_reporter, mut store) = ClientStore::new();
    let state = ClientState::new("old".to_string(), None, 100);
    let id = state.id;
    store.apply(state);

    let mut upd = ClientState::partial(id, 100, 200);
    upd.label = Some("new".to_string());
    upd.total = Some(50);
    store.apply(upd);

    let mut upd2 = ClientState::partial(id, 100, 300);
    upd2.status = Some(TaskStatus::Failed);
    store.apply(upd2);

    let snap = store.snapshot();
    let rec = &snap[0];
    assert_eq!(rec.label.as_deref(), Some("new"));
    assert_eq!(rec.total, Some(50));
    assert_eq!(rec.status, Some(TaskStatus::Failed));
    assert_eq!(rec.last_update, 300);
}

#[test]
fn progress_change_records_iteration_duration() {
    let (_reporter, mut store) = ClientStore::new();
    let state = ClientState::new("gamma".to_string(), Some(10), 100);
    let id = state.id;
    store.apply(state);

    let mut upd = ClientState::partial(id, 100, 250);
    upd.current = Some(3);
    store.apply(upd);
    let rec = &store.snapshot()[0];
    assert_eq!(rec.current, Some(3));
    assert_eq!(rec.last_progress_update, 250);
    assert_eq!(rec.last_iter_duration, Some(150));

    // The same current again: progress timing must not move.
    let mut same = ClientState::partial(id, 100, 400);
    same.current = Some(3);
    store.apply(same);
    let rec = &store.snapshot()[0];
    assert_eq!(rec.current, Some(3));
    assert_eq!(rec.last_update, 400);
    assert_eq!(rec.last_progress_update, 250);
    assert_eq!(rec.last_iter_duration, Some(150));

    // A new current measures against the previous progress update.
    let mut next = ClientState::partial(id, 100, 500);
    next.current = Some(4);
    store.apply(next);
    let rec = &store.snapshot()[0];
    assert_eq!(rec.current, Some(4));
    assert_eq!(rec.last_progress_update, 500);
    assert_eq!(rec.last_iter_duration, Some(250));
}

#[test]
fn progress_duration_saturates_on_clock_skew() {
    let (_reporter, mut store) = ClientStore::new();
    let state = ClientState::new("delta".to_string(), None, 1000);
    let id = state.id;
    store.apply(state);

    let mut upd = ClientState::partial(id, 1000, 400);
    upd.current = Some(1);
    store.apply(upd);
    let rec = &store.snapshot()[0];
    assert_eq!(rec.last_iter_duration, Some(0));
    assert_eq!(rec.last_progress_update, 400);
}

#[test]
fn drain_with_nothing_pending_is_a_no_op() {
    let (reporter, mut store) = ClientStore::new();
    let handle = reporter.start("epsilon".to_string(), Some(4)).unwrap();
    handle.set_current(2).unwrap();
    store.drain();
    let before = store.snapshot();
    assert_eq!(before.len(), 1);
    store.drain();
    let after = store.snapshot();
    assert_eq!(before, after);
}

#[test]
fn snapshot_twice_yields_equal_sequences() {
    let (reporter, mut store) = ClientStore::new();
    reporter.start("zeta".to_string(), None).unwrap();
    reporter.start("eta".to_string(), Some(3)).unwrap();
    store.drain();
    let one = store.snapshot();
    let two = store.snapshot();
    assert_eq!(one, two);
    assert_eq!(one.len(), 2);
}
