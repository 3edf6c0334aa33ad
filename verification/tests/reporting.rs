//! End-to-end reporting through the channel: single task lifecycle, two
//! independent reporters, the closed-channel error, and the worker driver.

use logger_bro::ClientStore;
use logger_bro::ReportError;
use logger_bro::Task;
use logger_bro::TaskStatus;
use logger_bro::default_task_label;
use logger_bro::default_task_total;
use logger_bro::run_worker;

#[test]
fn single_task_lifecycle() {
    let (reporter, mut store) = ClientStore::new();
    let handle = reporter.start("task-0".to_string(), Some(10)).unwrap();
    for i in 1..10u64 {
        handle.set_current(i).unwrap();
    }
    handle.complete().unwrap();
    store.drain();
    let snap = store.snapshot();
    assert_eq!(snap.len(), 1);
    let rec = &snap[0];
    assert_eq!(rec.id, handle.id());
    assert_eq!(rec.label.as_deref(), Some("task-0"));
    assert_eq!(rec.status, Some(TaskStatus::Completed));
    assert_eq!(rec.current, Some(9));
    assert_eq!(rec.total, Some(10));
}

#[test]
fn two_reporters_keep_tasks_apart() {
    let (reporter, mut store) = ClientStore::new();
    let r1 = reporter.clone();
    let r2 = reporter.clone();
    let h1 = r1.start("left".to_string(), Some(5)).unwrap();
    let h2 = r2.start("right".to_string(), None).unwrap();
    h1.set_current(1).unwrap();
    h2.set_current(4).unwrap();
    h1.set_current(2).unwrap();
    h2.fail().unwrap();
    h1.complete().unwrap();
    store.drain();
    let snap = store.snapshot();
    assert_eq!(snap.len(), 2);
    assert_ne!(h1.id(), h2.id());
    let left = snap.iter().find(|s| s.id == h1.id()).unwrap();
    let right = snap.iter().find(|s| s.id == h2.id()).unwrap();
    assert_eq!(left.label.as_deref(), Some("left"));
    assert_eq!(left.total, Some(5));
    assert_eq!(left.current, Some(2));
    assert_eq!(left.status, Some(TaskStatus::Completed));
    assert_eq!(right.label.as_deref(), Some("right"));
    assert_eq!(right.total, None);
    assert_eq!(right.current, Some(4));
    assert_eq!(right.status, Some(TaskStatus::Failed));
}

#[test]
fn closed_store_yields_closed_errors() {
    let (reporter, store) = ClientStore::new();
    let handle = reporter.start("doomed".to_string(), Some(1)).unwrap();
    drop(store);
    assert!(matches!(handle.set_label("x".to_string()), Err(ReportError::Closed)));
    assert!(matches!(handle.set_total(Some(2)), Err(ReportError::Closed)));
    assert!(matches!(handle.set_current(1), Err(ReportError::Closed)));
    assert!(matches!(handle.complete(), Err(ReportError::Closed)));
    assert!(matches!(handle.fail(), Err(ReportError::Closed)));
    assert!(matches!(handle.cancel(), Err(ReportError::Closed)));
    assert!(matches!(reporter.start("other".to_string(), None), Err(ReportError::Closed)));
}

struct Counting {
    n: u64,
}

impl Task for Counting {
    fn tick(&mut self) {
        self.n += 1;
    }

    fn current(&self) -> Option<u64> {
        Some(self.n)
    }
}

struct Silent;

impl Task for Silent {
    fn tick(&mut self) {}
}

#[test]
fn worker_reports_progress_and_completes() {
    let (reporter, mut store) = ClientStore::new();
    let mut task = Counting { n: 0 };
    run_worker(&mut task, &reporter, "worker".to_string(), Some(10), 10);
    store.drain();
    let snap = store.snapshot();
    assert_eq!(snap.len(), 1);
    let rec = &snap[0];
    assert_eq!(rec.label.as_deref(), Some("worker"));
    assert_eq!(rec.total, Some(10));
    assert_eq!(rec.current, Some(10));
    assert_eq!(rec.status, Some(TaskStatus::Completed));
    assert_eq!(task.n, 10);
}

#[test]
fn worker_forces_final_progress_on_silent_task() {
    let (reporter, mut store) = ClientStore::new();
    let mut task = Silent;
    run_worker(&mut task, &reporter, "quiet".to_string(), Some(3), 3);
    store.drain();
    let snap = store.snapshot();
    assert_eq!(snap.len(), 1);
    let rec = &snap[0];
    assert_eq!(rec.current, Some(3));
    assert_eq!(rec.status, Some(TaskStatus::Completed));
}

#[test]
fn worker_still_runs_when_store_is_gone() {
    let (reporter, store) = ClientStore::new();
    drop(store);
    let mut task = Counting { n: 0 };
    // Work must never depend on successful reporting: the ticks all run
    // even though every send would fail.
    run_worker(&mut task, &reporter, "orphan".to_string(), Some(5), 5);
    assert_eq!(task.n, 5);
}

#[test]
fn worker_default_metadata() {
    assert_eq!(default_task_label(0), "task-0");
    assert_eq!(default_task_label(17), "task-17");
    assert_eq!(default_task_total(Some(9), 4), Some(9));
    assert_eq!(default_task_total(None, 4), Some(4));
}
