//! Client-side reporting API for sending progress updates to the store.

use crate::client_state::ClientState;
use crate::client_state::TaskId;
use crate::client_state::TaskStatus;
use crate::clock::millis_since;
use std::sync::mpsc::Sender;
use std::time::Instant;
use vstd::prelude::*;

verus! {

/// Errors that can occur when sending updates from a client thread.
#[derive(Debug)]
pub enum ReportError {
    /// The receiver/store side has been dropped, so updates can no longer be sent.
    Closed,
}

/// Lightweight client-side handle for sending updates into the store.
///
/// This type is intended to be cloned and moved across threads without
/// carrying any store internals. It also carries the clock origin against
/// which all of its timestamps are measured.
pub struct ClientReporter {
    tx: Sender<ClientState>,
    origin: Instant,
}

/// Handle for a single client/task instance.
///
/// The handle owns the task identity and start time, and emits partial
/// updates using those fields as a stable base.
pub struct ClientHandle {
    reporter: ClientReporter,
    id: TaskId,
    start_time: u64,
}

impl Clone for ClientReporter {
    /// Another reporter feeding the same store, measuring against the same
    /// clock origin.
    fn clone(&self) -> Self {
        ClientReporter { tx: self.tx.clone(), origin: self.origin }
    }
}

impl Clone for ClientHandle {
    /// Another handle for the same task.
    fn clone(&self) -> (res: Self)
        ensures
            res.spec_id() == self.spec_id(),
            res.spec_start_time() == self.spec_start_time(),
    {
        ClientHandle {
            reporter: self.reporter.clone(),
            id: self.id,
            start_time: self.start_time,
        }
    }
}

impl ClientReporter {
    /// Create a reporter from a sender that feeds the store.
    ///
    /// The moment of creation becomes the origin of the reporter's clock;
    /// every timestamp it emits counts milliseconds from here.
    pub fn new(tx: Sender<ClientState>) -> Self {
        ClientReporter { tx, origin: Instant::now() }
    }

    /// The clock origin this reporter measures against.
    pub(crate) fn origin(&self) -> Instant {
        self.origin
    }

    /// Milliseconds of monotonic time since this reporter was created.
    fn now_ms(&self) -> u64 {
        millis_since(&self.origin)
    }

    /// Send a raw `ClientState` update to the store.
    ///
    /// This is the lowest-level API; most users should prefer `start`
    /// and the `ClientHandle` methods. Whether the send succeeds depends on
    /// whether the store side is still alive; the only possible error is
    /// `Closed`.
    pub fn report(&self, state: ClientState) -> (r: Result<(), ReportError>)
        ensures
            r is Err ==> r == Err::<(), ReportError>(ReportError::Closed),
    {
        match self.tx.send(state) {
            Ok(()) => Ok(()),
            Err(_) => Err(ReportError::Closed),
        }
    }

    /// Start a new client/task and return a handle for future updates.
    ///
    /// This sends an initial full state (fresh random identity, `Running`,
    /// zero progress, the given label and optional total, both timestamps
    /// set to now) and returns a handle bound to that identity. The handle
    /// is only returned if the send succeeded; the only possible error is
    /// `Closed`.
    pub fn start(&self, label: String, total: Option<u64>) -> (r: Result<
        ClientHandle,
        ReportError,
    >)
        ensures
            r is Err ==> r == Err::<ClientHandle, ReportError>(ReportError::Closed),
    {
        let now = self.now_ms();
        let state = ClientState::new(label, total, now);
        let handle = ClientHandle {
            reporter: self.clone(),
            id: state.id,
            start_time: state.start_time,
        };
        match self.report(state) {
            Ok(()) => Ok(handle),
            Err(e) => Err(e),
        }
    }
}

impl ClientHandle {
    /// The task identity this handle reports for.
    pub closed spec fn spec_id(&self) -> TaskId {
        self.id
    }

    /// The start time (milliseconds) this handle echoes on every update.
    pub closed spec fn spec_start_time(&self) -> u64 {
        self.start_time
    }

    /// `r` is a partial update of this handle's task: it carries the
    /// handle's identity and start time, echoes its own (fresh) timestamp
    /// as the progress timestamp, and measures no iteration. The one field
    /// the clock decides, `last_update`, stays open.
    pub open spec fn is_base_update(&self, r: ClientState) -> bool {
        r.id == self.spec_id() && r.start_time == self.spec_start_time()
            && r.last_progress_update == r.last_update && r.last_iter_duration is None
    }

    /// Return the internal identifier for this client/task.
    pub fn id(&self) -> (r: TaskId)
        ensures
            r == self.spec_id(),
    {
        self.id
    }

    /// Update the display label for this client/task.
    ///
    /// Sends one partial record whose only set optional field is the label.
    pub fn set_label(&self, label: String) -> (r: Result<(), ReportError>)
        ensures
            r is Err ==> r == Err::<(), ReportError>(ReportError::Closed),
    {
        self.reporter.report(self.label_update(label))
    }

    /// Update the total units of work for this client/task.
    ///
    /// Sends one partial record whose only set optional field is the total.
    /// Use `None` for an indeterminate total; a partial update whose total
    /// is unset is indistinguishable from one that leaves it unchanged, so
    /// a total, once known, cannot be cleared through this method.
    pub fn set_total(&self, total: Option<u64>) -> (r: Result<(), ReportError>)
        ensures
            r is Err ==> r == Err::<(), ReportError>(ReportError::Closed),
    {
        self.reporter.report(self.total_update(total))
    }

    /// Set the current completed units of work.
    ///
    /// Sends one partial record whose only set optional field is `current`.
    /// Monotonicity is not validated here; the aggregator is the single
    /// authority on what "changed" means.
    pub fn set_current(&self, current: u64) -> (r: Result<(), ReportError>)
        ensures
            r is Err ==> r == Err::<(), ReportError>(ReportError::Closed),
    {
        self.reporter.report(self.current_update(current))
    }

    /// Mark this client/task as completed.
    pub fn complete(&self) -> (r: Result<(), ReportError>)
        ensures
            r is Err ==> r == Err::<(), ReportError>(ReportError::Closed),
    {
        self.set_status(TaskStatus::Completed)
    }

    /// Mark this client/task as failed.
    pub fn fail(&self) -> (r: Result<(), ReportError>)
        ensures
            r is Err ==> r == Err::<(), ReportError>(ReportError::Closed),
    {
        self.set_status(TaskStatus::Failed)
    }

    /// Mark this client/task as canceled.
    pub fn cancel(&self) -> (r: Result<(), ReportError>)
        ensures
            r is Err ==> r == Err::<(), ReportError>(ReportError::Closed),
    {
        self.set_status(TaskStatus::Canceled)
    }

    /// Send the partial record that sets only the status.
    fn set_status(&self, status: TaskStatus) -> (r: Result<(), ReportError>)
        ensures
            r is Err ==> r == Err::<(), ReportError>(ReportError::Closed),
    {
        self.reporter.report(self.status_update(status))
    }

    /// The partial record that updates only the label.
    fn label_update(&self, label: String) -> (r: ClientState)
        ensures
            self.is_base_update(r),
            r.label == Some(label),
            r.status is None,
            r.total is None,
            r.current is None,
    {
        let mut update = self.base_update();
        update.label = Some(label);
        update
    }

    /// The partial record that updates only the total.
    fn total_update(&self, total: Option<u64>) -> (r: ClientState)
        ensures
            self.is_base_update(r),
            r.label is None,
            r.status is None,
            r.total == total,
            r.current is None,
    {
        let mut update = self.base_update();
        update.total = total;
        update
    }

    /// The partial record that updates only `current`.
    fn current_update(&self, current: u64) -> (r: ClientState)
        ensures
            self.is_base_update(r),
            r.label is None,
            r.status is None,
            r.total is None,
            r.current == Some(current),
    {
        let mut update = self.base_update();
        update.current = Some(current);
        update
    }

    /// The partial record that updates only the status.
    fn status_update(&self, status: TaskStatus) -> (r: ClientState)
        ensures
            self.is_base_update(r),
            r.label is None,
            r.status == Some(status),
            r.total is None,
            r.current is None,
    {
        let mut update = self.base_update();
        update.status = Some(status);
        update
    }

    /// Construct a minimal update payload with identity and timestamps.
    ///
    /// The store will merge this partial state with the existing one.
    fn base_update(&self) -> (res: ClientState)
        ensures
            self.is_base_update(res),
            res.label is None,
            res.status is None,
            res.total is None,
            res.current is None,
    {
        ClientState::partial(self.id, self.start_time, self.reporter.now_ms())
    }
}

} // verus!
