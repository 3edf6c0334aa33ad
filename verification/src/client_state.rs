//! Core progress state shared across modules.
//!
//! Each `ClientState` represents a "client" (a task) whose progress is
//! tracked. Timestamps are plain monotonic millisecond counts supplied by
//! the reporting side, so that every timing derivation made from them is
//! verified arithmetic.

use vstd::prelude::*;

verus! {

/// Opaque unique identifier for a client, used for internal bookkeeping.
#[derive(Debug, Clone, Copy, PartialEq, Eq, Hash, Structural)]
pub struct TaskId(pub u64);

/// Relies on `rand::random`: a uniformly distributed random value.
/// Nothing is assumed about which value comes back.
#[verifier::external_body]
fn random_u64() -> u64 {
    rand::random()
}

impl TaskId {
    /// Draw a fresh random identifier; collisions are accepted as negligible.
    pub fn new() -> Self {
        TaskId(random_u64())
    }
}

/// Lifecycle state of a task.
#[non_exhaustive]
#[derive(Debug, Clone, Copy, PartialEq, Eq, Structural)]
pub enum TaskStatus {
    Running,
    Completed,
    Failed,
    Canceled,
}

/// The mergeable progress record for one task.
///
/// A full ("new") state has `label`, `status` and `current` set; a partial
/// ("update") state has every field except `id`, `start_time` and
/// `last_update` unset. The store merges partials into the full record and
/// never resets a field to unset once it is known.
#[derive(Debug, PartialEq)]
pub struct ClientState {
    /// Opaque unique identifier for internal store bookkeeping; never displayed.
    pub id: TaskId,
    /// Human-readable label for display; may be unset until known.
    pub label: Option<String>,
    /// Current lifecycle state of the task; may be unset if unknown.
    pub status: Option<TaskStatus>,
    /// Optional total units of work; `None` for unknown/indeterminate total.
    pub total: Option<u64>,
    /// Current completed units; `None` if not reported yet.
    pub current: Option<u64>,
    /// Monotonic start time (milliseconds) of the task, for elapsed calculations.
    pub start_time: u64,
    /// Monotonic time (milliseconds) of the latest report touching this record.
    pub last_update: u64,
    /// Monotonic time (milliseconds) of the last update that changed `current`.
    pub last_progress_update: u64,
    /// Elapsed milliseconds between the last two distinct `current` values.
    pub last_iter_duration: Option<u64>,
}

impl Clone for ClientState {
    /// An independent copy, equal to the original field for field.
    fn clone(&self) -> (res: Self)
        ensures
            res == *self,
    {
        ClientState {
            id: self.id,
            label: match &self.label {
                Some(l) => Some(l.clone()),
                None => None,
            },
            status: self.status,
            total: self.total,
            current: self.current,
            start_time: self.start_time,
            last_update: self.last_update,
            last_progress_update: self.last_progress_update,
            last_iter_duration: self.last_iter_duration,
        }
    }
}

impl ClientState {
    /// Create a new full client state with required identity and timestamps.
    ///
    /// `now` is the creation time in monotonic milliseconds; the fresh state
    /// starts running at zero progress. The identity is drawn at random and
    /// is the one field this contract leaves open.
    pub fn new(label: String, total: Option<u64>, now: u64) -> (res: Self)
        ensures
            res.label == Some(label),
            res.status == Some(TaskStatus::Running),
            res.total == total,
            res.current == Some(0u64),
            res.start_time == now,
            res.last_update == now,
            res.last_progress_update == now,
            res.last_iter_duration is None,
    {
        ClientState {
            id: TaskId::new(),
            label: Some(label),
            status: Some(TaskStatus::Running),
            total,
            current: Some(0),
            start_time: now,
            last_update: now,
            last_progress_update: now,
            last_iter_duration: None,
        }
    }

    /// Create a partial update payload for an existing client.
    ///
    /// All user-facing fields are unset; only identity and timestamps are
    /// populated so the store can merge updates correctly.
    pub fn partial(id: TaskId, start_time: u64, last_update: u64) -> (res: Self)
        ensures
            res.id == id,
            res.label is None,
            res.status is None,
            res.total is None,
            res.current is None,
            res.start_time == start_time,
            res.last_update == last_update,
            res.last_progress_update == last_update,
            res.last_iter_duration is None,
    {
        ClientState {
            id,
            label: None,
            status: None,
            total: None,
            current: None,
            start_time,
            last_update,
            last_progress_update: last_update,
            last_iter_duration: None,
        }
    }
}

} // verus!
