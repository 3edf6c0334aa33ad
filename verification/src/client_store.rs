//! In-memory store for the latest client states.
//!
//! The store owns the receive side of the update channel and maintains the
//! authoritative record per task: records are kept in arrival order of their
//! first update, keyed by `TaskId`, and each later update is merged in place
//! field by field. `spec_merge` is the mathematical statement of that merge;
//! `spec_apply` lifts it to the whole store.

use crate::client_reporter::ClientReporter;
use crate::client_state::ClientState;
use crate::client_state::TaskId;
use crate::clock::millis_since;
use std::sync::mpsc::Receiver;
use std::time::Instant;
use vstd::prelude::*;

verus! {

/// No two records of the sequence carry the same identity.
pub open spec fn ids_unique(s: Seq<ClientState>) -> bool {
    forall|i: int, j: int| 0 <= i < j < s.len() ==> s[i].id != s[j].id
}

/// Some record of the sequence carries this identity.
pub open spec fn has_id(s: Seq<ClientState>, id: TaskId) -> bool {
    exists|i: int| 0 <= i < s.len() && s[i].id == id
}

/// The position of the record carrying this identity; meaningful when
/// `has_id` holds and the identities are unique.
pub open spec fn index_of_id(s: Seq<ClientState>, id: TaskId) -> int {
    choose|i: int| 0 <= i < s.len() && s[i].id == id
}

/// `a - b`, saturating at zero.
pub open spec fn sat_sub(a: u64, b: u64) -> u64 {
    if a >= b {
        (a - b) as u64
    } else {
        0
    }
}

/// What merging `update` into the stored record `existing` yields.
///
/// Fields that are unset in the update keep their stored value; a set field
/// overwrites. The timestamps are always taken from the update, the producer
/// being authoritative for its own clock. A `current` differing from the
/// stored one records the iteration duration — the time from the previous
/// progress update to this one — and moves the progress timestamp forward.
pub open spec fn spec_merge(existing: ClientState, update: ClientState) -> ClientState {
    let progressed = update.current is Some && update.current != existing.current;
    ClientState {
        id: existing.id,
        label: if update.label is Some {
            update.label
        } else {
            existing.label
        },
        status: if update.status is Some {
            update.status
        } else {
            existing.status
        },
        total: if update.total is Some {
            update.total
        } else {
            existing.total
        },
        current: if update.current is Some {
            update.current
        } else {
            existing.current
        },
        start_time: update.start_time,
        last_update: update.last_update,
        last_progress_update: if progressed {
            update.last_update
        } else {
            existing.last_progress_update
        },
        last_iter_duration: if progressed {
            Some(sat_sub(update.last_update, existing.last_progress_update))
        } else {
            existing.last_iter_duration
        },
    }
}

/// What one incoming record does to the whole store: merged into the record
/// with the same identity if one exists, appended verbatim otherwise.
pub open spec fn spec_apply(s: Seq<ClientState>, state: ClientState) -> Seq<ClientState> {
    if has_id(s, state.id) {
        let i = index_of_id(s, state.id);
        s.update(i, spec_merge(s[i], state))
    } else {
        s.push(state)
    }
}

/// A whole batch of incoming records applied in order.
pub open spec fn spec_apply_all(s: Seq<ClientState>, updates: Seq<ClientState>) -> Seq<ClientState>
    decreases updates.len(),
{
    if updates.len() == 0 {
        s
    } else {
        spec_apply_all(spec_apply(s, updates[0]), updates.drop_first())
    }
}

/// For every sequence of merges into an absent key, the first record to
/// arrive becomes the stored record verbatim.
pub proof fn lemma_absent_key_stored_verbatim(s: Seq<ClientState>, state: ClientState)
    requires
        !has_id(s, state.id),
    ensures
        spec_apply(s, state) == s.push(state),
{
}

/// Merging never clears a field: a field the update leaves unset keeps its
/// stored value, and no field reverts to unset once it is set. An unset
/// `current` also leaves both progress-timing fields untouched.
pub proof fn lemma_merge_keeps_unset_fields(existing: ClientState, update: ClientState)
    ensures
        update.label is None ==> spec_merge(existing, update).label == existing.label,
        update.status is None ==> spec_merge(existing, update).status == existing.status,
        update.total is None ==> spec_merge(existing, update).total == existing.total,
        update.current is None ==> spec_merge(existing, update).current == existing.current,
        update.current is None ==> spec_merge(existing, update).last_progress_update
            == existing.last_progress_update,
        update.current is None ==> spec_merge(existing, update).last_iter_duration
            == existing.last_iter_duration,
        existing.label is Some ==> spec_merge(existing, update).label is Some,
        existing.status is Some ==> spec_merge(existing, update).status is Some,
        existing.total is Some ==> spec_merge(existing, update).total is Some,
        existing.current is Some ==> spec_merge(existing, update).current is Some,
{
}

/// A `current` changing to a new value moves `last_progress_update` to the
/// update's timestamp and sets `last_iter_duration` to the time since the
/// previous progress update; merging the same `current` again leaves both
/// unchanged. Either way the stored `current` becomes the update's value.
pub proof fn lemma_merge_progress_timing(existing: ClientState, update: ClientState)
    requires
        update.current is Some,
    ensures
        update.current != existing.current ==> spec_merge(existing, update).last_progress_update
            == update.last_update,
        update.current != existing.current ==> spec_merge(existing, update).last_iter_duration
            == Some(sat_sub(update.last_update, existing.last_progress_update)),
        update.current == existing.current ==> spec_merge(existing, update).last_progress_update
            == existing.last_progress_update,
        update.current == existing.current ==> spec_merge(existing, update).last_iter_duration
            == existing.last_iter_duration,
        spec_merge(existing, update).current == update.current,
{
}

/// A record, once stored, persists for the lifetime of the store: every
/// identity present before an incoming record is applied is still present
/// after, and the store never shrinks.
pub proof fn lemma_apply_keeps_records(s: Seq<ClientState>, state: ClientState, id: TaskId)
    requires
        has_id(s, id),
    ensures
        has_id(spec_apply(s, state), id),
        spec_apply(s, state).len() >= s.len(),
{
    let j = choose|j: int| 0 <= j < s.len() && s[j].id == id;
    if has_id(s, state.id) {
        let i = index_of_id(s, state.id);
        let merged = s.update(i, spec_merge(s[i], state));
        assert(merged[j].id == id);
    } else {
        assert(s.push(state)[j].id == id);
    }
}

/// Merge a partial update into the existing stored state, in place.
///
/// Fields that are `None` in the update are left unchanged.
fn merge_state(existing: &mut ClientState, update: &ClientState)
    ensures
        *final(existing) == spec_merge(*old(existing), *update),
{
    if let Some(label) = &update.label {
        existing.label = Some(label.clone());
    }
    if let Some(status) = update.status {
        existing.status = Some(status);
    }
    if update.total.is_some() {
        existing.total = update.total;
    }
    if let Some(new_current) = update.current {
        let changed = match existing.current {
            Some(prev) => prev != new_current,
            None => true,
        };
        if changed {
            existing.last_iter_duration = Some(
                if update.last_update >= existing.last_progress_update {
                    update.last_update - existing.last_progress_update
                } else {
                    0
                },
            );
            existing.last_progress_update = update.last_update;
        }
        existing.current = Some(new_current);
    }
    existing.start_time = update.start_time;
    existing.last_update = update.last_update;
}

/// In-memory store of the latest client states keyed by `TaskId`.
///
/// This type is intended to live on the UI/runtime side and be fed by a
/// `ClientReporter` running in worker threads. It is single-consumer by
/// contract: exactly one thread may call `drain` and `snapshot`.
pub struct ClientStore {
    rx: Receiver<ClientState>,
    origin: Instant,
    clients: Vec<ClientState>,
}

impl View for ClientStore {
    type V = Seq<ClientState>;

    closed spec fn view(&self) -> Seq<ClientState> {
        self.clients@
    }
}

impl ClientStore {
    /// The store never holds two records for one identity.
    pub open spec fn wf(&self) -> bool {
        ids_unique(self@)
    }

    /// Create a new, empty store and a paired reporter that feeds it.
    pub fn new() -> (r: (ClientReporter, ClientStore))
        ensures
            r.1@ == Seq::<ClientState>::empty(),
            r.1.wf(),
    {
        let (tx, rx) = std::sync::mpsc::channel();
        let reporter = ClientReporter::new(tx);
        let store = ClientStore { rx, origin: reporter.origin(), clients: Vec::new() };
        (reporter, store)
    }

    /// Milliseconds of monotonic time since this store and its reporter
    /// were created: the clock all stored timestamps are measured on.
    pub fn now_millis(&self) -> u64 {
        millis_since(&self.origin)
    }

    /// The position of the record with this identity, if one is stored.
    fn find_index(&self, id: TaskId) -> (r: Option<usize>)
        ensures
            match r {
                Some(i) => i < self@.len() && self@[i as int].id == id,
                None => !has_id(self@, id),
            },
    {
        let n = self.clients.len();
        let mut i: usize = 0;
        while i < n
            invariant
                i <= n,
                n == self@.len(),
                forall|j: int| 0 <= j < i ==> self@[j].id != id,
            decreases n - i,
        {
            if self.clients[i].id == id {
                return Some(i);
            }
            i = i + 1;
        }
        None
    }

    /// Merge one incoming record into the store: in place into the record
    /// with the same identity if present, appended verbatim otherwise.
    pub fn apply(&mut self, state: ClientState)
        requires
            old(self).wf(),
        ensures
            final(self).wf(),
            final(self)@ == spec_apply(old(self)@, state),
    {
        let ghost s0 = self@;
        match self.find_index(state.id) {
            Some(i) => {
                proof {
                    assert(has_id(s0, state.id));
                    let k = index_of_id(s0, state.id);
                    assert(0 <= k < s0.len() && s0[k].id == state.id);
                    assert(k == i as int);
                }
                merge_state(&mut self.clients[i], &state);
                proof {
                    assert(self@ =~= s0.update(i as int, spec_merge(s0[i as int], state)));
                    assert(ids_unique(self@));
                }
            },
            None => {
                self.clients.push(state);
                proof {
                    assert(self@ =~= s0.push(state));
                    assert forall|i: int, j: int| 0 <= i < j < self@.len() implies self@[i].id
                        != self@[j].id by {
                        if j == s0.len() as int {
                            assert(self@[i] == s0[i]);
                        }
                    }
                }
            },
        }
    }

    /// Drain all pending updates and merge them into the store.
    ///
    /// This is non-blocking: it takes every currently queued record and
    /// merges each one in arrival order, so the store afterwards is the
    /// store before with some batch of incoming records applied. What that
    /// batch holds depends on the producers; with nothing queued the store
    /// is left as it was.
    pub fn drain(&mut self)
        requires
            old(self).wf(),
        ensures
            final(self).wf(),
            exists|updates: Seq<ClientState>| final(self)@ == spec_apply_all(old(self)@, updates),
    {
        let ghost s0 = self@;
        let ghost mut updates: Seq<ClientState> = Seq::empty();
        let mut budget: u64 = u64::MAX;
        while budget > 0
            invariant
                self.wf(),
                self@ == spec_apply_all(s0, updates),
            decreases budget,
        {
            match self.rx.try_recv() {
                Ok(state) => {
                    proof {
                        lemma_apply_all_snoc(s0, updates, state);
                        updates = updates.push(state);
                    }
                    self.apply(state);
                    budget = budget - 1;
                },
                Err(_) => {
                    break;
                },
            }
        }
    }

    /// Return a snapshot of the latest known state for all clients.
    ///
    /// The snapshot is an independent copy, equal to the stored records in
    /// their stored order, so that read access stays independent from the
    /// store's internal mutation.
    pub fn snapshot(&self) -> (r: Vec<ClientState>)
        ensures
            r@ == self@,
    {
        let n = self.clients.len();
        let mut out: Vec<ClientState> = Vec::new();
        let mut i: usize = 0;
        while i < n
            invariant
                i <= n,
                n == self@.len(),
                out@ =~= self@.take(i as int),
            decreases n - i,
        {
            out.push(self.clients[i].clone());
            proof {
                assert(out@ =~= self@.take(i + 1));
            }
            i = i + 1;
        }
        proof {
            assert(self@.take(n as int) =~= self@);
        }
        out
    }
}

/// Applying a batch and then one more record is applying the longer batch.
proof fn lemma_apply_all_snoc(s: Seq<ClientState>, updates: Seq<ClientState>, state: ClientState)
    ensures
        spec_apply_all(s, updates.push(state)) == spec_apply(spec_apply_all(s, updates), state),
    decreases updates.len(),
{
    let snoc = updates.push(state);
    if updates.len() == 0 {
        assert(snoc[0] == state);
        assert(snoc.drop_first() =~= Seq::<ClientState>::empty());
        assert(spec_apply_all(s, snoc) == spec_apply_all(spec_apply(s, state), snoc.drop_first()));
        assert(spec_apply_all(spec_apply(s, state), snoc.drop_first()) == spec_apply(s, state));
        assert(spec_apply_all(s, updates) == s);
    } else {
        assert(snoc[0] == updates[0]);
        assert(snoc.drop_first() =~= updates.drop_first().push(state));
        assert(spec_apply_all(s, snoc) == spec_apply_all(
            spec_apply(s, updates[0]),
            updates.drop_first().push(state),
        ));
        lemma_apply_all_snoc(spec_apply(s, updates[0]), updates.drop_first(), state);
        assert(spec_apply_all(s, updates) == spec_apply_all(
            spec_apply(s, updates[0]),
            updates.drop_first(),
        ));
    }
}

} // verus!
