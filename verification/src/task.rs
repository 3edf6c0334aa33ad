//! Minimal task trait for integrating custom workloads, the verified body
//! of one reporting worker, and the worker's default metadata.

use crate::client_reporter::ClientReporter;
use crate::format::dec_seq;
use crate::format::u64_to_dec;
use vstd::prelude::*;
use vstd::string::StringExecFns;

verus! {

/// A single unit of work that can be stepped forward.
///
/// This trait intentionally avoids a constructor so tasks can be built with
/// arbitrary domain-specific inputs. Use `set_metadata` to configure
/// reporting-related metadata after construction.
pub trait Task: Send + 'static {
    /// Advance the task by one tick/step.
    fn tick(&mut self);

    /// Provide a human-readable label and total units of work, or `None`
    /// for unknown.
    fn set_metadata(&mut self, label: String, total: Option<u64>) {
        let _ = label;
        let _ = total;
    }

    /// Optionally expose current progress.
    ///
    /// Return `None` when progress is observed externally (e.g. a probe).
    fn current(&self) -> Option<u64> {
        None
    }
}

/// The default label for the worker at an index: `task-` and the index.
pub fn default_task_label(index: usize) -> (r: String)
    ensures
        r@ == "task-"@ + dec_seq(index as nat),
{
    let mut label = "task-".to_owned();
    let digits = u64_to_dec(index as u64);
    label.append(digits.as_str());
    label
}

/// The default total for a worker: the declared total where one is given,
/// else the step count it will run.
pub fn default_task_total(total: Option<u64>, steps: usize) -> (r: Option<u64>)
    ensures
        r == (match total {
            Some(t) => Some(t),
            None => Some(steps as u64),
        }),
{
    match total {
        Some(t) => Some(t),
        None => Some(steps as u64),
    }
}

/// Run one task to completion, reporting as it goes.
///
/// Starts the task under the given label and total, ticks it `steps` times
/// reporting whatever progress it exposes, then forces a final
/// `set_current(steps)` and `complete` whether or not intermediate progress
/// matched the total. Reporting is best effort throughout: the work never
/// depends on it, so the ticks all run even when the store is already gone
/// and nothing can be sent.
pub fn run_worker<T: Task>(
    task: &mut T,
    reporter: &ClientReporter,
    label: String,
    total: Option<u64>,
    steps: usize,
) {
    let client = match reporter.start(label, total) {
        Ok(c) => Some(c),
        Err(_) => None,
    };
    let mut i: usize = 0;
    while i < steps
        invariant
            i <= steps,
        decreases steps - i,
    {
        task.tick();
        if let Some(c) = &client {
            if let Some(current) = task.current() {
                let _ = c.set_current(current);
            }
        }
        i = i + 1;
    }
    if let Some(c) = &client {
        let _ = c.set_current(steps as u64);
        let _ = c.complete();
    }
}

} // verus!
