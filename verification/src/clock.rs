//! Trusted declarations for the monotonic clock.
//!
//! The library works with plain millisecond counts measured from a fixed
//! origin `Instant`, so that all timing derivations (elapsed time, update
//! ages, per-iteration durations) are verified integer arithmetic. Only the
//! clock reads themselves are trusted; nothing is assumed about the values
//! they produce.

use std::time::Duration;
use std::time::Instant;
use vstd::prelude::*;

verus! {

/// Relies on `std::time::Instant`: an opaque monotonic point in time.
#[verifier::external_type_specification]
#[verifier::external_body]
pub struct ExInstant(Instant);

/// Relies on `Instant::now`: the current point on the monotonic clock.
/// Nothing is promised of the value.
pub assume_specification[ Instant::now ]() -> Instant;

/// Relies on `Instant::duration_since`: the time elapsed from `earlier` to
/// this instant, or zero if `earlier` is the later of the two; never panics.
pub assume_specification[ Instant::duration_since ](i: &Instant, earlier: Instant) -> Duration;

/// Relies on `Duration::as_millis`: the whole number of milliseconds the
/// duration spans.
pub assume_specification[ Duration::as_millis ](d: &Duration) -> u128;

/// Milliseconds of monotonic time that have passed since `origin`.
///
/// The value depends on the clock, so nothing is stated of it; spans beyond
/// roughly 584 million years of milliseconds are truncated.
pub(crate) fn millis_since(origin: &Instant) -> u64 {
    let now = Instant::now();
    let d = now.duration_since(*origin);
    #[verifier::truncate]
    let ms: u64 = d.as_millis() as u64;
    ms
}

} // verus!
