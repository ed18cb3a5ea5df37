//! The system's monotonic clock, as far as the loop needs it.
//!
//! The loop captures one instant when it is entered and from then on only
//! asks how many whole milliseconds have passed since. What the clock reads
//! depends on when it is asked, so nothing is claimed of a reading: the run
//! is proved for every value that one can have.

use std::time::{Duration, Instant};
use vstd::prelude::*;

verus! {

/// `std::time::Instant`: a reading of the monotonic clock. It is carried
/// from the entry of the loop to each poll and never looked into.
#[verifier::external_type_specification]
#[verifier::external_body]
pub struct ExInstant(std::time::Instant);

/// `Instant::now`: the instant that the monotonic clock reads at the time of
/// the call. Nothing is claimed of it: two calls need not agree.
#[verifier::external_body]
pub(crate) fn now() -> Instant {
    Instant::now()
}

/// `Instant::saturating_duration_since`: the time from `earlier` to `later`,
/// or none if `earlier` is the later one. It takes any two instants and
/// does not panic. Nothing is claimed of the duration.
#[verifier::external_body]
fn since(later: &Instant, earlier: &Instant) -> Duration {
    later.saturating_duration_since(*earlier)
}

/// `Duration::as_millis`: the whole milliseconds that a duration holds.
/// Nothing is claimed of the number.
#[verifier::external_body]
fn whole_millis(duration: &Duration) -> u128 {
    duration.as_millis()
}

/// The whole milliseconds that have passed since `origin` was captured.
pub(crate) fn elapsed_ms(origin: &Instant) -> u128 {
    let read = now();
    let passed = since(&read, origin);
    whole_millis(&passed)
}

} // verus!
