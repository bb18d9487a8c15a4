//! The wall clock, by which a run of the pipeline is timed.

use vstd::prelude::*;

verus! {

/// A point in time. Opaque here: it is only handed back to the clock.
#[verifier::external_type_specification]
#[verifier::external_body]
pub struct ExInstant(std::time::Instant);

/// The present moment.
///
/// Calls `std::time::Instant::now`. Nothing is claimed of the result.
#[verifier::external_body]
pub(crate) fn start_clock() -> (start: std::time::Instant) {
    std::time::Instant::now()
}

/// The time that has passed since `start`.
///
/// Calls `std::time::Instant::elapsed`. Nothing is claimed of the result.
#[verifier::external_body]
pub(crate) fn time_since(start: &std::time::Instant) -> (elapsed: std::time::Duration) {
    start.elapsed()
}

} // verus!
