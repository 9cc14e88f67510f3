//! Readings of the monotonic clock, reduced to plain nanosecond counts.

use vstd::prelude::*;

verus! {

#[verifier::external_type_specification]
#[verifier::external_body]
pub struct ExInstant(std::time::Instant);

/// Relies on std's `Instant::now`: a reading of the monotonic clock.
/// What it reads depends on when it runs, so nothing is promised of it.
#[verifier::external_body]
pub(crate) fn monotonic_now() -> std::time::Instant {
    std::time::Instant::now()
}

/// Relies on std's `Instant::elapsed`: the time since `start`, measured
/// on the monotonic clock.
#[verifier::external_body]
pub(crate) fn elapsed_since(start: &std::time::Instant) -> std::time::Duration {
    start.elapsed()
}

/// Relies on std's `Duration::as_nanos`: the whole duration as a count
/// of nanoseconds.
#[verifier::external_body]
pub(crate) fn duration_nanos(d: &std::time::Duration) -> u128 {
    d.as_nanos()
}

/// Clamps a nanosecond count into the range of `u64`, so that sums
/// over any number of trials fit in a `u128` accumulator. The clamp
/// bites only past half a millennium of elapsed time.
pub fn clamp_nanos(n: u128) -> (r: u64)
    ensures
        r == if n > u64::MAX { u64::MAX as int } else { n as int },
{
    if n > u64::MAX as u128 {
        u64::MAX
    } else {
        n as u64
    }
}

} // verus!
