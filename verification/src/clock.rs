//! Wall-clock measurement for the digest batch. Time is not a function of any
//! argument, so nothing is claimed of the values.

use vstd::prelude::*;

verus! {

#[verifier::external_type_specification]
#[verifier::external_body]
pub struct ExInstant(std::time::Instant);

/// Relies on std::time::Instant::now.
#[verifier::external_body]
pub(crate) fn clock_now() -> std::time::Instant {
    std::time::Instant::now()
}

/// Relies on std::time::Instant::elapsed: the time since `start`, here
/// truncated to whole milliseconds.
#[verifier::external_body]
pub(crate) fn clock_elapsed_ms(start: &std::time::Instant) -> u64 {
    start.elapsed().as_millis() as u64
}

} // verus!
