//! The estimator's one tie to the environment: a monotonic clock.
//!
//! Everything here either declares `std::time` items to Verus or wraps a
//! single call into them. Nothing is stated of the readings themselves —
//! what a clock returns depends on when it is asked — so every verified
//! caller takes the reading as a plain value and is proved for all of them.

use vstd::prelude::*;

verus! {

#[verifier::external_type_specification]
#[verifier::external_body]
pub struct ExInstant(std::time::Instant);

/// Relies on std::time::Instant::now: a reading of the monotonic clock, used
/// only as the fixed origin that later readings are measured from.
#[verifier::external_body]
pub(crate) fn clock_origin_now() -> std::time::Instant {
    std::time::Instant::now()
}

/// Relies on std::time::Instant::elapsed: the monotonic time from `origin`
/// to the moment of the call.
#[verifier::external_body]
fn elapsed_since(origin: &std::time::Instant) -> std::time::Duration {
    origin.elapsed()
}

/// Relies on std::time::Duration::as_nanos: the whole duration in
/// nanoseconds.
#[verifier::external_body]
fn duration_as_nanos(d: &std::time::Duration) -> u128 {
    d.as_nanos()
}

/// The monotonic time since `origin`, in nanoseconds, held to the `u64`
/// range (readings beyond that — over five centuries — saturate).
pub(crate) fn nanos_since(origin: &std::time::Instant) -> u64 {
    let nanos: u128 = duration_as_nanos(&elapsed_since(origin));
    if nanos > (u64::MAX as u128) {
        u64::MAX
    } else {
        nanos as u64
    }
}

} // verus!
