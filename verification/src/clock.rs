//! Trusted view of the monotonic clock. Timestamps are plain nanosecond
//! counts measured from an origin captured when the tracker is created; the
//! verified code never relies on any property of the readings themselves and
//! clamps end times so an end never precedes its start.

use vstd::prelude::*;

verus! {

#[verifier::external_type_specification]
#[verifier::external_body]
pub struct ExInstant(std::time::Instant);

/// Relies on std::time::Instant::now: captures the clock origin.
#[verifier::external_body]
pub(crate) fn clock_origin() -> (t: std::time::Instant) {
    std::time::Instant::now()
}

/// Relies on std::time::Instant::elapsed: nanoseconds since the origin,
/// truncated to 64 bits. Nothing is promised of the reading.
#[verifier::external_body]
pub(crate) fn nanos_since(origin: &std::time::Instant) -> (r: u64) {
    origin.elapsed().as_nanos() as u64
}

} // verus!
