//! The monotonic clock that paces the simulation.
//!
//! Nothing here is proved: these items only tell the verifier which clock
//! functions of the standard library the engine calls. A reading of the clock
//! differs from call to call, so none of them promises anything about its
//! result, and the engine is verified for every value they may return.

use vstd::prelude::*;

verus! {

/// `std::time::Instant`, a reading of the monotonic clock, opaque to the
/// verifier.
#[verifier::external_type_specification]
#[verifier::external_body]
pub struct ExInstant(std::time::Instant);

/// `Instant::now` reads the clock. Nothing is claimed of the reading.
pub assume_specification[ std::time::Instant::now ]() -> (now: std::time::Instant);

/// `Instant::elapsed` measures the time since `start`. Nothing is claimed of
/// the measurement.
pub assume_specification[ std::time::Instant::elapsed ](start: &std::time::Instant) -> (elapsed:
    std::time::Duration);

/// `Duration::as_millis` gives the whole milliseconds in `span`. Nothing is
/// claimed of the count.
pub assume_specification[ std::time::Duration::as_millis ](span: &std::time::Duration) -> (millis:
    u128);

} // verus!
