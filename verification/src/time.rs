//! The monotonic clock. An instant is opaque: all that verified code learns
//! of one is how long ago it was taken, and that is different at every call.

use std::time::Duration;
use std::time::Instant;
use vstd::prelude::*;

verus! {

/// A reading of the monotonic clock of std.
#[verifier::external_type_specification]
#[verifier::external_body]
pub struct ExInstant(std::time::Instant);

/// `Instant::now` reads the clock. Nothing is claimed of the reading.
pub assume_specification[ std::time::Instant::now ]() -> (t: Instant);

/// `Instant::elapsed` gives the time that has passed since the instant was
/// taken. Nothing is claimed of it: it grows from call to call.
pub assume_specification[ std::time::Instant::elapsed ](t: &Instant) -> (d: Duration);

/// `Duration::as_nanos` gives the whole duration in nanoseconds. The
/// duration is opaque here, so nothing is claimed of the number.
pub assume_specification[ std::time::Duration::as_nanos ](d: &Duration) -> (n: u128);

/// The number of nanoseconds in a second.
pub const NANOS_PER_SECOND: u128 = 1_000_000_000;

/// The time in nanoseconds that has passed since `t` was taken.
pub fn nanos_since(t: &Instant) -> (n: u128) {
    let d = t.elapsed();
    d.as_nanos()
}

} // verus!
