//! Monotonic time as plain numbers: nanoseconds since a clock was started.
use std::time::Duration;
use std::time::Instant;
use vstd::prelude::*;

verus! {

/// `std::time::Instant`, carried as an opaque value.
#[verifier::external_type_specification]
#[verifier::external_body]
pub struct ExInstant(Instant);

/// `std::time::Instant::now`: the current reading of the monotonic clock.
/// Nothing is claimed of the reading.
pub assume_specification[ Instant::now ]() -> (reading: Instant);

/// `std::time::Instant::elapsed`: the time that has passed since the reading
/// was taken. Nothing is claimed of the amount.
pub assume_specification[ Instant::elapsed ](reading: &Instant) -> (passed: Duration);

/// `std::time::Duration::as_nanos`: the whole duration in nanoseconds. Nothing
/// is claimed of the number.
pub assume_specification[ Duration::as_nanos ](duration: &Duration) -> (nanos: u128);

/// A monotonic clock that counts nanoseconds from the moment it was started.
/// Copies of one clock read the same time.
#[derive(Clone, Copy, Debug)]
pub struct Clock {
    origin: Instant,
}

impl Clock {
    /// Starts a clock at the present moment.
    pub fn start() -> (clock: Self) {
        Self { origin: Instant::now() }
    }

    /// Nanoseconds that have passed since the clock was started.
    pub fn now(&self) -> (nanos: u128) {
        self.origin.elapsed().as_nanos()
    }
}

} // verus!
