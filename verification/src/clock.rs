//! The monotonic clock that paints are timed by.

use vstd::prelude::*;
use std::time::{Duration, Instant};
use crate::snapshot::SAMPLE_INTERVAL_NANOS;

verus! {

/// `std::time::Instant`, a reading of the system's monotonic clock. It is
/// carried around and never looked into.
#[verifier::external_type_specification]
#[verifier::external_body]
pub struct ExInstant(std::time::Instant);

/// `Instant::now` reads the system's monotonic clock. Nothing is claimed of
/// what it reads.
pub assume_specification[ std::time::Instant::now ]() -> (now: Instant);

/// `Instant::elapsed` measures the time since the instant was taken. Nothing
/// is claimed of the measure.
pub assume_specification[ std::time::Instant::elapsed ](since: &Instant) -> (run: Duration);

/// `Duration::as_nanos` gives a duration as a count of nanoseconds. Nothing is
/// claimed of the count.
pub assume_specification[ std::time::Duration::as_nanos ](run: &Duration) -> (nanos: u128);

/// A clock that counts nanoseconds from its start, beginning at one sampling
/// interval rather than at zero.
pub struct Clock {
    origin: Instant,
}

impl Clock {
    /// Starts a clock.
    pub fn start() -> Clock {
        Clock { origin: Instant::now() }
    }

    /// The present time. Should the count ever outgrow its type it stays at
    /// the largest value.
    pub fn now(&self) -> (t: u128)
        ensures
            t >= SAMPLE_INTERVAL_NANOS,
    {
        let run: Duration = self.origin.elapsed();
        let nanos: u128 = run.as_nanos();
        if nanos > u128::MAX - SAMPLE_INTERVAL_NANOS {
            u128::MAX
        } else {
            nanos + SAMPLE_INTERVAL_NANOS
        }
    }
}

} // verus!
