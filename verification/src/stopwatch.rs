//! A stopwatch on the monotonic clock.

use std::time::{Duration, Instant};
use vstd::prelude::*;

verus! {

/// `std::time::Instant`, a reading of the monotonic clock. Nothing of what a
/// reading holds is visible to a proof.
#[verifier::external_type_specification]
#[verifier::external_body]
pub struct ExInstant(Instant);

/// `Instant::now` reads the clock. The reading depends on when the call is
/// made, so nothing is claimed of it.
pub assume_specification[ Instant::now ]() -> Instant;

/// `Instant::elapsed` measures the time from the reading to the moment of the
/// call. It depends on when the call is made, so nothing is claimed of it.
pub assume_specification[ Instant::elapsed ](instant: &Instant) -> Duration;

/// `Duration::as_millis` gives the whole milliseconds in a duration. A
/// duration is opaque to a proof, so nothing is claimed of the number.
pub assume_specification[ Duration::as_millis ](duration: &Duration) -> u128;

/// Measures the time since it was made or last reset.
pub struct Stopwatch {
    start: Instant,
}

impl Stopwatch {
    /// A stopwatch that starts now: at the reading that the clock gives.
    pub fn new() -> Stopwatch {
        Stopwatch::started_at(Instant::now())
    }

    /// Starts the stopwatch again from now: from a new reading of the clock.
    pub fn reset(&mut self) {
        self.restart_at(Instant::now());
    }

    /// The time since the start: what the clock measures from `start()`.
    pub fn elapsed(&self) -> Duration {
        self.start().elapsed()
    }

    /// The whole milliseconds since the start: those of `elapsed()`.
    pub fn elapsed_millis(&self) -> u128 {
        self.elapsed().as_millis()
    }

    /// The reading of the clock from which the stopwatch counts.
    pub closed spec fn started(&self) -> Instant {
        self.start
    }

    /// A stopwatch that counts from the reading `start`.
    pub fn started_at(start: Instant) -> (stopwatch: Stopwatch)
        ensures
            stopwatch.started() == start,
    {
        Stopwatch { start }
    }

    /// Makes the stopwatch count from the reading `start`, whatever it
    /// counted from before.
    pub fn restart_at(&mut self, start: Instant)
        ensures
            final(self).started() == start,
    {
        self.start = start;
    }

    /// The reading of the clock from which the stopwatch counts.
    pub fn start(&self) -> (start: Instant)
        ensures
            start == self.started(),
    {
        self.start
    }
}

} // verus!
