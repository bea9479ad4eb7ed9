//! A stopwatch with a deadline.

use vstd::prelude::*;
use std::time::{Duration, Instant};

verus! {

/// A point in time of the monotonic clock of the standard library. Nothing
/// inside it is visible here.
#[verifier::external_type_specification]
#[verifier::external_body]
pub struct ExInstant(Instant);

/// `Instant::now` of the standard library reads the clock; nothing is stated
/// of the instant it returns.
pub assume_specification[ Instant::now ]() -> Instant;

/// `Instant::elapsed` of the standard library gives the time since the
/// instant; nothing is stated of the span it returns.
pub assume_specification[ Instant::elapsed ](start: &Instant) -> Duration;

/// `Duration::as_millis` of the standard library gives the whole
/// milliseconds in the span; nothing is stated of their number.
pub assume_specification[ Duration::as_millis ](span: &Duration) -> u128;

/// Measures the time since its start against a deadline in milliseconds.
pub struct StopWatch {
    start: Instant,
    timeout_ms: u64,
}

/// The low 64 bits of `ms`: the number itself where it is below 2^64.
pub open spec fn low_64(ms: u128) -> u64 {
    (ms % 0x1_0000_0000_0000_0000) as u64
}

/// A count of milliseconds in 64 bits; what is above them is cut off.
pub fn millis_u64(ms: u128) -> (r: u64)
    ensures
        r == low_64(ms),
{
    (ms % 0x1_0000_0000_0000_0000) as u64
}

/// Whether `elapsed_ms` has reached the deadline `timeout_ms`.
pub fn deadline_reached(elapsed_ms: u64, timeout_ms: u64) -> (r: bool)
    ensures
        r == (elapsed_ms >= timeout_ms),
{
    elapsed_ms >= timeout_ms
}

impl StopWatch {
    /// The deadline, in milliseconds after the start.
    pub closed spec fn deadline(&self) -> u64 {
        self.timeout_ms
    }

    /// Starts a stopwatch now, with the deadline `timeout_ms` milliseconds
    /// from now.
    pub fn new(timeout_ms: u64) -> (watch: StopWatch)
        ensures
            watch.deadline() == timeout_ms,
    {
        StopWatch { start: Instant::now(), timeout_ms: timeout_ms }
    }

    /// The milliseconds since the start. This reads the clock: two calls may
    /// differ.
    pub fn elapsed_ms(&self) -> u64 {
        let duration = self.start.elapsed();
        millis_u64(duration.as_millis())
    }

    /// Whether the deadline is reached: `deadline_reached` of the time since
    /// the start. With a deadline of zero it always is.
    pub fn timed_out(&self) -> (r: bool)
        ensures
            self.deadline() == 0 ==> r,
    {
        deadline_reached(self.elapsed_ms(), self.timeout_ms)
    }
}

} // verus!
