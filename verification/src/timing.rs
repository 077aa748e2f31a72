//! Durations, timers and stopwatches. A duration is a whole number of
//! nanoseconds; the clock readings behind a timer come from the platform's
//! monotonic clock and are opaque.

use vstd::prelude::*;

verus! {

/// Nanoseconds in one second.
pub const NANOS_PER_SEC: u64 = 1_000_000_000;

/// The sum of two nanosecond counts, saturating at the largest
/// representable value.
pub open spec fn dur_add_sat(a: u64, b: u64) -> u64 {
    if a + b > u64::MAX {
        u64::MAX
    } else {
        (a + b) as u64
    }
}

/// A span of time, counted in whole nanoseconds.
#[derive(Copy, Clone, Debug, PartialEq, Eq, PartialOrd, Ord, Structural)]
pub struct Duration {
    pub nanos: u64,
}

impl Duration {
    /// Adds two durations, saturating at the largest representable value.
    pub fn saturating_add(self, other: Duration) -> (d: Duration)
        ensures
            d.nanos == dur_add_sat(self.nanos, other.nanos),
    {
        Duration { nanos: self.nanos.saturating_add(other.nanos) }
    }

    /// A duration of `nanos` nanoseconds.
    pub fn from_nanos(nanos: u64) -> (d: Duration)
        ensures
            d.nanos == nanos,
    {
        Duration { nanos }
    }

    /// The zero duration.
    pub fn zero() -> (d: Duration)
        ensures
            d.nanos == 0,
    {
        Duration { nanos: 0 }
    }
}

/// The tick period of a `hz`-per-second rate, truncated to whole
/// nanoseconds; a rate of zero is treated as one per second.
pub fn duration_from_hz(hz: u32) -> (d: Duration)
    ensures
        d.nanos == NANOS_PER_SEC as int / (if hz == 0 { 1int } else { hz as int }),
{
    let hz: u32 = if hz == 0 { 1 } else { hz };

    Duration { nanos: NANOS_PER_SEC / (hz as u64) }
}

/// The tick period of a `hz`-per-second rate, truncated to whole
/// nanoseconds. The rate must not be zero.
pub fn hz_to_duration(hz: u32) -> (d: Duration)
    requires
        hz > 0,
    ensures
        d.nanos == NANOS_PER_SEC as int / hz as int,
{
    Duration { nanos: NANOS_PER_SEC / (hz as u64) }
}

/// Declares std::time::Instant: an opaque reading of the platform's
/// monotonic clock, carried but never inspected.
#[verifier::external_type_specification]
#[verifier::external_body]
pub struct ExInstant(std::time::Instant);

/// Relies on std::time::Instant::now: an opaque reading of the platform's
/// monotonic clock. Nothing is assumed about its value.
#[verifier::external_body]
fn instant_now() -> std::time::Instant {
    std::time::Instant::now()
}

/// Relies on Instant::saturating_duration_since and Duration::as_nanos: the
/// whole nanoseconds from `earlier` to `later`, zero when `later` is not
/// after `earlier`. Nothing is assumed about its value.
#[verifier::external_body]
fn nanos_between(earlier: &std::time::Instant, later: &std::time::Instant) -> u64 {
    let d = later.saturating_duration_since(*earlier);
    u64::try_from(d.as_nanos()).unwrap_or(u64::MAX)
}

/// A timer that measures the time since it was created or last reset.
pub struct Timer {
    start: std::time::Instant,
}

impl Timer {
    /// Starts a timer at the current instant.
    pub fn new() -> Self {
        Timer { start: instant_now() }
    }

    /// The time elapsed since the timer started.
    pub fn elapsed(&self) -> Duration {
        let now = instant_now();

        Duration { nanos: nanos_between(&self.start, &now) }
    }

    /// Stops the timer: returns the elapsed time and restarts it.
    pub fn stop(&mut self) -> Duration {
        let duration = self.elapsed();
        self.reset();

        duration
    }

    /// Restarts the timer at the current instant.
    pub fn reset(&mut self) {
        self.start = instant_now();
    }
}

/// A stopwatch that measures the time between consecutive checks.
pub struct Stopwatch {
    start: std::time::Instant,
}

impl Stopwatch {
    /// Starts a stopwatch at the current instant.
    pub fn new() -> Self {
        Stopwatch { start: instant_now() }
    }

    /// The time since the stopwatch last advanced, without advancing it.
    pub fn peek(&self) -> Duration {
        let now = instant_now();

        Duration { nanos: nanos_between(&self.start, &now) }
    }

    /// The time since the stopwatch last advanced; the stopwatch advances to
    /// the current instant.
    pub fn elapsed(&mut self) -> Duration {
        let now = instant_now();
        let diff = Duration { nanos: nanos_between(&self.start, &now) };
        self.start = now;

        diff
    }
}

} // verus!
