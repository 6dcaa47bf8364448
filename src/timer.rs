//! The cadence of the poll loop.
use vstd::prelude::*;

verus! {

#[verifier::external_type_specification]
#[verifier::external_body]
pub struct ExInstant(std::time::Instant);

/// Relies on std's `Instant::now`: a reading of the monotonic clock; nothing
/// is known of its value.
pub assume_specification[ std::time::Instant::now ]() -> std::time::Instant;

/// Relies on std's `Instant::elapsed`: the time since the reading; nothing is
/// known of its value.
pub assume_specification[ std::time::Instant::elapsed ](i: &std::time::Instant) -> core::time::Duration;

/// Relies on std's `Duration::as_millis`: the whole milliseconds of a duration.
pub assume_specification[ core::time::Duration::as_millis ](d: &core::time::Duration) -> u128;

/// The poll loop's clock: the period of a tick, and when the current tick began.
pub struct Timer {
    /// Milliseconds per tick.
    pub time: u32,
    /// The start of the current tick.
    pub start: std::time::Instant,
}

/// Milliseconds to sleep after a tick whose work took `elapsed_ms`: the rest
/// of the period, or none where the work took the whole period or more.
pub fn sleep_after(time: u32, elapsed_ms: u128) -> (r: u64)
    ensures
        r == (if elapsed_ms >= time as u128 { 0 } else { time as u128 - elapsed_ms }),
        r <= time,
{
    if elapsed_ms >= time as u128 {
        0
    } else {
        (time as u128 - elapsed_ms) as u64
    }
}

impl Timer {
    pub fn new(time: u32) -> (r: Timer)
        ensures
            r.time == time,
    {
        Timer { time, start: std::time::Instant::now() }
    }

    /// Marks the start of a tick, read from the clock as `start`.
    pub fn begin_tick(&mut self, start: std::time::Instant)
        ensures
            final(self).time == old(self).time,
            final(self).start == start,
    {
        self.start = start;
    }

    /// Milliseconds to sleep before the next tick: the rest of the period,
    /// never more than the period.
    pub fn remaining(&self) -> (r: u64)
        ensures
            r <= self.time,
    {
        let elapsed = self.start.elapsed().as_millis();
        sleep_after(self.time, elapsed)
    }
}

} // verus!
