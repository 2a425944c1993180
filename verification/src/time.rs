//! Uptime, durations and time stamps, all derived from the tick counter.

use crate::interrupts::timer::{self, uptime_ms_of, uptime_seconds_of, TickCounter};
use vstd::prelude::*;

verus! {

/// The number of timer interrupts counted.
pub fn ticks(counter: &TickCounter) -> (r: u64)
    ensures
        r == counter@,
{
    timer::ticks(counter)
}

/// Uptime in milliseconds, which has to fit in 64 bits.
pub fn uptime_ms(counter: &TickCounter) -> (r: u64)
    requires
        uptime_ms_of(counter@) <= u64::MAX,
    ensures
        r == uptime_ms_of(counter@),
{
    timer::uptime_ms(counter)
}

/// Uptime in whole seconds.
pub fn uptime_seconds(counter: &TickCounter) -> (r: u64)
    requires
        uptime_ms_of(counter@) <= u64::MAX,
    ensures
        r == uptime_seconds_of(counter@),
{
    timer::uptime_seconds(counter)
}

/// A span of time in milliseconds.
#[derive(Debug, Clone, Copy, PartialEq, Eq, PartialOrd, Ord)]
pub struct Duration {
    millis: u64,
}

impl View for Duration {
    type V = u64;

    closed spec fn view(&self) -> u64 {
        self.millis
    }
}

impl Duration {
    /// The span of `millis` milliseconds.
    pub fn from_millis(millis: u64) -> (r: Self)
        ensures
            r@ == millis,
    {
        Self { millis }
    }

    /// The span of `secs` seconds, which in milliseconds has to fit in 64
    /// bits.
    pub fn from_secs(secs: u64) -> (r: Self)
        requires
            secs * 1000 <= u64::MAX,
        ensures
            r@ == secs * 1000,
    {
        Self { millis: secs * 1000 }
    }

    /// The span in milliseconds.
    pub fn as_millis(&self) -> (r: u64)
        ensures
            r == self@,
    {
        self.millis
    }

    /// The span in whole seconds.
    pub fn as_secs(&self) -> (r: u64)
        ensures
            r == self@ / 1000,
    {
        self.millis / 1000
    }
}

/// A moment, in milliseconds of uptime.
#[derive(Debug, Clone, Copy, PartialEq, Eq, PartialOrd, Ord)]
pub struct Timestamp {
    millis: u64,
}

impl View for Timestamp {
    type V = u64;

    closed spec fn view(&self) -> u64 {
        self.millis
    }
}

impl Timestamp {
    /// The present moment.
    pub fn now(counter: &TickCounter) -> (r: Self)
        requires
            uptime_ms_of(counter@) <= u64::MAX,
        ensures
            r@ == uptime_ms_of(counter@),
    {
        Self { millis: uptime_ms(counter) }
    }

    /// The time that has passed since this moment; none where the moment
    /// lies ahead.
    pub fn elapsed(&self, counter: &TickCounter) -> (r: Duration)
        requires
            uptime_ms_of(counter@) <= u64::MAX,
        ensures
            r@ == if uptime_ms_of(counter@) >= self@ {
                uptime_ms_of(counter@) - self@
            } else {
                0
            },
    {
        let current = uptime_ms(counter);
        Duration::from_millis(current.saturating_sub(self.millis))
    }

    /// The moment in milliseconds of uptime.
    pub fn as_millis(&self) -> (r: u64)
        ensures
            r == self@,
    {
        self.millis
    }
}

} // verus!
