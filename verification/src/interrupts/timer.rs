//! The tick counter behind the timer interrupt, and the uptime derived from
//! it.

use super::pic::ChainedPics;
use super::port::PortWrite;
use vstd::prelude::*;

verus! {

/// Frequency of the timer interrupt in Hz, as the PIT is programmed.
pub const TIMER_FREQUENCY: u32 = 100;

/// Milliseconds that have passed after `ticks` timer interrupts.
pub open spec fn uptime_ms_of(ticks: u64) -> int {
    ticks * 1000 / (TIMER_FREQUENCY as int)
}

/// Whole seconds that have passed after `ticks` timer interrupts.
pub open spec fn uptime_seconds_of(ticks: u64) -> int {
    uptime_ms_of(ticks) / 1000
}

/// The count after one more interrupt: one more, wrapping to 0 after
/// `u64::MAX`.
pub open spec fn next_tick(ticks: u64) -> u64 {
    if ticks == u64::MAX {
        0
    } else {
        (ticks + 1) as u64
    }
}

/// The count that `n` interrupts turn `ticks` into.
pub open spec fn ticks_after(ticks: u64, n: nat) -> u64
    decreases n,
{
    if n == 0 {
        ticks
    } else {
        next_tick(ticks_after(ticks, (n - 1) as nat))
    }
}

/// The number of timer interrupts since the counter was made.
#[derive(Debug, Clone, Copy, PartialEq, Eq)]
pub struct TickCounter {
    ticks: u64,
}

impl View for TickCounter {
    type V = u64;

    closed spec fn view(&self) -> u64 {
        self.ticks
    }
}

impl TickCounter {
    /// A counter at zero.
    pub fn new() -> (r: Self)
        ensures
            r@ == 0,
    {
        Self { ticks: 0 }
    }

    /// A counter that has seen `ticks` interrupts.
    pub fn with_ticks(ticks: u64) -> (r: Self)
        ensures
            r@ == ticks,
    {
        Self { ticks }
    }

    /// Counts one interrupt.
    pub fn tick(&mut self)
        ensures
            final(self)@ == next_tick(old(self)@),
    {
        self.ticks = self.ticks.wrapping_add(1);
    }
}

/// What the handler of the timer interrupt (IRQ 0) does: it counts the tick
/// and acknowledges the interrupt at the controller. The writes returned are
/// that acknowledgement.
pub fn timer_interrupt_handler(counter: &mut TickCounter, pics: &mut ChainedPics) -> (r: Vec<
    PortWrite,
>)
    requires
        old(pics).wf(),
    ensures
        final(pics).wf(),
        final(counter)@ == next_tick(old(counter)@),
        r@ == super::pic::eoi_writes(0),
{
    counter.tick();
    pics.notify_end_of_interrupt(0)
}

/// The number of timer interrupts counted.
pub fn ticks(counter: &TickCounter) -> (r: u64)
    ensures
        r == counter@,
{
    counter.ticks
}

/// Uptime in milliseconds: ticks times 1000 over the timer frequency. The
/// result has to fit in 64 bits.
pub fn uptime_ms(counter: &TickCounter) -> (r: u64)
    requires
        uptime_ms_of(counter@) <= u64::MAX,
    ensures
        r == uptime_ms_of(counter@),
        r == counter@ * 10,
{
    let wide = (counter.ticks as u128) * 1000 / (TIMER_FREQUENCY as u128);
    wide as u64
}

/// Uptime in whole seconds.
pub fn uptime_seconds(counter: &TickCounter) -> (r: u64)
    requires
        uptime_ms_of(counter@) <= u64::MAX,
    ensures
        r == uptime_seconds_of(counter@),
        r == counter@ / 100,
{
    uptime_ms(counter) / 1000
}

/// After exactly `n` timer interrupts at 100 Hz the uptime is `n * 10`
/// milliseconds, as long as the count has not wrapped.
pub proof fn lemma_uptime_after_ticks(n: nat)
    requires
        n <= u64::MAX,
    ensures
        ticks_after(0, n) == n,
        uptime_ms_of(ticks_after(0, n)) == n * 10,
    decreases n,
{
    if n > 0 {
        lemma_uptime_after_ticks((n - 1) as nat);
    }
}

} // verus!
