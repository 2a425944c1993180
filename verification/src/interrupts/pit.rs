//! The 8253/8254 programmable interval timer, channel 0.
//!
//! The chip divides a fixed 1,193,182 Hz clock by a 16-bit divisor. In mode 3
//! (square wave) the divisor has to lie between 2 and 65535.

use super::port::{byte_write, Port, PortWrite};
use vstd::prelude::*;

verus! {

/// Frequency of the PIT's oscillator in Hz.
pub const PIT_FREQUENCY: u32 = 1193182;

/// Data port of channel 0.
pub const PIT_CHANNEL_0: u16 = 0x40;

/// Mode/command port.
pub const PIT_COMMAND: u16 = 0x43;

/// Command byte: channel 0, low byte then high byte, mode 3, binary.
pub const PIT_SQUARE_WAVE: u8 = 0x36;

/// The divisor that gives `frequency`, rounded down.
pub open spec fn divisor_of(frequency: u32) -> int {
    PIT_FREQUENCY as int / frequency as int
}

/// `frequency` can be programmed: it is not zero and its divisor lies between
/// 2 and 65535.
pub open spec fn valid_frequency(frequency: u32) -> bool {
    frequency != 0 && 2 <= divisor_of(frequency) <= 65535
}

/// The frequencies that can be programmed are those from 19 Hz to 596,591 Hz.
pub proof fn lemma_valid_frequency_range(frequency: u32)
    ensures
        valid_frequency(frequency) <==> 19 <= frequency <= 596591,
{
    let f = frequency as int;
    if f != 0 {
        assert(2 <= 1193182int / f <==> f <= 596591) by (nonlinear_arith)
            requires
                f > 0,
        ;
        assert(1193182int / f <= 65535 <==> f >= 19) by (nonlinear_arith)
            requires
                f > 0,
        ;
    }
}

/// The three writes that program channel 0 with `divisor`: the command byte,
/// then the low byte and the high byte of the divisor, in this order.
pub open spec fn frequency_writes(divisor: u16) -> Seq<PortWrite> {
    seq![
        byte_write(PIT_COMMAND, PIT_SQUARE_WAVE),
        byte_write(PIT_CHANNEL_0, (divisor % 256) as u8),
        byte_write(PIT_CHANNEL_0, (divisor / 256) as u8),
    ]
}

/// The programmable interval timer.
pub struct Pit {
    channel_0: Port<u8>,
    command: Port<u8>,
}

impl Pit {
    /// The two ports are those of the PC architecture.
    pub closed spec fn wf(self) -> bool {
        self.channel_0.addr() == PIT_CHANNEL_0 && self.command.addr() == PIT_COMMAND
    }

    /// The timer at its fixed ports.
    pub fn new() -> (r: Self)
        ensures
            r.wf(),
    {
        Self { channel_0: Port::new(PIT_CHANNEL_0), command: Port::new(PIT_COMMAND) }
    }

    /// The divisor for `frequency`, or `None` where `frequency` is zero or the
    /// divisor falls outside 2..=65535.
    pub fn divisor(frequency: u32) -> (r: Option<u16>)
        ensures
            r is Some <==> valid_frequency(frequency),
            r is Some ==> r.unwrap() == divisor_of(frequency),
    {
        if frequency == 0 {
            return None;
        }
        let divisor = PIT_FREQUENCY / frequency;
        if divisor < 2 || divisor > 65535 {
            return None;
        }
        Some(divisor as u16)
    }

    /// The writes that make channel 0 fire at `frequency` Hz. A frequency that
    /// cannot be programmed is a mistake of the caller.
    pub fn set_frequency(&mut self, frequency: u32) -> (r: Vec<PortWrite>)
        requires
            old(self).wf(),
            valid_frequency(frequency),
        ensures
            final(self).wf(),
            r@ == frequency_writes(divisor_of(frequency) as u16),
    {
        let divisor = (PIT_FREQUENCY / frequency) as u16;
        let mut writes: Vec<PortWrite> = Vec::new();
        writes.push(self.command.write(PIT_SQUARE_WAVE));
        assert(divisor & 0xFF == divisor % 256 && divisor >> 8 == divisor / 256 && divisor >> 8
            < 256) by (bit_vector);
        writes.push(self.channel_0.write((divisor & 0xFF) as u8));
        writes.push(self.channel_0.write((divisor >> 8) as u8));
        assert(writes@ =~= frequency_writes(divisor));
        writes
    }
}

impl Default for Pit {
    fn default() -> (r: Self)
        ensures
            r.wf(),
    {
        Self::new()
    }
}

} // verus!
