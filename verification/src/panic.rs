//! What the panic handler computes before it prints: the uptime split into
//! hours, minutes and seconds, and the walk along the chain of frame pointers
//! for the stack trace.
//!
//! The walk reads memory, which is the platform's business. Here is the rule
//! that says which addresses it may read, and when it stops.

use vstd::prelude::*;

verus! {

/// First address of the kernel half of the address space.
pub const KERNEL_SPACE_START: u64 = 0xffff_8000_0000_0000;

/// Largest number of frames in a stack trace.
pub const MAX_TRACE_FRAMES: usize = 10;

/// `addr` lies in the kernel half of the address space and is not the very
/// last address.
pub open spec fn valid_kernel_address(addr: u64) -> bool {
    KERNEL_SPACE_START <= addr < 0xffff_ffff_ffff_ffff
}

/// Whether `addr` may be read during a stack trace.
pub fn is_valid_kernel_address(addr: u64) -> (r: bool)
    ensures
        r == valid_kernel_address(addr),
{
    addr >= KERNEL_SPACE_START && addr < 0xffff_ffff_ffff_ffff
}

/// Where the return address of the frame at `rbp` is read from, `frame`
/// frames into the trace: eight bytes above the frame pointer. The trace ends,
/// with `None`, after ten frames, at a null frame pointer, or where that
/// address may not be read.
pub fn return_address_slot(rbp: u64, frame: usize) -> (r: Option<u64>)
    requires
        rbp + 8 <= u64::MAX,
    ensures
        r is Some <==> frame < MAX_TRACE_FRAMES && rbp != 0 && valid_kernel_address(
            (rbp + 8) as u64,
        ),
        r is Some ==> r.unwrap() == rbp + 8,
{
    if frame < MAX_TRACE_FRAMES && rbp != 0 && is_valid_kernel_address(rbp + 8) {
        Some(rbp + 8)
    } else {
        None
    }
}

/// Where the frame pointer of the caller is read from: the address `rbp`
/// itself. The trace ends, with `None`, where it may not be read.
pub fn caller_frame_slot(rbp: u64) -> (r: Option<u64>)
    ensures
        r == if valid_kernel_address(rbp) {
            Some(rbp)
        } else {
            None
        },
{
    if is_valid_kernel_address(rbp) {
        Some(rbp)
    } else {
        None
    }
}

/// An uptime split for display.
#[derive(Debug, Clone, Copy, PartialEq, Eq, Structural)]
pub struct Uptime {
    /// Whole hours.
    pub hours: u64,
    /// Minutes beyond the hours: below 60.
    pub minutes: u64,
    /// Seconds beyond the minutes: below 60.
    pub seconds: u64,
    /// Milliseconds beyond the seconds: below 1000.
    pub millis: u64,
}

/// Splits `uptime_ms` milliseconds into hours, minutes, seconds and
/// milliseconds.
pub fn print_uptime(uptime_ms: u64) -> (r: Uptime)
    ensures
        r.millis == uptime_ms % 1000,
        r.seconds == (uptime_ms / 1000) % 60,
        r.minutes == ((uptime_ms / 1000) % 3600) / 60,
        r.hours == (uptime_ms / 1000) / 3600,
        r.minutes < 60 && r.seconds < 60 && r.millis < 1000,
        (r.hours * 3600 + r.minutes * 60 + r.seconds) * 1000 + r.millis == uptime_ms,
{
    let total_secs = uptime_ms / 1000;
    let ms = uptime_ms % 1000;
    let hours = total_secs / 3600;
    let minutes = (total_secs % 3600) / 60;
    let seconds = total_secs % 60;
    proof {
        let rest = total_secs % 3600;
        assert(total_secs == hours * 3600 + rest);
        assert(rest == minutes * 60 + rest % 60);
        assert(rest % 60 == seconds);
    }
    Uptime { hours, minutes, seconds, millis: ms }
}

} // verus!
