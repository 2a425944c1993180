//! The registers of a process that is not on the CPU.

use vstd::prelude::*;

verus! {

/// RFLAGS of a process that has not run yet: interrupts enabled.
pub const DEFAULT_RFLAGS: u64 = 0x200;

/// The registers saved when a process leaves the CPU.
#[derive(Debug, Clone, Copy, PartialEq, Eq)]
pub struct ProcessContext {
    /// Accumulator.
    pub rax: u64,
    /// Base register.
    pub rbx: u64,
    /// Counter.
    pub rcx: u64,
    /// Data register.
    pub rdx: u64,
    /// Source index.
    pub rsi: u64,
    /// Destination index.
    pub rdi: u64,
    /// Base pointer.
    pub rbp: u64,
    /// Stack pointer.
    pub rsp: u64,
    /// General purpose register.
    pub r8: u64,
    /// General purpose register.
    pub r9: u64,
    /// General purpose register.
    pub r10: u64,
    /// General purpose register.
    pub r11: u64,
    /// General purpose register.
    pub r12: u64,
    /// General purpose register.
    pub r13: u64,
    /// General purpose register.
    pub r14: u64,
    /// General purpose register.
    pub r15: u64,
    /// Instruction pointer.
    pub rip: u64,
    /// Flags.
    pub rflags: u64,
}

impl ProcessContext {
    /// The context that starts at `entry_point` with the stack at
    /// `stack_top`: both stack registers hold `stack_top`, interrupts are
    /// enabled, every other register is zero.
    pub open spec fn entry_context(entry_point: u64, stack_top: u64) -> ProcessContext {
        ProcessContext {
            rax: 0,
            rbx: 0,
            rcx: 0,
            rdx: 0,
            rsi: 0,
            rdi: 0,
            rbp: stack_top,
            rsp: stack_top,
            r8: 0,
            r9: 0,
            r10: 0,
            r11: 0,
            r12: 0,
            r13: 0,
            r14: 0,
            r15: 0,
            rip: entry_point,
            rflags: DEFAULT_RFLAGS,
        }
    }

    /// A context with every register zero and interrupts enabled.
    pub fn new() -> (r: Self)
        ensures
            r == Self::entry_context(0, 0),
    {
        Self {
            rax: 0,
            rbx: 0,
            rcx: 0,
            rdx: 0,
            rsi: 0,
            rdi: 0,
            rbp: 0,
            rsp: 0,
            r8: 0,
            r9: 0,
            r10: 0,
            r11: 0,
            r12: 0,
            r13: 0,
            r14: 0,
            r15: 0,
            rip: 0,
            rflags: DEFAULT_RFLAGS,
        }
    }

    /// The context of a process that starts at `entry_point` with its stack
    /// at `stack_top`.
    pub fn for_entry(entry_point: u64, stack_top: u64) -> (r: Self)
        ensures
            r == Self::entry_context(entry_point, stack_top),
    {
        Self {
            rax: 0,
            rbx: 0,
            rcx: 0,
            rdx: 0,
            rsi: 0,
            rdi: 0,
            rbp: stack_top,
            rsp: stack_top,
            r8: 0,
            r9: 0,
            r10: 0,
            r11: 0,
            r12: 0,
            r13: 0,
            r14: 0,
            r15: 0,
            rip: entry_point,
            rflags: DEFAULT_RFLAGS,
        }
    }

    /// Sets the stack pointer, and the base pointer with it.
    pub fn set_stack_pointer(&mut self, rsp: u64)
        ensures
            *final(self) == (ProcessContext { rsp, rbp: rsp, ..*old(self) }),
    {
        self.rsp = rsp;
        self.rbp = rsp;
    }

    /// Sets the instruction pointer.
    pub fn set_instruction_pointer(&mut self, rip: u64)
        ensures
            *final(self) == (ProcessContext { rip, ..*old(self) }),
    {
        self.rip = rip;
    }
}

impl Default for ProcessContext {
    fn default() -> (r: Self)
        ensures
            r == Self::entry_context(0, 0),
    {
        Self::new()
    }
}

} // verus!
