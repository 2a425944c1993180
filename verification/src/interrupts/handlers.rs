//! How the kernel answers the exceptions of the CPU.
//!
//! The entry points that the CPU calls belong to the platform. What they
//! decide is here: which diagnostic goes to the log, at which level, and
//! whether the interrupted code may go on. A breakpoint is the only exception
//! after which it may; every other one ends in a kernel panic.

use super::idt::InterruptStackFrame;
use crate::io::logging::LogLevel;
use vstd::prelude::*;

verus! {

/// The exceptions of the architecture that have a handler.
#[derive(Debug, Clone, Copy, PartialEq, Eq, Structural)]
pub enum Exception {
    /// Vector 0: a division by zero or a quotient too large.
    DivideError,
    /// Vector 1: a debug event.
    Debug,
    /// Vector 2: a non-maskable interrupt.
    NonMaskableInterrupt,
    /// Vector 3: an `int3` instruction.
    Breakpoint,
    /// Vector 4: an `into` instruction with the overflow flag set.
    Overflow,
    /// Vector 5: a failed `bound` check.
    BoundRangeExceeded,
    /// Vector 6: an invalid or undefined opcode.
    InvalidOpcode,
    /// Vector 7: an FPU instruction without an FPU at hand.
    DeviceNotAvailable,
    /// Vector 8: an exception raised while the handler of another was being called.
    DoubleFault,
    /// Vector 10: an invalid task state segment.
    InvalidTss,
    /// Vector 11: a segment whose descriptor is not present.
    SegmentNotPresent,
    /// Vector 12: a stack access outside the stack segment.
    StackSegmentFault,
    /// Vector 13: a protection violation.
    GeneralProtectionFault,
    /// Vector 14: a failed address translation.
    PageFault,
    /// Vector 16: an x87 floating-point error.
    X87FloatingPoint,
    /// Vector 17: an unaligned access with alignment checking on.
    AlignmentCheck,
    /// Vector 18: an internal error of the processor or the bus.
    MachineCheck,
    /// Vector 19: an unmasked SSE floating-point exception.
    SimdFloatingPoint,
}

/// What happens after the diagnostic was logged.
#[derive(Debug, Clone, Copy, PartialEq, Eq, Structural)]
pub enum Escalation {
    /// The handler returns and the interrupted code goes on.
    Resume,
    /// The kernel panics: it halts with interrupts disabled.
    Panic,
}

impl Exception {
    /// The vector of the exception.
    pub open spec fn vector_of(self) -> u8 {
        match self {
            Exception::DivideError => 0,
            Exception::Debug => 1,
            Exception::NonMaskableInterrupt => 2,
            Exception::Breakpoint => 3,
            Exception::Overflow => 4,
            Exception::BoundRangeExceeded => 5,
            Exception::InvalidOpcode => 6,
            Exception::DeviceNotAvailable => 7,
            Exception::DoubleFault => 8,
            Exception::InvalidTss => 10,
            Exception::SegmentNotPresent => 11,
            Exception::StackSegmentFault => 12,
            Exception::GeneralProtectionFault => 13,
            Exception::PageFault => 14,
            Exception::X87FloatingPoint => 16,
            Exception::AlignmentCheck => 17,
            Exception::MachineCheck => 18,
            Exception::SimdFloatingPoint => 19,
        }
    }

    /// The exception of `vector`, if it has a handler.
    pub open spec fn of_vector(vector: u8) -> Option<Exception> {
        if vector == 0 {
            Some(Exception::DivideError)
        } else         if vector == 1 {
            Some(Exception::Debug)
        } else         if vector == 2 {
            Some(Exception::NonMaskableInterrupt)
        } else         if vector == 3 {
            Some(Exception::Breakpoint)
        } else         if vector == 4 {
            Some(Exception::Overflow)
        } else         if vector == 5 {
            Some(Exception::BoundRangeExceeded)
        } else         if vector == 6 {
            Some(Exception::InvalidOpcode)
        } else         if vector == 7 {
            Some(Exception::DeviceNotAvailable)
        } else         if vector == 8 {
            Some(Exception::DoubleFault)
        } else         if vector == 10 {
            Some(Exception::InvalidTss)
        } else         if vector == 11 {
            Some(Exception::SegmentNotPresent)
        } else         if vector == 12 {
            Some(Exception::StackSegmentFault)
        } else         if vector == 13 {
            Some(Exception::GeneralProtectionFault)
        } else         if vector == 14 {
            Some(Exception::PageFault)
        } else         if vector == 16 {
            Some(Exception::X87FloatingPoint)
        } else         if vector == 17 {
            Some(Exception::AlignmentCheck)
        } else         if vector == 18 {
            Some(Exception::MachineCheck)
        } else         if vector == 19 {
            Some(Exception::SimdFloatingPoint)
        } else {
            None
        }
    }

    /// The name under which the exception is reported.
    pub open spec fn name_of(self) -> Seq<char> {
        match self {
            Exception::DivideError => "DIVIDE ERROR"@,
            Exception::Debug => "DEBUG"@,
            Exception::NonMaskableInterrupt => "NON-MASKABLE INTERRUPT"@,
            Exception::Breakpoint => "BREAKPOINT"@,
            Exception::Overflow => "OVERFLOW"@,
            Exception::BoundRangeExceeded => "BOUND RANGE EXCEEDED"@,
            Exception::InvalidOpcode => "INVALID OPCODE"@,
            Exception::DeviceNotAvailable => "DEVICE NOT AVAILABLE"@,
            Exception::DoubleFault => "DOUBLE FAULT"@,
            Exception::InvalidTss => "INVALID TSS"@,
            Exception::SegmentNotPresent => "SEGMENT NOT PRESENT"@,
            Exception::StackSegmentFault => "STACK-SEGMENT FAULT"@,
            Exception::GeneralProtectionFault => "GENERAL PROTECTION FAULT"@,
            Exception::PageFault => "PAGE FAULT"@,
            Exception::X87FloatingPoint => "x87 FLOATING-POINT"@,
            Exception::AlignmentCheck => "ALIGNMENT CHECK"@,
            Exception::MachineCheck => "MACHINE CHECK"@,
            Exception::SimdFloatingPoint => "SIMD FLOATING-POINT"@,
        }
    }

    /// Whether the CPU pushes an error code for the exception.
    pub open spec fn pushes_error_code(self) -> bool {
        match self {
            Exception::DivideError => false,
            Exception::Debug => false,
            Exception::NonMaskableInterrupt => false,
            Exception::Breakpoint => false,
            Exception::Overflow => false,
            Exception::BoundRangeExceeded => false,
            Exception::InvalidOpcode => false,
            Exception::DeviceNotAvailable => false,
            Exception::DoubleFault => true,
            Exception::InvalidTss => true,
            Exception::SegmentNotPresent => true,
            Exception::StackSegmentFault => true,
            Exception::GeneralProtectionFault => true,
            Exception::PageFault => true,
            Exception::X87FloatingPoint => false,
            Exception::AlignmentCheck => true,
            Exception::MachineCheck => false,
            Exception::SimdFloatingPoint => false,
        }
    }

    /// The level at which the exception is logged: DEBUG for the two that
    /// serve debuggers, FATAL for the two from which there is no return, ERROR
    /// for the rest.
    pub open spec fn level_of(self) -> LogLevel {
        match self {
            Exception::DivideError => LogLevel::ERROR,
            Exception::Debug => LogLevel::DEBUG,
            Exception::NonMaskableInterrupt => LogLevel::ERROR,
            Exception::Breakpoint => LogLevel::DEBUG,
            Exception::Overflow => LogLevel::ERROR,
            Exception::BoundRangeExceeded => LogLevel::ERROR,
            Exception::InvalidOpcode => LogLevel::ERROR,
            Exception::DeviceNotAvailable => LogLevel::ERROR,
            Exception::DoubleFault => LogLevel::FATAL,
            Exception::InvalidTss => LogLevel::ERROR,
            Exception::SegmentNotPresent => LogLevel::ERROR,
            Exception::StackSegmentFault => LogLevel::ERROR,
            Exception::GeneralProtectionFault => LogLevel::ERROR,
            Exception::PageFault => LogLevel::ERROR,
            Exception::X87FloatingPoint => LogLevel::ERROR,
            Exception::AlignmentCheck => LogLevel::ERROR,
            Exception::MachineCheck => LogLevel::FATAL,
            Exception::SimdFloatingPoint => LogLevel::ERROR,
        }
    }

    /// The policy: a breakpoint resumes, everything else panics.
    pub open spec fn escalation_of(self) -> Escalation {
        match self {
            Exception::Breakpoint => Escalation::Resume,
            _ => Escalation::Panic,
        }
    }

    /// Whether the handler is typed as never returning: the architecture
    /// allows no resumption after a double fault or a machine check.
    pub open spec fn diverges(self) -> bool {
        self == Exception::DoubleFault || self == Exception::MachineCheck
    }

    /// The vector of the exception.
    pub fn vector(self) -> (r: u8)
        ensures
            r == self.vector_of(),
            r < 32,
            Exception::of_vector(r) == Some(self),
    {
        match self {
            Exception::DivideError => 0,
            Exception::Debug => 1,
            Exception::NonMaskableInterrupt => 2,
            Exception::Breakpoint => 3,
            Exception::Overflow => 4,
            Exception::BoundRangeExceeded => 5,
            Exception::InvalidOpcode => 6,
            Exception::DeviceNotAvailable => 7,
            Exception::DoubleFault => 8,
            Exception::InvalidTss => 10,
            Exception::SegmentNotPresent => 11,
            Exception::StackSegmentFault => 12,
            Exception::GeneralProtectionFault => 13,
            Exception::PageFault => 14,
            Exception::X87FloatingPoint => 16,
            Exception::AlignmentCheck => 17,
            Exception::MachineCheck => 18,
            Exception::SimdFloatingPoint => 19,
        }
    }

    /// The exception of `vector`, if it has a handler.
    pub fn from_vector(vector: u8) -> (r: Option<Self>)
        ensures
            r == Exception::of_vector(vector),
            r is Some ==> r.unwrap().vector_of() == vector,
    {
        match vector {
            0 => Some(Exception::DivideError),
            1 => Some(Exception::Debug),
            2 => Some(Exception::NonMaskableInterrupt),
            3 => Some(Exception::Breakpoint),
            4 => Some(Exception::Overflow),
            5 => Some(Exception::BoundRangeExceeded),
            6 => Some(Exception::InvalidOpcode),
            7 => Some(Exception::DeviceNotAvailable),
            8 => Some(Exception::DoubleFault),
            10 => Some(Exception::InvalidTss),
            11 => Some(Exception::SegmentNotPresent),
            12 => Some(Exception::StackSegmentFault),
            13 => Some(Exception::GeneralProtectionFault),
            14 => Some(Exception::PageFault),
            16 => Some(Exception::X87FloatingPoint),
            17 => Some(Exception::AlignmentCheck),
            18 => Some(Exception::MachineCheck),
            19 => Some(Exception::SimdFloatingPoint),
            _ => None,
        }
    }

    /// The name under which the exception is reported.
    pub fn name(self) -> (r: &'static str)
        ensures
            r@ == self.name_of(),
    {
        match self {
            Exception::DivideError => "DIVIDE ERROR",
            Exception::Debug => "DEBUG",
            Exception::NonMaskableInterrupt => "NON-MASKABLE INTERRUPT",
            Exception::Breakpoint => "BREAKPOINT",
            Exception::Overflow => "OVERFLOW",
            Exception::BoundRangeExceeded => "BOUND RANGE EXCEEDED",
            Exception::InvalidOpcode => "INVALID OPCODE",
            Exception::DeviceNotAvailable => "DEVICE NOT AVAILABLE",
            Exception::DoubleFault => "DOUBLE FAULT",
            Exception::InvalidTss => "INVALID TSS",
            Exception::SegmentNotPresent => "SEGMENT NOT PRESENT",
            Exception::StackSegmentFault => "STACK-SEGMENT FAULT",
            Exception::GeneralProtectionFault => "GENERAL PROTECTION FAULT",
            Exception::PageFault => "PAGE FAULT",
            Exception::X87FloatingPoint => "x87 FLOATING-POINT",
            Exception::AlignmentCheck => "ALIGNMENT CHECK",
            Exception::MachineCheck => "MACHINE CHECK",
            Exception::SimdFloatingPoint => "SIMD FLOATING-POINT",
        }
    }

    /// Whether the CPU pushes an error code for the exception.
    pub fn has_error_code(self) -> (r: bool)
        ensures
            r == self.pushes_error_code(),
    {
        match self {
            Exception::DivideError => false,
            Exception::Debug => false,
            Exception::NonMaskableInterrupt => false,
            Exception::Breakpoint => false,
            Exception::Overflow => false,
            Exception::BoundRangeExceeded => false,
            Exception::InvalidOpcode => false,
            Exception::DeviceNotAvailable => false,
            Exception::DoubleFault => true,
            Exception::InvalidTss => true,
            Exception::SegmentNotPresent => true,
            Exception::StackSegmentFault => true,
            Exception::GeneralProtectionFault => true,
            Exception::PageFault => true,
            Exception::X87FloatingPoint => false,
            Exception::AlignmentCheck => true,
            Exception::MachineCheck => false,
            Exception::SimdFloatingPoint => false,
        }
    }

    /// The level at which the exception is logged.
    pub fn log_level(self) -> (r: LogLevel)
        ensures
            r == self.level_of(),
    {
        match self {
            Exception::DivideError => LogLevel::ERROR,
            Exception::Debug => LogLevel::DEBUG,
            Exception::NonMaskableInterrupt => LogLevel::ERROR,
            Exception::Breakpoint => LogLevel::DEBUG,
            Exception::Overflow => LogLevel::ERROR,
            Exception::BoundRangeExceeded => LogLevel::ERROR,
            Exception::InvalidOpcode => LogLevel::ERROR,
            Exception::DeviceNotAvailable => LogLevel::ERROR,
            Exception::DoubleFault => LogLevel::FATAL,
            Exception::InvalidTss => LogLevel::ERROR,
            Exception::SegmentNotPresent => LogLevel::ERROR,
            Exception::StackSegmentFault => LogLevel::ERROR,
            Exception::GeneralProtectionFault => LogLevel::ERROR,
            Exception::PageFault => LogLevel::ERROR,
            Exception::X87FloatingPoint => LogLevel::ERROR,
            Exception::AlignmentCheck => LogLevel::ERROR,
            Exception::MachineCheck => LogLevel::FATAL,
            Exception::SimdFloatingPoint => LogLevel::ERROR,
        }
    }

    /// What happens after the diagnostic was logged.
    pub fn escalation(self) -> (r: Escalation)
        ensures
            r == self.escalation_of(),
            r == Escalation::Resume <==> self == Exception::Breakpoint,
    {
        match self {
            Exception::Breakpoint => Escalation::Resume,
            _ => Escalation::Panic,
        }
    }

    /// Whether the handler never returns.
    pub fn is_diverging(self) -> (r: bool)
        ensures
            r == self.diverges(),
            r ==> self.escalation_of() == Escalation::Panic,
    {
        match self {
            Exception::DoubleFault => true,
            Exception::MachineCheck => true,
            _ => false,
        }
    }
}

/// The five bits of the error code of a page fault.
#[derive(Debug, Clone, Copy, PartialEq, Eq, Structural)]
pub struct PageFaultCause {
    /// Bit 0: the page was present, so a protection check failed.
    pub present: bool,
    /// Bit 1: the access was a write.
    pub write: bool,
    /// Bit 2: the access came from user mode.
    pub user: bool,
    /// Bit 3: a reserved bit was set in a paging entry.
    pub reserved: bool,
    /// Bit 4: the access was an instruction fetch.
    pub instruction: bool,
}

/// The cause that `error_code` encodes.
pub open spec fn page_fault_cause(error_code: u64) -> PageFaultCause {
    PageFaultCause {
        present: error_code & 0x1 != 0,
        write: error_code & 0x2 != 0,
        user: error_code & 0x4 != 0,
        reserved: error_code & 0x8 != 0,
        instruction: error_code & 0x10 != 0,
    }
}

/// Decodes the error code of a page fault.
pub fn decode_page_fault(error_code: u64) -> (r: PageFaultCause)
    ensures
        r == page_fault_cause(error_code),
{
    PageFaultCause {
        present: (error_code & 0x1) != 0,
        write: (error_code & 0x2) != 0,
        user: (error_code & 0x4) != 0,
        reserved: (error_code & 0x8) != 0,
        instruction: (error_code & 0x10) != 0,
    }
}

/// The diagnostic of one exception and the decision that follows it.
#[derive(Debug, Clone, Copy, PartialEq, Eq)]
pub struct ExceptionReport {
    /// The exception.
    pub exception: Exception,
    /// Level at which it is logged.
    pub level: LogLevel,
    /// The error code, for the exceptions that push one.
    pub error_code: Option<u64>,
    /// The address whose access failed, for a page fault.
    pub fault_address: Option<u64>,
    /// The decoded error code, for a page fault.
    pub cause: Option<PageFaultCause>,
    /// What the CPU pushed on entry; its instruction pointer is that of the
    /// fault.
    pub stack_frame: InterruptStackFrame,
    /// What happens after logging.
    pub escalation: Escalation,
}

/// The report of `exception` with the error code and fault address given.
pub open spec fn report_of(
    exception: Exception,
    stack_frame: InterruptStackFrame,
    error_code: Option<u64>,
    fault_address: Option<u64>,
) -> ExceptionReport {
    ExceptionReport {
        exception,
        level: exception.level_of(),
        error_code,
        fault_address,
        cause: if exception == Exception::PageFault && error_code is Some {
            Some(page_fault_cause(error_code.unwrap()))
        } else {
            None
        },
        stack_frame,
        escalation: exception.escalation_of(),
    }
}

/// Reports an exception that pushes no error code.
fn report(exception: Exception, stack_frame: InterruptStackFrame) -> (r: ExceptionReport)
    ensures
        r == report_of(exception, stack_frame, None, None),
{
    ExceptionReport {
        exception,
        level: exception.log_level(),
        error_code: None,
        fault_address: None,
        cause: None,
        stack_frame,
        escalation: exception.escalation(),
    }
}

/// Reports an exception other than a page fault that pushes an error code.
fn report_with_error_code(
    exception: Exception,
    stack_frame: InterruptStackFrame,
    error_code: u64,
) -> (r: ExceptionReport)
    requires
        exception != Exception::PageFault,
    ensures
        r == report_of(exception, stack_frame, Some(error_code), None),
{
    ExceptionReport {
        exception,
        level: exception.log_level(),
        error_code: Some(error_code),
        fault_address: None,
        cause: None,
        stack_frame,
        escalation: exception.escalation(),
    }
}

/// Vector 0, a division by zero or a quotient too large. The kernel panics.
pub fn divide_error_handler(stack_frame: InterruptStackFrame) -> (r: ExceptionReport)
    ensures
        r == report_of(Exception::DivideError, stack_frame, None, None),
        r.escalation == Escalation::Panic,
{
    report(Exception::DivideError, stack_frame)
}

/// Vector 1, a debug event. The kernel panics.
pub fn debug_handler(stack_frame: InterruptStackFrame) -> (r: ExceptionReport)
    ensures
        r == report_of(Exception::Debug, stack_frame, None, None),
        r.escalation == Escalation::Panic,
{
    report(Exception::Debug, stack_frame)
}

/// Vector 2, a non-maskable interrupt. The kernel panics.
pub fn non_maskable_interrupt_handler(stack_frame: InterruptStackFrame) -> (r: ExceptionReport)
    ensures
        r == report_of(Exception::NonMaskableInterrupt, stack_frame, None, None),
        r.escalation == Escalation::Panic,
{
    report(Exception::NonMaskableInterrupt, stack_frame)
}

/// Vector 3, an `int3` instruction. The handler returns: debuggers rely on it.
pub fn breakpoint_handler(stack_frame: InterruptStackFrame) -> (r: ExceptionReport)
    ensures
        r == report_of(Exception::Breakpoint, stack_frame, None, None),
        r.escalation == Escalation::Resume,
{
    report(Exception::Breakpoint, stack_frame)
}

/// Vector 4, an `into` instruction with the overflow flag set. The kernel panics.
pub fn overflow_handler(stack_frame: InterruptStackFrame) -> (r: ExceptionReport)
    ensures
        r == report_of(Exception::Overflow, stack_frame, None, None),
        r.escalation == Escalation::Panic,
{
    report(Exception::Overflow, stack_frame)
}

/// Vector 5, a failed `bound` check. The kernel panics.
pub fn bound_range_exceeded_handler(stack_frame: InterruptStackFrame) -> (r: ExceptionReport)
    ensures
        r == report_of(Exception::BoundRangeExceeded, stack_frame, None, None),
        r.escalation == Escalation::Panic,
{
    report(Exception::BoundRangeExceeded, stack_frame)
}

/// Vector 6, an invalid or undefined opcode. The kernel panics.
pub fn invalid_opcode_handler(stack_frame: InterruptStackFrame) -> (r: ExceptionReport)
    ensures
        r == report_of(Exception::InvalidOpcode, stack_frame, None, None),
        r.escalation == Escalation::Panic,
{
    report(Exception::InvalidOpcode, stack_frame)
}

/// Vector 7, an FPU instruction without an FPU at hand. The kernel panics.
pub fn device_not_available_handler(stack_frame: InterruptStackFrame) -> (r: ExceptionReport)
    ensures
        r == report_of(Exception::DeviceNotAvailable, stack_frame, None, None),
        r.escalation == Escalation::Panic,
{
    report(Exception::DeviceNotAvailable, stack_frame)
}

/// Vector 8, an exception raised while the handler of another was being called. The kernel panics.
pub fn double_fault_handler(stack_frame: InterruptStackFrame, error_code: u64) -> (r: ExceptionReport)
    ensures
        r == report_of(Exception::DoubleFault, stack_frame, Some(error_code), None),
        r.escalation == Escalation::Panic,
{
    report_with_error_code(Exception::DoubleFault, stack_frame, error_code)
}

/// Vector 10, an invalid task state segment. The kernel panics.
pub fn invalid_tss_handler(stack_frame: InterruptStackFrame, error_code: u64) -> (r: ExceptionReport)
    ensures
        r == report_of(Exception::InvalidTss, stack_frame, Some(error_code), None),
        r.escalation == Escalation::Panic,
{
    report_with_error_code(Exception::InvalidTss, stack_frame, error_code)
}

/// Vector 11, a segment whose descriptor is not present. The kernel panics.
pub fn segment_not_present_handler(stack_frame: InterruptStackFrame, error_code: u64) -> (r: ExceptionReport)
    ensures
        r == report_of(Exception::SegmentNotPresent, stack_frame, Some(error_code), None),
        r.escalation == Escalation::Panic,
{
    report_with_error_code(Exception::SegmentNotPresent, stack_frame, error_code)
}

/// Vector 12, a stack access outside the stack segment. The kernel panics.
pub fn stack_segment_fault_handler(stack_frame: InterruptStackFrame, error_code: u64) -> (r: ExceptionReport)
    ensures
        r == report_of(Exception::StackSegmentFault, stack_frame, Some(error_code), None),
        r.escalation == Escalation::Panic,
{
    report_with_error_code(Exception::StackSegmentFault, stack_frame, error_code)
}

/// Vector 13, a protection violation. The kernel panics.
pub fn general_protection_fault_handler(stack_frame: InterruptStackFrame, error_code: u64) -> (r: ExceptionReport)
    ensures
        r == report_of(Exception::GeneralProtectionFault, stack_frame, Some(error_code), None),
        r.escalation == Escalation::Panic,
{
    report_with_error_code(Exception::GeneralProtectionFault, stack_frame, error_code)
}

/// Vector 14, page fault: the report holds the address whose access failed,
/// read from CR2 by the caller, and the five decoded bits of the error code.
/// The kernel panics.
pub fn page_fault_handler(stack_frame: InterruptStackFrame, error_code: u64, fault_addr: u64) -> (r:
    ExceptionReport)
    ensures
        r == report_of(Exception::PageFault, stack_frame, Some(error_code), Some(fault_addr)),
        r.cause == Some(page_fault_cause(error_code)),
        r.escalation == Escalation::Panic,
{
    ExceptionReport {
        exception: Exception::PageFault,
        level: Exception::PageFault.log_level(),
        error_code: Some(error_code),
        fault_address: Some(fault_addr),
        cause: Some(decode_page_fault(error_code)),
        stack_frame,
        escalation: Exception::PageFault.escalation(),
    }
}

/// Vector 16, an x87 floating-point error. The kernel panics.
pub fn x87_floating_point_handler(stack_frame: InterruptStackFrame) -> (r: ExceptionReport)
    ensures
        r == report_of(Exception::X87FloatingPoint, stack_frame, None, None),
        r.escalation == Escalation::Panic,
{
    report(Exception::X87FloatingPoint, stack_frame)
}

/// Vector 17, an unaligned access with alignment checking on. The kernel panics.
pub fn alignment_check_handler(stack_frame: InterruptStackFrame, error_code: u64) -> (r: ExceptionReport)
    ensures
        r == report_of(Exception::AlignmentCheck, stack_frame, Some(error_code), None),
        r.escalation == Escalation::Panic,
{
    report_with_error_code(Exception::AlignmentCheck, stack_frame, error_code)
}

/// Vector 18, an internal error of the processor or the bus. The kernel panics.
pub fn machine_check_handler(stack_frame: InterruptStackFrame) -> (r: ExceptionReport)
    ensures
        r == report_of(Exception::MachineCheck, stack_frame, None, None),
        r.escalation == Escalation::Panic,
{
    report(Exception::MachineCheck, stack_frame)
}

/// Vector 19, an unmasked SSE floating-point exception. The kernel panics.
pub fn simd_floating_point_handler(stack_frame: InterruptStackFrame) -> (r: ExceptionReport)
    ensures
        r == report_of(Exception::SimdFloatingPoint, stack_frame, None, None),
        r.escalation == Escalation::Panic,
{
    report(Exception::SimdFloatingPoint, stack_frame)
}

} // verus!
