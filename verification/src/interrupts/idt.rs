//! The interrupt descriptor table: 256 gates, each a handler address, a code
//! segment selector and a word of options.
//!
//! The table is built here as a value. [`Entry::encode`] gives the two 64-bit
//! words of a gate exactly as the CPU reads them, so that the platform can lay
//! the table out in memory and load it.

use vstd::prelude::*;

verus! {

/// Selector of the kernel code segment, which every gate names.
pub const KERNEL_CODE_SELECTOR: u16 = 0x08;

/// Number of gates in the table.
pub const IDT_ENTRIES: usize = 256;

/// First vector that is free for hardware interrupts.
pub const IRQ_BASE: usize = 32;

/// Options word of a gate that is not present: interrupt gate, ring 0.
pub const MINIMAL_OPTIONS: u16 = 0x0E00;

/// The present bit of the options word.
pub const PRESENT_BIT: u16 = 0x8000;

/// Address of a handler that takes no error code and returns.
#[derive(Debug, Clone, Copy, PartialEq, Eq)]
pub struct HandlerFunc {
    /// Entry point of the handler.
    pub address: u64,
}

/// Address of a handler that takes an error code and returns.
#[derive(Debug, Clone, Copy, PartialEq, Eq)]
pub struct HandlerFuncWithErrorCode {
    /// Entry point of the handler.
    pub address: u64,
}

/// Address of a handler that takes no error code and never returns.
#[derive(Debug, Clone, Copy, PartialEq, Eq)]
pub struct DivergingHandlerFunc {
    /// Entry point of the handler.
    pub address: u64,
}

/// Address of a handler that takes an error code and never returns.
#[derive(Debug, Clone, Copy, PartialEq, Eq)]
pub struct DivergingHandlerFuncWithErrorCode {
    /// Entry point of the handler.
    pub address: u64,
}

/// What the CPU pushes on the stack when it enters a handler.
#[derive(Debug, Clone, Copy, PartialEq, Eq)]
pub struct InterruptStackFrame {
    /// Address of the instruction that was interrupted or that faulted.
    pub instruction_pointer: u64,
    /// Code segment at that moment.
    pub code_segment: u64,
    /// RFLAGS at that moment.
    pub cpu_flags: u64,
    /// Stack pointer at that moment.
    pub stack_pointer: u64,
    /// Stack segment at that moment.
    pub stack_segment: u64,
}

/// Operand of `lidt`: size of the table in bytes minus one, and its address.
#[derive(Debug, Clone, Copy, PartialEq, Eq, Structural)]
pub struct DescriptorTablePointer {
    /// Size of the table in bytes, minus one.
    pub limit: u16,
    /// Linear address of the table.
    pub base: u64,
}

/// The options word of a gate.
///
/// Bits 0..2 hold the index of the interrupt stack, 0 for none. Bits 8..11
/// hold the type of gate, bits 13..14 the privilege level, bit 15 says that the
/// gate is present.
#[derive(Debug, Clone, Copy, PartialEq, Eq)]
pub struct EntryOptions(u16);

impl View for EntryOptions {
    type V = u16;

    closed spec fn view(&self) -> u16 {
        self.0
    }
}

/// How the fields of the options word sit in it.
proof fn lemma_option_bits(w: u16, v: u16)
    by (bit_vector)
    ensures
        (w | 0x8000) & 0x8000 != 0,
        (w & 0x7FFF) & 0x8000 == 0,
        (w | 0x8000) & 0x7FFF == w & 0x7FFF,
        (w & !0x6000u16) | ((v & 3) << 13) == (w & 0x9FFF) | ((v & 3) << 13),
        (((w & 0x9FFF) | ((v & 3) << 13)) >> 13) & 3 == v & 3,
        ((w & 0x9FFF) | ((v & 3) << 13)) & 0x9FFF == w & 0x9FFF,
        ((w & 0xFFF8) | (v & 7)) & 7 == v & 7,
        ((w & 0xFFF8) | (v & 7)) & 0xFFF8 == w & 0xFFF8,
        (v & 3) << 13 <= 0x6000,
{
}

impl EntryOptions {
    /// The entry is present.
    pub open spec fn present(self) -> bool {
        self@ & PRESENT_BIT != 0
    }

    /// Privilege level that may invoke the entry by software: 0 to 3.
    pub open spec fn privilege_level(self) -> u16 {
        (self@ >> 13) & 3
    }

    /// Index of the interrupt stack that the CPU switches to, 0 for none.
    pub open spec fn ist_index(self) -> u16 {
        self@ & 7
    }

    /// An interrupt gate for ring 0 that is not present.
    pub fn minimal() -> (r: Self)
        ensures
            r@ == MINIMAL_OPTIONS,
            !r.present(),
            r.ist_index() == 0,
            r.privilege_level() == 0,
    {
        assert(0x0E00u16 & 0x8000 == 0 && 0x0E00u16 & 7 == 0 && (0x0E00u16 >> 13) & 3 == 0)
            by (bit_vector);
        Self(0x0E00)
    }

    /// The word as a number.
    pub fn bits(&self) -> (r: u16)
        ensures
            r == self@,
    {
        self.0
    }

    /// Sets or clears the present bit and leaves the other bits alone.
    pub fn set_present(&mut self, present: bool) -> (r: &mut Self)
        ensures
            (*r)@ == if present {
                old(self)@ | PRESENT_BIT
            } else {
                old(self)@ & 0x7FFF
            },
            r.present() == present,
            *final(self) == *final(r),
    {
        proof {
            lemma_option_bits(self.0, 0);
        }
        if present {
            self.0 = self.0 | 0x8000;
        } else {
            self.0 = self.0 & 0x7FFF;
        }
        self
    }

    /// Sets the privilege level to the low two bits of `dpl` and leaves the
    /// other bits alone.
    pub fn set_privilege_level(&mut self, dpl: u16) -> (r: &mut Self)
        ensures
            (*r)@ == (old(self)@ & 0x9FFF) | ((dpl & 3) << 13),
            r.privilege_level() == dpl & 3,
            (*r)@ & 0x9FFF == old(self)@ & 0x9FFF,
            *final(self) == *final(r),
    {
        proof {
            lemma_option_bits(self.0, dpl);
        }
        self.0 = self.0 & 0x9FFF;
        self.0 = self.0 | ((dpl & 3) << 13);
        self
    }

    /// Sets the index of the interrupt stack to the low three bits of `index`
    /// and leaves the other bits alone.
    pub fn set_ist(&mut self, index: u16) -> (r: &mut Self)
        ensures
            (*r)@ == (old(self)@ & 0xFFF8) | (index & 7),
            r.ist_index() == index & 7,
            (*r)@ & 0xFFF8 == old(self)@ & 0xFFF8,
            *final(self) == *final(r),
    {
        proof {
            lemma_option_bits(self.0, index);
        }
        self.0 = (self.0 & 0xFFF8) | (index & 7);
        self
    }
}

/// The three pieces of a handler address, and the address they make.
pub proof fn lemma_address_pieces(addr: u64)
    by (bit_vector)
    ensures
        addr & 0xFFFF < 0x1_0000,
        (addr >> 16) & 0xFFFF < 0x1_0000,
        addr >> 32 < 0x1_0000_0000,
        (addr & 0xFFFF) | (((addr >> 16) & 0xFFFF) << 16) | ((addr >> 32) << 32) == addr,
{
}

/// The address made of the three pieces of a gate.
pub open spec fn join_address(low: u16, middle: u16, high: u32) -> u64 {
    (low as u64) | ((middle as u64) << 16) | ((high as u64) << 32)
}

/// The low word of a gate: address bits 0..15, selector, options, address
/// bits 16..31.
pub open spec fn gate_low_word(address: u64, selector: u16, options: u16) -> u64 {
    (address & 0xFFFF) | ((selector as u64) << 16) | ((options as u64) << 32) | (((address >> 16)
        & 0xFFFF) << 48)
}

/// The high word of a gate: address bits 32..63, then 32 reserved zero bits.
pub open spec fn gate_high_word(address: u64) -> u64 {
    address >> 32
}

/// One gate of the table.
#[derive(Debug, Clone, Copy, PartialEq, Eq)]
pub struct Entry {
    pointer_low: u16,
    gdt_selector: u16,
    options: EntryOptions,
    pointer_middle: u16,
    pointer_high: u32,
    reserved: u32,
}

impl Entry {
    /// Address of the handler.
    pub closed spec fn handler_address(self) -> u64 {
        join_address(self.pointer_low, self.pointer_middle, self.pointer_high)
    }

    /// Selector of the code segment in which the handler runs.
    pub closed spec fn selector(self) -> u16 {
        self.gdt_selector
    }

    /// The options word.
    pub closed spec fn options(self) -> EntryOptions {
        self.options
    }

    /// The reserved word is zero and the pieces of the address are those of
    /// one 64-bit address.
    pub closed spec fn wf(self) -> bool {
        &&& self.reserved == 0
        &&& self.pointer_low == self.handler_address() & 0xFFFF
        &&& self.pointer_middle == (self.handler_address() >> 16) & 0xFFFF
        &&& self.pointer_high == self.handler_address() >> 32
    }

    /// The entry is the one that `missing` makes.
    pub open spec fn is_missing(self) -> bool {
        &&& self.wf()
        &&& self.handler_address() == 0
        &&& self.selector() == 0
        &&& self.options()@ == MINIMAL_OPTIONS
    }

    /// The entry is present and leads to `address` through the kernel code
    /// segment.
    pub open spec fn leads_to(self, address: u64) -> bool {
        &&& self.wf()
        &&& self.handler_address() == address
        &&& self.selector() == KERNEL_CODE_SELECTOR
        &&& self.options().present()
    }

    /// A gate that is not present.
    pub fn missing() -> (r: Self)
        ensures
            r.is_missing(),
            !r.options().present(),
    {
        assert(join_address(0, 0, 0) == 0 && 0u64 & 0xFFFF == 0 && (0u64 >> 16) & 0xFFFF == 0
            && 0u64 >> 32 == 0) by (bit_vector);
        Self {
            pointer_low: 0,
            gdt_selector: 0,
            options: EntryOptions::minimal(),
            pointer_middle: 0,
            pointer_high: 0,
            reserved: 0,
        }
    }

    /// Points the entry at `address` through the kernel code segment and marks
    /// it present. The options, handed back for further settings, keep their
    /// other bits.
    fn set_handler_addr(&mut self, address: u64) -> (r: &mut EntryOptions)
        ensures
            (*r)@ == old(self).options()@ | PRESENT_BIT,
            final(self).options() == *final(r),
            final(self).handler_address() == address,
            final(self).selector() == KERNEL_CODE_SELECTOR,
            final(self).wf(),
    {
        proof {
            lemma_address_pieces(address);
        }
        self.pointer_low = (address & 0xFFFF) as u16;
        self.pointer_middle = ((address >> 16) & 0xFFFF) as u16;
        self.pointer_high = (address >> 32) as u32;
        self.gdt_selector = KERNEL_CODE_SELECTOR;
        self.reserved = 0;
        self.options.set_present(true);
        &mut self.options
    }

    /// Registers a handler that takes no error code and returns.
    pub fn set_handler_fn(&mut self, handler: HandlerFunc) -> (r: &mut EntryOptions)
        ensures
            (*r)@ == old(self).options()@ | PRESENT_BIT,
            final(self).options() == *final(r),
            final(self).handler_address() == handler.address,
            final(self).selector() == KERNEL_CODE_SELECTOR,
            final(self).wf(),
    {
        self.set_handler_addr(handler.address)
    }

    /// Registers a handler that takes an error code and returns.
    pub fn set_handler_fn_with_error_code(&mut self, handler: HandlerFuncWithErrorCode) -> (r:
        &mut EntryOptions)
        ensures
            (*r)@ == old(self).options()@ | PRESENT_BIT,
            final(self).options() == *final(r),
            final(self).handler_address() == handler.address,
            final(self).selector() == KERNEL_CODE_SELECTOR,
            final(self).wf(),
    {
        self.set_handler_addr(handler.address)
    }

    /// Registers a handler that takes no error code and never returns.
    pub fn set_handler_fn_diverging(&mut self, handler: DivergingHandlerFunc) -> (r:
        &mut EntryOptions)
        ensures
            (*r)@ == old(self).options()@ | PRESENT_BIT,
            final(self).options() == *final(r),
            final(self).handler_address() == handler.address,
            final(self).selector() == KERNEL_CODE_SELECTOR,
            final(self).wf(),
    {
        self.set_handler_addr(handler.address)
    }

    /// Registers a handler that takes an error code and never returns.
    pub fn set_handler_fn_diverging_with_error_code(
        &mut self,
        handler: DivergingHandlerFuncWithErrorCode,
    ) -> (r: &mut EntryOptions)
        ensures
            (*r)@ == old(self).options()@ | PRESENT_BIT,
            final(self).options() == *final(r),
            final(self).handler_address() == handler.address,
            final(self).selector() == KERNEL_CODE_SELECTOR,
            final(self).wf(),
    {
        self.set_handler_addr(handler.address)
    }

    /// The two 64-bit words of the entry as the CPU reads them, low word first.
    pub fn encode(&self) -> (r: (u64, u64))
        requires
            self.wf(),
        ensures
            r.0 == gate_low_word(self.handler_address(), self.selector(), self.options()@),
            r.1 == gate_high_word(self.handler_address()),
    {
        let low = (self.pointer_low as u64) | ((self.gdt_selector as u64) << 16) | ((
        self.options.bits() as u64) << 32) | ((self.pointer_middle as u64) << 48);
        let high = (self.pointer_high as u64) | ((self.reserved as u64) << 32);
        proof {
            let h = self.pointer_high as u64;
            assert(h | (0u64 << 32) == h) by (bit_vector);
        }
        (low, high)
    }
}

/// The interrupt descriptor table.
///
/// Vectors 0..31 belong to the architecture; those that it reserves (9, 15,
/// 21..29 and 31) cannot be reached from outside and stay missing. Vectors
/// 32..255 serve hardware interrupts and software.
#[derive(Debug, Clone, Copy, PartialEq, Eq)]
pub struct InterruptDescriptorTable {
    /// Vector 0: divide error.
    pub divide_error: Entry,
    /// Vector 1: debug.
    pub debug: Entry,
    /// Vector 2: non-maskable interrupt.
    pub non_maskable_interrupt: Entry,
    /// Vector 3: breakpoint.
    pub breakpoint: Entry,
    /// Vector 4: overflow.
    pub overflow: Entry,
    /// Vector 5: bound range exceeded.
    pub bound_range_exceeded: Entry,
    /// Vector 6: invalid opcode.
    pub invalid_opcode: Entry,
    /// Vector 7: device not available.
    pub device_not_available: Entry,
    /// Vector 8: double fault.
    pub double_fault: Entry,
    reserved_1: Entry,
    /// Vector 10: invalid TSS.
    pub invalid_tss: Entry,
    /// Vector 11: segment not present.
    pub segment_not_present: Entry,
    /// Vector 12: stack-segment fault.
    pub stack_segment_fault: Entry,
    /// Vector 13: general protection fault.
    pub general_protection_fault: Entry,
    /// Vector 14: page fault.
    pub page_fault: Entry,
    reserved_2: Entry,
    /// Vector 16: x87 floating point.
    pub x87_floating_point: Entry,
    /// Vector 17: alignment check.
    pub alignment_check: Entry,
    /// Vector 18: machine check.
    pub machine_check: Entry,
    /// Vector 19: SIMD floating point.
    pub simd_floating_point: Entry,
    /// Vector 20: virtualization.
    pub virtualization: Entry,
    reserved_3: [Entry; 9],
    /// Vector 30: security exception.
    pub security_exception: Entry,
    reserved_4: Entry,
    interrupts: [Entry; 224],
}

impl InterruptDescriptorTable {
    /// The entry of `vector`.
    pub closed spec fn gate(self, vector: int) -> Entry {
        if 21 <= vector < 30 {
            self.reserved_3@[vector - 21]
        } else if 32 <= vector < 256 {
            self.interrupts@[vector - 32]
        } else if vector == 0 {
            self.divide_error
        } else         if vector == 1 {
            self.debug
        } else         if vector == 2 {
            self.non_maskable_interrupt
        } else         if vector == 3 {
            self.breakpoint
        } else         if vector == 4 {
            self.overflow
        } else         if vector == 5 {
            self.bound_range_exceeded
        } else         if vector == 6 {
            self.invalid_opcode
        } else         if vector == 7 {
            self.device_not_available
        } else         if vector == 8 {
            self.double_fault
        } else         if vector == 9 {
            self.reserved_1
        } else         if vector == 10 {
            self.invalid_tss
        } else         if vector == 11 {
            self.segment_not_present
        } else         if vector == 12 {
            self.stack_segment_fault
        } else         if vector == 13 {
            self.general_protection_fault
        } else         if vector == 14 {
            self.page_fault
        } else         if vector == 15 {
            self.reserved_2
        } else         if vector == 16 {
            self.x87_floating_point
        } else         if vector == 17 {
            self.alignment_check
        } else         if vector == 18 {
            self.machine_check
        } else         if vector == 19 {
            self.simd_floating_point
        } else         if vector == 20 {
            self.virtualization
        } else         if vector == 30 {
            self.security_exception
        } else         if vector == 31 {
            self.reserved_4
        } else {
            self.reserved_4
        }
    }

    /// The reserved vectors of the architecture.
    pub open spec fn is_reserved(vector: int) -> bool {
        vector == 9 || vector == 15 || 21 <= vector < 30 || vector == 31
    }

    /// Every gate is well formed and the reserved ones are missing.
    pub open spec fn wf(self) -> bool {
        &&& forall|v: int| 0 <= v < 256 ==> (#[trigger] self.gate(v)).wf()
        &&& forall|v: int|
            0 <= v < 256 && Self::is_reserved(v) ==> (#[trigger] self.gate(v)).is_missing()
    }

    /// A table in which every gate is missing.
    pub fn new() -> (r: Self)
        ensures
            r.wf(),
            forall|v: int| 0 <= v < 256 ==> (#[trigger] r.gate(v)).is_missing(),
    {
        Self {
            divide_error: Entry::missing(),
            debug: Entry::missing(),
            non_maskable_interrupt: Entry::missing(),
            breakpoint: Entry::missing(),
            overflow: Entry::missing(),
            bound_range_exceeded: Entry::missing(),
            invalid_opcode: Entry::missing(),
            device_not_available: Entry::missing(),
            double_fault: Entry::missing(),
            reserved_1: Entry::missing(),
            invalid_tss: Entry::missing(),
            segment_not_present: Entry::missing(),
            stack_segment_fault: Entry::missing(),
            general_protection_fault: Entry::missing(),
            page_fault: Entry::missing(),
            reserved_2: Entry::missing(),
            x87_floating_point: Entry::missing(),
            alignment_check: Entry::missing(),
            machine_check: Entry::missing(),
            simd_floating_point: Entry::missing(),
            virtualization: Entry::missing(),
            reserved_3: [Entry::missing();9],
            security_exception: Entry::missing(),
            reserved_4: Entry::missing(),
            interrupts: [Entry::missing();224],
        }
    }

    /// The entry of `vector`.
    pub fn get(&self, vector: u8) -> (r: Entry)
        ensures
            r == self.gate(vector as int),
    {
        match vector {
            0 => self.divide_error,
            1 => self.debug,
            2 => self.non_maskable_interrupt,
            3 => self.breakpoint,
            4 => self.overflow,
            5 => self.bound_range_exceeded,
            6 => self.invalid_opcode,
            7 => self.device_not_available,
            8 => self.double_fault,
            9 => self.reserved_1,
            10 => self.invalid_tss,
            11 => self.segment_not_present,
            12 => self.stack_segment_fault,
            13 => self.general_protection_fault,
            14 => self.page_fault,
            15 => self.reserved_2,
            16 => self.x87_floating_point,
            17 => self.alignment_check,
            18 => self.machine_check,
            19 => self.simd_floating_point,
            20 => self.virtualization,
            30 => self.security_exception,
            31 => self.reserved_4,
            21..=29 => self.reserved_3[(vector - 21) as usize],
            _ => self.interrupts[(vector - 32) as usize],
        }
    }

    /// Exclusive access to the entry of `vector`, which is not reserved. No
    /// other gate changes through it.
    pub fn entry_mut(&mut self, vector: u8) -> (r: &mut Entry)
        requires
            !Self::is_reserved(vector as int),
        ensures
            *r == old(self).gate(vector as int),
            final(self).gate(vector as int) == *final(r),
            forall|v: int|
                0 <= v < 256 && v != vector ==> #[trigger] final(self).gate(v) == old(self).gate(
                    v,
                ),
    {
        match vector {
            0 => &mut self.divide_error,
            1 => &mut self.debug,
            2 => &mut self.non_maskable_interrupt,
            3 => &mut self.breakpoint,
            4 => &mut self.overflow,
            5 => &mut self.bound_range_exceeded,
            6 => &mut self.invalid_opcode,
            7 => &mut self.device_not_available,
            8 => &mut self.double_fault,
            10 => &mut self.invalid_tss,
            11 => &mut self.segment_not_present,
            12 => &mut self.stack_segment_fault,
            13 => &mut self.general_protection_fault,
            14 => &mut self.page_fault,
            16 => &mut self.x87_floating_point,
            17 => &mut self.alignment_check,
            18 => &mut self.machine_check,
            19 => &mut self.simd_floating_point,
            20 => &mut self.virtualization,
            30 => &mut self.security_exception,
            _ => &mut self.interrupts[(vector - 32) as usize],
        }
    }

    /// Exclusive access to the entry of vector `32 + index`, for the
    /// interrupts that are not exceptions of the architecture.
    pub fn get_interrupt_entry_mut(&mut self, index: usize) -> (r: &mut Entry)
        requires
            index < 224,
        ensures
            *r == old(self).gate(32 + index),
            final(self).gate(32 + index) == *final(r),
            forall|v: int|
                0 <= v < 256 && v != 32 + index ==> #[trigger] final(self).gate(v) == old(
                    self,
                ).gate(v),
    {
        &mut self.interrupts[index]
    }

    /// The operand for `lidt` of a table that lies at `base`: 256 gates of 16
    /// bytes.
    pub fn load(&self, base: u64) -> (r: DescriptorTablePointer)
        ensures
            r == (DescriptorTablePointer { limit: 4095, base }),
    {
        DescriptorTablePointer { limit: (IDT_ENTRIES * 16 - 1) as u16, base }
    }

    /// The table as the CPU reads it: for each vector in turn the two words of
    /// its gate.
    pub fn encode(&self) -> (r: Vec<(u64, u64)>)
        requires
            self.wf(),
        ensures
            r@.len() == 256,
            forall|v: int|
                0 <= v < 256 ==> #[trigger] r@[v] == (
                    gate_low_word(
                        self.gate(v).handler_address(),
                        self.gate(v).selector(),
                        self.gate(v).options()@,
                    ),
                    gate_high_word(self.gate(v).handler_address()),
                ),
    {
        let mut words: Vec<(u64, u64)> = Vec::new();
        let mut vector: usize = 0;
        while vector < 256
            invariant
                vector <= 256,
                self.wf(),
                words@.len() == vector,
                forall|v: int|
                    0 <= v < vector ==> #[trigger] words@[v] == (
                        gate_low_word(
                            self.gate(v).handler_address(),
                            self.gate(v).selector(),
                            self.gate(v).options()@,
                        ),
                        gate_high_word(self.gate(v).handler_address()),
                    ),
            decreases 256 - vector,
        {
            let gate = self.get(vector as u8);
            assert(gate.wf());
            words.push(gate.encode());
            vector += 1;
        }
        words
    }
}

} // verus!
