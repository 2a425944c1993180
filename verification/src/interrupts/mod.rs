//! Descriptor tables, the legacy interrupt controller and timer, and the
//! policy by which exceptions are reported and escalated.
//!
//! The order of bring-up is fixed: task state segment, then the global
//! descriptor table that names it, then the interrupt descriptor table with
//! the double-fault handler on its own stack; only then the interrupt
//! controller and the timer, and last the interrupt flag. [`init`] does the
//! first part and hands out an [`InterruptState`], without which
//! [`enable_timer_interrupts`] cannot be called.

pub mod gdt;
pub mod handlers;
pub mod idt;
pub mod pic;
pub mod pit;
pub mod port;
pub mod timer;
pub mod tss;

use gdt::{gdt_words, Gdt, GdtPointer, CODE_SELECTOR, DATA_SELECTOR, TSS_SELECTOR};
use idt::{
    DescriptorTablePointer, DivergingHandlerFunc, DivergingHandlerFuncWithErrorCode, HandlerFunc,
    HandlerFuncWithErrorCode, InterruptDescriptorTable, MINIMAL_OPTIONS, PRESENT_BIT,
};
use pic::{init_writes, unmask_writes, ChainedPics, PicMasks};
use pit::{divisor_of, frequency_writes, Pit};
use port::PortWrite;
use timer::TIMER_FREQUENCY;
use tss::{TaskStateSegment, DOUBLE_FAULT_IST_INDEX, DOUBLE_FAULT_STACK_SIZE, TSS_SIZE};
use vstd::prelude::*;

pub use idt::InterruptStackFrame;

verus! {

/// Bit 9 of RFLAGS: interrupts are enabled.
pub const INTERRUPT_FLAG: u64 = 0x200;

/// One privileged operation that the platform has to execute.
#[derive(Debug, Clone, Copy, PartialEq, Eq, Structural)]
pub enum CpuOp {
    /// `lgdt` with this operand.
    LoadGdt(GdtPointer),
    /// Reload CS with `code` by a far return, then DS, ES, FS, GS and SS with
    /// `data`.
    ReloadSegments { code: u16, data: u16 },
    /// `ltr` with this selector.
    LoadTaskRegister(u16),
    /// `lidt` with this operand.
    LoadIdt(DescriptorTablePointer),
    /// An `out` instruction.
    Port(PortWrite),
    /// `sti`.
    EnableInterrupts,
    /// `cli`.
    DisableInterrupts,
}

/// The entry points of the handlers, as the platform provides them.
#[derive(Debug, Clone, Copy, PartialEq, Eq)]
pub struct HandlerTable {
    /// Vector 0.
    pub divide_error: HandlerFunc,
    /// Vector 1.
    pub debug: HandlerFunc,
    /// Vector 2.
    pub non_maskable_interrupt: HandlerFunc,
    /// Vector 3.
    pub breakpoint: HandlerFunc,
    /// Vector 4.
    pub overflow: HandlerFunc,
    /// Vector 5.
    pub bound_range_exceeded: HandlerFunc,
    /// Vector 6.
    pub invalid_opcode: HandlerFunc,
    /// Vector 7.
    pub device_not_available: HandlerFunc,
    /// Vector 8.
    pub double_fault: DivergingHandlerFuncWithErrorCode,
    /// Vector 10.
    pub invalid_tss: HandlerFuncWithErrorCode,
    /// Vector 11.
    pub segment_not_present: HandlerFuncWithErrorCode,
    /// Vector 12.
    pub stack_segment_fault: HandlerFuncWithErrorCode,
    /// Vector 13.
    pub general_protection_fault: HandlerFuncWithErrorCode,
    /// Vector 14.
    pub page_fault: HandlerFuncWithErrorCode,
    /// Vector 16.
    pub x87_floating_point: HandlerFunc,
    /// Vector 17.
    pub alignment_check: HandlerFuncWithErrorCode,
    /// Vector 18.
    pub machine_check: DivergingHandlerFunc,
    /// Vector 19.
    pub simd_floating_point: HandlerFunc,
    /// Vector 32: the timer, IRQ 0.
    pub timer: HandlerFunc,
}

impl HandlerTable {
    /// The entry point registered for `vector`, if there is one.
    pub open spec fn address_for(self, vector: int) -> Option<u64> {
        if vector == 0 {
            Some(self.divide_error.address)
        } else if vector == 1 {
            Some(self.debug.address)
        } else if vector == 2 {
            Some(self.non_maskable_interrupt.address)
        } else if vector == 3 {
            Some(self.breakpoint.address)
        } else if vector == 4 {
            Some(self.overflow.address)
        } else if vector == 5 {
            Some(self.bound_range_exceeded.address)
        } else if vector == 6 {
            Some(self.invalid_opcode.address)
        } else if vector == 7 {
            Some(self.device_not_available.address)
        } else if vector == 8 {
            Some(self.double_fault.address)
        } else if vector == 10 {
            Some(self.invalid_tss.address)
        } else if vector == 11 {
            Some(self.segment_not_present.address)
        } else if vector == 12 {
            Some(self.stack_segment_fault.address)
        } else if vector == 13 {
            Some(self.general_protection_fault.address)
        } else if vector == 14 {
            Some(self.page_fault.address)
        } else if vector == 16 {
            Some(self.x87_floating_point.address)
        } else if vector == 17 {
            Some(self.alignment_check.address)
        } else if vector == 18 {
            Some(self.machine_check.address)
        } else if vector == 19 {
            Some(self.simd_floating_point.address)
        } else if vector == 32 {
            Some(self.timer.address)
        } else {
            None
        }
    }
}

/// Where the platform keeps the tables and the double-fault stack.
#[derive(Debug, Clone, Copy, PartialEq, Eq)]
pub struct TableAddresses {
    /// Address of the task state segment.
    pub tss: u64,
    /// Address of the global descriptor table.
    pub gdt: u64,
    /// Address of the interrupt descriptor table.
    pub idt: u64,
    /// Lowest address of the 16 KiB stack of the double-fault handler.
    pub double_fault_stack: u64,
}

/// The descriptor tables after `init`. There is no other way to make one, so
/// that holding one shows that `init` has run.
pub struct InterruptState {
    tss: TaskStateSegment,
    gdt: Gdt,
    idt: InterruptDescriptorTable,
}

/// The options word of the entry of `vector` after `init`: present, and for
/// the double fault on interrupt stack 1.
pub open spec fn gate_options(vector: int) -> u16 {
    if vector == 8 {
        (MINIMAL_OPTIONS | PRESENT_BIT) | DOUBLE_FAULT_IST_INDEX
    } else {
        MINIMAL_OPTIONS | PRESENT_BIT
    }
}

/// `idt` holds exactly the gates that `init` registers for `handlers`: each
/// vector with a handler leads to it, the double fault on interrupt stack 1,
/// and every other gate is missing.
pub open spec fn registered(idt: InterruptDescriptorTable, handlers: HandlerTable) -> bool {
    forall|v: int|
        0 <= v < 256 ==> match handlers.address_for(v) {
            Some(address) => (#[trigger] idt.gate(v)).leads_to(address) && idt.gate(v).options()@
                == gate_options(v),
            None => idt.gate(v).is_missing(),
        }
}

/// The operations that load the tables, in the order in which they have to
/// run.
pub open spec fn load_ops(at: TableAddresses) -> Seq<CpuOp> {
    seq![
        CpuOp::LoadGdt(GdtPointer { limit: 39, base: at.gdt }),
        CpuOp::ReloadSegments { code: CODE_SELECTOR, data: DATA_SELECTOR },
        CpuOp::LoadTaskRegister(TSS_SELECTOR),
        CpuOp::LoadIdt(DescriptorTablePointer { limit: 4095, base: at.idt }),
    ]
}

impl InterruptState {
    /// The task state segment.
    pub closed spec fn tss_spec(self) -> TaskStateSegment {
        self.tss
    }

    /// The global descriptor table.
    pub closed spec fn gdt_spec(self) -> Gdt {
        self.gdt
    }

    /// The interrupt descriptor table.
    pub closed spec fn idt_spec(self) -> InterruptDescriptorTable {
        self.idt
    }

    /// The tables are those that `init` builds for `handlers` at `at`.
    pub open spec fn built_for(self, handlers: HandlerTable, at: TableAddresses) -> bool {
        &&& self.tss_spec().wf()
        &&& self.tss_spec().interrupt_stacks() == Seq::new(7, |i: int| 0u64).update(
            0,
            (at.double_fault_stack + DOUBLE_FAULT_STACK_SIZE) as u64,
        )
        &&& self.tss_spec().privilege_stacks() == Seq::new(3, |i: int| 0u64)
        &&& self.tss_spec().iomap() == TSS_SIZE
        &&& self.gdt_spec().tss_base() == at.tss
        &&& self.gdt_spec().words() =~= gdt_words(Some(at.tss))
        &&& self.idt_spec().wf()
        &&& registered(self.idt_spec(), handlers)
    }

    /// The task state segment.
    pub fn tss(&self) -> (r: &TaskStateSegment)
        ensures
            *r == self.tss_spec(),
    {
        &self.tss
    }

    /// The global descriptor table.
    pub fn gdt(&self) -> (r: &Gdt)
        ensures
            *r == self.gdt_spec(),
    {
        &self.gdt
    }

    /// The interrupt descriptor table.
    pub fn idt(&self) -> (r: &InterruptDescriptorTable)
        ensures
            *r == self.idt_spec(),
    {
        &self.idt
    }
}

/// Builds the interrupt descriptor table for `handlers`: a gate for each
/// exception that has a handler and for the timer, the double-fault gate on
/// interrupt stack 1.
pub fn build_idt(handlers: &HandlerTable) -> (r: InterruptDescriptorTable)
    ensures
        r.wf(),
        registered(r, *handlers),
{
    let mut idt = InterruptDescriptorTable::new();
    let ghost fresh = idt;
    proof {
        assert(MINIMAL_OPTIONS | PRESENT_BIT == 0x8E00 && (MINIMAL_OPTIONS | PRESENT_BIT)
            | DOUBLE_FAULT_IST_INDEX == 0x8E01 && (0x8E00u16 & 0xFFF8) | (1u16 & 7) == 0x8E01
            && 0x8E01u16 & 0x8000 != 0 && 0x8E00u16 & 0x8000 != 0) by (bit_vector);
    }
    idt.entry_mut(0).set_handler_fn(handlers.divide_error);
    idt.entry_mut(1).set_handler_fn(handlers.debug);
    idt.entry_mut(2).set_handler_fn(handlers.non_maskable_interrupt);
    idt.entry_mut(3).set_handler_fn(handlers.breakpoint);
    idt.entry_mut(4).set_handler_fn(handlers.overflow);
    idt.entry_mut(5).set_handler_fn(handlers.bound_range_exceeded);
    idt.entry_mut(6).set_handler_fn(handlers.invalid_opcode);
    idt.entry_mut(7).set_handler_fn(handlers.device_not_available);
    idt.entry_mut(8).set_handler_fn_diverging_with_error_code(handlers.double_fault).set_ist(
        DOUBLE_FAULT_IST_INDEX,
    );
    idt.entry_mut(10).set_handler_fn_with_error_code(handlers.invalid_tss);
    idt.entry_mut(11).set_handler_fn_with_error_code(handlers.segment_not_present);
    idt.entry_mut(12).set_handler_fn_with_error_code(handlers.stack_segment_fault);
    idt.entry_mut(13).set_handler_fn_with_error_code(handlers.general_protection_fault);
    idt.entry_mut(14).set_handler_fn_with_error_code(handlers.page_fault);
    idt.entry_mut(16).set_handler_fn(handlers.x87_floating_point);
    idt.entry_mut(17).set_handler_fn_with_error_code(handlers.alignment_check);
    idt.entry_mut(18).set_handler_fn_diverging(handlers.machine_check);
    idt.entry_mut(19).set_handler_fn(handlers.simd_floating_point);
    idt.get_interrupt_entry_mut(0).set_handler_fn(handlers.timer);
    proof {
        assert forall|v: int| 0 <= v < 256 implies match handlers.address_for(v) {
            Some(address) => (#[trigger] idt.gate(v)).leads_to(address) && idt.gate(v).options()@
                == gate_options(v),
            None => idt.gate(v).is_missing(),
        } by {
            if handlers.address_for(v) is None {
                assert(idt.gate(v) == fresh.gate(v));
            }
        }
    }
    idt
}

/// Builds the descriptor tables and says how to load them.
///
/// The task state segment gets the stack of the double-fault handler, the
/// global descriptor table the descriptor of that segment, the interrupt
/// descriptor table its gates. The operations returned load the global table,
/// the segment registers, the task register and the interrupt table, in this
/// order. The double-fault stack has to end inside the address space.
pub fn init(handlers: &HandlerTable, at: &TableAddresses) -> (r: (InterruptState, Vec<CpuOp>))
    requires
        at.double_fault_stack + DOUBLE_FAULT_STACK_SIZE <= u64::MAX,
    ensures
        r.0.built_for(*handlers, *at),
        r.1@ == load_ops(*at),
{
    let mut tss = TaskStateSegment::new();
    tss::init(&mut tss, at.double_fault_stack);
    let mut gdt = Gdt::new();
    let load = gdt::init(&mut gdt, at.tss, at.gdt);
    let idt = build_idt(handlers);
    let mut ops: Vec<CpuOp> = Vec::new();
    ops.push(CpuOp::LoadGdt(load.pointer));
    ops.push(CpuOp::ReloadSegments { code: load.code_selector, data: load.data_selector });
    ops.push(CpuOp::LoadTaskRegister(load.tss_selector));
    ops.push(CpuOp::LoadIdt(idt.load(at.idt)));
    assert(ops@ =~= load_ops(*at));
    (InterruptState { tss, gdt, idt }, ops)
}

/// The operations of `enable_timer_interrupts`: the initialization of the
/// controllers, the programming of the timer, the unmasking of IRQ 0, and the
/// setting of the interrupt flag.
pub open spec fn timer_enable_ops(offset1: u8, offset2: u8, masks: PicMasks) -> Seq<CpuOp> {
    (init_writes(offset1, offset2, masks) + frequency_writes(
        divisor_of(TIMER_FREQUENCY) as u16,
    ) + unmask_writes(masks, 0)).map_values(|w: PortWrite| CpuOp::Port(w)).push(
        CpuOp::EnableInterrupts,
    )
}

/// Appends the port writes `writes` to `ops`.
fn push_writes(ops: &mut Vec<CpuOp>, writes: &Vec<PortWrite>)
    ensures
        final(ops)@ == old(ops)@ + writes@.map_values(|w: PortWrite| CpuOp::Port(w)),
{
    let mut i: usize = 0;
    while i < writes.len()
        invariant
            i <= writes@.len(),
            ops@ == old(ops)@ + writes@.take(i as int).map_values(|w: PortWrite| CpuOp::Port(w)),
        decreases writes@.len() - i,
    {
        ops.push(CpuOp::Port(writes[i]));
        assert(writes@.take(i + 1) =~= writes@.take(i as int).push(writes@[i as int]));
        assert(ops@ =~= old(ops)@ + writes@.take(i + 1).map_values(
            |w: PortWrite| CpuOp::Port(w),
        ));
        i += 1;
    }
    assert(writes@.take(i as int) =~= writes@);
}

/// Brings up the interrupt controllers and the timer and enables interrupts.
///
/// `masks` are the mask registers of the controllers as read beforehand; the
/// initialization restores them, so they are also what the unmasking of IRQ 0
/// starts from. The state shows that the tables are loaded.
pub fn enable_timer_interrupts(
    state: &InterruptState,
    pics: &mut ChainedPics,
    masks: PicMasks,
) -> (r: Vec<CpuOp>)
    requires
        old(pics).wf(),
    ensures
        old(pics).same_as(*final(pics)),
        r@ == timer_enable_ops(old(pics).master_offset(), old(pics).slave_offset(), masks),
{
    let mut ops: Vec<CpuOp> = Vec::new();
    let init = pics.initialize(masks);
    push_writes(&mut ops, &init);
    let mut pit = Pit::new();
    proof {
        pit::lemma_valid_frequency_range(TIMER_FREQUENCY);
    }
    let program = pit.set_frequency(TIMER_FREQUENCY);
    push_writes(&mut ops, &program);
    let unmask = pics.unmask(0, masks);
    push_writes(&mut ops, &unmask);
    ops.push(CpuOp::EnableInterrupts);
    proof {
        let f = |w: PortWrite| CpuOp::Port(w);
        let a = init@;
        let b = program@;
        let c = unmask@;
        assert((a + b + c).map_values(f) =~= a.map_values(f) + b.map_values(f) + c.map_values(f));
    }
    ops
}

/// Why a step of the bring-up was refused.
#[derive(Debug, Clone, Copy, PartialEq, Eq, Structural)]
pub enum InitError {
    /// The descriptor tables have been built before.
    AlreadyInitialized,
    /// The descriptor tables have not been built yet.
    NotInitialized,
}

/// The one owner of the descriptor tables. It lets them be built once and
/// lets the timer be enabled only after that.
pub struct InitContext {
    state: Option<InterruptState>,
}

impl InitContext {
    /// The descriptor tables, once built.
    pub closed spec fn state(self) -> Option<InterruptState> {
        self.state
    }

    /// A context in which nothing has been built.
    pub fn new() -> (r: Self)
        ensures
            r.state() is None,
    {
        Self { state: None }
    }

    /// The descriptor tables, once built.
    pub fn tables(&self) -> (r: Option<&InterruptState>)
        ensures
            r is Some <==> self.state() is Some,
            r is Some ==> *r.unwrap() == self.state().unwrap(),
    {
        self.state.as_ref()
    }

    /// Builds the descriptor tables as `init` does and keeps them. A second
    /// call is refused and changes nothing.
    pub fn init(&mut self, handlers: &HandlerTable, at: &TableAddresses) -> (r: Result<
        Vec<CpuOp>,
        InitError,
    >)
        requires
            at.double_fault_stack + DOUBLE_FAULT_STACK_SIZE <= u64::MAX,
        ensures
            match r {
                Ok(ops) => {
                    &&& old(self).state() is None
                    &&& final(self).state() is Some
                    &&& final(self).state().unwrap().built_for(*handlers, *at)
                    &&& ops@ == load_ops(*at)
                },
                Err(e) => {
                    &&& e == InitError::AlreadyInitialized
                    &&& old(self).state() is Some
                    &&& final(self).state() == old(self).state()
                },
            },
    {
        if self.state.is_some() {
            return Err(InitError::AlreadyInitialized);
        }
        let (state, ops) = init(handlers, at);
        self.state = Some(state);
        Ok(ops)
    }

    /// Brings up the interrupt controllers and the timer as
    /// `enable_timer_interrupts` does. Before `init` the call is refused and
    /// nothing is to be executed.
    pub fn enable_timer_interrupts(&self, pics: &mut ChainedPics, masks: PicMasks) -> (r: Result<
        Vec<CpuOp>,
        InitError,
    >)
        requires
            old(pics).wf(),
        ensures
            old(pics).same_as(*final(pics)),
            match r {
                Ok(ops) => self.state() is Some && ops@ == timer_enable_ops(
                    old(pics).master_offset(),
                    old(pics).slave_offset(),
                    masks,
                ),
                Err(e) => e == InitError::NotInitialized && self.state() is None,
            },
    {
        match &self.state {
            Some(state) => Ok(enable_timer_interrupts(state, pics, masks)),
            None => Err(InitError::NotInitialized),
        }
    }
}

/// The operation that disables interrupts.
pub fn disable() -> (r: CpuOp)
    ensures
        r == CpuOp::DisableInterrupts,
{
    CpuOp::DisableInterrupts
}

/// The operation that enables interrupts.
pub fn enable() -> (r: CpuOp)
    ensures
        r == CpuOp::EnableInterrupts,
{
    CpuOp::EnableInterrupts
}

/// Whether interrupts are enabled, given RFLAGS: its bit 9 is set.
pub fn are_enabled(rflags: u64) -> (r: bool)
    ensures
        r == (rflags & INTERRUPT_FLAG != 0),
{
    (rflags & INTERRUPT_FLAG) != 0
}

/// What brackets a piece of code that must not be interrupted, given RFLAGS:
/// where interrupts are enabled they are disabled before and enabled again
/// after; where they are not, nothing is done, so that they stay disabled.
pub fn without_interrupts(rflags: u64) -> (r: (Option<CpuOp>, Option<CpuOp>))
    ensures
        r == if rflags & INTERRUPT_FLAG != 0 {
            (Some(CpuOp::DisableInterrupts), Some(CpuOp::EnableInterrupts))
        } else {
            (None::<CpuOp>, None::<CpuOp>)
        },
{
    if are_enabled(rflags) {
        (Some(disable()), Some(enable()))
    } else {
        (None, None)
    }
}

} // verus!
