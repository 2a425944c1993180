//! Early-boot hardware control plane of a small x86-64 kernel: descriptor
//! tables, interrupt routing and 4-level paging, written as pure logic over
//! plain values so that every rule is stated in a contract and proved.
//!
//! Nothing here touches the machine. Functions that would program a device
//! return the exact port writes or table images that the platform layer has to
//! carry out.

pub mod memory;
pub mod interrupts;
pub mod io;
pub mod process;
pub mod time;
pub mod boot;
pub mod testing;
pub mod serial;
pub mod vga;
pub mod panic;
pub mod xtask;

use interrupts::port::PortWrite;
use interrupts::{CpuOp, HandlerTable, InterruptState, TableAddresses};
use memory::allocator::BumpAllocator;
use memory::heap::HEAP_SIZE;
use serial::SerialPort;
use vstd::prelude::*;

pub use boot::{MemoryRegion, MemoryRegionType, Multiboot2Info};
pub use memory::{
    Page, PageTable, PageTableEntry, PageTableFlags, PageTableManager, PhysAddr, PhysFrame,
    VirtAddr,
};

verus! {

/// The kernel after its early initialization, and what the platform has to
/// execute to make the hardware agree: first the writes that open the serial
/// port, then the operations that load the descriptor tables.
pub struct Bringup {
    /// The serial port COM1.
    pub serial: SerialPort,
    /// The writes that open the serial port.
    pub serial_writes: Vec<PortWrite>,
    /// The allocator, with the heap in place.
    pub allocator: BumpAllocator,
    /// The descriptor tables.
    pub interrupts: InterruptState,
    /// The operations that load the descriptor tables.
    pub table_ops: Vec<CpuOp>,
}

/// Initializes the kernel in its fixed order: the serial port for the log,
/// the heap, then the descriptor tables. The heap lies at `heap_start`, the
/// tables and the double-fault stack at `at`; both regions end inside the
/// address space.
pub fn init(handlers: &HandlerTable, at: &TableAddresses, heap_start: usize) -> (r: Bringup)
    requires
        heap_start + HEAP_SIZE <= usize::MAX,
        at.double_fault_stack + interrupts::tss::DOUBLE_FAULT_STACK_SIZE <= u64::MAX,
    ensures
        r.serial.wf(),
        r.serial.base() == serial::COM1,
        r.serial_writes@ == serial::open_writes(serial::COM1),
        r.allocator.wf(),
        r.allocator.start() == heap_start,
        r.allocator.end() == heap_start + HEAP_SIZE,
        r.allocator.next() == heap_start,
        r.allocator.live() == 0,
        r.interrupts.built_for(*handlers, *at),
        r.table_ops@ == interrupts::load_ops(*at),
{
    let (serial, serial_writes) = serial::init();
    let mut allocator = BumpAllocator::new();
    memory::heap::init_heap(&mut allocator, heap_start);
    let (state, table_ops) = interrupts::init(handlers, at);
    Bringup { serial, serial_writes, allocator, interrupts: state, table_ops }
}

} // verus!
