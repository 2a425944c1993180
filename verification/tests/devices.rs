use yomi_kernel::boot::multiboot2::{
    FramebufferType, MemoryRegionType, Multiboot2Info, MULTIBOOT2_MAGIC,
};
use yomi_kernel::interrupts::port::PortWrite;
use yomi_kernel::interrupts::{CpuOp, HandlerTable, TableAddresses};
use yomi_kernel::interrupts::idt::{
    DivergingHandlerFunc, DivergingHandlerFuncWithErrorCode, HandlerFunc, HandlerFuncWithErrorCode,
};
use yomi_kernel::memory::allocator::{align_up, BumpAllocator, HeapUsage, Locked};
use yomi_kernel::memory::heap::{heap_usage, init_heap, HEAP_SIZE};
use yomi_kernel::panic::{
    caller_frame_slot, is_valid_kernel_address, print_uptime, return_address_slot, Uptime,
};
use yomi_kernel::serial::{self, Poll, SerialPort};
use yomi_kernel::testing::{exit_qemu, run_passed, test_runner, QemuExitCode};
use yomi_kernel::vga::{write_diagnostic, Color, ColorCode, ScreenChar, VgaWriter};

fn w(port: u16, value: u8) -> PortWrite {
    PortWrite { port, width: 1, value: value as u32 }
}

#[test]
fn bump_allocator_moves_forward_and_resets() {
    let mut heap = BumpAllocator::new();
    assert_eq!(heap.allocate(1, 1), None);
    heap.init(0x1000, 0x100);
    assert_eq!(heap.usage(), HeapUsage { total: 0x100, used: 0, allocations: 0 });
    assert_eq!(heap.allocate(3, 1), Some(0x1000));
    assert_eq!(heap.allocate(8, 8), Some(0x1008));
    assert_eq!(heap.allocate(0, 64), Some(0x1040));
    assert_eq!(heap.usage(), HeapUsage { total: 0x100, used: 0x40, allocations: 3 });
    assert_eq!(heap.allocate(0xC1, 1), None);
    assert_eq!(heap.allocate(1, 0x200), None);
    assert_eq!(heap.allocate(usize::MAX, 1), None);
    assert_eq!(heap.allocate(0xC0, 1), Some(0x1040));
    assert_eq!(heap.usage(), HeapUsage { total: 0x100, used: 0x100, allocations: 4 });
    heap.deallocate();
    heap.deallocate();
    heap.deallocate();
    assert_eq!(heap.usage(), HeapUsage { total: 0x100, used: 0x100, allocations: 1 });
    heap.deallocate();
    assert_eq!(heap.usage(), HeapUsage { total: 0x100, used: 0, allocations: 0 });
    assert_eq!(heap.allocate(0x100, 0x1000), Some(0x1000));
}

#[test]
fn align_up_of_addresses() {
    assert_eq!(align_up(0, 8), 0);
    assert_eq!(align_up(1, 8), 8);
    assert_eq!(align_up(8, 8), 8);
    assert_eq!(align_up(0x1234, 4096), 0x2000);
    assert_eq!(align_up(usize::MAX, 1), usize::MAX);
}

#[test]
fn heap_is_100_kib() {
    assert_eq!(HEAP_SIZE, 100 * 1024);
    let mut heap = BumpAllocator::new();
    init_heap(&mut heap, 0x20_0000);
    assert_eq!(heap_usage(&heap), HeapUsage { total: 102400, used: 0, allocations: 0 });
    assert_eq!(heap.allocate(102400, 16), Some(0x20_0000));
    assert_eq!(heap.allocate(1, 1), None);
}

#[test]
fn multiboot_magic() {
    assert_eq!(MULTIBOOT2_MAGIC, 0x36d76289);
    assert!(Multiboot2Info::from_ptr(0x2BADB002, 0x9000).is_none());
    let info = Multiboot2Info::from_ptr(0x36d76289, 0x9000).unwrap();
    assert_eq!(info.info_addr(), 0x9000);
    assert!(info.memory_map().is_empty());
    assert_eq!(info.framebuffer_info(), None);
    assert_eq!(info.total_memory(), None);
    assert_eq!(MemoryRegionType::Usable.code(), 1);
    assert_eq!(MemoryRegionType::BadMemory.code(), 5);
    assert_eq!(FramebufferType::EgaText.code(), 2);
}

#[test]
fn qemu_exit_codes() {
    assert_eq!(QemuExitCode::Success.value(), 0x10);
    assert_eq!(QemuExitCode::Failed.value(), 0x11);
    assert_eq!(QemuExitCode::Success.process_status(), 33);
    assert_eq!(QemuExitCode::Failed.process_status(), 35);
    assert_eq!(
        exit_qemu(QemuExitCode::Failed),
        PortWrite { port: 0xf4, width: 4, value: 0x11 }
    );
    assert!(run_passed(33));
    assert!(!run_passed(35));
    assert!(!run_passed(0));
    assert_eq!(test_runner(7, 0), (7, QemuExitCode::Success));
    assert_eq!(test_runner(7, 2), (5, QemuExitCode::Failed));
}

#[test]
fn serial_open_sequence() {
    let (mut port, writes) = serial::init();
    assert_eq!(
        writes,
        vec![
            w(0x3F9, 0x00), w(0x3FB, 0x80), w(0x3F8, 0x01), w(0x3F9, 0x00), w(0x3FB, 0x03),
            w(0x3FA, 0xC7), w(0x3FC, 0x0B), w(0x3FC, 0x1E), w(0x3F8, 0xAE),
        ]
    );
    assert_eq!(port.status_port(), 0x3FD);
    assert_eq!(port.data_port(), 0x3F8);
    assert_eq!(port.finish_init(0xAE), Some(w(0x3FC, 0x0F)));
    assert_eq!(port.finish_init(0xAF), None);
    assert_eq!(SerialPort::loopback_poll(0x01, 0), Poll::Ready);
    assert_eq!(SerialPort::loopback_poll(0x60, 0), Poll::Retry);
    assert_eq!(SerialPort::loopback_poll(0x60, 9998), Poll::Retry);
    assert_eq!(SerialPort::loopback_poll(0x60, 9999), Poll::TimedOut);
    assert_eq!(SerialPort::loopback_poll(0x61, 9999), Poll::Ready);
    assert_eq!(SerialPort::send_poll(0x20, 5), Poll::Ready);
    assert_eq!(SerialPort::send_poll(0x01, 99_998), Poll::Retry);
    assert_eq!(SerialPort::send_poll(0x01, 99_999), Poll::TimedOut);
    assert!(SerialPort::receive(0x61));
    assert!(!SerialPort::receive(0x60));
    assert_eq!(port.send(b'!'), w(0x3F8, b'!'));
    assert_eq!(port.write_str("ok\n"), vec![w(0x3F8, b'o'), w(0x3F8, b'k'), w(0x3F8, b'\n')]);
    assert!(port.write_str("").is_empty());
    let mut other = SerialPort::new(0x2F8);
    assert_eq!(other.init()[0], w(0x2F9, 0x00));
}

fn cell(writer: &VgaWriter, row: usize, col: usize) -> ScreenChar {
    writer.cells()[row * 80 + col]
}

#[test]
fn vga_writes_and_wraps() {
    let mut screen = VgaWriter::new();
    let white = ColorCode::new(Color::White, Color::Black);
    assert_eq!(white.bits(), 0x0F);
    assert_eq!(ColorCode::new(Color::Yellow, Color::Blue).bits(), 0x1E);
    assert_eq!(screen.cells().len(), 2000);
    assert!(screen.cells().iter().all(|c| *c == ScreenChar { ascii_character: b' ', color_code: white }));
    screen.write_string("Hi\n\u{e9}!");
    assert_eq!(cell(&screen, 0, 0).ascii_character, b'H');
    assert_eq!(cell(&screen, 0, 1).ascii_character, b'i');
    assert_eq!(cell(&screen, 1, 0).ascii_character, 0xfe);
    assert_eq!(cell(&screen, 1, 1).ascii_character, 0xfe);
    assert_eq!(cell(&screen, 1, 2).ascii_character, b'!');
    assert_eq!(screen.cursor(), (1, 3));
    screen.set_color(Color::LightRed, Color::Blue);
    screen.write_at("x", 0, 79);
    assert_eq!(cell(&screen, 0, 79), ScreenChar { ascii_character: b'x', color_code: ColorCode::new(Color::LightRed, Color::Blue) });
    assert_eq!(screen.cursor(), (0, 80));
    screen.write_byte(b'y');
    assert_eq!(cell(&screen, 1, 0).ascii_character, b'y');
    assert_eq!(screen.cursor(), (1, 1));
    screen.write_at("ignored", 25, 0);
    screen.write_at("ignored", 0, 80);
    assert_eq!(screen.cursor(), (1, 1));
    write_diagnostic(&mut screen, "[BOOT]");
    assert_eq!(cell(&screen, 0, 74).ascii_character, b'[');
    assert_eq!(cell(&screen, 0, 79).ascii_character, b']');
    write_diagnostic(&mut screen, "");
    assert_eq!(screen.cursor(), (0, 80));
}

#[test]
fn vga_scrolls_on_the_last_row() {
    let mut screen = VgaWriter::new();
    for row in 0..25u8 {
        screen.write_at("r", row as usize, 0);
        screen.write_byte(b'a' + row);
    }
    assert_eq!(screen.cursor(), (24, 2));
    assert_eq!(cell(&screen, 0, 1).ascii_character, b'a');
    screen.write_byte(b'\n');
    assert_eq!(screen.cursor(), (24, 0));
    assert_eq!(cell(&screen, 0, 1).ascii_character, b'b');
    assert_eq!(cell(&screen, 23, 1).ascii_character, b'y');
    assert_eq!(cell(&screen, 24, 0).ascii_character, b' ');
    assert_eq!(cell(&screen, 24, 1).ascii_character, b' ');
    screen.set_color(Color::Green, Color::Black);
    screen.clear_screen();
    assert_eq!(screen.cursor(), (0, 0));
    let blank = ScreenChar { ascii_character: b' ', color_code: ColorCode::new(Color::Green, Color::Black) };
    assert!(screen.cells().iter().all(|c| *c == blank));
}

#[test]
fn panic_uptime_and_trace_rules() {
    assert_eq!(
        print_uptime(3_723_456),
        Uptime { hours: 1, minutes: 2, seconds: 3, millis: 456 }
    );
    assert_eq!(print_uptime(999), Uptime { hours: 0, minutes: 0, seconds: 0, millis: 999 });
    assert!(is_valid_kernel_address(0xffff_8000_0000_0000));
    assert!(is_valid_kernel_address(0xffff_ffff_ffff_fffe));
    assert!(!is_valid_kernel_address(0xffff_ffff_ffff_ffff));
    assert!(!is_valid_kernel_address(0xffff_7fff_ffff_ffff));
    assert!(!is_valid_kernel_address(0));
    assert_eq!(return_address_slot(0xffff_8000_0000_1000, 0), Some(0xffff_8000_0000_1008));
    assert_eq!(return_address_slot(0xffff_8000_0000_1000, 9), Some(0xffff_8000_0000_1008));
    assert_eq!(return_address_slot(0xffff_8000_0000_1000, 10), None);
    assert_eq!(return_address_slot(0, 0), None);
    assert_eq!(return_address_slot(0x1000, 0), None);
    assert_eq!(return_address_slot(0xffff_7fff_ffff_fff8, 0), Some(0xffff_8000_0000_0000));
    assert_eq!(caller_frame_slot(0xffff_8000_0000_1000), Some(0xffff_8000_0000_1000));
    assert_eq!(caller_frame_slot(0xffff_7fff_ffff_fff8), None);
}

#[test]
fn kernel_init_order() {
    let h = |address: u64| HandlerFunc { address };
    let e = |address: u64| HandlerFuncWithErrorCode { address };
    let handlers = HandlerTable {
        divide_error: h(1), debug: h(2), non_maskable_interrupt: h(3), breakpoint: h(4),
        overflow: h(5), bound_range_exceeded: h(6), invalid_opcode: h(7),
        device_not_available: h(8),
        double_fault: DivergingHandlerFuncWithErrorCode { address: 9 },
        invalid_tss: e(10), segment_not_present: e(11), stack_segment_fault: e(12),
        general_protection_fault: e(13), page_fault: e(14), x87_floating_point: h(16),
        alignment_check: e(17), machine_check: DivergingHandlerFunc { address: 18 },
        simd_floating_point: h(19), timer: h(32),
    };
    let at = TableAddresses { tss: 0x6000, gdt: 0x5000, idt: 0x4000, double_fault_stack: 0x10000 };
    let boot = yomi_kernel::init(&handlers, &at, 0x40_0000);
    assert_eq!(boot.serial_writes.len(), 9);
    assert_eq!(boot.serial_writes[8], w(0x3F8, 0xAE));
    assert_eq!(boot.allocator.usage(), HeapUsage { total: 102400, used: 0, allocations: 0 });
    assert_eq!(boot.table_ops.len(), 4);
    assert_eq!(boot.table_ops[2], CpuOp::LoadTaskRegister(0x18));
    assert_eq!(boot.interrupts.tss().interrupt_stack_table[0], 0x14000);
    assert_eq!(boot.interrupts.idt().encode()[14], (0x0000_8E00_0008_000E, 0));
}

#[test]
fn locked_allocator_serves_through_the_lock() {
    let heap = Locked::new(BumpAllocator::new());
    assert_eq!(heap.allocate(1, 1), None);
    assert!(!heap.deallocate());
    assert_eq!(heap.usage(), Some(HeapUsage { total: 0, used: 0, allocations: 0 }));
    heap.lock().init(0x8000, 0x40);
    assert_eq!(heap.allocate(5, 16), Some(0x8000));
    assert_eq!(heap.allocate(8, 16), Some(0x8010));
    assert_eq!(heap.allocate(0x40, 1), None);
    assert_eq!(heap.usage(), Some(HeapUsage { total: 0x40, used: 0x18, allocations: 2 }));
    assert_eq!(heap.lock().bump_pointer(), 0x8018);
    assert!(heap.deallocate());
    assert!(heap.deallocate());
    assert!(!heap.deallocate());
    assert_eq!(heap.usage(), Some(HeapUsage { total: 0x40, used: 0, allocations: 0 }));
    assert!(heap.lock().is_sound());
    assert!(heap.lock().can_serve(8));

    let top = Locked::new(BumpAllocator::new());
    top.lock().init(usize::MAX - 4, 4);
    assert_eq!(top.allocate(1, 1), Some(usize::MAX - 4));
    assert_eq!(top.allocate(1, 16), None);
    assert!(!top.lock().can_serve(16));
}

#[test]
fn allocator_in_any_state() {
    let mut heap = BumpAllocator::new();
    assert_eq!(heap.try_usage(), Some(HeapUsage { total: 0, used: 0, allocations: 0 }));
    assert_eq!(heap.try_allocate(0, 1), Some(0));
    assert!(heap.try_deallocate());
    assert!(!heap.try_deallocate());
    assert_eq!(heap.try_allocate(1, 1), None);

    heap.init(0x1000, 0x20);
    assert_eq!(heap.try_allocate(5, 8), Some(0x1000));
    assert_eq!(heap.try_allocate(8, 8), Some(0x1008));
    let full = heap;
    assert_eq!(heap.try_allocate(0x11, 1), None);
    assert_eq!(heap, full);
    assert_eq!(heap.try_allocate(0x10, 16), Some(0x1010));
    assert_eq!(heap.try_usage(), Some(HeapUsage { total: 0x20, used: 0x20, allocations: 3 }));
    assert!(heap.try_deallocate());
    assert_eq!(heap.bump_pointer(), 0x1020);
    assert!(heap.try_deallocate());
    assert!(heap.try_deallocate());
    assert_eq!(heap.bump_pointer(), 0x1000);
    let empty = heap;
    assert!(!heap.try_deallocate());
    assert_eq!(heap, empty);

    let mut top = BumpAllocator::new();
    top.init(usize::MAX - 4, 4);
    let before = top;
    assert_eq!(top.try_allocate(1, 16), None);
    assert_eq!(top, before);
    assert_eq!(top.try_allocate(4, 1), Some(usize::MAX - 4));
    assert_eq!(top.try_usage(), Some(HeapUsage { total: 4, used: 4, allocations: 1 }));
}
