use yomi_kernel::interrupts::gdt::{self, Gdt, GdtLoad, GdtPointer};
use yomi_kernel::interrupts::handlers::{
    breakpoint_handler, decode_page_fault, divide_error_handler, double_fault_handler,
    general_protection_fault_handler, machine_check_handler, page_fault_handler, Escalation,
    Exception, PageFaultCause,
};
use yomi_kernel::interrupts::idt::{
    DescriptorTablePointer, DivergingHandlerFuncWithErrorCode, Entry, EntryOptions, HandlerFunc,
    HandlerFuncWithErrorCode, DivergingHandlerFunc, InterruptDescriptorTable, InterruptStackFrame,
};
use yomi_kernel::interrupts::pic::{ChainedPics, PicMasks};
use yomi_kernel::interrupts::pit::Pit;
use yomi_kernel::interrupts::port::{Port, PortValue, PortWrite};
use yomi_kernel::interrupts::tss::{self, TaskStateSegment};
use yomi_kernel::interrupts::{
    are_enabled, build_idt, disable, enable, enable_timer_interrupts, init, without_interrupts,
    CpuOp, HandlerTable, InitContext, InitError, TableAddresses,
};
use yomi_kernel::io::logging::LogLevel;

fn w(port: u16, value: u8) -> PortWrite {
    PortWrite { port, width: 1, value: value as u32 }
}

fn frame() -> InterruptStackFrame {
    InterruptStackFrame {
        instruction_pointer: 0xFFFF_8000_0010_0000,
        code_segment: 0x08,
        cpu_flags: 0x202,
        stack_pointer: 0xFFFF_8000_0020_0000,
        stack_segment: 0x10,
    }
}

fn handlers() -> HandlerTable {
    let h = |address: u64| HandlerFunc { address };
    let e = |address: u64| HandlerFuncWithErrorCode { address };
    HandlerTable {
        divide_error: h(0x1000),
        debug: h(0x1010),
        non_maskable_interrupt: h(0x1020),
        breakpoint: h(0x1030),
        overflow: h(0x1040),
        bound_range_exceeded: h(0x1050),
        invalid_opcode: h(0x1060),
        device_not_available: h(0x1070),
        double_fault: DivergingHandlerFuncWithErrorCode { address: 0xFFFF_8000_1234_5678 },
        invalid_tss: e(0x10A0),
        segment_not_present: e(0x10B0),
        stack_segment_fault: e(0x10C0),
        general_protection_fault: e(0x10D0),
        page_fault: e(0x10E0),
        x87_floating_point: h(0x1100),
        alignment_check: e(0x1110),
        machine_check: DivergingHandlerFunc { address: 0x1120 },
        simd_floating_point: h(0x1130),
        timer: h(0x2000),
    }
}

#[test]
fn pit_divisor_for_100_hz() {
    assert_eq!(Pit::divisor(100), Some(11931));
    let mut pit = Pit::new();
    assert_eq!(
        pit.set_frequency(100),
        vec![w(0x43, 0x36), w(0x40, 0x9B), w(0x40, 0x2E)]
    );
}

#[test]
fn pit_rejects_frequencies_out_of_range() {
    assert_eq!(Pit::divisor(0), None);
    assert_eq!(Pit::divisor(18), None);
    assert_eq!(Pit::divisor(19), Some(62799));
    assert_eq!(Pit::divisor(596591), Some(2));
    assert_eq!(Pit::divisor(596592), None);
    assert_eq!(Pit::divisor(1193182), None);
    assert_eq!(Pit::divisor(u32::MAX), None);
    let mut pit = Pit::default();
    assert_eq!(
        pit.set_frequency(19),
        vec![w(0x43, 0x36), w(0x40, 0x4F), w(0x40, 0xF5)]
    );
}

#[test]
fn pic_unmask_irq_10_unmasks_the_cascade() {
    let mut pics = ChainedPics::new(32, 40);
    let writes = pics.unmask(10, PicMasks { master: 0xFF, slave: 0xFF });
    assert_eq!(writes, vec![w(0x21, 0xFB), w(0xA1, 0xFB)]);
    let (master, slave) = (writes[0].value as u8, writes[1].value as u8);
    assert_eq!(slave & (1 << 2), 0);
    assert_eq!(master & (1 << 2), 0);
}

#[test]
fn pic_unmask_and_mask_flip_one_bit() {
    let mut pics = ChainedPics::new(32, 40);
    let masks = PicMasks { master: 0b1010_1010, slave: 0b0101_0101 };
    assert_eq!(pics.unmask(1, masks), vec![w(0x21, 0b1010_1000)]);
    assert_eq!(pics.unmask(0, masks), vec![w(0x21, 0b1010_1010)]);
    assert_eq!(pics.unmask(15, masks), vec![w(0x21, 0b1010_1010), w(0xA1, 0b0101_0101)]);
    assert_eq!(pics.unmask(8, masks), vec![w(0x21, 0b1010_1010), w(0xA1, 0b0101_0100)]);
    assert_eq!(pics.mask(0, masks), vec![w(0x21, 0b1010_1011)]);
    assert_eq!(pics.mask(7, masks), vec![w(0x21, 0b1010_1010)]);
    assert_eq!(pics.mask(9, masks), vec![w(0xA1, 0b0101_0111)]);
    assert_eq!(pics.mask(250, masks), vec![w(0xA1, 0b0101_0101)]);
}

#[test]
fn pic_end_of_interrupt() {
    let mut pics = ChainedPics::new(32, 40);
    assert_eq!(pics.notify_end_of_interrupt(0), vec![w(0x20, 0x20)]);
    assert_eq!(pics.notify_end_of_interrupt(7), vec![w(0x20, 0x20)]);
    assert_eq!(pics.notify_end_of_interrupt(8), vec![w(0xA0, 0x20), w(0x20, 0x20)]);
    assert_eq!(pics.notify_end_of_interrupt(15), vec![w(0xA0, 0x20), w(0x20, 0x20)]);
}

#[test]
fn pic_initialize_sequence() {
    let mut pics = ChainedPics::new(32, 40);
    let writes = pics.initialize(PicMasks { master: 0xB8, slave: 0x8E });
    let wait = w(0x80, 0);
    assert_eq!(
        writes,
        vec![
            w(0x20, 0x11), wait, w(0xA0, 0x11), wait,
            w(0x21, 32), wait, w(0xA1, 40), wait,
            w(0x21, 4), wait, w(0xA1, 2), wait,
            w(0x21, 1), wait, w(0xA1, 1), wait,
            w(0x21, 0xB8), w(0xA1, 0x8E),
        ]
    );
}

#[test]
fn port_writes_carry_their_width() {
    let mut byte: Port<u8> = Port::new(0x3F8);
    let mut word: Port<u16> = Port::new(0x1F0);
    let mut dword: Port<u32> = Port::new(0xF4);
    assert_eq!(byte.address(), 0x3F8);
    assert_eq!(byte.write(0xAE), PortWrite { port: 0x3F8, width: 1, value: 0xAE });
    assert_eq!(word.write(0xBEEF), PortWrite { port: 0x1F0, width: 2, value: 0xBEEF });
    assert_eq!(dword.write(0x10), PortWrite { port: 0xF4, width: 4, value: 0x10 });
    assert_eq!(<u16 as PortValue>::width(), 2);
    assert_eq!(0xFFu8.widen(), 0xFF);
}

#[test]
fn entry_options_bits() {
    let mut options = EntryOptions::minimal();
    assert_eq!(options.bits(), 0x0E00);
    options.set_present(true);
    assert_eq!(options.bits(), 0x8E00);
    options.set_privilege_level(3);
    assert_eq!(options.bits(), 0xEE00);
    options.set_privilege_level(5);
    assert_eq!(options.bits(), 0xAE00);
    options.set_ist(1).set_privilege_level(0);
    assert_eq!(options.bits(), 0x8E01);
    options.set_ist(7);
    assert_eq!(options.bits(), 0x8E07);
    options.set_ist(8).set_present(false);
    assert_eq!(options.bits(), 0x0E00);
}

#[test]
fn entry_encoding() {
    let missing = Entry::missing();
    assert_eq!(missing.encode(), (0x0000_0E00_0000_0000, 0));
    let mut entry = Entry::missing();
    entry
        .set_handler_fn_diverging_with_error_code(DivergingHandlerFuncWithErrorCode {
            address: 0xFFFF_8000_1234_5678,
        })
        .set_ist(1);
    assert_eq!(entry.encode(), (0x1234_8E01_0008_5678, 0x0000_0000_FFFF_8000));
    let mut other = Entry::missing();
    other.set_handler_fn(HandlerFunc { address: 0xFFFF_8000_1234_5678 });
    assert_eq!(other.encode(), (0x1234_8E00_0008_5678, 0x0000_0000_FFFF_8000));
    let mut third = Entry::missing();
    third.set_handler_fn_with_error_code(HandlerFuncWithErrorCode { address: 0x1 });
    assert_eq!(third.encode(), (0x0000_8E00_0008_0001, 0));
    let mut fourth = Entry::missing();
    fourth.set_handler_fn_diverging(DivergingHandlerFunc { address: 0x1_0000_0000 });
    assert_eq!(fourth.encode(), (0x0000_8E00_0008_0000, 1));
}

#[test]
fn idt_after_build() {
    let idt = build_idt(&handlers());
    let words = idt.encode();
    assert_eq!(words.len(), 256);
    assert_eq!(words[0], (0x0000_8E00_0008_1000, 0));
    assert_eq!(words[3], (0x0000_8E00_0008_1030, 0));
    assert_eq!(words[8], (0x1234_8E01_0008_5678, 0x0000_0000_FFFF_8000));
    assert_eq!(words[14], (0x0000_8E00_0008_10E0, 0));
    assert_eq!(words[18], (0x0000_8E00_0008_1120, 0));
    assert_eq!(words[32], (0x0000_8E00_0008_2000, 0));
    for reserved in [9usize, 15, 20, 21, 25, 29, 30, 31, 33, 255] {
        assert_eq!(words[reserved], (0x0000_0E00_0000_0000, 0));
    }
    assert_eq!(idt.get(8), idt.double_fault);
    assert_eq!(idt.get(31), Entry::missing());
    assert_eq!(
        idt.load(0xFFFF_8000_0000_4000),
        DescriptorTablePointer { limit: 4095, base: 0xFFFF_8000_0000_4000 }
    );
    let fresh = InterruptDescriptorTable::new();
    assert!(fresh.encode().iter().all(|e| *e == (0x0000_0E00_0000_0000, 0)));
    let mut table = InterruptDescriptorTable::new();
    table.get_interrupt_entry_mut(1).set_handler_fn(HandlerFunc { address: 0x3000 });
    table.entry_mut(20).set_handler_fn(HandlerFunc { address: 0x4000 });
    assert_eq!(table.encode()[33], (0x0000_8E00_0008_3000, 0));
    assert_eq!(table.get(20).encode(), (0x0000_8E00_0008_4000, 0));
}

#[test]
fn tss_init_sets_the_double_fault_stack() {
    let mut tss = TaskStateSegment::new();
    assert!(tss.encode().iter().all(|word| *word == 0));
    tss::init(&mut tss, 0xFFFF_8000_0030_0000);
    assert_eq!(tss.interrupt_stack_table[0], 0xFFFF_8000_0030_4000);
    assert_eq!(tss.interrupt_stack_table[1..], [0; 6]);
    assert_eq!(tss.privilege_stack_table, [0; 3]);
    assert_eq!(tss.iomap_base, 104);
    let words = tss.encode();
    assert_eq!(words.len(), 26);
    assert_eq!(words[9], 0x0030_4000);
    assert_eq!(words[10], 0xFFFF_8000);
    assert_eq!(words[25], 104 << 16);
    tss.privilege_stack_table[2] = 0x1111_2222_3333_4444;
    let words = tss.encode();
    assert_eq!(words[5], 0x3333_4444);
    assert_eq!(words[6], 0x1111_2222);
}

#[test]
fn gdt_words() {
    let mut table = Gdt::new();
    assert_eq!(
        table.encode(),
        vec![0, 0x00A0_9A00_0000_0000, 0x0000_9200_0000_0000, 0, 0]
    );
    let load = gdt::init(&mut table, 0xFFFF_8000_1234_5678, 0xFFFF_8000_0000_5000);
    assert_eq!(
        load,
        GdtLoad {
            pointer: GdtPointer { limit: 39, base: 0xFFFF_8000_0000_5000 },
            code_selector: 0x08,
            data_selector: 0x10,
            tss_selector: 0x18,
        }
    );
    assert_eq!(
        table.encode(),
        vec![
            0,
            0x00A0_9A00_0000_0000,
            0x0000_9200_0000_0000,
            0x1200_8934_5678_0067,
            0x0000_0000_FFFF_8000,
        ]
    );
    table.set_tss(0);
    assert_eq!(table.encode()[3], 0x0000_8900_0000_0067);
}

#[test]
fn init_builds_and_loads_in_order() {
    let at = TableAddresses {
        tss: 0xFFFF_8000_0000_6000,
        gdt: 0xFFFF_8000_0000_5000,
        idt: 0xFFFF_8000_0000_4000,
        double_fault_stack: 0xFFFF_8000_0030_0000,
    };
    let (state, ops) = init(&handlers(), &at);
    assert_eq!(
        ops,
        vec![
            CpuOp::LoadGdt(GdtPointer { limit: 39, base: at.gdt }),
            CpuOp::ReloadSegments { code: 0x08, data: 0x10 },
            CpuOp::LoadTaskRegister(0x18),
            CpuOp::LoadIdt(DescriptorTablePointer { limit: 4095, base: at.idt }),
        ]
    );
    assert_eq!(state.tss().interrupt_stack_table[0], 0xFFFF_8000_0030_4000);
    assert_eq!(state.tss().iomap_base, 104);
    assert_eq!(state.gdt().encode()[3], 0x0000_8900_6000_0067);
    assert_eq!(state.gdt().encode()[4], 0x0000_0000_FFFF_8000);
    assert_eq!(state.idt().encode()[8], (0x1234_8E01_0008_5678, 0x0000_0000_FFFF_8000));

    let mut pics = ChainedPics::new(32, 40);
    let ops = enable_timer_interrupts(&state, &mut pics, PicMasks { master: 0xFF, slave: 0xFF });
    assert_eq!(ops.len(), 18 + 3 + 1 + 1);
    assert_eq!(ops[0], CpuOp::Port(w(0x20, 0x11)));
    assert_eq!(ops[17], CpuOp::Port(w(0xA1, 0xFF)));
    assert_eq!(ops[18], CpuOp::Port(w(0x43, 0x36)));
    assert_eq!(ops[19], CpuOp::Port(w(0x40, 0x9B)));
    assert_eq!(ops[20], CpuOp::Port(w(0x40, 0x2E)));
    assert_eq!(ops[21], CpuOp::Port(w(0x21, 0xFE)));
    assert_eq!(ops[22], CpuOp::EnableInterrupts);
}

#[test]
fn interrupt_flag() {
    assert!(are_enabled(0x202));
    assert!(!are_enabled(0x002));
    assert_eq!(disable(), CpuOp::DisableInterrupts);
    assert_eq!(enable(), CpuOp::EnableInterrupts);
    assert_eq!(
        without_interrupts(0x246),
        (Some(CpuOp::DisableInterrupts), Some(CpuOp::EnableInterrupts))
    );
    assert_eq!(without_interrupts(0x046), (None, None));
}

#[test]
fn only_a_breakpoint_resumes() {
    for vector in 0..=255u8 {
        match Exception::from_vector(vector) {
            Some(exception) => {
                assert_eq!(exception.vector(), vector);
                assert_eq!(
                    exception.escalation() == Escalation::Resume,
                    exception == Exception::Breakpoint
                );
                assert_eq!(
                    exception.has_error_code(),
                    [8u8, 10, 11, 12, 13, 14, 17].contains(&vector)
                );
                assert_eq!(exception.is_diverging(), vector == 8 || vector == 18);
            }
            None => assert!(vector == 9 || vector == 15 || vector >= 20),
        }
    }
    assert_eq!(Exception::Breakpoint.log_level(), LogLevel::DEBUG);
    assert_eq!(Exception::Debug.log_level(), LogLevel::DEBUG);
    assert_eq!(Exception::DoubleFault.log_level(), LogLevel::FATAL);
    assert_eq!(Exception::MachineCheck.log_level(), LogLevel::FATAL);
    assert_eq!(Exception::PageFault.log_level(), LogLevel::ERROR);
    assert_eq!(Exception::DivideError.name(), "DIVIDE ERROR");
    assert_eq!(Exception::StackSegmentFault.name(), "STACK-SEGMENT FAULT");
    assert_eq!(Exception::X87FloatingPoint.name(), "x87 FLOATING-POINT");
}

#[test]
fn exception_reports() {
    let report = breakpoint_handler(frame());
    assert_eq!(report.exception, Exception::Breakpoint);
    assert_eq!(report.escalation, Escalation::Resume);
    assert_eq!(report.error_code, None);
    assert_eq!(report.stack_frame, frame());

    let report = divide_error_handler(frame());
    assert_eq!(report.escalation, Escalation::Panic);
    assert_eq!(report.level, LogLevel::ERROR);

    let report = double_fault_handler(frame(), 0);
    assert_eq!(report.error_code, Some(0));
    assert_eq!(report.level, LogLevel::FATAL);
    assert_eq!(report.escalation, Escalation::Panic);

    let report = general_protection_fault_handler(frame(), 0x18);
    assert_eq!(report.error_code, Some(0x18));
    assert_eq!(report.cause, None);

    assert_eq!(machine_check_handler(frame()).escalation, Escalation::Panic);

    let report = page_fault_handler(frame(), 0x12, 0xDEAD_B000);
    assert_eq!(report.exception, Exception::PageFault);
    assert_eq!(report.fault_address, Some(0xDEAD_B000));
    assert_eq!(report.error_code, Some(0x12));
    assert_eq!(
        report.cause,
        Some(PageFaultCause {
            present: false,
            write: true,
            user: false,
            reserved: false,
            instruction: true,
        })
    );
    assert_eq!(report.escalation, Escalation::Panic);
    assert_eq!(
        decode_page_fault(0xFFFF_FFFF_FFFF_FFED),
        PageFaultCause { present: true, write: false, user: true, reserved: true, instruction: false }
    );
}

#[test]
fn tables_are_built_once() {
    let at = TableAddresses {
        tss: 0x6000,
        gdt: 0x5000,
        idt: 0x4000,
        double_fault_stack: 0x10000,
    };
    let mut context = InitContext::new();
    let mut pics = ChainedPics::new(32, 40);
    let masks = PicMasks { master: 0xFF, slave: 0xFF };
    assert!(context.tables().is_none());
    assert_eq!(
        context.enable_timer_interrupts(&mut pics, masks),
        Err(InitError::NotInitialized)
    );
    let ops = context.init(&handlers(), &at).unwrap();
    assert_eq!(ops.len(), 4);
    let before = context.tables().unwrap().idt().encode();
    let mut other = handlers();
    other.timer = HandlerFunc { address: 0x9999 };
    assert_eq!(context.init(&other, &at), Err(InitError::AlreadyInitialized));
    assert_eq!(context.tables().unwrap().idt().encode(), before);
    let ops = context.enable_timer_interrupts(&mut pics, masks).unwrap();
    assert_eq!(ops.len(), 23);
    assert_eq!(ops[22], CpuOp::EnableInterrupts);
}
