use ferocios::boot::{self, BootStep};
use ferocios::addr::offset_address;
use ferocios::frame::{incr_instruction_pointer, FaultContext};
use x86_64::registers::rflags::RFlags;
use x86_64::registers::segmentation::SegmentSelector;
use x86_64::structures::idt::InterruptStackFrameValue;
use x86_64::VirtAddr;
use ferocios::gdt::{self, DOUBLE_FAULT_IST_INDEX, STACK_SIZE};
use ferocios::interrupts::{
    binding, exception_of, handle_exception, handle_exception_vector, init, keyboard_handler, timer_handler, Exception,
    Handler, InterruptIndex, Outcome, Recovery, VectorTable, PIC_1_OFFSET, PIC_2_OFFSET,
};
use ferocios::keyboard::{key_text, process_input, DecodedKey, Keyboard};
use ferocios::pic::{Controller, PortWrite};

fn frame() -> FaultContext {
    FaultContext {
        instruction_pointer: 0x1000,
        code_segment: 8,
        cpu_flags: 0x202,
        stack_pointer: 0x7000,
        stack_segment: 0,
    }
}

const ALL: [Exception; 18] = [
    Exception::DivideError,
    Exception::Debug,
    Exception::NonMaskableInterrupt,
    Exception::Breakpoint,
    Exception::Overflow,
    Exception::BoundRangeExceeded,
    Exception::InvalidOpcode,
    Exception::DeviceNotAvailable,
    Exception::DoubleFault,
    Exception::InvalidTss,
    Exception::SegmentNotPresent,
    Exception::GeneralProtectionFault,
    Exception::PageFault,
    Exception::X87FloatingPoint,
    Exception::AlignmentCheck,
    Exception::MachineCheck,
    Exception::SimdFloatingPoint,
    Exception::SecurityException,
];

#[test]
fn interrupt_index_vectors() {
    assert_eq!(InterruptIndex::Timer.as_u8(), 32);
    assert_eq!(InterruptIndex::Keyboard.as_u8(), 33);
    assert_eq!(InterruptIndex::Keyboard.as_usize(), 33);
    assert_eq!(PIC_2_OFFSET, PIC_1_OFFSET + 8);
}

fn frame_text(f: &FaultContext) -> String {
    let value = InterruptStackFrameValue::new(
        VirtAddr::new(f.instruction_pointer),
        SegmentSelector(f.code_segment),
        RFlags::from_bits_retain(f.cpu_flags),
        VirtAddr::new(f.stack_pointer),
        SegmentSelector(f.stack_segment),
    );
    format!("{:#?}", value)
}

#[test]
fn divide_error_report_text() {
    let r = handle_exception(Exception::DivideError, &frame(), None);
    let text = String::from_utf8(r.output).unwrap();
    assert_eq!(text, format!("Exception divide_by_zero_handler:\n{}\n", frame_text(&frame())));
    assert!(text.starts_with("Exception divide_by_zero_handler:\nInterruptStackFrame {\n"));
    assert!(text.contains("instruction_pointer: VirtAddr(\n        0x1000,\n    ),")
        || text.contains("instruction_pointer: VirtAddr(0x1000)"));
    assert_eq!(r.outcome, Outcome::Resumed);
    assert!(r.port_writes.is_empty());
}

#[test]
fn general_protection_report_has_error_code() {
    let f = FaultContext { instruction_pointer: 0xffff_8000_dead_beef, ..frame() };
    let r = handle_exception(Exception::GeneralProtectionFault, &f, Some(1234));
    let text = String::from_utf8(r.output).unwrap();
    assert_eq!(
        text,
        format!("Exception general_protection_fault_handler:\n{}\nError code: 1234\n", frame_text(&f))
    );
    assert!(text.contains("0xffff8000deadbeef"));
    assert_eq!(r.outcome, Outcome::Resumed);
}

#[test]
fn handler_names() {
    assert_eq!(Exception::Debug.name(), "debug_handler");
    assert_eq!(Exception::DoubleFault.name(), "double_fault_handler");
    assert_eq!(Exception::MachineCheck.name(), "machine_check_handler");
    assert_eq!(Exception::DivideError.name(), "divide_by_zero_handler");
}

#[test]
fn every_exception_reports_once_and_only_fatal_ones_halt() {
    for e in ALL {
        let r = handle_exception(e, &frame(), None);
        let text = String::from_utf8(r.output).unwrap();
        assert_eq!(text.matches("Exception ").count(), 1);
        assert!(text.starts_with(&format!("Exception {}:\n", e.name())));
        let fatal = matches!(
            e,
            Exception::DoubleFault | Exception::MachineCheck | Exception::PageFault
        );
        assert_eq!(r.outcome == Outcome::Halted, fatal);
        assert_eq!(e.recovery() == Recovery::Halt, fatal);
        assert_eq!(exception_of(e.vector()), Some(e));
    }
}

#[test]
fn exception_vectors_use_error_code_only_where_pushed() {
    let pf = handle_exception_vector(14, &frame(), 2).unwrap();
    let text = String::from_utf8(pf.output).unwrap();
    assert!(text.starts_with("Exception page_fault_handler:\n"));
    assert!(text.ends_with("Error code: 2\n"));
    assert_eq!(pf.outcome, Outcome::Halted);
    let de = handle_exception_vector(0, &frame(), 7).unwrap();
    let text = String::from_utf8(de.output).unwrap();
    assert!(!text.contains("Error code"));
    assert_eq!(de.outcome, Outcome::Resumed);
    assert!(handle_exception_vector(9, &frame(), 0).is_none());
    assert!(handle_exception_vector(32, &frame(), 0).is_none());
    assert!(handle_exception_vector(255, &frame(), 0).is_none());
}

#[test]
fn breakpoint_resumes_where_it_left_off() {
    let f = frame();
    let r = handle_exception(Exception::Breakpoint, &f, None);
    assert_eq!(r.outcome, Outcome::Resumed);
    assert_eq!(f, frame());
    assert_eq!(binding(3).handler, Some(Handler::Exception(Exception::Breakpoint)));
    assert_eq!(binding(3).stack_index, None);
}

#[test]
fn divide_error_skips_faulting_instruction() {
    let mut f = frame();
    let r = handle_exception(Exception::DivideError, &f, None);
    assert_eq!(r.outcome, Outcome::Resumed);
    incr_instruction_pointer(&mut f, 3);
    assert_eq!(f.instruction_pointer, 0x1003);
    assert_eq!(f.stack_pointer, 0x7000);
    assert_eq!(f.cpu_flags, 0x202);
}

#[test]
fn instruction_pointer_stays_canonical() {
    assert_eq!(offset_address(0x0000_7fff_ffff_fffe, 3), None);
    assert_eq!(offset_address(u64::MAX - 1, 3), None);
    assert_eq!(offset_address(0xffff_8000_0000_0000, 16), Some(0xffff_8000_0000_0010));
    let mut h = FaultContext { instruction_pointer: 0xffff_8000_0000_0000, ..frame() };
    incr_instruction_pointer(&mut h, 16);
    assert_eq!(h.instruction_pointer, 0xffff_8000_0000_0010);
}

#[test]
fn vector_table_layout() {
    let table = VectorTable::build();
    let mut with_stack = Vec::new();
    for v in 0..=255u8 {
        let e = table.entry(v);
        assert_eq!(e, binding(v));
        if e.stack_index.is_some() {
            with_stack.push(v);
        }
        match e.handler {
            Some(Handler::Exception(x)) => assert!(v < 32 && x.vector() == v),
            Some(Handler::Hardware(i)) => assert!(v >= 32 && i.as_u8() == v),
            None => assert!(v != 0 && v != 8 && v != 32 && v != 33),
        }
    }
    assert_eq!(with_stack, vec![8]);
    assert_eq!(table.entry(8).stack_index, Some(DOUBLE_FAULT_IST_INDEX));
    assert_eq!(table.entry(32).handler, Some(Handler::Hardware(InterruptIndex::Timer)));
    assert_eq!(table.entry(33).handler, Some(Handler::Hardware(InterruptIndex::Keyboard)));
    assert_eq!(table.entry(9).handler, None);
    assert_eq!(table.entry(40).handler, None);
}

#[test]
fn double_fault_stack_is_dedicated() {
    let start: u64 = 0x0000_0000_0020_0000;
    let layout = gdt::build(start).unwrap();
    let top = layout.task_state.interrupt_stack_table[DOUBLE_FAULT_IST_INDEX as usize];
    assert_eq!(top, start + STACK_SIZE);
    assert_eq!(STACK_SIZE, 20480);
    assert_eq!(layout.task_state.interrupt_stack_table.len(), 7);
    assert!(layout.task_state.interrupt_stack_table[1..].iter().all(|&a| a == 0));
    let boot_stack = 0x0000_0000_0010_0000u64..0x0000_0000_0020_0000u64;
    assert!(!boot_stack.contains(&(top - 1)));
    assert!(top > start && top <= start + STACK_SIZE);
}

#[test]
fn descriptor_layout_selectors() {
    let layout = gdt::build(0x1000).unwrap();
    assert_eq!(layout.code_selector, 0x08);
    assert_eq!(layout.tss_selector, 0x10);
    assert_eq!(layout.code_descriptor, 0x00af_9b00_0000_ffff);
    assert_eq!(gdt::selector(3, 3), 27);
    assert_eq!(
        gdt::init(&layout),
        vec![
            BootStep::LoadDescriptorTable,
            BootStep::SetCodeSegment(0x08),
            BootStep::LoadTaskRegister(0x10),
        ]
    );
}

#[test]
fn descriptor_layout_refuses_noncanonical_stack() {
    assert!(gdt::build(0x0000_7fff_ffff_f000).is_none());
    assert!(gdt::build(u64::MAX - 100).is_none());
    assert!(gdt::build(0xffff_8000_0000_0000).is_some());
}

#[test]
fn boot_sequence_order() {
    let layout = gdt::build(0x20_0000).unwrap();
    let pics = Controller::new(PIC_1_OFFSET, PIC_2_OFFSET);
    let (table, steps) = boot::init(&layout, &pics);
    assert_eq!(table.entry(8).stack_index, Some(DOUBLE_FAULT_IST_INDEX));
    assert_eq!(table.entry(33).handler, Some(Handler::Hardware(InterruptIndex::Keyboard)));
    assert_eq!(steps.len(), 3 + 1 + 20 + 1);
    assert_eq!(steps[0], BootStep::LoadDescriptorTable);
    assert_eq!(steps[3], BootStep::LoadVectorTable);
    assert_eq!(steps[4], BootStep::Port(PortWrite { port: 0x21, value: 0xFF }));
    assert_eq!(*steps.last().unwrap(), BootStep::EnableInterrupts);
    let (own, own_steps) = init(&pics);
    assert_eq!(own_steps[0], BootStep::LoadVectorTable);
    for v in 0..=255u8 {
        assert_eq!(own.entry(v), table.entry(v));
    }
}

#[test]
fn idle_kernel_prints_nothing() {
    let pics = Controller::new(PIC_1_OFFSET, PIC_2_OFFSET);
    for _ in 0..3 {
        let r = timer_handler(&pics);
        assert!(r.output.is_empty());
        assert_eq!(r.outcome, Outcome::Resumed);
        assert_eq!(r.port_writes, vec![PortWrite { port: 0x20, value: 0x20 }]);
    }
}

#[test]
fn keystrokes_are_forwarded_and_line_rearmed() {
    let pics = Controller::new(PIC_1_OFFSET, PIC_2_OFFSET);
    let mut keyboard = Keyboard::new();
    let mut screen = Vec::new();
    // press A, release A, press B
    for scancode in [0x1Eu8, 0x9E, 0x30] {
        let key = process_input(&mut keyboard, scancode);
        let r = keyboard_handler(&pics, key_text(&key));
        assert_eq!(r.outcome, Outcome::Resumed);
        assert_eq!(r.port_writes, vec![PortWrite { port: 0x20, value: 0x20 }]);
        screen.extend(r.output);
    }
    assert_eq!(screen, b"ab".to_vec());
}

#[test]
fn decoder_reports_single_key() {
    let mut keyboard = Keyboard::new();
    assert_eq!(process_input(&mut keyboard, 0x1E), Some(DecodedKey::Unicode('a')));
    assert_eq!(process_input(&mut keyboard, 0x9E), None);
    // an extended-key prefix completes no key by itself
    assert_eq!(process_input(&mut keyboard, 0xE0), None);
    assert_eq!(process_input(&mut keyboard, 0x9D), None);
    assert_eq!(process_input(&mut keyboard, 0x2A), Some(DecodedKey::RawKey("LShift".to_string())));
    assert_eq!(process_input(&mut keyboard, 0x1E), Some(DecodedKey::Unicode('A')));
    assert_eq!(process_input(&mut keyboard, 0xAA), None);
    assert_eq!(process_input(&mut keyboard, 0x30), Some(DecodedKey::Unicode('b')));
}

#[test]
fn key_text_forms() {
    assert_eq!(key_text(&Some(DecodedKey::Unicode('x'))), b"x".to_vec());
    assert_eq!(key_text(&Some(DecodedKey::Unicode('é'))), vec![0xc3, 0xa9]);
    assert_eq!(key_text(&Some(DecodedKey::Unicode('€'))), vec![0xe2, 0x82, 0xac]);
    assert_eq!(key_text(&Some(DecodedKey::RawKey("LShift".to_string()))), b"LShift".to_vec());
    assert_eq!(key_text(&None), Vec::<u8>::new());
}
