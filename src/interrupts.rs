//! The interrupt vector table and the handlers bound into it.
//!
//! Architectural exceptions are reported and then either resumed or halted,
//! per vector; the remapped hardware lines are serviced and acknowledged.
use vstd::prelude::*;
use crate::boot::BootStep;
use crate::frame::{advanced, can_advance, FaultContext};
use crate::gdt::{layout_ok, stack_fits, stack_top, DescriptorLayout, DOUBLE_FAULT_IST_INDEX, STACK_SIZE};
use crate::keyboard::{spec_key_text, DecodedKey};
use vstd::utf8::{encode_scalar, encode_utf8};
use crate::pic::{port_write, Controller, PortWrite, CMD_END_OF_INTERRUPT, PRIMARY_COMMAND};
use crate::report::{exception_report, report_text};

verus! {

/// Vector of the primary controller's line 0.
pub const PIC_1_OFFSET: u8 = 32;

/// Vector of the secondary controller's line 0.
pub const PIC_2_OFFSET: u8 = PIC_1_OFFSET + 8;

/// Number of entries of the vector table.
pub const VECTOR_COUNT: usize = 256;

/// The hardware lines that this kernel services.
#[derive(Debug, Clone, Copy, PartialEq, Eq, Structural)]
pub enum InterruptIndex {
    Timer,
    Keyboard,
}

impl InterruptIndex {
    pub open spec fn spec_as_u8(self) -> u8 {
        match self {
            InterruptIndex::Timer => PIC_1_OFFSET,
            InterruptIndex::Keyboard => (PIC_1_OFFSET + 1) as u8,
        }
    }

    /// The line's vector: the primary controller's base plus the line.
    pub fn as_u8(self) -> (r: u8)
        ensures
            r == self.spec_as_u8(),
    {
        match self {
            InterruptIndex::Timer => PIC_1_OFFSET,
            InterruptIndex::Keyboard => PIC_1_OFFSET + 1,
        }
    }

    /// The line's vector, as a table index.
    pub fn as_usize(self) -> (r: usize)
        ensures
            r == self.spec_as_u8(),
    {
        self.as_u8() as usize
    }
}

/// The architectural exceptions that have a handler.
#[derive(Debug, Clone, Copy, PartialEq, Eq, Structural)]
pub enum Exception {
    DivideError,
    Debug,
    NonMaskableInterrupt,
    Breakpoint,
    Overflow,
    BoundRangeExceeded,
    InvalidOpcode,
    DeviceNotAvailable,
    DoubleFault,
    InvalidTss,
    SegmentNotPresent,
    GeneralProtectionFault,
    PageFault,
    X87FloatingPoint,
    AlignmentCheck,
    MachineCheck,
    SimdFloatingPoint,
    SecurityException,
}

/// What a handler does once it has reported.
#[derive(Debug, Clone, Copy, PartialEq, Eq, Structural)]
pub enum Recovery {
    /// Return to the interrupted code.
    Resume,
    /// Never return: park the processor.
    Halt,
}

impl Exception {
    pub open spec fn spec_vector(self) -> u8 {
        match self {
            Exception::DivideError => 0,
            Exception::Debug => 1,
            Exception::NonMaskableInterrupt => 2,
            Exception::Breakpoint => 3,
            Exception::Overflow => 4,
            Exception::BoundRangeExceeded => 5,
            Exception::InvalidOpcode => 6,
            Exception::DeviceNotAvailable => 7,
            Exception::DoubleFault => 8,
            Exception::InvalidTss => 10,
            Exception::SegmentNotPresent => 11,
            Exception::GeneralProtectionFault => 13,
            Exception::PageFault => 14,
            Exception::X87FloatingPoint => 16,
            Exception::AlignmentCheck => 17,
            Exception::MachineCheck => 18,
            Exception::SimdFloatingPoint => 19,
            Exception::SecurityException => 30,
        }
    }

    pub open spec fn spec_name(self) -> &'static str {
        match self {
            Exception::DivideError => "divide_by_zero_handler",
            Exception::Debug => "debug_handler",
            Exception::NonMaskableInterrupt => "non_maskable_interrupt_handler",
            Exception::Breakpoint => "breakpoint_handler",
            Exception::Overflow => "overflow_handler",
            Exception::BoundRangeExceeded => "bound_range_exceeded_handler",
            Exception::InvalidOpcode => "invalid_opcode_handler",
            Exception::DeviceNotAvailable => "device_not_available_handler",
            Exception::DoubleFault => "double_fault_handler",
            Exception::InvalidTss => "invalid_tss_handler",
            Exception::SegmentNotPresent => "segment_not_present_handler",
            Exception::GeneralProtectionFault => "general_protection_fault_handler",
            Exception::PageFault => "page_fault_handler",
            Exception::X87FloatingPoint => "x87_floating_point_handler",
            Exception::AlignmentCheck => "alignment_check_handler",
            Exception::MachineCheck => "machine_check_handler",
            Exception::SimdFloatingPoint => "simd_floating_point_handler",
            Exception::SecurityException => "security_exception_handler",
        }
    }

    /// Double faults and machine checks leave nothing trustworthy to return
    /// to; without a paging subsystem a page fault would only recur, so it
    /// halts too. Every other exception is reported and resumed.
    pub open spec fn spec_recovery(self) -> Recovery {
        match self {
            Exception::DoubleFault | Exception::MachineCheck | Exception::PageFault => {
                Recovery::Halt
            },
            _ => Recovery::Resume,
        }
    }

    /// The processor pushes an error code for this exception.
    pub open spec fn spec_has_error_code(self) -> bool {
        match self {
            Exception::DoubleFault | Exception::InvalidTss | Exception::SegmentNotPresent
            | Exception::GeneralProtectionFault | Exception::PageFault | Exception::AlignmentCheck
            | Exception::SecurityException => true,
            _ => false,
        }
    }

    /// Whether the processor pushes an error code for this exception.
    pub fn has_error_code(self) -> (r: bool)
        ensures
            r == self.spec_has_error_code(),
    {
        match self {
            Exception::DoubleFault | Exception::InvalidTss | Exception::SegmentNotPresent
            | Exception::GeneralProtectionFault | Exception::PageFault | Exception::AlignmentCheck
            | Exception::SecurityException => true,
            _ => false,
        }
    }

    /// The vector the processor raises this exception on.
    pub fn vector(self) -> (r: u8)
        ensures
            r == self.spec_vector(),
    {
        match self {
            Exception::DivideError => 0,
            Exception::Debug => 1,
            Exception::NonMaskableInterrupt => 2,
            Exception::Breakpoint => 3,
            Exception::Overflow => 4,
            Exception::BoundRangeExceeded => 5,
            Exception::InvalidOpcode => 6,
            Exception::DeviceNotAvailable => 7,
            Exception::DoubleFault => 8,
            Exception::InvalidTss => 10,
            Exception::SegmentNotPresent => 11,
            Exception::GeneralProtectionFault => 13,
            Exception::PageFault => 14,
            Exception::X87FloatingPoint => 16,
            Exception::AlignmentCheck => 17,
            Exception::MachineCheck => 18,
            Exception::SimdFloatingPoint => 19,
            Exception::SecurityException => 30,
        }
    }

    /// The name that the diagnostic gives the exception.
    pub fn name(self) -> (r: &'static str)
        ensures
            r == self.spec_name(),
    {
        match self {
            Exception::DivideError => "divide_by_zero_handler",
            Exception::Debug => "debug_handler",
            Exception::NonMaskableInterrupt => "non_maskable_interrupt_handler",
            Exception::Breakpoint => "breakpoint_handler",
            Exception::Overflow => "overflow_handler",
            Exception::BoundRangeExceeded => "bound_range_exceeded_handler",
            Exception::InvalidOpcode => "invalid_opcode_handler",
            Exception::DeviceNotAvailable => "device_not_available_handler",
            Exception::DoubleFault => "double_fault_handler",
            Exception::InvalidTss => "invalid_tss_handler",
            Exception::SegmentNotPresent => "segment_not_present_handler",
            Exception::GeneralProtectionFault => "general_protection_fault_handler",
            Exception::PageFault => "page_fault_handler",
            Exception::X87FloatingPoint => "x87_floating_point_handler",
            Exception::AlignmentCheck => "alignment_check_handler",
            Exception::MachineCheck => "machine_check_handler",
            Exception::SimdFloatingPoint => "simd_floating_point_handler",
            Exception::SecurityException => "security_exception_handler",
        }
    }

    /// Whether the handler resumes or halts after reporting.
    pub fn recovery(self) -> (r: Recovery)
        ensures
            r == self.spec_recovery(),
    {
        match self {
            Exception::DoubleFault | Exception::MachineCheck | Exception::PageFault => {
                Recovery::Halt
            },
            _ => Recovery::Resume,
        }
    }
}

/// The exception raised on `vector`, if it is one that has a handler.
pub open spec fn spec_exception_of(vector: u8) -> Option<Exception> {
    if vector == 0 {
        Some(Exception::DivideError)
    } else if vector == 1 {
        Some(Exception::Debug)
    } else if vector == 2 {
        Some(Exception::NonMaskableInterrupt)
    } else if vector == 3 {
        Some(Exception::Breakpoint)
    } else if vector == 4 {
        Some(Exception::Overflow)
    } else if vector == 5 {
        Some(Exception::BoundRangeExceeded)
    } else if vector == 6 {
        Some(Exception::InvalidOpcode)
    } else if vector == 7 {
        Some(Exception::DeviceNotAvailable)
    } else if vector == 8 {
        Some(Exception::DoubleFault)
    } else if vector == 10 {
        Some(Exception::InvalidTss)
    } else if vector == 11 {
        Some(Exception::SegmentNotPresent)
    } else if vector == 13 {
        Some(Exception::GeneralProtectionFault)
    } else if vector == 14 {
        Some(Exception::PageFault)
    } else if vector == 16 {
        Some(Exception::X87FloatingPoint)
    } else if vector == 17 {
        Some(Exception::AlignmentCheck)
    } else if vector == 18 {
        Some(Exception::MachineCheck)
    } else if vector == 19 {
        Some(Exception::SimdFloatingPoint)
    } else if vector == 30 {
        Some(Exception::SecurityException)
    } else {
        None
    }
}

/// The exception raised on `vector`, if it is one that has a handler.
pub fn exception_of(vector: u8) -> (r: Option<Exception>)
    ensures
        r == spec_exception_of(vector),
{
    match vector {
        0 => Some(Exception::DivideError),
        1 => Some(Exception::Debug),
        2 => Some(Exception::NonMaskableInterrupt),
        3 => Some(Exception::Breakpoint),
        4 => Some(Exception::Overflow),
        5 => Some(Exception::BoundRangeExceeded),
        6 => Some(Exception::InvalidOpcode),
        7 => Some(Exception::DeviceNotAvailable),
        8 => Some(Exception::DoubleFault),
        10 => Some(Exception::InvalidTss),
        11 => Some(Exception::SegmentNotPresent),
        13 => Some(Exception::GeneralProtectionFault),
        14 => Some(Exception::PageFault),
        16 => Some(Exception::X87FloatingPoint),
        17 => Some(Exception::AlignmentCheck),
        18 => Some(Exception::MachineCheck),
        19 => Some(Exception::SimdFloatingPoint),
        30 => Some(Exception::SecurityException),
        _ => None,
    }
}

/// The routine that one vector is bound to.
#[derive(Debug, Clone, Copy, PartialEq, Eq, Structural)]
pub enum Handler {
    /// The diagnostic handler of an architectural exception.
    Exception(Exception),
    /// The service routine of a hardware line.
    Hardware(InterruptIndex),
}

/// One entry of the vector table: the bound handler, if any, and the index
/// of the dedicated stack that the processor switches to before running it.
#[derive(Debug, Clone, Copy, PartialEq, Eq, Structural)]
pub struct VectorEntry {
    pub handler: Option<Handler>,
    pub stack_index: Option<u16>,
}

/// The binding of `vector`: exceptions to their handlers, the double fault
/// with the dedicated stack, the timer and keyboard lines to their service
/// routines, nothing elsewhere.
pub open spec fn spec_binding(vector: u8) -> VectorEntry {
    if vector == InterruptIndex::Timer.spec_as_u8() {
        VectorEntry { handler: Some(Handler::Hardware(InterruptIndex::Timer)), stack_index: None }
    } else if vector == InterruptIndex::Keyboard.spec_as_u8() {
        VectorEntry {
            handler: Some(Handler::Hardware(InterruptIndex::Keyboard)),
            stack_index: None,
        }
    } else {
        match spec_exception_of(vector) {
            Some(e) => VectorEntry {
                handler: Some(Handler::Exception(e)),
                stack_index: if e == Exception::DoubleFault {
                    Some(DOUBLE_FAULT_IST_INDEX)
                } else {
                    None
                },
            },
            None => VectorEntry { handler: None, stack_index: None },
        }
    }
}

/// The binding of `vector`.
pub fn binding(vector: u8) -> (r: VectorEntry)
    ensures
        r == spec_binding(vector),
{
    if vector == InterruptIndex::Timer.as_u8() {
        VectorEntry { handler: Some(Handler::Hardware(InterruptIndex::Timer)), stack_index: None }
    } else if vector == InterruptIndex::Keyboard.as_u8() {
        VectorEntry {
            handler: Some(Handler::Hardware(InterruptIndex::Keyboard)),
            stack_index: None,
        }
    } else {
        match exception_of(vector) {
            Some(e) => {
                let stack_index = match e {
                    Exception::DoubleFault => Some(DOUBLE_FAULT_IST_INDEX),
                    _ => None,
                };
                VectorEntry { handler: Some(Handler::Exception(e)), stack_index }
            },
            None => VectorEntry { handler: None, stack_index: None },
        }
    }
}

/// `t` is the vector table: every vector bound as `spec_binding` says, so
/// only the architecture's range 0-31 holds exceptions, each at its own
/// vector, only the range above it holds hardware lines, and the double
/// fault is the one entry that switches stacks, to stack 0.
pub open spec fn table_bindings(t: Seq<VectorEntry>) -> bool {
    &&& t.len() == VECTOR_COUNT
    &&& forall|v: int| 0 <= v < VECTOR_COUNT ==> #[trigger] t[v] == spec_binding(v as u8)
    &&& forall|v: int|
        0 <= v < VECTOR_COUNT ==> (#[trigger] t[v].stack_index is Some <==> v
            == Exception::DoubleFault.spec_vector())
    &&& t[Exception::DoubleFault.spec_vector() as int].stack_index == Some(DOUBLE_FAULT_IST_INDEX)
    &&& forall|v: int|
        0 <= v < VECTOR_COUNT ==> (#[trigger] t[v].handler matches Some(Handler::Exception(e))
            ==> v < 32 && e.spec_vector() == v)
    &&& forall|v: int|
        0 <= v < VECTOR_COUNT ==> (#[trigger] t[v].handler matches Some(Handler::Hardware(i))
            ==> v >= 32 && i.spec_as_u8() == v)
}

/// The 256-entry vector table.
pub struct VectorTable {
    entries: Vec<VectorEntry>,
}

impl View for VectorTable {
    type V = Seq<VectorEntry>;

    closed spec fn view(&self) -> Seq<VectorEntry> {
        self.entries@
    }
}

impl VectorTable {
    #[verifier::type_invariant]
    spec fn complete(self) -> bool {
        &&& self.entries@.len() == VECTOR_COUNT
        &&& forall|v: int|
            0 <= v < VECTOR_COUNT ==> #[trigger] self.entries@[v] == spec_binding(v as u8)
    }

    /// Binds every vector as `spec_binding` says. Only the architecture's
    /// range 0-31 holds exceptions, only the remapped range above it holds
    /// hardware lines, and the double fault is the one entry that switches
    /// stacks.
    pub fn build() -> (r: VectorTable)
        ensures
            table_bindings(r@),
    {
        let mut entries: Vec<VectorEntry> = Vec::new();
        let mut v: usize = 0;
        while v < VECTOR_COUNT
            invariant
                v <= VECTOR_COUNT,
                entries@.len() == v,
                forall|j: int| 0 <= j < v ==> #[trigger] entries@[j] == spec_binding(j as u8),
            decreases VECTOR_COUNT - v,
        {
            entries.push(binding(v as u8));
            v = v + 1;
        }
        VectorTable { entries }
    }

    /// The entry of `vector`.
    pub fn entry(&self, vector: u8) -> (r: VectorEntry)
        ensures
            r == self@[vector as int],
            r == spec_binding(vector),
    {
        proof {
            use_type_invariant(self);
        }
        self.entries[vector as usize]
    }
}

/// How a trap ends.
#[derive(Debug, Clone, Copy, PartialEq, Eq, Structural)]
pub enum Outcome {
    /// The handler returned; the interrupted code runs on.
    Resumed,
    /// The handler never returns; the processor is parked.
    Halted,
}

pub open spec fn outcome_of(r: Recovery) -> Outcome {
    match r {
        Recovery::Resume => Outcome::Resumed,
        Recovery::Halt => Outcome::Halted,
    }
}

/// What one handler invocation asks of the caller: text for the output
/// sink, the port writes that acknowledge the line, and how the trap ends.
pub struct TrapAction {
    pub output: Vec<u8>,
    pub port_writes: Vec<PortWrite>,
    pub outcome: Outcome,
}

/// The diagnostic handler of `exception`: one report of the fault, then
/// resume or halt as the exception's recovery says. The context is only
/// read.
pub fn handle_exception(exception: Exception, frame: &FaultContext, error_code: Option<u64>) -> (r:
    TrapAction)
    ensures
        r.output@ == report_text(exception.spec_name(), *frame, error_code),
        r.port_writes@ == Seq::<PortWrite>::empty(),
        r.outcome == outcome_of(exception.spec_recovery()),
{
    let output = exception_report(exception.name(), frame, error_code);
    let outcome = match exception.recovery() {
        Recovery::Resume => Outcome::Resumed,
        Recovery::Halt => Outcome::Halted,
    };
    TrapAction { output, port_writes: Vec::new(), outcome }
}

/// The error code of `exception` as the handler sees it: the saved slot
/// where the processor pushes a code, nothing elsewhere.
pub open spec fn error_code_of(exception: Exception, slot: u64) -> Option<u64> {
    if exception.spec_has_error_code() {
        Some(slot)
    } else {
        None
    }
}

/// The diagnostic handler for a trap on `vector`, given the error-code slot
/// that the entry saved (zero where the processor pushes none); `None` when
/// no exception handler is bound to the vector.
pub fn handle_exception_vector(vector: u8, frame: &FaultContext, error_code: u64) -> (r: Option<
    TrapAction,
>)
    ensures
        r is Some <==> spec_exception_of(vector) is Some,
        r is Some ==> ({
            let e = spec_exception_of(vector)->Some_0;
            &&& r->Some_0.output@ == report_text(
                e.spec_name(),
                *frame,
                error_code_of(e, error_code),
            )
            &&& r->Some_0.port_writes@ == Seq::<PortWrite>::empty()
            &&& r->Some_0.outcome == outcome_of(e.spec_recovery())
        }),
{
    match exception_of(vector) {
        Some(e) => {
            let code = if e.has_error_code() {
                Some(error_code)
            } else {
                None
            };
            Some(handle_exception(e, frame, code))
        },
        None => None,
    }
}

/// The timer line's routine: nothing to report, acknowledge, resume.
pub fn timer_handler(pics: &Controller) -> (r: TrapAction)
    ensures
        r.output@ == Seq::<u8>::empty(),
        r.port_writes@ == pics.ack_plan(InterruptIndex::Timer.spec_as_u8()),
        r.outcome == Outcome::Resumed,
{
    TrapAction {
        output: Vec::new(),
        port_writes: pics.acknowledge(InterruptIndex::Timer.as_u8()),
        outcome: Outcome::Resumed,
    }
}

/// The keyboard line's routine, given the text of the key that the decoder
/// made of the scancode (empty when it made none): forward that text,
/// acknowledge the line, resume.
pub fn keyboard_handler(pics: &Controller, key_text: Vec<u8>) -> (r: TrapAction)
    ensures
        r.output@ == key_text@,
        r.port_writes@ == pics.ack_plan(InterruptIndex::Keyboard.spec_as_u8()),
        r.outcome == Outcome::Resumed,
{
    TrapAction {
        output: key_text,
        port_writes: pics.acknowledge(InterruptIndex::Keyboard.as_u8()),
        outcome: Outcome::Resumed,
    }
}

/// The start-up steps of this layer: load the vector table, remap the
/// controllers, and only then let hardware interrupts through.
pub open spec fn init_steps(pics: Controller) -> Seq<BootStep> {
    seq![BootStep::LoadVectorTable] + pics.init_plan().map_values(|w: PortWrite| BootStep::Port(w))
        + seq![BootStep::EnableInterrupts]
}

/// The start-up of this layer, to run after the descriptor table is
/// loaded: the vector table, and the steps that load it, remap the
/// controllers, and only then let hardware interrupts through.
pub fn init(pics: &Controller) -> (r: (VectorTable, Vec<BootStep>))
    ensures
        table_bindings(r.0@),
        r.1@ == init_steps(*pics),
{
    let table = VectorTable::build();
    let mut steps: Vec<BootStep> = Vec::new();
    steps.push(BootStep::LoadVectorTable);
    let writes = pics.initialize();
    let mut i: usize = 0;
    while i < writes.len()
        invariant
            i <= writes@.len(),
            steps@ == seq![BootStep::LoadVectorTable] + writes@.subrange(0, i as int).map_values(
                |w: PortWrite| BootStep::Port(w),
            ),
        decreases writes@.len() - i,
    {
        steps.push(BootStep::Port(writes[i]));
        i = i + 1;
        assert(steps@ =~= seq![BootStep::LoadVectorTable] + writes@.subrange(
            0,
            i as int,
        ).map_values(|w: PortWrite| BootStep::Port(w)));
    }
    steps.push(BootStep::EnableInterrupts);
    assert(writes@.subrange(0, writes@.len() as int) =~= writes@);
    assert(steps@ =~= init_steps(*pics));
    (table, steps)
}

/// The stack pointer that a handler bound by `entry` starts with: the
/// processor switches to the task state's stack `i` when the entry names
/// one, and otherwise stays on the interrupted stack.
pub open spec fn handler_stack_pointer(
    entry: VectorEntry,
    stack_table: Seq<u64>,
    interrupted_sp: u64,
) -> u64 {
    match entry.stack_index {
        Some(i) => stack_table[i as int],
        None => interrupted_sp,
    }
}

/// `low <= a < high`.
pub open spec fn within(a: int, low: int, high: int) -> bool {
    low <= a < high
}

/// Every vector bound to a diagnostic handler yields exactly one report,
/// which names the exception, and control returns to the interrupted code
/// unless the exception is a double fault, a machine check or a page fault.
pub proof fn lemma_diagnostic_vectors(vector: u8, frame: FaultContext, error_code: Option<u64>)
    requires
        spec_binding(vector).handler is Some,
        spec_binding(vector).handler->Some_0 is Exception,
    ensures
        ({
            let e = spec_binding(vector).handler->Some_0->Exception_0;
            &&& e.spec_vector() == vector
            &&& report_text(e.spec_name(), frame, error_code).len() > 0
            &&& (outcome_of(e.spec_recovery()) == Outcome::Halted <==> (e == Exception::DoubleFault
                || e == Exception::MachineCheck || e == Exception::PageFault))
        }),
{
    let e = spec_binding(vector).handler->Some_0->Exception_0;
    assert(e.spec_vector() == vector);
}

/// A divide error is reported and resumed, and a handler that then moves
/// the saved instruction pointer past the faulting instruction's length
/// resumes at the next instruction with every other field as it was.
pub proof fn lemma_divide_error_round_trip(frame: FaultContext, num_bytes: u64)
    requires
        can_advance(frame, num_bytes),
    ensures
        spec_binding(0).handler == Some(Handler::Exception(Exception::DivideError)),
        outcome_of(Exception::DivideError.spec_recovery()) == Outcome::Resumed,
        advanced(frame, num_bytes).instruction_pointer == frame.instruction_pointer + num_bytes,
        advanced(frame, num_bytes).code_segment == frame.code_segment,
        advanced(frame, num_bytes).cpu_flags == frame.cpu_flags,
        advanced(frame, num_bytes).stack_pointer == frame.stack_pointer,
        advanced(frame, num_bytes).stack_segment == frame.stack_segment,
{
}

/// A breakpoint is reported and resumed where the processor left off,
/// just after the breakpoint instruction, on the interrupted stack.
pub proof fn lemma_breakpoint_resumes(frame: FaultContext, stack_table: Seq<u64>)
    ensures
        spec_binding(3).handler == Some(Handler::Exception(Exception::Breakpoint)),
        outcome_of(Exception::Breakpoint.spec_recovery()) == Outcome::Resumed,
        handler_stack_pointer(spec_binding(3), stack_table, frame.stack_pointer)
            == frame.stack_pointer,
{
}

/// Whatever the interrupted stack pointer, the double-fault handler starts
/// on the top of the dedicated stack, and the bytes below that top that the
/// handler can use all lie in the dedicated region, away from any boot
/// stack that does not overlap it.
pub proof fn lemma_double_fault_stack(
    layout: DescriptorLayout,
    stack_start: u64,
    interrupted_sp: u64,
    boot_low: u64,
    boot_high: u64,
)
    requires
        stack_fits(stack_start),
        layout_ok(layout, stack_start),
        boot_high <= stack_start || stack_start + STACK_SIZE <= boot_low,
    ensures
        ({
            let sp = handler_stack_pointer(
                spec_binding(8),
                layout.task_state.interrupt_stack_table@,
                interrupted_sp,
            );
            &&& sp == stack_top(stack_start)
            &&& stack_start < sp <= stack_start + STACK_SIZE
            &&& forall|a: int| #[trigger] within(a, stack_start as int, sp as int) ==> !within(
                a,
                boot_low as int,
                boot_high as int,
            )
        }),
{
}

/// With the controllers at their standard bases, a kernel left idle only
/// sees timer interrupts, which print nothing and are acknowledged; each
/// keyboard interrupt forwards one character for a decoded ASCII key and is
/// acknowledged in the same way, so the line stays armed for the next key.
pub proof fn lemma_hardware_lines_rearmed(pics: Controller, c: char)
    requires
        pics.spec_primary_base() == PIC_1_OFFSET,
        pics.spec_secondary_base() == PIC_2_OFFSET,
        (c as u32) < 0x80,
    ensures
        spec_binding(PIC_1_OFFSET).handler == Some(Handler::Hardware(InterruptIndex::Timer)),
        spec_binding((PIC_1_OFFSET + 1) as u8).handler == Some(
            Handler::Hardware(InterruptIndex::Keyboard),
        ),
        pics.ack_plan(InterruptIndex::Timer.spec_as_u8()) == seq![
            port_write(PRIMARY_COMMAND, CMD_END_OF_INTERRUPT),
        ],
        pics.ack_plan(InterruptIndex::Keyboard.spec_as_u8()) == seq![
            port_write(PRIMARY_COMMAND, CMD_END_OF_INTERRUPT),
        ],
        spec_key_text(Some(DecodedKey::Unicode(c))) == seq![c as u8],
{
    let v = c as u32;
    assert(seq![c].drop_first() =~= Seq::<char>::empty());
    assert(encode_utf8(seq![c]) == encode_scalar(v) + encode_utf8(Seq::<char>::empty()));
    assert(encode_utf8(seq![c]) =~= encode_scalar(v));
    assert((v & 0x7F) as u8 == v as u8) by (bit_vector)
        requires
            v < 0x80,
    ;
    assert(encode_scalar(v) =~= seq![c as u8]);
}

} // verus!
