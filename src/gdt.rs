//! The descriptor table, the task state and the stack reserved for double
//! faults.
use vstd::prelude::*;
use crate::addr::{is_canonical, offset_address};
use crate::boot::BootStep;

verus! {

/// Index, in the task state's stack table, of the double-fault stack.
pub const DOUBLE_FAULT_IST_INDEX: u16 = 0;

/// Size in bytes of the stack reserved for the double-fault handler.
pub const STACK_SIZE: u64 = 4096 * 5;

/// Number of entries of the task state's interrupt stack table.
pub const IST_ENTRIES: usize = 7;

/// Descriptor-table slot of the kernel code segment.
pub const CODE_INDEX: u16 = 1;

/// Descriptor-table slot of the task-state descriptor (it takes two slots).
pub const TSS_INDEX: u16 = 2;

/// The value that x86_64 gives a 64-bit kernel code segment descriptor.
pub const KERNEL_CODE64: u64 = 0x00af_9b00_0000_ffff;

/// Relies on x86_64's `Descriptor::kernel_code_segment`, which returns the
/// user-segment descriptor `DescriptorFlags::KERNEL_CODE64`, whose bits the
/// crate's own tests fix at `0x00af9b000000ffff`.
#[verifier::external_body]
fn kernel_code_descriptor() -> (r: u64)
    ensures
        r == KERNEL_CODE64,
{
    match x86_64::structures::gdt::Descriptor::kernel_code_segment() {
        x86_64::structures::gdt::Descriptor::UserSegment(bits) => bits,
        x86_64::structures::gdt::Descriptor::SystemSegment(low, _) => low,
    }
}

/// Bit `i` of `d` is set.
pub open spec fn bit(d: u64, i: u64) -> bool {
    (d >> i) & 1 == 1
}

/// `d` describes a present 64-bit code segment of privilege level 0: the
/// present (47), code/data (44), executable (43) and long-mode (53) bits are
/// set, the default-size bit (54) is clear, and the privilege field (45-46)
/// is zero.
pub open spec fn is_kernel_code64(d: u64) -> bool {
    &&& bit(d, 47)
    &&& bit(d, 44)
    &&& bit(d, 43)
    &&& bit(d, 53)
    &&& !bit(d, 54)
    &&& (d >> 45) & 3 == 0
}

/// The selector of descriptor-table slot `index` requested at privilege
/// level `rpl`.
pub open spec fn spec_selector(index: u16, rpl: u16) -> u16 {
    (index * 8 + rpl) as u16
}

/// A segment selector: the slot index in bits 3-15, the requested privilege
/// level in bits 0-1 (bit 2, the local-table flag, is clear).
pub fn selector(index: u16, rpl: u16) -> (r: u16)
    requires
        index < 8192,
        rpl < 4,
    ensures
        r == spec_selector(index, rpl),
{
    index * 8 + rpl
}

/// Per-core state consulted on stack switches: the table of dedicated
/// stack tops.
#[derive(Debug, Clone, PartialEq, Eq)]
pub struct TaskState {
    pub interrupt_stack_table: Vec<u64>,
}

/// The one region that backs the double-fault stack, starting at `start`,
/// can be placed there: its end is a canonical address.
pub open spec fn stack_fits(start: u64) -> bool {
    start + STACK_SIZE <= u64::MAX && is_canonical((start + STACK_SIZE) as u64)
}

/// The top of the double-fault stack (stacks grow down).
pub open spec fn stack_top(start: u64) -> u64 {
    (start + STACK_SIZE) as u64
}

/// The stack table: the double-fault stack's top at index 0, nothing else.
pub open spec fn stack_table(start: u64) -> Seq<u64> {
    seq![stack_top(start), 0u64, 0u64, 0u64, 0u64, 0u64, 0u64]
}

/// The processor's segment and stack-switch set-up: where the double-fault
/// stack lies, the task state that points to it, and the kernel code
/// descriptor with the two selectors that `init` loads.
#[derive(Debug, Clone, PartialEq, Eq)]
pub struct DescriptorLayout {
    pub stack_start: u64,
    pub task_state: TaskState,
    pub code_descriptor: u64,
    pub code_selector: u16,
    pub tss_selector: u16,
}

/// The layout that `build` returns for a stack region at `start`.
pub open spec fn layout_ok(l: DescriptorLayout, start: u64) -> bool {
    &&& l.stack_start == start
    &&& l.task_state.interrupt_stack_table@ == stack_table(start)
    &&& l.code_descriptor == KERNEL_CODE64
    &&& l.code_selector == spec_selector(CODE_INDEX, 0)
    &&& l.tss_selector == spec_selector(TSS_INDEX, 0)
}

/// Builds the layout around a double-fault stack region of `STACK_SIZE`
/// bytes at `stack_start`. Fails only when the region's end would not be a
/// canonical address.
pub fn build(stack_start: u64) -> (r: Option<DescriptorLayout>)
    ensures
        r is Some <==> stack_fits(stack_start),
        r is Some ==> layout_ok(r->Some_0, stack_start),
        r is Some ==> is_kernel_code64(r->Some_0.code_descriptor),
        r is Some ==> r->Some_0.code_selector == 0x08 && r->Some_0.tss_selector == 0x10,
{
    let top = match offset_address(stack_start, STACK_SIZE) {
        Some(t) => t,
        None => {
            return None;
        },
    };
    let mut ist: Vec<u64> = Vec::new();
    ist.push(top);
    let mut i: usize = 1;
    while i < IST_ENTRIES
        invariant
            1 <= i <= IST_ENTRIES,
            ist@.len() == i,
            ist@[0] == top,
            forall|j: int| 1 <= j < i ==> ist@[j] == 0,
        decreases IST_ENTRIES - i,
    {
        ist.push(0);
        i = i + 1;
    }
    assert(ist@ =~= stack_table(stack_start));
    let code_descriptor = kernel_code_descriptor();
    assert(is_kernel_code64(KERNEL_CODE64)) by (bit_vector);
    Some(
        DescriptorLayout {
            stack_start,
            task_state: TaskState { interrupt_stack_table: ist },
            code_descriptor,
            code_selector: selector(CODE_INDEX, 0),
            tss_selector: selector(TSS_INDEX, 0),
        },
    )
}

/// The steps that install `layout`: load the descriptor table, reload the
/// code segment, load the task register.
pub open spec fn init_steps(layout: DescriptorLayout) -> Seq<BootStep> {
    seq![
        BootStep::LoadDescriptorTable,
        BootStep::SetCodeSegment(layout.code_selector),
        BootStep::LoadTaskRegister(layout.tss_selector),
    ]
}

/// The steps that install `layout`.
pub fn init(layout: &DescriptorLayout) -> (r: Vec<BootStep>)
    ensures
        r@ == init_steps(*layout),
{
    let mut steps: Vec<BootStep> = Vec::new();
    steps.push(BootStep::LoadDescriptorTable);
    steps.push(BootStep::SetCodeSegment(layout.code_selector));
    steps.push(BootStep::LoadTaskRegister(layout.tss_selector));
    assert(steps@ =~= init_steps(*layout));
    steps
}

} // verus!
