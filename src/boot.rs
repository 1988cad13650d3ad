//! The ordered start-up of the fault and interrupt layer.
use vstd::prelude::*;
use crate::gdt::{self, DescriptorLayout};
use crate::interrupts::{self, VectorTable};
use crate::pic::{Controller, PortWrite};

verus! {

/// One privileged step of start-up, carried out by the caller in order.
#[derive(Debug, Clone, Copy, PartialEq, Eq, Structural)]
pub enum BootStep {
    /// Load the descriptor table.
    LoadDescriptorTable,
    /// Reload the code-segment register with this selector.
    SetCodeSegment(u16),
    /// Load the task register with this selector.
    LoadTaskRegister(u16),
    /// Load the interrupt vector table.
    LoadVectorTable,
    /// Write one byte to one I/O port.
    Port(PortWrite),
    /// Let the processor deliver hardware interrupts.
    EnableInterrupts,
}

/// The whole start-up: install the descriptor table and task state, then
/// the vector table returned beside the steps, then remap the controllers,
/// and last let hardware interrupts through.
pub fn init(layout: &DescriptorLayout, pics: &Controller) -> (r: (VectorTable, Vec<BootStep>))
    ensures
        interrupts::table_bindings(r.0@),
        r.1@ == gdt::init_steps(*layout) + interrupts::init_steps(*pics),
        r.1@[0] == BootStep::LoadDescriptorTable,
        r.1@[3] == BootStep::LoadVectorTable,
        forall|i: int| 4 <= i < r.1@.len() - 1 ==> #[trigger] r.1@[i] is Port,
        r.1@.last() == BootStep::EnableInterrupts,
        forall|i: int| 0 <= i < r.1@.len() - 1 ==> #[trigger] r.1@[i] != BootStep::EnableInterrupts,
{
    let mut steps = gdt::init(layout);
    let (table, mut rest) = interrupts::init(pics);
    steps.append(&mut rest);
    let ghost s = steps@;
    assert forall|i: int| 4 <= i < s.len() - 1 implies #[trigger] s[i] is Port by {
        assert(s[i] == pics.init_plan().map_values(|w: PortWrite| BootStep::Port(w))[i - 4]);
    }
    assert forall|i: int| 0 <= i < s.len() - 1 implies #[trigger] s[i]
        != BootStep::EnableInterrupts by {
        if i >= 4 {
            assert(s[i] == pics.init_plan().map_values(|w: PortWrite| BootStep::Port(w))[i - 4]);
        }
    }
    (table, steps)
}

} // verus!
