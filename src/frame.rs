//! The snapshot that the processor pushes when it traps.
use vstd::prelude::*;
use crate::addr::{is_canonical, offset_address};

verus! {

/// What the processor saved on the handler's stack: where the interrupted
/// code was, with which code segment and flags, and its stack.
#[derive(Debug, Clone, Copy, PartialEq, Eq, Structural)]
pub struct FaultContext {
    pub instruction_pointer: u64,
    pub code_segment: u16,
    pub cpu_flags: u64,
    pub stack_pointer: u64,
    pub stack_segment: u16,
}

/// The instruction pointer can be moved `num_bytes` forward: the sum does
/// not overflow and is a canonical address.
pub open spec fn can_advance(frame: FaultContext, num_bytes: u64) -> bool {
    frame.instruction_pointer + num_bytes <= u64::MAX && is_canonical(
        (frame.instruction_pointer + num_bytes) as u64,
    )
}

/// `frame` with its instruction pointer moved `num_bytes` forward.
pub open spec fn advanced(frame: FaultContext, num_bytes: u64) -> FaultContext {
    FaultContext { instruction_pointer: (frame.instruction_pointer + num_bytes) as u64, ..frame }
}

/// Moves the saved instruction pointer past a faulting instruction of
/// `num_bytes` bytes, so that the interrupted code resumes after it. The
/// new address must fit and be canonical.
pub fn incr_instruction_pointer(frame: &mut FaultContext, num_bytes: u64)
    requires
        can_advance(*old(frame), num_bytes),
    ensures
        *final(frame) == advanced(*old(frame), num_bytes),
{
    if let Some(ip) = offset_address(frame.instruction_pointer, num_bytes) {
        frame.instruction_pointer = ip;
    }
}

} // verus!
