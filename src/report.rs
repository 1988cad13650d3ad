//! Text of the diagnostic that a fault handler sends to the output sink.
use vstd::prelude::*;
use vstd::string::StringSliceAdditionalSpecFns;
use crate::frame::FaultContext;
use crate::util::{decimal, push_decimal};

verus! {

/// The text that x86_64's pretty `Debug` (`{:#?}`) gives an interrupt stack
/// frame holding the fields of `f`.
pub uninterp spec fn frame_debug_of(f: FaultContext) -> Seq<u8>;

/// Relies on x86_64's `InterruptStackFrameValue::new` and its `Debug` impl,
/// whose pretty text is a function of the five fields. The addresses enter
/// through `VirtAddr::new_truncate`, which leaves canonical addresses (all
/// that the processor pushes) unchanged and never panics; the flags enter
/// through `RFlags::from_bits_retain`, which keeps every bit.
#[verifier::external_body]
fn frame_debug(f: &FaultContext) -> (r: Vec<u8>)
    ensures
        r@ == frame_debug_of(*f),
{
    let frame = x86_64::structures::idt::InterruptStackFrameValue::new(
        x86_64::VirtAddr::new_truncate(f.instruction_pointer),
        x86_64::registers::segmentation::SegmentSelector(f.code_segment),
        x86_64::registers::rflags::RFlags::from_bits_retain(f.cpu_flags),
        x86_64::VirtAddr::new_truncate(f.stack_pointer),
        x86_64::registers::segmentation::SegmentSelector(f.stack_segment),
    );
    format!("{:#?}", frame).into_bytes()
}

/// The error-code line, present only when there is a code.
pub open spec fn error_code_line(error_code: Option<u64>) -> Seq<u8> {
    match error_code {
        Some(c) => "Error code: ".spec_bytes() + decimal(c as nat) + seq![0x0au8],
        None => seq![],
    }
}

/// The whole diagnostic: `Exception <name>:`, the frame's debug text on
/// the lines after, and the error code when there is one.
pub open spec fn report_text(name: &str, f: FaultContext, error_code: Option<u64>) -> Seq<u8> {
    "Exception ".spec_bytes() + name.spec_bytes() + ":\n".spec_bytes() + frame_debug_of(f)
        + seq![0x0au8] + error_code_line(error_code)
}

/// Appends the bytes of `s` to `out`.
pub fn push_str(out: &mut Vec<u8>, s: &str)
    ensures
        final(out)@ == old(out)@ + s.spec_bytes(),
{
    out.extend_from_slice(s.as_bytes());
}

/// The diagnostic for a fault named `name` that left `frame` and, for the
/// vectors that push one, `error_code`.
pub fn exception_report(name: &str, frame: &FaultContext, error_code: Option<u64>) -> (r: Vec<u8>)
    ensures
        r@ == report_text(name, *frame, error_code),
{
    let mut out: Vec<u8> = Vec::new();
    push_str(&mut out, "Exception ");
    push_str(&mut out, name);
    push_str(&mut out, ":\n");
    let dump = frame_debug(frame);
    out.extend_from_slice(dump.as_slice());
    out.push(0x0a);
    let ghost body = out@;
    if let Some(code) = error_code {
        push_str(&mut out, "Error code: ");
        push_decimal(&mut out, code);
        out.push(0x0a);
    }
    assert(out@ =~= body + error_code_line(error_code));
    assert(out@ =~= report_text(name, *frame, error_code));
    out
}

} // verus!
