//! The text-mode screen: colours and the writer that fills the screen.
pub mod color;
pub mod writer;

use vstd::prelude::*;
use crate::vga::color::{Color, ColorCode};
use crate::vga::writer::{spec_reset_color_code, spec_set_color_code, spec_write_bytes, Writer};

verus! {

/// The colour of error output: red on black.
pub open spec fn error_color_code() -> ColorCode {
    ColorCode::spec_new(Color::Red, Color::Black)
}

/// Writes `text`, then drops any colour set for this one output.
pub fn print_bytes(writer: &mut Writer, text: &[u8])
    requires
        old(writer).inv(),
    ensures
        final(writer).inv(),
        final(writer)@ == spec_reset_color_code(spec_write_bytes(old(writer)@, text@)),
{
    writer.write_bytes(text);
    writer.reset_color_code();
}

/// Writes `text` in the error colour, then goes back to the colour before.
pub fn eprint_bytes(writer: &mut Writer, text: &[u8])
    requires
        old(writer).inv(),
    ensures
        final(writer).inv(),
        final(writer)@ == spec_reset_color_code(
            spec_write_bytes(spec_set_color_code(old(writer)@, error_color_code()), text@),
        ),
{
    set_error_color_code(writer);
    print_bytes(writer, text);
}

/// Makes the error colour current.
pub fn set_error_color_code(writer: &mut Writer)
    requires
        old(writer).inv(),
    ensures
        final(writer).inv(),
        final(writer)@ == spec_set_color_code(old(writer)@, error_color_code()),
{
    let color_code = ColorCode::new(Color::Red, Color::Black);
    writer.set_color_code(color_code);
}

} // verus!
