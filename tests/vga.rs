use ferocios::util::digit_width;
use ferocios::vga::color::{Color, ColorCode, VARIANT_COUNT};
use ferocios::vga::writer::{ScreenChar, Writer, BUFFER_HEIGHT, BUFFER_WIDTH};
use ferocios::vga::{eprint_bytes, print_bytes, set_error_color_code};
use ferocios::qemu::QemuExitCode;

const COLORS: [Color; 16] = [
    Color::Black,
    Color::Blue,
    Color::Green,
    Color::Cyan,
    Color::Red,
    Color::Magenta,
    Color::Brown,
    Color::LightGray,
    Color::DarkGray,
    Color::LightBlue,
    Color::LightGreen,
    Color::LightCyan,
    Color::LightRed,
    Color::Pink,
    Color::Yellow,
    Color::White,
];

#[allow(non_snake_case)]
#[test]
fn Color_entries_amount() {
    assert_eq!(16, VARIANT_COUNT);
}

#[allow(non_snake_case)]
#[test]
fn Color_number() {
    for (pos, value) in COLORS.iter().enumerate() {
        assert_eq!(value.number(), pos as u8);
    }
}

#[allow(non_snake_case)]
#[test]
fn Color_from() {
    for value in COLORS {
        assert_eq!(Color::try_from(value.number()), Ok(value));
    }
    assert!(Color::try_from((VARIANT_COUNT + 1) as u8).is_err());
    assert!(Color::try_from(16).is_err());
}

#[allow(non_snake_case)]
#[test]
fn ColorCode_foreground() {
    let fg = Color::Blue;
    let color_code = ColorCode::new(fg, Color::Brown);
    assert_eq!(color_code.foreground(), Some(fg));
}

#[allow(non_snake_case)]
#[test]
fn ColorCode_background() {
    let bg = Color::LightRed;
    let color_code = ColorCode::new(Color::Magenta, bg);
    assert_eq!(color_code.background(), Some(bg));
}

#[test]
fn color_code_byte_layout() {
    assert_eq!(ColorCode::new(Color::Yellow, Color::Black).byte(), 0x0e);
    assert_eq!(ColorCode::new(Color::White, Color::Blue).byte(), 0x1f);
}

#[test]
fn set_color_code() {
    let mut writer = Writer::new();
    let new_color = ColorCode::new(Color::Red, Color::Blue);
    assert_ne!(new_color, writer.color_code());
    writer.set_color_code(new_color);
    assert_eq!(writer.color_code(), new_color);
}

#[test]
fn retain_previous_color() {
    let mut writer = Writer::new();
    let previous = writer.color_code();
    let new_color = ColorCode::new(Color::Red, Color::Blue);
    assert_ne!(previous, new_color);
    writer.set_color_code(new_color);
    assert_eq!(writer.previous_color_code(), Some(previous));
    assert_eq!(writer.color_code(), new_color);

    let newer_color = ColorCode::new(Color::Cyan, Color::Pink);
    writer.set_color_code(newer_color);
    assert_eq!(writer.previous_color_code(), Some(new_color));
    assert_eq!(writer.color_code(), newer_color);
}

#[test]
fn reset_color_code() {
    let mut writer = Writer::new();
    let previous = writer.color_code();
    let new_color = ColorCode::new(Color::Red, Color::Blue);
    writer.set_color_code(new_color);
    assert_eq!(writer.previous_color_code(), Some(previous));
    writer.reset_color_code();
    assert_eq!(writer.previous_color_code(), None);
    assert_eq!(writer.color_code(), previous);
    writer.reset_color_code();
    assert_eq!(writer.color_code(), previous);
}

#[test]
fn color_scope() {
    let mut writer = Writer::new();
    let previous = writer.color_code();
    let new_color = ColorCode::new(Color::Red, Color::Blue);
    writer.color_scope(Some(new_color));
    assert_eq!(writer.color_code(), new_color);
    writer.reset_color_code();
    assert_eq!(writer.color_code(), previous);
    writer.color_scope(None);
    assert_eq!(writer.color_code(), previous);
}

#[test]
fn color_code() {
    let mut writer = Writer::new();
    let color_code = writer.color_code();
    writer.color_scope(None);
    assert_eq!(writer.color_code(), color_code);
}

#[test]
fn reset_on_drop() {
    let mut writer = Writer::new();
    let previous = writer.color_code();
    let new_color = ColorCode::new(Color::Red, Color::Blue);
    assert_ne!(previous, new_color);
    writer.set_color_code(new_color);
    writer.color_scope(None);
    writer.reset_color_code();
    assert_eq!(writer.color_code(), previous);
}

#[test]
fn write_string_fills_bottom_row() {
    let mut writer = Writer::new();
    writer.write_string("Hi\u{1}");
    let row = BUFFER_HEIGHT - 1;
    let color = writer.color_code();
    assert_eq!(writer.char_at(row, 0), ScreenChar { ascii_character: b'H', color_code: color });
    assert_eq!(writer.char_at(row, 1).ascii_character, b'i');
    assert_eq!(writer.char_at(row, 2).ascii_character, 0xfe);
    assert_eq!(writer.column_position(), 3);
}

#[test]
fn new_line_scrolls_up() {
    let mut writer = Writer::new();
    writer.write_string("ab\ncd");
    let row = BUFFER_HEIGHT - 1;
    assert_eq!(writer.char_at(row - 1, 0).ascii_character, b'a');
    assert_eq!(writer.char_at(row - 1, 1).ascii_character, b'b');
    assert_eq!(writer.char_at(row, 0).ascii_character, b'c');
    assert_eq!(writer.char_at(row, 2).ascii_character, b' ');
    assert_eq!(writer.column_position(), 2);
}

#[test]
fn full_row_wraps() {
    let mut writer = Writer::new();
    let line = "x".repeat(BUFFER_WIDTH);
    writer.write_string(&line);
    assert_eq!(writer.column_position(), BUFFER_WIDTH);
    writer.write_byte(b'y');
    let row = BUFFER_HEIGHT - 1;
    assert_eq!(writer.char_at(row - 1, BUFFER_WIDTH - 1).ascii_character, b'x');
    assert_eq!(writer.char_at(row, 0).ascii_character, b'y');
    assert_eq!(writer.column_position(), 1);
}

#[test]
fn clear_row_blanks_in_current_color() {
    let mut writer = Writer::new();
    writer.write_string("abc");
    let c = ColorCode::new(Color::Green, Color::Black);
    writer.set_color_code(c);
    writer.clear_row(BUFFER_HEIGHT - 1);
    assert_eq!(
        writer.char_at(BUFFER_HEIGHT - 1, 1),
        ScreenChar { ascii_character: b' ', color_code: c }
    );
}

#[test]
fn eprint_uses_error_color_then_restores() {
    let mut writer = Writer::new();
    let before = writer.color_code();
    eprint_bytes(&mut writer, b"no");
    let row = BUFFER_HEIGHT - 1;
    assert_eq!(writer.char_at(row, 0).color_code, ColorCode::new(Color::Red, Color::Black));
    assert_eq!(writer.color_code(), before);
    print_bytes(&mut writer, b"!");
    assert_eq!(writer.char_at(row, 2).color_code, before);
    set_error_color_code(&mut writer);
    assert_eq!(writer.color_code(), ColorCode::new(Color::Red, Color::Black));
}

#[test]
fn digit_width_counts_digits() {
    assert_eq!(1, digit_width(0));
    assert_eq!(1, digit_width(1));
    assert_eq!(2, digit_width(10));
    assert_eq!(3, digit_width(100));
    assert_eq!(4, digit_width(1000));
    assert_eq!(20, digit_width(usize::MAX));
}

#[test]
fn qemu_exit_codes() {
    assert_eq!(QemuExitCode::Success.code(), 0x10);
    assert_eq!(QemuExitCode::Failed.code(), 0x11);
}
