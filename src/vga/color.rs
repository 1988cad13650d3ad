//! The sixteen text-mode colours and the attribute byte that pairs two.
use vstd::prelude::*;

verus! {

/// A text-mode colour, numbered 0 to 15 in declaration order.
#[derive(Debug, Clone, Copy, PartialEq, Eq, Structural)]
pub enum Color {
    Black,
    Blue,
    Green,
    Cyan,
    Red,
    Magenta,
    Brown,
    LightGray,
    DarkGray,
    LightBlue,
    LightGreen,
    LightCyan,
    LightRed,
    Pink,
    Yellow,
    White,
}

/// Number of colours.
pub const VARIANT_COUNT: usize = 16;

/// The colour numbered `n`, if there is one.
pub open spec fn color_of(n: u8) -> Option<Color> {
    if n == 0 {
        Some(Color::Black)
    } else if n == 1 {
        Some(Color::Blue)
    } else if n == 2 {
        Some(Color::Green)
    } else if n == 3 {
        Some(Color::Cyan)
    } else if n == 4 {
        Some(Color::Red)
    } else if n == 5 {
        Some(Color::Magenta)
    } else if n == 6 {
        Some(Color::Brown)
    } else if n == 7 {
        Some(Color::LightGray)
    } else if n == 8 {
        Some(Color::DarkGray)
    } else if n == 9 {
        Some(Color::LightBlue)
    } else if n == 10 {
        Some(Color::LightGreen)
    } else if n == 11 {
        Some(Color::LightCyan)
    } else if n == 12 {
        Some(Color::LightRed)
    } else if n == 13 {
        Some(Color::Pink)
    } else if n == 14 {
        Some(Color::Yellow)
    } else if n == 15 {
        Some(Color::White)
    } else {
        None
    }
}

impl Color {
    pub open spec fn spec_number(self) -> u8 {
        match self {
            Color::Black => 0,
            Color::Blue => 1,
            Color::Green => 2,
            Color::Cyan => 3,
            Color::Red => 4,
            Color::Magenta => 5,
            Color::Brown => 6,
            Color::LightGray => 7,
            Color::DarkGray => 8,
            Color::LightBlue => 9,
            Color::LightGreen => 10,
            Color::LightCyan => 11,
            Color::LightRed => 12,
            Color::Pink => 13,
            Color::Yellow => 14,
            Color::White => 15,
        }
    }

    /// The colour's number.
    pub fn number(&self) -> (r: u8)
        ensures
            r == self.spec_number(),
            r < 16,
            color_of(r) == Some(*self),
    {
        match self {
            Color::Black => 0,
            Color::Blue => 1,
            Color::Green => 2,
            Color::Cyan => 3,
            Color::Red => 4,
            Color::Magenta => 5,
            Color::Brown => 6,
            Color::LightGray => 7,
            Color::DarkGray => 8,
            Color::LightBlue => 9,
            Color::LightGreen => 10,
            Color::LightCyan => 11,
            Color::LightRed => 12,
            Color::Pink => 13,
            Color::Yellow => 14,
            Color::White => 15,
        }
    }

    /// The colour numbered `number`; an error above 15.
    pub fn try_from(number: u8) -> (r: Result<Color, ()>)
        ensures
            r is Ok <==> number < 16,
            r is Ok ==> Some(r->Ok_0) == color_of(number) && r->Ok_0.spec_number() == number,
    {
        match number {
            0 => Ok(Color::Black),
            1 => Ok(Color::Blue),
            2 => Ok(Color::Green),
            3 => Ok(Color::Cyan),
            4 => Ok(Color::Red),
            5 => Ok(Color::Magenta),
            6 => Ok(Color::Brown),
            7 => Ok(Color::LightGray),
            8 => Ok(Color::DarkGray),
            9 => Ok(Color::LightBlue),
            10 => Ok(Color::LightGreen),
            11 => Ok(Color::LightCyan),
            12 => Ok(Color::LightRed),
            13 => Ok(Color::Pink),
            14 => Ok(Color::Yellow),
            15 => Ok(Color::White),
            _ => Err(()),
        }
    }
}

/// An attribute byte: background colour in the high nibble, foreground in
/// the low one.
#[derive(Debug, Clone, Copy, PartialEq, Eq, Structural)]
pub struct ColorCode(u8);

impl ColorCode {
    /// The attribute byte.
    pub closed spec fn value(self) -> u8 {
        self.0
    }

    /// The attribute byte of `foreground` on `background`.
    pub closed spec fn spec_new(foreground: Color, background: Color) -> ColorCode {
        ColorCode((background.spec_number() * 16 + foreground.spec_number()) as u8)
    }

    pub open spec fn spec_foreground(self) -> Option<Color> {
        color_of(self.value() & 0xF)
    }

    pub open spec fn spec_background(self) -> Option<Color> {
        color_of(self.value() >> 4)
    }

    /// The attribute byte of `foreground` on `background`; both read back
    /// unchanged.
    pub fn new(foreground: Color, background: Color) -> (r: ColorCode)
        ensures
            r == ColorCode::spec_new(foreground, background),
            r.value() == background.spec_number() * 16 + foreground.spec_number(),
            r.spec_foreground() == Some(foreground),
            r.spec_background() == Some(background),
    {
        let f = foreground.number();
        let b = background.number();
        let v: u8 = b << 4 | f;
        assert(b << 4 | f == b * 16 + f && (b << 4 | f) & 0xF == f && (b << 4 | f) >> 4 == b)
            by (bit_vector)
            requires
                b < 16,
                f < 16,
        ;
        ColorCode(v)
    }

    /// The attribute byte.
    pub fn byte(&self) -> (r: u8)
        ensures
            r == self.value(),
    {
        self.0
    }

    /// The foreground colour.
    pub fn foreground(&self) -> (r: Option<Color>)
        ensures
            r == self.spec_foreground(),
    {
        let v = self.0;
        let n: u8 = v & 0xF;
        assert(v & 0xF < 16) by (bit_vector);
        match Color::try_from(n) {
            Ok(c) => Some(c),
            Err(_) => None,
        }
    }

    /// The background colour.
    pub fn background(&self) -> (r: Option<Color>)
        ensures
            r == self.spec_background(),
    {
        let v = self.0;
        let n: u8 = v >> 4;
        assert(v >> 4 < 16) by (bit_vector);
        match Color::try_from(n) {
            Ok(c) => Some(c),
            Err(_) => None,
        }
    }
}

} // verus!
