//! The text writer: a 25 x 80 grid of coloured characters that text is
//! written into on the bottom row, scrolling up a row at each line break.
use vstd::prelude::*;
use vstd::string::StringSliceAdditionalSpecFns;
use crate::vga::color::{Color, ColorCode};

verus! {

/// Rows of the screen.
pub const BUFFER_HEIGHT: usize = 25;

/// Columns of the screen.
pub const BUFFER_WIDTH: usize = 80;

/// Cells of the screen, row after row.
pub const CELL_COUNT: usize = BUFFER_HEIGHT * BUFFER_WIDTH;

/// What a byte that the screen cannot show is written as.
pub const INVALID_BYTE: u8 = 0xfe;

/// One cell of the screen.
#[derive(Debug, Clone, Copy, PartialEq, Eq, Structural)]
pub struct ScreenChar {
    pub ascii_character: u8,
    pub color_code: ColorCode,
}

/// The writer as a value: where the next character goes on the bottom row,
/// the current colour, the colour to go back to, and every cell.
pub struct ScreenState {
    pub column: int,
    pub color_code: ColorCode,
    pub previous_color_code: Option<ColorCode>,
    pub cells: Seq<ScreenChar>,
}

pub open spec fn blank(color_code: ColorCode) -> ScreenChar {
    ScreenChar { ascii_character: 0x20, color_code }
}

/// Index of the cell at `row`, `col`.
pub open spec fn cell_index(row: int, col: int) -> int {
    row * BUFFER_WIDTH + col
}

/// Every row moves up one, the top row is lost, the bottom row is blank in
/// the current colour, and writing starts again at column 0.
pub open spec fn spec_new_line(s: ScreenState) -> ScreenState {
    ScreenState {
        column: 0,
        cells: Seq::new(
            CELL_COUNT as nat,
            |j: int|
                if j < CELL_COUNT - BUFFER_WIDTH {
                    s.cells[j + BUFFER_WIDTH]
                } else {
                    blank(s.color_code)
                },
        ),
        ..s
    }
}

/// Row `row` blanked in the current colour.
pub open spec fn spec_clear_row(s: ScreenState, row: int) -> ScreenState {
    ScreenState {
        cells: Seq::new(
            CELL_COUNT as nat,
            |j: int|
                if cell_index(row, 0) <= j < cell_index(row, BUFFER_WIDTH as int) {
                    blank(s.color_code)
                } else {
                    s.cells[j]
                },
        ),
        ..s
    }
}

/// A line break starts a new line; any other byte goes at the current
/// column of the bottom row, after a line break if that row is full.
pub open spec fn spec_write_byte(s: ScreenState, byte: u8) -> ScreenState {
    if byte == 0x0a {
        spec_new_line(s)
    } else {
        let t = if s.column >= BUFFER_WIDTH {
            spec_new_line(s)
        } else {
            s
        };
        ScreenState {
            column: t.column + 1,
            cells: t.cells.update(
                cell_index(BUFFER_HEIGHT - 1, t.column),
                ScreenChar { ascii_character: byte, color_code: t.color_code },
            ),
            ..t
        }
    }
}

/// Printable ASCII and line breaks are kept; anything else becomes the
/// placeholder.
pub open spec fn screen_byte(b: u8) -> u8 {
    if (0x20 <= b && b <= 0x7e) || b == 0x0a {
        b
    } else {
        INVALID_BYTE
    }
}

/// The state after writing `bytes` one after the other.
pub open spec fn spec_write_bytes(s: ScreenState, bytes: Seq<u8>) -> ScreenState
    decreases bytes.len(),
{
    if bytes.len() == 0 {
        s
    } else {
        spec_write_byte(spec_write_bytes(s, bytes.drop_last()), screen_byte(bytes.last()))
    }
}

/// The current colour saved to go back to, and `color_code` made current.
pub open spec fn spec_set_color_code(s: ScreenState, color_code: ColorCode) -> ScreenState {
    ScreenState { color_code, previous_color_code: Some(s.color_code), ..s }
}

/// Back to the saved colour, if one was saved.
pub open spec fn spec_reset_color_code(s: ScreenState) -> ScreenState {
    match s.previous_color_code {
        Some(p) => ScreenState { color_code: p, previous_color_code: None, ..s },
        None => s,
    }
}

/// The byte shown for `b`.
pub fn to_screen_byte(b: u8) -> (r: u8)
    ensures
        r == screen_byte(b),
{
    if (0x20 <= b && b <= 0x7e) || b == 0x0a {
        b
    } else {
        INVALID_BYTE
    }
}

/// Writes text into the screen's cells.
pub struct Writer {
    column_position: usize,
    color_code: ColorCode,
    previous_color_code: Option<ColorCode>,
    buffer: Vec<ScreenChar>,
}

impl View for Writer {
    type V = ScreenState;

    closed spec fn view(&self) -> ScreenState {
        ScreenState {
            column: self.column_position as int,
            color_code: self.color_code,
            previous_color_code: self.previous_color_code,
            cells: self.buffer@,
        }
    }
}

impl Writer {
    /// The grid has all its cells and the column is on the screen or just
    /// past its right edge.
    pub closed spec fn inv(&self) -> bool {
        self.buffer@.len() == CELL_COUNT && self.column_position <= BUFFER_WIDTH
    }

    /// A blank screen in yellow on black, writing at column 0.
    pub fn new() -> (r: Writer)
        ensures
            r.inv(),
            r@.column == 0,
            r@.color_code == ColorCode::spec_new(Color::Yellow, Color::Black),
            r@.previous_color_code is None,
            r@.cells == Seq::new(CELL_COUNT as nat, |j: int| blank(r@.color_code)),
    {
        let color_code = ColorCode::new(Color::Yellow, Color::Black);
        let mut buffer: Vec<ScreenChar> = Vec::new();
        let mut i: usize = 0;
        while i < CELL_COUNT
            invariant
                i <= CELL_COUNT,
                buffer@.len() == i,
                forall|j: int| 0 <= j < i ==> #[trigger] buffer@[j] == blank(color_code),
            decreases CELL_COUNT - i,
        {
            buffer.push(ScreenChar { ascii_character: 0x20, color_code });
            i = i + 1;
        }
        let r = Writer { column_position: 0, color_code, previous_color_code: None, buffer };
        assert(r@.cells =~= Seq::new(CELL_COUNT as nat, |j: int| blank(r@.color_code)));
        r
    }

    /// The current colour.
    pub fn color_code(&self) -> (r: ColorCode)
        ensures
            r == self@.color_code,
    {
        self.color_code
    }

    /// The colour that `reset_color_code` goes back to, if any.
    pub fn previous_color_code(&self) -> (r: Option<ColorCode>)
        ensures
            r == self@.previous_color_code,
    {
        self.previous_color_code
    }

    /// The column where the next character goes.
    pub fn column_position(&self) -> (r: usize)
        requires
            self.inv(),
        ensures
            r == self@.column,
            r <= BUFFER_WIDTH,
    {
        self.column_position
    }

    /// The cell at `row`, `col`.
    pub fn char_at(&self, row: usize, col: usize) -> (r: ScreenChar)
        requires
            self.inv(),
            row < BUFFER_HEIGHT,
            col < BUFFER_WIDTH,
        ensures
            r == self@.cells[cell_index(row as int, col as int)],
    {
        self.buffer[row * BUFFER_WIDTH + col]
    }

    /// Writes the bytes of `s`, each unprintable one as the placeholder.
    pub fn write_string(&mut self, s: &str)
        requires
            old(self).inv(),
        ensures
            final(self).inv(),
            final(self)@ == spec_write_bytes(old(self)@, s.spec_bytes()),
    {
        self.write_bytes(s.as_bytes());
    }

    /// Writes `bytes`, each unprintable one as the placeholder.
    pub fn write_bytes(&mut self, bytes: &[u8])
        requires
            old(self).inv(),
        ensures
            final(self).inv(),
            final(self)@ == spec_write_bytes(old(self)@, bytes@),
    {
        let ghost start = self@;
        let mut i: usize = 0;
        while i < bytes.len()
            invariant
                i <= bytes@.len(),
                self.inv(),
                self@ == spec_write_bytes(start, bytes@.take(i as int)),
            decreases bytes@.len() - i,
        {
            let b = to_screen_byte(bytes[i]);
            self.write_byte(b);
            proof {
                assert(bytes@.take(i + 1).drop_last() =~= bytes@.take(i as int));
            }
            i = i + 1;
        }
        assert(bytes@.take(bytes@.len() as int) =~= bytes@);
    }

    /// Writes one byte as it is: a line break starts a new line, anything
    /// else goes at the current column.
    pub fn write_byte(&mut self, byte: u8)
        requires
            old(self).inv(),
        ensures
            final(self).inv(),
            final(self)@ == spec_write_byte(old(self)@, byte),
    {
        if byte == 0x0a {
            self.new_line();
        } else {
            if self.column_position >= BUFFER_WIDTH {
                self.new_line();
            }
            let row = BUFFER_HEIGHT - 1;
            let col = self.column_position;
            let color_code = self.color_code;
            self.buffer.set(row * BUFFER_WIDTH + col, ScreenChar { ascii_character: byte, color_code });
            self.column_position = col + 1;
        }
    }

    /// Moves every row up one and starts a blank bottom row.
    pub fn new_line(&mut self)
        requires
            old(self).inv(),
        ensures
            final(self).inv(),
            final(self)@ == spec_new_line(old(self)@),
    {
        let ghost cells = self.buffer@;
        let mut i: usize = 0;
        while i < CELL_COUNT - BUFFER_WIDTH
            invariant
                i <= CELL_COUNT - BUFFER_WIDTH,
                self.buffer@.len() == CELL_COUNT,
                cells.len() == CELL_COUNT,
                self.column_position <= BUFFER_WIDTH,
                self.color_code == old(self).color_code,
                self.previous_color_code == old(self).previous_color_code,
                forall|j: int| 0 <= j < i ==> #[trigger] self.buffer@[j] == cells[j + BUFFER_WIDTH],
                forall|j: int| i <= j < CELL_COUNT ==> #[trigger] self.buffer@[j] == cells[j],
            decreases CELL_COUNT - BUFFER_WIDTH - i,
        {
            let c = self.buffer[i + BUFFER_WIDTH];
            self.buffer.set(i, c);
            i = i + 1;
        }
        self.clear_row(BUFFER_HEIGHT - 1);
        self.column_position = 0;
        assert(self@.cells =~= spec_new_line(old(self)@).cells);
    }

    /// Blanks row `row` in the current colour.
    pub fn clear_row(&mut self, row: usize)
        requires
            old(self).inv(),
            row < BUFFER_HEIGHT,
        ensures
            final(self).inv(),
            final(self)@ == spec_clear_row(old(self)@, row as int),
    {
        let blank_char = ScreenChar { ascii_character: 0x20, color_code: self.color_code };
        let ghost cells = self.buffer@;
        let mut col: usize = 0;
        while col < BUFFER_WIDTH
            invariant
                col <= BUFFER_WIDTH,
                row < BUFFER_HEIGHT,
                self.buffer@.len() == CELL_COUNT,
                cells.len() == CELL_COUNT,
                self.column_position == old(self).column_position,
                self.column_position <= BUFFER_WIDTH,
                self.color_code == old(self).color_code,
                self.previous_color_code == old(self).previous_color_code,
                blank_char == blank(self.color_code),
                forall|j: int|
                    0 <= j < CELL_COUNT ==> #[trigger] self.buffer@[j] == if cell_index(row as int, 0)
                        <= j < cell_index(row as int, col as int) {
                        blank_char
                    } else {
                        cells[j]
                    },
            decreases BUFFER_WIDTH - col,
        {
            self.buffer.set(row * BUFFER_WIDTH + col, blank_char);
            col = col + 1;
        }
        assert(self@.cells =~= spec_clear_row(old(self)@, row as int).cells);
    }

    /// Makes `color_code` current, remembering the colour it replaces.
    pub fn set_color_code(&mut self, color_code: ColorCode)
        requires
            old(self).inv(),
        ensures
            final(self).inv(),
            final(self)@ == spec_set_color_code(old(self)@, color_code),
    {
        self.previous_color_code = Some(self.color_code);
        self.color_code = color_code;
    }

    /// Goes back to the remembered colour, if there is one.
    pub fn reset_color_code(&mut self)
        requires
            old(self).inv(),
        ensures
            final(self).inv(),
            final(self)@ == spec_reset_color_code(old(self)@),
    {
        if let Some(previous_color_code) = self.previous_color_code {
            self.color_code = previous_color_code;
            self.previous_color_code = None;
        }
    }

    /// Opens a colour scope: makes `color_code` current when one is given.
    /// The scope ends with `reset_color_code`.
    pub fn color_scope(&mut self, color_code: Option<ColorCode>)
        requires
            old(self).inv(),
        ensures
            final(self).inv(),
            final(self)@ == match color_code {
                Some(c) => spec_set_color_code(old(self)@, c),
                None => old(self)@,
            },
    {
        if let Some(color_code) = color_code {
            self.set_color_code(color_code);
        }
    }
}

} // verus!
