//! The VGA text screen: 25 rows of 80 cells, a cursor and a colour.
//!
//! The writer keeps the screen as a value. The platform shows it by copying
//! the cells, row after row, to the text buffer of the adapter.

use vstd::prelude::*;
use vstd::string::StringSliceAdditionalSpecFns;

verus! {

/// Cells in a row.
pub const VGA_WIDTH: usize = 80;

/// Rows on the screen.
pub const VGA_HEIGHT: usize = 25;

/// Cells on the screen.
pub const VGA_CELLS: usize = 2000;

/// Physical address of the text buffer of the adapter.
pub const VGA_BUFFER_ADDR: usize = 0xB8000;

/// The byte shown in place of one that cannot be printed.
pub const UNPRINTABLE: u8 = 0xfe;

/// The sixteen colours of the text mode.
#[derive(Debug, Clone, Copy, PartialEq, Eq, Structural)]
pub enum Color {
    /// Colour 0.
    Black,
    /// Colour 1.
    Blue,
    /// Colour 2.
    Green,
    /// Colour 3.
    Cyan,
    /// Colour 4.
    Red,
    /// Colour 5.
    Magenta,
    /// Colour 6.
    Brown,
    /// Colour 7.
    LightGray,
    /// Colour 8.
    DarkGray,
    /// Colour 9.
    LightBlue,
    /// Colour 10.
    LightGreen,
    /// Colour 11.
    LightCyan,
    /// Colour 12.
    LightRed,
    /// Colour 13.
    Pink,
    /// Colour 14.
    Yellow,
    /// Colour 15.
    White,
}

impl Color {
    /// The number of the colour, 0 to 15.
    pub open spec fn code_of(self) -> u8 {
        match self {
            Color::Black => 0,
            Color::Blue => 1,
            Color::Green => 2,
            Color::Cyan => 3,
            Color::Red => 4,
            Color::Magenta => 5,
            Color::Brown => 6,
            Color::LightGray => 7,
            Color::DarkGray => 8,
            Color::LightBlue => 9,
            Color::LightGreen => 10,
            Color::LightCyan => 11,
            Color::LightRed => 12,
            Color::Pink => 13,
            Color::Yellow => 14,
            Color::White => 15,
        }
    }

    /// The number of the colour, 0 to 15.
    pub fn code(self) -> (r: u8)
        ensures
            r == self.code_of(),
            r < 16,
    {
        match self {
            Color::Black => 0,
            Color::Blue => 1,
            Color::Green => 2,
            Color::Cyan => 3,
            Color::Red => 4,
            Color::Magenta => 5,
            Color::Brown => 6,
            Color::LightGray => 7,
            Color::DarkGray => 8,
            Color::LightBlue => 9,
            Color::LightGreen => 10,
            Color::LightCyan => 11,
            Color::LightRed => 12,
            Color::Pink => 13,
            Color::Yellow => 14,
            Color::White => 15,
        }
    }
}

/// A foreground and a background colour in one byte: the background in the
/// upper four bits, the foreground in the lower four.
#[derive(Debug, Clone, Copy, PartialEq, Eq, Structural)]
pub struct ColorCode(u8);

impl View for ColorCode {
    type V = u8;

    closed spec fn view(&self) -> u8 {
        self.0
    }
}

impl ColorCode {
    /// The colour code with the byte `bits`, as a specification term.
    pub closed spec fn of(bits: u8) -> ColorCode {
        ColorCode(bits)
    }

    /// `of` is the inverse of the view.
    pub broadcast proof fn lemma_of_view(bits: u8)
        ensures
            (#[trigger] ColorCode::of(bits))@ == bits,
    {
    }

    /// The code of `foreground` on `background`.
    pub fn new(foreground: Color, background: Color) -> (r: ColorCode)
        ensures
            r@ == background.code_of() * 16 + foreground.code_of(),
            r == ColorCode::of((background.code_of() * 16 + foreground.code_of()) as u8),
    {
        let b = background.code();
        let f = foreground.code();
        assert((b << 4) | f == b * 16 + f) by (bit_vector)
            requires
                b < 16,
                f < 16,
        ;
        ColorCode((b << 4) | f)
    }

    /// The byte of the code.
    pub fn bits(self) -> (r: u8)
        ensures
            r == self@,
    {
        self.0
    }
}

/// One cell of the screen.
#[derive(Debug, Clone, Copy, PartialEq, Eq, Structural)]
pub struct ScreenChar {
    /// The character, in code page 437.
    pub ascii_character: u8,
    /// Its colours.
    pub color_code: ColorCode,
}

/// The screen as a value: its cells row after row, the cursor, and the
/// colour in which the next character is written.
pub struct Screen {
    /// The 2000 cells, row after row.
    pub cells: Seq<ScreenChar>,
    /// Row of the cursor.
    pub row: int,
    /// Column of the cursor; 80 when the row is full.
    pub column: int,
    /// Colour of what is written next.
    pub color: ColorCode,
}

impl Screen {
    /// There are 2000 cells and the cursor is on the screen.
    pub open spec fn wf(self) -> bool {
        self.cells.len() == 2000 && 0 <= self.row < 25 && 0 <= self.column <= 80
    }

    /// A blank cell in the colour of the screen.
    pub open spec fn blank(self) -> ScreenChar {
        ScreenChar { ascii_character: 0x20, color_code: self.color }
    }

    /// The screen after a line break: the cursor goes to the start of the
    /// next row; on the last row the rows move up by one instead, the top
    /// row is lost and the last row is blank.
    pub open spec fn new_line(self) -> Screen {
        if self.row >= 24 {
            Screen {
                cells: self.cells.subrange(80, 2000) + Seq::new(80, |i: int| self.blank()),
                column: 0,
                ..self
            }
        } else {
            Screen { row: self.row + 1, column: 0, ..self }
        }
    }

    /// The screen after `byte` was written: a line feed breaks the line; any
    /// other byte goes to the cell under the cursor, after a line break where
    /// the row is full, and the cursor moves on.
    pub open spec fn put(self, byte: u8) -> Screen {
        if byte == 0x0A {
            self.new_line()
        } else {
            let at = if self.column >= 80 {
                self.new_line()
            } else {
                self
            };
            Screen {
                cells: at.cells.update(
                    at.row * 80 + at.column,
                    ScreenChar { ascii_character: byte, color_code: self.color },
                ),
                column: at.column + 1,
                ..at
            }
        }
    }

    /// What is written for `byte` of a string: the byte itself where it is
    /// printable ASCII or a line feed, a block else.
    pub open spec fn printable(byte: u8) -> u8 {
        if (0x20 <= byte <= 0x7e) || byte == 0x0A {
            byte
        } else {
            UNPRINTABLE
        }
    }

    /// The screen after the bytes of a string were written.
    pub open spec fn put_all(self, bytes: Seq<u8>) -> Screen
        decreases bytes.len(),
    {
        if bytes.len() == 0 {
            self
        } else {
            self.put_all(bytes.drop_last()).put(Self::printable(bytes.last()))
        }
    }

    /// The screen with every cell blank and the cursor at the top left.
    pub open spec fn cleared(self) -> Screen {
        Screen { cells: Seq::new(2000, |i: int| self.blank()), row: 0, column: 0, ..self }
    }

    /// `new_line` keeps a screen well formed.
    pub proof fn lemma_new_line_wf(self)
        requires
            self.wf(),
        ensures
            self.new_line().wf(),
            self.new_line().column == 0,
            self.new_line().color == self.color,
    {
    }

    /// `put` keeps a screen well formed.
    pub proof fn lemma_put_wf(self, byte: u8)
        requires
            self.wf(),
        ensures
            self.put(byte).wf(),
            self.put(byte).color == self.color,
    {
        self.lemma_new_line_wf();
    }

    /// `put_all` keeps a screen well formed.
    pub proof fn lemma_put_all_wf(self, bytes: Seq<u8>)
        requires
            self.wf(),
        ensures
            self.put_all(bytes).wf(),
            self.put_all(bytes).color == self.color,
        decreases bytes.len(),
    {
        if bytes.len() > 0 {
            self.lemma_put_all_wf(bytes.drop_last());
            self.put_all(bytes.drop_last()).lemma_put_wf(Self::printable(bytes.last()));
        }
    }
}

/// The writer of the screen.
pub struct VgaWriter {
    column: usize,
    row: usize,
    color_code: ColorCode,
    buffer: Vec<ScreenChar>,
}

impl View for VgaWriter {
    type V = Screen;

    closed spec fn view(&self) -> Screen {
        Screen {
            cells: self.buffer@,
            row: self.row as int,
            column: self.column as int,
            color: self.color_code,
        }
    }
}

impl VgaWriter {
    /// The screen is well formed.
    pub open spec fn wf(self) -> bool {
        self@.wf()
    }

    /// A blank screen, white on black, with the cursor at the top left.
    pub fn new() -> (r: Self)
        ensures
            r.wf(),
            r@.row == 0,
            r@.column == 0,
            r@.color@ == 15,
            r@.cells == Seq::new(2000, |i: int| r@.blank()),
    {
        let color_code = ColorCode::new(Color::White, Color::Black);
        let blank = ScreenChar { ascii_character: 0x20, color_code };
        let mut buffer: Vec<ScreenChar> = Vec::new();
        let mut i: usize = 0;
        while i < VGA_CELLS
            invariant
                i <= 2000,
                buffer@.len() == i,
                forall|j: int| 0 <= j < i ==> buffer@[j] == blank,
            decreases 2000 - i,
        {
            buffer.push(blank);
            i += 1;
        }
        let r = Self { column: 0, row: 0, color_code, buffer };
        assert(r@.cells =~= Seq::new(2000, |i: int| r@.blank()));
        r
    }

    /// The cells of the screen, row after row.
    pub fn cells(&self) -> (r: &Vec<ScreenChar>)
        ensures
            r@ == self@.cells,
    {
        &self.buffer
    }

    /// Row and column of the cursor.
    pub fn cursor(&self) -> (r: (usize, usize))
        ensures
            r.0 == self@.row,
            r.1 == self@.column,
    {
        (self.row, self.column)
    }

    /// Sets the colours of what is written from now on.
    pub fn set_color(&mut self, foreground: Color, background: Color)
        ensures
            final(self)@ == (Screen {
                color: ColorCode::of((background.code_of() * 16 + foreground.code_of()) as u8),
                ..old(self)@
            }),
    {
        self.color_code = ColorCode::new(foreground, background);
    }

    /// Blanks the row `row` in the current colour.
    fn clear_row(&mut self, row: usize)
        requires
            old(self).wf(),
            row < 25,
        ensures
            final(self)@ == (Screen {
                cells: old(self)@.cells.subrange(0, row * 80) + Seq::new(
                    80,
                    |i: int| old(self)@.blank(),
                ) + old(self)@.cells.subrange(row * 80 + 80, 2000),
                ..old(self)@
            }),
    {
        let blank = ScreenChar { ascii_character: 0x20, color_code: self.color_code };
        let mut col: usize = 0;
        while col < VGA_WIDTH
            invariant
                col <= 80,
                row < 25,
                self.buffer@.len() == 2000,
                self.row == old(self).row,
                self.column == old(self).column,
                self.color_code == old(self).color_code,
                blank == old(self)@.blank(),
                forall|j: int|
                    0 <= j < 2000 ==> self.buffer@[j] == if row * 80 <= j < row * 80 + col {
                        blank
                    } else {
                        old(self).buffer@[j]
                    },
            decreases 80 - col,
        {
            self.buffer[row * VGA_WIDTH + col] = blank;
            col += 1;
        }
        assert(self@.cells =~= old(self)@.cells.subrange(0, row * 80) + Seq::new(
            80,
            |i: int| old(self)@.blank(),
        ) + old(self)@.cells.subrange(row * 80 + 80, 2000));
    }

    /// Breaks the line.
    fn new_line(&mut self)
        requires
            old(self).wf(),
        ensures
            final(self)@ == old(self)@.new_line(),
            final(self).wf(),
    {
        if self.row >= VGA_HEIGHT - 1 {
            let mut i: usize = VGA_WIDTH;
            while i < VGA_CELLS
                invariant
                    80 <= i <= 2000,
                    self.buffer@.len() == 2000,
                    self.row == old(self).row,
                    self.column == old(self).column,
                    self.color_code == old(self).color_code,
                    forall|j: int|
                        0 <= j < 2000 ==> self.buffer@[j] == if j < i - 80 {
                            old(self).buffer@[j + 80]
                        } else {
                            old(self).buffer@[j]
                        },
                decreases 2000 - i,
            {
                let cell = self.buffer[i];
                self.buffer[i - VGA_WIDTH] = cell;
                i += 1;
            }
            self.clear_row(VGA_HEIGHT - 1);
            self.column = 0;
            assert(self@.cells =~= old(self)@.new_line().cells);
        } else {
            self.row += 1;
            self.column = 0;
        }
    }

    /// Writes `byte` at the cursor; a line feed breaks the line.
    pub fn write_byte(&mut self, byte: u8)
        requires
            old(self).wf(),
        ensures
            final(self)@ == old(self)@.put(byte),
            final(self).wf(),
    {
        proof {
            old(self)@.lemma_put_wf(byte);
        }
        if byte == 0x0A {
            self.new_line();
        } else {
            if self.column >= VGA_WIDTH {
                self.new_line();
            }
            let row = self.row;
            let col = self.column;
            self.buffer[row * VGA_WIDTH + col] = ScreenChar {
                ascii_character: byte,
                color_code: self.color_code,
            };
            self.column += 1;
        }
    }

    /// Writes the bytes of `s`; a byte that is neither printable ASCII nor a
    /// line feed is shown as a block.
    pub fn write_string(&mut self, s: &str)
        requires
            old(self).wf(),
        ensures
            final(self)@ == old(self)@.put_all(s.spec_bytes()),
            final(self).wf(),
    {
        let bytes = s.as_bytes();
        let mut i: usize = 0;
        assert(bytes@.take(0) =~= Seq::<u8>::empty());
        while i < bytes.len()
            invariant
                i <= bytes@.len(),
                self.wf(),
                self@ == old(self)@.put_all(bytes@.take(i as int)),
            decreases bytes@.len() - i,
        {
            let byte = bytes[i];
            assert(bytes@.take(i + 1).drop_last() =~= bytes@.take(i as int));
            if (byte >= 0x20 && byte <= 0x7e) || byte == 0x0A {
                self.write_byte(byte);
            } else {
                self.write_byte(UNPRINTABLE);
            }
            i += 1;
        }
        assert(bytes@.take(i as int) =~= bytes@);
    }

    /// Moves the cursor to `row` and `col` and writes `s` there. A position
    /// off the screen is ignored, and nothing is written.
    pub fn write_at(&mut self, s: &str, row: usize, col: usize)
        requires
            old(self).wf(),
        ensures
            final(self).wf(),
            final(self)@ == if row >= 25 || col >= 80 {
                old(self)@
            } else {
                (Screen { row: row as int, column: col as int, ..old(self)@ }).put_all(
                    s.spec_bytes(),
                )
            },
    {
        if row >= VGA_HEIGHT || col >= VGA_WIDTH {
            return ;
        }
        self.row = row;
        self.column = col;
        self.write_string(s);
    }

    /// Blanks the screen in the current colour and moves the cursor to the
    /// top left.
    pub fn clear_screen(&mut self)
        requires
            old(self).wf(),
        ensures
            final(self).wf(),
            final(self)@ == old(self)@.cleared(),
    {
        let mut row: usize = 0;
        while row < VGA_HEIGHT
            invariant
                row <= 25,
                self.wf(),
                self.row == old(self).row,
                self.column == old(self).column,
                self.color_code == old(self).color_code,
                forall|j: int|
                    0 <= j < 2000 ==> self.buffer@[j] == if j < row * 80 {
                        old(self)@.blank()
                    } else {
                        old(self).buffer@[j]
                    },
            decreases 25 - row,
        {
            self.clear_row(row);
            row += 1;
        }
        self.row = 0;
        self.column = 0;
        assert(self@.cells =~= old(self)@.cleared().cells);
    }
}

/// The column at which a text of `len` bytes starts so that it ends at the
/// right edge; 0 where it is longer than a row.
pub open spec fn right_aligned(len: int) -> int {
    if len >= 80 {
        0
    } else {
        80 - len
    }
}

/// Writes `msg` into the top row so that it ends at the right edge, for
/// diagnostics during boot. A text longer than a row starts at the left edge
/// and runs on; an empty one changes nothing.
pub fn write_diagnostic(writer: &mut VgaWriter, msg: &str)
    requires
        old(writer).wf(),
    ensures
        final(writer).wf(),
        final(writer)@ == if msg.spec_bytes().len() == 0 {
            old(writer)@
        } else {
            (Screen {
                row: 0,
                column: right_aligned(msg.spec_bytes().len() as int),
                ..old(writer)@
            }).put_all(msg.spec_bytes())
        },
{
    let len = msg.as_bytes().len();
    let col = if len >= VGA_WIDTH {
        0
    } else {
        VGA_WIDTH - len
    };
    writer.write_at(msg, 0, col);
}

} // verus!
