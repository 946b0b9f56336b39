//! The text-mode screen: 25 rows of 80 cells, written at the bottom row and
//! scrolled upwards.

use vstd::prelude::*;
use vstd::string::StringSliceAdditionalSpecFns;

verus! {

/// The number of rows of the screen.
pub const BUFFER_HEIGHT: usize = 25;

/// The number of cells in a row.
pub const BUFFER_WIDTH: usize = 80;

/// The sixteen colours of the text mode.
#[derive(Debug, Clone, Copy, PartialEq, Eq, Structural)]
pub enum Color {
    Black,
    Blue,
    Green,
    Cyan,
    Red,
    Magenta,
    Brown,
    LightGray,
    DarkGray,
    LightBlue,
    LightGreen,
    LightCyan,
    LightRed,
    Pink,
    Yellow,
    White,
}

impl Color {
    /// The colour's number in the hardware palette.
    pub open spec fn spec_code(self) -> u8 {
        match self {
            Color::Black => 0,
            Color::Blue => 1,
            Color::Green => 2,
            Color::Cyan => 3,
            Color::Red => 4,
            Color::Magenta => 5,
            Color::Brown => 6,
            Color::LightGray => 7,
            Color::DarkGray => 8,
            Color::LightBlue => 9,
            Color::LightGreen => 10,
            Color::LightCyan => 11,
            Color::LightRed => 12,
            Color::Pink => 13,
            Color::Yellow => 14,
            Color::White => 15,
        }
    }

    /// The colour's number in the hardware palette.
    #[verifier::when_used_as_spec(spec_code)]
    pub fn code(self) -> (code: u8)
        ensures
            code == self.spec_code(),
            code < 16,
    {
        match self {
            Color::Black => 0,
            Color::Blue => 1,
            Color::Green => 2,
            Color::Cyan => 3,
            Color::Red => 4,
            Color::Magenta => 5,
            Color::Brown => 6,
            Color::LightGray => 7,
            Color::DarkGray => 8,
            Color::LightBlue => 9,
            Color::LightGreen => 10,
            Color::LightCyan => 11,
            Color::LightRed => 12,
            Color::Pink => 13,
            Color::Yellow => 14,
            Color::White => 15,
        }
    }
}

/// A foreground and a background colour in one byte: the background in the
/// high four bits, the foreground in the low four.
#[derive(Debug, Clone, Copy, PartialEq, Eq, Structural)]
pub struct ColorCode(pub u8);

impl ColorCode {
    /// The code of `foreground` on `background`.
    pub fn new(foreground: Color, background: Color) -> (code: ColorCode)
        ensures
            code.0 == (background.spec_code() << 4) | foreground.spec_code(),
    {
        let high = background.code();
        let low = foreground.code();
        ColorCode((high << 4) | low)
    }
}

/// One cell of the screen: a character and its colours.
#[derive(Debug, Clone, Copy, PartialEq, Eq, Structural)]
pub struct ScreenChar {
    /// The character, in the code page of the hardware.
    pub ascii_character: u8,
    /// The colours it is shown in.
    pub color_code: ColorCode,
}

/// The line break.
pub const LINE_BREAK: u8 = 0x0a;

/// The space, which fills a cleared row.
pub const SPACE: u8 = 0x20;

/// The block that stands for a byte that cannot be shown.
pub const UNPRINTABLE: u8 = 0xfe;

/// What a writer holds.
pub struct WriterView {
    /// The column of the bottom row that the next character goes to.
    pub column: usize,
    /// The colours of what is written from now on.
    pub color: ColorCode,
    /// The cells of the screen, by row from the top and by column.
    pub rows: Seq<Seq<ScreenChar>>,
}

impl WriterView {
    /// The screen has 25 rows of 80 cells.
    pub open spec fn wf(self) -> bool {
        &&& self.rows.len() == BUFFER_HEIGHT
        &&& forall|row: int|
            0 <= row < BUFFER_HEIGHT ==> (#[trigger] self.rows[row]).len() == BUFFER_WIDTH
    }

    /// A space in the writer's colours.
    pub open spec fn blank(self) -> ScreenChar {
        ScreenChar { ascii_character: SPACE, color_code: self.color }
    }

    /// A row of blanks.
    pub open spec fn blank_row(self) -> Seq<ScreenChar> {
        Seq::new(BUFFER_WIDTH as nat, |column: int| self.blank())
    }

    /// The writer after row `row` has been cleared.
    pub open spec fn clear_row(self, row: int) -> WriterView {
        WriterView { rows: self.rows.update(row, self.blank_row()), ..self }
    }

    /// The writer after a line break: every row has moved up by one, the
    /// top row is gone, the bottom row is blank and the next character goes
    /// to its first cell.
    pub open spec fn new_line(self) -> WriterView {
        WriterView {
            column: 0,
            color: self.color,
            rows: Seq::new(
                BUFFER_HEIGHT as nat,
                |row: int|
                    if row < BUFFER_HEIGHT - 1 {
                        self.rows[row + 1]
                    } else {
                        self.blank_row()
                    },
            ),
        }
    }

    /// The writer after `byte` has been written: a line break starts a new
    /// line; any other byte goes to the bottom row, after a line break of
    /// its own where the row is full.
    pub open spec fn write_byte(self, byte: u8) -> WriterView {
        if byte == LINE_BREAK {
            self.new_line()
        } else {
            let at = if self.column >= BUFFER_WIDTH {
                self.new_line()
            } else {
                self
            };
            WriterView {
                column: (at.column + 1) as usize,
                color: at.color,
                rows: at.rows.update(
                    BUFFER_HEIGHT - 1,
                    at.rows[BUFFER_HEIGHT - 1].update(
                        at.column as int,
                        ScreenChar { ascii_character: byte, color_code: at.color },
                    ),
                ),
            }
        }
    }

    /// The writer after the bytes of a string have been written, each byte
    /// that is neither printable ASCII nor a line break as a block.
    pub open spec fn write_string(self, bytes: Seq<u8>) -> WriterView
        decreases bytes.len(),
    {
        if bytes.len() == 0 {
            self
        } else {
            self.write_string(bytes.drop_last()).write_byte(shown(bytes.last()))
        }
    }
}

/// The byte that the screen shows for `byte` of a string.
pub open spec fn shown(byte: u8) -> u8 {
    if (SPACE <= byte <= 0x7e) || byte == LINE_BREAK {
        byte
    } else {
        UNPRINTABLE
    }
}

/// Writes text to the screen.
pub struct Writer {
    column_position: usize,
    color_code: ColorCode,
    buffer: [[ScreenChar; 80]; 25],
}

impl View for Writer {
    type V = WriterView;

    closed spec fn view(&self) -> WriterView {
        WriterView {
            column: self.column_position,
            color: self.color_code,
            rows: Seq::new(BUFFER_HEIGHT as nat, |row: int| self.buffer@[row]@),
        }
    }
}

impl Writer {
    /// A writer in the colours `color_code` on a screen whose every cell
    /// shows `fill`.
    pub fn new(color_code: ColorCode, fill: ScreenChar) -> (writer: Writer)
        ensures
            writer@.wf(),
            writer@.column == 0,
            writer@.color == color_code,
            forall|row: int, column: int|
                0 <= row < BUFFER_HEIGHT && 0 <= column < BUFFER_WIDTH
                    ==> #[trigger] writer@.rows[row][column] == fill,
    {
        Writer { column_position: 0, color_code, buffer: [[fill;80];25] }
    }

    /// A writer in the colours `color_code` on a screen that shows `cells`.
    pub fn from_cells(color_code: ColorCode, cells: [[ScreenChar; 80]; 25]) -> (writer: Writer)
        ensures
            writer@.wf(),
            writer@.column == 0,
            writer@.color == color_code,
            writer@.rows == Seq::new(BUFFER_HEIGHT as nat, |row: int| cells@[row]@),
    {
        Writer { column_position: 0, color_code, buffer: cells }
    }

    /// Fills row `row` with blanks.
    fn clear_row(&mut self, row: usize)
        requires
            row < BUFFER_HEIGHT,
        ensures
            final(self)@ == old(self)@.clear_row(row as int),
    {
        let blank = ScreenChar { ascii_character: SPACE, color_code: self.color_code };
        let mut column: usize = 0;
        while column < BUFFER_WIDTH
            invariant
                row < BUFFER_HEIGHT,
                column <= BUFFER_WIDTH,
                self.column_position == old(self).column_position,
                self.color_code == old(self).color_code,
                blank == old(self)@.blank(),
                forall|r: int|
                    0 <= r < BUFFER_HEIGHT && r != row ==> self.buffer@[r] == old(self).buffer@[r],
                forall|c: int| 0 <= c < column ==> self.buffer@[row as int]@[c] == blank,
            decreases BUFFER_WIDTH - column,
        {
            self.buffer[row][column] = blank;
            column += 1;
        }
        assert(self@.rows =~= old(self)@.clear_row(row as int).rows) by {
            assert(self.buffer@[row as int]@ =~= old(self)@.blank_row());
        }
    }

    /// Starts a new line: moves every row up by one, which drops the top
    /// row, and clears the bottom row.
    fn new_line(&mut self)
        ensures
            final(self)@ == old(self)@.new_line(),
    {
        let mut row: usize = 1;
        while row < BUFFER_HEIGHT
            invariant
                1 <= row <= BUFFER_HEIGHT,
                self.column_position == old(self).column_position,
                self.color_code == old(self).color_code,
                forall|r: int| 0 <= r < row - 1 ==> self.buffer@[r] == old(self).buffer@[r + 1],
                forall|r: int|
                    row - 1 <= r < BUFFER_HEIGHT ==> self.buffer@[r] == old(self).buffer@[r],
            decreases BUFFER_HEIGHT - row,
        {
            let mut column: usize = 0;
            while column < BUFFER_WIDTH
                invariant
                    1 <= row < BUFFER_HEIGHT,
                    column <= BUFFER_WIDTH,
                    self.column_position == old(self).column_position,
                    self.color_code == old(self).color_code,
                    forall|r: int|
                        0 <= r < row - 1 ==> self.buffer@[r] == old(self).buffer@[r + 1],
                    forall|r: int|
                        row <= r < BUFFER_HEIGHT ==> self.buffer@[r] == old(self).buffer@[r],
                    forall|c: int|
                        0 <= c < column ==> #[trigger] self.buffer@[row - 1]@[c] == old(
                            self,
                        ).buffer@[row as int]@[c],
                decreases BUFFER_WIDTH - column,
            {
                let character = self.buffer[row][column];
                self.buffer[row - 1][column] = character;
                column += 1;
            }
            assert(self.buffer@[row - 1]@ =~= old(self).buffer@[row as int]@);
            row += 1;
        }
        let ghost moved = self@;
        self.clear_row(BUFFER_HEIGHT - 1);
        self.column_position = 0;
        assert(self@.rows =~= old(self)@.new_line().rows);
    }

    /// Writes one byte: a line break starts a new line, any other byte goes
    /// to the bottom row as it is.
    pub fn write_byte(&mut self, byte: u8)
        ensures
            final(self)@ == old(self)@.write_byte(byte),
    {
        if byte == LINE_BREAK {
            self.new_line();
        } else {
            if self.column_position >= BUFFER_WIDTH {
                self.new_line();
            }
            let row = BUFFER_HEIGHT - 1;
            let col = self.column_position;
            let color_code = self.color_code;
            self.buffer[row][col] = ScreenChar { ascii_character: byte, color_code };
            self.column_position += 1;
            assert(self@.rows =~= old(self)@.write_byte(byte).rows);
        }
    }

    /// Writes a string: its printable ASCII and its line breaks as they
    /// are, a block for every other byte.
    pub fn write_string(&mut self, s: &str)
        ensures
            final(self)@ == old(self)@.write_string(s.spec_bytes()),
    {
        let bytes = s.as_bytes();
        let mut index: usize = 0;
        while index < bytes.len()
            invariant
                index <= bytes@.len(),
                bytes@ == s.spec_bytes(),
                self@ == old(self)@.write_string(bytes@.take(index as int)),
            decreases bytes@.len() - index,
        {
            let byte = bytes[index];
            assert(bytes@.take(index + 1).drop_last() =~= bytes@.take(index as int));
            if (byte >= SPACE && byte <= 0x7e) || byte == LINE_BREAK {
                self.write_byte(byte);
            } else {
                self.write_byte(UNPRINTABLE);
            }
            index += 1;
        }
        assert(bytes@.take(bytes@.len() as int) =~= bytes@);
    }

    /// Every writer's screen has 25 rows of 80 cells.
    pub proof fn lemma_wf(&self)
        ensures
            self@.wf(),
    {
    }

    /// The column of the bottom row that the next character goes to.
    pub fn column_position(&self) -> (column: usize)
        ensures
            column == self@.column,
    {
        self.column_position
    }

    /// The colours of what is written from now on.
    pub fn color_code(&self) -> (color: ColorCode)
        ensures
            color == self@.color,
    {
        self.color_code
    }

    /// The cell at `row` and `column`, if the screen has one there.
    pub fn char_at(&self, row: usize, column: usize) -> (cell: Option<ScreenChar>)
        ensures
            cell == if row < BUFFER_HEIGHT && column < BUFFER_WIDTH {
                Some(self@.rows[row as int][column as int])
            } else {
                None
            },
    {
        if row < BUFFER_HEIGHT && column < BUFFER_WIDTH {
            Some(self.buffer[row][column])
        } else {
            None
        }
    }
}

} // verus!
