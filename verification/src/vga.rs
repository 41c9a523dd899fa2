//! The VGA text frame: 25 rows of 80 coloured characters, a cursor, and the
//! scrolling and line-breaking rules of the console.
//!
//! The frame is kept as plain data; copying it to the display is left to the
//! caller.

use crate::cursor::{Cursor2D, Cursor2DView};
use vstd::prelude::*;
use vstd::string::StringSliceAdditionalSpecFns;

verus! {

pub const BUF_HEIGHT: usize = 25;

pub const BUF_WIDTH: usize = 80;

/// The sixteen colours of VGA text mode.
#[derive(Debug, Clone, Copy, PartialEq, Eq)]
pub enum Color {
    Black,
    Blue,
    Green,
    Cyan,
    Red,
    Magenta,
    Brown,
    LightGray,
    DarkGray,
    LightBlue,
    LightGreen,
    LightCyan,
    LightRed,
    Pink,
    Yellow,
    White,
}

impl Color {
    /// The four-bit number of the colour.
    pub open spec fn code(self) -> u8 {
        match self {
            Color::Black => 0,
            Color::Blue => 1,
            Color::Green => 2,
            Color::Cyan => 3,
            Color::Red => 4,
            Color::Magenta => 5,
            Color::Brown => 6,
            Color::LightGray => 7,
            Color::DarkGray => 8,
            Color::LightBlue => 9,
            Color::LightGreen => 10,
            Color::LightCyan => 11,
            Color::LightRed => 12,
            Color::Pink => 13,
            Color::Yellow => 14,
            Color::White => 15,
        }
    }

    pub fn as_u8(self) -> (code: u8)
        ensures
            code == self.code(),
    {
        match self {
            Color::Black => 0,
            Color::Blue => 1,
            Color::Green => 2,
            Color::Cyan => 3,
            Color::Red => 4,
            Color::Magenta => 5,
            Color::Brown => 6,
            Color::LightGray => 7,
            Color::DarkGray => 8,
            Color::LightBlue => 9,
            Color::LightGreen => 10,
            Color::LightCyan => 11,
            Color::LightRed => 12,
            Color::Pink => 13,
            Color::Yellow => 14,
            Color::White => 15,
        }
    }
}

/// Foreground and background colour of a cell in one byte: the background
/// in the high four bits, the foreground in the low four.
#[derive(Debug, Clone, Copy, PartialEq, Eq)]
pub struct ColorCode(pub u8);

impl ColorCode {
    pub open spec fn spec_new(fg: Color, bg: Color) -> ColorCode {
        ColorCode((16 * bg.code() + fg.code()) as u8)
    }

    pub fn new(fg: Color, bg: Color) -> (code: Self)
        ensures
            code == Self::spec_new(fg, bg),
    {
        let f: u8 = fg.as_u8();
        let b: u8 = bg.as_u8();
        assert(f < 16 && b < 16 ==> (b << 4 | f) == 16 * b + f) by (bit_vector);
        ColorCode(b << 4 | f)
    }
}

/// One cell of the frame.
#[derive(Debug, Clone, Copy, PartialEq, Eq)]
pub struct ScreenChar {
    pub ascii: u8,
    pub color_code: ColorCode,
}

/// What is written for a byte of a string: printable ASCII and the line
/// feed stand for themselves, every other byte for a filled square.
pub open spec fn printable(byte: u8) -> u8 {
    if 0x20 <= byte <= 0x7e || byte == 0x0a {
        byte
    } else {
        0xfe
    }
}

/// Mathematical value of a [`VGAFrame`].
pub struct FrameView {
    pub rows: Seq<Seq<ScreenChar>>,
    pub color_code: ColorCode,
    pub err_color_code: ColorCode,
    pub cursor_color_code: ColorCode,
    pub cursor: Cursor2DView,
}

impl FrameView {
    /// The frame has its 25 rows of 80 cells, and the cursor is on one of its
    /// rows.
    pub open spec fn wf_grid(self) -> bool {
        &&& self.rows.len() == BUF_HEIGHT
        &&& forall|r: int| 0 <= r < BUF_HEIGHT ==> (#[trigger] self.rows[r]).len() == BUF_WIDTH
        &&& self.cursor.width == BUF_WIDTH
        &&& self.cursor.height == BUF_HEIGHT - 1
        &&& self.cursor.y <= BUF_HEIGHT - 1
    }

    /// The cursor is on a cell of the frame. Every frame is kept so.
    pub open spec fn wf(self) -> bool {
        self.wf_grid() && self.cursor.x < BUF_WIDTH
    }

    /// A space in the current colours.
    pub open spec fn blank(self) -> ScreenChar {
        ScreenChar { ascii: 0x20, color_code: self.color_code }
    }

    /// The frame with the cursor in column `x`.
    pub open spec fn at_column(self, x: nat) -> FrameView {
        FrameView { cursor: Cursor2DView { x, ..self.cursor }, ..self }
    }

    /// The frame with the current colours replaced.
    pub open spec fn with_color(self, color_code: ColorCode) -> FrameView {
        FrameView { color_code, ..self }
    }

    /// The frame with `c` in the cell under the cursor.
    pub open spec fn put(self, c: ScreenChar) -> FrameView {
        let y = self.cursor.y as int;
        let x = self.cursor.x as int;
        FrameView { rows: self.rows.update(y, self.rows[y].update(x, c)), ..self }
    }

    /// The frame with every row but the first moved up by one. The last row
    /// stays as it is.
    pub open spec fn shove(self) -> FrameView {
        FrameView {
            rows: Seq::new(
                self.rows.len(),
                |r: int|
                    if r + 1 < self.rows.len() {
                        self.rows[r + 1]
                    } else {
                        self.rows[r]
                    },
            ),
            ..self
        }
    }

    /// The frame with row `line` blank. A row below the last is ignored.
    pub open spec fn clear_line(self, line: nat) -> FrameView {
        if line > self.cursor.height {
            self
        } else {
            FrameView {
                rows: self.rows.update(
                    line as int,
                    Seq::new(BUF_WIDTH as nat, |c: int| self.blank()),
                ),
                ..self
            }
        }
    }

    /// The frame after a line break: the cursor at the start of the next
    /// row, or, on the last row, at the start of that row with the text
    /// scrolled up by one row and the last row blank.
    pub open spec fn new_line(self) -> FrameView {
        if self.cursor.has_next_line() {
            FrameView { cursor: self.cursor.line_feed(), ..self }
        } else {
            self.at_column(0).shove().clear_line(self.cursor.height)
        }
    }

    /// The frame after one byte: a line feed breaks the line, any other byte
    /// is put under the cursor in the current colours. The cursor does not
    /// move on.
    pub open spec fn write_byte(self, byte: u8) -> FrameView {
        if byte == 0x0a {
            self.new_line()
        } else {
            self.put(ScreenChar { ascii: byte, color_code: self.color_code })
        }
    }

    /// The frame after a backspace: the cursor retreats by one column, the
    /// row staying as it is, and the cell that it comes to becomes a space.
    /// In column 0 the cursor stays and the cell under it becomes a space.
    pub open spec fn backspace(self) -> FrameView {
        let x = if self.cursor.x >= 1 {
            (self.cursor.x - 1) as nat
        } else {
            0
        };
        self.at_column(x).write_byte(0x20)
    }

    /// The frame after one byte of a string: the byte is written, then the
    /// cursor steps forward, breaking the line where it cannot.
    pub open spec fn write_char(self, byte: u8) -> FrameView {
        let written = self.write_byte(printable(byte));
        let stepped = FrameView { cursor: written.cursor.advance(), ..written };
        if written.cursor.can_advance() {
            stepped
        } else {
            stepped.new_line()
        }
    }

    /// The frame after the bytes of a string, one after the other.
    pub open spec fn write_bytes(self, bytes: Seq<u8>) -> FrameView
        decreases bytes.len(),
    {
        if bytes.len() == 0 {
            self
        } else {
            self.write_bytes(bytes.drop_last()).write_char(bytes.last())
        }
    }

    /// The frame after the bytes of a string written in the error colours.
    pub open spec fn write_error_bytes(self, bytes: Seq<u8>) -> FrameView {
        self.with_color(self.err_color_code).write_bytes(bytes).with_color(self.color_code)
    }
}

/// The column that a backspace moves to: one back, but for column 0.
fn column_before(x: usize) -> (r: usize)
    ensures
        r == if x >= 1 {
            x - 1
        } else {
            0
        },
{
    if x >= 1 {
        x - 1
    } else {
        x
    }
}

/// The column in which a line starts.
fn first_column(_x: usize) -> (r: usize)
    ensures
        r == 0,
{
    0
}

/// The text frame and its cursor.
pub struct VGAFrame {
    buffer: [[ScreenChar; BUF_WIDTH]; BUF_HEIGHT],
    color_code: ColorCode,
    err_color_code: ColorCode,
    cursor_color_code: ColorCode,
    cursor: Cursor2D,
}

impl View for VGAFrame {
    type V = FrameView;

    closed spec fn view(&self) -> FrameView {
        FrameView {
            rows: Seq::new(BUF_HEIGHT as nat, |r: int| self.buffer@[r]@),
            color_code: self.color_code,
            err_color_code: self.err_color_code,
            cursor_color_code: self.cursor_color_code,
            cursor: self.cursor@,
        }
    }
}

impl VGAFrame {
    #[verifier::type_invariant]
    spec fn inv(&self) -> bool {
        self@.wf()
    }

    /// A frame of spaces, green on black, with red on black for errors and
    /// the cursor in the top left corner.
    pub fn new() -> (frame: Self)
        ensures
            frame@.wf(),
            frame@.color_code == ColorCode::spec_new(Color::Green, Color::Black),
            frame@.err_color_code == ColorCode::spec_new(Color::Red, Color::Black),
            frame@.cursor_color_code == ColorCode::spec_new(Color::Black, Color::Green),
            frame@.cursor == (Cursor2DView {
                x: 0,
                y: 0,
                width: BUF_WIDTH as nat,
                height: (BUF_HEIGHT - 1) as nat,
            }),
            forall|r: int, c: int|
                0 <= r < BUF_HEIGHT && 0 <= c < BUF_WIDTH ==> (#[trigger] frame@.rows[r][c])
                    == frame@.blank(),
    {
        let cursor = Cursor2D::new(BUF_WIDTH, BUF_HEIGHT - 1);
        let color_code = ColorCode::new(Color::Green, Color::Black);
        let blank = ScreenChar { ascii: 0x20, color_code };
        VGAFrame {
            buffer: [[blank; BUF_WIDTH]; BUF_HEIGHT],
            color_code,
            err_color_code: ColorCode::new(Color::Red, Color::Black),
            cursor_color_code: ColorCode::new(Color::Black, Color::Green),
            cursor,
        }
    }

    /// The cell in row `y`, column `x`.
    fn cell(&self, y: usize, x: usize) -> (c: ScreenChar)
        requires
            y < BUF_HEIGHT,
            x < BUF_WIDTH,
        ensures
            c == self@.rows[y as int][x as int],
    {
        self.buffer[y][x]
    }

    /// Replaces the cell in row `y`, column `x`.
    fn set_cell(&mut self, y: usize, x: usize, c: ScreenChar)
        requires
            y < BUF_HEIGHT,
            x < BUF_WIDTH,
        ensures
            final(self)@ == (FrameView {
                rows: old(self)@.rows.update(y as int, old(self)@.rows[y as int].update(x as int, c)),
                ..old(self)@
            }),
    {
        proof {
            use_type_invariant(&*self);
        }
        self.buffer[y][x] = c;
        assert(self@.rows =~~= old(self)@.rows.update(
            y as int,
            old(self)@.rows[y as int].update(x as int, c),
        ));
    }

    /// The cells, row by row.
    pub fn buffer(&self) -> (cells: &[[ScreenChar; BUF_WIDTH]; BUF_HEIGHT])
        ensures
            self@.rows == Seq::new(BUF_HEIGHT as nat, |r: int| cells@[r]@),
    {
        &self.buffer
    }

    /// Column and row of the cursor.
    pub fn cursor(&self) -> (at: (usize, usize))
        ensures
            at.0 == self@.cursor.x,
            at.1 == self@.cursor.y,
    {
        (self.cursor.x(), self.cursor.y())
    }

    /// Retreats the cursor by one column and blanks the cell that it comes
    /// to. In column 0 the cursor stays.
    pub fn backspace(&mut self)
        ensures
            final(self)@ == old(self)@.backspace(),
            final(self)@.wf(),
            old(self)@.cursor.x >= 1 ==> final(self)@.cursor.x == old(self)@.cursor.x - 1,
            final(self)@.cursor.y == old(self)@.cursor.y,
    {
        proof {
            use_type_invariant(&*self);
        }
        let mut cursor = self.cursor;
        let moved = cursor.x_with(column_before);
        self.cursor = cursor;
        match moved {
            Ok(_) => self.write_byte(0x20),
            Err(_e) => {},
        }
    }

    pub fn new_line(&mut self)
        ensures
            final(self)@ == old(self)@.new_line(),
            final(self)@.wf(),
    {
        proof {
            use_type_invariant(&*self);
        }
        let mut cursor = self.cursor;
        if cursor.next_line().is_none() {
            self.scroll();
        } else {
            self.cursor = cursor;
        }
    }

    /// Puts the cursor at the start of its row, moves the text up by one row
    /// and blanks the last row.
    fn scroll(&mut self)
        ensures
            final(self)@ == old(self)@.at_column(0).shove().clear_line(old(self)@.cursor.height),
    {
        proof {
            use_type_invariant(&*self);
        }
        let mut cursor = self.cursor;
        cursor.x_with(first_column).unwrap();
        self.cursor = cursor;
        self.shove_buffer();
        let last = self.cursor.height();
        self.clear_line(last);
    }

    pub fn shove_buffer(&mut self)
        ensures
            final(self)@ == old(self)@.shove(),
    {
        proof {
            use_type_invariant(&*self);
        }
        let height = self.cursor.height();
        let width = self.cursor.width();
        let mut y: usize = 1;
        while y < height + 1
            invariant
                1 <= y <= BUF_HEIGHT,
                height == BUF_HEIGHT - 1,
                width == BUF_WIDTH,
                self@.rows.len() == BUF_HEIGHT,
                self@ == (FrameView { rows: self@.rows, ..old(self)@ }),
                forall|r: int| 0 <= r < y - 1 ==> #[trigger] self@.rows[r] == old(self)@.rows[r + 1],
                forall|r: int|
                    y - 1 <= r < BUF_HEIGHT ==> #[trigger] self@.rows[r] == old(self)@.rows[r],
            decreases BUF_HEIGHT - y,
        {
            let ghost before = self@;
            let mut x: usize = 0;
            while x < width
                invariant
                    1 <= y < BUF_HEIGHT,
                    x <= BUF_WIDTH,
                    width == BUF_WIDTH,
                    self@.rows.len() == BUF_HEIGHT,
                    before.rows.len() == BUF_HEIGHT,
                    before.rows[y - 1].len() == BUF_WIDTH,
                    before.rows[y as int].len() == BUF_WIDTH,
                    self@ == (FrameView { rows: self@.rows, ..before }),
                    forall|r: int|
                        0 <= r < BUF_HEIGHT && r != y - 1 ==> #[trigger] self@.rows[r]
                            == before.rows[r],
                    self@.rows[y - 1].len() == BUF_WIDTH,
                    forall|c: int|
                        0 <= c < x ==> #[trigger] self@.rows[y - 1][c] == before.rows[y as int][c],
                    forall|c: int|
                        x <= c < BUF_WIDTH ==> #[trigger] self@.rows[y - 1][c] == before.rows[y
                            - 1][c],
                decreases BUF_WIDTH - x,
            {
                let c = self.cell(y, x);
                self.set_cell(y - 1, x, c);
                x += 1;
            }
            y += 1;
        }
        assert(self@.rows =~= old(self)@.shove().rows);
    }

    pub fn clear_line(&mut self, line: usize)
        ensures
            final(self)@ == old(self)@.clear_line(line as nat),
    {
        proof {
            use_type_invariant(&*self);
        }
        if line > self.cursor.height() {
            return ;
        }
        let blank = ScreenChar { ascii: 0x20, color_code: self.color_code };
        let mut x: usize = 0;
        while x < BUF_WIDTH
            invariant
                x <= BUF_WIDTH,
                line < BUF_HEIGHT,
                blank == old(self)@.blank(),
                self@.rows.len() == BUF_HEIGHT,
                self@.rows[line as int].len() == BUF_WIDTH,
                self@ == (FrameView { rows: self@.rows, ..old(self)@ }),
                forall|r: int|
                    0 <= r < BUF_HEIGHT && r != line ==> #[trigger] self@.rows[r] == old(
                        self,
                    )@.rows[r],
                forall|c: int| 0 <= c < x ==> #[trigger] self@.rows[line as int][c] == blank,
            decreases BUF_WIDTH - x,
        {
            self.set_cell(line, x, blank);
            x += 1;
        }
        assert(self@.rows[line as int] =~= Seq::new(
            BUF_WIDTH as nat,
            |c: int| old(self)@.blank(),
        ));
        assert(self@.rows =~= old(self)@.clear_line(line as nat).rows);
    }

    pub fn write_byte(&mut self, byte: u8)
        ensures
            final(self)@ == old(self)@.write_byte(byte),
            final(self)@.wf(),
    {
        proof {
            use_type_invariant(&*self);
        }
        if byte == 0x0a {
            self.new_line()
        } else {
            self.write_screenchar(ScreenChar { ascii: byte, color_code: self.color_code });
        }
    }

    pub fn write_screenchar(&mut self, c: ScreenChar)
        ensures
            final(self)@ == old(self)@.put(c),
            final(self)@.wf(),
    {
        proof {
            use_type_invariant(&*self);
        }
        let x = self.cursor.x();
        let y = self.cursor.y();
        self.set_cell(y, x, c);
    }

    pub fn write_string(&mut self, s: &str)
        ensures
            final(self)@ == old(self)@.write_bytes(s.spec_bytes()),
            final(self)@.wf(),
    {
        proof {
            use_type_invariant(&*self);
        }
        let bytes = s.as_bytes();
        let mut i: usize = 0;
        while i < bytes.len()
            invariant
                i <= bytes.len(),
                bytes@ == s.spec_bytes(),
                self@.wf(),
                self@ == old(self)@.write_bytes(bytes@.take(i as int)),
            decreases bytes.len() - i,
        {
            let byte = bytes[i];
            proof {
                assert(bytes@.take(i + 1).drop_last() =~= bytes@.take(i as int));
            }
            if (0x20 <= byte && byte <= 0x7e) || byte == 0x0a {
                self.write_byte(byte)
            } else {
                self.write_byte(0xfe)
            }
            let mut cursor = self.cursor;
            if cursor.next().is_none() {
                self.new_line();
            } else {
                self.cursor = cursor;
            }
            i += 1;
        }
        proof {
            assert(bytes@.take(i as int) =~= bytes@);
        }
    }
}

/// Takes back the last cell of the frame: the cursor retreats by one column.
pub fn backspace(frame: &mut VGAFrame)
    ensures
        final(frame)@ == old(frame)@.backspace(),
        final(frame)@.wf(),
        old(frame)@.cursor.x >= 1 ==> final(frame)@.cursor.x == old(frame)@.cursor.x - 1,
        final(frame)@.cursor.y == old(frame)@.cursor.y,
{
    frame.backspace();
}

/// Writes `s` in the current colours.
pub fn _print(frame: &mut VGAFrame, s: &str)
    ensures
        final(frame)@ == old(frame)@.write_bytes(s.spec_bytes()),
        final(frame)@.wf(),
{
    frame.write_string(s);
}

/// Writes `s` in the error colours, and puts the current colours back.
pub fn _err_print(frame: &mut VGAFrame, s: &str)
    ensures
        final(frame)@ == old(frame)@.write_error_bytes(s.spec_bytes()),
        final(frame)@.wf(),
{
    proof {
        use_type_invariant(&*frame);
    }
    let prev = frame.color_code;
    frame.color_code = frame.err_color_code;
    frame.write_string(s);
    frame.color_code = prev;
}

} // verus!
