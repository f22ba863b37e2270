//! Text-console data model: colors, packed color codes, and the
//! character grid written by the console driver.
//!
//! The hardware stores one screen cell as two bytes: the ASCII byte and
//! an attribute byte whose low nibble is the foreground color and whose
//! high nibble is the background color.  `ColorCode` reproduces that
//! packing exactly and proves that it round-trips.

use vstd::prelude::*;
use crate::spin::SpinMutex;

pub mod modes;

pub use modes::{VideoMode, VideoState};

verus! {

/// The 16 colors of the text-mode palette.
#[derive(Clone, Copy, Debug, PartialEq, Eq, Structural)]
pub enum Color {
    Black,
    Blue,
    Green,
    Cyan,
    Red,
    Magenta,
    Brown,
    LightGray,
    DarkGray,
    LightBlue,
    LightGreen,
    LightCyan,
    LightRed,
    Pink,
    Yellow,
    White,
}

/// The 4-bit palette index of a color, as the attribute byte stores it.
pub open spec fn color_number(c: Color) -> u8 {
    match c {
        Color::Black => 0,
        Color::Blue => 1,
        Color::Green => 2,
        Color::Cyan => 3,
        Color::Red => 4,
        Color::Magenta => 5,
        Color::Brown => 6,
        Color::LightGray => 7,
        Color::DarkGray => 8,
        Color::LightBlue => 9,
        Color::LightGreen => 10,
        Color::LightCyan => 11,
        Color::LightRed => 12,
        Color::Pink => 13,
        Color::Yellow => 14,
        Color::White => 15,
    }
}

/// The color of a 4-bit palette index; indices above 15 fall back to white.
pub open spec fn spec_color_from_u8(value: u8) -> Color {
    match value {
        0 => Color::Black,
        1 => Color::Blue,
        2 => Color::Green,
        3 => Color::Cyan,
        4 => Color::Red,
        5 => Color::Magenta,
        6 => Color::Brown,
        7 => Color::LightGray,
        8 => Color::DarkGray,
        9 => Color::LightBlue,
        10 => Color::LightGreen,
        11 => Color::LightCyan,
        12 => Color::LightRed,
        13 => Color::Pink,
        14 => Color::Yellow,
        _ => Color::White,
    }
}

impl Color {
    /// The palette index of this color.
    pub fn number(self) -> (r: u8)
        ensures
            r == color_number(self),
            r < 16,
    {
        match self {
            Color::Black => 0,
            Color::Blue => 1,
            Color::Green => 2,
            Color::Cyan => 3,
            Color::Red => 4,
            Color::Magenta => 5,
            Color::Brown => 6,
            Color::LightGray => 7,
            Color::DarkGray => 8,
            Color::LightBlue => 9,
            Color::LightGreen => 10,
            Color::LightCyan => 11,
            Color::LightRed => 12,
            Color::Pink => 13,
            Color::Yellow => 14,
            Color::White => 15,
        }
    }

    /// The color stored under a palette index; indices above 15 give white.
    pub fn from_u8(value: u8) -> (r: Color)
        ensures
            r == spec_color_from_u8(value),
    {
        match value {
            0 => Color::Black,
            1 => Color::Blue,
            2 => Color::Green,
            3 => Color::Cyan,
            4 => Color::Red,
            5 => Color::Magenta,
            6 => Color::Brown,
            7 => Color::LightGray,
            8 => Color::DarkGray,
            9 => Color::LightBlue,
            10 => Color::LightGreen,
            11 => Color::LightCyan,
            12 => Color::LightRed,
            13 => Color::Pink,
            14 => Color::Yellow,
            _ => Color::White,
        }
    }
}

/// Decoding the palette index of a color gives the color back.
pub proof fn lemma_color_number_roundtrip(c: Color)
    ensures
        spec_color_from_u8(color_number(c)) == c,
{
}

/// The attribute byte of a screen cell: low nibble foreground,
/// high nibble background.
#[derive(Clone, Copy, Debug, PartialEq, Eq, Structural)]
pub struct ColorCode(pub u8);

impl ColorCode {
    /// The packed attribute byte for a foreground/background pair.
    pub open spec fn spec_new(foreground: Color, background: Color) -> ColorCode {
        ColorCode((color_number(background) << 4) | color_number(foreground))
    }

    /// The foreground color held in the low nibble.
    pub open spec fn spec_foreground(self) -> Color {
        spec_color_from_u8(self.0 & 0x0F)
    }

    /// The background color held in the high nibble.
    pub open spec fn spec_background(self) -> Color {
        spec_color_from_u8((self.0 >> 4) & 0x0F)
    }

    /// Packs a foreground/background pair into one attribute byte.
    pub fn new(foreground: Color, background: Color) -> (r: ColorCode)
        ensures
            r == ColorCode::spec_new(foreground, background),
    {
        ColorCode((background.number() << 4) | foreground.number())
    }

    pub fn foreground(&self) -> (r: Color)
        ensures
            r == self.spec_foreground(),
    {
        Color::from_u8(self.0 & 0x0F)
    }

    pub fn background(&self) -> (r: Color)
        ensures
            r == self.spec_background(),
    {
        Color::from_u8((self.0 >> 4) & 0x0F)
    }
}

/// Packing any foreground/background pair and unpacking it returns the
/// original pair, over the whole 16 by 16 color space.
pub proof fn lemma_color_code_roundtrip(foreground: Color, background: Color)
    ensures
        ColorCode::spec_new(foreground, background).spec_foreground() == foreground,
        ColorCode::spec_new(foreground, background).spec_background() == background,
{
    let f = color_number(foreground);
    let b = color_number(background);
    assert(f < 16 && b < 16);
    assert(f < 16 && b < 16 ==> ((b << 4) | f) & 0x0F == f) by (bit_vector);
    assert(f < 16 && b < 16 ==> (((b << 4) | f) >> 4) & 0x0F == b) by (bit_vector);
    lemma_color_number_roundtrip(foreground);
    lemma_color_number_roundtrip(background);
}

/// One cell of the grid: an ASCII byte and its attribute byte.
#[derive(Clone, Copy, Debug, PartialEq, Eq, Structural)]
pub struct ScreenChar {
    pub ascii_character: u8,
    pub color_code: ColorCode,
}

/// The character grid, row-major: the cell at (row, col) sits at index
/// `row * width + col`.
pub struct Buffer {
    pub cells: Vec<ScreenChar>,
}

/// A blank cell: a space in the given color.
pub open spec fn blank_cell(color: ColorCode) -> ScreenChar {
    ScreenChar { ascii_character: 32, color_code: color }
}

/// An entirely blank grid.
pub open spec fn blank_grid(w: int, h: int, color: ColorCode) -> Seq<ScreenChar> {
    Seq::new((w * h) as nat, |i: int| blank_cell(color))
}

/// The grid scrolled one row up: every row moves to the row above it and
/// the last row becomes `blank`.
pub open spec fn scrolled(cells: Seq<ScreenChar>, w: int, h: int, blank: ScreenChar)
    -> Seq<ScreenChar> {
    Seq::new((w * h) as nat, |i: int| if i < (h - 1) * w { cells[i + w] } else { blank })
}

/// The column after one byte is written at `col`: a newline or a full
/// row resets it through a scroll; otherwise it advances.
pub open spec fn next_column(col: int, w: int, b: u8) -> int {
    if b == 10 {
        0
    } else if col >= w {
        1
    } else {
        col + 1
    }
}

/// How many scroll events one byte causes at column `col`: one for a
/// newline or for wrapping out of a full row, none otherwise.
pub open spec fn scrolls_of(col: int, w: int, b: u8) -> nat {
    if b == 10 || col >= w {
        1
    } else {
        0
    }
}

/// Grid and column after one byte is written: a newline only scrolls; a
/// printable byte lands at the current column of the last row, wrapping
/// through a scroll first when the row is full.
pub open spec fn write_byte_spec(
    cells: Seq<ScreenChar>,
    col: int,
    color: ColorCode,
    w: int,
    h: int,
    b: u8,
) -> (Seq<ScreenChar>, int) {
    if b == 10 {
        (scrolled(cells, w, h, blank_cell(color)), 0)
    } else if col >= w {
        (
            scrolled(cells, w, h, blank_cell(color)).update(
                (h - 1) * w,
                ScreenChar { ascii_character: b, color_code: color },
            ),
            1,
        )
    } else {
        (
            cells.update((h - 1) * w + col, ScreenChar { ascii_character: b, color_code: color }),
            col + 1,
        )
    }
}

/// Grid and column after a whole byte sequence is written.
pub open spec fn write_seq_spec(
    cells: Seq<ScreenChar>,
    col: int,
    color: ColorCode,
    w: int,
    h: int,
    bytes: Seq<u8>,
) -> (Seq<ScreenChar>, int)
    decreases bytes.len(),
{
    if bytes.len() == 0 {
        (cells, col)
    } else {
        let step = write_byte_spec(cells, col, color, w, h, bytes[0]);
        write_seq_spec(step.0, step.1, color, w, h, bytes.drop_first())
    }
}

/// The column after a whole byte sequence is written.
pub open spec fn column_after_seq(col: int, w: int, bytes: Seq<u8>) -> int
    decreases bytes.len(),
{
    if bytes.len() == 0 {
        col
    } else {
        column_after_seq(next_column(col, w, bytes[0]), w, bytes.drop_first())
    }
}

/// How many scroll events a whole byte sequence causes.
pub open spec fn scroll_count(col: int, w: int, bytes: Seq<u8>) -> nat
    decreases bytes.len(),
{
    if bytes.len() == 0 {
        0
    } else {
        scrolls_of(col, w, bytes[0]) + scroll_count(next_column(col, w, bytes[0]), w,
            bytes.drop_first())
    }
}

/// A row-major position inside the grid indexes inside the cell vector.
proof fn lemma_grid_index(row: int, col: int, w: int, h: int)
    requires
        0 <= row < h,
        0 <= col < w,
    ensures
        0 <= row * w + col < w * h,
{
    assert(0 <= row * w + col < w * h) by (nonlinear_arith)
        requires
            0 <= row < h,
            0 <= col < w,
    ;
}

/// The console writer: current column on the (always active) last row,
/// current color, and the grid for the active mode.
pub struct Writer {
    pub column_position: usize,
    pub color_code: ColorCode,
    pub video_state: VideoState,
}

impl Writer {
    /// The grid is consistent with the mode and the column never runs
    /// past the row width.
    pub open spec fn wf(&self) -> bool {
        self.video_state.wf() && self.column_position <= self.video_state.width
    }

    /// The cells of the grid.
    pub open spec fn grid(&self) -> Seq<ScreenChar> {
        self.video_state.buffer.cells@
    }

    /// Grid width in columns.
    pub open spec fn width(&self) -> int {
        self.video_state.width as int
    }

    /// Grid height in rows.
    pub open spec fn height(&self) -> int {
        self.video_state.height as int
    }

    /// The default color text is written in.
    pub open spec fn default_color() -> ColorCode {
        ColorCode::spec_new(Color::LightGreen, Color::Black)
    }

    /// A writer on a fresh 80 by 25 grid, in the default color.
    pub fn new() -> (r: Writer)
        ensures
            r.wf(),
            r.column_position == 0,
            r.color_code == Writer::default_color(),
            r.video_state.mode == VideoMode::Text80x25,
            r.grid() == blank_grid(r.width(), r.height(), Writer::default_color()),
    {
        let color_code = ColorCode::new(Color::LightGreen, Color::Black);
        let video_state = VideoState::new(VideoMode::Text80x25, color_code);
        let r = Writer { column_position: 0, color_code, video_state };
        proof {
            assert(r.grid() =~= blank_grid(r.width(), r.height(), Writer::default_color()));
        }
        r
    }

    /// Sets the current color; cells already written keep theirs.
    pub fn set_color(&mut self, fg: Color, bg: Color)
        ensures
            final(self).color_code == ColorCode::spec_new(fg, bg),
            final(self).column_position == old(self).column_position,
            final(self).video_state == old(self).video_state,
    {
        self.color_code = ColorCode::new(fg, bg);
    }

    /// Sets only the foreground of the current color.
    pub fn set_foreground_color(&mut self, color: Color)
        ensures
            final(self).color_code == ColorCode::spec_new(
                color,
                old(self).color_code.spec_background(),
            ),
            final(self).column_position == old(self).column_position,
            final(self).video_state == old(self).video_state,
    {
        let bg = self.color_code.background();
        self.color_code = ColorCode::new(color, bg);
    }

    /// Sets only the background of the current color.
    pub fn set_background_color(&mut self, color: Color)
        ensures
            final(self).color_code == ColorCode::spec_new(
                old(self).color_code.spec_foreground(),
                color,
            ),
            final(self).column_position == old(self).column_position,
            final(self).video_state == old(self).video_state,
    {
        let fg = self.color_code.foreground();
        self.color_code = ColorCode::new(fg, color);
    }

    /// Switches the video mode: fresh blank grid, column reset.
    pub fn set_video_mode(&mut self, mode: VideoMode)
        ensures
            final(self).wf(),
            final(self).column_position == 0,
            final(self).color_code == old(self).color_code,
            final(self).video_state.mode == mode,
            final(self).grid() == blank_grid(
                mode.spec_dimensions().0 as int,
                mode.spec_dimensions().1 as int,
                old(self).color_code,
            ),
    {
        let fill = self.color_code;
        self.video_state.set_mode(mode, fill);
        self.column_position = 0;
    }

    /// Reads one cell of the grid.
    pub fn cell_at(&self, row: usize, col: usize) -> (r: ScreenChar)
        requires
            self.wf(),
            row < self.video_state.height,
            col < self.video_state.width,
        ensures
            r == self.grid()[row * self.width() + col],
    {
        proof {
            lemma_grid_index(row as int, col as int, self.width(), self.height());
        }
        self.video_state.buffer.cells[row * self.video_state.width + col]
    }

    /// The current column.
    pub fn column(&self) -> (r: usize)
        ensures
            r == self.column_position,
    {
        self.column_position
    }

    /// Blanks one row in the current color.
    fn clear_row(&mut self, row: usize)
        requires
            old(self).wf(),
            row < old(self).video_state.height,
        ensures
            final(self).wf(),
            final(self).column_position == old(self).column_position,
            final(self).color_code == old(self).color_code,
            final(self).video_state.mode == old(self).video_state.mode,
            final(self).video_state.width == old(self).video_state.width,
            final(self).video_state.height == old(self).video_state.height,
            final(self).grid().len() == old(self).grid().len(),
            forall|i: int| 0 <= i < old(self).grid().len() ==> final(self).grid()[i] == (
                if row * old(self).width() <= i < row * old(self).width() + old(self).width() {
                    blank_cell(old(self).color_code)
                } else {
                    old(self).grid()[i]
                }),
    {
        let w = self.video_state.width;
        let blank = ScreenChar { ascii_character: 32u8, color_code: self.color_code };
        let mut c: usize = 0;
        while c < w
            invariant
                old(self).wf(),
                row < old(self).video_state.height,
                c <= w,
                w == old(self).video_state.width,
                self.column_position == old(self).column_position,
                self.color_code == old(self).color_code,
                self.video_state.mode == old(self).video_state.mode,
                self.video_state.width == old(self).video_state.width,
                self.video_state.height == old(self).video_state.height,
                blank == blank_cell(old(self).color_code),
                self.grid().len() == old(self).grid().len(),
                forall|i: int| 0 <= i < old(self).grid().len() ==> self.grid()[i] == (
                    if row * old(self).width() <= i < row * old(self).width() + c {
                        blank_cell(old(self).color_code)
                    } else {
                        old(self).grid()[i]
                    }),
            decreases w - c,
        {
            proof {
                lemma_grid_index(row as int, c as int, old(self).width(), old(self).height());
            }
            let idx = row * w + c;
            self.video_state.buffer.cells.set(idx, blank);
            c = c + 1;
        }
    }

    /// Scrolls: every row moves up one, the vacated last row is blanked
    /// in the current color, and the column resets.
    fn new_line(&mut self)
        requires
            old(self).wf(),
        ensures
            final(self).wf(),
            final(self).column_position == 0,
            final(self).color_code == old(self).color_code,
            final(self).video_state.mode == old(self).video_state.mode,
            final(self).video_state.width == old(self).video_state.width,
            final(self).video_state.height == old(self).video_state.height,
            final(self).grid() == scrolled(
                old(self).grid(),
                old(self).width(),
                old(self).height(),
                blank_cell(old(self).color_code),
            ),
    {
        let w = self.video_state.width;
        let h = self.video_state.height;
        let mut row: usize = 1;
        while row < h
            invariant
                old(self).wf(),
                1 <= row <= h,
                w == old(self).video_state.width,
                h == old(self).video_state.height,
                self.column_position == old(self).column_position,
                self.color_code == old(self).color_code,
                self.video_state.mode == old(self).video_state.mode,
                self.video_state.width == old(self).video_state.width,
                self.video_state.height == old(self).video_state.height,
                self.grid().len() == old(self).grid().len(),
                forall|i: int| 0 <= i < (row - 1) * w ==> self.grid()[i]
                    == old(self).grid()[i + w],
                forall|i: int| (row - 1) * w <= i < old(self).grid().len() ==> self.grid()[i]
                    == old(self).grid()[i],
            decreases h - row,
        {
            let mut c: usize = 0;
            while c < w
                invariant
                    old(self).wf(),
                    1 <= row < h,
                    c <= w,
                    w == old(self).video_state.width,
                    h == old(self).video_state.height,
                    self.column_position == old(self).column_position,
                    self.color_code == old(self).color_code,
                    self.video_state.mode == old(self).video_state.mode,
                    self.video_state.width == old(self).video_state.width,
                    self.video_state.height == old(self).video_state.height,
                    self.grid().len() == old(self).grid().len(),
                    forall|i: int| 0 <= i < (row - 1) * w + c ==> self.grid()[i]
                        == old(self).grid()[i + w],
                    forall|i: int| (row - 1) * w + c <= i < old(self).grid().len()
                        ==> self.grid()[i] == old(self).grid()[i],
                decreases w - c,
            {
                proof {
                    lemma_grid_index(row as int, c as int, old(self).width(), old(self).height());
                    lemma_grid_index(
                        row as int - 1,
                        c as int,
                        old(self).width(),
                        old(self).height(),
                    );
                }
                let src = row * w + c;
                let dst = (row - 1) * w + c;
                let ch = self.video_state.buffer.cells[src];
                self.video_state.buffer.cells.set(dst, ch);
                c = c + 1;
            }
            row = row + 1;
        }
        self.clear_row(h - 1);
        self.column_position = 0;
        proof {
            let w0 = old(self).width();
            let h0 = old(self).height();
            let tgt = scrolled(old(self).grid(), w0, h0, blank_cell(old(self).color_code));
            assert((h0 - 1) * w0 + w0 == h0 * w0 && h0 * w0 == w0 * h0) by (nonlinear_arith);
            assert forall|i: int| 0 <= i < self.grid().len() implies self.grid()[i] == tgt[i] by {
                if i < (h0 - 1) * w0 {
                    assert(self.grid()[i] == old(self).grid()[i + w0]);
                } else {
                    assert(self.grid()[i] == blank_cell(old(self).color_code));
                }
            }
            assert(self.grid() =~= tgt);
        }
    }

    /// Writes one byte: a newline scrolls; any other byte lands at the
    /// current column of the last row in the current color, scrolling
    /// first when the row is already full.
    pub fn write_byte(&mut self, byte: u8)
        requires
            old(self).wf(),
        ensures
            final(self).wf(),
            final(self).color_code == old(self).color_code,
            final(self).video_state.mode == old(self).video_state.mode,
            final(self).video_state.width == old(self).video_state.width,
            final(self).video_state.height == old(self).video_state.height,
            ({
                let step = write_byte_spec(
                    old(self).grid(),
                    old(self).column_position as int,
                    old(self).color_code,
                    old(self).width(),
                    old(self).height(),
                    byte,
                );
                final(self).grid() == step.0 && final(self).column_position == step.1
            }),
    {
        if byte == 10u8 {
            self.new_line();
        } else {
            if self.column_position >= self.video_state.width {
                self.new_line();
            }
            let row = self.video_state.height - 1;
            let col = self.column_position;
            let color_code = self.color_code;
            proof {
                lemma_grid_index(row as int, col as int, self.width(), self.height());
            }
            let idx = row * self.video_state.width + col;
            self.video_state.buffer.cells.set(
                idx,
                ScreenChar { ascii_character: byte, color_code },
            );
            self.column_position = col + 1;
        }
    }

    /// Deletes the character before the cursor: the column moves back
    /// one and that cell is blanked.  At column zero — including column
    /// zero of the top row — this is a no-op: the cursor never cascades
    /// into an earlier row.
    pub fn delete_char(&mut self)
        requires
            old(self).wf(),
        ensures
            final(self).wf(),
            final(self).color_code == old(self).color_code,
            final(self).video_state.mode == old(self).video_state.mode,
            final(self).video_state.width == old(self).video_state.width,
            final(self).video_state.height == old(self).video_state.height,
            old(self).column_position > 0 ==> final(self).column_position
                == old(self).column_position - 1
                && final(self).grid() == old(self).grid().update(
                    (old(self).height() - 1) * old(self).width()
                        + old(self).column_position - 1,
                    blank_cell(old(self).color_code),
                ),
            old(self).column_position == 0 ==> final(self).column_position == 0
                && final(self).grid() == old(self).grid(),
    {
        if self.column_position > 0 {
            self.column_position = self.column_position - 1;
            let row = self.video_state.height - 1;
            let col = self.column_position;
            proof {
                lemma_grid_index(row as int, col as int, self.width(), self.height());
            }
            let idx = row * self.video_state.width + col;
            let blank = ScreenChar { ascii_character: 32u8, color_code: self.color_code };
            self.video_state.buffer.cells.set(idx, blank);
        }
    }

    /// Blanks the whole grid in the current color and resets the column.
    pub fn clear_screen(&mut self)
        requires
            old(self).wf(),
        ensures
            final(self).wf(),
            final(self).column_position == 0,
            final(self).color_code == old(self).color_code,
            final(self).video_state.mode == old(self).video_state.mode,
            final(self).video_state.width == old(self).video_state.width,
            final(self).video_state.height == old(self).video_state.height,
            final(self).grid() == blank_grid(
                old(self).width(),
                old(self).height(),
                old(self).color_code,
            ),
    {
        let h = self.video_state.height;
        let mut row: usize = 0;
        while row < h
            invariant
                old(self).wf(),
                row <= h,
                h == old(self).video_state.height,
                self.column_position == old(self).column_position,
                self.color_code == old(self).color_code,
                self.video_state.mode == old(self).video_state.mode,
                self.video_state.width == old(self).video_state.width,
                self.video_state.height == old(self).video_state.height,
                self.grid().len() == old(self).grid().len(),
                forall|i: int| 0 <= i < old(self).grid().len() ==> self.grid()[i] == (
                    if i < row * old(self).width() {
                        blank_cell(old(self).color_code)
                    } else {
                        old(self).grid()[i]
                    }),
            decreases h - row,
        {
            self.clear_row(row);
            proof {
                lemma_grid_index(row as int, 0, self.width(), self.height());
                let w0 = self.width();
                assert((row + 1) * w0 == row * w0 + w0) by (nonlinear_arith);
            }
            row = row + 1;
        }
        self.column_position = 0;
        proof {
            let w0 = old(self).width();
            let h0 = old(self).height();
            let tgt = blank_grid(w0, h0, old(self).color_code);
            assert forall|i: int| 0 <= i < self.grid().len() implies self.grid()[i] == tgt[i] by {
                assert(i < h0 * w0 && h0 * w0 == w0 * h0) by (nonlinear_arith)
                    requires
                        0 <= i,
                        i < self.grid().len(),
                        self.grid().len() == w0 * h0,
                ;
                assert(self.grid()[i] == blank_cell(old(self).color_code));
            }
            assert(self.grid() =~= tgt);
        }
    }

    /// Writes a whole byte sequence, front to back.
    pub fn write_bytes(&mut self, text: &[u8])
        requires
            old(self).wf(),
        ensures
            final(self).wf(),
            final(self).color_code == old(self).color_code,
            final(self).video_state.mode == old(self).video_state.mode,
            final(self).video_state.width == old(self).video_state.width,
            final(self).video_state.height == old(self).video_state.height,
            ({
                let whole = write_seq_spec(
                    old(self).grid(),
                    old(self).column_position as int,
                    old(self).color_code,
                    old(self).width(),
                    old(self).height(),
                    text@,
                );
                final(self).grid() == whole.0 && final(self).column_position == whole.1
            }),
    {
        proof {
            assert(text@.subrange(0, text@.len() as int) =~= text@);
        }
        let mut i: usize = 0;
        while i < text.len()
            invariant
                old(self).wf(),
                i <= text@.len(),
                self.wf(),
                self.color_code == old(self).color_code,
                self.video_state.mode == old(self).video_state.mode,
                self.video_state.width == old(self).video_state.width,
                self.video_state.height == old(self).video_state.height,
                write_seq_spec(
                    old(self).grid(),
                    old(self).column_position as int,
                    old(self).color_code,
                    old(self).width(),
                    old(self).height(),
                    text@,
                ) == write_seq_spec(
                    self.grid(),
                    self.column_position as int,
                    self.color_code,
                    self.width(),
                    self.height(),
                    text@.subrange(i as int, text@.len() as int),
                ),
            decreases text@.len() - i,
        {
            let b = text[i];
            proof {
                assert(text@.subrange(i as int, text@.len() as int).drop_first()
                    =~= text@.subrange(i as int + 1, text@.len() as int));
            }
            self.write_byte(b);
            i = i + 1;
        }
        proof {
            assert(text@.subrange(text@.len() as int, text@.len() as int).len() == 0);
        }
    }
}

/// The current color with the optional one-shot overrides applied: a
/// foreground override keeps the background and vice versa.
pub open spec fn override_color(c: ColorCode, fg: Option<Color>, bg: Option<Color>) -> ColorCode {
    let with_fg = if fg is Some {
        ColorCode::spec_new(fg->0, c.spec_background())
    } else {
        c
    };
    if bg is Some {
        ColorCode::spec_new(with_fg.spec_foreground(), bg->0)
    } else {
        with_fg
    }
}

/// The console singleton: the writer behind its spinlock, so that a
/// whole formatted write is one atomic unit to every caller.
pub struct Console {
    pub writer: SpinMutex<Writer>,
}

impl Console {
    /// A console on a fresh 80 by 25 grid, unlocked.
    pub fn new() -> (r: Console)
        ensures
            !r.writer.is_held(),
            r.writer.inner().wf(),
            r.writer.inner().column_position == 0,
            r.writer.inner().color_code == Writer::default_color(),
            r.writer.inner().video_state.mode == VideoMode::Text80x25,
            r.writer.inner().grid() == blank_grid(
                r.writer.inner().width(),
                r.writer.inner().height(),
                Writer::default_color(),
            ),
    {
        Console { writer: SpinMutex::new(Writer::new()) }
    }
}

/// Writes `text` with optional one-shot color overrides, holding the
/// console lock for the whole write so no caller observes a partial
/// line, and restoring the default color afterwards.
pub fn print(con: &mut Console, text: &[u8], fg: Option<Color>, bg: Option<Color>)
    requires
        !old(con).writer.is_held(),
        old(con).writer.inner().wf(),
    ensures
        !final(con).writer.is_held(),
        final(con).writer.inner().wf(),
        final(con).writer.inner().color_code == Writer::default_color(),
        final(con).writer.inner().video_state.mode
            == old(con).writer.inner().video_state.mode,
        final(con).writer.inner().video_state.width
            == old(con).writer.inner().video_state.width,
        final(con).writer.inner().video_state.height
            == old(con).writer.inner().video_state.height,
        ({
            let w0 = old(con).writer.inner();
            let whole = write_seq_spec(
                w0.grid(),
                w0.column_position as int,
                override_color(w0.color_code, fg, bg),
                w0.width(),
                w0.height(),
                text@,
            );
            final(con).writer.inner().grid() == whole.0
                && final(con).writer.inner().column_position == whole.1
        }),
{
    let guard = con.writer.lock();
    let writer = con.writer.borrow_mut();
    match fg {
        Some(f) => writer.set_foreground_color(f),
        None => {},
    }
    match bg {
        Some(b) => writer.set_background_color(b),
        None => {},
    }
    writer.write_bytes(text);
    writer.set_color(Color::LightGreen, Color::Black);
    con.writer.unlock(guard);
}

/// Blanks the whole screen in the current color and resets the column,
/// under the console lock.
pub fn clear_screen(con: &mut Console)
    requires
        !old(con).writer.is_held(),
        old(con).writer.inner().wf(),
    ensures
        !final(con).writer.is_held(),
        final(con).writer.inner().wf(),
        final(con).writer.inner().column_position == 0,
        final(con).writer.inner().color_code == old(con).writer.inner().color_code,
        final(con).writer.inner().video_state.mode
            == old(con).writer.inner().video_state.mode,
        final(con).writer.inner().grid() == blank_grid(
            old(con).writer.inner().width(),
            old(con).writer.inner().height(),
            old(con).writer.inner().color_code,
        ),
{
    let guard = con.writer.lock();
    let writer = con.writer.borrow_mut();
    writer.clear_screen();
    con.writer.unlock(guard);
}

/// Switches the video mode and blanks the fresh grid, under the console
/// lock.
pub fn set_video_mode(con: &mut Console, mode: VideoMode)
    requires
        !old(con).writer.is_held(),
        old(con).writer.inner().wf(),
    ensures
        !final(con).writer.is_held(),
        final(con).writer.inner().wf(),
        final(con).writer.inner().column_position == 0,
        final(con).writer.inner().video_state.mode == mode,
        final(con).writer.inner().grid() == blank_grid(
            mode.spec_dimensions().0 as int,
            mode.spec_dimensions().1 as int,
            old(con).writer.inner().color_code,
        ),
{
    let guard = con.writer.lock();
    let writer = con.writer.borrow_mut();
    writer.set_video_mode(mode);
    con.writer.unlock(guard);
}

/// The column a byte sequence ends on agrees between the full grid
/// transition and the column-only account of it.
pub proof fn lemma_column_agrees(
    cells: Seq<ScreenChar>,
    col: int,
    color: ColorCode,
    w: int,
    h: int,
    bytes: Seq<u8>,
)
    ensures
        write_seq_spec(cells, col, color, w, h, bytes).1 == column_after_seq(col, w, bytes),
    decreases bytes.len(),
{
    if bytes.len() > 0 {
        let step = write_byte_spec(cells, col, color, w, h, bytes[0]);
        lemma_column_agrees(step.0, step.1, color, w, h, bytes.drop_first());
    }
}

/// Filling the rest of a row and wrapping: printable bytes that run
/// exactly one past the row's end cause exactly one scroll and end on
/// column one.
proof fn lemma_wrap_from(col: int, w: int, bytes: Seq<u8>)
    requires
        0 <= col <= w,
        bytes.len() == w + 1 - col,
        forall|i: int| 0 <= i < bytes.len() ==> bytes[i] != 10,
    ensures
        scroll_count(col, w, bytes) == 1,
        column_after_seq(col, w, bytes) == 1,
    decreases bytes.len(),
{
    assert(bytes[0] != 10);
    if col == w {
        assert(bytes.drop_first().len() == 0);
        assert(scrolls_of(col, w, bytes[0]) == 1);
        assert(next_column(col, w, bytes[0]) == 1);
        assert(scroll_count(1, w, bytes.drop_first()) == 0);
        assert(column_after_seq(1, w, bytes.drop_first()) == 1);
        assert(scroll_count(col, w, bytes) == scrolls_of(col, w, bytes[0]) + scroll_count(
            next_column(col, w, bytes[0]),
            w,
            bytes.drop_first(),
        ));
        assert(column_after_seq(col, w, bytes) == column_after_seq(
            next_column(col, w, bytes[0]),
            w,
            bytes.drop_first(),
        ));
    } else {
        assert forall|i: int| 0 <= i < bytes.drop_first().len() implies bytes.drop_first()[i]
            != 10 by {
            assert(bytes.drop_first()[i] == bytes[i + 1]);
        }
        lemma_wrap_from(col + 1, w, bytes.drop_first());
    }
}

/// Console scrolling: from the start of a row, writing exactly one more
/// printable character than the row is wide causes exactly one scroll
/// event.  The scroll resets the column to zero, and the wrapped
/// character then advances it to one.
pub proof fn lemma_full_row_scrolls_once(w: int, bytes: Seq<u8>)
    requires
        w >= 1,
        bytes.len() == w + 1,
        forall|i: int| 0 <= i < bytes.len() ==> bytes[i] != 10,
    ensures
        scroll_count(0, w, bytes) == 1,
        column_after_seq(0, w, bytes) == 1,
{
    lemma_wrap_from(0, w, bytes);
}

} // verus!
