//! The text-mode framebuffer driver: a fixed grid of display cells written
//! line by line, scrolling the grid one row up whenever a line is completed.
//!
//! The grid cells are held in volatile wrappers, as on the real device the
//! optimizer must never elide or reorder an access to display memory. The
//! driver's whole behaviour is captured by the spec functions below, which
//! describe the grid and cursor after every byte written.

use vstd::prelude::*;
use vstd::string::StringSliceAdditionalSpecFns;
use volatile::Volatile;

verus! {

/// Number of rows of the display grid.
pub const BUFFER_HEIGHT: usize = 25;

/// Number of columns of the display grid.
pub const BUFFER_WIDTH: usize = 80;

/// Number of cells of the display grid, stored row-major.
pub const BUFFER_SIZE: usize = BUFFER_HEIGHT * BUFFER_WIDTH;

/// The sixteen colors of the fixed display palette.
#[derive(Debug, Clone, Copy, PartialEq, Eq, Structural)]
pub enum Color {
    Black,
    Blue,
    Green,
    Cyan,
    Red,
    Magenta,
    Brown,
    LightGray,
    DarkGray,
    LightBlue,
    LightGreen,
    LightCyan,
    LightRed,
    Pink,
    Yellow,
    White,
}

/// The palette number of each color, as the device defines it.
pub open spec fn color_number(c: Color) -> u8 {
    match c {
        Color::Black => 0,
        Color::Blue => 1,
        Color::Green => 2,
        Color::Cyan => 3,
        Color::Red => 4,
        Color::Magenta => 5,
        Color::Brown => 6,
        Color::LightGray => 7,
        Color::DarkGray => 8,
        Color::LightBlue => 9,
        Color::LightGreen => 10,
        Color::LightCyan => 11,
        Color::LightRed => 12,
        Color::Pink => 13,
        Color::Yellow => 14,
        Color::White => 15,
    }
}

/// A style byte: a 4-bit background packed above a 4-bit foreground.
#[derive(Debug, Clone, Copy, PartialEq, Eq, Structural)]
pub struct ColorCode(u8);

impl View for ColorCode {
    type V = u8;

    closed spec fn view(&self) -> u8 {
        self.0
    }
}

impl ColorCode {
    /// Packs a foreground and a background color into one style byte,
    /// background in the high four bits.
    pub fn new(foreground: Color, background: Color) -> (r: ColorCode)
        ensures
            r@ == color_number(background) * 16 + color_number(foreground),
    {
        let fg: u8 = color_to_number(foreground);
        let bg: u8 = color_to_number(background);
        assert(((bg << 4u8) | fg) == bg * 16 + fg) by (bit_vector)
            requires
                fg < 16 && bg < 16,
        ;
        ColorCode((bg << 4u8) | fg)
    }

    /// The packed style byte itself.
    pub fn as_byte(&self) -> (r: u8)
        ensures
            r == self@,
    {
        self.0
    }
}

/// The palette number of each color, executably.
pub fn color_to_number(c: Color) -> (r: u8)
    ensures
        r == color_number(c),
{
    match c {
        Color::Black => 0,
        Color::Blue => 1,
        Color::Green => 2,
        Color::Cyan => 3,
        Color::Red => 4,
        Color::Magenta => 5,
        Color::Brown => 6,
        Color::LightGray => 7,
        Color::DarkGray => 8,
        Color::LightBlue => 9,
        Color::LightGreen => 10,
        Color::LightCyan => 11,
        Color::LightRed => 12,
        Color::Pink => 13,
        Color::Yellow => 14,
        Color::White => 15,
    }
}

/// One display cell: a glyph byte and the style it is drawn with.
#[derive(Debug, Clone, Copy, PartialEq, Eq, Structural)]
pub struct ScreenChar {
    pub ascii_character: u8,
    pub color_code: ColorCode,
}

/// The cell holding byte `b` drawn with style `color`.
pub open spec fn cell(b: u8, color: ColorCode) -> ScreenChar {
    ScreenChar { ascii_character: b, color_code: color }
}

/// The blank cell used to clear rows: a space in the current style.
pub open spec fn blank_cell(color: ColorCode) -> ScreenChar {
    cell(0x20, color)
}

/// The value a volatile display cell holds.
pub uninterp spec fn volatile_contents(c: Volatile<ScreenChar>) -> ScreenChar;

#[verifier::external_type_specification]
#[verifier::external_body]
#[verifier::reject_recursive_types(T)]
pub struct ExVolatile<T: Copy>(Volatile<T>);

/// Relies on volatile::Volatile::new: wraps the given value, so that later
/// accesses to it are never elided or reordered by the optimizer.
#[verifier::external_body]
fn volatile_new(value: ScreenChar) -> (r: Volatile<ScreenChar>)
    ensures
        volatile_contents(r) == value,
{
    Volatile::new(value)
}

/// Relies on volatile::Volatile::read: returns a copy of the wrapped value.
#[verifier::external_body]
fn volatile_read(c: &Volatile<ScreenChar>) -> (r: ScreenChar)
    ensures
        r == volatile_contents(*c),
{
    c.read()
}

/// Relies on volatile::Volatile::write: replaces the wrapped value in place,
/// reaching the chosen cell through the vector that holds the grid.
#[verifier::external_body]
fn grid_write(cells: &mut Vec<Volatile<ScreenChar>>, i: usize, value: ScreenChar)
    requires
        i < old(cells).len(),
    ensures
        final(cells)@.len() == old(cells)@.len(),
        volatile_contents(final(cells)@[i as int]) == value,
        forall|j: int|
            0 <= j < old(cells)@.len() && j != i ==> final(cells)@[j] == old(cells)@[j],
{
    cells[i].write(value)
}

/// The display grid: one volatile cell per position, row-major.
pub struct Buffer {
    chars: Vec<Volatile<ScreenChar>>,
}

impl Buffer {
    /// The values the grid currently holds, row-major.
    pub closed spec fn contents(&self) -> Seq<ScreenChar> {
        Seq::new(self.chars@.len(), |i: int| volatile_contents(self.chars@[i]))
    }
}

/// The writer's whole state as contracts speak of it: the grid contents,
/// the cursor column, and the active style.
#[verifier::ext_equal]
pub struct WriterView {
    pub grid: Seq<ScreenChar>,
    pub col: int,
    pub color: ColorCode,
}

/// The framebuffer cursor state: writes bytes into the bottom row of the
/// grid, shifting every row up when a line is completed.
pub struct Writer {
    column_position: usize,
    color_code: ColorCode,
    buffer: Buffer,
}

impl View for Writer {
    type V = WriterView;

    closed spec fn view(&self) -> WriterView {
        WriterView {
            grid: self.buffer.contents(),
            col: self.column_position as int,
            color: self.color_code,
        }
    }
}

/// Index of the cell at column `col` of the bottom row.
pub open spec fn bottom_index(col: int) -> int {
    (BUFFER_HEIGHT - 1) * BUFFER_WIDTH + col
}

/// The grid after scrolling: every row moves one row up, the top row's prior
/// contents are discarded, and the bottom row is cleared to blanks.
pub open spec fn scrolled(grid: Seq<ScreenChar>, color: ColorCode) -> Seq<ScreenChar> {
    Seq::new(
        grid.len(),
        |i: int|
            if i + BUFFER_WIDTH < grid.len() {
                grid[i + BUFFER_WIDTH]
            } else {
                blank_cell(color)
            },
    )
}

/// Grid and cursor column after one byte is written: a newline scrolls; any
/// other byte lands at the cursor in the bottom row, scrolling first if the
/// cursor is past the last column.
pub open spec fn byte_written(grid: Seq<ScreenChar>, col: int, color: ColorCode, b: u8) -> (
    Seq<ScreenChar>,
    int,
) {
    if b == 0x0a {
        (scrolled(grid, color), 0)
    } else if col >= BUFFER_WIDTH {
        (scrolled(grid, color).update(bottom_index(0), cell(b, color)), 1)
    } else {
        (grid.update(bottom_index(col), cell(b, color)), col + 1)
    }
}

/// Bytes the device can display directly: the printable range 0x20 to 0x7E.
pub open spec fn is_printable(b: u8) -> bool {
    0x20 <= b <= 0x7e
}

/// The byte actually stored for an input byte: printable bytes and newline
/// pass through, anything else becomes the placeholder glyph 0xFE.
pub open spec fn rendered_byte(b: u8) -> u8 {
    if is_printable(b) || b == 0x0a {
        b
    } else {
        0xfe
    }
}

/// Grid and cursor column after a whole byte sequence is written, each byte
/// first substituted by `rendered_byte`.
pub open spec fn bytes_written(grid: Seq<ScreenChar>, col: int, color: ColorCode, s: Seq<u8>) -> (
    Seq<ScreenChar>,
    int,
)
    decreases s.len(),
{
    if s.len() == 0 {
        (grid, col)
    } else {
        let (g, c) = byte_written(grid, col, color, rendered_byte(s[0]));
        bytes_written(g, c, color, s.drop_first())
    }
}

/// Writing one more byte at the end of a sequence is one more step of
/// `byte_written` after the sequence itself.
pub proof fn lemma_bytes_written_snoc(
    grid: Seq<ScreenChar>,
    col: int,
    color: ColorCode,
    s: Seq<u8>,
    b: u8,
)
    ensures
        bytes_written(grid, col, color, s.push(b)).0 == byte_written(
            bytes_written(grid, col, color, s).0,
            bytes_written(grid, col, color, s).1,
            color,
            rendered_byte(b),
        ).0,
        bytes_written(grid, col, color, s.push(b)).1 == byte_written(
            bytes_written(grid, col, color, s).0,
            bytes_written(grid, col, color, s).1,
            color,
            rendered_byte(b),
        ).1,
    decreases s.len(),
{
    if s.len() == 0 {
        assert(s.push(b)[0] == b);
        assert(s.push(b).drop_first() =~= Seq::<u8>::empty());
        let (g, c) = byte_written(grid, col, color, rendered_byte(b));
        assert(bytes_written(g, c, color, s.push(b).drop_first()) == (g, c));
    } else {
        assert(s.push(b)[0] == s[0]);
        assert(s.push(b).drop_first() =~= s.drop_first().push(b));
        let (g, c) = byte_written(grid, col, color, rendered_byte(s[0]));
        lemma_bytes_written_snoc(g, c, color, s.drop_first(), b);
    }
}

/// The grid after clearing row `row` to blanks in style `color`.
pub open spec fn row_cleared(grid: Seq<ScreenChar>, row: int, color: ColorCode) -> Seq<
    ScreenChar,
> {
    Seq::new(
        grid.len(),
        |i: int|
            if row * BUFFER_WIDTH <= i < (row + 1) * BUFFER_WIDTH {
                blank_cell(color)
            } else {
                grid[i]
            },
    )
}

impl Writer {
    /// The writer's state is a full grid with the cursor inside or just past
    /// the last column.
    pub open spec fn wf(&self) -> bool {
        &&& self@.grid.len() == BUFFER_SIZE
        &&& 0 <= self@.col <= BUFFER_WIDTH
    }

    /// A writer over an entirely blank grid, cursor at column zero.
    pub fn new(color_code: ColorCode) -> (w: Writer)
        ensures
            w.wf(),
            w@.col == 0,
            w@.color == color_code,
            forall|i: int| 0 <= i < BUFFER_SIZE ==> w@.grid[i] == blank_cell(color_code),
    {
        let mut chars: Vec<Volatile<ScreenChar>> = Vec::new();
        let blank = ScreenChar { ascii_character: 0x20, color_code };
        for k in 0..BUFFER_SIZE
            invariant
                chars@.len() == k,
                forall|i: int|
                    0 <= i < k ==> volatile_contents(chars@[i]) == blank_cell(color_code),
                blank == blank_cell(color_code),
        {
            chars.push(volatile_new(blank));
        }
        Writer { column_position: 0, color_code, buffer: Buffer { chars } }
    }

    /// Fills row `row` with blank cells in the current style.
    fn clear_row(&mut self, row: usize)
        requires
            old(self).wf(),
            row < BUFFER_HEIGHT,
        ensures
            final(self).wf(),
            final(self)@.col == old(self)@.col,
            final(self)@.color == old(self)@.color,
            final(self)@.grid == row_cleared(old(self)@.grid, row as int, old(self)@.color),
    {
        let blank = ScreenChar { ascii_character: 0x20, color_code: self.color_code };
        for col in 0..BUFFER_WIDTH
            invariant
                self.buffer.chars@.len() == BUFFER_SIZE,
                row < BUFFER_HEIGHT,
                self.column_position == old(self).column_position,
                self.color_code == old(self).color_code,
                blank == blank_cell(old(self)@.color),
                forall|j: int|
                    row * BUFFER_WIDTH <= j < row * BUFFER_WIDTH + col ==> volatile_contents(
                        #[trigger] self.buffer.chars@[j],
                    ) == blank_cell(old(self)@.color),
                forall|j: int|
                    0 <= j < BUFFER_SIZE && !(row * BUFFER_WIDTH <= j < row * BUFFER_WIDTH + col)
                        ==> self.buffer.chars@[j] == old(self).buffer.chars@[j],
        {
            assert(row * BUFFER_WIDTH + col < BUFFER_SIZE);
            grid_write(&mut self.buffer.chars, row * BUFFER_WIDTH + col, blank);
        }
        assert(self@.grid =~= row_cleared(old(self)@.grid, row as int, old(self)@.color));
    }

    /// Scrolls the grid one row up, clears the freed bottom row, and resets
    /// the cursor to the first column.
    fn new_line(&mut self)
        requires
            old(self).wf(),
        ensures
            final(self).wf(),
            final(self)@.color == old(self)@.color,
            final(self)@.grid == scrolled(old(self)@.grid, old(self)@.color),
            final(self)@.col == 0,
    {
        let mut i: usize = BUFFER_WIDTH;
        while i < BUFFER_SIZE
            invariant
                self.buffer.chars@.len() == BUFFER_SIZE,
                BUFFER_WIDTH <= i <= BUFFER_SIZE,
                self.column_position == old(self).column_position,
                self.color_code == old(self).color_code,
                forall|j: int|
                    0 <= j < i - BUFFER_WIDTH ==> volatile_contents(#[trigger] self.buffer.chars@[j])
                        == volatile_contents(old(self).buffer.chars@[j + BUFFER_WIDTH]),
                forall|j: int|
                    i - BUFFER_WIDTH <= j < BUFFER_SIZE ==> self.buffer.chars@[j] == old(
                        self,
                    ).buffer.chars@[j],
            decreases BUFFER_SIZE - i,
        {
            let character = volatile_read(&self.buffer.chars[i]);
            grid_write(&mut self.buffer.chars, i - BUFFER_WIDTH, character);
            i = i + 1;
        }
        self.clear_row(BUFFER_HEIGHT - 1);
        self.column_position = 0;
        assert(self@.grid =~= scrolled(old(self)@.grid, old(self)@.color));
    }

    /// Writes one byte: a newline completes the row; any other byte is placed
    /// at the cursor in the bottom row, completing the row first when the
    /// cursor is already past the last column.
    pub fn write_byte(&mut self, byte: u8)
        requires
            old(self).wf(),
        ensures
            final(self).wf(),
            final(self)@.color == old(self)@.color,
            final(self)@.grid == byte_written(old(self)@.grid, old(self)@.col, old(self)@.color, byte).0,
            final(self)@.col == byte_written(old(self)@.grid, old(self)@.col, old(self)@.color, byte).1,
    {
        if byte == 0x0a {
            self.new_line();
        } else {
            if self.column_position >= BUFFER_WIDTH {
                self.new_line();
            }
            let row: usize = BUFFER_HEIGHT - 1;
            let col: usize = self.column_position;
            let color_code = self.color_code;
            grid_write(
                &mut self.buffer.chars,
                row * BUFFER_WIDTH + col,
                ScreenChar { ascii_character: byte, color_code },
            );
            self.column_position = col + 1;
            assert(self@.grid =~= byte_written(
                old(self)@.grid,
                old(self)@.col,
                old(self)@.color,
                byte,
            ).0);
        }
    }

    /// Writes every byte of `s` in order, substituting the placeholder glyph
    /// for anything outside the printable range that is not a newline, so no
    /// garbled glyph is ever rendered for non-ASCII input.
    pub fn write_string(&mut self, s: &str)
        requires
            old(self).wf(),
        ensures
            final(self).wf(),
            final(self)@.color == old(self)@.color,
            final(self)@.grid == bytes_written(
                old(self)@.grid,
                old(self)@.col,
                old(self)@.color,
                s.spec_bytes(),
            ).0,
            final(self)@.col == bytes_written(
                old(self)@.grid,
                old(self)@.col,
                old(self)@.color,
                s.spec_bytes(),
            ).1,
    {
        let bytes: &[u8] = s.as_bytes();
        let n: usize = bytes.len();
        for k in 0..n
            invariant
                self.wf(),
                self@.color == old(self)@.color,
                bytes@ == s.spec_bytes(),
                n == bytes@.len(),
                self@.grid == bytes_written(
                    old(self)@.grid,
                    old(self)@.col,
                    old(self)@.color,
                    bytes@.take(k as int),
                ).0,
                self@.col == bytes_written(
                    old(self)@.grid,
                    old(self)@.col,
                    old(self)@.color,
                    bytes@.take(k as int),
                ).1,
        {
            let byte = bytes[k];
            if (0x20 <= byte && byte <= 0x7e) || byte == 0x0a {
                self.write_byte(byte);
            } else {
                self.write_byte(0xfe);
            }
            proof {
                lemma_bytes_written_snoc(
                    old(self)@.grid,
                    old(self)@.col,
                    old(self)@.color,
                    bytes@.take(k as int),
                    bytes@[k as int],
                );
                assert(bytes@.take(k + 1) =~= bytes@.take(k as int).push(bytes@[k as int]));
            }
        }
        proof {
            assert(bytes@.take(n as int) =~= bytes@);
        }
    }

    /// The cell currently shown at `row`, `col`.
    pub fn read_cell(&self, row: usize, col: usize) -> (r: ScreenChar)
        requires
            self.wf(),
            row < BUFFER_HEIGHT,
            col < BUFFER_WIDTH,
        ensures
            r == self@.grid[row * BUFFER_WIDTH + col],
    {
        volatile_read(&self.buffer.chars[row * BUFFER_WIDTH + col])
    }

    /// The active style.
    pub fn color_code(&self) -> (r: ColorCode)
        ensures
            r == self@.color,
    {
        self.color_code
    }

    /// The cursor column.
    pub fn column_position(&self) -> (r: usize)
        ensures
            r == self@.col,
    {
        self.column_position
    }
}

/// Law: a printable sequence that fits in the remainder of the current row
/// lands exactly at the cursor columns of the bottom row, each byte in the
/// active style, and no other cell changes.
pub proof fn lemma_printable_fits_in_row(
    grid: Seq<ScreenChar>,
    col: int,
    color: ColorCode,
    s: Seq<u8>,
)
    requires
        grid.len() == BUFFER_SIZE,
        0 <= col,
        col + s.len() <= BUFFER_WIDTH,
        forall|i: int| 0 <= i < s.len() ==> is_printable(#[trigger] s[i]),
    ensures
        bytes_written(grid, col, color, s).1 == col + s.len(),
        forall|i: int|
            0 <= i < s.len() ==> bytes_written(grid, col, color, s).0[bottom_index(col + i)]
                == cell(s[i], color),
        forall|j: int|
            0 <= j < BUFFER_SIZE && !(bottom_index(col) <= j < bottom_index(col + s.len()))
                ==> bytes_written(grid, col, color, s).0[j] == grid[j],
    decreases s.len(),
{
    if s.len() > 0 {
        assert(is_printable(s[0]));
        let b = rendered_byte(s[0]);
        assert(b == s[0] && b != 0x0a);
        let g1 = grid.update(bottom_index(col), cell(s[0], color));
        assert(byte_written(grid, col, color, b) == (g1, col + 1));
        assert(forall|i: int|
            0 <= i < s.drop_first().len() ==> is_printable(#[trigger] s.drop_first()[i]));
        lemma_printable_fits_in_row(g1, col + 1, color, s.drop_first());
        let fin = bytes_written(grid, col, color, s);
        assert(fin == bytes_written(g1, col + 1, color, s.drop_first()));
        assert forall|i: int| 0 <= i < s.len() implies fin.0[bottom_index(col + i)] == cell(
            s[i],
            color,
        ) by {
            if i == 0 {
                assert(fin.0[bottom_index(col)] == g1[bottom_index(col)]);
            } else {
                assert(s.drop_first()[i - 1] == s[i]);
                assert(fin.0[bottom_index(col + 1 + (i - 1))] == cell(s.drop_first()[i - 1], color));
            }
        }
        assert forall|j: int|
            0 <= j < BUFFER_SIZE && !(bottom_index(col) <= j < bottom_index(
                col + s.len(),
            )) implies fin.0[j] == grid[j] by {
            assert(!(bottom_index(col + 1) <= j < bottom_index(col + 1 + s.drop_first().len())));
            assert(fin.0[j] == g1[j]);
            assert(g1[j] == grid[j]);
        }
    }
}

/// Number of scrolls performed while writing `s` from column `col`: one for
/// every newline and one for every byte that finds the cursor past the last
/// column.
pub open spec fn scroll_count(col: int, s: Seq<u8>) -> int
    decreases s.len(),
{
    if s.len() == 0 {
        0
    } else if rendered_byte(s[0]) == 0x0a {
        1 + scroll_count(0, s.drop_first())
    } else if col >= BUFFER_WIDTH {
        1 + scroll_count(1, s.drop_first())
    } else {
        scroll_count(col + 1, s.drop_first())
    }
}

/// Writing never changes the grid's size, and a cursor that starts inside
/// the row stays inside it.
pub proof fn lemma_bytes_written_wf(grid: Seq<ScreenChar>, col: int, color: ColorCode, s: Seq<u8>)
    requires
        grid.len() == BUFFER_SIZE,
        0 <= col <= BUFFER_WIDTH,
    ensures
        bytes_written(grid, col, color, s).0.len() == BUFFER_SIZE,
        0 <= bytes_written(grid, col, color, s).1 <= BUFFER_WIDTH,
    decreases s.len(),
{
    if s.len() > 0 {
        let b = rendered_byte(s[0]);
        let (g, c) = byte_written(grid, col, color, b);
        assert(g.len() == BUFFER_SIZE);
        assert(0 <= c <= BUFFER_WIDTH);
        lemma_bytes_written_wf(g, c, color, s.drop_first());
        assert(bytes_written(grid, col, color, s) == bytes_written(g, c, color, s.drop_first()));
    }
}

/// Law: writing printable bytes with no newline scrolls exactly once per
/// completed row — `(col + n − 1) / width` times — and leaves the cursor
/// `width · scrolls` short of `col + n`.
pub proof fn lemma_scroll_once_per_row(
    grid: Seq<ScreenChar>,
    col: int,
    color: ColorCode,
    s: Seq<u8>,
)
    requires
        0 <= col <= BUFFER_WIDTH,
        s.len() >= 1,
        forall|i: int| 0 <= i < s.len() ==> is_printable(#[trigger] s[i]),
    ensures
        scroll_count(col, s) == (col + s.len() - 1) / (BUFFER_WIDTH as int),
        bytes_written(grid, col, color, s).1 == col + s.len() - BUFFER_WIDTH * scroll_count(
            col,
            s,
        ),
    decreases s.len(),
{
    let w = BUFFER_WIDTH as int;
    assert(is_printable(s[0]));
    let b = rendered_byte(s[0]);
    assert(b == s[0] && b != 0x0a);
    let (g, c) = byte_written(grid, col, color, b);
    assert(bytes_written(grid, col, color, s) == bytes_written(g, c, color, s.drop_first()));
    assert(forall|i: int|
        0 <= i < s.drop_first().len() ==> is_printable(#[trigger] s.drop_first()[i]));
    if s.len() == 1 {
        assert(bytes_written(g, c, color, s.drop_first()) == (g, c));
        assert(scroll_count(0, s.drop_first()) == 0);
        assert(scroll_count(1, s.drop_first()) == 0);
        assert(scroll_count(col + 1, s.drop_first()) == 0);
        if col >= BUFFER_WIDTH {
            assert(col == BUFFER_WIDTH);
            assert((col + 0) / w == 1) by {
                vstd::arithmetic::div_mod::lemma_div_by_self(w);
            }
        } else {
            assert((col + 0) / w == 0) by {
                vstd::arithmetic::div_mod::lemma_basic_div(col, w);
            }
        }
    } else {
        lemma_scroll_once_per_row(g, c, color, s.drop_first());
        if col >= BUFFER_WIDTH {
            assert(col == BUFFER_WIDTH);
            assert(1 + (s.len() - 1) / w == (w + (s.len() - 1)) / w) by {
                vstd::arithmetic::div_mod::lemma_div_plus_one(s.len() - 1, w);
            }
        }
    }
}

/// Law: agreement between two grids spreads one row down at every scroll.
/// Writing the same bytes from the same cursor into two grids that agree
/// from position `t` on leaves grids that agree from `t − width · scrolls`
/// on, and the same cursor.
pub proof fn lemma_written_grids_agree(
    g1: Seq<ScreenChar>,
    g2: Seq<ScreenChar>,
    col: int,
    color: ColorCode,
    s: Seq<u8>,
    t: int,
)
    requires
        g1.len() == BUFFER_SIZE,
        g2.len() == BUFFER_SIZE,
        0 <= col <= BUFFER_WIDTH,
        forall|j: int| 0 <= j < BUFFER_SIZE && t <= j ==> g1[j] == g2[j],
    ensures
        forall|j: int|
            0 <= j < BUFFER_SIZE && t - BUFFER_WIDTH * scroll_count(col, s) <= j ==> bytes_written(
                g1,
                col,
                color,
                s,
            ).0[j] == bytes_written(g2, col, color, s).0[j],
        bytes_written(g1, col, color, s).1 == bytes_written(g2, col, color, s).1,
    decreases s.len(),
{
    if s.len() > 0 {
        let b = rendered_byte(s[0]);
        if b == 0x0a {
            let h1 = scrolled(g1, color);
            let h2 = scrolled(g2, color);
            assert(forall|j: int|
                0 <= j < BUFFER_SIZE && t - BUFFER_WIDTH <= j ==> h1[j] == h2[j]);
            lemma_written_grids_agree(h1, h2, 0, color, s.drop_first(), t - BUFFER_WIDTH);
        } else if col >= BUFFER_WIDTH {
            let h1 = scrolled(g1, color).update(bottom_index(0), cell(b, color));
            let h2 = scrolled(g2, color).update(bottom_index(0), cell(b, color));
            assert(forall|j: int|
                0 <= j < BUFFER_SIZE && t - BUFFER_WIDTH <= j ==> h1[j] == h2[j]);
            lemma_written_grids_agree(h1, h2, 1, color, s.drop_first(), t - BUFFER_WIDTH);
        } else {
            let h1 = g1.update(bottom_index(col), cell(b, color));
            let h2 = g2.update(bottom_index(col), cell(b, color));
            assert(forall|j: int| 0 <= j < BUFFER_SIZE && t <= j ==> h1[j] == h2[j]);
            lemma_written_grids_agree(h1, h2, col + 1, color, s.drop_first(), t);
        }
    }
}

/// Law: after more than height · width printable bytes, the grid depends
/// only on what was written — nothing of its original contents, the top
/// row's included, is left anywhere in it.
pub proof fn lemma_original_contents_overwritten(
    g1: Seq<ScreenChar>,
    g2: Seq<ScreenChar>,
    color: ColorCode,
    s: Seq<u8>,
)
    requires
        g1.len() == BUFFER_SIZE,
        g2.len() == BUFFER_SIZE,
        s.len() > BUFFER_SIZE,
        forall|i: int| 0 <= i < s.len() ==> is_printable(#[trigger] s[i]),
    ensures
        bytes_written(g1, 0, color, s).0 =~= bytes_written(g2, 0, color, s).0,
{
    let w = BUFFER_WIDTH as int;
    lemma_scroll_once_per_row(g1, 0, color, s);
    assert(scroll_count(0, s) >= BUFFER_HEIGHT) by {
        assert((BUFFER_SIZE as int) / w == BUFFER_HEIGHT) by {
            vstd::arithmetic::div_mod::lemma_fundamental_div_mod_converse(
                BUFFER_SIZE as int,
                w,
                BUFFER_HEIGHT as int,
                0,
            );
        }
        vstd::arithmetic::div_mod::lemma_div_is_ordered(BUFFER_SIZE as int, s.len() - 1, w);
    }
    lemma_written_grids_agree(g1, g2, 0, color, s, BUFFER_SIZE as int);
    lemma_bytes_written_wf(g1, 0, color, s);
    lemma_bytes_written_wf(g2, 0, color, s);
}

/// Law: a byte outside the printable range that is not a newline is stored
/// as the placeholder glyph 0xFE, never as itself: writing it is exactly
/// writing 0xFE, and the placeholder cell lands where the cursor stood.
pub proof fn lemma_unprintable_substituted(
    grid: Seq<ScreenChar>,
    col: int,
    color: ColorCode,
    b: u8,
)
    requires
        grid.len() == BUFFER_SIZE,
        0 <= col <= BUFFER_WIDTH,
        !is_printable(b),
        b != 0x0a,
    ensures
        rendered_byte(b) == 0xfe,
        bytes_written(grid, col, color, seq![b]).0 == byte_written(grid, col, color, 0xfe).0,
        bytes_written(grid, col, color, seq![b]).1 == byte_written(grid, col, color, 0xfe).1,
        ({
            let landing = if col >= BUFFER_WIDTH {
                0int
            } else {
                col
            };
            bytes_written(grid, col, color, seq![b]).0[bottom_index(landing)] == cell(0xfe, color)
        }),
{
    assert(seq![b][0] == b);
    assert(seq![b].drop_first() =~= Seq::<u8>::empty());
    let (g, c) = byte_written(grid, col, color, 0xfe);
    assert(bytes_written(g, c, color, seq![b].drop_first()) == (g, c));
}

} // verus!
