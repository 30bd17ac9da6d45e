use vstd::prelude::*;

verus! {

/// Rows of the VGA text screen.
pub const VGA_HEIGHT: usize = 25;

/// Columns of the VGA text screen.
pub const VGA_WIDTH: usize = 80;

/// Number of character cells on the screen.
pub const SCREEN_CELLS: usize = 2000;

/// Physical address at which the VGA text memory is mapped.
pub const VGA_HARDWARE_ADDR: usize = 0xB8000;

/// The column at which the debug line starts on the top row.
pub const DEBUG_COLUMN: usize = 42;

/// How many characters the debug line may hold.
pub const DEBUG_WIDTH: usize = 37;

/// Position of the cell at `col`, `row` in the row-major cell sequence.
pub open spec fn cell_index(col: int, row: int) -> int {
    row * VGA_WIDTH + col
}

/// A VGA cell: the attribute byte above the character byte.
pub open spec fn entry(c: u8, color: u8) -> u16 {
    (color * 256 + c) as u16
}

/// The bytes that one byte turns into when it is taken as a Unicode
/// scalar value (U+0000..U+00FF) and written out in UTF-8.
pub open spec fn char_bytes(b: u8) -> Seq<u8> {
    if b < 0x80 {
        seq![b]
    } else {
        seq![(0xC0 + b / 64) as u8, (0x80 + b % 64) as u8]
    }
}

/// What the clipped debug writer emits for `text` when `left` characters
/// may still be written: newlines are dropped, every other byte costs one
/// character and is emitted as `char_bytes`, and output stops when nothing
/// is left.
pub open spec fn debug_clip(text: Seq<u8>, left: nat) -> Seq<u8>
    decreases text.len(),
{
    if text.len() == 0 || left == 0 {
        Seq::empty()
    } else if text[0] == 10 {
        debug_clip(text.drop_first(), left)
    } else {
        char_bytes(text[0]) + debug_clip(text.drop_first(), (left - 1) as nat)
    }
}

/// How many characters the clipped debug writer spends on `text`.
pub open spec fn debug_used(text: Seq<u8>, left: nat) -> nat
    decreases text.len(),
{
    if text.len() == 0 || left == 0 {
        0
    } else if text[0] == 10 {
        debug_used(text.drop_first(), left)
    } else {
        1 + debug_used(text.drop_first(), (left - 1) as nat)
    }
}

/// The abstract state of a screen terminal: the cursor, the current
/// attribute byte and the 25 x 80 cells in row-major order.
pub struct Screen {
    pub row: int,
    pub col: int,
    pub color: u8,
    pub cells: Seq<u16>,
}

impl Screen {
    /// The cursor is on the screen and there is a cell for every position.
    pub open spec fn wf(self) -> bool {
        &&& 0 <= self.row < VGA_HEIGHT
        &&& 0 <= self.col < VGA_WIDTH
        &&& self.cells.len() == SCREEN_CELLS
    }

    /// The cell at `col`, `row`.
    pub open spec fn at(self, col: int, row: int) -> u16 {
        self.cells[cell_index(col, row)]
    }

    /// The same screen with the cursor moved to `col`, `row`.
    pub open spec fn with_cursor(self, col: int, row: int) -> Screen {
        Screen { row: row, col: col, ..self }
    }

    /// The same screen with the attribute byte replaced.
    pub open spec fn with_color(self, color: u8) -> Screen {
        Screen { color: color, ..self }
    }

    /// The same screen with the cells replaced.
    pub open spec fn with_cells(self, cells: Seq<u16>) -> Screen {
        Screen { cells: cells, ..self }
    }

    /// Stores character `c` with attribute `color` at `col`, `row`.
    pub open spec fn put(self, c: u8, color: u8, col: int, row: int) -> Screen {
        Screen { cells: self.cells.update(cell_index(col, row), entry(c, color)), ..self }
    }

    /// Scrolling: the top row stays, rows 2 to 24 move up one row (row 1 is
    /// lost), the bottom row is filled with blanks in the current colour and
    /// the cursor goes to the bottom row.
    pub open spec fn scrolled(self) -> Screen {
        Screen {
            row: VGA_HEIGHT - 1,
            cells: Seq::new(
                SCREEN_CELLS as nat,
                |i: int|
                    if i < VGA_WIDTH {
                        self.cells[i]
                    } else if i < SCREEN_CELLS - VGA_WIDTH {
                        self.cells[i + VGA_WIDTH]
                    } else {
                        entry(32, self.color)
                    },
            ),
            ..self
        }
    }

    /// Carriage return and line feed, scrolling past the bottom row.
    pub open spec fn line_feed(self) -> Screen {
        let s = self.with_cursor(0, self.row + 1);
        if s.row >= VGA_HEIGHT {
            s.scrolled()
        } else {
            s
        }
    }

    /// Writing one byte: a newline moves to the start of the next line;
    /// any other byte is stored at the cursor in the current colour and the
    /// cursor advances, wrapping at the end of the row.
    pub open spec fn write_byte(self, c: u8) -> Screen {
        if c == 10 {
            self.line_feed()
        } else {
            let s = self.put(c, self.color, self.col, self.row);
            if self.col + 1 >= VGA_WIDTH {
                s.line_feed()
            } else {
                s.with_cursor(self.col + 1, self.row)
            }
        }
    }

    /// Writing a sequence of bytes, first to last.
    pub open spec fn write_bytes(self, s: Seq<u8>) -> Screen
        decreases s.len(),
    {
        if s.len() == 0 {
            self
        } else {
            self.write_byte(s[0]).write_bytes(s.drop_first())
        }
    }

    /// Every cell holds a NUL character in the current colour.
    pub open spec fn cleared(self) -> Screen {
        self.with_cells(Seq::new(SCREEN_CELLS as nat, |i: int| entry(0, self.color)))
    }

    /// Clears from column `x` of row `y0` to the end of row `y1`: the
    /// first row from column `x` on, every later row whole.
    pub open spec fn cleared_from(self, x: int, y0: int, y1: int) -> Screen {
        let lo = y0 * VGA_WIDTH + if x < VGA_WIDTH { x } else { VGA_WIDTH as int };
        let hi = (y1 + 1) * VGA_WIDTH;
        self.with_cells(
            Seq::new(
                self.cells.len(),
                |i: int|
                    if lo <= i < hi {
                        entry(0, self.color)
                    } else {
                        self.cells[i]
                    },
            ),
        )
    }

    /// Cursor one step left; from the first column it goes to the end of
    /// the previous row, but never into the top row.
    pub open spec fn cursor_left(self) -> Screen {
        if self.col > 0 {
            self.with_cursor(self.col - 1, self.row)
        } else if self.row > 1 {
            self.with_cursor(VGA_WIDTH - 1, self.row - 1)
        } else {
            self
        }
    }

    /// Cursor one step right; from the last column it goes down a row,
    /// to the first column unless it reaches the bottom two rows.
    pub open spec fn cursor_right(self) -> Screen {
        if self.col < VGA_WIDTH - 1 {
            self.with_cursor(self.col + 1, self.row)
        } else {
            let col = if self.row < VGA_HEIGHT - 2 { 0 } else { self.col };
            let row = if self.row < VGA_HEIGHT - 1 { self.row + 1 } else { self.row };
            self.with_cursor(col, row)
        }
    }

    /// Cursor one row up, never into the top row.
    pub open spec fn cursor_up(self) -> Screen {
        if self.row > 1 {
            self.with_cursor(self.col, self.row - 1)
        } else {
            self
        }
    }

    /// Cursor one row down, stopping at the bottom row.
    pub open spec fn cursor_down(self) -> Screen {
        if self.row < VGA_HEIGHT - 1 {
            self.with_cursor(self.col, self.row + 1)
        } else {
            self
        }
    }

    /// The debug line: with the cursor at `x`, `y`, the top row is cleared
    /// from the debug column on, the clipped text is written, and the
    /// cursor is put back where it was.
    pub open spec fn debug_written(self, x: int, y: int, text: Seq<u8>) -> Screen {
        let t = self.with_cursor(x, y).cleared_from(DEBUG_COLUMN as int, 0, 0).write_bytes(
            debug_clip(text, DEBUG_WIDTH as nat),
        );
        t.with_cursor(self.col, self.row)
    }
}

/// Writing one byte keeps the screen well formed and keeps its colour.
pub proof fn lemma_write_byte_wf(s: Screen, c: u8)
    requires
        s.wf(),
    ensures
        s.write_byte(c).wf(),
        s.write_byte(c).color == s.color,
{
}

/// Writing bytes keeps the screen well formed and keeps its colour.
pub proof fn lemma_write_bytes_wf(s: Screen, bytes: Seq<u8>)
    requires
        s.wf(),
    ensures
        s.write_bytes(bytes).wf(),
        s.write_bytes(bytes).color == s.color,
    decreases bytes.len(),
{
    if bytes.len() > 0 {
        lemma_write_byte_wf(s, bytes[0]);
        lemma_write_bytes_wf(s.write_byte(bytes[0]), bytes.drop_first());
    }
}

/// Writing `a` and then `b` leaves the screen as writing `a + b` at once.
pub proof fn lemma_write_bytes_append(s: Screen, a: Seq<u8>, b: Seq<u8>)
    ensures
        s.write_bytes(a + b) == s.write_bytes(a).write_bytes(b),
    decreases a.len(),
{
    if a.len() == 0 {
        assert(a + b =~= b);
    } else {
        assert((a + b).drop_first() =~= a.drop_first() + b);
        lemma_write_bytes_append(s.write_byte(a[0]), a.drop_first(), b);
    }
}

/// Scrolling keeps the top row, moves rows 2 to 24 up by one, blanks the
/// bottom row in the current colour and leaves the cursor on the bottom
/// row, in the same column.
pub proof fn lemma_scroll_keeps_top_row(s: Screen)
    requires
        s.cells.len() == SCREEN_CELLS,
    ensures
        forall|c: int| 0 <= c < VGA_WIDTH ==> #[trigger] s.scrolled().at(c, 0) == s.at(c, 0),
        forall|c: int, r: int|
            0 <= c < VGA_WIDTH && 1 <= r < VGA_HEIGHT - 1 ==> #[trigger] s.scrolled().at(c, r)
                == s.at(c, r + 1),
        forall|c: int|
            0 <= c < VGA_WIDTH ==> #[trigger] s.scrolled().at(c, VGA_HEIGHT - 1) == entry(
                32,
                s.color,
            ),
        s.scrolled().row == VGA_HEIGHT - 1,
        s.scrolled().col == s.col,
        s.scrolled().color == s.color,
        s.scrolled().cells.len() == SCREEN_CELLS,
{
    assert forall|c: int, r: int|
        0 <= c < VGA_WIDTH && 1 <= r < VGA_HEIGHT - 1 implies #[trigger] s.scrolled().at(c, r)
        == s.at(c, r + 1) by {
        assert(cell_index(c, r) + VGA_WIDTH == cell_index(c, r + 1));
    }
}

/// A step right undoes a step left taken away from the first column, and
/// a step left undoes a step right taken away from the last column.
pub proof fn lemma_cursor_left_right_inverse(s: Screen)
    requires
        s.wf(),
    ensures
        s.col > 0 ==> s.cursor_left().cursor_right() == s,
        s.col < VGA_WIDTH - 1 ==> s.cursor_right().cursor_left() == s,
{
}

/// Cursor movements keep the screen well formed, never change a cell or
/// the colour, and never take the cursor from below the top row into it.
pub proof fn lemma_cursor_moves_stay_on_screen(s: Screen)
    requires
        s.wf(),
    ensures
        s.cursor_left().wf() && s.cursor_right().wf() && s.cursor_up().wf() && s.cursor_down().wf(),
        s.cursor_left().cells == s.cells && s.cursor_right().cells == s.cells,
        s.cursor_up().cells == s.cells && s.cursor_down().cells == s.cells,
        s.cursor_left().color == s.color && s.cursor_right().color == s.color,
        s.cursor_up().color == s.color && s.cursor_down().color == s.color,
        s.row >= 1 ==> s.cursor_left().row >= 1 && s.cursor_right().row >= 1 && s.cursor_up().row
            >= 1 && s.cursor_down().row >= 1,
{
}

/// A cell written with character `c` and attribute `color` reads back as
/// `c` in its low byte and `color` in its high byte.
pub proof fn lemma_entry_round_trip(c: u8, color: u8)
    ensures
        entry(c, color) % 256 == c,
        entry(c, color) / 256 == color,
{
    assert(color * 256 + c < 65536) by (nonlinear_arith)
        requires
            color < 256,
            c < 256,
    ;
}

/// Writing a character stores it, in the current colour, under the cursor
/// it started from; only that cell changes, unless the write scrolls.
pub proof fn lemma_write_byte_stores_under_cursor(s: Screen, c: u8)
    requires
        s.wf(),
        c != 10,
        s.col < VGA_WIDTH - 1 || s.row < VGA_HEIGHT - 1,
    ensures
        s.write_byte(c).at(s.col, s.row) == entry(c, s.color),
        forall|i: int|
            0 <= i < SCREEN_CELLS && i != cell_index(s.col, s.row) ==> s.write_byte(c).cells[i]
                == s.cells[i],
{
}

/// A character written into the last cell of the screen ends up, after
/// the scroll it causes, in the last cell of the row above, with the
/// cursor at the start of the bottom row.
pub proof fn lemma_write_last_cell_scrolls(s: Screen, c: u8)
    requires
        s.wf(),
        c != 10,
        s.col == VGA_WIDTH - 1,
        s.row == VGA_HEIGHT - 1,
    ensures
        s.write_byte(c).at(VGA_WIDTH - 1, VGA_HEIGHT - 2) == entry(c, s.color),
        s.write_byte(c).col == 0,
        s.write_byte(c).row == VGA_HEIGHT - 1,
        s.write_byte(c).at(0, 0) == s.at(0, 0),
{
}

/// Bytes without a newline that fit in the rest of the row are stored
/// one after the other from the cursor on; the cursor ends after them,
/// and no other cell changes.
pub proof fn lemma_write_within_row(s: Screen, bytes: Seq<u8>)
    requires
        s.wf(),
        s.col + bytes.len() < VGA_WIDTH,
        forall|i: int| 0 <= i < bytes.len() ==> bytes[i] != 10,
    ensures
        s.write_bytes(bytes).wf(),
        s.write_bytes(bytes).row == s.row,
        s.write_bytes(bytes).col == s.col + bytes.len(),
        s.write_bytes(bytes).color == s.color,
        forall|i: int|
            0 <= i < bytes.len() ==> #[trigger] s.write_bytes(bytes).at(s.col + i, s.row) == entry(
                bytes[i],
                s.color,
            ),
        forall|i: int|
            0 <= i < SCREEN_CELLS && !(cell_index(s.col, s.row) <= i < cell_index(s.col, s.row)
                + bytes.len()) ==> s.write_bytes(bytes).cells[i] == s.cells[i],
    decreases bytes.len(),
{
    if bytes.len() > 0 {
        let t = s.write_byte(bytes[0]);
        let rest = bytes.drop_first();
        assert forall|i: int| 0 <= i < rest.len() implies rest[i] != 10 by {
            assert(rest[i] == bytes[i + 1]);
        }
        lemma_write_within_row(t, rest);
        let u = t.write_bytes(rest);
        assert(s.write_bytes(bytes) == u);
        assert(t.col == s.col + 1 && t.row == s.row);
        assert forall|i: int|
            0 <= i < SCREEN_CELLS && !(cell_index(s.col, s.row) <= i < cell_index(s.col, s.row)
                + bytes.len()) implies u.cells[i] == s.cells[i] by {
            assert(!(cell_index(t.col, t.row) <= i < cell_index(t.col, t.row) + rest.len()));
            assert(u.cells[i] == t.cells[i]);
        }
        assert forall|i: int| 0 <= i < bytes.len() implies #[trigger] u.at(s.col + i, s.row)
            == entry(bytes[i], s.color) by {
            if i > 0 {
                assert(u.at(t.col + (i - 1), t.row) == entry(rest[i - 1], s.color));
            } else {
                let k = cell_index(s.col, s.row);
                assert(!(cell_index(t.col, t.row) <= k < cell_index(t.col, t.row) + rest.len()));
                assert(u.cells[k] == t.cells[k]);
            }
        }
    }
}

/// The clipped output of ASCII text holds at most `left` bytes, none of
/// them a newline.
pub proof fn lemma_clip_of_ascii(text: Seq<u8>, left: nat)
    requires
        forall|i: int| 0 <= i < text.len() ==> text[i] < 0x80,
    ensures
        debug_clip(text, left).len() <= left,
        forall|i: int| 0 <= i < debug_clip(text, left).len() ==> debug_clip(text, left)[i] != 10,
    decreases text.len(),
{
    if text.len() > 0 && left > 0 {
        let rest = text.drop_first();
        assert forall|i: int| 0 <= i < rest.len() implies rest[i] < 0x80 by {
            assert(rest[i] == text[i + 1]);
        }
        if text[0] == 10 {
            lemma_clip_of_ascii(rest, left);
        } else {
            lemma_clip_of_ascii(rest, (left - 1) as nat);
            let tail = debug_clip(rest, (left - 1) as nat);
            assert(debug_clip(text, left) == seq![text[0]] + tail);
            assert forall|i: int| 0 <= i < debug_clip(text, left).len() implies debug_clip(
                text,
                left,
            )[i] != 10 by {
                if i > 0 {
                    assert(debug_clip(text, left)[i] == tail[i - 1]);
                }
            }
        }
    }
}

/// The debug line of ASCII text stays on the top row from the debug
/// column on: every other cell, the cursor and the colour are as before.
pub proof fn lemma_debug_line_confined(s: Screen, text: Seq<u8>)
    requires
        s.wf(),
        forall|i: int| 0 <= i < text.len() ==> text[i] < 0x80,
    ensures
        s.debug_written(DEBUG_COLUMN as int, 0, text).wf(),
        s.debug_written(DEBUG_COLUMN as int, 0, text).row == s.row,
        s.debug_written(DEBUG_COLUMN as int, 0, text).col == s.col,
        s.debug_written(DEBUG_COLUMN as int, 0, text).color == s.color,
        forall|i: int|
            0 <= i < SCREEN_CELLS && !(DEBUG_COLUMN <= i < VGA_WIDTH) ==> s.debug_written(
                DEBUG_COLUMN as int,
                0,
                text,
            ).cells[i] == s.cells[i],
{
    let m = s.with_cursor(DEBUG_COLUMN as int, 0).cleared_from(DEBUG_COLUMN as int, 0, 0);
    let clip = debug_clip(text, DEBUG_WIDTH as nat);
    lemma_clip_of_ascii(text, DEBUG_WIDTH as nat);
    lemma_write_within_row(m, clip);
    let w = m.write_bytes(clip);
    assert forall|i: int| 0 <= i < SCREEN_CELLS && !(DEBUG_COLUMN <= i < VGA_WIDTH) implies w.cells[i]
        == s.cells[i] by {
        assert(!(cell_index(m.col, m.row) <= i < cell_index(m.col, m.row) + clip.len()));
        assert(w.cells[i] == m.cells[i]);
    }
}

/// A newline draws nothing: away from the bottom row it only moves the
/// cursor to the first column of the next row, and every cell stays.
/// On the bottom row it scrolls: the top row stays, every other row takes
/// the row below it, except that the bottom row becomes spaces in the
/// current colour, and the cursor goes to the first column of the bottom
/// row.
pub proof fn lemma_newline_draws_nothing(s: Screen)
    requires
        s.wf(),
    ensures
        s.write_byte(10).col == 0,
        s.write_byte(10).color == s.color,
        s.row < 24 ==> s.write_byte(10).cells == s.cells,
        s.row < 24 ==> s.write_byte(10).row == s.row + 1,
        s.row == 24 ==> s.write_byte(10).row == 24,
        s.row == 24 ==> s.write_byte(10).cells.len() == 2000,
        s.row == 24 ==> forall|i: int| 0 <= i < 80 ==> s.write_byte(10).cells[i] == s.cells[i],
        s.row == 24 ==> forall|i: int|
            80 <= i < 1920 ==> s.write_byte(10).cells[i] == s.cells[i + 80],
        s.row == 24 ==> forall|i: int|
            1920 <= i < 2000 ==> s.write_byte(10).cells[i] as int == s.color as int * 256 + 32,
{
    if s.row == 24 {
        lemma_entry_round_trip(32, s.color);
        assert(s.color * 256 + 32 < 65536);
    }
}

/// Any byte but a newline is stored in the cell under the cursor (cell
/// number row * 80 + col) as its character with the current colour in the
/// high byte; no other cell changes unless the byte fills the very last
/// cell and the screen scrolls. The cursor moves one column right, or to
/// the first column of the next row from the last column.
pub proof fn lemma_char_stored_at_cursor(s: Screen, c: u8)
    requires
        s.wf(),
        c != 10,
    ensures
        s.write_byte(c).color == s.color,
        s.col < 79 ==> s.write_byte(c).col == s.col + 1 && s.write_byte(c).row == s.row,
        s.col == 79 ==> s.write_byte(c).col == 0,
        s.col == 79 && s.row < 24 ==> s.write_byte(c).row == s.row + 1,
        s.col == 79 && s.row == 24 ==> s.write_byte(c).row == 24,
        !(s.col == 79 && s.row == 24) ==> s.write_byte(c).cells.len() == 2000
            && s.write_byte(c).cells[s.row * 80 + s.col] as int == s.color as int * 256 + c as int
            && forall|i: int|
            0 <= i < 2000 && i != s.row * 80 + s.col ==> s.write_byte(c).cells[i] == s.cells[i],
        s.col == 79 && s.row == 24 ==> s.write_byte(c).cells[1919] as int == s.color as int * 256
            + c as int,
{
    lemma_entry_round_trip(c, s.color);
    assert(s.color * 256 + c < 65536);
}

/// The cursor moves: down goes one row lower unless on the bottom row; up
/// goes one row higher unless on row 0 or 1; right goes one column right
/// unless in the last column; left goes one column left unless in the
/// first column. None of them changes a cell or the colour, and up undoes
/// down, down undoes up, away from those limits.
pub proof fn lemma_cursor_moves_by_one(s: Screen)
    requires
        s.wf(),
    ensures
        s.row < 24 ==> s.cursor_down().row == s.row + 1 && s.cursor_down().col == s.col,
        s.row == 24 ==> s.cursor_down().row == 24 && s.cursor_down().col == s.col,
        s.row > 1 ==> s.cursor_up().row == s.row - 1 && s.cursor_up().col == s.col,
        s.row <= 1 ==> s.cursor_up().row == s.row && s.cursor_up().col == s.col,
        s.col < 79 ==> s.cursor_right().col == s.col + 1 && s.cursor_right().row == s.row,
        s.col > 0 ==> s.cursor_left().col == s.col - 1 && s.cursor_left().row == s.row,
        s.col == 0 && s.row > 1 ==> s.cursor_left().col == 79 && s.cursor_left().row == s.row - 1,
        s.col == 79 && s.row < 23 ==> s.cursor_right().col == 0 && s.cursor_right().row == s.row
            + 1,
        s.col == 79 && s.row == 23 ==> s.cursor_right().col == 79 && s.cursor_right().row == 24,
        s.col == 79 && s.row == 24 ==> s.cursor_right().col == 79 && s.cursor_right().row == 24,
        s.col == 0 && s.row <= 1 ==> s.cursor_left().col == 0 && s.cursor_left().row == s.row,
        s.cursor_down().cells == s.cells && s.cursor_down().color == s.color,
        s.cursor_up().cells == s.cells && s.cursor_up().color == s.color,
        s.cursor_right().cells == s.cells && s.cursor_right().color == s.color,
        s.cursor_left().cells == s.cells && s.cursor_left().color == s.color,
        1 <= s.row < 24 ==> s.cursor_down().cursor_up() == s,
        s.row > 1 ==> s.cursor_up().cursor_down() == s,
{
}

/// Clearing puts a NUL in the current colour (the colour times 256) in
/// every one of the 2000 cells and keeps the cursor and the colour.
pub proof fn lemma_clear_blanks_all_cells(s: Screen)
    requires
        s.wf(),
    ensures
        s.cleared().cells.len() == 2000,
        forall|i: int| 0 <= i < 2000 ==> s.cleared().cells[i] as int == s.color as int * 256,
        s.cleared().row == s.row && s.cleared().col == s.col && s.cleared().color == s.color,
{
    lemma_entry_round_trip(0, s.color);
}

/// Clearing the debug region of the top row blanks columns 42 to 79 of
/// row 0 in the current colour and leaves every other cell, the cursor
/// and the colour as they were.
pub proof fn lemma_debug_region_clear(s: Screen)
    requires
        s.wf(),
    ensures
        s.cleared_from(42, 0, 0).cells.len() == 2000,
        forall|i: int|
            42 <= i < 80 ==> s.cleared_from(42, 0, 0).cells[i] as int == s.color as int * 256,
        forall|i: int|
            0 <= i < 2000 && !(42 <= i < 80) ==> s.cleared_from(42, 0, 0).cells[i] == s.cells[i],
        s.cleared_from(42, 0, 0).row == s.row && s.cleared_from(42, 0, 0).col == s.col,
{
    lemma_entry_round_trip(0, s.color);
}

/// A byte below 0x80 is written as itself; a byte from 0x80 on as two
/// bytes, a lead byte 110xxxxx holding its top two bits and a tail byte
/// 10xxxxxx holding its low six bits, which together give the byte back.
pub proof fn lemma_char_bytes_utf8(b: u8)
    ensures
        b < 0x80 ==> char_bytes(b) == seq![b],
        b >= 0x80 ==> char_bytes(b).len() == 2,
        b >= 0x80 ==> 0xC2 <= char_bytes(b)[0] <= 0xC3,
        b >= 0x80 ==> 0x80 <= char_bytes(b)[1] < 0xC0,
        b >= 0x80 ==> (char_bytes(b)[0] - 0xC0) * 64 + (char_bytes(b)[1] - 0x80) == b,
        forall|i: int| 0 <= i < char_bytes(b).len() ==> char_bytes(b)[i] != 10 || b == 10,
{
}

/// The clip of text with no newline and nothing from 0x80 on is the text
/// itself cut to at most `left` bytes; newlines are dropped and cost
/// nothing.
pub proof fn lemma_clip_is_prefix(text: Seq<u8>, left: nat)
    requires
        forall|i: int| 0 <= i < text.len() ==> text[i] < 0x80 && text[i] != 10,
    ensures
        debug_clip(text, left) == text.take(if text.len() < left { text.len() as int } else { left as int }),
        debug_used(text, left) == if text.len() < left { text.len() } else { left },
        debug_clip(seq![10u8] + text, left) == debug_clip(text, left),
    decreases text.len(),
{
    assert((seq![10u8] + text).drop_first() =~= text);
    if text.len() > 0 && left > 0 {
        let rest = text.drop_first();
        assert forall|i: int| 0 <= i < rest.len() implies rest[i] < 0x80 && rest[i] != 10 by {
            assert(rest[i] == text[i + 1]);
        }
        lemma_clip_is_prefix(rest, (left - 1) as nat);
        let n = if text.len() < left { text.len() as int } else { left as int };
        assert(seq![text[0]] + rest.take(n - 1) =~= text.take(n));
    } else {
        assert(text.take(0) =~= Seq::<u8>::empty());
    }
}

} // verus!
