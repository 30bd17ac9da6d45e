use vstd::prelude::*;
use crate::interrupts::PortWrite;
use crate::screen::{
    cell_index, char_bytes, debug_clip, debug_used, entry, lemma_write_bytes_append,
    lemma_write_bytes_wf, Screen, DEBUG_COLUMN, DEBUG_WIDTH, SCREEN_CELLS, VGA_HEIGHT, VGA_WIDTH,
};
use crate::vgacolor::{attribute, make_color, VgaColor};

verus! {

/// CRT controller index port.
pub const CRTC_INDEX_PORT: u16 = 0x3D4;

/// CRT controller data port.
pub const CRTC_DATA_PORT: u16 = 0x3D5;

/// CRT controller register holding the low byte of the cursor position.
pub const CURSOR_LOW_REGISTER: u8 = 0x0F;

/// CRT controller register holding the high byte of the cursor position.
pub const CURSOR_HIGH_REGISTER: u8 = 0x0E;

/// The port writes that place the hardware cursor at cell `position`.
pub open spec fn cursor_port_writes(position: int) -> Seq<PortWrite> {
    seq![
        PortWrite { port: CRTC_INDEX_PORT, value: CURSOR_LOW_REGISTER },
        PortWrite { port: CRTC_DATA_PORT, value: (position % 256) as u8 },
        PortWrite { port: CRTC_INDEX_PORT, value: CURSOR_HIGH_REGISTER },
        PortWrite { port: CRTC_DATA_PORT, value: (position / 256 % 256) as u8 },
    ]
}

/// The 25 x 80 character cells of a text screen, row by row.
pub struct Buffer {
    pub chars: Vec<u16>,
}

impl Buffer {
    /// The buffer has one cell per screen position.
    pub open spec fn wf(&self) -> bool {
        self.chars@.len() == SCREEN_CELLS
    }

    /// A screen buffer with every cell zero.
    pub fn new() -> (b: Buffer)
        ensures
            b.wf(),
            forall|i: int| 0 <= i < SCREEN_CELLS ==> b.chars@[i] == 0,
    {
        let mut chars: Vec<u16> = Vec::new();
        while chars.len() < SCREEN_CELLS
            invariant
                chars@.len() <= SCREEN_CELLS,
                forall|i: int| 0 <= i < chars@.len() ==> chars@[i] == 0,
            decreases SCREEN_CELLS - chars@.len(),
        {
            chars.push(0);
        }
        Buffer { chars }
    }
}

/// The cell value for character `c` drawn with attribute `color`.
fn make_entry(c: u8, color: u8) -> (r: u16)
    ensures
        r == entry(c, color),
{
    let r = ((color as u16) << 8) | (c as u16);
    assert(r == color * 256 + c) by (bit_vector)
        requires
            r == ((color as u16) << 8) | (c as u16),
    ;
    r
}

/// A text terminal drawing into a screen buffer: a cursor, the attribute
/// byte used for new characters, and the buffer itself.
pub struct ScreenTerminal {
    pos_height: usize,
    pos_width: usize,
    color_code: u8,
    buffer: Buffer,
}

impl View for ScreenTerminal {
    type V = Screen;

    closed spec fn view(&self) -> Screen {
        Screen {
            row: self.pos_height as int,
            col: self.pos_width as int,
            color: self.color_code,
            cells: self.buffer.chars@,
        }
    }
}

impl ScreenTerminal {
    /// A terminal drawing into `buffer` with attribute `choose_color`, the
    /// cursor in the top left corner.
    pub fn new(buffer: Buffer, choose_color: u8) -> (t: Self)
        requires
            buffer.wf(),
        ensures
            t@ == (Screen { row: 0, col: 0, color: choose_color, cells: buffer.chars@ }),
            t@.wf(),
    {
        ScreenTerminal { pos_height: 0, pos_width: 0, color_code: choose_color, buffer }
    }

    /// The buffer being drawn into.
    pub fn buffer(&self) -> (b: &Buffer)
        ensures
            b.chars@ == self@.cells,
    {
        &self.buffer
    }

    /// The cursor as (column, row).
    pub fn cursor_position(&self) -> (r: (usize, usize))
        ensures
            r.0 == self@.col,
            r.1 == self@.row,
    {
        (self.pos_width, self.pos_height)
    }

    /// The attribute byte used for new characters.
    pub fn color(&self) -> (r: u8)
        ensures
            r == self@.color,
    {
        self.color_code
    }

    /// Stores character `c` with attribute `color` at `width`, `height`.
    fn put_entry_at(&mut self, c: u8, color: u8, width: usize, height: usize)
        requires
            old(self)@.cells.len() == SCREEN_CELLS,
            width < VGA_WIDTH,
            height < VGA_HEIGHT,
        ensures
            final(self)@ == old(self)@.put(c, color, width as int, height as int),
    {
        let e = make_entry(c, color);
        self.buffer.chars.set(height * VGA_WIDTH + width, e);
    }

    /// Moves rows 2 to 24 up by one row, keeping the top row, blanks the
    /// bottom row and puts the cursor on it.
    fn scroll(&mut self)
        requires
            old(self)@.cells.len() == SCREEN_CELLS,
        ensures
            final(self)@ == old(self)@.scrolled(),
    {
        let mut i: usize = VGA_WIDTH;
        while i < SCREEN_CELLS - VGA_WIDTH
            invariant
                VGA_WIDTH <= i <= SCREEN_CELLS - VGA_WIDTH,
                self.buffer.chars@.len() == SCREEN_CELLS,
                self.pos_width == old(self).pos_width,
                self.pos_height == old(self).pos_height,
                self.color_code == old(self).color_code,
                forall|j: int| 0 <= j < VGA_WIDTH ==> self.buffer.chars@[j] == old(self)@.cells[j],
                forall|j: int|
                    VGA_WIDTH <= j < i ==> self.buffer.chars@[j] == old(self)@.cells[j + VGA_WIDTH],
                forall|j: int| i <= j < SCREEN_CELLS ==> self.buffer.chars@[j] == old(self)@.cells[j],
            decreases SCREEN_CELLS - VGA_WIDTH - i,
        {
            let v = self.buffer.chars[i + VGA_WIDTH];
            self.buffer.chars.set(i, v);
            i = i + 1;
        }
        let blank = make_entry(32, self.color_code);
        while i < SCREEN_CELLS
            invariant
                SCREEN_CELLS - VGA_WIDTH <= i <= SCREEN_CELLS,
                self.buffer.chars@.len() == SCREEN_CELLS,
                self.pos_width == old(self).pos_width,
                self.pos_height == old(self).pos_height,
                self.color_code == old(self).color_code,
                blank == entry(32, old(self).color_code),
                forall|j: int| 0 <= j < VGA_WIDTH ==> self.buffer.chars@[j] == old(self)@.cells[j],
                forall|j: int|
                    VGA_WIDTH <= j < SCREEN_CELLS - VGA_WIDTH ==> self.buffer.chars@[j]
                        == old(self)@.cells[j + VGA_WIDTH],
                forall|j: int| SCREEN_CELLS - VGA_WIDTH <= j < i ==> self.buffer.chars@[j] == blank,
            decreases SCREEN_CELLS - i,
        {
            self.buffer.chars.set(i, blank);
            i = i + 1;
        }
        self.pos_height = VGA_HEIGHT - 1;
        assert(self.buffer.chars@ =~= old(self)@.scrolled().cells);
    }

    /// Writes one byte at the cursor: a newline moves to the start of the
    /// next line, anything else is drawn in the current colour and the
    /// cursor advances, wrapping and scrolling as needed.
    fn write_char(&mut self, c: u8)
        requires
            old(self)@.wf(),
        ensures
            final(self)@ == old(self)@.write_byte(c),
            final(self)@.wf(),
    {
        if c == 10 {
            self.pos_width = 0;
            self.pos_height = self.pos_height + 1;
            if self.pos_height >= VGA_HEIGHT {
                self.scroll();
            }
        } else {
            self.put_entry_at(c, self.color_code, self.pos_width, self.pos_height);
            self.pos_width = self.pos_width + 1;
            if self.pos_width >= VGA_WIDTH {
                self.pos_width = 0;
                self.pos_height = self.pos_height + 1;
                if self.pos_height >= VGA_HEIGHT {
                    self.scroll();
                }
            }
        }
    }

    /// Writes byte `b` taken as the character U+0000..U+00FF, that is its
    /// UTF-8 encoding: one byte below 0x80, two bytes from 0x80 on.
    pub fn write_scalar(&mut self, b: u8)
        requires
            old(self)@.wf(),
        ensures
            final(self)@ == old(self)@.write_bytes(char_bytes(b)),
            final(self)@.wf(),
    {
        let ghost s0 = self@;
        if b < 0x80 {
            self.write_char(b);
            assert(char_bytes(b).drop_first() =~= Seq::<u8>::empty());
            assert(s0.write_byte(b).write_bytes(Seq::<u8>::empty()) == s0.write_byte(b));
        } else {
            let lead = 0xC0u8 | (b >> 6);
            let tail = 0x80u8 | (b & 0x3F);
            assert(lead == 0xC0 + b / 64 && tail == 0x80 + b % 64) by (bit_vector)
                requires
                    b >= 0x80,
                    lead == 0xC0u8 | (b >> 6),
                    tail == 0x80u8 | (b & 0x3F),
            ;
            self.write_char(lead);
            self.write_char(tail);
            let ghost s1 = s0.write_byte(lead);
            let ghost rest = char_bytes(b).drop_first();
            assert(rest.drop_first() =~= Seq::<u8>::empty());
            assert(rest[0] == tail);
            assert(s1.write_byte(tail).write_bytes(Seq::<u8>::empty()) == s1.write_byte(tail));
            assert(s1.write_bytes(rest) == s1.write_byte(tail));
            assert(s0.write_bytes(char_bytes(b)) == s0.write_byte(lead).write_bytes(
                char_bytes(b).drop_first(),
            ));
        }
    }

    /// Writes the bytes of `s` in order, as `write_char` does each one.
    pub fn write_str(&mut self, s: &[u8])
        requires
            old(self)@.wf(),
        ensures
            final(self)@ == old(self)@.write_bytes(s@),
            final(self)@.wf(),
    {
        let mut i: usize = 0;
        assert(s@.subrange(0, s@.len() as int) =~= s@);
        while i < s.len()
            invariant
                0 <= i <= s@.len(),
                self@.wf(),
                self@.write_bytes(s@.subrange(i as int, s@.len() as int)) == old(self)@.write_bytes(
                    s@,
                ),
            decreases s@.len() - i,
        {
            let ghost rest = s@.subrange(i as int, s@.len() as int);
            assert(rest.drop_first() =~= s@.subrange(i + 1, s@.len() as int));
            self.write_char(s[i]);
            i = i + 1;
        }
        assert(s@.subrange(i as int, s@.len() as int) =~= Seq::<u8>::empty());
    }

    /// Sets the attribute byte for new characters.
    pub fn set_color(&mut self, frontg: VgaColor, backg: VgaColor)
        ensures
            final(self)@ == old(self)@.with_color(attribute(frontg, backg)),
    {
        self.color_code = make_color(frontg, backg);
    }

    /// Moves the cursor one step left, see `Screen::cursor_left`.
    fn mov_cursor_left(&mut self)
        requires
            old(self)@.wf(),
        ensures
            final(self)@ == old(self)@.cursor_left(),
            final(self)@.wf(),
    {
        if self.pos_width > 0 {
            self.pos_width = self.pos_width - 1;
        } else {
            if self.pos_height > 1 {
                self.pos_width = VGA_WIDTH - 1;
            }
            if self.pos_height > 1 {
                self.pos_height = self.pos_height - 1;
            }
        }
    }

    /// Moves the cursor one step right, see `Screen::cursor_right`.
    fn mov_cursor_right(&mut self)
        requires
            old(self)@.wf(),
        ensures
            final(self)@ == old(self)@.cursor_right(),
            final(self)@.wf(),
    {
        if self.pos_width < VGA_WIDTH - 1 {
            self.pos_width = self.pos_width + 1;
        } else {
            if self.pos_height < VGA_HEIGHT - 2 {
                self.pos_width = 0;
            }
            if self.pos_height < VGA_HEIGHT - 1 {
                self.pos_height = self.pos_height + 1;
            }
        }
    }

    /// Moves the cursor one row up, not into the top row.
    fn mov_cursor_up(&mut self)
        requires
            old(self)@.wf(),
        ensures
            final(self)@ == old(self)@.cursor_up(),
            final(self)@.wf(),
    {
        if self.pos_height > 1 {
            self.pos_height = self.pos_height - 1;
        }
    }

    /// Moves the cursor one row down, not past the bottom row.
    fn mov_cursor_down(&mut self)
        requires
            old(self)@.wf(),
        ensures
            final(self)@ == old(self)@.cursor_down(),
            final(self)@.wf(),
    {
        if self.pos_height < VGA_HEIGHT - 1 {
            self.pos_height = self.pos_height + 1;
        }
    }

    /// The port writes that move the hardware cursor to this terminal's
    /// cursor.
    pub fn update_cursor(&self) -> (r: Vec<PortWrite>)
        requires
            self@.wf(),
        ensures
            r@ == cursor_port_writes(cell_index(self@.col, self@.row)),
    {
        let position = (self.pos_height * VGA_WIDTH) + self.pos_width;
        let low = (position & 0xFF) as u8;
        let high = ((position >> 8) & 0xFF) as u8;
        assert(low == position % 256 && high == position / 256 % 256) by (bit_vector)
            requires
                position < 2000,
                low == (position & 0xFF) as u8,
                high == ((position >> 8) & 0xFF) as u8,
        ;
        vec![
            PortWrite { port: CRTC_INDEX_PORT, value: CURSOR_LOW_REGISTER },
            PortWrite { port: CRTC_DATA_PORT, value: low },
            PortWrite { port: CRTC_INDEX_PORT, value: CURSOR_HIGH_REGISTER },
            PortWrite { port: CRTC_DATA_PORT, value: high },
        ]
    }

    /// Fills every cell with a NUL character in the current colour; the
    /// cursor stays where it is.
    pub fn clear_screen(&mut self)
        requires
            old(self)@.wf(),
        ensures
            final(self)@ == old(self)@.cleared(),
            final(self)@.wf(),
    {
        let blank = make_entry(0, self.color_code);
        let mut i: usize = 0;
        while i < SCREEN_CELLS
            invariant
                0 <= i <= SCREEN_CELLS,
                self.buffer.chars@.len() == SCREEN_CELLS,
                self.pos_width == old(self).pos_width,
                self.pos_height == old(self).pos_height,
                self.color_code == old(self).color_code,
                blank == entry(0, old(self).color_code),
                forall|j: int| 0 <= j < i ==> self.buffer.chars@[j] == blank,
            decreases SCREEN_CELLS - i,
        {
            self.buffer.chars.set(i, blank);
            i = i + 1;
        }
        assert(self.buffer.chars@ =~= old(self)@.cleared().cells);
    }

    /// Clears from column `x_start` of row `y_start` to the end of row
    /// `y_end`: the first row from `x_start` on, every later row whole.
    /// `x_end` is not consulted: the last row is always cleared to its end.
    fn clear_screen_at_to(&mut self, x_start: usize, y_start: usize, x_end: usize, y_end: usize)
        requires
            old(self)@.cells.len() == SCREEN_CELLS,
            y_start > y_end || y_end < VGA_HEIGHT || (y_start == y_end && x_start >= VGA_WIDTH),
        ensures
            final(self)@ == old(self)@.cleared_from(x_start as int, y_start as int, y_end as int),
    {
        let ghost lo = y_start * VGA_WIDTH + if x_start < VGA_WIDTH {
            x_start as int
        } else {
            VGA_WIDTH as int
        };
        if y_start > y_end {
            assert(self.buffer.chars@ =~= old(self)@.cleared_from(
                x_start as int,
                y_start as int,
                y_end as int,
            ).cells);
            return ;
        }
        let blank = make_entry(0, self.color_code);
        let mut x_from = x_start;
        let mut height = y_start;
        loop
            invariant_except_break
                y_start <= height <= y_end,
                height == y_start || x_from == 0,
                height == y_start ==> x_from == x_start,
                forall|j: int|
                    0 <= j < SCREEN_CELLS ==> self.buffer.chars@[j] == if lo <= j < height
                        * VGA_WIDTH {
                        blank
                    } else {
                        old(self)@.cells[j]
                    },
            invariant
                self.buffer.chars@.len() == SCREEN_CELLS,
                self.pos_width == old(self).pos_width,
                self.pos_height == old(self).pos_height,
                self.color_code == old(self).color_code,
                blank == entry(0, old(self).color_code),
                y_start > y_end || y_end < VGA_HEIGHT || (y_start == y_end && x_start
                    >= VGA_WIDTH),
                lo == y_start * VGA_WIDTH + if x_start < VGA_WIDTH {
                    x_start as int
                } else {
                    VGA_WIDTH as int
                },
            ensures
                forall|j: int|
                    0 <= j < SCREEN_CELLS ==> self.buffer.chars@[j] == if lo <= j < (y_end + 1)
                        * VGA_WIDTH {
                        blank
                    } else {
                        old(self)@.cells[j]
                    },
            decreases y_end - height,
        {
            let mut width = x_from;
            while width < VGA_WIDTH
                invariant
                    x_from <= width,
                    y_start <= height <= y_end,
                    height == y_start || x_from == 0,
                    height == y_start ==> x_from == x_start,
                    width < VGA_WIDTH ==> height < VGA_HEIGHT,
                    self.buffer.chars@.len() == SCREEN_CELLS,
                    self.pos_width == old(self).pos_width,
                    self.pos_height == old(self).pos_height,
                    self.color_code == old(self).color_code,
                    blank == entry(0, old(self).color_code),
                    lo == y_start * VGA_WIDTH + if x_start < VGA_WIDTH {
                        x_start as int
                    } else {
                        VGA_WIDTH as int
                    },
                    forall|j: int|
                        0 <= j < SCREEN_CELLS ==> self.buffer.chars@[j] == if lo <= j < height
                            * VGA_WIDTH + if width < VGA_WIDTH {
                            width as int
                        } else {
                            VGA_WIDTH as int
                        } {
                            blank
                        } else {
                            old(self)@.cells[j]
                        },
                decreases VGA_WIDTH - width,
            {
                self.buffer.chars.set(height * VGA_WIDTH + width, blank);
                width = width + 1;
            }
            if height == y_end {
                break ;
            }
            x_from = 0;
            height = height + 1;
        }
        assert(self.buffer.chars@ =~= old(self)@.cleared_from(
            x_start as int,
            y_start as int,
            y_end as int,
        ).cells);
    }

    /// The character byte of the cell at `width`, `height`; a space for a
    /// position off the screen.
    pub fn get_buffer_chars(&self, width: usize, height: usize) -> (r: u8)
        requires
            self@.wf(),
        ensures
            r == if width >= VGA_WIDTH || height >= VGA_HEIGHT {
                32u8
            } else {
                (self@.at(width as int, height as int) % 256) as u8
            },
    {
        if width >= VGA_WIDTH || height >= VGA_HEIGHT {
            return 32;
        }
        let cell = self.buffer.chars[height * VGA_WIDTH + width];
        let r = (cell & 0xFF) as u8;
        assert(r == cell % 256) by (bit_vector)
            requires
                r == (cell & 0xFF) as u8,
        ;
        r
    }

    /// The attribute byte of the cell at `width`, `height`; the current
    /// colour for a position off the screen.
    pub fn get_buffer_color(&self, width: usize, height: usize) -> (r: u8)
        requires
            self@.wf(),
        ensures
            r == if width >= VGA_WIDTH || height >= VGA_HEIGHT {
                self@.color
            } else {
                (self@.at(width as int, height as int) / 256) as u8
            },
    {
        if width >= VGA_WIDTH || height >= VGA_HEIGHT {
            return self.color_code;
        }
        let cell = self.buffer.chars[height * VGA_WIDTH + width];
        let r = ((cell >> 8) & 0xFF) as u8;
        assert(r == cell / 256) by (bit_vector)
            requires
                r == ((cell >> 8) & 0xFF) as u8,
        ;
        r
    }

    /// Draws into `new_buffer` from now on and hands back the buffer drawn
    /// into so far; the cursor and the colour stay.
    fn screen_change(&mut self, new_buffer: Buffer) -> (previous: Buffer)
        ensures
            final(self)@ == old(self)@.with_cells(new_buffer.chars@),
            previous.chars@ == old(self)@.cells,
    {
        let mut new_buffer = new_buffer;
        core::mem::swap(&mut self.buffer, &mut new_buffer);
        new_buffer
    }

    /// Writes the debug line: with the cursor moved to `pos_width`,
    /// `pos_height`, clears the top row from the debug column on, writes
    /// at most 37 characters of `text` there, then puts the cursor back.
    fn write_debug(&mut self, pos_width: usize, pos_height: usize, text: &[u8])
        requires
            old(self)@.wf(),
            (pos_width < VGA_WIDTH && pos_height < VGA_HEIGHT) || debug_clip(
                text@,
                DEBUG_WIDTH as nat,
            ).len() == 0,
        ensures
            final(self)@ == old(self)@.debug_written(pos_width as int, pos_height as int, text@),
            final(self)@.wf(),
    {
        let saved_width = self.pos_width;
        let saved_heigth = self.pos_height;

        self.pos_height = pos_height;
        self.pos_width = pos_width;

        self.clear_screen_at_to(DEBUG_COLUMN, 0, VGA_WIDTH - 1, 0);
        let ghost cleared = self@;
        {
            let mut clipper = DebugClipper::new(self, DEBUG_WIDTH);
            clipper.write_str(text);
        }
        proof {
            let clip = debug_clip(text@, DEBUG_WIDTH as nat);
            if clip.len() == 0 {
                assert(cleared.write_bytes(clip) == cleared);
            } else {
                lemma_write_bytes_wf(cleared, clip);
            }
        }
        self.pos_width = saved_width;
        self.pos_height = saved_heigth;
    }
}

/// Writes text to a terminal, at most `chars_left` characters of it,
/// dropping newlines.
pub struct DebugClipper<'a> {
    pub console: &'a mut ScreenTerminal,
    pub chars_left: usize,
}

impl<'a> DebugClipper<'a> {
    /// A writer that lets at most `max_chars` characters through to
    /// `console`.
    pub fn new(console: &'a mut ScreenTerminal, max_chars: usize) -> (c: Self)
        ensures
            *c.console == *old(console),
            *final(c.console) == *final(console),
            c.chars_left == max_chars,
    {
        DebugClipper { console, chars_left: max_chars }
    }

    /// Writes `s` through the clip: newlines are skipped, every other byte
    /// is written as the character it stands for and uses up one
    /// character, and writing stops when none is left.
    pub fn write_str(&mut self, s: &[u8])
        requires
            old(self).console@.wf() || debug_clip(s@, old(self).chars_left as nat).len() == 0,
        ensures
            final(self).console@ == old(self).console@.write_bytes(
                debug_clip(s@, old(self).chars_left as nat),
            ),
            final(self).chars_left == old(self).chars_left - debug_used(
                s@,
                old(self).chars_left as nat,
            ),
            old(self).console@.wf() ==> final(self).console@.wf(),
            *final(final(self).console) == *final(old(self).console),
    {
        let ghost target = old(self).console@.write_bytes(
            debug_clip(s@, old(self).chars_left as nat),
        );
        let ghost left0 = old(self).chars_left - debug_used(s@, old(self).chars_left as nat);
        let mut i: usize = 0;
        assert(s@.subrange(0, s@.len() as int) =~= s@);
        while i < s.len() && self.chars_left > 0
            invariant
                0 <= i <= s@.len(),
                self.console@.write_bytes(
                    debug_clip(s@.subrange(i as int, s@.len() as int), self.chars_left as nat),
                ) == target,
                self.chars_left - debug_used(
                    s@.subrange(i as int, s@.len() as int),
                    self.chars_left as nat,
                ) == left0,
                self.console@.wf() || debug_clip(
                    s@.subrange(i as int, s@.len() as int),
                    self.chars_left as nat,
                ).len() == 0,
                old(self).console@.wf() ==> self.console@.wf(),
                *final(self.console) == *final(old(self).console),
            decreases s@.len() - i,
        {
            let ghost rest = s@.subrange(i as int, s@.len() as int);
            let ghost left = self.chars_left as nat;
            assert(rest.drop_first() =~= s@.subrange(i + 1, s@.len() as int));
            assert(rest[0] == s[i as int]);
            let byte = s[i];
            if byte != 10 {
                proof {
                    lemma_write_bytes_append(
                        self.console@,
                        char_bytes(byte),
                        debug_clip(rest.drop_first(), (left - 1) as nat),
                    );
                }
                self.console.write_scalar(byte);
                self.chars_left = self.chars_left - 1;
            }
            i = i + 1;
        }
        proof {
            let rest = s@.subrange(i as int, s@.len() as int);
            if i == s.len() {
                assert(rest.len() == 0);
            }
        }
    }
}

/// What the kernel needs of a text console.
pub trait Console {
    /// The console is in a state in which its operations may be used.
    spec fn ready(&self) -> bool;

    /// Clears the whole screen.
    fn clear(&mut self)
        requires
            old(self).ready(),
        ensures
            final(self).ready(),
    ;

    /// Moves the cursor one row down.
    fn move_cursor_down(&mut self)
        requires
            old(self).ready(),
        ensures
            final(self).ready(),
    ;

    /// Moves the cursor one step left.
    fn move_cursor_left(&mut self)
        requires
            old(self).ready(),
        ensures
            final(self).ready(),
    ;

    /// Moves the cursor one step right.
    fn move_cursor_right(&mut self)
        requires
            old(self).ready(),
        ensures
            final(self).ready(),
    ;

    /// Moves the cursor one row up.
    fn move_cursor_up(&mut self)
        requires
            old(self).ready(),
        ensures
            final(self).ready(),
    ;

    /// Draws into `new_addr_buffer` from now on; the buffer drawn into so
    /// far is handed back.
    fn choose_screen_console(&mut self, new_addr_buffer: Buffer) -> (previous: Buffer)
        requires
            old(self).ready(),
            new_addr_buffer.wf(),
        ensures
            final(self).ready(),
    ;

    /// Sets the colours of new characters.
    fn set_other_color(&mut self, frontbg: VgaColor, backbg: VgaColor)
        requires
            old(self).ready(),
        ensures
            final(self).ready(),
    ;

    /// Draws `c` at `at_width`, `at_height` without moving the cursor.
    fn put_char_spe(&mut self, c: u8, at_width: usize, at_height: usize)
        requires
            old(self).ready(),
            at_width < VGA_WIDTH,
            at_height < VGA_HEIGHT,
        ensures
            final(self).ready(),
    ;

    /// Draws `c` under the cursor without moving it.
    fn change_char(&mut self, c: u8)
        requires
            old(self).ready(),
        ensures
            final(self).ready(),
    ;

    /// Writes `text` on the debug line, the cursor first moved to `x`, `y`.
    fn write_debug(&mut self, x: usize, y: usize, text: &[u8])
        requires
            old(self).ready(),
            (x < VGA_WIDTH && y < VGA_HEIGHT) || debug_clip(text@, DEBUG_WIDTH as nat).len() == 0,
        ensures
            final(self).ready(),
    ;
}

impl Console for ScreenTerminal {
    open spec fn ready(&self) -> bool {
        self@.wf()
    }

    fn clear(&mut self)
        ensures
            final(self)@ == old(self)@.cleared(),
    {
        self.clear_screen();
    }

    fn choose_screen_console(&mut self, new_addr_buffer: Buffer) -> (previous: Buffer)
        ensures
            final(self)@ == old(self)@.with_cells(new_addr_buffer.chars@),
            previous.chars@ == old(self)@.cells,
    {
        self.screen_change(new_addr_buffer)
    }

    fn move_cursor_left(&mut self)
        ensures
            final(self)@ == old(self)@.cursor_left(),
    {
        self.mov_cursor_left();
    }

    fn move_cursor_up(&mut self)
        ensures
            final(self)@ == old(self)@.cursor_up(),
    {
        self.mov_cursor_up();
    }

    fn move_cursor_right(&mut self)
        ensures
            final(self)@ == old(self)@.cursor_right(),
    {
        self.mov_cursor_right();
    }

    fn move_cursor_down(&mut self)
        ensures
            final(self)@ == old(self)@.cursor_down(),
    {
        self.mov_cursor_down();
    }

    fn put_char_spe(&mut self, c: u8, at_width: usize, at_height: usize)
        ensures
            final(self)@ == old(self)@.put(c, old(self)@.color, at_width as int, at_height as int),
    {
        self.put_entry_at(c, self.color_code, at_width, at_height);
    }

    fn change_char(&mut self, c: u8)
        ensures
            final(self)@ == old(self)@.put(c, old(self)@.color, old(self)@.col, old(self)@.row),
    {
        self.put_entry_at(c, self.color_code, self.pos_width, self.pos_height);
    }

    fn write_debug(&mut self, x: usize, y: usize, text: &[u8])
        ensures
            final(self)@ == old(self)@.debug_written(x as int, y as int, text@),
    {
        self.write_debug(x, y, text);
    }

    fn set_other_color(&mut self, frontbg: VgaColor, backbg: VgaColor)
        ensures
            final(self)@ == old(self)@.with_color(attribute(frontbg, backbg)),
    {
        self.set_color(frontbg, backbg);
    }
}

/// The two data bytes sent for the hardware cursor, low byte first, give
/// back the cursor's cell index.
pub proof fn lemma_cursor_writes_encode_position(s: Screen)
    requires
        s.wf(),
    ensures
        cursor_port_writes(cell_index(s.col, s.row))[1].value as int + cursor_port_writes(
            cell_index(s.col, s.row),
        )[3].value as int * 256 == cell_index(s.col, s.row),
{
    let p = cell_index(s.col, s.row);
    assert(0 <= p < SCREEN_CELLS);
    assert((p % 256) as u8 as int == p % 256);
    assert((p / 256 % 256) as u8 as int == p / 256);
}

/// The hardware cursor is placed by selecting register 0x0F on port
/// 0x3D4 and sending the low byte of the cell number row * 80 + col to
/// port 0x3D5, then selecting register 0x0E and sending the high byte.
pub proof fn lemma_cursor_writes_layout(s: Screen)
    requires
        s.wf(),
    ensures
        cursor_port_writes(cell_index(s.col, s.row)).len() == 4,
        cursor_port_writes(cell_index(s.col, s.row))[0] == (PortWrite { port: 0x3D4, value: 0x0F }),
        cursor_port_writes(cell_index(s.col, s.row))[2] == (PortWrite { port: 0x3D4, value: 0x0E }),
        cursor_port_writes(cell_index(s.col, s.row))[1].port == 0x3D5,
        cursor_port_writes(cell_index(s.col, s.row))[3].port == 0x3D5,
        cursor_port_writes(cell_index(s.col, s.row))[1].value as int + cursor_port_writes(
            cell_index(s.col, s.row),
        )[3].value as int * 256 == s.row * 80 + s.col,
{
    lemma_cursor_writes_encode_position(s);
}

} // verus!
