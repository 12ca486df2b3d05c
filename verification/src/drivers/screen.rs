//! The VGA text-mode frame buffer: 25 rows of 80 characters, a cursor,
//! scrolling, and a writer that prints strings.
//!
//! `FrameBuffer` holds a copy of the text-mode video memory window and the
//! bytes it sends to the CRT controller's ports to move the hardware
//! cursor; the code that owns the machine copies the cells to 0xb8000 and
//! performs the port writes in order.

use vstd::prelude::*;
use crate::port::PortWrite;
use vstd::string::StringSliceAdditionalSpecFns;

verus! {

// Available colours of the VGA frame buffer.
pub const FB_BLACK: u8 = 0;
pub const FB_RED: u8 = 4;
pub const FB_DARK_GREY: u8 = 8;
pub const FB_LIGHT_RED: u8 = 12;
pub const FB_BLUE: u8 = 1;
pub const FB_MAGENTA: u8 = 5;
pub const FB_LIGHT_BLUE: u8 = 9;
pub const FB_LIGHT_MAGENTA: u8 = 13;
pub const FB_GREEN: u8 = 2;
pub const FB_BROWN: u8 = 6;
pub const FB_LIGHT_GREEN: u8 = 10;
pub const FB_LIGHT_BROWN: u8 = 14;
pub const FB_CYAN: u8 = 3;
pub const FB_LIGHT_GREY: u8 = 7;
pub const FB_LIGHT_CYAN: u8 = 11;
pub const FB_WHITE: u8 = 15;

/// CRT controller index register.
pub const FB_COMMAND_PORT: u16 = 0x3d4;
/// CRT controller data register.
pub const FB_DATA_PORT: u16 = 0x3d5;
/// Index of the cursor location's high byte.
pub const FB_SEND_HIGH: u8 = 14;
/// Index of the cursor location's low byte.
pub const FB_SEND_LOW: u8 = 15;

pub const FB_COLS: usize = 80;
pub const FB_ROWS: usize = 25;

/// Number of cells on the screen.
pub const FB_SIZE: usize = FB_COLS * FB_ROWS;

/// Number of character cells in the text-mode video memory window
/// (32 KiB from 0xb8000). Cells from `FB_SIZE` on are not displayed.
pub const VGA_CELLS: usize = 16384;

/// The attribute byte of a cell: `(foreground << 4) | background`.
#[derive(Clone, Copy, Debug, PartialEq, Eq, Structural)]
pub struct RepCode(pub u8);

/// One cell of the screen: a character and its attribute byte.
#[derive(Clone, Copy, Debug, PartialEq, Eq, Structural)]
pub struct ScreenChar {
    pub ascii_char: u8,
    pub rep_code: RepCode,
}

/// A position in the frame buffer, counted in cells from the top left.
#[derive(Clone, Copy, Debug)]
pub struct ScreenPointer(pub usize);

/// The text-mode video memory and the hardware cursor.
#[derive(Clone)]
pub struct FrameBuffer {
    cursor: ScreenPointer,
    cells: Vec<ScreenChar>,
    port_writes: Vec<PortWrite>,
}

/// What a `FrameBuffer` holds: the cursor, the cells of the video memory
/// window, and the port writes not yet handed out.
pub struct FrameView {
    pub cursor: nat,
    pub cells: Seq<ScreenChar>,
    pub ports: Seq<PortWrite>,
}

/// Prints strings in one attribute.
#[derive(Clone)]
pub struct WriteOut {
    pub rep_code: RepCode,
    pub frame_buff: FrameBuffer,
}

/// `write_str` was given more bytes than the screen holds.
#[derive(Clone, Copy, Debug, PartialEq, Eq, Structural)]
pub struct FmtError;

// ---------------------------------------------------------------------------
// The model.

/// The attribute byte for a foreground and a background colour; the
/// foreground keeps its low four bits.
pub open spec fn rep_code_of(foreground: u8, background: u8) -> u8 {
    (((foreground % 16) * 16) as u8) | background
}

/// The bytes that move the hardware cursor to `pos`.
pub open spec fn cursor_writes(pos: u16) -> Seq<PortWrite> {
    seq![
        PortWrite { port: FB_COMMAND_PORT, value: FB_SEND_HIGH },
        PortWrite { port: FB_DATA_PORT, value: (pos / 256) as u8 },
        PortWrite { port: FB_COMMAND_PORT, value: FB_SEND_LOW },
        PortWrite { port: FB_DATA_PORT, value: (pos % 256) as u8 },
    ]
}

/// The screen moved up one row: each of its cells takes the cell one row
/// below it (the last row takes the 80 cells after the screen), and the
/// cursor moves up one row.
pub open spec fn scrolled(v: FrameView) -> FrameView {
    FrameView {
        cursor: (v.cursor - FB_COLS) as nat,
        cells: Seq::new(
            v.cells.len(),
            |i: int|
                if i < FB_SIZE {
                    v.cells[i + FB_COLS]
                } else {
                    v.cells[i]
                },
        ),
        ports: v.ports,
    }
}

/// The cursor set to `pos`, the screen scrolled once if `pos` is off the
/// screen, and the hardware cursor moved to `pos`.
pub open spec fn moved(v: FrameView, pos: u16) -> FrameView {
    let w = FrameView { cursor: pos as nat, cells: v.cells, ports: v.ports };
    let w = if pos >= FB_SIZE {
        scrolled(w)
    } else {
        w
    };
    FrameView { cursor: w.cursor, cells: w.cells, ports: w.ports + cursor_writes(pos) }
}

/// The cursor one cell on; the hardware cursor follows while it is on the
/// screen.
pub open spec fn advanced(v: FrameView) -> FrameView {
    let c = v.cursor + 1;
    if c < FB_SIZE {
        FrameView { cursor: c, cells: v.cells, ports: v.ports + cursor_writes(c as u16) }
    } else {
        FrameView { cursor: c, cells: v.cells, ports: v.ports }
    }
}

/// The port writes of `n` cursor advances from `c`.
pub open spec fn advance_writes(c: nat, n: nat) -> Seq<PortWrite>
    decreases n,
{
    if n == 0 {
        seq![]
    } else {
        advance_writes(c, (n - 1) as nat) + if c + n < FB_SIZE {
            cursor_writes((c + n) as u16)
        } else {
            seq![]
        }
    }
}

/// The screen scrolled if the cursor is off it.
pub open spec fn on_screen(v: FrameView) -> FrameView {
    if v.cursor >= FB_SIZE {
        scrolled(v)
    } else {
        v
    }
}

/// `bytes` written in `rep_code` from the cursor on, the cursor past them.
pub open spec fn bytes_placed(w: FrameView, bytes: Seq<u8>, rep_code: RepCode) -> FrameView {
    FrameView {
        cursor: w.cursor + bytes.len(),
        cells: Seq::new(
            w.cells.len(),
            |i: int|
                if w.cursor <= i < w.cursor + bytes.len() {
                    ScreenChar { ascii_char: bytes[i - w.cursor], rep_code }
                } else {
                    w.cells[i]
                },
        ),
        ports: w.ports + advance_writes(w.cursor, bytes.len()),
    }
}

/// `bytes` written in `rep_code` from the cursor on, after one scroll if
/// the cursor is off the screen.
pub open spec fn buffer_written(v: FrameView, bytes: Seq<u8>, rep_code: RepCode) -> FrameView {
    bytes_placed(on_screen(v), bytes, rep_code)
}

/// One character put at the cursor (after one scroll if the cursor is off
/// the screen), the cursor advanced.
pub open spec fn char_put(v: FrameView, ch: ScreenChar) -> FrameView {
    let w = on_screen(v);
    advanced(FrameView { cursor: w.cursor, cells: w.cells.update(w.cursor as int, ch), ports: w.ports })
}

/// `ch` put `n` times.
pub open spec fn char_repeated(v: FrameView, ch: ScreenChar, n: nat) -> FrameView
    decreases n,
{
    if n == 0 {
        v
    } else {
        char_put(char_repeated(v, ch, (n - 1) as nat), ch)
    }
}

/// The byte that `write` prints for `b`: printable ASCII and newlines stay,
/// anything else shows as 0xfe.
pub open spec fn printed_byte(b: u8) -> u8 {
    if (0x20 <= b <= 0x7e) || b == 10 {
        b
    } else {
        0xfe
    }
}

/// The cursor at the start of the next row.
pub open spec fn line_broken(v: FrameView) -> FrameView {
    moved(v, ((v.cursor / FB_COLS as nat + 1) * FB_COLS as nat) as u16)
}

/// One byte written: a newline breaks the line, anything else is put at the
/// cursor.
pub open spec fn byte_written(v: FrameView, b: u8, rep_code: RepCode) -> FrameView {
    if b == 10 {
        line_broken(v)
    } else {
        buffer_written(v, seq![b], rep_code)
    }
}

/// The bytes of a string written one by one, each as `printed_byte` shows it.
pub open spec fn text_written(v: FrameView, bytes: Seq<u8>, rep_code: RepCode) -> FrameView
    decreases bytes.len(),
{
    if bytes.len() == 0 {
        v
    } else {
        byte_written(text_written(v, bytes.drop_last(), rep_code), printed_byte(bytes.last()), rep_code)
    }
}


// ---------------------------------------------------------------------------
// The code.

impl RepCode {
    pub fn new(foreground: u8, background: u8) -> (r: RepCode)
        ensures
            r.0 == rep_code_of(foreground, background),
    {
        assert((foreground << 4u8) == (((foreground % 16) * 16) as u8)) by (bit_vector);
        RepCode((foreground << 4) | background)
    }
}

impl Default for ScreenPointer {
    fn default() -> (r: ScreenPointer)
        ensures
            r.0 == 0,
    {
        ScreenPointer(0)
    }
}

impl ScreenPointer {
    pub fn from_xy(column_pos: usize, row: usize) -> (r: ScreenPointer)
        requires
            row * FB_COLS + column_pos <= usize::MAX,
        ensures
            r.0 == row * FB_COLS + column_pos,
    {
        ScreenPointer(row * FB_COLS + column_pos)
    }

    pub fn col(&self) -> (r: usize)
        ensures
            r == self.0 % FB_COLS,
    {
        (self.0 % FB_COLS) as usize
    }

    pub fn row(&self) -> (r: usize)
        ensures
            r == self.0 / FB_COLS,
    {
        (self.0 / FB_COLS) as usize
    }

    fn inc(&mut self)
        requires
            old(self).0 < usize::MAX,
        ensures
            final(self).0 == old(self).0 + 1,
    {
        self.0 += 1;
    }

    // The cursor must not be in the first row.
    fn dec_row(&mut self)
        requires
            old(self).0 >= FB_COLS,
        ensures
            final(self).0 == old(self).0 - FB_COLS,
    {
        self.0 -= FB_COLS;
    }

    fn is_out(&self) -> (r: bool)
        ensures
            r == (self.0 >= FB_SIZE),
    {
        self.0 >= FrameBuffer::SIZE
    }
}

impl ScreenChar {
    pub fn new(ascii_char: u8, foreground: u8, background: u8) -> (r: ScreenChar)
        ensures
            r.ascii_char == ascii_char,
            r.rep_code.0 == rep_code_of(foreground, background),
    {
        ScreenChar { ascii_char, rep_code: RepCode::new(foreground, background) }
    }
}

impl View for FrameBuffer {
    type V = FrameView;

    closed spec fn view(&self) -> FrameView {
        FrameView { cursor: self.cursor.0 as nat, cells: self.cells@, ports: self.port_writes@ }
    }
}

impl Default for FrameBuffer {
    fn default() -> (r: FrameBuffer)
        ensures
            r.wf(),
            r@.cursor == 0,
            r@.ports == Seq::<PortWrite>::empty(),
    {
        FrameBuffer::new(ScreenPointer::default())
    }
}

impl FrameBuffer {
    pub const SIZE: usize = FB_SIZE;

    /// The cells cover the whole video memory window.
    pub open spec fn wf(&self) -> bool {
        self@.cells.len() == VGA_CELLS
    }

    proof fn lemma_wf(&self)
        ensures
            self.wf() <==> self.cells.len() == VGA_CELLS,
            self@.cursor == self.cursor.0,
            self@.cells == self.cells@,
            self@.ports == self.port_writes@,
    {
    }

    /// A frame buffer whose video memory is zero, with the cursor at `cursor`.
    pub fn new(cursor: ScreenPointer) -> (r: FrameBuffer)
        ensures
            r.wf(),
            r@.cursor == cursor.0,
            r@.cells == Seq::new(
                VGA_CELLS as nat,
                |i: int| ScreenChar { ascii_char: 0, rep_code: RepCode(0) },
            ),
            r@.ports == Seq::<PortWrite>::empty(),
    {
        let blank = ScreenChar { ascii_char: 0, rep_code: RepCode(0) };
        let cells = vec![blank; VGA_CELLS];
        let r = FrameBuffer { cursor, cells, port_writes: Vec::new() };
        assert(r@.cells =~= Seq::new(
            VGA_CELLS as nat,
            |i: int| ScreenChar { ascii_char: 0, rep_code: RepCode(0) },
        ));
        r
    }

    /// A frame buffer over the video memory as it stands: `cells` are the
    /// cells of the video memory window, read from it.
    pub fn from_cells(cursor: ScreenPointer, cells: Vec<ScreenChar>) -> (r: FrameBuffer)
        requires
            cells@.len() == VGA_CELLS,
        ensures
            r.wf(),
            r@.cursor == cursor.0,
            r@.cells == cells@,
            r@.ports == Seq::<PortWrite>::empty(),
    {
        FrameBuffer { cursor, cells, port_writes: Vec::new() }
    }

    /// The cursor position.
    pub fn cursor(&self) -> (r: usize)
        ensures
            r == self@.cursor,
    {
        self.cursor.0
    }

    /// The cell at `i` of the video memory window.
    pub fn cell(&self, i: usize) -> (r: ScreenChar)
        requires
            self.wf(),
            i < VGA_CELLS,
        ensures
            r == self@.cells[i as int],
    {
        self.cells[i]
    }

    /// Hands out the port writes made so far, oldest first, and forgets them.
    pub fn take_port_writes(&mut self) -> (r: Vec<PortWrite>)
        ensures
            r@ == old(self)@.ports,
            final(self)@.ports == Seq::<PortWrite>::empty(),
            final(self)@.cursor == old(self)@.cursor,
            final(self)@.cells == old(self)@.cells,
    {
        let mut taken = Vec::new();
        core::mem::swap(&mut taken, &mut self.port_writes);
        taken
    }

    pub fn inc_cursor(&mut self)
        requires
            old(self).wf(),
            old(self)@.cursor < usize::MAX,
        ensures
            final(self).wf(),
            final(self)@ == advanced(old(self)@),
    {
        self.cursor.inc();
        if !self.cursor.is_out() {
            self.move_cursor(self.cursor.0 as u16);
        }
    }

    /// Moves every cell of the screen up one row and the cursor with them.
    /// The cursor must not be in the first row.
    pub fn scroll(&mut self)
        requires
            old(self).wf(),
            old(self)@.cursor >= FB_COLS,
        ensures
            final(self).wf(),
            final(self)@ == scrolled(old(self)@),
            final(self)@.cursor == old(self)@.cursor - FB_COLS,
            forall|i: int|
                0 <= i < FB_SIZE ==> #[trigger] final(self)@.cells[i] == old(self)@.cells[i + FB_COLS],
            forall|i: int|
                FB_SIZE <= i < VGA_CELLS ==> #[trigger] final(self)@.cells[i] == old(self)@.cells[i],
            final(self)@.ports == old(self)@.ports,
    {
        let ghost before = self.cells@;
        for i in 0..FrameBuffer::SIZE
            invariant
                self.cells.len() == VGA_CELLS,
                before.len() == VGA_CELLS,
                self.cells@ == Seq::new(
                    VGA_CELLS as nat,
                    |j: int|
                        if j < i {
                            before[j + FB_COLS]
                        } else {
                            before[j]
                        },
                ),
                self.cursor == old(self).cursor,
                self.port_writes == old(self).port_writes,
                before == old(self).cells@,
        {
            let to_copy = ScreenPointer(i + FB_COLS);
            let moved_char = self.cells[to_copy.0];
            self.cells.set(i, moved_char);
            assert(self.cells@ =~= Seq::new(
                VGA_CELLS as nat,
                |j: int|
                    if j < i + 1 {
                        before[j + FB_COLS]
                    } else {
                        before[j]
                    },
            ));
        }
        self.cursor.dec_row();
        assert(self@.cells =~= scrolled(old(self)@).cells);
    }

    pub fn move_cursor(&mut self, pos: u16)
        requires
            old(self).wf(),
        ensures
            final(self).wf(),
            final(self)@ == moved(old(self)@, pos),
    {
        self.cursor = ScreenPointer(pos as usize);
        if self.cursor.is_out() {
            self.scroll();
        }
        assert(((pos >> 8u16) & 0x00ff) as u8 == (pos / 256) as u8 && (pos & 0x00ff) as u8 == (pos
            % 256) as u8) by (bit_vector);
        let ghost ports = self.port_writes@;
        self.port_writes.push(PortWrite { port: FB_COMMAND_PORT, value: FB_SEND_HIGH });
        self.port_writes.push(PortWrite { port: FB_DATA_PORT, value: ((pos >> 8) & 0x00ff) as u8 });
        self.port_writes.push(PortWrite { port: FB_COMMAND_PORT, value: FB_SEND_LOW });
        self.port_writes.push(PortWrite { port: FB_DATA_PORT, value: (pos & 0x00ff) as u8 });
        assert(self.port_writes@ =~= ports + cursor_writes(pos));
    }

    /// Writes the bytes from the cursor on, in `rep_code`, after one scroll
    /// if the cursor is off the screen. They must fit in the video memory.
    pub fn write_buff(&mut self, write_buffer: &[u8], rep_code: RepCode)
        requires
            old(self).wf(),
            on_screen(old(self)@).cursor + write_buffer@.len() <= VGA_CELLS,
        ensures
            final(self).wf(),
            final(self)@ == buffer_written(old(self)@, write_buffer@, rep_code),
    {
        if self.cursor.is_out() {
            self.scroll();
        }
        let ghost w = self@;
        let mut k: usize = 0;
        proof {
            let start = bytes_placed(w, write_buffer@.take(0), rep_code);
            assert(start.cells =~= w.cells);
            assert(start.ports =~= w.ports);
        }
        while k < write_buffer.len()
            invariant
                self.wf(),
                w.cells.len() == VGA_CELLS,
                w.cursor + write_buffer@.len() <= VGA_CELLS,
                k <= write_buffer@.len(),
                self@ == bytes_placed(w, write_buffer@.take(k as int), rep_code),
            decreases write_buffer@.len() - k,
        {
            let ascii_char = write_buffer[k];
            proof {
                self.lemma_wf();
            }
            let ghost v = self@;
            self.cells.set(self.cursor.0, ScreenChar { ascii_char, rep_code });
            self.inc_cursor();
            proof {
                let next = bytes_placed(w, write_buffer@.take(k + 1), rep_code);
                assert(self@.cells =~= next.cells);
                assert(self@.ports =~= next.ports);
            }
            k = k + 1;
        }
        assert(write_buffer@.take(k as int) =~= write_buffer@);
    }

    /// Puts `byte` in `rep_code` at the cursor `times` times, scrolling
    /// whenever the cursor is off the screen.
    pub fn write_times(&mut self, byte: &u8, rep_code: RepCode, times: usize)
        requires
            old(self).wf(),
            old(self)@.cursor <= VGA_CELLS,
        ensures
            final(self).wf(),
            final(self)@ == char_repeated(
                old(self)@,
                ScreenChar { ascii_char: *byte, rep_code },
                times as nat,
            ),
            final(self)@.cursor <= VGA_CELLS,
    {
        let ghost ch = ScreenChar { ascii_char: *byte, rep_code };
        for k in 0..times
            invariant
                self.wf(),
                self@.cursor <= VGA_CELLS,
                ch == (ScreenChar { ascii_char: *byte, rep_code }),
                self@ == char_repeated(old(self)@, ch, k as nat),
        {
            if self.cursor.is_out() {
                self.scroll();
            }
            proof {
                self.lemma_wf();
            }
            self.cells.set(self.cursor.0, ScreenChar { ascii_char: *byte, rep_code });
            self.inc_cursor();
        }
    }
}


/// Putting `ch` `n` times from a cursor `c` on the screen with `c + n` cells
/// to spare fills the cells `c .. c + n` with `ch`, leaves every other cell
/// as it was and leaves the cursor at `c + n`.
pub proof fn lemma_char_repeated_fills(v: FrameView, ch: ScreenChar, n: nat)
    requires
        v.cursor + n <= FB_SIZE,
        v.cells.len() == VGA_CELLS,
    ensures
        char_repeated(v, ch, n).cursor == v.cursor + n,
        char_repeated(v, ch, n).cells.len() == VGA_CELLS,
        forall|i: int|
            0 <= i < VGA_CELLS ==> #[trigger] char_repeated(v, ch, n).cells[i] == if v.cursor <= i
                < v.cursor + n {
                ch
            } else {
                v.cells[i]
            },
    decreases n,
{
    if n > 0 {
        lemma_char_repeated_fills(v, ch, (n - 1) as nat);
    }
}

impl WriteOut {
    const UNPRINTABLE_SUBSTITUTE: u8 = 0xfe;

    pub fn new(frame_buff: FrameBuffer, rep_code: RepCode) -> (r: WriteOut)
        ensures
            r.frame_buff@ == frame_buff@,
            r.rep_code == rep_code,
    {
        WriteOut { rep_code, frame_buff }
    }

    /// Prints the bytes of `out_str`; bytes that are not printable ASCII or
    /// a newline show as 0xfe.
    pub fn write(&mut self, out_str: &str)
        requires
            old(self).frame_buff.wf(),
            old(self).frame_buff@.cursor <= VGA_CELLS,
        ensures
            final(self).frame_buff.wf(),
            final(self).frame_buff@.cursor <= VGA_CELLS,
            final(self).rep_code == old(self).rep_code,
            final(self).frame_buff@ == text_written(
                old(self).frame_buff@,
                out_str.spec_bytes(),
                old(self).rep_code,
            ),
    {
        let bytes = out_str.as_bytes();
        let mut k: usize = 0;
        assert(bytes@.take(0).len() == 0);
        while k < bytes.len()
            invariant
                self.frame_buff.wf(),
                self.frame_buff@.cursor <= VGA_CELLS,
                self.rep_code == old(self).rep_code,
                bytes@ == out_str.spec_bytes(),
                k <= bytes@.len(),
                self.frame_buff@ == text_written(
                    old(self).frame_buff@,
                    bytes@.take(k as int),
                    self.rep_code,
                ),
            decreases bytes@.len() - k,
        {
            let ascii_char = &bytes[k];
            match *ascii_char {
                0x20..=0x7e | 0x0a => self.write_byte(ascii_char),
                _ => self.write_byte(&Self::UNPRINTABLE_SUBSTITUTE),
            }
            proof {
                assert(bytes@.take(k + 1).drop_last() =~= bytes@.take(k as int));
            }
            k = k + 1;
        }
        assert(bytes@.take(k as int) =~= bytes@);
    }

    fn write_byte(&mut self, byte: &u8)
        requires
            old(self).frame_buff.wf(),
            old(self).frame_buff@.cursor <= VGA_CELLS,
        ensures
            final(self).frame_buff.wf(),
            final(self).frame_buff@.cursor <= VGA_CELLS,
            final(self).rep_code == old(self).rep_code,
            final(self).frame_buff@ == byte_written(old(self).frame_buff@, *byte, old(self).rep_code),
    {
        match *byte {
            0x0a => self.new_line(),
            byte => {
                let one = [byte];
                assert(one@ =~= seq![byte]);
                self.frame_buff.write_buff(one.as_slice(), self.rep_code);
            },
        }
    }

    /// Blanks the screen in black on black and puts the cursor at the top left.
    pub fn clear_screen(&mut self)
        requires
            old(self).frame_buff.wf(),
        ensures
            final(self).frame_buff.wf(),
            final(self).rep_code == old(self).rep_code,
            final(self).frame_buff@ == moved(
                char_repeated(
                    moved(old(self).frame_buff@, 0),
                    ScreenChar { ascii_char: 0x20, rep_code: RepCode(rep_code_of(FB_BLACK, FB_BLACK)) },
                    FB_SIZE as nat,
                ),
                0,
            ),
            final(self).frame_buff@.cursor == 0,
            forall|i: int|
                0 <= i < VGA_CELLS ==> #[trigger] final(self).frame_buff@.cells[i] == if i < FB_SIZE {
                    ScreenChar { ascii_char: 0x20, rep_code: RepCode(0) }
                } else {
                    old(self).frame_buff@.cells[i]
                },
    {
        self.frame_buff.move_cursor(0);
        let ghost v = self.frame_buff@;
        let blank = RepCode::new(FB_BLACK, FB_BLACK);
        self.frame_buff.write_times(&0x20, blank, FrameBuffer::SIZE);
        proof {
            assert(((((0u8 % 16) * 16) as u8) | 0u8) == 0u8) by (bit_vector);
            assert(blank == RepCode(0));
            lemma_char_repeated_fills(v, ScreenChar { ascii_char: 0x20, rep_code: blank }, FB_SIZE as nat);
        }
        self.frame_buff.move_cursor(0);
    }

    fn new_line(&mut self)
        requires
            old(self).frame_buff.wf(),
            old(self).frame_buff@.cursor <= VGA_CELLS,
        ensures
            final(self).frame_buff.wf(),
            final(self).frame_buff@.cursor <= VGA_CELLS,
            final(self).rep_code == old(self).rep_code,
            final(self).frame_buff@ == line_broken(old(self).frame_buff@),
    {
        proof {
            self.frame_buff.lemma_wf();
        }
        self.frame_buff.move_cursor(
            ScreenPointer::from_xy(0, self.frame_buff.cursor.row() + 1).0 as u16,
        );
    }

    /// Prints `s` if the screen can hold it, else refuses it. Printing needs
    /// the cursor within the video memory window.
    pub fn write_str(&mut self, s: &str) -> (r: Result<(), FmtError>)
        requires
            old(self).frame_buff.wf(),
            s.spec_bytes().len() <= FB_SIZE ==> old(self).frame_buff@.cursor <= VGA_CELLS,
        ensures
            final(self).frame_buff.wf(),
            old(self).frame_buff@.cursor <= VGA_CELLS ==> final(self).frame_buff@.cursor <= VGA_CELLS,
            final(self).rep_code == old(self).rep_code,
            r is Err <==> s.spec_bytes().len() > FB_SIZE,
            r is Err ==> final(self).frame_buff@ == old(self).frame_buff@,
            r is Ok ==> final(self).frame_buff@ == text_written(
                old(self).frame_buff@,
                s.spec_bytes(),
                old(self).rep_code,
            ),
    {
        if s.as_bytes().len() > FrameBuffer::SIZE {
            return Err(FmtError);
        }
        self.write(s);
        Ok(())
    }
}

/// Printable text written from a cursor with room for it on the screen
/// appears at the cursor in the writer's attribute, the cursor ends past it
/// and every other cell keeps its character.
pub proof fn lemma_printable_text_lands_at_cursor(v: FrameView, bytes: Seq<u8>, rep_code: RepCode)
    requires
        v.cells.len() == VGA_CELLS,
        v.cursor + bytes.len() <= FB_SIZE,
        forall|i: int| 0 <= i < bytes.len() ==> 0x20 <= #[trigger] bytes[i] <= 0x7e,
    ensures
        text_written(v, bytes, rep_code).cursor == v.cursor + bytes.len(),
        text_written(v, bytes, rep_code).cells.len() == VGA_CELLS,
        forall|i: int|
            0 <= i < VGA_CELLS ==> #[trigger] text_written(v, bytes, rep_code).cells[i] == if v.cursor
                <= i < v.cursor + bytes.len() {
                ScreenChar { ascii_char: bytes[i - v.cursor], rep_code }
            } else {
                v.cells[i]
            },
    decreases bytes.len(),
{
    if bytes.len() > 0 {
        let front = bytes.drop_last();
        assert forall|i: int| 0 <= i < front.len() implies 0x20 <= #[trigger] front[i] <= 0x7e by {
            assert(front[i] == bytes[i]);
        }
        lemma_printable_text_lands_at_cursor(v, front, rep_code);
        let w = text_written(v, front, rep_code);
        let b = bytes.last();
        assert(0x20 <= bytes[bytes.len() - 1] <= 0x7e);
        assert(printed_byte(b) == b);
        assert(on_screen(w) == w);
        let after = text_written(v, bytes, rep_code);
        assert(after == bytes_placed(w, seq![b], rep_code));
        assert forall|i: int| 0 <= i < VGA_CELLS implies #[trigger] after.cells[i] == if v.cursor
            <= i < v.cursor + bytes.len() {
            ScreenChar { ascii_char: bytes[i - v.cursor], rep_code }
        } else {
            v.cells[i]
        } by {
            if v.cursor <= i < v.cursor + front.len() {
                assert(front[i - v.cursor] == bytes[i - v.cursor]);
            }
        }
    }
}

/// A newline from a cursor on the screen moves the cursor to the start of
/// the row after the cursor's row, leaving the cells as they are; from the
/// last row the screen scrolls up one row and the cursor goes to the start
/// of the last row.
pub proof fn lemma_newline_starts_next_row(v: FrameView, rep_code: RepCode)
    requires
        v.cursor < FB_SIZE,
        v.cells.len() == VGA_CELLS,
    ensures
        v.cursor / 80 < 24 ==> text_written(v, seq![10u8], rep_code).cursor == (v.cursor / 80 + 1) * 80,
        v.cursor / 80 < 24 ==> text_written(v, seq![10u8], rep_code).cells == v.cells,
        v.cursor / 80 == 24 ==> text_written(v, seq![10u8], rep_code).cursor == 1920,
        v.cursor / 80 == 24 ==> forall|i: int|
            0 <= i < FB_SIZE ==> #[trigger] text_written(v, seq![10u8], rep_code).cells[i]
                == v.cells[i + 80],
{
    let t = seq![10u8];
    assert(t.drop_last() =~= Seq::<u8>::empty());
    assert(t.last() == 10u8);
    assert(printed_byte(10u8) == 10u8);
    assert(text_written(v, t.drop_last(), rep_code) == v);
    assert(text_written(v, t, rep_code) == line_broken(v));
}

/// The two data bytes sent for a cursor position put the position back
/// together: high byte first, then low byte.
pub proof fn lemma_cursor_writes_encode_position(pos: u16)
    ensures
        cursor_writes(pos).len() == 4,
        cursor_writes(pos)[1].value as int * 256 + cursor_writes(pos)[3].value as int == pos,
{
}

/// A foreground and a background colour below 16 share the attribute byte:
/// the foreground in the high four bits, the background in the low four.
pub proof fn lemma_rep_code_nibbles(foreground: u8, background: u8)
    requires
        foreground < 16,
        background < 16,
    ensures
        rep_code_of(foreground, background) / 16 == foreground,
        rep_code_of(foreground, background) % 16 == background,
{
    let f = foreground;
    let b = background;
    assert(((((f % 16) * 16) as u8) | b) / 16 == f && ((((f % 16) * 16) as u8) | b) % 16 == b)
        by (bit_vector)
        requires
            f < 16,
            b < 16,
    ;
}

} // verus!
