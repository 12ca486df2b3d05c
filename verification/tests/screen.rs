use diegos::drivers::screen::{
    FmtError, FrameBuffer, RepCode, ScreenChar, ScreenPointer, WriteOut, FB_BLACK, FB_COLS,
    FB_RED, FB_SIZE, FB_WHITE, VGA_CELLS,
};
use diegos::port::PortWrite;

fn ch(c: u8, code: u8) -> ScreenChar {
    ScreenChar { ascii_char: c, rep_code: RepCode(code) }
}

fn cursor_moves(pos: u16) -> Vec<PortWrite> {
    vec![
        PortWrite::new(0x3d4, 14),
        PortWrite::new(0x3d5, (pos >> 8) as u8),
        PortWrite::new(0x3d4, 15),
        PortWrite::new(0x3d5, (pos & 0xff) as u8),
    ]
}

#[test]
fn rep_code_packs_colours() {
    assert_eq!(RepCode::new(FB_BLACK, FB_WHITE).0, 0x0F);
    assert_eq!(RepCode::new(FB_RED, FB_WHITE).0, 0x4F);
    assert_eq!(RepCode::new(0x1F, 0x01).0, 0xF1);
    let c = ScreenChar::new(b'x', FB_WHITE, FB_BLACK);
    assert_eq!(c.ascii_char, b'x');
    assert_eq!(c.rep_code, RepCode(0xF0));
}

#[test]
fn screen_pointer_rows_and_columns() {
    let p = ScreenPointer::from_xy(5, 2);
    assert_eq!(p.0, 165);
    assert_eq!(p.col(), 5);
    assert_eq!(p.row(), 2);
    assert_eq!(ScreenPointer::default().0, 0);
    assert_eq!(ScreenPointer::from_xy(FB_COLS, 24).0, FB_SIZE);
}

#[test]
fn new_frame_buffer_is_blank() {
    let fb = FrameBuffer::new(ScreenPointer(42));
    assert_eq!(fb.cursor(), 42);
    assert_eq!(fb.cell(0), ch(0, 0));
    assert_eq!(fb.cell(VGA_CELLS - 1), ch(0, 0));
    let d = FrameBuffer::default();
    assert_eq!(d.cursor(), 0);
    assert_eq!(FrameBuffer::SIZE, 2000);
}

#[test]
fn frame_buffer_over_existing_memory() {
    let mut cells = vec![ch(b'.', 7); VGA_CELLS];
    cells[3] = ch(b'k', 2);
    let fb = FrameBuffer::from_cells(ScreenPointer(4), cells);
    assert_eq!(fb.cursor(), 4);
    assert_eq!(fb.cell(3), ch(b'k', 2));
    assert_eq!(fb.cell(4), ch(b'.', 7));
}

#[test]
fn move_cursor_sends_position() {
    let mut fb = FrameBuffer::new(ScreenPointer(0));
    fb.move_cursor(0x0123);
    assert_eq!(fb.cursor(), 0x0123);
    assert_eq!(fb.take_port_writes(), cursor_moves(0x0123));
    assert_eq!(fb.take_port_writes(), vec![]);
}

#[test]
fn inc_cursor_follows_on_screen_only() {
    let mut fb = FrameBuffer::new(ScreenPointer(10));
    fb.inc_cursor();
    assert_eq!(fb.cursor(), 11);
    assert_eq!(fb.take_port_writes(), cursor_moves(11));
    let mut last = FrameBuffer::new(ScreenPointer(1999));
    last.inc_cursor();
    assert_eq!(last.cursor(), 2000);
    assert_eq!(last.take_port_writes(), vec![]);
}

#[test]
fn write_buff_places_bytes() {
    let mut fb = FrameBuffer::new(ScreenPointer(80));
    fb.write_buff(b"abc", RepCode(0x07));
    assert_eq!(fb.cursor(), 83);
    assert_eq!(fb.cell(79), ch(0, 0));
    assert_eq!(fb.cell(80), ch(b'a', 7));
    assert_eq!(fb.cell(81), ch(b'b', 7));
    assert_eq!(fb.cell(82), ch(b'c', 7));
    assert_eq!(fb.cell(83), ch(0, 0));
    let mut expected = cursor_moves(81);
    expected.extend(cursor_moves(82));
    expected.extend(cursor_moves(83));
    assert_eq!(fb.take_port_writes(), expected);
}

#[test]
fn scroll_moves_rows_up() {
    let mut fb = FrameBuffer::new(ScreenPointer(FB_COLS));
    fb.write_buff(b"xy", RepCode(1));
    fb.move_cursor(0);
    fb.write_buff(b"top", RepCode(2));
    fb.move_cursor(100);
    fb.scroll();
    assert_eq!(fb.cursor(), 20);
    assert_eq!(fb.cell(0), ch(b'x', 1));
    assert_eq!(fb.cell(1), ch(b'y', 1));
    assert_eq!(fb.cell(2), ch(0, 0));
    assert_eq!(fb.cell(80), ch(0, 0));
}

#[test]
fn moving_off_screen_scrolls() {
    let mut fb = FrameBuffer::new(ScreenPointer(0));
    fb.move_cursor(1920);
    fb.write_buff(b"z", RepCode(3));
    fb.take_port_writes();
    fb.move_cursor(2000);
    assert_eq!(fb.cursor(), 1920);
    assert_eq!(fb.cell(1840), ch(b'z', 3));
    assert_eq!(fb.cell(1920), ch(0, 0));
    assert_eq!(fb.take_port_writes(), cursor_moves(2000));
}

#[test]
fn write_times_repeats_and_scrolls() {
    let mut fb = FrameBuffer::new(ScreenPointer(1998));
    fb.write_times(&b'#', RepCode(5), 4);
    assert_eq!(fb.cell(1998 - 80), ch(b'#', 5));
    assert_eq!(fb.cell(1999 - 80), ch(b'#', 5));
    assert_eq!(fb.cell(1920), ch(b'#', 5));
    assert_eq!(fb.cell(1921), ch(b'#', 5));
    assert_eq!(fb.cursor(), 1922);
}

#[test]
fn write_prints_at_cursor() {
    let mut out = WriteOut::new(FrameBuffer::new(ScreenPointer(0)), RepCode(0x0F));
    out.write("Hi!");
    assert_eq!(out.frame_buff.cursor(), 3);
    assert_eq!(out.frame_buff.cell(0), ch(b'H', 0x0F));
    assert_eq!(out.frame_buff.cell(1), ch(b'i', 0x0F));
    assert_eq!(out.frame_buff.cell(2), ch(b'!', 0x0F));
}

#[test]
fn write_replaces_unprintable_bytes() {
    let mut out = WriteOut::new(FrameBuffer::new(ScreenPointer(0)), RepCode(2));
    out.write("a\tb\u{e9}");
    assert_eq!(out.frame_buff.cell(0), ch(b'a', 2));
    assert_eq!(out.frame_buff.cell(1), ch(0xfe, 2));
    assert_eq!(out.frame_buff.cell(2), ch(b'b', 2));
    // U+00E9 is two bytes in UTF-8, each shown as 0xfe.
    assert_eq!(out.frame_buff.cell(3), ch(0xfe, 2));
    assert_eq!(out.frame_buff.cell(4), ch(0xfe, 2));
    assert_eq!(out.frame_buff.cursor(), 5);
}

#[test]
fn newline_starts_next_row() {
    let mut out = WriteOut::new(FrameBuffer::new(ScreenPointer(0)), RepCode(1));
    out.write("ab\ncd");
    assert_eq!(out.frame_buff.cell(0), ch(b'a', 1));
    assert_eq!(out.frame_buff.cell(80), ch(b'c', 1));
    assert_eq!(out.frame_buff.cell(81), ch(b'd', 1));
    assert_eq!(out.frame_buff.cursor(), 82);
}

#[test]
fn newline_on_last_row_scrolls() {
    let mut out = WriteOut::new(FrameBuffer::new(ScreenPointer(0)), RepCode(1));
    out.write("top\n");
    out.frame_buff.move_cursor(24 * 80);
    out.write("end\n");
    assert_eq!(out.frame_buff.cursor(), 1920);
    assert_eq!(out.frame_buff.cell(23 * 80), ch(b'e', 1));
    assert_eq!(out.frame_buff.cell(0), ch(0, 0));
}

#[test]
fn clear_screen_blanks_and_homes() {
    let mut out = WriteOut::new(FrameBuffer::new(ScreenPointer(0)), RepCode(0x1F));
    out.write("some text");
    out.clear_screen();
    assert_eq!(out.frame_buff.cursor(), 0);
    for i in [0usize, 1, 8, 1000, 1999] {
        assert_eq!(out.frame_buff.cell(i), ch(0x20, 0));
    }
    assert_eq!(out.frame_buff.cell(2000), ch(0, 0));
    assert_eq!(out.rep_code, RepCode(0x1F));
}

#[test]
fn write_str_refuses_more_than_a_screen() {
    let mut out = WriteOut::new(FrameBuffer::new(ScreenPointer(0)), RepCode(7));
    let long = "x".repeat(2001);
    assert_eq!(out.write_str(&long), Err(FmtError));
    assert_eq!(out.frame_buff.cursor(), 0);
    assert_eq!(out.write_str("ok"), Ok(()));
    assert_eq!(out.frame_buff.cursor(), 2);
    assert_eq!(out.frame_buff.cell(1), ch(b'k', 7));
}

#[test]
fn write_str_refuses_long_strings_wherever_the_cursor() {
    let mut out = WriteOut::new(FrameBuffer::new(ScreenPointer(0)), RepCode(7));
    out.frame_buff.move_cursor(0xFFFF);
    let far = out.frame_buff.cursor();
    assert!(far > VGA_CELLS);
    let long = "y".repeat(2001);
    assert_eq!(out.write_str(&long), Err(FmtError));
    assert_eq!(out.frame_buff.cursor(), far);
}
