use kernelspace_rust::interrupts::PortWrite;
use kernelspace_rust::terminal::{Buffer, Console, DebugClipper, ScreenTerminal};
use kernelspace_rust::vgacolor::VgaColor;

fn fresh() -> ScreenTerminal {
    ScreenTerminal::new(Buffer::new(), 0x0F)
}

fn row_text(t: &ScreenTerminal, row: usize, from: usize, len: usize) -> Vec<u8> {
    (from..from + len).map(|c| t.get_buffer_chars(c, row)).collect()
}

fn goto_row(t: &mut ScreenTerminal, row: usize) {
    let (_, now) = t.cursor_position();
    for _ in now..row {
        t.write_str(b"\n");
    }
}

#[test]
fn new_terminal_starts_top_left() {
    let t = fresh();
    assert_eq!(t.cursor_position(), (0, 0));
    assert_eq!(t.color(), 0x0F);
    assert_eq!(t.buffer().chars.len(), 2000);
    assert!(t.buffer().chars.iter().all(|&c| c == 0));
}

#[test]
fn write_str_stores_chars_in_current_color() {
    let mut t = fresh();
    t.write_str(b"Hi");
    assert_eq!(t.get_buffer_chars(0, 0), b'H');
    assert_eq!(t.get_buffer_chars(1, 0), b'i');
    assert_eq!(t.get_buffer_color(0, 0), 0x0F);
    assert_eq!(t.buffer().chars[0], 0x0F48);
    assert_eq!(t.cursor_position(), (2, 0));
}

#[test]
fn newline_goes_to_start_of_next_row() {
    let mut t = fresh();
    t.write_str(b"a\nb");
    assert_eq!(t.get_buffer_chars(0, 1), b'b');
    assert_eq!(t.cursor_position(), (1, 1));
}

#[test]
fn writing_past_last_column_wraps() {
    let mut t = fresh();
    t.write_str(&[b'x'; 80]);
    assert_eq!(t.cursor_position(), (0, 1));
    assert_eq!(t.get_buffer_chars(79, 0), b'x');
    t.write_str(b"y");
    assert_eq!(t.get_buffer_chars(0, 1), b'y');
}

#[test]
fn scrolling_keeps_header_and_drops_row_one() {
    let mut t = fresh();
    t.write_str(b"TOP\nrow1\nrow2");
    goto_row(&mut t, 24);
    t.write_str(b"last");
    assert_eq!(t.cursor_position(), (4, 24));
    t.write_str(b"\n");
    assert_eq!(t.cursor_position(), (0, 24));
    assert_eq!(row_text(&t, 0, 0, 3), b"TOP".to_vec());
    assert_eq!(row_text(&t, 1, 0, 4), b"row2".to_vec());
    assert_eq!(row_text(&t, 23, 0, 4), b"last".to_vec());
    for c in 0..80 {
        assert_eq!(t.get_buffer_chars(c, 24), b' ');
        assert_eq!(t.get_buffer_color(c, 24), 0x0F);
    }
}

#[test]
fn writing_last_cell_scrolls() {
    let mut t = fresh();
    goto_row(&mut t, 24);
    t.write_str(&[b'z'; 80]);
    assert_eq!(t.cursor_position(), (0, 24));
    assert_eq!(t.get_buffer_chars(79, 23), b'z');
    assert_eq!(t.get_buffer_chars(79, 24), b' ');
}

#[test]
fn writing_in_pieces_equals_writing_at_once() {
    let mut a = fresh();
    let mut b = fresh();
    let text = b"hello\nworld, this line is long enough to wrap around the edge of the screen..";
    a.write_str(&text[..10]);
    a.write_str(&text[10..]);
    b.write_str(text);
    assert_eq!(a.buffer().chars, b.buffer().chars);
    assert_eq!(a.cursor_position(), b.cursor_position());
}

#[test]
fn clear_screen_blanks_everything_keeps_cursor() {
    let mut t = fresh();
    t.write_str(b"abc\ndef");
    t.set_color(VgaColor::LightGREEN, VgaColor::Black);
    t.clear_screen();
    assert_eq!(t.cursor_position(), (3, 1));
    assert!(t.buffer().chars.iter().all(|&c| c == 0x0A00));
}

#[test]
fn clear_through_console_trait() {
    let mut t = fresh();
    t.write_str(b"abc");
    t.clear();
    assert!(t.buffer().chars.iter().all(|&c| c == 0x0F00));
}

#[test]
fn reads_off_screen() {
    let mut t = fresh();
    t.set_color(VgaColor::Red, VgaColor::Blue);
    assert_eq!(t.get_buffer_chars(80, 0), b' ');
    assert_eq!(t.get_buffer_chars(0, 25), b' ');
    assert_eq!(t.get_buffer_color(80, 3), 0x13);
    assert_eq!(t.get_buffer_color(0, 0), 0);
}

#[test]
fn set_color_applies_to_new_chars() {
    let mut t = fresh();
    t.set_color(VgaColor::Green, VgaColor::White);
    assert_eq!(t.color(), 0xF2);
    t.write_str(b"q");
    assert_eq!(t.get_buffer_color(0, 0), 0xF2);
    assert_eq!(t.get_buffer_chars(0, 0), b'q');
}

#[test]
fn update_cursor_encodes_position() {
    let mut t = fresh();
    t.write_str(b"\n\n12345");
    assert_eq!(
        t.update_cursor(),
        vec![
            PortWrite { port: 0x3D4, value: 0x0F },
            PortWrite { port: 0x3D5, value: 165 },
            PortWrite { port: 0x3D4, value: 0x0E },
            PortWrite { port: 0x3D5, value: 0 },
        ]
    );
    goto_row(&mut t, 24);
    t.write_str(&[b'.'; 79]);
    assert_eq!(t.cursor_position(), (79, 24));
    let w = t.update_cursor();
    assert_eq!(w[1].value, 207);
    assert_eq!(w[3].value, 7);
    assert_eq!(w[1].value as u16 + w[3].value as u16 * 256, 1999);
}

#[test]
fn cursor_left_stops_above_row_one() {
    let mut t = fresh();
    t.write_str(b"\n");
    assert_eq!(t.cursor_position(), (0, 1));
    t.move_cursor_left();
    assert_eq!(t.cursor_position(), (0, 1));
    t.write_str(b"\n");
    t.move_cursor_left();
    assert_eq!(t.cursor_position(), (79, 1));
}

#[test]
fn cursor_left_in_top_row_first_column_stays() {
    let mut t = fresh();
    t.move_cursor_left();
    assert_eq!(t.cursor_position(), (0, 0));
}

#[test]
fn cursor_right_at_end_of_row() {
    let mut t = fresh();
    goto_row(&mut t, 22);
    t.write_str(&[b'.'; 79]);
    assert_eq!(t.cursor_position(), (79, 22));
    t.move_cursor_right();
    assert_eq!(t.cursor_position(), (0, 23));
    t.write_str(&[b'.'; 79]);
    t.move_cursor_right();
    assert_eq!(t.cursor_position(), (79, 24));
    t.move_cursor_right();
    assert_eq!(t.cursor_position(), (79, 24));
}

#[test]
fn cursor_up_and_down_limits() {
    let mut t = fresh();
    t.move_cursor_down();
    assert_eq!(t.cursor_position(), (0, 1));
    t.move_cursor_up();
    assert_eq!(t.cursor_position(), (0, 1));
    goto_row(&mut t, 24);
    t.move_cursor_down();
    assert_eq!(t.cursor_position(), (0, 24));
    t.move_cursor_up();
    assert_eq!(t.cursor_position(), (0, 23));
}

#[test]
fn left_undoes_right() {
    let mut t = fresh();
    t.write_str(b"\n\n\nabc");
    let start = t.cursor_position();
    t.move_cursor_right();
    t.move_cursor_left();
    assert_eq!(t.cursor_position(), start);
    t.move_cursor_left();
    t.move_cursor_right();
    assert_eq!(t.cursor_position(), start);
}

#[test]
fn put_char_spe_and_change_char_keep_cursor() {
    let mut t = fresh();
    t.write_str(b"ab");
    t.put_char_spe(b'Z', 10, 5);
    assert_eq!(t.get_buffer_chars(10, 5), b'Z');
    assert_eq!(t.cursor_position(), (2, 0));
    t.change_char(b'!');
    assert_eq!(t.get_buffer_chars(2, 0), b'!');
    assert_eq!(t.cursor_position(), (2, 0));
}

#[test]
fn set_other_color_via_trait() {
    let mut t = fresh();
    t.set_other_color(VgaColor::LightCYAN, VgaColor::Magenta);
    assert_eq!(t.color(), 0x5B);
}

#[test]
fn debug_line_written_at_column_42_cursor_kept() {
    let mut t = fresh();
    t.write_str(b"     42 Kernel | header\nhello");
    t.write_debug(42, 0, b"handlekey : 30");
    assert_eq!(row_text(&t, 0, 42, 14), b"handlekey : 30".to_vec());
    assert_eq!(t.get_buffer_chars(56, 0), 0);
    assert_eq!(row_text(&t, 0, 0, 9), b"     42 K".to_vec());
    assert_eq!(row_text(&t, 1, 0, 5), b"hello".to_vec());
    assert_eq!(t.cursor_position(), (5, 1));
}

#[test]
fn debug_line_is_cleared_before_writing() {
    let mut t = fresh();
    t.write_debug(42, 0, b"a long first message on the line");
    t.write_debug(42, 0, b"short");
    assert_eq!(row_text(&t, 0, 42, 5), b"short".to_vec());
    for c in 47..80 {
        assert_eq!(t.get_buffer_chars(c, 0), 0);
    }
}

#[test]
fn debug_line_clipped_to_37_and_newlines_dropped() {
    let mut t = fresh();
    let text = b"0123456789\n0123456789012345678901234567890123456789";
    t.write_debug(42, 0, text);
    assert_eq!(row_text(&t, 0, 42, 37), b"0123456789012345678901234567890123456".to_vec());
    assert_eq!(t.get_buffer_chars(79, 0), 0);
    assert_eq!(t.get_buffer_chars(0, 1), 0);
    assert_eq!(t.cursor_position(), (0, 0));
}

#[test]
fn debug_line_expands_high_bytes() {
    let mut t = fresh();
    t.write_debug(42, 0, &[0xC3, 0xA9]);
    assert_eq!(row_text(&t, 0, 42, 4), vec![0xC3, 0x83, 0xC2, 0xA9]);
}

#[test]
fn debug_line_empty_text_off_screen_position() {
    let mut t = fresh();
    t.write_str(b"x");
    t.write_debug(200, 90, b"\n\n");
    assert_eq!(t.cursor_position(), (1, 0));
    assert_eq!(t.get_buffer_chars(0, 0), b'x');
}

#[test]
fn clipper_counts_characters_not_newlines() {
    let mut t = fresh();
    {
        let mut clip = DebugClipper::new(&mut t, 3);
        clip.write_str(b"a\nbcd");
        assert_eq!(clip.chars_left, 0);
    }
    assert_eq!(row_text(&t, 0, 0, 4), vec![b'a', b'b', b'c', 0]);
    assert_eq!(t.cursor_position(), (3, 0));
}

#[test]
fn clipper_keeps_what_is_left() {
    let mut t = fresh();
    let mut clip = DebugClipper::new(&mut t, 10);
    clip.write_str(b"ab\n");
    assert_eq!(clip.chars_left, 8);
    clip.write_str(b"cd");
    assert_eq!(clip.chars_left, 6);
}

#[test]
fn write_scalar_encodes_utf8() {
    let mut t = fresh();
    t.write_scalar(b'A');
    t.write_scalar(0xE9);
    assert_eq!(row_text(&t, 0, 0, 3), vec![b'A', 0xC3, 0xA9]);
    assert_eq!(t.cursor_position(), (3, 0));
}

#[test]
fn choose_screen_console_swaps_buffers() {
    let mut t = fresh();
    t.write_str(b"first");
    let old = t.choose_screen_console(Buffer::new());
    assert_eq!(old.chars[0], 0x0F66);
    assert!(t.buffer().chars.iter().all(|&c| c == 0));
    assert_eq!(t.cursor_position(), (5, 0));
    t.write_str(b"S");
    assert_eq!(t.get_buffer_chars(5, 0), b'S');
    let second = t.choose_screen_console(old);
    assert_eq!(t.get_buffer_chars(0, 0), b'f');
    assert_eq!(second.chars[5], 0x0F53);
}
