use kernelspace_rust::keyboard::{
    apply_key_response, key_debug_message, KeyAction, KeyResponse, KeyboardState,
};
use kernelspace_rust::terminal::{Buffer, ScreenTerminal};

fn quiet() -> KeyResponse {
    KeyResponse { debug_key: None, action: KeyAction::Nothing }
}

fn shown(code: u8, action: KeyAction) -> KeyResponse {
    KeyResponse { debug_key: Some(code), action }
}

#[test]
fn press_prints_plain_character() {
    let mut k = KeyboardState::new();
    assert_eq!(k.do_keyboard(0x1E), shown(0x1E, KeyAction::Print(b'a')));
    assert_eq!(k.do_keyboard(0x02), shown(0x02, KeyAction::Print(b'1')));
    assert_eq!(k.do_keyboard(0x39), shown(0x39, KeyAction::Print(b' ')));
    assert_eq!(k.do_keyboard(0x1C), shown(0x1C, KeyAction::Print(b'\n')));
}

#[test]
fn release_does_nothing() {
    let mut k = KeyboardState::new();
    for code in 0x80u16..=0xFF {
        let code = code as u8;
        if code == 0xE0 {
            continue;
        }
        assert_eq!(k.do_keyboard(code), quiet());
    }
}

#[test]
fn shift_selects_shifted_map_until_release() {
    let mut k = KeyboardState::new();
    assert_eq!(k.do_keyboard(0x2A), quiet());
    assert!(k.shift_pressed);
    assert_eq!(k.do_keyboard(0x1E), shown(0x1E, KeyAction::Print(b'A')));
    assert_eq!(k.do_keyboard(0x02), shown(0x02, KeyAction::Print(b'!')));
    assert_eq!(k.do_keyboard(0xAA), quiet());
    assert!(!k.shift_pressed);
    assert_eq!(k.do_keyboard(0x1E), shown(0x1E, KeyAction::Print(b'a')));
    k.do_keyboard(0x36);
    assert!(k.shift_pressed);
    assert_eq!(k.do_keyboard(0x2B), shown(0x2B, KeyAction::Print(b'|')));
    k.do_keyboard(0xB6);
    assert!(!k.shift_pressed);
}

#[test]
fn ctrl_is_tracked() {
    let mut k = KeyboardState::new();
    assert_eq!(k.do_keyboard(0x1D), quiet());
    assert!(k.ctrl_pressed);
    assert_eq!(k.do_keyboard(0x9D), quiet());
    assert!(!k.ctrl_pressed);
}

#[test]
fn backspace_erases_other_blank_keys_nothing() {
    let mut k = KeyboardState::new();
    assert_eq!(k.do_keyboard(0x0E), shown(0x0E, KeyAction::Erase));
    assert_eq!(k.do_keyboard(0x01), shown(0x01, KeyAction::Nothing));
    assert_eq!(k.do_keyboard(0x38), shown(0x38, KeyAction::Nothing));
}

#[test]
fn codes_past_the_map_only_show() {
    let mut k = KeyboardState::new();
    assert_eq!(k.do_keyboard(0x3A), shown(0x3A, KeyAction::Nothing));
    assert_eq!(k.do_keyboard(0x7F), shown(0x7F, KeyAction::Nothing));
}

#[test]
fn extended_arrows_move_cursor() {
    let mut k = KeyboardState::new();
    assert_eq!(k.do_keyboard(0xE0), quiet());
    assert!(k.extended_key);
    assert_eq!(k.do_keyboard(0x4B), KeyResponse { debug_key: None, action: KeyAction::CursorLeft });
    assert!(!k.extended_key);
    k.do_keyboard(0xE0);
    assert_eq!(k.do_keyboard(0x4D).action, KeyAction::CursorRight);
    k.do_keyboard(0xE0);
    assert_eq!(k.do_keyboard(0x48).action, KeyAction::CursorUp);
    k.do_keyboard(0xE0);
    assert_eq!(k.do_keyboard(0x50).action, KeyAction::CursorDown);
    k.do_keyboard(0xE0);
    assert_eq!(k.do_keyboard(0x35).action, KeyAction::Unknown);
}

#[test]
fn extended_release_clears_prefix_quietly() {
    let mut k = KeyboardState::new();
    k.do_keyboard(0xE0);
    assert_eq!(k.do_keyboard(0xCB), quiet());
    assert!(!k.extended_key);
    assert_eq!(k.do_keyboard(0x4B), shown(0x4B, KeyAction::Nothing));
}

#[test]
fn extended_prefix_does_not_touch_shift() {
    let mut k = KeyboardState::new();
    k.do_keyboard(0x2A);
    k.do_keyboard(0xE0);
    k.do_keyboard(0x2A);
    assert!(k.shift_pressed);
    assert!(!k.extended_key);
}

#[test]
fn handle_keypress_uses_shift_state() {
    let mut k = KeyboardState::new();
    assert_eq!(k.handle_keypress(0x10), shown(0x10, KeyAction::Print(b'q')));
    k.shift_pressed = true;
    assert_eq!(k.handle_keypress(0x10), shown(0x10, KeyAction::Print(b'Q')));
    assert_eq!(k.handle_keypress(0x29), shown(0x29, KeyAction::Print(b'~')));
    assert_eq!(k.handle_keypress(58), shown(58, KeyAction::Nothing));
    assert_eq!(k.handle_keypress(200), shown(200, KeyAction::Nothing));
}

#[test]
fn debug_message_formats_code_in_decimal() {
    assert_eq!(key_debug_message(30), b"handlekey : 30".to_vec());
    assert_eq!(key_debug_message(0), b"handlekey : 0".to_vec());
    assert_eq!(key_debug_message(9), b"handlekey : 9".to_vec());
    assert_eq!(key_debug_message(100), b"handlekey : 100".to_vec());
    assert_eq!(key_debug_message(255), b"handlekey : 255".to_vec());
}

fn row_text(t: &ScreenTerminal, row: usize, from: usize, len: usize) -> Vec<u8> {
    (from..from + len).map(|c| t.get_buffer_chars(c, row)).collect()
}

#[test]
fn typing_a_key_prints_and_shows_debug_line() {
    let mut t = ScreenTerminal::new(Buffer::new(), 0x0F);
    t.write_str(b"header\n");
    let mut k = KeyboardState::new();
    let r = k.do_keyboard(0x1E);
    apply_key_response(&mut t, r);
    assert_eq!(t.get_buffer_chars(0, 1), b'a');
    assert_eq!(t.cursor_position(), (1, 1));
    assert_eq!(row_text(&t, 0, 42, 14), b"handlekey : 30".to_vec());
}

#[test]
fn backspace_steps_back_and_blanks() {
    let mut t = ScreenTerminal::new(Buffer::new(), 0x0F);
    t.write_str(b"\nab");
    let mut k = KeyboardState::new();
    let r = k.do_keyboard(0x0E);
    apply_key_response(&mut t, r);
    assert_eq!(t.cursor_position(), (1, 1));
    assert_eq!(t.get_buffer_chars(1, 1), b' ');
    assert_eq!(t.get_buffer_chars(0, 1), b'a');
}

#[test]
fn unknown_extended_key_prints_do_other() {
    let mut t = ScreenTerminal::new(Buffer::new(), 0x0F);
    t.write_str(b"\n");
    apply_key_response(&mut t, KeyResponse { debug_key: None, action: KeyAction::Unknown });
    assert_eq!(row_text(&t, 1, 0, 8), b"Do other".to_vec());
    assert_eq!(t.cursor_position(), (8, 1));
}

#[test]
fn arrows_move_terminal_cursor() {
    let mut t = ScreenTerminal::new(Buffer::new(), 0x0F);
    t.write_str(b"\n\nxy");
    apply_key_response(&mut t, KeyResponse { debug_key: None, action: KeyAction::CursorUp });
    assert_eq!(t.cursor_position(), (2, 1));
    apply_key_response(&mut t, KeyResponse { debug_key: None, action: KeyAction::CursorLeft });
    assert_eq!(t.cursor_position(), (1, 1));
    apply_key_response(&mut t, KeyResponse { debug_key: None, action: KeyAction::CursorDown });
    apply_key_response(&mut t, KeyResponse { debug_key: None, action: KeyAction::CursorRight });
    assert_eq!(t.cursor_position(), (2, 2));
}
