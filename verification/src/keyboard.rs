use vstd::prelude::*;
use crate::screen::{char_bytes, Screen, DEBUG_COLUMN};
use crate::terminal::{Console, ScreenTerminal};

verus! {

/// The port the keyboard controller delivers scancodes on.
pub const KEYBOARD_DATA_PORT: u16 = 0x60;

/// The interrupt line of the keyboard.
pub const KEYBOARD_IRQ: u8 = 1;

/// The prefix byte announcing an extended scancode.
pub const EXTENDED_PREFIX: u8 = 0xE0;

/// Scancode of the backspace key.
pub const BACKSPACE: u8 = 0x0E;

/// Scancode of the left shift key.
pub const LEFT_SHIFT: u8 = 0x2A;

/// Scancode of the right shift key.
pub const RIGHT_SHIFT: u8 = 0x36;

/// Scancode of the left control key.
pub const LEFT_CTRL: u8 = 0x1D;

/// Extended scancode of the left arrow.
pub const ARROW_LEFT: u8 = 0x4B;

/// Extended scancode of the right arrow.
pub const ARROW_RIGHT: u8 = 0x4D;

/// Extended scancode of the up arrow.
pub const ARROW_UP: u8 = 0x48;

/// Extended scancode of the down arrow.
pub const ARROW_DOWN: u8 = 0x50;

/// Number of scancodes that have a character.
pub const KEYMAP_LEN: usize = 58;

/// The character of each scancode (set 1, US layout) without shift; 0
/// where the key has none.
pub open spec fn plain_keymap() -> Seq<u8> {
    seq![
        0u8, 0, 49, 50, 51, 52, 53, 54, 55, 56, 57, 48,
        45, 61, 0, 9, 113, 119, 101, 114, 116, 121, 117, 105,
        111, 112, 91, 93, 10, 0, 97, 115, 100, 102, 103, 104,
        106, 107, 108, 59, 39, 96, 0, 92, 122, 120, 99, 118,
        98, 110, 109, 44, 46, 47, 0, 42, 0, 32,
    ]
}

/// The character of each scancode with shift held; 0 where the key has
/// none.
pub open spec fn shift_keymap() -> Seq<u8> {
    seq![
        0u8, 0, 33, 64, 35, 36, 37, 94, 38, 42, 40, 41,
        95, 43, 0, 9, 81, 87, 69, 82, 84, 89, 85, 73,
        79, 80, 123, 125, 10, 0, 65, 83, 68, 70, 71, 72,
        74, 75, 76, 58, 34, 126, 0, 124, 90, 88, 67, 86,
        66, 78, 77, 60, 62, 63, 0, 42, 0, 32,
    ]
}

/// The character of scancode `code` with or without shift.
pub open spec fn keymap_char(shift: bool, code: int) -> u8 {
    if shift {
        shift_keymap()[code]
    } else {
        plain_keymap()[code]
    }
}

/// Looks up the character of scancode `idx`.
fn keymap_lookup(idx: usize, shift: bool) -> (r: u8)
    requires
        idx < KEYMAP_LEN,
    ensures
        r == keymap_char(shift, idx as int),
{
    if shift {
        let map: [u8; 58] = [
            0u8, 0, 33, 64, 35, 36, 37, 94, 38, 42, 40, 41,
            95, 43, 0, 9, 81, 87, 69, 82, 84, 89, 85, 73,
            79, 80, 123, 125, 10, 0, 65, 83, 68, 70, 71, 72,
            74, 75, 76, 58, 34, 126, 0, 124, 90, 88, 67, 86,
            66, 78, 77, 60, 62, 63, 0, 42, 0, 32,
        ];
        map[idx]
    } else {
        let map: [u8; 58] = [
            0u8, 0, 49, 50, 51, 52, 53, 54, 55, 56, 57, 48,
            45, 61, 0, 9, 113, 119, 101, 114, 116, 121, 117, 105,
            111, 112, 91, 93, 10, 0, 97, 115, 100, 102, 103, 104,
            106, 107, 108, 59, 39, 96, 0, 92, 122, 120, 99, 118,
            98, 110, 109, 44, 46, 47, 0, 42, 0, 32,
        ];
        map[idx]
    }
}

/// What the console is to do for a key.
#[derive(Clone, Copy, Debug, PartialEq, Eq, Structural)]
pub enum KeyAction {
    /// Nothing to show.
    Nothing,
    /// Move the cursor one step left.
    CursorLeft,
    /// Move the cursor one step right.
    CursorRight,
    /// Move the cursor one row up.
    CursorUp,
    /// Move the cursor one row down.
    CursorDown,
    /// An extended key without a meaning here: say so on the screen.
    Unknown,
    /// Backspace: step back and blank the character there.
    Erase,
    /// Print this character.
    Print(u8),
}

/// The answer to one scancode: the key code to show on the debug line,
/// if any, and the action for the console.
#[derive(Clone, Copy, Debug, PartialEq, Eq)]
pub struct KeyResponse {
    pub debug_key: Option<u8>,
    pub action: KeyAction,
}

/// The answer that shows and does nothing.
pub open spec fn quiet() -> KeyResponse {
    KeyResponse { debug_key: None, action: KeyAction::Nothing }
}

/// The answer to a key press `scancode` that is not a modifier: the code
/// is shown on the debug line; keys without a character do nothing except
/// backspace, which erases; the others print their character.
pub open spec fn keypress_response(shift: bool, scancode: u8) -> KeyResponse {
    let action = if scancode >= KEYMAP_LEN {
        KeyAction::Nothing
    } else {
        let ch = keymap_char(shift, scancode as int);
        if ch == 0 {
            if scancode == BACKSPACE {
                KeyAction::Erase
            } else {
                KeyAction::Nothing
            }
        } else {
            KeyAction::Print(ch)
        }
    };
    KeyResponse { debug_key: Some(scancode), action: action }
}

/// The action of an extended key `key` (release bit cleared).
pub open spec fn extended_action(key: u8) -> KeyAction {
    if key == ARROW_LEFT {
        KeyAction::CursorLeft
    } else if key == ARROW_RIGHT {
        KeyAction::CursorRight
    } else if key == ARROW_UP {
        KeyAction::CursorUp
    } else if key == ARROW_DOWN {
        KeyAction::CursorDown
    } else {
        KeyAction::Unknown
    }
}

/// The modifier keys and the pending extended prefix.
#[derive(Clone, Copy, Debug, PartialEq, Eq, Structural)]
pub struct KeyboardState {
    pub shift_pressed: bool,
    pub ctrl_pressed: bool,
    pub alt_pressed: bool,
    pub extended_key: bool,
}

/// One scancode through the decoder: the state after it and the answer.
/// The top bit of a scancode marks a release, the low seven bits name the
/// key. The extended prefix is remembered for the next scancode, which
/// then moves the cursor on a press of an arrow. Shift and control
/// follow their presses and releases; any other key press is answered as
/// `keypress_response` says; other releases do nothing.
pub open spec fn keyboard_step(s: KeyboardState, scancode: u8) -> (KeyboardState, KeyResponse) {
    let released = scancode >= 0x80;
    let key = (scancode % 0x80) as u8;
    if scancode == EXTENDED_PREFIX {
        (KeyboardState { extended_key: true, ..s }, quiet())
    } else if s.extended_key {
        let t = KeyboardState { extended_key: false, ..s };
        if released {
            (t, quiet())
        } else {
            (t, KeyResponse { debug_key: None, action: extended_action(key) })
        }
    } else if key == LEFT_SHIFT || key == RIGHT_SHIFT {
        (KeyboardState { shift_pressed: !released, ..s }, quiet())
    } else if key == LEFT_CTRL {
        (KeyboardState { ctrl_pressed: !released, ..s }, quiet())
    } else if released {
        (s, quiet())
    } else {
        (s, keypress_response(s.shift_pressed, key))
    }
}

impl KeyboardState {
    /// No key held, no prefix pending.
    pub fn new() -> (s: Self)
        ensures
            !s.shift_pressed,
            !s.ctrl_pressed,
            !s.alt_pressed,
            !s.extended_key,
    {
        KeyboardState {
            shift_pressed: false,
            ctrl_pressed: false,
            alt_pressed: false,
            extended_key: false,
        }
    }

    /// The answer to the press of `scancode`, a key that is not a
    /// modifier, with the current shift state.
    pub fn handle_keypress(&self, scancode: u8) -> (r: KeyResponse)
        ensures
            r == keypress_response(self.shift_pressed, scancode),
    {
        let idx = scancode as usize;
        if idx >= KEYMAP_LEN {
            return KeyResponse { debug_key: Some(scancode), action: KeyAction::Nothing };
        }
        let ch = keymap_lookup(idx, self.shift_pressed);
        if ch == 0 {
            if scancode == BACKSPACE {
                return KeyResponse { debug_key: Some(scancode), action: KeyAction::Erase };
            }
            return KeyResponse { debug_key: Some(scancode), action: KeyAction::Nothing };
        }
        KeyResponse { debug_key: Some(scancode), action: KeyAction::Print(ch) }
    }

    /// Takes one scancode from the keyboard and says what to do about it.
    pub fn do_keyboard(&mut self, scancode: u8) -> (r: KeyResponse)
        ensures
            (*final(self), r) == keyboard_step(*old(self), scancode),
    {
        let released = scancode & 0x80 != 0;
        let key = scancode & 0x7F;
        assert(released == (scancode >= 0x80) && key == scancode % 0x80) by (bit_vector)
            requires
                released == (scancode & 0x80 != 0),
                key == scancode & 0x7F,
        ;
        if scancode == EXTENDED_PREFIX {
            self.extended_key = true;
            return KeyResponse { debug_key: None, action: KeyAction::Nothing };
        }
        if self.extended_key {
            self.extended_key = false;
            if !released {
                let action = if key == ARROW_LEFT {
                    KeyAction::CursorLeft
                } else if key == ARROW_RIGHT {
                    KeyAction::CursorRight
                } else if key == ARROW_UP {
                    KeyAction::CursorUp
                } else if key == ARROW_DOWN {
                    KeyAction::CursorDown
                } else {
                    KeyAction::Unknown
                };
                return KeyResponse { debug_key: None, action };
            }
            KeyResponse { debug_key: None, action: KeyAction::Nothing }
        } else {
            if key == LEFT_SHIFT || key == RIGHT_SHIFT {
                self.shift_pressed = !released;
                KeyResponse { debug_key: None, action: KeyAction::Nothing }
            } else if key == LEFT_CTRL {
                self.ctrl_pressed = !released;
                KeyResponse { debug_key: None, action: KeyAction::Nothing }
            } else if !released {
                self.handle_keypress(key)
            } else {
                KeyResponse { debug_key: None, action: KeyAction::Nothing }
            }
        }
    }
}

/// The decimal digits of `n`, most significant first, in ASCII.
pub open spec fn decimal(n: nat) -> Seq<u8>
    decreases n,
{
    if n < 10 {
        seq![(48 + n) as u8]
    } else {
        decimal(n / 10).push((48 + n % 10) as u8)
    }
}

/// The words put before a key code on the debug line: "handlekey : ".
pub open spec fn key_debug_label() -> Seq<u8> {
    seq![104u8, 97, 110, 100, 108, 101, 107, 101, 121, 32, 58, 32]
}

/// The debug line for key code `code`: the label and the code in decimal.
pub open spec fn key_debug_text(code: u8) -> Seq<u8> {
    key_debug_label() + decimal(code as nat)
}

/// The text shown for an extended key without a meaning: "Do other".
pub open spec fn unknown_key_text() -> Seq<u8> {
    seq![68u8, 111, 32, 111, 116, 104, 101, 114]
}

/// Formats the debug line for key code `code`.
pub fn key_debug_message(code: u8) -> (r: Vec<u8>)
    ensures
        r@ == key_debug_text(code),
{
    let mut r: Vec<u8> = vec![104u8, 97, 110, 100, 108, 101, 107, 101, 121, 32, 58, 32];
    let ghost label = r@;
    if code >= 100 {
        r.push(48 + code / 100);
    }
    if code >= 10 {
        r.push(48 + code / 10 % 10);
    }
    r.push(48 + code % 10);
    proof {
        let n = code as nat;
        if n < 10 {
            assert(r@ =~= label + decimal(n));
        } else if n < 100 {
            assert(decimal(n / 10) =~= seq![(48 + n / 10) as u8]);
            assert(r@ =~= label + decimal(n));
        } else {
            assert(decimal(n / 100) =~= seq![(48 + n / 100) as u8]);
            assert(n / 10 / 10 == n / 100);
            assert(decimal(n / 10) =~= seq![(48 + n / 100) as u8, (48 + n / 10 % 10) as u8]);
            assert(r@ =~= label + decimal(n));
        }
    }
    r
}

/// The screen after the console has carried out `response`: the debug
/// line first, then the action.
pub open spec fn responded(s: Screen, response: KeyResponse) -> Screen {
    let t = match response.debug_key {
        Some(code) => s.debug_written(DEBUG_COLUMN as int, 0, key_debug_text(code)),
        None => s,
    };
    match response.action {
        KeyAction::Nothing => t,
        KeyAction::CursorLeft => t.cursor_left(),
        KeyAction::CursorRight => t.cursor_right(),
        KeyAction::CursorUp => t.cursor_up(),
        KeyAction::CursorDown => t.cursor_down(),
        KeyAction::Unknown => t.write_bytes(unknown_key_text()),
        KeyAction::Erase => {
            let u = t.cursor_left();
            u.put(32, u.color, u.col, u.row)
        },
        KeyAction::Print(ch) => t.write_bytes(char_bytes(ch)),
    }
}

/// Carries out the answer to a scancode on `console`.
pub fn apply_key_response(console: &mut ScreenTerminal, response: KeyResponse)
    requires
        old(console)@.wf(),
    ensures
        final(console)@ == responded(old(console)@, response),
        final(console)@.wf(),
{
    if let Some(code) = response.debug_key {
        let text = key_debug_message(code);
        console.write_debug(DEBUG_COLUMN, 0, text.as_slice());
    }
    match response.action {
        KeyAction::Nothing => {},
        KeyAction::CursorLeft => console.move_cursor_left(),
        KeyAction::CursorRight => console.move_cursor_right(),
        KeyAction::CursorUp => console.move_cursor_up(),
        KeyAction::CursorDown => console.move_cursor_down(),
        KeyAction::Unknown => {
            let text: Vec<u8> = vec![68u8, 111, 32, 111, 116, 104, 101, 114];
            console.write_str(text.as_slice());
        },
        KeyAction::Erase => {
            console.move_cursor_left();
            console.change_char(32);
        },
        KeyAction::Print(ch) => console.write_scalar(ch),
    }
}

/// The extended prefix applies to the one scancode after it: that
/// scancode clears it again, and neither changes shift or control.
pub proof fn lemma_extended_prefix_applies_once(s: KeyboardState, scancode: u8)
    requires
        scancode != EXTENDED_PREFIX,
    ensures
        keyboard_step(s, EXTENDED_PREFIX).0.extended_key,
        !keyboard_step(keyboard_step(s, EXTENDED_PREFIX).0, scancode).0.extended_key,
        keyboard_step(keyboard_step(s, EXTENDED_PREFIX).0, scancode).0.shift_pressed
            == s.shift_pressed,
        keyboard_step(keyboard_step(s, EXTENDED_PREFIX).0, scancode).0.ctrl_pressed
            == s.ctrl_pressed,
        keyboard_step(keyboard_step(s, EXTENDED_PREFIX).0, scancode).1.debug_key is None,
{
}

/// Shift is held exactly from the press of a shift key to its release:
/// after a press it is held, after a release it is not.
pub proof fn lemma_shift_follows_key(s: KeyboardState, key: u8)
    requires
        !s.extended_key,
        key == LEFT_SHIFT || key == RIGHT_SHIFT,
    ensures
        keyboard_step(s, key).0.shift_pressed,
        !keyboard_step(s, (key + 0x80) as u8).0.shift_pressed,
        !keyboard_step(keyboard_step(s, key).0, (key + 0x80) as u8).0.shift_pressed,
        keyboard_step(s, key).1 == quiet(),
        keyboard_step(s, (key + 0x80) as u8).1 == quiet(),
{
}

/// A key release never prints, erases or shows anything.
pub proof fn lemma_release_is_quiet(s: KeyboardState, scancode: u8)
    requires
        scancode >= 0x80,
    ensures
        keyboard_step(s, scancode).1 == quiet(),
{
}

/// A printed character always comes from the key map of the shift state,
/// for a key pressed without a pending prefix.
pub proof fn lemma_printed_char_from_keymap(s: KeyboardState, scancode: u8, ch: u8)
    requires
        keyboard_step(s, scancode).1.action == KeyAction::Print(ch),
    ensures
        !s.extended_key,
        scancode < KEYMAP_LEN,
        ch != 0,
        ch == keymap_char(s.shift_pressed, scancode as int),
        keyboard_step(s, scancode).1.debug_key == Some(scancode),
        keyboard_step(s, scancode).0 == s,
{
}

/// The key map is the US layout of scancode set 1: without shift the
/// digit row 0x02..0x0B reads "1234567890" followed by "-=", the letter
/// rows read "qwertyuiop[]" from 0x10, "asdfghjkl;'`" from 0x1E and
/// "zxcvbnm,./" from 0x2C; with shift the digit row reads "!@#$%^&*()_+"
/// and every letter is its capital.
pub proof fn lemma_keymap_is_us_layout()
    ensures
        forall|i: int|
            0 <= i < 12 ==> plain_keymap()[0x02 + i] as char == "1234567890-="@[i],
        forall|i: int|
            0 <= i < 12 ==> shift_keymap()[0x02 + i] as char == "!@#$%^&*()_+"@[i],
        forall|i: int|
            0 <= i < 12 ==> plain_keymap()[0x10 + i] as char == "qwertyuiop[]"@[i],
        forall|i: int|
            0 <= i < 12 ==> plain_keymap()[0x1E + i] as char == "asdfghjkl;'`"@[i],
        forall|i: int| 0 <= i < 10 ==> plain_keymap()[0x2C + i] as char == "zxcvbnm,./"@[i],
        forall|k: int|
            0 <= k < KEYMAP_LEN && 97 <= plain_keymap()[k] <= 122 ==> shift_keymap()[k]
                == plain_keymap()[k] - 32,
        forall|k: int|
            0 <= k < KEYMAP_LEN ==> (plain_keymap()[k] == 0 <==> shift_keymap()[k] == 0),
        plain_keymap()[0x0F] == 9 && plain_keymap()[0x1C] == 10 && plain_keymap()[0x39] == 32,
        plain_keymap()[0x0E] == 0,
{
    reveal_strlit("1234567890-=");
    reveal_strlit("!@#$%^&*()_+");
    reveal_strlit("qwertyuiop[]");
    reveal_strlit("asdfghjkl;'`");
    reveal_strlit("zxcvbnm,./");
    assert(plain_keymap().len() == 58 && shift_keymap().len() == 58);
}

/// After the extended prefix, pressing 0x4B moves the cursor left, 0x4D
/// right, 0x48 up, 0x50 down; any other pressed key is reported as
/// unknown; nothing is shown on the debug line.
pub proof fn lemma_extended_arrows(s: KeyboardState, scancode: u8)
    requires
        s.extended_key,
        scancode < 0x80,
        scancode != 0xE0,
    ensures
        keyboard_step(s, scancode).1.debug_key is None,
        scancode == 0x4B ==> keyboard_step(s, scancode).1.action == KeyAction::CursorLeft,
        scancode == 0x4D ==> keyboard_step(s, scancode).1.action == KeyAction::CursorRight,
        scancode == 0x48 ==> keyboard_step(s, scancode).1.action == KeyAction::CursorUp,
        scancode == 0x50 ==> keyboard_step(s, scancode).1.action == KeyAction::CursorDown,
        scancode != 0x4B && scancode != 0x4D && scancode != 0x48 && scancode != 0x50
            ==> keyboard_step(s, scancode).1.action == KeyAction::Unknown,
{
}

/// Backspace (0x0E) pressed without a prefix erases; a key pressed
/// without a prefix is shown on the debug line with its own code.
pub proof fn lemma_plain_press(s: KeyboardState, scancode: u8)
    requires
        !s.extended_key,
        scancode < 0x80,
        scancode != 0x2A && scancode != 0x36 && scancode != 0x1D,
    ensures
        keyboard_step(s, scancode).1.debug_key == Some(scancode),
        scancode == 0x0E ==> keyboard_step(s, scancode).1.action == KeyAction::Erase,
        scancode >= 58 ==> keyboard_step(s, scancode).1.action == KeyAction::Nothing,
        keyboard_step(s, scancode).0 == s,
{
}

/// The debug text of a key code is "handlekey : " and the code in
/// decimal without leading zeros; the unknown-key text is "Do other".
pub proof fn lemma_debug_texts(code: u8)
    ensures
        forall|i: int| 0 <= i < 12 ==> key_debug_text(code)[i] as char == "handlekey : "@[i],
        code < 10 ==> key_debug_text(code).len() == 13 && key_debug_text(code)[12] == 48 + code,
        10 <= code < 100 ==> key_debug_text(code).len() == 14 && key_debug_text(code)[12] == 48
            + code / 10 && key_debug_text(code)[13] == 48 + code % 10,
        100 <= code ==> key_debug_text(code).len() == 15 && key_debug_text(code)[12] == 48 + code
            / 100 && key_debug_text(code)[13] == 48 + code / 10 % 10 && key_debug_text(code)[14]
            == 48 + code % 10,
        unknown_key_text().len() == 8,
        forall|i: int| 0 <= i < 8 ==> unknown_key_text()[i] as char == "Do other"@[i],
{
    reveal_strlit("handlekey : ");
    reveal_strlit("Do other");
    reveal_with_fuel(decimal, 3);
    let n = code as nat;
    if n >= 100 {
        assert(n / 10 / 10 == n / 100);
    }
}

} // verus!
