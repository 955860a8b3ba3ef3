//! Host key codes mapped to C64 keys: browser `KeyboardEvent.code` names
//! and SDL key codes.

use vstd::prelude::*;
use crate::cia::keyboard::{key_label, C64Key};

verus! {

/// Whether `s` is `lit`, character for character.
pub fn str_is(s: &str, lit: &str) -> (r: bool)
    ensures
        r == (s@ == lit@),
{
    let n = s.unicode_len();
    if n != lit.unicode_len() {
        return false;
    }
    let mut i: usize = 0;
    while i < n
        invariant
            i <= n,
            n == s@.len(),
            n == lit@.len(),
            forall|j: int| 0 <= j < i ==> s@[j] == lit@[j],
        decreases n - i,
    {
        if s.get_char(i) != lit.get_char(i) {
            return false;
        }
        i += 1;
    }
    assert(s@ =~= lit@);
    true
}

/// The C64 key a browser key code stands for: letters, digits, the keys
/// around them by position, the cursor and function keys, and the Meta keys
/// as the Commodore key.
pub open spec fn code_key(code: Seq<char>) -> Option<C64Key> {
    if code == "KeyA"@ {
        Some(C64Key::A)
    } else if code == "KeyB"@ {
        Some(C64Key::B)
    } else if code == "KeyC"@ {
        Some(C64Key::C)
    } else if code == "KeyD"@ {
        Some(C64Key::D)
    } else if code == "KeyE"@ {
        Some(C64Key::E)
    } else if code == "KeyF"@ {
        Some(C64Key::F)
    } else if code == "KeyG"@ {
        Some(C64Key::G)
    } else if code == "KeyH"@ {
        Some(C64Key::H)
    } else if code == "KeyI"@ {
        Some(C64Key::I)
    } else if code == "KeyJ"@ {
        Some(C64Key::J)
    } else if code == "KeyK"@ {
        Some(C64Key::K)
    } else if code == "KeyL"@ {
        Some(C64Key::L)
    } else if code == "KeyM"@ {
        Some(C64Key::M)
    } else if code == "KeyN"@ {
        Some(C64Key::N)
    } else if code == "KeyO"@ {
        Some(C64Key::O)
    } else if code == "KeyP"@ {
        Some(C64Key::P)
    } else if code == "KeyQ"@ {
        Some(C64Key::Q)
    } else if code == "KeyR"@ {
        Some(C64Key::R)
    } else if code == "KeyS"@ {
        Some(C64Key::S)
    } else if code == "KeyT"@ {
        Some(C64Key::T)
    } else if code == "KeyU"@ {
        Some(C64Key::U)
    } else if code == "KeyV"@ {
        Some(C64Key::V)
    } else if code == "KeyW"@ {
        Some(C64Key::W)
    } else if code == "KeyX"@ {
        Some(C64Key::X)
    } else if code == "KeyY"@ {
        Some(C64Key::Y)
    } else if code == "KeyZ"@ {
        Some(C64Key::Z)
    } else if code == "Digit0"@ {
        Some(C64Key::Num0)
    } else if code == "Digit1"@ {
        Some(C64Key::Num1)
    } else if code == "Digit2"@ {
        Some(C64Key::Num2)
    } else if code == "Digit3"@ {
        Some(C64Key::Num3)
    } else if code == "Digit4"@ {
        Some(C64Key::Num4)
    } else if code == "Digit5"@ {
        Some(C64Key::Num5)
    } else if code == "Digit6"@ {
        Some(C64Key::Num6)
    } else if code == "Digit7"@ {
        Some(C64Key::Num7)
    } else if code == "Digit8"@ {
        Some(C64Key::Num8)
    } else if code == "Digit9"@ {
        Some(C64Key::Num9)
    } else if code == "Space"@ {
        Some(C64Key::Space)
    } else if code == "Enter"@ {
        Some(C64Key::Return)
    } else if code == "Backspace"@ {
        Some(C64Key::Delete)
    } else if code == "Delete"@ {
        Some(C64Key::Delete)
    } else if code == "ShiftLeft"@ {
        Some(C64Key::LShift)
    } else if code == "ShiftRight"@ {
        Some(C64Key::RShift)
    } else if code == "ControlLeft"@ {
        Some(C64Key::Control)
    } else if code == "ControlRight"@ {
        Some(C64Key::Control)
    } else if code == "Escape"@ {
        Some(C64Key::RunStop)
    } else if code == "Period"@ {
        Some(C64Key::Period)
    } else if code == "Comma"@ {
        Some(C64Key::Comma)
    } else if code == "Semicolon"@ {
        Some(C64Key::Semicolon)
    } else if code == "Slash"@ {
        Some(C64Key::Slash)
    } else if code == "Minus"@ {
        Some(C64Key::Minus)
    } else if code == "Equal"@ {
        Some(C64Key::Equals)
    } else if code == "BracketLeft"@ {
        Some(C64Key::At)
    } else if code == "BracketRight"@ {
        Some(C64Key::Asterisk)
    } else if code == "Backslash"@ {
        Some(C64Key::Pound)
    } else if code == "Quote"@ {
        Some(C64Key::Colon)
    } else if code == "Home"@ {
        Some(C64Key::Home)
    } else if code == "ArrowRight"@ {
        Some(C64Key::CursorRight)
    } else if code == "ArrowDown"@ {
        Some(C64Key::CursorDown)
    } else if code == "F1"@ {
        Some(C64Key::F1)
    } else if code == "F3"@ {
        Some(C64Key::F3)
    } else if code == "F5"@ {
        Some(C64Key::F5)
    } else if code == "F7"@ {
        Some(C64Key::F7)
    } else if code == "MetaLeft"@ {
        Some(C64Key::Commodore)
    } else if code == "MetaRight"@ {
        Some(C64Key::Commodore)
    } else {
        None
    }
}

/// Map a `KeyboardEvent.code` value to a C64 key, if it has one.
pub fn map_code(code: &str) -> (r: Option<C64Key>)
    ensures
        r == code_key(code@),
{
    if str_is(code, "KeyA") {
        Some(C64Key::A)
    } else if str_is(code, "KeyB") {
        Some(C64Key::B)
    } else if str_is(code, "KeyC") {
        Some(C64Key::C)
    } else if str_is(code, "KeyD") {
        Some(C64Key::D)
    } else if str_is(code, "KeyE") {
        Some(C64Key::E)
    } else if str_is(code, "KeyF") {
        Some(C64Key::F)
    } else if str_is(code, "KeyG") {
        Some(C64Key::G)
    } else if str_is(code, "KeyH") {
        Some(C64Key::H)
    } else if str_is(code, "KeyI") {
        Some(C64Key::I)
    } else if str_is(code, "KeyJ") {
        Some(C64Key::J)
    } else if str_is(code, "KeyK") {
        Some(C64Key::K)
    } else if str_is(code, "KeyL") {
        Some(C64Key::L)
    } else if str_is(code, "KeyM") {
        Some(C64Key::M)
    } else if str_is(code, "KeyN") {
        Some(C64Key::N)
    } else if str_is(code, "KeyO") {
        Some(C64Key::O)
    } else if str_is(code, "KeyP") {
        Some(C64Key::P)
    } else if str_is(code, "KeyQ") {
        Some(C64Key::Q)
    } else if str_is(code, "KeyR") {
        Some(C64Key::R)
    } else if str_is(code, "KeyS") {
        Some(C64Key::S)
    } else if str_is(code, "KeyT") {
        Some(C64Key::T)
    } else if str_is(code, "KeyU") {
        Some(C64Key::U)
    } else if str_is(code, "KeyV") {
        Some(C64Key::V)
    } else if str_is(code, "KeyW") {
        Some(C64Key::W)
    } else if str_is(code, "KeyX") {
        Some(C64Key::X)
    } else if str_is(code, "KeyY") {
        Some(C64Key::Y)
    } else if str_is(code, "KeyZ") {
        Some(C64Key::Z)
    } else if str_is(code, "Digit0") {
        Some(C64Key::Num0)
    } else if str_is(code, "Digit1") {
        Some(C64Key::Num1)
    } else if str_is(code, "Digit2") {
        Some(C64Key::Num2)
    } else if str_is(code, "Digit3") {
        Some(C64Key::Num3)
    } else if str_is(code, "Digit4") {
        Some(C64Key::Num4)
    } else if str_is(code, "Digit5") {
        Some(C64Key::Num5)
    } else if str_is(code, "Digit6") {
        Some(C64Key::Num6)
    } else if str_is(code, "Digit7") {
        Some(C64Key::Num7)
    } else if str_is(code, "Digit8") {
        Some(C64Key::Num8)
    } else if str_is(code, "Digit9") {
        Some(C64Key::Num9)
    } else if str_is(code, "Space") {
        Some(C64Key::Space)
    } else if str_is(code, "Enter") {
        Some(C64Key::Return)
    } else if str_is(code, "Backspace") {
        Some(C64Key::Delete)
    } else if str_is(code, "Delete") {
        Some(C64Key::Delete)
    } else if str_is(code, "ShiftLeft") {
        Some(C64Key::LShift)
    } else if str_is(code, "ShiftRight") {
        Some(C64Key::RShift)
    } else if str_is(code, "ControlLeft") {
        Some(C64Key::Control)
    } else if str_is(code, "ControlRight") {
        Some(C64Key::Control)
    } else if str_is(code, "Escape") {
        Some(C64Key::RunStop)
    } else if str_is(code, "Period") {
        Some(C64Key::Period)
    } else if str_is(code, "Comma") {
        Some(C64Key::Comma)
    } else if str_is(code, "Semicolon") {
        Some(C64Key::Semicolon)
    } else if str_is(code, "Slash") {
        Some(C64Key::Slash)
    } else if str_is(code, "Minus") {
        Some(C64Key::Minus)
    } else if str_is(code, "Equal") {
        Some(C64Key::Equals)
    } else if str_is(code, "BracketLeft") {
        Some(C64Key::At)
    } else if str_is(code, "BracketRight") {
        Some(C64Key::Asterisk)
    } else if str_is(code, "Backslash") {
        Some(C64Key::Pound)
    } else if str_is(code, "Quote") {
        Some(C64Key::Colon)
    } else if str_is(code, "Home") {
        Some(C64Key::Home)
    } else if str_is(code, "ArrowRight") {
        Some(C64Key::CursorRight)
    } else if str_is(code, "ArrowDown") {
        Some(C64Key::CursorDown)
    } else if str_is(code, "F1") {
        Some(C64Key::F1)
    } else if str_is(code, "F3") {
        Some(C64Key::F3)
    } else if str_is(code, "F5") {
        Some(C64Key::F5)
    } else if str_is(code, "F7") {
        Some(C64Key::F7)
    } else if str_is(code, "MetaLeft") {
        Some(C64Key::Commodore)
    } else if str_is(code, "MetaRight") {
        Some(C64Key::Commodore)
    } else {
        None
    }
}

/// The C64 key an SDL key code stands for (SDL codes: the ASCII code of a
/// letter, digit or punctuation key; $40000000 plus the scan code for the
/// others): letters, digits, the keys around them, cursor right and down,
/// the odd function keys, both CTRL keys and TAB as CTRL, the GUI keys as
/// the Commodore key.
pub open spec fn keycode_key(code: i32) -> Option<C64Key> {
    if code == 97 {
        Some(C64Key::A)
    } else if code == 98 {
        Some(C64Key::B)
    } else if code == 99 {
        Some(C64Key::C)
    } else if code == 100 {
        Some(C64Key::D)
    } else if code == 101 {
        Some(C64Key::E)
    } else if code == 102 {
        Some(C64Key::F)
    } else if code == 103 {
        Some(C64Key::G)
    } else if code == 104 {
        Some(C64Key::H)
    } else if code == 105 {
        Some(C64Key::I)
    } else if code == 106 {
        Some(C64Key::J)
    } else if code == 107 {
        Some(C64Key::K)
    } else if code == 108 {
        Some(C64Key::L)
    } else if code == 109 {
        Some(C64Key::M)
    } else if code == 110 {
        Some(C64Key::N)
    } else if code == 111 {
        Some(C64Key::O)
    } else if code == 112 {
        Some(C64Key::P)
    } else if code == 113 {
        Some(C64Key::Q)
    } else if code == 114 {
        Some(C64Key::R)
    } else if code == 115 {
        Some(C64Key::S)
    } else if code == 116 {
        Some(C64Key::T)
    } else if code == 117 {
        Some(C64Key::U)
    } else if code == 118 {
        Some(C64Key::V)
    } else if code == 119 {
        Some(C64Key::W)
    } else if code == 120 {
        Some(C64Key::X)
    } else if code == 121 {
        Some(C64Key::Y)
    } else if code == 122 {
        Some(C64Key::Z)
    } else if code == 48 {
        Some(C64Key::Num0)
    } else if code == 49 {
        Some(C64Key::Num1)
    } else if code == 50 {
        Some(C64Key::Num2)
    } else if code == 51 {
        Some(C64Key::Num3)
    } else if code == 52 {
        Some(C64Key::Num4)
    } else if code == 53 {
        Some(C64Key::Num5)
    } else if code == 54 {
        Some(C64Key::Num6)
    } else if code == 55 {
        Some(C64Key::Num7)
    } else if code == 56 {
        Some(C64Key::Num8)
    } else if code == 57 {
        Some(C64Key::Num9)
    } else if code == 32 {
        Some(C64Key::Space)
    } else if code == 13 {
        Some(C64Key::Return)
    } else if code == 8 {
        Some(C64Key::Delete)
    } else if code == 127 {
        Some(C64Key::Delete)
    } else if code == 1073742049 {
        Some(C64Key::LShift)
    } else if code == 1073742053 {
        Some(C64Key::RShift)
    } else if code == 1073742048 {
        Some(C64Key::Control)
    } else if code == 1073742052 {
        Some(C64Key::Control)
    } else if code == 27 {
        Some(C64Key::RunStop)
    } else if code == 9 {
        Some(C64Key::Control)
    } else if code == 46 {
        Some(C64Key::Period)
    } else if code == 44 {
        Some(C64Key::Comma)
    } else if code == 59 {
        Some(C64Key::Semicolon)
    } else if code == 47 {
        Some(C64Key::Slash)
    } else if code == 45 {
        Some(C64Key::Minus)
    } else if code == 61 {
        Some(C64Key::Equals)
    } else if code == 43 {
        Some(C64Key::Plus)
    } else if code == 58 {
        Some(C64Key::Colon)
    } else if code == 1073741898 {
        Some(C64Key::Home)
    } else if code == 1073741903 {
        Some(C64Key::CursorRight)
    } else if code == 1073741905 {
        Some(C64Key::CursorDown)
    } else if code == 1073741882 {
        Some(C64Key::F1)
    } else if code == 1073741884 {
        Some(C64Key::F3)
    } else if code == 1073741886 {
        Some(C64Key::F5)
    } else if code == 1073741888 {
        Some(C64Key::F7)
    } else if code == 1073742051 {
        Some(C64Key::Commodore)
    } else if code == 1073742055 {
        Some(C64Key::Commodore)
    } else {
        None
    }
}

/// Map an SDL key code to a C64 key, if it has one.
pub fn map_keycode(code: i32) -> (r: Option<C64Key>)
    ensures
        r == keycode_key(code),
{
    if code == 97 {
        Some(C64Key::A)
    } else if code == 98 {
        Some(C64Key::B)
    } else if code == 99 {
        Some(C64Key::C)
    } else if code == 100 {
        Some(C64Key::D)
    } else if code == 101 {
        Some(C64Key::E)
    } else if code == 102 {
        Some(C64Key::F)
    } else if code == 103 {
        Some(C64Key::G)
    } else if code == 104 {
        Some(C64Key::H)
    } else if code == 105 {
        Some(C64Key::I)
    } else if code == 106 {
        Some(C64Key::J)
    } else if code == 107 {
        Some(C64Key::K)
    } else if code == 108 {
        Some(C64Key::L)
    } else if code == 109 {
        Some(C64Key::M)
    } else if code == 110 {
        Some(C64Key::N)
    } else if code == 111 {
        Some(C64Key::O)
    } else if code == 112 {
        Some(C64Key::P)
    } else if code == 113 {
        Some(C64Key::Q)
    } else if code == 114 {
        Some(C64Key::R)
    } else if code == 115 {
        Some(C64Key::S)
    } else if code == 116 {
        Some(C64Key::T)
    } else if code == 117 {
        Some(C64Key::U)
    } else if code == 118 {
        Some(C64Key::V)
    } else if code == 119 {
        Some(C64Key::W)
    } else if code == 120 {
        Some(C64Key::X)
    } else if code == 121 {
        Some(C64Key::Y)
    } else if code == 122 {
        Some(C64Key::Z)
    } else if code == 48 {
        Some(C64Key::Num0)
    } else if code == 49 {
        Some(C64Key::Num1)
    } else if code == 50 {
        Some(C64Key::Num2)
    } else if code == 51 {
        Some(C64Key::Num3)
    } else if code == 52 {
        Some(C64Key::Num4)
    } else if code == 53 {
        Some(C64Key::Num5)
    } else if code == 54 {
        Some(C64Key::Num6)
    } else if code == 55 {
        Some(C64Key::Num7)
    } else if code == 56 {
        Some(C64Key::Num8)
    } else if code == 57 {
        Some(C64Key::Num9)
    } else if code == 32 {
        Some(C64Key::Space)
    } else if code == 13 {
        Some(C64Key::Return)
    } else if code == 8 {
        Some(C64Key::Delete)
    } else if code == 127 {
        Some(C64Key::Delete)
    } else if code == 1073742049 {
        Some(C64Key::LShift)
    } else if code == 1073742053 {
        Some(C64Key::RShift)
    } else if code == 1073742048 {
        Some(C64Key::Control)
    } else if code == 1073742052 {
        Some(C64Key::Control)
    } else if code == 27 {
        Some(C64Key::RunStop)
    } else if code == 9 {
        Some(C64Key::Control)
    } else if code == 46 {
        Some(C64Key::Period)
    } else if code == 44 {
        Some(C64Key::Comma)
    } else if code == 59 {
        Some(C64Key::Semicolon)
    } else if code == 47 {
        Some(C64Key::Slash)
    } else if code == 45 {
        Some(C64Key::Minus)
    } else if code == 61 {
        Some(C64Key::Equals)
    } else if code == 43 {
        Some(C64Key::Plus)
    } else if code == 58 {
        Some(C64Key::Colon)
    } else if code == 1073741898 {
        Some(C64Key::Home)
    } else if code == 1073741903 {
        Some(C64Key::CursorRight)
    } else if code == 1073741905 {
        Some(C64Key::CursorDown)
    } else if code == 1073741882 {
        Some(C64Key::F1)
    } else if code == 1073741884 {
        Some(C64Key::F3)
    } else if code == 1073741886 {
        Some(C64Key::F5)
    } else if code == 1073741888 {
        Some(C64Key::F7)
    } else if code == 1073742051 {
        Some(C64Key::Commodore)
    } else if code == 1073742055 {
        Some(C64Key::Commodore)
    } else {
        None
    }
}

/// What the desktop frontend does with a key press.
#[derive(Copy, Clone, Debug, PartialEq, Eq, Structural)]
pub enum KeyAction {
    /// Leave the program (Escape).
    Quit,
    /// Turn warp speed on or off (F11).
    ToggleWarp,
    /// Trigger an NMI, as the RESTORE key does (F12).
    Restore,
    /// Press this C64 key.
    Press(C64Key),
    /// Nothing.
    Ignore,
}

/// The action for a press of the key with SDL key code `code`: Escape quits,
/// F11 toggles warp, F12 triggers an NMI; any other key is pressed on the
/// C64 when it stands for one.
pub open spec fn key_down_action_of(code: i32) -> KeyAction {
    if code == 27 {
        KeyAction::Quit
    } else if code == 1073741892 {
        KeyAction::ToggleWarp
    } else if code == 1073741893 {
        KeyAction::Restore
    } else {
        match keycode_key(code) {
            Some(k) => KeyAction::Press(k),
            None => KeyAction::Ignore,
        }
    }
}

/// Decide what a key press does.
pub fn key_down_action(code: i32) -> (r: KeyAction)
    ensures
        r == key_down_action_of(code),
{
    if code == 27 {
        KeyAction::Quit
    } else if code == 1073741892 {
        KeyAction::ToggleWarp
    } else if code == 1073741893 {
        KeyAction::Restore
    } else {
        match map_keycode(code) {
            Some(k) => KeyAction::Press(k),
            None => KeyAction::Ignore,
        }
    }
}

/// Every SDL letter key code ('a' to 'z', 97-122) gives the C64 key with
/// that letter on it, and every digit key code ('0' to '9', 48-57) the key
/// with that digit.
pub proof fn law_sdl_letters_and_digits(code: i32)
    requires
        97 <= code <= 122 || 48 <= code <= 57,
    ensures
        keycode_key(code) is Some,
        key_label(keycode_key(code).unwrap()) == Some(if code >= 97 { (code - 32) as u8 } else { code as u8 }),
{
}

/// Every browser code of a letter key ("KeyA" to "KeyZ") gives the C64 key
/// with that letter on it, and every code of a digit key ("Digit0" to
/// "Digit9") the key with that digit.
pub proof fn law_browser_letters_and_digits(c: char)
    requires
        'A' <= c <= 'Z' || '0' <= c <= '9',
    ensures
        ({
            let code = if c >= 'A' { "Key"@ + seq![c] } else { "Digit"@ + seq![c] };
            &&& code_key(code) is Some
            &&& key_label(code_key(code).unwrap()) == Some(c as u8)
        }),
{
    reveal_strlit("Key");
    reveal_strlit("Digit");
    reveal_strlit("KeyA");
    reveal_strlit("KeyB");
    reveal_strlit("KeyC");
    reveal_strlit("KeyD");
    reveal_strlit("KeyE");
    reveal_strlit("KeyF");
    reveal_strlit("KeyG");
    reveal_strlit("KeyH");
    reveal_strlit("KeyI");
    reveal_strlit("KeyJ");
    reveal_strlit("KeyK");
    reveal_strlit("KeyL");
    reveal_strlit("KeyM");
    reveal_strlit("KeyN");
    reveal_strlit("KeyO");
    reveal_strlit("KeyP");
    reveal_strlit("KeyQ");
    reveal_strlit("KeyR");
    reveal_strlit("KeyS");
    reveal_strlit("KeyT");
    reveal_strlit("KeyU");
    reveal_strlit("KeyV");
    reveal_strlit("KeyW");
    reveal_strlit("KeyX");
    reveal_strlit("KeyY");
    reveal_strlit("KeyZ");
    reveal_strlit("Digit0");
    reveal_strlit("Digit1");
    reveal_strlit("Digit2");
    reveal_strlit("Digit3");
    reveal_strlit("Digit4");
    reveal_strlit("Digit5");
    reveal_strlit("Digit6");
    reveal_strlit("Digit7");
    reveal_strlit("Digit8");
    reveal_strlit("Digit9");
    let code = if c >= 'A' { "Key"@ + seq![c] } else { "Digit"@ + seq![c] };
    if c == 'A' {
        assert(code[3] == c && code =~= "KeyA"@);
    } else if c == 'B' {
        assert(code[3] == c && code =~= "KeyB"@);
    } else if c == 'C' {
        assert(code[3] == c && code =~= "KeyC"@);
    } else if c == 'D' {
        assert(code[3] == c && code =~= "KeyD"@);
    } else if c == 'E' {
        assert(code[3] == c && code =~= "KeyE"@);
    } else if c == 'F' {
        assert(code[3] == c && code =~= "KeyF"@);
    } else if c == 'G' {
        assert(code[3] == c && code =~= "KeyG"@);
    } else if c == 'H' {
        assert(code[3] == c && code =~= "KeyH"@);
    } else if c == 'I' {
        assert(code[3] == c && code =~= "KeyI"@);
    } else if c == 'J' {
        assert(code[3] == c && code =~= "KeyJ"@);
    } else if c == 'K' {
        assert(code[3] == c && code =~= "KeyK"@);
    } else if c == 'L' {
        assert(code[3] == c && code =~= "KeyL"@);
    } else if c == 'M' {
        assert(code[3] == c && code =~= "KeyM"@);
    } else if c == 'N' {
        assert(code[3] == c && code =~= "KeyN"@);
    } else if c == 'O' {
        assert(code[3] == c && code =~= "KeyO"@);
    } else if c == 'P' {
        assert(code[3] == c && code =~= "KeyP"@);
    } else if c == 'Q' {
        assert(code[3] == c && code =~= "KeyQ"@);
    } else if c == 'R' {
        assert(code[3] == c && code =~= "KeyR"@);
    } else if c == 'S' {
        assert(code[3] == c && code =~= "KeyS"@);
    } else if c == 'T' {
        assert(code[3] == c && code =~= "KeyT"@);
    } else if c == 'U' {
        assert(code[3] == c && code =~= "KeyU"@);
    } else if c == 'V' {
        assert(code[3] == c && code =~= "KeyV"@);
    } else if c == 'W' {
        assert(code[3] == c && code =~= "KeyW"@);
    } else if c == 'X' {
        assert(code[3] == c && code =~= "KeyX"@);
    } else if c == 'Y' {
        assert(code[3] == c && code =~= "KeyY"@);
    } else if c == 'Z' {
        assert(code[3] == c && code =~= "KeyZ"@);
    } else if c == '0' {
        assert(code[5] == c && code =~= "Digit0"@);
    } else if c == '1' {
        assert(code[5] == c && code =~= "Digit1"@);
    } else if c == '2' {
        assert(code[5] == c && code =~= "Digit2"@);
    } else if c == '3' {
        assert(code[5] == c && code =~= "Digit3"@);
    } else if c == '4' {
        assert(code[5] == c && code =~= "Digit4"@);
    } else if c == '5' {
        assert(code[5] == c && code =~= "Digit5"@);
    } else if c == '6' {
        assert(code[5] == c && code =~= "Digit6"@);
    } else if c == '7' {
        assert(code[5] == c && code =~= "Digit7"@);
    } else if c == '8' {
        assert(code[5] == c && code =~= "Digit8"@);
    } else if c == '9' {
        assert(code[5] == c && code =~= "Digit9"@);
    }
}

} // verus!
