//! Host keys and pointer buttons, and the numeric codes that stand for keys
//! on the wire.
//!
//! A letter key travels as the code of its capital letter, a digit key as
//! the code of its digit, and the other keys as the codes below. On replay
//! the code of a small letter and the code of a shifted symbol name the key
//! that types them. The codes 91 and 92 name the two meta keys, so the left
//! bracket and the backslash, which capture sends under the same codes, are
//! replayed as meta keys.

use vstd::prelude::*;

verus! {

/// A key of the host keyboard, named by its place on a QWERTY layout.
#[derive(Debug, Clone, Copy, PartialEq, Eq, Structural)]
pub enum Key {
    Alt,
    AltGr,
    Backspace,
    CapsLock,
    ControlLeft,
    ControlRight,
    Delete,
    DownArrow,
    End,
    Escape,
    F1,
    F10,
    F11,
    F12,
    F2,
    F3,
    F4,
    F5,
    F6,
    F7,
    F8,
    F9,
    Home,
    LeftArrow,
    MetaLeft,
    MetaRight,
    PageDown,
    PageUp,
    Return,
    RightArrow,
    ShiftLeft,
    ShiftRight,
    Space,
    Tab,
    UpArrow,
    PrintScreen,
    ScrollLock,
    Pause,
    NumLock,
    BackQuote,
    Num1,
    Num2,
    Num3,
    Num4,
    Num5,
    Num6,
    Num7,
    Num8,
    Num9,
    Num0,
    Minus,
    Equal,
    KeyQ,
    KeyW,
    KeyE,
    KeyR,
    KeyT,
    KeyY,
    KeyU,
    KeyI,
    KeyO,
    KeyP,
    LeftBracket,
    RightBracket,
    KeyA,
    KeyS,
    KeyD,
    KeyF,
    KeyG,
    KeyH,
    KeyJ,
    KeyK,
    KeyL,
    SemiColon,
    Quote,
    BackSlash,
    IntlBackslash,
    KeyZ,
    KeyX,
    KeyC,
    KeyV,
    KeyB,
    KeyN,
    KeyM,
    Comma,
    Dot,
    Slash,
    Insert,
    KpReturn,
    KpMinus,
    KpPlus,
    KpMultiply,
    KpDivide,
    Kp0,
    Kp1,
    Kp2,
    Kp3,
    Kp4,
    Kp5,
    Kp6,
    Kp7,
    Kp8,
    Kp9,
    KpDelete,
    Function,
    /// A key that the host reports by a raw code only.
    Unknown(u32),
}

/// A pointer button.
#[derive(Debug, Clone, Copy, PartialEq, Eq, Structural)]
pub enum Button {
    Left,
    Right,
    Middle,
    /// A further button, by the number the host gives it.
    Unknown(u8),
}

/// The `i`-th letter key, counted from `KeyA` at 0.
pub open spec fn letter_key(i: int) -> Key {
    if i == 0 {
        Key::KeyA
    } else if i == 1 {
        Key::KeyB
    } else if i == 2 {
        Key::KeyC
    } else if i == 3 {
        Key::KeyD
    } else if i == 4 {
        Key::KeyE
    } else if i == 5 {
        Key::KeyF
    } else if i == 6 {
        Key::KeyG
    } else if i == 7 {
        Key::KeyH
    } else if i == 8 {
        Key::KeyI
    } else if i == 9 {
        Key::KeyJ
    } else if i == 10 {
        Key::KeyK
    } else if i == 11 {
        Key::KeyL
    } else if i == 12 {
        Key::KeyM
    } else if i == 13 {
        Key::KeyN
    } else if i == 14 {
        Key::KeyO
    } else if i == 15 {
        Key::KeyP
    } else if i == 16 {
        Key::KeyQ
    } else if i == 17 {
        Key::KeyR
    } else if i == 18 {
        Key::KeyS
    } else if i == 19 {
        Key::KeyT
    } else if i == 20 {
        Key::KeyU
    } else if i == 21 {
        Key::KeyV
    } else if i == 22 {
        Key::KeyW
    } else if i == 23 {
        Key::KeyX
    } else if i == 24 {
        Key::KeyY
    } else {
        Key::KeyZ
    }
}

/// The key of the digit `i`.
pub open spec fn digit_key(i: int) -> Key {
    if i == 0 {
        Key::Num0
    } else if i == 1 {
        Key::Num1
    } else if i == 2 {
        Key::Num2
    } else if i == 3 {
        Key::Num3
    } else if i == 4 {
        Key::Num4
    } else if i == 5 {
        Key::Num5
    } else if i == 6 {
        Key::Num6
    } else if i == 7 {
        Key::Num7
    } else if i == 8 {
        Key::Num8
    } else {
        Key::Num9
    }
}

/// The code under which capture sends `key`; 0 for a key that has none.
pub open spec fn code_of_key(key: Key) -> u32 {
    match key {
        Key::KeyA => 65,
        Key::KeyB => 66,
        Key::KeyC => 67,
        Key::KeyD => 68,
        Key::KeyE => 69,
        Key::KeyF => 70,
        Key::KeyG => 71,
        Key::KeyH => 72,
        Key::KeyI => 73,
        Key::KeyJ => 74,
        Key::KeyK => 75,
        Key::KeyL => 76,
        Key::KeyM => 77,
        Key::KeyN => 78,
        Key::KeyO => 79,
        Key::KeyP => 80,
        Key::KeyQ => 81,
        Key::KeyR => 82,
        Key::KeyS => 83,
        Key::KeyT => 84,
        Key::KeyU => 85,
        Key::KeyV => 86,
        Key::KeyW => 87,
        Key::KeyX => 88,
        Key::KeyY => 89,
        Key::KeyZ => 90,
        Key::Num0 => 48,
        Key::Num1 => 49,
        Key::Num2 => 50,
        Key::Num3 => 51,
        Key::Num4 => 52,
        Key::Num5 => 53,
        Key::Num6 => 54,
        Key::Num7 => 55,
        Key::Num8 => 56,
        Key::Num9 => 57,
        Key::Return => 13,
        Key::Escape => 27,
        Key::Space => 32,
        Key::Backspace => 8,
        Key::Tab => 9,
        Key::Minus => 45,
        Key::Equal => 61,
        Key::LeftBracket => 91,
        Key::RightBracket => 93,
        Key::BackSlash => 92,
        Key::SemiColon => 59,
        Key::Quote => 39,
        Key::Comma => 44,
        Key::Dot => 46,
        Key::Slash => 47,
        Key::BackQuote => 96,
        Key::ShiftLeft => 160,
        Key::ShiftRight => 161,
        Key::ControlLeft => 162,
        Key::ControlRight => 163,
        Key::Alt => 164,
        Key::AltGr => 165,
        Key::MetaLeft => 91,
        Key::MetaRight => 92,
        _ => 0,
    }
}

/// The key that replay presses for `code`; `None` for a code that names no
/// key.
pub open spec fn key_of_code(code: u32) -> Option<Key> {
    if 65 <= code <= 90 {
        Some(letter_key(code - 65))
    } else if 97 <= code <= 122 {
        Some(letter_key(code - 97))
    } else if 48 <= code <= 57 {
        Some(digit_key(code - 48))
    } else {
        symbol_key(code)
    }
}

/// The keys of the codes that are neither letters nor digits: control
/// characters, punctuation with its shifted forms, and modifiers.
pub open spec fn symbol_key(code: u32) -> Option<Key> {
    if code == 13 {
        Some(Key::Return)
    } else if code == 10 {
        Some(Key::Return)
    } else if code == 27 {
        Some(Key::Escape)
    } else if code == 32 {
        Some(Key::Space)
    } else if code == 8 {
        Some(Key::Backspace)
    } else if code == 9 {
        Some(Key::Tab)
    } else if code == 33 {
        Some(Key::Num1)
    } else if code == 64 {
        Some(Key::Num2)
    } else if code == 35 {
        Some(Key::Num3)
    } else if code == 36 {
        Some(Key::Num4)
    } else if code == 37 {
        Some(Key::Num5)
    } else if code == 94 {
        Some(Key::Num6)
    } else if code == 38 {
        Some(Key::Num7)
    } else if code == 42 {
        Some(Key::Num8)
    } else if code == 40 {
        Some(Key::Num9)
    } else if code == 41 {
        Some(Key::Num0)
    } else if code == 45 {
        Some(Key::Minus)
    } else if code == 95 {
        Some(Key::Minus)
    } else if code == 61 {
        Some(Key::Equal)
    } else if code == 43 {
        Some(Key::Equal)
    } else if code == 93 {
        Some(Key::RightBracket)
    } else if code == 59 {
        Some(Key::SemiColon)
    } else if code == 58 {
        Some(Key::SemiColon)
    } else if code == 39 {
        Some(Key::Quote)
    } else if code == 34 {
        Some(Key::Quote)
    } else if code == 44 {
        Some(Key::Comma)
    } else if code == 60 {
        Some(Key::Comma)
    } else if code == 46 {
        Some(Key::Dot)
    } else if code == 62 {
        Some(Key::Dot)
    } else if code == 47 {
        Some(Key::Slash)
    } else if code == 63 {
        Some(Key::Slash)
    } else if code == 96 {
        Some(Key::BackQuote)
    } else if code == 126 {
        Some(Key::BackQuote)
    } else if code == 16 {
        Some(Key::ShiftLeft)
    } else if code == 160 {
        Some(Key::ShiftLeft)
    } else if code == 161 {
        Some(Key::ShiftRight)
    } else if code == 17 {
        Some(Key::ControlLeft)
    } else if code == 162 {
        Some(Key::ControlLeft)
    } else if code == 163 {
        Some(Key::ControlRight)
    } else if code == 18 {
        Some(Key::Alt)
    } else if code == 164 {
        Some(Key::Alt)
    } else if code == 165 {
        Some(Key::AltGr)
    } else if code == 91 {
        Some(Key::MetaLeft)
    } else if code == 92 {
        Some(Key::MetaRight)
    } else {
        None
    }
}

/// The code that stands for `key` on the wire.
pub fn rdev_key_to_code(key: Key) -> (code: u32)
    ensures
        code == code_of_key(key),
{
    match key {
        Key::KeyA => 65,
        Key::KeyB => 66,
        Key::KeyC => 67,
        Key::KeyD => 68,
        Key::KeyE => 69,
        Key::KeyF => 70,
        Key::KeyG => 71,
        Key::KeyH => 72,
        Key::KeyI => 73,
        Key::KeyJ => 74,
        Key::KeyK => 75,
        Key::KeyL => 76,
        Key::KeyM => 77,
        Key::KeyN => 78,
        Key::KeyO => 79,
        Key::KeyP => 80,
        Key::KeyQ => 81,
        Key::KeyR => 82,
        Key::KeyS => 83,
        Key::KeyT => 84,
        Key::KeyU => 85,
        Key::KeyV => 86,
        Key::KeyW => 87,
        Key::KeyX => 88,
        Key::KeyY => 89,
        Key::KeyZ => 90,
        Key::Num0 => 48,
        Key::Num1 => 49,
        Key::Num2 => 50,
        Key::Num3 => 51,
        Key::Num4 => 52,
        Key::Num5 => 53,
        Key::Num6 => 54,
        Key::Num7 => 55,
        Key::Num8 => 56,
        Key::Num9 => 57,
        Key::Return => 13,
        Key::Escape => 27,
        Key::Space => 32,
        Key::Backspace => 8,
        Key::Tab => 9,
        Key::Minus => 45,
        Key::Equal => 61,
        Key::LeftBracket => 91,
        Key::RightBracket => 93,
        Key::BackSlash => 92,
        Key::SemiColon => 59,
        Key::Quote => 39,
        Key::Comma => 44,
        Key::Dot => 46,
        Key::Slash => 47,
        Key::BackQuote => 96,
        Key::ShiftLeft => 160,
        Key::ShiftRight => 161,
        Key::ControlLeft => 162,
        Key::ControlRight => 163,
        Key::Alt => 164,
        Key::AltGr => 165,
        Key::MetaLeft => 91,
        Key::MetaRight => 92,
        _ => 0,
    }
}

fn letter(i: u32) -> (key: Key)
    requires
        i < 26,
    ensures
        key == letter_key(i as int),
{
    if i == 0 {
        Key::KeyA
    } else if i == 1 {
        Key::KeyB
    } else if i == 2 {
        Key::KeyC
    } else if i == 3 {
        Key::KeyD
    } else if i == 4 {
        Key::KeyE
    } else if i == 5 {
        Key::KeyF
    } else if i == 6 {
        Key::KeyG
    } else if i == 7 {
        Key::KeyH
    } else if i == 8 {
        Key::KeyI
    } else if i == 9 {
        Key::KeyJ
    } else if i == 10 {
        Key::KeyK
    } else if i == 11 {
        Key::KeyL
    } else if i == 12 {
        Key::KeyM
    } else if i == 13 {
        Key::KeyN
    } else if i == 14 {
        Key::KeyO
    } else if i == 15 {
        Key::KeyP
    } else if i == 16 {
        Key::KeyQ
    } else if i == 17 {
        Key::KeyR
    } else if i == 18 {
        Key::KeyS
    } else if i == 19 {
        Key::KeyT
    } else if i == 20 {
        Key::KeyU
    } else if i == 21 {
        Key::KeyV
    } else if i == 22 {
        Key::KeyW
    } else if i == 23 {
        Key::KeyX
    } else if i == 24 {
        Key::KeyY
    } else {
        Key::KeyZ
    }
}

fn digit(i: u32) -> (key: Key)
    requires
        i < 10,
    ensures
        key == digit_key(i as int),
{
    if i == 0 {
        Key::Num0
    } else if i == 1 {
        Key::Num1
    } else if i == 2 {
        Key::Num2
    } else if i == 3 {
        Key::Num3
    } else if i == 4 {
        Key::Num4
    } else if i == 5 {
        Key::Num5
    } else if i == 6 {
        Key::Num6
    } else if i == 7 {
        Key::Num7
    } else if i == 8 {
        Key::Num8
    } else {
        Key::Num9
    }
}

fn symbol(code: u32) -> (key: Option<Key>)
    ensures
        key == symbol_key(code),
{
    match code {
        13 => Some(Key::Return),
        10 => Some(Key::Return),
        27 => Some(Key::Escape),
        32 => Some(Key::Space),
        8 => Some(Key::Backspace),
        9 => Some(Key::Tab),
        33 => Some(Key::Num1),
        64 => Some(Key::Num2),
        35 => Some(Key::Num3),
        36 => Some(Key::Num4),
        37 => Some(Key::Num5),
        94 => Some(Key::Num6),
        38 => Some(Key::Num7),
        42 => Some(Key::Num8),
        40 => Some(Key::Num9),
        41 => Some(Key::Num0),
        45 => Some(Key::Minus),
        95 => Some(Key::Minus),
        61 => Some(Key::Equal),
        43 => Some(Key::Equal),
        93 => Some(Key::RightBracket),
        59 => Some(Key::SemiColon),
        58 => Some(Key::SemiColon),
        39 => Some(Key::Quote),
        34 => Some(Key::Quote),
        44 => Some(Key::Comma),
        60 => Some(Key::Comma),
        46 => Some(Key::Dot),
        62 => Some(Key::Dot),
        47 => Some(Key::Slash),
        63 => Some(Key::Slash),
        96 => Some(Key::BackQuote),
        126 => Some(Key::BackQuote),
        16 => Some(Key::ShiftLeft),
        160 => Some(Key::ShiftLeft),
        161 => Some(Key::ShiftRight),
        17 => Some(Key::ControlLeft),
        162 => Some(Key::ControlLeft),
        163 => Some(Key::ControlRight),
        18 => Some(Key::Alt),
        164 => Some(Key::Alt),
        165 => Some(Key::AltGr),
        91 => Some(Key::MetaLeft),
        92 => Some(Key::MetaRight),
        _ => None,
    }
}

/// The key that replay presses for `code`.
pub fn key_for_code(code: u32) -> (key: Option<Key>)
    ensures
        key == key_of_code(code),
{
    if 65 <= code && code <= 90 {
        Some(letter(code - 65))
    } else if 97 <= code && code <= 122 {
        Some(letter(code - 97))
    } else if 48 <= code && code <= 57 {
        Some(digit(code - 48))
    } else {
        symbol(code)
    }
}

/// A key that capture sends is replayed as the same key, but for the left
/// bracket and the backslash, whose codes the meta keys hold.
pub proof fn lemma_code_names_key(key: Key)
    requires
        code_of_key(key) != 0,
        key != Key::LeftBracket,
        key != Key::BackSlash,
    ensures
        key_of_code(code_of_key(key)) == Some(key),
{
}

} // verus!
