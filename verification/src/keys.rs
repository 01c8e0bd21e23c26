//! Key-code taxonomy of the keyboard's two physical key banks.
//!
//! Each member converts losslessly to the one-byte wire code used by the
//! color protocol and by the firmware memory-layout tables; the code equals
//! the key's USB HID usage id for the standard bank and the G-key ordinal for
//! the gaming bank.  `None` is the sentinel "no key" member of either bank,
//! with wire code zero.

use vstd::prelude::*;
use crate::text::str_eq;

verus! {

/// Tag distinguishing which physical key bank a color packet addresses.
#[derive(Clone, Copy, Debug, PartialEq, Eq, Structural)]
pub enum KeyType {
    Standard,
    Gaming,
    Memory,
}

impl KeyType {
    /// The one-byte tag written into a color packet.
    pub open spec fn tag_spec(self) -> u8 {
        match self {
            KeyType::Standard => 0x00,
            KeyType::Gaming => 0x01,
            KeyType::Memory => 0x02,
        }
    }

    pub fn tag(self) -> (r: u8)
        ensures
            r == self.tag_spec(),
    {
        match self {
            KeyType::Standard => 0x00,
            KeyType::Gaming => 0x01,
            KeyType::Memory => 0x02,
        }
    }
}

/// The gaming bank: the sentinel plus the nine dedicated G-keys.
#[derive(Clone, Copy, Debug, PartialEq, Eq, Structural)]
pub enum GamingKey {
    NoKey,
    G1,
    G2,
    G3,
    G4,
    G5,
    G6,
    G7,
    G8,
    G9,
}

impl GamingKey {
    /// The one-byte wire code of this key.
    pub open spec fn code_spec(self) -> u8 {
        match self {
            GamingKey::NoKey => 0,
            GamingKey::G1 => 1,
            GamingKey::G2 => 2,
            GamingKey::G3 => 3,
            GamingKey::G4 => 4,
            GamingKey::G5 => 5,
            GamingKey::G6 => 6,
            GamingKey::G7 => 7,
            GamingKey::G8 => 8,
            GamingKey::G9 => 9,
        }
    }

    pub fn code(self) -> (r: u8)
        ensures
            r == self.code_spec(),
    {
        match self {
            GamingKey::NoKey => 0,
            GamingKey::G1 => 1,
            GamingKey::G2 => 2,
            GamingKey::G3 => 3,
            GamingKey::G4 => 4,
            GamingKey::G5 => 5,
            GamingKey::G6 => 6,
            GamingKey::G7 => 7,
            GamingKey::G8 => 8,
            GamingKey::G9 => 9,
        }
    }

    /// The canonical textual name of this key.
    pub open spec fn name_spec(self) -> Seq<char> {
        match self {
            GamingKey::NoKey => "None"@,
            GamingKey::G1 => "G1"@,
            GamingKey::G2 => "G2"@,
            GamingKey::G3 => "G3"@,
            GamingKey::G4 => "G4"@,
            GamingKey::G5 => "G5"@,
            GamingKey::G6 => "G6"@,
            GamingKey::G7 => "G7"@,
            GamingKey::G8 => "G8"@,
            GamingKey::G9 => "G9"@,
        }
    }

    pub fn name(self) -> (r: &'static str)
        ensures
            r@ == self.name_spec(),
    {
        match self {
            GamingKey::NoKey => "None",
            GamingKey::G1 => "G1",
            GamingKey::G2 => "G2",
            GamingKey::G3 => "G3",
            GamingKey::G4 => "G4",
            GamingKey::G5 => "G5",
            GamingKey::G6 => "G6",
            GamingKey::G7 => "G7",
            GamingKey::G8 => "G8",
            GamingKey::G9 => "G9",
        }
    }

    /// The complete ordered member list, the sentinel first.
    pub open spec fn values_spec() -> Seq<GamingKey> {
        seq![
            GamingKey::NoKey,
            GamingKey::G1,
            GamingKey::G2,
            GamingKey::G3,
            GamingKey::G4,
            GamingKey::G5,
            GamingKey::G6,
            GamingKey::G7,
            GamingKey::G8,
            GamingKey::G9,
        ]
    }

    pub fn values() -> (r: Vec<GamingKey>)
        ensures
            r@ == Self::values_spec(),
    {
        let mut v: Vec<GamingKey> = Vec::new();
        v.push(GamingKey::NoKey);
        v.push(GamingKey::G1);
        v.push(GamingKey::G2);
        v.push(GamingKey::G3);
        v.push(GamingKey::G4);
        v.push(GamingKey::G5);
        v.push(GamingKey::G6);
        v.push(GamingKey::G7);
        v.push(GamingKey::G8);
        v.push(GamingKey::G9);
        assert(v@ =~= Self::values_spec());
        v
    }

    /// Which member, if any, carries the given canonical name.
    pub open spec fn of_name_spec(s: Seq<char>) -> Option<GamingKey> {
        if s == "None"@ {
            Some(GamingKey::NoKey)
        } else if s == "G1"@ {
            Some(GamingKey::G1)
        } else if s == "G2"@ {
            Some(GamingKey::G2)
        } else if s == "G3"@ {
            Some(GamingKey::G3)
        } else if s == "G4"@ {
            Some(GamingKey::G4)
        } else if s == "G5"@ {
            Some(GamingKey::G5)
        } else if s == "G6"@ {
            Some(GamingKey::G6)
        } else if s == "G7"@ {
            Some(GamingKey::G7)
        } else if s == "G8"@ {
            Some(GamingKey::G8)
        } else if s == "G9"@ {
            Some(GamingKey::G9)
        } else {
            None
        }
    }


    /// The wire codes of the member list, in the same order.
    pub open spec fn codes_spec() -> Seq<u8> {
        Seq::new(Self::values_spec().len(), |i: int| Self::values_spec()[i].code_spec())
    }

    pub fn codes() -> (r: Vec<u8>)
        ensures
            r@ == Self::codes_spec(),
    {
        let vals = Self::values();
        let mut r: Vec<u8> = Vec::new();
        let mut i: usize = 0;
        while i < vals.len()
            invariant
                i <= vals@.len(),
                vals@ == Self::values_spec(),
                r@.len() == i,
                forall|q: int| 0 <= q < i ==> r@[q] == Self::values_spec()[q].code_spec(),
            decreases vals@.len() - i,
        {
            let k = vals[i];
            r.push(k.code());
            i = i + 1;
        }
        assert(r@ =~= Self::codes_spec());
        r
    }

    /// Parse a key's canonical name; an unknown name finds no member.
    pub fn from_name(s: &str) -> (r: Option<GamingKey>)
        ensures
            r == Self::of_name_spec(s@),
    {
        if str_eq(s, "None") {
            Some(GamingKey::NoKey)
        } else if str_eq(s, "G1") {
            Some(GamingKey::G1)
        } else if str_eq(s, "G2") {
            Some(GamingKey::G2)
        } else if str_eq(s, "G3") {
            Some(GamingKey::G3)
        } else if str_eq(s, "G4") {
            Some(GamingKey::G4)
        } else if str_eq(s, "G5") {
            Some(GamingKey::G5)
        } else if str_eq(s, "G6") {
            Some(GamingKey::G6)
        } else if str_eq(s, "G7") {
            Some(GamingKey::G7)
        } else if str_eq(s, "G8") {
            Some(GamingKey::G8)
        } else if str_eq(s, "G9") {
            Some(GamingKey::G9)
        } else {
            None
        }
    }
}

/// The standard bank: every named physical key, coded by its USB HID usage id.
#[derive(Clone, Copy, Debug, PartialEq, Eq, Structural)]
pub enum StandardKey {
    NoKey,
    A,
    B,
    C,
    D,
    E,
    F,
    G,
    H,
    I,
    J,
    K,
    L,
    M,
    N,
    O,
    P,
    Q,
    R,
    S,
    T,
    U,
    V,
    W,
    X,
    Y,
    Z,
    Num1,
    Num2,
    Num3,
    Num4,
    Num5,
    Num6,
    Num7,
    Num8,
    Num9,
    Num0,
    Enter,
    Escape,
    Backspace,
    Tab,
    Space,
    Minus,
    Equal,
    LeftBracket,
    RightBracket,
    Backslash,
    NonUsHash,
    Semicolon,
    Apostrophe,
    Grave,
    Comma,
    Period,
    Slash,
    CapsLock,
    F1,
    F2,
    F3,
    F4,
    F5,
    F6,
    F7,
    F8,
    F9,
    F10,
    F11,
    F12,
    PrintScreen,
    ScrollLock,
    Pause,
    Insert,
    Home,
    PageUp,
    Delete,
    End,
    PageDown,
    Right,
    Left,
    Down,
    Up,
    NumLock,
    KeypadDivide,
    KeypadMultiply,
    KeypadMinus,
    KeypadPlus,
    KeypadEnter,
    Keypad1,
    Keypad2,
    Keypad3,
    Keypad4,
    Keypad5,
    Keypad6,
    Keypad7,
    Keypad8,
    Keypad9,
    Keypad0,
    KeypadPeriod,
    NonUsBackslash,
    Application,
    International1,
    International2,
    International3,
    International4,
    International5,
    LeftControl,
    LeftShift,
    LeftAlt,
    LeftGui,
    RightControl,
    RightShift,
    RightAlt,
    RightGui,
}

impl StandardKey {
    /// The one-byte wire code of this key: its USB HID usage id.
    pub open spec fn code_spec(self) -> u8 {
        match self {
            StandardKey::NoKey => 0,
            StandardKey::A => 4,
            StandardKey::B => 5,
            StandardKey::C => 6,
            StandardKey::D => 7,
            StandardKey::E => 8,
            StandardKey::F => 9,
            StandardKey::G => 10,
            StandardKey::H => 11,
            StandardKey::I => 12,
            StandardKey::J => 13,
            StandardKey::K => 14,
            StandardKey::L => 15,
            StandardKey::M => 16,
            StandardKey::N => 17,
            StandardKey::O => 18,
            StandardKey::P => 19,
            StandardKey::Q => 20,
            StandardKey::R => 21,
            StandardKey::S => 22,
            StandardKey::T => 23,
            StandardKey::U => 24,
            StandardKey::V => 25,
            StandardKey::W => 26,
            StandardKey::X => 27,
            StandardKey::Y => 28,
            StandardKey::Z => 29,
            StandardKey::Num1 => 30,
            StandardKey::Num2 => 31,
            StandardKey::Num3 => 32,
            StandardKey::Num4 => 33,
            StandardKey::Num5 => 34,
            StandardKey::Num6 => 35,
            StandardKey::Num7 => 36,
            StandardKey::Num8 => 37,
            StandardKey::Num9 => 38,
            StandardKey::Num0 => 39,
            StandardKey::Enter => 40,
            StandardKey::Escape => 41,
            StandardKey::Backspace => 42,
            StandardKey::Tab => 43,
            StandardKey::Space => 44,
            StandardKey::Minus => 45,
            StandardKey::Equal => 46,
            StandardKey::LeftBracket => 47,
            StandardKey::RightBracket => 48,
            StandardKey::Backslash => 49,
            StandardKey::NonUsHash => 50,
            StandardKey::Semicolon => 51,
            StandardKey::Apostrophe => 52,
            StandardKey::Grave => 53,
            StandardKey::Comma => 54,
            StandardKey::Period => 55,
            StandardKey::Slash => 56,
            StandardKey::CapsLock => 57,
            StandardKey::F1 => 58,
            StandardKey::F2 => 59,
            StandardKey::F3 => 60,
            StandardKey::F4 => 61,
            StandardKey::F5 => 62,
            StandardKey::F6 => 63,
            StandardKey::F7 => 64,
            StandardKey::F8 => 65,
            StandardKey::F9 => 66,
            StandardKey::F10 => 67,
            StandardKey::F11 => 68,
            StandardKey::F12 => 69,
            StandardKey::PrintScreen => 70,
            StandardKey::ScrollLock => 71,
            StandardKey::Pause => 72,
            StandardKey::Insert => 73,
            StandardKey::Home => 74,
            StandardKey::PageUp => 75,
            StandardKey::Delete => 76,
            StandardKey::End => 77,
            StandardKey::PageDown => 78,
            StandardKey::Right => 79,
            StandardKey::Left => 80,
            StandardKey::Down => 81,
            StandardKey::Up => 82,
            StandardKey::NumLock => 83,
            StandardKey::KeypadDivide => 84,
            StandardKey::KeypadMultiply => 85,
            StandardKey::KeypadMinus => 86,
            StandardKey::KeypadPlus => 87,
            StandardKey::KeypadEnter => 88,
            StandardKey::Keypad1 => 89,
            StandardKey::Keypad2 => 90,
            StandardKey::Keypad3 => 91,
            StandardKey::Keypad4 => 92,
            StandardKey::Keypad5 => 93,
            StandardKey::Keypad6 => 94,
            StandardKey::Keypad7 => 95,
            StandardKey::Keypad8 => 96,
            StandardKey::Keypad9 => 97,
            StandardKey::Keypad0 => 98,
            StandardKey::KeypadPeriod => 99,
            StandardKey::NonUsBackslash => 100,
            StandardKey::Application => 101,
            StandardKey::International1 => 135,
            StandardKey::International2 => 136,
            StandardKey::International3 => 137,
            StandardKey::International4 => 138,
            StandardKey::International5 => 139,
            StandardKey::LeftControl => 224,
            StandardKey::LeftShift => 225,
            StandardKey::LeftAlt => 226,
            StandardKey::LeftGui => 227,
            StandardKey::RightControl => 228,
            StandardKey::RightShift => 229,
            StandardKey::RightAlt => 230,
            StandardKey::RightGui => 231,
        }
    }

    pub fn code(self) -> (r: u8)
        ensures
            r == self.code_spec(),
    {
        match self {
            StandardKey::NoKey => 0,
            StandardKey::A => 4,
            StandardKey::B => 5,
            StandardKey::C => 6,
            StandardKey::D => 7,
            StandardKey::E => 8,
            StandardKey::F => 9,
            StandardKey::G => 10,
            StandardKey::H => 11,
            StandardKey::I => 12,
            StandardKey::J => 13,
            StandardKey::K => 14,
            StandardKey::L => 15,
            StandardKey::M => 16,
            StandardKey::N => 17,
            StandardKey::O => 18,
            StandardKey::P => 19,
            StandardKey::Q => 20,
            StandardKey::R => 21,
            StandardKey::S => 22,
            StandardKey::T => 23,
            StandardKey::U => 24,
            StandardKey::V => 25,
            StandardKey::W => 26,
            StandardKey::X => 27,
            StandardKey::Y => 28,
            StandardKey::Z => 29,
            StandardKey::Num1 => 30,
            StandardKey::Num2 => 31,
            StandardKey::Num3 => 32,
            StandardKey::Num4 => 33,
            StandardKey::Num5 => 34,
            StandardKey::Num6 => 35,
            StandardKey::Num7 => 36,
            StandardKey::Num8 => 37,
            StandardKey::Num9 => 38,
            StandardKey::Num0 => 39,
            StandardKey::Enter => 40,
            StandardKey::Escape => 41,
            StandardKey::Backspace => 42,
            StandardKey::Tab => 43,
            StandardKey::Space => 44,
            StandardKey::Minus => 45,
            StandardKey::Equal => 46,
            StandardKey::LeftBracket => 47,
            StandardKey::RightBracket => 48,
            StandardKey::Backslash => 49,
            StandardKey::NonUsHash => 50,
            StandardKey::Semicolon => 51,
            StandardKey::Apostrophe => 52,
            StandardKey::Grave => 53,
            StandardKey::Comma => 54,
            StandardKey::Period => 55,
            StandardKey::Slash => 56,
            StandardKey::CapsLock => 57,
            StandardKey::F1 => 58,
            StandardKey::F2 => 59,
            StandardKey::F3 => 60,
            StandardKey::F4 => 61,
            StandardKey::F5 => 62,
            StandardKey::F6 => 63,
            StandardKey::F7 => 64,
            StandardKey::F8 => 65,
            StandardKey::F9 => 66,
            StandardKey::F10 => 67,
            StandardKey::F11 => 68,
            StandardKey::F12 => 69,
            StandardKey::PrintScreen => 70,
            StandardKey::ScrollLock => 71,
            StandardKey::Pause => 72,
            StandardKey::Insert => 73,
            StandardKey::Home => 74,
            StandardKey::PageUp => 75,
            StandardKey::Delete => 76,
            StandardKey::End => 77,
            StandardKey::PageDown => 78,
            StandardKey::Right => 79,
            StandardKey::Left => 80,
            StandardKey::Down => 81,
            StandardKey::Up => 82,
            StandardKey::NumLock => 83,
            StandardKey::KeypadDivide => 84,
            StandardKey::KeypadMultiply => 85,
            StandardKey::KeypadMinus => 86,
            StandardKey::KeypadPlus => 87,
            StandardKey::KeypadEnter => 88,
            StandardKey::Keypad1 => 89,
            StandardKey::Keypad2 => 90,
            StandardKey::Keypad3 => 91,
            StandardKey::Keypad4 => 92,
            StandardKey::Keypad5 => 93,
            StandardKey::Keypad6 => 94,
            StandardKey::Keypad7 => 95,
            StandardKey::Keypad8 => 96,
            StandardKey::Keypad9 => 97,
            StandardKey::Keypad0 => 98,
            StandardKey::KeypadPeriod => 99,
            StandardKey::NonUsBackslash => 100,
            StandardKey::Application => 101,
            StandardKey::International1 => 135,
            StandardKey::International2 => 136,
            StandardKey::International3 => 137,
            StandardKey::International4 => 138,
            StandardKey::International5 => 139,
            StandardKey::LeftControl => 224,
            StandardKey::LeftShift => 225,
            StandardKey::LeftAlt => 226,
            StandardKey::LeftGui => 227,
            StandardKey::RightControl => 228,
            StandardKey::RightShift => 229,
            StandardKey::RightAlt => 230,
            StandardKey::RightGui => 231,
        }
    }

    /// The canonical textual name of this key.
    pub open spec fn name_spec(self) -> Seq<char> {
        match self {
            StandardKey::NoKey => "None"@,
            StandardKey::A => "A"@,
            StandardKey::B => "B"@,
            StandardKey::C => "C"@,
            StandardKey::D => "D"@,
            StandardKey::E => "E"@,
            StandardKey::F => "F"@,
            StandardKey::G => "G"@,
            StandardKey::H => "H"@,
            StandardKey::I => "I"@,
            StandardKey::J => "J"@,
            StandardKey::K => "K"@,
            StandardKey::L => "L"@,
            StandardKey::M => "M"@,
            StandardKey::N => "N"@,
            StandardKey::O => "O"@,
            StandardKey::P => "P"@,
            StandardKey::Q => "Q"@,
            StandardKey::R => "R"@,
            StandardKey::S => "S"@,
            StandardKey::T => "T"@,
            StandardKey::U => "U"@,
            StandardKey::V => "V"@,
            StandardKey::W => "W"@,
            StandardKey::X => "X"@,
            StandardKey::Y => "Y"@,
            StandardKey::Z => "Z"@,
            StandardKey::Num1 => "Num1"@,
            StandardKey::Num2 => "Num2"@,
            StandardKey::Num3 => "Num3"@,
            StandardKey::Num4 => "Num4"@,
            StandardKey::Num5 => "Num5"@,
            StandardKey::Num6 => "Num6"@,
            StandardKey::Num7 => "Num7"@,
            StandardKey::Num8 => "Num8"@,
            StandardKey::Num9 => "Num9"@,
            StandardKey::Num0 => "Num0"@,
            StandardKey::Enter => "Enter"@,
            StandardKey::Escape => "Escape"@,
            StandardKey::Backspace => "Backspace"@,
            StandardKey::Tab => "Tab"@,
            StandardKey::Space => "Space"@,
            StandardKey::Minus => "Minus"@,
            StandardKey::Equal => "Equal"@,
            StandardKey::LeftBracket => "LeftBracket"@,
            StandardKey::RightBracket => "RightBracket"@,
            StandardKey::Backslash => "Backslash"@,
            StandardKey::NonUsHash => "NonUsHash"@,
            StandardKey::Semicolon => "Semicolon"@,
            StandardKey::Apostrophe => "Apostrophe"@,
            StandardKey::Grave => "Grave"@,
            StandardKey::Comma => "Comma"@,
            StandardKey::Period => "Period"@,
            StandardKey::Slash => "Slash"@,
            StandardKey::CapsLock => "CapsLock"@,
            StandardKey::F1 => "F1"@,
            StandardKey::F2 => "F2"@,
            StandardKey::F3 => "F3"@,
            StandardKey::F4 => "F4"@,
            StandardKey::F5 => "F5"@,
            StandardKey::F6 => "F6"@,
            StandardKey::F7 => "F7"@,
            StandardKey::F8 => "F8"@,
            StandardKey::F9 => "F9"@,
            StandardKey::F10 => "F10"@,
            StandardKey::F11 => "F11"@,
            StandardKey::F12 => "F12"@,
            StandardKey::PrintScreen => "PrintScreen"@,
            StandardKey::ScrollLock => "ScrollLock"@,
            StandardKey::Pause => "Pause"@,
            StandardKey::Insert => "Insert"@,
            StandardKey::Home => "Home"@,
            StandardKey::PageUp => "PageUp"@,
            StandardKey::Delete => "Delete"@,
            StandardKey::End => "End"@,
            StandardKey::PageDown => "PageDown"@,
            StandardKey::Right => "Right"@,
            StandardKey::Left => "Left"@,
            StandardKey::Down => "Down"@,
            StandardKey::Up => "Up"@,
            StandardKey::NumLock => "NumLock"@,
            StandardKey::KeypadDivide => "KeypadDivide"@,
            StandardKey::KeypadMultiply => "KeypadMultiply"@,
            StandardKey::KeypadMinus => "KeypadMinus"@,
            StandardKey::KeypadPlus => "KeypadPlus"@,
            StandardKey::KeypadEnter => "KeypadEnter"@,
            StandardKey::Keypad1 => "Keypad1"@,
            StandardKey::Keypad2 => "Keypad2"@,
            StandardKey::Keypad3 => "Keypad3"@,
            StandardKey::Keypad4 => "Keypad4"@,
            StandardKey::Keypad5 => "Keypad5"@,
            StandardKey::Keypad6 => "Keypad6"@,
            StandardKey::Keypad7 => "Keypad7"@,
            StandardKey::Keypad8 => "Keypad8"@,
            StandardKey::Keypad9 => "Keypad9"@,
            StandardKey::Keypad0 => "Keypad0"@,
            StandardKey::KeypadPeriod => "KeypadPeriod"@,
            StandardKey::NonUsBackslash => "NonUsBackslash"@,
            StandardKey::Application => "Application"@,
            StandardKey::International1 => "International1"@,
            StandardKey::International2 => "International2"@,
            StandardKey::International3 => "International3"@,
            StandardKey::International4 => "International4"@,
            StandardKey::International5 => "International5"@,
            StandardKey::LeftControl => "LeftControl"@,
            StandardKey::LeftShift => "LeftShift"@,
            StandardKey::LeftAlt => "LeftAlt"@,
            StandardKey::LeftGui => "LeftGui"@,
            StandardKey::RightControl => "RightControl"@,
            StandardKey::RightShift => "RightShift"@,
            StandardKey::RightAlt => "RightAlt"@,
            StandardKey::RightGui => "RightGui"@,
        }
    }

    pub fn name(self) -> (r: &'static str)
        ensures
            r@ == self.name_spec(),
    {
        match self {
            StandardKey::NoKey => "None",
            StandardKey::A => "A",
            StandardKey::B => "B",
            StandardKey::C => "C",
            StandardKey::D => "D",
            StandardKey::E => "E",
            StandardKey::F => "F",
            StandardKey::G => "G",
            StandardKey::H => "H",
            StandardKey::I => "I",
            StandardKey::J => "J",
            StandardKey::K => "K",
            StandardKey::L => "L",
            StandardKey::M => "M",
            StandardKey::N => "N",
            StandardKey::O => "O",
            StandardKey::P => "P",
            StandardKey::Q => "Q",
            StandardKey::R => "R",
            StandardKey::S => "S",
            StandardKey::T => "T",
            StandardKey::U => "U",
            StandardKey::V => "V",
            StandardKey::W => "W",
            StandardKey::X => "X",
            StandardKey::Y => "Y",
            StandardKey::Z => "Z",
            StandardKey::Num1 => "Num1",
            StandardKey::Num2 => "Num2",
            StandardKey::Num3 => "Num3",
            StandardKey::Num4 => "Num4",
            StandardKey::Num5 => "Num5",
            StandardKey::Num6 => "Num6",
            StandardKey::Num7 => "Num7",
            StandardKey::Num8 => "Num8",
            StandardKey::Num9 => "Num9",
            StandardKey::Num0 => "Num0",
            StandardKey::Enter => "Enter",
            StandardKey::Escape => "Escape",
            StandardKey::Backspace => "Backspace",
            StandardKey::Tab => "Tab",
            StandardKey::Space => "Space",
            StandardKey::Minus => "Minus",
            StandardKey::Equal => "Equal",
            StandardKey::LeftBracket => "LeftBracket",
            StandardKey::RightBracket => "RightBracket",
            StandardKey::Backslash => "Backslash",
            StandardKey::NonUsHash => "NonUsHash",
            StandardKey::Semicolon => "Semicolon",
            StandardKey::Apostrophe => "Apostrophe",
            StandardKey::Grave => "Grave",
            StandardKey::Comma => "Comma",
            StandardKey::Period => "Period",
            StandardKey::Slash => "Slash",
            StandardKey::CapsLock => "CapsLock",
            StandardKey::F1 => "F1",
            StandardKey::F2 => "F2",
            StandardKey::F3 => "F3",
            StandardKey::F4 => "F4",
            StandardKey::F5 => "F5",
            StandardKey::F6 => "F6",
            StandardKey::F7 => "F7",
            StandardKey::F8 => "F8",
            StandardKey::F9 => "F9",
            StandardKey::F10 => "F10",
            StandardKey::F11 => "F11",
            StandardKey::F12 => "F12",
            StandardKey::PrintScreen => "PrintScreen",
            StandardKey::ScrollLock => "ScrollLock",
            StandardKey::Pause => "Pause",
            StandardKey::Insert => "Insert",
            StandardKey::Home => "Home",
            StandardKey::PageUp => "PageUp",
            StandardKey::Delete => "Delete",
            StandardKey::End => "End",
            StandardKey::PageDown => "PageDown",
            StandardKey::Right => "Right",
            StandardKey::Left => "Left",
            StandardKey::Down => "Down",
            StandardKey::Up => "Up",
            StandardKey::NumLock => "NumLock",
            StandardKey::KeypadDivide => "KeypadDivide",
            StandardKey::KeypadMultiply => "KeypadMultiply",
            StandardKey::KeypadMinus => "KeypadMinus",
            StandardKey::KeypadPlus => "KeypadPlus",
            StandardKey::KeypadEnter => "KeypadEnter",
            StandardKey::Keypad1 => "Keypad1",
            StandardKey::Keypad2 => "Keypad2",
            StandardKey::Keypad3 => "Keypad3",
            StandardKey::Keypad4 => "Keypad4",
            StandardKey::Keypad5 => "Keypad5",
            StandardKey::Keypad6 => "Keypad6",
            StandardKey::Keypad7 => "Keypad7",
            StandardKey::Keypad8 => "Keypad8",
            StandardKey::Keypad9 => "Keypad9",
            StandardKey::Keypad0 => "Keypad0",
            StandardKey::KeypadPeriod => "KeypadPeriod",
            StandardKey::NonUsBackslash => "NonUsBackslash",
            StandardKey::Application => "Application",
            StandardKey::International1 => "International1",
            StandardKey::International2 => "International2",
            StandardKey::International3 => "International3",
            StandardKey::International4 => "International4",
            StandardKey::International5 => "International5",
            StandardKey::LeftControl => "LeftControl",
            StandardKey::LeftShift => "LeftShift",
            StandardKey::LeftAlt => "LeftAlt",
            StandardKey::LeftGui => "LeftGui",
            StandardKey::RightControl => "RightControl",
            StandardKey::RightShift => "RightShift",
            StandardKey::RightAlt => "RightAlt",
            StandardKey::RightGui => "RightGui",
        }
    }

    /// One quarter of the member list, in order.
    pub open spec fn values_chunk_a() -> Seq<StandardKey> {
        seq![
            StandardKey::NoKey,
            StandardKey::A,
            StandardKey::B,
            StandardKey::C,
            StandardKey::D,
            StandardKey::E,
            StandardKey::F,
            StandardKey::G,
            StandardKey::H,
            StandardKey::I,
            StandardKey::J,
            StandardKey::K,
            StandardKey::L,
            StandardKey::M,
            StandardKey::N,
            StandardKey::O,
            StandardKey::P,
            StandardKey::Q,
            StandardKey::R,
            StandardKey::S,
            StandardKey::T,
            StandardKey::U,
            StandardKey::V,
            StandardKey::W,
            StandardKey::X,
            StandardKey::Y,
            StandardKey::Z,
            StandardKey::Num1,
        ]
    }

    /// One quarter of the member list, in order.
    pub open spec fn values_chunk_b() -> Seq<StandardKey> {
        seq![
            StandardKey::Num2,
            StandardKey::Num3,
            StandardKey::Num4,
            StandardKey::Num5,
            StandardKey::Num6,
            StandardKey::Num7,
            StandardKey::Num8,
            StandardKey::Num9,
            StandardKey::Num0,
            StandardKey::Enter,
            StandardKey::Escape,
            StandardKey::Backspace,
            StandardKey::Tab,
            StandardKey::Space,
            StandardKey::Minus,
            StandardKey::Equal,
            StandardKey::LeftBracket,
            StandardKey::RightBracket,
            StandardKey::Backslash,
            StandardKey::NonUsHash,
            StandardKey::Semicolon,
            StandardKey::Apostrophe,
            StandardKey::Grave,
            StandardKey::Comma,
            StandardKey::Period,
            StandardKey::Slash,
            StandardKey::CapsLock,
            StandardKey::F1,
        ]
    }

    /// One quarter of the member list, in order.
    pub open spec fn values_chunk_c() -> Seq<StandardKey> {
        seq![
            StandardKey::F2,
            StandardKey::F3,
            StandardKey::F4,
            StandardKey::F5,
            StandardKey::F6,
            StandardKey::F7,
            StandardKey::F8,
            StandardKey::F9,
            StandardKey::F10,
            StandardKey::F11,
            StandardKey::F12,
            StandardKey::PrintScreen,
            StandardKey::ScrollLock,
            StandardKey::Pause,
            StandardKey::Insert,
            StandardKey::Home,
            StandardKey::PageUp,
            StandardKey::Delete,
            StandardKey::End,
            StandardKey::PageDown,
            StandardKey::Right,
            StandardKey::Left,
            StandardKey::Down,
            StandardKey::Up,
            StandardKey::NumLock,
            StandardKey::KeypadDivide,
            StandardKey::KeypadMultiply,
            StandardKey::KeypadMinus,
        ]
    }

    /// One quarter of the member list, in order.
    pub open spec fn values_chunk_d() -> Seq<StandardKey> {
        seq![
            StandardKey::KeypadPlus,
            StandardKey::KeypadEnter,
            StandardKey::Keypad1,
            StandardKey::Keypad2,
            StandardKey::Keypad3,
            StandardKey::Keypad4,
            StandardKey::Keypad5,
            StandardKey::Keypad6,
            StandardKey::Keypad7,
            StandardKey::Keypad8,
            StandardKey::Keypad9,
            StandardKey::Keypad0,
            StandardKey::KeypadPeriod,
            StandardKey::NonUsBackslash,
            StandardKey::Application,
            StandardKey::International1,
            StandardKey::International2,
            StandardKey::International3,
            StandardKey::International4,
            StandardKey::International5,
            StandardKey::LeftControl,
            StandardKey::LeftShift,
            StandardKey::LeftAlt,
            StandardKey::LeftGui,
            StandardKey::RightControl,
            StandardKey::RightShift,
            StandardKey::RightAlt,
            StandardKey::RightGui,
        ]
    }

    fn values_part_a() -> (r: Vec<StandardKey>)
        ensures
            r@ == Self::values_chunk_a(),
    {
        let mut v: Vec<StandardKey> = Vec::new();
        v.push(StandardKey::NoKey);
        v.push(StandardKey::A);
        v.push(StandardKey::B);
        v.push(StandardKey::C);
        v.push(StandardKey::D);
        v.push(StandardKey::E);
        v.push(StandardKey::F);
        v.push(StandardKey::G);
        v.push(StandardKey::H);
        v.push(StandardKey::I);
        v.push(StandardKey::J);
        v.push(StandardKey::K);
        v.push(StandardKey::L);
        v.push(StandardKey::M);
        v.push(StandardKey::N);
        v.push(StandardKey::O);
        v.push(StandardKey::P);
        v.push(StandardKey::Q);
        v.push(StandardKey::R);
        v.push(StandardKey::S);
        v.push(StandardKey::T);
        v.push(StandardKey::U);
        v.push(StandardKey::V);
        v.push(StandardKey::W);
        v.push(StandardKey::X);
        v.push(StandardKey::Y);
        v.push(StandardKey::Z);
        v.push(StandardKey::Num1);
        assert(v@ =~= Self::values_chunk_a());
        v
    }

    fn values_part_b() -> (r: Vec<StandardKey>)
        ensures
            r@ == Self::values_chunk_b(),
    {
        let mut v: Vec<StandardKey> = Vec::new();
        v.push(StandardKey::Num2);
        v.push(StandardKey::Num3);
        v.push(StandardKey::Num4);
        v.push(StandardKey::Num5);
        v.push(StandardKey::Num6);
        v.push(StandardKey::Num7);
        v.push(StandardKey::Num8);
        v.push(StandardKey::Num9);
        v.push(StandardKey::Num0);
        v.push(StandardKey::Enter);
        v.push(StandardKey::Escape);
        v.push(StandardKey::Backspace);
        v.push(StandardKey::Tab);
        v.push(StandardKey::Space);
        v.push(StandardKey::Minus);
        v.push(StandardKey::Equal);
        v.push(StandardKey::LeftBracket);
        v.push(StandardKey::RightBracket);
        v.push(StandardKey::Backslash);
        v.push(StandardKey::NonUsHash);
        v.push(StandardKey::Semicolon);
        v.push(StandardKey::Apostrophe);
        v.push(StandardKey::Grave);
        v.push(StandardKey::Comma);
        v.push(StandardKey::Period);
        v.push(StandardKey::Slash);
        v.push(StandardKey::CapsLock);
        v.push(StandardKey::F1);
        assert(v@ =~= Self::values_chunk_b());
        v
    }

    fn values_part_c() -> (r: Vec<StandardKey>)
        ensures
            r@ == Self::values_chunk_c(),
    {
        let mut v: Vec<StandardKey> = Vec::new();
        v.push(StandardKey::F2);
        v.push(StandardKey::F3);
        v.push(StandardKey::F4);
        v.push(StandardKey::F5);
        v.push(StandardKey::F6);
        v.push(StandardKey::F7);
        v.push(StandardKey::F8);
        v.push(StandardKey::F9);
        v.push(StandardKey::F10);
        v.push(StandardKey::F11);
        v.push(StandardKey::F12);
        v.push(StandardKey::PrintScreen);
        v.push(StandardKey::ScrollLock);
        v.push(StandardKey::Pause);
        v.push(StandardKey::Insert);
        v.push(StandardKey::Home);
        v.push(StandardKey::PageUp);
        v.push(StandardKey::Delete);
        v.push(StandardKey::End);
        v.push(StandardKey::PageDown);
        v.push(StandardKey::Right);
        v.push(StandardKey::Left);
        v.push(StandardKey::Down);
        v.push(StandardKey::Up);
        v.push(StandardKey::NumLock);
        v.push(StandardKey::KeypadDivide);
        v.push(StandardKey::KeypadMultiply);
        v.push(StandardKey::KeypadMinus);
        assert(v@ =~= Self::values_chunk_c());
        v
    }

    fn values_part_d() -> (r: Vec<StandardKey>)
        ensures
            r@ == Self::values_chunk_d(),
    {
        let mut v: Vec<StandardKey> = Vec::new();
        v.push(StandardKey::KeypadPlus);
        v.push(StandardKey::KeypadEnter);
        v.push(StandardKey::Keypad1);
        v.push(StandardKey::Keypad2);
        v.push(StandardKey::Keypad3);
        v.push(StandardKey::Keypad4);
        v.push(StandardKey::Keypad5);
        v.push(StandardKey::Keypad6);
        v.push(StandardKey::Keypad7);
        v.push(StandardKey::Keypad8);
        v.push(StandardKey::Keypad9);
        v.push(StandardKey::Keypad0);
        v.push(StandardKey::KeypadPeriod);
        v.push(StandardKey::NonUsBackslash);
        v.push(StandardKey::Application);
        v.push(StandardKey::International1);
        v.push(StandardKey::International2);
        v.push(StandardKey::International3);
        v.push(StandardKey::International4);
        v.push(StandardKey::International5);
        v.push(StandardKey::LeftControl);
        v.push(StandardKey::LeftShift);
        v.push(StandardKey::LeftAlt);
        v.push(StandardKey::LeftGui);
        v.push(StandardKey::RightControl);
        v.push(StandardKey::RightShift);
        v.push(StandardKey::RightAlt);
        v.push(StandardKey::RightGui);
        assert(v@ =~= Self::values_chunk_d());
        v
    }

    /// The complete ordered member list, the sentinel first.
    pub open spec fn values_spec() -> Seq<StandardKey> {
        Self::values_chunk_a() + Self::values_chunk_b() + Self::values_chunk_c()
            + Self::values_chunk_d()
    }

    pub fn values() -> (r: Vec<StandardKey>)
        ensures
            r@ == Self::values_spec(),
    {
        let mut v = Self::values_part_a();
        let mut vb = Self::values_part_b();
        let mut vc = Self::values_part_c();
        let mut vd = Self::values_part_d();
        v.append(&mut vb);
        v.append(&mut vc);
        v.append(&mut vd);
        v
    }

    /// Which member, if any, carries the given canonical name.
    pub open spec fn of_name_spec(s: Seq<char>) -> Option<StandardKey> {
        if s == "None"@ {
            Some(StandardKey::NoKey)
        } else if s == "A"@ {
            Some(StandardKey::A)
        } else if s == "B"@ {
            Some(StandardKey::B)
        } else if s == "C"@ {
            Some(StandardKey::C)
        } else if s == "D"@ {
            Some(StandardKey::D)
        } else if s == "E"@ {
            Some(StandardKey::E)
        } else if s == "F"@ {
            Some(StandardKey::F)
        } else if s == "G"@ {
            Some(StandardKey::G)
        } else if s == "H"@ {
            Some(StandardKey::H)
        } else if s == "I"@ {
            Some(StandardKey::I)
        } else if s == "J"@ {
            Some(StandardKey::J)
        } else if s == "K"@ {
            Some(StandardKey::K)
        } else if s == "L"@ {
            Some(StandardKey::L)
        } else if s == "M"@ {
            Some(StandardKey::M)
        } else if s == "N"@ {
            Some(StandardKey::N)
        } else if s == "O"@ {
            Some(StandardKey::O)
        } else if s == "P"@ {
            Some(StandardKey::P)
        } else if s == "Q"@ {
            Some(StandardKey::Q)
        } else if s == "R"@ {
            Some(StandardKey::R)
        } else if s == "S"@ {
            Some(StandardKey::S)
        } else if s == "T"@ {
            Some(StandardKey::T)
        } else if s == "U"@ {
            Some(StandardKey::U)
        } else if s == "V"@ {
            Some(StandardKey::V)
        } else if s == "W"@ {
            Some(StandardKey::W)
        } else if s == "X"@ {
            Some(StandardKey::X)
        } else if s == "Y"@ {
            Some(StandardKey::Y)
        } else if s == "Z"@ {
            Some(StandardKey::Z)
        } else if s == "Num1"@ {
            Some(StandardKey::Num1)
        } else if s == "Num2"@ {
            Some(StandardKey::Num2)
        } else if s == "Num3"@ {
            Some(StandardKey::Num3)
        } else if s == "Num4"@ {
            Some(StandardKey::Num4)
        } else if s == "Num5"@ {
            Some(StandardKey::Num5)
        } else if s == "Num6"@ {
            Some(StandardKey::Num6)
        } else if s == "Num7"@ {
            Some(StandardKey::Num7)
        } else if s == "Num8"@ {
            Some(StandardKey::Num8)
        } else if s == "Num9"@ {
            Some(StandardKey::Num9)
        } else if s == "Num0"@ {
            Some(StandardKey::Num0)
        } else if s == "Enter"@ {
            Some(StandardKey::Enter)
        } else if s == "Escape"@ {
            Some(StandardKey::Escape)
        } else if s == "Backspace"@ {
            Some(StandardKey::Backspace)
        } else if s == "Tab"@ {
            Some(StandardKey::Tab)
        } else if s == "Space"@ {
            Some(StandardKey::Space)
        } else if s == "Minus"@ {
            Some(StandardKey::Minus)
        } else if s == "Equal"@ {
            Some(StandardKey::Equal)
        } else if s == "LeftBracket"@ {
            Some(StandardKey::LeftBracket)
        } else if s == "RightBracket"@ {
            Some(StandardKey::RightBracket)
        } else if s == "Backslash"@ {
            Some(StandardKey::Backslash)
        } else if s == "NonUsHash"@ {
            Some(StandardKey::NonUsHash)
        } else if s == "Semicolon"@ {
            Some(StandardKey::Semicolon)
        } else if s == "Apostrophe"@ {
            Some(StandardKey::Apostrophe)
        } else if s == "Grave"@ {
            Some(StandardKey::Grave)
        } else if s == "Comma"@ {
            Some(StandardKey::Comma)
        } else if s == "Period"@ {
            Some(StandardKey::Period)
        } else if s == "Slash"@ {
            Some(StandardKey::Slash)
        } else if s == "CapsLock"@ {
            Some(StandardKey::CapsLock)
        } else if s == "F1"@ {
            Some(StandardKey::F1)
        } else if s == "F2"@ {
            Some(StandardKey::F2)
        } else if s == "F3"@ {
            Some(StandardKey::F3)
        } else if s == "F4"@ {
            Some(StandardKey::F4)
        } else if s == "F5"@ {
            Some(StandardKey::F5)
        } else if s == "F6"@ {
            Some(StandardKey::F6)
        } else if s == "F7"@ {
            Some(StandardKey::F7)
        } else if s == "F8"@ {
            Some(StandardKey::F8)
        } else if s == "F9"@ {
            Some(StandardKey::F9)
        } else if s == "F10"@ {
            Some(StandardKey::F10)
        } else if s == "F11"@ {
            Some(StandardKey::F11)
        } else if s == "F12"@ {
            Some(StandardKey::F12)
        } else if s == "PrintScreen"@ {
            Some(StandardKey::PrintScreen)
        } else if s == "ScrollLock"@ {
            Some(StandardKey::ScrollLock)
        } else if s == "Pause"@ {
            Some(StandardKey::Pause)
        } else if s == "Insert"@ {
            Some(StandardKey::Insert)
        } else if s == "Home"@ {
            Some(StandardKey::Home)
        } else if s == "PageUp"@ {
            Some(StandardKey::PageUp)
        } else if s == "Delete"@ {
            Some(StandardKey::Delete)
        } else if s == "End"@ {
            Some(StandardKey::End)
        } else if s == "PageDown"@ {
            Some(StandardKey::PageDown)
        } else if s == "Right"@ {
            Some(StandardKey::Right)
        } else if s == "Left"@ {
            Some(StandardKey::Left)
        } else if s == "Down"@ {
            Some(StandardKey::Down)
        } else if s == "Up"@ {
            Some(StandardKey::Up)
        } else if s == "NumLock"@ {
            Some(StandardKey::NumLock)
        } else if s == "KeypadDivide"@ {
            Some(StandardKey::KeypadDivide)
        } else if s == "KeypadMultiply"@ {
            Some(StandardKey::KeypadMultiply)
        } else if s == "KeypadMinus"@ {
            Some(StandardKey::KeypadMinus)
        } else if s == "KeypadPlus"@ {
            Some(StandardKey::KeypadPlus)
        } else if s == "KeypadEnter"@ {
            Some(StandardKey::KeypadEnter)
        } else if s == "Keypad1"@ {
            Some(StandardKey::Keypad1)
        } else if s == "Keypad2"@ {
            Some(StandardKey::Keypad2)
        } else if s == "Keypad3"@ {
            Some(StandardKey::Keypad3)
        } else if s == "Keypad4"@ {
            Some(StandardKey::Keypad4)
        } else if s == "Keypad5"@ {
            Some(StandardKey::Keypad5)
        } else if s == "Keypad6"@ {
            Some(StandardKey::Keypad6)
        } else if s == "Keypad7"@ {
            Some(StandardKey::Keypad7)
        } else if s == "Keypad8"@ {
            Some(StandardKey::Keypad8)
        } else if s == "Keypad9"@ {
            Some(StandardKey::Keypad9)
        } else if s == "Keypad0"@ {
            Some(StandardKey::Keypad0)
        } else if s == "KeypadPeriod"@ {
            Some(StandardKey::KeypadPeriod)
        } else if s == "NonUsBackslash"@ {
            Some(StandardKey::NonUsBackslash)
        } else if s == "Application"@ {
            Some(StandardKey::Application)
        } else if s == "International1"@ {
            Some(StandardKey::International1)
        } else if s == "International2"@ {
            Some(StandardKey::International2)
        } else if s == "International3"@ {
            Some(StandardKey::International3)
        } else if s == "International4"@ {
            Some(StandardKey::International4)
        } else if s == "International5"@ {
            Some(StandardKey::International5)
        } else if s == "LeftControl"@ {
            Some(StandardKey::LeftControl)
        } else if s == "LeftShift"@ {
            Some(StandardKey::LeftShift)
        } else if s == "LeftAlt"@ {
            Some(StandardKey::LeftAlt)
        } else if s == "LeftGui"@ {
            Some(StandardKey::LeftGui)
        } else if s == "RightControl"@ {
            Some(StandardKey::RightControl)
        } else if s == "RightShift"@ {
            Some(StandardKey::RightShift)
        } else if s == "RightAlt"@ {
            Some(StandardKey::RightAlt)
        } else if s == "RightGui"@ {
            Some(StandardKey::RightGui)
        } else {
            None
        }
    }


    /// The wire codes of the member list, in the same order.
    pub open spec fn codes_spec() -> Seq<u8> {
        Seq::new(Self::values_spec().len(), |i: int| Self::values_spec()[i].code_spec())
    }

    pub fn codes() -> (r: Vec<u8>)
        ensures
            r@ == Self::codes_spec(),
    {
        let vals = Self::values();
        let mut r: Vec<u8> = Vec::new();
        let mut i: usize = 0;
        while i < vals.len()
            invariant
                i <= vals@.len(),
                vals@ == Self::values_spec(),
                r@.len() == i,
                forall|q: int| 0 <= q < i ==> r@[q] == Self::values_spec()[q].code_spec(),
            decreases vals@.len() - i,
        {
            let k = vals[i];
            r.push(k.code());
            i = i + 1;
        }
        assert(r@ =~= Self::codes_spec());
        r
    }

    /// Parse a key's canonical name; an unknown name finds no member.
    #[verifier::rlimit(60)]
    pub fn from_name(s: &str) -> (r: Option<StandardKey>)
        ensures
            r == Self::of_name_spec(s@),
    {
        if str_eq(s, "None") {
            Some(StandardKey::NoKey)
        } else if str_eq(s, "A") {
            Some(StandardKey::A)
        } else if str_eq(s, "B") {
            Some(StandardKey::B)
        } else if str_eq(s, "C") {
            Some(StandardKey::C)
        } else if str_eq(s, "D") {
            Some(StandardKey::D)
        } else if str_eq(s, "E") {
            Some(StandardKey::E)
        } else if str_eq(s, "F") {
            Some(StandardKey::F)
        } else if str_eq(s, "G") {
            Some(StandardKey::G)
        } else if str_eq(s, "H") {
            Some(StandardKey::H)
        } else if str_eq(s, "I") {
            Some(StandardKey::I)
        } else if str_eq(s, "J") {
            Some(StandardKey::J)
        } else if str_eq(s, "K") {
            Some(StandardKey::K)
        } else if str_eq(s, "L") {
            Some(StandardKey::L)
        } else if str_eq(s, "M") {
            Some(StandardKey::M)
        } else if str_eq(s, "N") {
            Some(StandardKey::N)
        } else if str_eq(s, "O") {
            Some(StandardKey::O)
        } else if str_eq(s, "P") {
            Some(StandardKey::P)
        } else if str_eq(s, "Q") {
            Some(StandardKey::Q)
        } else if str_eq(s, "R") {
            Some(StandardKey::R)
        } else if str_eq(s, "S") {
            Some(StandardKey::S)
        } else if str_eq(s, "T") {
            Some(StandardKey::T)
        } else if str_eq(s, "U") {
            Some(StandardKey::U)
        } else if str_eq(s, "V") {
            Some(StandardKey::V)
        } else if str_eq(s, "W") {
            Some(StandardKey::W)
        } else if str_eq(s, "X") {
            Some(StandardKey::X)
        } else if str_eq(s, "Y") {
            Some(StandardKey::Y)
        } else if str_eq(s, "Z") {
            Some(StandardKey::Z)
        } else if str_eq(s, "Num1") {
            Some(StandardKey::Num1)
        } else if str_eq(s, "Num2") {
            Some(StandardKey::Num2)
        } else if str_eq(s, "Num3") {
            Some(StandardKey::Num3)
        } else if str_eq(s, "Num4") {
            Some(StandardKey::Num4)
        } else if str_eq(s, "Num5") {
            Some(StandardKey::Num5)
        } else if str_eq(s, "Num6") {
            Some(StandardKey::Num6)
        } else if str_eq(s, "Num7") {
            Some(StandardKey::Num7)
        } else if str_eq(s, "Num8") {
            Some(StandardKey::Num8)
        } else if str_eq(s, "Num9") {
            Some(StandardKey::Num9)
        } else if str_eq(s, "Num0") {
            Some(StandardKey::Num0)
        } else if str_eq(s, "Enter") {
            Some(StandardKey::Enter)
        } else if str_eq(s, "Escape") {
            Some(StandardKey::Escape)
        } else if str_eq(s, "Backspace") {
            Some(StandardKey::Backspace)
        } else if str_eq(s, "Tab") {
            Some(StandardKey::Tab)
        } else if str_eq(s, "Space") {
            Some(StandardKey::Space)
        } else if str_eq(s, "Minus") {
            Some(StandardKey::Minus)
        } else if str_eq(s, "Equal") {
            Some(StandardKey::Equal)
        } else if str_eq(s, "LeftBracket") {
            Some(StandardKey::LeftBracket)
        } else if str_eq(s, "RightBracket") {
            Some(StandardKey::RightBracket)
        } else if str_eq(s, "Backslash") {
            Some(StandardKey::Backslash)
        } else if str_eq(s, "NonUsHash") {
            Some(StandardKey::NonUsHash)
        } else if str_eq(s, "Semicolon") {
            Some(StandardKey::Semicolon)
        } else if str_eq(s, "Apostrophe") {
            Some(StandardKey::Apostrophe)
        } else if str_eq(s, "Grave") {
            Some(StandardKey::Grave)
        } else if str_eq(s, "Comma") {
            Some(StandardKey::Comma)
        } else if str_eq(s, "Period") {
            Some(StandardKey::Period)
        } else if str_eq(s, "Slash") {
            Some(StandardKey::Slash)
        } else if str_eq(s, "CapsLock") {
            Some(StandardKey::CapsLock)
        } else if str_eq(s, "F1") {
            Some(StandardKey::F1)
        } else if str_eq(s, "F2") {
            Some(StandardKey::F2)
        } else if str_eq(s, "F3") {
            Some(StandardKey::F3)
        } else if str_eq(s, "F4") {
            Some(StandardKey::F4)
        } else if str_eq(s, "F5") {
            Some(StandardKey::F5)
        } else if str_eq(s, "F6") {
            Some(StandardKey::F6)
        } else if str_eq(s, "F7") {
            Some(StandardKey::F7)
        } else if str_eq(s, "F8") {
            Some(StandardKey::F8)
        } else if str_eq(s, "F9") {
            Some(StandardKey::F9)
        } else if str_eq(s, "F10") {
            Some(StandardKey::F10)
        } else if str_eq(s, "F11") {
            Some(StandardKey::F11)
        } else if str_eq(s, "F12") {
            Some(StandardKey::F12)
        } else if str_eq(s, "PrintScreen") {
            Some(StandardKey::PrintScreen)
        } else if str_eq(s, "ScrollLock") {
            Some(StandardKey::ScrollLock)
        } else if str_eq(s, "Pause") {
            Some(StandardKey::Pause)
        } else if str_eq(s, "Insert") {
            Some(StandardKey::Insert)
        } else if str_eq(s, "Home") {
            Some(StandardKey::Home)
        } else if str_eq(s, "PageUp") {
            Some(StandardKey::PageUp)
        } else if str_eq(s, "Delete") {
            Some(StandardKey::Delete)
        } else if str_eq(s, "End") {
            Some(StandardKey::End)
        } else if str_eq(s, "PageDown") {
            Some(StandardKey::PageDown)
        } else if str_eq(s, "Right") {
            Some(StandardKey::Right)
        } else if str_eq(s, "Left") {
            Some(StandardKey::Left)
        } else if str_eq(s, "Down") {
            Some(StandardKey::Down)
        } else if str_eq(s, "Up") {
            Some(StandardKey::Up)
        } else if str_eq(s, "NumLock") {
            Some(StandardKey::NumLock)
        } else if str_eq(s, "KeypadDivide") {
            Some(StandardKey::KeypadDivide)
        } else if str_eq(s, "KeypadMultiply") {
            Some(StandardKey::KeypadMultiply)
        } else if str_eq(s, "KeypadMinus") {
            Some(StandardKey::KeypadMinus)
        } else if str_eq(s, "KeypadPlus") {
            Some(StandardKey::KeypadPlus)
        } else if str_eq(s, "KeypadEnter") {
            Some(StandardKey::KeypadEnter)
        } else if str_eq(s, "Keypad1") {
            Some(StandardKey::Keypad1)
        } else if str_eq(s, "Keypad2") {
            Some(StandardKey::Keypad2)
        } else if str_eq(s, "Keypad3") {
            Some(StandardKey::Keypad3)
        } else if str_eq(s, "Keypad4") {
            Some(StandardKey::Keypad4)
        } else if str_eq(s, "Keypad5") {
            Some(StandardKey::Keypad5)
        } else if str_eq(s, "Keypad6") {
            Some(StandardKey::Keypad6)
        } else if str_eq(s, "Keypad7") {
            Some(StandardKey::Keypad7)
        } else if str_eq(s, "Keypad8") {
            Some(StandardKey::Keypad8)
        } else if str_eq(s, "Keypad9") {
            Some(StandardKey::Keypad9)
        } else if str_eq(s, "Keypad0") {
            Some(StandardKey::Keypad0)
        } else if str_eq(s, "KeypadPeriod") {
            Some(StandardKey::KeypadPeriod)
        } else if str_eq(s, "NonUsBackslash") {
            Some(StandardKey::NonUsBackslash)
        } else if str_eq(s, "Application") {
            Some(StandardKey::Application)
        } else if str_eq(s, "International1") {
            Some(StandardKey::International1)
        } else if str_eq(s, "International2") {
            Some(StandardKey::International2)
        } else if str_eq(s, "International3") {
            Some(StandardKey::International3)
        } else if str_eq(s, "International4") {
            Some(StandardKey::International4)
        } else if str_eq(s, "International5") {
            Some(StandardKey::International5)
        } else if str_eq(s, "LeftControl") {
            Some(StandardKey::LeftControl)
        } else if str_eq(s, "LeftShift") {
            Some(StandardKey::LeftShift)
        } else if str_eq(s, "LeftAlt") {
            Some(StandardKey::LeftAlt)
        } else if str_eq(s, "LeftGui") {
            Some(StandardKey::LeftGui)
        } else if str_eq(s, "RightControl") {
            Some(StandardKey::RightControl)
        } else if str_eq(s, "RightShift") {
            Some(StandardKey::RightShift)
        } else if str_eq(s, "RightAlt") {
            Some(StandardKey::RightAlt)
        } else if str_eq(s, "RightGui") {
            Some(StandardKey::RightGui)
        } else {
            None
        }
    }
}

} // verus!
