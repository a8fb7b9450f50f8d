//! Hotkey strings such as `ctrl+shift+space`: parsing them into modifiers and a key, and
//! tracking whether the registered hotkey is held.
use vstd::prelude::*;
use vstd::string::*;
use crate::text::{
    ascii_lower, is_ascii_text, lemma_ascii_lower_twice, lemma_ascii_subrange, lemma_split_ascii_lower,
    lemma_trim_ascii_lower, lemma_trim_end_clean, lemma_trim_start_clean, trim_end, trim_start,
    is_lower_alnum, lemma_lowercase_fixed,
    free_of, is_white_space, join_with, lemma_split_join, lemma_trim_end_keeps, lemma_trim_start_keeps,
    lemma_split_nonempty, lowercase, split, split_str, str_eq, to_lowercase, trim, trim_str, views};
use global_hotkey::hotkey::{Code, HotKey, Modifiers};

verus! {

/// A modifier key of a hotkey.
#[derive(Clone, Copy, Debug, PartialEq, Eq, Structural)]
pub enum Modifier {
    Control,
    Shift,
    Alt,
    Super,
}

/// A set of modifier keys.
#[derive(Clone, Copy, Debug, PartialEq, Eq, Structural)]
pub struct ModifierSet {
    pub control: bool,
    pub shift: bool,
    pub alt: bool,
    pub super_key: bool,
}

/// The bit that `global_hotkey`'s `Modifiers` gives each modifier.
pub open spec fn modifier_bit(m: Modifier) -> u32 {
    match m {
        Modifier::Alt => 0x1,
        Modifier::Control => 0x8,
        Modifier::Shift => 0x200,
        Modifier::Super => 0x2000,
    }
}

impl ModifierSet {
    /// The set with no modifier in it.
    pub open spec fn spec_none() -> ModifierSet {
        ModifierSet { control: false, shift: false, alt: false, super_key: false }
    }

    /// Whether `m` is in the set.
    pub open spec fn has(self, m: Modifier) -> bool {
        match m {
            Modifier::Control => self.control,
            Modifier::Shift => self.shift,
            Modifier::Alt => self.alt,
            Modifier::Super => self.super_key,
        }
    }

    /// The set with `m` added.
    pub open spec fn spec_with(self, m: Modifier) -> ModifierSet {
        match m {
            Modifier::Control => ModifierSet { control: true, ..self },
            Modifier::Shift => ModifierSet { shift: true, ..self },
            Modifier::Alt => ModifierSet { alt: true, ..self },
            Modifier::Super => ModifierSet { super_key: true, ..self },
        }
    }

    /// The bits of `global_hotkey`'s `Modifiers` for this set.
    pub open spec fn spec_bits(self) -> u32 {
        ((if self.alt { 0x1int } else { 0 }) + (if self.control { 0x8int } else { 0 }) + (if self.shift {
            0x200int
        } else {
            0
        }) + (if self.super_key { 0x2000int } else { 0 })) as u32
    }

    /// The set with no modifier in it.
    pub fn none() -> (r: ModifierSet)
        ensures
            r == ModifierSet::spec_none(),
    {
        ModifierSet { control: false, shift: false, alt: false, super_key: false }
    }

    /// The set with `m` added.
    pub fn with(self, m: Modifier) -> (r: ModifierSet)
        ensures
            r == self.spec_with(m),
    {
        match m {
            Modifier::Control => ModifierSet { control: true, ..self },
            Modifier::Shift => ModifierSet { shift: true, ..self },
            Modifier::Alt => ModifierSet { alt: true, ..self },
            Modifier::Super => ModifierSet { super_key: true, ..self },
        }
    }

    /// The bits of `global_hotkey`'s `Modifiers` for this set.
    pub fn bits(&self) -> (r: u32)
        ensures
            r == self.spec_bits(),
    {
        let mut b: u32 = 0;
        if self.alt {
            b = b + 0x1;
        }
        if self.control {
            b = b + 0x8;
        }
        if self.shift {
            b = b + 0x200;
        }
        if self.super_key {
            b = b + 0x2000;
        }
        b
    }
}

/// Why a hotkey string was refused.
#[derive(Clone, Debug, PartialEq, Eq)]
pub enum HotkeyError {
    /// The string held no part at all.
    InvalidHotkey(String),
    /// A part that is no modifier names no known key; it holds that part.
    UnknownKey(String),
    /// No part named a key.
    NoKeyCode,
    /// A part that is no modifier names no key of the macOS keyboard; it holds that part.
    UnknownKeyName(String),
}

/// A `HotkeyError` as plain values.
pub enum HotkeyErrorView {
    InvalidHotkey(Seq<char>),
    UnknownKey(Seq<char>),
    NoKeyCode,
    UnknownKeyName(Seq<char>),
}

impl View for HotkeyError {
    type V = HotkeyErrorView;

    open spec fn view(&self) -> HotkeyErrorView {
        match self {
            HotkeyError::InvalidHotkey(s) => HotkeyErrorView::InvalidHotkey(s@),
            HotkeyError::UnknownKey(s) => HotkeyErrorView::UnknownKey(s@),
            HotkeyError::NoKeyCode => HotkeyErrorView::NoKeyCode,
            HotkeyError::UnknownKeyName(s) => HotkeyErrorView::UnknownKeyName(s@),
        }
    }
}

impl HotkeyError {
    /// The message the error reports.
    pub fn message(&self) -> (r: String)
        ensures
            r@ == error_message(self@),
    {
        match self {
            HotkeyError::InvalidHotkey(s) => String::from_str("Invalid hotkey string: ").concat(s.as_str()),
            HotkeyError::UnknownKey(s) => String::from_str("Unknown key code: ").concat(s.as_str()),
            HotkeyError::NoKeyCode => String::from_str("No key code found in hotkey string"),
            HotkeyError::UnknownKeyName(s) => String::from_str("Unknown key: ").concat(s.as_str()),
        }
    }
}

/// The message of a hotkey error.
pub open spec fn error_message(e: HotkeyErrorView) -> Seq<char> {
    match e {
        HotkeyErrorView::InvalidHotkey(s) => "Invalid hotkey string: "@ + s,
        HotkeyErrorView::UnknownKey(s) => "Unknown key code: "@ + s,
        HotkeyErrorView::NoKeyCode => "No key code found in hotkey string"@,
        HotkeyErrorView::UnknownKeyName(s) => "Unknown key: "@ + s,
    }
}

/// A hotkey: a set of modifiers and one key.
#[derive(Clone, Copy, Debug, PartialEq, Eq, Structural)]
pub struct KeyCombo {
    pub modifiers: ModifierSet,
    pub key: KeyCode,
}

/// The keys a hotkey can end in, named as the `Code` values of `global_hotkey` that they stand for.
#[derive(Clone, Copy, Debug, PartialEq, Eq, Hash, Structural)]
pub enum KeyCode {
    Space,
    Enter,
    Tab,
    Backspace,
    Escape,
    KeyA,
    KeyB,
    KeyC,
    KeyD,
    KeyE,
    KeyF,
    KeyG,
    KeyH,
    KeyI,
    KeyJ,
    KeyK,
    KeyL,
    KeyM,
    KeyN,
    KeyO,
    KeyP,
    KeyQ,
    KeyR,
    KeyS,
    KeyT,
    KeyU,
    KeyV,
    KeyW,
    KeyX,
    KeyY,
    KeyZ,
    Digit0,
    Digit1,
    Digit2,
    Digit3,
    Digit4,
    Digit5,
    Digit6,
    Digit7,
    Digit8,
    Digit9,
    F1,
    F2,
    F3,
    F4,
    F5,
    F6,
    F7,
    F8,
    F9,
    F10,
    F11,
    F12,
}

/// The name of the `Code` that a key stands for, as `Code`'s `Display` and `FromStr` write it.
pub open spec fn code_name(k: KeyCode) -> Seq<char> {
    match k {
        KeyCode::Space => "Space"@,
        KeyCode::Enter => "Enter"@,
        KeyCode::Tab => "Tab"@,
        KeyCode::Backspace => "Backspace"@,
        KeyCode::Escape => "Escape"@,
        KeyCode::KeyA => "KeyA"@,
        KeyCode::KeyB => "KeyB"@,
        KeyCode::KeyC => "KeyC"@,
        KeyCode::KeyD => "KeyD"@,
        KeyCode::KeyE => "KeyE"@,
        KeyCode::KeyF => "KeyF"@,
        KeyCode::KeyG => "KeyG"@,
        KeyCode::KeyH => "KeyH"@,
        KeyCode::KeyI => "KeyI"@,
        KeyCode::KeyJ => "KeyJ"@,
        KeyCode::KeyK => "KeyK"@,
        KeyCode::KeyL => "KeyL"@,
        KeyCode::KeyM => "KeyM"@,
        KeyCode::KeyN => "KeyN"@,
        KeyCode::KeyO => "KeyO"@,
        KeyCode::KeyP => "KeyP"@,
        KeyCode::KeyQ => "KeyQ"@,
        KeyCode::KeyR => "KeyR"@,
        KeyCode::KeyS => "KeyS"@,
        KeyCode::KeyT => "KeyT"@,
        KeyCode::KeyU => "KeyU"@,
        KeyCode::KeyV => "KeyV"@,
        KeyCode::KeyW => "KeyW"@,
        KeyCode::KeyX => "KeyX"@,
        KeyCode::KeyY => "KeyY"@,
        KeyCode::KeyZ => "KeyZ"@,
        KeyCode::Digit0 => "Digit0"@,
        KeyCode::Digit1 => "Digit1"@,
        KeyCode::Digit2 => "Digit2"@,
        KeyCode::Digit3 => "Digit3"@,
        KeyCode::Digit4 => "Digit4"@,
        KeyCode::Digit5 => "Digit5"@,
        KeyCode::Digit6 => "Digit6"@,
        KeyCode::Digit7 => "Digit7"@,
        KeyCode::Digit8 => "Digit8"@,
        KeyCode::Digit9 => "Digit9"@,
        KeyCode::F1 => "F1"@,
        KeyCode::F2 => "F2"@,
        KeyCode::F3 => "F3"@,
        KeyCode::F4 => "F4"@,
        KeyCode::F5 => "F5"@,
        KeyCode::F6 => "F6"@,
        KeyCode::F7 => "F7"@,
        KeyCode::F8 => "F8"@,
        KeyCode::F9 => "F9"@,
        KeyCode::F10 => "F10"@,
        KeyCode::F11 => "F11"@,
        KeyCode::F12 => "F12"@,
    }
}

/// The key that a lower-case key name denotes, if any.
pub open spec fn key_code_named(name: Seq<char>) -> Option<KeyCode> {
    if name == "space"@ {
        Some(KeyCode::Space)
    } else if name == "enter"@ || name == "return"@ {
        Some(KeyCode::Enter)
    } else if name == "tab"@ {
        Some(KeyCode::Tab)
    } else if name == "backspace"@ {
        Some(KeyCode::Backspace)
    } else if name == "escape"@ || name == "esc"@ {
        Some(KeyCode::Escape)
    } else if name == "a"@ {
        Some(KeyCode::KeyA)
    } else if name == "b"@ {
        Some(KeyCode::KeyB)
    } else if name == "c"@ {
        Some(KeyCode::KeyC)
    } else if name == "d"@ {
        Some(KeyCode::KeyD)
    } else if name == "e"@ {
        Some(KeyCode::KeyE)
    } else if name == "f"@ {
        Some(KeyCode::KeyF)
    } else if name == "g"@ {
        Some(KeyCode::KeyG)
    } else if name == "h"@ {
        Some(KeyCode::KeyH)
    } else if name == "i"@ {
        Some(KeyCode::KeyI)
    } else if name == "j"@ {
        Some(KeyCode::KeyJ)
    } else if name == "k"@ {
        Some(KeyCode::KeyK)
    } else if name == "l"@ {
        Some(KeyCode::KeyL)
    } else if name == "m"@ {
        Some(KeyCode::KeyM)
    } else if name == "n"@ {
        Some(KeyCode::KeyN)
    } else if name == "o"@ {
        Some(KeyCode::KeyO)
    } else if name == "p"@ {
        Some(KeyCode::KeyP)
    } else if name == "q"@ {
        Some(KeyCode::KeyQ)
    } else if name == "r"@ {
        Some(KeyCode::KeyR)
    } else if name == "s"@ {
        Some(KeyCode::KeyS)
    } else if name == "t"@ {
        Some(KeyCode::KeyT)
    } else if name == "u"@ {
        Some(KeyCode::KeyU)
    } else if name == "v"@ {
        Some(KeyCode::KeyV)
    } else if name == "w"@ {
        Some(KeyCode::KeyW)
    } else if name == "x"@ {
        Some(KeyCode::KeyX)
    } else if name == "y"@ {
        Some(KeyCode::KeyY)
    } else if name == "z"@ {
        Some(KeyCode::KeyZ)
    } else if name == "0"@ {
        Some(KeyCode::Digit0)
    } else if name == "1"@ {
        Some(KeyCode::Digit1)
    } else if name == "2"@ {
        Some(KeyCode::Digit2)
    } else if name == "3"@ {
        Some(KeyCode::Digit3)
    } else if name == "4"@ {
        Some(KeyCode::Digit4)
    } else if name == "5"@ {
        Some(KeyCode::Digit5)
    } else if name == "6"@ {
        Some(KeyCode::Digit6)
    } else if name == "7"@ {
        Some(KeyCode::Digit7)
    } else if name == "8"@ {
        Some(KeyCode::Digit8)
    } else if name == "9"@ {
        Some(KeyCode::Digit9)
    } else if name == "f1"@ {
        Some(KeyCode::F1)
    } else if name == "f2"@ {
        Some(KeyCode::F2)
    } else if name == "f3"@ {
        Some(KeyCode::F3)
    } else if name == "f4"@ {
        Some(KeyCode::F4)
    } else if name == "f5"@ {
        Some(KeyCode::F5)
    } else if name == "f6"@ {
        Some(KeyCode::F6)
    } else if name == "f7"@ {
        Some(KeyCode::F7)
    } else if name == "f8"@ {
        Some(KeyCode::F8)
    } else if name == "f9"@ {
        Some(KeyCode::F9)
    } else if name == "f10"@ {
        Some(KeyCode::F10)
    } else if name == "f11"@ {
        Some(KeyCode::F11)
    } else if name == "f12"@ {
        Some(KeyCode::F12)
    } else {
        None
    }
}

impl KeyCode {
    /// The name of the `Code` that this key stands for.
    pub fn name(&self) -> (r: &'static str)
        ensures
            r@ == code_name(*self),
    {
        match self {
            KeyCode::Space => "Space",
            KeyCode::Enter => "Enter",
            KeyCode::Tab => "Tab",
            KeyCode::Backspace => "Backspace",
            KeyCode::Escape => "Escape",
            KeyCode::KeyA => "KeyA",
            KeyCode::KeyB => "KeyB",
            KeyCode::KeyC => "KeyC",
            KeyCode::KeyD => "KeyD",
            KeyCode::KeyE => "KeyE",
            KeyCode::KeyF => "KeyF",
            KeyCode::KeyG => "KeyG",
            KeyCode::KeyH => "KeyH",
            KeyCode::KeyI => "KeyI",
            KeyCode::KeyJ => "KeyJ",
            KeyCode::KeyK => "KeyK",
            KeyCode::KeyL => "KeyL",
            KeyCode::KeyM => "KeyM",
            KeyCode::KeyN => "KeyN",
            KeyCode::KeyO => "KeyO",
            KeyCode::KeyP => "KeyP",
            KeyCode::KeyQ => "KeyQ",
            KeyCode::KeyR => "KeyR",
            KeyCode::KeyS => "KeyS",
            KeyCode::KeyT => "KeyT",
            KeyCode::KeyU => "KeyU",
            KeyCode::KeyV => "KeyV",
            KeyCode::KeyW => "KeyW",
            KeyCode::KeyX => "KeyX",
            KeyCode::KeyY => "KeyY",
            KeyCode::KeyZ => "KeyZ",
            KeyCode::Digit0 => "Digit0",
            KeyCode::Digit1 => "Digit1",
            KeyCode::Digit2 => "Digit2",
            KeyCode::Digit3 => "Digit3",
            KeyCode::Digit4 => "Digit4",
            KeyCode::Digit5 => "Digit5",
            KeyCode::Digit6 => "Digit6",
            KeyCode::Digit7 => "Digit7",
            KeyCode::Digit8 => "Digit8",
            KeyCode::Digit9 => "Digit9",
            KeyCode::F1 => "F1",
            KeyCode::F2 => "F2",
            KeyCode::F3 => "F3",
            KeyCode::F4 => "F4",
            KeyCode::F5 => "F5",
            KeyCode::F6 => "F6",
            KeyCode::F7 => "F7",
            KeyCode::F8 => "F8",
            KeyCode::F9 => "F9",
            KeyCode::F10 => "F10",
            KeyCode::F11 => "F11",
            KeyCode::F12 => "F12",
        }
    }
}

/// The key that a lower-case key name denotes, if any.
pub fn key_code_for_name(name: &str) -> (r: Option<KeyCode>)
    ensures
        r == key_code_named(name@),
{
    if str_eq(name, "space") {
        return Some(KeyCode::Space);
    }
    if str_eq(name, "enter") || str_eq(name, "return") {
        return Some(KeyCode::Enter);
    }
    if str_eq(name, "tab") {
        return Some(KeyCode::Tab);
    }
    if str_eq(name, "backspace") {
        return Some(KeyCode::Backspace);
    }
    if str_eq(name, "escape") || str_eq(name, "esc") {
        return Some(KeyCode::Escape);
    }
    if str_eq(name, "a") {
        return Some(KeyCode::KeyA);
    }
    if str_eq(name, "b") {
        return Some(KeyCode::KeyB);
    }
    if str_eq(name, "c") {
        return Some(KeyCode::KeyC);
    }
    if str_eq(name, "d") {
        return Some(KeyCode::KeyD);
    }
    if str_eq(name, "e") {
        return Some(KeyCode::KeyE);
    }
    if str_eq(name, "f") {
        return Some(KeyCode::KeyF);
    }
    if str_eq(name, "g") {
        return Some(KeyCode::KeyG);
    }
    if str_eq(name, "h") {
        return Some(KeyCode::KeyH);
    }
    if str_eq(name, "i") {
        return Some(KeyCode::KeyI);
    }
    if str_eq(name, "j") {
        return Some(KeyCode::KeyJ);
    }
    if str_eq(name, "k") {
        return Some(KeyCode::KeyK);
    }
    if str_eq(name, "l") {
        return Some(KeyCode::KeyL);
    }
    if str_eq(name, "m") {
        return Some(KeyCode::KeyM);
    }
    if str_eq(name, "n") {
        return Some(KeyCode::KeyN);
    }
    if str_eq(name, "o") {
        return Some(KeyCode::KeyO);
    }
    if str_eq(name, "p") {
        return Some(KeyCode::KeyP);
    }
    if str_eq(name, "q") {
        return Some(KeyCode::KeyQ);
    }
    if str_eq(name, "r") {
        return Some(KeyCode::KeyR);
    }
    if str_eq(name, "s") {
        return Some(KeyCode::KeyS);
    }
    if str_eq(name, "t") {
        return Some(KeyCode::KeyT);
    }
    if str_eq(name, "u") {
        return Some(KeyCode::KeyU);
    }
    if str_eq(name, "v") {
        return Some(KeyCode::KeyV);
    }
    if str_eq(name, "w") {
        return Some(KeyCode::KeyW);
    }
    if str_eq(name, "x") {
        return Some(KeyCode::KeyX);
    }
    if str_eq(name, "y") {
        return Some(KeyCode::KeyY);
    }
    if str_eq(name, "z") {
        return Some(KeyCode::KeyZ);
    }
    if str_eq(name, "0") {
        return Some(KeyCode::Digit0);
    }
    if str_eq(name, "1") {
        return Some(KeyCode::Digit1);
    }
    if str_eq(name, "2") {
        return Some(KeyCode::Digit2);
    }
    if str_eq(name, "3") {
        return Some(KeyCode::Digit3);
    }
    if str_eq(name, "4") {
        return Some(KeyCode::Digit4);
    }
    if str_eq(name, "5") {
        return Some(KeyCode::Digit5);
    }
    if str_eq(name, "6") {
        return Some(KeyCode::Digit6);
    }
    if str_eq(name, "7") {
        return Some(KeyCode::Digit7);
    }
    if str_eq(name, "8") {
        return Some(KeyCode::Digit8);
    }
    if str_eq(name, "9") {
        return Some(KeyCode::Digit9);
    }
    if str_eq(name, "f1") {
        return Some(KeyCode::F1);
    }
    if str_eq(name, "f2") {
        return Some(KeyCode::F2);
    }
    if str_eq(name, "f3") {
        return Some(KeyCode::F3);
    }
    if str_eq(name, "f4") {
        return Some(KeyCode::F4);
    }
    if str_eq(name, "f5") {
        return Some(KeyCode::F5);
    }
    if str_eq(name, "f6") {
        return Some(KeyCode::F6);
    }
    if str_eq(name, "f7") {
        return Some(KeyCode::F7);
    }
    if str_eq(name, "f8") {
        return Some(KeyCode::F8);
    }
    if str_eq(name, "f9") {
        return Some(KeyCode::F9);
    }
    if str_eq(name, "f10") {
        return Some(KeyCode::F10);
    }
    if str_eq(name, "f11") {
        return Some(KeyCode::F11);
    }
    if str_eq(name, "f12") {
        return Some(KeyCode::F12);
    }
    None
}

/// The name under which the documentation lists each key, in lower case.
pub open spec fn key_name(k: KeyCode) -> Seq<char> {
    match k {
        KeyCode::Space => "space"@,
        KeyCode::Enter => "enter"@,
        KeyCode::Tab => "tab"@,
        KeyCode::Backspace => "backspace"@,
        KeyCode::Escape => "escape"@,
        KeyCode::KeyA => "a"@,
        KeyCode::KeyB => "b"@,
        KeyCode::KeyC => "c"@,
        KeyCode::KeyD => "d"@,
        KeyCode::KeyE => "e"@,
        KeyCode::KeyF => "f"@,
        KeyCode::KeyG => "g"@,
        KeyCode::KeyH => "h"@,
        KeyCode::KeyI => "i"@,
        KeyCode::KeyJ => "j"@,
        KeyCode::KeyK => "k"@,
        KeyCode::KeyL => "l"@,
        KeyCode::KeyM => "m"@,
        KeyCode::KeyN => "n"@,
        KeyCode::KeyO => "o"@,
        KeyCode::KeyP => "p"@,
        KeyCode::KeyQ => "q"@,
        KeyCode::KeyR => "r"@,
        KeyCode::KeyS => "s"@,
        KeyCode::KeyT => "t"@,
        KeyCode::KeyU => "u"@,
        KeyCode::KeyV => "v"@,
        KeyCode::KeyW => "w"@,
        KeyCode::KeyX => "x"@,
        KeyCode::KeyY => "y"@,
        KeyCode::KeyZ => "z"@,
        KeyCode::Digit0 => "0"@,
        KeyCode::Digit1 => "1"@,
        KeyCode::Digit2 => "2"@,
        KeyCode::Digit3 => "3"@,
        KeyCode::Digit4 => "4"@,
        KeyCode::Digit5 => "5"@,
        KeyCode::Digit6 => "6"@,
        KeyCode::Digit7 => "7"@,
        KeyCode::Digit8 => "8"@,
        KeyCode::Digit9 => "9"@,
        KeyCode::F1 => "f1"@,
        KeyCode::F2 => "f2"@,
        KeyCode::F3 => "f3"@,
        KeyCode::F4 => "f4"@,
        KeyCode::F5 => "f5"@,
        KeyCode::F6 => "f6"@,
        KeyCode::F7 => "f7"@,
        KeyCode::F8 => "f8"@,
        KeyCode::F9 => "f9"@,
        KeyCode::F10 => "f10"@,
        KeyCode::F11 => "f11"@,
        KeyCode::F12 => "f12"@,
    }
}

/// The characters of the key and modifier names.
pub(crate) proof fn lemma_key_name_chars()
    ensures
        "space"@.len() == 5 && "space"@[0] == 's' && "space"@[1] == 'p' && "space"@[2] == 'a' && "space"@[3] == 'c' && "space"@[4] == 'e',
        "enter"@.len() == 5 && "enter"@[0] == 'e' && "enter"@[1] == 'n' && "enter"@[2] == 't' && "enter"@[3] == 'e' && "enter"@[4] == 'r',
        "return"@.len() == 6 && "return"@[0] == 'r' && "return"@[1] == 'e' && "return"@[2] == 't' && "return"@[3] == 'u' && "return"@[4] == 'r' && "return"@[5] == 'n',
        "tab"@.len() == 3 && "tab"@[0] == 't' && "tab"@[1] == 'a' && "tab"@[2] == 'b',
        "backspace"@.len() == 9 && "backspace"@[0] == 'b' && "backspace"@[1] == 'a' && "backspace"@[2] == 'c' && "backspace"@[3] == 'k' && "backspace"@[4] == 's' && "backspace"@[5] == 'p' && "backspace"@[6] == 'a' && "backspace"@[7] == 'c' && "backspace"@[8] == 'e',
        "escape"@.len() == 6 && "escape"@[0] == 'e' && "escape"@[1] == 's' && "escape"@[2] == 'c' && "escape"@[3] == 'a' && "escape"@[4] == 'p' && "escape"@[5] == 'e',
        "esc"@.len() == 3 && "esc"@[0] == 'e' && "esc"@[1] == 's' && "esc"@[2] == 'c',
        "a"@.len() == 1 && "a"@[0] == 'a',
        "b"@.len() == 1 && "b"@[0] == 'b',
        "c"@.len() == 1 && "c"@[0] == 'c',
        "d"@.len() == 1 && "d"@[0] == 'd',
        "e"@.len() == 1 && "e"@[0] == 'e',
        "f"@.len() == 1 && "f"@[0] == 'f',
        "g"@.len() == 1 && "g"@[0] == 'g',
        "h"@.len() == 1 && "h"@[0] == 'h',
        "i"@.len() == 1 && "i"@[0] == 'i',
        "j"@.len() == 1 && "j"@[0] == 'j',
        "k"@.len() == 1 && "k"@[0] == 'k',
        "l"@.len() == 1 && "l"@[0] == 'l',
        "m"@.len() == 1 && "m"@[0] == 'm',
        "n"@.len() == 1 && "n"@[0] == 'n',
        "o"@.len() == 1 && "o"@[0] == 'o',
        "p"@.len() == 1 && "p"@[0] == 'p',
        "q"@.len() == 1 && "q"@[0] == 'q',
        "r"@.len() == 1 && "r"@[0] == 'r',
        "s"@.len() == 1 && "s"@[0] == 's',
        "t"@.len() == 1 && "t"@[0] == 't',
        "u"@.len() == 1 && "u"@[0] == 'u',
        "v"@.len() == 1 && "v"@[0] == 'v',
        "w"@.len() == 1 && "w"@[0] == 'w',
        "x"@.len() == 1 && "x"@[0] == 'x',
        "y"@.len() == 1 && "y"@[0] == 'y',
        "z"@.len() == 1 && "z"@[0] == 'z',
        "0"@.len() == 1 && "0"@[0] == '0',
        "1"@.len() == 1 && "1"@[0] == '1',
        "2"@.len() == 1 && "2"@[0] == '2',
        "3"@.len() == 1 && "3"@[0] == '3',
        "4"@.len() == 1 && "4"@[0] == '4',
        "5"@.len() == 1 && "5"@[0] == '5',
        "6"@.len() == 1 && "6"@[0] == '6',
        "7"@.len() == 1 && "7"@[0] == '7',
        "8"@.len() == 1 && "8"@[0] == '8',
        "9"@.len() == 1 && "9"@[0] == '9',
        "f1"@.len() == 2 && "f1"@[0] == 'f' && "f1"@[1] == '1',
        "f2"@.len() == 2 && "f2"@[0] == 'f' && "f2"@[1] == '2',
        "f3"@.len() == 2 && "f3"@[0] == 'f' && "f3"@[1] == '3',
        "f4"@.len() == 2 && "f4"@[0] == 'f' && "f4"@[1] == '4',
        "f5"@.len() == 2 && "f5"@[0] == 'f' && "f5"@[1] == '5',
        "f6"@.len() == 2 && "f6"@[0] == 'f' && "f6"@[1] == '6',
        "f7"@.len() == 2 && "f7"@[0] == 'f' && "f7"@[1] == '7',
        "f8"@.len() == 2 && "f8"@[0] == 'f' && "f8"@[1] == '8',
        "f9"@.len() == 2 && "f9"@[0] == 'f' && "f9"@[1] == '9',
        "f10"@.len() == 3 && "f10"@[0] == 'f' && "f10"@[1] == '1' && "f10"@[2] == '0',
        "f11"@.len() == 3 && "f11"@[0] == 'f' && "f11"@[1] == '1' && "f11"@[2] == '1',
        "f12"@.len() == 3 && "f12"@[0] == 'f' && "f12"@[1] == '1' && "f12"@[2] == '2',
        "ctrl"@.len() == 4 && "ctrl"@[0] == 'c' && "ctrl"@[1] == 't' && "ctrl"@[2] == 'r' && "ctrl"@[3] == 'l',
        "control"@.len() == 7 && "control"@[0] == 'c' && "control"@[1] == 'o' && "control"@[2] == 'n' && "control"@[3] == 't' && "control"@[4] == 'r' && "control"@[5] == 'o' && "control"@[6] == 'l',
        "shift"@.len() == 5 && "shift"@[0] == 's' && "shift"@[1] == 'h' && "shift"@[2] == 'i' && "shift"@[3] == 'f' && "shift"@[4] == 't',
        "alt"@.len() == 3 && "alt"@[0] == 'a' && "alt"@[1] == 'l' && "alt"@[2] == 't',
        "super"@.len() == 5 && "super"@[0] == 's' && "super"@[1] == 'u' && "super"@[2] == 'p' && "super"@[3] == 'e' && "super"@[4] == 'r',
        "meta"@.len() == 4 && "meta"@[0] == 'm' && "meta"@[1] == 'e' && "meta"@[2] == 't' && "meta"@[3] == 'a',
        "cmd"@.len() == 3 && "cmd"@[0] == 'c' && "cmd"@[1] == 'm' && "cmd"@[2] == 'd',
        "win"@.len() == 3 && "win"@[0] == 'w' && "win"@[1] == 'i' && "win"@[2] == 'n',
        "option"@.len() == 6 && "option"@[0] == 'o' && "option"@[1] == 'p' && "option"@[2] == 't' && "option"@[3] == 'i' && "option"@[4] == 'o' && "option"@[5] == 'n',
        "command"@.len() == 7 && "command"@[0] == 'c' && "command"@[1] == 'o' && "command"@[2] == 'm' && "command"@[3] == 'm' && "command"@[4] == 'a' && "command"@[5] == 'n' && "command"@[6] == 'd',
{
    reveal_strlit("space");
    reveal_strlit("enter");
    reveal_strlit("return");
    reveal_strlit("tab");
    reveal_strlit("backspace");
    reveal_strlit("escape");
    reveal_strlit("esc");
    reveal_strlit("a");
    reveal_strlit("b");
    reveal_strlit("c");
    reveal_strlit("d");
    reveal_strlit("e");
    reveal_strlit("f");
    reveal_strlit("g");
    reveal_strlit("h");
    reveal_strlit("i");
    reveal_strlit("j");
    reveal_strlit("k");
    reveal_strlit("l");
    reveal_strlit("m");
    reveal_strlit("n");
    reveal_strlit("o");
    reveal_strlit("p");
    reveal_strlit("q");
    reveal_strlit("r");
    reveal_strlit("s");
    reveal_strlit("t");
    reveal_strlit("u");
    reveal_strlit("v");
    reveal_strlit("w");
    reveal_strlit("x");
    reveal_strlit("y");
    reveal_strlit("z");
    reveal_strlit("0");
    reveal_strlit("1");
    reveal_strlit("2");
    reveal_strlit("3");
    reveal_strlit("4");
    reveal_strlit("5");
    reveal_strlit("6");
    reveal_strlit("7");
    reveal_strlit("8");
    reveal_strlit("9");
    reveal_strlit("f1");
    reveal_strlit("f2");
    reveal_strlit("f3");
    reveal_strlit("f4");
    reveal_strlit("f5");
    reveal_strlit("f6");
    reveal_strlit("f7");
    reveal_strlit("f8");
    reveal_strlit("f9");
    reveal_strlit("f10");
    reveal_strlit("f11");
    reveal_strlit("f12");
    reveal_strlit("ctrl");
    reveal_strlit("control");
    reveal_strlit("shift");
    reveal_strlit("alt");
    reveal_strlit("super");
    reveal_strlit("meta");
    reveal_strlit("cmd");
    reveal_strlit("win");
    reveal_strlit("option");
    reveal_strlit("command");
}

/// Every key that the documentation lists is found under its name.
#[verifier::rlimit(50)]
pub proof fn lemma_key_names_found(k: KeyCode)
    ensures
        key_code_named(key_name(k)) == Some(k),
{
    lemma_key_name_chars();
}

/// The modifier that a lower-case part names, if any.
pub open spec fn modifier_named(name: Seq<char>) -> Option<Modifier> {
    if name == "ctrl"@ || name == "control"@ {
        Some(Modifier::Control)
    } else if name == "shift"@ {
        Some(Modifier::Shift)
    } else if name == "alt"@ {
        Some(Modifier::Alt)
    } else if name == "super"@ || name == "meta"@ || name == "cmd"@ || name == "win"@ {
        Some(Modifier::Super)
    } else {
        None
    }
}

/// The modifier that a lower-case part names, if any.
pub fn modifier_for_name(name: &str) -> (r: Option<Modifier>)
    ensures
        r == modifier_named(name@),
{
    if str_eq(name, "ctrl") || str_eq(name, "control") {
        Some(Modifier::Control)
    } else if str_eq(name, "shift") {
        Some(Modifier::Shift)
    } else if str_eq(name, "alt") {
        Some(Modifier::Alt)
    } else if str_eq(name, "super") || str_eq(name, "meta") || str_eq(name, "cmd") || str_eq(
        name,
        "win",
    ) {
        Some(Modifier::Super)
    } else {
        None
    }
}

/// What `parse_key_code` gives for `key`.
pub open spec fn key_code_result(key: Seq<char>) -> Result<KeyCode, HotkeyErrorView> {
    match key_code_named(lowercase(key)) {
        Some(c) => Ok(c),
        None => Err(HotkeyErrorView::UnknownKey(key)),
    }
}

/// The key that `key` names, in any case.
pub fn parse_key_code(key: &str) -> (r: Result<KeyCode, HotkeyError>)
    ensures
        match r {
            Ok(c) => key_code_result(key@) == Ok::<KeyCode, HotkeyErrorView>(c),
            Err(e) => key_code_result(key@) == Err::<KeyCode, HotkeyErrorView>(e@),
        },
{
    let lower = to_lowercase(key);
    match key_code_for_name(lower.as_str()) {
        Some(c) => Ok(c),
        None => Err(HotkeyError::UnknownKey(key.to_owned())),
    }
}

/// The state of a parse after some parts: the modifiers seen and the last key seen.
pub type PartsState = (ModifierSet, Option<KeyCode>);

/// One part, already lower-cased, applied to the parse state.
pub open spec fn part_step(state: PartsState, lowered: Seq<char>) -> Result<PartsState, HotkeyErrorView> {
    match modifier_named(lowered) {
        Some(m) => Ok((state.0.spec_with(m), state.1)),
        None => match key_code_result(lowered) {
            Ok(c) => Ok((state.0, Some(c))),
            Err(e) => Err(e),
        },
    }
}

/// The parse state after the trimmed parts `parts`, or the first error met.
pub open spec fn parse_parts(parts: Seq<Seq<char>>) -> Result<PartsState, HotkeyErrorView>
    decreases parts.len(),
{
    if parts.len() == 0 {
        Ok((ModifierSet::spec_none(), None))
    } else {
        match parse_parts(parts.drop_last()) {
            Ok(state) => part_step(state, lowercase(parts.last())),
            Err(e) => Err(e),
        }
    }
}

/// The parts of a hotkey string: the pieces between `+`, trimmed.
pub open spec fn hotkey_parts(s: Seq<char>) -> Seq<Seq<char>> {
    split(s, '+').map_values(|p: Seq<char>| trim(p))
}

/// What `parse_hotkey_combo` gives for `s`.
pub open spec fn hotkey_combo(s: Seq<char>) -> Result<KeyCombo, HotkeyErrorView> {
    match parse_parts(hotkey_parts(s)) {
        Ok((m, Some(k))) => Ok(KeyCombo { modifiers: m, key: k }),
        Ok((_, None)) => Err(HotkeyErrorView::NoKeyCode),
        Err(e) => Err(e),
    }
}

/// Applies one part, already lower-cased, to the parse state.
pub fn apply_hotkey_part(state: PartsState, lowered: &str) -> (r: Result<PartsState, HotkeyError>)
    ensures
        match r {
            Ok(st) => part_step(state, lowered@) == Ok::<PartsState, HotkeyErrorView>(st),
            Err(e) => part_step(state, lowered@) == Err::<PartsState, HotkeyErrorView>(e@),
        },
{
    match modifier_for_name(lowered) {
        Some(m) => Ok((state.0.with(m), state.1)),
        None => match parse_key_code(lowered) {
            Ok(c) => Ok((state.0, Some(c))),
            Err(e) => Err(e),
        },
    }
}

/// The views of a sequence of strings.
pub open spec fn string_views(v: Seq<String>) -> Seq<Seq<char>> {
    v.map_values(|p: String| p@)
}

/// The parts of a hotkey string, trimmed and lower-cased.
pub fn lowered_parts(hotkey_str: &str) -> (r: Vec<String>)
    ensures
        string_views(r@) == hotkey_parts(hotkey_str@).map_values(|p: Seq<char>| lowercase(p)),
        r@.len() >= 1,
{
    let raw = split_str(hotkey_str, '+');
    let ghost all = hotkey_parts(hotkey_str@).map_values(|p: Seq<char>| lowercase(p));
    let mut parts: Vec<String> = Vec::new();
    let mut i: usize = 0;
    while i < raw.len()
        invariant
            i <= raw@.len(),
            views(raw@) == split(hotkey_str@, '+'),
            all == hotkey_parts(hotkey_str@).map_values(|p: Seq<char>| lowercase(p)),
            string_views(parts@) == all.take(i as int),
        decreases raw@.len() - i,
    {
        let t = to_lowercase(trim_str(raw[i]));
        let ghost prev = parts@;
        parts.push(t);
        assert(string_views(parts@) =~= string_views(prev).push(t@));
        assert(all.take(i + 1) =~= all.take(i as int).push(all[i as int]));
        i = i + 1;
    }
    assert(all.take(raw@.len() as int) =~= all);
    proof {
        lemma_split_nonempty(hotkey_str@, '+');
    }
    parts
}

/// Parses a hotkey string such as `ctrl+shift+space` into its modifiers and key.
pub fn parse_hotkey_combo(hotkey_str: &str) -> (r: Result<KeyCombo, HotkeyError>)
    ensures
        match r {
            Ok(c) => hotkey_combo(hotkey_str@) == Ok::<KeyCombo, HotkeyErrorView>(c),
            Err(e) => hotkey_combo(hotkey_str@) == Err::<KeyCombo, HotkeyErrorView>(e@),
        },
{
    let parts = lowered_parts(hotkey_str);
    let ghost all = hotkey_parts(hotkey_str@);
    if parts.len() == 0 {
        return Err(HotkeyError::InvalidHotkey(hotkey_str.to_owned()));
    }
    let mut state: PartsState = (ModifierSet::none(), None);
    let mut j: usize = 0;
    assert(all.take(0) =~= Seq::<Seq<char>>::empty());
    assert(all.len() == parts@.len()) by {
        assert(string_views(parts@).len() == parts@.len());
    }
    while j < parts.len()
        invariant
            j <= parts@.len(),
            all.len() == parts@.len(),
            all == hotkey_parts(hotkey_str@),
            string_views(parts@) == all.map_values(|p: Seq<char>| lowercase(p)),
            parse_parts(all.take(j as int)) == Ok::<PartsState, HotkeyErrorView>(state),
        decreases parts@.len() - j,
    {
        assert(all.take(j + 1).drop_last() =~= all.take(j as int));
        assert(lowercase(all.take(j + 1).last()) == parts@[j as int]@) by {
            assert(string_views(parts@)[j as int] == parts@[j as int]@);
        }
        match apply_hotkey_part(state, parts[j].as_str()) {
            Ok(st) => {
                state = st;
            },
            Err(e) => {
                proof {
                    assert(parse_parts(all.take(j + 1)) == Err::<PartsState, HotkeyErrorView>(e@));
                    lemma_parse_parts_error_persists(all, j as int + 1);
                }
                return Err(e);
            },
        }
        j = j + 1;
    }
    assert(all.take(parts@.len() as int) =~= all);
    match state.1 {
        Some(k) => Ok(KeyCombo { modifiers: state.0, key: k }),
        None => Err(HotkeyError::NoKeyCode),
    }
}

/// Once the parts up to `n` fail, every longer prefix fails the same way.
proof fn lemma_parse_parts_error_persists(parts: Seq<Seq<char>>, n: int)
    requires
        0 <= n <= parts.len(),
        parse_parts(parts.take(n)) is Err,
    ensures
        parse_parts(parts) == parse_parts(parts.take(n)),
    decreases parts.len() - n,
{
    if n < parts.len() {
        assert(parts.take(n + 1).drop_last() =~= parts.take(n));
        lemma_parse_parts_error_persists(parts, n + 1);
    } else {
        assert(parts.take(n) =~= parts);
    }
}

/// `global_hotkey`'s hotkey.
#[verifier::external_type_specification]
#[verifier::external_body]
pub struct ExHotKey(HotKey);

/// Whether `name` is the name of a key of this library.
pub open spec fn is_code_name(name: Seq<char>) -> bool {
    exists|k: KeyCode| code_name(k) == name
}

/// What `HotKey::new` returns for the modifiers with bits `bits` and the key whose `Code` is
/// named `key`: the hotkey with those modifiers and that key, and the id that `HotKey::new`
/// hashes from its text. It depends on its arguments alone.
pub uninterp spec fn hotkey_from(bits: u32, key: Seq<char>) -> HotKey;

/// Calls `HotKey::new` with the modifiers that `Modifiers::from_bits_truncate` makes of
/// `bits` and the key that `Code`'s `FromStr` makes of `key_name`. `Code`'s `FromStr`
/// recognises the name of every key of this library, as its match on the names shows, so
/// it does not fail here. The contract claims only that the result is `hotkey_from` of the
/// arguments.
#[verifier::external_body]
fn new_hotkey(bits: u32, key_name: &str) -> (r: HotKey)
    requires
        is_code_name(key_name@),
    ensures
        r == hotkey_from(bits, key_name@),
{
    HotKey::new(Some(Modifiers::from_bits_truncate(bits)), key_name.parse::<Code>().unwrap())
}

/// The `global_hotkey` hotkey of a combo: the one for its modifier bits and its key's name.
pub open spec fn global_hotkey_of(combo: KeyCombo) -> HotKey {
    hotkey_from(combo.modifiers.spec_bits(), code_name(combo.key))
}

/// The `global_hotkey` hotkey with the modifiers and key of `combo`.
pub fn to_global_hotkey(combo: &KeyCombo) -> (r: HotKey)
    ensures
        r == global_hotkey_of(*combo),
{
    let bits = combo.modifiers.bits();
    let name = combo.key.name();
    assert(is_code_name(name@)) by {
        assert(code_name(combo.key) == name@);
    }
    new_hotkey(bits, name)
}

/// Parses a hotkey string such as `ctrl+shift+space` into a `global_hotkey` hotkey.
pub fn parse_hotkey(hotkey_str: &str) -> (r: Result<HotKey, HotkeyError>)
    ensures
        match r {
            Ok(h) => hotkey_combo(hotkey_str@) is Ok && h == global_hotkey_of(
                hotkey_combo(hotkey_str@)->Ok_0,
            ),
            Err(e) => hotkey_combo(hotkey_str@) == Err::<KeyCombo, HotkeyErrorView>(e@),
        },
{
    match parse_hotkey_combo(hotkey_str) {
        Ok(combo) => Ok(to_global_hotkey(&combo)),
        Err(e) => Err(e),
    }
}

/// Whether a hotkey event reports the key going down or coming up, as
/// `global_hotkey`'s `HotKeyState` does.
#[derive(Clone, Copy, Debug, PartialEq, Eq, Structural)]
pub enum KeyState {
    Pressed,
    Released,
}

/// A hotkey event: the id of the hotkey and what happened to it.
#[derive(Clone, Copy, Debug, PartialEq, Eq, Structural)]
pub struct HotkeyEvent {
    pub id: u32,
    pub state: KeyState,
}

/// Whether `event` reports that the hotkey `id` went into `state`.
pub open spec fn reports(event: Option<HotkeyEvent>, id: u32, state: KeyState) -> bool {
    event matches Some(ev) && ev.id == id && ev.state == state
}

/// Tracks whether the registered hotkey is held, from the events polled for it.
pub struct PressTracker {
    hotkey_id: u32,
    pressed: bool,
}

impl View for PressTracker {
    /// The id of the hotkey tracked, and whether it is held.
    type V = (u32, bool);

    closed spec fn view(&self) -> (u32, bool) {
        (self.hotkey_id, self.pressed)
    }
}

impl PressTracker {
    /// A tracker for the hotkey `hotkey_id`, not held.
    pub fn new(hotkey_id: u32) -> (r: PressTracker)
        ensures
            r@ == (hotkey_id, false),
    {
        PressTracker { hotkey_id, pressed: false }
    }

    /// The id of the hotkey tracked.
    pub fn hotkey_id(&self) -> (r: u32)
        ensures
            r == self@.0,
    {
        self.hotkey_id
    }

    /// Whether the hotkey is held.
    pub fn is_pressed(&self) -> (r: bool)
        ensures
            r == self@.1,
    {
        self.pressed
    }

    /// One poll while waiting for the hotkey to go down: takes the event polled, if any,
    /// and returns whether the wait is over, which it is when the event reports this
    /// hotkey pressed. The hotkey is then held.
    pub fn observe_press(&mut self, event: Option<HotkeyEvent>) -> (done: bool)
        ensures
            done == reports(event, old(self)@.0, KeyState::Pressed),
            final(self)@ == (old(self)@.0, old(self)@.1 || done),
    {
        match event {
            Some(ev) => {
                if ev.id == self.hotkey_id && ev.state == KeyState::Pressed {
                    self.pressed = true;
                    true
                } else {
                    false
                }
            },
            None => false,
        }
    }

    /// One poll while waiting for the hotkey to come up: takes the event polled, if any,
    /// and returns whether the wait is over, which it is when the event reports this
    /// hotkey released, or when the hotkey is not held anyway. The hotkey is then not held.
    pub fn observe_release(&mut self, event: Option<HotkeyEvent>) -> (done: bool)
        ensures
            done == (reports(event, old(self)@.0, KeyState::Released) || !old(self)@.1),
            final(self)@ == (
                old(self)@.0,
                old(self)@.1 && !reports(event, old(self)@.0, KeyState::Released),
            ),
            done ==> !final(self)@.1,
    {
        if let Some(ev) = event {
            if ev.id == self.hotkey_id && ev.state == KeyState::Released {
                self.pressed = false;
                return true;
            }
        }
        !self.pressed
    }
}

/// No key name is also a modifier name.
pub proof fn lemma_key_names_are_not_modifiers(name: Seq<char>)
    ensures
        key_code_named(name) is Some ==> modifier_named(name) is None,
{
    lemma_key_name_chars();
}

/// The modifiers that a sequence of lower-case modifier names names.
pub open spec fn modifiers_named(names: Seq<Seq<char>>) -> ModifierSet
    decreases names.len(),
{
    if names.len() == 0 {
        ModifierSet::spec_none()
    } else {
        modifiers_named(names.drop_last()).spec_with(modifier_named(names.last()).unwrap())
    }
}

/// Parts that are all modifier names leave the parse with those modifiers and no key.
proof fn lemma_parse_modifier_parts(mods: Seq<Seq<char>>)
    requires
        forall|i: int|
            0 <= i < mods.len() ==> modifier_named(#[trigger] mods[i]) is Some,
    ensures
        parse_parts(mods) == Ok::<PartsState, HotkeyErrorView>((modifiers_named(mods), None)),
    decreases mods.len(),
{
    if mods.len() > 0 {
        let init = mods.drop_last();
        assert forall|i: int| 0 <= i < init.len() implies modifier_named(#[trigger] init[i]) is Some by {
            assert(init[i] == mods[i]);
        }
        lemma_parse_modifier_parts(init);
        assert(modifier_named(mods[mods.len() - 1]) is Some);
        lemma_names_lowercase(mods[mods.len() - 1]);
    }
}

/// A hotkey whose parts are modifier names followed by one key name parses to those
/// modifiers and that key.
pub proof fn lemma_modifiers_then_key(s: Seq<char>, mods: Seq<Seq<char>>, key: Seq<char>)
    requires
        hotkey_parts(s) == mods.push(key),
        forall|i: int|
            0 <= i < mods.len() ==> modifier_named(#[trigger] mods[i]) is Some,
        key_code_named(key) is Some,
    ensures
        hotkey_combo(s) == Ok::<KeyCombo, HotkeyErrorView>(
            KeyCombo { modifiers: modifiers_named(mods), key: key_code_named(key).unwrap() },
        ),
{
    lemma_parse_modifier_parts(mods);
    lemma_key_names_are_not_modifiers(key);
    lemma_names_lowercase(key);
    assert(mods.push(key).drop_last() =~= mods);
}

/// A hotkey whose parts are all modifier names is refused for want of a key.
pub proof fn lemma_modifiers_only(s: Seq<char>)
    requires
        forall|i: int|
            0 <= i < hotkey_parts(s).len() ==> modifier_named(#[trigger] hotkey_parts(s)[i]) is Some,
    ensures
        hotkey_combo(s) == Err::<KeyCombo, HotkeyErrorView>(HotkeyErrorView::NoKeyCode),
{
    lemma_parse_modifier_parts(hotkey_parts(s));
}

/// Parts that leave the parse in the same state leave it in the same state whatever
/// parts follow.
proof fn lemma_parse_parts_congruent(a: Seq<Seq<char>>, b: Seq<Seq<char>>, post: Seq<Seq<char>>)
    requires
        parse_parts(a) == parse_parts(b),
    ensures
        parse_parts(a + post) == parse_parts(b + post),
    decreases post.len(),
{
    if post.len() == 0 {
        assert(a + post =~= a);
        assert(b + post =~= b);
    } else {
        lemma_parse_parts_congruent(a, b, post.drop_last());
        assert((a + post).drop_last() =~= a + post.drop_last());
        assert((b + post).drop_last() =~= b + post.drop_last());
        assert((a + post).last() == post.last());
        assert((b + post).last() == post.last());
    }
}

/// Modifiers may be written in any order: swapping two neighbouring parts that both name
/// modifiers does not change what the hotkey parses to.
pub proof fn lemma_modifier_order(
    pre: Seq<Seq<char>>,
    p: Seq<char>,
    q: Seq<char>,
    post: Seq<Seq<char>>,
)
    requires
        modifier_named(lowercase(p)) is Some,
        modifier_named(lowercase(q)) is Some,
    ensures
        parse_parts(pre + seq![p, q] + post) == parse_parts(pre + seq![q, p] + post),
{
    let a = pre + seq![p, q];
    let b = pre + seq![q, p];
    assert(a.drop_last() =~= pre.push(p));
    assert(b.drop_last() =~= pre.push(q));
    assert(pre.push(p).drop_last() =~= pre);
    assert(pre.push(q).drop_last() =~= pre);
    if let Ok(st) = parse_parts(pre) {
        let mp = modifier_named(lowercase(p)).unwrap();
        let mq = modifier_named(lowercase(q)).unwrap();
        assert(parse_parts(pre.push(p)) == Ok::<PartsState, HotkeyErrorView>((st.0.spec_with(mp), st.1)));
        assert(parse_parts(pre.push(q)) == Ok::<PartsState, HotkeyErrorView>((st.0.spec_with(mq), st.1)));
        assert(st.0.spec_with(mp).spec_with(mq) == st.0.spec_with(mq).spec_with(mp));
    }
    assert(parse_parts(a) == parse_parts(b));
    lemma_parse_parts_congruent(a, b, post);
}

/// Naming a modifier twice in a row names it once.
pub proof fn lemma_modifier_repeated(pre: Seq<Seq<char>>, p: Seq<char>, post: Seq<Seq<char>>)
    requires
        modifier_named(lowercase(p)) is Some,
    ensures
        parse_parts(pre + seq![p, p] + post) == parse_parts(pre + seq![p] + post),
{
    let a = pre + seq![p, p];
    let b = pre + seq![p];
    assert(a.drop_last() =~= b);
    assert(b.drop_last() =~= pre);
    assert(parse_parts(a) == parse_parts(b));
    lemma_parse_parts_congruent(a, b, post);
}

/// A part that splitting and trimming leave alone: it holds no `+` and neither starts nor
/// ends with white space.
pub open spec fn plain_part(p: Seq<char>) -> bool {
    free_of(p, '+') && trim(p) == p
}

/// Every modifier name and key name is its own lower case.
#[verifier::rlimit(80)]
pub proof fn lemma_names_lowercase(name: Seq<char>)
    ensures
        modifier_named(name) is Some || key_code_named(name) is Some ==> lowercase(name) == name,
{
    lemma_key_name_chars();
    if modifier_named(name) is Some || key_code_named(name) is Some {
        assert(forall|i: int| 0 <= i < name.len() ==> is_lower_alnum(#[trigger] name[i]));
        lemma_lowercase_fixed(name);
    }
}

/// Every modifier name and key name is a plain part.
#[verifier::rlimit(80)]
pub proof fn lemma_names_plain(name: Seq<char>)
    ensures
        modifier_named(name) is Some || key_code_named(name) is Some ==> plain_part(name),
{
    lemma_key_name_chars();
    if modifier_named(name) is Some || key_code_named(name) is Some {
        assert(name.len() > 0 && !is_white_space(name[0]) && !is_white_space(name.last()));
        lemma_trim_start_keeps(name);
        lemma_trim_end_keeps(name);
        assert(free_of(name, '+'));
    }
}

/// A hotkey written as modifier names and then a key name, joined with `+`, parses to
/// those modifiers and that key.
pub proof fn lemma_hotkey_written_out(mods: Seq<Seq<char>>, key: Seq<char>)
    requires
        forall|i: int|
            0 <= i < mods.len() ==> modifier_named(#[trigger] mods[i]) is Some,
        key_code_named(key) is Some,
    ensures
        hotkey_combo(join_with(mods.push(key), '+')) == Ok::<KeyCombo, HotkeyErrorView>(
            KeyCombo { modifiers: modifiers_named(mods), key: key_code_named(key).unwrap() },
        ),
{
    let parts = mods.push(key);
    assert forall|i: int| 0 <= i < parts.len() implies plain_part(#[trigger] parts[i]) by {
        lemma_names_plain(parts[i]);
        if i < mods.len() {
            assert(parts[i] == mods[i]);
        }
    }
    lemma_split_join(parts, '+');
    let s = join_with(parts, '+');
    assert(hotkey_parts(s) =~= parts);
    lemma_modifiers_then_key(s, mods, key);
}

/// Two modifier names that name the same modifier may stand for each other: `m1+k` and
/// `m2+k` parse alike, whatever the part `k` after the `+` is.
pub proof fn lemma_modifier_alias(m1: Seq<char>, m2: Seq<char>, k: Seq<char>)
    requires
        modifier_named(m1) is Some,
        modifier_named(m1) == modifier_named(m2),
        free_of(k, '+'),
    ensures
        hotkey_combo(join_with(seq![m1, k], '+')) == hotkey_combo(join_with(seq![m2, k], '+')),
{
    lemma_names_plain(m1);
    lemma_names_plain(m2);
    lemma_names_lowercase(m1);
    lemma_names_lowercase(m2);
    let p1 = seq![m1, k];
    let p2 = seq![m2, k];
    assert forall|i: int| 0 <= i < p1.len() implies free_of(#[trigger] p1[i], '+') by {}
    assert forall|i: int| 0 <= i < p2.len() implies free_of(#[trigger] p2[i], '+') by {}
    lemma_split_join(p1, '+');
    lemma_split_join(p2, '+');
    let h1 = hotkey_parts(join_with(p1, '+'));
    let h2 = hotkey_parts(join_with(p2, '+'));
    assert(h1 =~= seq![m1, trim(k)]);
    assert(h2 =~= seq![m2, trim(k)]);
    assert(h1.drop_last() =~= seq![m1]);
    assert(h2.drop_last() =~= seq![m2]);
    assert(seq![m1].drop_last() =~= Seq::<Seq<char>>::empty());
    assert(seq![m2].drop_last() =~= Seq::<Seq<char>>::empty());
    assert(parse_parts(seq![m1]) == parse_parts(seq![m2]));
}

/// The documented aliases: `control` stands for `ctrl`, and `meta`, `cmd` and `win` for
/// `super`, in front of any part.
pub proof fn lemma_documented_aliases(k: Seq<char>)
    requires
        free_of(k, '+'),
    ensures
        hotkey_combo(join_with(seq!["control"@, k], '+')) == hotkey_combo(
            join_with(seq!["ctrl"@, k], '+'),
        ),
        hotkey_combo(join_with(seq!["meta"@, k], '+')) == hotkey_combo(
            join_with(seq!["super"@, k], '+'),
        ),
        hotkey_combo(join_with(seq!["cmd"@, k], '+')) == hotkey_combo(
            join_with(seq!["super"@, k], '+'),
        ),
        hotkey_combo(join_with(seq!["win"@, k], '+')) == hotkey_combo(
            join_with(seq!["super"@, k], '+'),
        ),
{
    lemma_key_name_chars();
    lemma_modifier_alias("control"@, "ctrl"@, k);
    lemma_modifier_alias("meta"@, "super"@, k);
    lemma_modifier_alias("cmd"@, "super"@, k);
    lemma_modifier_alias("win"@, "super"@, k);
}

/// Modifiers may be written in any order: two hotkey strings whose parts differ only by
/// two neighbouring modifier parts swapped parse alike.
pub proof fn lemma_modifier_order_in_string(
    s1: Seq<char>,
    s2: Seq<char>,
    pre: Seq<Seq<char>>,
    p: Seq<char>,
    q: Seq<char>,
    post: Seq<Seq<char>>,
)
    requires
        hotkey_parts(s1) == pre + seq![p, q] + post,
        hotkey_parts(s2) == pre + seq![q, p] + post,
        modifier_named(lowercase(p)) is Some,
        modifier_named(lowercase(q)) is Some,
    ensures
        hotkey_combo(s1) == hotkey_combo(s2),
{
    lemma_modifier_order(pre, p, q, post);
}

/// A key written in ASCII is found whatever the case of its letters.
pub proof fn lemma_key_code_case_insensitive(key: Seq<char>)
    requires
        is_ascii_text(key),
    ensures
        key_code_result(ascii_lower(key)) is Ok <==> key_code_result(key) is Ok,
        key_code_result(key) is Ok ==> key_code_result(ascii_lower(key)) == key_code_result(key),
{
    lemma_ascii_lower_twice(key);
}

/// Parts whose lower cases agree leave the parse in the same state.
proof fn lemma_parse_parts_same_lower(p1: Seq<Seq<char>>, p2: Seq<Seq<char>>)
    requires
        p1.len() == p2.len(),
        forall|i: int| 0 <= i < p1.len() ==> lowercase(#[trigger] p1[i]) == lowercase(p2[i]),
    ensures
        parse_parts(p1) == parse_parts(p2),
    decreases p1.len(),
{
    if p1.len() > 0 {
        let a = p1.drop_last();
        let b = p2.drop_last();
        assert forall|i: int| 0 <= i < a.len() implies lowercase(#[trigger] a[i]) == lowercase(b[i]) by {
            assert(a[i] == p1[i]);
            assert(b[i] == p2[i]);
        }
        lemma_parse_parts_same_lower(a, b);
        assert(lowercase(p1[p1.len() - 1]) == lowercase(p2[p2.len() - 1]));
    }
}

/// Trimmed ASCII text is ASCII text.
proof fn lemma_trim_ascii(s: Seq<char>)
    requires
        is_ascii_text(s),
    ensures
        is_ascii_text(trim(s)),
{
    lemma_trim_start_clean(s);
    let a = trim_start(s);
    lemma_ascii_subrange(s, s.len() - a.len(), s.len() as int);
    lemma_trim_end_clean(a);
    lemma_ascii_subrange(a, 0, trim_end(a).len() as int);
    assert(a.take(trim_end(a).len() as int) =~= a.subrange(0, trim_end(a).len() as int));
}

/// The case of the letters of a hotkey written in ASCII does not matter: it parses as its
/// lower-case form does.
pub proof fn lemma_hotkey_case_insensitive(s: Seq<char>)
    requires
        is_ascii_text(s),
    ensures
        hotkey_combo(ascii_lower(s)) == hotkey_combo(s),
{
    lemma_split_ascii_lower(s, '+');
    let sp = split(s, '+');
    let p = hotkey_parts(s);
    let q = hotkey_parts(ascii_lower(s));
    assert forall|i: int| 0 <= i < p.len() implies lowercase(#[trigger] q[i]) == lowercase(p[i]) by {
        assert(is_ascii_text(sp[i]));
        lemma_trim_ascii_lower(sp[i]);
        lemma_trim_ascii(sp[i]);
        assert(q[i] == ascii_lower(p[i]));
        lemma_ascii_lower_twice(p[i]);
    }
    lemma_parse_parts_same_lower(q, p);
}

/// Two key names denote the same key only when they are the same name or the aliases
/// `enter`/`return` or `escape`/`esc`.
#[verifier::rlimit(100)]
pub proof fn lemma_key_names_distinct(n1: Seq<char>, n2: Seq<char>)
    requires
        key_code_named(n1) is Some,
        key_code_named(n1) == key_code_named(n2),
    ensures
        n1 == n2 || ((n1 == "enter"@ || n1 == "return"@) && (n2 == "enter"@ || n2 == "return"@)) || (
        (n1 == "escape"@ || n1 == "esc"@) && (n2 == "escape"@ || n2 == "esc"@)),
{
    lemma_key_names_found(key_code_named(n1).unwrap());
    let k = key_code_named(n1).unwrap();
    lemma_key_name_chars();
}

/// The parts, each lower-cased.
pub open spec fn lowered(parts: Seq<Seq<char>>) -> Seq<Seq<char>> {
    parts.map_values(|p: Seq<char>| lowercase(p))
}

/// Whether some lower-cased part names the modifier `m`.
pub open spec fn names_modifier(l: Seq<Seq<char>>, m: Modifier) -> bool {
    exists|i: int| 0 <= i < l.len() && #[trigger] modifier_named(l[i]) == Some(m)
}

/// The modifiers that the lower-cased parts `l` name, wherever they stand.
pub open spec fn named_modifiers(l: Seq<Seq<char>>) -> ModifierSet {
    ModifierSet {
        control: names_modifier(l, Modifier::Control),
        shift: names_modifier(l, Modifier::Shift),
        alt: names_modifier(l, Modifier::Alt),
        super_key: names_modifier(l, Modifier::Super),
    }
}

/// Whether, of the lower-cased parts `l`, the one at `k` is the only one that names no
/// modifier.
pub open spec fn single_key_part(l: Seq<Seq<char>>, k: int) -> bool {
    &&& 0 <= k < l.len()
    &&& modifier_named(l[k]) is None
    &&& forall|i: int| 0 <= i < l.len() && i != k ==> #[trigger] modifier_named(l[i]) is Some
}

/// Whether two sequences hold the same elements, in whatever order and number.
pub open spec fn same_elements(a: Seq<Seq<char>>, b: Seq<Seq<char>>) -> bool {
    &&& forall|i: int| 0 <= i < a.len() ==> exists|j: int| 0 <= j < b.len() && #[trigger] a[i] == #[trigger] b[j]
    &&& forall|j: int| 0 <= j < b.len() ==> exists|i: int| 0 <= i < a.len() && #[trigger] a[i] == #[trigger] b[j]
}

/// A part that names a modifier adds it to the modifiers named; another adds nothing.
proof fn lemma_named_modifiers_push(l: Seq<Seq<char>>, x: Seq<char>)
    ensures
        named_modifiers(l.push(x)) == match modifier_named(x) {
            Some(m) => named_modifiers(l).spec_with(m),
            None => named_modifiers(l),
        },
{
    let lx = l.push(x);
    assert forall|m: Modifier| names_modifier(lx, m) == (names_modifier(l, m) || modifier_named(x) == Some(m)) by {
        if names_modifier(l, m) {
            let i = choose|i: int| 0 <= i < l.len() && #[trigger] modifier_named(l[i]) == Some(m);
            assert(lx[i] == l[i]);
        }
        if modifier_named(x) == Some(m) {
            assert(lx[l.len() as int] == x);
        }
        if names_modifier(lx, m) {
            let i = choose|i: int| 0 <= i < lx.len() && #[trigger] modifier_named(lx[i]) == Some(m);
            if i < l.len() {
                assert(lx[i] == l[i]);
            }
        }
    }
    assert(names_modifier(lx, Modifier::Control) == (names_modifier(l, Modifier::Control) || modifier_named(x) == Some(Modifier::Control)));
    assert(names_modifier(lx, Modifier::Shift) == (names_modifier(l, Modifier::Shift) || modifier_named(x) == Some(Modifier::Shift)));
    assert(names_modifier(lx, Modifier::Alt) == (names_modifier(l, Modifier::Alt) || modifier_named(x) == Some(Modifier::Alt)));
    assert(names_modifier(lx, Modifier::Super) == (names_modifier(l, Modifier::Super) || modifier_named(x) == Some(Modifier::Super)));
}

/// The parse state after the first `j` parts, where only the part at `k` names no modifier.
proof fn lemma_parse_prefix_single_key(p: Seq<Seq<char>>, k: int, j: int)
    requires
        single_key_part(lowered(p), k),
        0 <= j <= p.len(),
    ensures
        j <= k ==> parse_parts(p.take(j)) == Ok::<PartsState, HotkeyErrorView>(
            (named_modifiers(lowered(p.take(j))), None),
        ),
        j > k ==> parse_parts(p.take(j)) == match key_code_result(lowercase(p[k])) {
            Ok(c) => Ok::<PartsState, HotkeyErrorView>((named_modifiers(lowered(p.take(j))), Some(c))),
            Err(e) => Err::<PartsState, HotkeyErrorView>(e),
        },
    decreases j,
{
    if j == 0 {
        assert(p.take(0) =~= Seq::<Seq<char>>::empty());
        assert(lowered(p.take(0)) =~= Seq::<Seq<char>>::empty());
        assert forall|m: Modifier| !names_modifier(lowered(p.take(0)), m) by {}
        assert(named_modifiers(lowered(p.take(0))) == ModifierSet::spec_none());
    } else {
        lemma_parse_prefix_single_key(p, k, j - 1);
        let t = p.take(j);
        assert(t.drop_last() =~= p.take(j - 1));
        assert(t.last() == p[j - 1]);
        assert(lowered(t) =~= lowered(p.take(j - 1)).push(lowercase(p[j - 1])));
        lemma_named_modifiers_push(lowered(p.take(j - 1)), lowercase(p[j - 1]));
        assert(lowered(p)[j - 1] == lowercase(p[j - 1]));
        if j - 1 != k {
            assert(modifier_named(lowered(p)[j - 1]) is Some);
        }
    }
}

/// A hotkey whose lower-cased parts all name modifiers but one parses to the modifiers
/// named and the key of that one part, wherever each part stands.
pub proof fn lemma_parse_single_key(p: Seq<Seq<char>>, k: int)
    requires
        single_key_part(lowered(p), k),
    ensures
        parse_parts(p) == match key_code_result(lowercase(p[k])) {
            Ok(c) => Ok::<PartsState, HotkeyErrorView>((named_modifiers(lowered(p)), Some(c))),
            Err(e) => Err::<PartsState, HotkeyErrorView>(e),
        },
{
    lemma_parse_prefix_single_key(p, k, p.len() as int);
    assert(p.take(p.len() as int) =~= p);
}

/// Lower-cased parts with the same elements name the same modifiers.
proof fn lemma_same_elements_same_modifiers(l1: Seq<Seq<char>>, l2: Seq<Seq<char>>)
    requires
        same_elements(l1, l2),
    ensures
        named_modifiers(l1) == named_modifiers(l2),
{
    assert forall|m: Modifier| names_modifier(l1, m) == names_modifier(l2, m) by {
        if names_modifier(l1, m) {
            let i = choose|i: int| 0 <= i < l1.len() && #[trigger] modifier_named(l1[i]) == Some(m);
            let jj = choose|jj: int| 0 <= jj < l2.len() && l1[i] == #[trigger] l2[jj];
            assert(modifier_named(l2[jj]) == Some(m));
        }
        if names_modifier(l2, m) {
            let jj = choose|jj: int| 0 <= jj < l2.len() && #[trigger] modifier_named(l2[jj]) == Some(m);
            let i = choose|i: int| 0 <= i < l1.len() && #[trigger] l1[i] == l2[jj];
            assert(modifier_named(l1[i]) == Some(m));
        }
    }
    assert(names_modifier(l1, Modifier::Control) == names_modifier(l2, Modifier::Control));
    assert(names_modifier(l1, Modifier::Shift) == names_modifier(l2, Modifier::Shift));
    assert(names_modifier(l1, Modifier::Alt) == names_modifier(l2, Modifier::Alt));
    assert(names_modifier(l1, Modifier::Super) == names_modifier(l2, Modifier::Super));
}

/// Lower-cased parts with the same elements, each with one part that names no modifier,
/// have the same such part.
proof fn lemma_same_elements_same_key(l1: Seq<Seq<char>>, l2: Seq<Seq<char>>, k1: int, k2: int)
    requires
        same_elements(l1, l2),
        single_key_part(l1, k1),
        single_key_part(l2, k2),
    ensures
        l1[k1] == l2[k2],
{
    let j = choose|j: int| 0 <= j < l2.len() && l1[k1] == #[trigger] l2[j];
    if j != k2 {
        assert(modifier_named(l2[j]) is Some);
    }
}

/// The order, repetition and case of the parts of a hotkey do not matter: two hotkey
/// strings whose trimmed, lower-cased parts are the same, and all but one of them
/// modifiers, parse alike.
pub proof fn lemma_hotkey_parts_any_order(s1: Seq<char>, s2: Seq<char>)
    requires
        same_elements(lowered(hotkey_parts(s1)), lowered(hotkey_parts(s2))),
        exists|k: int| single_key_part(lowered(hotkey_parts(s1)), k),
        exists|k: int| single_key_part(lowered(hotkey_parts(s2)), k),
    ensures
        hotkey_combo(s1) == hotkey_combo(s2),
{
    let p1 = hotkey_parts(s1);
    let p2 = hotkey_parts(s2);
    let l1 = lowered(p1);
    let l2 = lowered(p2);
    let k1 = choose|k: int| single_key_part(l1, k);
    let k2 = choose|k: int| single_key_part(l2, k);
    lemma_parse_single_key(p1, k1);
    lemma_parse_single_key(p2, k2);
    lemma_same_elements_same_key(l1, l2, k1, k2);
    lemma_same_elements_same_modifiers(l1, l2);
    assert(l1[k1] == lowercase(p1[k1]));
    assert(l2[k2] == lowercase(p2[k2]));
    assert(parse_parts(p1) == parse_parts(p2));
}

/// The bits of a modifier set are exactly the `global_hotkey` bits of the modifiers in it,
/// each set independently of the others: Control 0x8, Shift 0x200, Alt 0x1, Super 0x2000,
/// and no other bit.
pub proof fn lemma_modifier_bits(m: ModifierSet)
    ensures
        m.control <==> m.spec_bits() & 0x8 != 0,
        m.shift <==> m.spec_bits() & 0x200 != 0,
        m.alt <==> m.spec_bits() & 0x1 != 0,
        m.super_key <==> m.spec_bits() & 0x2000 != 0,
        m.spec_bits() & !0x2209u32 == 0,
        forall|x: Modifier| m.has(x) <==> #[trigger] (m.spec_bits() & modifier_bit(x)) != 0,
{
    let c = m.control;
    let sh = m.shift;
    let a = m.alt;
    let su = m.super_key;
    let b: u32 = m.spec_bits();
    assert(b == ((if a { 0x1u32 } else { 0 }) + (if c { 0x8u32 } else { 0 }) + (if sh {
        0x200u32
    } else {
        0
    }) + (if su { 0x2000u32 } else { 0 })) as u32);
    assert((c <==> b & 0x8 != 0) && (sh <==> b & 0x200 != 0) && (a <==> b & 0x1 != 0) && (su
        <==> b & 0x2000 != 0) && b & !0x2209u32 == 0) by (bit_vector)
        requires
            b == ((if a { 0x1u32 } else { 0 }) + (if c { 0x8u32 } else { 0 }) + (if sh {
                0x200u32
            } else {
                0
            }) + (if su { 0x2000u32 } else { 0 })) as u32,
    ;
}

} // verus!
