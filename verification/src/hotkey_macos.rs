//! Hotkeys on macOS, where key events are matched by virtual key code and modifier flags.
use vstd::prelude::*;
use vstd::string::*;
use crate::text::{
    is_lower_alnum, lemma_lowercase_fixed,
    free_of, is_white_space, join_with, lemma_split_join, lemma_trim_end_keeps, lemma_trim_start_keeps,
    lowercase, str_eq, to_lowercase, trim,
};
use crate::hotkey::{
    key_name, lemma_key_name_chars, plain_part, KeyCode,
    hotkey_parts, lowered_parts, string_views, HotkeyError, HotkeyErrorView, Modifier, ModifierSet,
};

verus! {

/// The Control flag of a macOS key event (`CGEventFlagControl`).
pub const FLAG_CONTROL: u64 = 0x0004_0000;

/// The Shift flag of a macOS key event (`CGEventFlagShift`).
pub const FLAG_SHIFT: u64 = 0x0002_0000;

/// The Option flag of a macOS key event (`CGEventFlagAlternate`).
pub const FLAG_ALTERNATE: u64 = 0x0008_0000;

/// The Command flag of a macOS key event (`CGEventFlagCommand`).
pub const FLAG_COMMAND: u64 = 0x0010_0000;

/// The flags that count as modifiers when a key event is matched; others, such as Caps Lock,
/// are ignored.
pub const RELEVANT_FLAGS: u64 = 0x001e_0000;

/// The event flags of a set of modifiers.
pub open spec fn mac_flags(m: ModifierSet) -> u64 {
    ((if m.control { FLAG_CONTROL as int } else { 0 }) + (if m.shift { FLAG_SHIFT as int } else { 0 })
        + (if m.alt { FLAG_ALTERNATE as int } else { 0 }) + (if m.super_key {
        FLAG_COMMAND as int
    } else {
        0
    })) as u64
}

/// The event flags of a set of modifiers.
pub fn modifier_flags(m: ModifierSet) -> (r: u64)
    ensures
        r == mac_flags(m),
{
    let mut f: u64 = 0;
    if m.control {
        f = f + FLAG_CONTROL;
    }
    if m.shift {
        f = f + FLAG_SHIFT;
    }
    if m.alt {
        f = f + FLAG_ALTERNATE;
    }
    if m.super_key {
        f = f + FLAG_COMMAND;
    }
    f
}

/// The modifier that a lower-case part names on macOS, if any.
pub open spec fn mac_modifier_named(name: Seq<char>) -> Option<Modifier> {
    if name == "ctrl"@ || name == "control"@ {
        Some(Modifier::Control)
    } else if name == "shift"@ {
        Some(Modifier::Shift)
    } else if name == "alt"@ || name == "option"@ {
        Some(Modifier::Alt)
    } else if name == "super"@ || name == "meta"@ || name == "cmd"@ || name == "command"@ {
        Some(Modifier::Super)
    } else {
        None
    }
}

/// The modifier that a lower-case part names on macOS, if any.
pub fn mac_modifier_for_name(name: &str) -> (r: Option<Modifier>)
    ensures
        r == mac_modifier_named(name@),
{
    if str_eq(name, "ctrl") || str_eq(name, "control") {
        Some(Modifier::Control)
    } else if str_eq(name, "shift") {
        Some(Modifier::Shift)
    } else if str_eq(name, "alt") || str_eq(name, "option") {
        Some(Modifier::Alt)
    } else if str_eq(name, "super") || str_eq(name, "meta") || str_eq(name, "cmd") || str_eq(
        name,
        "command",
    ) {
        Some(Modifier::Super)
    } else {
        None
    }
}

/// The macOS virtual key code that a lower-case key name denotes, if any.
pub open spec fn mac_key_code_named(name: Seq<char>) -> Option<u16> {
    if name == "a"@ {
        Some(0x00u16)
    } else if name == "b"@ {
        Some(0x0Bu16)
    } else if name == "c"@ {
        Some(0x08u16)
    } else if name == "d"@ {
        Some(0x02u16)
    } else if name == "e"@ {
        Some(0x0Eu16)
    } else if name == "f"@ {
        Some(0x03u16)
    } else if name == "g"@ {
        Some(0x05u16)
    } else if name == "h"@ {
        Some(0x04u16)
    } else if name == "i"@ {
        Some(0x22u16)
    } else if name == "j"@ {
        Some(0x26u16)
    } else if name == "k"@ {
        Some(0x28u16)
    } else if name == "l"@ {
        Some(0x25u16)
    } else if name == "m"@ {
        Some(0x2Eu16)
    } else if name == "n"@ {
        Some(0x2Du16)
    } else if name == "o"@ {
        Some(0x1Fu16)
    } else if name == "p"@ {
        Some(0x23u16)
    } else if name == "q"@ {
        Some(0x0Cu16)
    } else if name == "r"@ {
        Some(0x0Fu16)
    } else if name == "s"@ {
        Some(0x01u16)
    } else if name == "t"@ {
        Some(0x11u16)
    } else if name == "u"@ {
        Some(0x20u16)
    } else if name == "v"@ {
        Some(0x09u16)
    } else if name == "w"@ {
        Some(0x0Du16)
    } else if name == "x"@ {
        Some(0x07u16)
    } else if name == "y"@ {
        Some(0x10u16)
    } else if name == "z"@ {
        Some(0x06u16)
    } else if name == "0"@ {
        Some(0x1Du16)
    } else if name == "1"@ {
        Some(0x12u16)
    } else if name == "2"@ {
        Some(0x13u16)
    } else if name == "3"@ {
        Some(0x14u16)
    } else if name == "4"@ {
        Some(0x15u16)
    } else if name == "5"@ {
        Some(0x17u16)
    } else if name == "6"@ {
        Some(0x16u16)
    } else if name == "7"@ {
        Some(0x1Au16)
    } else if name == "8"@ {
        Some(0x1Cu16)
    } else if name == "9"@ {
        Some(0x19u16)
    } else if name == "space"@ {
        Some(0x31u16)
    } else if name == "enter"@ || name == "return"@ {
        Some(0x24u16)
    } else if name == "tab"@ {
        Some(0x30u16)
    } else if name == "escape"@ || name == "esc"@ {
        Some(0x35u16)
    } else if name == "backspace"@ {
        Some(0x33u16)
    } else if name == "f1"@ {
        Some(0x7Au16)
    } else if name == "f2"@ {
        Some(0x78u16)
    } else if name == "f3"@ {
        Some(0x63u16)
    } else if name == "f4"@ {
        Some(0x76u16)
    } else if name == "f5"@ {
        Some(0x60u16)
    } else if name == "f6"@ {
        Some(0x61u16)
    } else if name == "f7"@ {
        Some(0x62u16)
    } else if name == "f8"@ {
        Some(0x64u16)
    } else if name == "f9"@ {
        Some(0x65u16)
    } else if name == "f10"@ {
        Some(0x6Du16)
    } else if name == "f11"@ {
        Some(0x67u16)
    } else if name == "f12"@ {
        Some(0x6Fu16)
    } else {
        None
    }
}

/// The macOS virtual key code that a lower-case key name denotes, if any.
pub fn mac_key_code_for_name(name: &str) -> (r: Option<u16>)
    ensures
        r == mac_key_code_named(name@),
{
    if str_eq(name, "a") {
        return Some(0x00);
    }
    if str_eq(name, "b") {
        return Some(0x0B);
    }
    if str_eq(name, "c") {
        return Some(0x08);
    }
    if str_eq(name, "d") {
        return Some(0x02);
    }
    if str_eq(name, "e") {
        return Some(0x0E);
    }
    if str_eq(name, "f") {
        return Some(0x03);
    }
    if str_eq(name, "g") {
        return Some(0x05);
    }
    if str_eq(name, "h") {
        return Some(0x04);
    }
    if str_eq(name, "i") {
        return Some(0x22);
    }
    if str_eq(name, "j") {
        return Some(0x26);
    }
    if str_eq(name, "k") {
        return Some(0x28);
    }
    if str_eq(name, "l") {
        return Some(0x25);
    }
    if str_eq(name, "m") {
        return Some(0x2E);
    }
    if str_eq(name, "n") {
        return Some(0x2D);
    }
    if str_eq(name, "o") {
        return Some(0x1F);
    }
    if str_eq(name, "p") {
        return Some(0x23);
    }
    if str_eq(name, "q") {
        return Some(0x0C);
    }
    if str_eq(name, "r") {
        return Some(0x0F);
    }
    if str_eq(name, "s") {
        return Some(0x01);
    }
    if str_eq(name, "t") {
        return Some(0x11);
    }
    if str_eq(name, "u") {
        return Some(0x20);
    }
    if str_eq(name, "v") {
        return Some(0x09);
    }
    if str_eq(name, "w") {
        return Some(0x0D);
    }
    if str_eq(name, "x") {
        return Some(0x07);
    }
    if str_eq(name, "y") {
        return Some(0x10);
    }
    if str_eq(name, "z") {
        return Some(0x06);
    }
    if str_eq(name, "0") {
        return Some(0x1D);
    }
    if str_eq(name, "1") {
        return Some(0x12);
    }
    if str_eq(name, "2") {
        return Some(0x13);
    }
    if str_eq(name, "3") {
        return Some(0x14);
    }
    if str_eq(name, "4") {
        return Some(0x15);
    }
    if str_eq(name, "5") {
        return Some(0x17);
    }
    if str_eq(name, "6") {
        return Some(0x16);
    }
    if str_eq(name, "7") {
        return Some(0x1A);
    }
    if str_eq(name, "8") {
        return Some(0x1C);
    }
    if str_eq(name, "9") {
        return Some(0x19);
    }
    if str_eq(name, "space") {
        return Some(0x31);
    }
    if str_eq(name, "enter") || str_eq(name, "return") {
        return Some(0x24);
    }
    if str_eq(name, "tab") {
        return Some(0x30);
    }
    if str_eq(name, "escape") || str_eq(name, "esc") {
        return Some(0x35);
    }
    if str_eq(name, "backspace") {
        return Some(0x33);
    }
    if str_eq(name, "f1") {
        return Some(0x7A);
    }
    if str_eq(name, "f2") {
        return Some(0x78);
    }
    if str_eq(name, "f3") {
        return Some(0x63);
    }
    if str_eq(name, "f4") {
        return Some(0x76);
    }
    if str_eq(name, "f5") {
        return Some(0x60);
    }
    if str_eq(name, "f6") {
        return Some(0x61);
    }
    if str_eq(name, "f7") {
        return Some(0x62);
    }
    if str_eq(name, "f8") {
        return Some(0x64);
    }
    if str_eq(name, "f9") {
        return Some(0x65);
    }
    if str_eq(name, "f10") {
        return Some(0x6D);
    }
    if str_eq(name, "f11") {
        return Some(0x67);
    }
    if str_eq(name, "f12") {
        return Some(0x6F);
    }
    None
}

/// What `parse_key_code_macos` gives for `key`.
pub open spec fn mac_key_code_result(key: Seq<char>) -> Result<u16, HotkeyErrorView> {
    match mac_key_code_named(lowercase(key)) {
        Some(c) => Ok(c),
        None => Err(HotkeyErrorView::UnknownKeyName(key)),
    }
}

/// The macOS virtual key code of the key that `key` names, in any case.
pub fn parse_key_code_macos(key: &str) -> (r: Result<u16, HotkeyError>)
    ensures
        match r {
            Ok(c) => mac_key_code_result(key@) == Ok::<u16, HotkeyErrorView>(c),
            Err(e) => mac_key_code_result(key@) == Err::<u16, HotkeyErrorView>(e@),
        },
{
    let lower = to_lowercase(key);
    match mac_key_code_for_name(lower.as_str()) {
        Some(c) => Ok(c),
        None => Err(HotkeyError::UnknownKeyName(key.to_owned())),
    }
}

/// The state of a macOS parse after some parts: the modifiers seen and the last key code seen.
pub type MacPartsState = (ModifierSet, Option<u16>);

/// One part, already lower-cased, applied to the macOS parse state.
pub open spec fn mac_part_step(state: MacPartsState, lowered: Seq<char>) -> Result<
    MacPartsState,
    HotkeyErrorView,
> {
    match mac_modifier_named(lowered) {
        Some(m) => Ok((state.0.spec_with(m), state.1)),
        None => match mac_key_code_result(lowered) {
            Ok(c) => Ok((state.0, Some(c))),
            Err(e) => Err(e),
        },
    }
}

/// The macOS parse state after the trimmed parts `parts`, or the first error met.
pub open spec fn mac_parse_parts(parts: Seq<Seq<char>>) -> Result<MacPartsState, HotkeyErrorView>
    decreases parts.len(),
{
    if parts.len() == 0 {
        Ok((ModifierSet::spec_none(), None))
    } else {
        match mac_parse_parts(parts.drop_last()) {
            Ok(state) => mac_part_step(state, lowercase(parts.last())),
            Err(e) => Err(e),
        }
    }
}

/// What `parse_hotkey_macos` gives for `s`: the key code and the modifier flags.
pub open spec fn mac_hotkey(s: Seq<char>) -> Result<(u16, u64), HotkeyErrorView> {
    match mac_parse_parts(hotkey_parts(s)) {
        Ok((m, Some(k))) => Ok((k, mac_flags(m))),
        Ok((_, None)) => Err(HotkeyErrorView::NoKeyCode),
        Err(e) => Err(e),
    }
}

/// Applies one part, already lower-cased, to the macOS parse state.
pub fn apply_hotkey_part_macos(state: MacPartsState, lowered: &str) -> (r: Result<
    MacPartsState,
    HotkeyError,
>)
    ensures
        match r {
            Ok(st) => mac_part_step(state, lowered@) == Ok::<MacPartsState, HotkeyErrorView>(st),
            Err(e) => mac_part_step(state, lowered@) == Err::<MacPartsState, HotkeyErrorView>(e@),
        },
{
    match mac_modifier_for_name(lowered) {
        Some(m) => Ok((state.0.with(m), state.1)),
        None => match parse_key_code_macos(lowered) {
            Ok(c) => Ok((state.0, Some(c))),
            Err(e) => Err(e),
        },
    }
}

/// Once the parts up to `n` fail, every longer prefix fails the same way.
proof fn lemma_mac_parse_parts_error_persists(parts: Seq<Seq<char>>, n: int)
    requires
        0 <= n <= parts.len(),
        mac_parse_parts(parts.take(n)) is Err,
    ensures
        mac_parse_parts(parts) == mac_parse_parts(parts.take(n)),
    decreases parts.len() - n,
{
    if n < parts.len() {
        assert(parts.take(n + 1).drop_last() =~= parts.take(n));
        lemma_mac_parse_parts_error_persists(parts, n + 1);
    } else {
        assert(parts.take(n) =~= parts);
    }
}

/// Parses a hotkey string such as `super+shift+v` into a macOS virtual key code and the
/// event flags of its modifiers.
pub fn parse_hotkey_macos(hotkey_str: &str) -> (r: Result<(u16, u64), HotkeyError>)
    ensures
        match r {
            Ok(c) => mac_hotkey(hotkey_str@) == Ok::<(u16, u64), HotkeyErrorView>(c),
            Err(e) => mac_hotkey(hotkey_str@) == Err::<(u16, u64), HotkeyErrorView>(e@),
        },
{
    let parts = lowered_parts(hotkey_str);
    let ghost all = hotkey_parts(hotkey_str@);
    if parts.len() == 0 {
        return Err(HotkeyError::InvalidHotkey(hotkey_str.to_owned()));
    }
    let mut state: MacPartsState = (ModifierSet::none(), None);
    let mut j: usize = 0;
    assert(all.take(0) =~= Seq::<Seq<char>>::empty());
    assert(all.len() == parts@.len()) by {
        assert(string_views(parts@).len() == parts@.len());
    }
    while j < parts.len()
        invariant
            j <= parts@.len(),
            all.len() == parts@.len(),
            all == hotkey_parts(hotkey_str@),
            string_views(parts@) == all.map_values(|p: Seq<char>| lowercase(p)),
            mac_parse_parts(all.take(j as int)) == Ok::<MacPartsState, HotkeyErrorView>(state),
        decreases parts@.len() - j,
    {
        assert(all.take(j + 1).drop_last() =~= all.take(j as int));
        assert(lowercase(all.take(j + 1).last()) == parts@[j as int]@) by {
            assert(string_views(parts@)[j as int] == parts@[j as int]@);
        }
        match apply_hotkey_part_macos(state, parts[j].as_str()) {
            Ok(st) => {
                state = st;
            },
            Err(e) => {
                proof {
                    assert(mac_parse_parts(all.take(j + 1)) == Err::<MacPartsState, HotkeyErrorView>(
                        e@,
                    ));
                    lemma_mac_parse_parts_error_persists(all, j as int + 1);
                }
                return Err(e);
            },
        }
        j = j + 1;
    }
    assert(all.take(parts@.len() as int) =~= all);
    match state.1 {
        Some(k) => Ok((k, modifier_flags(state.0))),
        None => Err(HotkeyError::NoKeyCode),
    }
}

/// Whether a key event with the given key code and flags is the hotkey with key code
/// `key_code` and modifier flags `modifiers`: the key codes agree and so do the flags,
/// counting only the modifier flags.
pub open spec fn event_matches(key_code: u16, modifiers: u64, event_keycode: i64, event_flags: u64) -> bool {
    event_keycode == key_code as i64 && event_flags & RELEVANT_FLAGS == modifiers
}

/// What a macOS key event does to a hotkey: it goes down, comes up, or is something else.
#[derive(Clone, Copy, Debug, PartialEq, Eq, Structural)]
pub enum KeyEventKind {
    KeyDown,
    KeyUp,
    Other,
}

/// A macOS hotkey: its virtual key code, its modifier flags and whether it is held.
pub struct MacOSHotkeyManager {
    key_code: u16,
    modifiers: u64,
    pressed: bool,
}

impl View for MacOSHotkeyManager {
    /// The key code, the modifier flags, and whether the hotkey is held.
    type V = (u16, u64, bool);

    closed spec fn view(&self) -> (u16, u64, bool) {
        (self.key_code, self.modifiers, self.pressed)
    }
}

impl MacOSHotkeyManager {
    /// The hotkey that `hotkey_str` describes, not held.
    pub fn new(hotkey_str: &str) -> (r: Result<MacOSHotkeyManager, HotkeyError>)
        ensures
            match r {
                Ok(m) => mac_hotkey(hotkey_str@) == Ok::<(u16, u64), HotkeyErrorView>(
                    (m@.0, m@.1),
                ) && !m@.2,
                Err(e) => mac_hotkey(hotkey_str@) == Err::<(u16, u64), HotkeyErrorView>(e@),
            },
    {
        match parse_hotkey_macos(hotkey_str) {
            Ok((key_code, modifiers)) => Ok(MacOSHotkeyManager { key_code, modifiers, pressed: false }),
            Err(e) => Err(e),
        }
    }

    /// The virtual key code of the hotkey.
    pub fn key_code(&self) -> (r: u16)
        ensures
            r == self@.0,
    {
        self.key_code
    }

    /// The modifier flags of the hotkey.
    pub fn modifiers(&self) -> (r: u64)
        ensures
            r == self@.1,
    {
        self.modifiers
    }

    /// Whether the hotkey is held.
    pub fn is_pressed(&self) -> (r: bool)
        ensures
            r == self@.2,
    {
        self.pressed
    }

    /// Records whether the hotkey is held.
    pub fn set_pressed(&mut self, pressed: bool)
        ensures
            final(self)@ == (old(self)@.0, old(self)@.1, pressed),
    {
        self.pressed = pressed;
    }

    /// Whether a key event with the given key code and flags is this hotkey.
    pub fn matches_event(&self, event_keycode: i64, event_flags: u64) -> (r: bool)
        ensures
            r == event_matches(self@.0, self@.1, event_keycode, event_flags),
    {
        if event_keycode != self.key_code as i64 {
            return false;
        }
        let relevant_flags = FLAG_COMMAND | FLAG_SHIFT | FLAG_CONTROL | FLAG_ALTERNATE;
        assert(0x0010_0000u64 | 0x0002_0000u64 | 0x0004_0000u64 | 0x0008_0000u64 == 0x001e_0000u64)
            by (bit_vector);
        let event_modifiers = event_flags & relevant_flags;
        event_modifiers == self.modifiers
    }

    /// Takes a key event seen by the event tap: this hotkey going down, with its modifiers,
    /// makes it held; its key coming up makes it not held, whatever modifiers are still
    /// down, since releasing the hotkey ends the recording; any other event changes nothing.
    pub fn handle_key_event(&mut self, kind: KeyEventKind, event_keycode: i64, event_flags: u64)
        ensures
            final(self)@.0 == old(self)@.0,
            final(self)@.1 == old(self)@.1,
            final(self)@.2 == match kind {
                KeyEventKind::KeyDown => old(self)@.2 || event_matches(
                    old(self)@.0,
                    old(self)@.1,
                    event_keycode,
                    event_flags,
                ),
                KeyEventKind::KeyUp => old(self)@.2 && event_keycode != old(self)@.0 as i64,
                KeyEventKind::Other => old(self)@.2,
            },
    {
        match kind {
            KeyEventKind::KeyDown => {
                if self.matches_event(event_keycode, event_flags) {
                    self.set_pressed(true);
                }
            },
            KeyEventKind::KeyUp => {
                if event_keycode == self.key_code as i64 {
                    self.set_pressed(false);
                }
            },
            KeyEventKind::Other => {},
        }
    }
}

/// Flags outside the modifier flags, such as Caps Lock, do not change whether an event
/// matches a hotkey.
pub proof fn lemma_other_flags_ignored(
    key_code: u16,
    modifiers: u64,
    event_keycode: i64,
    event_flags: u64,
    other: u64,
)
    requires
        other & RELEVANT_FLAGS == 0,
    ensures
        event_matches(key_code, modifiers, event_keycode, event_flags | other) == event_matches(
            key_code,
            modifiers,
            event_keycode,
            event_flags,
        ),
{
    assert((event_flags | other) & 0x001e_0000u64 == event_flags & 0x001e_0000u64) by (bit_vector)
        requires
            other & 0x001e_0000u64 == 0,
    ;
}

/// The flags of a set of modifiers are all modifier flags.
pub proof fn lemma_mac_flags_relevant(m: ModifierSet)
    ensures
        mac_flags(m) & RELEVANT_FLAGS == mac_flags(m),
{
    let c = m.control;
    let sh = m.shift;
    let a = m.alt;
    let su = m.super_key;
    let f: u64 = mac_flags(m);
    assert(f == ((if c { 0x0004_0000u64 } else { 0 }) | (if sh { 0x0002_0000u64 } else { 0 }) | (if a {
        0x0008_0000u64
    } else {
        0
    }) | (if su { 0x0010_0000u64 } else { 0 }))) by (bit_vector)
        requires
            f == ((if c { 0x0004_0000u64 } else { 0 }) + (if sh { 0x0002_0000u64 } else { 0 }) + (if a {
                0x0008_0000u64
            } else {
                0
            }) + (if su { 0x0010_0000u64 } else { 0 })) as u64,
    ;
    assert(f & 0x001e_0000u64 == f) by (bit_vector)
        requires
            f == ((if c { 0x0004_0000u64 } else { 0 }) | (if sh { 0x0002_0000u64 } else { 0 }) | (if a {
                0x0008_0000u64
            } else {
                0
            }) | (if su { 0x0010_0000u64 } else { 0 })),
    ;
}

/// A hotkey matches the key event of its own key pressed with its own modifiers, whatever
/// other flags, such as Caps Lock, the event carries.
pub proof fn lemma_hotkey_matches_own_event(s: Seq<char>, other: u64)
    requires
        mac_hotkey(s) is Ok,
        other & RELEVANT_FLAGS == 0,
    ensures
        event_matches(
            mac_hotkey(s)->Ok_0.0,
            mac_hotkey(s)->Ok_0.1,
            mac_hotkey(s)->Ok_0.0 as i64,
            mac_hotkey(s)->Ok_0.1 | other,
        ),
{
    let (k, f) = mac_hotkey(s)->Ok_0;
    if let Ok((m, Some(kc))) = mac_parse_parts(hotkey_parts(s)) {
        lemma_mac_flags_relevant(m);
    }
    lemma_other_flags_ignored(k, f, k as i64, f, other);
}

/// Every key that the documentation lists is found on macOS.
#[verifier::rlimit(50)]
pub proof fn lemma_mac_key_names_found(k: KeyCode)
    ensures
        mac_key_code_named(key_name(k)) is Some,
{
    lemma_key_name_chars();
}

/// No macOS key name is also a macOS modifier name, and every name is a plain part and its
/// own lower case.
#[verifier::rlimit(80)]
pub proof fn lemma_mac_names(name: Seq<char>)
    ensures
        mac_key_code_named(name) is Some ==> mac_modifier_named(name) is None,
        mac_modifier_named(name) is Some || mac_key_code_named(name) is Some ==> plain_part(name),
        mac_modifier_named(name) is Some || mac_key_code_named(name) is Some ==> lowercase(name)
            == name,
{
    lemma_key_name_chars();
    if mac_modifier_named(name) is Some || mac_key_code_named(name) is Some {
        assert(forall|i: int| 0 <= i < name.len() ==> is_lower_alnum(#[trigger] name[i]));
        lemma_lowercase_fixed(name);
        assert(name.len() > 0 && !is_white_space(name[0]) && !is_white_space(name.last()));
        lemma_trim_start_keeps(name);
        lemma_trim_end_keeps(name);
        assert(free_of(name, '+'));
    }
}

/// The modifiers that a sequence of lower-case macOS modifier names names.
pub open spec fn mac_modifiers_named(names: Seq<Seq<char>>) -> ModifierSet
    decreases names.len(),
{
    if names.len() == 0 {
        ModifierSet::spec_none()
    } else {
        mac_modifiers_named(names.drop_last()).spec_with(mac_modifier_named(names.last()).unwrap())
    }
}

/// Parts that are all macOS modifier names leave the parse with those modifiers and no key.
proof fn lemma_mac_parse_modifier_parts(mods: Seq<Seq<char>>)
    requires
        forall|i: int|
            0 <= i < mods.len() ==> mac_modifier_named(#[trigger] mods[i]) is Some,
    ensures
        mac_parse_parts(mods) == Ok::<MacPartsState, HotkeyErrorView>((mac_modifiers_named(mods), None)),
    decreases mods.len(),
{
    if mods.len() > 0 {
        let init = mods.drop_last();
        assert forall|i: int| 0 <= i < init.len() implies mac_modifier_named(#[trigger] init[i]) is Some by {
            assert(init[i] == mods[i]);
        }
        lemma_mac_parse_modifier_parts(init);
        assert(mac_modifier_named(mods[mods.len() - 1]) is Some);
        lemma_mac_names(mods[mods.len() - 1]);
    }
}

/// A macOS hotkey written as modifier names and then a key name, joined with `+`, parses
/// to that key's code and those modifiers' flags.
pub proof fn lemma_mac_hotkey_written_out(mods: Seq<Seq<char>>, key: Seq<char>)
    requires
        forall|i: int|
            0 <= i < mods.len() ==> mac_modifier_named(#[trigger] mods[i]) is Some,
        mac_key_code_named(key) is Some,
    ensures
        mac_hotkey(join_with(mods.push(key), '+')) == Ok::<(u16, u64), HotkeyErrorView>(
            (mac_key_code_named(key).unwrap(), mac_flags(mac_modifiers_named(mods))),
        ),
{
    let parts = mods.push(key);
    assert forall|i: int| 0 <= i < parts.len() implies plain_part(#[trigger] parts[i]) by {
        lemma_mac_names(parts[i]);
        if i < mods.len() {
            assert(parts[i] == mods[i]);
        }
    }
    lemma_split_join(parts, '+');
    let s = join_with(parts, '+');
    assert(hotkey_parts(s) =~= parts);
    lemma_mac_parse_modifier_parts(mods);
    lemma_mac_names(key);
    assert(parts.drop_last() =~= mods);
}

/// The event flags of a modifier set are exactly the flags of the modifiers in it, each
/// set independently of the others: Control 0x40000, Shift 0x20000, Option 0x80000,
/// Command 0x100000, and no other flag.
pub proof fn lemma_mac_flags_exact(m: ModifierSet)
    ensures
        m.control <==> mac_flags(m) & 0x0004_0000 != 0,
        m.shift <==> mac_flags(m) & 0x0002_0000 != 0,
        m.alt <==> mac_flags(m) & 0x0008_0000 != 0,
        m.super_key <==> mac_flags(m) & 0x0010_0000 != 0,
        mac_flags(m) & !0x001e_0000u64 == 0,
{
    let c = m.control;
    let sh = m.shift;
    let a = m.alt;
    let su = m.super_key;
    let f: u64 = mac_flags(m);
    assert(f == ((if c { 0x0004_0000u64 } else { 0 }) + (if sh { 0x0002_0000u64 } else { 0 }) + (
    if a {
        0x0008_0000u64
    } else {
        0
    }) + (if su { 0x0010_0000u64 } else { 0 })) as u64);
    assert((c <==> f & 0x0004_0000 != 0) && (sh <==> f & 0x0002_0000 != 0) && (a <==> f
        & 0x0008_0000 != 0) && (su <==> f & 0x0010_0000 != 0) && f & !0x001e_0000u64 == 0)
        by (bit_vector)
        requires
            f == ((if c { 0x0004_0000u64 } else { 0 }) + (if sh { 0x0002_0000u64 } else { 0 }) + (
            if a {
                0x0008_0000u64
            } else {
                0
            }) + (if su { 0x0010_0000u64 } else { 0 })) as u64,
    ;
}

} // verus!
