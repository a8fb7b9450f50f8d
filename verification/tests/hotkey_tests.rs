use code_voice::hotkey::{
    apply_hotkey_part, key_code_for_name, modifier_for_name, parse_hotkey, parse_hotkey_combo,
    parse_key_code, to_global_hotkey, HotkeyError, HotkeyEvent, KeyCode, KeyCombo, KeyState, Modifier, ModifierSet,
    PressTracker,
};
use global_hotkey::hotkey::{Code, HotKey, Modifiers};

fn set(control: bool, shift: bool, alt: bool, super_key: bool) -> ModifierSet {
    ModifierSet { control, shift, alt, super_key }
}

#[test]
fn default_linux_hotkey_parses() {
    let combo = parse_hotkey_combo("ctrl+shift+space").unwrap();
    assert_eq!(combo, KeyCombo { modifiers: set(true, true, false, false), key: KeyCode::Space });
}

#[test]
fn readme_examples_parse() {
    assert_eq!(
        parse_hotkey_combo("alt+v").unwrap(),
        KeyCombo { modifiers: set(false, false, true, false), key: KeyCode::KeyV }
    );
    assert_eq!(
        parse_hotkey_combo("ctrl+alt+r").unwrap(),
        KeyCombo { modifiers: set(true, false, true, false), key: KeyCode::KeyR }
    );
    assert_eq!(
        parse_hotkey_combo("super+space").unwrap(),
        KeyCombo { modifiers: set(false, false, false, true), key: KeyCode::Space }
    );
    assert_eq!(
        parse_hotkey_combo("super+shift+v").unwrap(),
        KeyCombo { modifiers: set(false, true, false, true), key: KeyCode::KeyV }
    );
}

#[test]
fn parts_are_trimmed_and_case_is_ignored() {
    assert_eq!(
        parse_hotkey_combo(" Ctrl + SHIFT +\tSpace ").unwrap(),
        KeyCombo { modifiers: set(true, true, false, false), key: KeyCode::Space }
    );
}

#[test]
fn modifier_aliases() {
    for (name, m) in [
        ("ctrl", Modifier::Control),
        ("control", Modifier::Control),
        ("shift", Modifier::Shift),
        ("alt", Modifier::Alt),
        ("super", Modifier::Super),
        ("meta", Modifier::Super),
        ("cmd", Modifier::Super),
        ("win", Modifier::Super),
    ] {
        assert_eq!(modifier_for_name(name), Some(m));
    }
    assert_eq!(modifier_for_name("option"), None);
    assert_eq!(modifier_for_name("Ctrl"), None);
}

#[test]
fn modifier_order_does_not_matter() {
    assert_eq!(parse_hotkey_combo("shift+ctrl+f5"), parse_hotkey_combo("ctrl+shift+f5"));
    assert_eq!(parse_hotkey_combo("ctrl+ctrl+f5"), parse_hotkey_combo("ctrl+f5"));
}

#[test]
fn every_listed_key_is_found() {
    let letters = "abcdefghijklmnopqrstuvwxyz";
    for c in letters.chars() {
        assert!(key_code_for_name(&c.to_string()).is_some(), "letter {}", c);
    }
    for d in 0..10 {
        assert!(key_code_for_name(&d.to_string()).is_some());
    }
    for f in 1..13 {
        assert!(key_code_for_name(&format!("f{}", f)).is_some());
    }
    assert_eq!(key_code_for_name("space"), Some(KeyCode::Space));
    assert_eq!(key_code_for_name("enter"), Some(KeyCode::Enter));
    assert_eq!(key_code_for_name("return"), Some(KeyCode::Enter));
    assert_eq!(key_code_for_name("tab"), Some(KeyCode::Tab));
    assert_eq!(key_code_for_name("backspace"), Some(KeyCode::Backspace));
    assert_eq!(key_code_for_name("escape"), Some(KeyCode::Escape));
    assert_eq!(key_code_for_name("esc"), Some(KeyCode::Escape));
    assert_eq!(key_code_for_name("a"), Some(KeyCode::KeyA));
    assert_eq!(key_code_for_name("7"), Some(KeyCode::Digit7));
    assert_eq!(key_code_for_name("f12"), Some(KeyCode::F12));
    assert_eq!(key_code_for_name("f13"), None);
    assert_eq!(key_code_for_name("delete"), None);
    assert_eq!(key_code_for_name(""), None);
}

#[test]
fn key_names_match_global_hotkey_codes() {
    assert_eq!(KeyCode::KeyA.name(), "KeyA");
    assert_eq!(KeyCode::Digit0.name(), "Digit0");
    assert_eq!(KeyCode::F12.name(), "F12");
    assert_eq!(KeyCode::Space.name(), "Space");
    assert_eq!(KeyCode::Escape.name(), "Escape");
}

#[test]
fn parse_key_code_ignores_case() {
    assert_eq!(parse_key_code("SPACE"), Ok(KeyCode::Space));
    assert_eq!(parse_key_code("F1"), Ok(KeyCode::F1));
    assert_eq!(parse_key_code("Q"), Ok(KeyCode::KeyQ));
}

#[test]
fn unknown_key_is_refused() {
    let e = parse_hotkey_combo("ctrl+Foo").unwrap_err();
    assert_eq!(e, HotkeyError::UnknownKey("foo".to_string()));
    assert_eq!(e.message(), "Unknown key code: foo");
    assert_eq!(parse_key_code("Bar"), Err(HotkeyError::UnknownKey("Bar".to_string())));
}

#[test]
fn empty_part_is_an_unknown_key() {
    assert_eq!(parse_hotkey_combo("ctrl+"), Err(HotkeyError::UnknownKey(String::new())));
    assert_eq!(parse_hotkey_combo(""), Err(HotkeyError::UnknownKey(String::new())));
}

#[test]
fn hotkey_without_key_is_refused() {
    let e = parse_hotkey_combo("ctrl+shift").unwrap_err();
    assert_eq!(e, HotkeyError::NoKeyCode);
    assert_eq!(e.message(), "No key code found in hotkey string");
}

#[test]
fn last_key_wins() {
    assert_eq!(
        parse_hotkey_combo("a+ctrl+b").unwrap(),
        KeyCombo { modifiers: set(true, false, false, false), key: KeyCode::KeyB }
    );
}

#[test]
fn first_error_stops_the_parse() {
    assert_eq!(parse_hotkey_combo("x1+y2+a"), Err(HotkeyError::UnknownKey("x1".to_string())));
}

#[test]
fn apply_part_steps() {
    let start = (ModifierSet::none(), None);
    assert_eq!(apply_hotkey_part(start, "shift"), Ok((set(false, true, false, false), None)));
    assert_eq!(apply_hotkey_part(start, "tab"), Ok((ModifierSet::none(), Some(KeyCode::Tab))));
    assert_eq!(apply_hotkey_part(start, "zz"), Err(HotkeyError::UnknownKey("zz".to_string())));
}

#[test]
fn modifier_bits_are_global_hotkey_bits() {
    assert_eq!(set(true, false, false, false).bits(), Modifiers::CONTROL.bits());
    assert_eq!(set(false, true, false, false).bits(), Modifiers::SHIFT.bits());
    assert_eq!(set(false, false, true, false).bits(), Modifiers::ALT.bits());
    assert_eq!(set(false, false, false, true).bits(), Modifiers::SUPER.bits());
    assert_eq!(ModifierSet::none().bits(), 0);
    assert_eq!(ModifierSet::none().with(Modifier::Shift).with(Modifier::Control), set(true, true, false, false));
}

#[test]
fn parse_hotkey_builds_the_global_hotkey() {
    let hk = parse_hotkey("ctrl+shift+space").unwrap();
    assert_eq!(hk.mods, Modifiers::CONTROL | Modifiers::SHIFT);
    assert_eq!(hk.key, Code::Space);
    assert_eq!(hk.id(), HotKey::new(Some(Modifiers::CONTROL | Modifiers::SHIFT), Code::Space).id());
    let hk = parse_hotkey("win+F3").unwrap();
    assert_eq!(hk.mods, Modifiers::SUPER);
    assert_eq!(hk.key, Code::F3);
    assert!(parse_hotkey("ctrl").is_err());
    assert_eq!(parse_hotkey("alt+v").unwrap(), HotKey::new(Some(Modifiers::ALT), Code::KeyV));
    assert_eq!(parse_hotkey("super+space").unwrap(), HotKey::new(Some(Modifiers::SUPER), Code::Space));
    assert_eq!(parse_hotkey("v").unwrap(), HotKey::new(Some(Modifiers::empty()), Code::KeyV));
    assert_eq!(parse_hotkey("control+x").unwrap(), parse_hotkey("ctrl+x").unwrap());
    for m in ["meta", "cmd", "win"] {
        assert_eq!(parse_hotkey(&format!("{}+f2", m)).unwrap(), parse_hotkey("super+f2").unwrap());
    }
    assert_eq!(parse_hotkey(" Shift + CTRL + Space ").unwrap(), parse_hotkey("ctrl+shift+space").unwrap());
}

#[test]
fn tracker_press_and_release() {
    let mut t = PressTracker::new(7);
    assert!(!t.is_pressed());
    assert!(!t.observe_press(None));
    assert!(!t.observe_press(Some(HotkeyEvent { id: 8, state: KeyState::Pressed })));
    assert!(!t.observe_press(Some(HotkeyEvent { id: 7, state: KeyState::Released })));
    assert!(!t.is_pressed());
    assert!(t.observe_press(Some(HotkeyEvent { id: 7, state: KeyState::Pressed })));
    assert!(t.is_pressed());
    assert!(!t.observe_release(None));
    assert!(!t.observe_release(Some(HotkeyEvent { id: 9, state: KeyState::Released })));
    assert!(t.is_pressed());
    assert!(t.observe_release(Some(HotkeyEvent { id: 7, state: KeyState::Released })));
    assert!(!t.is_pressed());
    assert_eq!(t.hotkey_id(), 7);
}

#[test]
fn release_wait_ends_when_not_held() {
    let mut t = PressTracker::new(1);
    assert!(t.observe_release(None));
    assert!(!t.is_pressed());
}

#[test]
fn global_hotkey_of_a_combo() {
    let combo = KeyCombo { modifiers: set(true, true, false, false), key: KeyCode::Space };
    assert_eq!(
        to_global_hotkey(&combo),
        HotKey::new(Some(Modifiers::CONTROL | Modifiers::SHIFT), Code::Space)
    );
    let combo = KeyCombo { modifiers: ModifierSet::none(), key: KeyCode::F12 };
    assert_eq!(to_global_hotkey(&combo), HotKey::new(None, Code::F12));
}

#[test]
fn ascii_case_does_not_matter() {
    assert_eq!(parse_hotkey_combo("CTRL+Shift+SPACE"), parse_hotkey_combo("ctrl+shift+space"));
    assert_eq!(parse_key_code("Esc"), Ok(KeyCode::Escape));
    assert_eq!(parse_key_code("RETURN"), parse_key_code("enter"));
    assert_ne!(parse_key_code("tab"), parse_key_code("space"));
}

#[test]
fn parts_in_any_order_and_number() {
    assert_eq!(parse_hotkey_combo("space+ctrl+Shift+ctrl"), parse_hotkey_combo("ctrl+shift+space"));
    assert_eq!(parse_hotkey("v+SUPER").unwrap(), parse_hotkey("super+v").unwrap());
}
