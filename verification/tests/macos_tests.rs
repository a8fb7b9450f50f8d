use code_voice::hotkey::HotkeyError;
use code_voice::hotkey_macos::{
    parse_hotkey_macos, parse_key_code_macos, KeyEventKind, MacOSHotkeyManager, FLAG_ALTERNATE,
    FLAG_COMMAND, FLAG_CONTROL, FLAG_SHIFT,
};

const CAPS_LOCK: u64 = 0x0001_0000;

#[test]
fn default_macos_hotkey_parses() {
    assert_eq!(parse_hotkey_macos("super+shift+v"), Ok((0x09, FLAG_COMMAND | FLAG_SHIFT)));
}

#[test]
fn macos_modifier_aliases() {
    assert_eq!(parse_hotkey_macos("option+a"), Ok((0x00, FLAG_ALTERNATE)));
    assert_eq!(parse_hotkey_macos("alt+a"), Ok((0x00, FLAG_ALTERNATE)));
    assert_eq!(parse_hotkey_macos("command+b"), Ok((0x0B, FLAG_COMMAND)));
    assert_eq!(parse_hotkey_macos("cmd+b"), Ok((0x0B, FLAG_COMMAND)));
    assert_eq!(parse_hotkey_macos("meta+v"), Ok((0x09, FLAG_COMMAND)));
    assert_eq!(parse_hotkey_macos("control+space"), Ok((0x31, FLAG_CONTROL)));
    assert_eq!(parse_hotkey_macos("Ctrl + Shift + Return"), Ok((0x24, FLAG_CONTROL | FLAG_SHIFT)));
}

#[test]
fn macos_key_codes() {
    let table = [
        ("a", 0x00), ("b", 0x0B), ("c", 0x08), ("d", 0x02), ("e", 0x0E), ("f", 0x03), ("g", 0x05),
        ("h", 0x04), ("i", 0x22), ("j", 0x26), ("k", 0x28), ("l", 0x25), ("m", 0x2E), ("n", 0x2D),
        ("o", 0x1F), ("p", 0x23), ("q", 0x0C), ("r", 0x0F), ("s", 0x01), ("t", 0x11), ("u", 0x20),
        ("v", 0x09), ("w", 0x0D), ("x", 0x07), ("y", 0x10), ("z", 0x06), ("0", 0x1D), ("1", 0x12),
        ("2", 0x13), ("3", 0x14), ("4", 0x15), ("5", 0x17), ("6", 0x16), ("7", 0x1A), ("8", 0x1C),
        ("9", 0x19), ("space", 0x31), ("enter", 0x24), ("return", 0x24), ("tab", 0x30),
        ("escape", 0x35), ("esc", 0x35), ("backspace", 0x33),
    ];
    for (name, code) in table {
        assert_eq!(parse_key_code_macos(name), Ok(code), "{}", name);
    }
    assert_eq!(parse_key_code_macos("V"), Ok(0x09));
    let fkeys = [0x7A, 0x78, 0x63, 0x76, 0x60, 0x61, 0x62, 0x64, 0x65, 0x6D, 0x67, 0x6F];
    for (i, code) in fkeys.iter().enumerate() {
        assert_eq!(parse_key_code_macos(&format!("f{}", i + 1)), Ok(*code));
    }
    assert_eq!(parse_hotkey_macos("cmd+f1"), Ok((0x7A, FLAG_COMMAND)));
}

#[test]
fn macos_unknown_key() {
    let e = parse_hotkey_macos("cmd+F13").unwrap_err();
    assert_eq!(e, HotkeyError::UnknownKeyName("f13".to_string()));
    assert_eq!(e.message(), "Unknown key: f13");
    assert_eq!(parse_hotkey_macos("win+a"), Err(HotkeyError::UnknownKeyName("win".to_string())));
    assert_eq!(parse_hotkey_macos("shift"), Err(HotkeyError::NoKeyCode));
}

#[test]
fn manager_matches_events() {
    let m = MacOSHotkeyManager::new("super+shift+v").unwrap();
    assert_eq!(m.key_code(), 0x09);
    assert_eq!(m.modifiers(), FLAG_COMMAND | FLAG_SHIFT);
    assert!(!m.is_pressed());
    assert!(m.matches_event(0x09, FLAG_COMMAND | FLAG_SHIFT));
    assert!(m.matches_event(0x09, FLAG_COMMAND | FLAG_SHIFT | CAPS_LOCK));
    assert!(!m.matches_event(0x09, FLAG_COMMAND));
    assert!(!m.matches_event(0x09, FLAG_COMMAND | FLAG_SHIFT | FLAG_CONTROL));
    assert!(!m.matches_event(0x0B, FLAG_COMMAND | FLAG_SHIFT));
}

#[test]
fn manager_tracks_key_events() {
    let mut m = MacOSHotkeyManager::new("ctrl+space").unwrap();
    m.handle_key_event(KeyEventKind::KeyDown, 0x31, FLAG_SHIFT);
    assert!(!m.is_pressed());
    m.handle_key_event(KeyEventKind::KeyDown, 0x31, FLAG_CONTROL);
    assert!(m.is_pressed());
    m.handle_key_event(KeyEventKind::Other, 0x31, FLAG_CONTROL);
    assert!(m.is_pressed());
    m.handle_key_event(KeyEventKind::KeyUp, 0x31, FLAG_CONTROL | CAPS_LOCK);
    assert!(!m.is_pressed());
    m.set_pressed(true);
    assert!(m.is_pressed());
    m.handle_key_event(KeyEventKind::KeyUp, 0x30, 0);
    assert!(m.is_pressed());
    m.handle_key_event(KeyEventKind::KeyUp, 0x31, 0);
    assert!(!m.is_pressed());
}

#[test]
fn manager_refuses_bad_hotkey() {
    assert!(MacOSHotkeyManager::new("ctrl+nope").is_err());
}
