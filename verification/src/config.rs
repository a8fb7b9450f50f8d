//! The daemon's settings and the platform it runs on.
use vstd::prelude::*;
use vstd::string::*;
use crate::hotkey::{
    global_hotkey_of, hotkey_combo, hotkey_from, lemma_hotkey_written_out, HotkeyErrorView, KeyCode,
    KeyCombo, ModifierSet,
};
use crate::hotkey_macos::{lemma_mac_hotkey_written_out, mac_hotkey, FLAG_COMMAND, FLAG_SHIFT};
use crate::text::join_with;

verus! {

/// The platform the tool runs on, where its behaviour differs by platform.
#[derive(Clone, Copy, Debug, PartialEq, Eq, Structural)]
pub enum Platform {
    MacOS,
    Other,
}

/// The settings the voice input daemon runs with.
#[derive(Clone, Debug)]
pub struct Config {
    /// The Whisper model size: tiny, base, small, medium or large.
    pub model_size: String,
    /// The hotkey, such as `ctrl+shift+space`.
    pub hotkey: String,
    /// Whether to run in the foreground rather than as a daemon.
    pub foreground: bool,
}

/// The hotkey used when none is given: Command+Shift+V on macOS, Ctrl+Shift+Space elsewhere.
pub open spec fn default_hotkey_text(platform: Platform) -> Seq<char> {
    match platform {
        Platform::MacOS => "super+shift+v"@,
        Platform::Other => "ctrl+shift+space"@,
    }
}

/// The hotkey used when none is given.
pub fn default_hotkey(platform: Platform) -> (r: String)
    ensures
        r@ == default_hotkey_text(platform),
{
    match platform {
        Platform::MacOS => String::from_str("super+shift+v"),
        Platform::Other => String::from_str("ctrl+shift+space"),
    }
}

/// The default hotkeys parse as documented: Ctrl+Shift+Space, which is the `global_hotkey`
/// hotkey with Control and Shift and the key `Space`; and on macOS Command+Shift+V, virtual
/// key code 0x09 with the Command and Shift flags.
pub proof fn lemma_default_hotkeys_parse()
    ensures
        hotkey_combo(default_hotkey_text(Platform::Other)) == Ok::<KeyCombo, HotkeyErrorView>(
            KeyCombo {
                modifiers: ModifierSet { control: true, shift: true, alt: false, super_key: false },
                key: KeyCode::Space,
            },
        ),
        global_hotkey_of(
            KeyCombo {
                modifiers: ModifierSet { control: true, shift: true, alt: false, super_key: false },
                key: KeyCode::Space,
            },
        ) == hotkey_from(0x208, "Space"@),
        mac_hotkey(default_hotkey_text(Platform::MacOS)) == Ok::<(u16, u64), HotkeyErrorView>(
            (0x09u16, (FLAG_COMMAND + FLAG_SHIFT) as u64),
        ),
{
    crate::hotkey::lemma_key_name_chars();
    reveal_strlit("ctrl+shift+space");
    reveal_strlit("ctrl");
    reveal_strlit("shift");
    reveal_strlit("space");
    reveal_strlit("super+shift+v");
    reveal_strlit("super");
    reveal_strlit("v");
    let linux = seq!["ctrl"@, "shift"@];
    let lp = linux.push("space"@);
    assert(lp.drop_last() =~= linux);
    assert(linux.drop_last() =~= seq!["ctrl"@]);
    assert(join_with(seq!["ctrl"@], '+') == "ctrl"@);
    assert(join_with(linux, '+') == "ctrl"@ + seq!['+'] + "shift"@);
    assert(join_with(lp, '+') == "ctrl"@ + seq!['+'] + "shift"@ + seq!['+'] + "space"@);
    assert("ctrl"@ + seq!['+'] + "shift"@ + seq!['+'] + "space"@ =~= "ctrl+shift+space"@);
    assert forall|i: int| 0 <= i < linux.len() implies crate::hotkey::modifier_named(
        #[trigger] linux[i],
    ) is Some by {}
    lemma_hotkey_written_out(linux, "space"@);
    assert(seq!["ctrl"@].drop_last() =~= Seq::<Seq<char>>::empty());
    assert(seq!["ctrl"@].last() == "ctrl"@);
    assert(crate::hotkey::modifiers_named(Seq::<Seq<char>>::empty()) == ModifierSet::spec_none());
    assert(crate::hotkey::modifiers_named(seq!["ctrl"@]) == ModifierSet::spec_none().spec_with(
        crate::hotkey::Modifier::Control,
    ));
    let mac = seq!["super"@, "shift"@];
    let mp = mac.push("v"@);
    assert(mp.drop_last() =~= mac);
    assert(mac.drop_last() =~= seq!["super"@]);
    assert(join_with(seq!["super"@], '+') == "super"@);
    assert(join_with(mac, '+') == "super"@ + seq!['+'] + "shift"@);
    assert(join_with(mp, '+') == "super"@ + seq!['+'] + "shift"@ + seq!['+'] + "v"@);
    assert("super"@ + seq!['+'] + "shift"@ + seq!['+'] + "v"@ =~= "super+shift+v"@);
    assert forall|i: int| 0 <= i < mac.len() implies crate::hotkey_macos::mac_modifier_named(
        #[trigger] mac[i],
    ) is Some by {}
    lemma_mac_hotkey_written_out(mac, "v"@);
    assert(seq!["super"@].drop_last() =~= Seq::<Seq<char>>::empty());
    assert(seq!["super"@].last() == "super"@);
    assert(crate::hotkey_macos::mac_modifiers_named(Seq::<Seq<char>>::empty())
        == ModifierSet::spec_none());
    assert(crate::hotkey_macos::mac_modifiers_named(seq!["super"@])
        == ModifierSet::spec_none().spec_with(crate::hotkey::Modifier::Super));
}

} // verus!
