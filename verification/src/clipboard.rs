//! Pasting text into the focused window: the clipboard and keyboard steps, in order.
use vstd::prelude::*;
use vstd::string::*;
use crate::config::Platform;

verus! {

/// A key pressed to paste.
#[derive(Clone, Copy, Debug, PartialEq, Eq, Structural)]
pub enum PasteKey {
    /// The Command key (macOS).
    Meta,
    /// The Control key.
    Control,
    /// The key that types this character.
    Unicode(char),
}

/// What is done to a key.
#[derive(Clone, Copy, Debug, PartialEq, Eq, Structural)]
pub enum KeyDirection {
    Press,
    Click,
    Release,
}

/// One step of pasting text.
#[derive(Clone, Debug, PartialEq, Eq)]
pub enum PasteAction {
    /// Keep what the clipboard holds now, if it holds text.
    SaveClipboard,
    /// Put this text on the clipboard; failing to do so fails the paste.
    SetClipboard(String),
    /// Wait this many milliseconds.
    SleepMillis(u64),
    /// Do this to this key; failing to do so fails the paste.
    Key(PasteKey, KeyDirection),
    /// Put back what was kept, if anything was; a failure here is only reported.
    RestoreClipboard,
}

/// A `PasteAction` as plain values.
pub enum PasteActionView {
    SaveClipboard,
    SetClipboard(Seq<char>),
    SleepMillis(u64),
    Key(PasteKey, KeyDirection),
    RestoreClipboard,
}

impl View for PasteAction {
    type V = PasteActionView;

    open spec fn view(&self) -> PasteActionView {
        match self {
            PasteAction::SaveClipboard => PasteActionView::SaveClipboard,
            PasteAction::SetClipboard(s) => PasteActionView::SetClipboard(s@),
            PasteAction::SleepMillis(ms) => PasteActionView::SleepMillis(*ms),
            PasteAction::Key(k, d) => PasteActionView::Key(*k, *d),
            PasteAction::RestoreClipboard => PasteActionView::RestoreClipboard,
        }
    }
}

/// The modifier that the paste shortcut holds: Command on macOS, Control elsewhere.
pub open spec fn paste_modifier(platform: Platform) -> PasteKey {
    match platform {
        Platform::MacOS => PasteKey::Meta,
        Platform::Other => PasteKey::Control,
    }
}

/// The steps that paste `text`: none for empty text; otherwise keep the clipboard, put the
/// text on it, wait 50 ms, type the paste shortcut, wait 100 ms, and put the clipboard back.
pub open spec fn paste_plan(text: Seq<char>, platform: Platform) -> Seq<PasteActionView> {
    if text.len() == 0 {
        Seq::empty()
    } else {
        seq![
            PasteActionView::SaveClipboard,
            PasteActionView::SetClipboard(text),
            PasteActionView::SleepMillis(50),
            PasteActionView::Key(paste_modifier(platform), KeyDirection::Press),
            PasteActionView::Key(PasteKey::Unicode('v'), KeyDirection::Click),
            PasteActionView::Key(paste_modifier(platform), KeyDirection::Release),
            PasteActionView::SleepMillis(100),
            PasteActionView::RestoreClipboard,
        ]
    }
}

/// The views of a sequence of paste steps.
pub open spec fn action_views(v: Seq<PasteAction>) -> Seq<PasteActionView> {
    v.map_values(|a: PasteAction| a@)
}

/// The steps that paste `text` on `platform`.
pub fn paste_actions(text: &str, platform: Platform) -> (r: Vec<PasteAction>)
    ensures
        action_views(r@) == paste_plan(text@, platform),
{
    let mut v: Vec<PasteAction> = Vec::new();
    if text.is_empty() {
        assert(action_views(v@) =~= Seq::<PasteActionView>::empty());
        return v;
    }
    let modifier = match platform {
        Platform::MacOS => PasteKey::Meta,
        Platform::Other => PasteKey::Control,
    };
    v.push(PasteAction::SaveClipboard);
    v.push(PasteAction::SetClipboard(String::from_str(text)));
    v.push(PasteAction::SleepMillis(50));
    v.push(PasteAction::Key(modifier, KeyDirection::Press));
    v.push(PasteAction::Key(PasteKey::Unicode('v'), KeyDirection::Click));
    v.push(PasteAction::Key(modifier, KeyDirection::Release));
    v.push(PasteAction::SleepMillis(100));
    v.push(PasteAction::RestoreClipboard);
    assert(action_views(v@) =~= paste_plan(text@, platform));
    v
}

/// Pasting leaves the clipboard as it found it: whenever text is put on the clipboard,
/// what the clipboard held is kept first and put back as the last step, after the
/// shortcut's modifier is released; and empty text touches nothing. The shortcut typed is
/// the platform's paste shortcut: Command+V on macOS, Control+V elsewhere, after a 50 ms
/// wait for the clipboard and before a 100 ms wait for the paste.
pub proof fn lemma_paste_restores_clipboard(text: Seq<char>, platform: Platform)
    ensures
        text.len() == 0 <==> paste_plan(text, platform).len() == 0,
        text.len() > 0 ==> {
            let plan = paste_plan(text, platform);
            &&& plan[0] == PasteActionView::SaveClipboard
            &&& plan[1] == PasteActionView::SetClipboard(text)
            &&& plan.last() == PasteActionView::RestoreClipboard
            &&& plan[2] == PasteActionView::SleepMillis(50)
            &&& plan[4] == PasteActionView::Key(PasteKey::Unicode('v'), KeyDirection::Click)
            &&& plan[6] == PasteActionView::SleepMillis(100)
            &&& platform == Platform::MacOS ==> plan[3] == PasteActionView::Key(
                PasteKey::Meta,
                KeyDirection::Press,
            ) && plan[5] == PasteActionView::Key(PasteKey::Meta, KeyDirection::Release)
            &&& platform == Platform::Other ==> plan[3] == PasteActionView::Key(
                PasteKey::Control,
                KeyDirection::Press,
            ) && plan[5] == PasteActionView::Key(PasteKey::Control, KeyDirection::Release)
            &&& forall|i: int|
                1 < i < plan.len() ==> !(#[trigger] plan[i] is SetClipboard)
        },
{
}

} // verus!
