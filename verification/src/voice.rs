//! The push-to-talk cycle: wait for the hotkey, record while it is held, transcribe, paste.
use vstd::prelude::*;
use vstd::string::*;

verus! {

/// What just happened in the push-to-talk cycle.
#[derive(Clone, Debug, PartialEq, Eq)]
pub enum VoiceEvent {
    /// The cycle starts, or starts over.
    Ready,
    /// The hotkey went down.
    HotkeyPressed,
    /// The hotkey came up after this many samples were recorded.
    Captured(usize),
    /// The recording was transcribed to this text.
    Transcribed(String),
    /// The text was pasted.
    Pasted,
}

/// What to do next in the push-to-talk cycle.
#[derive(Clone, Debug, PartialEq, Eq)]
pub enum VoiceAction {
    /// Wait for the hotkey to go down.
    WaitForPress,
    /// Record while the hotkey is held.
    Capture,
    /// Report that nothing was recorded, then wait for the hotkey again.
    ReportNoAudio,
    /// Transcribe the recording.
    Transcribe,
    /// Report that no speech was heard, then wait for the hotkey again.
    ReportNoSpeech,
    /// Paste this text into the focused window.
    Paste(String),
}

/// A `VoiceEvent` as plain values.
pub enum VoiceEventView {
    Ready,
    HotkeyPressed,
    Captured(usize),
    Transcribed(Seq<char>),
    Pasted,
}

/// A `VoiceAction` as plain values.
pub enum VoiceActionView {
    WaitForPress,
    Capture,
    ReportNoAudio,
    Transcribe,
    ReportNoSpeech,
    Paste(Seq<char>),
}

impl View for VoiceEvent {
    type V = VoiceEventView;

    open spec fn view(&self) -> VoiceEventView {
        match self {
            VoiceEvent::Ready => VoiceEventView::Ready,
            VoiceEvent::HotkeyPressed => VoiceEventView::HotkeyPressed,
            VoiceEvent::Captured(n) => VoiceEventView::Captured(*n),
            VoiceEvent::Transcribed(t) => VoiceEventView::Transcribed(t@),
            VoiceEvent::Pasted => VoiceEventView::Pasted,
        }
    }
}

impl View for VoiceAction {
    type V = VoiceActionView;

    open spec fn view(&self) -> VoiceActionView {
        match self {
            VoiceAction::WaitForPress => VoiceActionView::WaitForPress,
            VoiceAction::Capture => VoiceActionView::Capture,
            VoiceAction::ReportNoAudio => VoiceActionView::ReportNoAudio,
            VoiceAction::Transcribe => VoiceActionView::Transcribe,
            VoiceAction::ReportNoSpeech => VoiceActionView::ReportNoSpeech,
            VoiceAction::Paste(t) => VoiceActionView::Paste(t@),
        }
    }
}

/// The action that follows an event: after the hotkey goes down, record; an empty
/// recording is reported and skipped, as is an empty transcription; other text is pasted;
/// after a paste, or at the start, wait for the hotkey.
pub open spec fn next_action_of(event: VoiceEventView) -> VoiceActionView {
    match event {
        VoiceEventView::Ready => VoiceActionView::WaitForPress,
        VoiceEventView::HotkeyPressed => VoiceActionView::Capture,
        VoiceEventView::Captured(n) => if n == 0 {
            VoiceActionView::ReportNoAudio
        } else {
            VoiceActionView::Transcribe
        },
        VoiceEventView::Transcribed(t) => if t.len() == 0 {
            VoiceActionView::ReportNoSpeech
        } else {
            VoiceActionView::Paste(t)
        },
        VoiceEventView::Pasted => VoiceActionView::WaitForPress,
    }
}

/// The action that follows `event`.
pub fn next_action(event: VoiceEvent) -> (r: VoiceAction)
    ensures
        r@ == next_action_of(event@),
        r@ matches VoiceActionView::Paste(t) ==> t.len() > 0,
{
    match event {
        VoiceEvent::Ready => VoiceAction::WaitForPress,
        VoiceEvent::HotkeyPressed => VoiceAction::Capture,
        VoiceEvent::Captured(n) => if n == 0 {
            VoiceAction::ReportNoAudio
        } else {
            VoiceAction::Transcribe
        },
        VoiceEvent::Transcribed(t) => if t.as_str().is_empty() {
            VoiceAction::ReportNoSpeech
        } else {
            VoiceAction::Paste(t)
        },
        VoiceEvent::Pasted => VoiceAction::WaitForPress,
    }
}

/// The cycle records after each press of the hotkey, transcribes a recording exactly when
/// it holds samples, pastes exactly the text heard when there is any, and otherwise, or
/// after a paste, goes back to waiting for the hotkey (after reporting why).
pub proof fn lemma_voice_cycle(n: usize, t: Seq<char>)
    ensures
        next_action_of(VoiceEventView::HotkeyPressed) == VoiceActionView::Capture,
        next_action_of(VoiceEventView::Captured(n)) == VoiceActionView::Transcribe <==> n > 0,
        next_action_of(VoiceEventView::Captured(n)) == VoiceActionView::ReportNoAudio <==> n == 0,
        next_action_of(VoiceEventView::Transcribed(t)) == VoiceActionView::Paste(t) <==> t.len() > 0,
        next_action_of(VoiceEventView::Transcribed(t)) == VoiceActionView::ReportNoSpeech <==> t.len()
            == 0,
        next_action_of(VoiceEventView::Pasted) == VoiceActionView::WaitForPress,
        next_action_of(VoiceEventView::Ready) == VoiceActionView::WaitForPress,
{
}

} // verus!
