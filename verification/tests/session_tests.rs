use code_voice::clipboard::{paste_actions, KeyDirection, PasteAction, PasteKey};
use code_voice::config::{default_hotkey, Config, Platform};
use code_voice::transcription::{join_segments, resample_to_16khz, threads_for, transcription_threads};
use code_voice::voice::{next_action, VoiceAction, VoiceEvent};

#[test]
fn default_hotkeys() {
    assert_eq!(default_hotkey(Platform::MacOS), "super+shift+v");
    assert_eq!(default_hotkey(Platform::Other), "ctrl+shift+space");
}

#[test]
fn config_holds_settings() {
    let c = Config { model_size: "base".to_string(), hotkey: default_hotkey(Platform::Other), foreground: true };
    let d = c.clone();
    assert_eq!(d.model_size, "base");
    assert!(d.foreground);
}

#[test]
fn resample_keeps_every_third_sample() {
    let samples: Vec<f32> = (0..10).map(|i| i as f32).collect();
    assert_eq!(resample_to_16khz(&samples), vec![0.0, 3.0, 6.0, 9.0]);
    assert_eq!(resample_to_16khz(&samples[..9]), vec![0.0, 3.0, 6.0]);
    let empty: Vec<f32> = Vec::new();
    assert!(resample_to_16khz(&empty).is_empty());
    assert_eq!(resample_to_16khz(&[5.5f32]), vec![5.5]);
}

#[test]
fn segments_are_joined_and_trimmed() {
    let segs = vec![" Hello".to_string(), " world.".to_string()];
    assert_eq!(join_segments(&segs), "Hello  world.");
    assert_eq!(join_segments(&Vec::new()), "");
    assert_eq!(join_segments(&vec!["  ".to_string()]), "");
}

#[test]
fn thread_count() {
    assert!(transcription_threads() >= 1);
    assert_eq!(threads_for(8), 8);
}

#[test]
fn paste_steps_on_linux() {
    let plan = paste_actions("hi", Platform::Other);
    assert_eq!(
        plan,
        vec![
            PasteAction::SaveClipboard,
            PasteAction::SetClipboard("hi".to_string()),
            PasteAction::SleepMillis(50),
            PasteAction::Key(PasteKey::Control, KeyDirection::Press),
            PasteAction::Key(PasteKey::Unicode('v'), KeyDirection::Click),
            PasteAction::Key(PasteKey::Control, KeyDirection::Release),
            PasteAction::SleepMillis(100),
            PasteAction::RestoreClipboard,
        ]
    );
}

#[test]
fn paste_steps_on_macos_use_command() {
    let plan = paste_actions("x", Platform::MacOS);
    assert_eq!(plan[3], PasteAction::Key(PasteKey::Meta, KeyDirection::Press));
    assert_eq!(plan[5], PasteAction::Key(PasteKey::Meta, KeyDirection::Release));
    assert_eq!(plan.last(), Some(&PasteAction::RestoreClipboard));
}

#[test]
fn nothing_is_pasted_for_empty_text() {
    assert!(paste_actions("", Platform::Other).is_empty());
}

#[test]
fn push_to_talk_cycle() {
    assert_eq!(next_action(VoiceEvent::Ready), VoiceAction::WaitForPress);
    assert_eq!(next_action(VoiceEvent::HotkeyPressed), VoiceAction::Capture);
    assert_eq!(next_action(VoiceEvent::Captured(0)), VoiceAction::ReportNoAudio);
    assert_eq!(next_action(VoiceEvent::Captured(480)), VoiceAction::Transcribe);
    assert_eq!(next_action(VoiceEvent::Transcribed(String::new())), VoiceAction::ReportNoSpeech);
    assert_eq!(
        next_action(VoiceEvent::Transcribed("hello".to_string())),
        VoiceAction::Paste("hello".to_string())
    );
    assert_eq!(next_action(VoiceEvent::Pasted), VoiceAction::WaitForPress);
}
