//! Push-to-talk voice input: the verified core.
pub mod text;
pub mod hotkey;
pub mod hotkey_macos;
pub mod paths;
pub mod model;
pub mod daemon;
pub mod config;
pub mod transcription;
pub mod clipboard;
pub mod voice;
