# code-voice

Push-to-talk voice input for terminal workflows: hold a hotkey, speak, release, and the
speech is transcribed locally with Whisper and pasted into the focused window.

The crate is split in two:

- `src/` is the verified library, checked with Verus. It holds the logic: parsing hotkey
  strings (for `global_hotkey` on Linux and Windows, and for macOS key events), matching key
  events, tracking whether the hotkey is held, the push-to-talk cycle, the paste steps, the
  locations of models, PID file and logs, PID file parsing, the daemon's status text, and the
  decimation of samples and the joining of transcribed segments.
- `app/` is the program around it: the command line, audio capture, Whisper, the clipboard
  and keyboard, the daemon's process handling and the macOS menu bar app.

Files are kept in `~/.code-voice/` (`models/`, `logs/`, `daemon.pid`).
