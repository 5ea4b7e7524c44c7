# whispy

Whispy is a macOS menu-bar dictation tool: hold a shortcut, speak, and the
transcription from OpenAI's speech-to-text service is pasted at the cursor.

- `src/` is the verified library: the dictation cycle (`app`), the settings
  (`config`), the transcription history and its ordering, ids and limits
  (`history`, `history_window`), the shortcuts (`hotkey`), the preferences
  requests and page (`preferences`, `preferences_html`), the service answers
  (`transcribe`, `http_status`), the permissions report (`permissions`),
  request routing (`routing`) and the character-level helpers they share
  (`text`).
- `app/` is the program around it: microphone capture and WAV encoding, the
  network requests, the clipboard and simulated paste, the global shortcut
  registration, the tray, windows and overlay, and the settings and history
  files.
- `tests/` exercises the library on concrete values.
