//! Whispy's core: the dictation cycle, the transcription history, the
//! shortcut handling, the settings and the pages of the preferences and
//! history windows. Recording, the network, the clipboard, windows and files
//! are handled by the application around this library.
pub mod app;
pub mod config;
pub mod history;
pub mod history_html;
pub mod history_window;
pub mod hotkey;
pub mod http_status;
pub mod overlay_html;
pub mod permissions;
pub mod preferences;
pub mod preferences_html;
pub mod routing;
pub mod text;
pub mod transcribe;
