use whispy::config::{default_hotkey, default_language, default_model, Config};
use whispy::preferences::apply_saved_settings;

#[test]
fn defaults() {
    let c = Config::default();
    assert_eq!(c.api_key, None);
    assert_eq!(c.model, "whisper-1");
    assert_eq!(c.language, "en");
    assert_eq!(c.hotkey, "ctrl+shift+cmd+space");
    assert_eq!(default_model(), "whisper-1");
    assert_eq!(default_language(), "en");
    assert_eq!(default_hotkey(), "ctrl+shift+cmd+space");
}

#[test]
fn api_key_must_be_non_empty() {
    let mut c = Config::default();
    assert!(!c.has_api_key());
    c.api_key = Some(String::new());
    assert!(!c.has_api_key());
    c.api_key = Some("sk-abc".to_string());
    assert!(c.has_api_key());
    c.api_key = Some(" ".to_string());
    assert!(c.has_api_key());
}

#[test]
fn saving_preferences_replaces_every_field() {
    let c = Config::default();
    let saved = apply_saved_settings(
        c,
        String::new(),
        "gpt-4o-transcribe".to_string(),
        "auto".to_string(),
        "cmd+shift+space".to_string(),
    );
    assert_eq!(saved.api_key, Some(String::new()));
    assert!(!saved.has_api_key());
    assert_eq!(saved.model, "gpt-4o-transcribe");
    assert_eq!(saved.language, "auto");
    assert_eq!(saved.hotkey, "cmd+shift+space");
}
