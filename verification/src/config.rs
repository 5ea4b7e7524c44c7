//! The user's settings: the API key, the transcription model and language,
//! and the recording shortcut. Reading and writing the settings file happens
//! outside the library.
use vstd::prelude::*;

verus! {

/// The user's settings.
#[derive(Debug, Clone)]
pub struct Config {
    pub api_key: Option<String>,
    pub model: String,
    pub language: String,
    pub hotkey: String,
}

/// The model used when none is configured.
pub fn default_model() -> (model: String)
    ensures
        model@ == "whisper-1"@,
{
    String::from_str("whisper-1")
}

/// The language used when none is configured.
pub fn default_language() -> (language: String)
    ensures
        language@ == "en"@,
{
    String::from_str("en")
}

/// The recording shortcut used when none is configured.
pub fn default_hotkey() -> (hotkey: String)
    ensures
        hotkey@ == "ctrl+shift+cmd+space"@,
{
    String::from_str("ctrl+shift+cmd+space")
}

/// The settings hold a non-empty API key.
pub open spec fn holds_api_key(config: Config) -> bool {
    match config.api_key {
        Some(k) => k@.len() > 0,
        None => false,
    }
}

/// Whether an API key counts as set depends on nothing but whether it is
/// empty: no key and the empty key do not count, and every other key counts,
/// whatever its length or content.
pub proof fn lemma_any_non_empty_key_is_set(config: Config)
    ensures
        config.api_key is None ==> !holds_api_key(config),
        forall|k: String|
            config.api_key == Some(k) ==> (holds_api_key(config) <==> #[trigger] k@.len() != 0),
{
}

impl Config {
    /// Whether a non-empty API key is set.
    pub fn has_api_key(&self) -> (has: bool)
        ensures
            has == holds_api_key(*self),
    {
        match &self.api_key {
            Some(k) => !k.as_str().is_empty(),
            None => false,
        }
    }
}

impl Default for Config {
    /// No API key, model `whisper-1`, language `en`, shortcut
    /// `ctrl+shift+cmd+space`.
    fn default() -> (config: Self)
        ensures
            config.api_key is None,
            config.model@ == "whisper-1"@,
            config.language@ == "en"@,
            config.hotkey@ == "ctrl+shift+cmd+space"@,
    {
        Config {
            api_key: None,
            model: default_model(),
            language: default_language(),
            hotkey: default_hotkey(),
        }
    }
}

} // verus!
