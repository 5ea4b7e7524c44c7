//! The dictation cycle: idle, recording, transcribing, and back to idle.
//! Each step takes what the outside world reported (the reloaded settings,
//! whether the microphone started, whether audio was captured, what the
//! transcription service answered) and says what the application does next.
use vstd::prelude::*;
use crate::config::{holds_api_key, Config};
use crate::text::{contains_text, escape_double_quotes, escape_quotes, has_substring, prefixed};

verus! {

/// Where the dictation cycle stands.
#[derive(Debug, Clone, Copy, PartialEq, Eq, Structural)]
pub enum Phase {
    Idle,
    Recording,
    Transcribing,
}

/// Events delivered to the event loop from the transcription worker.
#[derive(Debug)]
pub enum UserEvent {
    TranscriptionComplete(Result<String, String>),
}

impl Clone for UserEvent {
    fn clone(&self) -> (copy: Self)
        ensures
            copy == *self,
    {
        match self {
            UserEvent::TranscriptionComplete(Ok(text)) => UserEvent::TranscriptionComplete(
                Ok(text.clone()),
            ),
            UserEvent::TranscriptionComplete(Err(message)) => UserEvent::TranscriptionComplete(
                Err(message.clone()),
            ),
        }
    }
}

/// What pressing the recording shortcut asks of the application.
#[derive(Debug, Clone, Copy, PartialEq, Eq, Structural)]
pub enum ToggleStep {
    /// Reload the settings, then call `AppState::start_recording`.
    BeginStart,
    /// Show the transcribing tray state, stop the microphone, then call
    /// `AppState::capture_ended`.
    EndCapture,
    /// A transcription is under way: the shortcut is ignored.
    Ignore,
}

/// What starting a recording asks of the application.
pub enum StartStep {
    /// Open the microphone, then call `AppState::recording_started`.
    OpenMicrophone,
    /// Show this notification; nothing is recorded.
    Notify(String),
}

/// What the application does with a finished transcription.
pub enum TranscriptionOutcome {
    /// Paste this text at the cursor.
    Paste(String),
    /// Show this notification.
    Notify(String),
}

/// What the recording overlay does on each tick of the event loop.
#[derive(Debug, Clone, Copy, PartialEq, Eq, Structural)]
pub enum OverlayCommand {
    /// Show the overlay (without taking focus) and refresh its level bars.
    ShowLevels,
    /// Leave it as it is (it shows the processing state).
    Keep,
    /// Hide it.
    Hide,
}

/// The overlay follows the phase: levels while recording, unchanged while
/// transcribing, hidden when idle.
pub fn overlay_command(phase: Phase) -> (command: OverlayCommand)
    ensures
        phase == Phase::Recording <==> command == OverlayCommand::ShowLevels,
        phase == Phase::Transcribing <==> command == OverlayCommand::Keep,
        phase == Phase::Idle <==> command == OverlayCommand::Hide,
{
    match phase {
        Phase::Recording => OverlayCommand::ShowLevels,
        Phase::Transcribing => OverlayCommand::Keep,
        Phase::Idle => OverlayCommand::Hide,
    }
}

/// What the overlay window does when it is asked to be shown or hidden.
#[derive(Debug, Clone, Copy, PartialEq, Eq, Structural)]
pub enum WindowChange {
    /// Bring it up without taking focus.
    Reveal,
    /// Take it down and reset its level bars.
    Conceal,
    /// Nothing: it already is as asked.
    Unchanged,
}

/// The overlay, visible or not, is asked to be shown (`show`) or hidden: the
/// window changes only when it is not already as asked, and the second value
/// is whether it is visible afterwards.
pub fn overlay_visibility(visible: bool, show: bool) -> (step: (WindowChange, bool))
    ensures
        step.1 == show,
        step.0 == (if visible == show {
            WindowChange::Unchanged
        } else if show {
            WindowChange::Reveal
        } else {
            WindowChange::Conceal
        }),
{
    if visible == show {
        (WindowChange::Unchanged, visible)
    } else if show {
        (WindowChange::Reveal, true)
    } else {
        (WindowChange::Conceal, false)
    }
}

/// The application's dictation state: the phase and the current settings.
pub struct AppState {
    pub phase: Phase,
    pub config: Config,
}

impl AppState {
    /// A fresh state: idle, with the given settings.
    pub fn new(config: Config) -> (state: Self)
        ensures
            state.phase == Phase::Idle,
            state.config == config,
    {
        AppState { phase: Phase::Idle, config }
    }

    /// Takes the settings that were read again, when reading succeeded.
    pub fn reload_config(&mut self, loaded: Option<Config>)
        ensures
            final(self).phase == old(self).phase,
            final(self).config == match loaded {
                Some(c) => c,
                None => old(self).config,
            },
    {
        if let Some(config) = loaded {
            self.config = config;
        }
    }

    /// The recording shortcut was pressed.
    pub fn toggle_recording(&mut self) -> (step: ToggleStep)
        ensures
            final(self).config == old(self).config,
            old(self).phase == Phase::Idle ==> step == ToggleStep::BeginStart && final(self).phase
                == Phase::Idle,
            old(self).phase == Phase::Recording ==> step == ToggleStep::EndCapture
                && final(self).phase == Phase::Transcribing,
            old(self).phase == Phase::Transcribing ==> step == ToggleStep::Ignore
                && final(self).phase == Phase::Transcribing,
    {
        match self.phase {
            Phase::Idle => ToggleStep::BeginStart,
            Phase::Recording => {
                self.phase = Phase::Transcribing;
                ToggleStep::EndCapture
            },
            Phase::Transcribing => ToggleStep::Ignore,
        }
    }

    /// Starting a recording, with the settings read again (when reading
    /// succeeded): without an API key the user is asked to set one.
    pub fn start_recording(&mut self, reloaded: Option<Config>) -> (step: StartStep)
        ensures
            final(self).phase == old(self).phase,
            final(self).config == match reloaded {
                Some(c) => c,
                None => old(self).config,
            },
            step is OpenMicrophone <==> holds_api_key(final(self).config),
            step matches StartStep::Notify(m) ==> m@
                == "Please set your OpenAI API key in Preferences."@,
    {
        self.reload_config(reloaded);
        if !self.config.has_api_key() {
            return StartStep::Notify(
                String::from_str("Please set your OpenAI API key in Preferences."),
            );
        }
        StartStep::OpenMicrophone
    }

    /// The microphone was opened (`Ok`) or failed with the given error.
    pub fn recording_started(&mut self, opened: Result<(), String>) -> (notice: Option<String>)
        ensures
            final(self).config == old(self).config,
            opened is Ok ==> final(self).phase == Phase::Recording && notice is None,
            opened matches Err(e) ==> final(self).phase == old(self).phase && (notice matches Some(
                m,
            ) && m@ == "Failed to start recording: "@ + e@),
    {
        match opened {
            Ok(()) => {
                self.phase = Phase::Recording;
                None
            },
            Err(e) => Some(prefixed("Failed to start recording: ", e.as_str())),
        }
    }

    /// The microphone was stopped: audio was captured (`Ok`) and goes on to be
    /// transcribed, or capturing failed with the given error and the cycle
    /// returns to idle with a notification.
    pub fn capture_ended(&mut self, captured: Result<(), String>) -> (notice: Option<String>)
        ensures
            final(self).config == old(self).config,
            captured is Ok ==> final(self).phase == old(self).phase && notice is None,
            captured matches Err(e) ==> final(self).phase == Phase::Idle && (notice matches Some(m)
                && m@ == capture_error_notice(e@)),
    {
        match captured {
            Ok(()) => None,
            Err(e) => {
                self.phase = Phase::Idle;
                Some(capture_error_body(e.as_str()))
            },
        }
    }

    /// A transcription finished: the cycle returns to idle; the text is pasted
    /// unless it is empty, in which case, as for an error, the user is told.
    pub fn handle_transcription(&mut self, result: Result<String, String>) -> (outcome:
        TranscriptionOutcome)
        ensures
            final(self).phase == Phase::Idle,
            final(self).config == old(self).config,
            match (result, outcome) {
                (Ok(t), TranscriptionOutcome::Paste(p)) => t@.len() > 0 && p@ == t@,
                (Ok(t), TranscriptionOutcome::Notify(m)) => t@.len() == 0 && m@
                    == "No speech detected."@,
                (Err(e), TranscriptionOutcome::Notify(m)) => m@ == e@,
                (Err(_), TranscriptionOutcome::Paste(_)) => false,
            },
    {
        self.phase = Phase::Idle;
        match result {
            Ok(text) => {
                if text.as_str().is_empty() {
                    TranscriptionOutcome::Notify(String::from_str("No speech detected."))
                } else {
                    TranscriptionOutcome::Paste(text)
                }
            },
            Err(e) => TranscriptionOutcome::Notify(e),
        }
    }
}

/// The notification for a failed capture with error `msg`.
pub open spec fn capture_error_notice(msg: Seq<char>) -> Seq<char> {
    if has_substring(msg, "No audio recorded"@) {
        "No audio recorded."@
    } else {
        "Recording error: "@ + msg
    }
}

/// The notification body for a failed capture: a short note when nothing was
/// recorded, the error itself otherwise.
pub fn capture_error_body(msg: &str) -> (body: String)
    ensures
        body@ == capture_error_notice(msg@),
{
    if contains_text(msg, "No audio recorded") {
        String::from_str("No audio recorded.")
    } else {
        prefixed("Recording error: ", msg)
    }
}

/// The event sent when the recording could not be encoded as audio.
pub fn encoding_failed_event(error: &str) -> (event: UserEvent)
    ensures
        event matches UserEvent::TranscriptionComplete(Err(m)) && m@ == "Recording error: "@
            + error@,
{
    UserEvent::TranscriptionComplete(Err(prefixed("Recording error: ", error)))
}

/// The event sent when the transcription service answered: the text, or the
/// error prefixed with `Transcription failed: `.
pub fn transcription_finished_event(result: Result<String, String>) -> (event: UserEvent)
    ensures
        match (result, event) {
            (Ok(t), UserEvent::TranscriptionComplete(Ok(u))) => u == t,
            (Err(e), UserEvent::TranscriptionComplete(Err(m))) => m@ == "Transcription failed: "@
                + e@,
            _ => false,
        },
{
    match result {
        Ok(text) => UserEvent::TranscriptionComplete(Ok(text)),
        Err(e) => UserEvent::TranscriptionComplete(Err(prefixed("Transcription failed: ", e.as_str()))),
    }
}

/// The notification shown when pasting failed with `error`.
pub fn paste_failed_notice(error: &str) -> (notice: String)
    ensures
        notice@ == "Failed to paste: "@ + error@,
{
    prefixed("Failed to paste: ", error)
}

/// The AppleScript that shows a notification with `title` and `message`,
/// double quotes in both escaped.
pub open spec fn notification_script_text(title: Seq<char>, message: Seq<char>) -> Seq<char> {
    "display notification \""@ + escape_quotes(message) + "\" with title \""@ + escape_quotes(title)
        + "\""@
}

pub fn notification_script(title: &str, message: &str) -> (script: String)
    ensures
        script@ == notification_script_text(title@, message@),
{
    let mut script = String::from_str("display notification \"");
    let m = escape_double_quotes(message);
    script.append(m.as_str());
    script.append("\" with title \"");
    let t = escape_double_quotes(title);
    script.append(t.as_str());
    script.append("\"");
    script
}

} // verus!
