use whispy::app::{
    overlay_command, overlay_visibility, OverlayCommand, WindowChange,
    capture_error_body, encoding_failed_event, notification_script, paste_failed_notice,
    transcription_finished_event, AppState, Phase, StartStep, ToggleStep, TranscriptionOutcome,
    UserEvent,
};
use whispy::config::Config;

fn config_with_key(key: Option<&str>) -> Config {
    let mut c = Config::default();
    c.api_key = key.map(|k| k.to_string());
    c
}

#[test]
fn a_full_dictation_cycle() {
    let mut state = AppState::new(config_with_key(Some("sk-1")));
    assert_eq!(state.phase, Phase::Idle);
    assert_eq!(state.toggle_recording(), ToggleStep::BeginStart);
    assert!(matches!(state.start_recording(None), StartStep::OpenMicrophone));
    assert_eq!(state.recording_started(Ok(())), None);
    assert_eq!(state.phase, Phase::Recording);
    assert_eq!(state.toggle_recording(), ToggleStep::EndCapture);
    assert_eq!(state.phase, Phase::Transcribing);
    assert_eq!(state.toggle_recording(), ToggleStep::Ignore);
    assert_eq!(state.capture_ended(Ok(())), None);
    assert_eq!(state.phase, Phase::Transcribing);
    match state.handle_transcription(Ok("hello".to_string())) {
        TranscriptionOutcome::Paste(t) => assert_eq!(t, "hello"),
        TranscriptionOutcome::Notify(_) => panic!("expected paste"),
    }
    assert_eq!(state.phase, Phase::Idle);
}

#[test]
fn starting_without_key_asks_for_one() {
    let mut state = AppState::new(config_with_key(None));
    match state.start_recording(None) {
        StartStep::Notify(m) => assert_eq!(m, "Please set your OpenAI API key in Preferences."),
        StartStep::OpenMicrophone => panic!("no key"),
    }
    let mut state = AppState::new(config_with_key(Some("")));
    assert!(matches!(state.start_recording(None), StartStep::Notify(_)));
    // the reloaded settings are used
    assert!(matches!(
        state.start_recording(Some(config_with_key(Some("sk-2")))),
        StartStep::OpenMicrophone
    ));
    assert_eq!(state.config.api_key.as_deref(), Some("sk-2"));
    assert_eq!(state.phase, Phase::Idle);
}

#[test]
fn microphone_failure_is_reported() {
    let mut state = AppState::new(config_with_key(Some("k")));
    assert_eq!(
        state.recording_started(Err("device busy".to_string())),
        Some("Failed to start recording: device busy".to_string())
    );
    assert_eq!(state.phase, Phase::Idle);
}

#[test]
fn capture_failure_returns_to_idle() {
    let mut state = AppState::new(config_with_key(Some("k")));
    state.phase = Phase::Recording;
    state.toggle_recording();
    assert_eq!(
        state.capture_ended(Err("No audio recorded".to_string())),
        Some("No audio recorded.".to_string())
    );
    assert_eq!(state.phase, Phase::Idle);
    assert_eq!(capture_error_body("stream lost"), "Recording error: stream lost");
    assert_eq!(capture_error_body("oops: No audio recorded!"), "No audio recorded.");
}

#[test]
fn empty_transcription_and_errors_notify() {
    let mut state = AppState::new(Config::default());
    state.phase = Phase::Transcribing;
    match state.handle_transcription(Ok(String::new())) {
        TranscriptionOutcome::Notify(m) => assert_eq!(m, "No speech detected."),
        TranscriptionOutcome::Paste(_) => panic!("nothing to paste"),
    }
    assert_eq!(state.phase, Phase::Idle);
    match state.handle_transcription(Err("Transcription failed: timeout".to_string())) {
        TranscriptionOutcome::Notify(m) => assert_eq!(m, "Transcription failed: timeout"),
        TranscriptionOutcome::Paste(_) => panic!("error"),
    }
    assert_eq!(paste_failed_notice("denied"), "Failed to paste: denied");
}

#[test]
fn worker_events_carry_prefixed_errors() {
    match transcription_finished_event(Err("network down".to_string())) {
        UserEvent::TranscriptionComplete(r) => {
            assert_eq!(r, Err("Transcription failed: network down".to_string()))
        }
    }
    match transcription_finished_event(Ok("text".to_string())) {
        UserEvent::TranscriptionComplete(r) => assert_eq!(r, Ok("text".to_string())),
    }
    match encoding_failed_event("bad samples") {
        UserEvent::TranscriptionComplete(r) => {
            assert_eq!(r, Err("Recording error: bad samples".to_string()))
        }
    }
}

#[test]
fn reload_keeps_settings_when_reading_failed() {
    let mut state = AppState::new(config_with_key(Some("a")));
    state.reload_config(None);
    assert_eq!(state.config.api_key.as_deref(), Some("a"));
    state.reload_config(Some(config_with_key(Some("b"))));
    assert_eq!(state.config.api_key.as_deref(), Some("b"));
}

#[test]
fn notification_script_escapes_quotes() {
    assert_eq!(
        notification_script("Whispy", "Say \"hi\""),
        "display notification \"Say \\\"hi\\\"\" with title \"Whispy\""
    );
}

#[test]
fn overlay_follows_phase() {
    assert_eq!(overlay_command(Phase::Recording), OverlayCommand::ShowLevels);
    assert_eq!(overlay_command(Phase::Transcribing), OverlayCommand::Keep);
    assert_eq!(overlay_command(Phase::Idle), OverlayCommand::Hide);
}

#[test]
fn overlay_changes_only_when_not_already_as_asked() {
    assert_eq!(overlay_visibility(false, true), (WindowChange::Reveal, true));
    assert_eq!(overlay_visibility(true, true), (WindowChange::Unchanged, true));
    assert_eq!(overlay_visibility(true, false), (WindowChange::Conceal, false));
    assert_eq!(overlay_visibility(false, false), (WindowChange::Unchanged, false));
}

#[test]
fn user_event_clones_and_prints() {
    let event = UserEvent::TranscriptionComplete(Err("boom".to_string()));
    let copy = event.clone();
    assert_eq!(format!("{:?}", copy), format!("{:?}", event));
    match copy {
        UserEvent::TranscriptionComplete(r) => assert_eq!(r, Err("boom".to_string())),
    }
}
