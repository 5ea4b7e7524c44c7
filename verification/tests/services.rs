use whispy::http_status::{is_success_status, status_display, status_line};
use whispy::preferences::{lowered_id_mentions_transcription, models_json_with};
use whispy::preferences::{
    error_json, escaped_error_json, message_json, models_error, models_json, ok_json,
    prefs_endpoint, select_transcription_models, test_api_outcome, unknown_endpoint_json,
    PrefsEndpoint,
};
use whispy::transcribe::{price_per_minute_micros, transcription_outcome, wav_frames};

#[test]
fn status_lines() {
    assert_eq!(status_display(404), "404 Not Found");
    assert_eq!(status_display(200), "200 OK");
    assert_eq!(status_display(599), "599 <unknown status code>");
    assert!(is_success_status(200) && is_success_status(299));
    assert!(!is_success_status(199) && !is_success_status(300));
}

#[test]
fn transcription_answers() {
    assert_eq!(transcription_outcome(200, "  Hello there.\n"), Ok("Hello there.".to_string()));
    assert_eq!(
        transcription_outcome(500, "boom"),
        Err("Whisper API error (500 Internal Server Error): boom".to_string())
    );
}

fn wav_header(rate: u32, bits: u16, channels: u16, data: usize) -> Vec<u8> {
    let mut w = vec![0u8; 44 + data];
    w[22..24].copy_from_slice(&channels.to_le_bytes());
    w[24..28].copy_from_slice(&rate.to_le_bytes());
    w[34..36].copy_from_slice(&bits.to_le_bytes());
    w
}

#[test]
fn wav_durations() {
    assert_eq!(wav_frames(&[0u8; 43]), None);
    assert_eq!(wav_frames(&wav_header(16000, 16, 1, 32000)), Some((16000, 16000)));
    assert_eq!(wav_frames(&wav_header(48000, 16, 2, 4000)), Some((1000, 48000)));
    assert_eq!(wav_frames(&wav_header(0, 16, 1, 10)), None);
    assert_eq!(wav_frames(&wav_header(8000, 0, 1, 10)), None);
    assert_eq!(wav_frames(&wav_header(8000, 16, 0, 10)), None);
    assert_eq!(wav_frames(&wav_header(8000, 24, 1, 7)), Some((2, 8000)));
}

#[test]
fn prices() {
    assert_eq!(price_per_minute_micros("gpt-4o-mini-transcribe"), 3000);
    assert_eq!(price_per_minute_micros("whisper-1"), 6000);
    assert_eq!(price_per_minute_micros("gpt-4o-transcribe"), 6000);
}

#[test]
fn preferences_endpoints() {
    assert_eq!(prefs_endpoint("whispy://localhost/save"), PrefsEndpoint::Save);
    assert_eq!(prefs_endpoint("whispy://localhostfetch_models"), PrefsEndpoint::FetchModels);
    assert_eq!(prefs_endpoint("test"), PrefsEndpoint::Test);
    assert_eq!(prefs_endpoint("whispy://localhost/other"), PrefsEndpoint::Unknown);
    assert_eq!(prefs_endpoint("whispy://localhost/"), PrefsEndpoint::Unknown);
}

#[test]
fn json_answers() {
    assert_eq!(ok_json(), r#"{"ok":true}"#);
    assert_eq!(error_json("bad"), r#"{"ok":false,"error":"bad"}"#);
    assert_eq!(escaped_error_json("say \"x\""), r#"{"ok":false,"error":"say \"x\""}"#);
    assert_eq!(unknown_endpoint_json(), r#"{"ok":false,"error":"unknown endpoint"}"#);
    assert_eq!(message_json("hi"), r#"{"ok":true,"message":"hi"}"#);
    let models = vec!["a\"b".to_string(), "whisper-1".to_string()];
    assert_eq!(models_json(&models), r#"{"ok":true,"models":["a\"b","whisper-1"]}"#);
    assert_eq!(models_error("nope"), "API error: nope");
}

#[test]
fn transcription_models_are_filtered_and_sorted() {
    let ids = vec![
        "gpt-4o".to_string(),
        "whisper-1".to_string(),
        "GPT-4o-Transcribe".to_string(),
        "dall-e-3".to_string(),
        "gpt-4o-mini-transcribe".to_string(),
        "Whisper-Large".to_string(),
    ];
    assert_eq!(
        select_transcription_models(ids),
        vec!["GPT-4o-Transcribe", "Whisper-Large", "gpt-4o-mini-transcribe", "whisper-1"]
    );
    assert_eq!(select_transcription_models(vec!["gpt-4o".to_string()]), vec!["whisper-1"]);
    assert_eq!(select_transcription_models(Vec::new()), vec!["whisper-1"]);
}

#[test]
fn key_test_answers() {
    assert_eq!(
        test_api_outcome(200, "whisper-1", ""),
        Ok("Connection OK. Model 'whisper-1' is available.".to_string())
    );
    assert_eq!(test_api_outcome(401, "m", "x"), Err("Invalid API key".to_string()));
    assert_eq!(
        test_api_outcome(404, "m", "{\"error\":1}"),
        Err("Error (404 Not Found): {\"error\":1}".to_string())
    );
}

#[test]
fn steps_after_the_outside_calls() {
    assert_eq!(status_line(404, Some("Not Found".to_string())), "404 Not Found");
    assert_eq!(status_line(799, None), "799 <unknown status code>");
    assert!(lowered_id_mentions_transcription("gpt-4o-transcribe"));
    assert!(lowered_id_mentions_transcription("whisper-1"));
    assert!(!lowered_id_mentions_transcription("gpt-4o"));
    assert!(!lowered_id_mentions_transcription("Whisper-1"));
    assert_eq!(models_json_with("[\"a\"]"), r#"{"ok":true,"models":["a"]}"#);
}
