use whispy::history::HistoryEntry;
use whispy::history_window::{
    clear_response, copy_response, history_endpoint, list_response, ApiResponse, HistoryEndpoint,
};
use whispy::permissions::check_permissions_interactive;
use whispy::routing::endpoint_of;

#[test]
fn endpoint_names() {
    assert_eq!(endpoint_of("whispy://localhost/list"), "list");
    assert_eq!(endpoint_of("whispy://localhostcopy"), "copy");
    assert_eq!(endpoint_of("clear"), "clear");
    assert_eq!(endpoint_of("http://x/list"), "http://x/list");
    assert_eq!(history_endpoint("whispy://localhost/list"), HistoryEndpoint::List);
    assert_eq!(history_endpoint("whispy://localhost/copy"), HistoryEndpoint::Copy);
    assert_eq!(history_endpoint("whispy://localhost/clear"), HistoryEndpoint::Clear);
    assert_eq!(history_endpoint("whispy://localhost/list/"), HistoryEndpoint::Unknown);
}

#[test]
fn history_answers() {
    let e = HistoryEntry { id: "1".to_string(), created_at_ms: 1, text: "t".to_string() };
    let r = list_response(Ok(vec![e]));
    assert!(r.ok && r.error.is_none());
    assert_eq!(r.entries.unwrap()[0].text, "t");
    let r = list_response(Err("disk".to_string()));
    assert!(!r.ok && r.entries.is_none());
    assert_eq!(r.error.as_deref(), Some("disk"));
    let r = copy_response(Err("History entry not found".to_string()));
    assert_eq!(r.error.as_deref(), Some("History entry not found"));
    assert!(copy_response(Ok(())).ok);
    assert!(clear_response(Ok(())).ok);
    assert!(!clear_response(Err("x".to_string())).ok);
    let r = ApiResponse::unknown_endpoint();
    assert_eq!(r.error.as_deref(), Some("unknown endpoint"));
    assert!(ApiResponse::ok().error.is_none());
}

#[test]
fn permission_report() {
    let r = check_permissions_interactive(Ok(()), true);
    assert_eq!(r.title, "Whispy — permissions");
    assert_eq!(
        r.message,
        "Microphone: OK (or system prompt was shown).\nAccessibility: granted."
    );
    assert!(!r.open_microphone_settings && !r.open_accessibility_settings);
    let r = check_permissions_interactive(Err("denied".to_string()), false);
    assert_eq!(
        r.message,
        "Microphone: denied — enable Whispy under Privacy & Security → Microphone.\nAccessibility: not granted — enable Whispy under Privacy & Security → Accessibility."
    );
    assert!(r.open_microphone_settings && r.open_accessibility_settings);
}
