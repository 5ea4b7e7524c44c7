use whispy::history_html;
use whispy::history_window::{history_endpoint, HistoryEndpoint};
use whispy::overlay_html;
use whispy::preferences_html::{build, language_at};

#[test]
fn fixed_pages() {
    let h = history_html::build();
    assert!(h.starts_with("<!DOCTYPE html>"));
    assert!(h.contains("Transcription History"));
    assert!(h.ends_with("</html>"));
    let o = overlay_html::build();
    assert!(o.starts_with("<!DOCTYPE html>"));
    assert!(o.ends_with("</html>"));
}

#[test]
fn preferences_page_fills_in_settings() {
    let page = build("sk-test", "whisper-1", "pl", "cmd+shift+space");
    assert!(page.starts_with("<!DOCTYPE html>"));
    assert!(page.ends_with("</html>"));
    assert!(page.contains(r#"<input type="password" id="api_key" value="sk-test" placeholder="sk-...">"#));
    assert!(page.contains(r#"<option value="whisper-1" selected>whisper-1</option>"#));
    assert!(page.contains(r#"const CURRENT_MODEL = "whisper-1";"#));
    assert!(page.contains(r#"<option value="pl" selected>Polish</option>"#));
    assert!(page.contains(r#"<option value="en">English</option>"#));
    assert!(page.contains(r#"<option value="auto">Auto (detect language)</option>"#));
    assert!(page.contains(
        "<option value=\"ctrl+shift+cmd+space\">Ctrl + Shift + Cmd + Space</option>\n<option value=\"cmd+shift+space\" selected>Cmd + Shift + Space</option>"
    ));
    // braces of the style sheet and script are single
    assert!(page.contains("* { margin: 0; padding: 0; box-sizing: border-box; }"));
    assert!(!page.contains("{{"));
}

#[test]
fn auto_language_is_matched_loosely() {
    let page = build("", "m", "  AuTo ", "x");
    assert!(page.contains(r#"<option value="auto" selected>Auto (detect language)</option>"#));
    assert!(!page.contains(" selected>English"));
    // no shortcut is selected for an unknown setting
    assert!(!page.contains("space\" selected"));
    let page = build("", "m", "en ", "x");
    assert!(!page.contains(r#"<option value="en" selected>"#));
}

#[test]
fn language_list_order() {
    assert_eq!(language_at(0), ("en", "English"));
    assert_eq!(language_at(1), ("pl", "Polish"));
    assert_eq!(language_at(29), ("vi", "Vietnamese"));
    let page = build("", "m", "vi", "x");
    assert!(page.contains(
        "<option value=\"tr\">Turkish</option>\n<option value=\"vi\" selected>Vietnamese</option></select>"
    ));
}

#[test]
fn history_page_calls_only_routed_endpoints() {
    let h = history_html::build();
    assert!(h.contains("fetch('whispy://localhost/' + endpoint"));
    assert!(h.contains("apiCall('list')"));
    assert!(h.contains("apiCall('copy', { id })"));
    assert!(h.contains("apiCall('clear')"));
    assert_eq!(history_endpoint("whispy://localhost/list"), HistoryEndpoint::List);
    assert_eq!(history_endpoint("whispy://localhost/copy"), HistoryEndpoint::Copy);
    assert_eq!(history_endpoint("whispy://localhost/clear"), HistoryEndpoint::Clear);
}

#[test]
fn overlay_page_offers_the_scripted_functions() {
    let o = overlay_html::build();
    assert!(o.contains("const NUM_BARS = 20;"));
    assert!(o.contains("window.updateLevels = function(arr)"));
    assert!(o.contains("window.setProcessing = function()"));
    assert!(o.contains("window.reset = function()"));
    assert!(o.contains("toggle_pause"));
}
