use whispy::history::{
    clear, copy_entry, list, save_transcription, unique_id, HistoryEntry, MAX_HISTORY_ENTRIES,
};

fn entry(id: &str, ms: u64, text: &str) -> HistoryEntry {
    HistoryEntry { id: id.to_string(), created_at_ms: ms, text: text.to_string() }
}

fn ids(entries: &[HistoryEntry]) -> Vec<String> {
    entries.iter().map(|e| e.id.clone()).collect()
}

#[test]
fn list_orders_newest_first_and_keeps_order_of_ties() {
    let stored = vec![
        entry("a", 5, "one"),
        entry("b", 9, "two"),
        entry("c", 5, "three"),
        entry("d", 7, "four"),
        entry("e", 9, "five"),
    ];
    let listed = list(stored);
    assert_eq!(ids(&listed), vec!["b", "e", "d", "a", "c"]);
    assert_eq!(listed[0].text, "two");
}

#[test]
fn list_keeps_at_most_the_newest_hundred() {
    let stored: Vec<HistoryEntry> =
        (0..150u64).map(|i| entry(&i.to_string(), i, "x")).collect();
    let listed = list(stored);
    assert_eq!(listed.len(), MAX_HISTORY_ENTRIES);
    assert_eq!(listed[0].created_at_ms, 149);
    assert_eq!(listed[99].created_at_ms, 50);
    assert!(list(Vec::new()).is_empty());
}

#[test]
fn unique_id_uses_time_then_suffixes() {
    assert_eq!(unique_id(1700, &vec![]), "1700");
    let entries = vec![entry("1700", 1, "a"), entry("1700-1", 1, "b"), entry("1700-3", 1, "c")];
    assert_eq!(unique_id(1700, &entries), "1700-2");
    assert_eq!(unique_id(0, &vec![entry("0", 0, "z")]), "0-1");
    assert_eq!(unique_id(u64::MAX, &vec![]), "18446744073709551615");
}

#[test]
fn saving_puts_trimmed_text_first_with_fresh_id() {
    let entries = vec![entry("100", 100, "older")];
    let saved = save_transcription(entries, "  hello world \n", 100).unwrap();
    assert_eq!(saved.len(), 2);
    assert_eq!(saved[0].id, "100-1");
    assert_eq!(saved[0].created_at_ms, 100);
    assert_eq!(saved[0].text, "hello world");
    assert_eq!(saved[1].id, "100");
}

#[test]
fn saving_blank_text_saves_nothing() {
    assert!(save_transcription(vec![entry("1", 1, "a")], "   \t\n", 5).is_none());
    assert!(save_transcription(Vec::new(), "", 5).is_none());
    // U+3000 IDEOGRAPHIC SPACE is whitespace too
    assert!(save_transcription(Vec::new(), "\u{3000}", 5).is_none());
}

#[test]
fn saving_keeps_the_hundred_newest() {
    let entries: Vec<HistoryEntry> =
        (0..100u64).map(|i| entry(&i.to_string(), 1000 - i, "x")).collect();
    let saved = save_transcription(entries, "new", 2000).unwrap();
    assert_eq!(saved.len(), MAX_HISTORY_ENTRIES);
    assert_eq!(saved[0].text, "new");
    assert_eq!(saved[0].id, "2000");
    assert_eq!(saved[99].id, "98");
}

#[test]
fn copy_finds_first_entry_with_id() {
    let entries = vec![entry("x", 1, "first"), entry("y", 2, "second"), entry("y", 3, "third")];
    assert_eq!(copy_entry(&entries, "y"), Ok("second".to_string()));
    assert_eq!(copy_entry(&entries, "z"), Err("History entry not found".to_string()));
}

#[test]
fn clearing_leaves_nothing() {
    assert!(clear().is_empty());
}

#[test]
fn listing_a_listed_history_changes_nothing() {
    let stored = vec![entry("a", 3, "x"), entry("b", 8, "y"), entry("c", 3, "z"), entry("d", 1, "w")];
    let once = list(stored);
    let order = ids(&once);
    let twice = list(once);
    assert_eq!(ids(&twice), order);
}

#[test]
fn a_new_transcription_is_listed_first_with_distinct_ids() {
    let listed = list(vec![entry("5", 5, "old"), entry("5-1", 5, "older"), entry("7", 7, "new")]);
    let saved = save_transcription(listed, "latest", 7).unwrap();
    let relisted = list(saved);
    assert_eq!(relisted[0].text, "latest");
    assert_eq!(relisted[0].id, "7-1");
    let mut all = ids(&relisted);
    all.sort();
    all.dedup();
    assert_eq!(all.len(), relisted.len());
}
