use whispy::text::{
    contains_text, decimal_text, escape_double_quotes, lex_le_text, same_text, trim_text,
};

#[test]
fn trimming_matches_str_trim() {
    for s in ["", "  ", " a b ", "\t\nx\r", "\u{2003}y\u{00A0}", "\u{200B}z", "no-space"] {
        assert_eq!(trim_text(s), s.trim());
    }
}

#[test]
fn substring_search() {
    assert!(contains_text("abc", ""));
    assert!(contains_text("", ""));
    assert!(!contains_text("", "a"));
    assert!(contains_text("openai-whisper-1", "whisper"));
    assert!(!contains_text("whispe", "whisper"));
    assert!(contains_text("aaab", "aab"));
}

#[test]
fn escaping_quotes() {
    assert_eq!(escape_double_quotes("a\"b\"\""), "a\\\"b\\\"\\\"");
    assert_eq!(escape_double_quotes("plain"), "plain");
    assert_eq!(escape_double_quotes(""), "");
}

#[test]
fn decimal_rendering() {
    for n in [0u64, 7, 10, 99, 100, 1234567890, u64::MAX] {
        assert_eq!(decimal_text(n), n.to_string());
    }
}

#[test]
fn lexicographic_order_matches_string_order() {
    let words = ["", "a", "ab", "b", "whisper-1", "whisper-10", "gpt-4o", "Z", "é"];
    for a in words {
        for b in words {
            assert_eq!(lex_le_text(a, b), a <= b, "{a} {b}");
        }
    }
    assert!(same_text("x", "x"));
    assert!(!same_text("x", "X"));
}
