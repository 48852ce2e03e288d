use cargo_tools::{capitalize, reverse, validate_email, word_count};

#[test]
fn test_string_utilities() {
    assert_eq!(capitalize("hello"), "Hello");
    assert_eq!(reverse("hello"), "olleh");
    assert_eq!(word_count("hello world test"), 3);
    assert!(validate_email("test@example.com"));
    assert!(!validate_email("invalid-email"));
}

#[test]
fn capitalize_empty_stays_empty() {
    assert_eq!(capitalize(""), "");
}

#[test]
fn capitalize_leaves_remainder_unchanged() {
    assert_eq!(capitalize("hELLo"), "HELLo");
    assert_eq!(capitalize("Hello"), "Hello");
    assert_eq!(capitalize("1abc"), "1abc");
}

#[test]
fn capitalize_unicode_mapping_may_grow() {
    // The uppercase mapping of 'ß' (U+00DF) is the two characters "SS".
    assert_eq!(capitalize("\u{00DF}eta"), "SSeta");
}

#[test]
fn reverse_empty_and_unicode() {
    assert_eq!(reverse(""), "");
    assert_eq!(reverse("ab"), "ba");
    // Characters, not bytes, are reversed.
    assert_eq!(reverse("ab\u{00E9}"), "\u{00E9}ba");
}

#[test]
fn word_count_collapses_separators() {
    assert_eq!(word_count("  a   b "), 2);
    assert_eq!(word_count(""), 0);
    assert_eq!(word_count("   "), 0);
    assert_eq!(word_count("one"), 1);
    assert_eq!(word_count("a\tb\nc"), 3);
}

#[test]
fn validate_email_any_order_any_place() {
    assert!(validate_email(".@"));
    assert!(validate_email("a.b@"));
    assert!(!validate_email("a@b"));
    assert!(!validate_email("a.b"));
    assert!(!validate_email(""));
}
