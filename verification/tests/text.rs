use rusty_cards::text::{parse_u16, rm_quotes, str_eq};

#[test]
fn rm_quotes_strips_surrounding_quotes() {
    assert_eq!(rm_quotes("\"hello\"".to_string()), "hello");
}

#[test]
fn rm_quotes_on_json_null_text() {
    // A missing field rendered as JSON `null` loses its first and last
    // character like any other value.
    assert_eq!(rm_quotes("null".to_string()), "ul");
}

#[test]
fn rm_quotes_short_inputs_become_empty() {
    assert_eq!(rm_quotes(String::new()), "");
    assert_eq!(rm_quotes("a".to_string()), "");
    assert_eq!(rm_quotes("ab".to_string()), "");
}

#[test]
fn parse_u16_reads_plain_digits() {
    assert_eq!(parse_u16("1"), Some(1));
    assert_eq!(parse_u16("0"), Some(0));
    assert_eq!(parse_u16("42"), Some(42));
    assert_eq!(parse_u16("65535"), Some(65535));
    assert_eq!(parse_u16("0042"), Some(42));
}

#[test]
fn parse_u16_rejects_non_digits_and_overflow() {
    assert_eq!(parse_u16(""), None);
    assert_eq!(parse_u16("65536"), None);
    assert_eq!(parse_u16("999999999999"), None);
    assert_eq!(parse_u16("12a"), None);
    assert_eq!(parse_u16("+3"), None);
    assert_eq!(parse_u16("-3"), None);
    assert_eq!(parse_u16(" 3"), None);
}

#[test]
fn str_eq_compares_by_characters() {
    assert!(str_eq("", ""));
    assert!(str_eq("abc", "abc"));
    assert!(!str_eq("abc", "abd"));
    assert!(!str_eq("abc", "abcd"));
    assert!(str_eq("héllo", "héllo"));
}
