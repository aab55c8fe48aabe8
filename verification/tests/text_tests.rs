use holos_config::text::{has_prefix, parse_u64, split_chars, str_eq};

#[test]
fn test_parse_u64_plain() {
    assert_eq!(parse_u64("0"), Some(0));
    assert_eq!(parse_u64("42"), Some(42));
    assert_eq!(parse_u64("007"), Some(7));
}

#[test]
fn test_parse_u64_leading_plus() {
    assert_eq!(parse_u64("+42"), Some(42));
    assert_eq!(parse_u64("+"), None);
    assert_eq!(parse_u64("++1"), None);
}

#[test]
fn test_parse_u64_rejects() {
    assert_eq!(parse_u64(""), None);
    assert_eq!(parse_u64("-1"), None);
    assert_eq!(parse_u64("1x"), None);
    assert_eq!(parse_u64(" 1"), None);
}

#[test]
fn test_parse_u64_overflow_boundary() {
    assert_eq!(parse_u64("18446744073709551615"), Some(u64::MAX));
    assert_eq!(parse_u64("18446744073709551616"), None);
}

#[test]
fn test_split_keeps_empty_pieces() {
    assert_eq!(split_chars("a,,b", ','), vec!["a", "", "b"]);
    assert_eq!(split_chars("", ','), vec![""]);
    assert_eq!(split_chars(",a,", ','), vec!["", "a", ""]);
    assert_eq!(split_chars("a b c", ' '), vec!["a", "b", "c"]);
}

#[test]
fn test_str_eq_and_prefix() {
    assert!(str_eq("install", "install"));
    assert!(!str_eq("install", "installx"));
    assert!(has_prefix("config_file=/a", "config_file="));
    assert!(!has_prefix("config", "config_file="));
}
