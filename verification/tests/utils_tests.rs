use obsidian_ai_agent::text::parse_unsigned;
use obsidian_ai_agent::url::detect::is_transcript_request;
use obsidian_ai_agent::utils::{safe_truncate, truncate_chars};

#[test]
fn test_safe_truncate_ascii() {
    assert_eq!(safe_truncate("hello", 3), "hel");
    assert_eq!(safe_truncate("hello", 10), "hello");
}

#[test]
fn test_safe_truncate_unicode() {
    let s = "🦀🦀🦀";
    assert_eq!(safe_truncate(s, 0), "");
    assert_eq!(safe_truncate(s, 1), "");
    assert_eq!(safe_truncate(s, 4), "🦀");
    assert_eq!(safe_truncate(s, 7), "🦀");
    assert_eq!(safe_truncate(s, 8), "🦀🦀");
    assert_eq!(safe_truncate(s, 12), "🦀🦀🦀");
}

#[test]
fn test_truncate_chars() {
    let s = "🦀🦀🦀";
    assert_eq!(truncate_chars(s, 2), "🦀🦀");
    assert_eq!(truncate_chars(s, 5), "🦀🦀🦀");
    assert_eq!(truncate_chars("hello", 3), "hel");
}

#[test]
fn safe_truncate_is_a_prefix_on_a_boundary() {
    let s = "aé€🦀z";
    for max in 0..12 {
        let t = safe_truncate(s, max);
        assert!(t.len() <= max);
        assert!(s.starts_with(t));
    }
    assert_eq!(safe_truncate(s, 3), "aé");
    assert_eq!(safe_truncate(s, 5), "aé");
    assert_eq!(safe_truncate(s, 6), "aé€");
}

#[test]
fn unsigned_parsing_follows_from_str() {
    assert_eq!(parse_unsigned("42", u64::MAX), Some(42));
    assert_eq!(parse_unsigned("+7", u64::MAX), Some(7));
    assert_eq!(parse_unsigned("", u64::MAX), None);
    assert_eq!(parse_unsigned("+", u64::MAX), None);
    assert_eq!(parse_unsigned("-1", u64::MAX), None);
    assert_eq!(parse_unsigned("12a", u64::MAX), None);
    assert_eq!(parse_unsigned("4294967296", 4294967295), None);
    assert_eq!(parse_unsigned("4294967295", 4294967295), Some(4294967295));
    assert_eq!(parse_unsigned("18446744073709551615", u64::MAX), Some(u64::MAX));
    assert_eq!(parse_unsigned("18446744073709551616", u64::MAX), None);
}

#[test]
fn lowercase_wrapper_changes_the_argument() {
    assert!(is_transcript_request("TRANSCRIPT please"));
    assert!(!is_transcript_request("TRANSCRIPXT"));
}
