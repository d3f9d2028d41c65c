use user_search::text::{decimal_text, parse_u64};
use user_search::json::same_text;

#[test]
fn parse_u64_cases() {
    assert_eq!(parse_u64("0"), Some(0));
    assert_eq!(parse_u64("007"), Some(7));
    assert_eq!(parse_u64("+42"), Some(42));
    assert_eq!(parse_u64("18446744073709551615"), Some(u64::MAX));
    assert_eq!(parse_u64("18446744073709551616"), None);
    assert_eq!(parse_u64(""), None);
    assert_eq!(parse_u64("+"), None);
    assert_eq!(parse_u64("-1"), None);
    assert_eq!(parse_u64("12a"), None);
    assert_eq!(parse_u64("١٢"), None);
}

#[test]
fn decimal_text_cases() {
    assert_eq!(decimal_text(0), "0");
    assert_eq!(decimal_text(9200), "9200");
    assert_eq!(decimal_text(u64::MAX), "18446744073709551615");
}

#[test]
fn same_text_cases() {
    assert!(same_text("héllo", "héllo"));
    assert!(!same_text("hello", "hell"));
    assert!(!same_text("abc", "abd"));
    assert!(same_text("", ""));
}
