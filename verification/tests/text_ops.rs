use taigi_lookup::text::dec_i64;
use taigi_lookup::text::dec_u64;
use taigi_lookup::text::dec_usize;
use taigi_lookup::text::first_line_str;
use taigi_lookup::text::join_strings;
use taigi_lookup::text::starts_with_str;
use taigi_lookup::text::str_eq;
use taigi_lookup::text::trim_str;

#[test]
fn trim_removes_surrounding_whitespace() {
    assert_eq!(trim_str("  食飯  "), "食飯");
    assert_eq!(trim_str("\n\t x \r\n"), "x");
    assert_eq!(trim_str("x"), "x");
    assert_eq!(trim_str(""), "");
    assert_eq!(trim_str("   "), "");
    assert_eq!(trim_str("\u{3000}wide\u{3000}"), "wide");
}

#[test]
fn first_line_stops_at_line_feed() {
    assert_eq!(first_line_str("tsiah-png\nnote"), "tsiah-png");
    assert_eq!(first_line_str("tsiah-png\r\nnote"), "tsiah-png");
    assert_eq!(first_line_str("one line"), "one line");
    assert_eq!(first_line_str(""), "");
    assert_eq!(first_line_str("\nrest"), "");
}

#[test]
fn prefix_and_equality_checks() {
    assert!(starts_with_str("https://a.b", "http"));
    assert!(!starts_with_str("ftp://a.b", "http"));
    assert!(starts_with_str("/word", "/"));
    assert!(starts_with_str("anything", ""));
    assert!(!starts_with_str("ht", "http"));
    assert!(str_eq("食飯", "食飯"));
    assert!(!str_eq("食飯", "食"));
}

#[test]
fn join_places_separator_between_parts() {
    let parts: Vec<String> = vec!["a".to_string(), "b".to_string(), "c".to_string()];
    assert_eq!(join_strings(&parts, ", "), "a, b, c");
    let one: Vec<String> = vec!["a".to_string()];
    assert_eq!(join_strings(&one, ", "), "a");
    let none: Vec<String> = vec![];
    assert_eq!(join_strings(&none, ", "), "");
}

#[test]
fn decimal_rendering() {
    assert_eq!(dec_u64(0), "0");
    assert_eq!(dec_u64(7), "7");
    assert_eq!(dec_u64(1234567890), "1234567890");
    assert_eq!(dec_usize(42), "42");
    assert_eq!(dec_i64(-5), "-5");
    assert_eq!(dec_i64(5), "5");
    assert_eq!(dec_i64(i64::MIN), "-9223372036854775808");
    assert_eq!(dec_i64(i64::MAX), "9223372036854775807");
}
