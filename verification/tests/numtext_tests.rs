use dwmstatus::numtext::{parse_metric_text, u64_to_padded2_string, u64_to_string};

#[test]
fn parses_plain_number() {
    assert_eq!(parse_metric_text("45000"), Some(45000));
}

#[test]
fn parses_with_trailing_newline() {
    assert_eq!(parse_metric_text("45000\n"), Some(45000));
}

#[test]
fn parses_with_surrounding_whitespace() {
    assert_eq!(parse_metric_text(" \t 42 \r\n"), Some(42));
}

#[test]
fn parses_with_unicode_whitespace() {
    assert_eq!(parse_metric_text("\u{B}45\u{85}"), Some(45));
    assert_eq!(parse_metric_text("\u{A0}\u{3000}7\u{2009}\u{C}"), Some(7));
}

#[test]
fn parses_leading_zeros() {
    assert_eq!(parse_metric_text("0045"), Some(45));
}

#[test]
fn parses_zero() {
    assert_eq!(parse_metric_text("0"), Some(0));
}

#[test]
fn rejects_empty_text() {
    assert_eq!(parse_metric_text(""), None);
}

#[test]
fn rejects_whitespace_only() {
    assert_eq!(parse_metric_text("  \n"), None);
}

#[test]
fn rejects_non_numeric() {
    assert_eq!(parse_metric_text("abc"), None);
}

#[test]
fn rejects_negative() {
    assert_eq!(parse_metric_text("-3"), None);
}

#[test]
fn rejects_inner_space() {
    assert_eq!(parse_metric_text("4 5"), None);
}

#[test]
fn parses_u64_max() {
    assert_eq!(parse_metric_text("18446744073709551615"), Some(u64::MAX));
}

#[test]
fn rejects_just_above_u64_max() {
    assert_eq!(parse_metric_text("18446744073709551616"), None);
}

#[test]
fn rejects_far_above_u64_max() {
    assert_eq!(parse_metric_text("99999999999999999999999999"), None);
}

#[test]
fn renders_decimal() {
    assert_eq!(u64_to_string(0), "0");
    assert_eq!(u64_to_string(7), "7");
    assert_eq!(u64_to_string(45), "45");
    assert_eq!(u64_to_string(1000), "1000");
    assert_eq!(u64_to_string(u64::MAX), "18446744073709551615");
}

#[test]
fn renders_zero_padded_pairs() {
    assert_eq!(u64_to_padded2_string(0), "00");
    assert_eq!(u64_to_padded2_string(5), "05");
    assert_eq!(u64_to_padded2_string(10), "10");
    assert_eq!(u64_to_padded2_string(123), "123");
}
