use spotti::text::{escape_html, push_decimal, push_signed_decimal};
use spotti::timestamp::{rank_of, read_stamp};

#[test]
fn escaping_replaces_the_three_marks() {
    assert_eq!(escape_html("a & b"), "a &amp; b");
    assert_eq!(escape_html("<b>"), "&lt;b&gt;");
    assert_eq!(escape_html("&lt;"), "&amp;lt;");
    assert_eq!(escape_html(""), "");
    assert_eq!(escape_html("\"quoted\" 'text' ▶️"), "\"quoted\" 'text' ▶️");
}

#[test]
fn escaping_agrees_with_three_replacements() {
    let text = "x<&>y&&<<>>&amp;<a href=b>";
    let expected = text.replace("&", "&amp;").replace("<", "&lt;").replace(">", "&gt;");
    assert_eq!(escape_html(text), expected);
}

#[test]
fn decimals_have_no_leading_zeros() {
    let mut out = String::from("n=");
    push_decimal(&mut out, 0);
    assert_eq!(out, "n=0");
    let mut out = String::new();
    push_decimal(&mut out, 50);
    assert_eq!(out, "50");
    let mut out = String::new();
    push_decimal(&mut out, 18446744073709551615);
    assert_eq!(out, "18446744073709551615");
    let mut out = String::new();
    push_decimal(&mut out, 1009);
    assert_eq!(out, "1009");
}

#[test]
fn signed_decimals_carry_a_minus() {
    let mut out = String::new();
    push_signed_decimal(&mut out, -5);
    assert_eq!(out, "-5");
    let mut out = String::new();
    push_signed_decimal(&mut out, 0);
    assert_eq!(out, "0");
    let mut out = String::new();
    push_signed_decimal(&mut out, i64::MIN);
    assert_eq!(out, "-9223372036854775808");
    let mut out = String::new();
    push_signed_decimal(&mut out, i64::MAX);
    assert_eq!(out, "9223372036854775807");
}

#[test]
fn a_moment_is_read_to_the_second() {
    assert_eq!(read_stamp("2024-01-01T00:00:00Z"), Some(20240101000000));
    assert_eq!(read_stamp("2024-01-01T00:00:00.123Z"), Some(20240101000000));
    assert_eq!(read_stamp("2024-01-01 00:00:00"), Some(20240101000000));
    assert_eq!(read_stamp("2023-12-31T23:59:59.9"), Some(20231231235959));
    assert_eq!(read_stamp("9999-12-31T23:59:59Z"), Some(99991231235959));
    assert_eq!(read_stamp("0000-01-01T00:00:00Z"), Some(101000000));
}

#[test]
fn a_text_that_is_no_moment_has_no_key() {
    assert_eq!(read_stamp(""), None);
    assert_eq!(read_stamp("yesterday"), None);
    assert_eq!(read_stamp("2024-01-01"), None);
    assert_eq!(read_stamp("2024-01-01T00:00:0"), None);
    assert_eq!(read_stamp("2024-13-01T00:00:00Z"), None);
    assert_eq!(read_stamp("2024-00-01T00:00:00Z"), None);
    assert_eq!(read_stamp("2024-01-32T00:00:00Z"), None);
    assert_eq!(read_stamp("2024-01-00T00:00:00Z"), None);
    assert_eq!(read_stamp("2024-01-01T24:00:00Z"), None);
    assert_eq!(read_stamp("2024-01-01T00:60:00Z"), None);
    assert_eq!(read_stamp("2024-01-01T00:00:60Z"), None);
    assert_eq!(read_stamp("2024/01/01T00:00:00Z"), None);
    assert_eq!(read_stamp("2024-01-01X00:00:00Z"), None);
    assert_eq!(read_stamp("2024-01-01T00.00.00Z"), None);
    assert_eq!(read_stamp("2024-01-01T00:00:00."), None);
    assert_eq!(read_stamp("2024-01-01T00:00:00.Z"), None);
    assert_eq!(read_stamp("2024-01-01T00:00:00.12x"), None);
    assert_eq!(read_stamp("2024-01-01T00:00:00ZZ"), None);
    assert_eq!(read_stamp("2024-01-01T00:00:00+01:00"), None);
    assert_eq!(read_stamp("2o24-01-01T00:00:00Z"), None);
    assert_eq!(read_stamp("２０２４-01-01T00:00:00Z"), None);
}

#[test]
fn a_later_moment_has_a_larger_rank() {
    let early = rank_of(&Some(String::from("2024-01-01T00:00:00Z")));
    let late = rank_of(&Some(String::from("2024-01-01T00:00:01Z")));
    assert_eq!(early, 20240101000001);
    assert_eq!(late, 20240101000002);
    assert!(late > early);
    assert_eq!(rank_of(&None), 0);
    assert_eq!(rank_of(&Some(String::from("soon"))), 0);
}
