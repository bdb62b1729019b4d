use xtb_rs::number::{check_number_literal, Number};
use xtb_rs::text::{decimal_text, parse_decimal, str_eq};

#[test]
fn reads_decimal_notation() {
    assert_eq!(parse_decimal("0"), Some(0));
    assert_eq!(parse_decimal("42"), Some(42));
    assert_eq!(parse_decimal("18446744073709551615"), Some(u64::MAX));
}

#[test]
fn rejects_what_is_no_decimal_notation() {
    assert_eq!(parse_decimal(""), None);
    assert_eq!(parse_decimal("042"), None);
    assert_eq!(parse_decimal("00"), None);
    assert_eq!(parse_decimal("-1"), None);
    assert_eq!(parse_decimal("+1"), None);
    assert_eq!(parse_decimal("4.0"), None);
    assert_eq!(parse_decimal("4e1"), None);
    assert_eq!(parse_decimal("4 "), None);
    assert_eq!(parse_decimal("\u{661}"), None);
}

#[test]
fn rejects_a_number_that_does_not_fit() {
    assert_eq!(parse_decimal("18446744073709551616"), None);
    assert_eq!(parse_decimal("99999999999999999999999"), None);
}

#[test]
fn writes_decimal_notation() {
    assert_eq!(decimal_text(0), "0");
    assert_eq!(decimal_text(7), "7");
    assert_eq!(decimal_text(10), "10");
    assert_eq!(decimal_text(5124), "5124");
    assert_eq!(decimal_text(u64::MAX), "18446744073709551615");
}

#[test]
fn writing_and_reading_a_number_gives_it_back() {
    for n in [0u64, 1, 9, 10, 99, 100, 9999999999999, u64::MAX] {
        assert_eq!(parse_decimal(&decimal_text(n)), Some(n));
    }
}

#[test]
fn recognises_number_literals() {
    for literal in ["0", "-0", "1", "-1", "10", "0.5", "-0.01", "1.0", "12.345", "1e+5", "1e-5",
        "1.5e+10", "0e+0", "123456789012345678901234567890"] {
        assert!(check_number_literal(literal), "{}", literal);
        assert_eq!(Number::parse(literal).unwrap().as_str(), literal);
    }
}

#[test]
fn rejects_what_is_no_number_literal() {
    for text in ["", "-", "+1", "01", "-01", "1.", ".5", "1.e+5", "1e5", "1E+5", "1e+", "1e", "1 ",
        " 1", "1,0", "0x10", "NaN", "1.0.0", "1e+5.0", "--1", "\u{661}"] {
        assert!(!check_number_literal(text), "{}", text);
        assert!(Number::parse(text).is_none());
    }
}

#[test]
fn the_constants_are_written_as_decimals() {
    assert_eq!(Number::zero().as_str(), "0.0");
    assert_eq!(Number::one().as_str(), "1.0");
    assert_eq!(Number::zero().clone(), Number::zero());
}

#[test]
fn string_slices_are_equal_if_their_characters_are() {
    assert!(str_eq("", ""));
    assert!(str_eq("status", "status"));
    assert!(str_eq("gr\u{fc}n \u{1f600}", "gr\u{fc}n \u{1f600}"));
    assert!(!str_eq("status", "statuS"));
    assert!(!str_eq("status", "statu"));
    assert!(!str_eq("", "a"));
    assert!(!str_eq("getBalance", "getCandles"));
    assert!(!str_eq("gr\u{fc}n", "gru\u{308}n"));
}
