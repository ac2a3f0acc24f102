use authguard::numeric::{decimal_string, parse_i64};

#[test]
fn parse_plain_and_signed_numbers() {
    assert_eq!(parse_i64("0"), Some(0));
    assert_eq!(parse_i64("42"), Some(42));
    assert_eq!(parse_i64("-7"), Some(-7));
    assert_eq!(parse_i64("+5"), Some(5));
    assert_eq!(parse_i64("007"), Some(7));
}

#[test]
fn parse_rejects_malformed_text() {
    assert_eq!(parse_i64(""), None);
    assert_eq!(parse_i64("-"), None);
    assert_eq!(parse_i64("+"), None);
    assert_eq!(parse_i64("12a"), None);
    assert_eq!(parse_i64(" 1"), None);
    assert_eq!(parse_i64("1 "), None);
    assert_eq!(parse_i64("--1"), None);
    assert_eq!(parse_i64("١٢"), None);
}

#[test]
fn parse_limits_of_i64() {
    assert_eq!(parse_i64("9223372036854775807"), Some(i64::MAX));
    assert_eq!(parse_i64("9223372036854775808"), None);
    assert_eq!(parse_i64("-9223372036854775808"), Some(i64::MIN));
    assert_eq!(parse_i64("-9223372036854775809"), None);
    assert_eq!(parse_i64("99999999999999999999999999"), None);
}

#[test]
fn parse_agrees_with_std() {
    for s in ["0", "-0", "+0", "123", "-123", "x", "", "+-1", "18446744073709551615", "-1x"] {
        assert_eq!(parse_i64(s), s.parse::<i64>().ok(), "input {:?}", s);
    }
}

#[test]
fn decimal_text_of_numbers() {
    assert_eq!(decimal_string(0), "0");
    assert_eq!(decimal_string(7), "7");
    assert_eq!(decimal_string(10), "10");
    assert_eq!(decimal_string(3600), "3600");
    assert_eq!(decimal_string(u64::MAX), "18446744073709551615");
}

#[test]
fn decimal_text_reads_back() {
    for n in [0u64, 1, 9, 10, 99, 100, 101, 65535, 9223372036854775807] {
        assert_eq!(parse_i64(&decimal_string(n)), Some(n as i64));
    }
}
