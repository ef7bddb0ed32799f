use relaunch::parse::parse_i32;

fn parse(s: &str) -> Option<i32> {
    parse_i32(&s.as_bytes().to_vec())
}

#[test]
fn plain_decimal_values() {
    assert_eq!(parse("0"), Some(0));
    assert_eq!(parse("42"), Some(42));
    assert_eq!(parse("7"), Some(7));
    assert_eq!(parse("1000000"), Some(1_000_000));
}

#[test]
fn signed_values() {
    assert_eq!(parse("-7"), Some(-7));
    assert_eq!(parse("+7"), Some(7));
    assert_eq!(parse("-0"), Some(0));
    assert_eq!(parse("+0"), Some(0));
}

#[test]
fn leading_zeroes_are_accepted() {
    assert_eq!(parse("007"), Some(7));
    assert_eq!(parse("-007"), Some(-7));
}

#[test]
fn range_boundaries() {
    assert_eq!(parse("2147483647"), Some(i32::MAX));
    assert_eq!(parse("2147483648"), None);
    assert_eq!(parse("-2147483648"), Some(i32::MIN));
    assert_eq!(parse("-2147483649"), None);
    assert_eq!(parse("99999999999999999999"), None);
    assert_eq!(parse("-99999999999999999999"), None);
}

#[test]
fn malformed_numbers_are_rejected() {
    assert_eq!(parse(""), None);
    assert_eq!(parse("+"), None);
    assert_eq!(parse("-"), None);
    assert_eq!(parse("abc"), None);
    assert_eq!(parse("1a"), None);
    assert_eq!(parse("a1"), None);
    assert_eq!(parse("1 "), None);
    assert_eq!(parse(" 1"), None);
    assert_eq!(parse("--1"), None);
    assert_eq!(parse("+-1"), None);
    assert_eq!(parse("1.5"), None);
    assert_eq!(parse("drei"), None);
}
