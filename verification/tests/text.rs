use feeder::text::{parse_i32, push_i32_decimal};

fn decimal(n: i32) -> String {
    let mut s = String::new();
    push_i32_decimal(n, &mut s);
    s
}

#[test]
fn decimal_of_zero() {
    assert_eq!(decimal(0), "0");
}

#[test]
fn decimal_of_positive() {
    assert_eq!(decimal(7), "7");
    assert_eq!(decimal(1234), "1234");
    assert_eq!(decimal(i32::MAX), "2147483647");
}

#[test]
fn decimal_of_negative() {
    assert_eq!(decimal(-1), "-1");
    assert_eq!(decimal(-907), "-907");
    assert_eq!(decimal(i32::MIN), "-2147483648");
}

#[test]
fn decimal_appends() {
    let mut s = String::from("id=");
    push_i32_decimal(42, &mut s);
    assert_eq!(s, "id=42");
}

#[test]
fn decimal_matches_to_string() {
    for n in [-100_000, -10, -9, -1, 0, 1, 9, 10, 99, 100, 65_535, 1_000_000_007] {
        assert_eq!(decimal(n), n.to_string());
    }
}

#[test]
fn parse_plain_numbers() {
    assert_eq!(parse_i32("60"), Some(60));
    assert_eq!(parse_i32("0"), Some(0));
    assert_eq!(parse_i32("007"), Some(7));
}

#[test]
fn parse_signed_numbers() {
    assert_eq!(parse_i32("-5"), Some(-5));
    assert_eq!(parse_i32("+12"), Some(12));
    assert_eq!(parse_i32("-0"), Some(0));
}

#[test]
fn parse_limits() {
    assert_eq!(parse_i32("2147483647"), Some(i32::MAX));
    assert_eq!(parse_i32("-2147483648"), Some(i32::MIN));
    assert_eq!(parse_i32("2147483648"), None);
    assert_eq!(parse_i32("-2147483649"), None);
    assert_eq!(parse_i32("99999999999999999999"), None);
}

#[test]
fn parse_rejects_non_numbers() {
    assert_eq!(parse_i32(""), None);
    assert_eq!(parse_i32("-"), None);
    assert_eq!(parse_i32("+"), None);
    assert_eq!(parse_i32("abc"), None);
    assert_eq!(parse_i32(" 1"), None);
    assert_eq!(parse_i32("1 "), None);
    assert_eq!(parse_i32("1.5"), None);
    assert_eq!(parse_i32("--1"), None);
    assert_eq!(parse_i32("99999999999x"), None);
}

#[test]
fn parse_agrees_with_std() {
    for s in ["60", "-60", "+60", "", "-", "x1", "1x", "2147483647", "2147483648", "-2147483648", "０"] {
        assert_eq!(parse_i32(s), s.parse::<i32>().ok(), "text {:?}", s);
    }
}

#[test]
fn parse_reads_what_decimal_writes() {
    for n in [i32::MIN, -1234, -1, 0, 1, 4321, i32::MAX] {
        assert_eq!(parse_i32(&decimal(n)), Some(n));
    }
}
