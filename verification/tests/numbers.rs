use listenfd::text::{parse_i32, push_decimal, push_natural};

fn decimal(n: i64) -> String {
    let mut buf = String::new();
    push_decimal(&mut buf, n);
    buf
}

#[test]
fn parse_plain_digits() {
    assert_eq!(parse_i32("0"), Some(0));
    assert_eq!(parse_i32("7"), Some(7));
    assert_eq!(parse_i32("42"), Some(42));
    assert_eq!(parse_i32("0003"), Some(3));
}

#[test]
fn parse_signs() {
    assert_eq!(parse_i32("+5"), Some(5));
    assert_eq!(parse_i32("-5"), Some(-5));
    assert_eq!(parse_i32("-0"), Some(0));
    assert_eq!(parse_i32("+"), None);
    assert_eq!(parse_i32("-"), None);
    assert_eq!(parse_i32("+-5"), None);
    assert_eq!(parse_i32("--5"), None);
}

#[test]
fn parse_rejects_other_text() {
    assert_eq!(parse_i32(""), None);
    assert_eq!(parse_i32(" 5"), None);
    assert_eq!(parse_i32("5 "), None);
    assert_eq!(parse_i32("5a"), None);
    assert_eq!(parse_i32("a5"), None);
    assert_eq!(parse_i32("1_000"), None);
    assert_eq!(parse_i32("0x10"), None);
    assert_eq!(parse_i32("1.0"), None);
    assert_eq!(parse_i32("\u{0663}"), None);
}

#[test]
fn parse_limits_of_i32() {
    assert_eq!(parse_i32("2147483647"), Some(i32::MAX));
    assert_eq!(parse_i32("2147483648"), None);
    assert_eq!(parse_i32("-2147483648"), Some(i32::MIN));
    assert_eq!(parse_i32("-2147483649"), None);
    assert_eq!(parse_i32("+2147483647"), Some(i32::MAX));
    assert_eq!(parse_i32("99999999999999999999999999"), None);
    assert_eq!(parse_i32("00000000000000000000000001"), Some(1));
}

#[test]
fn parse_agrees_with_std() {
    let samples = [
        "", "0", "-1", "+1", "12", "-12", "2147483647", "2147483648", "-2147483648",
        "-2147483649", "abc", "1a", " 1", "1 ", "+", "-", "++1", "0000", "-0000", "4294967296",
    ];
    for s in samples {
        assert_eq!(parse_i32(s), s.parse::<i32>().ok(), "text {:?}", s);
    }
}

#[test]
fn decimal_of_small_numbers() {
    assert_eq!(decimal(0), "0");
    assert_eq!(decimal(9), "9");
    assert_eq!(decimal(10), "10");
    assert_eq!(decimal(305), "305");
    assert_eq!(decimal(-1), "-1");
    assert_eq!(decimal(-120), "-120");
}

#[test]
fn decimal_of_extremes() {
    assert_eq!(decimal(i64::MAX), "9223372036854775807");
    assert_eq!(decimal(i64::MIN), "-9223372036854775808");
    assert_eq!(decimal(i32::MIN as i64), "-2147483648");
}

#[test]
fn natural_is_appended() {
    let mut buf = String::from("pid ");
    push_natural(&mut buf, 4321);
    assert_eq!(buf, "pid 4321");
    push_natural(&mut buf, u64::MAX);
    assert_eq!(buf, "pid 432118446744073709551615");
}

#[test]
fn decimal_round_trip() {
    for n in [0i32, 1, -1, 3, 99, 100, -100, 65535, i32::MAX, i32::MIN] {
        assert_eq!(parse_i32(&decimal(n as i64)), Some(n));
    }
}
