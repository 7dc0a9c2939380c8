use rs_kafka_mongo::text::{decimal, parse_u64};

#[test]
fn integers_are_written_in_decimal() {
    assert_eq!(decimal(0), "0");
    assert_eq!(decimal(9), "9");
    assert_eq!(decimal(10), "10");
    assert_eq!(decimal(1234567890), "1234567890");
    assert_eq!(decimal(-1), "-1");
    assert_eq!(decimal(-100), "-100");
    assert_eq!(decimal(i64::MAX), "9223372036854775807");
    assert_eq!(decimal(i64::MIN), "-9223372036854775808");
}

#[test]
fn decimal_agrees_with_the_standard_rendering() {
    let mut n: i64 = 1;
    for _ in 0..62 {
        assert_eq!(decimal(n), n.to_string());
        assert_eq!(decimal(-n), (-n).to_string());
        assert_eq!(decimal(n - 1), (n - 1).to_string());
        n *= 2;
    }
}

#[test]
fn numbers_are_read_from_digits() {
    assert_eq!(parse_u64("0"), Some(0));
    assert_eq!(parse_u64("24"), Some(24));
    assert_eq!(parse_u64("+24"), Some(24));
    assert_eq!(parse_u64("000"), Some(0));
    assert_eq!(parse_u64("18446744073709551615"), Some(u64::MAX));
    assert_eq!(parse_u64("018446744073709551615"), Some(u64::MAX));
}

#[test]
fn anything_else_is_not_a_number() {
    for text in ["", "+", "-0", "1a", "a1", " 1", "1\n", "1.0", "+-1", "18446744073709551616", "1e3", "\u{ff11}"] {
        assert_eq!(parse_u64(text), None);
    }
}

#[test]
fn reading_agrees_with_the_standard_parser() {
    for text in ["0", "5", "+5", "-5", "", "+", "12345678901234567890", "99999999999999999999", "0000000000000000000000001", "4 2", "42"] {
        assert_eq!(parse_u64(text), text.parse::<u64>().ok());
    }
}
