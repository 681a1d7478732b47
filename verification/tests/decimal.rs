use tg_gpt::decimal::{format_i64, format_u64, parse_i64, parse_u64};

#[test]
fn format_u64_writes_decimal_digits() {
    assert_eq!(format_u64(0), "0");
    assert_eq!(format_u64(7), "7");
    assert_eq!(format_u64(10), "10");
    assert_eq!(format_u64(1234567890), "1234567890");
    assert_eq!(format_u64(u64::MAX), "18446744073709551615");
}

#[test]
fn format_i64_writes_the_sign() {
    assert_eq!(format_i64(0), "0");
    assert_eq!(format_i64(42), "42");
    assert_eq!(format_i64(-1), "-1");
    assert_eq!(format_i64(-1001234567890), "-1001234567890");
    assert_eq!(format_i64(i64::MAX), "9223372036854775807");
    assert_eq!(format_i64(i64::MIN), "-9223372036854775808");
}

#[test]
fn parse_i64_reads_signed_digits() {
    assert_eq!(parse_i64("0"), Some(0));
    assert_eq!(parse_i64("14"), Some(14));
    assert_eq!(parse_i64("+14"), Some(14));
    assert_eq!(parse_i64("-14"), Some(-14));
    assert_eq!(parse_i64("007"), Some(7));
    assert_eq!(parse_i64("-0"), Some(0));
    assert_eq!(parse_i64("9223372036854775807"), Some(i64::MAX));
    assert_eq!(parse_i64("-9223372036854775808"), Some(i64::MIN));
}

#[test]
fn parse_i64_refuses_other_text() {
    assert_eq!(parse_i64(""), None);
    assert_eq!(parse_i64("-"), None);
    assert_eq!(parse_i64("+"), None);
    assert_eq!(parse_i64("12a"), None);
    assert_eq!(parse_i64(" 12"), None);
    assert_eq!(parse_i64("12 "), None);
    assert_eq!(parse_i64("--1"), None);
    assert_eq!(parse_i64("1-"), None);
    assert_eq!(parse_i64("٣"), None);
    assert_eq!(parse_i64("9223372036854775808"), None);
    assert_eq!(parse_i64("-9223372036854775809"), None);
    assert_eq!(parse_i64("99999999999999999999999999999999999999999"), None);
}

#[test]
fn parse_i64_agrees_with_the_standard_parser() {
    let texts = [
        "0", "1", "-1", "+1", "", "-", "+", "00", "-00", "+-1", "1+", "abc", "12345678901234567890",
        "9223372036854775807", "9223372036854775808", "-9223372036854775808",
        "-9223372036854775809", "1_000", "0x10", "1.0", "١٢",
    ];
    for text in texts {
        assert_eq!(parse_i64(text), text.parse::<i64>().ok(), "text {:?}", text);
    }
}

#[test]
fn format_agrees_with_the_standard_formatter() {
    let numbers = [0i64, 1, -1, 9, 10, 99, 100, -100, 14, i64::MAX, i64::MIN, -1001234567890];
    for n in numbers {
        assert_eq!(format_i64(n), n.to_string());
        assert_eq!(parse_i64(&format_i64(n)), Some(n));
    }
    for n in [0u64, 5, 10, 4294967296, u64::MAX] {
        assert_eq!(format_u64(n), n.to_string());
    }
}

#[test]
fn parse_u64_agrees_with_the_standard_parser() {
    let texts = [
        "0", "1", "-1", "+1", "", "-", "+", "00", "-0", "+-1", "1+", "abc", "18446744073709551615",
        "18446744073709551616", "+18446744073709551615", "99999999999999999999999", "1_000",
        " 1", "10",
    ];
    for text in texts {
        assert_eq!(parse_u64(text), text.parse::<u64>().ok(), "text {:?}", text);
    }
    assert_eq!(parse_u64("18446744073709551615"), Some(u64::MAX));
    assert_eq!(parse_u64("-0"), None);
    assert_eq!(parse_u64(&format_u64(4294967296)), Some(4294967296));
}
