use gitlab_xsearch::decimal::i32_to_decimal;
use gitlab_xsearch::decimal::parse_i32;
use gitlab_xsearch::decimal::parse_u64;
use gitlab_xsearch::decimal::u64_to_decimal;

#[test]
fn unsigned_numbers_are_read() {
    assert_eq!(parse_u64("3"), Some(3));
    assert_eq!(parse_u64("0"), Some(0));
    assert_eq!(parse_u64("007"), Some(7));
    assert_eq!(parse_u64("+12"), Some(12));
    assert_eq!(parse_u64("18446744073709551615"), Some(u64::MAX));
    assert_eq!(parse_u64("00000000000000000000000000000000000001"), Some(1));
}

#[test]
fn what_is_no_unsigned_number_is_refused() {
    assert_eq!(parse_u64(""), None);
    assert_eq!(parse_u64("+"), None);
    assert_eq!(parse_u64("-1"), None);
    assert_eq!(parse_u64("++1"), None);
    assert_eq!(parse_u64("3 "), None);
    assert_eq!(parse_u64(" 3"), None);
    assert_eq!(parse_u64("1_000"), None);
    assert_eq!(parse_u64("12a"), None);
    assert_eq!(parse_u64("٣"), None);
    assert_eq!(parse_u64("18446744073709551616"), None);
    assert_eq!(parse_u64("99999999999999999999999999999999999999999"), None);
}

#[test]
fn unsigned_reading_agrees_with_std() {
    let samples = [
        "", "+", "-", "0", "+0", "-0", "42", "+42", "-42", "4 2", "0x10", "18446744073709551615",
        "18446744073709551616", "000", "9", "a", "1e3",
    ];
    for text in samples {
        assert_eq!(parse_u64(text), text.parse::<u64>().ok());
    }
}

#[test]
fn signed_numbers_are_read() {
    assert_eq!(parse_i32("2"), Some(2));
    assert_eq!(parse_i32("+2"), Some(2));
    assert_eq!(parse_i32("-2"), Some(-2));
    assert_eq!(parse_i32("-0"), Some(0));
    assert_eq!(parse_i32("2147483647"), Some(i32::MAX));
    assert_eq!(parse_i32("-2147483648"), Some(i32::MIN));
}

#[test]
fn what_is_no_signed_number_is_refused() {
    assert_eq!(parse_i32(""), None);
    assert_eq!(parse_i32("-"), None);
    assert_eq!(parse_i32("+"), None);
    assert_eq!(parse_i32("+-2"), None);
    assert_eq!(parse_i32("--2"), None);
    assert_eq!(parse_i32("2147483648"), None);
    assert_eq!(parse_i32("-2147483649"), None);
    assert_eq!(parse_i32("next"), None);
}

#[test]
fn signed_reading_agrees_with_std() {
    let samples = [
        "", "+", "-", "0", "+0", "-0", "42", "+42", "-42", "2147483647", "2147483648",
        "-2147483648", "-2147483649", "007", "-007", "1.5", " 1",
    ];
    for text in samples {
        assert_eq!(parse_i32(text), text.parse::<i32>().ok());
    }
}

#[test]
fn unsigned_numbers_are_written() {
    assert_eq!(u64_to_decimal(0), "0");
    assert_eq!(u64_to_decimal(9), "9");
    assert_eq!(u64_to_decimal(10), "10");
    assert_eq!(u64_to_decimal(123), "123");
    assert_eq!(u64_to_decimal(u64::MAX), "18446744073709551615");
}

#[test]
fn signed_numbers_are_written() {
    assert_eq!(i32_to_decimal(0), "0");
    assert_eq!(i32_to_decimal(1), "1");
    assert_eq!(i32_to_decimal(-5), "-5");
    assert_eq!(i32_to_decimal(i32::MAX), "2147483647");
    assert_eq!(i32_to_decimal(i32::MIN), "-2147483648");
}

#[test]
fn what_is_written_is_read_back() {
    for n in [0u64, 1, 9, 10, 99, 100, 4096, u64::MAX] {
        assert_eq!(parse_u64(&u64_to_decimal(n)), Some(n));
    }
    for n in [i32::MIN, -100, -1, 0, 1, 100, i32::MAX] {
        assert_eq!(parse_i32(&i32_to_decimal(n)), Some(n));
    }
}
