use minicc::text::{
    i64_to_string, is_decimal, is_hexadecimal, is_literal, nat_to_string, numbered, parse_i64,
    parse_usize,
};

#[test]
fn decimal_literals() {
    assert_eq!(parse_i64("0"), Some(0));
    assert_eq!(parse_i64("-0"), Some(0));
    assert_eq!(parse_i64("+42"), Some(42));
    assert_eq!(parse_i64("007"), Some(7));
    assert_eq!(parse_i64("9223372036854775807"), Some(i64::MAX));
    assert_eq!(parse_i64("-9223372036854775808"), Some(i64::MIN));
    assert_eq!(parse_i64("9223372036854775808"), None);
    assert_eq!(parse_i64("-9223372036854775809"), None);
    assert_eq!(parse_i64("99999999999999999999999999"), None);
    assert_eq!(parse_i64(""), None);
    assert_eq!(parse_i64("-"), None);
    assert_eq!(parse_i64("+"), None);
    assert_eq!(parse_i64("1a"), None);
    assert_eq!(parse_i64(" 1"), None);
    assert_eq!(parse_i64("1_0"), None);
    assert_eq!(parse_i64("t0"), None);
}

#[test]
fn parsing_agrees_with_the_standard_library() {
    for s in ["0", "-0", "+7", "-12", "0012", "12x", "", "-", "+", "--1", "9223372036854775808", "٣"] {
        assert_eq!(parse_i64(s), s.parse::<i64>().ok());
        assert_eq!(parse_usize(s), s.parse::<usize>().ok());
        assert_eq!(is_decimal(s), s.parse::<i64>().is_ok());
    }
}

#[test]
fn counts() {
    assert_eq!(parse_usize("3"), Some(3));
    assert_eq!(parse_usize("+3"), Some(3));
    assert_eq!(parse_usize("-3"), None);
    assert_eq!(parse_usize("18446744073709551616"), None);
}

#[test]
fn hexadecimal_literals() {
    assert!(is_hexadecimal("0x1F"));
    assert!(is_hexadecimal("0Xff"));
    assert!(is_hexadecimal("0x+1"));
    assert!(is_hexadecimal("0xFFFFFFFFFFFFFFFF"));
    assert!(!is_hexadecimal("0x10000000000000000"));
    assert!(!is_hexadecimal("0x"));
    assert!(!is_hexadecimal("0x-1"));
    assert!(!is_hexadecimal("1F"));
    assert!(!is_hexadecimal("0xg"));
    assert!(is_literal("0x10"));
    assert!(is_literal("-5"));
    assert!(!is_literal("x"));
    assert!(!is_literal(""));
}

#[test]
fn rendering() {
    assert_eq!(i64_to_string(0), "0");
    assert_eq!(i64_to_string(14), "14");
    assert_eq!(i64_to_string(-305), "-305");
    assert_eq!(i64_to_string(i64::MIN), "-9223372036854775808");
    assert_eq!(i64_to_string(i64::MAX), "9223372036854775807");
    assert_eq!(nat_to_string(1000), "1000");
    assert_eq!(numbered('t', 12), "t12");
}

#[test]
fn rendering_and_parsing_are_inverse() {
    for v in [0i64, 1, -1, 9, 10, -10, 123456789, i64::MIN, i64::MAX] {
        assert_eq!(parse_i64(&i64_to_string(v)), Some(v));
    }
}
