use anteater::text::{
    joined, decimal_string, hex_string, numeral_string, prefixed_hex, right_aligned_decimal, split_lines,
    signed_decimal_string, str_eq, str_starts_with,
};

#[test]
fn numerals() {
    assert_eq!(decimal_string(0), "0");
    assert_eq!(decimal_string(1234567890), "1234567890");
    assert_eq!(hex_string(0xab, 2), "ab");
    assert_eq!(hex_string(0xa, 2), "0a");
    assert_eq!(hex_string(0x12345, 2), "12345");
    assert_eq!(prefixed_hex(0x401238, 8), "0x00401238");
    assert_eq!(prefixed_hex(0, 0), "0x0");
    assert_eq!(numeral_string(255, 10, 5), "00255");
    assert_eq!(right_aligned_decimal(42, 4), "  42");
    assert_eq!(right_aligned_decimal(123456, 4), "123456");
}

#[test]
fn lines_like_std() {
    for text in ["", "a", "a\n", "a\nb", "a\r\nb\r\n", "\n", "\n\n", "a\rb", "x\r", "é\nü"] {
        let expected: Vec<String> = text.lines().map(|l| l.to_string()).collect();
        assert_eq!(split_lines(text), expected, "text {:?}", text);
    }
}

#[test]
fn string_helpers() {
    assert!(str_eq("abc", "abc"));
    assert!(!str_eq("abc", "abd"));
    assert!(!str_eq("ab", "abc"));
    assert!(str_starts_with("std::rt", "std::"));
    assert!(!str_starts_with("st", "std::"));
    assert_eq!(joined("fn ", "main"), "fn main");
}

#[test]
fn signed_decimals() {
    assert_eq!(signed_decimal_string(0), "0");
    assert_eq!(signed_decimal_string(-1), "-1");
    assert_eq!(signed_decimal_string(1234), "1234");
    assert_eq!(signed_decimal_string(i64::MIN), "-9223372036854775808");
    assert_eq!(signed_decimal_string(i64::MAX), "9223372036854775807");
}
