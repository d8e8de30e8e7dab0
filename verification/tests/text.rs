use miai::text::{i64_dec, str_contains_char, str_eq, to_hex_upper, u64_dec};

#[test]
fn decimal_rendering() {
    assert_eq!(u64_dec(0), "0");
    assert_eq!(u64_dec(7), "7");
    assert_eq!(u64_dec(12345), "12345");
    assert_eq!(u64_dec(u64::MAX), "18446744073709551615");
}

#[test]
fn signed_decimal_rendering() {
    assert_eq!(i64_dec(0), "0");
    assert_eq!(i64_dec(42), "42");
    assert_eq!(i64_dec(-42), "-42");
    assert_eq!(i64_dec(i64::MIN), "-9223372036854775808");
    assert_eq!(i64_dec(i64::MAX), "9223372036854775807");
}

#[test]
fn hex_rendering() {
    assert_eq!(to_hex_upper(&[]), "");
    assert_eq!(to_hex_upper(&[0x00, 0x0f, 0xbe, 0xef]), "000FBEEF");
}

#[test]
fn string_helpers() {
    assert!(str_eq("abc", "abc"));
    assert!(!str_eq("abc", "abd"));
    assert!(!str_eq("abc", "abcd"));
    assert!(str_contains_char("a?b", '?'));
    assert!(!str_contains_char("ab", '?'));
}
