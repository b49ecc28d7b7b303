use ferris_watch::digits::i32_to_decimal;
use ferris_watch::digits::u64_to_decimal;

#[test]
fn unsigned_decimal_rendering_is_exact() {
    assert_eq!(u64_to_decimal(0).as_str(), "0");
    assert_eq!(u64_to_decimal(9).as_str(), "9");
    assert_eq!(u64_to_decimal(10).as_str(), "10");
    assert_eq!(u64_to_decimal(170).as_str(), "170");
    assert_eq!(u64_to_decimal(u64::MAX).as_str(), "18446744073709551615");
}

#[test]
fn signed_decimal_rendering_is_exact() {
    assert_eq!(i32_to_decimal(0).as_str(), "0");
    assert_eq!(i32_to_decimal(-3).as_str(), "-3");
    assert_eq!(i32_to_decimal(i32::MIN).as_str(), "-2147483648");
    assert_eq!(i32_to_decimal(i32::MAX).as_str(), "2147483647");
}
