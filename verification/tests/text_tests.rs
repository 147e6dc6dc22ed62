use sparrow_db::text::{i64_to_decimal, parse_bool, parse_i32, parse_i64, parse_u128, parse_u64, parse_usize, u128_to_decimal, u64_to_decimal};

#[test]
fn decimal_text() {
    assert_eq!(u64_to_decimal(0), "0");
    assert_eq!(u64_to_decimal(u64::MAX), "18446744073709551615");
    assert_eq!(i64_to_decimal(i64::MIN), "-9223372036854775808");
    assert_eq!(u128_to_decimal(1234567890123456789012345678901234567u128), "1234567890123456789012345678901234567");
}

#[test]
fn number_parsing_matches_std() {
    for t in ["0", "42", "+7", "-1", "", "18446744073709551615", "18446744073709551616", " 1", "1_0"] {
        assert_eq!(parse_u64(t), t.parse::<u64>().ok(), "u64 {t:?}");
        assert_eq!(parse_u128(t), t.parse::<u128>().ok(), "u128 {t:?}");
        assert_eq!(parse_usize(t), t.parse::<usize>().ok(), "usize {t:?}");
        assert_eq!(parse_i64(t), t.parse::<i64>().ok(), "i64 {t:?}");
        assert_eq!(parse_i32(t), t.parse::<i32>().ok(), "i32 {t:?}");
    }
    for t in ["-9223372036854775808", "9223372036854775807", "9223372036854775808", "-2147483649", "-", "+"] {
        assert_eq!(parse_i64(t), t.parse::<i64>().ok(), "i64 {t:?}");
        assert_eq!(parse_i32(t), t.parse::<i32>().ok(), "i32 {t:?}");
    }
    for t in ["true", "false", "True", "1", ""] {
        assert_eq!(parse_bool(t), t.parse::<bool>().ok(), "bool {t:?}");
    }
}
