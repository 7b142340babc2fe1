//! Decimal rendering and parsing.

use marketplace_core::decimal::{
    cents_to_string, i64_to_dec, id_message, micro_to_string, parse_i32_dec, u64_to_dec,
};

#[test]
fn renders_plain_decimals() {
    assert_eq!(u64_to_dec(0), "0");
    assert_eq!(u64_to_dec(7), "7");
    assert_eq!(u64_to_dec(1203), "1203");
    assert_eq!(u64_to_dec(u64::MAX), "18446744073709551615");
    assert_eq!(i64_to_dec(-45), "-45");
    assert_eq!(i64_to_dec(i64::MIN), "-9223372036854775808");
}

#[test]
fn parses_canonical_decimals_only() {
    assert_eq!(parse_i32_dec("0"), Some(0));
    assert_eq!(parse_i32_dec("42"), Some(42));
    assert_eq!(parse_i32_dec("-42"), Some(-42));
    assert_eq!(parse_i32_dec("2147483647"), Some(i32::MAX));
    assert_eq!(parse_i32_dec("-2147483648"), Some(i32::MIN));
    assert_eq!(parse_i32_dec(""), None);
    assert_eq!(parse_i32_dec("-"), None);
    assert_eq!(parse_i32_dec("007"), None);
    assert_eq!(parse_i32_dec("-0"), None);
    assert_eq!(parse_i32_dec("+7"), None);
    assert_eq!(parse_i32_dec("12a"), None);
    assert_eq!(parse_i32_dec("2147483648"), None);
    assert_eq!(parse_i32_dec("-2147483649"), None);
    assert_eq!(parse_i32_dec("99999999999999999999"), None);
}

#[test]
fn round_trips_every_shape_of_id() {
    for v in [0, 1, -1, 9, 10, -10, 123456, i32::MAX, i32::MIN] {
        assert_eq!(parse_i32_dec(&i64_to_dec(v as i64)), Some(v));
    }
}

#[test]
fn renders_money_with_two_fraction_digits() {
    assert_eq!(cents_to_string(0), "0.00");
    assert_eq!(cents_to_string(5), "0.05");
    assert_eq!(cents_to_string(1000), "10.00");
    assert_eq!(cents_to_string(123456), "1234.56");
}

#[test]
fn renders_micro_degrees_signed_with_six_fraction_digits() {
    assert_eq!(micro_to_string(0), "0.000000");
    assert_eq!(micro_to_string(4_500_000), "4.500000");
    assert_eq!(micro_to_string(-12_345_678), "-12.345678");
    assert_eq!(micro_to_string(1), "0.000001");
}

#[test]
fn builds_messages_around_ids() {
    assert_eq!(id_message("User ", 17, " has been deactivated"), "User 17 has been deactivated");
    assert_eq!(id_message("Drone ", -2, " start position"), "Drone -2 start position");
}
