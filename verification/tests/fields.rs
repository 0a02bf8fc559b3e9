use twsapi_core::common::DOUBLE_SCALE;
use twsapi_core::common::UNSET_DOUBLE;
use twsapi_core::fields::ParseError;
use twsapi_core::fields::direction_name;
use twsapi_core::fields::parse_bool_field;
use twsapi_core::fields::parse_conjunction;
use twsapi_core::fields::parse_fixed;
use twsapi_core::fields::parse_i32;
use twsapi_core::fields::parse_i64;
use twsapi_core::fields::render_bool;
use twsapi_core::fields::render_conjunction;
use twsapi_core::fields::render_fixed;
use twsapi_core::fields::render_i32;
use twsapi_core::fields::render_i64;
use twsapi_core::fields::render_opt_double;
use twsapi_core::fields::render_u64;
use twsapi_core::fields::str_eq;

#[test]
fn renders_naturals() {
    assert_eq!(render_u64(0), "0");
    assert_eq!(render_u64(7), "7");
    assert_eq!(render_u64(10), "10");
    assert_eq!(render_u64(90210), "90210");
    assert_eq!(render_u64(u64::MAX), "18446744073709551615");
}

#[test]
fn renders_signed_integers() {
    assert_eq!(render_i64(0), "0");
    assert_eq!(render_i64(-17), "-17");
    assert_eq!(render_i64(i64::MIN), "-9223372036854775808");
    assert_eq!(render_i32(2147483647), "2147483647");
    assert_eq!(render_i32(-2147483648), "-2147483648");
}

#[test]
fn renders_fixed_point_amounts() {
    // amounts count ten-thousandths: 505000 is 50.5
    assert_eq!(DOUBLE_SCALE, 10_000);
    assert_eq!(render_fixed(50 * DOUBLE_SCALE + 5_000), "50.5000");
    assert_eq!(render_fixed(505_000), "50.5000");
    assert_eq!(render_fixed(0), "0.0000");
    assert_eq!(render_fixed(-2_500), "-0.2500");
    assert_eq!(render_fixed(100), "0.0100");
    assert_eq!(render_fixed(i64::MIN), "-922337203685477.5808");
    assert_eq!(render_fixed(i64::MAX), "922337203685477.5807");
}

#[test]
fn sentinel_renders_as_marker_distinct_from_zero() {
    let unset = render_opt_double(UNSET_DOUBLE);
    let zero = render_opt_double(0);
    assert_eq!(unset, "UNSET");
    assert_eq!(zero, "0.0000");
    assert_ne!(unset, zero);
}

#[test]
fn renders_flags() {
    assert_eq!(render_bool(true), "1");
    assert_eq!(render_bool(false), "0");
    assert_eq!(render_conjunction(true), "a");
    assert_eq!(render_conjunction(false), "o");
    assert_eq!(direction_name(true), "above");
    assert_eq!(direction_name(false), "below");
}

#[test]
fn parses_signed_integers() {
    assert_eq!(parse_i64("123"), Ok(123));
    assert_eq!(parse_i64("-123"), Ok(-123));
    assert_eq!(parse_i64("0"), Ok(0));
    assert_eq!(parse_i64("007"), Ok(7));
    assert_eq!(parse_i64("9223372036854775807"), Ok(i64::MAX));
    assert_eq!(parse_i64("-9223372036854775808"), Ok(i64::MIN));
}

#[test]
fn rejects_malformed_integers() {
    assert_eq!(parse_i64(""), Err(ParseError::Malformed));
    assert_eq!(parse_i64("-"), Err(ParseError::Malformed));
    assert_eq!(parse_i64("12a"), Err(ParseError::Malformed));
    assert_eq!(parse_i64("1 2"), Err(ParseError::Malformed));
    assert_eq!(parse_i64("+5"), Err(ParseError::Malformed));
}

#[test]
fn rejects_out_of_range_integers() {
    assert_eq!(parse_i64("9223372036854775808"), Err(ParseError::OutOfRange));
    assert_eq!(parse_i64("-9223372036854775809"), Err(ParseError::OutOfRange));
    assert_eq!(parse_i64("99999999999999999999999"), Err(ParseError::OutOfRange));
    assert_eq!(parse_i32("2147483648"), Err(ParseError::OutOfRange));
    assert_eq!(parse_i32("-2147483649"), Err(ParseError::OutOfRange));
    assert_eq!(parse_i32("2147483647"), Ok(i32::MAX));
}

#[test]
fn parses_fixed_point_amounts() {
    assert_eq!(parse_fixed("50.5"), Ok(505_000));
    assert_eq!(parse_fixed("50.5000"), Ok(505_000));
    assert_eq!(parse_fixed("-0.25"), Ok(-2_500));
    assert_eq!(parse_fixed("7"), Ok(70_000));
    assert_eq!(parse_fixed("0.0001"), Ok(1));
    assert_eq!(parse_fixed("-922337203685477.5808"), Ok(i64::MIN));
    assert_eq!(parse_fixed("922337203685477.5807"), Ok(i64::MAX));
}

#[test]
fn rejects_malformed_fixed_point_amounts() {
    assert_eq!(parse_fixed(""), Err(ParseError::Malformed));
    assert_eq!(parse_fixed(".5"), Err(ParseError::Malformed));
    assert_eq!(parse_fixed("1."), Err(ParseError::Malformed));
    assert_eq!(parse_fixed("1.23456"), Err(ParseError::Malformed));
    assert_eq!(parse_fixed("1.2.3"), Err(ParseError::Malformed));
    assert_eq!(parse_fixed("-"), Err(ParseError::Malformed));
    assert_eq!(parse_fixed("12x.5"), Err(ParseError::Malformed));
}

#[test]
fn rejects_out_of_range_fixed_point_amounts() {
    assert_eq!(parse_fixed("922337203685478"), Err(ParseError::OutOfRange));
    assert_eq!(parse_fixed("922337203685477.5808"), Err(ParseError::OutOfRange));
    assert_eq!(parse_fixed("-922337203685477.5809"), Err(ParseError::OutOfRange));
}

#[test]
fn fixed_point_round_trips_through_rendering() {
    for v in [0i64, 1, -1, 505_000, -2_500, 123_456_789, i64::MIN, i64::MAX] {
        assert_eq!(parse_fixed(&render_fixed(v)), Ok(v));
    }
}

#[test]
fn integers_round_trip_through_rendering() {
    for v in [0i64, 5, -5, 42_000, i64::MIN, i64::MAX] {
        assert_eq!(parse_i64(&render_i64(v)), Ok(v));
    }
}

#[test]
fn parses_flags() {
    assert_eq!(parse_bool_field("1"), Ok(true));
    assert_eq!(parse_bool_field("0"), Ok(false));
    assert_eq!(parse_bool_field("x"), Err(ParseError::Malformed));
    assert_eq!(parse_conjunction("a"), Ok(true));
    assert_eq!(parse_conjunction("o"), Ok(false));
    assert_eq!(parse_conjunction("1"), Err(ParseError::Malformed));
}

#[test]
fn compares_strings_by_characters() {
    assert!(str_eq("BUY", "BUY"));
    assert!(!str_eq("BUY", "SELL"));
    assert!(!str_eq("BUY", "BU"));
    assert!(str_eq("", ""));
}
