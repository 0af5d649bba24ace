use stablecoin::amount::{format_amount, parse_amount, AmountError};

#[test]
fn parses_amounts_with_decimals() {
    assert_eq!(parse_amount("1", 6).unwrap(), 1);
    assert_eq!(parse_amount("1.5", 6).unwrap(), 1_500_000);
    assert_eq!(parse_amount("0.000001", 6).unwrap(), 1);
    assert_eq!(parse_amount("1_000.25", 2).unwrap(), 100_025);
}

#[test]
fn formats_amounts() {
    assert_eq!(format_amount(1_500_000, 6), "1.500000");
    assert_eq!(format_amount(100, 2), "1.00");
    assert_eq!(format_amount(10, 0), "10");
}

#[test]
fn parses_whole_amounts_unscaled() {
    assert_eq!(parse_amount("1500000", 6).unwrap(), 1_500_000);
    assert_eq!(parse_amount("0", 6).unwrap(), 0);
    assert_eq!(parse_amount("18446744073709551615", 0).unwrap(), u64::MAX);
}

#[test]
fn rejects_malformed_amounts() {
    assert_eq!(parse_amount("", 6), Err(AmountError::InvalidNumber));
    assert_eq!(parse_amount("abc", 6), Err(AmountError::InvalidNumber));
    assert_eq!(parse_amount("1.5x", 6), Err(AmountError::InvalidNumber));
    assert_eq!(parse_amount("-1", 6), Err(AmountError::InvalidNumber));
}

#[test]
fn rejects_excess_decimal_places() {
    assert_eq!(parse_amount("1.2345678", 6), Err(AmountError::TooManyDecimalPlaces));
    assert_eq!(parse_amount("0.001", 2), Err(AmountError::TooManyDecimalPlaces));
}

#[test]
fn rejects_overflowing_amounts() {
    assert_eq!(parse_amount("18446744073709551616", 0), Err(AmountError::Overflow));
    assert_eq!(parse_amount("18446744073709551615.0", 6), Err(AmountError::Overflow));
    assert_eq!(parse_amount("1.0", 20), Err(AmountError::Overflow));
}

#[test]
fn parses_edge_shapes() {
    // A bare point is an empty whole part and an empty fraction: zero.
    assert_eq!(parse_amount(".", 2).unwrap(), 0);
    assert_eq!(parse_amount(".5", 1).unwrap(), 5);
    assert_eq!(parse_amount("2.", 3).unwrap(), 2_000);
    assert_eq!(parse_amount("1_2_3", 0).unwrap(), 123);
}

#[test]
fn formats_zero_and_carries_padding() {
    assert_eq!(format_amount(0, 2), "0.00");
    assert_eq!(format_amount(7, 6), "0.000007");
    assert_eq!(format_amount(123_456_789, 4), "12345.6789");
    assert_eq!(format_amount(0, 0), "0");
}

#[test]
fn format_round_trips_through_parse() {
    for (amount, decimals) in [(0u64, 6u8), (1, 6), (1_500_000, 6), (100_025, 2), (42, 0)] {
        let text = format_amount(amount, decimals);
        assert_eq!(parse_amount(&text, decimals).unwrap(), amount);
    }
}
