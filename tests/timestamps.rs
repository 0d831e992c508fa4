use slack_api::json::JsonValue;
use slack_api::timestamp::{Timestamp, TimestampError, TimestampHalf};

#[test]
fn decimal_text_reads_microseconds() {
    let t = Timestamp::decode_str("1525306421.000207").unwrap();
    assert_eq!(t.microseconds(), 1525306421000207);
    assert_eq!(t.to_string(), "1525306421.000207".to_string());
}

#[test]
fn integer_seconds_equal_their_decimal_text() {
    let a = Timestamp::decode(&JsonValue::UInt(1609459200)).unwrap();
    let b = Timestamp::decode(&JsonValue::Str("1609459200.000000".to_string())).unwrap();
    assert_eq!(a, b);
    assert_eq!(a.microseconds(), 1609459200000000);
}

#[test]
fn short_fraction_is_a_fixed_point_fraction() {
    assert_eq!(Timestamp::decode_str("12.5").unwrap().microseconds(), 12_500_000);
    assert_eq!(Timestamp::decode_str("12.05").unwrap().microseconds(), 12_050_000);
    assert_eq!(Timestamp::decode_str("0.000001").unwrap().microseconds(), 1);
}

#[test]
fn text_without_dot_is_missing_its_separator() {
    assert_eq!(Timestamp::decode_str("bad"), Err(TimestampError::MissingFractionalSeparator));
    assert_eq!(Timestamp::decode_str(""), Err(TimestampError::MissingFractionalSeparator));
}

#[test]
fn second_dot_fails_the_fractional_half() {
    assert_eq!(
        Timestamp::decode_str("12.34.56"),
        Err(TimestampError::NotANumber(TimestampHalf::Fractional))
    );
}

#[test]
fn bad_halves_are_named() {
    assert_eq!(Timestamp::decode_str("x1.5"), Err(TimestampError::NotANumber(TimestampHalf::Seconds)));
    assert_eq!(Timestamp::decode_str(".5"), Err(TimestampError::NotANumber(TimestampHalf::Seconds)));
    assert_eq!(Timestamp::decode_str("15."), Err(TimestampError::NotANumber(TimestampHalf::Fractional)));
    assert_eq!(
        Timestamp::decode_str("1.1234567"),
        Err(TimestampError::NotANumber(TimestampHalf::Fractional))
    );
}

#[test]
fn text_longer_than_seventeen_bytes_is_too_long() {
    assert_eq!(Timestamp::decode_str("1525306421.0002070"), Err(TimestampError::TimestampTooLong));
    assert_eq!(Timestamp::decode_str("15253064210.00020").unwrap().microseconds(), 15253064210000200);
}

#[test]
fn other_shapes_are_unsupported() {
    assert_eq!(Timestamp::decode(&JsonValue::Null), Err(TimestampError::UnsupportedShape));
    assert_eq!(Timestamp::decode(&JsonValue::Bool(true)), Err(TimestampError::UnsupportedShape));
    assert_eq!(Timestamp::decode(&JsonValue::NegInt(-5)), Err(TimestampError::UnsupportedShape));
    assert_eq!(Timestamp::decode(&JsonValue::Array(vec![])), Err(TimestampError::UnsupportedShape));
}

#[test]
fn seconds_past_u64_are_out_of_range() {
    assert_eq!(Timestamp::decode_seconds(u64::MAX), Err(TimestampError::OutOfRange));
    assert_eq!(Timestamp::decode_seconds(18_446_744_073_709).unwrap().microseconds(), 18_446_744_073_709_000_000);
    assert_eq!(Timestamp::decode_seconds(18_446_744_073_710), Err(TimestampError::OutOfRange));
    assert_eq!(Timestamp::decode_str("99999999999999.5"), Err(TimestampError::OutOfRange));
}

#[test]
fn encoding_then_decoding_gives_the_same_instant() {
    for m in [0u64, 1, 999_999, 1_000_000, 1525306421000207, 9_999_999_999_999_999] {
        let t = Timestamp::from_microseconds(m);
        assert_eq!(Timestamp::decode_str(&t.to_string()), Ok(t));
    }
}

#[test]
fn encoding_pads_the_fraction_to_six_digits() {
    assert_eq!(Timestamp::from_microseconds(0).to_string(), "0.000000".to_string());
    assert_eq!(Timestamp::from_microseconds(12_500_000).to_string(), "12.500000".to_string());
}

#[test]
fn calendar_datetime_of_a_timestamp() {
    let t = Timestamp::decode_str("1525306421.000207").unwrap();
    assert_eq!(t.datetime_parts(), (1525306421, 207_000));
    let c = t.to_datetime().unwrap();
    assert_eq!((c.year, c.month, c.day), (2018, 5, 3));
    assert_eq!((c.hour, c.minute, c.second, c.nanosecond), (0, 13, 41, 207_000));
}

#[test]
fn calendar_datetime_past_the_calendar_is_out_of_range() {
    assert_eq!(Timestamp::from_microseconds(u64::MAX).to_datetime(), Err(TimestampError::OutOfRange));
}

#[test]
fn text_of_an_instant_past_ten_billion_seconds_is_too_long_to_read_back() {
    let t = Timestamp::from_microseconds(10_000_000_000_000_000);
    assert_eq!(t.to_string(), "10000000000.000000".to_string());
    assert_eq!(Timestamp::decode_str(&t.to_string()), Err(TimestampError::TimestampTooLong));
}
