use dflake::parse;
use dflake::parse_str;
use dflake::parse_u64;
use dflake::Dflake;
use dflake::IntErrorKind;
use dflake::ParseError;

#[test]
fn decode_is_deterministic() {
    for x in [0u64, 1, 3971046231244935168, 12345678901234567890, u64::MAX] {
        let a = parse(x);
        let b = parse(x);
        assert_eq!(a, b);
    }
}

#[test]
fn raw_round_trip() {
    for x in [0u64, 1, 4095, 3971046231244935168, u64::MAX] {
        assert_eq!(parse(x).raw(), x);
        assert_eq!(parse(x).raw, x);
    }
}

#[test]
fn field_ranges() {
    for x in [0u64, 1, 0xFFF, 0x1F000, 0x3E0000, 3971046231244935168, u64::MAX] {
        let d = parse(x);
        assert!(d.worker_id <= 31);
        assert!(d.process_id <= 31);
        assert!(d.increment <= 4095);
    }
}

#[test]
fn known_value() {
    let d = parse(3971046231244935168);
    assert_eq!(d.raw, 3971046231244935168);
    assert_eq!(d.timestamp, 314619904);
    assert_eq!(d.worker_id, 1);
    assert_eq!(d.process_id, 1);
    assert_eq!(d.increment, 0);
}

#[test]
fn decode_zero() {
    let d = parse(0);
    assert_eq!(d.timestamp, 2731192320);
    assert_eq!(d.worker_id, 0);
    assert_eq!(d.process_id, 0);
    assert_eq!(d.increment, 0);
}

#[test]
fn decode_max() {
    let d = parse(u64::MAX);
    assert_eq!(d.timestamp, 2731192319);
    assert_eq!(d.worker_id, 31);
    assert_eq!(d.process_id, 31);
    assert_eq!(d.increment, 4095);
}

#[test]
fn whitespace_rejected() {
    assert_eq!(parse_str(" 123"), Err(ParseError::ContainsWhitespace));
    assert_eq!(parse_str("12 3"), Err(ParseError::ContainsWhitespace));
    assert_eq!(parse_str("123\t"), Err(ParseError::ContainsWhitespace));
}

#[test]
fn non_ascii_whitespace_rejected() {
    // No-break space has the Unicode White_Space property.
    assert_eq!(parse_str("1\u{00A0}2"), Err(ParseError::ContainsWhitespace));
}

#[test]
fn non_numeric_rejected() {
    assert_eq!(parse_str("12a3"), Err(ParseError::InvalidChar));
    assert_eq!(parse_str("-123"), Err(ParseError::InvalidChar));
    assert_eq!(parse_str("12.3"), Err(ParseError::InvalidChar));
    assert_eq!(parse_str("+123"), Err(ParseError::InvalidChar));
}

#[test]
fn too_long_rejected() {
    assert_eq!(
        parse_str("123456789012345678901"),
        Err(ParseError::TooLarge)
    );
}

#[test]
fn twenty_digits_in_range_accepted() {
    let d = parse_str("12345678901234567890").unwrap();
    assert_eq!(d.raw, 12345678901234567890);
    assert_eq!(d.timestamp, 4117816236);
    assert_eq!(d.worker_id, 15);
    assert_eq!(d.process_id, 16);
    assert_eq!(d.increment, 2770);
}

#[test]
fn twenty_digits_overflowing_rejected() {
    assert_eq!(
        parse_str("99999999999999999999"),
        Err(ParseError::ParseIntError(IntErrorKind::PosOverflow))
    );
    // The largest representable value itself still parses.
    let d = parse_str("18446744073709551615").unwrap();
    assert_eq!(d.raw, u64::MAX);
    // One above it does not.
    assert_eq!(
        parse_str("18446744073709551616"),
        Err(ParseError::ParseIntError(IntErrorKind::PosOverflow))
    );
}

#[test]
fn empty_string_rejected_at_parse() {
    assert_eq!(
        parse_str(""),
        Err(ParseError::ParseIntError(IntErrorKind::Empty))
    );
}

#[test]
fn whitespace_check_precedes_length_check() {
    // Both too long and holding whitespace: the whitespace wins.
    assert_eq!(
        parse_str("1234567890 1234567890123"),
        Err(ParseError::ContainsWhitespace)
    );
}

#[test]
fn numeric_but_not_ascii_digit_fails_at_parse() {
    // Arabic-Indic digits pass the numeric-character check but are not
    // ASCII decimal digits, so the integer parse rejects them.
    assert_eq!(
        parse_str("\u{0661}\u{0662}\u{0663}"),
        Err(ParseError::ParseIntError(IntErrorKind::InvalidDigit))
    );
    // Superscript three is in a numeric category too.
    assert_eq!(
        parse_str("12\u{00B3}"),
        Err(ParseError::ParseIntError(IntErrorKind::InvalidDigit))
    );
}

#[test]
fn simple_strings_accepted() {
    assert_eq!(parse_str("0").unwrap().raw, 0);
    assert_eq!(parse_str("3971046231244935168").unwrap(), parse(3971046231244935168));
    let borrowed: &str = &String::from("42");
    assert_eq!(parse_str(borrowed).unwrap().raw, 42);
}

#[test]
fn parse_u64_spells_the_numeral() {
    assert_eq!(parse_u64("0"), Ok(0));
    assert_eq!(parse_u64("0042"), Ok(42));
    assert_eq!(parse_u64("18446744073709551615"), Ok(u64::MAX));
    assert_eq!(parse_u64(""), Err(IntErrorKind::Empty));
    assert_eq!(parse_u64("4x2"), Err(IntErrorKind::InvalidDigit));
    assert_eq!(parse_u64("18446744073709551616"), Err(IntErrorKind::PosOverflow));
    assert_eq!(
        parse_u64("999999999999999999999999999999"),
        Err(IntErrorKind::PosOverflow)
    );
}

#[test]
fn error_messages_are_distinct() {
    let errors = [
        ParseError::TooSmall,
        ParseError::TooLarge,
        ParseError::ContainsWhitespace,
        ParseError::InvalidChar,
        ParseError::ParseIntError(IntErrorKind::Empty),
        ParseError::ParseIntError(IntErrorKind::InvalidDigit),
        ParseError::ParseIntError(IntErrorKind::PosOverflow),
    ];
    for (i, a) in errors.iter().enumerate() {
        for (j, b) in errors.iter().enumerate() {
            assert_eq!(i == j, a.message() == b.message());
        }
    }
    assert!(ParseError::TooSmall.message().contains("too small"));
    assert!(ParseError::TooLarge.message().contains("too large"));
    assert!(ParseError::ContainsWhitespace.message().contains("whitespace"));
    assert!(ParseError::InvalidChar.message().contains("invalid character"));
    assert!(ParseError::ParseIntError(IntErrorKind::Empty)
        .message()
        .contains("integer"));
}

#[test]
fn datetime_truncates_to_whole_seconds() {
    let d = parse(3971046231244935168);
    assert_eq!(d.timestamp, 314619904);
    let expected = chrono::DateTime::<chrono::Utc>::from_timestamp(314619, 0)
        .unwrap()
        .naive_utc();
    assert_eq!(d.datetime(), expected);

    let z: Dflake = parse(0);
    let expected_zero = chrono::DateTime::<chrono::Utc>::from_timestamp(2731192, 0)
        .unwrap()
        .naive_utc();
    assert_eq!(z.datetime(), expected_zero);
}
