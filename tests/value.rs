use des::{ascii_string_to_u64, parse_string_to_u64, parse_trimmed, Value, ValueError};

fn invalid_format(r: Result<u64, ValueError>) -> String {
    match r {
        Err(ValueError::InvalidFormat(m)) => m,
        other => panic!("expected InvalidFormat, got {other:?}"),
    }
}

#[test]
fn parses_hex_literals() {
    assert_eq!(parse_string_to_u64("0x1F").unwrap(), 31);
    assert_eq!(parse_string_to_u64("0X133457799BBCDFF1").unwrap(), 0x1334_5779_9BBC_DFF1);
    assert_eq!(parse_string_to_u64("  0x00ff  ").unwrap(), 255);
    assert_eq!(parse_string_to_u64("0x").unwrap(), 0);
    assert_eq!(parse_string_to_u64("0x0000").unwrap(), 0);
    assert_eq!(parse_string_to_u64("0x0000000000000000000001").unwrap(), 1);
}

#[test]
fn rejects_bad_hex() {
    assert_eq!(
        invalid_format(parse_string_to_u64("0xZZ")),
        "Hex parsing failed: invalid digit found in string"
    );
    assert_eq!(
        invalid_format(parse_string_to_u64("0x1FFFFFFFFFFFFFFFF")),
        "Hex parsing failed: number too large to fit in target type"
    );
}

#[test]
fn parses_binary_literals() {
    assert_eq!(parse_string_to_u64("0b101").unwrap(), 5);
    assert_eq!(parse_string_to_u64("0B0011").unwrap(), 3);
    assert_eq!(parse_string_to_u64("0b").unwrap(), 0);
    assert_eq!(
        invalid_format(parse_string_to_u64("0b102")),
        "Binary string contains invalid characters"
    );
    let too_long = format!("0b1{}", "0".repeat(64));
    assert_eq!(
        invalid_format(parse_string_to_u64(&too_long)),
        "Binary parsing failed: number too large to fit in target type"
    );
}

#[test]
fn parses_decimal_literals() {
    assert_eq!(parse_string_to_u64("12345").unwrap(), 12345);
    assert_eq!(parse_string_to_u64("+7").unwrap(), 7);
    assert_eq!(parse_string_to_u64("18446744073709551615").unwrap(), u64::MAX);
    assert_eq!(
        invalid_format(parse_string_to_u64("18446744073709551616")),
        "number too large for u64"
    );
    assert_eq!(invalid_format(parse_string_to_u64("12a")), "contains invalid digits");
    assert_eq!(invalid_format(parse_string_to_u64("-5")), "contains invalid digits");
}

#[test]
fn empty_text_is_an_error() {
    assert!(matches!(parse_string_to_u64(""), Err(ValueError::EmptyString)));
    assert!(matches!(parse_string_to_u64(" \t\n"), Err(ValueError::EmptyString)));
    assert!(matches!(parse_trimmed(""), Err(ValueError::EmptyString)));
}

#[test]
fn eight_characters_read_as_ascii_little_endian() {
    let expected = u64::from_le_bytes(*b"KGenius!");
    assert_eq!(parse_string_to_u64("KGenius!").unwrap(), expected);
    assert_eq!(parse_string_to_u64("12345678").unwrap(), u64::from_le_bytes(*b"12345678"));
    assert_eq!(ascii_string_to_u64("ABCDEFGH").unwrap(), 0x4847_4645_4443_4241);
}

#[test]
fn ascii_errors() {
    assert!(matches!(ascii_string_to_u64("short"), Err(ValueError::InvalidByteString)));
    match ascii_string_to_u64("\u{e9}abcdef") {
        Err(ValueError::ConversionError(m)) => {
            assert_eq!(m, "String contains non-ASCII characters")
        }
        other => panic!("unexpected {other:?}"),
    }
    match parse_string_to_u64("\u{e9}abcdef") {
        Err(ValueError::ConversionError(_)) => {}
        other => panic!("unexpected {other:?}"),
    }
}

#[test]
fn value_from_literal_and_text() {
    assert_eq!(Value::from_literal("42").map(|v| v.as_64()), Some(42));
    assert!(Value::from_literal(" 42").is_none());
    assert!(Value::from_literal("0x2A").is_none());
    assert_eq!(Value::from_text(" 0x2A ").unwrap().as_64(), 42);
    assert_eq!(u64::from(Value::from(7u64)), 7);
    assert_eq!(Value::new(9).as_64(), 9);
}
