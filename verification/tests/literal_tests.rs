use sea_orm_spanner::literal::{bytes_to_hex, escape_string, uuid_hyphenated, value_to_spanner_literal};
use sea_orm_spanner::value::{Date, DecimalParts, Instant, SqlValue, TimeOfDay};

#[test]
fn escapes_quotes_and_backslashes() {
    assert_eq!(escape_string("it's"), "'it''s'");
    assert_eq!(escape_string("a\\b"), "'a\\\\b'");
    assert_eq!(escape_string(""), "''");
}

#[test]
fn hex_of_bytes() {
    assert_eq!(bytes_to_hex(&[0x00, 0x0f, 0xab, 0xff]), "000fabff");
    assert_eq!(bytes_to_hex(&[]), "");
}

#[test]
fn hyphenated_uuid() {
    let u: [u8; 16] = [
        0x55, 0x0e, 0x84, 0x00, 0xe2, 0x9b, 0x41, 0xd4, 0xa7, 0x16, 0x44, 0x66, 0x55, 0x44, 0x00, 0x00,
    ];
    assert_eq!(uuid_hyphenated(&u), "550e8400-e29b-41d4-a716-446655440000");
}

#[test]
fn literals_of_values() {
    assert_eq!(value_to_spanner_literal(&SqlValue::Bool(Some(true))), Some("TRUE".to_string()));
    assert_eq!(value_to_spanner_literal(&SqlValue::Bool(None)), Some("NULL".to_string()));
    assert_eq!(value_to_spanner_literal(&SqlValue::Int(Some(-42))), Some("-42".to_string()));
    assert_eq!(
        value_to_spanner_literal(&SqlValue::BigInt(Some(i64::MIN))),
        Some("-9223372036854775808".to_string())
    );
    assert_eq!(
        value_to_spanner_literal(&SqlValue::BigUnsigned(Some(u64::MAX))),
        Some("18446744073709551615".to_string())
    );
    assert_eq!(
        value_to_spanner_literal(&SqlValue::String(Some("O'Neil".to_string()))),
        Some("'O''Neil'".to_string())
    );
    assert_eq!(value_to_spanner_literal(&SqlValue::Char(Some('x'))), Some("'x'".to_string()));
    assert_eq!(
        value_to_spanner_literal(&SqlValue::Bytes(Some(vec![1, 2]))),
        Some("B\"0102\"".to_string())
    );
    assert_eq!(value_to_spanner_literal(&SqlValue::Double(Some(1.5f64.to_bits()))), None);
    assert_eq!(value_to_spanner_literal(&SqlValue::Double(None)), Some("NULL".to_string()));
    assert_eq!(value_to_spanner_literal(&SqlValue::Other), Some("NULL".to_string()));
}

#[test]
fn literals_of_dates_times_and_decimals() {
    let d = Date { year: 2024, month: 1, day: 15 };
    assert_eq!(
        value_to_spanner_literal(&SqlValue::ChronoDate(Some(d))),
        Some("DATE '2024-01-15'".to_string())
    );
    let bad = Date { year: 2024, month: 2, day: 30 };
    assert_eq!(value_to_spanner_literal(&SqlValue::ChronoDate(Some(bad))), None);
    let t = TimeOfDay { hour: 12, minute: 30, second: 45, nano: 0 };
    assert_eq!(
        value_to_spanner_literal(&SqlValue::ChronoTime(Some(t))),
        Some("'12:30:45'".to_string())
    );
    let i = Instant { secs: 1_705_321_845, nanos: 0, offset: 0 };
    assert_eq!(
        value_to_spanner_literal(&SqlValue::ChronoDateTime(Some(i))),
        Some("TIMESTAMP '2024-01-15T12:30:45Z'".to_string())
    );
    let p = DecimalParts { mantissa: 12345, scale: 2 };
    assert_eq!(
        value_to_spanner_literal(&SqlValue::Decimal(Some(p))),
        Some("123.45".to_string())
    );
    assert_eq!(
        value_to_spanner_literal(&SqlValue::Json(Some("{\"a\":\"b'c\"}".to_string()))),
        Some("'{\"a\":\"b''c\"}'".to_string())
    );
}
