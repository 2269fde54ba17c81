//! Values as SeaQuery hands them to the Spanner backend, held as plain data.

use vstd::prelude::*;

verus! {

/// A calendar date.
#[derive(Debug, Clone, Copy)]
pub struct Date {
    pub year: i32,
    pub month: u32,
    pub day: u32,
}

/// A time of day, with nanoseconds.
#[derive(Debug, Clone, Copy)]
pub struct TimeOfDay {
    pub hour: u32,
    pub minute: u32,
    pub second: u32,
    pub nano: u32,
}

/// An instant: seconds and nanoseconds since the Unix epoch (UTC), shown at a fixed
/// offset from UTC (in seconds east) when it is written as wall-clock time.
#[derive(Debug, Clone, Copy)]
pub struct Instant {
    pub secs: i64,
    pub nanos: u32,
    pub offset: i32,
}

/// An exact decimal number `mantissa * 10^-scale`.
#[derive(Debug, Clone, Copy)]
pub struct DecimalParts {
    pub mantissa: i128,
    pub scale: u32,
}

/// The element kind of an array value.
#[derive(Debug, Clone, Copy, PartialEq, Eq, Structural)]
pub enum ArrayKind {
    Bool,
    TinyInt,
    SmallInt,
    Int,
    BigInt,
    TinyUnsigned,
    SmallUnsigned,
    Unsigned,
    BigUnsigned,
    Float,
    Double,
    String,
    Char,
    Bytes,
    ChronoDate,
    ChronoTime,
    ChronoDateTime,
    ChronoDateTimeUtc,
    ChronoDateTimeLocal,
    ChronoDateTimeWithTimeZone,
    Uuid,
    Json,
    Decimal,
    /// Any other element kind.
    Other,
}

/// A SQL value with its SeaQuery kind; `None` is SQL NULL of that kind.
///
/// Floating-point numbers are held by their IEEE-754 bit patterns. JSON is held as its
/// serialized text (JSON numbers may be floating-point).
#[derive(Debug)]
pub enum SqlValue {
    Bool(Option<bool>),
    TinyInt(Option<i8>),
    SmallInt(Option<i16>),
    Int(Option<i32>),
    BigInt(Option<i64>),
    TinyUnsigned(Option<u8>),
    SmallUnsigned(Option<u16>),
    Unsigned(Option<u32>),
    BigUnsigned(Option<u64>),
    /// An `f32`, by its bits.
    Float(Option<u32>),
    /// An `f64`, by its bits.
    Double(Option<u64>),
    String(Option<String>),
    Char(Option<char>),
    Bytes(Option<Vec<u8>>),
    ChronoDate(Option<Date>),
    ChronoTime(Option<TimeOfDay>),
    ChronoDateTime(Option<Instant>),
    ChronoDateTimeUtc(Option<Instant>),
    ChronoDateTimeLocal(Option<Instant>),
    ChronoDateTimeWithTimeZone(Option<Instant>),
    Uuid(Option<[u8; 16]>),
    Json(Option<String>),
    Decimal(Option<DecimalParts>),
    Array(ArrayKind, Option<Vec<SqlValue>>),
    /// A value of a kind this backend does not handle.
    Other,
}

/// The text chrono's `NaiveDate::format("%Y-%m-%d")` gives for a date, or `None` when
/// `NaiveDate::from_ymd_opt` rejects the date.
pub uninterp spec fn chrono_date_text(year: i32, month: u32, day: u32) -> Option<Seq<char>>;

/// The text chrono's `NaiveTime::format("%H:%M:%S%.f")` gives for a time of day, or `None`
/// when `NaiveTime::from_hms_nano_opt` rejects it.
pub uninterp spec fn chrono_time_text(hour: u32, minute: u32, second: u32, nano: u32) -> Option<
    Seq<char>,
>;

/// The text chrono's `format("%Y-%m-%dT%H:%M:%S%.fZ")` gives for the instant `secs`/`nanos`
/// shown at `offset` seconds east of UTC, or `None` when chrono rejects the offset or the
/// instant.
pub uninterp spec fn chrono_wall_text(secs: i64, nanos: u32, offset: i32) -> Option<Seq<char>>;

/// The text rust_decimal's `Display` gives for `mantissa * 10^-scale`, or `None` when
/// `Decimal::try_from_i128_with_scale` rejects the pair.
pub uninterp spec fn decimal_text(mantissa: i128, scale: u32) -> Option<Seq<char>>;

/// Formats a date as `YYYY-MM-DD`.
///
/// Trusted: chrono's `NaiveDate::from_ymd_opt` and `format("%Y-%m-%d")`; the result is
/// named by `chrono_date_text`.
#[verifier::external_body]
pub(crate) fn format_date(d: &Date) -> (r: Option<String>)
    ensures
        r matches Some(t) ==> chrono_date_text(d.year, d.month, d.day) == Some(t@),
        r is None ==> chrono_date_text(d.year, d.month, d.day) is None,
{
    match chrono::NaiveDate::from_ymd_opt(d.year, d.month, d.day) {
        Some(x) => Some(x.format("%Y-%m-%d").to_string()),
        None => None,
    }
}

/// Formats a time of day as `HH:MM:SS` with its fraction of a second, if any.
///
/// Trusted: chrono's `NaiveTime::from_hms_nano_opt` and `format("%H:%M:%S%.f")`; the
/// result is named by `chrono_time_text`.
#[verifier::external_body]
pub(crate) fn format_time(t: &TimeOfDay) -> (r: Option<String>)
    ensures
        r matches Some(x) ==> chrono_time_text(t.hour, t.minute, t.second, t.nano) == Some(x@),
        r is None ==> chrono_time_text(t.hour, t.minute, t.second, t.nano) is None,
{
    match chrono::NaiveTime::from_hms_nano_opt(t.hour, t.minute, t.second, t.nano) {
        Some(x) => Some(x.format("%H:%M:%S%.f").to_string()),
        None => None,
    }
}

/// Formats an instant as wall-clock time at its offset, `YYYY-MM-DDTHH:MM:SS[.f]Z`.
///
/// Trusted: chrono's `FixedOffset::east_opt`, `DateTime::from_timestamp`, `with_timezone`
/// and `format("%Y-%m-%dT%H:%M:%S%.fZ")`; the result is named by `chrono_wall_text`.
#[verifier::external_body]
pub(crate) fn format_wall(i: &Instant) -> (r: Option<String>)
    ensures
        r matches Some(x) ==> chrono_wall_text(i.secs, i.nanos, i.offset) == Some(x@),
        r is None ==> chrono_wall_text(i.secs, i.nanos, i.offset) is None,
{
    match (chrono::FixedOffset::east_opt(i.offset), chrono::DateTime::from_timestamp(i.secs, i.nanos)) {
        (Some(off), Some(dt)) => Some(dt.with_timezone(&off).format("%Y-%m-%dT%H:%M:%S%.fZ").to_string()),
        _ => None,
    }
}

/// Formats a decimal number as rust_decimal displays it.
///
/// Trusted: rust_decimal's `Decimal::try_from_i128_with_scale` and `Display`; the result
/// is named by `decimal_text`.
#[verifier::external_body]
pub(crate) fn format_decimal(d: &DecimalParts) -> (r: Option<String>)
    ensures
        r matches Some(x) ==> decimal_text(d.mantissa, d.scale) == Some(x@),
        r is None ==> decimal_text(d.mantissa, d.scale) is None,
{
    match rust_decimal::Decimal::try_from_i128_with_scale(d.mantissa, d.scale) {
        Ok(x) => Some(x.to_string()),
        Err(_) => None,
    }
}

} // verus!
