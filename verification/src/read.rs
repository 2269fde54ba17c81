//! Reading the columns of a Spanner result row as SeaQuery values: which type a column is
//! read as, and what the value read becomes.

use vstd::prelude::*;
use crate::error::DbError;
use crate::schema::opt_text;
use crate::text::{decimal, owned, push_decimal, push_signed_decimal, push_str, signed_decimal};
use crate::value::{ArrayKind, Date, DecimalParts, Instant, SqlValue};

verus! {

/// The type metadata of a result column: its type code and, for an array, the code of
/// its element type. `None` where the metadata does not say.
#[derive(Debug, Clone, Copy)]
pub struct ColumnMeta {
    pub code: Option<i32>,
    pub element_code: Option<i32>,
}

/// A Spanner type code (`google.spanner.v1.TypeCode`).
#[derive(Debug, Clone, Copy, PartialEq, Eq, Structural)]
pub enum TypeCodeKind {
    Unspecified,
    Bool,
    Int64,
    Float64,
    Float32,
    Timestamp,
    Date,
    String,
    Bytes,
    Array,
    Struct,
    Numeric,
    Json,
    Proto,
    Enum,
    Interval,
    Uuid,
}

/// The type code with number `code`, as `TypeCode::try_from` decodes it (the numbers of
/// the `google.spanner.v1.TypeCode` protocol enum).
pub open spec fn type_code_of(code: i32) -> Option<TypeCodeKind> {
    if code == 0 {
        Some(TypeCodeKind::Unspecified)
    } else if code == 1 {
        Some(TypeCodeKind::Bool)
    } else if code == 2 {
        Some(TypeCodeKind::Int64)
    } else if code == 3 {
        Some(TypeCodeKind::Float64)
    } else if code == 4 {
        Some(TypeCodeKind::Timestamp)
    } else if code == 5 {
        Some(TypeCodeKind::Date)
    } else if code == 6 {
        Some(TypeCodeKind::String)
    } else if code == 7 {
        Some(TypeCodeKind::Bytes)
    } else if code == 8 {
        Some(TypeCodeKind::Array)
    } else if code == 9 {
        Some(TypeCodeKind::Struct)
    } else if code == 10 {
        Some(TypeCodeKind::Numeric)
    } else if code == 11 {
        Some(TypeCodeKind::Json)
    } else if code == 13 {
        Some(TypeCodeKind::Proto)
    } else if code == 14 {
        Some(TypeCodeKind::Enum)
    } else if code == 15 {
        Some(TypeCodeKind::Float32)
    } else if code == 16 {
        Some(TypeCodeKind::Interval)
    } else if code == 17 {
        Some(TypeCodeKind::Uuid)
    } else {
        None
    }
}

/// Decodes a type code number.
pub fn decode_type_code(code: i32) -> (r: Option<TypeCodeKind>)
    ensures
        r == type_code_of(code),
{
    match code {
        0 => Some(TypeCodeKind::Unspecified),
        1 => Some(TypeCodeKind::Bool),
        2 => Some(TypeCodeKind::Int64),
        3 => Some(TypeCodeKind::Float64),
        4 => Some(TypeCodeKind::Timestamp),
        5 => Some(TypeCodeKind::Date),
        6 => Some(TypeCodeKind::String),
        7 => Some(TypeCodeKind::Bytes),
        8 => Some(TypeCodeKind::Array),
        9 => Some(TypeCodeKind::Struct),
        10 => Some(TypeCodeKind::Numeric),
        11 => Some(TypeCodeKind::Json),
        13 => Some(TypeCodeKind::Proto),
        14 => Some(TypeCodeKind::Enum),
        15 => Some(TypeCodeKind::Float32),
        16 => Some(TypeCodeKind::Interval),
        17 => Some(TypeCodeKind::Uuid),
        _ => None,
    }
}

/// How a column is read.
#[derive(Debug, Clone, Copy, PartialEq, Eq, Structural)]
pub enum ReadPlan {
    Bool,
    Int64,
    Float64,
    String,
    Bytes,
    Timestamp,
    Date,
    Numeric,
    Json,
    Uuid,
    BoolArray,
    Int64Array,
    Float64Array,
    StringArray,
    BytesArray,
}

/// Why a column cannot be read.
pub enum PlanFailure {
    /// The column has no type metadata.
    Missing,
    /// The column's type code is not one that is read.
    Unsupported(i32),
    /// The column is an array of elements that are not read.
    UnsupportedElement(i32),
}

/// How the column with metadata `meta` (`None` where the result set has no such column)
/// is read.
pub open spec fn plan_of(meta: Option<ColumnMeta>) -> Result<ReadPlan, PlanFailure> {
    match meta {
        None => Err(PlanFailure::Missing),
        Some(m) => match m.code {
            None => Err(PlanFailure::Missing),
            Some(code) => match type_code_of(code) {
                Some(TypeCodeKind::Bool) => Ok(ReadPlan::Bool),
                Some(TypeCodeKind::Int64) => Ok(ReadPlan::Int64),
                Some(TypeCodeKind::Float64) => Ok(ReadPlan::Float64),
                Some(TypeCodeKind::Float32) => Ok(ReadPlan::Float64),
                Some(TypeCodeKind::String) => Ok(ReadPlan::String),
                Some(TypeCodeKind::Bytes) => Ok(ReadPlan::Bytes),
                Some(TypeCodeKind::Timestamp) => Ok(ReadPlan::Timestamp),
                Some(TypeCodeKind::Date) => Ok(ReadPlan::Date),
                Some(TypeCodeKind::Numeric) => Ok(ReadPlan::Numeric),
                Some(TypeCodeKind::Json) => Ok(ReadPlan::Json),
                Some(TypeCodeKind::Uuid) => Ok(ReadPlan::Uuid),
                Some(TypeCodeKind::Array) => {
                    let e = match m.element_code {
                        Some(e) => e,
                        None => 0,
                    };
                    match type_code_of(e) {
                        Some(TypeCodeKind::Bool) => Ok(ReadPlan::BoolArray),
                        Some(TypeCodeKind::Int64) => Ok(ReadPlan::Int64Array),
                        Some(TypeCodeKind::Float64) => Ok(ReadPlan::Float64Array),
                        Some(TypeCodeKind::Float32) => Ok(ReadPlan::Float64Array),
                        Some(TypeCodeKind::String) => Ok(ReadPlan::StringArray),
                        Some(TypeCodeKind::Bytes) => Ok(ReadPlan::BytesArray),
                        _ => Err(PlanFailure::UnsupportedElement(e)),
                    }
                },
                _ => Err(PlanFailure::Unsupported(code)),
            },
        },
    }
}

/// The message for a column that cannot be read.
pub open spec fn plan_failure_text(f: PlanFailure, name: Seq<char>, idx: nat) -> Seq<char> {
    match f {
        PlanFailure::Missing => "Missing type metadata for column "@ + name + " at index "@ + decimal(
            idx,
        ),
        PlanFailure::Unsupported(code) => "Unsupported type code "@ + signed_decimal(code as int)
            + " for column "@ + name + " at index "@ + decimal(idx),
        PlanFailure::UnsupportedElement(e) => "Unsupported array element type "@ + signed_decimal(
            e as int,
        ) + " for column "@ + name,
    }
}

/// The metadata of column `idx`.
pub open spec fn meta_at(metas: Seq<ColumnMeta>, idx: int) -> Option<ColumnMeta> {
    if 0 <= idx < metas.len() {
        Some(metas[idx])
    } else {
        None
    }
}

fn plan_failure(f: PlanFailure, name: &str, idx: usize) -> (r: DbError)
    ensures
        r matches DbError::Type(m) && m@ == plan_failure_text(f, name@, idx as nat),
{
    let mut m = String::new();
    match f {
        PlanFailure::Missing => {
            push_str(&mut m, "Missing type metadata for column ");
            push_str(&mut m, name);
            push_str(&mut m, " at index ");
            push_decimal(&mut m, idx as u64);
        },
        PlanFailure::Unsupported(code) => {
            push_str(&mut m, "Unsupported type code ");
            push_signed_decimal(&mut m, code as i64);
            push_str(&mut m, " for column ");
            push_str(&mut m, name);
            push_str(&mut m, " at index ");
            push_decimal(&mut m, idx as u64);
        },
        PlanFailure::UnsupportedElement(e) => {
            push_str(&mut m, "Unsupported array element type ");
            push_signed_decimal(&mut m, e as i64);
            push_str(&mut m, " for column ");
            push_str(&mut m, name);
        },
    }
    assert(m@ =~= plan_failure_text(f, name@, idx as nat));
    DbError::Type(m)
}

/// How column `idx`, named `name`, of a result set with column metadata `metas` is read;
/// a type error when it cannot be.
pub fn plan_column(metas: &Vec<ColumnMeta>, idx: usize, name: &str) -> (r: Result<ReadPlan, DbError>)
    ensures
        match plan_of(meta_at(metas@, idx as int)) {
            Ok(p) => r == Ok::<ReadPlan, DbError>(p),
            Err(f) => r matches Err(DbError::Type(m)) && m@ == plan_failure_text(
                f,
                name@,
                idx as nat,
            ),
        },
{
    if idx >= metas.len() {
        return Err(plan_failure(PlanFailure::Missing, name, idx));
    }
    let m = metas[idx];
    let code = match m.code {
        None => {
            return Err(plan_failure(PlanFailure::Missing, name, idx));
        },
        Some(c) => c,
    };
    match decode_type_code(code) {
        Some(TypeCodeKind::Bool) => Ok(ReadPlan::Bool),
        Some(TypeCodeKind::Int64) => Ok(ReadPlan::Int64),
        Some(TypeCodeKind::Float64) => Ok(ReadPlan::Float64),
        Some(TypeCodeKind::Float32) => Ok(ReadPlan::Float64),
        Some(TypeCodeKind::String) => Ok(ReadPlan::String),
        Some(TypeCodeKind::Bytes) => Ok(ReadPlan::Bytes),
        Some(TypeCodeKind::Timestamp) => Ok(ReadPlan::Timestamp),
        Some(TypeCodeKind::Date) => Ok(ReadPlan::Date),
        Some(TypeCodeKind::Numeric) => Ok(ReadPlan::Numeric),
        Some(TypeCodeKind::Json) => Ok(ReadPlan::Json),
        Some(TypeCodeKind::Uuid) => Ok(ReadPlan::Uuid),
        Some(TypeCodeKind::Array) => {
            let e = match m.element_code {
                Some(e) => e,
                None => 0,
            };
            match decode_type_code(e) {
                Some(TypeCodeKind::Bool) => Ok(ReadPlan::BoolArray),
                Some(TypeCodeKind::Int64) => Ok(ReadPlan::Int64Array),
                Some(TypeCodeKind::Float64) => Ok(ReadPlan::Float64Array),
                Some(TypeCodeKind::Float32) => Ok(ReadPlan::Float64Array),
                Some(TypeCodeKind::String) => Ok(ReadPlan::StringArray),
                Some(TypeCodeKind::Bytes) => Ok(ReadPlan::BytesArray),
                _ => Err(plan_failure(PlanFailure::UnsupportedElement(e), name, idx)),
            }
        },
        _ => Err(plan_failure(PlanFailure::Unsupported(code), name, idx)),
    }
}

/// Whether reading by a plan goes through floating-point numbers.
pub open spec fn reads_floats(plan: ReadPlan) -> bool {
    plan == ReadPlan::Float64 || plan == ReadPlan::Float64Array
}

/// A column's value as the Spanner client reads it, before it becomes a SeaQuery value.
///
/// Timestamps are seconds and nanoseconds since the Unix epoch, dates year, month and day,
/// NUMERIC values their decimal text, and floating-point numbers their bit patterns.
#[derive(Debug)]
pub enum RawColumn {
    Bool(Option<bool>),
    Int64(Option<i64>),
    Float64(Option<u64>),
    String(Option<String>),
    Bytes(Option<Vec<u8>>),
    Timestamp(Option<(i64, u32)>),
    Date(Option<(i32, u32, u32)>),
    Numeric(Option<String>),
    BoolArray(Option<Vec<bool>>),
    Int64Array(Option<Vec<i64>>),
    Float64Array(Option<Vec<u64>>),
    StringArray(Option<Vec<String>>),
    BytesArray(Option<Vec<Vec<u8>>>),
}

/// The raw value has the shape that reading by the plan gives.
pub open spec fn fits(plan: ReadPlan, raw: RawColumn) -> bool {
    match plan {
        ReadPlan::Bool => raw is Bool,
        ReadPlan::Int64 => raw is Int64,
        ReadPlan::Float64 => raw is Float64,
        ReadPlan::String => raw is String,
        ReadPlan::Bytes => raw is Bytes,
        ReadPlan::Timestamp => raw is Timestamp,
        ReadPlan::Date => raw is Date,
        ReadPlan::Numeric => raw is Numeric,
        ReadPlan::Json => raw is String,
        ReadPlan::Uuid => raw is String,
        ReadPlan::BoolArray => raw is BoolArray,
        ReadPlan::Int64Array => raw is Int64Array,
        ReadPlan::Float64Array => raw is Float64Array,
        ReadPlan::StringArray => raw is StringArray,
        ReadPlan::BytesArray => raw is BytesArray,
    }
}

/// Whether a raw value has the shape that reading by `plan` gives.
pub fn fits_plan(plan: ReadPlan, raw: &RawColumn) -> (r: bool)
    ensures
        r == fits(plan, *raw),
{
    match plan {
        ReadPlan::Bool => matches!(raw, RawColumn::Bool(_)),
        ReadPlan::Int64 => matches!(raw, RawColumn::Int64(_)),
        ReadPlan::Float64 => matches!(raw, RawColumn::Float64(_)),
        ReadPlan::String => matches!(raw, RawColumn::String(_)),
        ReadPlan::Bytes => matches!(raw, RawColumn::Bytes(_)),
        ReadPlan::Timestamp => matches!(raw, RawColumn::Timestamp(_)),
        ReadPlan::Date => matches!(raw, RawColumn::Date(_)),
        ReadPlan::Numeric => matches!(raw, RawColumn::Numeric(_)),
        ReadPlan::Json => matches!(raw, RawColumn::String(_)),
        ReadPlan::Uuid => matches!(raw, RawColumn::String(_)),
        ReadPlan::BoolArray => matches!(raw, RawColumn::BoolArray(_)),
        ReadPlan::Int64Array => matches!(raw, RawColumn::Int64Array(_)),
        ReadPlan::Float64Array => matches!(raw, RawColumn::Float64Array(_)),
        ReadPlan::StringArray => matches!(raw, RawColumn::StringArray(_)),
        ReadPlan::BytesArray => matches!(raw, RawColumn::BytesArray(_)),
    }
}

/// Whether chrono's `DateTime::from_timestamp(secs, nanos)` gives a date-time: the instant
/// lies between the first second of -262143-01-01 and the last of 262142-12-31 (chrono's
/// date range), and `nanos` is under a second, or under two seconds (a leap second) when
/// the second of the minute is 59.
pub open spec fn chrono_timestamp_valid(secs: i64, nanos: u32) -> bool {
    &&& -8_334_601_228_800 <= secs <= 8_210_266_876_799
    &&& (nanos < 1_000_000_000 || (nanos < 2_000_000_000 && secs % 60 == 59))
}

/// The UTC date-time `secs` seconds and `nanos` nanoseconds after the Unix epoch.
///
/// Trusted: chrono's `DateTime::from_timestamp`, which is `None` exactly when the day is
/// out of chrono's date range or the nanoseconds are not a valid (leap) second's, and else
/// the date-time with that timestamp and those nanoseconds.
#[verifier::external_body]
fn utc_from_timestamp(secs: i64, nanos: u32) -> (r: Option<Instant>)
    ensures
        r is Some <==> chrono_timestamp_valid(secs, nanos),
        r matches Some(i) ==> i == (Instant { secs, nanos, offset: 0 }),
{
    match chrono::DateTime::from_timestamp(secs, nanos) {
        Some(dt) => Some(Instant { secs: dt.timestamp(), nanos: dt.timestamp_subsec_nanos(), offset: 0 }),
        None => None,
    }
}

/// Whether `year` is a leap year of the proleptic Gregorian calendar.
pub open spec fn is_leap_year(year: int) -> bool {
    (year % 4 == 0 && year % 100 != 0) || year % 400 == 0
}

/// The number of days of month `month` (1 to 12) of `year`.
pub open spec fn days_in_month(year: int, month: int) -> int {
    if month == 2 {
        if is_leap_year(year) {
            29
        } else {
            28
        }
    } else if month == 4 || month == 6 || month == 9 || month == 11 {
        30
    } else {
        31
    }
}

/// Whether chrono's `NaiveDate::from_ymd_opt(year, month, day)` gives a date: the year is
/// in chrono's range, -262143 to 262142, and the day exists in the proleptic Gregorian
/// calendar.
pub open spec fn chrono_ymd_valid(year: i32, month: u32, day: u32) -> bool {
    &&& -262_143 <= year <= 262_142
    &&& 1 <= month <= 12
    &&& 1 <= day <= days_in_month(year as int, month as int)
}

/// The calendar date `year`-`month`-`day`, where chrono accepts it.
///
/// Trusted: chrono's `NaiveDate::from_ymd_opt`, which is `None` exactly for dates out of
/// its year range or that do not exist, and else that date.
#[verifier::external_body]
fn naive_date(year: i32, month: u32, day: u32) -> (r: Option<Date>)
    ensures
        r is Some <==> chrono_ymd_valid(year, month, day),
        r matches Some(d) ==> d == (Date { year, month, day }),
{
    match chrono::NaiveDate::from_ymd_opt(year, month, day) {
        Some(d) => Some(Date {
            year: chrono::Datelike::year(&d),
            month: chrono::Datelike::month(&d),
            day: chrono::Datelike::day(&d),
        }),
        None => None,
    }
}

/// What rust_decimal's `Decimal::from_str_exact` gives for a text: the mantissa and scale
/// of the number, or the display text of its error.
pub uninterp spec fn exact_decimal(s: Seq<char>) -> Result<(i128, u32), Seq<char>>;

/// Parses a decimal number exactly.
///
/// Trusted: rust_decimal's `Decimal::from_str_exact`, with `mantissa` and `scale`; the
/// result is named by `exact_decimal`.
#[verifier::external_body]
fn parse_decimal_exact(s: &str) -> (r: Result<DecimalParts, String>)
    ensures
        match r {
            Ok(p) => exact_decimal(s@) == Ok::<(i128, u32), Seq<char>>((p.mantissa, p.scale)),
            Err(e) => exact_decimal(s@) == Err::<(i128, u32), Seq<char>>(e@),
        },
{
    match rust_decimal::Decimal::from_str_exact(s) {
        Ok(d) => Ok(DecimalParts { mantissa: d.mantissa(), scale: d.scale() }),
        Err(e) => Err(e.to_string()),
    }
}

/// The display text of the error `serde_json::from_str::<serde_json::Value>` gives for a
/// text, or `None` when the text is JSON.
pub uninterp spec fn json_error(s: Seq<char>) -> Option<Seq<char>>;

/// Checks that a text is JSON.
///
/// Trusted: `serde_json::from_str::<serde_json::Value>`; its error is named by
/// `json_error`.
#[verifier::external_body]
fn json_check(s: &str) -> (r: Option<String>)
    ensures
        match r {
            Some(e) => json_error(s@) == Some(e@),
            None => json_error(s@) is None,
        },
{
    match serde_json::from_str::<serde_json::Value>(s) {
        Ok(_) => None,
        Err(e) => Some(e.to_string()),
    }
}

/// What `uuid::Uuid::parse_str` gives for a text: the UUID's bytes, or the display text of
/// its error.
pub uninterp spec fn uuid_from_text(s: Seq<char>) -> Result<Seq<u8>, Seq<char>>;

/// Parses a UUID.
///
/// Trusted: `uuid::Uuid::parse_str` with `as_bytes`; the result is named by
/// `uuid_from_text`.
#[verifier::external_body]
fn parse_uuid(s: &str) -> (r: Result<[u8; 16], String>)
    ensures
        match r {
            Ok(b) => uuid_from_text(s@) == Ok::<Seq<u8>, Seq<char>>(b@),
            Err(e) => uuid_from_text(s@) == Err::<Seq<u8>, Seq<char>>(e@),
        },
{
    match uuid::Uuid::parse_str(s) {
        Ok(u) => Ok(*u.as_bytes()),
        Err(e) => Err(e.to_string()),
    }
}

/// The type name a plan's read failures are reported under.
pub open spec fn read_label(plan: ReadPlan) -> Seq<char> {
    match plan {
        ReadPlan::Bool => "BOOL"@,
        ReadPlan::Int64 => "INT64"@,
        ReadPlan::Float64 => "FLOAT64"@,
        ReadPlan::String => "STRING"@,
        ReadPlan::Bytes => "BYTES"@,
        ReadPlan::Timestamp => "TIMESTAMP"@,
        ReadPlan::Date => "DATE"@,
        ReadPlan::Numeric => "NUMERIC"@,
        ReadPlan::Json => "JSON"@,
        ReadPlan::Uuid => "UUID"@,
        _ => "ARRAY"@,
    }
}

/// The message for a column whose read failed with `e`.
pub open spec fn read_failed_text(plan: ReadPlan, name: Seq<char>, idx: nat, e: Seq<char>) -> Seq<
    char,
> {
    "Failed to read "@ + read_label(plan) + " column "@ + name + " at index "@ + decimal(idx)
        + ": "@ + e
}

/// The bytes of an optional byte string.
pub open spec fn opt_bytes(o: Option<Vec<u8>>) -> Option<Seq<u8>> {
    match o {
        Some(v) => Some(v@),
        None => None,
    }
}

/// The value is an array of kind `kind` with items `ys` exactly when the read gave items.
pub open spec fn array_shape<A>(r: Result<SqlValue, DbError>, kind: ArrayKind, read: Option<Vec<A>>) -> bool {
    r matches Ok(SqlValue::Array(k, items)) && k == kind && match read {
        None => items is None,
        Some(xs) => items matches Some(ys) && ys@.len() == xs@.len(),
    }
}

/// The items of an array value.
pub open spec fn array_items(r: Result<SqlValue, DbError>) -> Seq<SqlValue> {
    r->Ok_0->Array_1->Some_0@
}

/// The BOOL array read, as an array of booleans.
pub open spec fn bool_array_of(r: Result<SqlValue, DbError>, read: Option<Vec<bool>>) -> bool {
    &&& array_shape(r, ArrayKind::Bool, read)
    &&& read matches Some(xs) ==> forall|i: int|
        0 <= i < xs@.len() ==> #[trigger] array_items(r)[i] == SqlValue::Bool(Some(xs@[i]))
}

/// The INT64 array read, as an array of 64-bit integers.
pub open spec fn int64_array_of(r: Result<SqlValue, DbError>, read: Option<Vec<i64>>) -> bool {
    &&& array_shape(r, ArrayKind::BigInt, read)
    &&& read matches Some(xs) ==> forall|i: int|
        0 <= i < xs@.len() ==> #[trigger] array_items(r)[i] == SqlValue::BigInt(Some(xs@[i]))
}

/// The FLOAT64 array read, as an array of doubles.
pub open spec fn float64_array_of(r: Result<SqlValue, DbError>, read: Option<Vec<u64>>) -> bool {
    &&& array_shape(r, ArrayKind::Double, read)
    &&& read matches Some(xs) ==> forall|i: int|
        0 <= i < xs@.len() ==> #[trigger] array_items(r)[i] == SqlValue::Double(Some(xs@[i]))
}

/// The STRING array read, as an array of strings.
pub open spec fn string_array_of(r: Result<SqlValue, DbError>, read: Option<Vec<String>>) -> bool {
    &&& array_shape(r, ArrayKind::String, read)
    &&& read matches Some(xs) ==> forall|i: int|
        0 <= i < xs@.len() ==> (#[trigger] array_items(r)[i] matches SqlValue::String(Some(t))
            && t@ == xs@[i]@)
}

/// The BYTES array read, as an array of byte strings.
pub open spec fn bytes_array_of(r: Result<SqlValue, DbError>, read: Option<Vec<Vec<u8>>>) -> bool {
    &&& array_shape(r, ArrayKind::Bytes, read)
    &&& read matches Some(xs) ==> forall|i: int|
        0 <= i < xs@.len() ==> (#[trigger] array_items(r)[i] matches SqlValue::Bytes(Some(t))
            && t@ == xs@[i]@)
}

/// The SeaQuery value of an INT64 column: a 32-bit integer where the value lies in the
/// range of `i32`, a 64-bit integer otherwise; NULL as a NULL 64-bit integer.
pub open spec fn int64_value(v: Option<i64>) -> SqlValue {
    match v {
        Some(n) => if i32::MIN <= n <= i32::MAX {
            SqlValue::Int(Some(n as i32))
        } else {
            SqlValue::BigInt(Some(n))
        },
        None => SqlValue::BigInt(None),
    }
}

/// The value of an INT64 column, narrowed to `i32` where it fits.
fn int64_column(v: Option<i64>) -> (r: SqlValue)
    ensures
        r == int64_value(v),
{
    match v {
        Some(n) => if -2147483648 <= n && n <= 2147483647 {
            SqlValue::Int(Some(n as i32))
        } else {
            SqlValue::BigInt(Some(n))
        },
        None => SqlValue::BigInt(None),
    }
}

/// What a column read by `plan` (name `name`, index `idx`) becomes, given what the read
/// gave: the SeaQuery value, or the type error that stops the query.
pub open spec fn column_outcome(
    plan: ReadPlan,
    read: Result<RawColumn, String>,
    name: Seq<char>,
    idx: nat,
    r: Result<SqlValue, DbError>,
) -> bool {
    match read {
        Err(e) => r matches Err(DbError::Type(m)) && m@ == read_failed_text(plan, name, idx, e@),
        Ok(raw) => match raw {
            RawColumn::Bool(b) => r matches Ok(SqlValue::Bool(x)) && x == b,
            RawColumn::Int64(v) => r == Ok::<SqlValue, DbError>(int64_value(v)),
            RawColumn::Float64(v) => r matches Ok(SqlValue::Double(x)) && x == v,
            RawColumn::String(s) => match plan {
                ReadPlan::Json => match s {
                    None => r matches Ok(SqlValue::Json(None)),
                    Some(t) => match json_error(t@) {
                        None => r matches Ok(SqlValue::Json(Some(j))) && j@ == t@,
                        Some(e) => r matches Err(DbError::Type(m)) && m@ == "Failed to parse JSON column "@
                            + name + ": "@ + e,
                    },
                },
                ReadPlan::Uuid => match s {
                    None => r matches Ok(SqlValue::Uuid(None)),
                    Some(t) => match uuid_from_text(t@) {
                        Ok(b) => r matches Ok(SqlValue::Uuid(Some(u))) && u@ == b,
                        Err(e) => r matches Err(DbError::Type(m)) && m@ == "UUID column "@ + name
                            + " at index "@ + decimal(idx) + " contains invalid value '"@ + t@
                            + "': "@ + e,
                    },
                },
                _ => r matches Ok(SqlValue::String(x)) && opt_text(x) == opt_text(s),
            },
            RawColumn::Bytes(v) => r matches Ok(SqlValue::Bytes(x)) && opt_bytes(x) == opt_bytes(v),
            RawColumn::Timestamp(t) => match t {
                None => r matches Ok(SqlValue::ChronoDateTime(None)),
                Some((secs, nanos)) => r matches Ok(SqlValue::ChronoDateTime(Some(i))) && i == (
                if chrono_timestamp_valid(secs, nanos) {
                    Instant { secs, nanos, offset: 0 }
                } else {
                    Instant { secs: 0, nanos: 0, offset: 0 }
                }),
            },
            RawColumn::Date(d) => match d {
                None => r matches Ok(SqlValue::ChronoDate(None)),
                Some((y, m, dd)) => r matches Ok(SqlValue::ChronoDate(x)) && x == (
                if chrono_ymd_valid(y, m, dd) {
                    Some(Date { year: y, month: m, day: dd })
                } else {
                    None
                }),
            },
            RawColumn::Numeric(n) => match n {
                None => r matches Ok(SqlValue::Decimal(None)),
                Some(t) => match exact_decimal(t@) {
                    Ok((mantissa, scale)) => r matches Ok(SqlValue::Decimal(Some(p))) && p == (
                    DecimalParts { mantissa, scale }),
                    Err(e) => r matches Err(DbError::Type(m)) && m@ == "Failed to convert NUMERIC column "@
                        + name + " to Decimal: "@ + e,
                },
            },
            RawColumn::BoolArray(v) => bool_array_of(r, v),
            RawColumn::Int64Array(v) => int64_array_of(r, v),
            RawColumn::Float64Array(v) => float64_array_of(r, v),
            RawColumn::StringArray(v) => string_array_of(r, v),
            RawColumn::BytesArray(v) => bytes_array_of(r, v),
        },
    }
}

fn read_failure(plan: ReadPlan, name: &str, idx: usize, e: &str) -> (r: DbError)
    ensures
        r matches DbError::Type(m) && m@ == read_failed_text(plan, name@, idx as nat, e@),
{
    let label = match plan {
        ReadPlan::Bool => "BOOL",
        ReadPlan::Int64 => "INT64",
        ReadPlan::Float64 => "FLOAT64",
        ReadPlan::String => "STRING",
        ReadPlan::Bytes => "BYTES",
        ReadPlan::Timestamp => "TIMESTAMP",
        ReadPlan::Date => "DATE",
        ReadPlan::Numeric => "NUMERIC",
        ReadPlan::Json => "JSON",
        ReadPlan::Uuid => "UUID",
        _ => "ARRAY",
    };
    assert(label@ == read_label(plan));
    let mut m = owned("Failed to read ");
    push_str(&mut m, label);
    push_str(&mut m, " column ");
    push_str(&mut m, name);
    push_str(&mut m, " at index ");
    push_decimal(&mut m, idx as u64);
    push_str(&mut m, ": ");
    push_str(&mut m, e);
    DbError::Type(m)
}

fn bool_items(v: Vec<bool>) -> (r: Vec<SqlValue>)
    ensures
        r@.len() == v@.len(),
        forall|i: int| 0 <= i < v@.len() ==> r@[i] == SqlValue::Bool(Some(v@[i])),
{
    let mut r: Vec<SqlValue> = Vec::new();
    let mut i: usize = 0;
    while i < v.len()
        invariant
            i <= v.len(),
            r@.len() == i,
            forall|k: int| 0 <= k < i ==> r@[k] == SqlValue::Bool(Some(v@[k])),
        decreases v.len() - i,
    {
        r.push(SqlValue::Bool(Some(v[i])));
        i = i + 1;
    }
    r
}

fn int64_items(v: Vec<i64>) -> (r: Vec<SqlValue>)
    ensures
        r@.len() == v@.len(),
        forall|i: int| 0 <= i < v@.len() ==> r@[i] == SqlValue::BigInt(Some(v@[i])),
{
    let mut r: Vec<SqlValue> = Vec::new();
    let mut i: usize = 0;
    while i < v.len()
        invariant
            i <= v.len(),
            r@.len() == i,
            forall|k: int| 0 <= k < i ==> r@[k] == SqlValue::BigInt(Some(v@[k])),
        decreases v.len() - i,
    {
        r.push(SqlValue::BigInt(Some(v[i])));
        i = i + 1;
    }
    r
}

fn float64_items(v: Vec<u64>) -> (r: Vec<SqlValue>)
    ensures
        r@.len() == v@.len(),
        forall|i: int| 0 <= i < v@.len() ==> r@[i] == SqlValue::Double(Some(v@[i])),
{
    let mut r: Vec<SqlValue> = Vec::new();
    let mut i: usize = 0;
    while i < v.len()
        invariant
            i <= v.len(),
            r@.len() == i,
            forall|k: int| 0 <= k < i ==> r@[k] == SqlValue::Double(Some(v@[k])),
        decreases v.len() - i,
    {
        r.push(SqlValue::Double(Some(v[i])));
        i = i + 1;
    }
    r
}

fn string_items(v: Vec<String>) -> (r: Vec<SqlValue>)
    ensures
        r@.len() == v@.len(),
        forall|i: int|
            0 <= i < v@.len() ==> (#[trigger] r@[i] matches SqlValue::String(Some(t)) && t@ == v@[i]@),
{
    let mut r: Vec<SqlValue> = Vec::new();
    let mut i: usize = 0;
    while i < v.len()
        invariant
            i <= v.len(),
            r@.len() == i,
            forall|k: int|
                0 <= k < i ==> (#[trigger] r@[k] matches SqlValue::String(Some(t)) && t@ == v@[k]@),
        decreases v.len() - i,
    {
        r.push(SqlValue::String(Some(owned(v[i].as_str()))));
        i = i + 1;
    }
    r
}

fn bytes_items(v: Vec<Vec<u8>>) -> (r: Vec<SqlValue>)
    ensures
        r@.len() == v@.len(),
        forall|i: int|
            0 <= i < v@.len() ==> (#[trigger] r@[i] matches SqlValue::Bytes(Some(t)) && t@ == v@[i]@),
{
    let mut r: Vec<SqlValue> = Vec::new();
    let mut i: usize = 0;
    while i < v.len()
        invariant
            i <= v.len(),
            r@.len() == i,
            forall|k: int|
                0 <= k < i ==> (#[trigger] r@[k] matches SqlValue::Bytes(Some(t)) && t@ == v@[k]@),
        decreases v.len() - i,
    {
        r.push(SqlValue::Bytes(Some(v[i].clone())));
        i = i + 1;
    }
    r
}

/// The SeaQuery value of column `idx`, named `name`, read by `plan`, given what the read
/// gave; a type error when the read failed or its text is not a value of the column's type.
pub fn convert_column(plan: ReadPlan, read: Result<RawColumn, String>, name: &str, idx: usize) -> (r:
    Result<SqlValue, DbError>)
    requires
        read matches Ok(raw) ==> fits(plan, raw),
    ensures
        column_outcome(plan, read, name@, idx as nat, r),
{
    let raw = match read {
        Err(e) => {
            return Err(read_failure(plan, name, idx, e.as_str()));
        },
        Ok(raw) => raw,
    };
    match raw {
        RawColumn::Bool(b) => Ok(SqlValue::Bool(b)),
        RawColumn::Int64(v) => Ok(int64_column(v)),
        RawColumn::Float64(v) => Ok(SqlValue::Double(v)),
        RawColumn::String(s) => match plan {
            ReadPlan::Json => match s {
                None => Ok(SqlValue::Json(None)),
                Some(t) => match json_check(t.as_str()) {
                    None => Ok(SqlValue::Json(Some(t))),
                    Some(e) => {
                        let mut m = owned("Failed to parse JSON column ");
                        push_str(&mut m, name);
                        push_str(&mut m, ": ");
                        push_str(&mut m, e.as_str());
                        Err(DbError::Type(m))
                    },
                },
            },
            ReadPlan::Uuid => match s {
                None => Ok(SqlValue::Uuid(None)),
                Some(t) => match parse_uuid(t.as_str()) {
                    Ok(b) => Ok(SqlValue::Uuid(Some(b))),
                    Err(e) => {
                        let mut m = owned("UUID column ");
                        push_str(&mut m, name);
                        push_str(&mut m, " at index ");
                        push_decimal(&mut m, idx as u64);
                        push_str(&mut m, " contains invalid value '");
                        push_str(&mut m, t.as_str());
                        push_str(&mut m, "': ");
                        push_str(&mut m, e.as_str());
                        Err(DbError::Type(m))
                    },
                },
            },
            _ => Ok(SqlValue::String(s)),
        },
        RawColumn::Bytes(v) => Ok(SqlValue::Bytes(v)),
        RawColumn::Timestamp(t) => match t {
            None => Ok(SqlValue::ChronoDateTime(None)),
            Some((secs, nanos)) => {
                let i = match utc_from_timestamp(secs, nanos) {
                    Some(i) => i,
                    None => Instant { secs: 0, nanos: 0, offset: 0 },
                };
                Ok(SqlValue::ChronoDateTime(Some(i)))
            },
        },
        RawColumn::Date(d) => match d {
            None => Ok(SqlValue::ChronoDate(None)),
            Some((y, m, dd)) => Ok(SqlValue::ChronoDate(naive_date(y, m, dd))),
        },
        RawColumn::Numeric(n) => match n {
            None => Ok(SqlValue::Decimal(None)),
            Some(t) => match parse_decimal_exact(t.as_str()) {
                Ok(p) => Ok(SqlValue::Decimal(Some(p))),
                Err(e) => {
                    let mut m = owned("Failed to convert NUMERIC column ");
                    push_str(&mut m, name);
                    push_str(&mut m, " to Decimal: ");
                    push_str(&mut m, e.as_str());
                    Err(DbError::Type(m))
                },
            },
        },
        RawColumn::BoolArray(v) => match v {
            None => Ok(SqlValue::Array(ArrayKind::Bool, None)),
            Some(xs) => Ok(SqlValue::Array(ArrayKind::Bool, Some(bool_items(xs)))),
        },
        RawColumn::Int64Array(v) => match v {
            None => Ok(SqlValue::Array(ArrayKind::BigInt, None)),
            Some(xs) => Ok(SqlValue::Array(ArrayKind::BigInt, Some(int64_items(xs)))),
        },
        RawColumn::Float64Array(v) => match v {
            None => Ok(SqlValue::Array(ArrayKind::Double, None)),
            Some(xs) => Ok(SqlValue::Array(ArrayKind::Double, Some(float64_items(xs)))),
        },
        RawColumn::StringArray(v) => match v {
            None => Ok(SqlValue::Array(ArrayKind::String, None)),
            Some(xs) => Ok(SqlValue::Array(ArrayKind::String, Some(string_items(xs)))),
        },
        RawColumn::BytesArray(v) => match v {
            None => Ok(SqlValue::Array(ArrayKind::Bytes, None)),
            Some(xs) => Ok(SqlValue::Array(ArrayKind::Bytes, Some(bytes_items(xs)))),
        },
    }
}

/// The name of column `idx` of a row read without column names: `col_<idx>`.
pub open spec fn fallback_name(idx: nat) -> Seq<char> {
    "col_"@ + decimal(idx)
}

/// How many of `reads`, from index `i` on, are kept: the count runs on while the read at
/// the current index succeeded, and stops at the first failed read, at the end of
/// `reads`, or at 100.
pub open spec fn fallback_end(reads: Seq<Result<Option<String>, String>>, i: nat) -> nat
    decreases reads.len() - i,
{
    if i >= reads.len() || i >= 100 || reads[i as int] is Err {
        i
    } else {
        fallback_end(reads, i + 1)
    }
}

/// The values of a row whose statement gives no column names, given the reads of its
/// columns as nullable strings from the first on: the reads before the first that failed,
/// at most 100 of them, named `col_0`, `col_1`, ... and kept as strings.
pub fn fallback_row(reads: &Vec<Result<Option<String>, String>>) -> (r: Vec<(String, SqlValue)>)
    ensures
        r@.len() == fallback_end(reads@, 0),
        forall|i: int|
            0 <= i < r@.len() ==> (#[trigger] r@[i]).0@ == fallback_name(i as nat) && (reads@[i] matches Ok(v)
                && r@[i].1 == SqlValue::String(v)),
{
    let mut out: Vec<(String, SqlValue)> = Vec::new();
    let mut idx: usize = 0;
    while idx < reads.len() && idx < 100
        invariant
            idx <= reads@.len(),
            idx <= 100,
            out@.len() == idx,
            fallback_end(reads@, 0) == fallback_end(reads@, idx as nat),
            forall|i: int|
                0 <= i < out@.len() ==> (#[trigger] out@[i]).0@ == fallback_name(i as nat)
                    && (reads@[i] matches Ok(v) && out@[i].1 == SqlValue::String(v)),
        decreases reads@.len() - idx,
    {
        match &reads[idx] {
            Ok(v) => {
                let mut name = owned("col_");
                push_decimal(&mut name, idx as u64);
                let kept = match v {
                    Some(t) => Some(t.clone()),
                    None => None,
                };
                out.push((name, SqlValue::String(kept)));
            },
            Err(_) => {
                return out;
            },
        }
        idx = idx + 1;
    }
    out
}

} // verus!
