//! Which Spanner statement parameter a SeaQuery value is bound as.
//!
//! The backend binds statement parameters through three paths: the SeaORM proxy, the
//! statement executor, and the transaction helpers of the standalone connection. They
//! agree on most kinds of value and differ on a few; `BindFlavor` selects the path.

use vstd::prelude::*;
use crate::literal::{uuid_hyphenated, uuid_text};
use crate::text::{decimal, owned, push_char, push_decimal, push_str};
use crate::value::{
    ArrayKind, DecimalParts, SqlValue, chrono_date_text, chrono_time_text, chrono_wall_text,
    decimal_text, format_date, format_decimal, format_time, format_wall,
};

verus! {

/// The binding path.
#[derive(Debug, Clone, Copy, PartialEq, Eq, Structural)]
pub enum BindFlavor {
    /// The SeaORM proxy: UUIDs, JSON and decimals keep their Spanner types; arrays bind.
    Proxy,
    /// The statement executor: UUIDs and decimals bind as strings; arrays are unsupported.
    Statement,
    /// The standalone transaction helpers: like the executor, but JSON binds as a string
    /// and a `u64` is converted to `i64` by wrapping.
    Legacy,
}

/// A floating-point number by its bits; an `f32` is widened to `f64` when bound.
#[derive(Debug, Clone, Copy, PartialEq, Eq, Structural)]
pub enum FloatBits {
    F32(u32),
    F64(u64),
}

/// The Spanner element type of an array parameter.
#[derive(Debug, Clone, Copy, PartialEq, Eq, Structural)]
pub enum ParamKind {
    Bool,
    Int64,
    Float64,
    String,
    Bytes,
}

/// An element of an array parameter.
#[derive(Debug)]
pub enum Elem {
    Bool(bool),
    Int64(i64),
    Float64(FloatBits),
    String(String),
    Bytes(Vec<u8>),
}

/// Abstract content of an array element.
pub enum ElemModel {
    Bool(bool),
    Int64(i64),
    Float64(FloatBits),
    String(Seq<char>),
    Bytes(Seq<u8>),
}

impl View for Elem {
    type V = ElemModel;

    open spec fn view(&self) -> ElemModel {
        match self {
            Elem::Bool(b) => ElemModel::Bool(*b),
            Elem::Int64(i) => ElemModel::Int64(*i),
            Elem::Float64(f) => ElemModel::Float64(*f),
            Elem::String(s) => ElemModel::String(s@),
            Elem::Bytes(b) => ElemModel::Bytes(b@),
        }
    }
}

/// A statement parameter, with its Spanner type; `None` is a typed NULL.
#[derive(Debug)]
pub enum BoundParam {
    Bool(Option<bool>),
    Int64(Option<i64>),
    Float64(Option<FloatBits>),
    String(Option<String>),
    Bytes(Option<Vec<u8>>),
    /// A TIMESTAMP: seconds and nanoseconds since the Unix epoch, in UTC.
    Timestamp(Option<(i64, u32)>),
    /// A UUID, by its hyphenated text.
    Uuid(Option<String>),
    /// A JSON document, by its text.
    Json(Option<String>),
    /// A NUMERIC, by its decimal text.
    Numeric(Option<String>),
    Array(ParamKind, Option<Vec<Elem>>),
}

/// Abstract content of a statement parameter.
pub enum ParamModel {
    Bool(Option<bool>),
    Int64(Option<i64>),
    Float64(Option<FloatBits>),
    String(Option<Seq<char>>),
    Bytes(Option<Seq<u8>>),
    Timestamp(Option<(i64, u32)>),
    Uuid(Option<Seq<char>>),
    Json(Option<Seq<char>>),
    Numeric(Option<Seq<char>>),
    Array(ParamKind, Option<Seq<ElemModel>>),
}

/// The text of an optional string.
pub open spec fn opt_text(o: Option<String>) -> Option<Seq<char>> {
    match o {
        Some(s) => Some(s@),
        None => None,
    }
}

impl View for BoundParam {
    type V = ParamModel;

    open spec fn view(&self) -> ParamModel {
        match self {
            BoundParam::Bool(b) => ParamModel::Bool(*b),
            BoundParam::Int64(i) => ParamModel::Int64(*i),
            BoundParam::Float64(f) => ParamModel::Float64(*f),
            BoundParam::String(s) => ParamModel::String(opt_text(*s)),
            BoundParam::Bytes(b) => ParamModel::Bytes(
                match b {
                    Some(v) => Some(v@),
                    None => None,
                },
            ),
            BoundParam::Timestamp(t) => ParamModel::Timestamp(*t),
            BoundParam::Uuid(s) => ParamModel::Uuid(opt_text(*s)),
            BoundParam::Json(s) => ParamModel::Json(opt_text(*s)),
            BoundParam::Numeric(s) => ParamModel::Numeric(opt_text(*s)),
            BoundParam::Array(k, v) => ParamModel::Array(
                *k,
                match v {
                    Some(es) => Some(es@.map_values(|e: Elem| e@)),
                    None => None,
                },
            ),
        }
    }
}

/// Why a value could not be bound.
#[derive(Debug)]
pub enum BindError {
    /// A type conversion error, by its column, expectation and finding.
    Conversion { column: String, expected: String, got: String },
    /// The value's kind is not supported; the error shows the value's debug form.
    Unsupported { column: String, expected: String },
    /// The array element at `index` has the wrong kind; the error shows the element.
    Element { column: String, expected: String, index: usize },
    /// The array's element kind is not supported; the error shows the kind.
    UnsupportedArray { column: String },
    /// A date, time or decimal that its library does not accept.
    Unrepresentable { column: String },
}

/// Abstract content of a binding error.
pub enum BindErrorModel {
    Conversion { column: Seq<char>, expected: Seq<char>, got: Seq<char> },
    Unsupported { column: Seq<char>, expected: Seq<char> },
    Element { column: Seq<char>, expected: Seq<char>, index: nat },
    UnsupportedArray { column: Seq<char> },
    Unrepresentable { column: Seq<char> },
}

impl View for BindError {
    type V = BindErrorModel;

    open spec fn view(&self) -> BindErrorModel {
        match self {
            BindError::Conversion { column, expected, got } => BindErrorModel::Conversion {
                column: column@,
                expected: expected@,
                got: got@,
            },
            BindError::Unsupported { column, expected } => BindErrorModel::Unsupported {
                column: column@,
                expected: expected@,
            },
            BindError::Element { column, expected, index } => BindErrorModel::Element {
                column: column@,
                expected: expected@,
                index: *index as nat,
            },
            BindError::UnsupportedArray { column } => BindErrorModel::UnsupportedArray {
                column: column@,
            },
            BindError::Unrepresentable { column } => BindErrorModel::Unrepresentable {
                column: column@,
            },
        }
    }
}

/// The text of a `u64` that does not fit in an `i64`.
pub open spec fn overflow_text(v: u64) -> Seq<char> {
    "u64 value "@ + decimal(v as nat) + " overflows i64"@
}

/// `Some(t)` for the text `Some(t)`, else the unrepresentable-value error.
pub open spec fn text_or_unrepresentable(
    t: Option<Seq<char>>,
    name: Seq<char>,
    wrap: spec_fn(Seq<char>) -> ParamModel,
) -> Result<ParamModel, BindErrorModel> {
    match t {
        Some(x) => Ok(wrap(x)),
        None => Err(BindErrorModel::Unrepresentable { column: name }),
    }
}

/// The parameter that a non-array value is bound as on path `flavor`, or why it cannot be.
pub open spec fn scalar_binding(flavor: BindFlavor, name: Seq<char>, v: SqlValue) -> Result<
    ParamModel,
    BindErrorModel,
> {
    match v {
        SqlValue::Bool(b) => Ok(ParamModel::Bool(b)),
        SqlValue::TinyInt(i) => Ok(ParamModel::Int64(map_i8(i))),
        SqlValue::SmallInt(i) => Ok(ParamModel::Int64(map_i16(i))),
        SqlValue::Int(i) => Ok(ParamModel::Int64(map_i32(i))),
        SqlValue::BigInt(i) => Ok(ParamModel::Int64(i)),
        SqlValue::TinyUnsigned(i) => Ok(ParamModel::Int64(map_u8(i))),
        SqlValue::SmallUnsigned(i) => Ok(ParamModel::Int64(map_u16(i))),
        SqlValue::Unsigned(i) => Ok(ParamModel::Int64(map_u32(i))),
        SqlValue::BigUnsigned(None) => Ok(ParamModel::Int64(None)),
        SqlValue::BigUnsigned(Some(u)) => if flavor == BindFlavor::Legacy {
            Ok(ParamModel::Int64(Some(u as i64)))
        } else if u <= i64::MAX {
            Ok(ParamModel::Int64(Some(u as i64)))
        } else {
            Err(
                BindErrorModel::Conversion {
                    column: name,
                    expected: "i64"@,
                    got: overflow_text(u),
                },
            )
        },
        SqlValue::Float(f) => Ok(
            ParamModel::Float64(
                match f {
                    Some(b) => Some(FloatBits::F32(b)),
                    None => None,
                },
            ),
        ),
        SqlValue::Double(f) => Ok(
            ParamModel::Float64(
                match f {
                    Some(b) => Some(FloatBits::F64(b)),
                    None => None,
                },
            ),
        ),
        SqlValue::String(s) => Ok(ParamModel::String(opt_text(s))),
        SqlValue::Char(c) => Ok(
            ParamModel::String(
                match c {
                    Some(x) => Some(seq![x]),
                    None => None,
                },
            ),
        ),
        SqlValue::Bytes(b) => Ok(
            ParamModel::Bytes(
                match b {
                    Some(x) => Some(x@),
                    None => None,
                },
            ),
        ),
        SqlValue::ChronoDate(None) | SqlValue::ChronoTime(None) => Ok(ParamModel::String(None)),
        SqlValue::ChronoDate(Some(d)) => text_or_unrepresentable(
            chrono_date_text(d.year, d.month, d.day),
            name,
            |x: Seq<char>| ParamModel::String(Some(x)),
        ),
        SqlValue::ChronoTime(Some(t)) => text_or_unrepresentable(
            chrono_time_text(t.hour, t.minute, t.second, t.nano),
            name,
            |x: Seq<char>| ParamModel::String(Some(x)),
        ),
        SqlValue::ChronoDateTime(i) | SqlValue::ChronoDateTimeUtc(i) | SqlValue::ChronoDateTimeLocal(
            i,
        )
        | SqlValue::ChronoDateTimeWithTimeZone(i) => Ok(
            ParamModel::Timestamp(
                match i {
                    Some(x) => Some((x.secs, x.nanos)),
                    None => None,
                },
            ),
        ),
        SqlValue::Uuid(u) => {
            let t = match u {
                Some(x) => Some(uuid_text(x@)),
                None => None,
            };
            if flavor == BindFlavor::Proxy {
                Ok(ParamModel::Uuid(t))
            } else {
                Ok(ParamModel::String(t))
            }
        },
        SqlValue::Json(j) => if flavor == BindFlavor::Legacy {
            Ok(ParamModel::String(opt_text(j)))
        } else {
            Ok(ParamModel::Json(opt_text(j)))
        },
        SqlValue::Decimal(None) => if flavor == BindFlavor::Proxy {
            Ok(ParamModel::Numeric(None))
        } else {
            Ok(ParamModel::String(None))
        },
        SqlValue::Decimal(Some(d)) => if flavor == BindFlavor::Proxy {
            text_or_unrepresentable(
                decimal_text(d.mantissa, d.scale),
                name,
                |x: Seq<char>| ParamModel::Numeric(Some(x)),
            )
        } else {
            text_or_unrepresentable(
                decimal_text(d.mantissa, d.scale),
                name,
                |x: Seq<char>| ParamModel::String(Some(x)),
            )
        },
        _ => Err(BindErrorModel::Unsupported { column: name, expected: "supported type"@ }),
    }
}

pub open spec fn map_i8(i: Option<i8>) -> Option<i64> {
    match i {
        Some(x) => Some(x as i64),
        None => None,
    }
}

pub open spec fn map_i16(i: Option<i16>) -> Option<i64> {
    match i {
        Some(x) => Some(x as i64),
        None => None,
    }
}

pub open spec fn map_i32(i: Option<i32>) -> Option<i64> {
    match i {
        Some(x) => Some(x as i64),
        None => None,
    }
}

pub open spec fn map_u8(i: Option<u8>) -> Option<i64> {
    match i {
        Some(x) => Some(x as i64),
        None => None,
    }
}

pub open spec fn map_u16(i: Option<u16>) -> Option<i64> {
    match i {
        Some(x) => Some(x as i64),
        None => None,
    }
}

pub open spec fn map_u32(i: Option<u32>) -> Option<i64> {
    match i {
        Some(x) => Some(x as i64),
        None => None,
    }
}

/// Binds a non-array value on path `flavor` under the parameter name `name`.
fn bind_scalar(flavor: BindFlavor, name: &str, value: &SqlValue) -> (r: Result<
    BoundParam,
    BindError,
>)
    requires
        !(value is Array),
    ensures
        match r {
            Ok(p) => scalar_binding(flavor, name@, *value) == Ok::<ParamModel, BindErrorModel>(
                p@,
            ),
            Err(e) => scalar_binding(flavor, name@, *value) == Err::<ParamModel, BindErrorModel>(
                e@,
            ),
        },
{
    match value {
        SqlValue::Bool(b) => Ok(BoundParam::Bool(*b)),
        SqlValue::TinyInt(i) => Ok(
            BoundParam::Int64(
                match i {
                    Some(x) => Some(*x as i64),
                    None => None,
                },
            ),
        ),
        SqlValue::SmallInt(i) => Ok(
            BoundParam::Int64(
                match i {
                    Some(x) => Some(*x as i64),
                    None => None,
                },
            ),
        ),
        SqlValue::Int(i) => Ok(
            BoundParam::Int64(
                match i {
                    Some(x) => Some(*x as i64),
                    None => None,
                },
            ),
        ),
        SqlValue::BigInt(i) => Ok(BoundParam::Int64(*i)),
        SqlValue::TinyUnsigned(i) => Ok(
            BoundParam::Int64(
                match i {
                    Some(x) => Some(*x as i64),
                    None => None,
                },
            ),
        ),
        SqlValue::SmallUnsigned(i) => Ok(
            BoundParam::Int64(
                match i {
                    Some(x) => Some(*x as i64),
                    None => None,
                },
            ),
        ),
        SqlValue::Unsigned(i) => Ok(
            BoundParam::Int64(
                match i {
                    Some(x) => Some(*x as i64),
                    None => None,
                },
            ),
        ),
        SqlValue::BigUnsigned(None) => Ok(BoundParam::Int64(None)),
        SqlValue::BigUnsigned(Some(u)) => {
            if flavor == BindFlavor::Legacy {
                Ok(BoundParam::Int64(Some(*u as i64)))
            } else if *u <= 9223372036854775807u64 {
                Ok(BoundParam::Int64(Some(*u as i64)))
            } else {
                let mut got = owned("u64 value ");
                push_decimal(&mut got, *u);
                push_str(&mut got, " overflows i64");
                Err(BindError::Conversion { column: owned(name), expected: owned("i64"), got })
            }
        },
        SqlValue::Float(f) => Ok(
            BoundParam::Float64(
                match f {
                    Some(b) => Some(FloatBits::F32(*b)),
                    None => None,
                },
            ),
        ),
        SqlValue::Double(f) => Ok(
            BoundParam::Float64(
                match f {
                    Some(b) => Some(FloatBits::F64(*b)),
                    None => None,
                },
            ),
        ),
        SqlValue::String(s) => Ok(
            BoundParam::String(
                match s {
                    Some(x) => Some(x.clone()),
                    None => None,
                },
            ),
        ),
        SqlValue::Char(c) => Ok(
            BoundParam::String(
                match c {
                    Some(x) => {
                        let mut t = String::new();
                        push_char(&mut t, *x);
                        assert(t@ =~= seq![*x]);
                        Some(t)
                    },
                    None => None,
                },
            ),
        ),
        SqlValue::Bytes(b) => Ok(
            BoundParam::Bytes(
                match b {
                    Some(x) => Some(x.clone()),
                    None => None,
                },
            ),
        ),
        SqlValue::ChronoDate(None) | SqlValue::ChronoTime(None) => Ok(BoundParam::String(None)),
        SqlValue::ChronoDate(Some(d)) => match format_date(d) {
            Some(t) => Ok(BoundParam::String(Some(t))),
            None => Err(BindError::Unrepresentable { column: owned(name) }),
        },
        SqlValue::ChronoTime(Some(t)) => match format_time(t) {
            Some(x) => Ok(BoundParam::String(Some(x))),
            None => Err(BindError::Unrepresentable { column: owned(name) }),
        },
        SqlValue::ChronoDateTime(i) | SqlValue::ChronoDateTimeUtc(i) | SqlValue::ChronoDateTimeLocal(
            i,
        )
        | SqlValue::ChronoDateTimeWithTimeZone(i) => Ok(
            BoundParam::Timestamp(
                match i {
                    Some(x) => Some((x.secs, x.nanos)),
                    None => None,
                },
            ),
        ),
        SqlValue::Uuid(u) => {
            let t = match u {
                Some(x) => Some(uuid_hyphenated(x)),
                None => None,
            };
            if flavor == BindFlavor::Proxy {
                Ok(BoundParam::Uuid(t))
            } else {
                Ok(BoundParam::String(t))
            }
        },
        SqlValue::Json(j) => {
            let t = match j {
                Some(x) => Some(x.clone()),
                None => None,
            };
            if flavor == BindFlavor::Legacy {
                Ok(BoundParam::String(t))
            } else {
                Ok(BoundParam::Json(t))
            }
        },
        SqlValue::Decimal(None) => {
            if flavor == BindFlavor::Proxy {
                Ok(BoundParam::Numeric(None))
            } else {
                Ok(BoundParam::String(None))
            }
        },
        SqlValue::Decimal(Some(d)) => match format_decimal(d) {
            Some(t) => {
                if flavor == BindFlavor::Proxy {
                    Ok(BoundParam::Numeric(Some(t)))
                } else {
                    Ok(BoundParam::String(Some(t)))
                }
            },
            None => Err(BindError::Unrepresentable { column: owned(name) }),
        },
        _ => Err(
            BindError::Unsupported { column: owned(name), expected: owned("supported type") },
        ),
    }
}

/// Why an array element could not be converted.
pub enum ElemFailure {
    /// The element has another kind than the array's.
    Mismatch,
    /// A `u64` element that does not fit in an `i64`.
    Overflow(u64),
    /// A date, time or decimal that its library does not accept.
    Unrepresentable,
}

/// The text that an optional rendering gives as an array element.
pub open spec fn text_elem(t: Option<Seq<char>>) -> Result<ElemModel, ElemFailure> {
    match t {
        Some(x) => Ok(ElemModel::String(x)),
        None => Err(ElemFailure::Unrepresentable),
    }
}

/// The element that a value becomes in an array of kind `kind`.
pub open spec fn elem_outcome(kind: ArrayKind, v: SqlValue) -> Result<ElemModel, ElemFailure> {
    match kind {
        ArrayKind::Bool => match v {
            SqlValue::Bool(Some(b)) => Ok(ElemModel::Bool(b)),
            _ => Err(ElemFailure::Mismatch),
        },
        ArrayKind::TinyInt | ArrayKind::SmallInt | ArrayKind::Int | ArrayKind::BigInt => match v {
            SqlValue::TinyInt(Some(i)) => Ok(ElemModel::Int64(i as i64)),
            SqlValue::SmallInt(Some(i)) => Ok(ElemModel::Int64(i as i64)),
            SqlValue::Int(Some(i)) => Ok(ElemModel::Int64(i as i64)),
            SqlValue::BigInt(Some(i)) => Ok(ElemModel::Int64(i)),
            _ => Err(ElemFailure::Mismatch),
        },
        ArrayKind::TinyUnsigned | ArrayKind::SmallUnsigned | ArrayKind::Unsigned
        | ArrayKind::BigUnsigned => match v {
            SqlValue::TinyUnsigned(Some(i)) => Ok(ElemModel::Int64(i as i64)),
            SqlValue::SmallUnsigned(Some(i)) => Ok(ElemModel::Int64(i as i64)),
            SqlValue::Unsigned(Some(i)) => Ok(ElemModel::Int64(i as i64)),
            SqlValue::BigUnsigned(Some(u)) => if u <= i64::MAX {
                Ok(ElemModel::Int64(u as i64))
            } else {
                Err(ElemFailure::Overflow(u))
            },
            _ => Err(ElemFailure::Mismatch),
        },
        ArrayKind::Float | ArrayKind::Double => match v {
            SqlValue::Float(Some(b)) => Ok(ElemModel::Float64(FloatBits::F32(b))),
            SqlValue::Double(Some(b)) => Ok(ElemModel::Float64(FloatBits::F64(b))),
            _ => Err(ElemFailure::Mismatch),
        },
        ArrayKind::String | ArrayKind::Char => match v {
            SqlValue::String(Some(s)) => Ok(ElemModel::String(s@)),
            SqlValue::Char(Some(c)) => Ok(ElemModel::String(seq![c])),
            _ => Err(ElemFailure::Mismatch),
        },
        ArrayKind::Bytes => match v {
            SqlValue::Bytes(Some(b)) => Ok(ElemModel::Bytes(b@)),
            _ => Err(ElemFailure::Mismatch),
        },
        ArrayKind::ChronoDate | ArrayKind::ChronoTime | ArrayKind::ChronoDateTime
        | ArrayKind::ChronoDateTimeUtc | ArrayKind::ChronoDateTimeLocal
        | ArrayKind::ChronoDateTimeWithTimeZone => match v {
            SqlValue::ChronoDate(Some(d)) => text_elem(chrono_date_text(d.year, d.month, d.day)),
            SqlValue::ChronoTime(Some(t)) => text_elem(
                chrono_time_text(t.hour, t.minute, t.second, t.nano),
            ),
            SqlValue::ChronoDateTime(Some(i)) | SqlValue::ChronoDateTimeUtc(Some(i))
            | SqlValue::ChronoDateTimeLocal(Some(i))
            | SqlValue::ChronoDateTimeWithTimeZone(Some(i)) => text_elem(
                chrono_wall_text(i.secs, i.nanos, i.offset),
            ),
            _ => Err(ElemFailure::Mismatch),
        },
        ArrayKind::Uuid => match v {
            SqlValue::Uuid(Some(u)) => Ok(ElemModel::String(uuid_text(u@))),
            _ => Err(ElemFailure::Mismatch),
        },
        ArrayKind::Json => match v {
            SqlValue::Json(Some(j)) => Ok(ElemModel::String(j@)),
            _ => Err(ElemFailure::Mismatch),
        },
        ArrayKind::Decimal => match v {
            SqlValue::Decimal(Some(d)) => text_elem(decimal_text(d.mantissa, d.scale)),
            _ => Err(ElemFailure::Mismatch),
        },
        ArrayKind::Other => Err(ElemFailure::Mismatch),
    }
}

/// The Spanner element type of a bound array of kind `kind`, if the kind is supported.
pub open spec fn array_param_kind(kind: ArrayKind) -> Option<ParamKind> {
    match kind {
        ArrayKind::Bool => Some(ParamKind::Bool),
        ArrayKind::TinyInt | ArrayKind::SmallInt | ArrayKind::Int | ArrayKind::BigInt
        | ArrayKind::TinyUnsigned | ArrayKind::SmallUnsigned | ArrayKind::Unsigned
        | ArrayKind::BigUnsigned => Some(ParamKind::Int64),
        ArrayKind::Float | ArrayKind::Double => Some(ParamKind::Float64),
        ArrayKind::Bytes => Some(ParamKind::Bytes),
        ArrayKind::Other => None,
        _ => Some(ParamKind::String),
    }
}

/// The Spanner element type of a NULL array of kind `kind`; unsupported kinds bind as
/// STRING arrays.
pub open spec fn null_array_kind(kind: ArrayKind) -> ParamKind {
    match kind {
        ArrayKind::Bool => ParamKind::Bool,
        ArrayKind::TinyInt | ArrayKind::SmallInt | ArrayKind::Int | ArrayKind::BigInt
        | ArrayKind::TinyUnsigned | ArrayKind::SmallUnsigned | ArrayKind::Unsigned
        | ArrayKind::BigUnsigned => ParamKind::Int64,
        ArrayKind::Float | ArrayKind::Double => ParamKind::Float64,
        ArrayKind::Bytes => ParamKind::Bytes,
        _ => ParamKind::String,
    }
}

/// The kind named in the error for an element of the wrong kind.
pub open spec fn expected_name(kind: ArrayKind) -> Seq<char> {
    match kind {
        ArrayKind::Bool => "Bool"@,
        ArrayKind::TinyInt | ArrayKind::SmallInt | ArrayKind::Int | ArrayKind::BigInt => "Int"@,
        ArrayKind::TinyUnsigned | ArrayKind::SmallUnsigned | ArrayKind::Unsigned
        | ArrayKind::BigUnsigned => "Unsigned Int"@,
        ArrayKind::Float | ArrayKind::Double => "Float"@,
        ArrayKind::String | ArrayKind::Char => "String"@,
        ArrayKind::Bytes => "Bytes"@,
        ArrayKind::Uuid => "Uuid"@,
        ArrayKind::Json => "Json"@,
        ArrayKind::Decimal => "Decimal"@,
        _ => "Chrono DateTime"@,
    }
}

/// The error for the element at `index` failing with `f`.
pub open spec fn failure_error(name: Seq<char>, kind: ArrayKind, index: nat, f: ElemFailure) -> BindErrorModel {
    match f {
        ElemFailure::Mismatch => BindErrorModel::Element {
            column: name,
            expected: expected_name(kind),
            index,
        },
        ElemFailure::Overflow(u) => BindErrorModel::Conversion {
            column: name,
            expected: "i64"@,
            got: "element ["@ + decimal(index) + "]: "@ + overflow_text(u),
        },
        ElemFailure::Unrepresentable => BindErrorModel::Unrepresentable { column: name },
    }
}

/// The elements of `vals` from `start` on, converted for an array of kind `kind`, or the
/// first failing index with its failure.
pub open spec fn elems_from(kind: ArrayKind, vals: Seq<SqlValue>, start: nat) -> Result<
    Seq<ElemModel>,
    (nat, ElemFailure),
>
    decreases vals.len() - start,
{
    if start >= vals.len() {
        Ok(Seq::empty())
    } else {
        match elem_outcome(kind, vals[start as int]) {
            Err(f) => Err((start, f)),
            Ok(m) => match elems_from(kind, vals, start + 1) {
                Ok(rest) => Ok(seq![m] + rest),
                Err(e) => Err(e),
            },
        }
    }
}

/// `ms` followed by the elements of `r`, or the failure of `r`.
pub open spec fn prepend(ms: Seq<ElemModel>, r: Result<Seq<ElemModel>, (nat, ElemFailure)>) -> Result<
    Seq<ElemModel>,
    (nat, ElemFailure),
> {
    match r {
        Ok(rest) => Ok(ms + rest),
        Err(e) => Err(e),
    }
}

/// The parameter that a value is bound as on path `flavor`, or why it cannot be.
pub open spec fn binding(flavor: BindFlavor, name: Seq<char>, v: SqlValue) -> Result<
    ParamModel,
    BindErrorModel,
> {
    match v {
        SqlValue::Array(kind, None) => if flavor == BindFlavor::Proxy {
            Ok(ParamModel::Array(null_array_kind(kind), None))
        } else {
            Err(BindErrorModel::Unsupported { column: name, expected: "supported type"@ })
        },
        SqlValue::Array(kind, Some(vals)) => if flavor != BindFlavor::Proxy {
            Err(BindErrorModel::Unsupported { column: name, expected: "supported type"@ })
        } else {
            match array_param_kind(kind) {
                None => Err(BindErrorModel::UnsupportedArray { column: name }),
                Some(pk) => match elems_from(kind, vals@, 0) {
                    Ok(ms) => Ok(ParamModel::Array(pk, Some(ms))),
                    Err((k, f)) => Err(failure_error(name, kind, k, f)),
                },
            }
        },
        _ => scalar_binding(flavor, name, v),
    }
}

fn text_or_failure(t: Option<String>, name: &str, kind: ArrayKind, index: usize) -> (r: Result<
    Elem,
    BindError,
>)
    ensures
        match text_elem(opt_text(t)) {
            Ok(m) => r matches Ok(e) && e@ == m,
            Err(f) => r matches Err(er) && er@ == failure_error(name@, kind, index as nat, f),
        },
{
    match t {
        Some(x) => Ok(Elem::String(x)),
        None => Err(BindError::Unrepresentable { column: owned(name) }),
    }
}

fn expected_name_exec(kind: ArrayKind) -> (r: &'static str)
    ensures
        r@ == expected_name(kind),
{
    match kind {
        ArrayKind::Bool => "Bool",
        ArrayKind::TinyInt | ArrayKind::SmallInt | ArrayKind::Int | ArrayKind::BigInt => "Int",
        ArrayKind::TinyUnsigned | ArrayKind::SmallUnsigned | ArrayKind::Unsigned
        | ArrayKind::BigUnsigned => "Unsigned Int",
        ArrayKind::Float | ArrayKind::Double => "Float",
        ArrayKind::String | ArrayKind::Char => "String",
        ArrayKind::Bytes => "Bytes",
        ArrayKind::Uuid => "Uuid",
        ArrayKind::Json => "Json",
        ArrayKind::Decimal => "Decimal",
        _ => "Chrono DateTime",
    }
}

/// Converts one element of an array of kind `kind`; `index` is its position.
fn convert_elem(kind: ArrayKind, v: &SqlValue, name: &str, index: usize) -> (r: Result<
    Elem,
    BindError,
>)
    ensures
        match elem_outcome(kind, *v) {
            Ok(m) => r matches Ok(e) && e@ == m,
            Err(f) => r matches Err(er) && er@ == failure_error(name@, kind, index as nat, f),
        },
{
    let mismatch = BindError::Element {
        column: owned(name),
        expected: owned(expected_name_exec(kind)),
        index,
    };
    match kind {
        ArrayKind::Bool => match v {
            SqlValue::Bool(Some(b)) => Ok(Elem::Bool(*b)),
            _ => Err(mismatch),
        },
        ArrayKind::TinyInt | ArrayKind::SmallInt | ArrayKind::Int | ArrayKind::BigInt => match v {
            SqlValue::TinyInt(Some(i)) => Ok(Elem::Int64(*i as i64)),
            SqlValue::SmallInt(Some(i)) => Ok(Elem::Int64(*i as i64)),
            SqlValue::Int(Some(i)) => Ok(Elem::Int64(*i as i64)),
            SqlValue::BigInt(Some(i)) => Ok(Elem::Int64(*i)),
            _ => Err(mismatch),
        },
        ArrayKind::TinyUnsigned | ArrayKind::SmallUnsigned | ArrayKind::Unsigned
        | ArrayKind::BigUnsigned => match v {
            SqlValue::TinyUnsigned(Some(i)) => Ok(Elem::Int64(*i as i64)),
            SqlValue::SmallUnsigned(Some(i)) => Ok(Elem::Int64(*i as i64)),
            SqlValue::Unsigned(Some(i)) => Ok(Elem::Int64(*i as i64)),
            SqlValue::BigUnsigned(Some(u)) => {
                if *u <= 9223372036854775807u64 {
                    Ok(Elem::Int64(*u as i64))
                } else {
                    let mut got = owned("element [");
                    push_decimal(&mut got, index as u64);
                    push_str(&mut got, "]: u64 value ");
                    push_decimal(&mut got, *u);
                    push_str(&mut got, " overflows i64");
                    proof {
                        reveal_strlit("]: u64 value ");
                        reveal_strlit("]: ");
                        reveal_strlit("u64 value ");
                    }
                    assert(got@ =~= "element ["@ + decimal(index as nat) + "]: "@ + overflow_text(
                        *u,
                    ));
                    Err(BindError::Conversion { column: owned(name), expected: owned("i64"), got })
                }
            },
            _ => Err(mismatch),
        },
        ArrayKind::Float | ArrayKind::Double => match v {
            SqlValue::Float(Some(b)) => Ok(Elem::Float64(FloatBits::F32(*b))),
            SqlValue::Double(Some(b)) => Ok(Elem::Float64(FloatBits::F64(*b))),
            _ => Err(mismatch),
        },
        ArrayKind::String | ArrayKind::Char => match v {
            SqlValue::String(Some(s)) => Ok(Elem::String(s.clone())),
            SqlValue::Char(Some(c)) => {
                let mut t = String::new();
                push_char(&mut t, *c);
                assert(t@ =~= seq![*c]);
                Ok(Elem::String(t))
            },
            _ => Err(mismatch),
        },
        ArrayKind::Bytes => match v {
            SqlValue::Bytes(Some(b)) => Ok(Elem::Bytes(b.clone())),
            _ => Err(mismatch),
        },
        ArrayKind::ChronoDate | ArrayKind::ChronoTime | ArrayKind::ChronoDateTime
        | ArrayKind::ChronoDateTimeUtc | ArrayKind::ChronoDateTimeLocal
        | ArrayKind::ChronoDateTimeWithTimeZone => match v {
            SqlValue::ChronoDate(Some(d)) => text_or_failure(format_date(d), name, kind, index),
            SqlValue::ChronoTime(Some(t)) => text_or_failure(format_time(t), name, kind, index),
            SqlValue::ChronoDateTime(Some(i)) | SqlValue::ChronoDateTimeUtc(Some(i))
            | SqlValue::ChronoDateTimeLocal(Some(i))
            | SqlValue::ChronoDateTimeWithTimeZone(Some(i)) => text_or_failure(
                format_wall(i),
                name,
                kind,
                index,
            ),
            _ => Err(mismatch),
        },
        ArrayKind::Uuid => match v {
            SqlValue::Uuid(Some(u)) => Ok(Elem::String(uuid_hyphenated(u))),
            _ => Err(mismatch),
        },
        ArrayKind::Json => match v {
            SqlValue::Json(Some(j)) => Ok(Elem::String(j.clone())),
            _ => Err(mismatch),
        },
        ArrayKind::Decimal => match v {
            SqlValue::Decimal(Some(d)) => text_or_failure(format_decimal(d), name, kind, index),
            _ => Err(mismatch),
        },
        ArrayKind::Other => Err(mismatch),
    }
}

fn param_kind_exec(kind: ArrayKind) -> (r: Option<ParamKind>)
    ensures
        r == array_param_kind(kind),
{
    match kind {
        ArrayKind::Bool => Some(ParamKind::Bool),
        ArrayKind::TinyInt | ArrayKind::SmallInt | ArrayKind::Int | ArrayKind::BigInt
        | ArrayKind::TinyUnsigned | ArrayKind::SmallUnsigned | ArrayKind::Unsigned
        | ArrayKind::BigUnsigned => Some(ParamKind::Int64),
        ArrayKind::Float | ArrayKind::Double => Some(ParamKind::Float64),
        ArrayKind::Bytes => Some(ParamKind::Bytes),
        ArrayKind::Other => None,
        _ => Some(ParamKind::String),
    }
}

/// The typed NULL array parameter for an array kind.
pub fn bind_null_array(kind: ArrayKind) -> (r: BoundParam)
    ensures
        r@ == ParamModel::Array(null_array_kind(kind), None),
{
    let k = match kind {
        ArrayKind::Bool => ParamKind::Bool,
        ArrayKind::TinyInt | ArrayKind::SmallInt | ArrayKind::Int | ArrayKind::BigInt
        | ArrayKind::TinyUnsigned | ArrayKind::SmallUnsigned | ArrayKind::Unsigned
        | ArrayKind::BigUnsigned => ParamKind::Int64,
        ArrayKind::Float | ArrayKind::Double => ParamKind::Float64,
        ArrayKind::Bytes => ParamKind::Bytes,
        _ => ParamKind::String,
    };
    BoundParam::Array(k, None)
}

/// The array parameter for the elements `values` of an array of kind `kind`; the first
/// element that cannot be converted decides the error.
pub fn bind_array(name: &str, kind: ArrayKind, values: &Vec<SqlValue>) -> (r: Result<
    BoundParam,
    BindError,
>)
    ensures
        match array_param_kind(kind) {
            None => r matches Err(e) && e@ == (BindErrorModel::UnsupportedArray { column: name@ }),
            Some(pk) => match elems_from(kind, values@, 0) {
                Ok(ms) => r matches Ok(p) && p@ == ParamModel::Array(pk, Some(ms)),
                Err((k, f)) => r matches Err(e) && e@ == failure_error(name@, kind, k, f),
            },
        },
{
    let pk = match param_kind_exec(kind) {
        None => {
            return Err(BindError::UnsupportedArray { column: owned(name) });
        },
        Some(pk) => pk,
    };
    let mut out: Vec<Elem> = Vec::new();
    let mut i: usize = 0;
    assert(out@.map_values(|e: Elem| e@) =~= Seq::<ElemModel>::empty());
    while i < values.len()
        invariant
            i <= values.len(),
            array_param_kind(kind) == Some(pk),
            elems_from(kind, values@, 0) == prepend(
                out@.map_values(|e: Elem| e@),
                elems_from(kind, values@, i as nat),
            ),
        decreases values.len() - i,
    {
        let ghost before = out@.map_values(|e: Elem| e@);
        match convert_elem(kind, &values[i], name, i) {
            Ok(e) => {
                out.push(e);
                proof {
                    let m = out@[out@.len() - 1]@;
                    assert(out@.map_values(|e: Elem| e@) =~= before.push(m));
                    assert(elem_outcome(kind, values@[i as int]) == Ok::<ElemModel, ElemFailure>(m));
                    match elems_from(kind, values@, (i + 1) as nat) {
                        Ok(rest) => {
                            assert(before + (seq![m] + rest) =~= before.push(m) + rest);
                        },
                        Err(_) => {},
                    }
                }
            },
            Err(e) => {
                proof {
                    let f = elem_outcome(kind, values@[i as int])->Err_0;
                    assert(elems_from(kind, values@, i as nat) == Err::<
                        Seq<ElemModel>,
                        (nat, ElemFailure),
                    >((i as nat, f)));
                }
                return Err(e);
            },
        }
        i = i + 1;
    }
    assert(out@.map_values(|e: Elem| e@) + Seq::<ElemModel>::empty() =~= out@.map_values(
        |e: Elem| e@,
    ));
    Ok(BoundParam::Array(pk, Some(out)))
}

/// The parameter that a value is bound as on path `flavor` under the parameter name
/// `name`, or why it cannot be bound.
pub fn bind_value(flavor: BindFlavor, name: &str, value: &SqlValue) -> (r: Result<
    BoundParam,
    BindError,
>)
    ensures
        match r {
            Ok(p) => binding(flavor, name@, *value) == Ok::<ParamModel, BindErrorModel>(p@),
            Err(e) => binding(flavor, name@, *value) == Err::<ParamModel, BindErrorModel>(e@),
        },
{
    match value {
        SqlValue::Array(kind, None) => {
            if flavor == BindFlavor::Proxy {
                Ok(bind_null_array(*kind))
            } else {
                Err(
                    BindError::Unsupported {
                        column: owned(name),
                        expected: owned("supported type"),
                    },
                )
            }
        },
        SqlValue::Array(kind, Some(vals)) => {
            if flavor != BindFlavor::Proxy {
                Err(
                    BindError::Unsupported {
                        column: owned(name),
                        expected: owned("supported type"),
                    },
                )
            } else {
                bind_array(name, *kind, vals)
            }
        },
        _ => bind_scalar(flavor, name, value),
    }
}

/// The name of the `n`-th statement parameter (from 1), `p<n>`.
pub open spec fn param_name_text(n: nat) -> Seq<char> {
    "p"@ + decimal(n)
}

/// The name of the `n`-th statement parameter.
pub fn param_name(n: u64) -> (r: String)
    ensures
        r@ == param_name_text(n as nat),
{
    let mut r = owned("p");
    push_decimal(&mut r, n);
    r
}

/// The parameter for value `i` (from 0) of a statement.
pub open spec fn binding_at(flavor: BindFlavor, values: Seq<SqlValue>, i: int) -> Result<
    ParamModel,
    BindErrorModel,
> {
    binding(flavor, param_name_text((i + 1) as nat), values[i])
}

/// `ps` are the statement's values in order, each bound under its name `p1`, `p2`, ...
pub open spec fn bound_in_order(
    flavor: BindFlavor,
    values: Seq<SqlValue>,
    ps: Seq<(String, BoundParam)>,
) -> bool {
    &&& ps.len() == values.len()
    &&& forall|i: int|
        0 <= i < ps.len() ==> ps[i].0@ == param_name_text((i + 1) as nat) && binding_at(
            flavor,
            values,
            i,
        ) == Ok::<ParamModel, BindErrorModel>(#[trigger] ps[i].1@)
}

/// `e` is the error of the first value of the statement that cannot be bound.
pub open spec fn first_refusal(flavor: BindFlavor, values: Seq<SqlValue>, e: BindErrorModel) -> bool {
    exists|k: int|
        0 <= k < values.len() && (forall|j: int| 0 <= j < k ==> #[trigger] binding_at(flavor, values, j) is Ok)
            && binding_at(flavor, values, k) == Err::<ParamModel, BindErrorModel>(e)
}

/// Every value of the statement can be bound.
pub open spec fn all_bindable(flavor: BindFlavor, values: Seq<SqlValue>) -> bool {
    forall|i: int| 0 <= i < values.len() ==> #[trigger] binding_at(flavor, values, i) is Ok
}

/// The parameters of a statement: its values in order, bound under `p1`, `p2`, ...; the
/// first value that cannot be bound decides the error.
pub fn bind_all(flavor: BindFlavor, values: &Vec<SqlValue>) -> (r: Result<Vec<(String, BoundParam)>, BindError>)
    ensures
        r matches Ok(ps) ==> bound_in_order(flavor, values@, ps@),
        r matches Err(e) ==> first_refusal(flavor, values@, e@),
        all_bindable(flavor, values@) ==> r is Ok,
{
    let mut out: Vec<(String, BoundParam)> = Vec::new();
    let mut i: usize = 0;
    while i < values.len()
        invariant
            i <= values.len(),
            out@.len() == i,
            forall|j: int| 0 <= j < i ==> #[trigger] out@[j].0@ == param_name_text((j + 1) as nat),
            forall|j: int|
                0 <= j < i ==> binding(flavor, param_name_text((j + 1) as nat), values@[j]) == Ok::<
                    ParamModel,
                    BindErrorModel,
                >(#[trigger] out@[j].1@),
        decreases values.len() - i,
    {
        let name = param_name((i as u64) + 1);
        match bind_value(flavor, name.as_str(), &values[i]) {
            Ok(p) => {
                let ghost nm = name@;
                let ghost pm = p@;
                out.push((name, p));
                proof {
                    assert(out@[i as int].0@ == param_name_text((i + 1) as nat));
                    assert(out@[i as int].1@ == pm);
                }
            },
            Err(e) => {
                proof {
                    assert forall|j: int| 0 <= j < i implies #[trigger] binding_at(flavor, values@, j) is Ok by {
                        assert(binding(flavor, param_name_text((j + 1) as nat), values@[j]) == Ok::<
                            ParamModel,
                            BindErrorModel,
                        >(out@[j].1@));
                    }
                    assert(binding_at(flavor, values@, i as int) == Err::<ParamModel, BindErrorModel>(e@));
                }
                return Err(e);
            },
        }
        i = i + 1;
    }
    Ok(out)
}

/// A present `f32` binds the same way on every path: as a FLOAT64 parameter that carries
/// the `f32` itself (its own 32-bit pattern, widened to `f64` when sent), never its bits
/// reread as an `f64`; likewise as an element of a float array. A present `f64` carries its
/// own 64-bit pattern.
pub proof fn lemma_floats_bind_as_themselves(
    f1: BindFlavor,
    f2: BindFlavor,
    name: Seq<char>,
    b: u32,
    d: u64,
    kind: ArrayKind,
)
    requires
        kind == ArrayKind::Float || kind == ArrayKind::Double,
    ensures
        binding(f1, name, SqlValue::Float(Some(b))) == binding(f2, name, SqlValue::Float(Some(b))),
        binding(f1, name, SqlValue::Float(Some(b))) == Ok::<ParamModel, BindErrorModel>(
            ParamModel::Float64(Some(FloatBits::F32(b))),
        ),
        binding(f1, name, SqlValue::Double(Some(d))) == Ok::<ParamModel, BindErrorModel>(
            ParamModel::Float64(Some(FloatBits::F64(d))),
        ),
        elem_outcome(kind, SqlValue::Float(Some(b))) == Ok::<ElemModel, ElemFailure>(
            ElemModel::Float64(FloatBits::F32(b)),
        ),
{
}

} // verus!
