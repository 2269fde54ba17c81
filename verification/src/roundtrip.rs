//! What a value written through the proxy reads back as.

use vstd::prelude::*;
use crate::bind::{
    array_param_kind, binding, elem_outcome, elems_from, null_array_kind, ElemFailure, ElemModel,
    FloatBits, ParamKind, ParamModel, BindFlavor, map_i8, map_i16, map_i32, map_u8, map_u16,
    map_u32, opt_text,
};
use crate::error::DbError;
use crate::read::{
    array_items, chrono_timestamp_valid, column_outcome, fits, int64_value, opt_bytes, plan_of,
    type_code_of, ColumnMeta, ReadPlan, RawColumn, TypeCodeKind,
};
use crate::value::{chrono_date_text, chrono_time_text, ArrayKind, Instant, SqlValue};

verus! {

/// `raw` is what the client reads from a column after parameter `p` was written to it.
pub open spec fn holds(raw: RawColumn, p: ParamModel) -> bool {
    match p {
        ParamModel::Bool(b) => raw == RawColumn::Bool(b),
        ParamModel::Int64(i) => raw == RawColumn::Int64(i),
        ParamModel::Float64(f) => match f {
            None => raw == RawColumn::Float64(None),
            Some(FloatBits::F64(b)) => raw == RawColumn::Float64(Some(b)),
            Some(FloatBits::F32(_)) => false,
        },
        ParamModel::String(t) => raw matches RawColumn::String(s) && opt_text(s) == t,
        ParamModel::Bytes(b) => raw matches RawColumn::Bytes(x) && opt_bytes(x) == b,
        ParamModel::Timestamp(t) => raw == RawColumn::Timestamp(t),
        ParamModel::Array(ParamKind::Bool, m) => raw matches RawColumn::BoolArray(v) && match (
            v,
            m,
        ) {
            (None, None) => true,
            (Some(xs), Some(ms)) => xs@.len() == ms.len() && forall|i: int|
                0 <= i < ms.len() ==> ms[i] == ElemModel::Bool(#[trigger] xs@[i]),
            _ => false,
        },
        ParamModel::Array(ParamKind::Int64, m) => raw matches RawColumn::Int64Array(v) && match (
            v,
            m,
        ) {
            (None, None) => true,
            (Some(xs), Some(ms)) => xs@.len() == ms.len() && forall|i: int|
                0 <= i < ms.len() ==> ms[i] == ElemModel::Int64(#[trigger] xs@[i]),
            _ => false,
        },
        ParamModel::Array(ParamKind::Float64, m) => raw matches RawColumn::Float64Array(v) && match (
            v,
            m,
        ) {
            (None, None) => true,
            (Some(xs), Some(ms)) => xs@.len() == ms.len() && forall|i: int|
                0 <= i < ms.len() ==> ms[i] == ElemModel::Float64(FloatBits::F64(#[trigger] xs@[i])),
            _ => false,
        },
        ParamModel::Array(ParamKind::String, m) => raw matches RawColumn::StringArray(v) && match (
            v,
            m,
        ) {
            (None, None) => true,
            (Some(xs), Some(ms)) => xs@.len() == ms.len() && forall|i: int|
                0 <= i < ms.len() ==> ms[i] == ElemModel::String(#[trigger] xs@[i]@),
            _ => false,
        },
        ParamModel::Array(ParamKind::Bytes, m) => raw matches RawColumn::BytesArray(v) && match (
            v,
            m,
        ) {
            (None, None) => true,
            (Some(xs), Some(ms)) => xs@.len() == ms.len() && forall|i: int|
                0 <= i < ms.len() ==> ms[i] == ElemModel::Bytes(#[trigger] xs@[i]@),
            _ => false,
        },
        _ => false,
    }
}

/// How a column that holds a parameter of this kind is read.
pub open spec fn plan_for(p: ParamModel) -> ReadPlan {
    match p {
        ParamModel::Bool(_) => ReadPlan::Bool,
        ParamModel::Int64(_) => ReadPlan::Int64,
        ParamModel::Float64(_) => ReadPlan::Float64,
        ParamModel::String(_) => ReadPlan::String,
        ParamModel::Bytes(_) => ReadPlan::Bytes,
        ParamModel::Timestamp(_) => ReadPlan::Timestamp,
        ParamModel::Uuid(_) => ReadPlan::Uuid,
        ParamModel::Json(_) => ReadPlan::Json,
        ParamModel::Numeric(_) => ReadPlan::Numeric,
        ParamModel::Array(ParamKind::Bool, _) => ReadPlan::BoolArray,
        ParamModel::Array(ParamKind::Int64, _) => ReadPlan::Int64Array,
        ParamModel::Array(ParamKind::Float64, _) => ReadPlan::Float64Array,
        ParamModel::Array(ParamKind::String, _) => ReadPlan::StringArray,
        ParamModel::Array(ParamKind::Bytes, _) => ReadPlan::BytesArray,
    }
}

/// The kind an array of kind `kind` reads back as: Spanner keeps only its element type.
pub open spec fn read_array_kind(kind: ArrayKind) -> ArrayKind {
    match null_array_kind(kind) {
        ParamKind::Bool => ArrayKind::Bool,
        ParamKind::Int64 => ArrayKind::BigInt,
        ParamKind::Float64 => ArrayKind::Double,
        ParamKind::String => ArrayKind::String,
        ParamKind::Bytes => ArrayKind::Bytes,
    }
}

/// `w` is how an array element written as `m` reads back.
pub open spec fn elem_reads_back(m: ElemModel, w: SqlValue) -> bool {
    match m {
        ElemModel::Bool(b) => w == SqlValue::Bool(Some(b)),
        ElemModel::Int64(i) => w == SqlValue::BigInt(Some(i)),
        ElemModel::Float64(FloatBits::F64(b)) => w == SqlValue::Double(Some(b)),
        ElemModel::Float64(FloatBits::F32(_)) => false,
        ElemModel::String(t) => w matches SqlValue::String(Some(x)) && x@ == t,
        ElemModel::Bytes(b) => w matches SqlValue::Bytes(Some(x)) && x@ == b,
    }
}

/// `w` is what `v` reads back as: integers of every width read back as INT64 values are
/// read (32-bit where the value fits in `i32`, 64-bit otherwise),
/// characters as strings, date-times as UTC date-times without a zone, a NULL float as a
/// NULL double, dates and times (which are written as text) as their text, and arrays as
/// arrays of their Spanner element type.
pub open spec fn reads_back(v: SqlValue, w: SqlValue) -> bool {
    match v {
        SqlValue::Bool(b) => w == SqlValue::Bool(b),
        SqlValue::TinyInt(i) => w == int64_value(map_i8(i)),
        SqlValue::SmallInt(i) => w == int64_value(map_i16(i)),
        SqlValue::Int(i) => w == int64_value(map_i32(i)),
        SqlValue::BigInt(i) => w == int64_value(i),
        SqlValue::TinyUnsigned(i) => w == int64_value(map_u8(i)),
        SqlValue::SmallUnsigned(i) => w == int64_value(map_u16(i)),
        SqlValue::Unsigned(i) => w == int64_value(map_u32(i)),
        SqlValue::BigUnsigned(i) => w == int64_value(
            match i {
                Some(u) => Some(u as i64),
                None => None,
            },
        ),
        SqlValue::Double(d) => w == SqlValue::Double(d),
        SqlValue::Float(None) => w == SqlValue::Double(None),
        SqlValue::ChronoDate(None) | SqlValue::ChronoTime(None) => w matches SqlValue::String(None),
        SqlValue::ChronoDate(Some(d)) => w matches SqlValue::String(Some(x)) && chrono_date_text(
            d.year,
            d.month,
            d.day,
        ) == Some(x@),
        SqlValue::ChronoTime(Some(t)) => w matches SqlValue::String(Some(x)) && chrono_time_text(
            t.hour,
            t.minute,
            t.second,
            t.nano,
        ) == Some(x@),
        SqlValue::String(s) => w matches SqlValue::String(x) && opt_text(x) == opt_text(s),
        SqlValue::Char(c) => w matches SqlValue::String(x) && opt_text(x) == match c {
            Some(ch) => Some(seq![ch]),
            None => None,
        },
        SqlValue::Bytes(b) => w matches SqlValue::Bytes(x) && opt_bytes(x) == opt_bytes(b),
        SqlValue::ChronoDateTime(i) | SqlValue::ChronoDateTimeUtc(i) | SqlValue::ChronoDateTimeLocal(
            i,
        )
        | SqlValue::ChronoDateTimeWithTimeZone(i) => w == SqlValue::ChronoDateTime(
            match i {
                Some(x) => Some(Instant { secs: x.secs, nanos: x.nanos, offset: 0 }),
                None => None,
            },
        ),
        SqlValue::Array(kind, vals) => match vals {
            None => w matches SqlValue::Array(k, None) && k == read_array_kind(kind),
            Some(vs) => w matches SqlValue::Array(k, Some(ws)) && k == read_array_kind(kind)
                && ws@.len() == vs@.len() && forall|i: int|
                0 <= i < vs@.len() ==> (elem_outcome(kind, #[trigger] vs@[i]) matches Ok(m)
                    && elem_reads_back(m, ws@[i])),
        },
        _ => false,
    }
}

/// The instants of the value are ones chrono represents.
pub open spec fn instants_representable(v: SqlValue) -> bool {
    match v {
        SqlValue::ChronoDateTime(Some(x)) | SqlValue::ChronoDateTimeUtc(Some(x))
        | SqlValue::ChronoDateTimeLocal(Some(x))
        | SqlValue::ChronoDateTimeWithTimeZone(Some(x)) => chrono_timestamp_valid(x.secs, x.nanos),
        _ => true,
    }
}

/// The elements of a converted array are the conversions of its values, in order.
proof fn lemma_elems(kind: ArrayKind, vals: Seq<SqlValue>, start: nat, ms: Seq<ElemModel>)
    requires
        start <= vals.len(),
        elems_from(kind, vals, start) == Ok::<Seq<ElemModel>, (nat, ElemFailure)>(ms),
    ensures
        ms.len() == vals.len() - start,
        forall|i: int|
            0 <= i < ms.len() ==> elem_outcome(kind, #[trigger] vals[start + i]) == Ok::<
                ElemModel,
                ElemFailure,
            >(ms[i]),
    decreases vals.len() - start,
{
    if start < vals.len() {
        let m = elem_outcome(kind, vals[start as int])->Ok_0;
        let rest = elems_from(kind, vals, start + 1)->Ok_0;
        lemma_elems(kind, vals, start + 1, rest);
        assert(ms == seq![m] + rest);
        assert forall|i: int| 0 <= i < ms.len() implies elem_outcome(kind, #[trigger] vals[start + i])
            == Ok::<ElemModel, ElemFailure>(ms[i]) by {
            if i > 0 {
                assert(vals[start + i] == vals[(start + 1) + (i - 1)]);
            }
        }
    }
}

/// A value written through the proxy into a column of its Spanner type reads back as the
/// same value, widened as `reads_back` says. It is stated for booleans, integers of every
/// width, double-precision floats, strings, characters, bytes, dates and times (written as
/// chrono's text), date-times that chrono represents, and arrays and NULLs of these. UUIDs,
/// JSON, decimals and non-NULL single-precision floats are left out: `holds` relates no raw
/// column to them, as their text is produced and parsed by outside libraries.
pub proof fn lemma_read_returns_written(
    param: Seq<char>,
    v: SqlValue,
    raw: RawColumn,
    column: Seq<char>,
    idx: nat,
    r: Result<SqlValue, DbError>,
)
    requires
        binding(BindFlavor::Proxy, param, v) is Ok,
        holds(raw, binding(BindFlavor::Proxy, param, v)->Ok_0),
        instants_representable(v),
        column_outcome(plan_for(binding(BindFlavor::Proxy, param, v)->Ok_0), Ok(raw), column, idx, r),
    ensures
        r matches Ok(w) && reads_back(v, w),
{
    let p = binding(BindFlavor::Proxy, param, v)->Ok_0;
    match v {
        SqlValue::Array(kind, Some(vals)) => {
            let pk = array_param_kind(kind)->Some_0;
            let ms = elems_from(kind, vals@, 0)->Ok_0;
            assert(p == ParamModel::Array(pk, Some(ms)));
            lemma_elems(kind, vals@, 0, ms);
            assert(null_array_kind(kind) == pk);
            let ws = array_items(r);
            assert(r matches Ok(SqlValue::Array(k, Some(items))) && k == read_array_kind(kind)
                && items@ == ws && ws.len() == vals@.len());
            assert forall|i: int| 0 <= i < vals@.len() implies (elem_outcome(
                kind,
                #[trigger] vals@[i],
            ) matches Ok(m) && elem_reads_back(m, ws[i])) by {
                assert(vals@[i] == vals@[0 + i]);
                match raw {
                    RawColumn::BoolArray(Some(xs)) => {
                        assert(ms[i] == ElemModel::Bool(xs@[i]));
                        assert(array_items(r)[i] == SqlValue::Bool(Some(xs@[i])));
                    },
                    RawColumn::Int64Array(Some(xs)) => {
                        assert(ms[i] == ElemModel::Int64(xs@[i]));
                        assert(array_items(r)[i] == SqlValue::BigInt(Some(xs@[i])));
                    },
                    RawColumn::Float64Array(Some(xs)) => {
                        assert(ms[i] == ElemModel::Float64(FloatBits::F64(xs@[i])));
                        assert(array_items(r)[i] == SqlValue::Double(Some(xs@[i])));
                    },
                    RawColumn::StringArray(Some(xs)) => {
                        assert(ms[i] == ElemModel::String(xs@[i]@));
                        assert(array_items(r)[i] matches SqlValue::String(Some(t)) && t@ == xs@[i]@);
                    },
                    RawColumn::BytesArray(Some(xs)) => {
                        assert(ms[i] == ElemModel::Bytes(xs@[i]@));
                        assert(array_items(r)[i] matches SqlValue::Bytes(Some(t)) && t@ == xs@[i]@);
                    },
                    _ => {},
                }
            }
        },
        _ => {},
    }
}

/// The type code numbers (`google.spanner.v1.TypeCode`) of the column a parameter of this
/// kind fills, and of its element type for an array.
pub open spec fn written_codes(p: ParamModel) -> (i32, Option<i32>) {
    match p {
        ParamModel::Bool(_) => (1, None),
        ParamModel::Int64(_) => (2, None),
        ParamModel::Float64(_) => (3, None),
        ParamModel::Timestamp(_) => (4, None),
        ParamModel::String(_) => (6, None),
        ParamModel::Bytes(_) => (7, None),
        ParamModel::Numeric(_) => (10, None),
        ParamModel::Json(_) => (11, None),
        ParamModel::Uuid(_) => (17, None),
        ParamModel::Array(ParamKind::Bool, _) => (8, Some(1)),
        ParamModel::Array(ParamKind::Int64, _) => (8, Some(2)),
        ParamModel::Array(ParamKind::Float64, _) => (8, Some(3)),
        ParamModel::Array(ParamKind::String, _) => (8, Some(6)),
        ParamModel::Array(ParamKind::Bytes, _) => (8, Some(7)),
    }
}

/// The Spanner type that reading by a plan reads a cell as.
pub open spec fn plan_reads(plan: ReadPlan) -> TypeCodeKind {
    match plan {
        ReadPlan::Bool => TypeCodeKind::Bool,
        ReadPlan::Int64 => TypeCodeKind::Int64,
        ReadPlan::Float64 => TypeCodeKind::Float64,
        ReadPlan::String => TypeCodeKind::String,
        ReadPlan::Bytes => TypeCodeKind::Bytes,
        ReadPlan::Timestamp => TypeCodeKind::Timestamp,
        ReadPlan::Date => TypeCodeKind::Date,
        ReadPlan::Numeric => TypeCodeKind::Numeric,
        ReadPlan::Json => TypeCodeKind::Json,
        ReadPlan::Uuid => TypeCodeKind::Uuid,
        _ => TypeCodeKind::Array,
    }
}

/// A column is read as what was written to it: the plan chosen for the type of the column
/// that a parameter fills is the plan that reads that parameter back.
pub proof fn lemma_plan_reads_what_was_written(p: ParamModel)
    ensures
        plan_of(Some(ColumnMeta { code: Some(written_codes(p).0), element_code: written_codes(p).1 }))
            == Ok::<ReadPlan, crate::read::PlanFailure>(plan_for(p)),
{
}

/// Every scalar Spanner type that can be read is read as itself: the plan chosen for a
/// column of type code `code` reads a cell of that type (a FLOAT32 cell as a FLOAT64).
pub proof fn lemma_plan_reads_the_column_type(code: i32, element: Option<i32>)
    requires
        type_code_of(code) matches Some(k) && k != TypeCodeKind::Array && k != TypeCodeKind::Unspecified
            && k != TypeCodeKind::Struct && k != TypeCodeKind::Proto && k != TypeCodeKind::Enum
            && k != TypeCodeKind::Interval,
    ensures
        plan_of(Some(ColumnMeta { code: Some(code), element_code: element })) matches Ok(plan)
            && plan_reads(plan) == (if type_code_of(code) == Some(TypeCodeKind::Float32) {
            TypeCodeKind::Float64
        } else {
            type_code_of(code)->Some_0
        }),
{
}

/// A TIMESTAMP column reads back as a date-time and a DATE column as a date, whatever the
/// cell read holds.
pub proof fn lemma_dates_and_times_read_as_such(
    element: Option<i32>,
    raw: RawColumn,
    name: Seq<char>,
    idx: nat,
    r: Result<SqlValue, DbError>,
)
    ensures
        plan_of(Some(ColumnMeta { code: Some(4), element_code: element })) matches Ok(plan) && (fits(
            plan,
            raw,
        ) && column_outcome(plan, Ok(raw), name, idx, r) ==> r matches Ok(SqlValue::ChronoDateTime(_))),
        plan_of(Some(ColumnMeta { code: Some(5), element_code: element })) matches Ok(plan) && (fits(
            plan,
            raw,
        ) && column_outcome(plan, Ok(raw), name, idx, r) ==> r matches Ok(SqlValue::ChronoDate(_))),
{
}

} // verus!
