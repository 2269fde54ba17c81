//! Mapping of SeaQuery column types to Spanner column types.

use vstd::prelude::*;
use crate::text::push_str;

verus! {

/// The kind of a SeaQuery column type, as far as the Spanner type mapping reads it.
///
/// Sizes and precisions are not part of it: Spanner's mapping does not depend on them.
#[derive(Debug)]
pub enum ColumnKind {
    Char,
    String,
    Text,
    TinyInteger,
    SmallInteger,
    Integer,
    BigInteger,
    TinyUnsigned,
    SmallUnsigned,
    Unsigned,
    BigUnsigned,
    Float,
    Double,
    Decimal,
    Money,
    DateTime,
    Timestamp,
    TimestampWithTimeZone,
    Time,
    Date,
    Year,
    Interval,
    Binary,
    VarBinary,
    Blob,
    Bit,
    VarBit,
    Boolean,
    Json,
    JsonBinary,
    Uuid,
    Array(Box<ColumnKind>),
    Cidr,
    Inet,
    MacAddr,
    LTree,
    Enum,
    /// A custom type, by its name.
    Custom(String),
}

/// Unicode upper case of a text, as `str::to_uppercase` computes it.
pub uninterp spec fn upper_case(s: Seq<char>) -> Seq<char>;

/// The Unicode upper case of a string slice.
///
/// Trusted: `str::to_uppercase` from std; its result is named by `upper_case`.
#[verifier::external_body]
pub(crate) fn to_upper(s: &str) -> (r: String)
    ensures
        r@ == upper_case(s@),
{
    s.to_uppercase()
}

/// The Spanner type that a column of kind `k` gets.
pub open spec fn spanner_type_text(k: ColumnKind) -> Seq<char>
    decreases k,
{
    match k {
        ColumnKind::TinyInteger | ColumnKind::SmallInteger | ColumnKind::Integer
        | ColumnKind::BigInteger | ColumnKind::TinyUnsigned | ColumnKind::SmallUnsigned
        | ColumnKind::Unsigned | ColumnKind::BigUnsigned | ColumnKind::Year
        | ColumnKind::Interval => "INT64"@,
        ColumnKind::Float => "FLOAT32"@,
        ColumnKind::Double => "FLOAT64"@,
        ColumnKind::Decimal | ColumnKind::Money => "NUMERIC"@,
        ColumnKind::DateTime | ColumnKind::Timestamp
        | ColumnKind::TimestampWithTimeZone => "TIMESTAMP"@,
        ColumnKind::Date => "DATE"@,
        ColumnKind::Binary | ColumnKind::VarBinary | ColumnKind::Blob
        | ColumnKind::Bit => "BYTES(MAX)"@,
        ColumnKind::Boolean => "BOOL"@,
        ColumnKind::Json | ColumnKind::JsonBinary => "JSON"@,
        ColumnKind::Uuid => "STRING(36)"@,
        ColumnKind::Array(inner) => "ARRAY<"@ + spanner_type_text(*inner) + ">"@,
        ColumnKind::Custom(name) => upper_case(name@),
        _ => "STRING(MAX)"@,
    }
}

fn push_type_name(out: &mut String, col_type: &ColumnKind)
    ensures
        final(out)@ == old(out)@ + spanner_type_text(*col_type),
    decreases col_type,
{
    match col_type {
        ColumnKind::TinyInteger | ColumnKind::SmallInteger | ColumnKind::Integer
        | ColumnKind::BigInteger | ColumnKind::TinyUnsigned | ColumnKind::SmallUnsigned
        | ColumnKind::Unsigned | ColumnKind::BigUnsigned | ColumnKind::Year
        | ColumnKind::Interval => push_str(out, "INT64"),
        ColumnKind::Float => push_str(out, "FLOAT32"),
        ColumnKind::Double => push_str(out, "FLOAT64"),
        ColumnKind::Decimal | ColumnKind::Money => push_str(out, "NUMERIC"),
        ColumnKind::DateTime | ColumnKind::Timestamp
        | ColumnKind::TimestampWithTimeZone => push_str(out, "TIMESTAMP"),
        ColumnKind::Date => push_str(out, "DATE"),
        ColumnKind::Binary | ColumnKind::VarBinary | ColumnKind::Blob
        | ColumnKind::Bit => push_str(out, "BYTES(MAX)"),
        ColumnKind::Boolean => push_str(out, "BOOL"),
        ColumnKind::Json | ColumnKind::JsonBinary => push_str(out, "JSON"),
        ColumnKind::Uuid => push_str(out, "STRING(36)"),
        ColumnKind::Array(inner) => {
            push_str(out, "ARRAY<");
            push_type_name(out, inner);
            push_str(out, ">");
            assert(out@ =~= old(out)@ + spanner_type_text(*col_type));
        },
        ColumnKind::Custom(name) => {
            let upper = to_upper(name.as_str());
            push_str(out, upper.as_str());
        },
        _ => push_str(out, "STRING(MAX)"),
    }
}

/// The Spanner type name for a column type.
pub fn spanner_type_name(col_type: &ColumnKind) -> (name: String)
    ensures
        name@ == spanner_type_text(*col_type),
{
    let mut out = String::new();
    push_type_name(&mut out, col_type);
    assert(out@ =~= spanner_type_text(*col_type));
    out
}

/// A Spanner column definition: the type name, followed by NOT NULL unless nullable.
pub fn spanner_column_def(col_type: &ColumnKind, is_nullable: bool) -> (def: String)
    ensures
        def@ == spanner_type_text(*col_type) + (if is_nullable {
            Seq::empty()
        } else {
            " NOT NULL"@
        }),
{
    let mut def = spanner_type_name(col_type);
    if !is_nullable {
        push_str(&mut def, " NOT NULL");
    } else {
        assert(def@ =~= def@ + Seq::<char>::empty());
    }
    def
}

} // verus!
