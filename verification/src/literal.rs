//! Rendering values as Spanner SQL literals.

use vstd::prelude::*;
use crate::text::{decimal, signed_decimal, push_char, push_str, push_decimal, push_signed_decimal, to_chars};
use crate::value::{
    SqlValue, chrono_date_text, chrono_time_text, chrono_wall_text, decimal_text, format_date,
    format_time, format_wall, format_decimal,
};

verus! {

/// `s` with every occurrence of `from` replaced by `to`.
pub open spec fn replace_char(s: Seq<char>, from: char, to: Seq<char>) -> Seq<char>
    decreases s.len(),
{
    if s.len() == 0 {
        Seq::empty()
    } else {
        replace_char(s.drop_last(), from, to) + (if s.last() == from {
            to
        } else {
            seq![s.last()]
        })
    }
}

/// Replacing in a concatenation replaces in each part.
pub proof fn lemma_replace_char_append(a: Seq<char>, b: Seq<char>, from: char, to: Seq<char>)
    ensures
        replace_char(a + b, from, to) == replace_char(a, from, to) + replace_char(b, from, to),
    decreases b.len(),
{
    if b.len() == 0 {
        assert(a + b =~= a);
        assert(replace_char(a, from, to) + Seq::<char>::empty() =~= replace_char(a, from, to));
    } else {
        assert((a + b).drop_last() =~= a + b.drop_last());
        assert((a + b).last() == b.last());
        lemma_replace_char_append(a, b.drop_last(), from, to);
        let t = if b.last() == from {
            to
        } else {
            seq![b.last()]
        };
        assert(replace_char(a, from, to) + replace_char(b.drop_last(), from, to) + t
            =~= replace_char(a, from, to) + (replace_char(b.drop_last(), from, to) + t));
    }
}

/// Replaces every occurrence of a character.
pub(crate) fn replace_char_str(s: &str, from: char, to: &str) -> (r: String)
    ensures
        r@ == replace_char(s@, from, to@),
{
    let cs = to_chars(s);
    let mut r = String::new();
    let mut i: usize = 0;
    while i < cs.len()
        invariant
            i <= cs.len(),
            cs@ == s@,
            r@ == replace_char(s@.take(i as int), from, to@),
        decreases cs.len() - i,
    {
        assert(s@.take(i + 1).drop_last() =~= s@.take(i as int));
        if cs[i] == from {
            push_str(&mut r, to);
        } else {
            push_char(&mut r, cs[i]);
            assert(r@ =~= replace_char(s@.take(i as int), from, to@) + seq![cs@[i as int]]);
        }
        i = i + 1;
    }
    assert(s@.take(cs.len() as int) =~= s@);
    r
}

/// The quoted Spanner string literal for `s`: `'` doubled, `\` doubled, between `'`s.
pub open spec fn string_literal(s: Seq<char>) -> Seq<char> {
    "'"@ + replace_char(replace_char(s, '\'', "''"@), '\\', "\\\\"@) + "'"@
}

/// Quotes a string as a Spanner string literal.
pub fn escape_string(s: &str) -> (r: String)
    ensures
        r@ == string_literal(s@),
{
    let quoted = replace_char_str(s, '\'', "''");
    let escaped = replace_char_str(quoted.as_str(), '\\', "\\\\");
    let mut r = String::new();
    push_str(&mut r, "'");
    push_str(&mut r, escaped.as_str());
    push_str(&mut r, "'");
    assert(r@ =~= string_literal(s@));
    r
}

/// The lower-case hexadecimal digit for `d < 16`.
pub open spec fn hex_digit(d: nat) -> char {
    if d < 10 {
        ((48 + d) as u8) as char
    } else {
        ((87 + d) as u8) as char
    }
}

/// Two lower-case hexadecimal digits per byte.
pub open spec fn hex_text(bytes: Seq<u8>) -> Seq<char>
    decreases bytes.len(),
{
    if bytes.len() == 0 {
        Seq::empty()
    } else {
        hex_text(bytes.drop_last()) + seq![
            hex_digit((bytes.last() / 16) as nat),
            hex_digit((bytes.last() % 16) as nat),
        ]
    }
}

fn hex_char(d: u8) -> (c: char)
    requires
        d < 16,
    ensures
        c == hex_digit(d as nat),
{
    if d < 10 {
        (48u8 + d) as char
    } else {
        (87u8 + d) as char
    }
}

fn push_hex(out: &mut String, bytes: &[u8])
    ensures
        final(out)@ == old(out)@ + hex_text(bytes@),
{
    let ghost start = out@;
    let mut i: usize = 0;
    while i < bytes.len()
        invariant
            i <= bytes.len(),
            out@ == start + hex_text(bytes@.take(i as int)),
        decreases bytes.len() - i,
    {
        assert(bytes@.take(i + 1).drop_last() =~= bytes@.take(i as int));
        let b = bytes[i];
        push_char(out, hex_char(b / 16));
        push_char(out, hex_char(b % 16));
        i = i + 1;
        assert(out@ =~= start + hex_text(bytes@.take(i as int)));
    }
    assert(bytes@.take(bytes.len() as int) =~= bytes@);
}

/// Lower-case hexadecimal of bytes, two digits per byte.
pub fn bytes_to_hex(bytes: &[u8]) -> (r: String)
    ensures
        r@ == hex_text(bytes@),
{
    let mut r = String::new();
    push_hex(&mut r, bytes);
    assert(r@ =~= hex_text(bytes@));
    r
}

/// The hyphenated lower-case form of a UUID's 16 bytes: groups of 4, 2, 2, 2 and 6 bytes.
pub open spec fn uuid_text(b: Seq<u8>) -> Seq<char> {
    hex_text(b.subrange(0, 4)) + "-"@ + hex_text(b.subrange(4, 6)) + "-"@ + hex_text(
        b.subrange(6, 8),
    ) + "-"@ + hex_text(b.subrange(8, 10)) + "-"@ + hex_text(b.subrange(10, 16))
}

/// The hyphenated form of a UUID.
pub fn uuid_hyphenated(u: &[u8; 16]) -> (r: String)
    ensures
        r@ == uuid_text(u@),
{
    let b = u.as_slice();
    let mut r = String::new();
    push_hex(&mut r, vstd::slice::slice_subrange(b, 0, 4));
    push_str(&mut r, "-");
    push_hex(&mut r, vstd::slice::slice_subrange(b, 4, 6));
    push_str(&mut r, "-");
    push_hex(&mut r, vstd::slice::slice_subrange(b, 6, 8));
    push_str(&mut r, "-");
    push_hex(&mut r, vstd::slice::slice_subrange(b, 8, 10));
    push_str(&mut r, "-");
    push_hex(&mut r, vstd::slice::slice_subrange(b, 10, 16));
    assert(r@ =~= uuid_text(u@));
    r
}

/// The literal text of an optional value: the rendering of `Some`, or `NULL`.
pub open spec fn or_null(o: Option<Seq<char>>) -> Seq<char> {
    match o {
        Some(t) => t,
        None => "NULL"@,
    }
}

/// The Spanner SQL literal of a value; `None` when the text has to come from elsewhere:
/// a present floating-point number, or a date or time that chrono does not accept.
pub open spec fn literal_text(v: SqlValue) -> Option<Seq<char>> {
    match v {
        SqlValue::Bool(Some(b)) => Some(if b { "TRUE"@ } else { "FALSE"@ }),
        SqlValue::TinyInt(Some(i)) => Some(signed_decimal(i as int)),
        SqlValue::SmallInt(Some(i)) => Some(signed_decimal(i as int)),
        SqlValue::Int(Some(i)) => Some(signed_decimal(i as int)),
        SqlValue::BigInt(Some(i)) => Some(signed_decimal(i as int)),
        SqlValue::TinyUnsigned(Some(i)) => Some(decimal(i as nat)),
        SqlValue::SmallUnsigned(Some(i)) => Some(decimal(i as nat)),
        SqlValue::Unsigned(Some(i)) => Some(decimal(i as nat)),
        SqlValue::BigUnsigned(Some(i)) => Some(decimal(i as nat)),
        SqlValue::Float(Some(_)) => None,
        SqlValue::Double(Some(_)) => None,
        SqlValue::String(Some(s)) => Some(string_literal(s@)),
        SqlValue::Char(Some(c)) => Some(string_literal(seq![c])),
        SqlValue::Bytes(Some(b)) => Some("B\""@ + hex_text(b@) + "\""@),
        SqlValue::ChronoDate(Some(d)) => match chrono_date_text(d.year, d.month, d.day) {
            Some(t) => Some("DATE '"@ + t + "'"@),
            None => None,
        },
        SqlValue::ChronoTime(Some(t)) => match chrono_time_text(t.hour, t.minute, t.second, t.nano) {
            Some(x) => Some("'"@ + x + "'"@),
            None => None,
        },
        SqlValue::ChronoDateTime(Some(i)) | SqlValue::ChronoDateTimeUtc(Some(i))
        | SqlValue::ChronoDateTimeLocal(Some(i))
        | SqlValue::ChronoDateTimeWithTimeZone(Some(i)) => match chrono_wall_text(i.secs, i.nanos, i.offset) {
            Some(x) => Some("TIMESTAMP '"@ + x + "'"@),
            None => None,
        },
        SqlValue::Uuid(Some(u)) => Some("'"@ + uuid_text(u@) + "'"@),
        SqlValue::Json(Some(j)) => Some(string_literal(j@)),
        SqlValue::Decimal(Some(d)) => decimal_text(d.mantissa, d.scale),
        _ => Some("NULL"@),
    }
}

/// Renders a value as a Spanner SQL literal.
///
/// Returns `None` exactly when `literal_text` is `None`: for a present floating-point
/// number, whose text the caller formats, and for a date, time or decimal that its
/// library rejects.
pub fn value_to_spanner_literal(value: &SqlValue) -> (r: Option<String>)
    ensures
        r matches Some(t) ==> literal_text(*value) == Some(t@),
        r is None ==> literal_text(*value) is None,
{
    let mut out = String::new();
    match value {
        SqlValue::Bool(Some(b)) => {
            push_str(&mut out, if *b { "TRUE" } else { "FALSE" });
        },
        SqlValue::TinyInt(Some(i)) => push_signed_decimal(&mut out, *i as i64),
        SqlValue::SmallInt(Some(i)) => push_signed_decimal(&mut out, *i as i64),
        SqlValue::Int(Some(i)) => push_signed_decimal(&mut out, *i as i64),
        SqlValue::BigInt(Some(i)) => push_signed_decimal(&mut out, *i),
        SqlValue::TinyUnsigned(Some(i)) => push_decimal(&mut out, *i as u64),
        SqlValue::SmallUnsigned(Some(i)) => push_decimal(&mut out, *i as u64),
        SqlValue::Unsigned(Some(i)) => push_decimal(&mut out, *i as u64),
        SqlValue::BigUnsigned(Some(i)) => push_decimal(&mut out, *i),
        SqlValue::Float(Some(_)) | SqlValue::Double(Some(_)) => {
            return None;
        },
        SqlValue::String(Some(s)) => {
            let e = escape_string(s.as_str());
            push_str(&mut out, e.as_str());
        },
        SqlValue::Char(Some(c)) => {
            let mut one = String::new();
            push_char(&mut one, *c);
            assert(one@ =~= seq![*c]);
            let e = escape_string(one.as_str());
            push_str(&mut out, e.as_str());
        },
        SqlValue::Bytes(Some(b)) => {
            push_str(&mut out, "B\"");
            push_hex(&mut out, b.as_slice());
            push_str(&mut out, "\"");
        },
        SqlValue::ChronoDate(Some(d)) => {
            match format_date(d) {
                Some(t) => {
                    push_str(&mut out, "DATE '");
                    push_str(&mut out, t.as_str());
                    push_str(&mut out, "'");
                },
                None => {
                    return None;
                },
            }
        },
        SqlValue::ChronoTime(Some(t)) => {
            match format_time(t) {
                Some(x) => {
                    push_str(&mut out, "'");
                    push_str(&mut out, x.as_str());
                    push_str(&mut out, "'");
                },
                None => {
                    return None;
                },
            }
        },
        SqlValue::ChronoDateTime(Some(i)) | SqlValue::ChronoDateTimeUtc(Some(i))
        | SqlValue::ChronoDateTimeLocal(Some(i))
        | SqlValue::ChronoDateTimeWithTimeZone(Some(i)) => {
            match format_wall(i) {
                Some(x) => {
                    push_str(&mut out, "TIMESTAMP '");
                    push_str(&mut out, x.as_str());
                    push_str(&mut out, "'");
                },
                None => {
                    return None;
                },
            }
        },
        SqlValue::Uuid(Some(u)) => {
            push_str(&mut out, "'");
            let t = uuid_hyphenated(u);
            push_str(&mut out, t.as_str());
            push_str(&mut out, "'");
        },
        SqlValue::Json(Some(j)) => {
            let e = escape_string(j.as_str());
            push_str(&mut out, e.as_str());
        },
        SqlValue::Decimal(Some(d)) => {
            return format_decimal(d);
        },
        _ => push_str(&mut out, "NULL"),
    }
    assert(literal_text(*value) == Some(out@));
    Some(out)
}

/// A lower-case hexadecimal digit.
pub open spec fn is_hex_char(c: char) -> bool {
    ('0' <= c && c <= '9') || ('a' <= c && c <= 'f')
}

/// Replacing a character that does not occur changes nothing.
proof fn lemma_replace_char_absent(s: Seq<char>, from: char, to: Seq<char>)
    requires
        forall|i: int| 0 <= i < s.len() ==> s[i] != from,
    ensures
        replace_char(s, from, to) == s,
    decreases s.len(),
{
    if s.len() > 0 {
        lemma_replace_char_absent(s.drop_last(), from, to);
        assert(s.drop_last() + seq![s.last()] =~= s);
    }
}

/// The hexadecimal text of bytes is two lower-case hexadecimal digits per byte.
proof fn lemma_hex_text_digits(b: Seq<u8>)
    ensures
        hex_text(b).len() == 2 * b.len(),
        forall|i: int| 0 <= i < hex_text(b).len() ==> is_hex_char(#[trigger] hex_text(b)[i]),
    decreases b.len(),
{
    if b.len() > 0 {
        lemma_hex_text_digits(b.drop_last());
        let hi = (b.last() / 16) as nat;
        let lo = (b.last() % 16) as nat;
        assert(is_hex_char(hex_digit(hi)));
        assert(is_hex_char(hex_digit(lo)));
        let h = hex_text(b);
        assert(h == hex_text(b.drop_last()) + seq![hex_digit(hi), hex_digit(lo)]);
        assert forall|i: int| 0 <= i < h.len() implies is_hex_char(#[trigger] h[i]) by {
            if i < hex_text(b.drop_last()).len() {
                assert(h[i] == hex_text(b.drop_last())[i]);
            }
        }
    }
}

/// A UUID is written in SQL as a STRING literal of the same hyphenated text that it binds
/// as on every path (as a STRING parameter, or a UUID one on the proxy): 36 characters,
/// lower-case hexadecimal digits with hyphens at positions 8, 13, 18 and 23, which the
/// literal quotes with no escape.
pub proof fn lemma_uuid_literal_is_its_bound_text(u: [u8; 16], name: Seq<char>)
    ensures
        ({
            let t = uuid_text(u@);
            &&& crate::bind::binding(crate::bind::BindFlavor::Statement, name, SqlValue::Uuid(Some(u)))
                == Ok::<crate::bind::ParamModel, crate::bind::BindErrorModel>(
                crate::bind::ParamModel::String(Some(t)),
            )
            &&& crate::bind::binding(crate::bind::BindFlavor::Legacy, name, SqlValue::Uuid(Some(u)))
                == Ok::<crate::bind::ParamModel, crate::bind::BindErrorModel>(
                crate::bind::ParamModel::String(Some(t)),
            )
            &&& crate::bind::binding(crate::bind::BindFlavor::Proxy, name, SqlValue::Uuid(Some(u)))
                == Ok::<crate::bind::ParamModel, crate::bind::BindErrorModel>(
                crate::bind::ParamModel::Uuid(Some(t)),
            )
            &&& literal_text(SqlValue::Uuid(Some(u))) == Some(string_literal(t))
            &&& literal_text(SqlValue::Uuid(Some(u))) == Some("'"@ + t + "'"@)
            &&& t.len() == 36
            &&& forall|i: int|
                0 <= i < 36 ==> (if i == 8 || i == 13 || i == 18 || i == 23 {
                    t[i] == '-'
                } else {
                    is_hex_char(t[i])
                })
        }),
{
    reveal_strlit("-");
    let b = u@;
    let p0 = hex_text(b.subrange(0, 4));
    let p1 = hex_text(b.subrange(4, 6));
    let p2 = hex_text(b.subrange(6, 8));
    let p3 = hex_text(b.subrange(8, 10));
    let p4 = hex_text(b.subrange(10, 16));
    lemma_hex_text_digits(b.subrange(0, 4));
    lemma_hex_text_digits(b.subrange(4, 6));
    lemma_hex_text_digits(b.subrange(6, 8));
    lemma_hex_text_digits(b.subrange(8, 10));
    lemma_hex_text_digits(b.subrange(10, 16));
    let t = uuid_text(b);
    let h = "-"@;
    assert(t == p0 + h + p1 + h + p2 + h + p3 + h + p4);
    assert forall|i: int|
        0 <= i < 36 implies (if i == 8 || i == 13 || i == 18 || i == 23 {
            t[i] == '-'
        } else {
            is_hex_char(t[i])
        }) by {
        if i < 8 {
            assert(t[i] == p0[i]);
        } else if i == 8 {
        } else if i < 13 {
            assert(t[i] == p1[i - 9]);
        } else if i == 13 {
        } else if i < 18 {
            assert(t[i] == p2[i - 14]);
        } else if i == 18 {
        } else if i < 23 {
            assert(t[i] == p3[i - 19]);
        } else if i == 23 {
        } else {
            assert(t[i] == p4[i - 24]);
        }
    }
    assert forall|i: int| 0 <= i < t.len() implies t[i] != '\'' by {
        if i == 8 || i == 13 || i == 18 || i == 23 {
        } else {
            assert(is_hex_char(t[i]));
        }
    }
    lemma_replace_char_absent(t, '\'', "''"@);
    assert forall|i: int| 0 <= i < t.len() implies t[i] != '\\' by {
        if i == 8 || i == 13 || i == 18 || i == 23 {
        } else {
            assert(is_hex_char(t[i]));
        }
    }
    lemma_replace_char_absent(t, '\\', "\\\\"@);
}

} // verus!
