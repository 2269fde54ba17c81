//! The names of the columns a `SELECT` statement returns, read from its SQL text.

use vstd::prelude::*;
use vstd::string::StringSliceAdditionalSpecFns;
use vstd::utf8::{
    decode_utf8, encode_utf8, is_char_boundary, is_char_boundary_iff_not_is_continuation_byte,
    is_char_boundary_start_end_of_seq, valid_utf8, valid_utf8_split,
};
use crate::rewrite::{find_top_level_from, top_level_from};
use crate::schema::texts;
use crate::text::{
    last_index_of, last_position, owned, push_char, split_char, split_str, string_of, to_chars,
    trim_str, trim_ws,
};
use crate::types::{to_upper, upper_case};

verus! {

/// The bytes of `SELECT`.
pub open spec fn select_keyword() -> Seq<u8> {
    seq![83u8, 69u8, 76u8, 69u8, 67u8, 84u8]
}

/// The bytes of ` AS `.
pub open spec fn as_keyword() -> Seq<u8> {
    seq![32u8, 65u8, 83u8, 32u8]
}

/// `pat` occurs in `hay` at byte `i`.
pub open spec fn bytes_at(hay: Seq<u8>, pat: Seq<u8>, i: int) -> bool {
    0 <= i && i + pat.len() <= hay.len() && hay.subrange(i, i + pat.len()) == pat
}

/// The first position from `i` on where `pat` occurs in `hay`.
pub open spec fn first_bytes_from(hay: Seq<u8>, pat: Seq<u8>, i: int) -> Option<int>
    decreases hay.len() - i,
{
    if i < 0 || i + pat.len() > hay.len() {
        None
    } else if pat.len() == 0 || bytes_at(hay, pat, i) {
        Some(i)
    } else {
        first_bytes_from(hay, pat, i + 1)
    }
}

/// The last position up to `i` where `pat` occurs in `hay`.
pub open spec fn last_bytes_upto(hay: Seq<u8>, pat: Seq<u8>, i: int) -> Option<int>
    decreases i + 1,
{
    if i < 0 {
        None
    } else if bytes_at(hay, pat, i) {
        Some(i)
    } else {
        last_bytes_upto(hay, pat, i - 1)
    }
}

/// The last position where `pat` occurs in `hay`.
pub open spec fn last_bytes(hay: Seq<u8>, pat: Seq<u8>) -> Option<int> {
    last_bytes_upto(hay, pat, hay.len() - pat.len())
}

/// `s` without the occurrences of `c` at its start.
pub open spec fn trim_start_char(s: Seq<char>, c: char) -> Seq<char>
    decreases s.len(),
{
    if s.len() > 0 && s[0] == c {
        trim_start_char(s.drop_first(), c)
    } else {
        s
    }
}

/// `s` without the occurrences of `c` at either end.
pub open spec fn trim_both_char(s: Seq<char>, c: char) -> Seq<char> {
    crate::text::trim_end_char(trim_start_char(s, c), c)
}

/// A name without the double quotes and then the backticks around it.
pub open spec fn unquoted_name(s: Seq<char>) -> Seq<char> {
    trim_both_char(trim_both_char(s, '"'), '`')
}

/// The column name one item of a select list gives: the alias after its last ` AS `
/// (matched in upper case), else the part after its last `.`, else the item; `None` where
/// the alias does not start on a character of the item.
pub open spec fn item_name(item: Seq<char>) -> Option<Seq<char>> {
    let t = trim_ws(item);
    let tb = encode_utf8(t);
    match last_bytes(encode_utf8(upper_case(t)), as_keyword()) {
        Some(q) => if q + 4 <= tb.len() && is_char_boundary(tb, q + 4) {
            Some(unquoted_name(trim_ws(decode_utf8(tb.subrange(q + 4, tb.len() as int)))))
        } else {
            None
        },
        None => match last_index_of(t, '.') {
            Some(d) => Some(unquoted_name(trim_ws(t.subrange(d + 1, t.len() as int)))),
            None => Some(unquoted_name(t)),
        },
    }
}

/// The names the items of a select list give, without empty names and `*`; `None` where
/// an item has none.
pub open spec fn item_names(items: Seq<Seq<char>>) -> Option<Seq<Seq<char>>>
    decreases items.len(),
{
    if items.len() == 0 {
        Some(Seq::empty())
    } else {
        match (item_names(items.drop_last()), item_name(items.last())) {
            (Some(ns), Some(n)) => Some(
                if n.len() > 0 && n != "*"@ {
                    ns.push(n)
                } else {
                    ns
                },
            ),
            _ => None,
        }
    }
}

/// The byte range of the select list: after the first `SELECT` up to the first `FROM`
/// outside parentheses, both found in the upper-case text.
pub open spec fn select_list_range(sql: Seq<char>) -> Option<(int, int)> {
    let ub = encode_utf8(upper_case(sql));
    match first_bytes_from(ub, select_keyword(), 0) {
        None => None,
        Some(p) => match top_level_from(ub, p + 6, 0) {
            None => None,
            Some(f) => Some((p + 6, f as int)),
        },
    }
}

/// The column names of a statement: those of its select list, none when it has no
/// `SELECT ... FROM`; `None` where the positions found in the upper-case text do not fall
/// on characters of the statement, or an alias does not.
pub open spec fn statement_columns(sql: Seq<char>) -> Option<Seq<Seq<char>>> {
    let b = encode_utf8(sql);
    match select_list_range(sql) {
        None => Some(Seq::empty()),
        Some((lo, hi)) => if lo <= hi <= b.len() && is_char_boundary(b, lo) && is_char_boundary(
            b,
            hi,
        ) {
            item_names(split_char(decode_utf8(b.subrange(lo, hi)), ','))
        } else {
            None
        },
    }
}

/// Where the first occurrence is found, the pattern occurs.
proof fn lemma_first_bytes(hay: Seq<u8>, pat: Seq<u8>, i: int)
    requires
        pat.len() > 0,
        first_bytes_from(hay, pat, i) is Some,
    ensures
        bytes_at(hay, pat, first_bytes_from(hay, pat, i)->Some_0),
        i <= first_bytes_from(hay, pat, i)->Some_0,
    decreases hay.len() - i,
{
    if !bytes_at(hay, pat, i) {
        lemma_first_bytes(hay, pat, i + 1);
    }
}

fn bytes_match(hay: &[u8], pat: &[u8], i: usize) -> (r: bool)
    requires
        i + pat@.len() <= hay@.len(),
    ensures
        r == bytes_at(hay@, pat@, i as int),
{
    let n = hay.len();
    let mut j: usize = 0;
    while j < pat.len()
        invariant
            j <= pat@.len(),
            n == hay@.len(),
            i + pat@.len() <= hay@.len(),
            forall|k: int| 0 <= k < j ==> hay@[i + k] == pat@[k],
        decreases pat.len() - j,
    {
        if hay[i + j] != pat[j] {
            assert(hay@.subrange(i as int, i + pat@.len())[j as int] != pat@[j as int]);
            return false;
        }
        j = j + 1;
    }
    assert(hay@.subrange(i as int, i + pat@.len()) =~= pat@);
    true
}

fn find_bytes(hay: &[u8], pat: &[u8]) -> (r: Option<usize>)
    requires
        pat@.len() > 0,
    ensures
        match r {
            Some(q) => first_bytes_from(hay@, pat@, 0) == Some(q as int),
            None => first_bytes_from(hay@, pat@, 0) is None,
        },
{
    if pat.len() > hay.len() {
        return None;
    }
    let mut i: usize = 0;
    while i <= hay.len() - pat.len()
        invariant
            0 < pat@.len() <= hay@.len(),
            i <= hay@.len() - pat@.len() + 1,
            first_bytes_from(hay@, pat@, 0) == first_bytes_from(hay@, pat@, i as int),
        decreases hay.len() - i,
    {
        if bytes_match(hay, pat, i) {
            return Some(i);
        }
        i = i + 1;
    }
    None
}

fn rfind_bytes(hay: &[u8], pat: &[u8]) -> (r: Option<usize>)
    ensures
        match r {
            Some(q) => last_bytes(hay@, pat@) == Some(q as int),
            None => last_bytes(hay@, pat@) is None,
        },
{
    if pat.len() > hay.len() {
        return None;
    }
    let top = hay.len() - pat.len();
    let mut k: usize = 0;
    while k <= top
        invariant
            pat@.len() <= hay@.len(),
            top == hay@.len() - pat@.len(),
            k <= top,
            last_bytes(hay@, pat@) == last_bytes_upto(hay@, pat@, top - k),
        decreases top - k,
    {
        let i = top - k;
        if bytes_match(hay, pat, i) {
            return Some(i);
        }
        if i == 0 {
            assert(last_bytes_upto(hay@, pat@, -1) is None);
            return None;
        }
        k = k + 1;
    }
    None
}

fn trim_char_both(s: &str, c: char) -> (r: String)
    ensures
        r@ == trim_both_char(s@, c),
{
    let cs = to_chars(s);
    let mut b: usize = 0;
    assert(cs@.subrange(0, cs@.len() as int) =~= cs@);
    while b < cs.len() && cs[b] == c
        invariant
            b <= cs@.len(),
            cs@ == s@,
            trim_start_char(s@, c) == trim_start_char(cs@.subrange(b as int, cs@.len() as int), c),
        decreases cs.len() - b,
    {
        assert(cs@.subrange(b as int, cs@.len() as int).drop_first() =~= cs@.subrange(
            b + 1,
            cs@.len() as int,
        ));
        b = b + 1;
    }
    assert(b == 0 ==> cs@.subrange(0, cs@.len() as int) =~= cs@);
    proof {
        let rest = cs@.subrange(b as int, cs@.len() as int);
        if rest.len() > 0 {
            assert(rest[0] == cs@[b as int]);
        }
    }
    let tail = string_of(&cs, b, cs.len());
    let tcs = to_chars(tail.as_str());
    let e = crate::text::trimmed_end_char(&tcs, tcs.len(), c);
    assert(tcs@.take(tcs@.len() as int) =~= tcs@);
    let r = string_of(&tcs, 0, e);
    assert(r@ =~= tcs@.take(e as int));
    r
}

fn unquote_name(s: &str) -> (r: String)
    ensures
        r@ == unquoted_name(s@),
{
    let a = trim_char_both(s, '"');
    trim_char_both(a.as_str(), '`')
}

/// The column name of one select-list item; `None` where its alias does not start on one
/// of its characters.
fn name_of_item(item: &str) -> (r: Option<String>)
    ensures
        match item_name(item@) {
            Some(n) => r matches Some(x) && x@ == n,
            None => r is None,
        },
{
    let t = trim_str(item);
    let ts = t.as_str();
    let upper = to_upper(ts);
    let ub = upper.as_str().as_bytes();
    let pat: [u8; 4] = [32, 65, 83, 32];
    assert(pat@ =~= as_keyword());
    assert(ub@ == encode_utf8(upper_case(trim_ws(item@))));
    let tlen = ts.as_bytes().len();
    assert(tlen == encode_utf8(trim_ws(item@)).len());
    match rfind_bytes(ub, pat.as_slice()) {
        Some(q) => {
            if q <= tlen && tlen - q >= 4 && ts.is_char_boundary(q + 4) {
                let (_, alias) = ts.split_at(q + 4);
                proof {
                    vstd::utf8::encode_utf8_decode_utf8(alias@);
                    assert(alias@ == decode_utf8(encode_utf8(trim_ws(item@)).subrange(
                        q + 4,
                        tlen as int,
                    )));
                }
                let a = trim_str(alias);
                Some(unquote_name(a.as_str()))
            } else {
                None
            }
        },
        None => {
            let cs = to_chars(ts);
            let n = cs.len();
            match last_position(&cs, '.') {
                Some(d) => {
                    let after = string_of(&cs, d + 1, n);
                    let a = trim_str(after.as_str());
                    Some(unquote_name(a.as_str()))
                },
                None => Some(unquote_name(ts)),
            }
        },
    }
}

proof fn lemma_boundary_in_tail(bytes: Seq<u8>, lo: int, hi: int)
    requires
        valid_utf8(bytes),
        0 <= lo <= hi <= bytes.len(),
        is_char_boundary(bytes, lo),
        is_char_boundary(bytes, hi),
    ensures
        valid_utf8(bytes.subrange(lo, bytes.len() as int)),
        is_char_boundary(bytes.subrange(lo, bytes.len() as int), hi - lo),
{
    let tail = bytes.subrange(lo, bytes.len() as int);
    valid_utf8_split(bytes, lo);
    if hi == bytes.len() {
        is_char_boundary_start_end_of_seq(tail);
        assert(tail.len() == hi - lo);
    } else if hi > lo {
        is_char_boundary_iff_not_is_continuation_byte(tail, hi - lo);
        is_char_boundary_iff_not_is_continuation_byte(bytes, hi);
        assert(tail[hi - lo] == bytes[hi]);
    }
}

/// Once an item has no name, the list has none.
proof fn lemma_item_names_none(items: Seq<Seq<char>>, j: int)
    requires
        0 <= j <= items.len(),
        item_names(items.take(j)) is None,
    ensures
        item_names(items) is None,
    decreases items.len() - j,
{
    if j < items.len() {
        assert(items.take(j + 1).drop_last() =~= items.take(j));
        lemma_item_names_none(items, j + 1);
    } else {
        assert(items.take(j) =~= items);
    }
}

/// The column names of a `SELECT` statement, or `None` where its select list or an alias
/// does not start or end on a character of the statement.
pub fn checked_column_names(sql: &str) -> (r: Option<Vec<String>>)
    ensures
        match statement_columns(sql@) {
            Some(ns) => r matches Some(v) && texts(v@) == ns,
            None => r is None,
        },
{
    broadcast use vstd::utf8::encode_utf8_valid_utf8;

    let upper = to_upper(sql);
    let select: [u8; 6] = [83, 69, 76, 69, 67, 84];
    assert(select@ =~= select_keyword());
    let ub = upper.as_str().as_bytes();
    let ulen = ub.len();
    let p = match find_bytes(ub, select.as_slice()) {
        None => {
            let empty: Vec<String> = Vec::new();
            assert(texts(empty@) =~= Seq::<Seq<char>>::empty());
            return Some(empty);
        },
        Some(p) => p,
    };
    proof {
        lemma_first_bytes(ub@, select@, 0);
    }
    let f = match find_top_level_from(upper.as_str(), p + 6) {
        None => {
            let empty: Vec<String> = Vec::new();
            assert(texts(empty@) =~= Seq::<Seq<char>>::empty());
            return Some(empty);
        },
        Some(f) => f,
    };
    let lo = p + 6;
    if !(lo <= f && f <= sql.as_bytes().len() && sql.is_char_boundary(lo) && sql.is_char_boundary(f)) {
        return None;
    }
    proof {
        lemma_boundary_in_tail(sql.spec_bytes(), lo as int, f as int);
    }
    let (_, tail) = sql.split_at(lo);
    let (part, _) = tail.split_at(f - lo);
    proof {
        assert(part.spec_bytes() =~= sql.spec_bytes().subrange(lo as int, f as int));
        vstd::utf8::encode_utf8_decode_utf8(part@);
    }
    let items = split_str(part, ',');
    let ghost its = items@.map_values(|p: String| p@);
    assert(statement_columns(sql@) == item_names(its));
    let mut out: Vec<String> = Vec::new();
    let mut i: usize = 0;
    assert(its.take(0) =~= Seq::<Seq<char>>::empty());
    assert(texts(out@) =~= Seq::<Seq<char>>::empty());
    while i < items.len()
        invariant
            i <= items@.len(),
            its == items@.map_values(|p: String| p@),
            statement_columns(sql@) == item_names(its),
            item_names(its.take(i as int)) == Some(texts(out@)),
        decreases items.len() - i,
    {
        assert(its.take(i + 1).drop_last() =~= its.take(i as int));
        assert(its.take(i + 1).last() == items@[i as int]@);
        match name_of_item(items[i].as_str()) {
            None => {
                proof {
                    lemma_item_names_none(its, i + 1);
                }
                return None;
            },
            Some(n) => {
                let ns = n.as_str();
                let keep = ns.as_bytes().len() > 0 && !crate::text::str_eq(ns, "*");
                proof {
                    if n@.len() > 0 {
                        assert(encode_utf8(n@) == vstd::utf8::encode_scalar(n@[0] as u32)
                            + encode_utf8(n@.drop_first()));
                    }
                }
                if keep {
                    let ghost before = texts(out@);
                    out.push(n);
                    assert(texts(out@) =~= before.push(out@[out@.len() - 1]@));
                }
            },
        }
        i = i + 1;
    }
    assert(its.take(items@.len() as int) =~= its);
    Some(out)
}

/// The names of the columns a statement returns, as its select list gives them: for each
/// item the alias after its last ` AS `, else the part after its last `.`, without quotes
/// and backticks; empty names and `*` are left out, and a statement without
/// `SELECT ... FROM` gives none.
pub fn extract_column_names_from_statement(sql: &str) -> (r: Vec<String>)
    requires
        statement_columns(sql@) is Some,
    ensures
        texts(r@) == statement_columns(sql@)->Some_0,
{
    match checked_column_names(sql) {
        Some(v) => v,
        None => Vec::new(),
    }
}

} // verus!
