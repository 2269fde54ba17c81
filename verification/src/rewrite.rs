//! Rewriting of MySQL-flavoured SQL, as SeaORM's MySQL backend writes it, into Spanner SQL.

use vstd::prelude::*;
use vstd::string::StringSliceAdditionalSpecFns;
use crate::text::{decimal, push_char, push_decimal, push_str, to_chars};

verus! {

/// Rewrites the rest `s` of a statement, in quote state `quote` (the quote character of
/// the string literal being read, if any), numbering placeholders from `idx`: each `?`
/// outside string literals becomes `@p<n>`; a doubled quote character inside a literal
/// stays inside it.
pub open spec fn placeholders_from(s: Seq<char>, quote: Option<char>, idx: nat) -> Seq<char>
    decreases s.len(),
{
    if s.len() == 0 {
        Seq::empty()
    } else {
        let c = s[0];
        match quote {
            None => if c == '\'' || c == '"' {
                seq![c] + placeholders_from(s.skip(1), Some(c), idx)
            } else if c == '?' {
                "@p"@ + decimal(idx) + placeholders_from(s.skip(1), None, idx + 1)
            } else {
                seq![c] + placeholders_from(s.skip(1), None, idx)
            },
            Some(q) => if c == q {
                if s.len() >= 2 && s[1] == q {
                    seq![c, q] + placeholders_from(s.skip(2), Some(q), idx)
                } else {
                    seq![c] + placeholders_from(s.skip(1), None, idx)
                }
            } else {
                seq![c] + placeholders_from(s.skip(1), Some(q), idx)
            },
        }
    }
}

/// A statement with its `?` placeholders numbered `@p1`, `@p2`, ... in order.
pub open spec fn placeholders_text(s: Seq<char>) -> Seq<char> {
    placeholders_from(s, None, 1)
}

/// Rewrites `?` placeholders outside string literals into Spanner's `@p1`, `@p2`, ...
pub fn rewrite_placeholders(sql: &str) -> (r: String)
    ensures
        r@ == placeholders_text(sql@),
{
    let cs = to_chars(sql);
    let ghost s = sql@;
    let mut out = String::new();
    let mut quote: Option<char> = None;
    let mut idx: u128 = 1;
    assert(s.skip(0) =~= s);
    let mut i: usize = 0;
    while i < cs.len()
        invariant
            i <= cs.len(),
            cs@ == s,
            1 <= idx <= i + 1,
            out@ + placeholders_from(s.skip(i as int), quote, idx as nat) == placeholders_text(s),
        decreases cs.len() - i,
    {
        let ghost rest = s.skip(i as int);
        let ghost before = out@;
        let ghost old_quote = quote;
        let ghost old_idx = idx;
        let c = cs[i];
        assert(rest[0] == c);
        match quote {
            None => {
                if c == '\'' || c == '"' {
                    quote = Some(c);
                    push_char(&mut out, c);
                    i = i + 1;
                    assert(rest.skip(1) =~= s.skip(i as int));
                } else if c == '?' {
                    push_str(&mut out, "@p");
                    push_decimal(&mut out, idx as u64);
                    idx = idx + 1;
                    i = i + 1;
                    assert(rest.skip(1) =~= s.skip(i as int));
                } else {
                    push_char(&mut out, c);
                    i = i + 1;
                    assert(rest.skip(1) =~= s.skip(i as int));
                }
            },
            Some(q) => {
                if c == q {
                    if i + 1 < cs.len() && cs[i + 1] == q {
                        push_char(&mut out, c);
                        push_char(&mut out, q);
                        i = i + 2;
                        assert(rest.skip(2) =~= s.skip(i as int));
                    } else {
                        quote = None;
                        push_char(&mut out, c);
                        i = i + 1;
                        assert(rest.skip(1) =~= s.skip(i as int));
                    }
                } else {
                    push_char(&mut out, c);
                    i = i + 1;
                    assert(rest.skip(1) =~= s.skip(i as int));
                }
            },
        }
        assert(out@ + placeholders_from(s.skip(i as int), quote, idx as nat) =~= before
            + placeholders_from(rest, old_quote, old_idx as nat));
    }
    assert(s.skip(cs.len() as int) =~= Seq::<char>::empty());
    assert(out@ =~= out@ + placeholders_from(s.skip(cs.len() as int), quote, idx as nat));
    out
}

/// Rewrites the rest `s` of a statement in quote state `quote`: backticks outside string
/// literals are dropped; everything else is kept.
pub open spec fn unquote_from(s: Seq<char>, quote: Option<char>) -> Seq<char>
    decreases s.len(),
{
    if s.len() == 0 {
        Seq::empty()
    } else {
        let c = s[0];
        match quote {
            None => if c == '\'' || c == '"' {
                seq![c] + unquote_from(s.skip(1), Some(c))
            } else if c == '`' {
                unquote_from(s.skip(1), None)
            } else {
                seq![c] + unquote_from(s.skip(1), None)
            },
            Some(q) => if c == q {
                if s.len() >= 2 && s[1] == q {
                    seq![c, q] + unquote_from(s.skip(2), Some(q))
                } else {
                    seq![c] + unquote_from(s.skip(1), None)
                }
            } else {
                seq![c] + unquote_from(s.skip(1), Some(q))
            },
        }
    }
}

/// A statement with MySQL's backtick identifier quotes removed outside string literals.
pub open spec fn unquoted_text(s: Seq<char>) -> Seq<char> {
    unquote_from(s, None)
}

/// Removes MySQL backtick quoting outside string literals.
pub fn rewrite_mysql_quotes(sql: &str) -> (r: String)
    ensures
        r@ == unquoted_text(sql@),
{
    let cs = to_chars(sql);
    let ghost s = sql@;
    let mut out = String::new();
    let mut quote: Option<char> = None;
    let mut i: usize = 0;
    assert(s.skip(0) =~= s);
    while i < cs.len()
        invariant
            i <= cs.len(),
            cs@ == s,
            out@ + unquote_from(s.skip(i as int), quote) == unquoted_text(s),
        decreases cs.len() - i,
    {
        let ghost rest = s.skip(i as int);
        let ghost before = out@;
        let ghost old_quote = quote;
        let c = cs[i];
        assert(rest[0] == c);
        match quote {
            None => {
                if c == '\'' || c == '"' {
                    quote = Some(c);
                    push_char(&mut out, c);
                } else if c != '`' {
                    push_char(&mut out, c);
                }
                i = i + 1;
                assert(rest.skip(1) =~= s.skip(i as int));
            },
            Some(q) => {
                if c == q {
                    if i + 1 < cs.len() && cs[i + 1] == q {
                        push_char(&mut out, c);
                        push_char(&mut out, q);
                        i = i + 2;
                        assert(rest.skip(2) =~= s.skip(i as int));
                    } else {
                        quote = None;
                        push_char(&mut out, c);
                        i = i + 1;
                        assert(rest.skip(1) =~= s.skip(i as int));
                    }
                } else {
                    push_char(&mut out, c);
                    i = i + 1;
                    assert(rest.skip(1) =~= s.skip(i as int));
                }
            },
        }
        assert(out@ + unquote_from(s.skip(i as int), quote) =~= before + unquote_from(
            rest,
            old_quote,
        ));
    }
    assert(s.skip(cs.len() as int) =~= Seq::<char>::empty());
    assert(out@ =~= out@ + unquote_from(s.skip(cs.len() as int), quote));
    out
}

/// A byte that can continue an identifier: an ASCII letter or digit, or `_`.
pub open spec fn is_word_byte(b: u8) -> bool {
    (48 <= b <= 57) || (65 <= b <= 90) || (97 <= b <= 122) || b == 95
}

/// The keyword `FROM` starts at byte `i`, and no identifier byte follows it.
pub open spec fn from_keyword_at(b: Seq<u8>, i: int) -> bool {
    &&& 0 <= i
    &&& i + 4 <= b.len()
    &&& b[i] == 70 && b[i + 1] == 82 && b[i + 2] == 79 && b[i + 3] == 77
    &&& (i + 4 == b.len() || !is_word_byte(b[i + 4]))
}

/// The first byte position from `i` on where `FROM` stands outside parentheses, the
/// parenthesis depth being `depth` at `i` and never going below zero.
pub open spec fn top_level_from(b: Seq<u8>, i: int, depth: nat) -> Option<nat>
    decreases b.len() - i,
{
    if i < 0 || i >= b.len() {
        None
    } else if b[i] == 40 {
        top_level_from(b, i + 1, depth + 1)
    } else if b[i] == 41 {
        top_level_from(b, i + 1, if depth > 0 { (depth - 1) as nat } else { 0 })
    } else if depth == 0 && from_keyword_at(b, i) {
        Some(i as nat)
    } else {
        top_level_from(b, i + 1, depth)
    }
}

/// Finds the first `FROM` keyword at parenthesis depth zero, scanning from byte `start`.
pub fn find_top_level_from(sql: &str, start: usize) -> (r: Option<usize>)
    ensures
        r matches Some(p) ==> top_level_from(sql.spec_bytes(), start as int, 0) == Some(p as nat),
        r is None ==> top_level_from(sql.spec_bytes(), start as int, 0) is None,
{
    let bytes = sql.as_bytes();
    let ghost b = bytes@;
    let mut depth: usize = 0;
    let mut i: usize = start;
    while i < bytes.len()
        invariant
            b == bytes@,
            b == sql.spec_bytes(),
            start <= i,
            depth <= i - start,
            top_level_from(b, i as int, depth as nat) == top_level_from(b, start as int, 0),
        decreases bytes.len() - i,
    {
        let x = bytes[i];
        if x == 40 {
            depth = depth + 1;
        } else if x == 41 {
            if depth > 0 {
                depth = depth - 1;
            }
        } else if depth == 0 && x == 70 && bytes.len() - i >= 4 && bytes[i + 1] == 82
            && bytes[i + 2] == 79 && bytes[i + 3] == 77 && (bytes.len() - i == 4
            || !is_word(bytes[i + 4])) {
            return Some(i);
        }
        i = i + 1;
    }
    None
}

fn is_word(b: u8) -> (r: bool)
    ensures
        r == is_word_byte(b),
{
    (48 <= b && b <= 57) || (65 <= b && b <= 90) || (97 <= b && b <= 122) || b == 95
}

} // verus!
