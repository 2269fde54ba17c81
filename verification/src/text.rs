//! Text helpers: building strings, decimal digits, joining and splitting, trimming and
//! searching, with the lemmas the rest of the library needs about them.

use vstd::prelude::*;

verus! {

/// Appends one character to a string.
///
/// Trusted: `String::push` from std, which appends `c` at the end of `s`.
#[verifier::external_body]
pub(crate) fn push_char(s: &mut String, c: char)
    ensures
        final(s)@ == old(s)@.push(c),
{
    s.push(c);
}

/// Appends a string slice to a string.
pub(crate) fn push_str(s: &mut String, t: &str)
    ensures
        final(s)@ == old(s)@ + t@,
{
    s.append(t);
}

/// Copies a string slice into an owned string.
pub(crate) fn owned(t: &str) -> (r: String)
    ensures
        r@ == t@,
{
    String::from_str(t)
}

/// The elements of `list`, separated by `sep`.
pub open spec fn join(list: Seq<Seq<char>>, sep: Seq<char>) -> Seq<char>
    decreases list.len(),
{
    if list.len() == 0 {
        Seq::empty()
    } else if list.len() == 1 {
        list[0]
    } else {
        join(list.drop_last(), sep) + sep + list.last()
    }
}

/// Joining one more element onto a prefix of a list.
pub proof fn lemma_join_step(list: Seq<Seq<char>>, sep: Seq<char>, i: int)
    requires
        0 <= i < list.len(),
    ensures
        join(list.take(i + 1), sep) == (if i == 0 {
            list[0]
        } else {
            join(list.take(i), sep) + sep + list[i]
        }),
{
    assert(list.take(i + 1).drop_last() =~= list.take(i));
    if i == 0 {
        assert(list.take(1).len() == 1);
    }
}

/// The character of a decimal digit.
pub open spec fn digit_char(d: nat) -> char {
    ((48 + d) as u8) as char
}

/// The decimal representation of a natural number, without leading zeros.
pub open spec fn decimal(n: nat) -> Seq<char>
    decreases n,
{
    if n < 10 {
        seq![digit_char(n)]
    } else {
        decimal(n / 10).push(digit_char(n % 10))
    }
}

/// The decimal representation of an integer, with a leading `-` when negative.
pub open spec fn signed_decimal(n: int) -> Seq<char> {
    if n < 0 {
        seq!['-'] + decimal((-n) as nat)
    } else {
        decimal(n as nat)
    }
}

fn digit(d: u64) -> (c: char)
    requires
        d < 10,
    ensures
        c == digit_char(d as nat),
{
    let b: u8 = 48u8 + (d as u8);
    b as char
}

/// Appends the decimal representation of `n`.
pub(crate) fn push_decimal(s: &mut String, n: u64)
    ensures
        final(s)@ == old(s)@ + decimal(n as nat),
    decreases n,
{
    if n >= 10 {
        push_decimal(s, n / 10);
    }
    let c = digit(n % 10);
    push_char(s, c);
    assert(s@ =~= old(s)@ + decimal(n as nat));
}

/// Appends the decimal representation of a signed `n`.
pub(crate) fn push_signed_decimal(s: &mut String, n: i64)
    ensures
        final(s)@ == old(s)@ + signed_decimal(n as int),
{
    if n < 0 {
        push_char(s, '-');
        let m: i128 = -(n as i128);
        push_decimal(s, m as u64);
        assert(s@ =~= old(s)@ + signed_decimal(n as int));
    } else {
        push_decimal(s, n as u64);
    }
}

/// The decimal representation of `n` as a new string.
pub(crate) fn decimal_string(n: u64) -> (r: String)
    ensures
        r@ == decimal(n as nat),
{
    let mut s = String::new();
    push_decimal(&mut s, n);
    assert(s@ =~= decimal(n as nat));
    s
}

/// Joins strings with a separator.
pub(crate) fn join_strings(parts: &Vec<String>, sep: &str) -> (r: String)
    ensures
        r@ == join(parts@.map_values(|p: String| p@), sep@),
{
    let ghost items = parts@.map_values(|p: String| p@);
    let mut r = String::new();
    let mut i: usize = 0;
    while i < parts.len()
        invariant
            i <= parts.len(),
            items == parts@.map_values(|p: String| p@),
            r@ == join(items.take(i as int), sep@),
        decreases parts.len() - i,
    {
        proof {
            lemma_join_step(items, sep@, i as int);
        }
        if i > 0 {
            push_str(&mut r, sep);
        }
        push_str(&mut r, parts[i].as_str());
        i = i + 1;
    }
    assert(items.take(parts.len() as int) =~= items);
    r
}

/// The characters of a string slice.
pub(crate) fn to_chars(s: &str) -> (v: Vec<char>)
    ensures
        v@ == s@,
{
    let mut v: Vec<char> = Vec::new();
    for c in it: s.chars()
        invariant
            v@ == it.seq().take(it.index() as int),
            it.seq() == s@,
    {
        v.push(c);
    }
    v
}

/// A character of Unicode's `White_Space` property, the whitespace of `str::trim`.
pub open spec fn is_white_space(c: char) -> bool {
    ||| '\u{9}' <= c <= '\u{d}'
    ||| c == ' '
    ||| c == '\u{85}'
    ||| c == '\u{a0}'
    ||| c == '\u{1680}'
    ||| '\u{2000}' <= c <= '\u{200a}'
    ||| c == '\u{2028}'
    ||| c == '\u{2029}'
    ||| c == '\u{202f}'
    ||| c == '\u{205f}'
    ||| c == '\u{3000}'
}

/// Whether a character is Unicode whitespace.
pub fn white_space(c: char) -> (r: bool)
    ensures
        r == is_white_space(c),
{
    ('\u{9}' <= c && c <= '\u{d}') || c == ' ' || c == '\u{85}' || c == '\u{a0}' || c
        == '\u{1680}' || ('\u{2000}' <= c && c <= '\u{200a}') || c == '\u{2028}' || c
        == '\u{2029}' || c == '\u{202f}' || c == '\u{205f}' || c == '\u{3000}'
}

/// `s` without its trailing whitespace.
pub open spec fn trim_end_ws(s: Seq<char>) -> Seq<char>
    decreases s.len(),
{
    if s.len() > 0 && is_white_space(s.last()) {
        trim_end_ws(s.drop_last())
    } else {
        s
    }
}

/// `s` without its leading whitespace.
pub open spec fn trim_start_ws(s: Seq<char>) -> Seq<char>
    decreases s.len(),
{
    if s.len() > 0 && is_white_space(s[0]) {
        trim_start_ws(s.drop_first())
    } else {
        s
    }
}

/// `s` without leading and trailing whitespace.
pub open spec fn trim_ws(s: Seq<char>) -> Seq<char> {
    trim_end_ws(trim_start_ws(s))
}

/// `s` without the occurrences of `c` at its end.
pub open spec fn trim_end_char(s: Seq<char>, c: char) -> Seq<char>
    decreases s.len(),
{
    if s.len() > 0 && s.last() == c {
        trim_end_char(s.drop_last(), c)
    } else {
        s
    }
}

/// The position of the last occurrence of `c` in `s`.
pub open spec fn last_index_of(s: Seq<char>, c: char) -> Option<int>
    decreases s.len(),
{
    if s.len() == 0 {
        None
    } else if s.last() == c {
        Some(s.len() - 1)
    } else {
        last_index_of(s.drop_last(), c)
    }
}

/// The characters `cs[lo..hi]` as a string.
pub(crate) fn string_of(cs: &Vec<char>, lo: usize, hi: usize) -> (r: String)
    requires
        lo <= hi <= cs@.len(),
    ensures
        r@ == cs@.subrange(lo as int, hi as int),
{
    let mut r = String::new();
    let mut i: usize = lo;
    while i < hi
        invariant
            lo <= i <= hi <= cs@.len(),
            r@ == cs@.subrange(lo as int, i as int),
        decreases hi - i,
    {
        push_char(&mut r, cs[i]);
        assert(r@ =~= cs@.subrange(lo as int, i + 1));
        i = i + 1;
    }
    r
}

/// The length of `cs[..hi]` without its trailing whitespace.
fn trimmed_end(cs: &Vec<char>, hi: usize) -> (e: usize)
    requires
        hi <= cs@.len(),
    ensures
        e <= hi,
        cs@.take(e as int) == trim_end_ws(cs@.take(hi as int)),
{
    let mut e = hi;
    while e > 0 && white_space(cs[e - 1])
        invariant
            e <= hi <= cs@.len(),
            trim_end_ws(cs@.take(e as int)) == trim_end_ws(cs@.take(hi as int)),
        decreases e,
    {
        assert(cs@.take(e as int).drop_last() =~= cs@.take(e - 1));
        e = e - 1;
    }
    if e > 0 {
        assert(cs@.take(e as int).last() == cs@[e - 1]);
    }
    e
}

/// The length of `cs[..hi]` without the occurrences of `c` at its end.
pub(crate) fn trimmed_end_char(cs: &Vec<char>, hi: usize, c: char) -> (e: usize)
    requires
        hi <= cs@.len(),
    ensures
        e <= hi,
        cs@.take(e as int) == trim_end_char(cs@.take(hi as int), c),
{
    let mut e = hi;
    while e > 0 && cs[e - 1] == c
        invariant
            e <= hi <= cs@.len(),
            trim_end_char(cs@.take(e as int), c) == trim_end_char(cs@.take(hi as int), c),
        decreases e,
    {
        assert(cs@.take(e as int).drop_last() =~= cs@.take(e - 1));
        e = e - 1;
    }
    if e > 0 {
        assert(cs@.take(e as int).last() == cs@[e - 1]);
    }
    e
}

/// The string without its trailing whitespace.
pub fn trim_end_str(s: &str) -> (r: String)
    ensures
        r@ == trim_end_ws(s@),
{
    let cs = to_chars(s);
    let e = trimmed_end(&cs, cs.len());
    assert(cs@.take(cs@.len() as int) =~= cs@);
    let r = string_of(&cs, 0, e);
    assert(r@ =~= cs@.take(e as int));
    r
}

proof fn lemma_trim_start_skip(s: Seq<char>, b: int)
    requires
        0 <= b <= s.len(),
        forall|k: int| 0 <= k < b ==> is_white_space(#[trigger] s[k]),
    ensures
        trim_start_ws(s) == trim_start_ws(s.subrange(b, s.len() as int)),
    decreases b,
{
    if b > 0 {
        assert(is_white_space(s[0]));
        assert forall|k: int| 0 <= k < b - 1 implies is_white_space(#[trigger] s.drop_first()[k]) by {
            assert(s.drop_first()[k] == s[k + 1]);
        }
        lemma_trim_start_skip(s.drop_first(), b - 1);
        assert(s.drop_first().subrange(b - 1, s.len() - 1) =~= s.subrange(b, s.len() as int));
    } else {
        assert(s.subrange(0, s.len() as int) =~= s);
    }
}

/// The string without leading and trailing whitespace.
pub fn trim_str(s: &str) -> (r: String)
    ensures
        r@ == trim_ws(s@),
{
    let cs = to_chars(s);
    let mut b: usize = 0;
    while b < cs.len() && white_space(cs[b])
        invariant
            b <= cs@.len(),
            forall|k: int| 0 <= k < b ==> is_white_space(#[trigger] cs@[k]),
        decreases cs.len() - b,
    {
        b = b + 1;
    }
    proof {
        lemma_trim_start_skip(cs@, b as int);
        let rest = cs@.subrange(b as int, cs@.len() as int);
        if rest.len() > 0 {
            assert(rest[0] == cs@[b as int]);
        }
    }
    let tail = string_of(&cs, b, cs.len());
    let tcs = to_chars(tail.as_str());
    let e = trimmed_end(&tcs, tcs.len());
    assert(tcs@.take(tcs@.len() as int) =~= tcs@);
    let r = string_of(&tcs, 0, e);
    assert(r@ =~= tcs@.take(e as int));
    r
}

/// The position of the last occurrence of `c` in `cs`.
pub(crate) fn last_position(cs: &Vec<char>, c: char) -> (r: Option<usize>)
    ensures
        match r {
            Some(p) => p < cs@.len() && last_index_of(cs@, c) == Some(p as int),
            None => last_index_of(cs@, c) is None,
        },
{
    let mut i = cs.len();
    assert(cs@.take(i as int) =~= cs@);
    while i > 0
        invariant
            i <= cs@.len(),
            last_index_of(cs@, c) == last_index_of(cs@.take(i as int), c),
        decreases i,
    {
        assert(cs@.take(i as int).drop_last() =~= cs@.take(i - 1));
        if cs[i - 1] == c {
            assert(cs@.take(i as int).last() == c);
            return Some(i - 1);
        }
        i = i - 1;
    }
    None
}

/// The pieces of `s` between occurrences of `sep`; there is always at least one piece.
pub open spec fn split_char(s: Seq<char>, sep: char) -> Seq<Seq<char>>
    decreases s.len(),
{
    if s.len() == 0 {
        seq![Seq::empty()]
    } else {
        let p = split_char(s.drop_last(), sep);
        if s.last() == sep {
            p.push(Seq::empty())
        } else {
            p.update(p.len() - 1, p.last().push(s.last()))
        }
    }
}

pub proof fn lemma_split_nonempty(s: Seq<char>, sep: char)
    ensures
        split_char(s, sep).len() >= 1,
    decreases s.len(),
{
    if s.len() > 0 {
        lemma_split_nonempty(s.drop_last(), sep);
    }
}

/// A text without the separator is one piece.
pub proof fn lemma_split_no_sep(x: Seq<char>, sep: char)
    requires
        !x.contains(sep),
    ensures
        split_char(x, sep) == seq![x],
    decreases x.len(),
{
    if x.len() > 0 {
        assert(!x.drop_last().contains(sep)) by {
            if x.drop_last().contains(sep) {
                let k = choose|k: int| 0 <= k < x.drop_last().len() && x.drop_last()[k] == sep;
                assert(x[k] == sep);
            }
        }
        lemma_split_no_sep(x.drop_last(), sep);
        assert(x.last() != sep) by {
            assert(x[x.len() - 1] == x.last());
        }
        assert(x.drop_last().push(x.last()) =~= x);
        assert(seq![x.drop_last()].update(0, x.drop_last().push(x.last())) =~= seq![x]);
    } else {
        assert(x =~= Seq::<char>::empty());
    }
}

/// Splitting `a`, a separator and `b` gives the pieces of `a` and then those of `b`.
pub proof fn lemma_split_concat(a: Seq<char>, b: Seq<char>, sep: char)
    ensures
        split_char(a + seq![sep] + b, sep) == split_char(a, sep) + split_char(b, sep),
    decreases b.len(),
{
    let x = a + seq![sep] + b;
    lemma_split_nonempty(a, sep);
    if b.len() == 0 {
        assert(x.drop_last() =~= a);
        assert(x.last() == sep);
        assert(split_char(b, sep) == seq![Seq::<char>::empty()]);
        assert(split_char(a, sep).push(Seq::empty()) =~= split_char(a, sep) + seq![
            Seq::<char>::empty(),
        ]);
    } else {
        assert(x.drop_last() =~= a + seq![sep] + b.drop_last());
        assert(x.last() == b.last());
        lemma_split_concat(a, b.drop_last(), sep);
        lemma_split_nonempty(b.drop_last(), sep);
        let pa = split_char(a, sep);
        let pb = split_char(b.drop_last(), sep);
        if b.last() == sep {
            assert((pa + pb).push(Seq::empty()) =~= pa + pb.push(Seq::empty()));
        } else {
            assert((pa + pb).update(
                (pa + pb).len() - 1,
                (pa + pb).last().push(b.last()),
            ) =~= pa + pb.update(pb.len() - 1, pb.last().push(b.last())));
        }
    }
}

/// Joining the pieces of a text with its separator gives the text back.
pub proof fn lemma_join_split(s: Seq<char>, sep: char)
    ensures
        join(split_char(s, sep), seq![sep]) == s,
    decreases s.len(),
{
    if s.len() == 0 {
        assert(split_char(s, sep) == seq![Seq::<char>::empty()]);
        assert(join(seq![Seq::<char>::empty()], seq![sep]) == Seq::<char>::empty());
        assert(s =~= Seq::<char>::empty());
    } else {
        let l = split_char(s.drop_last(), sep);
        lemma_join_split(s.drop_last(), sep);
        lemma_split_nonempty(s.drop_last(), sep);
        let c = s.last();
        if c == sep {
            let l2 = l.push(Seq::<char>::empty());
            assert(l2.drop_last() =~= l);
            assert(join(l2, seq![sep]) == join(l, seq![sep]) + seq![sep] + Seq::<char>::empty());
            assert(s.drop_last() + seq![sep] + Seq::<char>::empty() =~= s);
        } else {
            let l2 = l.update(l.len() - 1, l.last().push(c));
            if l.len() == 1 {
                assert(join(l, seq![sep]) == l[0]);
                assert(join(l2, seq![sep]) == l2[0]);
                assert(l2[0] =~= s.drop_last().push(c));
            } else {
                assert(l2.drop_last() =~= l.drop_last());
                assert(join(l2, seq![sep]) == join(l.drop_last(), seq![sep]) + seq![sep] + l.last().push(
                    c,
                ));
                assert(join(l, seq![sep]) == join(l.drop_last(), seq![sep]) + seq![sep] + l.last());
                assert(join(l.drop_last(), seq![sep]) + seq![sep] + l.last().push(c) =~= (join(
                    l.drop_last(),
                    seq![sep],
                ) + seq![sep] + l.last()).push(c));
            }
            assert(s.drop_last().push(c) =~= s);
        }
    }
}

/// Splits a string at each occurrence of a separator character.
pub(crate) fn split_str(s: &str, sep: char) -> (r: Vec<String>)
    ensures
        r@.map_values(|p: String| p@) == split_char(s@, sep),
{
    let cs = to_chars(s);
    let mut parts: Vec<String> = Vec::new();
    let mut cur = String::new();
    let mut i: usize = 0;
    while i < cs.len()
        invariant
            i <= cs.len(),
            cs@ == s@,
            parts@.map_values(|p: String| p@).push(cur@) == split_char(s@.take(i as int), sep),
        decreases cs.len() - i,
    {
        assert(s@.take(i + 1).drop_last() =~= s@.take(i as int));
        proof {
            lemma_split_nonempty(s@.take(i as int), sep);
        }
        let ghost prev = parts@.map_values(|p: String| p@).push(cur@);
        if cs[i] == sep {
            let done = cur;
            parts.push(done);
            cur = String::new();
            assert(parts@.map_values(|p: String| p@).push(cur@) =~= prev.push(Seq::empty()));
        } else {
            push_char(&mut cur, cs[i]);
            assert(parts@.map_values(|p: String| p@).push(cur@) =~= prev.update(
                prev.len() - 1,
                prev.last().push(cs@[i as int]),
            ));
        }
        i = i + 1;
    }
    assert(s@.take(cs.len() as int) =~= s@);
    parts.push(cur);
    parts
}

/// `needle` occurs in `hay` at position `i`.
pub open spec fn occurs_at(hay: Seq<char>, needle: Seq<char>, i: int) -> bool {
    0 <= i && i + needle.len() <= hay.len() && hay.subrange(i, i + needle.len()) == needle
}

/// `needle` occurs somewhere in `hay`.
pub open spec fn contains(hay: Seq<char>, needle: Seq<char>) -> bool {
    exists|i: int| occurs_at(hay, needle, i)
}

fn occurs_at_exec(hay: &Vec<char>, needle: &Vec<char>, i: usize) -> (r: bool)
    requires
        i + needle@.len() <= hay@.len(),
    ensures
        r == occurs_at(hay@, needle@, i as int),
{
    let mut j: usize = 0;
    while j < needle.len()
        invariant
            j <= needle@.len(),
            i + needle@.len() <= hay@.len(),
            forall|k: int| 0 <= k < j ==> hay@[i + k] == needle@[k],
        decreases needle.len() - j,
    {
        assert(i + j < hay.len());
        if hay[i + j] != needle[j] {
            assert(hay@.subrange(i as int, i + needle@.len())[j as int] != needle@[j as int]);
            return false;
        }
        j = j + 1;
    }
    assert(hay@.subrange(i as int, i + needle@.len()) =~= needle@);
    true
}

/// Whether `needle` occurs in `hay`.
pub fn str_contains(hay: &str, needle: &str) -> (r: bool)
    ensures
        r == contains(hay@, needle@),
{
    let h = to_chars(hay);
    let n = to_chars(needle);
    if n.len() > h.len() {
        assert forall|i: int| !occurs_at(hay@, needle@, i) by {}
        return false;
    }
    if n.len() == 0 {
        assert(hay@.subrange(0, 0) =~= needle@);
        assert(occurs_at(hay@, needle@, 0));
        return true;
    }
    let mut i: usize = 0;
    while i <= h.len() - n.len()
        invariant
            h@ == hay@,
            n@ == needle@,
            1 <= n.len() <= h.len(),
            i <= h.len() - n.len() + 1,
            forall|k: int| 0 <= k < i ==> !occurs_at(hay@, needle@, k),
        decreases h.len() - i,
    {
        if occurs_at_exec(&h, &n, i) {
            return true;
        }
        i = i + 1;
    }
    assert forall|k: int| !occurs_at(hay@, needle@, k) by {
        if 0 <= k && k + needle@.len() <= hay@.len() {
            assert(k < i);
        }
    }
    false
}

/// Whether two string slices are equal.
pub fn str_eq(a: &str, b: &str) -> (r: bool)
    ensures
        r == (a@ == b@),
{
    let x = to_chars(a);
    let y = to_chars(b);
    if x.len() != y.len() {
        return false;
    }
    let mut i: usize = 0;
    while i < x.len()
        invariant
            x@ == a@,
            y@ == b@,
            x.len() == y.len(),
            i <= x.len(),
            forall|k: int| 0 <= k < i ==> x@[k] == y@[k],
        decreases x.len() - i,
    {
        if x[i] != y[i] {
            return false;
        }
        i = i + 1;
    }
    assert(x@ =~= y@);
    true
}

} // verus!
