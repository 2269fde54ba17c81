//! The Spanner dialect of SeaQuery's SQL writer: quoting, string escapes, placeholders
//! and operator precedence.

use vstd::prelude::*;
use crate::literal::{lemma_replace_char_append, replace_char, replace_char_str};
use crate::text::{push_char, to_chars};

verus! {

/// The Spanner SQL dialect for SeaQuery.
#[derive(Debug, Clone, Copy)]
pub struct SpannerQueryBuilder;

impl Default for SpannerQueryBuilder {
    fn default() -> (r: Self)
        ensures
            r == SpannerQueryBuilder,
    {
        SpannerQueryBuilder
    }
}

/// The kind of an inner expression, as far as precedence reads it.
#[derive(Debug, Clone, Copy, PartialEq, Eq, Structural)]
pub enum ExprKind {
    Column,
    Tuple,
    Constant,
    FunctionCall,
    Value,
    Keyword,
    Case,
    SubQuery,
    /// Any other expression (unary and binary operations, custom SQL, ...).
    Other,
}

/// A binary operator, as far as associativity reads it.
#[derive(Debug, Clone, Copy, PartialEq, Eq, Structural)]
pub enum BinOperKind {
    And,
    Or,
    Add,
    Sub,
    Mul,
    Div,
    Mod,
    /// Any other operator.
    Other,
}

/// The text with each doubled single quote read as one quote, left to right.
pub open spec fn undoubled_quotes(s: Seq<char>) -> Seq<char>
    decreases s.len(),
{
    if s.len() == 0 {
        Seq::empty()
    } else if s.len() >= 2 && s[0] == '\'' && s[1] == '\'' {
        seq!['\''] + undoubled_quotes(s.skip(2))
    } else {
        seq![s[0]] + undoubled_quotes(s.skip(1))
    }
}

/// Expressions that never need parentheses inside another expression.
pub open spec fn binds_tighter(inner: ExprKind) -> bool {
    inner != ExprKind::Other
}

/// Operators that can be chained to the left without parentheses.
pub open spec fn left_associative(op: BinOperKind) -> bool {
    op != BinOperKind::Other
}

/// Escaping and then unescaping a string gives the string back.
pub proof fn lemma_unescape_escape(s: Seq<char>)
    ensures
        undoubled_quotes(replace_char(s, '\'', "''"@)) == s,
    decreases s.len(),
{
    reveal_strlit("''");
    if s.len() > 0 {
        let c = s[0];
        let rest = s.drop_first();
        assert(s =~= seq![c] + rest);
        lemma_replace_char_append(seq![c], rest, '\'', "''"@);
        assert(seq![c].drop_last() =~= Seq::<char>::empty());
        assert(replace_char(seq![c].drop_last(), '\'', "''"@) == Seq::<char>::empty());
        assert(seq![c].last() == c);
        let e = replace_char(s, '\'', "''"@);
        lemma_unescape_escape(rest);
        if c == '\'' {
            assert(replace_char(seq![c], '\'', "''"@) =~= seq!['\'', '\'']);
            assert(e.skip(2) =~= replace_char(rest, '\'', "''"@));
            assert(e[0] == '\'' && e[1] == '\'');
        } else {
            assert(replace_char(seq![c], '\'', "''"@) =~= seq![c]);
            assert(e.skip(1) =~= replace_char(rest, '\'', "''"@));
            assert(e[0] == c);
        }
    } else {
        assert(replace_char(s, '\'', "''"@) =~= Seq::<char>::empty());
    }
}

impl SpannerQueryBuilder {
    /// The builder.
    pub fn new() -> (r: Self)
        ensures
            r == SpannerQueryBuilder,
    {
        SpannerQueryBuilder
    }

    /// Identifiers are quoted with backticks.
    pub fn quote(&self) -> (r: (char, char))
        ensures
            r == ('`', '`'),
    {
        ('`', '`')
    }

    /// Parameters are written `@p1`, `@p2`, ...: the prefix, and that they are numbered.
    pub fn placeholder(&self) -> (r: (&'static str, bool))
        ensures
            r.0@ == "@p"@,
            r.1,
    {
        ("@p", true)
    }

    /// A string for a single-quoted literal: each single quote doubled.
    pub fn escape_string(&self, string: &str) -> (r: String)
        ensures
            r@ == replace_char(string@, '\'', "''"@),
    {
        replace_char_str(string, '\'', "''")
    }

    /// The inverse of `escape_string`: each doubled single quote read as one.
    pub fn unescape_string(&self, string: &str) -> (r: String)
        ensures
            r@ == undoubled_quotes(string@),
    {
        let cs = to_chars(string);
        let mut r = String::new();
        let mut i: usize = 0;
        assert(string@.skip(0) =~= string@);
        assert(r@ + undoubled_quotes(string@) =~= undoubled_quotes(string@));
        while i < cs.len()
            invariant
                i <= cs@.len(),
                cs@ == string@,
                undoubled_quotes(string@) == r@ + undoubled_quotes(string@.skip(i as int)),
            decreases cs.len() - i,
        {
            let ghost rest = string@.skip(i as int);
            let ghost before = r@;
            assert(rest[0] == cs@[i as int]);
            if i + 1 < cs.len() && cs[i] == '\'' && cs[i + 1] == '\'' {
                assert(rest[1] == cs@[i + 1]);
                push_char(&mut r, '\'');
                assert(rest.skip(2) =~= string@.skip(i + 2));
                assert(before + (seq!['\''] + undoubled_quotes(rest.skip(2))) =~= r@
                    + undoubled_quotes(string@.skip(i + 2)));
                i = i + 2;
            } else {
                if i + 1 < cs.len() {
                    assert(rest[1] == cs@[i + 1]);
                }
                push_char(&mut r, cs[i]);
                assert(rest.skip(1) =~= string@.skip(i + 1));
                assert(before + (seq![cs@[i as int]] + undoubled_quotes(rest.skip(1))) =~= r@
                    + undoubled_quotes(string@.skip(i + 1)));
                i = i + 1;
            }
        }
        assert(string@.skip(cs.len() as int) =~= Seq::<char>::empty());
        assert(r@ + Seq::<char>::empty() =~= r@);
        r
    }

    /// Whether an inner expression binds tighter than any operator around it: columns,
    /// tuples, constants, function calls, values, keywords, `CASE` and subqueries do.
    pub fn inner_expr_well_known_greater_precedence(&self, inner: ExprKind) -> (r: bool)
        ensures
            r == binds_tighter(inner),
    {
        match inner {
            ExprKind::Other => false,
            _ => true,
        }
    }

    /// Whether an operator is known to be left associative: `AND`, `OR`, `+`, `-`, `*`,
    /// `/` and `%` are.
    pub fn well_known_left_associative(&self, op: BinOperKind) -> (r: bool)
        ensures
            r == left_associative(op),
    {
        match op {
            BinOperKind::Other => false,
            _ => true,
        }
    }
}

} // verus!
