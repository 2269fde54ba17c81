//! Turning a SeaORM statement (SQL and values) into a Spanner statement: its SQL text and
//! its named parameters.

use vstd::prelude::*;
use crate::bind::{
    all_bindable, bind_all, bound_in_order, first_refusal, BindError, BindFlavor, BoundParam,
};
use crate::rewrite::{
    placeholders_from, placeholders_text, rewrite_mysql_quotes, rewrite_placeholders, unquote_from,
    unquoted_text,
};
use crate::text::owned;
use crate::value::SqlValue;

verus! {

/// A Spanner statement: SQL text and the parameters bound to it, by name.
#[derive(Debug)]
pub struct PreparedStatement {
    pub sql: String,
    pub params: Vec<(String, BoundParam)>,
}

/// The SQL text sent to Spanner: on the proxy path, the MySQL-flavoured SQL with its `?`
/// placeholders numbered and its backticks removed; on the other paths, the SQL as it is.
pub open spec fn spanner_sql(flavor: BindFlavor, sql: Seq<char>) -> Seq<char> {
    if flavor == BindFlavor::Proxy {
        unquoted_text(placeholders_text(sql))
    } else {
        sql
    }
}

/// The values of a statement; none when it has no values.
pub open spec fn values_of(values: Option<Vec<SqlValue>>) -> Seq<SqlValue> {
    match values {
        Some(v) => v@,
        None => Seq::empty(),
    }
}

/// The Spanner statement for SQL `sql` with `values`, on path `flavor`; the first value
/// that cannot be bound decides the error.
pub fn convert_statement(flavor: BindFlavor, sql: &str, values: &Option<Vec<SqlValue>>) -> (r:
    Result<PreparedStatement, BindError>)
    ensures
        r matches Ok(st) ==> st.sql@ == spanner_sql(flavor, sql@) && bound_in_order(
            flavor,
            values_of(*values),
            st.params@,
        ),
        r matches Err(e) ==> first_refusal(flavor, values_of(*values), e@),
        all_bindable(flavor, values_of(*values)) ==> r is Ok,
{
    let text = if flavor == BindFlavor::Proxy {
        let numbered = rewrite_placeholders(sql);
        rewrite_mysql_quotes(numbered.as_str())
    } else {
        owned(sql)
    };
    let params = match values {
        Some(vs) => bind_all(flavor, vs),
        None => {
            let empty: Vec<SqlValue> = Vec::new();
            assert(values_of(*values) =~= empty@);
            bind_all(flavor, &empty)
        },
    };
    match params {
        Ok(ps) => Ok(PreparedStatement { sql: text, params: ps }),
        Err(e) => Err(e),
    }
}

/// SQL without placeholders, quote characters or backticks.
pub open spec fn is_plain_sql(s: Seq<char>) -> bool {
    forall|i: int|
        0 <= i < s.len() ==> #[trigger] s[i] != '?' && s[i] != '\'' && s[i] != '"' && s[i] != '`'
}

proof fn lemma_plain_rest(s: Seq<char>)
    requires
        is_plain_sql(s),
        s.len() > 0,
    ensures
        is_plain_sql(s.skip(1)),
        s =~= seq![s[0]] + s.skip(1),
{
    assert forall|i: int| 0 <= i < s.skip(1).len() implies #[trigger] s.skip(1)[i] != '?' && s.skip(1)[i]
        != '\'' && s.skip(1)[i] != '"' && s.skip(1)[i] != '`' by {
        assert(s.skip(1)[i] == s[i + 1]);
    }
}

proof fn lemma_placeholders_plain(s: Seq<char>, idx: nat)
    requires
        is_plain_sql(s),
    ensures
        placeholders_from(s, None, idx) == s,
    decreases s.len(),
{
    if s.len() > 0 {
        lemma_plain_rest(s);
        assert(s[0] != '?' && s[0] != '\'' && s[0] != '"');
        lemma_placeholders_plain(s.skip(1), idx);
    } else {
        assert(s =~= Seq::<char>::empty());
    }
}

proof fn lemma_unquote_plain(s: Seq<char>)
    requires
        is_plain_sql(s),
    ensures
        unquote_from(s, None) == s,
    decreases s.len(),
{
    if s.len() > 0 {
        lemma_plain_rest(s);
        assert(s[0] != '`' && s[0] != '\'' && s[0] != '"');
        lemma_unquote_plain(s.skip(1));
    } else {
        assert(s =~= Seq::<char>::empty());
    }
}

/// SQL with no placeholders, string literals or backticks goes to Spanner unchanged.
pub proof fn lemma_plain_sql_unchanged(s: Seq<char>)
    requires
        is_plain_sql(s),
    ensures
        spanner_sql(BindFlavor::Proxy, s) == s,
{
    lemma_placeholders_plain(s, 1);
    lemma_unquote_plain(s);
}

} // verus!
