//! Rewriting the MySQL DDL that SeaQuery's MySQL backend writes into Spanner DDL.

use vstd::prelude::*;
use crate::text::{
    contains, is_white_space, last_index_of, last_position, owned, push_char, push_str, str_contains,
    string_of, to_chars, trim_end_char, trim_end_ws, trim_str, trim_ws, trimmed_end_char,
    trim_end_str,
};
use crate::types::{to_upper, upper_case};

verus! {

/// What `Regex::new(pattern)` and then `replace_all(text, rep)` of the `regex` crate give:
/// `text` with every match of `pattern` replaced by `rep`, in which `$n` names a group.
pub uninterp spec fn regex_replace_all_text(pattern: Seq<char>, text: Seq<char>, rep: Seq<char>) -> Seq<
    char,
>;

/// What `Regex::new(pattern)` and then `replace(text, rep)` give: `text` with the first
/// match of `pattern` replaced by `rep`.
pub uninterp spec fn regex_replace_first_text(pattern: Seq<char>, text: Seq<char>, rep: Seq<char>) -> Seq<
    char,
>;

/// What `Regex::new(pattern)` and then `is_match(text)` give.
pub uninterp spec fn regex_matches(pattern: Seq<char>, text: Seq<char>) -> bool;

/// What `Regex::new(pattern)` and then `captures(text)` give for the first match: the
/// texts of its groups 1 and 2, or `None` when there is no match or when group 1 or 2
/// takes no part in it.
pub uninterp spec fn regex_groups(pattern: Seq<char>, text: Seq<char>) -> Option<
    (Seq<char>, Seq<char>),
>;

/// Replaces every match of `pattern` in `text` by `rep`.
///
/// Trusted: `regex::Regex::new` and `Regex::replace_all`; the result is named by
/// `regex_replace_all_text`. A pattern that does not compile leaves the text as it is
/// (every pattern of this module compiles).
#[verifier::external_body]
fn regex_replace_all(pattern: &str, text: &str, rep: &str) -> (r: String)
    ensures
        r@ == regex_replace_all_text(pattern@, text@, rep@),
{
    match regex::Regex::new(pattern) {
        Ok(re) => re.replace_all(text, rep).into_owned(),
        Err(_) => text.to_string(),
    }
}

/// Replaces the first match of `pattern` in `text` by `rep`.
///
/// Trusted: `regex::Regex::new` and `Regex::replace`; the result is named by
/// `regex_replace_first_text`.
#[verifier::external_body]
fn regex_replace_first(pattern: &str, text: &str, rep: &str) -> (r: String)
    ensures
        r@ == regex_replace_first_text(pattern@, text@, rep@),
{
    match regex::Regex::new(pattern) {
        Ok(re) => re.replace(text, rep).into_owned(),
        Err(_) => text.to_string(),
    }
}

/// Whether `pattern` matches somewhere in `text`.
///
/// Trusted: `regex::Regex::new` and `Regex::is_match`; the result is named by
/// `regex_matches`.
#[verifier::external_body]
fn regex_is_match(pattern: &str, text: &str) -> (r: bool)
    ensures
        r == regex_matches(pattern@, text@),
{
    match regex::Regex::new(pattern) {
        Ok(re) => re.is_match(text),
        Err(_) => false,
    }
}

/// The texts of groups 1 and 2 of the first match of `pattern` in `text`.
///
/// Trusted: `regex::Regex::new` and `Regex::captures`; the result is named by
/// `regex_groups`.
#[verifier::external_body]
fn regex_captures(pattern: &str, text: &str) -> (r: Option<(String, String)>)
    ensures
        match r {
            Some((a, b)) => regex_groups(pattern@, text@) == Some((a@, b@)),
            None => regex_groups(pattern@, text@) is None,
        },
{
    let re = match regex::Regex::new(pattern) {
        Ok(re) => re,
        Err(_) => return None,
    };
    match re.captures(text) {
        Some(c) => match (c.get(1), c.get(2)) {
            (Some(a), Some(b)) => Some((a.as_str().to_string(), b.as_str().to_string())),
            _ => None,
        },
        None => None,
    }
}

pub const RE_IF_NOT_EXISTS: &'static str = r"(?i)\s*IF\s+NOT\s+EXISTS";

pub const RE_IF_EXISTS: &'static str = r"(?i)\s*IF\s+EXISTS";

pub const RE_AUTO_INCREMENT: &'static str = r"(?i)\s*AUTO_INCREMENT";

pub const RE_ENGINE: &'static str = r"(?i)\s*ENGINE\s*=\s*\w+";

pub const RE_CHARSET: &'static str = r"(?i)\s*(DEFAULT\s+)?CHARSET\s*=\s*\w+";

pub const RE_CHARACTER_SET: &'static str = r"(?i)\s*CHARACTER\s+SET\s+\w+";

pub const RE_COLLATE: &'static str = r"(?i)\s*COLLATE\s*=?\s*\w+";

pub const RE_DEFAULT: &'static str = r"(?i)\s*DEFAULT\s+(?:'[^']*'|\d+|NULL|TRUE|FALSE)";

pub const RE_UNSIGNED: &'static str = r"(?i)\s+UNSIGNED";

pub const RE_CREATE_UNIQUE_INDEX: &'static str = r"(?i)^CREATE\s+UNIQUE\s+INDEX";

pub const RE_UNIQUE_KEY: &'static str = r"(?i)\s+UNIQUE(\s+KEY)?";

pub const RE_TINYINT1: &'static str = r"(?i)\bTINYINT\s*\(\s*1\s*\)";

pub const RE_INT_TYPES: &'static str = r"(?i)\b(BIG)?INT(EGER)?\b\s*(\(\s*\d+\s*\))?";

pub const RE_SMALLINT: &'static str = r"(?i)\b(SMALL|TINY|MEDIUM)INT\b\s*(\(\s*\d+\s*\))?";

pub const RE_VARCHAR: &'static str = r"(?i)\b(VAR)?CHAR\s*\(\s*(\d+)\s*\)";

pub const RE_TEXT: &'static str = r"(?i)\b(LONG|MEDIUM)?TEXT";

pub const RE_BOOL: &'static str = r"(?i)\bBOOL(EAN)?";

pub const RE_FLOAT: &'static str = r"(?i)\b(FLOAT|DOUBLE|REAL)(\s*\(\s*\d+\s*(,\s*\d+\s*)?\))?";

pub const RE_DECIMAL: &'static str = r"(?i)\b(DECIMAL|NUMERIC)\s*(\(\s*\d+\s*(,\s*\d+\s*)?\))?";

pub const RE_DATETIME: &'static str = r"(?i)\bDATETIME\s*(\(\s*\d+\s*\))?";

pub const RE_TIMESTAMP: &'static str = r"(?i)\bTIMESTAMP\s*(\(\s*\d+\s*\))?";

pub const RE_BLOB: &'static str = r"(?i)\b(LONG|MEDIUM|TINY)?BLOB";

pub const RE_BINARY16: &'static str = r"(?i)\bBINARY\s*\(\s*16\s*\)";

pub const RE_BINARY: &'static str = r"(?i)\b(VAR)?BINARY\s*\(\s*(\d+)\s*\)";

pub const RE_INLINE_PK: &'static str = r"(?i)`?(\w+)`?\s+(\w+(?:\s*\([^)]*\))?)\s+NOT\s+NULL\s+PRIMARY\s+KEY";

pub const RE_MULTI_SPACE: &'static str = r"  +";

pub const RE_TRAILING_COMMA: &'static str = r",\s*\)";

/// `s` with every match of `pattern` replaced by `rep`.
pub open spec fn replaced(pattern: &str, s: Seq<char>, rep: &str) -> Seq<char> {
    regex_replace_all_text(pattern@, s, rep@)
}

/// The DDL without the MySQL clauses Spanner does not know: `IF [NOT] EXISTS`,
/// `AUTO_INCREMENT`, table options, `DEFAULT` literals and `UNSIGNED`.
pub open spec fn without_mysql_clauses(s: Seq<char>) -> Seq<char> {
    let s = replaced(RE_IF_NOT_EXISTS, s, "");
    let s = replaced(RE_IF_EXISTS, s, "");
    let s = replaced(RE_AUTO_INCREMENT, s, "");
    let s = replaced(RE_ENGINE, s, "");
    let s = replaced(RE_CHARSET, s, "");
    let s = replaced(RE_CHARACTER_SET, s, "");
    let s = replaced(RE_COLLATE, s, "");
    let s = replaced(RE_DEFAULT, s, "");
    replaced(RE_UNSIGNED, s, "")
}

/// Inline `UNIQUE [KEY]` is dropped, except from `CREATE UNIQUE INDEX`.
pub open spec fn without_inline_unique(s: Seq<char>) -> Seq<char> {
    if regex_matches(RE_CREATE_UNIQUE_INDEX@, s) {
        s
    } else {
        replaced(RE_UNIQUE_KEY, s, "")
    }
}

/// The MySQL column types written as Spanner column types: `TINYINT(1)` and `BOOL` become
/// `BOOL`; the other integers `INT64`; `VARCHAR(n)` and `CHAR(n)` `STRING(n)`; texts
/// `STRING(MAX)`; floats `FLOAT64`; decimals `NUMERIC`; `DATETIME` and `TIMESTAMP`
/// `TIMESTAMP`; `BINARY(16)` (SeaORM's UUIDs) `UUID`; `BLOB`, `BINARY` and `VARBINARY`
/// `BYTES(MAX)`.
pub open spec fn with_spanner_types(s: Seq<char>) -> Seq<char> {
    let s = replaced(RE_TINYINT1, s, "BOOL");
    let s = replaced(RE_INT_TYPES, s, "INT64 ");
    let s = replaced(RE_SMALLINT, s, "INT64 ");
    let s = replaced(RE_VARCHAR, s, "STRING($2)");
    let s = replaced(RE_TEXT, s, "STRING(MAX)");
    let s = replaced(RE_BOOL, s, "BOOL");
    let s = replaced(RE_FLOAT, s, "FLOAT64");
    let s = replaced(RE_DECIMAL, s, "NUMERIC");
    let s = replaced(RE_DATETIME, s, "TIMESTAMP ");
    let s = replaced(RE_TIMESTAMP, s, "TIMESTAMP ");
    let s = replaced(RE_BLOB, s, "BYTES(MAX)");
    let s = replaced(RE_BINARY16, s, "UUID");
    replaced(RE_BINARY, s, "BYTES(MAX)")
}

/// The inline `NOT NULL PRIMARY KEY` column definition rewritten without the key, and the
/// column's name; the DDL unchanged and `None` when there is none.
pub open spec fn without_inline_key(s: Seq<char>) -> (Seq<char>, Option<Seq<char>>) {
    match regex_groups(RE_INLINE_PK@, s) {
        Some((name, ty)) => (
            regex_replace_first_text(
                RE_INLINE_PK@,
                s,
                "`"@ + name + "` "@ + ty + " NOT NULL"@,
            ),
            Some(name),
        ),
        None => (s, None),
    }
}

/// Runs of spaces collapsed and commas before a closing parenthesis dropped.
pub open spec fn tidied(s: Seq<char>) -> Seq<char> {
    replaced(RE_TRAILING_COMMA, replaced(RE_MULTI_SPACE, s, " "), ")")
}

/// The key of column `col` appended as Spanner's trailing `PRIMARY KEY (..)`, unless the
/// DDL already has a primary key clause or no closing parenthesis.
pub open spec fn with_trailing_key(s: Seq<char>, col: Seq<char>) -> Seq<char> {
    if contains(upper_case(s), "PRIMARY KEY ("@) || contains(upper_case(s), "PRIMARY KEY("@) {
        s
    } else {
        match last_index_of(s, ')') {
            Some(pos) => trim_end_ws(trim_end_char(s.take(pos), ',')) + ") PRIMARY KEY (`"@ + col
                + "`)"@,
            None => s,
        }
    }
}

/// The Spanner DDL for a MySQL DDL statement.
pub open spec fn spanner_ddl(mysql: Seq<char>) -> Seq<char> {
    let s = with_spanner_types(without_inline_unique(without_mysql_clauses(mysql)));
    let (s, key) = without_inline_key(s);
    let s = tidied(s);
    let s = match key {
        Some(col) => with_trailing_key(s, col),
        None => s,
    };
    trim_ws(s)
}

fn strip_mysql_clauses(s: &str) -> (r: String)
    ensures
        r@ == without_mysql_clauses(s@),
{
    let s = regex_replace_all(RE_IF_NOT_EXISTS, s, "");
    let s = regex_replace_all(RE_IF_EXISTS, s.as_str(), "");
    let s = regex_replace_all(RE_AUTO_INCREMENT, s.as_str(), "");
    let s = regex_replace_all(RE_ENGINE, s.as_str(), "");
    let s = regex_replace_all(RE_CHARSET, s.as_str(), "");
    let s = regex_replace_all(RE_CHARACTER_SET, s.as_str(), "");
    let s = regex_replace_all(RE_COLLATE, s.as_str(), "");
    let s = regex_replace_all(RE_DEFAULT, s.as_str(), "");
    regex_replace_all(RE_UNSIGNED, s.as_str(), "")
}

fn map_column_types(s: &str) -> (r: String)
    ensures
        r@ == with_spanner_types(s@),
{
    let s = regex_replace_all(RE_TINYINT1, s, "BOOL");
    let s = regex_replace_all(RE_INT_TYPES, s.as_str(), "INT64 ");
    let s = regex_replace_all(RE_SMALLINT, s.as_str(), "INT64 ");
    let s = regex_replace_all(RE_VARCHAR, s.as_str(), "STRING($2)");
    let s = regex_replace_all(RE_TEXT, s.as_str(), "STRING(MAX)");
    let s = regex_replace_all(RE_BOOL, s.as_str(), "BOOL");
    let s = regex_replace_all(RE_FLOAT, s.as_str(), "FLOAT64");
    let s = regex_replace_all(RE_DECIMAL, s.as_str(), "NUMERIC");
    let s = regex_replace_all(RE_DATETIME, s.as_str(), "TIMESTAMP ");
    let s = regex_replace_all(RE_TIMESTAMP, s.as_str(), "TIMESTAMP ");
    let s = regex_replace_all(RE_BLOB, s.as_str(), "BYTES(MAX)");
    let s = regex_replace_all(RE_BINARY16, s.as_str(), "UUID");
    regex_replace_all(RE_BINARY, s.as_str(), "BYTES(MAX)")
}

fn append_trailing_key(s: String, col: &str) -> (r: String)
    ensures
        r@ == with_trailing_key(s@, col@),
{
    let upper = to_upper(s.as_str());
    if str_contains(upper.as_str(), "PRIMARY KEY (") || str_contains(upper.as_str(), "PRIMARY KEY(") {
        return s;
    }
    let cs = to_chars(s.as_str());
    match last_position(&cs, ')') {
        Some(pos) => {
            let e = trimmed_end_char(&cs, pos, ',');
            let head = string_of(&cs, 0, e);
            assert(head@ =~= trim_end_char(s@.take(pos as int), ','));
            let mut r = trim_end_str(head.as_str());
            push_str(&mut r, ") PRIMARY KEY (`");
            push_str(&mut r, col);
            push_str(&mut r, "`)");
            r
        },
        None => s,
    }
}

/// Converts MySQL DDL, as SeaQuery's MySQL backend writes it, to Spanner DDL: MySQL-only
/// clauses are removed, column types are mapped to Spanner's, and an inline primary key
/// becomes Spanner's trailing `PRIMARY KEY (..)` clause.
pub fn mysql_ddl_to_spanner(mysql_ddl: &str) -> (r: String)
    ensures
        r@ == spanner_ddl(mysql_ddl@),
{
    let sql = strip_mysql_clauses(mysql_ddl);
    let sql = if !regex_is_match(RE_CREATE_UNIQUE_INDEX, sql.as_str()) {
        regex_replace_all(RE_UNIQUE_KEY, sql.as_str(), "")
    } else {
        sql
    };
    let sql = map_column_types(sql.as_str());
    let (sql, key) = match regex_captures(RE_INLINE_PK, sql.as_str()) {
        Some((name, ty)) => {
            let mut rep = owned("`");
            push_str(&mut rep, name.as_str());
            push_str(&mut rep, "` ");
            push_str(&mut rep, ty.as_str());
            push_str(&mut rep, " NOT NULL");
            (regex_replace_first(RE_INLINE_PK, sql.as_str(), rep.as_str()), Some(name))
        },
        None => (sql, None),
    };
    let sql = regex_replace_all(RE_MULTI_SPACE, sql.as_str(), " ");
    let sql = regex_replace_all(RE_TRAILING_COMMA, sql.as_str(), ")");
    let sql = match key {
        Some(col) => append_trailing_key(sql, col.as_str()),
        None => sql,
    };
    trim_str(sql.as_str())
}

} // verus!
