//! Builders for Spanner DDL statements: CREATE TABLE, CREATE INDEX and ALTER TABLE.

use vstd::prelude::*;
use crate::types::{ColumnKind, spanner_type_name, spanner_type_text};
use crate::text::{join, join_strings, lemma_join_step, decimal, owned, push_str, push_decimal};

verus! {

/// The text of an optional string.
pub open spec fn opt_text(o: Option<String>) -> Option<Seq<char>> {
    match o {
        Some(s) => Some(s@),
        None => None,
    }
}

/// The texts of a list of strings.
pub open spec fn texts(v: Seq<String>) -> Seq<Seq<char>> {
    v.map_values(|s: String| s@)
}

/// The texts of a list of string slices.
pub open spec fn str_texts(v: Seq<&str>) -> Seq<Seq<char>> {
    v.map_values(|s: &str| s@)
}

/// Abstract content of a column definition.
pub struct ColumnModel {
    pub name: Seq<char>,
    pub column_type: Seq<char>,
    pub not_null: bool,
    pub default_expr: Option<Seq<char>>,
    pub generated_expr: Option<Seq<char>>,
    pub stored: bool,
}

/// Represents a column definition for Spanner.
#[derive(Debug, Clone)]
pub struct SpannerColumn {
    name: String,
    column_type: String,
    not_null: bool,
    default_expr: Option<String>,
    generated_expr: Option<String>,
    stored: bool,
}

impl View for SpannerColumn {
    type V = ColumnModel;

    closed spec fn view(&self) -> ColumnModel {
        ColumnModel {
            name: self.name@,
            column_type: self.column_type@,
            not_null: self.not_null,
            default_expr: opt_text(self.default_expr),
            generated_expr: opt_text(self.generated_expr),
            stored: self.stored,
        }
    }
}

impl SpannerColumn {
    /// Appends this column as it appears in a CREATE TABLE statement.
    fn push_ddl(&self, ddl: &mut String)
        ensures
            final(ddl)@ == old(ddl)@ + column_ddl(self@),
    {
        let ghost start = old(ddl)@;
        push_str(ddl, "  ");
        push_str(ddl, self.name.as_str());
        push_str(ddl, " ");
        push_str(ddl, self.column_type.as_str());
        let ghost head = ddl@;
        assert(head =~= start + "  "@ + self@.name + " "@ + self@.column_type);
        push_not_null(ddl, self.not_null);
        let ghost a = ddl@;
        push_default(ddl, &self.default_expr);
        let ghost b = ddl@;
        push_generated(ddl, &self.generated_expr, self.stored);
        assert(ddl@ =~= old(ddl)@ + column_ddl(self@));
    }

    /// A plain column: name, type and nullability, with no default and no generation.
    pub(crate) fn plain(name: &str, column_type: &str, not_null: bool) -> (c: SpannerColumn)
        ensures
            c@ == (ColumnModel {
                name: name@,
                column_type: column_type@,
                not_null,
                default_expr: None,
                generated_expr: None,
                stored: false,
            }),
    {
        SpannerColumn {
            name: owned(name),
            column_type: owned(column_type),
            not_null,
            default_expr: None,
            generated_expr: None,
            stored: false,
        }
    }
}

/// The NOT NULL marker of a column, if any.
pub open spec fn not_null_ddl(not_null: bool) -> Seq<char> {
    if not_null { " NOT NULL"@ } else { Seq::empty() }
}

/// The DEFAULT clause of a column, if any.
pub open spec fn default_ddl(default_expr: Option<Seq<char>>) -> Seq<char> {
    match default_expr {
        Some(d) => " DEFAULT ("@ + d + ")"@,
        None => Seq::empty(),
    }
}

/// The generation clause of a column, if any.
pub open spec fn generated_ddl(generated_expr: Option<Seq<char>>, stored: bool) -> Seq<char> {
    match generated_expr {
        Some(g) => " AS ("@ + g + ")"@ + (if stored { " STORED"@ } else { Seq::empty() }),
        None => Seq::empty(),
    }
}

/// A column as it appears in a CREATE TABLE statement, indented by two spaces.
pub open spec fn column_ddl(c: ColumnModel) -> Seq<char> {
    "  "@ + c.name + " "@ + c.column_type + not_null_ddl(c.not_null) + default_ddl(c.default_expr)
        + generated_ddl(c.generated_expr, c.stored)
}

fn push_not_null(ddl: &mut String, not_null: bool)
    ensures
        final(ddl)@ == old(ddl)@ + not_null_ddl(not_null),
{
    if not_null {
        push_str(ddl, " NOT NULL");
    } else {
        assert(ddl@ =~= old(ddl)@ + Seq::<char>::empty());
    }
}

fn push_default(ddl: &mut String, default_expr: &Option<String>)
    ensures
        final(ddl)@ == old(ddl)@ + default_ddl(opt_text(*default_expr)),
{
    match default_expr {
        Some(d) => {
            push_str(ddl, " DEFAULT (");
            push_str(ddl, d.as_str());
            push_str(ddl, ")");
            assert(ddl@ =~= old(ddl)@ + default_ddl(opt_text(*default_expr)));
        },
        None => {
            assert(ddl@ =~= old(ddl)@ + Seq::<char>::empty());
        },
    }
}

fn push_generated(ddl: &mut String, generated_expr: &Option<String>, stored: bool)
    ensures
        final(ddl)@ == old(ddl)@ + generated_ddl(opt_text(*generated_expr), stored),
{
    match generated_expr {
        Some(g) => {
            push_str(ddl, " AS (");
            push_str(ddl, g.as_str());
            push_str(ddl, ")");
            if stored {
                push_str(ddl, " STORED");
            }
            assert(ddl@ =~= old(ddl)@ + generated_ddl(opt_text(*generated_expr), stored));
        },
        None => {
            assert(ddl@ =~= old(ddl)@ + Seq::<char>::empty());
        },
    }
}

/// Abstract content of a CREATE TABLE builder.
pub struct TableModel {
    pub table_name: Seq<char>,
    pub columns: Seq<ColumnModel>,
    pub primary_keys: Seq<Seq<char>>,
    pub interleave_in_parent: Option<Seq<char>>,
    pub on_delete_cascade: bool,
    pub row_deletion_policy: Option<Seq<char>>,
}

/// The CREATE TABLE statement that a builder with content `t` produces.
pub open spec fn table_ddl(t: TableModel) -> Seq<char> {
    "CREATE TABLE "@ + t.table_name + " (\n"@
        + join(t.columns.map_values(|c: ColumnModel| column_ddl(c)), ",\n"@)
        + "\n) PRIMARY KEY ("@ + join(t.primary_keys, ", "@) + ")"@
        + (match t.interleave_in_parent {
            Some(p) => ",\n  INTERLEAVE IN PARENT "@ + p
                + (if t.on_delete_cascade { " ON DELETE CASCADE"@ } else { Seq::empty() }),
            None => Seq::empty(),
        })
        + (match t.row_deletion_policy {
            Some(p) => ",\n  ROW DELETION POLICY ("@ + p + ")"@,
            None => Seq::empty(),
        })
}

/// The Spanner type of a STRING or BYTES column of optional maximum length.
pub open spec fn sized_type(kind: Seq<char>, max_len: Option<u32>) -> Seq<char> {
    match max_len {
        Some(len) => kind + "("@ + decimal(len as nat) + ")"@,
        None => kind + "(MAX)"@,
    }
}

/// The row deletion policy expression for a column and a number of days.
pub open spec fn deletion_policy(column: Seq<char>, days: u32) -> Seq<char> {
    "OLDER_THAN("@ + column + ", INTERVAL "@ + decimal(days as nat) + " DAY)"@
}

/// Builder for CREATE TABLE statements in Spanner DDL format.
#[derive(Debug, Clone)]
pub struct SpannerTableBuilder {
    table_name: String,
    columns: Vec<SpannerColumn>,
    primary_keys: Vec<String>,
    interleave_in_parent: Option<String>,
    on_delete_cascade: bool,
    row_deletion_policy: Option<String>,
}

impl View for SpannerTableBuilder {
    type V = TableModel;

    closed spec fn view(&self) -> TableModel {
        TableModel {
            table_name: self.table_name@,
            columns: self.columns@.map_values(|c: SpannerColumn| c@),
            primary_keys: texts(self.primary_keys@),
            interleave_in_parent: opt_text(self.interleave_in_parent),
            on_delete_cascade: self.on_delete_cascade,
            row_deletion_policy: opt_text(self.row_deletion_policy),
        }
    }
}

impl Default for SpannerTableBuilder {
    fn default() -> (b: Self)
        ensures
            b@ == (TableModel {
                table_name: Seq::empty(),
                columns: Seq::empty(),
                primary_keys: Seq::empty(),
                interleave_in_parent: None,
                on_delete_cascade: false,
                row_deletion_policy: None,
            }),
    {
        let b = SpannerTableBuilder {
            table_name: String::new(),
            columns: Vec::new(),
            primary_keys: Vec::new(),
            interleave_in_parent: None,
            on_delete_cascade: false,
            row_deletion_policy: None,
        };
        assert(b@.columns =~= Seq::empty());
        assert(b@.primary_keys =~= Seq::empty());
        b
    }
}

impl SpannerTableBuilder {
    /// Create a new table builder.
    pub fn new() -> (b: Self)
        ensures
            b@ == (TableModel {
                table_name: Seq::empty(),
                columns: Seq::empty(),
                primary_keys: Seq::empty(),
                interleave_in_parent: None,
                on_delete_cascade: false,
                row_deletion_policy: None,
            }),
    {
        Self::default()
    }

    /// Set the table name.
    pub fn table(self, name: &str) -> (b: Self)
        ensures
            b@ == (TableModel { table_name: name@, ..self@ }),
    {
        let mut b = self;
        b.table_name = owned(name);
        b
    }

    fn push_column(self, c: SpannerColumn) -> (b: Self)
        ensures
            b@ == (TableModel { columns: self@.columns.push(c@), ..self@ }),
    {
        let mut b = self;
        b.columns.push(c);
        assert(b@.columns =~= self@.columns.push(c@));
        b
    }

    /// Add a column of a SeaQuery column type, mapped to its Spanner type.
    pub fn col(self, name: &str, col_type: &ColumnKind, not_null: bool) -> (b: Self)
        ensures
            b@ == (TableModel {
                columns: self@.columns.push(
                    ColumnModel {
                        name: name@,
                        column_type: spanner_type_text(*col_type),
                        not_null,
                        default_expr: None,
                        generated_expr: None,
                        stored: false,
                    },
                ),
                ..self@
            }),
    {
        let t = spanner_type_name(col_type);
        self.col_raw(name, t.as_str(), not_null)
    }

    /// Add a column with a raw Spanner type string.
    pub fn col_raw(self, name: &str, spanner_type: &str, not_null: bool) -> (b: Self)
        ensures
            b@ == (TableModel {
                columns: self@.columns.push(
                    ColumnModel {
                        name: name@,
                        column_type: spanner_type@,
                        not_null,
                        default_expr: None,
                        generated_expr: None,
                        stored: false,
                    },
                ),
                ..self@
            }),
    {
        self.push_column(SpannerColumn::plain(name, spanner_type, not_null))
    }

    fn sized(self, name: &str, kind: &str, max_len: Option<u32>, not_null: bool) -> (b: Self)
        ensures
            b@ == (TableModel {
                columns: self@.columns.push(
                    ColumnModel {
                        name: name@,
                        column_type: sized_type(kind@, max_len),
                        not_null,
                        default_expr: None,
                        generated_expr: None,
                        stored: false,
                    },
                ),
                ..self@
            }),
    {
        let mut t = owned(kind);
        match max_len {
            Some(len) => {
                push_str(&mut t, "(");
                push_decimal(&mut t, len as u64);
                push_str(&mut t, ")");
            },
            None => {
                push_str(&mut t, "(MAX)");
            },
        }
        assert(t@ =~= sized_type(kind@, max_len));
        self.col_raw(name, t.as_str(), not_null)
    }

    /// Add a STRING column, `STRING(n)` for a maximum length `n`, else `STRING(MAX)`.
    pub fn string(self, name: &str, max_len: Option<u32>, not_null: bool) -> (b: Self)
        ensures
            b@ == (TableModel {
                columns: self@.columns.push(
                    ColumnModel {
                        name: name@,
                        column_type: sized_type("STRING"@, max_len),
                        not_null,
                        default_expr: None,
                        generated_expr: None,
                        stored: false,
                    },
                ),
                ..self@
            }),
    {
        self.sized(name, "STRING", max_len, not_null)
    }

    /// Add a BYTES column, `BYTES(n)` for a maximum length `n`, else `BYTES(MAX)`.
    pub fn bytes(self, name: &str, max_len: Option<u32>, not_null: bool) -> (b: Self)
        ensures
            b@ == (TableModel {
                columns: self@.columns.push(
                    ColumnModel {
                        name: name@,
                        column_type: sized_type("BYTES"@, max_len),
                        not_null,
                        default_expr: None,
                        generated_expr: None,
                        stored: false,
                    },
                ),
                ..self@
            }),
    {
        self.sized(name, "BYTES", max_len, not_null)
    }

    /// Add an INT64 column.
    pub fn int64(self, name: &str, not_null: bool) -> (b: Self)
        ensures
            b@ == (TableModel {
                columns: self@.columns.push(
                    ColumnModel {
                        name: name@,
                        column_type: "INT64"@,
                        not_null,
                        default_expr: None,
                        generated_expr: None,
                        stored: false,
                    },
                ),
                ..self@
            }),
    {
        self.col_raw(name, "INT64", not_null)
    }

    /// Add a FLOAT64 column.
    pub fn float64(self, name: &str, not_null: bool) -> (b: Self)
        ensures
            b@ == (TableModel {
                columns: self@.columns.push(
                    ColumnModel {
                        name: name@,
                        column_type: "FLOAT64"@,
                        not_null,
                        default_expr: None,
                        generated_expr: None,
                        stored: false,
                    },
                ),
                ..self@
            }),
    {
        self.col_raw(name, "FLOAT64", not_null)
    }

    /// Add a BOOL column.
    pub fn bool(self, name: &str, not_null: bool) -> (b: Self)
        ensures
            b@ == (TableModel {
                columns: self@.columns.push(
                    ColumnModel {
                        name: name@,
                        column_type: "BOOL"@,
                        not_null,
                        default_expr: None,
                        generated_expr: None,
                        stored: false,
                    },
                ),
                ..self@
            }),
    {
        self.col_raw(name, "BOOL", not_null)
    }

    /// Add a DATE column.
    pub fn date(self, name: &str, not_null: bool) -> (b: Self)
        ensures
            b@ == (TableModel {
                columns: self@.columns.push(
                    ColumnModel {
                        name: name@,
                        column_type: "DATE"@,
                        not_null,
                        default_expr: None,
                        generated_expr: None,
                        stored: false,
                    },
                ),
                ..self@
            }),
    {
        self.col_raw(name, "DATE", not_null)
    }

    /// Add a TIMESTAMP column.
    pub fn timestamp(self, name: &str, not_null: bool) -> (b: Self)
        ensures
            b@ == (TableModel {
                columns: self@.columns.push(
                    ColumnModel {
                        name: name@,
                        column_type: "TIMESTAMP"@,
                        not_null,
                        default_expr: None,
                        generated_expr: None,
                        stored: false,
                    },
                ),
                ..self@
            }),
    {
        self.col_raw(name, "TIMESTAMP", not_null)
    }

    /// Add a JSON column.
    pub fn json(self, name: &str, not_null: bool) -> (b: Self)
        ensures
            b@ == (TableModel {
                columns: self@.columns.push(
                    ColumnModel {
                        name: name@,
                        column_type: "JSON"@,
                        not_null,
                        default_expr: None,
                        generated_expr: None,
                        stored: false,
                    },
                ),
                ..self@
            }),
    {
        self.col_raw(name, "JSON", not_null)
    }

    /// Add a NUMERIC column.
    pub fn numeric(self, name: &str, not_null: bool) -> (b: Self)
        ensures
            b@ == (TableModel {
                columns: self@.columns.push(
                    ColumnModel {
                        name: name@,
                        column_type: "NUMERIC"@,
                        not_null,
                        default_expr: None,
                        generated_expr: None,
                        stored: false,
                    },
                ),
                ..self@
            }),
    {
        self.col_raw(name, "NUMERIC", not_null)
    }

    /// Add a column with a DEFAULT expression.
    pub fn col_with_default(
        self,
        name: &str,
        spanner_type: &str,
        not_null: bool,
        default_expr: &str,
    ) -> (b: Self)
        ensures
            b@ == (TableModel {
                columns: self@.columns.push(
                    ColumnModel {
                        name: name@,
                        column_type: spanner_type@,
                        not_null,
                        default_expr: Some(default_expr@),
                        generated_expr: None,
                        stored: false,
                    },
                ),
                ..self@
            }),
    {
        let c = SpannerColumn {
            name: owned(name),
            column_type: owned(spanner_type),
            not_null,
            default_expr: Some(owned(default_expr)),
            generated_expr: None,
            stored: false,
        };
        self.push_column(c)
    }

    /// Add a generated column; it is never NOT NULL.
    pub fn col_generated(self, name: &str, spanner_type: &str, expr: &str, stored: bool) -> (b: Self)
        ensures
            b@ == (TableModel {
                columns: self@.columns.push(
                    ColumnModel {
                        name: name@,
                        column_type: spanner_type@,
                        not_null: false,
                        default_expr: None,
                        generated_expr: Some(expr@),
                        stored,
                    },
                ),
                ..self@
            }),
    {
        let c = SpannerColumn {
            name: owned(name),
            column_type: owned(spanner_type),
            not_null: false,
            default_expr: None,
            generated_expr: Some(owned(expr)),
            stored,
        };
        self.push_column(c)
    }

    /// Set the primary key columns, replacing any set before.
    pub fn primary_key(self, columns: &[&str]) -> (b: Self)
        ensures
            b@ == (TableModel { primary_keys: str_texts(columns@), ..self@ }),
    {
        let mut b = self;
        b.primary_keys = owned_all(columns);
        b
    }

    /// Set the INTERLEAVE IN PARENT clause.
    pub fn interleave_in_parent(self, parent_table: &str) -> (b: Self)
        ensures
            b@ == (TableModel { interleave_in_parent: Some(parent_table@), ..self@ }),
    {
        let mut b = self;
        b.interleave_in_parent = Some(owned(parent_table));
        b
    }

    /// Set ON DELETE CASCADE for an interleaved table.
    pub fn on_delete_cascade(self) -> (b: Self)
        ensures
            b@ == (TableModel { on_delete_cascade: true, ..self@ }),
    {
        let mut b = self;
        b.on_delete_cascade = true;
        b
    }

    /// Set the row deletion policy (TTL) on a timestamp column.
    pub fn row_deletion_policy(self, column: &str, days: u32) -> (b: Self)
        ensures
            b@ == (TableModel { row_deletion_policy: Some(deletion_policy(column@, days)), ..self@ }),
    {
        let mut p = String::new();
        push_str(&mut p, "OLDER_THAN(");
        push_str(&mut p, column);
        push_str(&mut p, ", INTERVAL ");
        push_decimal(&mut p, days as u64);
        push_str(&mut p, " DAY)");
        assert(p@ =~= deletion_policy(column@, days));
        let mut b = self;
        b.row_deletion_policy = Some(p);
        b
    }

    /// Build the CREATE TABLE DDL statement.
    pub fn build(self) -> (ddl: String)
        ensures
            ddl@ == table_ddl(self@),
    {
        let ghost m = self@;
        let ghost defs = m.columns.map_values(|c: ColumnModel| column_ddl(c));
        let mut ddl = String::new();
        push_str(&mut ddl, "CREATE TABLE ");
        push_str(&mut ddl, self.table_name.as_str());
        push_str(&mut ddl, " (\n");
        let ghost head = ddl@;
        let mut i: usize = 0;
        while i < self.columns.len()
            invariant
                i <= self.columns.len(),
                m == self@,
                defs == m.columns.map_values(|c: ColumnModel| column_ddl(c)),
                ddl@ == head + join(defs.take(i as int), ",\n"@),
            decreases self.columns.len() - i,
        {
            proof {
                lemma_join_step(defs, ",\n"@, i as int);
            }
            if i > 0 {
                push_str(&mut ddl, ",\n");
            }
            self.columns[i].push_ddl(&mut ddl);
            assert(defs[i as int] == column_ddl(self.columns@[i as int]@));
            i = i + 1;
            assert(ddl@ =~= head + join(defs.take(i as int), ",\n"@));
        }
        assert(defs.take(self.columns.len() as int) =~= defs);
        push_str(&mut ddl, "\n) PRIMARY KEY (");
        let keys = join_strings(&self.primary_keys, ", ");
        push_str(&mut ddl, keys.as_str());
        push_str(&mut ddl, ")");
        let ghost before_interleave = ddl@;
        if let Some(parent) = &self.interleave_in_parent {
            push_str(&mut ddl, ",\n  INTERLEAVE IN PARENT ");
            push_str(&mut ddl, parent.as_str());
            if self.on_delete_cascade {
                push_str(&mut ddl, " ON DELETE CASCADE");
            }
        }
        let ghost before_policy = ddl@;
        if let Some(policy) = &self.row_deletion_policy {
            push_str(&mut ddl, ",\n  ROW DELETION POLICY (");
            push_str(&mut ddl, policy.as_str());
            push_str(&mut ddl, ")");
        }
        assert(ddl@ =~= table_ddl(self@));
        ddl
    }
}


/// Abstract content of a CREATE INDEX builder.
pub struct IndexModel {
    pub index_name: Seq<char>,
    pub table_name: Seq<char>,
    /// Each column with its order: `Some(true)` descending, `Some(false)` ascending,
    /// `None` unspecified.
    pub columns: Seq<(Seq<char>, Option<bool>)>,
    pub unique: bool,
    pub null_filtered: bool,
    pub storing: Seq<Seq<char>>,
    pub interleave_in: Option<Seq<char>>,
}

/// An index column with its optional order.
pub open spec fn index_column_ddl(c: (Seq<char>, Option<bool>)) -> Seq<char> {
    c.0 + match c.1 {
        Some(true) => " DESC"@,
        Some(false) => " ASC"@,
        None => Seq::empty(),
    }
}

/// The CREATE INDEX statement that a builder with content `m` produces.
pub open spec fn index_ddl(m: IndexModel) -> Seq<char> {
    "CREATE "@ + (if m.unique { "UNIQUE "@ } else { Seq::empty() })
        + (if m.null_filtered { "NULL_FILTERED "@ } else { Seq::empty() })
        + "INDEX "@ + m.index_name + " ON "@ + m.table_name + " ("@
        + join(m.columns.map_values(|c: (Seq<char>, Option<bool>)| index_column_ddl(c)), ", "@)
        + ")"@
        + (if m.storing.len() > 0 {
            " STORING ("@ + join(m.storing, ", "@) + ")"@
        } else {
            Seq::empty()
        })
        + (match m.interleave_in {
            Some(t) => ", INTERLEAVE IN "@ + t,
            None => Seq::empty(),
        })
}

/// The empty index builder content.
pub open spec fn empty_index() -> IndexModel {
    IndexModel {
        index_name: Seq::empty(),
        table_name: Seq::empty(),
        columns: Seq::empty(),
        unique: false,
        null_filtered: false,
        storing: Seq::empty(),
        interleave_in: None,
    }
}

/// Builder for CREATE INDEX statements in Spanner DDL format.
#[derive(Debug, Clone)]
pub struct SpannerIndexBuilder {
    index_name: String,
    table_name: String,
    columns: Vec<(String, Option<bool>)>,
    unique: bool,
    null_filtered: bool,
    storing: Vec<String>,
    interleave_in: Option<String>,
}

impl View for SpannerIndexBuilder {
    type V = IndexModel;

    closed spec fn view(&self) -> IndexModel {
        IndexModel {
            index_name: self.index_name@,
            table_name: self.table_name@,
            columns: self.columns@.map_values(|c: (String, Option<bool>)| (c.0@, c.1)),
            unique: self.unique,
            null_filtered: self.null_filtered,
            storing: texts(self.storing@),
            interleave_in: opt_text(self.interleave_in),
        }
    }
}

impl Default for SpannerIndexBuilder {
    fn default() -> (b: Self)
        ensures
            b@ == empty_index(),
    {
        let b = SpannerIndexBuilder {
            index_name: String::new(),
            table_name: String::new(),
            columns: Vec::new(),
            unique: false,
            null_filtered: false,
            storing: Vec::new(),
            interleave_in: None,
        };
        assert(b@.columns =~= Seq::empty());
        assert(b@.storing =~= Seq::empty());
        b
    }
}

fn push_index_column(ddl: &mut String, c: &(String, Option<bool>))
    ensures
        final(ddl)@ == old(ddl)@ + index_column_ddl((c.0@, c.1)),
{
    push_str(ddl, c.0.as_str());
    match c.1 {
        Some(true) => push_str(ddl, " DESC"),
        Some(false) => push_str(ddl, " ASC"),
        None => {},
    }
    assert(ddl@ =~= old(ddl)@ + index_column_ddl((c.0@, c.1)));
}

impl SpannerIndexBuilder {
    /// Create a new index builder.
    pub fn new() -> (b: Self)
        ensures
            b@ == empty_index(),
    {
        Self::default()
    }

    /// Set the index name.
    pub fn name(self, name: &str) -> (b: Self)
        ensures
            b@ == (IndexModel { index_name: name@, ..self@ }),
    {
        let mut b = self;
        b.index_name = owned(name);
        b
    }

    /// Set the table name.
    pub fn table(self, name: &str) -> (b: Self)
        ensures
            b@ == (IndexModel { table_name: name@, ..self@ }),
    {
        let mut b = self;
        b.table_name = owned(name);
        b
    }

    fn push_column(self, name: &str, order: Option<bool>) -> (b: Self)
        ensures
            b@ == (IndexModel { columns: self@.columns.push((name@, order)), ..self@ }),
    {
        let mut b = self;
        b.columns.push((owned(name), order));
        assert(b@.columns =~= self@.columns.push((name@, order)));
        b
    }

    /// Add a column to the index, with no order.
    pub fn col(self, name: &str) -> (b: Self)
        ensures
            b@ == (IndexModel { columns: self@.columns.push((name@, None)), ..self@ }),
    {
        self.push_column(name, None)
    }

    /// Add a column with ASC order.
    pub fn col_asc(self, name: &str) -> (b: Self)
        ensures
            b@ == (IndexModel { columns: self@.columns.push((name@, Some(false))), ..self@ }),
    {
        self.push_column(name, Some(false))
    }

    /// Add a column with DESC order.
    pub fn col_desc(self, name: &str) -> (b: Self)
        ensures
            b@ == (IndexModel { columns: self@.columns.push((name@, Some(true))), ..self@ }),
    {
        self.push_column(name, Some(true))
    }

    /// Make this a unique index.
    pub fn unique(self) -> (b: Self)
        ensures
            b@ == (IndexModel { unique: true, ..self@ }),
    {
        let mut b = self;
        b.unique = true;
        b
    }

    /// Make this a null-filtered index.
    pub fn null_filtered(self) -> (b: Self)
        ensures
            b@ == (IndexModel { null_filtered: true, ..self@ }),
    {
        let mut b = self;
        b.null_filtered = true;
        b
    }

    /// Set the STORING columns, replacing any set before.
    pub fn storing(self, columns: &[&str]) -> (b: Self)
        ensures
            b@ == (IndexModel { storing: str_texts(columns@), ..self@ }),
    {
        let mut b = self;
        b.storing = owned_all(columns);
        b
    }

    /// Set the INTERLEAVE IN clause.
    pub fn interleave_in(self, table: &str) -> (b: Self)
        ensures
            b@ == (IndexModel { interleave_in: Some(table@), ..self@ }),
    {
        let mut b = self;
        b.interleave_in = Some(owned(table));
        b
    }

    /// Build the CREATE INDEX DDL statement.
    pub fn build(self) -> (ddl: String)
        ensures
            ddl@ == index_ddl(self@),
    {
        let ghost m = self@;
        let ghost cols = m.columns.map_values(|c: (Seq<char>, Option<bool>)| index_column_ddl(c));
        let mut ddl = String::new();
        push_str(&mut ddl, "CREATE ");
        if self.unique {
            push_str(&mut ddl, "UNIQUE ");
        }
        if self.null_filtered {
            push_str(&mut ddl, "NULL_FILTERED ");
        }
        push_str(&mut ddl, "INDEX ");
        push_str(&mut ddl, self.index_name.as_str());
        push_str(&mut ddl, " ON ");
        push_str(&mut ddl, self.table_name.as_str());
        push_str(&mut ddl, " (");
        let ghost head = ddl@;
        assert(head =~= "CREATE "@ + (if m.unique { "UNIQUE "@ } else { Seq::empty() })
            + (if m.null_filtered { "NULL_FILTERED "@ } else { Seq::empty() })
            + "INDEX "@ + m.index_name + " ON "@ + m.table_name + " ("@);
        let mut i: usize = 0;
        while i < self.columns.len()
            invariant
                i <= self.columns.len(),
                m == self@,
                cols == m.columns.map_values(|c: (Seq<char>, Option<bool>)| index_column_ddl(c)),
                ddl@ == head + join(cols.take(i as int), ", "@),
            decreases self.columns.len() - i,
        {
            proof {
                lemma_join_step(cols, ", "@, i as int);
            }
            if i > 0 {
                push_str(&mut ddl, ", ");
            }
            push_index_column(&mut ddl, &self.columns[i]);
            i = i + 1;
            assert(ddl@ =~= head + join(cols.take(i as int), ", "@));
        }
        assert(cols.take(self.columns.len() as int) =~= cols);
        push_str(&mut ddl, ")");
        let ghost before_storing = ddl@;
        if self.storing.len() > 0 {
            push_str(&mut ddl, " STORING (");
            let s = join_strings(&self.storing, ", ");
            push_str(&mut ddl, s.as_str());
            push_str(&mut ddl, ")");
        }
        assert(ddl@ =~= before_storing + (if m.storing.len() > 0 {
            " STORING ("@ + join(m.storing, ", "@) + ")"@
        } else {
            Seq::empty()
        }));
        let ghost before_interleave = ddl@;
        if let Some(t) = &self.interleave_in {
            push_str(&mut ddl, ", INTERLEAVE IN ");
            push_str(&mut ddl, t.as_str());
        }
        assert(ddl@ =~= index_ddl(self@));
        ddl
    }
}

/// Builder for ALTER TABLE statements in Spanner DDL format.
#[derive(Debug, Clone)]
#[allow(inconsistent_fields)]
pub enum SpannerAlterTable {
    AddColumn { table: String, column: SpannerColumn },
    DropColumn { table: String, column: String },
    AlterColumn {
        table: String,
        column: String,
        new_type: Option<String>,
        set_not_null: Option<bool>,
        set_default: Option<String>,
        drop_default: bool,
    },
    AddForeignKey {
        table: String,
        constraint_name: String,
        columns: Vec<String>,
        ref_table: String,
        ref_columns: Vec<String>,
        on_delete: Option<String>,
    },
    DropConstraint { table: String, constraint_name: String },
}

/// The ALTER TABLE statement that `a` produces.
pub open spec fn alter_ddl(a: SpannerAlterTable) -> Seq<char> {
    match a {
        SpannerAlterTable::AddColumn { table, column } => "ALTER TABLE "@ + table@
            + " ADD COLUMN "@ + column@.name + " "@ + column@.column_type
            + not_null_ddl(column@.not_null) + default_ddl(column@.default_expr),
        SpannerAlterTable::DropColumn { table, column } => "ALTER TABLE "@ + table@
            + " DROP COLUMN "@ + column@,
        SpannerAlterTable::AlterColumn {
            table,
            column,
            new_type,
            set_not_null,
            set_default,
            drop_default,
        } => "ALTER TABLE "@ + table@ + " ALTER COLUMN "@ + column@
            + (match new_type {
            Some(t) => " "@ + t@,
            None => Seq::empty(),
        }) + not_null_ddl(set_not_null == Some(true)) + default_ddl(opt_text(set_default))
            + (if drop_default { " DROP DEFAULT"@ } else { Seq::empty() }),
        SpannerAlterTable::AddForeignKey {
            table,
            constraint_name,
            columns,
            ref_table,
            ref_columns,
            on_delete,
        } => "ALTER TABLE "@ + table@ + " ADD CONSTRAINT "@ + constraint_name@ + " FOREIGN KEY ("@
            + join(texts(columns@), ", "@) + ") REFERENCES "@ + ref_table@ + " ("@ + join(
            texts(ref_columns@),
            ", "@,
        ) + ")"@ + (match on_delete {
            Some(action) => " ON DELETE "@ + action@,
            None => Seq::empty(),
        }),
        SpannerAlterTable::DropConstraint { table, constraint_name } => "ALTER TABLE "@ + table@
            + " DROP CONSTRAINT "@ + constraint_name@,
    }
}

impl SpannerAlterTable {
    /// An ADD COLUMN statement for a plain column.
    pub fn add_column(table: &str, name: &str, spanner_type: &str, not_null: bool) -> (a: Self)
        ensures
            a matches SpannerAlterTable::AddColumn { table: t, column: c } && t@ == table@
                && c@ == (ColumnModel {
                name: name@,
                column_type: spanner_type@,
                not_null,
                default_expr: None,
                generated_expr: None,
                stored: false,
            }),
    {
        SpannerAlterTable::AddColumn {
            table: owned(table),
            column: SpannerColumn::plain(name, spanner_type, not_null),
        }
    }

    /// A DROP COLUMN statement.
    pub fn drop_column(table: &str, column: &str) -> (a: Self)
        ensures
            a matches SpannerAlterTable::DropColumn { table: t, column: c } && t@ == table@ && c@
                == column@,
    {
        SpannerAlterTable::DropColumn { table: owned(table), column: owned(column) }
    }

    /// Build the ALTER TABLE DDL statement.
    pub fn build(self) -> (ddl: String)
        ensures
            ddl@ == alter_ddl(self),
    {
        let ghost a = self;
        let mut ddl = String::new();
        push_str(&mut ddl, "ALTER TABLE ");
        match self {
            SpannerAlterTable::AddColumn { table, column } => {
                push_str(&mut ddl, table.as_str());
                push_str(&mut ddl, " ADD COLUMN ");
                push_str(&mut ddl, column.name.as_str());
                push_str(&mut ddl, " ");
                push_str(&mut ddl, column.column_type.as_str());
                let ghost head = ddl@;
                push_not_null(&mut ddl, column.not_null);
                let ghost after_null = ddl@;
                push_default(&mut ddl, &column.default_expr);
                assert(ddl@ =~= alter_ddl(a));
            },
            SpannerAlterTable::DropColumn { table, column } => {
                push_str(&mut ddl, table.as_str());
                push_str(&mut ddl, " DROP COLUMN ");
                push_str(&mut ddl, column.as_str());
                assert(ddl@ =~= alter_ddl(a));
            },
            SpannerAlterTable::AlterColumn {
                table,
                column,
                new_type,
                set_not_null,
                set_default,
                drop_default,
            } => {
                push_str(&mut ddl, table.as_str());
                push_str(&mut ddl, " ALTER COLUMN ");
                push_str(&mut ddl, column.as_str());
                let ghost head = ddl@;
                if let Some(t) = &new_type {
                    push_str(&mut ddl, " ");
                    push_str(&mut ddl, t.as_str());
                }
                let ghost after_type = ddl@;
                assert(after_type =~= head + match new_type {
                    Some(t) => " "@ + t@,
                    None => Seq::empty(),
                });
                let nn = match set_not_null {
                    Some(b) => b,
                    None => false,
                };
                push_not_null(&mut ddl, nn);
                let ghost after_null = ddl@;
                push_default(&mut ddl, &set_default);
                let ghost after_default = ddl@;
                if drop_default {
                    push_str(&mut ddl, " DROP DEFAULT");
                }
                assert(ddl@ =~= after_default + (if drop_default {
                    " DROP DEFAULT"@
                } else {
                    Seq::empty()
                }));
                assert(ddl@ =~= alter_ddl(a));
            },
            SpannerAlterTable::AddForeignKey {
                table,
                constraint_name,
                columns,
                ref_table,
                ref_columns,
                on_delete,
            } => {
                push_str(&mut ddl, table.as_str());
                push_str(&mut ddl, " ADD CONSTRAINT ");
                push_str(&mut ddl, constraint_name.as_str());
                push_str(&mut ddl, " FOREIGN KEY (");
                let cols = join_strings(&columns, ", ");
                push_str(&mut ddl, cols.as_str());
                push_str(&mut ddl, ") REFERENCES ");
                push_str(&mut ddl, ref_table.as_str());
                push_str(&mut ddl, " (");
                let refs = join_strings(&ref_columns, ", ");
                push_str(&mut ddl, refs.as_str());
                push_str(&mut ddl, ")");
                let ghost head = ddl@;
                if let Some(action) = &on_delete {
                    push_str(&mut ddl, " ON DELETE ");
                    push_str(&mut ddl, action.as_str());
                }
                assert(ddl@ =~= alter_ddl(a));
            },
            SpannerAlterTable::DropConstraint { table, constraint_name } => {
                push_str(&mut ddl, table.as_str());
                push_str(&mut ddl, " DROP CONSTRAINT ");
                push_str(&mut ddl, constraint_name.as_str());
                assert(ddl@ =~= alter_ddl(a));
            },
        }
        ddl
    }
}

/// Copies a list of string slices into owned strings.
pub(crate) fn owned_all(items: &[&str]) -> (r: Vec<String>)
    ensures
        texts(r@) == str_texts(items@),
{
    let mut r: Vec<String> = Vec::new();
    let mut i: usize = 0;
    while i < items.len()
        invariant
            i <= items.len(),
            texts(r@) =~= str_texts(items@).take(i as int),
        decreases items.len() - i,
    {
        let ghost prev = r@;
        r.push(owned(items[i]));
        assert(texts(r@) =~= texts(prev).push(items@[i as int]@));
        assert(str_texts(items@).take(i + 1) =~= str_texts(items@).take(i as int).push(
            items@[i as int]@,
        ));
        i = i + 1;
    }
    assert(str_texts(items@).take(items.len() as int) =~= str_texts(items@));
    r
}

/// `ON DELETE CASCADE` follows the parent table exactly when it was asked for: for an
/// interleaved table, the DDL with cascading is the DDL without it with
/// ` ON DELETE CASCADE` inserted right after `INTERLEAVE IN PARENT <parent>`, and the DDL
/// without it has nothing between the parent's name and the row deletion policy (or the
/// end). For a table that is not interleaved, the flag changes nothing.
pub proof fn lemma_on_delete_cascade_only_when_asked(t: TableModel)
    ensures
        ({
            let without = TableModel { on_delete_cascade: false, ..t };
            let with = TableModel { on_delete_cascade: true, ..t };
            match t.interleave_in_parent {
                Some(p) => exists|a: Seq<char>, z: Seq<char>|
                    #![trigger a + z]
                    table_ddl(without) == a + z && table_ddl(with) == a + " ON DELETE CASCADE"@ + z
                        && a.len() >= p.len() + 25 && a.skip(a.len() - p.len() - 25) == ",\n  INTERLEAVE IN PARENT "@ + p
                        && z == (match t.row_deletion_policy {
                        Some(d) => ",\n  ROW DELETION POLICY ("@ + d + ")"@,
                        None => Seq::<char>::empty(),
                    }),
                None => table_ddl(without) == table_ddl(with),
            }
        }),
{
    let without = TableModel { on_delete_cascade: false, ..t };
    let with = TableModel { on_delete_cascade: true, ..t };
    reveal_strlit(",\n  INTERLEAVE IN PARENT ");
    let head = "CREATE TABLE "@ + t.table_name + " (\n"@
        + join(t.columns.map_values(|c: ColumnModel| column_ddl(c)), ",\n"@)
        + "\n) PRIMARY KEY ("@ + join(t.primary_keys, ", "@) + ")"@;
    let z = match t.row_deletion_policy {
        Some(d) => ",\n  ROW DELETION POLICY ("@ + d + ")"@,
        None => Seq::<char>::empty(),
    };
    match t.interleave_in_parent {
        Some(p) => {
            let tail = ",\n  INTERLEAVE IN PARENT "@ + p;
            let a = head + tail;
            assert(table_ddl(without) =~= a + z);
            assert(table_ddl(with) =~= a + " ON DELETE CASCADE"@ + z);
            assert(a.skip(a.len() - p.len() - 25) =~= tail);
        },
        None => {
            assert(table_ddl(without) =~= table_ddl(with));
        },
    }
}

} // verus!
