//! Errors of the Spanner backend, and how they map to SeaORM's database errors.

use vstd::prelude::*;
use crate::text::{owned, push_str};

verus! {

/// Error kinds of the Spanner backend.
#[derive(Debug)]
pub enum SpannerDbErr {
    Connection(String),
    Query(String),
    Execution(String),
    Transaction(String),
    RowParse(String),
    TypeConversion { column: String, expected: String, got: String },
    ColumnNotFound(String),
    InvalidConfig(String),
}

/// A SeaORM database error, by its kind and message.
///
/// `Conn`, `Query` and `Exec` stand for SeaORM's errors of those kinds that carry an
/// internal runtime error message.
#[derive(Debug)]
pub enum DbError {
    Conn(String),
    Query(String),
    Exec(String),
    Type(String),
    Custom(String),
    Migration(String),
}

/// The message of a type conversion error.
pub open spec fn conversion_text(column: Seq<char>, expected: Seq<char>, got: Seq<char>) -> Seq<
    char,
> {
    "column="@ + column + ", expected="@ + expected + ", got="@ + got
}

/// The kind of SeaORM error that a Spanner backend error becomes (see `db_error_kind`).
pub open spec fn db_kind_of(e: SpannerDbErr) -> int {
    match e {
        SpannerDbErr::Connection(_) | SpannerDbErr::InvalidConfig(_) => 0,
        SpannerDbErr::Query(_) | SpannerDbErr::Transaction(_) => 1,
        SpannerDbErr::Execution(_) => 2,
        _ => 3,
    }
}

/// The text of the SeaORM error that a Spanner backend error becomes.
pub open spec fn db_error_text(e: SpannerDbErr) -> Seq<char> {
    match e {
        SpannerDbErr::Connection(m) => m@,
        SpannerDbErr::Query(m) => m@,
        SpannerDbErr::Execution(m) => m@,
        SpannerDbErr::Transaction(m) => m@,
        SpannerDbErr::RowParse(m) => m@,
        SpannerDbErr::TypeConversion { column, expected, got } => conversion_text(
            column@,
            expected@,
            got@,
        ),
        SpannerDbErr::ColumnNotFound(c) => "column not found: "@ + c@,
        SpannerDbErr::InvalidConfig(m) => m@,
    }
}

/// The kind of SeaORM error: 0 connection, 1 query, 2 execution, 3 type, 4 custom,
/// 5 migration.
pub open spec fn db_error_kind(e: DbError) -> int {
    match e {
        DbError::Conn(_) => 0,
        DbError::Query(_) => 1,
        DbError::Exec(_) => 2,
        DbError::Type(_) => 3,
        DbError::Custom(_) => 4,
        DbError::Migration(_) => 5,
    }
}

/// The message a SeaORM error carries.
pub open spec fn db_error_message(e: DbError) -> Seq<char> {
    match e {
        DbError::Conn(m) => m@,
        DbError::Query(m) => m@,
        DbError::Exec(m) => m@,
        DbError::Type(m) => m@,
        DbError::Custom(m) => m@,
        DbError::Migration(m) => m@,
    }
}

impl SpannerDbErr {
    /// The SeaORM error this becomes: connection and configuration errors are connection
    /// errors, query and transaction errors query errors, execution errors execution errors,
    /// and row, conversion and missing-column errors type errors.
    pub fn into_db_error(self) -> (r: DbError)
        ensures
            db_error_kind(r) == db_kind_of(self),
            db_error_message(r) == db_error_text(self),
    {
        match self {
            SpannerDbErr::Connection(m) => DbError::Conn(m),
            SpannerDbErr::Query(m) => DbError::Query(m),
            SpannerDbErr::Execution(m) => DbError::Exec(m),
            SpannerDbErr::Transaction(m) => DbError::Query(m),
            SpannerDbErr::RowParse(m) => DbError::Type(m),
            SpannerDbErr::TypeConversion { column, expected, got } => {
                let mut m = String::new();
                push_str(&mut m, "column=");
                push_str(&mut m, column.as_str());
                push_str(&mut m, ", expected=");
                push_str(&mut m, expected.as_str());
                push_str(&mut m, ", got=");
                push_str(&mut m, got.as_str());
                assert(m@ =~= conversion_text(column@, expected@, got@));
                DbError::Type(m)
            },
            SpannerDbErr::ColumnNotFound(c) => {
                let mut m = owned("column not found: ");
                push_str(&mut m, c.as_str());
                DbError::Type(m)
            },
            SpannerDbErr::InvalidConfig(m) => DbError::Conn(m),
        }
    }

    /// The error's display text.
    pub fn message(&self) -> (r: String)
        ensures
            r@ == display_text(*self),
    {
        let mut m = String::new();
        match self {
            SpannerDbErr::Connection(x) => {
                push_str(&mut m, "Spanner connection error: ");
                push_str(&mut m, x.as_str());
            },
            SpannerDbErr::Query(x) => {
                push_str(&mut m, "Spanner query error: ");
                push_str(&mut m, x.as_str());
            },
            SpannerDbErr::Execution(x) => {
                push_str(&mut m, "Spanner execution error: ");
                push_str(&mut m, x.as_str());
            },
            SpannerDbErr::Transaction(x) => {
                push_str(&mut m, "Transaction error: ");
                push_str(&mut m, x.as_str());
            },
            SpannerDbErr::RowParse(x) => {
                push_str(&mut m, "Row parse error: ");
                push_str(&mut m, x.as_str());
            },
            SpannerDbErr::TypeConversion { column, expected, got } => {
                push_str(&mut m, "Type conversion error: ");
                push_str(&mut m, "column=");
                push_str(&mut m, column.as_str());
                push_str(&mut m, ", expected=");
                push_str(&mut m, expected.as_str());
                push_str(&mut m, ", got=");
                push_str(&mut m, got.as_str());
            },
            SpannerDbErr::ColumnNotFound(x) => {
                push_str(&mut m, "Column not found: ");
                push_str(&mut m, x.as_str());
            },
            SpannerDbErr::InvalidConfig(x) => {
                push_str(&mut m, "Invalid configuration: ");
                push_str(&mut m, x.as_str());
            },
        }
        assert(m@ =~= display_text(*self));
        m
    }
}

/// The display text of a SeaORM error of these kinds.
pub open spec fn db_error_display(e: DbError) -> Seq<char> {
    match e {
        DbError::Conn(m) => "Connection Error: "@ + m@,
        DbError::Query(m) => "Query Error: "@ + m@,
        DbError::Exec(m) => "Execution Error: "@ + m@,
        DbError::Type(m) => "Type Error: "@ + m@,
        DbError::Custom(m) => "Custom Error: "@ + m@,
        DbError::Migration(m) => "Migration Error: "@ + m@,
    }
}

impl DbError {
    /// The error's display text, as SeaORM writes it.
    pub fn display(&self) -> (r: String)
        ensures
            r@ == db_error_display(*self),
    {
        let (prefix, m) = match self {
            DbError::Conn(m) => ("Connection Error: ", m),
            DbError::Query(m) => ("Query Error: ", m),
            DbError::Exec(m) => ("Execution Error: ", m),
            DbError::Type(m) => ("Type Error: ", m),
            DbError::Custom(m) => ("Custom Error: ", m),
            DbError::Migration(m) => ("Migration Error: ", m),
        };
        let mut r = owned(prefix);
        push_str(&mut r, m.as_str());
        r
    }
}

/// The display text of a Spanner backend error.
pub open spec fn display_text(e: SpannerDbErr) -> Seq<char> {
    match e {
        SpannerDbErr::Connection(x) => "Spanner connection error: "@ + x@,
        SpannerDbErr::Query(x) => "Spanner query error: "@ + x@,
        SpannerDbErr::Execution(x) => "Spanner execution error: "@ + x@,
        SpannerDbErr::Transaction(x) => "Transaction error: "@ + x@,
        SpannerDbErr::RowParse(x) => "Row parse error: "@ + x@,
        SpannerDbErr::TypeConversion { column, expected, got } => "Type conversion error: "@
            + conversion_text(column@, expected@, got@),
        SpannerDbErr::ColumnNotFound(x) => "Column not found: "@ + x@,
        SpannerDbErr::InvalidConfig(x) => "Invalid configuration: "@ + x@,
    }
}

} // verus!
