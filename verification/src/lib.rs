//! Google Cloud Spanner support for SeaORM: DDL builders, SQL rewriting,
//! literal rendering and value binding plans, verified with Verus.

pub mod text;
pub mod schema;
pub mod types;
pub mod value;
pub mod literal;
pub mod rewrite;
pub mod error;
pub mod database;
pub mod bind;
pub mod ddl;
pub mod migration;
pub mod array;
pub mod query_builder;
pub mod read;
pub mod statement;
pub mod roundtrip;
pub mod columns;
