use sea_orm_spanner::schema::{SpannerAlterTable, SpannerIndexBuilder, SpannerTableBuilder};
use sea_orm_spanner::types::{spanner_column_def, spanner_type_name, ColumnKind};

#[test]
fn test_create_table_basic() {
    let ddl = SpannerTableBuilder::new()
        .table("users")
        .string("id", Some(36), true)
        .string("name", None, true)
        .string("email", None, false)
        .timestamp("created_at", true)
        .primary_key(&["id"])
        .build();

    assert_eq!(
        ddl,
        "CREATE TABLE users (\n  id STRING(36) NOT NULL,\n  name STRING(MAX) NOT NULL,\n  email STRING(MAX),\n  created_at TIMESTAMP NOT NULL\n) PRIMARY KEY (id)"
    );
}

#[test]
fn test_create_table_interleaved() {
    let ddl = SpannerTableBuilder::new()
        .table("posts")
        .string("user_id", Some(36), true)
        .string("post_id", Some(36), true)
        .string("content", None, true)
        .primary_key(&["user_id", "post_id"])
        .interleave_in_parent("users")
        .on_delete_cascade()
        .build();

    assert!(ddl.contains("INTERLEAVE IN PARENT users ON DELETE CASCADE"));
}

#[test]
fn test_create_index() {
    let ddl = SpannerIndexBuilder::new()
        .name("idx_users_email")
        .table("users")
        .col("email")
        .unique()
        .build();

    assert_eq!(ddl, "CREATE UNIQUE INDEX idx_users_email ON users (email)");
}

#[test]
fn test_create_index_with_storing() {
    let ddl = SpannerIndexBuilder::new()
        .name("idx_users_name")
        .table("users")
        .col("name")
        .storing(&["email", "created_at"])
        .build();

    assert_eq!(
        ddl,
        "CREATE INDEX idx_users_name ON users (name) STORING (email, created_at)"
    );
}

#[test]
fn test_alter_table_add_column() {
    let ddl = SpannerAlterTable::add_column("users", "age", "INT64", false).build();
    assert_eq!(ddl, "ALTER TABLE users ADD COLUMN age INT64");
}

#[test]
fn test_alter_table_drop_column() {
    let ddl = SpannerAlterTable::drop_column("users", "age").build();
    assert_eq!(ddl, "ALTER TABLE users DROP COLUMN age");
}

#[test]
fn table_with_every_column_kind() {
    let ddl = SpannerTableBuilder::new()
        .table("t")
        .int64("a", true)
        .float64("b", false)
        .bool("c", true)
        .bytes("d", None, false)
        .bytes("e", Some(16), true)
        .date("f", false)
        .json("g", false)
        .numeric("h", true)
        .col_raw("i", "ARRAY<INT64>", false)
        .primary_key(&["a"])
        .build();
    assert_eq!(
        ddl,
        "CREATE TABLE t (\n  a INT64 NOT NULL,\n  b FLOAT64,\n  c BOOL NOT NULL,\n  d BYTES(MAX),\n  e BYTES(16) NOT NULL,\n  f DATE,\n  g JSON,\n  h NUMERIC NOT NULL,\n  i ARRAY<INT64>\n) PRIMARY KEY (a)"
    );
}

#[test]
fn table_with_default_generated_and_ttl() {
    let ddl = SpannerTableBuilder::new()
        .table("events")
        .string("id", Some(36), true)
        .col_with_default("created", "TIMESTAMP", true, "CURRENT_TIMESTAMP()")
        .col_generated("day", "DATE", "DATE(created)", true)
        .col_generated("v", "INT64", "1", false)
        .primary_key(&["id"])
        .row_deletion_policy("created", 30)
        .build();
    assert_eq!(
        ddl,
        "CREATE TABLE events (\n  id STRING(36) NOT NULL,\n  created TIMESTAMP NOT NULL DEFAULT (CURRENT_TIMESTAMP()),\n  day DATE AS (DATE(created)) STORED,\n  v INT64 AS (1)\n) PRIMARY KEY (id),\n  ROW DELETION POLICY (OLDER_THAN(created, INTERVAL 30 DAY))"
    );
}

#[test]
fn table_with_sea_query_column_kinds() {
    let ddl = SpannerTableBuilder::new()
        .table("k")
        .col("u", &ColumnKind::Uuid, true)
        .col("n", &ColumnKind::BigUnsigned, false)
        .primary_key(&["u"])
        .build();
    assert_eq!(ddl, "CREATE TABLE k (\n  u STRING(36) NOT NULL,\n  n INT64\n) PRIMARY KEY (u)");
}

#[test]
fn index_with_order_filter_and_interleave() {
    let ddl = SpannerIndexBuilder::new()
        .name("idx")
        .table("posts")
        .col_asc("a")
        .col_desc("b")
        .null_filtered()
        .interleave_in("users")
        .build();
    assert_eq!(
        ddl,
        "CREATE NULL_FILTERED INDEX idx ON posts (a ASC, b DESC), INTERLEAVE IN users"
    );
}

#[test]
fn alter_table_add_not_null_column() {
    let ddl = SpannerAlterTable::add_column("users", "age", "INT64", true).build();
    assert_eq!(ddl, "ALTER TABLE users ADD COLUMN age INT64 NOT NULL");
}

#[test]
fn type_names_and_column_definitions() {
    assert_eq!(spanner_type_name(&ColumnKind::Integer), "INT64");
    assert_eq!(spanner_type_name(&ColumnKind::Text), "STRING(MAX)");
    assert_eq!(spanner_type_name(&ColumnKind::Boolean), "BOOL");
    assert_eq!(spanner_type_name(&ColumnKind::Json), "JSON");
    assert_eq!(spanner_type_name(&ColumnKind::Uuid), "STRING(36)");
    assert_eq!(spanner_column_def(&ColumnKind::Double, false), "FLOAT64 NOT NULL");
    assert_eq!(spanner_column_def(&ColumnKind::Date, true), "DATE");
}
