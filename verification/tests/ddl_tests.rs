use sea_orm_spanner::ddl::mysql_ddl_to_spanner;

#[test]
fn test_create_unique_index_preserved() {
    let input = "CREATE UNIQUE INDEX `idx_accounts_user_id` ON `accounts` (`user_id`)";
    let result = mysql_ddl_to_spanner(input);
    assert!(
        result.contains("UNIQUE"),
        "UNIQUE must be preserved in CREATE UNIQUE INDEX, got: {}",
        result
    );
    assert_eq!(
        result,
        "CREATE UNIQUE INDEX `idx_accounts_user_id` ON `accounts` (`user_id`)"
    );
}

#[test]
fn test_create_non_unique_index_unchanged() {
    let input = "CREATE INDEX `idx_accounts_email` ON `accounts` (`email`)";
    let result = mysql_ddl_to_spanner(input);
    assert_eq!(
        result,
        "CREATE INDEX `idx_accounts_email` ON `accounts` (`email`)"
    );
}

#[test]
fn test_table_inline_unique_key_stripped() {
    let input =
        "CREATE TABLE `accounts` ( `id` int NOT NULL PRIMARY KEY, `email` varchar(255) NOT NULL UNIQUE KEY)";
    let result = mysql_ddl_to_spanner(input);
    assert!(
        !result.contains("UNIQUE"),
        "inline UNIQUE KEY must be stripped from table DDL, got: {}",
        result
    );
}

#[test]
fn test_table_inline_unique_stripped() {
    let input =
        "CREATE TABLE `accounts` ( `id` int NOT NULL PRIMARY KEY, `email` varchar(255) NOT NULL UNIQUE)";
    let result = mysql_ddl_to_spanner(input);
    assert!(
        !result.contains("UNIQUE"),
        "inline UNIQUE must be stripped from table DDL, got: {}",
        result
    );
}

#[test]
fn inline_primary_key_becomes_trailing_clause() {
    let input = "CREATE TABLE `accounts` ( `id` int NOT NULL PRIMARY KEY, `email` varchar(255) NOT NULL)";
    let result = mysql_ddl_to_spanner(input);
    assert_eq!(
        result,
        "CREATE TABLE `accounts` ( `id` INT64 NOT NULL, `email` STRING(255) NOT NULL) PRIMARY KEY (`id`)"
    );
}

#[test]
fn mysql_clauses_and_types_are_rewritten() {
    let input = "CREATE TABLE IF NOT EXISTS `t` ( `a` bigint NOT NULL AUTO_INCREMENT, `b` text, `c` bool DEFAULT FALSE, `d` double, `e` decimal(10, 2), `f` datetime, `g` blob, `h` binary(16), PRIMARY KEY (`a`)) ENGINE=InnoDB DEFAULT CHARSET=utf8mb4";
    let result = mysql_ddl_to_spanner(input);
    assert_eq!(
        result,
        "CREATE TABLE `t` ( `a` INT64 NOT NULL, `b` STRING(MAX), `c` BOOL, `d` FLOAT64, `e` NUMERIC, `f` TIMESTAMP , `g` BYTES(MAX), `h` UUID, PRIMARY KEY (`a`))"
    );
}

#[test]
fn drop_table_if_exists_loses_the_clause() {
    assert_eq!(mysql_ddl_to_spanner("DROP TABLE IF EXISTS `users`"), "DROP TABLE `users`");
}

#[test]
fn surrounding_whitespace_is_trimmed() {
    assert_eq!(mysql_ddl_to_spanner("  DROP INDEX `i`  "), "DROP INDEX `i`");
}

#[test]
fn binary_columns_become_unbounded_bytes() {
    assert_eq!(
        mysql_ddl_to_spanner("ALTER TABLE `t` ADD COLUMN `data` varbinary(64)"),
        "ALTER TABLE `t` ADD COLUMN `data` BYTES(MAX)"
    );
    assert_eq!(
        mysql_ddl_to_spanner("ALTER TABLE `t` ADD COLUMN `id` binary(16)"),
        "ALTER TABLE `t` ADD COLUMN `id` UUID"
    );
}
