use sea_orm_spanner::error::DbError;
use sea_orm_spanner::migration::{
    ddl_failure, drop_if_exists_outcome, drop_index_ddl, drop_table_ddl, migration_dir,
    migration_name, migration_statuses, plan_down, plan_up, require_database_url,
    MigrationStatus, SpannerSchemaManager,
};

#[test]
fn schema_manager_keeps_its_path() {
    let m = SpannerSchemaManager::new("projects/p/instances/i/databases/d");
    assert_eq!(m.database_path(), "projects/p/instances/i/databases/d");
}

#[test]
fn ddl_failures_that_say_exists_are_success() {
    assert!(ddl_failure("status: AlreadyExists, message: table").is_ok());
    assert!(ddl_failure("Index idx already exists").is_ok());
    assert!(ddl_failure("Duplicate name in schema: users").is_ok());
    match ddl_failure("permission denied") {
        Err(DbError::Custom(m)) => assert_eq!(m, "DDL execution failed: permission denied"),
        other => panic!("unexpected {:?}", other),
    }
}

#[test]
fn drop_statements() {
    assert_eq!(drop_table_ddl("users"), "DROP TABLE users");
    assert_eq!(drop_index_ddl("idx"), "DROP INDEX idx");
}

#[test]
fn drop_if_exists_ignores_missing_objects() {
    assert!(drop_if_exists_outcome(Ok(())).is_ok());
    let missing = DbError::Custom("DDL execution failed: Table not found: users".to_string());
    assert!(drop_if_exists_outcome(Err(missing)).is_ok());
    let other = DbError::Custom("DDL execution failed: permission denied".to_string());
    match drop_if_exists_outcome(Err(other)) {
        Err(DbError::Custom(m)) => assert_eq!(m, "DDL execution failed: permission denied"),
        r => panic!("unexpected {:?}", r),
    }
}

#[test]
fn database_url_is_passed_through() {
    assert_eq!(require_database_url(Some("projects/p".to_string())), "projects/p");
}

#[test]
fn migration_dir_ends_with_slash() {
    assert_eq!(migration_dir("./migration"), "./migration/");
    assert_eq!(migration_dir("./migration/"), "./migration/");
}

#[test]
fn migration_names() {
    assert_eq!(
        migration_name("20240101_120000", "  create users table "),
        Ok("m20240101_120000_create_users_table".to_string())
    );
    assert_eq!(
        migration_name("20240101_120000", "create-users"),
        Err("Migration name cannot contain hyphens. Use underscores instead.".to_string())
    );
}

#[test]
fn migration_plans() {
    let names = vec!["m1".to_string(), "m2".to_string(), "m3".to_string(), "m4".to_string()];
    let applied = vec!["m3".to_string(), "m1".to_string()];
    let statuses = migration_statuses(&names, &applied);
    assert_eq!(
        statuses,
        vec![
            MigrationStatus::Applied,
            MigrationStatus::Pending,
            MigrationStatus::Applied,
            MigrationStatus::Pending
        ]
    );
    assert_eq!(plan_up(&statuses, None), vec![1, 3]);
    assert_eq!(plan_up(&statuses, Some(1)), vec![1]);
    assert_eq!(plan_down(&statuses, None), vec![2, 0]);
    assert_eq!(plan_down(&statuses, Some(1)), vec![2]);
    assert_eq!(plan_down(&statuses, Some(0)), Vec::<usize>::new());
}
