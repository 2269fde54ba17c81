use sea_orm_spanner::database::{CreateOptions, DatabaseDialect, DatabasePath, InstanceConfig};

#[test]
fn test_database_path_parse() {
    let path = DatabasePath::parse("projects/my-project/instances/my-instance/databases/my-db")
        .expect("Should parse valid path");

    assert_eq!(path.project, "my-project");
    assert_eq!(path.instance, "my-instance");
    assert_eq!(path.database, "my-db");
    assert_eq!(path.project_path(), "projects/my-project");
    assert_eq!(
        path.instance_path(),
        "projects/my-project/instances/my-instance"
    );
    assert_eq!(
        path.full_path(),
        "projects/my-project/instances/my-instance/databases/my-db"
    );
}

#[test]
fn test_database_path_parse_invalid() {
    assert!(DatabasePath::parse("invalid/path").is_err());
    assert!(DatabasePath::parse("projects/p/instances/i").is_err());
    assert!(DatabasePath::parse("").is_err());
}

#[test]
fn test_create_options_default() {
    let options = CreateOptions::default();
    assert!(!options.create_instance_if_not_exists);
    assert!(options.create_database_if_not_exists);
    assert_eq!(options.database_dialect, DatabaseDialect::GoogleStandardSql);
}

#[test]
fn create_options_builders() {
    let config = InstanceConfig {
        display_name: Some("Test".to_string()),
        config: None,
        node_count: Some(1),
        processing_units: None,
    };
    let options = CreateOptions::new()
        .with_instance_creation()
        .with_dialect(DatabaseDialect::PostgreSql)
        .with_instance_config(config);
    assert!(options.create_instance_if_not_exists);
    assert!(options.create_database_if_not_exists);
    assert_eq!(options.database_dialect, DatabaseDialect::PostgreSql);
    assert_eq!(options.instance_config.node_count, Some(1));
}
