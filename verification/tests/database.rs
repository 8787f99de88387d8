use okoscope::database::{
    check_schema, migration_report, MigrationReport, ReadinessError, REQUIRED_MIGRATION,
};

#[test]
fn schema_is_ready_only_at_the_required_migration() {
    assert_eq!(check_schema(Some(REQUIRED_MIGRATION)), Ok(()));
    assert_eq!(
        check_schema(Some(REQUIRED_MIGRATION - 1)),
        Err(ReadinessError::MissingMigration { expected: REQUIRED_MIGRATION, actual: Some(5) })
    );
    assert_eq!(
        check_schema(None),
        Err(ReadinessError::MissingMigration { expected: REQUIRED_MIGRATION, actual: None })
    );
}

#[test]
fn migration_report_names_required_and_applied_versions() {
    assert_eq!(
        migration_report(Some(6)),
        Ok(MigrationReport { required: 6, applied: 6 })
    );
    assert!(migration_report(Some(7)).is_err());
    assert!(migration_report(None).is_err());
}

#[test]
fn readiness_errors_describe_the_missing_migration() {
    let missing = ReadinessError::MissingMigration { expected: 6, actual: Some(-3) };
    assert_eq!(
        missing.message(),
        "database schema is not ready: expected migration 6, found Some(-3)"
    );
    let none = ReadinessError::MissingMigration { expected: 6, actual: None };
    assert_eq!(
        none.message(),
        "database schema is not ready: expected migration 6, found None"
    );
    let failed = ReadinessError::Database("connection refused".to_string());
    assert_eq!(failed.message(), "database query failed: connection refused");
}
