use mvp::error::Error;
use mvp::migrations::{
    migrate_down_target, migrate_up_target, migration_scripts, migrations, DbSchemaVersion,
    SchemaVersion, SchemaVersionInfo, MAX_VERSION,
};

#[test]
fn migrations_test() {
    assert!(migrations().validate().is_ok());
}

#[test]
fn scripts_count_matches_max_version() {
    assert_eq!(migration_scripts().len(), MAX_VERSION);
    assert_eq!(MAX_VERSION, 2);
}

#[test]
fn migrations_go_up_and_down_on_a_database() {
    let m = migrations();
    let mut conn = rusqlite::Connection::open_in_memory().unwrap();
    assert_eq!(m.current_version(&conn).unwrap(), rusqlite_migration::SchemaVersion::NoneSet);
    m.to_latest(&mut conn).unwrap();
    assert_eq!(
        m.current_version(&conn).unwrap(),
        rusqlite_migration::SchemaVersion::Inside(std::num::NonZeroUsize::new(2).unwrap())
    );
    m.to_version(&mut conn, 1).unwrap();
    m.to_version(&mut conn, 0).unwrap();
    assert_eq!(m.current_version(&conn).unwrap(), rusqlite_migration::SchemaVersion::NoneSet);
}

#[test]
fn up_targets() {
    assert_eq!(migrate_up_target(DbSchemaVersion::NoneSet).unwrap(), 1);
    assert_eq!(migrate_up_target(DbSchemaVersion::Inside(1)).unwrap(), 2);
    assert!(matches!(
        migrate_up_target(DbSchemaVersion::Inside(2)),
        Err(Error::ModelSchemaMigrateUpNotAvailable)
    ));
    assert!(matches!(
        migrate_up_target(DbSchemaVersion::Outside(7)),
        Err(Error::ModelSchemaMigrateUpNotAvailable)
    ));
}

#[test]
fn down_targets() {
    assert_eq!(migrate_down_target(DbSchemaVersion::Inside(2)).unwrap(), 1);
    assert_eq!(migrate_down_target(DbSchemaVersion::Inside(1)).unwrap(), 0);
    assert!(matches!(
        migrate_down_target(DbSchemaVersion::NoneSet),
        Err(Error::ModelSchemaMigrateDownNotAvailable)
    ));
    assert!(matches!(
        migrate_down_target(DbSchemaVersion::Inside(0)),
        Err(Error::ModelSchemaMigrateDownNotAvailable)
    ));
    assert!(matches!(
        migrate_down_target(DbSchemaVersion::Outside(3)),
        Err(Error::ModelSchemaMigrateDownNotAvailable)
    ));
}

#[test]
fn up_then_down_comes_back() {
    for start in [0usize, 1] {
        let v = if start == 0 { DbSchemaVersion::NoneSet } else { DbSchemaVersion::Inside(start) };
        let up = migrate_up_target(v).unwrap();
        let down = migrate_down_target(DbSchemaVersion::Inside(up)).unwrap();
        assert_eq!(down, start);
    }
}

#[test]
fn schema_version_info_from_db_version() {
    let info = SchemaVersionInfo::from_sqlite_schema_version(DbSchemaVersion::NoneSet);
    assert_eq!(info.current_version, SchemaVersion::NoneSet);
    assert_eq!(info.max_version, 2);
    let info = SchemaVersionInfo::from_sqlite_schema_version(DbSchemaVersion::Inside(1));
    assert_eq!(info.current_version, SchemaVersion::Expected(1));
    let info = SchemaVersionInfo::from_sqlite_schema_version(DbSchemaVersion::Outside(9));
    assert_eq!(info.current_version, SchemaVersion::Unexpected(9));
}
