use app_migrations::bootstrap::{database_url, startup_error_message};
use app_migrations::migration::{initial_migration, initial_migrations, MigrationKind};

#[test]
fn initial_migration_is_version_two_up() {
    let m = initial_migration("CREATE TABLE demo (id INTEGER PRIMARY KEY);");
    assert_eq!(m.version, 2);
    assert!(m.kind == MigrationKind::Up);
    assert_eq!(m.description, "create_initial_tables");
    assert_eq!(m.sql, "CREATE TABLE demo (id INTEGER PRIMARY KEY);");
}

#[test]
fn migration_list_holds_exactly_the_initial_migration() {
    let ms = initial_migrations("CREATE TABLE demo (id INTEGER PRIMARY KEY);");
    assert_eq!(ms.len(), 1);
    assert_eq!(ms[0].version, 2);
    assert!(ms[0].kind == MigrationKind::Up);
    assert_eq!(ms[0].description, "create_initial_tables");
    assert!(!ms[0].sql.is_empty());
}

#[test]
fn migration_kinds_are_distinct() {
    assert!(MigrationKind::Up != MigrationKind::Down);
}

#[test]
fn database_url_names_main_db() {
    assert_eq!(database_url(), "sqlite:main.db");
}

#[test]
fn startup_error_message_is_fixed() {
    assert_eq!(startup_error_message(), "error while running tauri application");
}
