use schema_migrations::migrations::{get_migrations, MigrationKind};

#[test]
fn declares_exactly_one_initial_migration() {
    let sql = "CREATE TABLE notes (id INTEGER PRIMARY KEY, body TEXT NOT NULL);";
    let ms = get_migrations(sql.to_owned());
    assert_eq!(ms.len(), 1);
    assert_eq!(ms[0].version, 1);
    assert_eq!(ms[0].description, "create tables");
    assert_eq!(ms[0].sql, sql);
    assert!(matches!(ms[0].kind, MigrationKind::Up));
    assert!(!ms[0].sql.is_empty());
}

#[test]
fn declarer_is_pure() {
    let sql = "CREATE TABLE notes (id INTEGER PRIMARY KEY);";
    let a = get_migrations(sql.to_owned());
    let b = get_migrations(sql.to_owned());
    assert_eq!(a, b);
}

#[test]
fn empty_resource_yields_empty_sql_field() {
    let ms = get_migrations(String::new());
    assert_eq!(ms.len(), 1);
    assert_eq!(ms[0].version, 1);
    assert_eq!(ms[0].sql, "");
    assert!(matches!(ms[0].kind, MigrationKind::Up));
}

#[test]
fn declared_versions_strictly_increase() {
    let ms = get_migrations("CREATE TABLE t (id INTEGER);".to_owned());
    for w in ms.windows(2) {
        assert!(w[0].version < w[1].version);
    }
    assert!(ms.iter().all(|m| m.version >= 1));
}
