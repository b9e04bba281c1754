use diesel::connection::SimpleConnection;
use diesel::sqlite::SqliteConnection;
use diesel::Connection;
use schema_store::db::acquired;
use schema_store::db::ConnectionSource;
use schema_store::db::DB;
use schema_store::error::DatabaseError;
use schema_store::history::MigrationHistory;
use schema_store::migration::Migration;
use schema_store::migration::MigrationRegistry;
use schema_store::runner::MigrationRunner;
use schema_store::runner::RevertOutcome;
use std::sync::atomic::AtomicUsize;
use std::sync::atomic::Ordering;
use std::sync::Mutex;
use std::sync::TryLockError;

fn migration(version: u64, up: &str, down: &str) -> Migration {
    Migration::new(version, up.to_string(), down.to_string())
}

fn two_step_registry() -> MigrationRegistry {
    MigrationRegistry::new(vec![
        migration(1, "CREATE TABLE t (id INTEGER PRIMARY KEY NOT NULL);", "DROP TABLE t;"),
        migration(
            2,
            "ALTER TABLE t ADD COLUMN c TEXT;",
            "CREATE TABLE t_old (id INTEGER PRIMARY KEY NOT NULL); \
             INSERT INTO t_old SELECT id FROM t; DROP TABLE t; ALTER TABLE t_old RENAME TO t;",
        ),
    ])
    .unwrap()
}

fn broken_second_step_registry() -> MigrationRegistry {
    MigrationRegistry::new(vec![
        migration(1, "CREATE TABLE t (id INTEGER PRIMARY KEY NOT NULL);", "DROP TABLE t;"),
        migration(2, "ALTER TABLE t ADD COLUMN c TEXT; THIS IS NO STATEMENT;", "SELECT 1;"),
    ])
    .unwrap()
}

/// A database file that holds nothing, whatever an earlier run left there.
fn empty_store(name: &str) -> String {
    let path = format!("/tmp/schema_store_{}", name);
    let conn = SqliteConnection::establish(&path).unwrap();
    conn.batch_execute(
        "DROP TABLE IF EXISTS __diesel_schema_migrations; \
         DROP TABLE IF EXISTS t; DROP TABLE IF EXISTS t_old;",
    )
    .unwrap();
    path
}

fn _get_test_db(name: &str) -> DB {
    DB::new(&empty_store(name), two_step_registry()).unwrap()
}

fn recorded(db: &DB) -> Vec<u64> {
    let mut guard = db.get_connection().unwrap();
    let history = MigrationHistory::load(&mut guard).unwrap();
    history.versions().clone()
}

#[test]
fn test_migrations_up() {
    _get_test_db("migrations_up.sqlite");
}

#[test]
fn test_migrations_down() {
    let db = _get_test_db("migrations_down.sqlite");
    db.migrate_down().unwrap();
    db.migrate_up().unwrap();
}

#[test]
fn open_on_fresh_store_records_the_whole_registry() {
    let db = DB::new(":memory:", two_step_registry()).unwrap();
    assert_eq!(recorded(&db), vec![1, 2]);
    assert_eq!(recorded(&db), two_step_registry().version_list());
}

#[test]
fn open_creates_table_with_added_column() {
    let db = DB::new(":memory:", two_step_registry()).unwrap();
    assert_eq!(recorded(&db), vec![1, 2]);
    let guard = db.get_connection().unwrap();
    guard.batch_execute("INSERT INTO t (id, c) VALUES (1, 'kept');").unwrap();
    assert!(guard.batch_execute("INSERT INTO t (id, d) VALUES (2, 'no such column');").is_err());
}

#[test]
fn apply_forward_twice_adds_nothing() {
    let db = DB::new(":memory:", two_step_registry()).unwrap();
    assert_eq!(db.migrate_up().unwrap(), vec![1, 2]);
    assert_eq!(db.migrate_up().unwrap(), vec![1, 2]);
    assert_eq!(recorded(&db), vec![1, 2]);
    let runner = MigrationRunner::new(two_step_registry());
    let mut guard = db.get_connection().unwrap();
    let mut history = MigrationHistory::load(&mut guard).unwrap();
    assert!(runner.pending(&history).is_empty());
    assert!(runner.apply_forward(&mut history).is_ok());
    assert_eq!(history.versions(), &vec![1, 2]);
}

#[test]
fn round_trip_restores_the_history() {
    let db = DB::new(":memory:", two_step_registry()).unwrap();
    let first = recorded(&db);
    assert_eq!(db.migrate_down().unwrap(), vec![1, 2]);
    assert_eq!(recorded(&db), Vec::<u64>::new());
    assert_eq!(db.migrate_up().unwrap(), first);
    assert_eq!(recorded(&db), first);
}

#[test]
fn failing_second_script_stops_the_open() {
    let path = empty_store("failing_second_script.sqlite");
    match DB::new(&path, broken_second_step_registry()) {
        Err(DatabaseError::MigrationScriptFailure(version, cause)) => {
            assert_eq!(version, 2);
            assert!(!cause.is_empty());
        }
        _ => panic!("the open must fail at the second migration"),
    }
    let mut conn = SqliteConnection::establish(&path).unwrap();
    assert_eq!(MigrationHistory::load(&mut conn).unwrap().versions(), &vec![1]);
    assert!(conn.batch_execute("INSERT INTO t (id, c) VALUES (1, 'x');").is_err());
    conn.batch_execute("INSERT INTO t (id) VALUES (1);").unwrap();
}

#[test]
fn revert_latest_on_empty_history_is_no_error() {
    let mut conn = SqliteConnection::establish(":memory:").unwrap();
    let runner = MigrationRunner::new(two_step_registry());
    let mut history = MigrationHistory::load(&mut conn).unwrap();
    assert_eq!(runner.revert_latest(&mut history).unwrap(), RevertOutcome::NoMigrationToRevert);
    assert_eq!(history.len(), 0);
    assert_eq!(MigrationHistory::load(&mut conn).unwrap().len(), 0);
}

#[test]
fn guards_never_overlap() {
    let db = DB::new(":memory:", two_step_registry()).unwrap();
    let handle = db.get_connection_mutex();
    let counter = AtomicUsize::new(0);
    for _ in 0..100 {
        let guard = db.get_connection().unwrap();
        assert_eq!(counter.fetch_add(1, Ordering::SeqCst), 0);
        assert_eq!(counter.load(Ordering::SeqCst), 1);
        assert!(matches!(handle.try_lock(), Err(TryLockError::WouldBlock)));
        assert_eq!(counter.fetch_sub(1, Ordering::SeqCst), 1);
        drop(guard);
        let through_handle = handle.try_lock();
        assert!(through_handle.is_ok());
        assert!(matches!(db.get_connection_mutex().try_lock(), Err(TryLockError::WouldBlock)));
    }
    assert_eq!(counter.load(Ordering::SeqCst), 0);
}

#[test]
fn acquired_refuses_a_corrupted_lock() {
    assert!(matches!(acquired(None), Err(DatabaseError::LockCorrupted)));
}

#[test]
fn acquired_hands_the_guard_on() {
    let mutex = Mutex::new(SqliteConnection::establish(":memory:").unwrap());
    let guard = acquired(mutex.lock().ok()).unwrap();
    guard.batch_execute("CREATE TABLE held (id INTEGER);").unwrap();
    assert!(matches!(mutex.try_lock(), Err(TryLockError::WouldBlock)));
    drop(guard);
    let again = acquired(mutex.try_lock().ok()).unwrap();
    again.batch_execute("INSERT INTO held (id) VALUES (1);").unwrap();
}

#[test]
fn migrate_down_returns_what_was_recorded() {
    let db = DB::new(":memory:", two_step_registry()).unwrap();
    assert_eq!(db.migrate_down().unwrap(), vec![1, 2]);
    assert_eq!(db.migrate_down().unwrap(), Vec::<u64>::new());
    assert_eq!(recorded(&db), Vec::<u64>::new());
    let guard = db.get_connection().unwrap();
    assert!(guard.batch_execute("SELECT COUNT(*) FROM t;").is_err());
}

#[test]
fn database_keeps_what_was_recorded_at_open() {
    let db = DB::new(":memory:", two_step_registry()).unwrap();
    assert_eq!(db.versions_at_open(), &vec![1, 2]);
    db.migrate_down().unwrap();
    assert_eq!(db.versions_at_open(), &vec![1, 2]);
    assert_eq!(recorded(&db), Vec::<u64>::new());
}
