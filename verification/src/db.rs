//! The database: one connection behind a lock, opened on a file and brought
//! to the latest schema version before anyone else can reach it.

use crate::error::DatabaseError;
use crate::history::MigrationHistory;
use crate::migration::strictly_ascending;
use crate::migration::MigrationRegistry;
use crate::runner::MigrationRunner;
use crate::script::durability_statement;
use crate::store::batch_execute;
use crate::store::connection_error_text;
use crate::store::connection_of;
use crate::store::establish;
use crate::store::lock;
use crate::store::query_error_text;
use diesel::sqlite::SqliteConnection;
use std::sync::Arc;
use std::sync::Mutex;
use std::sync::MutexGuard;
use vstd::prelude::*;

verus! {

/// The failures that opening a database on `registry` can end in: each of
/// them but a failing revert, and a failing forward script only of a
/// migration of the registry.
pub open spec fn startup_failure(e: DatabaseError, registry: Seq<u64>) -> bool {
    match e {
        DatabaseError::ConnectionError(_) => true,
        DatabaseError::MigrationScriptFailure(version, _) => registry.contains(version),
        DatabaseError::HistoryCorrupted(_) => true,
        DatabaseError::StoreFailure(_) => true,
        DatabaseError::LockCorrupted => true,
        _ => false,
    }
}

/// The failures that unwinding the history on `registry` can end in.
pub open spec fn unwind_failure(e: DatabaseError, registry: Seq<u64>) -> bool {
    match e {
        DatabaseError::RevertScriptFailure(version, _) => registry.contains(version),
        DatabaseError::UnknownVersion(version) => !registry.contains(version),
        DatabaseError::HistoryCorrupted(_) => true,
        DatabaseError::StoreFailure(_) => true,
        DatabaseError::LockCorrupted => true,
        _ => false,
    }
}

/// Access to the one connection of a store. Whoever holds the guard has the
/// connection alone; whoever holds the handle can ask for the guard later.
///
/// A thread that holds the guard must not ask for it again: the second
/// request would never be answered.
pub trait ConnectionSource {
    /// The lock that guards the connection.
    spec fn lock_handle(&self) -> Arc<Mutex<SqliteConnection>>;

    /// Waits until no other guard is live, then gives exclusive access to the
    /// connection until the guard is dropped. It fails only if an earlier
    /// holder failed while it held the connection.
    fn get_connection(&self) -> (r: Result<MutexGuard<'_, SqliteConnection>, DatabaseError>)
        ensures
            match r {
                Ok(_) => true,
                Err(e) => e is LockCorrupted,
            },
    ;

    /// A handle to the same lock, for whoever must keep the means to reach
    /// the connection.
    fn get_connection_mutex(&self) -> (handle: Arc<Mutex<SqliteConnection>>)
        ensures
            handle == self.lock_handle(),
    ;
}

/// A database that is open and migrated.
pub struct DB {
    connection: Arc<Mutex<SqliteConnection>>,
    runner: MigrationRunner,
    recorded: Vec<u64>,
}

impl DB {
    /// The registry whose migrations the database applies.
    pub closed spec fn registry(&self) -> MigrationRegistry {
        self.runner.registry
    }

    /// The versions that the history recorded when the database had been
    /// opened and migrated.
    pub closed spec fn recorded_at_open(&self) -> Seq<u64> {
        self.recorded@
    }

    /// The versions that the history recorded when the database had been
    /// opened and migrated, in ascending order.
    pub fn versions_at_open(&self) -> (list: &Vec<u64>)
        ensures
            list@ == self.recorded_at_open(),
    {
        &self.recorded
    }

    /// Opens the database file at `path`, creating it if it is absent, sets
    /// the durability of the connection and applies every pending migration
    /// of `registry`. On any failure no database is returned.
    pub fn new(path: &str, registry: MigrationRegistry) -> (r: Result<DB, DatabaseError>)
        ensures
            match r {
                Ok(db) => {
                    &&& db.registry() == registry
                    &&& strictly_ascending(db.recorded_at_open())
                    &&& forall|v: u64|
                        registry.versions().contains(v) ==> db.recorded_at_open().contains(v)
                },
                Err(e) => startup_failure(e, registry.versions()),
            },
    {
        let connection = match establish(path) {
            Ok(connection) => Arc::new(Mutex::new(connection)),
            Err(e) => {
                return Err(DatabaseError::ConnectionError(connection_error_text(&e)));
            },
        };
        let mut db = DB { connection, runner: MigrationRunner::new(registry), recorded: Vec::new() };
        match db.init() {
            Ok(recorded) => {
                db.recorded = recorded;
                Ok(db)
            },
            Err(e) => Err(e),
        }
    }

    /// Prepares a connection that was just opened: sets its durability, then
    /// applies every pending migration. It returns the versions that the
    /// history then records.
    fn init(&self) -> (r: Result<Vec<u64>, DatabaseError>)
        ensures
            match r {
                Ok(recorded) => {
                    &&& strictly_ascending(recorded@)
                    &&& forall|v: u64|
                        self.registry().versions().contains(v) ==> recorded@.contains(v)
                },
                Err(e) => startup_failure(e, self.registry().versions()),
            },
    {
        {
            let mut guard = match acquired(lock(&self.connection)) {
                Ok(guard) => guard,
                Err(e) => {
                    return Err(e);
                },
            };
            match batch_execute(connection_of(&mut guard), durability_statement()) {
                Ok(()) => {},
                Err(e) => {
                    return Err(DatabaseError::StoreFailure(query_error_text(&e)));
                },
            }
        }
        self.migrate_up()
    }

    /// Applies every pending migration and returns the versions that the
    /// history then records.
    pub fn migrate_up(&self) -> (r: Result<Vec<u64>, DatabaseError>)
        ensures
            match r {
                Ok(recorded) => {
                    &&& strictly_ascending(recorded@)
                    &&& forall|v: u64|
                        self.registry().versions().contains(v) ==> recorded@.contains(v)
                },
                Err(e) => startup_failure(e, self.registry().versions()) && !(e is ConnectionError),
            },
    {
        let mut guard = match acquired(lock(&self.connection)) {
            Ok(guard) => guard,
            Err(e) => {
                return Err(e);
            },
        };
        let mut history = match MigrationHistory::load(connection_of(&mut guard)) {
            Ok(history) => history,
            Err(e) => {
                return Err(e);
            },
        };
        match self.runner.apply_forward(&mut history) {
            Ok(()) => {
                let recorded = history.versions().clone();
                proof {
                    assert(recorded@ =~= history@);
                    assert forall|v: u64|
                        self.registry().versions().contains(v) implies recorded@.contains(v) by {
                        assert(self.registry().versions().to_set().contains(v));
                        assert(history@.to_set().contains(v));
                    }
                }
                Ok(recorded)
            },
            Err(e) => Err(e),
        }
    }

    /// Reverts every recorded migration, the latest first, and returns the
    /// versions that the history recorded before.
    pub fn migrate_down(&self) -> (r: Result<Vec<u64>, DatabaseError>)
        ensures
            match r {
                Ok(reverted) => {
                    &&& strictly_ascending(reverted@)
                    &&& forall|k: int|
                        0 <= k < reverted@.len() ==> self.registry().versions().contains(
                            #[trigger] reverted@[k],
                        )
                },
                Err(e) => unwind_failure(e, self.registry().versions()),
            },
    {
        let mut guard = match acquired(lock(&self.connection)) {
            Ok(guard) => guard,
            Err(e) => {
                return Err(e);
            },
        };
        let mut history = match MigrationHistory::load(connection_of(&mut guard)) {
            Ok(history) => history,
            Err(e) => {
                return Err(e);
            },
        };
        self.runner.revert_all(&mut history)
    }
}

impl ConnectionSource for DB {
    closed spec fn lock_handle(&self) -> Arc<Mutex<SqliteConnection>> {
        self.connection
    }

    fn get_connection(&self) -> (r: Result<MutexGuard<'_, SqliteConnection>, DatabaseError>) {
        acquired(lock(&self.connection))
    }

    fn get_connection_mutex(&self) -> (handle: Arc<Mutex<SqliteConnection>>) {
        self.connection.clone()
    }
}

/// What a request for the lock comes to. Where the lock gave its guard, the
/// guard is handed on. Where it gave none, because an earlier holder failed
/// while it held the connection, the request fails: a store in an unknown
/// state is handed to nobody.
pub fn acquired<'a>(locked: Option<MutexGuard<'a, SqliteConnection>>) -> (r: Result<
    MutexGuard<'a, SqliteConnection>,
    DatabaseError,
>)
    ensures
        r == (match locked {
            Some(guard) => Ok::<MutexGuard<'a, SqliteConnection>, DatabaseError>(guard),
            None => Err::<MutexGuard<'a, SqliteConnection>, DatabaseError>(
                DatabaseError::LockCorrupted,
            ),
        }),
{
    match locked {
        Some(guard) => Ok(guard),
        None => Err(DatabaseError::LockCorrupted),
    }
}

} // verus!
