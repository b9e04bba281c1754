//! The calls into `diesel`, `diesel_migrations` and the lock of `std`. What is
//! said of them here is believed, not proved. What a call returns depends on
//! the file behind the connection, so nothing is said of it. What is said
//! is which texts may be handed over: a script that names the SQL function
//! that `diesel` registers on every connection can bring the program down
//! instead of failing, so the calls that take a script take none that holds
//! that name.

use crate::runner::perform;
use crate::runner::UnitOfWork;
use crate::script::script_is_admissible;
use diesel::connection::Connection;
use diesel::connection::SimpleConnection;
use diesel::sqlite::SqliteConnection;
use diesel::RunQueryDsl;
use diesel_migrations::MigrationConnection;
use std::sync::Mutex;
use std::sync::MutexGuard;
use vstd::prelude::*;

verus! {

/// `diesel::sqlite::SqliteConnection`: one open connection to a database
/// file. Nothing inside it is visible here.
#[verifier::external_type_specification]
#[verifier::external_body]
pub struct ExSqliteConnection(SqliteConnection);

/// `diesel::result::Error`: why a statement failed.
#[verifier::external_type_specification]
#[verifier::external_body]
pub struct ExQueryError(diesel::result::Error);

/// `diesel::result::ConnectionError`: why no connection could be made.
#[verifier::external_type_specification]
#[verifier::external_body]
pub struct ExConnectionError(diesel::result::ConnectionError);

/// `std::sync::Mutex`.
#[verifier::external_type_specification]
#[verifier::external_body]
#[verifier::reject_recursive_types(T)]
pub struct ExMutex<T: ?Sized>(Mutex<T>);

/// `std::sync::MutexGuard`: exclusive access to what a `Mutex` holds, given
/// up when the guard is dropped.
#[verifier::external_type_specification]
#[verifier::external_body]
#[verifier::reject_recursive_types(T)]
pub struct ExMutexGuard<'a, T: ?Sized + 'a>(MutexGuard<'a, T>);

/// `std::sync::Mutex::new` puts a value behind a new lock. Nothing is
/// claimed of the lock.
pub assume_specification<T>[ Mutex::<T>::new ](t: T) -> (m: Mutex<T>)
;

/// `Connection::establish` of `SqliteConnection` opens the database file at
/// `path`, creating it if it is absent. Nothing is claimed of the result.
#[verifier::external_body]
pub(crate) fn establish(path: &str) -> (r: Result<
    SqliteConnection,
    diesel::result::ConnectionError,
>) {
    SqliteConnection::establish(path)
}

/// `SimpleConnection::batch_execute` runs the statements of `script` on the
/// connection. A script that holds the reserved name is left out. Nothing is
/// claimed of the result.
#[verifier::external_body]
pub(crate) fn batch_execute(conn: &SqliteConnection, script: &str) -> (r: Result<
    (),
    diesel::result::Error,
>)
    requires
        script_is_admissible(script@),
{
    conn.batch_execute(script)
}

/// `Connection::transaction` begins a transaction, runs the closure once,
/// commits if the closure returned `Ok` and rolls back if it returned `Err`.
/// It fails too where the commit or the rollback itself fails, and may then
/// leave the transaction open. The closure is one call of `perform`, which
/// hands the script of the unit to the store, so a unit whose script holds
/// the reserved name is left out. Nothing is claimed of the result.
#[verifier::external_body]
pub(crate) fn atomically(conn: &SqliteConnection, unit: &UnitOfWork) -> (r: Result<
    (),
    diesel::result::Error,
>)
    requires
        script_is_admissible(unit.script@),
{
    conn.transaction(|| perform(conn, unit))
}

/// `diesel_migrations::setup_database` creates the history table if the
/// store has none. Nothing is claimed of the result.
#[verifier::external_body]
pub(crate) fn setup_database(conn: &SqliteConnection) -> (r: Result<usize, diesel::result::Error>) {
    diesel_migrations::setup_database(conn)
}

/// `MigrationConnection::previously_run_migration_versions` reads the
/// version column of the history table. The rows come as a hash set; they
/// are handed on in the order in which the set gives them, of which nothing
/// is claimed.
#[verifier::external_body]
pub(crate) fn previously_run_migration_versions(conn: &SqliteConnection) -> (r: Result<
    Vec<String>,
    diesel::result::Error,
>) {
    match conn.previously_run_migration_versions() {
        Ok(rows) => Ok(rows.into_iter().collect()),
        Err(e) => Err(e),
    }
}

/// `MigrationConnection::insert_new_migration` adds a row with this version
/// to the history table. Nothing is claimed of the result.
#[verifier::external_body]
pub(crate) fn insert_new_migration(conn: &SqliteConnection, version: &str) -> (r: Result<
    (),
    diesel::result::Error,
>) {
    conn.insert_new_migration(version)
}

/// `diesel::sql_query` makes a query of `statement`, `bind` binds `text` to
/// its one placeholder, and `execute` runs it and gives the number of rows
/// that it changed. A statement that holds the reserved name is left out.
/// Nothing is claimed of the result.
#[verifier::external_body]
pub(crate) fn execute_with_text(conn: &SqliteConnection, statement: &str, text: &str) -> (r:
    Result<usize, diesel::result::Error>)
    requires
        script_is_admissible(statement@),
{
    diesel::sql_query(statement).bind::<diesel::sql_types::Text, _>(text).execute(conn)
}

/// `std::sync::Mutex::lock` waits until no other guard is live and returns
/// the guard, or fails because an earlier holder panicked while it held the
/// lock. It does not return on a thread that already holds the guard.
#[verifier::external_body]
pub(crate) fn lock<'a>(mutex: &'a Mutex<SqliteConnection>) -> (r: Option<
    MutexGuard<'a, SqliteConnection>,
>) {
    match mutex.lock() {
        Ok(guard) => Some(guard),
        Err(_) => None,
    }
}

/// `DerefMut::deref_mut` of `MutexGuard` gives the connection that the guard
/// protects.
#[verifier::external_body]
pub(crate) fn connection_of<'a, 'b>(guard: &'a mut MutexGuard<'b, SqliteConnection>) -> (conn:
    &'a mut SqliteConnection) {
    std::ops::DerefMut::deref_mut(guard)
}

/// `ToString::to_string` of `diesel::result::Error`: the cause in words.
#[verifier::external_body]
pub(crate) fn query_error_text(e: &diesel::result::Error) -> (text: String) {
    e.to_string()
}

/// `ToString::to_string` of `diesel::result::ConnectionError`: the cause in
/// words.
#[verifier::external_body]
pub(crate) fn connection_error_text(e: &diesel::result::ConnectionError) -> (text: String) {
    e.to_string()
}

} // verus!
