//! The ways in which opening, migrating or reaching the store can fail.

use vstd::prelude::*;

verus! {

/// A failure of the store or of one of its migrations. Each variant that
/// holds a `String` carries the cause as the store reported it.
#[derive(Debug)]
pub enum DatabaseError {
    /// The backing file could not be opened or created.
    ConnectionError(String),
    /// The store reported a failure for the forward script of the migration
    /// with this version, or for its transaction. The version was not noted
    /// as applied and no later migration was attempted. What the store kept
    /// is known only by reading it again: where the transaction could be
    /// neither committed nor rolled back, it may still be open.
    MigrationScriptFailure(u64, String),
    /// The store reported a failure for the reverse script of the migration
    /// with this version, or for its transaction. The version is still noted
    /// as applied. What the store kept is known only by reading it again.
    RevertScriptFailure(u64, String),
    /// The history records this version, and the registry has no migration
    /// for it: it cannot be reverted.
    UnknownVersion(u64),
    /// The history holds this text, which is no version.
    HistoryCorrupted(String),
    /// A statement that is not part of any migration failed: the durability
    /// setting, or reading the history.
    StoreFailure(String),
    /// An earlier holder of the connection failed while holding it. What it
    /// left behind is unknown, so the connection is handed out no more.
    LockCorrupted,
}

impl DatabaseError {
    /// The version of the migration that the error is about, if it is about
    /// one.
    pub open spec fn spec_version(&self) -> Option<u64> {
        match *self {
            DatabaseError::MigrationScriptFailure(v, _) => Some(v),
            DatabaseError::RevertScriptFailure(v, _) => Some(v),
            DatabaseError::UnknownVersion(v) => Some(v),
            _ => None,
        }
    }

    /// The version of the migration that the error is about, if it is about
    /// one.
    #[verifier::when_used_as_spec(spec_version)]
    pub fn version(&self) -> (v: Option<u64>)
        ensures
            v == self.spec_version(),
    {
        match self {
            DatabaseError::MigrationScriptFailure(v, _) => Some(*v),
            DatabaseError::RevertScriptFailure(v, _) => Some(*v),
            DatabaseError::UnknownVersion(v) => Some(*v),
            _ => None,
        }
    }
}

} // verus!
