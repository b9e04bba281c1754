//! The migration runner: applies what is pending, in version order, and
//! reverts what was applied last.

use crate::error::DatabaseError;
use crate::history::MigrationHistory;
use crate::migration::Migration;
use crate::migration::MigrationRegistry;
use crate::migration::strictly_ascending;
use crate::migration::Direction;
use crate::store::atomically;
use crate::script::removal_statement;
use crate::script::script_is_admissible;
use crate::store::batch_execute;
use crate::store::execute_with_text;
use crate::store::insert_new_migration;
use crate::store::query_error_text;
use crate::version::decimal;
use crate::version::version_text;
use diesel::sqlite::SqliteConnection;
use vstd::prelude::*;

verus! {

/// What is done to the history table when a script has succeeded.
#[derive(Clone, Copy, Debug, PartialEq, Eq, Structural)]
pub enum RowChange {
    /// The version is recorded: its row is added.
    Record,
    /// The version is no longer recorded: its row is removed.
    Remove,
}

/// One unit of work on the store, to be done in one transaction: a script,
/// and the change of the history table that goes with it.
#[derive(Debug)]
pub struct UnitOfWork<'a> {
    /// The script that is handed to the store.
    pub script: &'a str,
    /// The text of the version, as the history table keeps it.
    pub row: String,
    /// What is done with that row once the script has succeeded.
    pub change: RowChange,
}

/// The unit of work that takes `migration` in the given direction. Forward,
/// it is the forward script, and the version is then recorded. In reverse,
/// it is the reverse script, and the record of the version is then removed.
pub fn unit_of_work<'a>(direction: Direction, migration: &'a Migration) -> (unit: UnitOfWork<'a>)
    ensures
        unit.script@ == (match direction {
            Direction::Forward => migration.up_script@,
            Direction::Reverse => migration.down_script@,
        }),
        unit.row@ == decimal(migration.version as nat),
        unit.change == (match direction {
            Direction::Forward => RowChange::Record,
            Direction::Reverse => RowChange::Remove,
        }),
{
    UnitOfWork {
        script: migration.script(direction).as_str(),
        row: version_text(migration.version),
        change: match direction {
            Direction::Forward => RowChange::Record,
            Direction::Reverse => RowChange::Remove,
        },
    }
}

/// Carries out one unit of work: hands its script to the store and, only if
/// the script succeeded, changes the history table as the unit says. The
/// result is the store's answer to the script where that is a failure, and
/// its answer to the change of the table otherwise.
pub(crate) fn perform(conn: &SqliteConnection, unit: &UnitOfWork) -> (r: Result<
    (),
    diesel::result::Error,
>)
    requires
        script_is_admissible(unit.script@),
{
    match batch_execute(conn, unit.script) {
        Ok(()) => {},
        Err(e) => {
            return Err(e);
        },
    }
    match unit.change {
        RowChange::Record => insert_new_migration(conn, unit.row.as_str()),
        RowChange::Remove => match execute_with_text(
            conn,
            removal_statement(),
            unit.row.as_str(),
        ) {
            Ok(_) => Ok(()),
            Err(e) => Err(e),
        },
    }
}

/// The versions of the registry that the history does not record, in
/// registry order.
pub open spec fn pending_versions(registry: Seq<u64>, recorded: Seq<u64>) -> Seq<u64> {
    registry.filter(|v: u64| !recorded.contains(v))
}

/// The versions of `versions` that are smaller than `bound`.
pub open spec fn below(versions: Seq<u64>, bound: u64) -> Set<u64> {
    Set::new(|v: u64| versions.contains(v) && v < bound)
}

/// `history` is the beginning of `registry`: no gap, nothing out of order.
pub open spec fn is_prefix(history: Seq<u64>, registry: Seq<u64>) -> bool {
    history.len() <= registry.len() && history == registry.take(history.len() as int)
}

/// A forward pass that ran to its end took the history from `before` to
/// `after`: what was recorded stays, and every version of the registry is
/// recorded.
pub open spec fn forward_complete(registry: Seq<u64>, before: Seq<u64>, after: Seq<u64>) -> bool {
    after.to_set() == before.to_set().union(registry.to_set())
}

/// A forward pass that stopped at the version `failed` took the history from
/// `before` to `after`: `failed` was pending and is still not recorded, every
/// version of the registry before it is recorded, and none after it was
/// touched.
pub open spec fn forward_stopped(
    registry: Seq<u64>,
    before: Seq<u64>,
    after: Seq<u64>,
    failed: u64,
) -> bool {
    &&& registry.contains(failed)
    &&& !before.contains(failed)
    &&& after.to_set() == before.to_set().union(below(registry, failed))
}

/// Reverting took the history from `before` to `after` by removing
/// `version`, the highest that was recorded.
pub open spec fn reverted(before: Seq<u64>, after: Seq<u64>, version: u64) -> bool {
    &&& before.len() > 0
    &&& version == before.last()
    &&& after == before.drop_last()
}

/// Reverting stopped at `version`, the highest that `before` records, and
/// changed nothing.
pub open spec fn revert_refused(before: Seq<u64>, after: Seq<u64>, version: u64) -> bool {
    &&& before.len() > 0
    &&& version == before.last()
    &&& after == before
}

/// What `revert_latest` did when it did not fail.
#[derive(Clone, Copy, Debug, PartialEq, Eq, Structural)]
pub enum RevertOutcome {
    /// The migration with this version was reverted and is no longer
    /// recorded.
    Reverted(u64),
    /// The history is empty, so there was nothing to do.
    NoMigrationToRevert,
}

/// In an ascending sequence the elements before place `i` are those that are
/// smaller than the element at place `i`.
pub proof fn earlier_is_below(versions: Seq<u64>, i: int)
    requires
        strictly_ascending(versions),
        0 <= i < versions.len(),
    ensures
        versions.take(i).to_set() == below(versions, versions[i]),
{
    assert forall|v: u64| versions.take(i).to_set().contains(v) <==> below(
        versions,
        versions[i],
    ).contains(v) by {
        if versions.take(i).contains(v) {
            let k = choose|k: int| 0 <= k < i && versions.take(i)[k] == v;
            assert(versions[k] == v);
        }
        if versions.contains(v) && v < versions[i] {
            let k = choose|k: int| 0 <= k < versions.len() && versions[k] == v;
            assert(k < i);
            assert(versions.take(i)[k] == v);
        }
    }
    assert(versions.take(i).to_set() =~= below(versions, versions[i]));
}

/// One more element of a sequence is one more element of its set.
proof fn one_more_taken(versions: Seq<u64>, i: int)
    requires
        0 <= i < versions.len(),
    ensures
        versions.take(i + 1).to_set() == versions.take(i).to_set().insert(versions[i]),
{
    let longer = versions.take(i + 1);
    let shorter = versions.take(i);
    assert forall|v: u64| longer.to_set().contains(v) <==> shorter.to_set().insert(
        versions[i],
    ).contains(v) by {
        if longer.contains(v) {
            let k = choose|k: int| 0 <= k < longer.len() && longer[k] == v;
            if k < i {
                assert(shorter[k] == v);
            }
        }
        if shorter.contains(v) {
            let k = choose|k: int| 0 <= k < shorter.len() && shorter[k] == v;
            assert(longer[k] == v);
        }
        if v == versions[i] {
            assert(longer[i] == v);
        }
    }
    assert(longer.to_set() =~= shorter.to_set().insert(versions[i]));
}

/// Nothing is pending exactly when the history records every version of the
/// registry.
pub proof fn nothing_pending_means_all_recorded(registry: Seq<u64>, recorded: Seq<u64>)
    ensures
        pending_versions(registry, recorded).len() == 0 <==> (forall|v: u64|
            registry.contains(v) ==> recorded.contains(v)),
{
    let pred = |v: u64| !recorded.contains(v);
    let pending = registry.filter(pred);
    if pending.len() == 0 {
        assert forall|v: u64| registry.contains(v) implies recorded.contains(v) by {
            if !recorded.contains(v) {
                let k = choose|k: int| 0 <= k < registry.len() && registry[k] == v;
                assert(pred(registry[k]));
                registry.lemma_filter_contains(pred, k);
            }
        }
    } else {
        registry.lemma_filter_pred(pred, 0);
        registry.lemma_filter_contains_rev(pred, pending[0]);
        assert(registry.contains(pending[0]) && !recorded.contains(pending[0]));
    }
}

/// Notes in the history what an attempt at the forward script of `version`
/// came to. Where the store reported success, the version is now recorded.
/// Where it reported a failure, the history stays as it was and the failure
/// is handed on with the version and the cause that the store gave.
pub fn forward_attempted(
    history: &mut MigrationHistory,
    version: u64,
    outcome: Result<(), String>,
) -> (r: Result<(), DatabaseError>)
    ensures
        strictly_ascending(final(history)@),
        match outcome {
            Ok(()) => r is Ok && final(history)@.to_set() == old(history)@.to_set().insert(
                version,
            ),
            Err(cause) => r == Err::<(), DatabaseError>(
                DatabaseError::MigrationScriptFailure(version, cause),
            ) && final(history)@ == old(history)@,
        },
{
    proof {
        use_type_invariant(&*history);
    }
    match outcome {
        Ok(()) => {
            history.note_applied(version);
            Ok(())
        },
        Err(cause) => Err(DatabaseError::MigrationScriptFailure(version, cause)),
    }
}

/// Notes in the history what an attempt at the reverse script of `version`,
/// the highest that is recorded, came to. Where the store reported success,
/// the version is no longer recorded. Where it reported a failure, the
/// history stays as it was and the failure is handed on with the version and
/// the cause that the store gave.
pub fn revert_attempted(
    history: &mut MigrationHistory,
    version: u64,
    outcome: Result<(), String>,
) -> (r: Result<RevertOutcome, DatabaseError>)
    requires
        old(history)@.len() > 0,
        version == old(history)@.last(),
    ensures
        strictly_ascending(final(history)@),
        match outcome {
            Ok(()) => r == Ok::<RevertOutcome, DatabaseError>(RevertOutcome::Reverted(version))
                && final(history)@ == old(history)@.drop_last(),
            Err(cause) => r == Err::<RevertOutcome, DatabaseError>(
                DatabaseError::RevertScriptFailure(version, cause),
            ) && final(history)@ == old(history)@,
        },
{
    proof {
        use_type_invariant(&*history);
    }
    match outcome {
        Ok(()) => {
            history.note_reverted();
            proof {
                use_type_invariant(&*history);
            }
            Ok(RevertOutcome::Reverted(version))
        },
        Err(cause) => Err(DatabaseError::RevertScriptFailure(version, cause)),
    }
}

/// What the store answered to a unit of work, with a failure in words.
fn outcome_of(answer: Result<(), diesel::result::Error>) -> (outcome: Result<(), String>)
    ensures
        outcome is Ok <==> answer is Ok,
{
    match answer {
        Ok(()) => Ok(()),
        Err(e) => Err(query_error_text(&e)),
    }
}

/// Applies and reverts the migrations of one registry.
#[derive(Debug)]
pub struct MigrationRunner {
    pub registry: MigrationRegistry,
}

impl MigrationRunner {
    /// A runner for the migrations of `registry`.
    pub fn new(registry: MigrationRegistry) -> (runner: MigrationRunner)
        ensures
            runner.registry == registry,
    {
        MigrationRunner { registry }
    }

    /// The versions that `apply_forward` would apply, in the order in which
    /// it would apply them.
    pub fn pending(&self, history: &MigrationHistory) -> (list: Vec<u64>)
        ensures
            list@ == pending_versions(self.registry.versions(), history@),
    {
        let ghost registry = self.registry.versions();
        let ghost pred = |v: u64| !history@.contains(v);
        let mut list: Vec<u64> = Vec::new();
        let n: usize = self.registry.len();
        let mut i: usize = 0;
        proof {
            reveal(Seq::filter);
            assert(registry.take(0) =~= Seq::<u64>::empty());
        }
        while i < n
            invariant
                i <= n,
                n == registry.len(),
                registry == self.registry.versions(),
                pred == (|v: u64| !history@.contains(v)),
                list@ == registry.take(i as int).filter(pred),
            decreases n - i,
        {
            let version: u64 = self.registry.at(i).version;
            proof {
                reveal(Seq::filter);
                assert(registry.take(i + 1).drop_last() =~= registry.take(i as int));
                assert(registry.take(i + 1).last() == version);
            }
            if !history.contains(version) {
                list.push(version);
            }
            i = i + 1;
        }
        assert(registry.take(n as int) =~= registry);
        list
    }

    /// Brings the store to the latest version: runs the forward script of
    /// each migration that the history does not record, in registry order,
    /// each with its record in one transaction. It stops at the first script
    /// that fails and reports its version and the cause.
    ///
    /// No script is run when nothing is pending: the call then succeeds and
    /// changes nothing.
    pub fn apply_forward(&self, history: &mut MigrationHistory) -> (r: Result<(), DatabaseError>)
        ensures
            strictly_ascending(final(history)@),
            match r {
                Ok(()) => forward_complete(
                    self.registry.versions(),
                    old(history)@,
                    final(history)@,
                ),
                Err(DatabaseError::MigrationScriptFailure(version, _)) => forward_stopped(
                    self.registry.versions(),
                    old(history)@,
                    final(history)@,
                    version,
                ),
                Err(_) => false,
            },
            pending_versions(self.registry.versions(), old(history)@).len() == 0 ==> r is Ok
                && final(history)@ == old(history)@,
    {
        let ghost registry = self.registry.versions();
        let ghost before = history@;
        proof {
            use_type_invariant(&self.registry);
            use_type_invariant(&*history);
            nothing_pending_means_all_recorded(registry, before);
            assert(registry.take(0) =~= Seq::<u64>::empty());
            assert(history@.to_set() =~= before.to_set().union(registry.take(0).to_set()));
        }
        let n: usize = self.registry.len();
        let mut i: usize = 0;
        while i < n
            invariant
                i <= n,
                n == registry.len(),
                registry == self.registry.versions(),
                before == old(history)@,
                strictly_ascending(registry),
                strictly_ascending(history@),
                history@.to_set() == before.to_set().union(registry.take(i as int).to_set()),
                pending_versions(registry, before).len() == 0 ==> history@ == before,
                pending_versions(registry, before).len() == 0 <==> (forall|v: u64|
                    registry.contains(v) ==> before.contains(v)),
            decreases n - i,
        {
            let migration = self.registry.at(i);
            let version: u64 = migration.version;
            assert(registry[i as int] == version);
            proof {
                one_more_taken(registry, i as int);
            }
            if !history.contains(version) {
                assert(!before.contains(version)) by {
                    if before.contains(version) {
                        assert(before.to_set().contains(version));
                        assert(history@.to_set().contains(version));
                    }
                }
                let unit = unit_of_work(Direction::Forward, migration);
                let outcome = outcome_of(atomically(history.connection(), &unit));
                match forward_attempted(history, version, outcome) {
                    Ok(()) => {},
                    Err(e) => {
                        proof {
                            earlier_is_below(registry, i as int);
                        }
                        return Err(e);
                    },
                }
            } else {
                assert(history@.to_set().contains(version));
            }
            assert(history@.to_set() =~= before.to_set().union(registry.take(i + 1).to_set()));
            i = i + 1;
        }
        assert(registry.take(n as int) =~= registry);
        Ok(())
    }

    /// Reverts the migration that was applied last: runs the reverse script
    /// of the highest recorded version and removes its record, both in one
    /// transaction. With an empty history there is nothing to do, which is
    /// no error.
    pub fn revert_latest(&self, history: &mut MigrationHistory) -> (r: Result<
        RevertOutcome,
        DatabaseError,
    >)
        ensures
            strictly_ascending(final(history)@),
            match r {
                Ok(RevertOutcome::NoMigrationToRevert) => old(history)@.len() == 0
                    && final(history)@ == old(history)@,
                Ok(RevertOutcome::Reverted(version)) => reverted(
                    old(history)@,
                    final(history)@,
                    version,
                ) && self.registry.versions().contains(version),
                Err(DatabaseError::UnknownVersion(version)) => revert_refused(
                    old(history)@,
                    final(history)@,
                    version,
                ) && !self.registry.versions().contains(version),
                Err(DatabaseError::RevertScriptFailure(version, _)) => revert_refused(
                    old(history)@,
                    final(history)@,
                    version,
                ) && self.registry.versions().contains(version),
                Err(_) => false,
            },
    {
        proof {
            use_type_invariant(&*history);
        }
        match history.latest() {
            None => Ok(RevertOutcome::NoMigrationToRevert),
            Some(version) => {
                match self.registry.find(version) {
                    None => Err(DatabaseError::UnknownVersion(version)),
                    Some(migration) => {
                        let unit = unit_of_work(Direction::Reverse, migration);
                        let outcome = outcome_of(atomically(history.connection(), &unit));
                        revert_attempted(history, version, outcome)
                    },
                }
            },
        }
    }

    /// Unwinds the history: reverts the latest migration again and again,
    /// until nothing is left to revert or a revert fails. Where nothing is
    /// left, it returns the versions that the history recorded before, all of
    /// which were reverted.
    pub fn revert_all(&self, history: &mut MigrationHistory) -> (r: Result<Vec<u64>, DatabaseError>)
        ensures
            strictly_ascending(final(history)@),
            is_prefix(final(history)@, old(history)@),
            forall|k: int|
                final(history)@.len() <= k < old(history)@.len()
                    ==> self.registry.versions().contains(#[trigger] old(history)@[k]),
            match r {
                Ok(reverted) => final(history)@.len() == 0 && reverted@ == old(history)@,
                Err(DatabaseError::UnknownVersion(version)) => final(history)@.len() > 0
                    && version == final(history)@.last() && !self.registry.versions().contains(
                    version,
                ),
                Err(DatabaseError::RevertScriptFailure(version, _)) => final(history)@.len() > 0
                    && version == final(history)@.last() && self.registry.versions().contains(
                    version,
                ),
                Err(_) => false,
            },
    {
        let ghost before = history@;
        proof {
            use_type_invariant(&*history);
            assert(before.take(before.len() as int) =~= before);
        }
        let recorded = history.versions().clone();
        assert(recorded@ =~= before);
        loop
            invariant
                before == old(history)@,
                recorded@ == before,
                strictly_ascending(history@),
                is_prefix(history@, before),
                forall|k: int|
                    history@.len() <= k < before.len() ==> self.registry.versions().contains(
                        #[trigger] before[k],
                    ),
            decreases history@.len(),
        {
            let ghost current = history@;
            match self.revert_latest(history) {
                Ok(RevertOutcome::NoMigrationToRevert) => {
                    return Ok(recorded);
                },
                Ok(RevertOutcome::Reverted(version)) => {
                    assert(history@ =~= before.take(history@.len() as int));
                    assert(before[current.len() - 1] == version);
                },
                Err(e) => {
                    return Err(e);
                },
            }
        }
    }
}

} // verus!
