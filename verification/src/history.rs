//! The migration history: which versions the store records as applied.

use crate::error::DatabaseError;
use crate::migration::strictly_ascending;
use crate::store::previously_run_migration_versions;
use crate::store::query_error_text;
use crate::store::setup_database;
use crate::version::parse_version;
use crate::version::version_of_text;
use diesel::sqlite::SqliteConnection;
use vstd::prelude::*;

verus! {

/// Every text stands for a version.
pub open spec fn all_readable(texts: Seq<String>) -> bool {
    forall|i: int| 0 <= i < texts.len() ==> (#[trigger] version_of_text(texts[i]@)) is Some
}

/// The versions that the texts stand for.
pub open spec fn versions_read(texts: Seq<String>) -> Set<u64> {
    Set::new(
        |v: u64| exists|i: int| 0 <= i < texts.len() && #[trigger] version_of_text(texts[i]@) == Some(v),
    )
}

/// There is one strictly ascending sequence for each finite set of versions:
/// two such sequences with the same elements are the same sequence.
pub proof fn ascending_is_unique(a: Seq<u64>, b: Seq<u64>)
    requires
        strictly_ascending(a),
        strictly_ascending(b),
        a.to_set() == b.to_set(),
    ensures
        a == b,
    decreases a.len(),
{
    if a.len() == 0 {
        if b.len() > 0 {
            assert(b.to_set().contains(b[0]));
            assert(a.contains(b[0]));
        }
        assert(a =~= b);
    } else {
        assert(a.to_set().contains(a.last()));
        assert(b.contains(a.last()));
        assert(b.len() > 0);
        assert(b.to_set().contains(b.last()));
        assert(a.contains(b.last()));
        assert(a.last() == b.last());
        let a0 = a.drop_last();
        let b0 = b.drop_last();
        assert forall|v: u64| a0.to_set().contains(v) <==> b0.to_set().contains(v) by {
            if a0.contains(v) {
                let i = choose|i: int| 0 <= i < a0.len() && a0[i] == v;
                assert(a[i] == v);
                assert(b.to_set().contains(v));
                let j = choose|j: int| 0 <= j < b.len() && b[j] == v;
                assert(j < b.len() - 1);
                assert(b0[j] == v);
            }
            if b0.contains(v) {
                let j = choose|j: int| 0 <= j < b0.len() && b0[j] == v;
                assert(b[j] == v);
                assert(a.to_set().contains(v));
                let i = choose|i: int| 0 <= i < a.len() && a[i] == v;
                assert(i < a.len() - 1);
                assert(a0[i] == v);
            }
        }
        assert(a0.to_set() =~= b0.to_set());
        ascending_is_unique(a0, b0);
        assert(a =~= a0.push(a.last()));
        assert(b =~= b0.push(b.last()));
    }
}

/// Puts `version` at its place in an ascending list, unless it is there.
fn insert_ascending(versions: &mut Vec<u64>, version: u64)
    requires
        strictly_ascending(old(versions)@),
    ensures
        strictly_ascending(final(versions)@),
        final(versions)@.to_set() == old(versions)@.to_set().insert(version),
{
    let mut i: usize = 0;
    while i < versions.len() && versions[i] < version
        invariant
            i <= versions.len(),
            versions@ == old(versions)@,
            forall|k: int| 0 <= k < i ==> versions@[k] < version,
        decreases versions.len() - i,
    {
        i = i + 1;
    }
    if i < versions.len() && versions[i] == version {
        assert(versions@.to_set().contains(version));
        assert(versions@.to_set() =~= versions@.to_set().insert(version));
    } else {
        let ghost before = versions@;
        versions.insert(i, version);
        assert forall|a: int, b: int| 0 <= a < b < versions@.len() implies versions@[a] < versions@[b] by {
            if b < i {
                assert(versions@[a] == before[a] && versions@[b] == before[b]);
            } else if b == i {
                assert(versions@[a] == before[a]);
            } else if a < i {
                assert(versions@[a] == before[a] && versions@[b] == before[b - 1]);
                if i < before.len() {
                    assert(before[i as int] <= before[b - 1]);
                }
            } else if a == i {
                assert(versions@[b] == before[b - 1]);
                assert(before[i as int] <= before[b - 1]);
            } else {
                assert(versions@[a] == before[a - 1] && versions@[b] == before[b - 1]);
            }
        }
        assert forall|v: u64| versions@.to_set().contains(v) <==> before.to_set().insert(
            version,
        ).contains(v) by {
            if versions@.contains(v) {
                let k = choose|k: int| 0 <= k < versions@.len() && versions@[k] == v;
                if k < i {
                    assert(before[k] == v);
                } else if k > i {
                    assert(before[k - 1] == v);
                }
            }
            if before.contains(v) {
                let k = choose|k: int| 0 <= k < before.len() && before[k] == v;
                if k < i {
                    assert(versions@[k] == v);
                } else {
                    assert(versions@[k + 1] == v);
                }
            }
            if v == version {
                assert(versions@[i as int] == v);
            }
        }
        assert(versions@.to_set() =~= before.to_set().insert(version));
    }
}

/// Reads the rows of the history table: the versions that they stand for,
/// in ascending order, each once. The first row that is no version is
/// reported.
pub fn collect_versions(texts: &Vec<String>) -> (r: Result<Vec<u64>, DatabaseError>)
    ensures
        match r {
            Ok(versions) => {
                &&& all_readable(texts@)
                &&& strictly_ascending(versions@)
                &&& versions@.to_set() == versions_read(texts@)
            },
            Err(DatabaseError::HistoryCorrupted(text)) => exists|i: int|
                {
                    &&& 0 <= i < texts.len()
                    &&& all_readable(texts@.take(i))
                    &&& version_of_text(#[trigger] texts[i]@) is None
                    &&& text@ == texts[i]@
                },
            Err(_) => false,
        },
{
    let mut versions: Vec<u64> = Vec::new();
    let mut i: usize = 0;
    assert(versions@.to_set() =~= versions_read(texts@.take(0)));
    while i < texts.len()
        invariant
            i <= texts.len(),
            strictly_ascending(versions@),
            all_readable(texts@.take(i as int)),
            versions@.to_set() == versions_read(texts@.take(i as int)),
        decreases texts.len() - i,
    {
        let ghost shorter = texts@.take(i as int);
        let ghost longer = texts@.take(i + 1);
        match parse_version(texts[i].as_str()) {
            None => {
                return Err(DatabaseError::HistoryCorrupted(texts[i].clone()));
            },
            Some(version) => {
                let ghost before = versions@.to_set();
                insert_ascending(&mut versions, version);
                proof {
                    assert(longer[i as int] == texts[i as int]);
                    assert forall|k: int| 0 <= k < longer.len() implies (#[trigger] version_of_text(
                        longer[k]@,
                    )) is Some by {
                        if k < i {
                            assert(longer[k] == shorter[k]);
                        }
                    }
                    assert forall|v: u64| before.insert(version).contains(v) <==> versions_read(
                        longer,
                    ).contains(v) by {
                        if before.contains(v) {
                            let k = choose|k: int|
                                0 <= k < shorter.len() && #[trigger] version_of_text(shorter[k]@)
                                    == Some(v);
                            assert(longer[k] == shorter[k]);
                        }
                        if versions_read(longer).contains(v) {
                            let k = choose|k: int|
                                0 <= k < longer.len() && #[trigger] version_of_text(longer[k]@)
                                    == Some(v);
                            if k < i {
                                assert(longer[k] == shorter[k]);
                            }
                        }
                    }
                    assert(versions@.to_set() =~= versions_read(longer));
                }
            },
        }
        i = i + 1;
    }
    assert(texts@.take(texts.len() as int) =~= texts@);
    Ok(versions)
}

/// The history of one store: the versions that it records as applied, in
/// ascending order. It is read through a connection that it then has alone,
/// so that nothing else goes through that connection while the history is
/// in use, and it follows every change that the store reported as done.
/// After the store has reported a failure, what it holds is known only by
/// reading the history again.
pub struct MigrationHistory<'a> {
    conn: &'a mut SqliteConnection,
    versions: Vec<u64>,
}

impl<'a> View for MigrationHistory<'a> {
    type V = Seq<u64>;

    closed spec fn view(&self) -> Seq<u64> {
        self.versions@
    }
}

impl<'a> MigrationHistory<'a> {
    /// No version is recorded twice, and a smaller one comes first.
    #[verifier::type_invariant]
    pub open spec fn ordered(&self) -> bool {
        strictly_ascending(self@)
    }

    /// Makes sure that the store has a history table, and reads it.
    pub fn load(conn: &'a mut SqliteConnection) -> (r: Result<MigrationHistory<'a>, DatabaseError>)
        ensures
            match r {
                Ok(history) => strictly_ascending(history@),
                Err(e) => e is StoreFailure || e is HistoryCorrupted,
            },
    {
        match setup_database(conn) {
            Ok(_) => {},
            Err(e) => {
                return Err(DatabaseError::StoreFailure(query_error_text(&e)));
            },
        }
        let texts = match previously_run_migration_versions(conn) {
            Ok(texts) => texts,
            Err(e) => {
                return Err(DatabaseError::StoreFailure(query_error_text(&e)));
            },
        };
        match collect_versions(&texts) {
            Ok(versions) => Ok(MigrationHistory { conn, versions }),
            Err(e) => Err(e),
        }
    }

    /// The recorded versions, in ascending order.
    pub fn versions(&self) -> (list: &Vec<u64>)
        ensures
            list@ == self@,
            strictly_ascending(list@),
    {
        proof {
            use_type_invariant(self);
        }
        &self.versions
    }

    /// How many versions are recorded.
    pub fn len(&self) -> (n: usize)
        ensures
            n == self@.len(),
    {
        self.versions.len()
    }

    /// Whether this version is recorded.
    pub fn contains(&self, version: u64) -> (b: bool)
        ensures
            b == self@.contains(version),
    {
        let mut i: usize = 0;
        while i < self.versions.len()
            invariant
                i <= self@.len(),
                forall|k: int| 0 <= k < i ==> self@[k] != version,
            decreases self.versions.len() - i,
        {
            if self.versions[i] == version {
                return true;
            }
            i = i + 1;
        }
        false
    }

    /// The highest recorded version.
    pub fn latest(&self) -> (v: Option<u64>)
        ensures
            v == (if self@.len() == 0 { None } else { Some(self@.last()) }),
    {
        if self.versions.len() == 0 {
            None
        } else {
            Some(self.versions[self.versions.len() - 1])
        }
    }

    /// The connection through which the history is read and written. The
    /// history has it alone for as long as it lives.
    pub closed spec fn store(&self) -> SqliteConnection {
        *self.conn
    }

    /// The connection through which the history is read and written, to
    /// look at the store while the history is in use.
    pub fn connection(&self) -> (conn: &SqliteConnection)
        ensures
            *conn == self.store(),
    {
        &*self.conn
    }

    /// Notes that the store now records `version`.
    pub(crate) fn note_applied(&mut self, version: u64)
        ensures
            strictly_ascending(final(self)@),
            final(self)@.to_set() == old(self)@.to_set().insert(version),
    {
        proof {
            use_type_invariant(&*self);
        }
        let mut versions = self.versions.clone();
        assert(versions@ =~= self.versions@);
        insert_ascending(&mut versions, version);
        self.versions = versions;
    }

    /// Notes that the store no longer records its highest version.
    pub(crate) fn note_reverted(&mut self)
        requires
            old(self)@.len() > 0,
        ensures
            final(self)@ == old(self)@.drop_last(),
    {
        proof {
            use_type_invariant(&*self);
        }
        let mut versions = self.versions.clone();
        assert(versions@ =~= self.versions@);
        versions.pop();
        assert(versions@ =~= self.versions@.drop_last());
        self.versions = versions;
    }
}

} // verus!
