//! Migrations and the registry that holds them in version order.

use crate::script::is_admissible;
use crate::script::script_is_admissible;
use vstd::prelude::*;

verus! {

/// Each element is smaller than every later one.
pub open spec fn strictly_ascending(versions: Seq<u64>) -> bool {
    forall|i: int, j: int| 0 <= i < j < versions.len() ==> versions[i] < versions[j]
}

/// The versions of a sequence of migrations, in the same order.
pub open spec fn versions_of(migrations: Seq<Migration>) -> Seq<u64> {
    migrations.map_values(|m: Migration| m.version)
}

/// Both scripts of the migration may be handed to the store.
pub open spec fn admissible(migration: Migration) -> bool {
    script_is_admissible(migration.up_script@) && script_is_admissible(migration.down_script@)
}

/// Every migration of the sequence has scripts that may be handed to the
/// store.
pub open spec fn all_admissible(migrations: Seq<Migration>) -> bool {
    forall|i: int| 0 <= i < migrations.len() ==> admissible(#[trigger] migrations[i])
}

/// Which of the two scripts of a migration is meant.
#[derive(Clone, Copy, Debug, PartialEq, Eq, Structural)]
pub enum Direction {
    /// The script that makes the change.
    Forward,
    /// The script that undoes it.
    Reverse,
}

/// One schema change: the script that makes it and the script that undoes
/// it, under the version that orders it among the others.
#[derive(Debug)]
pub struct Migration {
    pub version: u64,
    pub up_script: String,
    pub down_script: String,
}

impl Migration {
    /// A migration of these three parts.
    pub fn new(version: u64, up_script: String, down_script: String) -> (m: Migration)
        ensures
            m == (Migration { version, up_script, down_script }),
    {
        Migration { version, up_script, down_script }
    }

    /// The script that is handed to the store to take the migration in the
    /// given direction.
    pub fn script(&self, direction: Direction) -> (script: &String)
        ensures
            *script == (match direction {
                Direction::Forward => self.up_script,
                Direction::Reverse => self.down_script,
            }),
    {
        match direction {
            Direction::Forward => &self.up_script,
            Direction::Reverse => &self.down_script,
        }
    }
}

/// The migrations that the program knows, in strictly ascending version
/// order. It is built once and never changes.
#[derive(Debug)]
pub struct MigrationRegistry {
    migrations: Vec<Migration>,
}

impl View for MigrationRegistry {
    type V = Seq<Migration>;

    closed spec fn view(&self) -> Seq<Migration> {
        self.migrations@
    }
}

impl MigrationRegistry {
    /// The versions of the registry, in its order.
    pub open spec fn versions(&self) -> Seq<u64> {
        versions_of(self@)
    }

    /// No version occurs twice, a smaller one comes first, and every script
    /// may be handed to the store.
    #[verifier::type_invariant]
    pub open spec fn well_formed(&self) -> bool {
        strictly_ascending(self.versions()) && all_admissible(self@)
    }

    /// Makes a registry of `migrations`, if they are in strictly ascending
    /// version order and none of their scripts holds the name that is
    /// reserved.
    pub fn new(migrations: Vec<Migration>) -> (registry: Option<MigrationRegistry>)
        ensures
            registry is Some <==> strictly_ascending(versions_of(migrations@)) && all_admissible(
                migrations@,
            ),
            registry is Some ==> registry->0@ == migrations@,
    {
        let ghost versions = versions_of(migrations@);
        let mut k: usize = 0;
        while k < migrations.len()
            invariant
                k <= migrations.len(),
                forall|a: int| 0 <= a < k ==> admissible(#[trigger] migrations@[a]),
            decreases migrations.len() - k,
        {
            if !is_admissible(migrations[k].up_script.as_str()) || !is_admissible(
                migrations[k].down_script.as_str(),
            ) {
                assert(!admissible(migrations@[k as int]));
                return None;
            }
            k = k + 1;
        }
        let mut i: usize = 1;
        while i < migrations.len()
            invariant
                1 <= i,
                versions == versions_of(migrations@),
                all_admissible(migrations@),
                forall|a: int, b: int| 0 <= a < b < i && b < versions.len() ==> versions[a] < versions[b],
            decreases migrations.len() - i,
        {
            if migrations[i - 1].version >= migrations[i].version {
                assert(!(versions[i - 1] < versions[i as int]));
                return None;
            }
            assert forall|a: int, b: int| 0 <= a < b < i + 1 && b < versions.len() implies versions[a]
                < versions[b] by {
                if b == i && a < i - 1 {
                    assert(versions[a] < versions[i - 1]);
                }
            }
            i = i + 1;
        }
        Some(MigrationRegistry { migrations })
    }

    /// How many migrations the registry holds.
    pub fn len(&self) -> (n: usize)
        ensures
            n == self@.len(),
    {
        self.migrations.len()
    }

    /// The migration at place `i`, counted from zero in version order.
    pub fn get(&self, i: usize) -> (m: Option<&Migration>)
        ensures
            m == (if i < self@.len() { Some(&self@[i as int]) } else { None }),
            m is Some ==> admissible(*m->0),
    {
        proof {
            use_type_invariant(self);
        }
        if i < self.migrations.len() {
            Some(&self.migrations[i])
        } else {
            None
        }
    }

    /// The migration at place `i`, which the registry has.
    pub(crate) fn at(&self, i: usize) -> (m: &Migration)
        requires
            i < self@.len(),
        ensures
            *m == self@[i as int],
            admissible(*m),
    {
        proof {
            use_type_invariant(self);
        }
        &self.migrations[i]
    }

    /// The migration with this version, if the registry has one.
    pub fn find(&self, version: u64) -> (found: Option<&Migration>)
        ensures
            match found {
                Some(m) => m.version == version && self@.contains(*m) && admissible(*m),
                None => !self.versions().contains(version),
            },
            found is Some <==> self.versions().contains(version),
    {
        proof {
            use_type_invariant(self);
        }
        let mut i: usize = 0;
        while i < self.migrations.len()
            invariant
                i <= self@.len(),
                all_admissible(self@),
                forall|k: int| 0 <= k < i ==> self.versions()[k] != version,
            decreases self.migrations.len() - i,
        {
            if self.migrations[i].version == version {
                assert(self.versions()[i as int] == version);
                return Some(&self.migrations[i]);
            }
            i = i + 1;
        }
        None
    }

    /// The versions of the registry, in its order.
    pub fn version_list(&self) -> (list: Vec<u64>)
        ensures
            list@ == self.versions(),
            strictly_ascending(list@),
    {
        proof {
            use_type_invariant(self);
        }
        let mut list: Vec<u64> = Vec::new();
        let mut i: usize = 0;
        while i < self.migrations.len()
            invariant
                i <= self@.len(),
                list@ == self.versions().take(i as int),
            decreases self.migrations.len() - i,
        {
            list.push(self.migrations[i].version);
            assert(list@ =~= self.versions().take(i + 1));
            i = i + 1;
        }
        assert(list@ =~= self.versions());
        list
    }
}

} // verus!
