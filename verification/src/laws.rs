//! What holds of the history under the operations of the runner, whatever
//! the store answers.

use crate::history::ascending_is_unique;
use crate::migration::strictly_ascending;
use crate::runner::below;
use crate::runner::earlier_is_below;
use crate::runner::forward_complete;
use crate::runner::forward_stopped;
use crate::runner::is_prefix;
use crate::runner::nothing_pending_means_all_recorded;
use crate::runner::pending_versions;
use crate::runner::reverted;
use vstd::prelude::*;

verus! {

/// On a fresh store, whose history is empty, a forward pass that runs to its
/// end leaves exactly the versions of the registry in the history, in
/// registry order.
pub proof fn fresh_store_reaches_registry(registry: Seq<u64>, after: Seq<u64>)
    requires
        strictly_ascending(registry),
        strictly_ascending(after),
        forward_complete(registry, Seq::empty(), after),
    ensures
        after == registry,
{
    assert(Seq::<u64>::empty().to_set() =~= Set::<u64>::empty());
    assert(after.to_set() =~= registry.to_set());
    ascending_is_unique(after, registry);
}

/// A forward pass is idempotent. After one that ran to its end nothing is
/// pending, so that a second one runs no script and cannot fail, and the
/// second one leaves the history as the first one left it.
pub proof fn forward_is_idempotent(
    registry: Seq<u64>,
    before: Seq<u64>,
    once: Seq<u64>,
    twice: Seq<u64>,
)
    requires
        strictly_ascending(once),
        strictly_ascending(twice),
        forward_complete(registry, before, once),
        forward_complete(registry, once, twice),
    ensures
        pending_versions(registry, once).len() == 0,
        twice == once,
{
    nothing_pending_means_all_recorded(registry, once);
    assert forall|v: u64| registry.contains(v) implies once.contains(v) by {
        assert(registry.to_set().contains(v));
        assert(once.to_set().contains(v));
    }
    assert(twice.to_set() =~= once.to_set());
    ascending_is_unique(twice, once);
}

/// The round trip: a forward pass that ran to its end, then reverting until
/// nothing is left, which succeeds only if the registry has a migration for
/// every recorded version, then a second forward pass from the empty
/// history. The second pass leaves the history as the first one left it.
pub proof fn round_trip_restores_history(
    registry: Seq<u64>,
    before: Seq<u64>,
    first: Seq<u64>,
    second: Seq<u64>,
)
    requires
        strictly_ascending(first),
        strictly_ascending(second),
        forward_complete(registry, before, first),
        forall|k: int| 0 <= k < first.len() ==> registry.contains(#[trigger] first[k]),
        forward_complete(registry, Seq::empty(), second),
    ensures
        second == first,
{
    assert(Seq::<u64>::empty().to_set() =~= Set::<u64>::empty());
    assert forall|v: u64| first.to_set().contains(v) <==> second.to_set().contains(v) by {
        if first.contains(v) {
            let k = choose|k: int| 0 <= k < first.len() && first[k] == v;
            assert(registry.contains(first[k]));
            assert(registry.to_set().contains(v));
        }
        if second.to_set().contains(v) {
            assert(registry.to_set().contains(v));
        }
    }
    assert(first.to_set() =~= second.to_set());
    ascending_is_unique(second, first);
}

/// A history that is the beginning of the registry is the whole registry
/// after a forward pass that ran to its end.
pub proof fn forward_completes_prefix(registry: Seq<u64>, before: Seq<u64>, after: Seq<u64>)
    requires
        strictly_ascending(registry),
        strictly_ascending(after),
        is_prefix(before, registry),
        forward_complete(registry, before, after),
    ensures
        after == registry,
        is_prefix(after, registry),
{
    assert forall|v: u64| before.to_set().contains(v) implies registry.to_set().contains(v) by {
        let k = choose|k: int| 0 <= k < before.len() && before[k] == v;
        assert(registry[k] == v);
    }
    assert(after.to_set() =~= registry.to_set());
    ascending_is_unique(after, registry);
    assert(registry.take(registry.len() as int) =~= registry);
}

/// A history that is the beginning of the registry is still one after a
/// forward pass that stopped at a failing script: it then ends just before
/// the version that failed.
pub proof fn stopped_forward_keeps_prefix(
    registry: Seq<u64>,
    before: Seq<u64>,
    after: Seq<u64>,
    failed: u64,
)
    requires
        strictly_ascending(registry),
        strictly_ascending(after),
        is_prefix(before, registry),
        forward_stopped(registry, before, after, failed),
    ensures
        is_prefix(after, registry),
        after.len() < registry.len(),
        registry[after.len() as int] == failed,
        before.len() <= after.len(),
{
    let k = choose|k: int| 0 <= k < registry.len() && registry[k] == failed;
    let reached = registry.take(k);
    earlier_is_below(registry, k);
    if before.len() > k {
        assert(before[k] == failed);
    }
    assert forall|v: u64| before.to_set().contains(v) implies below(registry, failed).contains(
        v,
    ) by {
        let j = choose|j: int| 0 <= j < before.len() && before[j] == v;
        assert(registry[j] == v);
    }
    assert(after.to_set() =~= reached.to_set());
    ascending_is_unique(after, reached);
}

/// A history that is the beginning of the registry is still one after its
/// latest migration was reverted.
pub proof fn revert_keeps_prefix(
    registry: Seq<u64>,
    before: Seq<u64>,
    after: Seq<u64>,
    version: u64,
)
    requires
        is_prefix(before, registry),
        reverted(before, after, version),
    ensures
        is_prefix(after, registry),
        after.len() + 1 == before.len(),
        registry[after.len() as int] == version,
{
    assert(after =~= registry.take(after.len() as int));
    assert(before[before.len() - 1] == registry[before.len() - 1]);
}

} // verus!
