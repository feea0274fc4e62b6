//! The registry of transfers that can be cancelled: from a transfer's identifier
//! to the process that runs it.
//!
//! A registry is a value that its owner shares as it sees fit; the functions here
//! take it by reference and each does one step on it, so an owner that guards it
//! with a lock holds the lock for one step at a time. Sending the signal is the
//! owner's part: [`cancel_transfer`] hands back the process to signal.

use vstd::hash_map::StringHashMap;
use vstd::prelude::*;

verus! {

/// The processes of the transfers that are running, by transfer identifier.
pub struct ProcessRegistry {
    entries: StringHashMap<u32>,
}

impl View for ProcessRegistry {
    type V = Map<Seq<char>, u32>;

    closed spec fn view(&self) -> Map<Seq<char>, u32> {
        self.entries@
    }
}

impl ProcessRegistry {
    /// A registry without entries.
    pub fn new() -> (registry: ProcessRegistry)
        ensures
            registry@ == Map::<Seq<char>, u32>::empty(),
    {
        ProcessRegistry { entries: StringHashMap::new() }
    }

    /// The process registered under `id`, if there is one.
    pub fn process_of(&self, id: &str) -> (pid: Option<u32>)
        ensures
            pid == lookup(self@, id@),
    {
        match self.entries.get(id) {
            Some(p) => Some(*p),
            None => None,
        }
    }

    /// Whether no transfer is registered.
    pub fn is_empty(&self) -> (empty: bool)
        ensures
            empty == (self@ == Map::<Seq<char>, u32>::empty()),
    {
        let empty = self.entries.is_empty();
        proof {
            if empty {
                assert(self@ =~= Map::<Seq<char>, u32>::empty());
            }
        }
        empty
    }
}

/// The process that `entries` holds under `id`, if any.
pub open spec fn lookup(entries: Map<Seq<char>, u32>, id: Seq<char>) -> Option<u32> {
    if entries.contains_key(id) {
        Some(entries[id])
    } else {
        None
    }
}

/// A cancellation of `id` on `entries`: the entries that are left, and the process
/// to signal. An identifier that is not registered leaves the entries as they
/// are and gives no process.
pub open spec fn cancelled(entries: Map<Seq<char>, u32>, id: Seq<char>) -> (
    Map<Seq<char>, u32>,
    Option<u32>,
) {
    if entries.contains_key(id) {
        (entries.remove(id), Some(entries[id]))
    } else {
        (entries, None)
    }
}

/// Registers the process `pid` under `id`, in place of any earlier entry of `id`.
pub fn register_process(registry: &mut ProcessRegistry, id: &str, pid: u32)
    ensures
        final(registry)@ == old(registry)@.insert(id@, pid),
{
    registry.entries.insert(id.to_owned(), pid);
}

/// Removes the entry of `id`, if there is one.
pub fn unregister_process(registry: &mut ProcessRegistry, id: &str)
    ensures
        final(registry)@ == old(registry)@.remove(id@),
{
    registry.entries.remove(id);
}

/// Cancels the transfer `id`: where it is registered, its entry is removed and
/// its process is returned, for the caller to signal; where it is not, nothing
/// changes and nothing is returned.
pub fn cancel_transfer(registry: &mut ProcessRegistry, id: &str) -> (pid: Option<u32>)
    ensures
        (final(registry)@, pid) == cancelled(old(registry)@, id@),
{
    let found = registry.process_of(id);
    match found {
        Some(p) => {
            registry.entries.remove(id);
            Some(p)
        },
        None => {
            assert(registry@ =~= old(registry)@);
            None
        },
    }
}

/// The entries after the processes `pids` are registered under `ids`, one after
/// the other.
pub open spec fn registered_all(
    entries: Map<Seq<char>, u32>,
    ids: Seq<Seq<char>>,
    pids: Seq<u32>,
) -> Map<Seq<char>, u32>
    recommends
        ids.len() == pids.len(),
    decreases ids.len(),
{
    if ids.len() == 0 {
        entries
    } else {
        registered_all(entries, ids.drop_last(), pids.drop_last()).insert(ids.last(), pids.last())
    }
}

/// The entries that are left after each of `ids` is cancelled, one after the other.
pub open spec fn entries_after(entries: Map<Seq<char>, u32>, ids: Seq<Seq<char>>) -> Map<
    Seq<char>,
    u32,
>
    decreases ids.len(),
{
    if ids.len() == 0 {
        entries
    } else {
        cancelled(entries_after(entries, ids.drop_last()), ids.last()).0
    }
}

/// Whether the `k`-th of the cancellations of `ids`, one after the other, finds
/// its transfer registered.
pub open spec fn found_at(entries: Map<Seq<char>, u32>, ids: Seq<Seq<char>>, k: int) -> bool
    recommends
        0 <= k < ids.len(),
{
    cancelled(entries_after(entries, ids.take(k)), ids[k]).1.is_some()
}

/// Registering under identifiers of which no two are equal gives one entry for
/// each of them, and no other.
pub proof fn lemma_registered_all_domain(ids: Seq<Seq<char>>, pids: Seq<u32>)
    requires
        ids.len() == pids.len(),
    ensures
        forall|id: Seq<char>|
            #![trigger registered_all(Map::empty(), ids, pids).contains_key(id)]
            #![trigger ids.contains(id)]
            registered_all(Map::empty(), ids, pids).contains_key(id) <==> ids.contains(id),
        forall|k: int|
            0 <= k < ids.len() && ids.no_duplicates() ==> #[trigger] registered_all(
                Map::empty(),
                ids,
                pids,
            )[ids[k]] == pids[k],
    decreases ids.len(),
{
    if ids.len() > 0 {
        let front = ids.drop_last();
        lemma_registered_all_domain(front, pids.drop_last());
        let before = registered_all(Map::empty(), front, pids.drop_last());
        let after = registered_all(Map::empty(), ids, pids);
        assert(after == before.insert(ids.last(), pids.last()));
        assert forall|id: Seq<char>| after.contains_key(id) <==> ids.contains(id) by {
            assert(before.contains_key(id) <==> front.contains(id));
            if ids.contains(id) {
                let j = choose|j: int| 0 <= j < ids.len() && ids[j] == id;
                if j < ids.len() - 1 {
                    assert(front[j] == id);
                    assert(front.contains(id));
                }
            }
            if front.contains(id) {
                let j = choose|j: int| 0 <= j < front.len() && front[j] == id;
                assert(ids[j] == id);
            }
            if id == ids.last() {
                assert(ids[ids.len() - 1] == id);
            }
        }
        assert forall|k: int| 0 <= k < ids.len() && ids.no_duplicates() implies after[ids[k]]
            == pids[k] by {
            if k < ids.len() - 1 {
                assert(front[k] == ids[k]);
                assert(ids[k] != ids.last());
                assert forall|i: int, j: int|
                    0 <= i < front.len() && 0 <= j < front.len() && i != j implies front[i]
                    != front[j] by {
                    assert(front[i] == ids[i] && front[j] == ids[j]);
                }
                assert(front.no_duplicates());
                assert(before[front[k]] == pids.drop_last()[k]);
            }
        }
    }
}

/// Cancelling identifiers of which no two are equal, all of them registered,
/// finds each of them and leaves exactly the entries of the others.
pub proof fn lemma_cancel_each_once(entries: Map<Seq<char>, u32>, ids: Seq<Seq<char>>)
    requires
        ids.no_duplicates(),
        forall|k: int| 0 <= k < ids.len() ==> entries.contains_key(#[trigger] ids[k]),
    ensures
        forall|k: int| 0 <= k < ids.len() ==> #[trigger] found_at(entries, ids, k),
        forall|id: Seq<char>|
            #[trigger] entries_after(entries, ids).contains_key(id) <==> (entries.contains_key(id)
                && !ids.contains(id)),
        forall|id: Seq<char>|
            #[trigger] entries_after(entries, ids).contains_key(id) ==> entries_after(
                entries,
                ids,
            )[id] == entries[id],
    decreases ids.len(),
{
    if ids.len() > 0 {
        let front = ids.drop_last();
        assert forall|i: int, j: int|
            0 <= i < front.len() && 0 <= j < front.len() && i != j implies front[i]
            != front[j] by {
            assert(front[i] == ids[i] && front[j] == ids[j]);
        }
        assert forall|k: int| 0 <= k < front.len() implies entries.contains_key(
            #[trigger] front[k],
        ) by {
            assert(front[k] == ids[k]);
        }
        lemma_cancel_each_once(entries, front);
        let before = entries_after(entries, front);
        let after = entries_after(entries, ids);
        let last = ids.last();
        assert(!front.contains(last)) by {
            if front.contains(last) {
                let j = choose|j: int| 0 <= j < front.len() && front[j] == last;
                assert(ids[j] == ids[ids.len() - 1]);
            }
        }
        assert(entries.contains_key(ids[ids.len() - 1]));
        assert(before.contains_key(last));
        assert(after == before.remove(last));
        assert forall|k: int| 0 <= k < ids.len() implies #[trigger] found_at(entries, ids, k) by {
            if k < ids.len() - 1 {
                assert(ids.take(k) =~= front.take(k));
                assert(ids[k] == front[k]);
                assert(found_at(entries, front, k));
            } else {
                assert(ids.take(k) =~= front);
            }
        }
        assert forall|id: Seq<char>| #[trigger]
            after.contains_key(id) <==> (entries.contains_key(id) && !ids.contains(id)) by {
            assert(after.contains_key(id) <==> (before.contains_key(id) && id != last));
            assert(before.contains_key(id) <==> (entries.contains_key(id) && !front.contains(id)));
            if ids.contains(id) {
                let j = choose|j: int| 0 <= j < ids.len() && ids[j] == id;
                if j < ids.len() - 1 {
                    assert(front[j] == id);
                    assert(front.contains(id));
                }
            }
            if front.contains(id) {
                let j = choose|j: int| 0 <= j < front.len() && front[j] == id;
                assert(ids[j] == id);
            }
            if id == last {
                assert(ids[ids.len() - 1] == id);
            }
        }
    } else {
        assert forall|id: Seq<char>| !ids.contains(id) by {
            if ids.contains(id) {
                let j = choose|j: int| 0 <= j < ids.len() && ids[j] == id;
            }
        }
    }
}

/// Registering processes under identifiers of which no two are equal, in an empty
/// registry, and then cancelling each of these identifiers once, in any order,
/// finds every one of them and leaves the registry empty. Cancelling an
/// identifier that is not registered finds nothing and changes nothing.
pub proof fn lemma_register_then_cancel_all(
    ids: Seq<Seq<char>>,
    pids: Seq<u32>,
    order: Seq<Seq<char>>,
    other: Seq<char>,
)
    requires
        ids.len() == pids.len(),
        ids.no_duplicates(),
        order.no_duplicates(),
        forall|id: Seq<char>| ids.contains(id) <==> order.contains(id),
        !ids.contains(other),
    ensures
        forall|k: int|
            0 <= k < order.len() ==> #[trigger] found_at(
                registered_all(Map::empty(), ids, pids),
                order,
                k,
            ),
        entries_after(registered_all(Map::empty(), ids, pids), order) == Map::<
            Seq<char>,
            u32,
        >::empty(),
        cancelled(registered_all(Map::empty(), ids, pids), other) == (
            registered_all(Map::empty(), ids, pids),
            None::<u32>,
        ),
{
    let full = registered_all(Map::empty(), ids, pids);
    lemma_registered_all_domain(ids, pids);
    assert forall|k: int| 0 <= k < order.len() implies full.contains_key(#[trigger] order[k]) by {
        assert(order.contains(order[k]));
    }
    lemma_cancel_each_once(full, order);
    let rest = entries_after(full, order);
    assert forall|id: Seq<char>| !rest.contains_key(id) by {
        if rest.contains_key(id) {
            assert(full.contains_key(id) && !order.contains(id));
            assert(ids.contains(id));
        }
    }
    assert(rest =~= Map::<Seq<char>, u32>::empty());
}

} // verus!
