use vstd::prelude::*;
use std::collections::{BTreeMap, HashMap};
use std::hash::Hash;
use crate::assoc_list::{first_value, lemma_without_key_entries, list_entries, without_key};
use crate::backend::{MapBackend, stored, visible};
use crate::chain_map::ChainedMap;

verus! {

/// Whether a copy of a `T` is always equal to what it was copied from.
pub open spec fn clone_is_exact<T: Clone>() -> bool {
    forall|a: T, b: T| #[trigger] cloned(a, b) ==> a == b
}

/// Shadowing: where both tiers hold a key, an ordinary lookup and a lookup
/// in the local tier yield the local value, and a lookup in the fallback
/// yields the fallback's.
pub proof fn lemma_local_shadows_fallback<K, V, O: MapBackend<K, V>>(
    store: ChainedMap<K, V, O>,
    key: K,
    a: V,
    b: V,
)
    requires
        store.is_chained(),
        store.local().contains_key(key) && store.local()[key] == a,
        store.fallback().contains_key(key) && store.fallback()[key] == b,
    ensures
        store.lookup(key) == Some(a),
        store.lookup_root(key) == Some(a),
        store.lookup_other(key) == Some(b),
{
}

/// A key that only the fallback holds is reached by an ordinary lookup, and
/// not by a lookup in the local tier.
pub proof fn lemma_fallback_only_is_reachable<K, V, O: MapBackend<K, V>>(
    store: ChainedMap<K, V, O>,
    key: K,
    v: V,
)
    requires
        store.is_chained(),
        !store.local().contains_key(key),
        store.fallback().contains_key(key) && store.fallback()[key] == v,
    ensures
        store.lookup(key) == Some(v),
        store.lookup_root(key) is None,
{
}

/// A propagating read of a key that the fallback holds yields the fallback's
/// value and leaves it in the local tier, whatever the local tier held for
/// the key before; the fallback still holds it.
pub proof fn lemma_propagation_fills_local<K, V, O>(
    before: ChainedMap<K, V, O>,
    after: ChainedMap<K, V, O>,
    key: K,
    got: Option<V>,
    v: V,
) where K: Eq + Hash + Clone, V: Clone, O: MapBackend<K, V>
    requires
        clone_is_exact::<K>(),
        clone_is_exact::<V>(),
        before.is_chained(),
        before.fallback().contains_key(key) && before.fallback()[key] == v,
        ChainedMap::propagated(before, after, key, got),
    ensures
        got == Some(v),
        after.lookup_root(key) == Some(v),
        after.lookup_other(key) == Some(v),
        after.lookup(key) == Some(v),
        forall|other: K| other != key ==> after.lookup_root(other) == before.lookup_root(other),
{
}

/// Without a fallback a propagating read is a read of the local tier, and
/// writes nothing.
pub proof fn lemma_rootless_propagation_reads_local<K, V, O>(
    before: ChainedMap<K, V, O>,
    after: ChainedMap<K, V, O>,
    key: K,
    got: Option<V>,
) where K: Eq + Hash + Clone, V: Clone, O: MapBackend<K, V>
    requires
        !before.is_chained(),
        ChainedMap::propagated(before, after, key, got),
    ensures
        got == before.lookup_root(key),
        after.local() == before.local(),
        !after.is_chained(),
{
}

/// A propagating read that misses in the fallback yields nothing and leaves
/// the local tier as it was, shadowing entry included.
pub proof fn lemma_propagation_miss_keeps_local<K, V, O>(
    before: ChainedMap<K, V, O>,
    after: ChainedMap<K, V, O>,
    key: K,
    got: Option<V>,
) where K: Eq + Hash + Clone, V: Clone, O: MapBackend<K, V>
    requires
        before.is_chained(),
        !before.fallback().contains_key(key),
        ChainedMap::propagated(before, after, key, got),
    ensures
        got is None,
        after.local() == before.local(),
{
}

/// On any backend, a lookup of a key after its insertion yields the value
/// that was inserted.
pub proof fn lemma_get_after_insert<K, V, B: MapBackend<K, V>>(before: B, after: B, key: K, v: V)
    requires
        after.own() == before.own().insert(key, v),
    ensures
        stored(visible(&after), key) == Some(v),
{
}

/// On a backend with nothing beneath its own entries, a lookup of a key
/// after its removal yields nothing.
pub proof fn lemma_get_after_remove<K, V, B: MapBackend<K, V>>(before: B, after: B, key: K)
    requires
        after.own() == before.own().remove(key),
        after.under() == Map::<K, V>::empty(),
    ensures
        stored(visible(&after), key) is None,
{
}

/// A hash map yields nothing for a key that was removed from it.
pub proof fn lemma_hash_map_get_after_remove<K: Eq + Hash, V>(
    before: HashMap<K, V>,
    after: HashMap<K, V>,
    key: K,
)
    requires
        after.own() == before.own().remove(key),
    ensures
        stored(visible(&after), key) is None,
{
}

/// An ordered map yields nothing for a key that was removed from it.
pub proof fn lemma_ordered_map_get_after_remove<K: Ord, V>(
    before: BTreeMap<K, V>,
    after: BTreeMap<K, V>,
    key: K,
)
    requires
        after.own() == before.own().remove(key),
    ensures
        stored(visible(&after), key) is None,
{
}

/// A list of pairs yields nothing for a key whose pairs were taken out,
/// and what it yields for every other key is unchanged.
pub proof fn lemma_list_get_after_remove<K: PartialEq, V>(pairs: Vec<(K, V)>, key: K)
    ensures
        first_value(without_key(pairs@, key), key) is None,
        list_entries(without_key(pairs@, key)) == pairs.own().remove(key),
{
    lemma_without_key_entries(pairs@, key);
    assert(!list_entries(pairs@).remove(key).contains_key(key));
}

/// On a layered store, removing a key from the local tier uncovers what the
/// fallback holds for it.
pub proof fn lemma_remove_uncovers_fallback<K: Eq + Hash, V, O: MapBackend<K, V>>(
    before: ChainedMap<K, V, O>,
    after: ChainedMap<K, V, O>,
    key: K,
)
    requires
        after.local() == before.local().remove(key),
        after.other() == before.other(),
    ensures
        after.lookup(key) == before.lookup_other(key),
        after.lookup_other(key) == before.lookup_other(key),
{
}

} // verus!
