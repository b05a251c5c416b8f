use vstd::prelude::*;
use vstd::std_specs::hash::*;
use std::collections::HashMap;
use std::hash::Hash;
use crate::backend::{MapBackend, overlay, stored, visible};
use crate::value::{OwnedOrBorrowed, hit};

verus! {

/// A two-tier store: a local tier that takes every write, over an optional
/// fallback tier that is only ever read.
pub struct ChainedMap<K, V, O: MapBackend<K, V>> {
    data: HashMap<K, V>,
    other: Option<O>,
}

/// Whether `after` is `before` with a copy of the pair `(key, value)` put in.
pub open spec fn promoted<K: Clone, V: Clone>(
    before: Map<K, V>,
    after: Map<K, V>,
    key: K,
    value: V,
) -> bool {
    exists|k: K, v: V|
        #![trigger before.insert(k, v)]
        cloned(key, k) && cloned(value, v) && after == before.insert(k, v)
}

impl<K, V, O: MapBackend<K, V>> ChainedMap<K, V, O> {
    /// The entries of the local tier.
    pub closed spec fn local(&self) -> Map<K, V> {
        self.data@
    }

    /// The fallback tier, if one is attached.
    pub closed spec fn other(&self) -> Option<O> {
        self.other
    }

    /// Whether a fallback is attached.
    pub open spec fn is_chained(&self) -> bool {
        self.other() is Some
    }

    /// All that a lookup on the fallback tier can reach; nothing where none
    /// is attached.
    pub open spec fn fallback(&self) -> Map<K, V> {
        match self.other() {
            Some(o) => visible(&o),
            None => Map::empty(),
        }
    }

    /// What an ordinary lookup of `key` yields: the local entry, else the
    /// fallback's.
    pub open spec fn lookup(&self, key: K) -> Option<V> {
        stored(overlay(self.local(), self.fallback()), key)
    }

    /// What a lookup of `key` in the local tier alone yields.
    pub open spec fn lookup_root(&self, key: K) -> Option<V> {
        stored(self.local(), key)
    }

    /// What a lookup of `key` in the fallback tier alone yields.
    pub open spec fn lookup_other(&self, key: K) -> Option<V> {
        stored(self.fallback(), key)
    }

    /// Whether a hit on `key` in the fallback tier is lent rather than copied.
    pub open spec fn other_lends(&self, key: K) -> bool {
        match self.other() {
            Some(o) => o.lends(key),
            None => false,
        }
    }

    /// A store with an empty local tier and no fallback.
    pub fn new() -> (store: Self)
        ensures
            store.local() == Map::<K, V>::empty(),
            !store.is_chained(),
    {
        ChainedMap { data: HashMap::new(), other: None }
    }

    /// Attaches `other` as the fallback, in place of any earlier one.
    pub fn chain(&mut self, other: O)
        ensures
            final(self).other() == Some(other),
            final(self).local() == old(self).local(),
    {
        self.other = Some(other)
    }

    /// Reads the fallback tier alone.
    pub fn get_from_other<'a>(&'a self, key: &K) -> (found: Option<OwnedOrBorrowed<'a, V>>)
        requires
            O::key_laws(),
        ensures
            hit(found) == self.lookup_other(*key),
            found matches Some(w) ==> w.is_borrowed() == self.other_lends(*key),
    {
        match self.other.as_ref() {
            Some(other) => other.get(key),
            None => None,
        }
    }
}

impl<K, V, O> ChainedMap<K, V, O> where K: Eq + Hash, O: MapBackend<K, V> {
    /// Reads the local tier alone.
    pub fn get_from_root<'a>(&'a self, key: &K) -> (found: Option<OwnedOrBorrowed<'a, V>>)
        requires
            obeys_key_model::<K>(),
        ensures
            hit(found) == self.lookup_root(*key),
            found matches Some(w) ==> w.is_borrowed(),
    {
        broadcast use group_hash_axioms;
        match self.data.get(key) {
            Some(v) => Some(OwnedOrBorrowed::Borrowed(v)),
            None => None,
        }
    }
}

impl<K, V, O> ChainedMap<K, V, O> where K: Eq + Hash + Clone, V: Clone, O: MapBackend<K, V> {
    /// How a store stands after `get_propagate(key)` that returned `got`.
    ///
    /// With a fallback attached the read goes to the fallback alone, and a
    /// hit is copied into the local tier over whatever stood there. Without
    /// one it is a read of the local tier. The fallback is never changed.
    pub open spec fn propagated(before: Self, after: Self, key: K, got: Option<V>) -> bool {
        &&& after.other() == before.other()
        &&& if before.is_chained() {
            &&& got == before.lookup_other(key)
            &&& match got {
                Some(v) => promoted(before.local(), after.local(), key, v),
                None => after.local() == before.local(),
            }
        } else {
            &&& got == before.lookup_root(key)
            &&& after.local() == before.local()
        }
    }

    /// Reads `key` and, where a fallback is attached, copies what it found
    /// there into the local tier.
    ///
    /// The read of the fallback and the write to the local tier are two
    /// steps: a fallback that other threads can change is read once, and the
    /// local tier then holds what that one read found.
    pub fn get_propagate<'a>(&'a mut self, key: &K) -> (found: Option<OwnedOrBorrowed<'a, V>>)
        requires
            obeys_key_model::<K>(),
            O::key_laws(),
        ensures
            Self::propagated(*old(self), *final(self), *key, hit(found)),
            found matches Some(w) ==> w.is_borrowed() == (if old(self).is_chained() {
                old(self).other_lends(*key)
            } else {
                true
            }),
    {
        broadcast use group_hash_axioms;
        let is_nested = self.other.is_some();
        if is_nested {
            let other = self.other.as_ref().unwrap();
            match other.get(key) {
                Some(value) => {
                    let k = key.clone();
                    let v = value.as_owned();
                    let ghost before = self.data@;
                    self.data.insert(k, v);
                    proof {
                        assert(self.data@ == before.insert(k, v));
                        assert(promoted(before, self.data@, *key, value.value()));
                    }
                    Some(value)
                },
                None => None,
            }
        } else {
            match self.data.get(key) {
                Some(value) => Some(OwnedOrBorrowed::Borrowed(value)),
                None => None,
            }
        }
    }
}

impl<K: Eq + Hash, V, O: MapBackend<K, V>> MapBackend<K, V> for ChainedMap<K, V, O> {
    open spec fn own(&self) -> Map<K, V> {
        self.local()
    }

    open spec fn under(&self) -> Map<K, V> {
        self.fallback()
    }

    open spec fn key_laws() -> bool {
        obeys_key_model::<K>() && O::key_laws()
    }

    open spec fn remove_reports() -> bool {
        true
    }

    open spec fn lends(&self, key: K) -> bool {
        self.local().contains_key(key) || self.other_lends(key)
    }

    /// Reads the local tier and, where it has no entry, the fallback.
    fn get<'a>(&'a self, key: &K) -> (found: Option<OwnedOrBorrowed<'a, V>>) {
        broadcast use group_hash_axioms;
        match self.data.get(key) {
            Some(value) => Some(OwnedOrBorrowed::Borrowed(value)),
            None => match &self.other {
                Some(other) => other.get(key),
                None => None,
            },
        }
    }

    /// Writes to the local tier alone.
    fn insert(&mut self, k: K, v: V) -> (previous: Option<V>)
        ensures
            final(self).other() == old(self).other(),
    {
        broadcast use group_hash_axioms;
        self.data.insert(k, v)
    }

    /// Deletes from the local tier alone.
    fn remove(&mut self, key: &K) -> (previous: Option<V>)
        ensures
            final(self).other() == old(self).other(),
    {
        broadcast use group_hash_axioms;
        self.data.remove(key)
    }
}

} // verus!
