use vstd::prelude::*;
use vstd::std_specs::hash::*;
use vstd::std_specs::btree::*;
use vstd::laws_cmp::obeys_cmp;
use vstd::laws_eq::obeys_concrete_eq;
use std::collections::{BTreeMap, HashMap};
use std::hash::Hash;
use crate::backend::{MapBackend, overlay};
use crate::value::OwnedOrBorrowed;
use crate::assoc_list::{
    find_first, insert_pair, lemma_without_key_entries, list_entries, take_key,
};

verus! {

/// A hash map: reads lend from the map.
impl<K: Eq + Hash, V> MapBackend<K, V> for HashMap<K, V> {
    open spec fn own(&self) -> Map<K, V> {
        self@
    }

    open spec fn under(&self) -> Map<K, V> {
        Map::empty()
    }

    open spec fn key_laws() -> bool {
        obeys_key_model::<K>()
    }

    open spec fn remove_reports() -> bool {
        true
    }

    open spec fn lends(&self, key: K) -> bool {
        true
    }

    fn get<'a>(&'a self, key: &K) -> (found: Option<OwnedOrBorrowed<'a, V>>) {
        broadcast use group_hash_axioms;
        proof {
            assert(overlay(self.own(), self.under()) =~= self@);
        }
        match HashMap::get(self, key) {
            Some(v) => Some(OwnedOrBorrowed::Borrowed(v)),
            None => None,
        }
    }

    fn insert(&mut self, k: K, v: V) -> (previous: Option<V>) {
        broadcast use group_hash_axioms;
        HashMap::insert(self, k, v)
    }

    fn remove(&mut self, key: &K) -> (previous: Option<V>) {
        broadcast use group_hash_axioms;
        HashMap::remove(self, key)
    }
}

/// An ordered map: reads lend from the map.
impl<K: Ord, V> MapBackend<K, V> for BTreeMap<K, V> {
    open spec fn own(&self) -> Map<K, V> {
        self@
    }

    open spec fn under(&self) -> Map<K, V> {
        Map::empty()
    }

    open spec fn key_laws() -> bool {
        obeys_cmp::<K>()
    }

    open spec fn remove_reports() -> bool {
        true
    }

    open spec fn lends(&self, key: K) -> bool {
        true
    }

    fn get<'a>(&'a self, key: &K) -> (found: Option<OwnedOrBorrowed<'a, V>>) {
        broadcast use group_btree_axioms;
        proof {
            assert(overlay(self.own(), self.under()) =~= self@);
        }
        match BTreeMap::get(self, key) {
            Some(v) => Some(OwnedOrBorrowed::Borrowed(v)),
            None => None,
        }
    }

    fn insert(&mut self, k: K, v: V) -> (previous: Option<V>) {
        broadcast use group_btree_axioms;
        BTreeMap::insert(self, k, v)
    }

    fn remove(&mut self, key: &K) -> (previous: Option<V>) {
        broadcast use group_btree_axioms;
        BTreeMap::remove(self, key)
    }
}

/// A list of pairs, searched from the front: for small collections.
///
/// A key stands for the value of its first pair. `insert` takes the pairs of
/// the key out and appends the new pair at the end; `remove` deletes but
/// never reports what it deleted.
impl<K: PartialEq, V> MapBackend<K, V> for Vec<(K, V)> {
    open spec fn own(&self) -> Map<K, V> {
        list_entries(self@)
    }

    open spec fn under(&self) -> Map<K, V> {
        Map::empty()
    }

    open spec fn key_laws() -> bool {
        obeys_concrete_eq::<K>()
    }

    open spec fn remove_reports() -> bool {
        false
    }

    open spec fn lends(&self, key: K) -> bool {
        true
    }

    fn get<'a>(&'a self, key: &K) -> (found: Option<OwnedOrBorrowed<'a, V>>) {
        proof {
            assert(overlay(self.own(), self.under()) =~= list_entries(self@));
        }
        match find_first(self, key) {
            Some(v) => Some(OwnedOrBorrowed::Borrowed(v)),
            None => None,
        }
    }

    fn insert(&mut self, k: K, v: V) -> (previous: Option<V>) {
        insert_pair(self, k, v)
    }

    fn remove(&mut self, key: &K) -> (previous: Option<V>) {
        let _ = take_key(self, key);
        proof {
            lemma_without_key_entries(old(self)@, *key);
        }
        None
    }
}

} // verus!
