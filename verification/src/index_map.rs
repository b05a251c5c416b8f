use vstd::prelude::*;
use indexmap::IndexMap;
use crate::backend::{MapBackend, overlay, stored};
use crate::value::OwnedOrBorrowed;

verus! {

/// `indexmap::IndexMap`, carried through as a value that the verifier
/// cannot look into.
#[verifier::external_type_specification]
#[verifier::external_body]
#[verifier::reject_recursive_types(K)]
#[verifier::reject_recursive_types(V)]
#[verifier::reject_recursive_types(S)]
pub struct ExIndexMap<K, V, S>(indexmap::IndexMap<K, V, S>);

/// The entries that an insertion-ordered hash map holds: each key with its
/// value, whatever their order.
pub uninterp spec fn index_map_entries(m: IndexMap<u64, u64>) -> Map<u64, u64>;

/// `IndexMap::get`. Claimed: it yields a reference to the value stored for
/// the key if the map holds the key, and nothing otherwise.
#[verifier::external_body]
fn index_map_get<'a>(m: &'a IndexMap<u64, u64>, key: &u64) -> (found: Option<&'a u64>)
    ensures
        match found {
            Some(v) => stored(index_map_entries(*m), *key) == Some(*v),
            None => stored(index_map_entries(*m), *key) is None,
        },
{
    IndexMap::get(m, key)
}

/// `IndexMap::insert`. Claimed: afterwards the map holds the pair, in place
/// of any entry of the same key, and all its other entries; the value that
/// was replaced is returned.
#[verifier::external_body]
fn index_map_insert(m: &mut IndexMap<u64, u64>, key: u64, value: u64) -> (previous: Option<u64>)
    ensures
        index_map_entries(*final(m)) == index_map_entries(*old(m)).insert(key, value),
        previous == stored(index_map_entries(*old(m)), key),
{
    IndexMap::insert(m, key, value)
}

/// `IndexMap::swap_remove`. Claimed: afterwards the map holds no entry for
/// the key and all its other entries; the value that was removed is returned.
#[verifier::external_body]
fn index_map_remove(m: &mut IndexMap<u64, u64>, key: &u64) -> (previous: Option<u64>)
    ensures
        index_map_entries(*final(m)) == index_map_entries(*old(m)).remove(*key),
        previous == stored(index_map_entries(*old(m)), *key),
{
    IndexMap::swap_remove(m, key)
}

/// An insertion-ordered hash map: reads lend from the map.
impl MapBackend<u64, u64> for IndexMap<u64, u64> {
    open spec fn own(&self) -> Map<u64, u64> {
        index_map_entries(*self)
    }

    open spec fn under(&self) -> Map<u64, u64> {
        Map::empty()
    }

    open spec fn key_laws() -> bool {
        true
    }

    open spec fn remove_reports() -> bool {
        true
    }

    open spec fn lends(&self, key: u64) -> bool {
        true
    }

    fn get<'a>(&'a self, key: &u64) -> (found: Option<OwnedOrBorrowed<'a, u64>>) {
        proof {
            assert(overlay(self.own(), self.under()) =~= self.own());
        }
        match index_map_get(self, key) {
            Some(v) => Some(OwnedOrBorrowed::Borrowed(v)),
            None => None,
        }
    }

    fn insert(&mut self, k: u64, v: u64) -> (previous: Option<u64>) {
        index_map_insert(self, k, v)
    }

    fn remove(&mut self, key: &u64) -> (previous: Option<u64>) {
        index_map_remove(self, key)
    }
}

} // verus!
