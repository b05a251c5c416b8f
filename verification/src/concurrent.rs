use vstd::prelude::*;
use dashmap::DashMap;
use crate::backend::{MapBackend, overlay, stored};
use crate::value::OwnedOrBorrowed;

verus! {

/// `dashmap::DashMap`, carried through as a value that the verifier cannot
/// look into.
#[verifier::external_type_specification]
#[verifier::external_body]
#[verifier::reject_recursive_types(K)]
#[verifier::reject_recursive_types(V)]
#[verifier::reject_recursive_types(S)]
pub struct ExDashMap<K, V, S>(dashmap::DashMap<K, V, S>);

/// The entries that a concurrent hash map holds: each key with its value.
pub uninterp spec fn dash_map_entries(m: DashMap<u64, u64>) -> Map<u64, u64>;

/// `DashMap::get`. Claimed: it yields a copy of the value stored for the
/// key if the map holds the key, and nothing otherwise.
#[verifier::external_body]
fn dash_map_get(m: &DashMap<u64, u64>, key: &u64) -> (found: Option<u64>)
    ensures
        match found {
            Some(v) => stored(dash_map_entries(*m), *key) == Some(v),
            None => stored(dash_map_entries(*m), *key) is None,
        },
{
    DashMap::get(m, key).map(|entry| *entry.value())
}

/// `DashMap::insert`. Claimed: afterwards the map holds the pair, in place
/// of any entry of the same key, and all its other entries; the value that
/// was replaced is returned.
#[verifier::external_body]
fn dash_map_insert(m: &mut DashMap<u64, u64>, key: u64, value: u64) -> (previous: Option<u64>)
    ensures
        dash_map_entries(*final(m)) == dash_map_entries(*old(m)).insert(key, value),
        previous == stored(dash_map_entries(*old(m)), key),
{
    DashMap::insert(m, key, value)
}

/// `DashMap::remove`. Claimed: afterwards the map holds no entry for the
/// key and all its other entries; the pair that was removed is returned.
#[verifier::external_body]
fn dash_map_remove(m: &mut DashMap<u64, u64>, key: &u64) -> (previous: Option<(u64, u64)>)
    ensures
        dash_map_entries(*final(m)) == dash_map_entries(*old(m)).remove(*key),
        previous == match stored(dash_map_entries(*old(m)), *key) {
            Some(v) => Some((*key, v)),
            None => None,
        },
{
    DashMap::remove(m, key)
}

/// A concurrent hash map, held by one owner: reads hand out a copy of the
/// value, so that no guard into the map outlives the call.
impl MapBackend<u64, u64> for DashMap<u64, u64> {
    open spec fn own(&self) -> Map<u64, u64> {
        dash_map_entries(*self)
    }

    open spec fn under(&self) -> Map<u64, u64> {
        Map::empty()
    }

    open spec fn key_laws() -> bool {
        true
    }

    open spec fn remove_reports() -> bool {
        true
    }

    open spec fn lends(&self, key: u64) -> bool {
        false
    }

    fn get<'a>(&'a self, key: &u64) -> (found: Option<OwnedOrBorrowed<'a, u64>>) {
        proof {
            assert(overlay(self.own(), self.under()) =~= self.own());
        }
        match dash_map_get(self, key) {
            Some(v) => Some(OwnedOrBorrowed::Owned(v)),
            None => None,
        }
    }

    fn insert(&mut self, k: u64, v: u64) -> (previous: Option<u64>) {
        dash_map_insert(self, k, v)
    }

    fn remove(&mut self, key: &u64) -> (previous: Option<u64>) {
        match dash_map_remove(self, key) {
            Some(pair) => Some(pair.1),
            None => None,
        }
    }
}

} // verus!
