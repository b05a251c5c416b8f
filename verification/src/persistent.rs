use vstd::prelude::*;
use im::OrdMap;
use crate::backend::{MapBackend, overlay, stored};
use crate::value::OwnedOrBorrowed;

verus! {

/// `im::HashMap`, carried through as a value that the verifier cannot look
/// into.
#[verifier::external_type_specification]
#[verifier::external_body]
#[verifier::reject_recursive_types(K)]
#[verifier::reject_recursive_types(V)]
#[verifier::reject_recursive_types(S)]
pub struct ExImHashMap<K, V, S>(im::HashMap<K, V, S>);

/// The entries that a persistent hash map holds: each key with its value.
pub uninterp spec fn im_hash_map_entries(m: im::HashMap<u64, u64>) -> Map<u64, u64>;

/// `im::HashMap::get`. Claimed: it yields a reference to the value stored for the
/// key if the map holds the key, and nothing otherwise.
#[verifier::external_body]
fn im_hash_map_get<'a>(m: &'a im::HashMap<u64, u64>, key: &u64) -> (found: Option<&'a u64>)
    ensures
        match found {
            Some(v) => stored(im_hash_map_entries(*m), *key) == Some(*v),
            None => stored(im_hash_map_entries(*m), *key) is None,
        },
{
    im::HashMap::get(m, key)
}

/// `im::HashMap::insert`. Claimed: afterwards the map holds the pair, in place
/// of any entry of the same key, and all its other entries; the value that
/// was replaced is returned.
#[verifier::external_body]
fn im_hash_map_insert(m: &mut im::HashMap<u64, u64>, key: u64, value: u64) -> (previous: Option<u64>)
    ensures
        im_hash_map_entries(*final(m)) == im_hash_map_entries(*old(m)).insert(key, value),
        previous == stored(im_hash_map_entries(*old(m)), key),
{
    im::HashMap::insert(m, key, value)
}

/// `im::HashMap::remove`. Claimed: afterwards the map holds no entry for the
/// key and all its other entries; the value that was removed is returned.
#[verifier::external_body]
fn im_hash_map_remove(m: &mut im::HashMap<u64, u64>, key: &u64) -> (previous: Option<u64>)
    ensures
        im_hash_map_entries(*final(m)) == im_hash_map_entries(*old(m)).remove(*key),
        previous == stored(im_hash_map_entries(*old(m)), *key),
{
    im::HashMap::remove(m, key)
}

/// A persistent hash map: reads hand out a copy of the value.
impl MapBackend<u64, u64> for im::HashMap<u64, u64> {
    open spec fn own(&self) -> Map<u64, u64> {
        im_hash_map_entries(*self)
    }

    open spec fn under(&self) -> Map<u64, u64> {
        Map::empty()
    }

    open spec fn key_laws() -> bool {
        true
    }

    open spec fn remove_reports() -> bool {
        true
    }

    open spec fn lends(&self, key: u64) -> bool {
        false
    }

    fn get<'a>(&'a self, key: &u64) -> (found: Option<OwnedOrBorrowed<'a, u64>>) {
        proof {
            assert(overlay(self.own(), self.under()) =~= self.own());
        }
        match im_hash_map_get(self, key) {
            Some(v) => Some(OwnedOrBorrowed::Owned(*v)),
            None => None,
        }
    }

    fn insert(&mut self, k: u64, v: u64) -> (previous: Option<u64>) {
        im_hash_map_insert(self, k, v)
    }

    fn remove(&mut self, key: &u64) -> (previous: Option<u64>) {
        im_hash_map_remove(self, key)
    }
}

/// `im::OrdMap`, carried through as a value that the verifier cannot look
/// into.
#[verifier::external_type_specification]
#[verifier::external_body]
#[verifier::reject_recursive_types(K)]
#[verifier::reject_recursive_types(V)]
pub struct ExImOrdMap<K, V>(im::OrdMap<K, V>);

/// The entries that a persistent ordered map holds: each key with its value.
pub uninterp spec fn im_ord_map_entries(m: OrdMap<u64, u64>) -> Map<u64, u64>;

/// `im::OrdMap::get`. Claimed: it yields a reference to the value stored for the
/// key if the map holds the key, and nothing otherwise.
#[verifier::external_body]
fn im_ord_map_get<'a>(m: &'a OrdMap<u64, u64>, key: &u64) -> (found: Option<&'a u64>)
    ensures
        match found {
            Some(v) => stored(im_ord_map_entries(*m), *key) == Some(*v),
            None => stored(im_ord_map_entries(*m), *key) is None,
        },
{
    OrdMap::get(m, key)
}

/// `im::OrdMap::insert`. Claimed: afterwards the map holds the pair, in place
/// of any entry of the same key, and all its other entries; the value that
/// was replaced is returned.
#[verifier::external_body]
fn im_ord_map_insert(m: &mut OrdMap<u64, u64>, key: u64, value: u64) -> (previous: Option<u64>)
    ensures
        im_ord_map_entries(*final(m)) == im_ord_map_entries(*old(m)).insert(key, value),
        previous == stored(im_ord_map_entries(*old(m)), key),
{
    OrdMap::insert(m, key, value)
}

/// `im::OrdMap::remove`. Claimed: afterwards the map holds no entry for the
/// key and all its other entries; the value that was removed is returned.
#[verifier::external_body]
fn im_ord_map_remove(m: &mut OrdMap<u64, u64>, key: &u64) -> (previous: Option<u64>)
    ensures
        im_ord_map_entries(*final(m)) == im_ord_map_entries(*old(m)).remove(*key),
        previous == stored(im_ord_map_entries(*old(m)), *key),
{
    OrdMap::remove(m, key)
}

/// A persistent ordered map: reads hand out a copy of the value.
impl MapBackend<u64, u64> for OrdMap<u64, u64> {
    open spec fn own(&self) -> Map<u64, u64> {
        im_ord_map_entries(*self)
    }

    open spec fn under(&self) -> Map<u64, u64> {
        Map::empty()
    }

    open spec fn key_laws() -> bool {
        true
    }

    open spec fn remove_reports() -> bool {
        true
    }

    open spec fn lends(&self, key: u64) -> bool {
        false
    }

    fn get<'a>(&'a self, key: &u64) -> (found: Option<OwnedOrBorrowed<'a, u64>>) {
        proof {
            assert(overlay(self.own(), self.under()) =~= self.own());
        }
        match im_ord_map_get(self, key) {
            Some(v) => Some(OwnedOrBorrowed::Owned(*v)),
            None => None,
        }
    }

    fn insert(&mut self, k: u64, v: u64) -> (previous: Option<u64>) {
        im_ord_map_insert(self, k, v)
    }

    fn remove(&mut self, key: &u64) -> (previous: Option<u64>) {
        im_ord_map_remove(self, key)
    }
}

} // verus!
