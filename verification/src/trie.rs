use vstd::prelude::*;
use radix_trie::Trie;
use crate::backend::{MapBackend, overlay, stored};
use crate::value::OwnedOrBorrowed;

verus! {

/// `radix_trie::Trie`, carried through as a value that the verifier cannot
/// look into.
#[verifier::external_type_specification]
#[verifier::external_body]
#[verifier::reject_recursive_types(K)]
#[verifier::reject_recursive_types(V)]
pub struct ExTrie<K, V>(radix_trie::Trie<K, V>);

/// The entries that a radix trie holds: each key with its value.
pub uninterp spec fn trie_entries(m: Trie<u64, u64>) -> Map<u64, u64>;

/// `Trie::get`. Claimed: it yields a reference to the value stored for the
/// key if the map holds the key, and nothing otherwise.
#[verifier::external_body]
fn trie_get<'a>(m: &'a Trie<u64, u64>, key: &u64) -> (found: Option<&'a u64>)
    ensures
        match found {
            Some(v) => stored(trie_entries(*m), *key) == Some(*v),
            None => stored(trie_entries(*m), *key) is None,
        },
{
    Trie::get(m, key)
}

/// `Trie::insert`. Claimed: afterwards the map holds the pair, in place
/// of any entry of the same key, and all its other entries; the value that
/// was replaced is returned.
#[verifier::external_body]
fn trie_insert(m: &mut Trie<u64, u64>, key: u64, value: u64) -> (previous: Option<u64>)
    ensures
        trie_entries(*final(m)) == trie_entries(*old(m)).insert(key, value),
        previous == stored(trie_entries(*old(m)), key),
{
    Trie::insert(m, key, value)
}

/// `Trie::remove`. Claimed: afterwards the map holds no entry for the
/// key and all its other entries; the value that was removed is returned.
#[verifier::external_body]
fn trie_remove(m: &mut Trie<u64, u64>, key: &u64) -> (previous: Option<u64>)
    ensures
        trie_entries(*final(m)) == trie_entries(*old(m)).remove(*key),
        previous == stored(trie_entries(*old(m)), *key),
{
    Trie::remove(m, key)
}

/// A radix trie: reads hand out a copy of the value.
impl MapBackend<u64, u64> for Trie<u64, u64> {
    open spec fn own(&self) -> Map<u64, u64> {
        trie_entries(*self)
    }

    open spec fn under(&self) -> Map<u64, u64> {
        Map::empty()
    }

    open spec fn key_laws() -> bool {
        true
    }

    open spec fn remove_reports() -> bool {
        true
    }

    open spec fn lends(&self, key: u64) -> bool {
        false
    }

    fn get<'a>(&'a self, key: &u64) -> (found: Option<OwnedOrBorrowed<'a, u64>>) {
        proof {
            assert(overlay(self.own(), self.under()) =~= self.own());
        }
        match trie_get(self, key) {
            Some(v) => Some(OwnedOrBorrowed::Owned(*v)),
            None => None,
        }
    }

    fn insert(&mut self, k: u64, v: u64) -> (previous: Option<u64>) {
        trie_insert(self, k, v)
    }

    fn remove(&mut self, key: &u64) -> (previous: Option<u64>) {
        trie_remove(self, key)
    }
}

} // verus!
