use chain_map::assoc_list::{find_first, insert_pair, take_key};
use chain_map::outcome::{found_owned, found_value};
use chain_map::{ChainedMap, InsertOutcome, MapBackend, OwnedOrBorrowed};
use radix_trie::TrieCommon;
use std::collections::{BTreeMap, HashMap};

#[test]
fn hash_map_insert_get_remove() {
    let mut map: HashMap<u64, u64> = HashMap::new();
    assert_eq!(None, MapBackend::insert(&mut map, 1, 10));
    assert_eq!(Some(10), MapBackend::insert(&mut map, 1, 11));
    assert_eq!(Some(OwnedOrBorrowed::Borrowed(&11)), MapBackend::get(&map, &1));
    assert_eq!(Some(11), MapBackend::remove(&mut map, &1));
    assert_eq!(None, MapBackend::get(&map, &1));
    assert_eq!(None, MapBackend::remove(&mut map, &1));
}

#[test]
fn ordered_map_insert_get_remove() {
    let mut map: BTreeMap<u64, u64> = BTreeMap::new();
    assert_eq!(None, MapBackend::insert(&mut map, 1, 10));
    assert_eq!(Some(10), MapBackend::insert(&mut map, 1, 11));
    assert_eq!(Some(OwnedOrBorrowed::Borrowed(&11)), MapBackend::get(&map, &1));
    assert_eq!(Some(11), MapBackend::remove(&mut map, &1));
    assert_eq!(None, MapBackend::get(&map, &1));
    assert_eq!(None, MapBackend::remove(&mut map, &1));
}

#[test]
fn list_insert_get_remove() {
    let mut list: Vec<(u64, u64)> = Vec::new();
    assert_eq!(None, MapBackend::insert(&mut list, 1, 10));
    assert_eq!(None, MapBackend::insert(&mut list, 2, 20));
    assert_eq!(Some(OwnedOrBorrowed::Borrowed(&10)), MapBackend::get(&list, &1));
    assert_eq!(None, MapBackend::get(&list, &3));
}

#[test]
fn list_remove_deletes_but_reports_nothing() {
    let mut list: Vec<(&str, &str)> = vec![("a", "one"), ("b", "two")];
    assert_eq!(Some("one"), MapBackend::get(&list, &"a").map(|x| x.as_owned()));
    assert_eq!(None, MapBackend::remove(&mut list, &"a"));
    assert_eq!(None, MapBackend::get(&list, &"a"));
    assert_eq!(vec![("b", "two")], list);
    assert_eq!(None, MapBackend::remove(&mut list, &"missing"));
    assert_eq!(vec![("b", "two")], list);
}

#[test]
fn list_insert_moves_key_to_the_end() {
    let mut list: Vec<(u64, u64)> = vec![(1, 10), (2, 20), (3, 30)];
    assert_eq!(Some(10), MapBackend::insert(&mut list, 1, 11));
    assert_eq!(vec![(2, 20), (3, 30), (1, 11)], list);
    assert_eq!(Some(11), insert_pair(&mut list, 1, 12));
    assert_eq!(vec![(2, 20), (3, 30), (1, 12)], list);
}

#[test]
fn list_with_repeated_key_reads_first_pair() {
    let mut list: Vec<(u64, u64)> = vec![(1, 10), (2, 20), (1, 11), (3, 30), (1, 12)];
    assert_eq!(Some(&10), find_first(&list, &1));
    assert_eq!(None, find_first(&list, &4));
    assert_eq!(Some(10), take_key(&mut list, &1));
    assert_eq!(vec![(2, 20), (3, 30)], list);
    assert_eq!(None, take_key(&mut list, &1));
    assert_eq!(vec![(2, 20), (3, 30)], list);
}

#[test]
fn list_as_fallback_of_layered_store() {
    let list: Vec<(&str, &str)> = vec![("two", "hallo")];
    let mut store = ChainedMap::new();
    store.chain(list);
    assert_eq!(Some("hallo"), store.get(&"two").map(|x| x.as_owned()));
    assert_eq!(Some("hallo"), store.get_propagate(&"two").map(|x| x.as_owned()));
    assert_eq!(Some("hallo"), store.get_from_root(&"two").map(|x| x.as_owned()));
}

#[test]
fn index_map_insert_get_remove() {
    let mut map: indexmap::IndexMap<u64, u64> = indexmap::IndexMap::new();
    assert_eq!(None, MapBackend::insert(&mut map, 1, 10));
    assert_eq!(None, MapBackend::insert(&mut map, 2, 20));
    assert_eq!(Some(10), MapBackend::insert(&mut map, 1, 11));
    assert_eq!(Some(OwnedOrBorrowed::Borrowed(&11)), MapBackend::get(&map, &1));
    assert_eq!(None, MapBackend::get(&map, &3));
    assert_eq!(Some(11), MapBackend::remove(&mut map, &1));
    assert_eq!(None, MapBackend::get(&map, &1));
    assert_eq!(None, MapBackend::remove(&mut map, &1));
    assert_eq!(Some(OwnedOrBorrowed::Borrowed(&20)), MapBackend::get(&map, &2));
    assert_eq!(1, map.len());
}

#[test]
fn persistent_hash_map_insert_get_remove() {
    let mut map: im::HashMap<u64, u64> = im::HashMap::new();
    let snapshot = map.clone();
    assert_eq!(None, MapBackend::insert(&mut map, 1, 10));
    assert_eq!(None, MapBackend::insert(&mut map, 2, 20));
    assert_eq!(Some(10), MapBackend::insert(&mut map, 1, 11));
    assert_eq!(Some(OwnedOrBorrowed::Owned(11)), MapBackend::get(&map, &1));
    assert_eq!(None, MapBackend::get(&map, &3));
    assert_eq!(Some(11), MapBackend::remove(&mut map, &1));
    assert_eq!(None, MapBackend::get(&map, &1));
    assert_eq!(None, MapBackend::remove(&mut map, &1));
    assert_eq!(Some(OwnedOrBorrowed::Owned(20)), MapBackend::get(&map, &2));
    assert_eq!(1, map.len());
    assert_eq!(0, snapshot.len());
}

#[test]
fn persistent_ordered_map_insert_get_remove() {
    let mut map: im::OrdMap<u64, u64> = im::OrdMap::new();
    assert_eq!(None, MapBackend::insert(&mut map, 1, 10));
    assert_eq!(None, MapBackend::insert(&mut map, 2, 20));
    assert_eq!(Some(10), MapBackend::insert(&mut map, 1, 11));
    assert_eq!(Some(OwnedOrBorrowed::Owned(11)), MapBackend::get(&map, &1));
    assert_eq!(None, MapBackend::get(&map, &3));
    assert_eq!(Some(11), MapBackend::remove(&mut map, &1));
    assert_eq!(None, MapBackend::get(&map, &1));
    assert_eq!(None, MapBackend::remove(&mut map, &1));
    assert_eq!(Some(OwnedOrBorrowed::Owned(20)), MapBackend::get(&map, &2));
    assert_eq!(1, map.len());
}

#[test]
fn trie_insert_get_remove() {
    let mut map: radix_trie::Trie<u64, u64> = radix_trie::Trie::new();
    assert_eq!(None, MapBackend::insert(&mut map, 1, 10));
    assert_eq!(None, MapBackend::insert(&mut map, 257, 20));
    assert_eq!(Some(10), MapBackend::insert(&mut map, 1, 11));
    assert_eq!(Some(OwnedOrBorrowed::Owned(11)), MapBackend::get(&map, &1));
    assert_eq!(None, MapBackend::get(&map, &3));
    assert_eq!(Some(11), MapBackend::remove(&mut map, &1));
    assert_eq!(None, MapBackend::get(&map, &1));
    assert_eq!(None, MapBackend::remove(&mut map, &1));
    assert_eq!(Some(OwnedOrBorrowed::Owned(20)), MapBackend::get(&map, &257));
    assert_eq!(1, map.len());
}

#[test]
fn concurrent_map_insert_get_remove() {
    let mut map: dashmap::DashMap<u64, u64> = dashmap::DashMap::new();
    assert_eq!(None, MapBackend::insert(&mut map, 1, 10));
    assert_eq!(None, MapBackend::insert(&mut map, 2, 20));
    assert_eq!(Some(10), MapBackend::insert(&mut map, 1, 11));
    assert_eq!(Some(OwnedOrBorrowed::Owned(11)), MapBackend::get(&map, &1));
    assert_eq!(None, MapBackend::get(&map, &3));
    assert_eq!(Some(11), MapBackend::remove(&mut map, &1));
    assert_eq!(None, MapBackend::get(&map, &1));
    assert_eq!(None, MapBackend::remove(&mut map, &1));
    assert_eq!(Some(OwnedOrBorrowed::Owned(20)), MapBackend::get(&map, &2));
    assert_eq!(1, map.len());
}

#[test]
fn outside_backends_as_fallback() {
    let mut below: dashmap::DashMap<u64, u64> = dashmap::DashMap::new();
    assert_eq!(None, MapBackend::insert(&mut below, 5, 50));
    let mut store = ChainedMap::new();
    store.insert(5u64, 51u64);
    store.chain(below);
    assert_eq!(Some(OwnedOrBorrowed::Borrowed(&51)), store.get(&5));
    assert_eq!(Some(OwnedOrBorrowed::Owned(50)), store.get_from_other(&5));
    assert_eq!(Some(OwnedOrBorrowed::Owned(50)), store.get_propagate(&5));
    assert_eq!(Some(OwnedOrBorrowed::Borrowed(&50)), store.get_from_root(&5));
}

#[test]
fn insert_outcome_tells_failure_apart() {
    let fresh: Result<Option<u64>, String> = Ok(None);
    let replaced: Result<Option<u64>, String> = Ok(Some(4));
    let failed: Result<Option<u64>, String> = Err(String::from("disk full"));

    assert_eq!(InsertOutcome::Inserted, InsertOutcome::from_write(fresh));
    assert_eq!(InsertOutcome::Replaced(4), InsertOutcome::from_write(replaced));
    assert_eq!(InsertOutcome::<u64>::Failed, InsertOutcome::from_write(failed));

    assert!(InsertOutcome::<u64>::Inserted.is_stored());
    assert!(InsertOutcome::Replaced(4u64).is_stored());
    assert!(!InsertOutcome::<u64>::Failed.is_stored());

    assert_eq!(None, InsertOutcome::<u64>::Inserted.previous());
    assert_eq!(Some(4), InsertOutcome::Replaced(4u64).previous());
    assert_eq!(None, InsertOutcome::<u64>::Failed.previous());
}

#[test]
fn fallible_read_yields_owned_value() {
    let hit: Result<Option<u64>, String> = Ok(Some(9));
    let miss: Result<Option<u64>, String> = Ok(None);
    let failed: Result<Option<u64>, String> = Err(String::from("io"));
    assert_eq!(Some(OwnedOrBorrowed::Owned(9)), found_owned(hit.clone()));
    assert_eq!(None, found_owned(miss.clone()));
    assert_eq!(None, found_owned(failed.clone()));
    assert_eq!(Some(9), found_value(hit));
    assert_eq!(None, found_value(miss));
    assert_eq!(None, found_value(failed));
}
