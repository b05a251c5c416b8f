use vstd::prelude::*;
use vstd::laws_eq::obeys_concrete_eq;
use crate::backend::stored;

verus! {

/// The value of the first pair of `pairs` whose key is `key`, if any.
pub open spec fn first_value<K, V>(pairs: Seq<(K, V)>, key: K) -> Option<V>
    decreases pairs.len(),
{
    if pairs.len() == 0 {
        None
    } else {
        match first_value(pairs.drop_last(), key) {
            Some(v) => Some(v),
            None => if pairs.last().0 == key {
                Some(pairs.last().1)
            } else {
                None
            },
        }
    }
}

/// The pairs of `pairs` whose key is not `key`, in their order.
pub open spec fn without_key<K, V>(pairs: Seq<(K, V)>, key: K) -> Seq<(K, V)>
    decreases pairs.len(),
{
    if pairs.len() == 0 {
        Seq::empty()
    } else if pairs.last().0 == key {
        without_key(pairs.drop_last(), key)
    } else {
        without_key(pairs.drop_last(), key).push(pairs.last())
    }
}

/// The map that a list of pairs stands for: each key with the value of its
/// first pair.
pub open spec fn list_entries<K, V>(pairs: Seq<(K, V)>) -> Map<K, V> {
    Map::new(|k: K| first_value(pairs, k) is Some, |k: K| first_value(pairs, k).unwrap())
}

/// A hit in a prefix of a list is the hit in the whole list.
pub proof fn lemma_first_value_prefix<K, V>(pairs: Seq<(K, V)>, n: int, key: K)
    requires
        0 <= n <= pairs.len(),
        first_value(pairs.subrange(0, n), key) is Some,
    ensures
        first_value(pairs, key) == first_value(pairs.subrange(0, n), key),
    decreases pairs.len() - n,
{
    if n < pairs.len() {
        let longer = pairs.subrange(0, n + 1);
        assert(longer.drop_last() =~= pairs.subrange(0, n));
        lemma_first_value_prefix(pairs, n + 1, key);
    } else {
        assert(pairs.subrange(0, n) =~= pairs);
    }
}

/// Once the pairs of `key` are gone, `key` has no value and every other key
/// keeps its own.
pub proof fn lemma_without_key_values<K, V>(pairs: Seq<(K, V)>, key: K, probe: K)
    ensures
        first_value(without_key(pairs, key), probe) == if probe == key {
            None
        } else {
            first_value(pairs, probe)
        },
    decreases pairs.len(),
{
    if pairs.len() > 0 {
        lemma_without_key_values(pairs.drop_last(), key, probe);
        if pairs.last().0 != key {
            let kept = without_key(pairs.drop_last(), key);
            assert(kept.push(pairs.last()).drop_last() =~= kept);
        }
    }
}

/// Taking the pairs of `key` out of a list removes `key` from its map.
pub proof fn lemma_without_key_entries<K, V>(pairs: Seq<(K, V)>, key: K)
    ensures
        list_entries(without_key(pairs, key)) == list_entries(pairs).remove(key),
{
    assert forall|probe: K|
        first_value(without_key(pairs, key), probe) == (if probe == key {
            None
        } else {
            first_value(pairs, probe)
        }) by {
        lemma_without_key_values(pairs, key, probe);
    }
    assert(list_entries(without_key(pairs, key)) =~= list_entries(pairs).remove(key));
}

/// Appending a pair whose key the list does not hold inserts it into its map.
pub proof fn lemma_push_entries<K, V>(pairs: Seq<(K, V)>, key: K, value: V)
    requires
        first_value(pairs, key) is None,
    ensures
        list_entries(pairs.push((key, value))) == list_entries(pairs).insert(key, value),
{
    let longer = pairs.push((key, value));
    assert(longer.drop_last() =~= pairs);
    assert(list_entries(longer) =~= list_entries(pairs).insert(key, value));
}

/// Finds the first pair with `key` and lends its value.
pub fn find_first<'a, K: PartialEq, V>(pairs: &'a Vec<(K, V)>, key: &K) -> (found: Option<&'a V>)
    requires
        obeys_concrete_eq::<K>(),
    ensures
        match found {
            Some(v) => first_value(pairs@, *key) == Some(*v),
            None => first_value(pairs@, *key) is None,
        },
{
    let mut i: usize = 0;
    while i < pairs.len()
        invariant
            obeys_concrete_eq::<K>(),
            i <= pairs.len(),
            first_value(pairs@.subrange(0, i as int), *key) is None,
        decreases pairs.len() - i,
    {
        let ghost longer = pairs@.subrange(0, i + 1);
        proof {
            reveal(obeys_concrete_eq);
            assert(longer.drop_last() =~= pairs@.subrange(0, i as int));
        }
        if pairs[i].0 == *key {
            proof {
                lemma_first_value_prefix(pairs@, i + 1, *key);
            }
            return Some(&pairs[i].1);
        }
        i = i + 1;
    }
    proof {
        assert(pairs@.subrange(0, i as int) =~= pairs@);
    }
    None
}

/// Takes every pair with `key` out of the list, keeping the others in their
/// order, and returns the value of the first pair taken.
pub fn take_key<K: PartialEq, V>(pairs: &mut Vec<(K, V)>, key: &K) -> (taken: Option<V>)
    requires
        obeys_concrete_eq::<K>(),
    ensures
        final(pairs)@ == without_key(old(pairs)@, *key),
        taken == first_value(old(pairs)@, *key),
{
    let ghost before = pairs@;
    let mut taken: Option<V> = None;
    let mut i: usize = 0;
    while i < pairs.len()
        invariant
            obeys_concrete_eq::<K>(),
            i <= pairs.len() <= before.len(),
            pairs@.subrange(0, i as int) == without_key(
                before.subrange(0, before.len() - pairs.len() + i),
                *key,
            ),
            pairs@.subrange(i as int, pairs.len() as int) == before.subrange(
                before.len() - pairs.len() + i,
                before.len() as int,
            ),
            taken == first_value(before.subrange(0, before.len() - pairs.len() + i), *key),
        decreases pairs.len() - i,
    {
        let ghost j = before.len() - pairs.len() + i;
        let ghost current = pairs@;
        proof {
            reveal(obeys_concrete_eq);
            assert(current[i as int] == current.subrange(i as int, current.len() as int)[0]);
            assert(current[i as int] == before[j]);
            assert(before.subrange(0, j + 1).drop_last() =~= before.subrange(0, j));
        }
        if pairs[i].0 == *key {
            let pair = pairs.remove(i);
            proof {
                assert(pairs@.subrange(0, i as int) =~= current.subrange(0, i as int));
                assert(pairs@.subrange(i as int, pairs.len() as int) =~= current.subrange(
                    i as int,
                    current.len() as int,
                ).drop_first());
                assert(before.subrange(j, before.len() as int).drop_first() =~= before.subrange(
                    j + 1,
                    before.len() as int,
                ));
            }
            if taken.is_none() {
                taken = Some(pair.1);
            }
        } else {
            proof {
                assert(current.subrange(0, i + 1) =~= current.subrange(0, i as int).push(
                    current[i as int],
                ));
                assert(current.subrange(i + 1, current.len() as int) =~= current.subrange(
                    i as int,
                    current.len() as int,
                ).drop_first());
                assert(before.subrange(j, before.len() as int).drop_first() =~= before.subrange(
                    j + 1,
                    before.len() as int,
                ));
            }
            i = i + 1;
        }
    }
    proof {
        assert(pairs@.subrange(0, i as int) =~= pairs@);
        assert(before.subrange(0, before.len() as int) =~= before);
    }
    taken
}

/// Takes the pairs of `key` out of the list and appends `(key, value)` at
/// its end; returns the value that `key` stood for before.
pub fn insert_pair<K: PartialEq, V>(pairs: &mut Vec<(K, V)>, key: K, value: V) -> (previous:
    Option<V>)
    requires
        obeys_concrete_eq::<K>(),
    ensures
        final(pairs)@ == without_key(old(pairs)@, key).push((key, value)),
        list_entries(final(pairs)@) == list_entries(old(pairs)@).insert(key, value),
        previous == first_value(old(pairs)@, key),
        previous == stored(list_entries(old(pairs)@), key),
{
    let previous = take_key(pairs, &key);
    proof {
        lemma_without_key_entries(old(pairs)@, key);
        lemma_without_key_values(old(pairs)@, key, key);
        lemma_push_entries(pairs@, key, value);
        assert(list_entries(old(pairs)@).remove(key).insert(key, value) =~= list_entries(
            old(pairs)@,
        ).insert(key, value));
    }
    pairs.push((key, value));
    previous
}

} // verus!
