use vstd::prelude::*;
use crate::value::OwnedOrBorrowed;

verus! {

/// The capability that every associative backend offers: lookup, insertion
/// and removal by key.
///
/// A backend is modelled by two maps. `own` holds the entries that `insert`
/// and `remove` act on. `under` holds entries that are only read, and only
/// for keys that `own` has no entry for; a plain container has none.
pub trait MapBackend<K, V>: Sized {
    /// The entries that writes act on.
    spec fn own(&self) -> Map<K, V>;

    /// The entries that are consulted where `own` has none, and never written.
    spec fn under(&self) -> Map<K, V>;

    /// What the backend needs of its key type to behave as a map.
    spec fn key_laws() -> bool;

    /// Whether `remove` reports the value that it deleted.
    spec fn remove_reports() -> bool;

    /// Whether a hit on `key` is lent from the container rather than copied.
    spec fn lends(&self, key: K) -> bool;

    /// Looks `key` up without changing anything.
    fn get<'a>(&'a self, key: &K) -> (found: Option<OwnedOrBorrowed<'a, V>>)
        requires
            Self::key_laws(),
        ensures
            match found {
                Some(w) => overlay(self.own(), self.under()).contains_key(*key)
                    && w.value() == overlay(self.own(), self.under())[*key]
                    && w.is_borrowed() == self.lends(*key),
                None => !overlay(self.own(), self.under()).contains_key(*key),
            },
    ;

    /// Inserts the pair, replacing an entry with the same key, and returns
    /// the value that was replaced.
    fn insert(&mut self, k: K, v: V) -> (previous: Option<V>)
        requires
            Self::key_laws(),
        ensures
            final(self).own() == old(self).own().insert(k, v),
            final(self).under() == old(self).under(),
            previous == stored(old(self).own(), k),
    ;

    /// Deletes the entry of `key`, if there is one.
    fn remove(&mut self, key: &K) -> (previous: Option<V>)
        requires
            Self::key_laws(),
        ensures
            final(self).own() == old(self).own().remove(*key),
            final(self).under() == old(self).under(),
            previous == if Self::remove_reports() {
                stored(old(self).own(), *key)
            } else {
                None
            },
    ;
}

/// The value that `m` holds for `k`, if any.
pub open spec fn stored<K, V>(m: Map<K, V>, k: K) -> Option<V> {
    if m.contains_key(k) {
        Some(m[k])
    } else {
        None
    }
}

/// All that a lookup on `b` can reach: its own entries, and beneath them the
/// entries that they do not shadow.
pub open spec fn visible<K, V, B: MapBackend<K, V>>(b: &B) -> Map<K, V> {
    overlay(b.own(), b.under())
}

/// The map that reads `own` first and `under` where `own` has no entry.
pub open spec fn overlay<K, V>(own: Map<K, V>, under: Map<K, V>) -> Map<K, V> {
    under.union_prefer_right(own)
}

} // verus!
