use vstd::prelude::*;
use crate::value::{OwnedOrBorrowed, hit};

verus! {

/// What became of an insertion into a backend whose writes can fail.
#[derive(Debug, PartialEq, Eq)]
pub enum InsertOutcome<V> {
    /// The pair was stored, and the key had no value before.
    Inserted,
    /// The pair was stored in place of the value given here.
    Replaced(V),
    /// The write failed: the pair was not stored.
    Failed,
}

impl<V> InsertOutcome<V> {
    /// Whether the pair was stored.
    pub open spec fn persisted(self) -> bool {
        !(self is Failed)
    }

    /// Reads the outcome off the result of the backend's write: a failed
    /// write is never taken for a write that found no earlier value, nor for
    /// one that found the new value.
    pub fn from_write<E>(written: Result<Option<V>, E>) -> (outcome: Self)
        ensures
            outcome == match written {
                Ok(None) => InsertOutcome::Inserted,
                Ok(Some(previous)) => InsertOutcome::Replaced(previous),
                Err(_) => InsertOutcome::Failed,
            },
    {
        match written {
            Ok(None) => InsertOutcome::Inserted,
            Ok(Some(previous)) => InsertOutcome::Replaced(previous),
            Err(_) => InsertOutcome::Failed,
        }
    }

    /// Whether the pair was stored.
    pub fn is_stored(&self) -> (yes: bool)
        ensures
            yes == self.persisted(),
    {
        match self {
            InsertOutcome::Failed => false,
            _ => true,
        }
    }

    /// The value that the insertion replaced, if it replaced one.
    pub fn previous(self) -> (value: Option<V>)
        ensures
            value == match self {
                InsertOutcome::Replaced(v) => Some(v),
                _ => None,
            },
    {
        match self {
            InsertOutcome::Replaced(v) => Some(v),
            _ => None,
        }
    }
}

/// What a read or a removal on a fallible backend found: the value, where
/// the backend answered and had one.
pub fn found_value<V, E>(answer: Result<Option<V>, E>) -> (found: Option<V>)
    ensures
        found == match answer {
            Ok(Some(v)) => Some(v),
            _ => None,
        },
{
    match answer {
        Ok(Some(v)) => Some(v),
        _ => None,
    }
}

/// Wraps what a read on a fallible backend found as a value of its own.
pub fn found_owned<V, E>(answer: Result<Option<V>, E>) -> (found: Option<OwnedOrBorrowed<'static, V>>)
    ensures
        hit(found) == match answer {
            Ok(Some(v)) => Some(v),
            _ => None,
        },
        found matches Some(w) ==> !w.is_borrowed(),
{
    match answer {
        Ok(Some(v)) => Some(OwnedOrBorrowed::Owned(v)),
        _ => None,
    }
}

} // verus!
