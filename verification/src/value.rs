use vstd::prelude::*;

verus! {

/// What a lookup hands out: a value of its own, or a reference into the
/// container that was read.
#[derive(Debug, PartialEq)]
pub enum OwnedOrBorrowed<'a, V> {
    /// A value that lives independently of any container.
    Owned(V),
    /// A reference that lives as long as the container it was read from.
    Borrowed(&'a V),
}

impl<'a, V> OwnedOrBorrowed<'a, V> {
    /// The value that the wrapper stands for, whichever variant holds it.
    pub open spec fn value(self) -> V {
        match self {
            OwnedOrBorrowed::Owned(v) => v,
            OwnedOrBorrowed::Borrowed(v) => *v,
        }
    }

    /// Whether the wrapper lends the value from a container.
    pub open spec fn is_borrowed(self) -> bool {
        self is Borrowed
    }

    /// A reference to the underlying value, valid as long as the wrapper.
    pub fn ref_inner(&'a self) -> (inner: &'a V)
        ensures
            *inner == self.value(),
    {
        match self {
            OwnedOrBorrowed::Borrowed(v) => v,
            OwnedOrBorrowed::Owned(v) => v,
        }
    }
}

impl<'a, V: Clone> OwnedOrBorrowed<'a, V> {
    /// An independent copy of the underlying value, whichever variant holds it.
    pub fn as_owned(&self) -> (copy: V)
        ensures
            cloned(self.value(), copy),
    {
        match self {
            OwnedOrBorrowed::Borrowed(v) => {
                let inner: &V = *v;
                inner.clone()
            },
            OwnedOrBorrowed::Owned(v) => v.clone(),
        }
    }
}

impl<'a, V> std::ops::Deref for OwnedOrBorrowed<'a, V> {
    type Target = V;

    /// Reads through the wrapper as if it were the plain value.
    fn deref(&self) -> (inner: &V)
        ensures
            *inner == self.value(),
    {
        match self {
            OwnedOrBorrowed::Borrowed(v) => v,
            OwnedOrBorrowed::Owned(v) => v,
        }
    }
}

impl<'a, V: Clone> Clone for OwnedOrBorrowed<'a, V> {
    /// Cloning always yields the owned variant.
    fn clone(&self) -> (copy: Self)
        ensures
            copy is Owned,
            cloned(self.value(), copy.value()),
    {
        OwnedOrBorrowed::Owned(self.as_owned())
    }
}

} // verus!

verus! {

/// The value that a lookup's result stands for, if it found one.
pub open spec fn hit<V>(found: Option<OwnedOrBorrowed<'_, V>>) -> Option<V> {
    match found {
        Some(w) => Some(w.value()),
        None => None,
    }
}

} // verus!
