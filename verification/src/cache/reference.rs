//! A borrowed entry of the cache.
use crate::model::wire::Duplicate;
use vstd::prelude::*;

verus! {

/// An id with its document, borrowed from the cache.
#[derive(Debug)]
pub struct Reference<'a, K, V> {
    key: &'a K,
    value: &'a V,
}

impl<'a, K, V> Reference<'a, K, V> {
    /// The id.
    pub closed spec fn id(&self) -> K {
        *self.key
    }

    /// The document.
    pub closed spec fn document(&self) -> V {
        *self.value
    }

    /// Borrows an entry.
    pub(crate) fn new(key: &'a K, value: &'a V) -> (r: Reference<'a, K, V>)
        ensures
            r.id() == *key,
            r.document() == *value,
    {
        Reference { key, value }
    }

    /// The id.
    pub fn key(&self) -> (r: &K)
        ensures
            *r == self.id(),
    {
        self.key
    }

    /// The document.
    pub fn value(&self) -> (r: &V)
        ensures
            *r == self.document(),
    {
        self.value
    }

    /// The id and the document.
    pub fn pair(&self) -> (r: (&K, &V))
        ensures
            *r.0 == self.id(),
            *r.1 == self.document(),
    {
        (self.key, self.value)
    }
}

impl<'a, K, V: Duplicate> Reference<'a, K, V> {
    /// A copy of the document.
    pub fn cloned(&self) -> (r: V)
        ensures
            r.alike(&self.document()),
            r.doc() == self.document().doc(),
    {
        self.value.dup()
    }
}

impl<'a, K, V> core::ops::Deref for Reference<'a, K, V> {
    type Target = V;

    fn deref(&self) -> (r: &V)
        ensures
            *r == self.document(),
    {
        self.value
    }
}

} // verus!
