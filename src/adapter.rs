//! Adapter that lets a cache with key-level methods serve as a cache model.
use vstd::prelude::*;
use crate::model::CacheModel;

verus! {

/// Cache types with `u64`-keyed lookup, insertion and deletion.
pub trait SimpleCacheLike {
    /// What a lookup of `key` answering `hit` does, from `self` to `after`.
    /// Caches that state nothing admit any change.
    open spec fn key_looked_up(&self, after: &Self, key: u64, hit: bool) -> bool {
        true
    }

    /// What an insertion of `key` does, from `self` to `after`.
    open spec fn key_inserted(&self, after: &Self, key: u64) -> bool {
        true
    }

    /// What a deletion of `key` does, from `self` to `after`.
    open spec fn key_deleted(&self, after: &Self, key: u64) -> bool {
        true
    }

    /// Look `key` up; `true` on a hit.
    fn get_key(&mut self, key: u64) -> (hit: bool)
        ensures
            old(self).key_looked_up(final(self), key, hit),
    ;

    /// Insert `key`.
    fn insert_key(&mut self, key: u64)
        ensures
            old(self).key_inserted(final(self), key),
    ;

    /// Remove `key`.
    fn delete_key(&mut self, key: u64)
        ensures
            old(self).key_deleted(final(self), key),
    ;
}

/// Wraps a cache so that it can be driven by the simulator.
#[derive(Debug, Clone)]
pub struct CachekitAdapter<C> {
    cache: C,
}

impl<C> CachekitAdapter<C> {
    /// The wrapped cache.
    pub closed spec fn cache(&self) -> C {
        self.cache
    }

    /// An adapter wrapping `cache`.
    pub fn new(cache: C) -> (r: CachekitAdapter<C>)
        ensures
            r.cache() == cache,
    {
        CachekitAdapter { cache }
    }

    /// Returns a reference to the underlying cache.
    pub fn inner(&self) -> (r: &C)
        ensures
            *r == self.cache(),
    {
        &self.cache
    }

    /// Returns a mutable reference to the underlying cache.
    pub fn inner_mut(&mut self) -> (r: &mut C)
        ensures
            *r == old(self).cache(),
            final(self).cache() == *final(r),
    {
        &mut self.cache
    }

    /// Consumes the adapter and returns the underlying cache.
    pub fn into_inner(self) -> (r: C)
        ensures
            r == self.cache(),
    {
        self.cache
    }
}

/// Each call on the adapter is the same call on the wrapped cache.
impl<C: SimpleCacheLike> CacheModel for CachekitAdapter<C> {
    open spec fn looked_up(&self, after: &Self, key: u64, hit: bool) -> bool {
        self.cache().key_looked_up(&after.cache(), key, hit)
    }

    open spec fn inserted(&self, after: &Self, key: u64) -> bool {
        self.cache().key_inserted(&after.cache(), key)
    }

    open spec fn deleted(&self, after: &Self, key: u64) -> bool {
        self.cache().key_deleted(&after.cache(), key)
    }

    fn get(&mut self, key: u64) -> bool {
        self.cache.get_key(key)
    }

    fn insert(&mut self, key: u64) {
        self.cache.insert_key(key);
    }

    fn delete(&mut self, key: u64) {
        self.cache.delete_key(key);
    }
}

} // verus!
