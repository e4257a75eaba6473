//! The narrow interface a cache under test exposes to the simulator.
use vstd::prelude::*;

verus! {

/// Minimal cache model for hit-rate simulation.
///
/// Implementations track their own capacity and eviction policy; the
/// simulator only asks whether a key is present, inserts, and deletes.
pub trait CacheModel {
    /// What a lookup of `key` answering `hit` does, from `self` to `after`.
    /// Caches that state nothing admit any change.
    open spec fn looked_up(&self, after: &Self, key: u64, hit: bool) -> bool {
        true
    }

    /// What an insertion of `key` does, from `self` to `after`.
    open spec fn inserted(&self, after: &Self, key: u64) -> bool {
        true
    }

    /// What a deletion of `key` does, from `self` to `after`.
    open spec fn deleted(&self, after: &Self, key: u64) -> bool {
        true
    }

    /// Attempt a cache lookup. Returns `true` on hit, `false` on miss.
    fn get(&mut self, key: u64) -> (hit: bool)
        ensures
            old(self).looked_up(final(self), key, hit),
    ;

    /// Insert or update a key with unit weight.
    fn insert(&mut self, key: u64)
        ensures
            old(self).inserted(final(self), key),
    ;

    /// Remove a key from the cache.  A cache without deletion implements it
    /// as a no-op.
    fn delete(&mut self, key: u64)
        ensures
            old(self).deleted(final(self), key),
    ;
}

} // verus!
