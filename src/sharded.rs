//! A cache over a map split into independently locked shards.
//!
//! Reads and writes take `&self` and lock only the shard that holds the key,
//! so they need no lock of the caller's and run concurrently on different
//! keys. Two writes to one key race and the last one wins; each read sees one
//! whole entry, never a mix of two writes. No read keeps a shard locked after
//! it returns: a hit hands back a clone of the value.
//!
//! The map's contents change behind `&self`, so the contracts here cannot
//! speak of them. What a cache does with an entry that a lookup found, or
//! that a write replaced, is `take_live` and `take_replaced`, proved for every
//! entry.

use crate::entry::{take_live, take_replaced, InternalEntry};
use crate::plain::presize;
use crate::time::{Clock, Moment, Span};
use ahash::RandomState;
use dashmap::DashMap;
use std::hash::{BuildHasher, Hash};
use vstd::prelude::*;

verus! {

#[verifier::external_type_specification]
#[verifier::external_body]
#[verifier::reject_recursive_types(K)]
#[verifier::reject_recursive_types(V)]
#[verifier::reject_recursive_types(S)]
pub struct ExDashMap<K, V, S>(DashMap<K, V, S>);

#[verifier::external_type_specification]
#[verifier::external_body]
pub struct ExRandomState(RandomState);

/// Relies on `ahash::RandomState::new`: a hasher builder with random keys.
/// It takes no input; it panics only if the operating system cannot supply
/// random bytes for the process-wide seed.
pub assume_specification[ RandomState::new ]() -> RandomState;

/// Relies on `DashMap::with_capacity_and_hasher`: an empty map with room for
/// `capacity` keys. The capacity is kept small enough that sizing the shards
/// cannot overflow.
#[verifier::external_body]
fn new_map<K: Eq + Hash, V, S: BuildHasher + Clone>(capacity: usize, hasher: S) -> DashMap<K, V, S>
    requires
        capacity <= 1_048_576,
{
    DashMap::with_capacity_and_hasher(capacity, hasher)
}

/// Relies on `DashMap::insert`: stores the entry under the key, holding the
/// key's shard locked for the write only, and hands back the entry it
/// replaced. What it replaced depends on the other writers.
#[verifier::external_body]
fn put_entry<K: Eq + Hash, V, S: BuildHasher + Clone>(
    map: &DashMap<K, InternalEntry<V>, S>,
    key: K,
    entry: InternalEntry<V>,
) -> Option<InternalEntry<V>> {
    map.insert(key, entry)
}

/// Relies on `DashMap::get`: a clone of the entry stored under the key, taken
/// while the key's shard is read-locked; the lock is released before the
/// clone is handed back. What it finds depends on the writers.
#[verifier::external_body]
fn find_entry<K: Eq + Hash, V: Clone, S: BuildHasher + Clone>(
    map: &DashMap<K, InternalEntry<V>, S>,
    key: &K,
) -> Option<InternalEntry<V>> {
    map.get(key).map(|found| found.value().clone())
}

/// A cache whose entries expire `ttl` after they were written, shareable
/// between threads without a lock of the caller's.
///
/// Keys are hashed with aHash's randomly keyed hasher unless another is given.
#[verifier::reject_recursive_types(K)]
#[verifier::reject_recursive_types(V)]
#[verifier::reject_recursive_types(S)]
pub struct Cache<K, V, S = RandomState> {
    map: DashMap<K, InternalEntry<V>, S>,
    ttl: Span,
    clock: Clock,
}

impl<K, V, S> Cache<K, V, S> {
    /// The time-to-live shared by every key.
    pub closed spec fn spec_ttl(&self) -> Span {
        self.ttl
    }
}

impl<K: Eq + Hash, V, S: BuildHasher + Clone> Cache<K, V, S> {
    /// An empty cache that reserves room for `capacity` keys (at most
    /// `MAX_PRESIZE`) and hashes them with `hasher`.
    pub fn with_ttl_sz_and_hasher(ttl: Span, capacity: usize, hasher: S) -> (r: Self)
        ensures
            r.spec_ttl() == ttl,
    {
        Cache { map: new_map(presize(capacity), hasher), ttl, clock: Clock::new() }
    }

    /// The time-to-live shared by every key.
    pub fn ttl(&self) -> (r: Span)
        ensures
            r == self.spec_ttl(),
    {
        self.ttl
    }

    /// A reading of the clock that this cache stamps its writes with.
    pub fn now(&self) -> Moment {
        self.clock.now()
    }

    /// Writes `value` to `key` as of `now`, with the deadline `now + ttl`;
    /// hands back the value of the entry it replaced, even an expired one.
    pub fn insert_at(&self, key: K, value: V, now: Moment) -> (r: Option<V>) {
        let entry = InternalEntry::ttl(value, self.ttl, now);
        take_replaced(put_entry(&self.map, key, entry))
    }

    /// Writes `value` to `key` with a deadline `ttl` from now; hands back the
    /// value of the entry it replaced, even an expired one.
    pub fn insert(&self, key: K, value: V) -> (r: Option<V>) {
        let now = self.clock.now();
        self.insert_at(key, value, now)
    }
}

impl<K: Eq + Hash, V: Clone, S: BuildHasher + Clone> Cache<K, V, S> {
    /// A clone of the value stored for `key`, unless none is stored or its
    /// entry has expired at `now`.
    pub fn get_at(&self, key: &K, now: Moment) -> (r: Option<V>) {
        take_live(find_entry(&self.map, key), now)
    }

    /// A clone of the value stored for `key`, unless none is stored or its
    /// entry has expired by the time of the call.
    pub fn get(&self, key: &K) -> (r: Option<V>) {
        let now = self.clock.now();
        self.get_at(key, now)
    }
}

impl<K: Eq + Hash, V> Cache<K, V, RandomState> {
    pub fn with_ttl(ttl: Span) -> (r: Self)
        ensures
            r.spec_ttl() == ttl,
    {
        Cache::with_ttl_sz_and_hasher(ttl, 0, RandomState::new())
    }

    /// An empty cache that reserves room for `capacity` keys, at most
    /// `MAX_PRESIZE`.
    pub fn with_ttl_and_size(ttl: Span, capacity: usize) -> (r: Self)
        ensures
            r.spec_ttl() == ttl,
    {
        Cache::with_ttl_sz_and_hasher(ttl, capacity, RandomState::new())
    }
}

} // verus!
