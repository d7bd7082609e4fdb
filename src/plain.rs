//! A cache over a plain hash map with no concurrency control of its own.
//!
//! To share it between threads, wrap the whole cache in a reader/writer lock.
//! Take the read lock for a lookup and release it before any slow work that a
//! miss leads to; take the write lock again only for the write itself.

use crate::entry::InternalEntry;
use crate::model::{lookup, owned, previous, store};
use crate::time::{Clock, Moment, Span};
use std::collections::hash_map::RandomState;
use std::collections::HashMap;
use std::hash::{BuildHasher, Hash};
use vstd::prelude::*;
use vstd::std_specs::hash::{builds_valid_hashers, obeys_key_model};

verus! {

broadcast use vstd::std_specs::hash::group_hash_axioms;

/// The largest capacity that a cache reserves up front. A larger hint is
/// lowered to it; the map still grows past it on demand.
pub const MAX_PRESIZE: usize = 1_048_576;

/// Relies on `HashMap::with_capacity_and_hasher`: the map it builds is empty.
/// The capacity is kept small enough that sizing the table cannot overflow.
pub assume_specification<K, V, S>[ HashMap::<K, V, S>::with_capacity_and_hasher ](capacity: usize, hasher: S) -> (r: HashMap<K, V, S>)
    requires
        capacity <= 1_048_576,
    ensures
        r@.dom().is_empty(),
;

/// Whether hashing keys of type `K` with hashers built by `S` agrees with key
/// equality, as vstd's model of hash maps requires. It holds for the integer
/// keys and std's `RandomState`.
pub open spec fn hashes_faithfully<K, S>() -> bool {
    obeys_key_model::<K>() && builds_valid_hashers::<S>()
}

/// Lowers a capacity hint to `MAX_PRESIZE`.
pub fn presize(capacity: usize) -> (r: usize)
    ensures
        r == (if capacity <= MAX_PRESIZE { capacity } else { MAX_PRESIZE }),
{
    if capacity <= MAX_PRESIZE {
        capacity
    } else {
        MAX_PRESIZE
    }
}

/// A cache whose entries expire `ttl` after they were written.
///
/// Keys are hashed with std's randomly keyed hasher unless another is given.
#[verifier::reject_recursive_types(K)]
#[verifier::reject_recursive_types(S)]
pub struct Cache<K, V, S = RandomState> {
    map: HashMap<K, InternalEntry<V>, S>,
    ttl: Span,
    clock: Clock,
}

impl<K, V, S> View for Cache<K, V, S> {
    type V = Map<K, InternalEntry<V>>;

    closed spec fn view(&self) -> Map<K, InternalEntry<V>> {
        self.map@
    }
}

impl<K, V, S> Cache<K, V, S> {
    /// The time-to-live shared by every key.
    pub closed spec fn spec_ttl(&self) -> Span {
        self.ttl
    }
}

impl<K: Hash + Eq, V, S: BuildHasher> Cache<K, V, S> {
    /// An empty cache that reserves room for `capacity` keys (at most
    /// `MAX_PRESIZE`) and hashes them with `hasher`.
    pub fn with_ttl_sz_and_hasher(ttl: Span, capacity: usize, hasher: S) -> (r: Self)
        ensures
            r@.dom().is_empty(),
            r.spec_ttl() == ttl,
    {
        Cache {
            map: HashMap::with_capacity_and_hasher(presize(capacity), hasher),
            ttl,
            clock: Clock::new(),
        }
    }

    /// The time-to-live shared by every key.
    pub fn ttl(&self) -> (r: Span)
        ensures
            r == self.spec_ttl(),
    {
        self.ttl
    }

    /// A reading of the clock that this cache stamps its writes with.
    pub fn now(&self) -> Moment {
        self.clock.now()
    }

    /// Writes `value` to `key` as of `now`; hands back the value it replaced,
    /// even one that had already expired.
    pub fn insert_at(&mut self, key: K, value: V, now: Moment) -> (r: Option<V>)
        ensures
            final(self).spec_ttl() == old(self).spec_ttl(),
            hashes_faithfully::<K, S>() ==> final(self)@ == store(
                old(self)@,
                key,
                value,
                old(self).spec_ttl(),
                now,
            ),
            hashes_faithfully::<K, S>() ==> r == previous(old(self)@, key),
    {
        let entry = InternalEntry::ttl(value, self.ttl, now);
        match self.map.insert(key, entry) {
            Some(replaced) => Some(replaced.into_value()),
            None => None,
        }
    }

    /// Writes `value` to `key` with a deadline `ttl` from now; hands back the
    /// value it replaced, even one that had already expired.
    pub fn insert(&mut self, key: K, value: V) -> (r: Option<V>)
        ensures
            final(self).spec_ttl() == old(self).spec_ttl(),
            hashes_faithfully::<K, S>() ==> exists|now: Moment|
                #[trigger] store(old(self)@, key, value, old(self).spec_ttl(), now)
                    == final(self)@,
            hashes_faithfully::<K, S>() ==> r == previous(old(self)@, key),
    {
        let now = self.clock.now();
        self.insert_at(key, value, now)
    }

    /// The value stored for `key`, unless it was never written or its entry
    /// has expired at `now`.
    pub fn get_at(&self, key: K, now: Moment) -> (r: Option<&V>)
        ensures
            hashes_faithfully::<K, S>() ==> owned(r) == lookup(self@, key, now),
    {
        match self.map.get(&key) {
            Some(entry) => entry.get(now),
            None => None,
        }
    }

    /// The value stored for `key`, unless it was never written or its entry
    /// has expired by the time of the call.
    pub fn get(&self, key: K) -> (r: Option<&V>)
        ensures
            hashes_faithfully::<K, S>() ==> exists|now: Moment|
                #[trigger] lookup(self@, key, now) == owned(r),
    {
        let now = self.clock.now();
        self.get_at(key, now)
    }
}

impl<K: Hash + Eq, V> Cache<K, V, RandomState> {
    pub fn with_ttl(ttl: Span) -> (r: Self)
        ensures
            r@.dom().is_empty(),
            r.spec_ttl() == ttl,
    {
        Cache { map: HashMap::new(), ttl, clock: Clock::new() }
    }

    /// An empty cache that reserves room for `capacity` keys, at most
    /// `MAX_PRESIZE`.
    pub fn with_ttl_and_size(ttl: Span, capacity: usize) -> (r: Self)
        ensures
            r@.dom().is_empty(),
            r.spec_ttl() == ttl,
    {
        Cache {
            map: HashMap::with_capacity(presize(capacity)),
            ttl,
            clock: Clock::new(),
        }
    }
}

} // verus!
