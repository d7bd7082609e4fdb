//! A cache over a lock-free concurrent hash map.
//!
//! Reads and writes take `&self` and take no lock at all. A write swaps in a
//! whole new entry, so a concurrent read sees either the old entry or the new
//! one, never a mix. A read hands back a clone of the value.
//!
//! As with the sharded cache, the map's contents change behind `&self` and the
//! contracts cannot speak of them; `take_live` and `take_replaced` carry the
//! proved part.

use crate::entry::{take_live, take_replaced, InternalEntry};
use crate::time::{Clock, Moment, Span};
use std::hash::{BuildHasher, Hash};
use vstd::prelude::*;

verus! {

#[verifier::external_type_specification]
#[verifier::external_body]
#[verifier::reject_recursive_types(K)]
#[verifier::reject_recursive_types(V)]
#[verifier::reject_recursive_types(S)]
pub struct ExChtMap<K, V, S>(cht::HashMap<K, V, S>);

/// Relies on `cht::HashMap::new`: an empty map hashed with aHash's randomly
/// keyed hasher.
#[verifier::external_body]
fn new_map<K, V>() -> cht::HashMap<K, V> {
    cht::HashMap::new()
}

/// Relies on `cht::HashMap::insert`: stores the entry under the key and hands
/// back a clone of the entry it replaced. What it replaced depends on the
/// other writers.
#[verifier::external_body]
fn put_entry<K: Hash + Eq, V: Clone, S: BuildHasher>(
    map: &cht::HashMap<K, InternalEntry<V>, S>,
    key: K,
    entry: InternalEntry<V>,
) -> Option<InternalEntry<V>> {
    map.insert(key, entry)
}

/// Relies on `cht::HashMap::get`: a clone of the entry stored under the key.
/// What it finds depends on the writers.
#[verifier::external_body]
fn find_entry<K: Hash + Eq, V: Clone, S: BuildHasher>(
    map: &cht::HashMap<K, InternalEntry<V>, S>,
    key: &K,
) -> Option<InternalEntry<V>> {
    map.get(key)
}

/// A cache whose entries expire `ttl` after they were written, shareable
/// between threads without any lock.
#[verifier::reject_recursive_types(K)]
#[verifier::reject_recursive_types(V)]
pub struct Cache<K, V> {
    map: cht::HashMap<K, InternalEntry<V>>,
    ttl: Span,
    clock: Clock,
}

impl<K, V> Cache<K, V> {
    /// The time-to-live shared by every key.
    pub closed spec fn spec_ttl(&self) -> Span {
        self.ttl
    }
}

impl<K: Hash + Eq, V: Clone> Cache<K, V> {
    pub fn with_ttl(ttl: Span) -> (r: Self)
        ensures
            r.spec_ttl() == ttl,
    {
        Cache { map: new_map(), ttl, clock: Clock::new() }
    }

    /// The time-to-live shared by every key.
    pub fn ttl(&self) -> (r: Span)
        ensures
            r == self.spec_ttl(),
    {
        self.ttl
    }

    /// A reading of the clock that this cache stamps its writes with.
    pub fn now(&self) -> Moment {
        self.clock.now()
    }

    /// Writes `value` to `key` as of `now`, with the deadline `now + ttl`;
    /// hands back the value of the entry it replaced, even an expired one.
    pub fn insert_at(&self, key: K, value: V, now: Moment) -> (r: Option<V>) {
        let entry = InternalEntry::ttl(value, self.ttl, now);
        take_replaced(put_entry(&self.map, key, entry))
    }

    /// Writes `value` to `key` with a deadline `ttl` from now; hands back the
    /// value of the entry it replaced, even an expired one.
    pub fn insert(&self, key: K, value: V) -> (r: Option<V>) {
        let now = self.clock.now();
        self.insert_at(key, value, now)
    }

    /// A clone of the value stored for `key`, unless none is stored or its
    /// entry has expired at `now`.
    pub fn get_at(&self, key: K, now: Moment) -> (r: Option<V>) {
        take_live(find_entry(&self.map, &key), now)
    }

    /// A clone of the value stored for `key`, unless none is stored or its
    /// entry has expired by the time of the call.
    pub fn get(&self, key: K) -> (r: Option<V>) {
        let now = self.clock.now();
        self.get_at(key, now)
    }
}

} // verus!
