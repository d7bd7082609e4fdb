//! What reads and writes mean over a map from keys to entries, shared by the
//! caches whose contents Verus can see, and the laws that follow.

use crate::entry::InternalEntry;
use crate::time::{Moment, Span};
use vstd::prelude::*;

verus! {

/// What a read of `key` at `now` returns: the stored value while its entry is
/// live; nothing when the key was never written or its entry has expired.
pub open spec fn lookup<K, V>(m: Map<K, InternalEntry<V>>, key: K, now: Moment) -> Option<V> {
    if m.contains_key(key) {
        m[key].live_at(now)
    } else {
        None
    }
}

/// What a write to `key` hands back: the value stored there before, whether
/// or not its entry had expired.
pub open spec fn previous<K, V>(m: Map<K, InternalEntry<V>>, key: K) -> Option<V> {
    if m.contains_key(key) {
        Some(m[key].value)
    } else {
        None
    }
}

/// The map after writing `value` to `key` at `now` under `ttl`. Value and
/// deadline are both replaced.
pub open spec fn store<K, V>(
    m: Map<K, InternalEntry<V>>,
    key: K,
    value: V,
    ttl: Span,
    now: Moment,
) -> Map<K, InternalEntry<V>> {
    m.insert(key, InternalEntry::stamped(value, ttl, now))
}

/// A borrowed result seen as the value it points to.
pub open spec fn owned<V>(r: Option<&V>) -> Option<V> {
    match r {
        Some(v) => Some(*v),
        None => None,
    }
}

/// A value written at `written` is read back at `read` as long as no more
/// than the time-to-live has passed since the write, and is absent once more
/// than the time-to-live has passed.
pub proof fn lemma_expiry<K, V>(
    m: Map<K, InternalEntry<V>>,
    key: K,
    value: V,
    ttl: Span,
    written: Moment,
    read: Moment,
)
    ensures
        read.nanos - written.nanos <= ttl.nanos ==> lookup(
            store(m, key, value, ttl, written),
            key,
            read,
        ) == Some(value),
        read.nanos - written.nanos > ttl.nanos ==> lookup(
            store(m, key, value, ttl, written),
            key,
            read,
        ) == None::<V>,
{
}

/// The first write to a key hands back nothing; a second write hands back the
/// first value even when it has already expired; a read afterwards sees the
/// second value, with the deadline counted from the second write.
pub proof fn lemma_overwrite<K, V>(
    m: Map<K, InternalEntry<V>>,
    key: K,
    first: V,
    second: V,
    ttl: Span,
    first_written: Moment,
    second_written: Moment,
    read: Moment,
)
    requires
        !m.contains_key(key),
    ensures
        previous(m, key) == None::<V>,
        previous(store(m, key, first, ttl, first_written), key) == Some(first),
        lookup(
            store(store(m, key, first, ttl, first_written), key, second, ttl, second_written),
            key,
            read,
        ) == (if read.nanos - second_written.nanos <= ttl.nanos {
            Some(second)
        } else {
            None
        }),
{
}

} // verus!
