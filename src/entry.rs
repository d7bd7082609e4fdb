//! A cached value together with its deadline.

use crate::time::{Moment, Span};
use vstd::prelude::*;

verus! {

/// A value wrapped with the moment after which it counts as absent.
///
/// The deadline is fixed when the entry is written and reads never move it:
/// there is no sliding expiration.
#[derive(Clone, Debug)]
pub struct InternalEntry<V> {
    pub value: V,
    pub expiration: Moment,
}

impl<V> InternalEntry<V> {
    /// The entry that a write of `value` at `now` creates under `ttl`.
    pub open spec fn stamped(value: V, ttl: Span, now: Moment) -> InternalEntry<V> {
        InternalEntry { value, expiration: now.plus(ttl) }
    }

    /// Whether the clock reading `now` lies past the deadline. At the
    /// deadline itself the entry is still live.
    pub open spec fn expired_at(self, now: Moment) -> bool {
        now.is_past(self.expiration)
    }

    /// The value as a read at `now` sees it.
    pub open spec fn live_at(self, now: Moment) -> Option<V> {
        if self.expired_at(now) {
            None
        } else {
            Some(self.value)
        }
    }

    pub fn new(value: V, expiration: Moment) -> (r: InternalEntry<V>)
        ensures
            r.value == value,
            r.expiration == expiration,
    {
        InternalEntry { value, expiration }
    }

    /// The entry for `value` written at `now`, live for `ttl`.
    pub fn ttl(value: V, ttl: Span, now: Moment) -> (r: InternalEntry<V>)
        ensures
            r == InternalEntry::stamped(value, ttl, now),
    {
        InternalEntry::new(value, now.after(ttl))
    }

    pub fn is_expired(&self, now: Moment) -> (r: bool)
        ensures
            r == self.expired_at(now),
    {
        now.nanos > self.expiration.nanos
    }

    /// The value, unless the entry has expired at `now`.
    pub fn get(&self, now: Moment) -> (r: Option<&V>)
        ensures
            r == (if self.expired_at(now) { None } else { Some(&self.value) }),
    {
        if self.is_expired(now) {
            None
        } else {
            Some(&self.value)
        }
    }

    /// Takes the value out, unless the entry has expired at `now`.
    pub fn into_live(self, now: Moment) -> (r: Option<V>)
        ensures
            r == self.live_at(now),
    {
        if self.is_expired(now) {
            None
        } else {
            Some(self.value)
        }
    }

    /// Takes the value out whether or not the entry has expired.
    pub fn into_value(self) -> (r: V)
        ensures
            r == self.value,
    {
        self.value
    }
}

/// What a read at `now` returns for a lookup that found `found`.
pub open spec fn live_value<V>(found: Option<InternalEntry<V>>, now: Moment) -> Option<V> {
    match found {
        Some(e) => e.live_at(now),
        None => None,
    }
}

/// The value of a replaced entry, expired or not.
pub open spec fn raw_value<V>(replaced: Option<InternalEntry<V>>) -> Option<V> {
    match replaced {
        Some(e) => Some(e.value),
        None => None,
    }
}

/// What a read at `now` returns for a lookup that found `found`.
pub fn take_live<V>(found: Option<InternalEntry<V>>, now: Moment) -> (r: Option<V>)
    ensures
        r == live_value(found, now),
{
    match found {
        Some(e) => e.into_live(now),
        None => None,
    }
}

/// The value that a write hands back for the entry it replaced: the raw
/// value, whether or not that entry had already expired.
pub fn take_replaced<V>(replaced: Option<InternalEntry<V>>) -> (r: Option<V>)
    ensures
        r == raw_value(replaced),
{
    match replaced {
        Some(e) => Some(e.into_value()),
        None => None,
    }
}

} // verus!
