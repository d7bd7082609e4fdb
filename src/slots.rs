//! A cache over a fixed array of slots, for small dense integer keys.
//!
//! A key is the index of its slot. No hashing, no resizing: the number of
//! slots is fixed when the cache is built, and it is a hard ceiling. A read of
//! a key past it finds nothing, and **a write to a key past it is silently
//! dropped**: it is not an error, and a later read still finds nothing.

use crate::entry::InternalEntry;
use crate::model::{lookup, store};
use crate::time::{Clock, Moment, Span};
use vstd::prelude::*;

verus! {

/// The number of slots of a cache built by `CacheVec::with_ttl`.
pub const SLOT_COUNT: usize = 99189;

/// A cache of strings in a fixed number of slots, whose entries expire `ttl`
/// after they were written.
///
/// A slot that was never written holds no entry and reads as absent, exactly
/// as a slot whose entry has expired.
pub struct CacheVec {
    slots: Vec<Option<InternalEntry<String>>>,
    ttl: Span,
    clock: Clock,
}

impl View for CacheVec {
    type V = Map<u32, InternalEntry<Seq<char>>>;

    /// The written slots, each with the text it holds.
    closed spec fn view(&self) -> Map<u32, InternalEntry<Seq<char>>> {
        Map::new(
            |k: u32| k < self.slots@.len() && self.slots@[k as int] is Some,
            |k: u32|
                InternalEntry {
                    value: self.slots@[k as int]->Some_0.value@,
                    expiration: self.slots@[k as int]->Some_0.expiration,
                },
        )
    }
}

impl CacheVec {
    /// The number of slots: keys from 0 up to it, excluded, can be stored.
    pub closed spec fn bound(&self) -> nat {
        self.slots@.len()
    }

    /// The time-to-live shared by every slot.
    pub closed spec fn spec_ttl(&self) -> Span {
        self.ttl
    }

    /// A cache with `SLOT_COUNT` empty slots.
    pub fn with_ttl(ttl: Span) -> (r: CacheVec)
        ensures
            r@.dom().is_empty(),
            r.bound() == SLOT_COUNT,
            r.spec_ttl() == ttl,
    {
        CacheVec::with_ttl_and_bound(ttl, SLOT_COUNT)
    }

    /// A cache with `bound` empty slots.
    pub fn with_ttl_and_bound(ttl: Span, bound: usize) -> (r: CacheVec)
        ensures
            r@.dom().is_empty(),
            r.bound() == bound,
            r.spec_ttl() == ttl,
    {
        let mut slots: Vec<Option<InternalEntry<String>>> = Vec::with_capacity(bound);
        let mut i: usize = 0;
        while i < bound
            invariant
                i <= bound,
                slots@.len() == i,
                forall|j: int| 0 <= j < i ==> slots@[j] is None,
            decreases bound - i,
        {
            slots.push(None);
            i = i + 1;
        }
        let r = CacheVec { slots, ttl, clock: Clock::new() };
        assert(r@.dom() =~= Set::empty());
        r
    }

    /// The number of slots.
    pub fn len(&self) -> (r: usize)
        ensures
            r == self.bound(),
    {
        self.slots.len()
    }

    /// A reading of the clock that this cache stamps its writes with.
    pub fn now(&self) -> Moment {
        self.clock.now()
    }

    /// The text in slot `idx`, unless the slot was never written, its entry
    /// has expired at `now`, or `idx` lies past the last slot.
    pub fn get_at(&self, idx: u32, now: Moment) -> (r: Option<&String>)
        ensures
            match r {
                Some(s) => lookup(self@, idx, now) == Some(s@),
                None => lookup(self@, idx, now) is None,
            },
            idx >= self.bound() ==> r is None,
    {
        if (idx as usize) < self.slots.len() {
            match &self.slots[idx as usize] {
                Some(entry) => entry.get(now),
                None => None,
            }
        } else {
            None
        }
    }

    /// The text in slot `idx`, unless the slot was never written, its entry
    /// has expired by the time of the call, or `idx` lies past the last slot.
    pub fn get(&self, idx: u32) -> (r: Option<&String>)
        ensures
            exists|now: Moment|
                match r {
                    Some(s) => #[trigger] lookup(self@, idx, now) == Some(s@),
                    None => lookup(self@, idx, now) is None,
                },
            idx >= self.bound() ==> r is None,
    {
        let now = self.clock.now();
        self.get_at(idx, now)
    }

    /// Writes `value` to slot `idx` as of `now`. A write past the last slot
    /// changes nothing.
    pub fn insert_at(&mut self, idx: u32, value: &str, now: Moment)
        ensures
            final(self).bound() == old(self).bound(),
            final(self).spec_ttl() == old(self).spec_ttl(),
            idx < old(self).bound() ==> final(self)@ == store(
                old(self)@,
                idx,
                value@,
                old(self).spec_ttl(),
                now,
            ),
            idx >= old(self).bound() ==> final(self)@ == old(self)@,
    {
        if (idx as usize) < self.slots.len() {
            let entry = InternalEntry::ttl(value.to_owned(), self.ttl, now);
            self.slots.set(idx as usize, Some(entry));
            assert(self@ =~= store(old(self)@, idx, value@, old(self).spec_ttl(), now));
        }
    }

    /// Writes `value` to slot `idx` with a deadline `ttl` from now. A write
    /// past the last slot changes nothing.
    pub fn insert(&mut self, idx: u32, value: &str)
        ensures
            final(self).bound() == old(self).bound(),
            final(self).spec_ttl() == old(self).spec_ttl(),
            idx < old(self).bound() ==> exists|now: Moment|
                #[trigger] store(old(self)@, idx, value@, old(self).spec_ttl(), now)
                    == final(self)@,
            idx >= old(self).bound() ==> final(self)@ == old(self)@,
    {
        let now = self.clock.now();
        self.insert_at(idx, value, now);
    }
}

/// A key past the last slot is never found, whatever was written to it.
pub proof fn lemma_past_bound_absent(cache: CacheVec, idx: u32, now: Moment)
    requires
        idx >= cache.bound(),
    ensures
        !cache@.contains_key(idx),
        lookup(cache@, idx, now) is None,
{
}

} // verus!
