//! Short-lived, in-process caches whose entries expire a fixed time after
//! they were written.
//!
//! Every cache couples a storage strategy with one time-to-live. A write wraps
//! the value with the deadline `now + ttl`; a read hands the value back only
//! while the clock has not passed that deadline. Expired entries are never
//! swept: they stay where they are until the next write to the same key.
//!
//! The storage strategies are
//! - [`sharded::Cache`]: a map split into independently locked shards,
//! - [`lockfree::Cache`]: a lock-free concurrent map,
//! - [`plain::Cache`]: an unsynchronised hash map, to be shared behind a
//!   reader/writer lock,
//! - [`slots::CacheVec`]: a fixed array of slots indexed by small integer keys.
//!
//! [`model`] states what reads and writes mean over a map of entries, and the
//! laws that follow from it.

pub mod entry;
pub mod lockfree;
pub mod model;
pub mod plain;
pub mod sharded;
pub mod slots;
pub mod time;

