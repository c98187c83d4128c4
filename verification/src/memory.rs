//! The process-local hot cache: bounded, TTL-based, never shared across
//! processes.
//!
//! Entries can vanish at any moment — the TTL elapses, or the bound forces
//! an eviction — so the model records only what was last written under each
//! key: a hit can return nothing newer or older than that.

use vstd::prelude::*;

verus! {

#[verifier::external_type_specification]
#[verifier::external_body]
#[verifier::reject_recursive_types(K)]
#[verifier::reject_recursive_types(V)]
#[verifier::reject_recursive_types(S)]
pub struct ExMokaCache<K, V, S>(moka::sync::Cache<K, V, S>);

/// The longest time-to-live the cache accepts, in milliseconds: one
/// thousand years of 365 days, the bound past which the library
/// underneath refuses to build.
pub const MAX_HOT_TTL_MILLIS: u64 = 31536000000000;

/// The record of a cache holding nothing yet.
pub open spec fn no_entries() -> Map<Seq<char>, Seq<char>> {
    Map::empty()
}

/// A fresh, empty bookkeeping record for a newly built cache.
fn blank_entries() -> (g: Ghost<Map<Seq<char>, Seq<char>>>)
    ensures
        g@ == no_entries(),
{
    Ghost(no_entries())
}

/// In-memory hot cache with a bounded entry count and a fixed
/// time-to-live counted from insertion.
pub struct MemoryCache {
    inner: moka::sync::Cache<String, String>,
    written: Ghost<Map<Seq<char>, Seq<char>>>,
}

impl MemoryCache {
    /// The value last written under each key and not yet invalidated:
    /// the only thing a later hit can return.
    pub closed spec fn entries(&self) -> Map<Seq<char>, Seq<char>> {
        self.written@
    }

    /// Relies on moka::sync::CacheBuilder: a cache bounded to
    /// `max_capacity` entries, each living at most `ttl_millis` from
    /// insertion. The builder panics on a time-to-live beyond a thousand
    /// years, so that span is excluded here.
    #[verifier::external_body]
    pub fn new(max_capacity: u64, ttl_millis: u64) -> (r: MemoryCache)
        requires
            ttl_millis <= MAX_HOT_TTL_MILLIS,
        ensures
            r.entries() == no_entries(),
    {
        MemoryCache {
            inner: moka::sync::Cache::builder().max_capacity(max_capacity).time_to_live(
                core::time::Duration::from_millis(ttl_millis),
            ).build(),
            written: blank_entries(),
        }
    }

    /// Relies on moka::sync::Cache::get: a hit returns exactly what was
    /// last inserted under the key; a miss can happen at any time, since
    /// the TTL or an eviction can remove any entry between two calls.
    #[verifier::external_body]
    pub fn get(&self, key: &str) -> (r: Option<String>)
        ensures
            r matches Some(v) ==> self.entries().dom().contains(key@) && v@
                == self.entries().index(key@),
    {
        self.inner.get(key)
    }

    /// Relies on moka::sync::Cache::insert: stores or overwrites the
    /// entry, restarting its time-to-live.
    #[verifier::external_body]
    pub fn insert(&mut self, key: String, value: String)
        ensures
            final(self).entries() == old(self).entries().insert(key@, value@),
    {
        self.inner.insert(key, value);
    }

    /// Relies on moka::sync::Cache::invalidate: discards the entry, so a
    /// later get of this key misses until something is inserted again.
    #[verifier::external_body]
    pub fn invalidate(&mut self, key: &str)
        ensures
            final(self).entries() == old(self).entries().remove(key@),
    {
        self.inner.invalidate(key);
    }

    /// Relies on moka::sync::Cache::entry_count: an estimate of how many
    /// entries are held; nothing is stated of it, since pending evictions
    /// make it approximate.
    #[verifier::external_body]
    pub fn entry_count(&self) -> u64 {
        self.inner.entry_count()
    }
}

} // verus!
