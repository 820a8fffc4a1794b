//! Short-lived head-slot memoization.
//!
//! Planning any list request needs the chain's head slot; concurrent
//! requests in the same instant should not each pay an upstream
//! round-trip for it. The cache is an explicit object with a bounded
//! time-to-live: a read either returns the value stored within the
//! last `ttl_ms` milliseconds or misses. The clock is handed in, so
//! the cache is testable with a fake one; the host wraps the object
//! in whatever atomic cell its runtime needs.

use vstd::prelude::*;

verus! {

/// A memoized head slot and when it was stored.
#[derive(Clone, Copy, Debug)]
pub struct CachedHead {
    pub head_slot: u64,
    pub stored_at_ms: u64,
}

/// The head-slot cache: at most one entry, valid for `ttl_ms`.
#[derive(Clone, Copy, Debug)]
pub struct HeadSlotCache {
    pub ttl_ms: u64,
    pub entry: Option<CachedHead>,
}

/// Whether a cache entry is still fresh at `now_ms`: stored no later
/// than now (a clock that went backwards invalidates it) and within
/// the time-to-live.
pub open spec fn spec_fresh(entry: CachedHead, ttl_ms: u64, now_ms: u64) -> bool {
    entry.stored_at_ms <= now_ms <= entry.stored_at_ms + ttl_ms
}

impl HeadSlotCache {
    /// An empty cache with the given time-to-live.
    pub fn new(ttl_ms: u64) -> (r: HeadSlotCache)
        ensures
            r.ttl_ms == ttl_ms,
            r.entry is None,
    {
        HeadSlotCache { ttl_ms, entry: None }
    }

    /// Read at time `now_ms`: the stored head slot exactly when a
    /// fresh entry exists, a miss otherwise.
    pub fn read(&self, now_ms: u64) -> (r: Option<u64>)
        ensures
            match self.entry {
                Some(e) => {
                    if spec_fresh(e, self.ttl_ms, now_ms) {
                        r == Some(e.head_slot)
                    } else {
                        r is None
                    }
                },
                None => r is None,
            },
    {
        match self.entry {
            Some(e) => {
                if e.stored_at_ms <= now_ms && now_ms - e.stored_at_ms <= self.ttl_ms {
                    Some(e.head_slot)
                } else {
                    None
                }
            },
            None => None,
        }
    }

    /// Store a head slot just fetched at time `now_ms`, replacing
    /// whatever was cached.
    pub fn store(&mut self, now_ms: u64, head_slot: u64)
        ensures
            final(self).ttl_ms == old(self).ttl_ms,
            final(self).entry == Some(
                CachedHead { head_slot, stored_at_ms: now_ms },
            ),
    {
        self.entry = Some(CachedHead { head_slot, stored_at_ms: now_ms });
    }
}

} // verus!
