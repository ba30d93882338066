use vstd::prelude::*;
use crate::store::KeyedStore;

verus! {

/// Milliseconds from `from` to `to` on a monotonic clock, zero if `to` is
/// not later.
pub open spec fn elapsed(from: u64, to: u64) -> int {
    if to >= from {
        to - from
    } else {
        0
    }
}

/// A cached value with the instant (in milliseconds) it was stored.
pub struct CacheEntry<T> {
    pub data: T,
    pub timestamp: u64,
}

impl<T> CacheEntry<T> {
    pub fn new(data: T, now: u64) -> (r: Self)
        ensures
            r.data == data,
            r.timestamp == now,
    {
        CacheEntry { data, timestamp: now }
    }

    /// An entry is stale once more than `ttl` milliseconds have passed.
    pub fn is_expired(&self, now: u64, ttl: u64) -> (r: bool)
        ensures
            r == (elapsed(self.timestamp, now) > ttl),
    {
        now >= self.timestamp && now - self.timestamp > ttl
    }
}

/// A keyed cache whose entries are checked for age when read.
pub struct TtlCache<T> {
    entries: KeyedStore<CacheEntry<T>>,
}

/// The value under a key that is still fresh at `now`, if any.
pub open spec fn fresh_value<T>(m: Map<Seq<char>, CacheEntry<T>>, k: Seq<char>, now: u64, ttl: u64) -> Option<T> {
    if m.contains_key(k) && elapsed(m[k].timestamp, now) <= ttl {
        Some(m[k].data)
    } else {
        None
    }
}

impl<T> TtlCache<T> {
    pub closed spec fn wf(&self) -> bool {
        self.entries.wf()
    }

    pub closed spec fn view(&self) -> Map<Seq<char>, CacheEntry<T>> {
        self.entries@
    }

    pub fn new() -> (r: Self)
        ensures
            r.wf(),
            r@ == Map::<Seq<char>, CacheEntry<T>>::empty(),
    {
        TtlCache { entries: KeyedStore::new() }
    }

    /// The value under `key` unless it is older than `ttl`.
    pub fn lookup(&self, key: &String, now: u64, ttl: u64) -> (r: Option<&T>)
        requires
            self.wf(),
        ensures
            r matches Some(v) ==> fresh_value(self@, key@, now, ttl) == Some(*v),
            r is None ==> fresh_value(self@, key@, now, ttl) is None,
    {
        match self.entries.get(key) {
            Some(e) => {
                if e.is_expired(now, ttl) {
                    None
                } else {
                    Some(&e.data)
                }
            },
            None => None,
        }
    }

    pub fn store(&mut self, key: String, data: T, now: u64)
        requires
            old(self).wf(),
        ensures
            final(self).wf(),
            final(self)@ == old(self)@.insert(key@, CacheEntry { data, timestamp: now }),
    {
        self.entries.insert(key, CacheEntry::new(data, now));
    }

    pub fn clear(&mut self)
        ensures
            final(self).wf(),
            final(self)@ == Map::<Seq<char>, CacheEntry<T>>::empty(),
    {
        self.entries.clear();
    }
}

/// A value stored at `stored` is served again, unchanged, at any later
/// instant less than `ttl` after it, and is due for a new fetch once `ttl`
/// has been exceeded.
pub proof fn lemma_cache_ttl<T>(m: Map<Seq<char>, CacheEntry<T>>, k: Seq<char>, v: T, stored: u64, now: u64, ttl: u64)
    requires
        now >= stored,
    ensures
        now - stored < ttl ==> fresh_value(m.insert(k, CacheEntry { data: v, timestamp: stored }), k, now, ttl) == Some(v),
        now - stored > ttl ==> fresh_value(m.insert(k, CacheEntry { data: v, timestamp: stored }), k, now, ttl) is None,
{
}

} // verus!
