use vstd::prelude::*;
use crate::cache::{elapsed, fresh_value, CacheEntry, TtlCache};
use crate::item::Item;

verus! {

/// Fewest milliseconds between two outbound requests: five per second.
pub const MIN_REQUEST_INTERVAL_MS: u64 = 200;

/// How long a search or single-item answer stays fresh.
pub const ITEM_TTL_MS: u64 = 300_000;

/// How long the full listing stays fresh.
pub const ALL_ITEMS_TTL_MS: u64 = 3_600_000;

pub const API_BASE: &'static str = "https://api.tarkov-market.app/api/v1";

/// What `str::to_lowercase` makes of a string.
pub uninterp spec fn lower_of(s: Seq<char>) -> Seq<char>;

/// Relies on `str::to_lowercase`: the result depends on the characters alone.
#[verifier::external_body]
fn lowercase(s: &str) -> (r: String)
    ensures
        r@ == lower_of(s@),
{
    s.to_lowercase()
}

/// Errors of the market service client.
#[derive(Debug, Clone, PartialEq, Eq)]
pub enum ApiError {
    /// A non-success status, with the response body.
    Transport { status: u16, body: String },
    /// The service answered an id lookup with no item.
    NotFound,
}

/// When a request that asks at `now` may go out, given the last one went out
/// at `last`: not before `now`, and not before `last + interval`.
pub open spec fn send_time(last: u64, interval: u64, now: u64) -> int {
    if now as int >= last + interval {
        now as int
    } else {
        last + interval
    }
}

/// The single limiter that every outbound request passes.
pub struct RateLimiter {
    pub last_request: u64,
    pub min_interval: u64,
}

impl RateLimiter {
    pub fn new(now: u64, min_interval: u64) -> (r: Self)
        ensures
            r.last_request == now,
            r.min_interval == min_interval,
    {
        RateLimiter { last_request: now, min_interval }
    }

    /// How long a request that asks at `now` must wait; the instant it then
    /// goes out becomes the last request.
    pub fn wait_for_rate_limit(&mut self, now: u64) -> (delay: u64)
        requires
            old(self).last_request as int + old(self).min_interval <= u64::MAX,
        ensures
            now + delay == send_time(old(self).last_request, old(self).min_interval, now),
            final(self).last_request == now + delay,
            final(self).min_interval == old(self).min_interval,
    {
        let earliest = self.last_request + self.min_interval;
        let delay: u64 = if now >= earliest {
            0
        } else {
            earliest - now
        };
        self.last_request = now + delay;
        delay
    }
}

/// Two requests that pass the limiter one after the other go out at least the
/// minimum interval apart, and neither before it asked, whatever clock
/// readings the two callers pass.
pub proof fn lemma_requests_spaced(last: u64, interval: u64, now1: u64, now2: u64)
    requires
        last as int + interval <= u64::MAX,
        send_time(last, interval, now1) + interval <= u64::MAX,
    ensures
        send_time(last, interval, now1) >= now1,
        send_time(last, interval, now1) >= last + interval,
        send_time(send_time(last, interval, now1) as u64, interval, now2) >= now2,
        send_time(send_time(last, interval, now1) as u64, interval, now2) >= send_time(last, interval, now1)
            + interval,
{
}

/// The full listing if it is held and still fresh at `now`.
pub open spec fn fresh_listing(
    e: Option<CacheEntry<Vec<Item>>>,
    now: u64,
    ttl: u64,
) -> Option<Vec<Item>> {
    match e {
        Some(entry) => if elapsed(entry.timestamp, now) <= ttl {
            Some(entry.data)
        } else {
            None
        },
        None => None,
    }
}

/// The state of the market service client: the item and search caches, the
/// full listing kept apart from both, and the rate limiter.
pub struct TarkovMarketAPI {
    pub api_key: String,
    pub item_cache: TtlCache<Item>,
    pub search_cache: TtlCache<Vec<Item>>,
    pub all_items: Option<CacheEntry<Vec<Item>>>,
    pub limiter: RateLimiter,
}

impl TarkovMarketAPI {
    pub open spec fn wf(&self) -> bool {
        self.item_cache.wf() && self.search_cache.wf() && self.limiter.min_interval == MIN_REQUEST_INTERVAL_MS
    }

    pub fn new(api_key: String, now: u64) -> (r: Self)
        ensures
            r.wf(),
            r.api_key == api_key,
            r.item_cache@ == Map::<Seq<char>, CacheEntry<Item>>::empty(),
            r.search_cache@ == Map::<Seq<char>, CacheEntry<Vec<Item>>>::empty(),
            r.all_items is None,
            r.limiter.last_request == now,
    {
        TarkovMarketAPI {
            api_key,
            item_cache: TtlCache::new(),
            search_cache: TtlCache::new(),
            all_items: None,
            limiter: RateLimiter::new(now, MIN_REQUEST_INTERVAL_MS),
        }
    }

    /// The cache key of a search: the query in lower case.
    pub fn search_key(query: &str) -> (r: String)
        ensures
            r@ == lower_of(query@),
    {
        lowercase(query)
    }

    /// A search answer still fresh at `now`; `None` means a request is due.
    pub fn search_item(&self, query: &str, now: u64) -> (r: Option<&Vec<Item>>)
        requires
            self.wf(),
        ensures
            r matches Some(v) ==> fresh_value(self.search_cache@, lower_of(query@), now, ITEM_TTL_MS) == Some(*v),
            r is None ==> fresh_value(self.search_cache@, lower_of(query@), now, ITEM_TTL_MS) is None,
    {
        let key = Self::search_key(query);
        self.search_cache.lookup(&key, now, ITEM_TTL_MS)
    }

    /// Keeps the answer to a search that was fetched at `now`.
    pub fn store_search(&mut self, query: &str, items: Vec<Item>, now: u64)
        requires
            old(self).wf(),
        ensures
            final(self).wf(),
            final(self).search_cache@ == old(self).search_cache@.insert(
                lower_of(query@),
                CacheEntry { data: items, timestamp: now },
            ),
            final(self).item_cache@ == old(self).item_cache@,
            final(self).all_items == old(self).all_items,
            final(self).limiter == old(self).limiter,
            final(self).api_key == old(self).api_key,
    {
        let key = Self::search_key(query);
        self.search_cache.store(key, items, now);
    }

    /// An item still fresh at `now`, keyed by its uid; `None` means a
    /// request is due.
    pub fn get_item_by_uid(&self, uid: &String, now: u64) -> (r: Option<&Item>)
        requires
            self.wf(),
        ensures
            r matches Some(v) ==> fresh_value(self.item_cache@, uid@, now, ITEM_TTL_MS) == Some(*v),
            r is None ==> fresh_value(self.item_cache@, uid@, now, ITEM_TTL_MS) is None,
    {
        self.item_cache.lookup(uid, now, ITEM_TTL_MS)
    }

    /// The item of an id lookup: the last one the service listed, or
    /// `NotFound` when it listed none.
    pub fn pick_item(items: Vec<Item>) -> (r: Result<Item, ApiError>)
        ensures
            items@.len() == 0 ==> r == Err::<Item, ApiError>(ApiError::NotFound),
            items@.len() > 0 ==> r == Ok::<Item, ApiError>(items@.last()),
    {
        let mut items = items;
        match items.pop() {
            Some(item) => Ok(item),
            None => Err(ApiError::NotFound),
        }
    }

    /// Keeps an item that was fetched at `now`.
    pub fn store_item(&mut self, uid: String, item: Item, now: u64)
        requires
            old(self).wf(),
        ensures
            final(self).wf(),
            final(self).item_cache@ == old(self).item_cache@.insert(uid@, CacheEntry { data: item, timestamp: now }),
            final(self).search_cache@ == old(self).search_cache@,
            final(self).all_items == old(self).all_items,
            final(self).limiter == old(self).limiter,
            final(self).api_key == old(self).api_key,
    {
        self.item_cache.store(uid, item, now);
    }

    /// The full listing if still fresh at `now`; `None` means a request is due.
    pub fn get_all_items(&self, now: u64) -> (r: Option<&Vec<Item>>)
        ensures
            r matches Some(v) ==> fresh_listing(self.all_items, now, ALL_ITEMS_TTL_MS) == Some(*v),
            r is None ==> fresh_listing(self.all_items, now, ALL_ITEMS_TTL_MS) is None,
    {
        match &self.all_items {
            Some(e) => {
                if e.is_expired(now, ALL_ITEMS_TTL_MS) {
                    None
                } else {
                    Some(&e.data)
                }
            },
            None => None,
        }
    }

    /// Keeps the full listing fetched at `now`, apart from the searches.
    pub fn store_all_items(&mut self, items: Vec<Item>, now: u64)
        requires
            old(self).wf(),
        ensures
            final(self).wf(),
            final(self).all_items == Some(CacheEntry { data: items, timestamp: now }),
            final(self).search_cache@ == old(self).search_cache@,
            final(self).item_cache@ == old(self).item_cache@,
            final(self).limiter == old(self).limiter,
            final(self).api_key == old(self).api_key,
    {
        self.all_items = Some(CacheEntry::new(items, now));
    }

    /// Empties every cache, the full listing included.
    pub fn clear_cache(&mut self)
        requires
            old(self).wf(),
        ensures
            final(self).wf(),
            final(self).item_cache@ == Map::<Seq<char>, CacheEntry<Item>>::empty(),
            final(self).search_cache@ == Map::<Seq<char>, CacheEntry<Vec<Item>>>::empty(),
            final(self).all_items is None,
            final(self).limiter == old(self).limiter,
            final(self).api_key == old(self).api_key,
    {
        self.item_cache.clear();
        self.search_cache.clear();
        self.all_items = None;
    }

    /// Passes the rate limiter before a request that asks at `now`; returns how
    /// many milliseconds to wait first.
    pub fn wait_for_rate_limit(&mut self, now: u64) -> (delay: u64)
        requires
            old(self).wf(),
            old(self).limiter.last_request as int + MIN_REQUEST_INTERVAL_MS <= u64::MAX,
        ensures
            final(self).wf(),
            now + delay == send_time(old(self).limiter.last_request, MIN_REQUEST_INTERVAL_MS, now),
            final(self).limiter.last_request == now + delay,
            final(self).item_cache@ == old(self).item_cache@,
            final(self).search_cache@ == old(self).search_cache@,
            final(self).all_items == old(self).all_items,
            final(self).api_key == old(self).api_key,
    {
        self.limiter.wait_for_rate_limit(now)
    }
}

/// The query string of a search.
pub open spec fn search_query_of(query: Seq<char>) -> Seq<char> {
    seq!['q', '='] + query
}

/// The query string of an id lookup.
pub open spec fn uid_query_of(uid: Seq<char>) -> Seq<char> {
    seq!['u', 'i', 'd', '='] + uid
}

pub fn search_query(query: &str) -> (r: String)
    ensures
        r@ == search_query_of(query@),
{
    proof {
        reveal_strlit("q=");
    }
    let mut r = String::from_str("q=");
    r.append(query);
    assert(r@ =~= search_query_of(query@));
    r
}

pub fn uid_query(uid: &str) -> (r: String)
    ensures
        r@ == uid_query_of(uid@),
{
    proof {
        reveal_strlit("uid=");
    }
    let mut r = String::from_str("uid=");
    r.append(uid);
    assert(r@ =~= uid_query_of(uid@));
    r
}

/// The full URL of a request: base, endpoint, `?`, query.
pub fn request_url(endpoint: &str, query: &str) -> (r: String)
    ensures
        r@ == API_BASE@ + endpoint@ + seq!['?'] + query@,
{
    proof {
        reveal_strlit("?");
    }
    let mut r = String::from_str(API_BASE);
    r.append(endpoint);
    r.append("?");
    r.append(query);
    assert(r@ =~= API_BASE@ + endpoint@ + seq!['?'] + query@);
    r
}

} // verus!
