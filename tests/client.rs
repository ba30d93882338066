use tarkuck::api::{
    request_url, search_query, uid_query, ApiError, RateLimiter, TarkovMarketAPI, ALL_ITEMS_TTL_MS, ITEM_TTL_MS,
    MIN_REQUEST_INTERVAL_MS,
};
use tarkuck::cache::{CacheEntry, TtlCache};
use tarkuck::item::Item;

fn item(uid: &str, name: &str, price: i32, icon: &str, img: &str) -> Item {
    Item {
        uid: uid.to_string(),
        name: name.to_string(),
        short_name: name.to_string(),
        price,
        avg_24h_price: price,
        avg_7days_price: price,
        trader_name: "Therapist".to_string(),
        trader_price: price / 2,
        icon: icon.to_string(),
        img: img.to_string(),
        img_big: String::new(),
        bsg_id: uid.to_string(),
        is_functional: true,
        tags: vec!["Barter".to_string()],
        updated: "2024-01-01T00:00:00Z".to_string(),
    }
}

#[test]
fn cache_entry_expiry() {
    let e = CacheEntry::new(7u8, 1_000);
    assert_eq!(e.data, 7);
    assert_eq!(e.timestamp, 1_000);
    assert!(!e.is_expired(1_000, 300));
    assert!(!e.is_expired(1_300, 300));
    assert!(e.is_expired(1_301, 300));
    assert!(!e.is_expired(500, 300));
}

#[test]
fn ttl_cache_serves_until_ttl() {
    let mut c: TtlCache<u32> = TtlCache::new();
    let k = "key".to_string();
    assert_eq!(c.lookup(&k, 0, 10), None);
    c.store(k.clone(), 5, 100);
    assert_eq!(c.lookup(&k, 105, 10), Some(&5));
    assert_eq!(c.lookup(&k, 110, 10), Some(&5));
    assert_eq!(c.lookup(&k, 111, 10), None);
    c.store(k.clone(), 6, 111);
    assert_eq!(c.lookup(&k, 111, 10), Some(&6));
    c.clear();
    assert_eq!(c.lookup(&k, 111, 10), None);
}

#[test]
fn search_is_cached_case_insensitively() {
    let mut api = TarkovMarketAPI::new("test-key".to_string(), 0);
    assert!(api.search_item("Salewa", 0).is_none());
    api.store_search("Salewa", vec![item("a", "Salewa", 100, "", "")], 1_000);
    let hit = api.search_item("SALEWA", 1_000 + ITEM_TTL_MS - 1).unwrap();
    assert_eq!(hit.len(), 1);
    assert_eq!(hit[0].uid, "a");
    assert!(api.search_item("salewa", 1_000 + ITEM_TTL_MS + 1).is_none());
    assert_eq!(TarkovMarketAPI::search_key("AbC"), "abc");
}

#[test]
fn item_lookup_is_keyed_by_uid() {
    let mut api = TarkovMarketAPI::new("k".to_string(), 0);
    let uid = "5c0e".to_string();
    assert!(api.get_item_by_uid(&uid, 0).is_none());
    let picked = TarkovMarketAPI::pick_item(vec![item("x", "X", 1, "", ""), item("5c0e", "LEDX", 2, "", "")]).unwrap();
    assert_eq!(picked.uid, "5c0e");
    api.store_item(uid.clone(), picked, 10);
    assert_eq!(api.get_item_by_uid(&uid, 20).unwrap().name, "LEDX");
    assert!(api.get_item_by_uid(&"other".to_string(), 20).is_none());
    assert!(api.get_item_by_uid(&uid, 10 + ITEM_TTL_MS + 1).is_none());
}

#[test]
fn empty_id_lookup_is_not_found() {
    assert_eq!(TarkovMarketAPI::pick_item(Vec::new()).unwrap_err(), ApiError::NotFound);
}

#[test]
fn full_listing_has_long_ttl() {
    let mut api = TarkovMarketAPI::new("k".to_string(), 0);
    assert!(api.get_all_items(0).is_none());
    api.store_all_items(vec![item("a", "A", 1, "", ""), item("b", "B", 2, "", "")], 0);
    assert_eq!(api.get_all_items(ALL_ITEMS_TTL_MS).unwrap().len(), 2);
    assert!(api.get_all_items(ALL_ITEMS_TTL_MS + 1).is_none());
    assert!(api.search_item("all_items", 0).is_none());
    assert!(api.search_item("ALL_ITEMS", 0).is_none());
}

#[test]
fn search_does_not_touch_full_listing() {
    let mut api = TarkovMarketAPI::new("k".to_string(), 0);
    api.store_all_items(vec![item("a", "A", 1, "", "")], 0);
    api.store_search("all_items", Vec::new(), 0);
    assert_eq!(api.get_all_items(1).unwrap().len(), 1);
    assert_eq!(api.search_item("all_items", 1).unwrap().len(), 0);
    api.clear_cache();
    assert!(api.get_all_items(1).is_none());
}

#[test]
fn clear_cache_empties_both() {
    let mut api = TarkovMarketAPI::new("k".to_string(), 0);
    api.store_search("q", Vec::new(), 0);
    api.store_item("u".to_string(), item("u", "U", 1, "", ""), 0);
    api.clear_cache();
    assert!(api.search_item("q", 1).is_none());
    assert!(api.get_item_by_uid(&"u".to_string(), 1).is_none());
    assert_eq!(api.api_key, "k");
}

#[test]
fn back_to_back_requests_are_spaced() {
    let mut api = TarkovMarketAPI::new("k".to_string(), 1_000);
    let mut sent = Vec::new();
    let mut now = 1_000u64;
    for _ in 0..5 {
        let d = api.wait_for_rate_limit(now);
        sent.push(now + d);
        now += d;
    }
    for w in sent.windows(2) {
        assert!(w[1] - w[0] >= MIN_REQUEST_INTERVAL_MS);
    }
    assert_eq!(sent[0], 1_200);
    assert_eq!(api.wait_for_rate_limit(10_000), 0);
}

#[test]
fn limiter_waits_for_the_rest_of_the_interval() {
    let mut l = RateLimiter::new(0, 200);
    assert_eq!(l.wait_for_rate_limit(50), 150);
    assert_eq!(l.last_request, 200);
    assert_eq!(l.wait_for_rate_limit(500), 0);
    assert_eq!(l.last_request, 500);
    assert_eq!(l.wait_for_rate_limit(100), 600);
    assert_eq!(l.last_request, 700);
}

#[test]
fn request_strings() {
    assert_eq!(search_query("ak 74"), "q=ak 74");
    assert_eq!(uid_query("5c0e"), "uid=5c0e");
    assert_eq!(request_url("/item", "q=x"), "https://api.tarkov-market.app/api/v1/item?q=x");
}

#[test]
fn image_url_prefers_icon() {
    let a = item("a", "A", 1, "icon-a", "img-a");
    assert_eq!(a.image_url().unwrap(), "icon-a");
    let b = item("b", "B", 1, "", "img-b");
    assert_eq!(b.image_url().unwrap(), "img-b");
    let c = item("c", "C", 1, "", "");
    assert!(c.image_url().is_none());
}
