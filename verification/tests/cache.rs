use insightboard::cache::{classify_lookup, CacheLookup, MemoryStore};
use insightboard::error::AppError;
use insightboard::widgets::{
    cache_key, serve_after_lookup, serve_twice, serve_via_store, FetchOutcome, CRYPTO_TTL_SECONDS,
};

fn success(body: &str) -> FetchOutcome {
    FetchOutcome::Response {
        status: 200,
        body: body.to_string(),
        detail: "200 OK".to_string(),
    }
}

#[test]
fn classify_absorbs_store_failures() {
    assert_eq!(
        classify_lookup(Ok(Some("payload".to_string()))),
        CacheLookup::Hit("payload".to_string())
    );
    assert_eq!(classify_lookup(Ok(None)), CacheLookup::Miss);
    assert_eq!(
        classify_lookup(Err("connection refused".to_string())),
        CacheLookup::Unavailable
    );
}

#[test]
fn store_set_then_get_within_ttl() {
    let mut store = MemoryStore::new();
    store.set("weather:Berlin", "{\"temp\":3}", 600, 1_000);
    assert_eq!(store.get("weather:Berlin", 1_000), Some("{\"temp\":3}".to_string()));
    assert_eq!(store.get("weather:Berlin", 1_599), Some("{\"temp\":3}".to_string()));
}

#[test]
fn store_entry_expires_exactly_at_ttl() {
    let mut store = MemoryStore::new();
    store.set("k", "v", 120, 1_000);
    assert_eq!(store.get("k", 1_119), Some("v".to_string()));
    assert_eq!(store.get("k", 1_120), None);
}

#[test]
fn store_last_write_wins() {
    let mut store = MemoryStore::new();
    store.set("k", "old", 600, 1_000);
    store.set("k", "new", 600, 1_010);
    assert_eq!(store.get("k", 1_020), Some("new".to_string()));
    assert_eq!(store.get("other", 1_020), None);
}

#[test]
fn store_delete_and_exists() {
    let mut store = MemoryStore::new();
    store.set("a", "1", 600, 1_000);
    store.set("b", "2", 600, 1_000);
    assert!(store.key_exists("a", 1_001));
    store.delete("a");
    assert!(!store.key_exists("a", 1_001));
    assert_eq!(store.get("a", 1_001), None);
    assert_eq!(store.get("b", 1_001), Some("2".to_string()));
}

#[test]
fn miss_fetches_and_populates() {
    let mut store = MemoryStore::new();
    let (r, fetched) = serve_via_store(&mut store, "news:technology", 900, 1_000, &success("[]"));
    assert_eq!(r.unwrap(), "[]");
    assert!(fetched);
    assert_eq!(store.get("news:technology", 1_500), Some("[]".to_string()));
}

#[test]
fn hit_serves_without_fetch() {
    let mut store = MemoryStore::new();
    store.set("k", "cached", 600, 1_000);
    let (r, fetched) = serve_via_store(&mut store, "k", 600, 1_100, &success("fresh"));
    assert_eq!(r.unwrap(), "cached");
    assert!(!fetched);
}

#[test]
fn upstream_error_is_not_cached() {
    let mut store = MemoryStore::new();
    let bad = FetchOutcome::Response {
        status: 503,
        body: String::new(),
        detail: "upstream returned status 503".to_string(),
    };
    let (r, fetched) = serve_via_store(&mut store, "k", 600, 1_000, &bad);
    assert_eq!(
        r.unwrap_err(),
        AppError::ExternalApi("upstream returned status 503".to_string())
    );
    assert!(fetched);
    assert_eq!(store.get("k", 1_000), None);
}

#[test]
fn transport_failure_is_bad_gateway() {
    let mut store = MemoryStore::new();
    let down = FetchOutcome::Transport { detail: "connect timeout".to_string() };
    let (r, _) = serve_via_store(&mut store, "k", 600, 1_000, &down);
    let e = r.unwrap_err();
    assert_eq!(e.status_code(), 502);
    assert_eq!(e.client_message(), "External service error");
}

#[test]
fn two_queries_within_ttl_fetch_once() {
    // The crypto scenario: the same query twice within the five-minute
    // time-to-live costs one live call and yields byte-identical payloads.
    let mut store = MemoryStore::new();
    let key = cache_key("crypto", "BTC,ETH");
    assert_eq!(key, "crypto:BTC,ETH");
    let live = success("{\"bitcoin\":{\"usd\":50000.0},\"ethereum\":{\"usd\":4000.0}}");
    let (first, second) =
        serve_twice(&mut store, &key, CRYPTO_TTL_SECONDS, 1_000, 1_250, &live);
    assert!(first.1);
    assert!(!second.1);
    assert_eq!(first.0.unwrap(), second.0.unwrap());
}

#[test]
fn unavailable_store_is_served_like_a_miss() {
    // Fail-open: a dead store still yields the correct live payload, and no
    // error a caller could attribute to the cache.
    let live = success("live-data");
    let (hit_like, fetched) = serve_after_lookup(&CacheLookup::Unavailable, &live);
    assert_eq!(hit_like.unwrap(), "live-data");
    assert!(fetched);

    let (miss, _) = serve_after_lookup(&CacheLookup::Miss, &live);
    assert_eq!(miss.unwrap(), "live-data");

    let down = FetchOutcome::Transport { detail: "no route".to_string() };
    let (r, _) = serve_after_lookup(&CacheLookup::Unavailable, &down);
    match r.unwrap_err() {
        AppError::ExternalApi(_) => {}
        other => panic!("cache unavailability must never surface, got {:?}", other),
    }
}

#[test]
fn hit_lookup_short_circuits() {
    let live = success("should-not-be-used");
    let (r, fetched) = serve_after_lookup(&CacheLookup::Hit("cached".to_string()), &live);
    assert_eq!(r.unwrap(), "cached");
    assert!(!fetched);
}
