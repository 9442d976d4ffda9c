use solana_holder_bot::{ApiState, Address, CacheEntry, CachedResult, HolderCache, HolderCountResponse};

fn mint(b: u8) -> Address {
    Address { bytes: [b; 32] }
}

#[test]
fn third_key_evicts_oldest_fetch() {
    let mut cache = HolderCache::new(30);
    assert_eq!(cache.max_tokens(), 2);
    cache.store(&mint(1), 10, 100);
    cache.store(&mint(2), 20, 200);
    // mint 1 was inserted first but refreshed last, so mint 2 is the oldest fetch
    assert!(cache.refresh(&mint(1), 11, 300));
    cache.store(&mint(3), 30, 400);
    assert_eq!(cache.len(), 2);
    assert!(cache.lookup(&mint(2)).is_none());
    assert_eq!(cache.lookup(&mint(1)).unwrap().count, 11);
    assert_eq!(cache.lookup(&mint(3)).unwrap().count, 30);
    assert_eq!(cache.len(), 2);
}

#[test]
fn eviction_tie_takes_first_entry() {
    let mut cache = HolderCache::new(30);
    cache.store(&mint(1), 1, 50);
    cache.store(&mint(2), 2, 50);
    cache.store(&mint(3), 3, 60);
    assert!(cache.lookup(&mint(1)).is_none());
    assert!(cache.lookup(&mint(2)).is_some());
}

#[test]
fn hit_counts_one_request() {
    let mut cache = HolderCache::new(30);
    let first = cache.store(&mint(4), 7, 1000);
    assert_eq!(first.request_count, 1);
    assert_eq!(first.first_seen, 1000);
    let hit = cache.lookup(&mint(4)).unwrap();
    assert_eq!(hit.request_count, 2);
    assert_eq!(hit.count, 7);
    assert_eq!(hit.first_seen, 1000);
    assert_eq!(hit.timestamp, 1000);
}

#[test]
fn refresh_keeps_requests_and_first_seen() {
    let mut cache = HolderCache::new(30);
    cache.store(&mint(5), 7, 1000);
    cache.lookup(&mint(5));
    assert!(cache.refresh(&mint(5), 9, 2000));
    let tokens = cache.get_tracked_tokens();
    assert_eq!(tokens.len(), 1);
    assert_eq!(tokens[0].holders, 9);
    assert_eq!(tokens[0].last_updated, 2000);
    assert_eq!(tokens[0].request_count, 2);
    assert_eq!(tokens[0].first_seen, 1000);
    assert_eq!(tokens[0].mint, mint(5).to_text());
}

#[test]
fn refresh_of_evicted_mint_changes_nothing() {
    let mut cache = HolderCache::new(30);
    cache.store(&mint(1), 1, 1);
    assert!(!cache.refresh(&mint(2), 5, 9));
    assert_eq!(cache.len(), 1);
    assert!(cache.lookup(&mint(2)).is_none());
}

#[test]
fn miss_on_empty_cache() {
    let mut cache = HolderCache::new(30);
    assert!(cache.lookup(&mint(1)).is_none());
    assert_eq!(cache.len(), 0);
}

#[test]
fn storing_resident_mint_keeps_history() {
    let mut cache = HolderCache::new(30);
    cache.store(&mint(1), 1, 1);
    cache.lookup(&mint(1));
    cache.store(&mint(2), 2, 2);
    let e = cache.store(&mint(1), 5, 10);
    assert_eq!(e.request_count, 3);
    assert_eq!(e.first_seen, 1);
    assert_eq!(e.timestamp, 10);
    assert_eq!(cache.len(), 2);
    assert_eq!(cache.lookup(&mint(1)).unwrap().count, 5);
}

#[test]
fn stats_sum_requests() {
    let mut cache = HolderCache::with_capacity(3, 60);
    assert_eq!(cache.refresh_interval_secs(), 60);
    assert_eq!(cache.api_timeout_secs(), 5);
    cache.store(&mint(1), 1, 1);
    cache.store(&mint(2), 2, 2);
    cache.store(&mint(3), 3, 3);
    cache.lookup(&mint(2));
    cache.lookup(&mint(2));
    let stats = cache.get_cache_stats();
    assert_eq!(stats.total_tracked_tokens, 3);
    assert_eq!(stats.total_requests, 5);
    assert_eq!(stats.cache_size_bytes, std::mem::size_of::<Vec<solana_holder_bot::HolderCacheEntry>>() as u64);
    let mints = cache.resident_mints();
    assert_eq!(mints, vec![mint(1), mint(2), mint(3)]);
}

#[test]
fn response_marks_cached_hits() {
    let mut cache = HolderCache::new(30);
    let fresh = cache.store(&mint(1), 3, 77);
    let r = HolderCountResponse::from_entry("m".to_string(), &fresh);
    assert!(!r.cached);
    assert_eq!(r.holders, 3);
    assert_eq!(r.timestamp, 77);
    let hit = cache.lookup(&mint(1)).unwrap();
    assert!(HolderCountResponse::from_entry("m".to_string(), &hit).cached);
}

#[test]
fn ttl_entry_expires() {
    let e = CacheEntry { result: CachedResult { count: 1, timestamp_ms: 1000 }, ttl_ms: 500 };
    assert!(e.is_valid(1000));
    assert!(e.is_valid(1499));
    assert!(e.is_expired(1500));
    assert!(!e.is_valid(2000));
    assert!(e.is_valid(10));
}

#[test]
fn ttl_table_serves_until_expiry() {
    let mut state = ApiState::new(30);
    assert!(state.cached_response(&mint(1), "a".to_string(), 0).is_none());
    state.record(&mint(1), 12, 1_000);
    let hit = state.cached_response(&mint(1), "a".to_string(), 6_500).unwrap();
    assert!(hit.cached);
    assert_eq!(hit.holders, 12);
    assert_eq!(hit.timestamp, 5);
    assert_eq!(hit.mint, "a");
    assert!(state.cached_response(&mint(1), "a".to_string(), 31_000).is_none());
    assert!(state.cached_response(&mint(2), "b".to_string(), 1_000).is_none());
    state.record(&mint(1), 13, 40_000);
    assert_eq!(state.cached_response(&mint(1), "a".to_string(), 40_001).unwrap().holders, 13);
    let fresh = HolderCountResponse::fetched("a".to_string(), 13);
    assert!(!fresh.cached);
    assert_eq!(fresh.timestamp, 0);
}
