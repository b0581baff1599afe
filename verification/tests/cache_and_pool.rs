use d365_automate::json::Json;
use d365_automate::odata::error::D365Error;
use d365_automate::odata::metadata_cache::MetadataCache;
use d365_automate::odata::mock::MockD365Client;
use d365_automate::odata::pool::ConnectionPool;

fn identity() -> Json {
    Json::Object(vec![("legal_entity".to_string(), Json::Str("USMF".to_string()))])
}

#[test]
fn second_lookup_is_a_cache_hit() {
    let inner = MockD365Client::new(2, identity());
    let mut cache = MetadataCache::new(inner, 60_000);
    let _ = cache.service_metadata("LedgerGeneralJournalEntryPost", "en-us", 0).unwrap();
    let _ = cache.service_metadata("LedgerGeneralJournalEntryPost", "en-us", 10).unwrap();
    let s = cache.stats();
    assert_eq!(s.hits, 1);
    assert_eq!(s.misses, 1);
    assert_eq!(s.entries, 1);
}

#[test]
fn invalidate_clears_entries() {
    let inner = MockD365Client::new(2, identity());
    let mut cache = MetadataCache::new(inner, 60_000);
    let _ = cache.service_metadata("EnvironmentInfo", "en-us", 0).unwrap();
    cache.invalidate_all();
    assert_eq!(cache.stats().entries, 0);
    assert_eq!(cache.stats().evictions, 1);
}

#[test]
fn expired_entries_are_fetched_again() {
    let inner = MockD365Client::new(2, identity());
    let mut cache = MetadataCache::new(inner, 1_000);
    let _ = cache.service_metadata("EnvironmentInfo", "en-us", 0).unwrap();
    let _ = cache.service_metadata("EnvironmentInfo", "en-us", 1_000).unwrap();
    let _ = cache.service_metadata("EnvironmentInfo", "en-us", 2_001).unwrap();
    let s = cache.stats();
    assert_eq!((s.hits, s.misses, s.entries), (1, 2, 1));
}

#[test]
fn zero_ttl_disables_caching() {
    let inner = MockD365Client::new(2, identity());
    let mut cache = MetadataCache::new(inner, 0);
    let _ = cache.service_metadata("EnvironmentInfo", "en-us", 0).unwrap();
    let _ = cache.service_metadata("EnvironmentInfo", "en-us", 0).unwrap();
    let s = cache.stats();
    assert_eq!((s.hits, s.misses, s.entries), (0, 2, 0));
}

#[test]
fn unknown_operation_is_not_cached() {
    let inner = MockD365Client::new(2, identity());
    let mut cache = MetadataCache::new(inner, 60_000);
    assert!(matches!(cache.service_metadata("Nope", "en-us", 0), Err(D365Error::NotFound(_))));
    assert_eq!(cache.stats().entries, 0);
}

#[test]
fn bulk_serves_cached_and_fetches_the_rest() {
    let inner = MockD365Client::new(2, identity());
    let mut cache = MetadataCache::new(inner, 60_000);
    let _ = cache.service_metadata("EnvironmentInfo", "en-us", 0).unwrap();
    let ops = vec![
        "EnvironmentInfo".to_string(),
        "LedgerGeneralJournalEntryPost".to_string(),
        "Nope".to_string(),
    ];
    let b = cache.bulk_service_metadata(&ops, "en-us", 5).unwrap();
    assert_eq!(b.operations.len(), 2);
    assert_eq!(b.operations[0].operation, "EnvironmentInfo");
    assert_eq!(b.operations[1].operation, "LedgerGeneralJournalEntryPost");
    assert_eq!(b.missing, vec!["Nope".to_string()]);
    let s = cache.stats();
    assert_eq!((s.hits, s.misses, s.entries), (1, 3, 2));
    let again = cache.bulk_service_metadata(&ops[..2], "en-us", 6).unwrap();
    assert_eq!(again.operations.len(), 2);
    assert!(again.missing.is_empty());
    assert_eq!(cache.stats().hits, 3);
}

#[test]
fn cap_is_enforced() {
    let pool = ConnectionPool::new(2);
    let _a = pool.try_acquire().unwrap();
    let _b = pool.try_acquire().unwrap();
    assert!(pool.try_acquire().is_err());
    assert_eq!(pool.available(), 0);
}

#[test]
fn slot_released_on_drop() {
    let pool = ConnectionPool::new(1);
    {
        let _g = pool.try_acquire().unwrap();
        assert_eq!(pool.available(), 0);
    }
    assert_eq!(pool.available(), 1);
}

#[test]
fn exhausted_pool_reports_its_cap() {
    let pool = ConnectionPool::new(0);
    assert_eq!(pool.cap(), 1);
    let _a = pool.try_acquire().unwrap();
    match pool.try_acquire() {
        Err(D365Error::PoolExhausted { cap }) => assert_eq!(cap, 1),
        other => panic!("got {:?}", other.map(|_| ())),
    }
}
