use balance_resolver::store::{TtlCache, CACHE_TTL_MS, CACHE_TTL_SECS};

#[test]
fn ttl_constants_match() {
    assert_eq!(CACHE_TTL_SECS, 10);
    assert_eq!(CACHE_TTL_MS, 10_000);
    assert_eq!(CACHE_TTL_SECS * 1000, CACHE_TTL_MS);
}

#[test]
fn read_absent_key() {
    let cache = TtlCache::new(CACHE_TTL_MS);
    assert_eq!(cache.read("0xabc", 0), None);
}

#[test]
fn read_within_ttl() {
    let mut cache = TtlCache::new(CACHE_TTL_MS);
    cache.write("0xabc", 5, 1000);
    assert_eq!(cache.read("0xabc", 1000), Some(5));
    assert_eq!(cache.read("0xabc", 10_999), Some(5));
}

#[test]
fn read_after_ttl_elapsed() {
    let mut cache = TtlCache::new(CACHE_TTL_MS);
    cache.write("0xabc", 5, 1000);
    // the time-to-live has elapsed exactly at written + ttl
    assert_eq!(cache.read("0xabc", 11_000), None);
    assert_eq!(cache.read("0xabc", 50_000), None);
}

#[test]
fn write_overwrites_and_resets_ttl() {
    let mut cache = TtlCache::new(CACHE_TTL_MS);
    cache.write("0xabc", 1, 0);
    cache.write("0xabc", 2, 5000);
    // the old entry would be expired at 12_000; the rewrite keeps it alive
    assert_eq!(cache.read("0xabc", 12_000), Some(2));
    assert_eq!(cache.read("0xabc", 14_999), Some(2));
    assert_eq!(cache.read("0xabc", 15_000), None);
}

#[test]
fn other_keys_are_untouched() {
    let mut cache = TtlCache::new(CACHE_TTL_MS);
    cache.write("0xaaa", 1, 0);
    cache.write("0xbbb", 2, 0);
    cache.write("0xaaa", 3, 100);
    assert_eq!(cache.read("0xaaa", 200), Some(3));
    assert_eq!(cache.read("0xbbb", 200), Some(2));
    assert_eq!(cache.read("0xccc", 200), None);
}

#[test]
fn expired_entry_can_be_rewritten() {
    let mut cache = TtlCache::new(CACHE_TTL_MS);
    cache.write("0xabc", 7, 0);
    assert_eq!(cache.read("0xabc", 20_000), None);
    cache.write("0xabc", 8, 20_000);
    assert_eq!(cache.read("0xabc", 25_000), Some(8));
}
