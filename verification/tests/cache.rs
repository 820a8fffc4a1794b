use solana_explorer::cache::HeadSlotCache;

#[test]
fn empty_cache_misses() {
    let cache = HeadSlotCache::new(500);
    assert_eq!(cache.read(1_000), None);
}

#[test]
fn fresh_entry_hits_until_ttl_passes() {
    let mut cache = HeadSlotCache::new(500);
    cache.store(1_000, 42);
    assert_eq!(cache.read(1_000), Some(42));
    assert_eq!(cache.read(1_400), Some(42));
    assert_eq!(cache.read(1_500), Some(42));
    assert_eq!(cache.read(1_501), None);
}

#[test]
fn clock_going_backwards_invalidates() {
    let mut cache = HeadSlotCache::new(500);
    cache.store(1_000, 42);
    assert_eq!(cache.read(999), None);
}

#[test]
fn store_replaces_previous_entry() {
    let mut cache = HeadSlotCache::new(500);
    cache.store(1_000, 42);
    cache.store(2_000, 43);
    assert_eq!(cache.read(2_100), Some(43));
    // The old entry's window does not linger.
    assert_eq!(cache.read(1_400), None);
}
