use stackwalk::rule_cache::CacheResult;
use stackwalk::rule_cache::CacheStats;
use stackwalk::rule_cache::RuleCache;
use stackwalk::unwind_rule::UnwindRuleX86_64;

#[test]
fn insert_then_lookup_hits_with_the_inserted_rule() {
    let mut cache = RuleCache::new();
    let rule = UnwindRuleX86_64::OffsetSp { sp_offset_by_8: 3 };
    match cache.lookup(1000, 7) {
        CacheResult::Miss(handle) => cache.insert(handle, rule),
        CacheResult::Hit(_) => panic!("fresh cache must miss"),
    }
    match cache.lookup(1000, 7) {
        CacheResult::Hit(got) => assert_eq!(got, rule),
        CacheResult::Miss(_) => panic!("lookup after insert must hit"),
    }
}

#[test]
fn wrong_generation_and_wrong_address_miss_separately() {
    let mut cache = RuleCache::new();
    let rule = UnwindRuleX86_64::JustReturn;
    match cache.lookup(1000, 7) {
        CacheResult::Miss(handle) => cache.insert(handle, rule),
        CacheResult::Hit(_) => panic!("fresh cache must miss"),
    }
    let stats = cache.stats();
    assert_eq!(stats.miss_empty_slot_count, 1);
    assert_eq!(stats.hit_count, 0);

    // Same address and generation: hit.
    assert!(matches!(cache.lookup(1000, 7), CacheResult::Hit(_)));
    assert_eq!(cache.stats().hit_count, 1);

    // Same address, later generation: a wrong-modules miss.
    assert!(matches!(cache.lookup(1000, 8), CacheResult::Miss(_)));
    let stats = cache.stats();
    assert_eq!(stats.miss_wrong_modules_count, 1);
    assert_eq!(stats.miss_wrong_address_count, 0);

    // Different address in the same slot: a wrong-address miss.
    assert!(matches!(cache.lookup(1000 + 509, 7), CacheResult::Miss(_)));
    let stats = cache.stats();
    assert_eq!(stats.miss_wrong_address_count, 1);
    assert_eq!(stats.miss_wrong_modules_count, 1);
    assert_eq!(stats.miss_empty_slot_count, 1);
    assert_eq!(stats.hit_count, 1);
    assert_eq!(stats.hits(), 1);
    assert_eq!(stats.misses(), 3);
    assert_eq!(stats.total(), 4);
}

#[test]
fn insert_with_stale_handle_is_honoured() {
    // A handle whose generation is no longer current still inserts; the
    // stale entry shows up as a miss under the current generation and as a
    // hit under its own.
    let mut cache = RuleCache::new();
    let rule = UnwindRuleX86_64::UseFramePointer;
    let handle = match cache.lookup(42, 1) {
        CacheResult::Miss(handle) => handle,
        CacheResult::Hit(_) => panic!("fresh cache must miss"),
    };
    cache.insert(handle, rule);
    assert!(matches!(cache.lookup(42, 2), CacheResult::Miss(_)));
    match cache.lookup(42, 1) {
        CacheResult::Hit(got) => assert_eq!(got, rule),
        CacheResult::Miss(_) => panic!("entry under its own generation must hit"),
    }
}

#[test]
fn collision_overwrites_the_slot() {
    let mut cache = RuleCache::new();
    let first = UnwindRuleX86_64::OffsetSp { sp_offset_by_8: 1 };
    let second = UnwindRuleX86_64::OffsetSp { sp_offset_by_8: 2 };
    match cache.lookup(5, 1) {
        CacheResult::Miss(handle) => cache.insert(handle, first),
        CacheResult::Hit(_) => panic!("fresh cache must miss"),
    }
    // The colliding address takes over the slot.
    match cache.lookup(5 + 509, 1) {
        CacheResult::Miss(handle) => cache.insert(handle, second),
        CacheResult::Hit(_) => panic!("collision must miss"),
    }
    match cache.lookup(5 + 509, 1) {
        CacheResult::Hit(got) => assert_eq!(got, second),
        CacheResult::Miss(_) => panic!("overwritten slot must hit"),
    }
    assert!(matches!(cache.lookup(5, 1), CacheResult::Miss(_)));
}

#[test]
fn fresh_stats_are_zero() {
    let stats = CacheStats::new();
    assert_eq!(stats.hits(), 0);
    assert_eq!(stats.misses(), 0);
    assert_eq!(stats.total(), 0);
    assert_eq!(CacheStats::default(), stats);
    assert_eq!(RuleCache::new().stats(), stats);
}
