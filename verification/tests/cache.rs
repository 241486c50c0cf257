use tauri_plugin_cache::cache::expiration;
use tauri_plugin_cache::persist::{load_for_read, StoredFile};
use tauri_plugin_cache::{
    BooleanResponse, Cache, CacheConfig, CacheDocument, CacheEntry, CacheItem, CacheStats,
    CompressionConfig, EmptyResponse, Error, SetItemOptions,
};

fn json(text: &str) -> serde_json::Value {
    serde_json::from_str::<serde_json::Value>(text).unwrap()
}

fn text(value: &str) -> serde_json::Value {
    serde_json::Value::String(value.to_string())
}

fn ttl(seconds: u64) -> Option<SetItemOptions> {
    Some(SetItemOptions { ttl: Some(seconds), compress: None })
}

fn compress(choice: bool) -> Option<SetItemOptions> {
    Some(SetItemOptions { ttl: None, compress: Some(choice) })
}

fn stored(value: serde_json::Value, expires_at: Option<u64>) -> CacheEntry {
    CacheItem { value, expires_at, is_compressed: Some(false) }
}

/// A cache that has never seen the document: what a restart leaves.
fn restarted(cache: &Cache) -> Cache {
    let mut fresh = Cache::new(cache.cleanup_interval());
    let policy = cache.compression();
    fresh.init_with_config(policy.enabled, Some(policy.level), Some(policy.threshold)).unwrap();
    fresh
}

#[test]
fn expiration_adds_the_ttl_to_now() {
    assert_eq!(expiration(Some(1), 1000), Some(1001));
    assert_eq!(expiration(Some(3600), 1_700_000_000), Some(1_700_003_600));
    assert_eq!(expiration(Some(5), 0), Some(5));
}

#[test]
fn expiration_of_no_ttl_or_zero_is_none() {
    assert_eq!(expiration(None, 1000), None);
    assert_eq!(expiration(Some(0), 1000), None);
    assert_eq!(expiration(Some(0), u64::MAX), None);
}

#[test]
fn expiration_stops_at_the_largest_instant() {
    assert_eq!(expiration(Some(u64::MAX), 1), Some(u64::MAX));
    assert_eq!(expiration(Some(1), u64::MAX), Some(u64::MAX));
    assert_eq!(expiration(Some(1), u64::MAX - 1), Some(u64::MAX));
    assert_eq!(expiration(Some(2), u64::MAX - 3), Some(u64::MAX - 1));
}

#[test]
fn new_cache_has_the_default_policy() {
    let cache = Cache::new(60);
    assert_eq!(cache.cleanup_interval(), 60);
    assert_eq!(
        cache.compression(),
        CompressionConfig { enabled: false, level: 6, threshold: 1024 }
    );
}

#[test]
fn cache_from_default_configuration() {
    let cache = Cache::from_config(&CacheConfig::default()).unwrap();
    assert_eq!(cache.cleanup_interval(), 60);
    assert_eq!(
        cache.compression(),
        CompressionConfig { enabled: false, level: 6, threshold: 1024 }
    );
}

#[test]
fn cache_from_explicit_configuration() {
    let config = CacheConfig {
        cache_dir: Some("my_app_cache".to_string()),
        cache_file_name: Some("cache_data.json".to_string()),
        cleanup_interval: Some(120),
        default_compression: Some(true),
        compression_level: Some(9),
        compression_threshold: Some(0),
    };
    let cache = Cache::from_config(&config).unwrap();
    assert_eq!(cache.cleanup_interval(), 120);
    assert_eq!(cache.compression(), CompressionConfig { enabled: true, level: 9, threshold: 0 });
}

#[test]
fn configuration_with_a_level_above_nine_is_refused() {
    let mut config = CacheConfig::default();
    config.compression_level = Some(10);
    assert_eq!(Cache::from_config(&config).err(), Some(Error::Config));
    config.compression_level = Some(u32::MAX);
    assert_eq!(Cache::from_config(&config).err(), Some(Error::Config));
}

#[test]
fn init_with_config_replaces_the_policy() {
    let mut cache = Cache::new(60);
    assert_eq!(cache.init_with_config(true, Some(2), Some(10)), Ok(()));
    assert_eq!(cache.compression(), CompressionConfig { enabled: true, level: 2, threshold: 10 });
    assert_eq!(cache.init_with_config(true, None, None), Ok(()));
    assert_eq!(cache.compression(), CompressionConfig { enabled: true, level: 6, threshold: 1024 });
    assert_eq!(cache.cleanup_interval(), 60);
}

#[test]
fn init_with_config_refuses_a_level_above_nine_and_changes_nothing() {
    let mut cache = Cache::new(60);
    cache.init_with_config(true, Some(9), Some(10)).unwrap();
    assert_eq!(cache.init_with_config(false, Some(10), Some(99)), Err(Error::Config));
    assert_eq!(cache.compression(), CompressionConfig { enabled: true, level: 9, threshold: 10 });
}

#[test]
fn compress_value_follows_the_policy_of_the_cache() {
    let mut cache = Cache::new(60);
    let value = text(&"y".repeat(2000));
    let raw = cache.compress_value(&value).unwrap();
    assert_eq!(raw[0], 0);
    assert_eq!(raw.len(), 2003);
    cache.init_with_config(true, None, None).unwrap();
    let compressed = cache.compress_value(&value).unwrap();
    assert_eq!(compressed[0], 1);
    assert!(compressed.len() < 200);
    assert_eq!(cache.decompress_value(&raw), Ok(value.clone()));
    assert_eq!(cache.decompress_value(&compressed), Ok(value));
    assert_eq!(cache.decompress_value(&[]), Err(Error::EmptyPayload));
}

#[test]
fn set_then_get() {
    let mut cache = Cache::new(60);
    let mut document = CacheDocument::new();
    let value = json("{\"x\":1}");
    let done = cache.set(&mut document, "a".to_string(), value.clone(), None, 100);
    assert_eq!(done, Ok(EmptyResponse {}));
    assert_eq!(cache.get(&document, "a", 100), Ok(Some(value.clone())));
    assert_eq!(cache.has(&document, "a", 100), BooleanResponse { value: true });
    let entry = document.get("a").unwrap();
    assert_eq!(entry.value, value);
    assert_eq!(entry.expires_at, None);
    assert_eq!(entry.is_compressed, Some(false));
}

#[test]
fn get_of_an_absent_key_is_nothing() {
    let mut cache = Cache::new(60);
    let document = CacheDocument::new();
    assert_eq!(cache.get(&document, "a", 100), Ok(None));
    assert_eq!(cache.has(&document, "a", 100), BooleanResponse { value: false });
}

#[test]
fn set_replaces_the_entry_wholesale() {
    let mut cache = Cache::new(60);
    let mut document = CacheDocument::new();
    cache.set(&mut document, "a".to_string(), json("{\"x\":1,\"y\":2}"), ttl(5), 100).unwrap();
    cache.set(&mut document, "a".to_string(), json("{\"z\":3}"), None, 101).unwrap();
    assert_eq!(document.len(), 1);
    assert_eq!(document.get("a").unwrap().expires_at, None);
    assert_eq!(cache.get(&document, "a", 1_000_000), Ok(Some(json("{\"z\":3}"))));
}

#[test]
fn ttl_of_one_second() {
    let mut cache = Cache::new(60);
    let mut document = CacheDocument::new();
    let value = text("v");
    cache.set(&mut document, "k".to_string(), value.clone(), ttl(1), 1000).unwrap();
    assert_eq!(document.get("k").unwrap().expires_at, Some(1001));
    // Immediately, and up to the expiration instant itself.
    assert_eq!(cache.get(&document, "k", 1000), Ok(Some(value.clone())));
    assert_eq!(cache.get(&document, "k", 1001), Ok(Some(value.clone())));
    assert_eq!(cache.has(&document, "k", 1001), BooleanResponse { value: true });
    // Past it.
    assert_eq!(cache.get(&document, "k", 1002), Ok(None));
    assert_eq!(cache.has(&document, "k", 1002), BooleanResponse { value: false });
    assert_eq!(cache.get(&document, "k", u64::MAX), Ok(None));
}

#[test]
fn ttl_is_honoured_by_the_document_alone() {
    let mut cache = Cache::new(60);
    let mut document = CacheDocument::new();
    let value = text("v");
    cache.set(&mut document, "k".to_string(), value.clone(), ttl(1), 1000).unwrap();
    assert_eq!(restarted(&cache).get(&document, "k", 1001), Ok(Some(value)));
    assert_eq!(restarted(&cache).get(&document, "k", 1002), Ok(None));
    assert_eq!(restarted(&cache).has(&document, "k", 1001), BooleanResponse { value: true });
    assert_eq!(restarted(&cache).has(&document, "k", 1002), BooleanResponse { value: false });
}

#[test]
fn expired_entry_is_evicted_from_memory_when_it_is_looked_up() {
    let mut cache = Cache::new(60);
    let mut document = CacheDocument::new();
    cache.set(&mut document, "k".to_string(), text("v"), ttl(1), 1000).unwrap();
    assert_eq!(cache.get_cached("k", 1002), None);
    // Gone for good: not even a lookup in the past finds it.
    assert_eq!(cache.get_cached("k", 1000), None);
    assert!(!cache.has_cached("k", 1000));
}

#[test]
fn no_ttl_never_expires() {
    let mut cache = Cache::new(60);
    let mut document = CacheDocument::new();
    let value = text("v");
    cache.set(&mut document, "k".to_string(), value.clone(), None, 1000).unwrap();
    for later in [0, 1000, 1001, 1_000_000_000_000, u64::MAX] {
        assert_eq!(cache.get(&document, "k", later), Ok(Some(value.clone())));
        assert_eq!(cache.has(&document, "k", later), BooleanResponse { value: true });
        assert_eq!(restarted(&cache).get(&document, "k", later), Ok(Some(value.clone())));
    }
    assert!(!cache.sweep(&mut document, u64::MAX));
    assert_eq!(cache.get(&document, "k", u64::MAX), Ok(Some(value)));
}

#[test]
fn ttl_of_zero_means_no_expiration() {
    let mut cache = Cache::new(60);
    let mut document = CacheDocument::new();
    let value = json("{\"x\":1}");
    cache.set(&mut document, "a".to_string(), value.clone(), ttl(0), 1000).unwrap();
    assert_eq!(document.get("a").unwrap().expires_at, None);
    assert_eq!(cache.get(&document, "a", 1000), Ok(Some(value.clone())));
    assert_eq!(cache.get(&document, "a", u64::MAX), Ok(Some(value.clone())));
    assert_eq!(restarted(&cache).get(&document, "a", u64::MAX), Ok(Some(value)));
    assert_eq!(cache.active_size(&document, u64::MAX), 1);
}

#[test]
fn ttl_beyond_the_end_of_time_never_expires() {
    let mut cache = Cache::new(60);
    let mut document = CacheDocument::new();
    cache.set(&mut document, "a".to_string(), text("v"), ttl(u64::MAX), 1000).unwrap();
    assert_eq!(document.get("a").unwrap().expires_at, Some(u64::MAX));
    assert_eq!(cache.get(&document, "a", u64::MAX), Ok(Some(text("v"))));
}

#[test]
fn compressed_set_stores_a_packed_entry_and_gives_the_value_back() {
    let mut cache = Cache::new(60);
    let mut document = CacheDocument::new();
    let value = text(&"y".repeat(2000));
    cache.set(&mut document, "b".to_string(), value.clone(), compress(true), 1000).unwrap();
    let entry = document.get("b").unwrap();
    assert_eq!(entry.is_compressed, Some(true));
    assert_ne!(entry.value, value);
    assert!(entry.value.as_str().unwrap().len() < 300);
    assert_eq!(cache.get(&document, "b", 1000), Ok(Some(value.clone())));
    // From the document alone, which has to be decoded.
    let mut fresh = restarted(&cache);
    assert_eq!(fresh.get(&document, "b", 1000), Ok(Some(value.clone())));
    // And from the memory tier that the decoding filled.
    assert_eq!(fresh.get_cached("b", 1000), Some(value));
}

#[test]
fn default_compression_of_the_cache_applies_where_the_call_is_silent() {
    let mut cache = Cache::new(60);
    cache.init_with_config(true, None, None).unwrap();
    let mut document = CacheDocument::new();
    cache.set(&mut document, "a".to_string(), text("v"), None, 0).unwrap();
    cache.set(&mut document, "b".to_string(), text("v"), ttl(5), 0).unwrap();
    cache.set(&mut document, "c".to_string(), text("v"), compress(false), 0).unwrap();
    assert_eq!(document.get("a").unwrap().is_compressed, Some(true));
    assert_eq!(document.get("b").unwrap().is_compressed, Some(true));
    assert_eq!(document.get("c").unwrap().is_compressed, Some(false));
    for key in ["a", "b", "c"] {
        assert_eq!(restarted(&cache).get(&document, key, 0), Ok(Some(text("v"))));
    }
}

#[test]
fn has_leaves_packed_entries_to_get() {
    let mut cache = Cache::new(60);
    let mut document = CacheDocument::new();
    let value = text(&"y".repeat(2000));
    cache.set(&mut document, "b".to_string(), value.clone(), compress(true), 1000).unwrap();
    let mut fresh = restarted(&cache);
    assert_eq!(fresh.has(&document, "b", 1000), BooleanResponse { value: true });
    assert_eq!(fresh.get_cached("b", 1000), None);
    assert_eq!(fresh.get(&document, "b", 1000), Ok(Some(value)));
}

#[test]
fn has_keeps_unpacked_entries_in_memory() {
    let mut cache = Cache::new(60);
    let mut document = CacheDocument::new();
    document.insert("a".to_string(), stored(text("v"), Some(50)));
    assert_eq!(cache.get_cached("a", 10), None);
    assert_eq!(cache.has(&document, "a", 10), BooleanResponse { value: true });
    assert_eq!(cache.get_cached("a", 10), Some(text("v")));
    assert_eq!(cache.get_cached("a", 51), None);
}

#[test]
fn get_keeps_what_it_read_in_memory() {
    let mut cache = Cache::new(60);
    let mut document = CacheDocument::new();
    document.insert("a".to_string(), stored(text("v"), None));
    assert_eq!(cache.get(&document, "a", 10), Ok(Some(text("v"))));
    // The memory tier answers now, whatever the document holds.
    assert_eq!(cache.get(&CacheDocument::new(), "a", 10), Ok(Some(text("v"))));
}

#[test]
fn expired_entry_is_never_put_into_memory() {
    let mut cache = Cache::new(60);
    let mut document = CacheDocument::new();
    document.insert("a".to_string(), stored(text("v"), Some(5)));
    assert_eq!(cache.get(&document, "a", 10), Ok(None));
    assert_eq!(cache.has(&document, "a", 10), BooleanResponse { value: false });
    assert_eq!(cache.get_cached("a", 0), None);
}

#[test]
fn corrupt_entry_is_reported_by_get_only_while_it_is_live() {
    let mut cache = Cache::new(60);
    let mut document = CacheDocument::new();
    let broken = CacheItem {
        value: text("not base64!"),
        expires_at: Some(50),
        is_compressed: Some(true),
    };
    document.insert("a".to_string(), broken);
    assert_eq!(cache.get(&document, "a", 10), Err(Error::CorruptPayload));
    assert_eq!(cache.has(&document, "a", 10), BooleanResponse { value: true });
    assert_eq!(cache.get(&document, "a", 51), Ok(None));
    assert_eq!(cache.get(&document, "other", 10), Ok(None));
}

#[test]
fn removal_is_idempotent() {
    let mut cache = Cache::new(60);
    let mut document = CacheDocument::new();
    assert!(!cache.remove(&mut document, "k"));
    cache.set(&mut document, "k".to_string(), text("v"), None, 0).unwrap();
    cache.set(&mut document, "other".to_string(), text("w"), None, 0).unwrap();
    assert!(!cache.remove(&mut document, "absent"));
    assert_eq!(document.len(), 2);
    assert!(cache.remove(&mut document, "k"));
    assert!(!cache.remove(&mut document, "k"));
    assert!(!cache.remove(&mut document, "k"));
    assert_eq!(document.len(), 1);
    assert_eq!(cache.get(&document, "k", 0), Ok(None));
    assert_eq!(cache.get(&document, "other", 0), Ok(Some(text("w"))));
}

#[test]
fn remove_takes_the_key_out_of_memory_too() {
    let mut cache = Cache::new(60);
    let mut document = CacheDocument::new();
    cache.set(&mut document, "k".to_string(), text("v"), None, 0).unwrap();
    assert_eq!(cache.get_cached("k", 0), Some(text("v")));
    cache.remove(&mut document, "k");
    assert_eq!(cache.get_cached("k", 0), None);
    assert!(!cache.has_cached("k", 0));
}

#[test]
fn clear_empties_stats() {
    let mut cache = Cache::new(60);
    let mut document = CacheDocument::new();
    cache.set(&mut document, "a".to_string(), text("v"), None, 0).unwrap();
    cache.set(&mut document, "b".to_string(), text("v"), ttl(10), 0).unwrap();
    cache.clear(&mut document);
    assert_eq!(cache.stats(&document, 0), CacheStats { total_size: 0, active_size: 0 });
    assert_eq!(cache.size(&document), 0);
    assert_eq!(cache.active_size(&document, 0), 0);
    assert_eq!(cache.get(&document, "a", 0), Ok(None));
    assert_eq!(cache.get_cached("a", 0), None);
    cache.clear(&mut document);
    assert_eq!(cache.stats(&document, 5), CacheStats { total_size: 0, active_size: 0 });
}

#[test]
fn stats_count_all_entries_and_the_active_ones() {
    let mut cache = Cache::new(60);
    let mut document = CacheDocument::new();
    assert_eq!(cache.stats(&document, 100), CacheStats { total_size: 0, active_size: 0 });
    cache.set(&mut document, "never".to_string(), text("v"), None, 100).unwrap();
    cache.set(&mut document, "short".to_string(), text("v"), ttl(5), 100).unwrap();
    cache.set(&mut document, "long".to_string(), text("v"), ttl(50), 100).unwrap();
    assert_eq!(cache.stats(&document, 100), CacheStats { total_size: 3, active_size: 3 });
    assert_eq!(cache.stats(&document, 104), CacheStats { total_size: 3, active_size: 3 });
    // At its expiration instant an entry is no longer counted as active.
    assert_eq!(cache.stats(&document, 105), CacheStats { total_size: 3, active_size: 2 });
    assert_eq!(cache.stats(&document, 149), CacheStats { total_size: 3, active_size: 2 });
    assert_eq!(cache.stats(&document, 150), CacheStats { total_size: 3, active_size: 1 });
    assert_eq!(cache.stats(&document, u64::MAX), CacheStats { total_size: 3, active_size: 1 });
    assert_eq!(cache.size(&document), 3);
    assert_eq!(cache.active_size(&document, 105), 2);
}

#[test]
fn sweep_removes_expired_entries_from_the_count() {
    let mut cache = Cache::new(60);
    let mut document = CacheDocument::new();
    cache.set(&mut document, "never".to_string(), text("v"), None, 100).unwrap();
    cache.set(&mut document, "short".to_string(), text("v"), ttl(5), 100).unwrap();
    cache.set(&mut document, "long".to_string(), text("v"), ttl(50), 100).unwrap();
    assert!(!cache.sweep(&mut document, 105));
    assert_eq!(cache.size(&document), 3);
    assert!(cache.sweep(&mut document, 106));
    assert_eq!(cache.size(&document), 2);
    assert!(document.get("short").is_none());
    assert!(!cache.sweep(&mut document, 106));
    assert!(cache.sweep(&mut document, 100 + 50 + 60));
    assert_eq!(cache.stats(&document, 210), CacheStats { total_size: 1, active_size: 1 });
    assert_eq!(cache.get(&document, "never", 210), Ok(Some(text("v"))));
}

#[test]
fn evict_expired_sweeps_the_memory_tier_alone() {
    let mut cache = Cache::new(60);
    let mut document = CacheDocument::new();
    cache.set(&mut document, "short".to_string(), text("v"), ttl(5), 100).unwrap();
    cache.set(&mut document, "never".to_string(), text("v"), None, 100).unwrap();
    assert_eq!(cache.evict_expired(105), 0);
    assert_eq!(cache.evict_expired(106), 1);
    assert_eq!(cache.evict_expired(106), 0);
    assert_eq!(document.len(), 2);
    assert_eq!(cache.get_cached("short", 100), None);
    assert_eq!(cache.get_cached("never", 100), Some(text("v")));
}

#[test]
fn two_sets_on_different_keys_both_persist() {
    let mut cache = Cache::new(60);
    let mut document = CacheDocument::new();
    cache.set(&mut document, "one".to_string(), json("[1]"), None, 100).unwrap();
    cache.set(&mut document, "two".to_string(), json("[2]"), ttl(10), 100).unwrap();
    assert_eq!(document.len(), 2);
    assert_eq!(cache.get(&document, "one", 101), Ok(Some(json("[1]"))));
    assert_eq!(cache.get(&document, "two", 101), Ok(Some(json("[2]"))));
    let mut fresh = restarted(&cache);
    assert_eq!(fresh.get(&document, "one", 101), Ok(Some(json("[1]"))));
    assert_eq!(fresh.get(&document, "two", 101), Ok(Some(json("[2]"))));
}

#[test]
fn corrupt_file_means_an_empty_cache() {
    let mut cache = Cache::new(60);
    let document = load_for_read(StoredFile::Corrupt);
    assert_eq!(cache.get(&document, "any", 100), Ok(None));
    assert_eq!(cache.has(&document, "any", 100), BooleanResponse { value: false });
    assert_eq!(cache.stats(&document, 100), CacheStats { total_size: 0, active_size: 0 });
    let mut document = document;
    assert!(!cache.sweep(&mut document, 100));
}

#[test]
fn scenario_of_an_object_with_ttl_zero_and_a_long_compressed_string() {
    let mut cache = Cache::new(60);
    let mut document = CacheDocument::new();
    let object = json("{\"x\":1}");
    let long = text(&"y".repeat(2000));
    let zero = Some(SetItemOptions { ttl: Some(0), compress: None });
    let packed = Some(SetItemOptions { ttl: None, compress: Some(true) });
    cache.set(&mut document, "a".to_string(), object.clone(), zero, 1_700_000_000).unwrap();
    cache.set(&mut document, "b".to_string(), long.clone(), packed, 1_700_000_000).unwrap();
    assert_eq!(cache.get(&document, "a", 1_700_000_000), Ok(Some(object.clone())));
    assert_eq!(cache.get(&document, "a", u64::MAX), Ok(Some(object)));
    assert_eq!(document.get("b").unwrap().is_compressed, Some(true));
    let got = cache.get(&document, "b", 1_700_000_001).unwrap().unwrap();
    assert_eq!(got.as_str().unwrap().len(), 2000);
    assert_eq!(got, long);
}

#[test]
fn memory_tier_never_changes_the_answer() {
    let mut warm = Cache::new(60);
    warm.init_with_config(false, Some(1), Some(4)).unwrap();
    let mut document = CacheDocument::new();
    warm.set(&mut document, "plain".to_string(), json("[1,2]"), ttl(10), 100).unwrap();
    warm.set(&mut document, "packed".to_string(), text("zzzzzzzzzz"), compress(true), 100).unwrap();
    warm.set(&mut document, "gone".to_string(), text("v"), ttl(1), 100).unwrap();
    warm.remove(&mut document, "gone");
    for now in [100, 105, 110, 111, 500] {
        for key in ["plain", "packed", "gone", "never set"] {
            let mut cold = restarted(&warm);
            assert_eq!(warm.get(&document, key, now), cold.get(&document, key, now));
            assert_eq!(warm.has(&document, key, now), cold.has(&document, key, now));
        }
    }
}
