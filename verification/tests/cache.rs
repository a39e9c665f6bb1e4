use mc_link::cache::{format_bytes, CacheStats, CachedJarInfo, GlobalJarCache};
use mc_link::clock::current_timestamp;
use mc_link::types::{ModInfo, ModLoader, ModSide};

fn identity(id: &str) -> ModInfo {
    ModInfo {
        id: id.to_string(),
        name: format!("{} mod", id),
        version: Some("1.0.0".to_string()),
        file_path: format!("{}.jar", id),
        enabled: true,
        side: ModSide::Both,
        loader: ModLoader::Unknown,
        raw_metadata: Vec::new(),
    }
}

#[test]
fn test_cached_jar_info_expiration() {
    let mod_info = ModInfo {
        id: "test".to_string(),
        name: "Test Mod".to_string(),
        version: Some("1.0.0".to_string()),
        file_path: "test.jar".to_string(),
        enabled: true,
        side: ModSide::Both,
        loader: ModLoader::Unknown,
        raw_metadata: Vec::new(),
    };

    let mut cached_info =
        CachedJarInfo::new("hash123".to_string(), "test.jar".to_string(), 1024, mod_info);

    assert!(!cached_info.is_expired(24));

    cached_info.cached_at = current_timestamp() - 25 * 3600;
    assert!(cached_info.is_expired(24));
}

#[test]
fn cache_stats_are_formatted() {
    let stats = CacheStats {
        entry_count: 10,
        total_size_bytes: 1024 * 1024,
        max_size_bytes: 10 * 1024 * 1024,
    };
    assert_eq!(stats.total_size_formatted(), "1.0 MB");
    assert_eq!(stats.max_size_formatted(), "10.0 MB");
}

#[test]
fn cache_test_format_bytes() {
    assert_eq!(format_bytes(0), "0 B");
    assert_eq!(format_bytes(512), "512 B");
    assert_eq!(format_bytes(1024), "1.0 KB");
    assert_eq!(format_bytes(1536), "1.5 KB");
    assert_eq!(format_bytes(1024 * 1024), "1.0 MB");
}

fn float_format(bytes: u64) -> String {
    let units = ["B", "KB", "MB", "GB", "TB"];
    let mut size = bytes as f64;
    let mut unit_index = 0;
    while size >= 1024.0 && unit_index < units.len() - 1 {
        size /= 1024.0;
        unit_index += 1;
    }
    if unit_index == 0 {
        format!("{} {}", bytes, units[unit_index])
    } else {
        format!("{:.1} {}", size, units[unit_index])
    }
}

#[test]
fn format_bytes_agrees_with_floating_point() {
    let mut samples: Vec<u64> = vec![
        0,
        1,
        1023,
        1024,
        1025,
        1075,
        1076,
        1126,
        1127,
        1280,
        1331,
        1332,
        1433,
        1434,
        1485,
        1536,
        1587,
        1588,
        2047,
        2048,
        10 * 1024 - 1,
        1024 * 1024 - 1,
        1024 * 1024 - 52,
        1024 * 1024 - 51,
        1024 * 1024,
        1024 * 1024 + 52428,
        1024 * 1024 + 52429,
        1310720,
        1024 * 1024 * 1024 - 1,
        1024 * 1024 * 1024,
        1342177280,
        1u64 << 40,
        (1u64 << 40) - 1,
        (1u64 << 40) + (1u64 << 36),
        (1u64 << 50) + (1u64 << 45),
        (1u64 << 53) - 1,
        1u64 << 53,
        (1u64 << 53) + 1,
        (1u64 << 53) + 2,
        (1u64 << 53) + 3,
        (1u64 << 54) + 2,
        (1u64 << 54) + 6,
        (1u64 << 60) + 64,
        (1u64 << 60) + 192,
        (1u64 << 63) + 1024,
        (1u64 << 63) + 3072,
        u64::MAX - 2048,
        u64::MAX - 1024,
        u64::MAX - 1023,
        u64::MAX,
    ];
    let mut x: u64 = 0x9E37_79B9_7F4A_7C15;
    for _ in 0..20000 {
        x ^= x << 13;
        x ^= x >> 7;
        x ^= x << 17;
        samples.push(x);
        samples.push(x >> 11);
        samples.push(x >> 24);
        samples.push(x >> 37);
        samples.push(x >> 50);
    }
    for k in 1..=4u32 {
        let unit = 1u64 << (10 * k);
        for tenth in 0..200u64 {
            let base = unit / 20 * tenth;
            for delta in 0..3u64 {
                samples.push(base + unit + delta);
                samples.push((base + unit).saturating_sub(delta));
            }
        }
    }
    for bytes in samples {
        assert_eq!(format_bytes(bytes), float_format(bytes), "for {} bytes", bytes);
    }
}

#[test]
fn put_then_get_returns_the_identity() {
    let mut cache = GlobalJarCache::new("cache".to_string(), 1);
    let evicted = cache.put_at("h1".to_string(), "a.jar".to_string(), 100, identity("a"), 1000);
    assert!(evicted.is_empty());
    assert_eq!(cache.get_at("h1", 1_000_000, 2000), Some(identity("a")));
    let entries = cache.snapshot();
    assert_eq!(entries.len(), 1);
    assert_eq!(entries[0].cached_at, 1000);
    assert_eq!(entries[0].last_accessed, 2000);
    assert_eq!(cache.get_at("h2", 1_000_000, 2000), None);
    assert_eq!(cache.snapshot().len(), 1);
}

#[test]
fn put_and_get_with_the_clock() {
    let mut cache = GlobalJarCache::new("cache".to_string(), 1);
    cache.put("h1".to_string(), "a.jar".to_string(), 100, identity("a"));
    assert_eq!(cache.get("h1", 24), Some(identity("a")));
    assert_eq!(cache.cleanup(24), 0);
    assert_eq!(cache.stats().entry_count, 1);
}

#[test]
fn eviction_takes_the_least_recently_used_first() {
    let mut cache = GlobalJarCache::new("cache".to_string(), 1);
    let quarter = 256 * 1024;
    cache.put_at("h1".to_string(), "a.jar".to_string(), quarter, identity("a"), 10);
    cache.put_at("h2".to_string(), "b.jar".to_string(), quarter, identity("b"), 20);
    cache.put_at("h3".to_string(), "c.jar".to_string(), quarter, identity("c"), 30);
    cache.put_at("h4".to_string(), "d.jar".to_string(), quarter, identity("d"), 40);
    assert_eq!(cache.stats().total_size_bytes, 1024 * 1024);
    assert_eq!(cache.get_at("h1", 1000, 50), Some(identity("a")));
    let evicted = cache.put_at("h5".to_string(), "e.jar".to_string(), 2 * quarter, identity("e"), 60);
    assert_eq!(evicted, vec!["h2".to_string(), "h3".to_string()]);
    assert_eq!(cache.hashes(), vec!["h1".to_string(), "h4".to_string(), "h5".to_string()]);
    let stats = cache.stats();
    assert_eq!(stats.entry_count, 3);
    assert_eq!(stats.total_size_bytes, 1024 * 1024);
    assert_eq!(stats.max_size_bytes, 1024 * 1024);
    assert!(stats.total_size_bytes <= stats.max_size_bytes);
}

#[test]
fn an_entry_larger_than_the_budget_empties_the_cache() {
    let mut cache = GlobalJarCache::new("cache".to_string(), 1);
    cache.put_at("h1".to_string(), "a.jar".to_string(), 10, identity("a"), 10);
    let evicted =
        cache.put_at("h2".to_string(), "b.jar".to_string(), 2 * 1024 * 1024, identity("b"), 20);
    assert_eq!(evicted, vec!["h1".to_string()]);
    assert_eq!(cache.hashes(), vec!["h2".to_string()]);
    assert_eq!(cache.stats().total_size_bytes, 2 * 1024 * 1024);
}

#[test]
fn putting_a_digest_again_replaces_its_entry() {
    let mut cache = GlobalJarCache::new("cache".to_string(), 1);
    cache.put_at("h1".to_string(), "a.jar".to_string(), 100, identity("a"), 10);
    cache.put_at("h2".to_string(), "b.jar".to_string(), 200, identity("b"), 20);
    cache.put_at("h1".to_string(), "a2.jar".to_string(), 50, identity("a2"), 30);
    assert_eq!(cache.hashes(), vec!["h1".to_string(), "h2".to_string()]);
    assert_eq!(cache.stats().total_size_bytes, 250);
    assert_eq!(cache.get_at("h1", 1, 30), Some(identity("a2")));
}

#[test]
fn an_expired_entry_is_removed_by_get() {
    let mut cache = GlobalJarCache::new("cache".to_string(), 1);
    cache.put_at("h1".to_string(), "a.jar".to_string(), 100, identity("a"), 1000);
    assert!(cache.contains("h1"));
    assert_eq!(cache.get_at("h1", 1, 1000 + 3600), Some(identity("a")));
    assert_eq!(cache.get_at("h1", 1, 1000 + 3601), None);
    assert!(!cache.contains("h1"));
    assert_eq!(cache.stats().total_size_bytes, 0);
    assert_eq!(cache.get_at("h1", 1, 1000 + 3601), None);
    assert_eq!(cache.get_at("h1", 1000, 1000), None);
}

#[test]
fn cleanup_removes_what_has_expired() {
    let mut cache = GlobalJarCache::new("cache".to_string(), 1);
    cache.put_at("h1".to_string(), "a.jar".to_string(), 100, identity("a"), 0);
    cache.put_at("h2".to_string(), "b.jar".to_string(), 200, identity("b"), 5000);
    cache.put_at("h3".to_string(), "c.jar".to_string(), 300, identity("c"), 100);
    assert_eq!(cache.cleanup_at(1, 3700), 1);
    assert_eq!(cache.hashes(), vec!["h2".to_string(), "h3".to_string()]);
    assert_eq!(cache.stats().total_size_bytes, 500);
    assert_eq!(cache.cleanup_at(1, 3701), 1);
    assert_eq!(cache.hashes(), vec!["h2".to_string()]);
    cache.clear();
    assert_eq!(cache.stats().entry_count, 0);
    assert_eq!(cache.stats().total_size_bytes, 0);
}

#[test]
fn evict_lru_breaks_ties_by_order() {
    let mut cache = GlobalJarCache::new("cache".to_string(), 1);
    assert_eq!(cache.evict_lru(), None);
    cache.put_at("h1".to_string(), "a.jar".to_string(), 1, identity("a"), 7);
    cache.put_at("h2".to_string(), "b.jar".to_string(), 1, identity("b"), 7);
    cache.put_at("h3".to_string(), "c.jar".to_string(), 1, identity("c"), 3);
    assert_eq!(cache.evict_lru(), Some("h3".to_string()));
    assert_eq!(cache.evict_lru(), Some("h1".to_string()));
    assert_eq!(cache.evict_lru(), Some("h2".to_string()));
    assert_eq!(cache.evict_lru(), None);
}

#[test]
fn restore_puts_an_entry_back_as_it_was() {
    let mut cache = GlobalJarCache::new("cache".to_string(), 1);
    let mut entry =
        CachedJarInfo::new_at("h1".to_string(), "a.jar".to_string(), 10, identity("a"), 100);
    entry.touch_at(250);
    assert!(cache.restore(entry.clone()));
    assert_eq!(cache.snapshot(), vec![entry.clone()]);
    entry.last_accessed = 1;
    assert!(!cache.restore(entry));
    assert_eq!(cache.snapshot()[0].last_accessed, 250);
}

#[test]
fn touch_never_precedes_caching() {
    let mut entry =
        CachedJarInfo::new_at("h1".to_string(), "a.jar".to_string(), 10, identity("a"), 100);
    entry.touch_at(50);
    assert_eq!(entry.last_accessed, 100);
    entry.touch_at(150);
    assert_eq!(entry.last_accessed, 150);
    assert_eq!(entry.age_seconds_at(90), 0);
    assert_eq!(entry.age_seconds_at(190), 90);
    assert!(!entry.is_expired_at(0, 100));
    assert!(entry.is_expired_at(0, 101));
}

#[test]
fn hash_is_deterministic_and_sensitive() {
    let empty = GlobalJarCache::compute_file_hash(b"");
    assert_eq!(empty, "e3b0c44298fc1c149afbf4c8996fb92427ae41e4649b934ca495991b7852b855");
    let abc = GlobalJarCache::compute_file_hash(b"abc");
    assert_eq!(abc, "ba7816bf8f01cfea414140de5dae2223b00361a396177a9cb410ff61f20015ad");
    assert_eq!(abc, GlobalJarCache::compute_file_hash(b"abc"));
    assert_ne!(abc, GlobalJarCache::compute_file_hash(b"abd"));
}
