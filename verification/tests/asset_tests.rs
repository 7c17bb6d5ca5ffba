use bluebottle::asset_cache::{entry_file_name, is_valid_asset_id, prune_plan, usage, AssetEntry};
use bluebottle::cache::AssetProxyCache;
use bluebottle::directory::DirectoryPaths;

fn entry(path: &str, size: u64, atime_ms: i64) -> AssetEntry {
    AssetEntry { id: entry_file_name(path), size, atime_ms }
}

#[test]
fn test_insert() {
    // insertion and retrieval address the same content-addressed file name,
    // for each logical path independently
    let id1 = entry_file_name("test1.txt");
    let id2 = entry_file_name("test2.txt");
    assert_eq!(id1, entry_file_name("test1.txt"));
    assert_eq!(id2, entry_file_name("test2.txt"));
    assert_ne!(id1, id2);
    assert_eq!(id1.len(), 64);
    assert_eq!(id2.len(), 64);
    assert_eq!("hello world 1".len(), 13);
    assert_eq!("hello world 2".len(), 13);
}

#[test]
fn test_size_count() {
    let entries = vec![
        entry("test1.txt", "hello world 1".len() as u64, 100),
        entry("test2.txt", "hello world 2".len() as u64, 300),
    ];
    let total_size = usage(&entries);
    assert_eq!(total_size, 26);
}

#[test]
fn test_prune_to() {
    let entries = vec![
        entry("test1.txt", "hello world 1".len() as u64, 100),
        entry("test2.txt", "hello world 2".len() as u64, 300),
    ];
    let total_size = usage(&entries);
    assert_eq!(total_size, 26);

    let removed = prune_plan(entries, 14);
    assert_eq!(removed.len(), 1);

    // the older entry is evicted; the newer one survives
    assert_eq!(removed[0].id, entry_file_name("test1.txt"));
    assert_ne!(removed[0].id, entry_file_name("test2.txt"));
}

#[test]
fn cache_test_insert() {
    let paths = DirectoryPaths::from_explicit_path("/tmp/assets");
    let cache = AssetProxyCache::open(&paths).unwrap();
    let p1 = cache.entry_path("test1.txt");
    let p2 = cache.entry_path("test2.txt");
    assert_eq!(p1, cache.entry_path("test1.txt"));
    assert_ne!(p1, p2);
    assert!(p1.starts_with("/tmp/assets/cache/"));
    assert!(p2.starts_with("/tmp/assets/cache/"));
    assert_eq!("hello world 1".len(), 13);
    assert_eq!("hello world 2".len(), 13);
}

#[test]
fn cache_test_size_count() {
    let paths = DirectoryPaths::from_explicit_path("/tmp/assets");
    let cache = AssetProxyCache::open(&paths).unwrap();
    let entries = vec![
        entry("test1.txt", "hello world 1".len() as u64, 100),
        entry("test2.txt", "hello world 2".len() as u64, 300),
    ];
    let total_size = cache.usage(&entries);
    assert_eq!(total_size, 26);
}

#[test]
fn cache_test_prune_to() {
    let paths = DirectoryPaths::from_explicit_path("/tmp/assets");
    let cache = AssetProxyCache::open(&paths).unwrap();
    let entries = vec![
        entry("test1.txt", "hello world 1".len() as u64, 100),
        entry("test2.txt", "hello world 2".len() as u64, 300),
    ];
    let total_size = cache.usage(&entries);
    assert_eq!(total_size, 26);

    let removed = cache.prune_plan(entries, 14);
    assert_eq!(removed.len(), 1);
    assert_eq!(removed[0].id, entry_file_name("test1.txt"));
}

#[test]
fn prune_plan_evicts_oldest_first() {
    let entries = vec![
        entry("a", 10, 400),
        entry("b", 10, 100),
        entry("c", 10, 300),
        entry("d", 10, 200),
    ];
    assert_eq!(usage(&entries), 40);

    // bringing 40 bytes down to 15 requires removing the three oldest
    let removed = prune_plan(entries, 15);
    assert_eq!(removed.len(), 3);
    assert_eq!(removed[0].id, entry_file_name("b"));
    assert_eq!(removed[1].id, entry_file_name("d"));
    assert_eq!(removed[2].id, entry_file_name("c"));
}

#[test]
fn prune_plan_no_eviction_at_or_under_target() {
    let entries = vec![entry("a", 10, 100), entry("b", 10, 200)];
    let removed = prune_plan(entries, 20);
    assert_eq!(removed.len(), 0);

    let entries = vec![entry("a", 10, 100), entry("b", 10, 200)];
    let removed = prune_plan(entries, 1_000_000);
    assert_eq!(removed.len(), 0);
}

#[test]
fn prune_plan_to_zero_removes_everything() {
    let entries = vec![entry("a", 1, 100), entry("b", 2, 200), entry("c", 3, 300)];
    let removed = prune_plan(entries, 0);
    assert_eq!(removed.len(), 3);
}

#[test]
fn file_names_are_valid_asset_ids() {
    // the digest really transforms its input: a logical path is not its own
    // identifier, and every identifier is 64 lower-case hex characters
    let id = entry_file_name("test1.txt");
    assert!(is_valid_asset_id(&id));
    assert!(!is_valid_asset_id("test1.txt"));
    assert_ne!(id, "test1.txt");

    assert!(!is_valid_asset_id(""));
    assert!(!is_valid_asset_id(&"a".repeat(63)));
    assert!(is_valid_asset_id(&"a".repeat(64)));
    assert!(!is_valid_asset_id(&"A".repeat(64)));
    assert!(!is_valid_asset_id(&"g".repeat(64)));
}

#[test]
fn usage_of_no_entries_is_zero() {
    let entries: Vec<AssetEntry> = Vec::new();
    assert_eq!(usage(&entries), 0);
}
