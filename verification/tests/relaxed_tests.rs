use bluebottle::errors::StorageError;
use bluebottle::relaxed::RelaxedStateStorage;

#[test]
fn test_add_and_get_content_cache() {
    let backend_id = uuid::Uuid::now_v7().as_u128();

    let mut storage = RelaxedStateStorage::open_in_memory().unwrap();
    storage
        .add_content_cache_entry(backend_id, "/example", b"hello, world!".to_vec(), 300_000)
        .unwrap();

    let (entry, expires_in) = storage
        .get_content_cache_entry(backend_id, "/example")
        .unwrap();
    assert_eq!(entry, b"hello, world!".to_vec());
    assert!(expires_in <= 300_000);
}

#[test]
fn test_prune_content_cache() {
    let backend_id = uuid::Uuid::now_v7().as_u128();

    let mut storage = RelaxedStateStorage::open_in_memory().unwrap();
    storage
        .add_content_cache_entry_at(backend_id, "/example", b"hello, world!".to_vec(), 50, 1_000)
        .unwrap();

    assert!(storage.get_content_cache_entry_at(backend_id, "/example", 1_000).is_ok());

    // judged 100 ms later, the 50 ms entry has expired
    let n = storage.prune_content_cache_at(1_100).unwrap();
    assert_eq!(n, 1);

    assert!(storage.get_content_cache_entry_at(backend_id, "/example", 1_100).is_err());
}

#[test]
fn test_purge_content_cache() {
    let backend_id = uuid::Uuid::now_v7().as_u128();

    let mut storage = RelaxedStateStorage::open_in_memory().unwrap();
    storage
        .add_content_cache_entry(backend_id, "/example", b"hello, world!".to_vec(), 50_000)
        .unwrap();

    assert!(storage.get_content_cache_entry(backend_id, "/example").is_ok());

    let n = storage.purge_content_cache().unwrap();
    assert_eq!(n, 1);

    assert!(storage.get_content_cache_entry(backend_id, "/example").is_err());
}

#[test]
fn content_cache_ttl_scenario() {
    let backend_id = uuid::Uuid::now_v7().as_u128();
    let now: i64 = 1_000_000;

    let mut storage = RelaxedStateStorage::open_in_memory().unwrap();
    storage
        .add_content_cache_entry_at(
            backend_id,
            "/example",
            b"hello, world!".to_vec(),
            300_000,
            now,
        )
        .unwrap();

    let (entry, expires_in) = storage
        .get_content_cache_entry_at(backend_id, "/example", now)
        .unwrap();
    assert_eq!(entry, b"hello, world!".to_vec());
    assert!(expires_in <= 300_000);

    // once the time to live has elapsed, pruning removes exactly that row
    let n = storage.prune_content_cache_at(now + 300_000).unwrap();
    assert_eq!(n, 1);
    assert!(storage
        .get_content_cache_entry_at(backend_id, "/example", now + 300_000)
        .is_err());
}

#[test]
fn prune_twice_removes_nothing_more() {
    let backend_id = uuid::Uuid::now_v7().as_u128();
    let now: i64 = 5_000;

    let mut storage = RelaxedStateStorage::open_in_memory().unwrap();
    storage
        .add_content_cache_entry_at(backend_id, "/a", b"a".to_vec(), 100, now)
        .unwrap();
    storage
        .add_content_cache_entry_at(backend_id, "/b", b"b".to_vec(), 10_000, now)
        .unwrap();

    let later = now + 1_000;
    let first = storage.prune_content_cache_at(later).unwrap();
    assert_eq!(first, 1);
    let second = storage.prune_content_cache_at(later).unwrap();
    assert_eq!(second, 0);
}

#[test]
fn expired_entry_still_returned_by_lookup() {
    let backend_id = uuid::Uuid::now_v7().as_u128();

    let mut storage = RelaxedStateStorage::open_in_memory().unwrap();
    storage
        .add_content_cache_entry_at(backend_id, "/stale", b"old".to_vec(), 10, 1_000)
        .unwrap();

    // far past its expiry, a direct lookup still returns the row, with
    // zero remaining: expiry enforcement is pruning's job
    let (entry, expires_in) = storage
        .get_content_cache_entry_at(backend_id, "/stale", 100_000)
        .unwrap();
    assert_eq!(entry, b"old".to_vec());
    assert_eq!(expires_in, 0);
}

#[test]
fn upsert_replaces_content_and_ttl() {
    let backend_id = uuid::Uuid::now_v7().as_u128();

    let mut storage = RelaxedStateStorage::open_in_memory().unwrap();
    storage
        .add_content_cache_entry_at(backend_id, "/k", b"first".to_vec(), 1_000, 10_000)
        .unwrap();
    storage
        .add_content_cache_entry_at(backend_id, "/k", b"second".to_vec(), 2_000, 20_000)
        .unwrap();

    let (entry, expires_in) = storage
        .get_content_cache_entry_at(backend_id, "/k", 20_000)
        .unwrap();
    assert_eq!(entry, b"second".to_vec());
    assert_eq!(expires_in, 2_000);

    // still exactly one row for the key
    let n = storage.purge_content_cache().unwrap();
    assert_eq!(n, 1);
}

#[test]
fn missing_entry_is_not_found() {
    let storage = RelaxedStateStorage::open_in_memory().unwrap();
    let backend_id = uuid::Uuid::now_v7().as_u128();
    let r = storage.get_content_cache_entry_at(backend_id, "/missing", 1_000);
    assert_eq!(r.unwrap_err(), StorageError::NotFound);
}

#[test]
fn key_value_last_write_wins() {
    let mut storage = RelaxedStateStorage::open_in_memory().unwrap();

    assert_eq!(storage.get_key_value("navigator_screen").unwrap(), None);

    storage.set_key_value("navigator_screen", &[1, 0, 0, 0]).unwrap();
    storage.set_key_value("navigator_screen", &[3, 0, 0, 0]).unwrap();

    let value = storage.get_key_value("navigator_screen").unwrap();
    assert_eq!(value, Some(vec![3, 0, 0, 0]));
}
