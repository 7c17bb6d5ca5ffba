use vstd::prelude::*;

use crate::errors::StorageError;
use crate::hashing::{blake3_hex, hash_hex};
use crate::relaxed::{cache_add, cache_lookup, cache_prune, expired_keys, no_content_rows,
    RelaxedStateStorage};

verus! {

/// The default time to live of a content cache entry: seven days, in
/// milliseconds.
pub const DEFAULT_TTL_MS: u64 = 7 * 24 * 3600 * 1000;

/// A retrieved cache entry.
pub struct CacheEntry {
    /// The cached payload bytes.
    pub value: Vec<u8>,
    /// How long until the entry is expired, in milliseconds.
    pub expires_in: u64,
}

/// The time to live an insertion uses: the caller's, or seven days when the
/// caller leaves it unspecified.
pub open spec fn effective_ttl(ttl_ms: Option<u64>) -> int {
    match ttl_ms {
        Some(t) => t as int,
        None => DEFAULT_TTL_MS as int,
    }
}

/// Attempt to get a cached response payload for a logical request path.
///
/// The path is hashed to the fixed-width cache key it was stored under. Any
/// storage failure degrades to a miss: cache reads are never fatal.
pub fn try_get(store: &RelaxedStateStorage, backend_id: u128, path: &str) -> (r: Option<
    CacheEntry,
>)
    ensures
        r matches Some(e) ==> exists|now: int|
            0 <= now && cache_lookup(store.content(), backend_id, blake3_hex(path@), now) == Some(
                (e.value@, e.expires_in as int),
            ),
        !store.content().contains_key((backend_id, blake3_hex(path@))) ==> r is None,
{
    let cache_key = hash_hex(path);
    match store.get_content_cache_entry(backend_id, cache_key.as_str()) {
        Ok((value, expires_in)) => Some(CacheEntry { value, expires_in }),
        Err(_) => None,
    }
}

/// Insert a new content response payload into the cache, under the hash of
/// its logical request path, expiring after the given time to live (seven
/// days when unspecified).
///
/// A storage failure is swallowed: cache writes are best-effort, and a
/// failed write leaves the cache unchanged.
pub fn insert(
    store: &mut RelaxedStateStorage,
    backend_id: u128,
    path: &str,
    content: Vec<u8>,
    ttl_ms: Option<u64>,
)
    ensures
        (exists|now: int|
            0 <= now && final(store).content() == cache_add(
                old(store).content(),
                backend_id,
                blake3_hex(path@),
                content@,
                now,
                effective_ttl(ttl_ms),
            )) || final(store).content() == old(store).content(),
        final(store).kv() == old(store).kv(),
        old(store).wf() ==> final(store).wf(),
{
    let ttl = match ttl_ms {
        Some(t) => t,
        None => DEFAULT_TTL_MS,
    };
    let cache_key = hash_hex(path);
    let added = store.add_content_cache_entry(backend_id, cache_key.as_str(), content, ttl);
    proof {
        if added is Ok {
            let now = choose|now: int|
                0 <= now && store.content() == cache_add(
                    old(store).content(),
                    backend_id,
                    cache_key@,
                    content@,
                    now,
                    ttl as int,
                );
            assert(0 <= now && store.content() == cache_add(
                old(store).content(),
                backend_id,
                blake3_hex(path@),
                content@,
                now,
                effective_ttl(ttl_ms),
            ));
        }
    }
}

/// Prune any cache entries that have expired past their time to live.
///
/// Returns the number of rows pruned; a storage failure is swallowed and
/// reported as zero rows pruned, leaving the cache unchanged.
pub fn prune(store: &mut RelaxedStateStorage) -> (r: usize)
    ensures
        (exists|now: int|
            0 <= now && final(store).content() == cache_prune(old(store).content(), now) && r as int
                == expired_keys(old(store).content(), now).len()) || (final(store).content() == old(
            store,
        ).content() && r == 0),
        final(store).kv() == old(store).kv(),
        old(store).wf() ==> final(store).wf(),
{
    match store.prune_content_cache() {
        Ok(n) => n,
        Err(_) => 0,
    }
}

/// Delete all content in the cache.
///
/// A storage failure is swallowed, leaving the cache unchanged.
pub fn purge(store: &mut RelaxedStateStorage)
    ensures
        final(store).content() == no_content_rows() || final(store).content() == old(
            store,
        ).content(),
        final(store).kv() == old(store).kv(),
        old(store).wf() ==> final(store).wf(),
{
    let _ = store.purge_content_cache();
}

} // verus!
