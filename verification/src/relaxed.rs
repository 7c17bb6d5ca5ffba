use vstd::prelude::*;

use rusqlite::OptionalExtension;

use crate::clock::now_millis;
use crate::errors::StorageError;
use crate::sqlite::{db_open, db_open_in_memory, db_pragma_update};

verus! {

/// What the relaxed store's content cache table holds: one row per
/// (backend identifier, cache key) pair, carrying the opaque content bytes
/// and the updated-at and expires-at timestamps in milliseconds since epoch.
pub uninterp spec fn content_rows(conn: rusqlite::Connection) -> Map<
    (u128, Seq<char>),
    (Seq<u8>, int, int),
>;

/// What the relaxed store's key-value table holds: one row per string key,
/// latest write wins.
pub uninterp spec fn kv_rows(conn: rusqlite::Connection) -> Map<Seq<char>, Seq<u8>>;

/// The content cache table of a store holding no rows.
pub open spec fn no_content_rows() -> Map<(u128, Seq<char>), (Seq<u8>, int, int)> {
    Map::empty()
}

/// The key-value table of a store holding no rows.
pub open spec fn no_kv_rows() -> Map<Seq<char>, Seq<u8>> {
    Map::empty()
}

/// The time remaining until an entry expires: zero once the deadline has
/// passed, never negative.
pub open spec fn remaining_ttl_spec(expires_at: int, now: int) -> int {
    if expires_at > now {
        expires_at - now
    } else {
        0
    }
}

/// The expiry deadline assigned to a fresh entry: now plus the time to
/// live, saturated at the largest representable timestamp.
pub open spec fn expiry_spec(now: int, ttl: int) -> int {
    if now + ttl <= i64::MAX {
        now + ttl
    } else {
        i64::MAX as int
    }
}

/// A content cache lookup at a given time: the stored bytes together with
/// the remaining time to live, or nothing when the key holds no row. A
/// found-but-expired row is still returned (with zero remaining): expiry is
/// enforced by pruning, not by reads.
pub open spec fn cache_lookup(
    m: Map<(u128, Seq<char>), (Seq<u8>, int, int)>,
    backend_id: u128,
    cache_key: Seq<char>,
    now: int,
) -> Option<(Seq<u8>, int)> {
    if m.contains_key((backend_id, cache_key)) {
        Some((m[(backend_id, cache_key)].0, remaining_ttl_spec(m[(backend_id, cache_key)].2, now)))
    } else {
        None
    }
}

/// The content cache after an upsert at a given time: the row for the key
/// is replaced (or created) with the new content and timestamps.
pub open spec fn cache_add(
    m: Map<(u128, Seq<char>), (Seq<u8>, int, int)>,
    backend_id: u128,
    cache_key: Seq<char>,
    content: Seq<u8>,
    now: int,
    ttl: int,
) -> Map<(u128, Seq<char>), (Seq<u8>, int, int)> {
    m.insert((backend_id, cache_key), (content, now, expiry_spec(now, ttl)))
}

/// The keys of the rows that have expired at a given time.
pub open spec fn expired_keys(m: Map<(u128, Seq<char>), (Seq<u8>, int, int)>, now: int) -> Set<
    (u128, Seq<char>),
> {
    m.dom().filter(|k: (u128, Seq<char>)| m[k].2 <= now)
}

/// The content cache after a prune at a given time: every expired row is
/// removed, every live row is kept.
pub open spec fn cache_prune(m: Map<(u128, Seq<char>), (Seq<u8>, int, int)>, now: int) -> Map<
    (u128, Seq<char>),
    (Seq<u8>, int, int),
> {
    m.remove_keys(expired_keys(m, now))
}

/// Relies on rusqlite::Connection::execute_batch running CREATE TABLE IF NOT
/// EXISTS statements: the schema is applied idempotently and no existing row
/// is touched.
#[verifier::external_body]
fn db_init_relaxed_schema(conn: &mut rusqlite::Connection) -> (r: Result<(), rusqlite::Error>)
    ensures
        content_rows(*final(conn)) == content_rows(*old(conn)),
        kv_rows(*final(conn)) == kv_rows(*old(conn)),
{
    conn.execute_batch(
        "CREATE TABLE IF NOT EXISTS backend_content_cache (
            backend_id BLOB NOT NULL,
            cache_key TEXT NOT NULL,
            content BLOB NOT NULL,
            updated_at INTEGER NOT NULL,
            expires_at INTEGER NOT NULL,
            PRIMARY KEY (backend_id, cache_key)
        );
        CREATE TABLE IF NOT EXISTS key_value_state (
            key TEXT PRIMARY KEY,
            value BLOB NOT NULL
        );",
    )
}

/// Relies on rusqlite::Connection::query_row over a point SELECT on the
/// content cache's primary key: the row for the key is returned when it
/// exists, and None when it does not.
#[verifier::external_body]
fn db_get_content(conn: &rusqlite::Connection, backend_id: u128, cache_key: &str) -> (r: Result<
    Option<(Vec<u8>, i64, i64)>,
    rusqlite::Error,
>)
    ensures
        r matches Ok(opt) ==> {
            &&& opt is Some <==> content_rows(*conn).contains_key((backend_id, cache_key@))
            &&& opt matches Some((c, u, e)) ==> content_rows(*conn)[(backend_id, cache_key@)] == (
                c@,
                u as int,
                e as int,
            )
        },
{
    conn.query_row(
        "SELECT content, updated_at, expires_at FROM backend_content_cache
         WHERE backend_id = ?1 AND cache_key = ?2;",
        (backend_id.to_be_bytes(), cache_key),
        |row| Ok((row.get(0)?, row.get(1)?, row.get(2)?)),
    ).optional()
}

/// Relies on rusqlite::Connection::execute running an INSERT .. ON CONFLICT
/// DO UPDATE statement on the content cache's primary key: on success
/// exactly the row for the key is replaced (or created) with the given
/// values, atomically; a failed statement changes nothing.
#[verifier::external_body]
fn db_upsert_content(
    conn: &mut rusqlite::Connection,
    backend_id: u128,
    cache_key: &str,
    content: &[u8],
    updated_at: i64,
    expires_at: i64,
) -> (r: Result<(), rusqlite::Error>)
    ensures
        r is Ok ==> content_rows(*final(conn)) == content_rows(*old(conn)).insert(
            (backend_id, cache_key@),
            (content@, updated_at as int, expires_at as int),
        ),
        r is Err ==> content_rows(*final(conn)) == content_rows(*old(conn)),
        kv_rows(*final(conn)) == kv_rows(*old(conn)),
{
    let n = conn.execute(
        "INSERT INTO backend_content_cache (backend_id, cache_key, content, updated_at, expires_at)
         VALUES (?1, ?2, ?3, ?4, ?5)
         ON CONFLICT (backend_id, cache_key)
         DO UPDATE SET
            content = excluded.content,
            updated_at = excluded.updated_at,
            expires_at = excluded.expires_at;",
        (backend_id.to_be_bytes(), cache_key, content, updated_at, expires_at),
    )?;
    let _ = n;
    Ok(())
}

/// Relies on rusqlite::Connection::execute running a DELETE of all content
/// cache rows whose expiry is at or before the given time: exactly those
/// rows are removed, their count is returned, and a failed statement changes
/// nothing.
#[verifier::external_body]
fn db_delete_expired_content(conn: &mut rusqlite::Connection, now: i64) -> (r: Result<
    usize,
    rusqlite::Error,
>)
    ensures
        r matches Ok(n) ==> content_rows(*final(conn)) == cache_prune(content_rows(*old(conn)), now as int)
            && n as int == expired_keys(content_rows(*old(conn)), now as int).len(),
        r is Err ==> content_rows(*final(conn)) == content_rows(*old(conn)),
        kv_rows(*final(conn)) == kv_rows(*old(conn)),
        content_rows(*old(conn)).dom().finite() ==> content_rows(*final(conn)).dom().finite(),
{
    conn.execute("DELETE FROM backend_content_cache WHERE expires_at <= ?1;", (now,))
}

/// Relies on rusqlite::Connection::execute running an unconditional DELETE
/// of all content cache rows: the table is left empty and the count of
/// removed rows is returned; a failed statement changes nothing.
#[verifier::external_body]
fn db_delete_all_content(conn: &mut rusqlite::Connection) -> (r: Result<usize, rusqlite::Error>)
    ensures
        r matches Ok(n) ==> content_rows(*final(conn)) == no_content_rows() && n as int == content_rows(
            *old(conn),
        ).dom().len(),
        r is Err ==> content_rows(*final(conn)) == content_rows(*old(conn)),
        kv_rows(*final(conn)) == kv_rows(*old(conn)),
{
    conn.execute("DELETE FROM backend_content_cache;", ())
}

/// Relies on rusqlite::Connection::query_row over a point SELECT on the
/// key-value table's primary key: the value for the key is returned when a
/// row exists, and None when it does not.
#[verifier::external_body]
fn db_get_kv(conn: &rusqlite::Connection, key: &str) -> (r: Result<
    Option<Vec<u8>>,
    rusqlite::Error,
>)
    ensures
        r matches Ok(opt) ==> {
            &&& opt is Some <==> kv_rows(*conn).contains_key(key@)
            &&& opt matches Some(v) ==> kv_rows(*conn)[key@] == v@
        },
{
    conn.query_row(
        "SELECT value FROM key_value_state WHERE key = ?1;",
        (key,),
        |row| row.get(0),
    ).optional()
}

/// Relies on rusqlite::Connection::execute running an INSERT .. ON CONFLICT
/// DO UPDATE statement on the key-value table's primary key: on success the
/// row for the key is replaced (or created) with the given value; a failed
/// statement changes nothing.
#[verifier::external_body]
fn db_set_kv(conn: &mut rusqlite::Connection, key: &str, value: &[u8]) -> (r: Result<
    (),
    rusqlite::Error,
>)
    ensures
        r is Ok ==> kv_rows(*final(conn)) == kv_rows(*old(conn)).insert(key@, value@),
        r is Err ==> kv_rows(*final(conn)) == kv_rows(*old(conn)),
        content_rows(*final(conn)) == content_rows(*old(conn)),
{
    let n = conn.execute(
        "INSERT INTO key_value_state (key, value) VALUES (?1, ?2)
         ON CONFLICT (key) DO UPDATE SET value = excluded.value;",
        (key, value),
    )?;
    let _ = n;
    Ok(())
}

/// The throughput-favoring store for disposable state: content cache rows
/// and small key-value UI state.
///
/// Opened with write-ahead logging but without forced synchronous flushing:
/// everything here is either a cache or quickly reproducible, so durability
/// is traded for throughput and no row is guaranteed to survive an abrupt
/// termination.
pub struct RelaxedStateStorage {
    conn: rusqlite::Connection,
}

impl RelaxedStateStorage {
    /// The content cache rows the store holds.
    pub closed spec fn content(self) -> Map<(u128, Seq<char>), (Seq<u8>, int, int)> {
        content_rows(self.conn)
    }

    /// The key-value rows the store holds.
    pub closed spec fn kv(self) -> Map<Seq<char>, Seq<u8>> {
        kv_rows(self.conn)
    }

    /// The store's tables hold finitely many rows.
    pub closed spec fn wf(self) -> bool {
        &&& content_rows(self.conn).dom().finite()
        &&& kv_rows(self.conn).dom().finite()
    }

    /// Open (or create) the backing file under the given data directory,
    /// configured for throughput over durability, and apply the schema
    /// idempotently.
    ///
    /// This is a single open attempt. The destructive retry policy for an
    /// unreadable file (delete and recreate once, acceptable because no row
    /// here is authoritative) belongs to the caller that owns the file.
    pub fn open(data_dir: &str) -> (r: Result<RelaxedStateStorage, StorageError>)
        ensures
            r matches Ok(s) ==> s.wf(),
            r matches Err(e) ==> e == StorageError::Database,
    {
        let path = String::from_str(data_dir).concat("/relaxed.sqlite");
        let mut conn = match db_open(path.as_str()) {
            Ok(conn) => conn,
            Err(_) => {
                return Err(StorageError::Database);
            },
        };
        if db_pragma_update(&mut conn, "journal_mode", "WAL").is_err() {
            return Err(StorageError::Database);
        }
        if db_pragma_update(&mut conn, "synchronous", "OFF").is_err() {
            return Err(StorageError::Database);
        }
        if db_init_relaxed_schema(&mut conn).is_err() {
            return Err(StorageError::Database);
        }
        Ok(RelaxedStateStorage { conn })
    }

    /// Open an in-memory store holding no rows, with the schema applied.
    pub fn open_in_memory() -> (r: Result<RelaxedStateStorage, StorageError>)
        ensures
            r matches Ok(s) ==> s.wf() && s.content() == no_content_rows() && s.kv()
                == no_kv_rows(),
            r matches Err(e) ==> e == StorageError::Database,
    {
        let mut conn = match db_open_in_memory() {
            Ok(conn) => conn,
            Err(_) => {
                return Err(StorageError::Database);
            },
        };
        if db_init_relaxed_schema(&mut conn).is_err() {
            return Err(StorageError::Database);
        }
        Ok(RelaxedStateStorage { conn })
    }

    /// Retrieve an existing cached content entry, judging the remaining
    /// time to live against the given clock reading.
    ///
    /// A found-but-expired entry is still returned, with zero remaining:
    /// expiry enforcement is delegated to pruning.
    pub fn get_content_cache_entry_at(
        &self,
        backend_id: u128,
        cache_key: &str,
        now: i64,
    ) -> (r: Result<(Vec<u8>, u64), StorageError>)
        requires
            0 <= now,
        ensures
            r matches Ok((c, rem)) ==> cache_lookup(self.content(), backend_id, cache_key@, now as int)
                == Some((c@, rem as int)),
            (r matches Err(e) && e == StorageError::NotFound) ==> !self.content().contains_key(
                (backend_id, cache_key@),
            ),
            !self.content().contains_key((backend_id, cache_key@)) ==> r is Err,
            r matches Err(e) ==> (e == StorageError::NotFound || e == StorageError::Database),
    {
        match db_get_content(&self.conn, backend_id, cache_key) {
            Ok(Some((content, _updated_at, expires_at))) => {
                let remaining: u64 = if expires_at > now {
                    (expires_at - now) as u64
                } else {
                    0
                };
                Ok((content, remaining))
            },
            Ok(None) => Err(StorageError::NotFound),
            Err(_) => Err(StorageError::Database),
        }
    }

    /// Retrieve an existing cached content entry, judging the remaining
    /// time to live against the wall clock.
    pub fn get_content_cache_entry(&self, backend_id: u128, cache_key: &str) -> (r: Result<
        (Vec<u8>, u64),
        StorageError,
    >)
        ensures
            r matches Ok((c, rem)) ==> exists|now: int|
                0 <= now && cache_lookup(self.content(), backend_id, cache_key@, now) == Some(
                    (c@, rem as int),
                ),
            (r matches Err(e) && e == StorageError::NotFound) ==> !self.content().contains_key(
                (backend_id, cache_key@),
            ),
            !self.content().contains_key((backend_id, cache_key@)) ==> r is Err,
    {
        let now = now_millis();
        self.get_content_cache_entry_at(backend_id, cache_key, now)
    }

    /// Add (or refresh) a content cache entry with the given clock reading:
    /// an upsert whose expiry is the reading plus the time to live.
    pub fn add_content_cache_entry_at(
        &mut self,
        backend_id: u128,
        cache_key: &str,
        content: Vec<u8>,
        ttl_ms: u64,
        now: i64,
    ) -> (r: Result<(), StorageError>)
        requires
            0 <= now,
        ensures
            r is Ok ==> final(self).content() == cache_add(
                old(self).content(),
                backend_id,
                cache_key@,
                content@,
                now as int,
                ttl_ms as int,
            ),
            r is Err ==> final(self).content() == old(self).content(),
            r matches Err(e) ==> e == StorageError::Database,
            final(self).kv() == old(self).kv(),
            old(self).wf() ==> final(self).wf(),
    {
        let expires_at: i64 = if ttl_ms <= (i64::MAX - now) as u64 {
            now + (ttl_ms as i64)
        } else {
            i64::MAX
        };
        match db_upsert_content(
            &mut self.conn,
            backend_id,
            cache_key,
            content.as_slice(),
            now,
            expires_at,
        ) {
            Ok(()) => Ok(()),
            Err(_) => Err(StorageError::Database),
        }
    }

    /// Add (or refresh) a content cache entry against the wall clock.
    pub fn add_content_cache_entry(
        &mut self,
        backend_id: u128,
        cache_key: &str,
        content: Vec<u8>,
        ttl_ms: u64,
    ) -> (r: Result<(), StorageError>)
        ensures
            r is Ok ==> exists|now: int|
                0 <= now && final(self).content() == cache_add(
                    old(self).content(),
                    backend_id,
                    cache_key@,
                    content@,
                    now,
                    ttl_ms as int,
                ),
            r is Err ==> final(self).content() == old(self).content(),
            r matches Err(e) ==> e == StorageError::Database,
            final(self).kv() == old(self).kv(),
            old(self).wf() ==> final(self).wf(),
    {
        let now = now_millis();
        self.add_content_cache_entry_at(backend_id, cache_key, content, ttl_ms, now)
    }

    /// Prune the content cache of every entry expired at the given clock
    /// reading, returning how many rows were removed.
    pub fn prune_content_cache_at(&mut self, now: i64) -> (r: Result<usize, StorageError>)
        ensures
            r matches Ok(n) ==> final(self).content() == cache_prune(old(self).content(), now as int)
                && n as int == expired_keys(old(self).content(), now as int).len(),
            r is Err ==> final(self).content() == old(self).content(),
            r matches Err(e) ==> e == StorageError::Database,
            final(self).kv() == old(self).kv(),
            old(self).wf() ==> final(self).wf(),
    {
        match db_delete_expired_content(&mut self.conn, now) {
            Ok(n) => Ok(n),
            Err(_) => Err(StorageError::Database),
        }
    }

    /// Prune the content cache of every entry expired at the wall clock,
    /// returning how many rows were removed.
    pub fn prune_content_cache(&mut self) -> (r: Result<usize, StorageError>)
        ensures
            r matches Ok(n) ==> exists|now: int|
                0 <= now && final(self).content() == cache_prune(old(self).content(), now) && n as int
                    == expired_keys(old(self).content(), now).len(),
            r is Err ==> final(self).content() == old(self).content(),
            r matches Err(e) ==> e == StorageError::Database,
            final(self).kv() == old(self).kv(),
            old(self).wf() ==> final(self).wf(),
    {
        let now = now_millis();
        self.prune_content_cache_at(now)
    }

    /// Purge the content cache of all entries, returning how many rows were
    /// removed.
    pub fn purge_content_cache(&mut self) -> (r: Result<usize, StorageError>)
        ensures
            r matches Ok(n) ==> final(self).content() == no_content_rows() && n as int == old(
                self,
            ).content().dom().len(),
            r is Err ==> final(self).content() == old(self).content(),
            r matches Err(e) ==> e == StorageError::Database,
            final(self).kv() == old(self).kv(),
            old(self).wf() ==> final(self).wf(),
    {
        match db_delete_all_content(&mut self.conn) {
            Ok(n) => Ok(n),
            Err(_) => Err(StorageError::Database),
        }
    }

    /// Look up a small persisted key-value row.
    pub fn get_key_value(&self, key: &str) -> (r: Result<Option<Vec<u8>>, StorageError>)
        ensures
            r matches Ok(opt) ==> {
                &&& opt is Some <==> self.kv().contains_key(key@)
                &&& opt matches Some(v) ==> self.kv()[key@] == v@
            },
            r matches Err(e) ==> e == StorageError::Database,
    {
        match db_get_kv(&self.conn, key) {
            Ok(opt) => Ok(opt),
            Err(_) => Err(StorageError::Database),
        }
    }

    /// Write a small persisted key-value row: latest write wins.
    pub fn set_key_value(&mut self, key: &str, value: &[u8]) -> (r: Result<(), StorageError>)
        ensures
            r is Ok ==> final(self).kv() == old(self).kv().insert(key@, value@),
            r is Err ==> final(self).kv() == old(self).kv(),
            r matches Err(e) ==> e == StorageError::Database,
            final(self).content() == old(self).content(),
            old(self).wf() ==> final(self).wf(),
    {
        match db_set_kv(&mut self.conn, key, value) {
            Ok(()) => Ok(()),
            Err(_) => Err(StorageError::Database),
        }
    }
}

/// Law: a freshly added entry is found unchanged, with no more than its
/// time to live remaining.
///
/// For every cache state, key, content and time to live, adding the entry
/// at one clock reading and looking it up at the same or any later reading
/// yields exactly the stored bytes, and the remaining time to live never
/// exceeds the time to live it was stored with.
pub proof fn lemma_fresh_entry_ttl(
    m: Map<(u128, Seq<char>), (Seq<u8>, int, int)>,
    backend_id: u128,
    cache_key: Seq<char>,
    content: Seq<u8>,
    ttl: int,
    now_add: int,
    now_get: int,
)
    requires
        0 <= now_add <= now_get,
        0 <= ttl,
    ensures
        cache_lookup(cache_add(m, backend_id, cache_key, content, now_add, ttl), backend_id,
            cache_key, now_get) matches Some(entry) && entry.0 == content && 0 <= entry.1 <= ttl,
{
}

/// Law: pruning is idempotent.
///
/// Pruning removes exactly the rows expired at the clock reading it is
/// given; a second prune with no intervening insertions, judged at the same
/// or any earlier reading, finds nothing expired and removes zero rows.
pub proof fn lemma_prune_idempotent(
    m: Map<(u128, Seq<char>), (Seq<u8>, int, int)>,
    now_first: int,
    now_second: int,
)
    requires
        now_second <= now_first,
        m.dom().finite(),
    ensures
        expired_keys(cache_prune(m, now_first), now_second).len() == 0,
        cache_prune(cache_prune(m, now_first), now_second) == cache_prune(m, now_first),
{
    let pruned = cache_prune(m, now_first);
    assert(expired_keys(pruned, now_second) =~= Set::<(u128, Seq<char>)>::empty());
    assert(cache_prune(pruned, now_second) =~= pruned);
}

} // verus!
