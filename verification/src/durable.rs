use vstd::prelude::*;

use crate::backends::{kind_str, BackendInitState, BackendKind};
use crate::errors::StorageError;
use crate::sqlite::{db_open, db_open_in_memory, db_pragma_update};

verus! {

/// What the durable store's backend table holds: one row per configured
/// backend, keyed by its identifier, carrying the persisted kind string and
/// the serialized context text.
pub uninterp spec fn backend_rows(conn: rusqlite::Connection) -> Map<u128, (Seq<char>, Seq<char>)>;

/// The backend table of a store holding no records.
pub open spec fn no_backend_rows() -> Map<u128, (Seq<char>, Seq<char>)> {
    Map::empty()
}

/// Relies on rusqlite::Connection::execute running a CREATE TABLE IF NOT
/// EXISTS statement: the schema is applied idempotently and no existing row
/// is touched.
#[verifier::external_body]
fn db_init_durable_schema(conn: &mut rusqlite::Connection) -> (r: Result<(), rusqlite::Error>)
    ensures
        backend_rows(*final(conn)) == backend_rows(*old(conn)),
{
    conn.execute_batch(
        "CREATE TABLE IF NOT EXISTS backend_init_state (
            backend_id BLOB PRIMARY KEY,
            kind TEXT NOT NULL,
            context TEXT NOT NULL
        );",
    )
}

/// Relies on rusqlite::Connection::execute running a plain INSERT against
/// the primary-keyed backend table: on success exactly this row is added; a
/// primary-key conflict (the identifier is already present) makes the
/// statement fail; a failed statement changes nothing.
#[verifier::external_body]
fn db_insert_backend(
    conn: &mut rusqlite::Connection,
    id: u128,
    kind: &str,
    context: &str,
) -> (r: Result<(), rusqlite::Error>)
    ensures
        backend_rows(*old(conn)).contains_key(id) ==> r is Err,
        r is Ok ==> !backend_rows(*old(conn)).contains_key(id) && backend_rows(*final(conn))
            == backend_rows(*old(conn)).insert(id, (kind@, context@)),
        r is Err ==> backend_rows(*final(conn)) == backend_rows(*old(conn)),
{
    let n = conn.execute(
        "INSERT INTO backend_init_state (backend_id, kind, context) VALUES (?1, ?2, ?3);",
        (id.to_be_bytes(), kind, context),
    )?;
    let _ = n;
    Ok(())
}

/// Relies on rusqlite::Statement::query_map over a full SELECT of the
/// backend table: every stored row is returned exactly once, in an
/// unspecified order, with its identifier, kind string and context text.
#[verifier::external_body]
fn db_read_all_backends(
    conn: &rusqlite::Connection,
) -> (r: Result<Vec<(u128, String, String)>, rusqlite::Error>)
    ensures
        r matches Ok(v) ==> {
            &&& v@.len() == backend_rows(*conn).dom().len()
            &&& forall|i: int|
                0 <= i < v@.len() ==> backend_rows(*conn).contains_pair(
                    (#[trigger] v@[i]).0,
                    (v@[i].1@, v@[i].2@),
                )
            &&& forall|i: int, j: int|
                0 <= i < v@.len() && 0 <= j < v@.len() && i != j ==> (#[trigger] v@[i]).0 != (
                #[trigger] v@[j]).0
        },
{
    let mut stmt = conn.prepare("SELECT backend_id, kind, context FROM backend_init_state;")?;
    let rows = stmt.query_map((), |row| {
        let id: [u8; 16] = row.get(0)?;
        Ok((u128::from_be_bytes(id), row.get(1)?, row.get(2)?))
    })?;
    rows.collect()
}

/// The authoritative, crash-safe store for backend configuration records.
///
/// Opened with write-ahead logging and full synchronous flushing: durability
/// is prioritized over throughput. Open failure is unrecoverable by design —
/// this store is never destructively reset, because that would silently
/// destroy user configuration.
pub struct DurableStateStorage {
    conn: rusqlite::Connection,
}

impl DurableStateStorage {
    /// The rows the store holds, keyed by backend identifier.
    pub closed spec fn rows(self) -> Map<u128, (Seq<char>, Seq<char>)> {
        backend_rows(self.conn)
    }

    /// Open (or create) the backing file under the given data directory,
    /// configure it for maximum durability, and apply the schema
    /// idempotently. Whatever records the file already holds are preserved.
    pub fn open(data_dir: &str) -> (r: Result<DurableStateStorage, StorageError>)
        ensures
            r matches Ok(s) ==> s.rows().dom().finite(),
            r matches Err(e) ==> e == StorageError::Database,
    {
        let path = String::from_str(data_dir).concat("/durable.sqlite");
        let mut conn = match db_open(path.as_str()) {
            Ok(conn) => conn,
            Err(_) => {
                return Err(StorageError::Database);
            },
        };
        if db_pragma_update(&mut conn, "journal_mode", "WAL").is_err() {
            return Err(StorageError::Database);
        }
        if db_pragma_update(&mut conn, "synchronous", "FULL").is_err() {
            return Err(StorageError::Database);
        }
        if db_init_durable_schema(&mut conn).is_err() {
            return Err(StorageError::Database);
        }
        Ok(DurableStateStorage { conn })
    }

    /// Open an in-memory store holding no records, with the schema applied.
    pub fn open_in_memory() -> (r: Result<DurableStateStorage, StorageError>)
        ensures
            r matches Ok(s) ==> s.rows() == no_backend_rows(),
            r matches Err(e) ==> e == StorageError::Database,
    {
        let mut conn = match db_open_in_memory() {
            Ok(conn) => conn,
            Err(_) => {
                return Err(StorageError::Database);
            },
        };
        if db_init_durable_schema(&mut conn).is_err() {
            return Err(StorageError::Database);
        }
        Ok(DurableStateStorage { conn })
    }

    /// Persist the provided backend init state.
    ///
    /// Configuration records are append-only by design: an identifier that
    /// is already present is rejected, never silently overwritten. A failed
    /// operation leaves the store unchanged.
    pub fn save_backend_init_state(&mut self, state: BackendInitState) -> (r: Result<
        (),
        StorageError,
    >)
        ensures
            old(self).rows().contains_key(state.id) ==> r is Err,
            r is Ok ==> !old(self).rows().contains_key(state.id) && final(self).rows() == old(
                self,
            ).rows().insert(state.id, (kind_str(state.kind), state.context@)),
            r is Err ==> final(self).rows() == old(self).rows(),
            r matches Err(e) ==> e == StorageError::Database,
    {
        let kind = state.kind.as_str();
        match db_insert_backend(&mut self.conn, state.id, kind, state.context.as_str()) {
            Ok(()) => Ok(()),
            Err(_) => Err(StorageError::Database),
        }
    }

    /// Retrieves all persisted backend init state records.
    ///
    /// A full scan; the order of the returned records is not specified. A
    /// row whose kind string cannot be interpreted is a hard error for the
    /// whole call: a corrupt record must not silently vanish.
    pub fn read_all_backend_init_state(&self) -> (r: Result<Vec<BackendInitState>, StorageError>)
        ensures
            r matches Ok(states) ==> {
                &&& states@.len() == self.rows().dom().len()
                &&& forall|i: int|
                    0 <= i < states@.len() ==> self.rows().contains_pair(
                        (#[trigger] states@[i]).id,
                        (kind_str(states@[i].kind), states@[i].context@),
                    )
                &&& forall|i: int, j: int|
                    0 <= i < states@.len() && 0 <= j < states@.len() && i != j ==> (
                    #[trigger] states@[i]).id != (#[trigger] states@[j]).id
            },
            (r matches Err(e) && e == StorageError::UnknownBackendKind) ==> exists|id: u128|
                self.rows().dom().contains(id) && (#[trigger] self.rows()[id]).0 != kind_str(
                    BackendKind::Jellyfin,
                ),
            r matches Err(e) ==> (e == StorageError::Database || e
                == StorageError::UnknownBackendKind),
    {
        let raw = match db_read_all_backends(&self.conn) {
            Ok(raw) => raw,
            Err(_) => {
                return Err(StorageError::Database);
            },
        };
        let mut states: Vec<BackendInitState> = Vec::new();
        let mut i: usize = 0;
        while i < raw.len()
            invariant
                0 <= i <= raw@.len(),
                states@.len() == i,
                raw@.len() == self.rows().dom().len(),
                forall|k: int|
                    0 <= k < raw@.len() ==> self.rows().contains_pair(
                        (#[trigger] raw@[k]).0,
                        (raw@[k].1@, raw@[k].2@),
                    ),
                forall|k: int, l: int|
                    0 <= k < raw@.len() && 0 <= l < raw@.len() && k != l ==> (#[trigger] raw@[k]).0
                        != (#[trigger] raw@[l]).0,
                forall|k: int|
                    0 <= k < i ==> (#[trigger] states@[k]).id == raw@[k].0 && kind_str(
                        states@[k].kind,
                    ) == raw@[k].1@ && states@[k].context@ == raw@[k].2@,
            decreases raw@.len() - i,
        {
            let (id, kind_text, context) = (raw[i].0, raw[i].1.clone(), raw[i].2.clone());
            let kind = match BackendKind::from_str(kind_text.as_str()) {
                Some(kind) => kind,
                None => {
                    assert(self.rows().contains_pair(id, (raw@[i as int].1@, raw@[i as int].2@)));
                    return Err(StorageError::UnknownBackendKind);
                },
            };
            states.push(BackendInitState { id, kind, context });
            i += 1;
        }
        Ok(states)
    }
}

} // verus!
