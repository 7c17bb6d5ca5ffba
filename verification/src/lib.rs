//! The persistent application state layer of a desktop media-library client.
//!
//! The crate provides: directory/path resolution for the three storage roots,
//! an authoritative durable record store and a best-effort relaxed store (both
//! embedded relational files), a TTL-keyed content cache layered on the
//! relaxed store, a content-addressed size-bounded asset cache, and the
//! mailbox state machine that serializes all store access.

pub mod asset_cache;
pub mod backends;
pub mod cache;
pub mod clock;
pub mod content_cache;
pub mod directory;
pub mod durable;
pub mod errors;
pub mod hashing;
pub mod models;
pub mod navigator;
pub mod relaxed;
pub mod sqlite;
pub mod state;

use vstd::prelude::*;

use crate::directory::{init_paths, DirectoryPaths};
use crate::durable::DurableStateStorage;
use crate::errors::StorageError;
use crate::relaxed::RelaxedStateStorage;

verus! {

/// The app storage system: the resolved directory paths and the two opened
/// relational stores. Constructed once at startup and handed to every
/// collaborator that needs storage access; the stores' connections are owned
/// here exclusively for the process.
pub struct Storage {
    /// The resolved storage roots.
    pub paths: DirectoryPaths,
    /// The authoritative store for backend configuration.
    pub durable: DurableStateStorage,
    /// The disposable store for cache rows and small key-value state.
    pub relaxed: RelaxedStateStorage,
}

/// Initialise the app storage system: resolve the directory paths (from the
/// explicit base path, or OS convention without one) and open both
/// relational stores under the data root.
///
/// The three directories must already exist on disk; a failure to open
/// either store is fatal and nothing is handed back.
pub fn init_storage(base_path: Option<&str>) -> (r: Result<Storage, StorageError>)
    ensures
        r matches Ok(s) ==> {
            &&& s.durable.rows().dom().finite()
            &&& s.relaxed.wf()
            &&& base_path matches Some(base) ==> {
                &&& s.paths.spec_config_dir() == base@ + "/config"@
                &&& s.paths.spec_cache_dir() == base@ + "/cache"@
                &&& s.paths.spec_data_dir() == base@ + "/data"@
            }
        },
        r matches Err(e) ==> (e == StorageError::Directories || e == StorageError::Database),
        (r is Err && base_path is Some) ==> (r matches Err(e) && e == StorageError::Database),
{
    let paths = match init_paths(base_path) {
        Ok(paths) => paths,
        Err(e) => {
            return Err(e);
        },
    };
    let durable = match DurableStateStorage::open(paths.data_dir()) {
        Ok(durable) => durable,
        Err(e) => {
            return Err(e);
        },
    };
    let relaxed = match RelaxedStateStorage::open(paths.data_dir()) {
        Ok(relaxed) => relaxed,
        Err(e) => {
            return Err(e);
        },
    };
    Ok(Storage { paths, durable, relaxed })
}

/// Get the resolved directory paths of an initialised storage system.
pub fn paths(storage: &Storage) -> (r: &DirectoryPaths)
    ensures
        r == storage.paths,
{
    &storage.paths
}

} // verus!
