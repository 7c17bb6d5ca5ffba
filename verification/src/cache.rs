use vstd::prelude::*;

use crate::asset_cache::{is_prune_plan, total_size, usage, AssetEntry};
use crate::directory::DirectoryPaths;
use crate::errors::StorageError;
use crate::hashing::{blake3_hex, hash_hex};

verus! {

/// Caches assets and images locally on disk rather than fetching them from
/// the server: one file per entry under the cache root, named by the
/// content-addressed identifier of its logical path, with no expiry and a
/// byte-budget eviction policy.
pub struct AssetProxyCache {
    cache_directory: String,
}

impl AssetProxyCache {
    /// The directory this cache stores its entries under.
    pub closed spec fn dir(self) -> Seq<char> {
        self.cache_directory@
    }

    /// Open the asset cache over the cache root of the resolved paths.
    pub fn open(paths: &DirectoryPaths) -> (r: Result<AssetProxyCache, StorageError>)
        ensures
            r matches Ok(c) && c.dir() == paths.spec_cache_dir(),
    {
        let dir = paths.cache_dir();
        Ok(AssetProxyCache { cache_directory: String::from_str(dir) })
    }

    /// The full path of the file that holds (or would hold) the asset with
    /// the given logical path. Retrieval and insertion address the same
    /// file, because the name depends on the logical path alone.
    pub fn entry_path(&self, path: &str) -> (r: String)
        ensures
            r@ == self.dir() + "/"@ + blake3_hex(path@),
    {
        let file_name = hash_hex(path);
        self.cache_directory.clone().concat("/").concat(file_name.as_str())
    }

    /// Returns the total size of the given cached entries, saturating at
    /// the largest representable total.
    pub fn usage(&self, entries: &Vec<AssetEntry>) -> (r: u64)
        ensures
            total_size(entries@) <= u64::MAX ==> r as int == total_size(entries@),
            total_size(entries@) > u64::MAX ==> r == u64::MAX,
    {
        usage(entries)
    }

    /// Compute which of the given entries a prune to the target capacity
    /// removes: least-recently-accessed first, until what remains fits.
    pub fn prune_plan(&self, entries: Vec<AssetEntry>, target_size: u64) -> (r: Vec<AssetEntry>)
        requires
            total_size(entries@) <= u64::MAX,
        ensures
            exists|s: Seq<AssetEntry>| is_prune_plan(entries@, target_size as int, r@, s),
    {
        crate::asset_cache::prune_plan(entries, target_size)
    }
}

} // verus!
