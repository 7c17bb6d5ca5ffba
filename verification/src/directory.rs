use vstd::prelude::*;

use crate::errors::StorageError;

verus! {

/// The three storage roots used by the application: configuration files,
/// cache files, and data files.
///
/// Resolution derives them either from an explicit base path (three
/// subdirectories beneath it) or from the OS-conventional per-application
/// locations. The resolver only computes the paths; creating the directories
/// on disk is left to the caller, which must not proceed unless all three
/// exist.
pub struct DirectoryPaths {
    config_dir: String,
    cache_dir: String,
    data_dir: String,
}

impl DirectoryPaths {
    /// The configuration root, as the character sequence of its path.
    pub closed spec fn spec_config_dir(self) -> Seq<char> {
        self.config_dir@
    }

    /// The cache root, as the character sequence of its path.
    pub closed spec fn spec_cache_dir(self) -> Seq<char> {
        self.cache_dir@
    }

    /// The data root, as the character sequence of its path.
    pub closed spec fn spec_data_dir(self) -> Seq<char> {
        self.data_dir@
    }

    /// Derive the three storage roots as subdirectories of an explicit base.
    pub fn from_explicit_path(path: &str) -> (r: DirectoryPaths)
        ensures
            r.spec_config_dir() == path@ + "/config"@,
            r.spec_cache_dir() == path@ + "/cache"@,
            r.spec_data_dir() == path@ + "/data"@,
    {
        DirectoryPaths {
            config_dir: String::from_str(path).concat("/config"),
            cache_dir: String::from_str(path).concat("/cache"),
            data_dir: String::from_str(path).concat("/data"),
        }
    }

    /// Returns the directory that should hold configuration files.
    pub fn config_dir(&self) -> (r: &str)
        ensures
            r@ == self.spec_config_dir(),
    {
        self.config_dir.as_str()
    }

    /// Returns the directory that should hold cache & temporary files.
    pub fn cache_dir(&self) -> (r: &str)
        ensures
            r@ == self.spec_cache_dir(),
    {
        self.cache_dir.as_str()
    }

    /// Returns the directory that should hold data files.
    pub fn data_dir(&self) -> (r: &str)
        ensures
            r@ == self.spec_data_dir(),
    {
        self.data_dir.as_str()
    }
}

/// Relies on directories::ProjectDirs::from to locate the OS-conventional
/// per-application directories for this application identity. The result
/// depends on the machine and environment, so nothing is promised about the
/// returned paths beyond their presence.
#[verifier::external_body]
fn sniff_project_dirs() -> (r: Option<(String, String, String)>)
{
    let paths = directories::ProjectDirs::from("com", "chillfish8", "Bluebottle")?;
    let config = paths.config_dir().to_string_lossy().into_owned();
    let cache = paths.cache_dir().to_string_lossy().into_owned();
    let data = paths.data_dir().to_string_lossy().into_owned();
    Some((config, cache, data))
}

/// Resolve the directory paths used by the application.
///
/// With an explicit base path the three roots are derived beneath it;
/// otherwise the OS-conventional locations are used, and failure to determine
/// them is a fatal initialization error.
pub fn init_paths(base_path: Option<&str>) -> (r: Result<DirectoryPaths, StorageError>)
    ensures
        base_path matches Some(base) ==> r matches Ok(p) && {
            &&& p.spec_config_dir() == base@ + "/config"@
            &&& p.spec_cache_dir() == base@ + "/cache"@
            &&& p.spec_data_dir() == base@ + "/data"@
        },
        r is Err ==> base_path is None,
        r matches Err(e) ==> e == StorageError::Directories,
{
    match base_path {
        Some(base) => Ok(DirectoryPaths::from_explicit_path(base)),
        None => match sniff_project_dirs() {
            Some((config, cache, data)) => Ok(DirectoryPaths {
                config_dir: config,
                cache_dir: cache,
                data_dir: data,
            }),
            None => Err(StorageError::Directories),
        },
    }
}

} // verus!
