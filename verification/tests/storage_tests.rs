use bluebottle::directory::{init_paths, DirectoryPaths};
use bluebottle::errors::StorageError;
use bluebottle::init_storage;
use bluebottle::paths;

#[test]
fn explicit_base_derives_three_roots() {
    let paths = init_paths(Some("/srv/app")).unwrap();
    assert_eq!(paths.config_dir(), "/srv/app/config");
    assert_eq!(paths.cache_dir(), "/srv/app/cache");
    assert_eq!(paths.data_dir(), "/srv/app/data");
}

#[test]
fn from_explicit_path_matches_init_paths() {
    let direct = DirectoryPaths::from_explicit_path("/var/lib/media");
    assert_eq!(direct.config_dir(), "/var/lib/media/config");
    assert_eq!(direct.cache_dir(), "/var/lib/media/cache");
    assert_eq!(direct.data_dir(), "/var/lib/media/data");
}

#[test]
fn init_storage_opens_both_stores() {
    let base_dir = tempfile::tempdir().unwrap();
    let base = base_dir.path().to_str().unwrap().to_string();

    // the data directory must exist before the stores open their files:
    // the resolver computes the paths, creating them belongs to the caller
    let data_dir = tempfile::Builder::new()
        .prefix("data")
        .rand_bytes(0)
        .tempdir_in(base_dir.path())
        .unwrap();

    let storage = init_storage(Some(&base)).unwrap();
    assert_eq!(paths(&storage).data_dir(), format!("{}/data", base));
    assert_eq!(paths(&storage).cache_dir(), format!("{}/cache", base));

    drop(storage);
    drop(data_dir);
}

#[test]
fn init_storage_without_data_directory_fails() {
    let base_dir = tempfile::tempdir().unwrap();
    let base = base_dir.path().to_str().unwrap().to_string();

    // no data directory beneath the base: opening the durable store's file
    // cannot succeed, and the failure is a database error, not a panic
    match init_storage(Some(&base)) {
        Ok(_) => panic!("opening under a missing data directory must fail"),
        Err(err) => assert_eq!(err, StorageError::Database),
    }
}

#[test]
fn storage_error_descriptions_are_stable() {
    assert_eq!(
        StorageError::Directories.describe(),
        "could not determine application directories"
    );
    assert_eq!(StorageError::Database.describe(), "relational store operation failed");
    assert_eq!(StorageError::NotFound.describe(), "record not found");
    assert_eq!(StorageError::UnknownBackendKind.describe(), "unknown backend kind");
}
