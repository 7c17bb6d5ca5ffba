use vstd::prelude::*;

verus! {

/// Errors raised by the storage layer.
///
/// Directory resolution failures and database open failures are fatal for
/// startup; operation-level failures on cache data degrade to cache misses at
/// the call sites that treat the data as disposable.
#[derive(Clone, Copy, PartialEq, Eq, Structural, Debug)]
pub enum StorageError {
    /// The OS-conventional application directories could not be determined.
    Directories,
    /// The underlying relational store reported a failure.
    Database,
    /// A requested record is not present.
    NotFound,
    /// A persisted backend row names a kind this build does not know.
    UnknownBackendKind,
}

impl StorageError {
    /// A short, stable description of the error.
    pub fn describe(&self) -> (r: &'static str)
        ensures
            r@ == match self {
                StorageError::Directories => "could not determine application directories"@,
                StorageError::Database => "relational store operation failed"@,
                StorageError::NotFound => "record not found"@,
                StorageError::UnknownBackendKind => "unknown backend kind"@,
            },
    {
        match self {
            StorageError::Directories => "could not determine application directories",
            StorageError::Database => "relational store operation failed",
            StorageError::NotFound => "record not found",
            StorageError::UnknownBackendKind => "unknown backend kind",
        }
    }
}

} // verus!
