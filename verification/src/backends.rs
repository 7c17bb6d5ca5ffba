use vstd::prelude::*;

verus! {

/// The backend provides access to media information required by the UI.
pub trait Backend {

}

/// The backend type encompassing all supported backends.
#[derive(Debug, Copy, Clone, Eq, PartialEq, Structural, Hash)]
pub enum BackendKind {
    Jellyfin,
}

/// The stable string under which a backend kind is persisted.
pub open spec fn kind_str(kind: BackendKind) -> Seq<char> {
    match kind {
        BackendKind::Jellyfin => "jellyfin"@,
    }
}

impl BackendKind {
    /// Returns the backend kind as a static string.
    pub fn as_str(&self) -> (r: &'static str)
        ensures
            r@ == kind_str(*self),
    {
        match self {
            BackendKind::Jellyfin => "jellyfin",
        }
    }

    /// Parse a persisted kind string back into the backend kind.
    ///
    /// Returns None exactly on strings that name no supported backend.
    pub fn from_str(s: &str) -> (r: Option<BackendKind>)
        ensures
            r matches Some(kind) ==> s@ == kind_str(kind),
            s@ == kind_str(BackendKind::Jellyfin) ==> r == Some(BackendKind::Jellyfin),
    {
        if String::from_str(s) == String::from_str("jellyfin") {
            Some(BackendKind::Jellyfin)
        } else {
            None
        }
    }
}

/// Information that describes a media library backend and how to re-create
/// it. One record per configured remote backend; the identifier is globally
/// unique and the context is an opaque structured blob controlled by the
/// backend itself, stored here as its serialized text.
#[derive(Debug)]
pub struct BackendInitState {
    /// The unique identifier of the backend.
    pub id: u128,
    /// The type of the backend.
    pub kind: BackendKind,
    /// Initialisation context, as serialized text the store does not interpret.
    pub context: String,
}

} // verus!
