//! The local adapter: blobs written to and read from the filesystem.
//!
//! Construction checks once that the given directory exists; the check is
//! the only filesystem access this module makes, and the only logic here is
//! the decision on its result. The reads and writes themselves are plain
//! file I/O performed by the unverified layer around the library, which
//! writes each blob to the path formed from the full key string, unchanged:
//! the adapter neither sanitizes nor namespaces keys.

use vstd::prelude::*;

use crate::error::StorageError;

verus! {

/// A blob store over a directory that existed when the value was made.
///
/// A path removed after construction is not noticed here: it surfaces as an
/// I/O error on first use.
pub struct LocalStorage {
    location: String,
}

impl LocalStorage {
    /// The directory path the adapter was built over.
    pub closed spec fn location_spec(&self) -> Seq<char> {
        self.location@
    }

    /// Relies on std::path::Path::exists: whether the path names anything
    /// on disk at this moment. The answer depends on the state of the
    /// filesystem, so nothing is promised of it.
    #[verifier::external_body]
    fn path_exists(location: &String) -> bool {
        std::path::Path::new(location.as_str()).exists()
    }

    /// The construction decision once the existence of the path is known:
    /// a present path is accepted as it stands, an absent one is refused
    /// with `InvalidPath`, and nothing else is consulted or changed.
    pub fn accept_location(location: String, present: bool) -> (r: Result<
        LocalStorage,
        StorageError,
    >)
        ensures
            present ==> (r matches Ok(a) && a.location_spec() == location@),
            !present ==> r == Err::<LocalStorage, StorageError>(StorageError::InvalidPath),
    {
        if present {
            Ok(LocalStorage { location })
        } else {
            Err(StorageError::InvalidPath)
        }
    }

    /// Builds the adapter over `location`, failing with `InvalidPath` when
    /// the path does not exist at construction time. Nothing on disk is
    /// created or altered either way.
    pub fn from_location(location: String) -> (r: Result<LocalStorage, StorageError>)
        ensures
            r matches Ok(a) ==> a.location_spec() == location@,
            r matches Err(e) ==> e == StorageError::InvalidPath,
    {
        let present = Self::path_exists(&location);
        Self::accept_location(location, present)
    }

    /// The directory path the adapter was built over.
    pub fn location(&self) -> (l: &String)
        ensures
            l@ == self.location_spec(),
    {
        &self.location
    }
}

} // verus!
