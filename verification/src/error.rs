use vstd::prelude::*;

verus! {

/// Why a storage operation failed.
///
/// Construction errors and `load` errors reach the caller synchronously.
/// `RetryExhausted` never does: it describes the end of a detached upload
/// whose original `save` call has long returned, and is only meant for an
/// observability side channel.
#[derive(Clone, Copy, Debug, PartialEq, Eq, Structural)]
pub enum StorageError {
    /// The directory given to the local adapter did not exist.
    InvalidPath,
    /// The remote adapter's construction parameters could not be turned
    /// into a usable store handle.
    InvalidRemoteConfig,
    /// A local read or write failed; `not_found` tells a missing file apart
    /// from any other filesystem failure.
    IoError { not_found: bool },
    /// A remote call failed; `not_found` tells a missing key apart from any
    /// other store failure.
    RemoteError { not_found: bool },
    /// Every attempt of a detached upload failed.
    RetryExhausted,
}

} // verus!
