//! Error types of synchronization and file operations.

use vstd::prelude::*;

verus! {

/// `std::io::Error`, carried through unchanged.
#[verifier::external_type_specification]
#[verifier::external_body]
pub struct ExIoError(std::io::Error);

/// Synchronization and file operation errors
#[derive(Debug)]
pub enum SyncError {
    /// Standard I/O error
    Io(std::io::Error),
    /// `io_uring` specific error
    IoUring(String),
    /// File copy operation failed
    CopyFailed(String),
    /// Metadata operation failed
    MetadataFailed(String),
    /// Directory traversal failed
    DirectoryTraversal(String),
    /// Invalid configuration error
    InvalidConfig(String),
    /// Permission denied error
    PermissionDenied(String),
    /// General filesystem error
    FileSystem(String),
    /// Internal application error
    Internal(String),
}

impl From<std::io::Error> for SyncError {
    fn from(e: std::io::Error) -> (r: SyncError) {
        SyncError::Io(e)
    }
}

impl vstd::std_specs::convert::FromSpecImpl<std::io::Error> for SyncError {
    open spec fn obeys_from_spec() -> bool {
        true
    }

    open spec fn from_spec(e: std::io::Error) -> SyncError {
        SyncError::Io(e)
    }
}

} // verus!
