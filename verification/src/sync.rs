//! Synchronization of a local source to a local destination: what the
//! command line asks for, and the statistics of a run.

use vstd::prelude::*;
use vstd::string::*;
use std::time::Duration;
use crate::cli::{args_error_text, destination_spec, source_spec, Args, Location, LocationView, PathKind};
use crate::error::SyncError;

verus! {

/// Statistics for synchronization operations
#[derive(Debug, Clone, Copy, PartialEq, Eq)]
pub struct SyncStats {
    /// Number of files successfully copied during the operation
    pub files_copied: u64,
    /// Total number of bytes copied during the operation
    pub bytes_copied: u64,
    /// Total duration of the synchronization operation
    pub duration: Duration,
}

/// What a local synchronization does.
#[derive(Debug)]
pub enum SyncPlan {
    /// Copy one file (its parent directory made first)
    CopyFile {
        /// Source file
        source: String,
        /// Destination file
        destination: String,
    },
    /// Copy a directory tree (the destination directory made first)
    CopyDirectory {
        /// Source directory
        source: String,
        /// Destination directory
        destination: String,
    },
}

/// The message given when either end is remote.
pub open spec fn local_only_text() -> Seq<char> {
    "sync_files only supports local paths. Use remote_sync for remote operations."@
}

/// The message given when the source is neither a file nor a directory.
pub open spec fn not_file_or_directory_text() -> Seq<char> {
    "Source must be a file or directory"@
}

/// Decide what a local synchronization does, given what is found at the
/// source path: a missing end of the command line, or a remote end, is an
/// invalid configuration; a file is copied as one file, a directory as a
/// tree; anything else is an invalid configuration.
pub fn plan_sync(args: &Args, source_kind: PathKind) -> (r: Result<SyncPlan, SyncError>)
    ensures
        match (source_spec(args), destination_spec(args)) {
            (None, _) => r matches Err(SyncError::InvalidConfig(m)) && m@ == args_error_text(
                crate::cli::ArgsError::SourceNotSpecified,
            ),
            (Some(_), None) => r matches Err(SyncError::InvalidConfig(m)) && m@ == args_error_text(
                crate::cli::ArgsError::DestinationNotSpecified,
            ),
            (Some(LocationView::Local(s)), Some(LocationView::Local(d))) => match source_kind {
                PathKind::File => r matches Ok(SyncPlan::CopyFile { source, destination }) && source@ == s
                    && destination@ == d,
                PathKind::Directory => r matches Ok(SyncPlan::CopyDirectory { source, destination })
                    && source@ == s && destination@ == d,
                _ => r matches Err(SyncError::InvalidConfig(m)) && m@ == not_file_or_directory_text(),
            },
            _ => r matches Err(SyncError::InvalidConfig(m)) && m@ == local_only_text(),
        },
{
    let source = match args.get_source() {
        Ok(l) => l,
        Err(e) => {
            return Err(SyncError::InvalidConfig(e.message()));
        },
    };
    let destination = match args.get_destination() {
        Ok(l) => l,
        Err(e) => {
            return Err(SyncError::InvalidConfig(e.message()));
        },
    };
    match (source, destination) {
        (Location::Local(s), Location::Local(d)) => match source_kind {
            PathKind::File => Ok(SyncPlan::CopyFile { source: s, destination: d }),
            PathKind::Directory => Ok(SyncPlan::CopyDirectory { source: s, destination: d }),
            _ => Err(SyncError::InvalidConfig(String::from_str("Source must be a file or directory"))),
        },
        _ => Err(
            SyncError::InvalidConfig(
                String::from_str("sync_files only supports local paths. Use remote_sync for remote operations."),
            ),
        ),
    }
}

} // verus!
