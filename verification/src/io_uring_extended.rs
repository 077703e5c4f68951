//! Errors of the extended io_uring operations.

use vstd::prelude::*;

verus! {

/// Errors of the extended io_uring operations
#[derive(Debug)]
pub enum ExtendedError {
    /// IoUring operation failed
    IoUring(std::io::Error),
    /// Operation not supported
    NotSupported(String),
}

impl From<std::io::Error> for ExtendedError {
    fn from(e: std::io::Error) -> (r: ExtendedError) {
        ExtendedError::IoUring(e)
    }
}

impl vstd::std_specs::convert::FromSpecImpl<std::io::Error> for ExtendedError {
    open spec fn obeys_from_spec() -> bool {
        true
    }

    open spec fn from_spec(e: std::io::Error) -> ExtendedError {
        ExtendedError::IoUring(e)
    }
}

} // verus!
