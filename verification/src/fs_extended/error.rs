//! Error type of the extended filesystem operations.

use vstd::prelude::*;
use vstd::string::*;

verus! {

/// Extended error types for filesystem operations
#[derive(Debug)]
pub enum ExtendedError {
    /// Standard I/O error
    Io(std::io::Error),
    /// copy_file_range specific error
    CopyFileRange(String),
    /// fadvise specific error
    Fadvise(String),
    /// fallocate specific error
    Fallocate(String),
    /// Symlink operation error
    Symlink(String),
    /// Hardlink operation error
    Hardlink(String),
    /// Directory operation error
    Directory(String),
    /// Extended attributes error
    Xattr(String),
    /// Filesystem detection error
    FilesystemDetection(String),
    /// Operation not supported
    NotSupported(String),
    /// Invalid parameters
    InvalidParameters(String),
    /// System call error
    SystemCall(String),
}

impl From<std::io::Error> for ExtendedError {
    fn from(e: std::io::Error) -> (r: ExtendedError) {
        ExtendedError::Io(e)
    }
}

impl vstd::std_specs::convert::FromSpecImpl<std::io::Error> for ExtendedError {
    open spec fn obeys_from_spec() -> bool {
        true
    }

    open spec fn from_spec(e: std::io::Error) -> ExtendedError {
        ExtendedError::Io(e)
    }
}

impl ExtendedError {
    /// Check if error is due to operation not being supported
    pub fn is_not_supported(&self) -> (r: bool)
        ensures
            r == (self is NotSupported),
    {
        match self {
            ExtendedError::NotSupported(_) => true,
            _ => false,
        }
    }

    /// Check if error is due to invalid parameters
    pub fn is_invalid_parameters(&self) -> (r: bool)
        ensures
            r == (self is InvalidParameters),
    {
        match self {
            ExtendedError::InvalidParameters(_) => true,
            _ => false,
        }
    }

    /// Check if error is due to system call failure
    pub fn is_system_call_error(&self) -> (r: bool)
        ensures
            r == (self is SystemCall),
    {
        match self {
            ExtendedError::SystemCall(_) => true,
            _ => false,
        }
    }
}

/// Helper trait for converting system call results to ExtendedError
pub trait SyscallResult<T>: Sized {
    /// Convert system call result to ExtendedError
    fn into_extended_error(self, operation: &str) -> Result<T, ExtendedError>;
}

impl<T> SyscallResult<T> for Result<T, std::io::Error> {
    /// A success passes through; a failure becomes a `SystemCall` error
    /// whose message is the operation, a colon and a space, then the text
    /// of the I/O error.
    fn into_extended_error(self, operation: &str) -> (r: Result<T, ExtendedError>)
        ensures
            match self {
                Ok(v) => r == Ok::<T, ExtendedError>(v),
                Err(_) => r matches Err(ExtendedError::SystemCall(msg)) && msg@.len() >= operation@.len() + 2
                    && msg@.subrange(0, operation@.len() + 2int) == operation@ + ": "@,
            },
    {
        match self {
            Ok(v) => Ok(v),
            Err(e) => {
                let mut msg = String::from_str(operation);
                msg.append(": ");
                let text = e.to_string();
                msg.append(text.as_str());
                proof {
                    reveal_strlit(": ");
                    assert((operation@ + ": "@ + text@).subrange(0, operation@.len() + 2int) =~= operation@ + ": "@);
                }
                Err(ExtendedError::SystemCall(msg))
            },
        }
    }
}

/// Helper for creating copy_file_range errors
pub fn copy_file_range_error(msg: &str) -> (e: ExtendedError)
    ensures
        e matches ExtendedError::CopyFileRange(s) && s@ == msg@,
{
    ExtendedError::CopyFileRange(String::from_str(msg))
}

/// Helper for creating fadvise errors
pub fn fadvise_error(msg: &str) -> (e: ExtendedError)
    ensures
        e matches ExtendedError::Fadvise(s) && s@ == msg@,
{
    ExtendedError::Fadvise(String::from_str(msg))
}

/// Helper for creating fallocate errors
pub fn fallocate_error(msg: &str) -> (e: ExtendedError)
    ensures
        e matches ExtendedError::Fallocate(s) && s@ == msg@,
{
    ExtendedError::Fallocate(String::from_str(msg))
}

/// Helper for creating symlink errors
pub fn symlink_error(msg: &str) -> (e: ExtendedError)
    ensures
        e matches ExtendedError::Symlink(s) && s@ == msg@,
{
    ExtendedError::Symlink(String::from_str(msg))
}

/// Helper for creating hardlink errors
pub fn hardlink_error(msg: &str) -> (e: ExtendedError)
    ensures
        e matches ExtendedError::Hardlink(s) && s@ == msg@,
{
    ExtendedError::Hardlink(String::from_str(msg))
}

/// Helper for creating directory errors
pub fn directory_error(msg: &str) -> (e: ExtendedError)
    ensures
        e matches ExtendedError::Directory(s) && s@ == msg@,
{
    ExtendedError::Directory(String::from_str(msg))
}

/// Helper for creating xattr errors
pub fn xattr_error(msg: &str) -> (e: ExtendedError)
    ensures
        e matches ExtendedError::Xattr(s) && s@ == msg@,
{
    ExtendedError::Xattr(String::from_str(msg))
}

/// Helper for creating filesystem detection errors
pub fn filesystem_detection_error(msg: &str) -> (e: ExtendedError)
    ensures
        e matches ExtendedError::FilesystemDetection(s) && s@ == msg@,
{
    ExtendedError::FilesystemDetection(String::from_str(msg))
}

/// Helper for creating not supported errors
pub fn not_supported_error(msg: &str) -> (e: ExtendedError)
    ensures
        e matches ExtendedError::NotSupported(s) && s@ == msg@,
{
    ExtendedError::NotSupported(String::from_str(msg))
}

/// Helper for creating invalid parameters errors
pub fn invalid_parameters_error(msg: &str) -> (e: ExtendedError)
    ensures
        e matches ExtendedError::InvalidParameters(s) && s@ == msg@,
{
    ExtendedError::InvalidParameters(String::from_str(msg))
}

} // verus!
