//! Space allocation requests for the kernel.

use vstd::prelude::*;
use compio::driver::AsRawFd;

pub mod mode;

verus! {

/// `compio::fs::File`, an open file of the runtime.
#[verifier::external_type_specification]
#[verifier::external_body]
pub struct ExFile(compio::fs::File);

/// The raw descriptor an open file holds: a function of the file alone
/// (which number the process gave it is not known here).
pub uninterp spec fn file_raw_fd(f: compio::fs::File) -> i32;

/// `AsRawFd::as_raw_fd`: reads the raw descriptor `file` holds.
#[verifier::external_body]
fn raw_fd(file: &compio::fs::File) -> (r: i32)
    ensures
        r == file_raw_fd(*file),
{
    file.as_raw_fd()
}

/// Custom fallocate operation for io_uring submission
pub struct FallocateOp {
    fd: i32,
    offset: u64,
    len: u64,
    mode: i32,
}

/// What a fallocate operation asks for.
pub struct FallocateOpView {
    /// File descriptor to apply fallocate to
    pub fd: i32,
    /// Starting offset for the allocation
    pub offset: u64,
    /// Length of the region to allocate
    pub len: u64,
    /// Allocation mode flags, as the kernel reads them
    pub mode: i32,
}

impl View for FallocateOp {
    type V = FallocateOpView;

    closed spec fn view(&self) -> FallocateOpView {
        FallocateOpView { fd: self.fd, offset: self.offset, len: self.len, mode: self.mode }
    }
}

impl FallocateOp {
    /// Create a new FallocateOp for io_uring submission on the descriptor
    /// `file` holds; the mode flags are reinterpreted as the signed integer
    /// the kernel takes.
    pub fn new(file: &compio::fs::File, offset: u64, len: u64, mode: u32) -> (op: Self)
        ensures
            op@.fd == file_raw_fd(*file),
            op@.offset == offset,
            op@.len == len,
            op@.mode == mode as i32,
    {
        FallocateOp { fd: raw_fd(file), offset, len, mode: mode as i32 }
    }

    /// The file descriptor the operation applies to.
    pub fn fd(&self) -> (r: i32)
        ensures
            r == self@.fd,
    {
        self.fd
    }

    /// Starting offset of the region.
    pub fn offset(&self) -> (r: u64)
        ensures
            r == self@.offset,
    {
        self.offset
    }

    /// Length of the region.
    pub fn len(&self) -> (r: u64)
        ensures
            r == self@.len,
    {
        self.len
    }

    /// Mode flags as the kernel reads them.
    pub fn mode(&self) -> (r: i32)
        ensures
            r == self@.mode,
    {
        self.mode
    }
}

} // verus!
