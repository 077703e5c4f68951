//! File operations and per-file copy progress.

use vstd::prelude::*;
use crate::error::SyncError;

verus! {

/// Basic file operations using async I/O: the buffer size they use.
pub struct FileOperations {
    buffer_size: usize,
}

impl FileOperations {
    /// Create new file operations instance. The queue depth is reserved
    /// for io_uring and not used.
    pub fn new(queue_depth: usize, buffer_size: usize) -> (r: Result<Self, SyncError>)
        ensures
            r matches Ok(ops) && ops.buffer_size() == buffer_size,
    {
        Ok(FileOperations { buffer_size })
    }

    /// Size of buffers used for I/O operations in bytes
    pub closed spec fn buffer_size(&self) -> usize {
        self.buffer_size
    }

    /// Size of buffers used for I/O operations in bytes
    pub fn get_buffer_size(&self) -> (n: usize)
        ensures
            n == self.buffer_size(),
    {
        self.buffer_size
    }
}

/// Status of a file copy operation
#[derive(Debug, Clone, PartialEq)]
pub enum CopyStatus {
    /// Not started
    Pending,
    /// Some bytes copied, not all
    InProgress,
    /// All bytes copied
    Completed,
    /// Failed, with the reason
    Failed(String),
}

/// File copy operation with progress tracking
pub struct CopyOperation {
    /// Source path
    pub src_path: String,
    /// Destination path
    pub dst_path: String,
    /// Size of the file in bytes
    pub file_size: u64,
    /// Bytes copied so far
    pub bytes_copied: u64,
    /// Where the copy stands
    pub status: CopyStatus,
}

impl CopyOperation {
    /// A pending copy of `size` bytes from `src` to `dst`.
    pub fn new(src: String, dst: String, size: u64) -> (op: Self)
        ensures
            op.src_path == src,
            op.dst_path == dst,
            op.file_size == size,
            op.bytes_copied == 0,
            op.status is Pending,
    {
        CopyOperation { src_path: src, dst_path: dst, file_size: size, bytes_copied: 0, status: CopyStatus::Pending }
    }

    /// Count `bytes` more copied: the copy is completed once the count
    /// reaches the file size, in progress before.
    pub fn update_progress(&mut self, bytes: u64)
        requires
            old(self).bytes_copied + bytes <= u64::MAX,
        ensures
            final(self).bytes_copied == old(self).bytes_copied + bytes,
            final(self).src_path == old(self).src_path,
            final(self).dst_path == old(self).dst_path,
            final(self).file_size == old(self).file_size,
            if final(self).bytes_copied >= final(self).file_size {
                final(self).status is Completed
            } else {
                final(self).status is InProgress
            },
    {
        self.bytes_copied = self.bytes_copied + bytes;
        if self.bytes_copied >= self.file_size {
            self.status = CopyStatus::Completed;
        } else {
            self.status = CopyStatus::InProgress;
        }
    }

    /// Mark the copy as failed with `error`.
    pub fn mark_failed(&mut self, error: String)
        ensures
            final(self).status == CopyStatus::Failed(error),
            final(self).src_path == old(self).src_path,
            final(self).dst_path == old(self).dst_path,
            final(self).file_size == old(self).file_size,
            final(self).bytes_copied == old(self).bytes_copied,
    {
        self.status = CopyStatus::Failed(error);
    }
}

} // verus!
