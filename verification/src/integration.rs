//! File operations over compio's io_uring runtime: their configuration.

use vstd::prelude::*;
use crate::progress::ProgressTracker;

verus! {

/// Operations that copy files with compio's `read_at`/`write_at`: the
/// buffer size they read with and the tracker they report progress to.
pub struct IoUringOps {
    buffer_size: usize,
    progress_tracker: Option<ProgressTracker>,
}

impl IoUringOps {
    /// Operations with buffers of `buffer_size` bytes and no progress
    /// tracking.
    pub fn new(buffer_size: usize) -> (ops: Self)
        ensures
            ops.buffer_size() == buffer_size,
            !ops.has_progress_tracker(),
    {
        IoUringOps { buffer_size, progress_tracker: None }
    }

    /// Operations with buffers of `buffer_size` bytes that report progress
    /// to `progress_tracker`.
    pub fn new_with_progress(buffer_size: usize, progress_tracker: ProgressTracker) -> (ops: Self)
        ensures
            ops.buffer_size() == buffer_size,
            ops.has_progress_tracker(),
    {
        IoUringOps { buffer_size, progress_tracker: Some(progress_tracker) }
    }

    /// Size of the buffers reads use
    pub closed spec fn buffer_size(&self) -> usize {
        self.buffer_size
    }

    /// Whether progress is reported
    pub closed spec fn has_progress_tracker(&self) -> bool {
        self.progress_tracker is Some
    }

    /// Size of the buffers reads use
    pub fn get_buffer_size(&self) -> (n: usize)
        ensures
            n == self.buffer_size(),
    {
        self.buffer_size
    }

    /// The progress tracker, if any
    pub fn progress_tracker(&self) -> (t: Option<&ProgressTracker>)
        ensures
            t is Some == self.has_progress_tracker(),
    {
        match &self.progress_tracker {
            Some(t) => Some(t),
            None => None,
        }
    }
}

} // verus!
