//! Copying one file by reading and writing: the decisions of the copy
//! loop and of what is preserved afterwards.
//!
//! The loop reads the source in chunks of at most a buffer's size, each
//! at the offset that follows what has been copied, and writes each chunk
//! at the same offset. It stops once the bytes copied reach the size the
//! source had when opened, or at an early end of file; a write that does
//! not take the whole chunk fails the copy.

use vstd::prelude::*;
use vstd::string::*;
use crate::cli::Args;
use crate::decimal::{decimal, push_decimal};
use crate::error::SyncError;

verus! {

/// Size of each read in bytes
pub const BUFFER_SIZE: usize = 64 * 1024;

/// The length handed to `fadvise` for a file of `file_size` bytes: the
/// size itself, or `i64::MAX` when it does not fit.
pub fn fadvise_length(file_size: u64) -> (len: i64)
    ensures
        len == (if file_size <= i64::MAX as u64 { file_size as int } else { i64::MAX as int }),
{
    if file_size <= i64::MAX as u64 {
        file_size as i64
    } else {
        i64::MAX
    }
}

/// Whether the destination is preallocated and given access-pattern
/// hints: only for a non-empty file (`fallocate` refuses a zero length).
pub fn needs_preallocation(file_size: u64) -> (r: bool)
    ensures
        r == (file_size > 0),
{
    file_size > 0
}

/// A piece of metadata carried over after the content is copied.
#[derive(Debug, Clone, Copy, PartialEq, Eq, Structural)]
pub enum MetadataStep {
    /// Permission bits
    Permissions,
    /// Owner and group
    Ownership,
    /// Extended attributes
    Xattrs,
    /// Access and modification times
    Timestamps,
}

/// The metadata steps for a configuration, in the order they run:
/// permissions, ownership, extended attributes, timestamps, each only
/// where the flags ask for it.
pub open spec fn metadata_plan(perms: bool, ownership: bool, xattrs: bool, times: bool) -> Seq<MetadataStep> {
    (if perms { seq![MetadataStep::Permissions] } else { Seq::empty() })
        + (if ownership { seq![MetadataStep::Ownership] } else { Seq::empty() })
        + (if xattrs { seq![MetadataStep::Xattrs] } else { Seq::empty() })
        + (if times { seq![MetadataStep::Timestamps] } else { Seq::empty() })
}

/// The metadata steps that `args` asks for after a file's content is copied.
pub fn metadata_steps(args: &Args) -> (steps: Vec<MetadataStep>)
    ensures
        steps@ == metadata_plan(
            args.preserves_permissions(),
            args.preserves_ownership(),
            args.preserves_xattrs(),
            args.preserves_times(),
        ),
{
    let perms = args.should_preserve_permissions();
    let ownership = args.should_preserve_ownership();
    let xattrs = args.should_preserve_xattrs();
    let times = args.should_preserve_timestamps();
    let mut steps: Vec<MetadataStep> = Vec::new();
    if perms {
        steps.push(MetadataStep::Permissions);
    }
    if ownership {
        steps.push(MetadataStep::Ownership);
    }
    if xattrs {
        steps.push(MetadataStep::Xattrs);
    }
    if times {
        steps.push(MetadataStep::Timestamps);
    }
    assert(steps@ =~= metadata_plan(perms, ownership, xattrs, times));
    steps
}

/// The message of a write that took fewer or more bytes than were read.
pub open spec fn mismatch_text(read: nat, written: nat) -> Seq<char> {
    "Write size mismatch: expected "@ + decimal(read) + ", got "@ + decimal(written)
}

/// Where a read/write copy stands: the size of the source when opened, the
/// bytes copied so far, and whether the source ended early.
#[derive(Debug, Clone, Copy)]
pub struct ReadWriteCopy {
    file_size: u64,
    chunk_size: usize,
    copied: u64,
    at_eof: bool,
}

/// What a read/write copy holds.
pub struct ReadWriteCopyView {
    /// Size of the source when opened
    pub file_size: nat,
    /// Most bytes read at once
    pub chunk_size: nat,
    /// Bytes copied so far, from offset 0 on
    pub copied: nat,
    /// Whether a read found the end of the source
    pub at_eof: bool,
}

impl View for ReadWriteCopy {
    type V = ReadWriteCopyView;

    closed spec fn view(&self) -> ReadWriteCopyView {
        ReadWriteCopyView {
            file_size: self.file_size as nat,
            chunk_size: self.chunk_size as nat,
            copied: self.copied as nat,
            at_eof: self.at_eof,
        }
    }
}

impl ReadWriteCopyView {
    /// Whether the loop is over: everything copied, or the source ended.
    pub open spec fn done(self) -> bool {
        self.at_eof || self.copied >= self.file_size
    }
}

impl ReadWriteCopy {
    #[verifier::type_invariant]
    spec fn inv(&self) -> bool {
        &&& self.file_size <= i64::MAX
        &&& self.chunk_size <= i64::MAX
        &&& self.copied <= self.file_size + self.chunk_size
    }

    /// A copy of a source of `file_size` bytes in reads of `chunk_size`
    /// bytes, nothing copied yet. File sizes and offsets are at most
    /// `i64::MAX`, as the kernel keeps them, and so is a buffer's size.
    pub fn new(file_size: u64, chunk_size: usize) -> (c: Self)
        requires
            file_size <= i64::MAX,
            chunk_size <= i64::MAX,
        ensures
            c@ == (ReadWriteCopyView {
                file_size: file_size as nat,
                chunk_size: chunk_size as nat,
                copied: 0,
                at_eof: false,
            }),
    {
        ReadWriteCopy { file_size, chunk_size, copied: 0, at_eof: false }
    }

    /// The next read to make: at the offset after what has been copied, of
    /// the chunk size; `None` once the loop is over.
    pub fn next_read(&self) -> (r: Option<(u64, usize)>)
        ensures
            match r {
                Some((offset, len)) => !self@.done() && offset == self@.copied && len == self@.chunk_size,
                None => self@.done(),
            },
    {
        if self.at_eof || self.copied >= self.file_size {
            None
        } else {
            Some((self.copied, self.chunk_size))
        }
    }

    /// A read found the end of the source.
    pub fn record_eof(&mut self)
        ensures
            final(self)@ == (ReadWriteCopyView { at_eof: true, ..old(self)@ }),
    {
        proof {
            use_type_invariant(&*self);
        }
        self.at_eof = true;
    }

    /// A read of `bytes_read` bytes was written back with `bytes_written`
    /// bytes taken. Unequal counts fail the copy; equal ones advance it.
    pub fn record_write(&mut self, bytes_read: usize, bytes_written: usize) -> (r: Result<(), SyncError>)
        requires
            !old(self)@.done(),
            0 < bytes_read <= old(self)@.chunk_size,
        ensures
            bytes_read != bytes_written ==> final(self)@ == old(self)@ && (r matches Err(SyncError::CopyFailed(m))
                && m@ == mismatch_text(bytes_read as nat, bytes_written as nat)),
            bytes_read == bytes_written ==> r is Ok && final(self)@ == (ReadWriteCopyView {
                copied: old(self)@.copied + bytes_written as nat,
                ..old(self)@
            }),
    {
        proof {
            use_type_invariant(&*self);
        }
        if bytes_read != bytes_written {
            let mut m = String::from_str("Write size mismatch: expected ");
            push_decimal(&mut m, bytes_read as u64);
            m.append(", got ");
            push_decimal(&mut m, bytes_written as u64);
            return Err(SyncError::CopyFailed(m));
        }
        self.copied = self.copied + bytes_written as u64;
        Ok(())
    }

    /// Bytes copied so far.
    pub fn copied(&self) -> (n: u64)
        ensures
            n == self@.copied,
    {
        self.copied
    }
}

/// Each successful write brings the loop closer to its end: the bytes left
/// to copy, counted up to the size, go down by the bytes written, or to
/// nothing.
pub proof fn lemma_write_makes_progress(before: ReadWriteCopyView, after: ReadWriteCopyView, written: nat)
    requires
        !before.done(),
        written > 0,
        after == (ReadWriteCopyView { copied: before.copied + written, ..before }),
    ensures
        after.done() || after.file_size - after.copied < before.file_size - before.copied,
        after.copied > before.copied,
{
}

} // verus!
