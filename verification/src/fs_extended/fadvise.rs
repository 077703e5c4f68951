//! Access-pattern advice for the kernel's page cache.

use vstd::prelude::*;

verus! {

/// `libc::POSIX_FADV_SEQUENTIAL`; its value differs between targets, but
/// on every target libc defines it for it is positive (the 0 of
/// `POSIX_FADV_NORMAL` is never reused for it).
#[verifier::external_body]
fn posix_fadv_sequential() -> (r: i32)
    ensures
        r > 0,
{
    libc::POSIX_FADV_SEQUENTIAL
}

/// `libc::POSIX_FADV_RANDOM`; its value differs between targets, but
/// on every target libc defines it for it is positive (the 0 of
/// `POSIX_FADV_NORMAL` is never reused for it).
#[verifier::external_body]
fn posix_fadv_random() -> (r: i32)
    ensures
        r > 0,
{
    libc::POSIX_FADV_RANDOM
}

/// `libc::POSIX_FADV_DONTNEED`; its value differs between targets, but
/// on every target libc defines it for it is positive (the 0 of
/// `POSIX_FADV_NORMAL` is never reused for it).
#[verifier::external_body]
fn posix_fadv_dontneed() -> (r: i32)
    ensures
        r > 0,
{
    libc::POSIX_FADV_DONTNEED
}

/// `libc::POSIX_FADV_WILLNEED`; its value differs between targets, but
/// on every target libc defines it for it is positive (the 0 of
/// `POSIX_FADV_NORMAL` is never reused for it).
#[verifier::external_body]
fn posix_fadv_willneed() -> (r: i32)
    ensures
        r > 0,
{
    libc::POSIX_FADV_WILLNEED
}

/// `libc::POSIX_FADV_NOREUSE`; its value differs between targets, but
/// on every target libc defines it for it is positive (the 0 of
/// `POSIX_FADV_NORMAL` is never reused for it).
#[verifier::external_body]
fn posix_fadv_noreuse() -> (r: i32)
    ensures
        r > 0,
{
    libc::POSIX_FADV_NOREUSE
}

/// fadvise advice enum
#[derive(Debug, Clone, Copy, PartialEq, Eq, Structural)]
pub enum FadviseAdvice {
    /// Normal access pattern (no special optimization)
    Normal,
    /// Data will be accessed sequentially
    Sequential,
    /// Data will be accessed randomly
    Random,
    /// Data will not be accessed again soon
    DontNeed,
    /// Data will be accessed again soon
    WillNeed,
    /// Data will not be accessed again
    NoReuse,
}

impl FadviseAdvice {
    /// Convert to the underlying libc constant: `Normal` is 0 on every
    /// target; the others are libc's `POSIX_FADV_*` values for the target,
    /// none of which is 0.
    pub fn to_libc(self) -> (r: i32)
        ensures
            (r == 0) <==> self is Normal,
    {
        match self {
            FadviseAdvice::Normal => 0,
            FadviseAdvice::Sequential => posix_fadv_sequential(),
            FadviseAdvice::Random => posix_fadv_random(),
            FadviseAdvice::DontNeed => posix_fadv_dontneed(),
            FadviseAdvice::WillNeed => posix_fadv_willneed(),
            FadviseAdvice::NoReuse => posix_fadv_noreuse(),
        }
    }
}

} // verus!
