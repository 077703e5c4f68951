//! File metadata with nanosecond timestamps.

use vstd::prelude::*;

verus! {

/// A point in time at or after the Unix epoch, to the nanosecond: the
/// epoch plus `secs` seconds and `nanos` nanoseconds.
#[derive(Debug, Clone, Copy, PartialEq, Eq)]
pub struct UnixTime {
    /// Whole seconds since the epoch
    pub secs: u64,
    /// Nanoseconds past those seconds
    pub nanos: u32,
}

/// File metadata with nanosecond precision timestamps
#[derive(Debug, Clone, Copy)]
pub struct StatxMetadata {
    /// File size in bytes
    pub size: u64,
    /// Access time with nanosecond precision
    pub accessed: UnixTime,
    /// Modification time with nanosecond precision
    pub modified: UnixTime,
    /// File permissions
    pub mode: u32,
    /// User ID
    pub uid: u32,
    /// Group ID
    pub gid: u32,
    /// Number of hard links
    pub nlink: u64,
    /// Device ID
    pub dev: u64,
    /// Inode number
    pub ino: u64,
}

/// The fields of a `statx` result that file metadata is made from, as the
/// kernel fills them in.
#[derive(Debug, Clone, Copy)]
pub struct RawStatx {
    /// `stx_size`
    pub size: u64,
    /// `stx_atime.tv_sec`
    pub atime_sec: i64,
    /// `stx_atime.tv_nsec`
    pub atime_nsec: u32,
    /// `stx_mtime.tv_sec`
    pub mtime_sec: i64,
    /// `stx_mtime.tv_nsec`
    pub mtime_nsec: u32,
    /// `stx_mode`
    pub mode: u16,
    /// `stx_uid`
    pub uid: u32,
    /// `stx_gid`
    pub gid: u32,
    /// `stx_nlink`
    pub nlink: u32,
    /// `stx_dev_major`
    pub dev_major: u32,
    /// `stx_dev_minor`
    pub dev_minor: u32,
    /// `stx_ino`
    pub ino: u64,
}

/// The device number of a major and a minor number: the major one in the
/// high 32 bits, the minor one in the low 32.
pub fn device_id(major: u32, minor: u32) -> (dev: u64)
    ensures
        dev == major as nat * 0x1_0000_0000 + minor as nat,
{
    let dev = ((major as u64) << 32u64) | (minor as u64);
    assert(((major as u64) << 32u64) | (minor as u64) == (major as u64) * 0x1_0000_0000u64 + (minor as u64))
        by (bit_vector);
    dev
}

impl StatxMetadata {
    /// File metadata from a `statx` result: the timestamps are the
    /// seconds and nanoseconds `statx` reports, counted from the epoch.
    /// Timestamps before the epoch are outside what it takes.
    pub fn from_raw(raw: &RawStatx) -> (m: StatxMetadata)
        requires
            raw.atime_sec >= 0,
            raw.mtime_sec >= 0,
        ensures
            m.size == raw.size,
            m.accessed == (UnixTime { secs: raw.atime_sec as u64, nanos: raw.atime_nsec }),
            m.modified == (UnixTime { secs: raw.mtime_sec as u64, nanos: raw.mtime_nsec }),
            m.mode == raw.mode as u32,
            m.uid == raw.uid,
            m.gid == raw.gid,
            m.nlink == raw.nlink as u64,
            m.dev == raw.dev_major as nat * 0x1_0000_0000 + raw.dev_minor as nat,
            m.ino == raw.ino,
    {
        StatxMetadata {
            size: raw.size,
            accessed: UnixTime { secs: raw.atime_sec as u64, nanos: raw.atime_nsec },
            modified: UnixTime { secs: raw.mtime_sec as u64, nanos: raw.mtime_nsec },
            mode: raw.mode as u32,
            uid: raw.uid,
            gid: raw.gid,
            nlink: raw.nlink as u64,
            dev: device_id(raw.dev_major, raw.dev_minor),
            ino: raw.ino,
        }
    }
}

} // verus!
