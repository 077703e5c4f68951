//! fallocate mode flags.

use vstd::prelude::*;

verus! {

/// Default allocation mode (allocate space)
pub const DEFAULT: u32 = 0;

/// Keep file size unchanged (FALLOC_FL_KEEP_SIZE)
pub const KEEP_SIZE: u32 = 1;

/// Punch hole in file (FALLOC_FL_PUNCH_HOLE)
pub const PUNCH_HOLE: u32 = 2;

/// Don't update file size (FALLOC_FL_NO_HIDE_STALE)
pub const NO_HIDE_STALE: u32 = 4;

/// Collapse range (FALLOC_FL_COLLAPSE_RANGE)
pub const COLLAPSE_RANGE: u32 = 8;

/// Zero range (FALLOC_FL_ZERO_RANGE)
pub const ZERO_RANGE: u32 = 16;

/// Insert range (FALLOC_FL_INSERT_RANGE)
pub const INSERT_RANGE: u32 = 32;

/// Unshare range (FALLOC_FL_UNSHARE_RANGE)
pub const UNSHARE_RANGE: u32 = 64;

} // verus!
