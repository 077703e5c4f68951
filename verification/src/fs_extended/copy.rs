//! Limits of in-kernel file range copies.

use vstd::prelude::*;

verus! {

/// The largest number of bytes one `copy_file_range` call may move: the
/// kernel and filesystem set it, so no limit is imposed here.
pub fn max_copy_file_range_bytes() -> (r: Option<usize>)
    ensures
        r is None,
{
    None
}

} // verus!
