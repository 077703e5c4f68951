//! Opaque io_uring queue entries, as liburing hands them out.

use vstd::prelude::*;

verus! {

/// Opaque submission queue entry
pub struct IoUringSqe {
    _private: [u8; 0],
}

/// Opaque completion queue entry
pub struct IoUringCqe {
    _private: [u8; 0],
}

} // verus!
