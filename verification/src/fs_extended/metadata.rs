//! Paths through which a file descriptor's file can be reached.

use vstd::prelude::*;
use vstd::string::*;
use crate::decimal::{push_signed_decimal, signed_decimal};

verus! {

/// The `/proc/self/fd` path of file descriptor `fd`.
pub fn proc_fd_path(fd: i32) -> (p: String)
    ensures
        p@ == "/proc/self/fd/"@ + signed_decimal(fd as int),
{
    let mut p = String::from_str("/proc/self/fd/");
    push_signed_decimal(&mut p, fd as i64);
    p
}

} // verus!
