//! The rule of the banned-API lint: code must not reach `libc::`, `nix::`
//! or `std::fs::` directly, but go through io_uring (compio and the
//! extended filesystem operations).

use vstd::prelude::*;
use vstd::string::*;
use crate::text::{str_equal, str_starts_with};

verus! {

/// The lint pass that flags usage of banned APIs.
pub struct BanApis;

/// Whether a resolved definition path names a banned API: it begins with
/// `libc::`, `nix::` or `std::fs::`.
pub open spec fn banned_path(path: Seq<char>) -> bool {
    ||| path.len() >= 6 && path.subrange(0, 6) == "libc::"@
    ||| path.len() >= 5 && path.subrange(0, 5) == "nix::"@
    ||| path.len() >= 9 && path.subrange(0, 9) == "std::fs::"@
}

/// Checks if a def-path string represents a banned API
pub fn is_banned_path_str(path: &str) -> (r: bool)
    ensures
        r == banned_path(path@),
{
    proof {
        reveal_strlit("libc::");
        reveal_strlit("nix::");
        reveal_strlit("std::fs::");
    }
    str_starts_with(path, "libc::") || str_starts_with(path, "nix::") || str_starts_with(path, "std::fs::")
}

/// Whether the segments of a `use` path import from a banned crate: the
/// first segment is `libc` or `nix`, or the first two are `std` and `fs`.
pub open spec fn banned_use(segs: Seq<Seq<char>>) -> bool {
    segs.len() > 0 && {
        ||| segs[0] == "libc"@
        ||| segs[0] == "nix"@
        ||| segs[0] == "std"@ && segs.len() > 1 && segs[1] == "fs"@
    }
}

/// Checks the segments of a `use` path for a banned crate root.
pub fn is_banned_use_path(segs: &Vec<String>) -> (r: bool)
    ensures
        r == banned_use(segs@.map_values(|s: String| s@)),
{
    if segs.len() == 0 {
        return false;
    }
    let head = segs[0].as_str();
    if str_equal(head, "libc") || str_equal(head, "nix") {
        return true;
    }
    if str_equal(head, "std") && segs.len() > 1 {
        return str_equal(segs[1].as_str(), "fs");
    }
    false
}

/// The segments joined with `::`.
pub open spec fn joined_path(segs: Seq<Seq<char>>) -> Seq<char>
    decreases segs.len(),
{
    if segs.len() == 0 {
        Seq::empty()
    } else if segs.len() == 1 {
        segs[0]
    } else {
        joined_path(segs.drop_last()) + "::"@ + segs.last()
    }
}

/// The segments of a path joined with `::`, as the lint reports them.
pub fn join_path(segs: &Vec<String>) -> (s: String)
    ensures
        s@ == joined_path(segs@.map_values(|x: String| x@)),
{
    let ghost v = segs@.map_values(|x: String| x@);
    let mut s = String::new();
    let mut i: usize = 0;
    while i < segs.len()
        invariant
            i <= segs@.len(),
            v == segs@.map_values(|x: String| x@),
            s@ == joined_path(v.subrange(0, i as int)),
        decreases segs@.len() - i,
    {
        if i > 0 {
            s.append("::");
        }
        s.append(segs[i].as_str());
        proof {
            let w = v.subrange(0, i + 1);
            assert(w.drop_last() =~= v.subrange(0, i as int));
            if i == 0 {
                assert(s@ =~= w[0]);
            }
        }
        i = i + 1;
    }
    assert(v.subrange(0, segs@.len() as int) =~= v);
    s
}

} // verus!
