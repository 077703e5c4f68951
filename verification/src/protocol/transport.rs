//! Moving a whole buffer over a byte stream that may read or write less
//! than asked: the bookkeeping of `read_exact` and `write_all`.

use vstd::prelude::*;
use vstd::string::*;
use crate::decimal::{decimal, push_decimal};

verus! {

/// How far a transfer of a buffer has got.
#[derive(Debug, Clone, Copy)]
pub struct TransferProgress {
    len: usize,
    done: usize,
}

/// The message of a stream that ended before a whole buffer was read.
pub open spec fn unexpected_eof_text(len: nat) -> Seq<char> {
    "Unexpected EOF while reading "@ + decimal(len) + " bytes"@
}

impl TransferProgress {
    #[verifier::type_invariant]
    spec fn inv(&self) -> bool {
        self.done <= self.len
    }

    /// Bytes of the buffer
    pub closed spec fn len(&self) -> nat {
        self.len as nat
    }

    /// Bytes moved so far, from the start of the buffer
    pub closed spec fn done(&self) -> nat {
        self.done as nat
    }

    /// A transfer of `len` bytes, nothing moved yet.
    pub fn new(len: usize) -> (t: Self)
        ensures
            t.len() == len,
            t.done() == 0,
    {
        TransferProgress { len, done: 0 }
    }

    /// Whether the whole buffer has been moved.
    pub fn is_complete(&self) -> (r: bool)
        ensures
            r == (self.done() == self.len()),
            self.done() <= self.len(),
    {
        proof {
            use_type_invariant(self);
        }
        self.done == self.len
    }

    /// Where the rest of the buffer starts.
    pub fn offset(&self) -> (o: usize)
        ensures
            o == self.done(),
            o <= self.len(),
    {
        proof {
            use_type_invariant(self);
        }
        self.done
    }

    /// A read into the rest of the buffer gave `n` bytes: none means the
    /// stream ended early, which fails the transfer.
    pub fn record_read(&mut self, n: usize) -> (r: Result<(), String>)
        requires
            old(self).done() + n <= old(self).len(),
        ensures
            final(self).len() == old(self).len(),
            n == 0 ==> final(self).done() == old(self).done() && (r matches Err(m) && m@ == unexpected_eof_text(
                old(self).len(),
            )),
            n > 0 ==> r is Ok && final(self).done() == old(self).done() + n,
    {
        if n == 0 {
            let mut m = String::from_str("Unexpected EOF while reading ");
            push_decimal(&mut m, self.len as u64);
            m.append(" bytes");
            return Err(m);
        }
        self.done = self.done + n;
        Ok(())
    }

    /// A write of the rest of the buffer took `n` bytes.
    pub fn record_written(&mut self, n: usize)
        requires
            old(self).done() + n <= old(self).len(),
        ensures
            final(self).len() == old(self).len(),
            final(self).done() == old(self).done() + n,
    {
        self.done = self.done + n;
    }
}

} // verus!
