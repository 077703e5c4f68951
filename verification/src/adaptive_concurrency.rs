//! Adaptive concurrency control with file descriptor awareness.
//!
//! A pool of permits bounds the number of concurrent operations. When file
//! descriptor exhaustion (EMFILE) is reported, the pool shrinks: on the
//! first such error and on every fifth one after it, by a quarter of its
//! size or at least ten permits, taken from the permits not in use and
//! never below the pool's floor (ten permits, or a tenth of the initial
//! size when that is larger).

use vstd::prelude::*;
use vstd::rwlock::RwLock;
use vstd::string::*;
use std::sync::Arc;
use crate::error::SyncError;
use crate::text::{seq_contains, str_contains};

verus! {

/// Whether an error text reports file descriptor exhaustion.
pub open spec fn mentions_fd_exhaustion(text: Seq<char>) -> bool {
    ||| seq_contains(text, "Too many open files"@)
    ||| seq_contains(text, "EMFILE"@)
    ||| seq_contains(text, "os error 24"@)
}

/// The floor of a pool that starts with `initial` permits.
pub open spec fn min_permits_for(initial: nat) -> nat {
    if initial / 10 > 10 {
        initial / 10
    } else {
        10
    }
}

/// How many permits one reduction asks for: a quarter of the pool, at
/// least ten.
pub open spec fn reduction_for(max: nat) -> nat {
    if max / 4 > 10 {
        max / 4
    } else {
        10
    }
}

/// How many permits a reduction removes: what it asks for, but no more
/// than are free and no more than the pool exceeds its floor by.
pub open spec fn reduced_by(max: nat, available: nat, min: nat) -> nat {
    let headroom: nat = if max > min { (max - min) as nat } else { 0 };
    let r = reduction_for(max);
    let a = if r < available { r } else { available };
    if a < headroom {
        a
    } else {
        headroom
    }
}

/// What counting one error does to a pool in state `o`: whether it was
/// shrunk, and the state after. A non-EMFILE error changes nothing; an
/// EMFILE error is counted, and on the first and every fifth after it the
/// pool loses `reduced_by` permits, free ones only and never past its
/// floor.
pub open spec fn error_outcome(o: ConcurrencyStateView, is_emfile: bool) -> (bool, ConcurrencyStateView) {
    let count = if o.emfile_errors + 1 > usize::MAX { 0nat } else { o.emfile_errors + 1 };
    let by = reduced_by(o.max_permits, o.available_permits, o.min_permits);
    if !is_emfile {
        (false, o)
    } else if count % 5 == 1 {
        (
            by > 0,
            ConcurrencyStateView {
                max_permits: (o.max_permits - by) as nat,
                available_permits: (o.available_permits - by) as nat,
                emfile_errors: count,
                emfile_warned: o.emfile_warned || by > 0,
                ..o
            },
        )
    } else {
        (false, ConcurrencyStateView { emfile_errors: count, ..o })
    }
}

/// Whether an error is known to report file descriptor exhaustion: for
/// every error but an I/O one, whether its message mentions it; for an I/O
/// error carrying the `EMFILE` code, yes; for another I/O error it rests
/// on the error's `Debug` text, which is not known here.
pub open spec fn known_emfile(error: SyncError) -> Option<bool> {
    match error {
        SyncError::Io(e) => if io_error_code(e) == Some(24i32) {
            Some(true)
        } else {
            None
        },
        SyncError::IoUring(m) => Some(mentions_fd_exhaustion(m@)),
        SyncError::CopyFailed(m) => Some(mentions_fd_exhaustion(m@)),
        SyncError::MetadataFailed(m) => Some(mentions_fd_exhaustion(m@)),
        SyncError::DirectoryTraversal(m) => Some(mentions_fd_exhaustion(m@)),
        SyncError::InvalidConfig(m) => Some(mentions_fd_exhaustion(m@)),
        SyncError::PermissionDenied(m) => Some(mentions_fd_exhaustion(m@)),
        SyncError::FileSystem(m) => Some(mentions_fd_exhaustion(m@)),
        SyncError::Internal(m) => Some(mentions_fd_exhaustion(m@)),
    }
}

/// The permit pool and error count of an adaptive controller.
#[derive(Debug, Clone, Copy)]
pub struct ConcurrencyState {
    max_permits: usize,
    available_permits: usize,
    min_permits: usize,
    emfile_errors: usize,
    emfile_warned: bool,
}

/// What an adaptive controller's state holds.
pub struct ConcurrencyStateView {
    /// Size of the pool
    pub max_permits: nat,
    /// Permits not in use
    pub available_permits: nat,
    /// Floor below which the pool never shrinks by reduction
    pub min_permits: nat,
    /// EMFILE errors seen
    pub emfile_errors: nat,
    /// Whether a reduction has taken place
    pub emfile_warned: bool,
}

impl View for ConcurrencyState {
    type V = ConcurrencyStateView;

    closed spec fn view(&self) -> ConcurrencyStateView {
        ConcurrencyStateView {
            max_permits: self.max_permits as nat,
            available_permits: self.available_permits as nat,
            min_permits: self.min_permits as nat,
            emfile_errors: self.emfile_errors as nat,
            emfile_warned: self.emfile_warned,
        }
    }
}

impl ConcurrencyState {
    #[verifier::type_invariant]
    spec fn inv(&self) -> bool {
        self.available_permits <= self.max_permits
    }

    /// A pool of `initial_permits` permits, all free, no errors seen.
    pub fn new(initial_permits: usize) -> (s: Self)
        ensures
            s@.max_permits == initial_permits,
            s@.available_permits == initial_permits,
            s@.min_permits == min_permits_for(initial_permits as nat),
            s@.emfile_errors == 0,
            !s@.emfile_warned,
    {
        let tenth = initial_permits / 10;
        let min_permits = if tenth > 10 {
            tenth
        } else {
            10
        };
        ConcurrencyState {
            max_permits: initial_permits,
            available_permits: initial_permits,
            min_permits,
            emfile_errors: 0,
            emfile_warned: false,
        }
    }

    /// Take a free permit, if there is one.
    pub fn try_acquire(&mut self) -> (r: bool)
        ensures
            r == (old(self)@.available_permits > 0),
            final(self)@ == (if r {
                ConcurrencyStateView { available_permits: (old(self)@.available_permits - 1) as nat, ..old(self)@ }
            } else {
                old(self)@
            }),
    {
        proof {
            use_type_invariant(&*self);
        }
        if self.available_permits > 0 {
            self.available_permits = self.available_permits - 1;
            true
        } else {
            false
        }
    }

    /// Give back a permit; a pool that is already whole stays as it is.
    pub fn release(&mut self)
        ensures
            final(self)@ == (if old(self)@.available_permits < old(self)@.max_permits {
                ConcurrencyStateView { available_permits: old(self)@.available_permits + 1, ..old(self)@ }
            } else {
                old(self)@
            }),
    {
        proof {
            use_type_invariant(&*self);
        }
        if self.available_permits < self.max_permits {
            self.available_permits = self.available_permits + 1;
        }
    }

    /// Count an error; on every fifth EMFILE error, starting with the
    /// first, shrink the pool. Returns whether the pool was shrunk: an
    /// EMFILE error on which permits were taken away.
    pub fn record_error(&mut self, is_emfile: bool) -> (adapted: bool)
        ensures
            ({
                let o = old(self)@;
                let count = if o.emfile_errors + 1 > usize::MAX { 0nat } else { o.emfile_errors + 1 };
                let by = reduced_by(o.max_permits, o.available_permits, o.min_permits);
                if !is_emfile {
                    !adapted && final(self)@ == o
                } else if count % 5 == 1 {
                    &&& adapted == (by > 0)
                    &&& final(self)@ == ConcurrencyStateView {
                        max_permits: (o.max_permits - by) as nat,
                        available_permits: (o.available_permits - by) as nat,
                        emfile_errors: count,
                        emfile_warned: o.emfile_warned || by > 0,
                        ..o
                    }
                } else {
                    !adapted && final(self)@ == ConcurrencyStateView { emfile_errors: count, ..o }
                }
            }),
    {
        proof {
            use_type_invariant(&*self);
        }
        if !is_emfile {
            return false;
        }
        let count = self.emfile_errors.wrapping_add(1);
        self.emfile_errors = count;
        if count % 5 == 1 {
            let quarter = self.max_permits / 4;
            let reduction = if quarter > 10 {
                quarter
            } else {
                10
            };
            let headroom = if self.max_permits > self.min_permits {
                self.max_permits - self.min_permits
            } else {
                0
            };
            let mut actual = if reduction < self.available_permits {
                reduction
            } else {
                self.available_permits
            };
            if actual > headroom {
                actual = headroom;
            }
            self.available_permits = self.available_permits - actual;
            self.max_permits = self.max_permits - actual;
            if actual > 0 {
                self.emfile_warned = true;
            }
            actual > 0
        } else {
            false
        }
    }

    /// Count `error`: the pool changes as `record_error` does on whether
    /// the error reports file descriptor exhaustion
    /// (`is_emfile_sync_error`). Returns whether the pool was shrunk.
    pub fn handle_error(&mut self, error: &SyncError) -> (adapted: bool)
        ensures
            match known_emfile(*error) {
                Some(b) => (adapted, final(self)@) == error_outcome(old(self)@, b),
                None => (adapted, final(self)@) == error_outcome(old(self)@, true) || (adapted, final(self)@)
                    == error_outcome(old(self)@, false),
            },
    {
        let is_emfile = is_emfile_sync_error(error);
        self.record_error(is_emfile)
    }

    /// Statistics of the pool.
    pub fn stats(&self) -> (s: ConcurrencyStats)
        ensures
            s.max_permits == self@.max_permits,
            s.available_permits == self@.available_permits,
            s.in_use == self@.max_permits - self@.available_permits,
            s.emfile_errors == self@.emfile_errors,
    {
        proof {
            use_type_invariant(self);
        }
        ConcurrencyStats {
            max_permits: self.max_permits,
            available_permits: self.available_permits,
            in_use: self.max_permits - self.available_permits,
            emfile_errors: self.emfile_errors,
        }
    }
}

/// A reduction never takes the pool below its floor when it starts at or
/// above it, and never takes more permits than are free.
pub proof fn lemma_reduction_keeps_floor(max: nat, available: nat, min: nat)
    requires
        available <= max,
    ensures
        reduced_by(max, available, min) <= available,
        max >= min ==> max - reduced_by(max, available, min) >= min,
{
}

/// Statistics about concurrency control
#[derive(Debug, Clone, Copy)]
pub struct ConcurrencyStats {
    /// Maximum permits configured
    pub max_permits: usize,
    /// Currently available permits
    pub available_permits: usize,
    /// Permits currently in use
    pub in_use: usize,
    /// Number of EMFILE errors encountered
    pub emfile_errors: usize,
}

/// The `Debug` text of an I/O error, as `format!("{e:?}")` writes it; it
/// holds the operating system's own message, so nothing is promised of it.
#[verifier::external_body]
fn io_error_debug_text(e: &std::io::Error) -> String {
    format!("{e:?}")
}

fn text_mentions_fd_exhaustion(text: &str) -> (r: bool)
    ensures
        r == mentions_fd_exhaustion(text@),
{
    str_contains(text, "Too many open files") || str_contains(text, "EMFILE") || str_contains(
        text,
        "os error 24",
    )
}

/// Whether an error reports file descriptor exhaustion: its message (for
/// an I/O error, the error's `Debug` text) mentions "Too many open files",
/// "EMFILE" or "os error 24"; an I/O error carrying the `EMFILE` code
/// always does.
pub fn is_emfile_sync_error(error: &SyncError) -> (r: bool)
    ensures
        match error {
            SyncError::Io(e) => io_error_code(*e) == Some(24i32) ==> r,
            SyncError::IoUring(m) => r == mentions_fd_exhaustion(m@),
            SyncError::CopyFailed(m) => r == mentions_fd_exhaustion(m@),
            SyncError::MetadataFailed(m) => r == mentions_fd_exhaustion(m@),
            SyncError::DirectoryTraversal(m) => r == mentions_fd_exhaustion(m@),
            SyncError::InvalidConfig(m) => r == mentions_fd_exhaustion(m@),
            SyncError::PermissionDenied(m) => r == mentions_fd_exhaustion(m@),
            SyncError::FileSystem(m) => r == mentions_fd_exhaustion(m@),
            SyncError::Internal(m) => r == mentions_fd_exhaustion(m@),
        },
{
    match error {
        SyncError::Io(e) => {
            if is_emfile_error(e) {
                true
            } else {
                let text = io_error_debug_text(e);
                text_mentions_fd_exhaustion(text.as_str())
            }
        },
        SyncError::IoUring(m) => text_mentions_fd_exhaustion(m.as_str()),
        SyncError::CopyFailed(m) => text_mentions_fd_exhaustion(m.as_str()),
        SyncError::MetadataFailed(m) => text_mentions_fd_exhaustion(m.as_str()),
        SyncError::DirectoryTraversal(m) => text_mentions_fd_exhaustion(m.as_str()),
        SyncError::InvalidConfig(m) => text_mentions_fd_exhaustion(m.as_str()),
        SyncError::PermissionDenied(m) => text_mentions_fd_exhaustion(m.as_str()),
        SyncError::FileSystem(m) => text_mentions_fd_exhaustion(m.as_str()),
        SyncError::Internal(m) => text_mentions_fd_exhaustion(m.as_str()),
    }
}

/// The operating system's error code that an I/O error carries, if it
/// carries one (`std::io::Error::raw_os_error`): a function of the error
/// alone.
pub uninterp spec fn io_error_code(e: std::io::Error) -> Option<i32>;

/// `std::io::Error::raw_os_error`: the operating system's error code the
/// error carries, if it carries one.
#[verifier::external_body]
fn io_error_raw_os_error(e: &std::io::Error) -> (r: Option<i32>)
    ensures
        r == io_error_code(*e),
{
    e.raw_os_error()
}

/// `libc::EMFILE`, the error code for "too many open files": 24 on Linux,
/// the io_uring target this library is built for (libc defines it once for
/// every Linux architecture).
#[verifier::external_body]
fn libc_emfile() -> (r: i32)
    ensures
        r == 24,
{
    libc::EMFILE
}

/// Whether an operating system error code reports file descriptor
/// exhaustion: it is the code `emfile`.
pub fn emfile_by_code(raw_os_error: Option<i32>, emfile: i32) -> (r: bool)
    ensures
        r == (raw_os_error == Some(emfile)),
{
    match raw_os_error {
        Some(code) => code == emfile,
        None => false,
    }
}

/// Detect if an I/O error is EMFILE (file descriptor exhaustion): the
/// operating system error code it carries is `EMFILE`. (The kind std gives
/// such an error is not `Other`, so the kind is not asked.)
pub fn is_emfile_error(error: &std::io::Error) -> (r: bool)
    ensures
        r == (io_error_code(*error) == Some(24i32)),
{
    let code = io_error_raw_os_error(error);
    emfile_by_code(code, libc_emfile())
}

/// Whether a pool that started with `initial` permits may be in state
/// `s`: its floor is the one `initial` gives, it has never grown past
/// `initial`, and, when it started at or above its floor, it has not
/// shrunk below it.
pub open spec fn within_pool_limits(s: ConcurrencyStateView, initial: nat) -> bool {
    &&& s.min_permits == min_permits_for(initial)
    &&& s.max_permits <= initial
    &&& initial >= min_permits_for(initial) ==> s.max_permits >= min_permits_for(initial)
}

/// What a shared pool keeps through every operation: the limits that the
/// size it started with sets.
pub struct PoolLimits {
    /// The number of permits the pool started with
    pub initial: nat,
}

impl vstd::rwlock::RwLockPredicate<ConcurrencyState> for PoolLimits {
    open spec fn inv(self, s: ConcurrencyState) -> bool {
        within_pool_limits(s@, self.initial)
    }
}

/// Adaptive concurrency controller that responds to resource constraints.
/// Clones share one pool: every operation goes through one lock, so what a
/// reading returns depends on what other tasks have done meanwhile; but the
/// pool never grows past the size it started with and, when it started at
/// or above its floor, never shrinks below that floor.
#[derive(Clone)]
pub struct AdaptiveConcurrencyController {
    inner: Arc<RwLock<ConcurrencyState, PoolLimits>>,
}

impl AdaptiveConcurrencyController {
    /// The number of permits the pool started with.
    pub closed spec fn initial_permits(&self) -> nat {
        (*self.inner).pred().initial
    }

    /// Create a new adaptive controller with `initial_permits` permits.
    pub fn new(initial_permits: usize) -> (c: Self)
        ensures
            c.initial_permits() == initial_permits,
    {
        let state = ConcurrencyState::new(initial_permits);
        let pred = Ghost(PoolLimits { initial: initial_permits as nat });
        AdaptiveConcurrencyController { inner: Arc::new(RwLock::new(state, pred)) }
    }

    /// Take a permit if one is free; a pool that started with no permits
    /// never has one.
    pub fn try_acquire(&self) -> (r: bool)
        ensures
            self.initial_permits() == 0 ==> !r,
    {
        let (mut state, handle) = self.inner.acquire_write();
        proof {
            use_type_invariant(&state);
        }
        let r = state.try_acquire();
        handle.release_write(state);
        r
    }

    /// Give a permit back.
    pub fn release(&self) {
        let (mut state, handle) = self.inner.acquire_write();
        state.release();
        handle.release_write(state);
    }

    /// Handle an error, checking if it's EMFILE and adapting if needed.
    /// Returns true if this is an EMFILE error and concurrency was reduced
    /// (adaptation is tried on the first and every fifth after it).
    pub fn handle_error(&self, error: &SyncError) -> (adapted: bool)
        ensures
            adapted ==> (error is Io || match error {
                SyncError::IoUring(m) => mentions_fd_exhaustion(m@),
                SyncError::CopyFailed(m) => mentions_fd_exhaustion(m@),
                SyncError::MetadataFailed(m) => mentions_fd_exhaustion(m@),
                SyncError::DirectoryTraversal(m) => mentions_fd_exhaustion(m@),
                SyncError::InvalidConfig(m) => mentions_fd_exhaustion(m@),
                SyncError::PermissionDenied(m) => mentions_fd_exhaustion(m@),
                SyncError::FileSystem(m) => mentions_fd_exhaustion(m@),
                SyncError::Internal(m) => mentions_fd_exhaustion(m@),
                SyncError::Io(_) => true,
            }),
    {
        let (mut state, handle) = self.inner.acquire_write();
        proof {
            use_type_invariant(&state);
            lemma_reduction_keeps_floor(state@.max_permits, state@.available_permits, state@.min_permits);
        }
        let adapted = state.handle_error(error);
        handle.release_write(state);
        adapted
    }

    /// Get current statistics: the pool is never larger than it started,
    /// and, when it started at or above its floor, never below the floor.
    pub fn stats(&self) -> (s: ConcurrencyStats)
        ensures
            s.available_permits <= s.max_permits,
            s.in_use == s.max_permits - s.available_permits,
            s.max_permits <= self.initial_permits(),
            self.initial_permits() >= min_permits_for(self.initial_permits()) ==> s.max_permits >= min_permits_for(
                self.initial_permits(),
            ),
    {
        let handle = self.inner.acquire_read();
        let s = handle.borrow().stats();
        handle.release_read();
        s
    }
}

} // verus!
