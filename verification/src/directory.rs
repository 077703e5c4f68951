//! Directory copying state: statistics, filesystem-boundary detection and
//! hardlink tracking.
//!
//! Hardlinks are detected while traversing: every file with more than one
//! link is registered by its (device, inode) pair; the first copy of an
//! inode's content is remembered, and later files with the same inode become
//! hardlinks to that copy instead of being copied again.

use vstd::prelude::*;
use vstd::rwlock::RwLock;
use vstd::string::*;
use std::sync::Arc;
use crate::error::SyncError;

verus! {

/// Directory copy operation statistics
#[derive(Debug)]
pub struct DirectoryStats {
    /// Total number of files copied
    pub files_copied: u64,
    /// Total number of directories created
    pub directories_created: u64,
    /// Total number of bytes copied
    pub bytes_copied: u64,
    /// Number of symlinks processed
    pub symlinks_processed: u64,
    /// Number of errors encountered
    pub errors: u64,
}

impl Default for DirectoryStats {
    fn default() -> (s: Self)
        ensures
            s.files_copied == 0,
            s.directories_created == 0,
            s.bytes_copied == 0,
            s.symlinks_processed == 0,
            s.errors == 0,
    {
        DirectoryStats { files_copied: 0, directories_created: 0, bytes_copied: 0, symlinks_processed: 0, errors: 0 }
    }
}

/// `Arc::try_unwrap`: the value itself when this is the only reference to
/// it, the same `Arc` handed back otherwise.
#[verifier::external_body]
fn arc_try_unwrap<T>(a: Arc<T>) -> (r: Result<T, Arc<T>>)
    ensures
        match r {
            Ok(t) => t == *a,
            Err(e) => e == a,
        },
{
    Arc::try_unwrap(a)
}

fn lock_error(what: &str) -> (e: SyncError)
    ensures
        e is FileSystem,
{
    SyncError::FileSystem(String::from_str(what))
}

/// The count kept in field `field` of `s`: 0 files copied, 1 directories
/// created, 2 bytes copied, 3 symlinks processed, any other errors.
pub open spec fn stats_field(s: DirectoryStats, field: u8) -> u64 {
    if field == 0 {
        s.files_copied
    } else if field == 1 {
        s.directories_created
    } else if field == 2 {
        s.bytes_copied
    } else if field == 3 {
        s.symlinks_processed
    } else {
        s.errors
    }
}

/// Every count of `now` is at least the same count of `start`.
pub open spec fn counts_at_least(now: DirectoryStats, start: DirectoryStats) -> bool {
    &&& now.files_copied >= start.files_copied
    &&& now.directories_created >= start.directories_created
    &&& now.bytes_copied >= start.bytes_copied
    &&& now.symlinks_processed >= start.symlinks_processed
    &&& now.errors >= start.errors
}

/// What shared statistics keep through every update: counts only grow, so
/// none falls below the count they started from.
pub struct StatsFloor {
    /// The statistics the shared counts started from
    pub start: DirectoryStats,
}

impl vstd::rwlock::RwLockPredicate<DirectoryStats> for StatsFloor {
    open spec fn inv(self, v: DirectoryStats) -> bool {
        counts_at_least(v, self.start)
    }
}

/// Statistics shared between concurrent copy tasks. Every reader and
/// writer goes through one lock, so each update is applied whole; what a
/// read returns depends on what other tasks have done meanwhile, but the
/// counts only grow (a count that reaches `u64::MAX` stays there), so no
/// read returns less than the count the statistics started from.
#[derive(Clone)]
pub struct SharedStats {
    inner: Arc<RwLock<DirectoryStats, StatsFloor>>,
}

impl SharedStats {
    /// The statistics these shared counts started from.
    pub closed spec fn start(&self) -> DirectoryStats {
        (*self.inner).pred().start
    }

    /// Create a new SharedStats wrapper
    pub fn new(stats: DirectoryStats) -> (s: Self)
        ensures
            s.start() == stats,
    {
        let pred = Ghost(StatsFloor { start: stats });
        SharedStats { inner: Arc::new(RwLock::new(stats, pred)) }
    }

    fn read_field(&self, field: u8) -> (v: u64)
        ensures
            v >= stats_field(self.start(), field),
    {
        let handle = self.inner.acquire_read();
        let stats = handle.borrow();
        let v = if field == 0 {
            stats.files_copied
        } else if field == 1 {
            stats.directories_created
        } else if field == 2 {
            stats.bytes_copied
        } else if field == 3 {
            stats.symlinks_processed
        } else {
            stats.errors
        };
        handle.release_read();
        v
    }

    fn add_to_field(&self, field: u8, amount: u64) {
        let (mut stats, handle) = self.inner.acquire_write();
        if field == 0 {
            stats.files_copied = stats.files_copied.saturating_add(amount);
        } else if field == 1 {
            stats.directories_created = stats.directories_created.saturating_add(amount);
        } else if field == 2 {
            stats.bytes_copied = stats.bytes_copied.saturating_add(amount);
        } else if field == 3 {
            stats.symlinks_processed = stats.symlinks_processed.saturating_add(amount);
        } else {
            stats.errors = stats.errors.saturating_add(amount);
        }
        handle.release_write(stats);
    }

    /// Get the number of files copied: never less than the count the
    /// statistics started from.
    pub fn files_copied(&self) -> (r: Result<u64, SyncError>)
        ensures
            r matches Ok(v) && v >= self.start().files_copied,
    {
        Ok(self.read_field(0))
    }

    /// Get the number of directories created: never less than the count
    /// the statistics started from.
    pub fn directories_created(&self) -> (r: Result<u64, SyncError>)
        ensures
            r matches Ok(v) && v >= self.start().directories_created,
    {
        Ok(self.read_field(1))
    }

    /// Get the number of bytes copied: never less than the count the
    /// statistics started from.
    pub fn bytes_copied(&self) -> (r: Result<u64, SyncError>)
        ensures
            r matches Ok(v) && v >= self.start().bytes_copied,
    {
        Ok(self.read_field(2))
    }

    /// Get the number of symlinks processed: never less than the count the
    /// statistics started from.
    pub fn symlinks_processed(&self) -> (r: Result<u64, SyncError>)
        ensures
            r matches Ok(v) && v >= self.start().symlinks_processed,
    {
        Ok(self.read_field(3))
    }

    /// Get the number of errors encountered: never less than the count the
    /// statistics started from.
    pub fn errors(&self) -> (r: Result<u64, SyncError>)
        ensures
            r matches Ok(v) && v >= self.start().errors,
    {
        Ok(self.read_field(4))
    }

    /// Increment the number of files copied
    pub fn increment_files_copied(&self) -> (r: Result<(), SyncError>)
        ensures
            r is Ok,
    {
        self.add_to_field(0, 1);
        Ok(())
    }

    /// Increment the number of directories created
    pub fn increment_directories_created(&self) -> (r: Result<(), SyncError>)
        ensures
            r is Ok,
    {
        self.add_to_field(1, 1);
        Ok(())
    }

    /// Increment the number of bytes copied
    pub fn increment_bytes_copied(&self, bytes: u64) -> (r: Result<(), SyncError>)
        ensures
            r is Ok,
    {
        self.add_to_field(2, bytes);
        Ok(())
    }

    /// Increment the number of symlinks processed
    pub fn increment_symlinks_processed(&self) -> (r: Result<(), SyncError>)
        ensures
            r is Ok,
    {
        self.add_to_field(3, 1);
        Ok(())
    }

    /// Increment the number of errors encountered
    pub fn increment_errors(&self) -> (r: Result<(), SyncError>)
        ensures
            r is Ok,
    {
        self.add_to_field(4, 1);
        Ok(())
    }

    /// Extract the statistics; fails while other clones of this wrapper
    /// are alive. The statistics handed out have no count below the one
    /// they started from.
    pub fn into_inner(self) -> (r: Result<DirectoryStats, SyncError>)
        ensures
            r matches Ok(d) ==> counts_at_least(d, self.start()),
            r matches Err(e) ==> e is FileSystem,
    {
        match arc_try_unwrap(self.inner) {
            Ok(lock) => Ok(lock.into_inner()),
            Err(_) => Err(lock_error("Failed to unwrap Arc - multiple references exist")),
        }
    }
}

/// What the records `after` keep of the records `before`: every record of
/// `before` is still there, at the same place, for the same (device,
/// inode) pair and with the same first path; its link count has not gone
/// down, and a copied inode stays copied. New records may follow.
pub open spec fn grows_from(before: Seq<(InodeInfo, HardlinkInfoView)>, after: Seq<(InodeInfo, HardlinkInfoView)>) -> bool {
    &&& before.len() <= after.len()
    &&& forall|i: int|
        #![trigger after[i]]
        0 <= i < before.len() ==> {
            &&& after[i].0 == before[i].0
            &&& after[i].1.original_path == before[i].1.original_path
            &&& after[i].1.inode_number == before[i].1.inode_number
            &&& after[i].1.link_count >= before[i].1.link_count
            &&& (before[i].1.is_copied ==> after[i].1.is_copied)
        }
}

/// What a shared tracker keeps through every operation: its records grow
/// from the records it started with.
pub struct TrackerGrowth {
    /// The records the shared tracker started with
    pub start: Seq<(InodeInfo, HardlinkInfoView)>,
}

impl vstd::rwlock::RwLockPredicate<FilesystemTracker> for TrackerGrowth {
    open spec fn inv(self, t: FilesystemTracker) -> bool {
        grows_from(self.start, t.entries())
    }
}

/// Hardlink tracking shared between concurrent copy tasks. Every reader
/// and writer goes through one lock, so each operation sees and leaves a
/// whole tracker; what a read returns depends on what other tasks have
/// done meanwhile, but records are never dropped, a record's first path
/// never changes, link counts never go down and a copied inode stays
/// copied, so every read sees at least the records the tracker started
/// with.
#[derive(Clone)]
pub struct SharedHardlinkTracker {
    inner: Arc<RwLock<FilesystemTracker, TrackerGrowth>>,
}

impl SharedHardlinkTracker {
    /// The records this shared tracker started with.
    pub closed spec fn start(&self) -> Seq<(InodeInfo, HardlinkInfoView)> {
        (*self.inner).pred().start
    }

    /// Create a new SharedHardlinkTracker wrapper
    pub fn new(tracker: FilesystemTracker) -> (s: Self)
        ensures
            s.start() == tracker.entries(),
    {
        let pred = Ghost(TrackerGrowth { start: tracker.entries() });
        SharedHardlinkTracker { inner: Arc::new(RwLock::new(tracker, pred)) }
    }

    /// Check if an inode has already been copied: always so when the
    /// tracker started with a copied record of that inode number.
    pub fn is_inode_copied(&self, inode: u64) -> (r: Result<bool, SyncError>)
        ensures
            r is Ok,
            copied_in(self.start(), inode) ==> r == Ok::<bool, SyncError>(true),
    {
        let handle = self.inner.acquire_read();
        let copied = handle.borrow().is_inode_copied(inode);
        proof {
            lemma_grows_keeps_copied(self.start(), handle.view().entries(), inode);
        }
        handle.release_read();
        Ok(copied)
    }

    /// Get the destination an inode's content was first copied to: there
    /// is one whenever the tracker started with a copied record of that
    /// inode number.
    pub fn get_original_path_for_inode(&self, inode: u64) -> (r: Result<Option<String>, SyncError>)
        ensures
            r is Ok,
            copied_in(self.start(), inode) ==> r matches Ok(Some(_)),
    {
        let handle = self.inner.acquire_read();
        let tracker = handle.borrow();
        proof {
            lemma_grows_keeps_copied(self.start(), tracker.entries(), inode);
        }
        let path = match tracker.get_original_path_for_inode(inode) {
            Some(p) => Some(copy_string(p)),
            None => None,
        };
        handle.release_read();
        Ok(path)
    }

    /// Mark an inode as copied
    pub fn mark_inode_copied(&self, inode: u64, path: String) -> (r: Result<(), SyncError>)
        ensures
            r is Ok,
    {
        let (mut tracker, handle) = self.inner.acquire_write();
        let ghost before = tracker.entries();
        tracker.mark_inode_copied(inode, &path);
        proof {
            lemma_marked_grows(before, inode, path@);
            lemma_grows_trans(self.start(), before, tracker.entries());
        }
        handle.release_write(tracker);
        Ok(())
    }

    /// Register a file with the hardlink tracker. A pair whose link count
    /// has already reached `u64::MAX` cannot be counted again: that is
    /// reported as an internal error and leaves the tracker unchanged; in
    /// particular a pair the tracker started with at that count is always
    /// refused.
    pub fn register_file(&self, path: String, device_id: u64, inode: u64, link_count: u64) -> (r: Result<(), SyncError>)
        ensures
            link_count == 1 ==> r is Ok,
            link_count != 1 && saturated_in(self.start(), InodeInfo { dev: device_id, ino: inode }) ==> r is Err,
            r matches Err(e) ==> e is Internal,
    {
        let (mut tracker, handle) = self.inner.acquire_write();
        let ghost before = tracker.entries();
        proof {
            lemma_grows_keeps_saturated(self.start(), before, InodeInfo { dev: device_id, ino: inode });
        }
        let saturated = match tracker.get_hardlink_info(device_id, inode) {
            Some(info) => info.link_count == u64::MAX,
            None => false,
        };
        if saturated && link_count != 1 {
            handle.release_write(tracker);
            return Err(SyncError::Internal(String::from_str("hardlink count overflow")));
        }
        tracker.register_file(&path, device_id, inode, link_count);
        proof {
            lemma_registered_grows(before, path@, device_id, inode, link_count);
            lemma_grows_trans(self.start(), before, tracker.entries());
        }
        handle.release_write(tracker);
        Ok(())
    }

    /// Set the source filesystem device ID
    pub fn set_source_filesystem(&self, device_id: u64) -> (r: Result<(), SyncError>)
        ensures
            r is Ok,
    {
        let (mut tracker, handle) = self.inner.acquire_write();
        tracker.set_source_filesystem(device_id);
        handle.release_write(tracker);
        Ok(())
    }

    /// Get filesystem tracking statistics; fails only when the link counts
    /// sum past `u64::MAX`, and so always when the records the tracker
    /// started with already do. The counts are never below those of the
    /// records the tracker started with.
    pub fn get_stats(&self) -> (r: Result<FilesystemStats, SyncError>)
        ensures
            r matches Ok(s) ==> s.hardlink_groups <= s.total_files && s.total_hardlinks >= s.total_files
                + s.hardlink_groups,
            r matches Ok(s) ==> s.total_files >= self.start().len() && s.total_hardlinks >= link_total(
                self.start(),
                self.start().len(),
            ) && s.hardlink_groups >= group_records(self.start(), self.start().len()).len(),
            link_total(self.start(), self.start().len()) > u64::MAX ==> r is Err,
            r matches Err(e) ==> e is Internal,
    {
        let handle = self.inner.acquire_read();
        let tracker = handle.borrow();
        proof {
            lemma_grows_totals(self.start(), tracker.entries());
        }
        let r = match tracker.checked_link_total() {
            Some(_) => Ok(tracker.get_stats()),
            None => Err(SyncError::Internal(String::from_str("hardlink count overflow"))),
        };
        handle.release_read();
        r
    }

    /// Extract the tracker; fails while other clones of this wrapper are
    /// alive. The tracker handed out holds at least the records it started
    /// with.
    pub fn into_inner(self) -> (r: Result<FilesystemTracker, SyncError>)
        ensures
            r matches Ok(t) ==> grows_from(self.start(), t.entries()),
            r matches Err(e) ==> e is FileSystem,
    {
        match arc_try_unwrap(self.inner) {
            Ok(lock) => Ok(lock.into_inner()),
            Err(_) => Err(lock_error("Failed to unwrap Arc - multiple references exist")),
        }
    }
}

/// Whether some record of inode number `ino` among `es` has been copied.
pub open spec fn copied_in(es: Seq<(InodeInfo, HardlinkInfoView)>, ino: u64) -> bool {
    exists|i: int| 0 <= i < es.len() && #[trigger] es[i].1.inode_number == ino && es[i].1.is_copied
}

/// Whether `es` holds a record for `key` whose link count is `u64::MAX`.
pub open spec fn saturated_in(es: Seq<(InodeInfo, HardlinkInfoView)>, key: InodeInfo) -> bool {
    key_index(es, key) < es.len() && es[key_index(es, key) as int].1.link_count == u64::MAX
}

proof fn lemma_grows_trans(
    a: Seq<(InodeInfo, HardlinkInfoView)>,
    b: Seq<(InodeInfo, HardlinkInfoView)>,
    c: Seq<(InodeInfo, HardlinkInfoView)>,
)
    requires
        grows_from(a, b),
        grows_from(b, c),
    ensures
        grows_from(a, c),
{
    assert forall|i: int| #![trigger c[i]] 0 <= i < a.len() implies {
        &&& c[i].0 == a[i].0
        &&& c[i].1.original_path == a[i].1.original_path
        &&& c[i].1.inode_number == a[i].1.inode_number
        &&& c[i].1.link_count >= a[i].1.link_count
        &&& (a[i].1.is_copied ==> c[i].1.is_copied)
    } by {
        assert(b[i] == b[i]);
    }
}

proof fn lemma_grows_keeps_copied(a: Seq<(InodeInfo, HardlinkInfoView)>, b: Seq<(InodeInfo, HardlinkInfoView)>, ino: u64)
    requires
        grows_from(a, b),
    ensures
        copied_in(a, ino) ==> copied_in(b, ino),
{
    if copied_in(a, ino) {
        let w = choose|i: int| 0 <= i < a.len() && #[trigger] a[i].1.inode_number == ino && a[i].1.is_copied;
        assert(b[w].1.inode_number == ino);
    }
}

proof fn lemma_grows_keeps_saturated(a: Seq<(InodeInfo, HardlinkInfoView)>, b: Seq<(InodeInfo, HardlinkInfoView)>, key: InodeInfo)
    requires
        grows_from(a, b),
    ensures
        saturated_in(a, key) ==> saturated_in(b, key),
{
    if saturated_in(a, key) {
        let k = key_index(a, key);
        lemma_key_index_bounds(a, key, 0);
        assert(b[k as int].0 == key);
        assert forall|j: int| 0 <= j < k implies b[j].0 != key by {
            assert(b[j].0 == a[j].0);
        }
        lemma_key_index_at(b, key, 0, k);
    }
}

proof fn lemma_registered_grows(
    es: Seq<(InodeInfo, HardlinkInfoView)>,
    path: Seq<char>,
    dev: u64,
    ino: u64,
    link_count: u64,
)
    requires
        link_count != 1 ==> !saturated_in(es, InodeInfo { dev, ino }),
    ensures
        grows_from(es, registered(es, path, dev, ino, link_count)),
{
    let key = InodeInfo { dev, ino };
    lemma_key_index_bounds(es, key, 0);
    let r = registered(es, path, dev, ino, link_count);
    let k = key_index(es, key);
    assert forall|i: int| #![trigger r[i]] 0 <= i < es.len() implies {
        &&& r[i].0 == es[i].0
        &&& r[i].1.original_path == es[i].1.original_path
        &&& r[i].1.inode_number == es[i].1.inode_number
        &&& r[i].1.link_count >= es[i].1.link_count
        &&& (es[i].1.is_copied ==> r[i].1.is_copied)
    } by {
        if link_count != 1 && k < es.len() && i == k {
            assert(r[i].0 == key);
        }
    }
}

proof fn lemma_marked_grows(es: Seq<(InodeInfo, HardlinkInfoView)>, ino: u64, dst: Seq<char>)
    ensures
        grows_from(es, marked(es, ino, dst)),
{
    lemma_ino_index_bounds(es, ino, false, 0);
    let m = marked(es, ino, dst);
    assert forall|i: int| #![trigger m[i]] 0 <= i < es.len() implies {
        &&& m[i].0 == es[i].0
        &&& m[i].1.original_path == es[i].1.original_path
        &&& m[i].1.inode_number == es[i].1.inode_number
        &&& m[i].1.link_count >= es[i].1.link_count
        &&& (es[i].1.is_copied ==> m[i].1.is_copied)
    } by {
    }
}

proof fn lemma_grows_prefix_totals(a: Seq<(InodeInfo, HardlinkInfoView)>, b: Seq<(InodeInfo, HardlinkInfoView)>, n: nat)
    requires
        grows_from(a, b),
        n <= a.len(),
    ensures
        link_total(a, n) <= link_total(b, n),
        group_records(a, n).len() <= group_records(b, n).len(),
    decreases n,
{
    if n > 0 {
        lemma_grows_prefix_totals(a, b, (n - 1) as nat);
        assert(b[n - 1].1.link_count >= a[n - 1].1.link_count);
    }
}

proof fn lemma_group_records_monotone(es: Seq<(InodeInfo, HardlinkInfoView)>, m: nat, n: nat)
    requires
        m <= n <= es.len(),
    ensures
        group_records(es, m).len() <= group_records(es, n).len(),
    decreases n - m,
{
    if m < n {
        lemma_group_records_monotone(es, m, (n - 1) as nat);
    }
}

proof fn lemma_grows_totals(a: Seq<(InodeInfo, HardlinkInfoView)>, b: Seq<(InodeInfo, HardlinkInfoView)>)
    requires
        grows_from(a, b),
    ensures
        link_total(a, a.len()) <= link_total(b, b.len()),
        group_records(a, a.len()).len() <= group_records(b, b.len()).len(),
{
    lemma_grows_prefix_totals(a, b, a.len());
    lemma_link_total_monotone(b, a.len(), b.len());
    lemma_group_records_monotone(b, a.len(), b.len());
}

/// What a directory entry is, as the copy tells them apart.
#[derive(Debug, Clone, Copy, PartialEq, Eq, Structural)]
pub enum EntryKind {
    /// A directory: made at the destination, its entries copied in turn
    Directory,
    /// A regular file: its content copied, or linked to an earlier copy
    File,
    /// A symbolic link: recreated with the same target
    Symlink,
    /// Anything else: left alone
    Other,
}

/// The kind of an entry from its metadata (not following links): a
/// directory first, then a regular file, then a symbolic link.
pub fn classify_entry(is_dir: bool, is_file: bool, is_symlink: bool) -> (k: EntryKind)
    ensures
        k == (if is_dir {
            EntryKind::Directory
        } else if is_file {
            EntryKind::File
        } else if is_symlink {
            EntryKind::Symlink
        } else {
            EntryKind::Other
        }),
{
    if is_dir {
        EntryKind::Directory
    } else if is_file {
        EntryKind::File
    } else if is_symlink {
        EntryKind::Symlink
    } else {
        EntryKind::Other
    }
}

/// How a regular file is brought to the destination.
#[derive(Debug, Clone, Copy, PartialEq, Eq, Structural)]
pub enum FileAction {
    /// Hard-link it to the copy already made of its inode
    LinkToCopy,
    /// Copy its content
    CopyContent,
}

/// Whether the copy must ask the tracker if a file's inode was copied:
/// only a file with more than one link can share an inode.
pub fn may_share_inode(link_count: u64) -> (r: bool)
    ensures
        r == (link_count > 1),
{
    link_count > 1
}

/// How to bring a file over: link it when it has more than one link and
/// its inode's content has been copied already, copy it otherwise.
pub fn file_action(link_count: u64, inode_copied: bool) -> (a: FileAction)
    ensures
        a == (if link_count > 1 && inode_copied { FileAction::LinkToCopy } else { FileAction::CopyContent }),
{
    if may_share_inode(link_count) && inode_copied {
        FileAction::LinkToCopy
    } else {
        FileAction::CopyContent
    }
}

/// Which counter a hardlink attempt adds to.
#[derive(Debug, Clone, Copy, PartialEq, Eq, Structural)]
pub enum LinkOutcome {
    /// The link was made: one more file copied
    Linked,
    /// No earlier copy was found, or the link failed: one more error
    Failed,
}

/// The outcome of linking a file to the copy of its inode: linked only
/// when the copy's path was found and the link was made.
pub fn link_outcome(original_found: bool, link_made: bool) -> (o: LinkOutcome)
    ensures
        o == (if original_found && link_made { LinkOutcome::Linked } else { LinkOutcome::Failed }),
{
    if original_found && link_made {
        LinkOutcome::Linked
    } else {
        LinkOutcome::Failed
    }
}

/// Filesystem device ID and inode number pair for hardlink detection
#[derive(Debug, Clone, Copy, PartialEq, Eq, Hash, Structural)]
pub struct InodeInfo {
    /// Filesystem device ID
    pub dev: u64,
    /// Inode number
    pub ino: u64,
}

/// Hardlink tracking information
#[derive(Debug)]
pub struct HardlinkInfo {
    /// Original file path
    pub original_path: String,
    /// Inode number
    pub inode_number: u64,
    /// Number of hardlinks found
    pub link_count: u64,
    /// Whether this inode has been copied to destination
    pub is_copied: bool,
    /// Destination path where this inode was copied (for hardlink creation)
    pub dst_path: Option<String>,
}

/// What a hardlink record holds, paths taken as characters.
pub struct HardlinkInfoView {
    /// Original file path
    pub original_path: Seq<char>,
    /// Inode number
    pub inode_number: u64,
    /// Number of hardlinks found
    pub link_count: u64,
    /// Whether the content has been copied
    pub is_copied: bool,
    /// Where the content was copied to
    pub dst_path: Option<Seq<char>>,
}

impl View for HardlinkInfo {
    type V = HardlinkInfoView;

    open spec fn view(&self) -> HardlinkInfoView {
        HardlinkInfoView {
            original_path: self.original_path@,
            inode_number: self.inode_number,
            link_count: self.link_count,
            is_copied: self.is_copied,
            dst_path: match self.dst_path {
                Some(p) => Some(p@),
                None => None,
            },
        }
    }
}

fn copy_string(s: &String) -> (r: String)
    ensures
        r@ == s@,
{
    String::from_str(s.as_str())
}

impl HardlinkInfo {
    /// A copy of this record.
    pub fn duplicate(&self) -> (r: HardlinkInfo)
        ensures
            r@ == self@,
    {
        HardlinkInfo {
            original_path: copy_string(&self.original_path),
            inode_number: self.inode_number,
            link_count: self.link_count,
            is_copied: self.is_copied,
            dst_path: match &self.dst_path {
                Some(p) => Some(copy_string(p)),
                None => None,
            },
        }
    }
}

/// Statistics about filesystem tracking
#[derive(Debug)]
pub struct FilesystemStats {
    /// Total number of unique files (by inode)
    pub total_files: usize,
    /// Number of hardlink groups (files with multiple links)
    pub hardlink_groups: usize,
    /// Total number of hardlinks (including originals)
    pub total_hardlinks: u64,
    /// Source filesystem device ID
    pub source_filesystem: Option<u64>,
}

/// Position of the record for `key` at or after `i`; the length if none.
pub open spec fn key_index_from(es: Seq<(InodeInfo, HardlinkInfoView)>, key: InodeInfo, i: nat) -> nat
    decreases es.len() - i,
{
    if i >= es.len() {
        es.len()
    } else if es[i as int].0 == key {
        i
    } else {
        key_index_from(es, key, i + 1)
    }
}

/// Position of the record for `key`; the length if none.
pub open spec fn key_index(es: Seq<(InodeInfo, HardlinkInfoView)>, key: InodeInfo) -> nat {
    key_index_from(es, key, 0)
}

/// Position of the first record with inode number `ino` at or after `i`
/// (that has been copied, if `copied_only`); the length if none.
pub open spec fn ino_index_from(es: Seq<(InodeInfo, HardlinkInfoView)>, ino: u64, copied_only: bool, i: nat) -> nat
    decreases es.len() - i,
{
    if i >= es.len() {
        es.len()
    } else if es[i as int].1.inode_number == ino && (!copied_only || es[i as int].1.is_copied) {
        i
    } else {
        ino_index_from(es, ino, copied_only, i + 1)
    }
}

/// Position of the first record with inode number `ino` (that has been
/// copied, if `copied_only`); the length if none.
pub open spec fn ino_index(es: Seq<(InodeInfo, HardlinkInfoView)>, ino: u64, copied_only: bool) -> nat {
    ino_index_from(es, ino, copied_only, 0)
}

/// The records with more than one link among the first `n`, in order.
pub open spec fn group_records(es: Seq<(InodeInfo, HardlinkInfoView)>, n: nat) -> Seq<HardlinkInfoView>
    decreases n,
{
    if n == 0 || n > es.len() {
        Seq::empty()
    } else if es[n - 1].1.link_count > 1 {
        group_records(es, (n - 1) as nat).push(es[n - 1].1)
    } else {
        group_records(es, (n - 1) as nat)
    }
}

/// Sum of the link counts of the first `n` records.
pub open spec fn link_total(es: Seq<(InodeInfo, HardlinkInfoView)>, n: nat) -> nat
    decreases n,
{
    if n == 0 || n > es.len() {
        0
    } else {
        link_total(es, (n - 1) as nat) + es[n - 1].1.link_count as nat
    }
}

/// A fresh record: one link seen, content not copied yet.
pub open spec fn fresh_record(path: Seq<char>, ino: u64) -> HardlinkInfoView {
    HardlinkInfoView { original_path: path, inode_number: ino, link_count: 1, is_copied: false, dst_path: None }
}

/// The records after registering `path` with (`dev`, `ino`) and
/// `link_count`: unchanged for a single link; a known pair has its count
/// raised by one; a new pair is appended with a fresh record.
pub open spec fn registered(
    es: Seq<(InodeInfo, HardlinkInfoView)>,
    path: Seq<char>,
    dev: u64,
    ino: u64,
    link_count: u64,
) -> Seq<(InodeInfo, HardlinkInfoView)> {
    let key = InodeInfo { dev, ino };
    let k = key_index(es, key);
    if link_count == 1 {
        es
    } else if k < es.len() {
        es.update(k as int, (key, HardlinkInfoView { link_count: (es[k as int].1.link_count + 1) as u64, ..es[k as int].1 }))
    } else {
        es.push((key, fresh_record(path, ino)))
    }
}

/// The records after marking inode number `ino` as copied to `dst`: the
/// first record of that inode is marked; without one, nothing changes.
pub open spec fn marked(es: Seq<(InodeInfo, HardlinkInfoView)>, ino: u64, dst: Seq<char>) -> Seq<(InodeInfo, HardlinkInfoView)> {
    let k = ino_index(es, ino, false);
    if k < es.len() {
        es.update(k as int, (es[k as int].0, HardlinkInfoView { is_copied: true, dst_path: Some(dst), ..es[k as int].1 }))
    } else {
        es
    }
}

/// Whether device `dev` is on the source filesystem: with no source set,
/// every device counts as the same.
pub open spec fn same_filesystem(source: Option<u64>, dev: u64) -> bool {
    match source {
        Some(src) => src == dev,
        None => true,
    }
}

/// Once the source filesystem is set to `src`, exactly that device is the
/// same filesystem; every other device is across a boundary.
pub proof fn lemma_boundary_is_the_source_device(src: u64, dev: u64)
    ensures
        same_filesystem(Some(src), dev) <==> dev == src,
        same_filesystem(None, dev),
{
}

/// Filesystem boundary and hardlink tracker: one record per (device,
/// inode) pair seen with more than one link, in the order first seen.
/// Lookups by inode number alone (whether it was copied, and where to)
/// answer with the first record of that number in this order, so when two
/// devices share an inode number the answer does not rest on a hasher's
/// seed or a map's walk order.
#[derive(Debug)]
pub struct FilesystemTracker {
    hardlinks: Vec<(InodeInfo, HardlinkInfo)>,
    source_filesystem: Option<u64>,
}

impl FilesystemTracker {
    /// The records, in the order their inodes were first registered.
    pub closed spec fn entries(&self) -> Seq<(InodeInfo, HardlinkInfoView)> {
        self.hardlinks@.map_values(|p: (InodeInfo, HardlinkInfo)| (p.0, p.1@))
    }

    /// The source filesystem, once set.
    pub closed spec fn source(&self) -> Option<u64> {
        self.source_filesystem
    }

    #[verifier::type_invariant]
    spec fn inv(&self) -> bool {
        &&& forall|i: int, j: int|
            0 <= i < j < self.hardlinks@.len() ==> self.hardlinks@[i].0 != self.hardlinks@[j].0
        &&& forall|i: int|
            0 <= i < self.hardlinks@.len() ==> self.hardlinks@[i].1.inode_number == self.hardlinks@[i].0.ino
        &&& forall|i: int| 0 <= i < self.hardlinks@.len() ==> self.hardlinks@[i].1.link_count >= 1
        &&& forall|i: int|
            0 <= i < self.hardlinks@.len() && self.hardlinks@[i].1.is_copied ==> self.hardlinks@[i].1.dst_path is Some
    }

    /// Create a new filesystem tracker
    pub fn new() -> (t: Self)
        ensures
            t.entries() == Seq::<(InodeInfo, HardlinkInfoView)>::empty(),
            t.source() is None,
    {
        let t = FilesystemTracker { hardlinks: Vec::new(), source_filesystem: None };
        assert(t.entries() =~= Seq::<(InodeInfo, HardlinkInfoView)>::empty());
        t
    }

    /// Set the source filesystem device ID
    pub fn set_source_filesystem(&mut self, dev: u64)
        ensures
            final(self).source() == Some(dev),
            final(self).entries() == old(self).entries(),
    {
        proof {
            use_type_invariant(&*self);
        }
        self.source_filesystem = Some(dev);
    }

    /// Check if a device is the source filesystem; with no source set,
    /// every device is allowed.
    pub fn is_same_filesystem(&self, dev: u64) -> (r: bool)
        ensures
            r == same_filesystem(self.source(), dev),
    {
        match self.source_filesystem {
            Some(source_dev) => source_dev == dev,
            None => true,
        }
    }

    fn find_key(&self, key: InodeInfo) -> (r: usize)
        ensures
            r == key_index(self.entries(), key),
    {
        let mut i: usize = 0;
        while i < self.hardlinks.len()
            invariant
                i <= self.hardlinks@.len(),
                key_index(self.entries(), key) == key_index_from(self.entries(), key, i as nat),
            decreases self.hardlinks@.len() - i,
        {
            if self.hardlinks[i].0 == key {
                return i;
            }
            i = i + 1;
        }
        i
    }

    fn find_ino(&self, ino: u64, copied_only: bool) -> (r: usize)
        ensures
            r == ino_index(self.entries(), ino, copied_only),
    {
        let mut i: usize = 0;
        while i < self.hardlinks.len()
            invariant
                i <= self.hardlinks@.len(),
                ino_index(self.entries(), ino, copied_only) == ino_index_from(self.entries(), ino, copied_only, i as nat),
            decreases self.hardlinks@.len() - i,
        {
            let info = &self.hardlinks[i].1;
            if info.inode_number == ino && (!copied_only || info.is_copied) {
                return i;
            }
            i = i + 1;
        }
        i
    }
}

impl FilesystemTracker {
    /// Register a file for hardlink tracking. Files with a link count of 1
    /// are skipped. A (device, inode) pair seen for the first time gets a
    /// fresh record and `true`; a pair seen before has its link count
    /// raised by one, and `false`.
    pub fn register_file(&mut self, path: &String, dev: u64, ino: u64, link_count: u64) -> (r: bool)
        requires
            link_count != 1 && key_index(old(self).entries(), InodeInfo { dev, ino }) < old(self).entries().len()
                ==> old(self).entries()[key_index(old(self).entries(), InodeInfo { dev, ino }) as int].1.link_count < u64::MAX,
        ensures
            final(self).source() == old(self).source(),
            final(self).entries() == registered(old(self).entries(), path@, dev, ino, link_count),
            r == (link_count != 1 && key_index(old(self).entries(), InodeInfo { dev, ino }) == old(self).entries().len()),
    {
        proof {
            use_type_invariant(&*self);
        }
        if link_count == 1 {
            return false;
        }
        let key = InodeInfo { dev, ino };
        let k = self.find_key(key);
        let ghost es = self.entries();
        proof {
            lemma_key_index_bounds(es, key, 0);
        }
        if k < self.hardlinks.len() {
            let mut info = self.hardlinks[k].1.duplicate();
            info.link_count = info.link_count + 1;
            let ghost newv = info@;
            let ghost hl = self.hardlinks@;
            let mut entries = Vec::new();
            std::mem::swap(&mut entries, &mut self.hardlinks);
            entries.set(k, (key, info));
            assert(entries@[k as int].0 == hl[k as int].0);
            assert forall|i: int, j: int| 0 <= i < j < entries@.len() implies entries@[i].0 != entries@[j].0 by {
                assert(entries@[i].0 == hl[i].0);
                assert(entries@[j].0 == hl[j].0);
            }
            self.hardlinks = entries;
            assert(self.entries() =~= es.update(k as int, (key, newv)));
            false
        } else {
            let info = HardlinkInfo {
                original_path: copy_string(path),
                inode_number: ino,
                link_count: 1,
                is_copied: false,
                dst_path: None,
            };
            let ghost hl = self.hardlinks@;
            let mut entries = Vec::new();
            std::mem::swap(&mut entries, &mut self.hardlinks);
            entries.push((key, info));
            assert forall|i: int, j: int| 0 <= i < j < entries@.len() implies entries@[i].0 != entries@[j].0 by {
                if j == hl.len() {
                    assert(es[i].0 == hl[i].0);
                }
            }
            self.hardlinks = entries;
            assert(self.entries() =~= es.push((key, fresh_record(path@, ino))));
            true
        }
    }
}

impl FilesystemTracker {
    /// Get hardlink information for a given inode, if it has been seen.
    pub fn get_hardlink_info(&self, dev: u64, ino: u64) -> (r: Option<&HardlinkInfo>)
        ensures
            ({
                let es = self.entries();
                let k = key_index(es, InodeInfo { dev, ino });
                match r {
                    Some(h) => k < es.len() && h@ == es[k as int].1,
                    None => k == es.len(),
                }
            }),
            r is None <==> forall|i: int| 0 <= i < self.entries().len() ==> self.entries()[i].0 != (InodeInfo { dev, ino }),
    {
        let key = InodeInfo { dev, ino };
        let k = self.find_key(key);
        proof {
            lemma_key_index_bounds(self.entries(), key, 0);
        }
        if k < self.hardlinks.len() {
            Some(&self.hardlinks[k].1)
        } else {
            None
        }
    }

    /// All records of inodes seen with more than one link, in the order
    /// they were first registered.
    pub fn get_hardlink_groups(&self) -> (r: Vec<&HardlinkInfo>)
        ensures
            r@.len() == group_records(self.entries(), self.entries().len()).len(),
            forall|i: int| 0 <= i < r@.len() ==> (*r@[i])@ == group_records(self.entries(), self.entries().len())[i],
    {
        let ghost es = self.entries();
        let mut out: Vec<&HardlinkInfo> = Vec::new();
        let mut i: usize = 0;
        while i < self.hardlinks.len()
            invariant
                i <= self.hardlinks@.len(),
                es == self.entries(),
                out@.len() == group_records(es, i as nat).len(),
                forall|j: int| 0 <= j < out@.len() ==> (*out@[j])@ == group_records(es, i as nat)[j],
            decreases self.hardlinks@.len() - i,
        {
            let info = &self.hardlinks[i].1;
            if info.link_count > 1 {
                out.push(info);
            }
            i = i + 1;
        }
        out
    }

    /// Whether some record of inode number `ino` has had its content copied.
    pub fn is_inode_copied(&self, ino: u64) -> (r: bool)
        ensures
            r == exists|i: int|
                0 <= i < self.entries().len() && #[trigger] self.entries()[i].1.inode_number == ino
                    && self.entries()[i].1.is_copied,
    {
        let k = self.find_ino(ino, true);
        proof {
            lemma_ino_index_bounds(self.entries(), ino, true, 0);
        }
        k < self.hardlinks.len()
    }

    /// Mark the first record of inode number `ino` as copied to `dst_path`;
    /// with no such record, nothing changes.
    pub fn mark_inode_copied(&mut self, ino: u64, dst_path: &String)
        ensures
            final(self).source() == old(self).source(),
            final(self).entries() == marked(old(self).entries(), ino, dst_path@),
    {
        proof {
            use_type_invariant(&*self);
        }
        let k = self.find_ino(ino, false);
        let ghost es = self.entries();
        proof {
            lemma_ino_index_bounds(es, ino, false, 0);
        }
        if k < self.hardlinks.len() {
            let key = self.hardlinks[k].0;
            let mut info = self.hardlinks[k].1.duplicate();
            info.is_copied = true;
            info.dst_path = Some(copy_string(dst_path));
            let ghost newv = info@;
            let ghost hl = self.hardlinks@;
            let mut entries = Vec::new();
            std::mem::swap(&mut entries, &mut self.hardlinks);
            entries.set(k, (key, info));
            assert forall|i: int, j: int| 0 <= i < j < entries@.len() implies entries@[i].0 != entries@[j].0 by {
                assert(entries@[i].0 == hl[i].0);
                assert(entries@[j].0 == hl[j].0);
            }
            self.hardlinks = entries;
            assert(self.entries() =~= es.update(k as int, (key, newv)));
        }
    }

    /// Where the content of inode number `ino` was first copied to: the
    /// destination of the first copied record of that inode.
    pub fn get_original_path_for_inode(&self, ino: u64) -> (r: Option<&String>)
        ensures
            ({
                let es = self.entries();
                let k = ino_index(es, ino, true);
                match r {
                    Some(p) => k < es.len() && es[k as int].1.dst_path == Some(p@),
                    None => k == es.len() || es[k as int].1.dst_path is None,
                }
            }),
            copied_in(self.entries(), ino) ==> r is Some,
    {
        proof {
            use_type_invariant(self);
        }
        let k = self.find_ino(ino, true);
        proof {
            let es = self.entries();
            lemma_ino_index_bounds(es, ino, true, 0);
            if copied_in(es, ino) {
                let w = choose|i: int| 0 <= i < es.len() && #[trigger] es[i].1.inode_number == ino && es[i].1.is_copied;
                assert(es[w].1.inode_number == ino && (!true || es[w].1.is_copied));
                assert(k < es.len());
                assert(self.hardlinks@[k as int].1.is_copied);
            }
        }
        if k < self.hardlinks.len() {
            match &self.hardlinks[k].1.dst_path {
                Some(p) => Some(p),
                None => None,
            }
        } else {
            None
        }
    }

    fn checked_link_total(&self) -> (r: Option<u64>)
        ensures
            match r {
                Some(t) => t == link_total(self.entries(), self.entries().len()),
                None => link_total(self.entries(), self.entries().len()) > u64::MAX,
            },
    {
        let ghost es = self.entries();
        let mut total: u64 = 0;
        let mut i: usize = 0;
        while i < self.hardlinks.len()
            invariant
                i <= self.hardlinks@.len(),
                es == self.entries(),
                total == link_total(es, i as nat),
            decreases self.hardlinks@.len() - i,
        {
            match total.checked_add(self.hardlinks[i].1.link_count) {
                Some(t) => {
                    total = t;
                },
                None => {
                    proof {
                        lemma_link_total_monotone(es, (i + 1) as nat, es.len());
                    }
                    return None;
                },
            }
            i = i + 1;
        }
        Some(total)
    }

    /// Statistics about the tracked records.
    pub fn get_stats(&self) -> (s: FilesystemStats)
        requires
            link_total(self.entries(), self.entries().len()) <= u64::MAX,
        ensures
            s.total_files == self.entries().len(),
            s.hardlink_groups == group_records(self.entries(), self.entries().len()).len(),
            s.total_hardlinks == link_total(self.entries(), self.entries().len()),
            s.source_filesystem == self.source(),
            s.hardlink_groups <= s.total_files,
            s.total_hardlinks >= s.total_files + s.hardlink_groups,
    {
        proof {
            use_type_invariant(self);
            lemma_link_total_lower(self.entries(), self.entries().len());
        }
        let groups = self.get_hardlink_groups();
        let ghost es = self.entries();
        let mut total: u64 = 0;
        let mut i: usize = 0;
        while i < self.hardlinks.len()
            invariant
                i <= self.hardlinks@.len(),
                es == self.entries(),
                link_total(es, es.len()) <= u64::MAX,
                total == link_total(es, i as nat),
            decreases self.hardlinks@.len() - i,
        {
            proof {
                lemma_link_total_monotone(es, (i + 1) as nat, es.len());
            }
            total = total + self.hardlinks[i].1.link_count;
            i = i + 1;
        }
        FilesystemStats {
            total_files: self.hardlinks.len(),
            hardlink_groups: groups.len(),
            total_hardlinks: total,
            source_filesystem: self.source_filesystem,
        }
    }
}

proof fn lemma_link_total_lower(es: Seq<(InodeInfo, HardlinkInfoView)>, n: nat)
    requires
        n <= es.len(),
        forall|i: int| 0 <= i < es.len() ==> es[i].1.link_count >= 1,
    ensures
        group_records(es, n).len() <= n,
        link_total(es, n) >= n + group_records(es, n).len(),
    decreases n,
{
    if n > 0 {
        lemma_link_total_lower(es, (n - 1) as nat);
    }
}

proof fn lemma_link_total_monotone(es: Seq<(InodeInfo, HardlinkInfoView)>, m: nat, n: nat)
    requires
        m <= n <= es.len(),
    ensures
        link_total(es, m) <= link_total(es, n),
    decreases n - m,
{
    if m < n {
        lemma_link_total_monotone(es, m, (n - 1) as nat);
    }
}

proof fn lemma_key_index_bounds(es: Seq<(InodeInfo, HardlinkInfoView)>, key: InodeInfo, i: nat)
    ensures
        i <= es.len() ==> i <= key_index_from(es, key, i) <= es.len(),
        key_index_from(es, key, i) < es.len() ==> es[key_index_from(es, key, i) as int].0 == key,
        forall|j: int| i <= j < key_index_from(es, key, i) ==> es[j].0 != key,
    decreases es.len() - i,
{
    if i < es.len() && es[i as int].0 != key {
        lemma_key_index_bounds(es, key, i + 1);
    }
}

proof fn lemma_ino_index_bounds(es: Seq<(InodeInfo, HardlinkInfoView)>, ino: u64, copied_only: bool, i: nat)
    ensures
        i <= es.len() ==> i <= ino_index_from(es, ino, copied_only, i) <= es.len(),
        ino_index_from(es, ino, copied_only, i) < es.len() ==> {
            let e = es[ino_index_from(es, ino, copied_only, i) as int].1;
            e.inode_number == ino && (!copied_only || e.is_copied)
        },
        forall|j: int|
            i <= j < ino_index_from(es, ino, copied_only, i) ==> !(es[j].1.inode_number == ino && (!copied_only
                || es[j].1.is_copied)),
    decreases es.len() - i,
{
    if i < es.len() && !(es[i as int].1.inode_number == ino && (!copied_only || es[i as int].1.is_copied)) {
        lemma_ino_index_bounds(es, ino, copied_only, i + 1);
    }
}

proof fn lemma_key_index_at(es: Seq<(InodeInfo, HardlinkInfoView)>, key: InodeInfo, i: nat, k: nat)
    requires
        i <= k < es.len(),
        es[k as int].0 == key,
        forall|j: int| i <= j < k ==> es[j].0 != key,
    ensures
        key_index_from(es, key, i) == k,
    decreases k - i,
{
    if i < k {
        lemma_key_index_at(es, key, i + 1, k);
    }
}

proof fn lemma_ino_index_at(es: Seq<(InodeInfo, HardlinkInfoView)>, ino: u64, copied_only: bool, i: nat, k: nat)
    requires
        i <= k < es.len(),
        es[k as int].1.inode_number == ino && (!copied_only || es[k as int].1.is_copied),
        forall|j: int| i <= j < k ==> !(es[j].1.inode_number == ino && (!copied_only || es[j].1.is_copied)),
    ensures
        ino_index_from(es, ino, copied_only, i) == k,
    decreases k - i,
{
    if i < k {
        lemma_ino_index_at(es, ino, copied_only, i + 1, k);
    }
}

/// Registering a file with more than one link makes its (device, inode)
/// pair known: the first registration appends a fresh record (one link,
/// not copied, the file's own path), a second registration of the same
/// pair finds that record and raises its link count to two.
pub proof fn lemma_register_twice(
    es: Seq<(InodeInfo, HardlinkInfoView)>,
    first: Seq<char>,
    second: Seq<char>,
    dev: u64,
    ino: u64,
    lc1: u64,
    lc2: u64,
)
    requires
        lc1 != 1,
        lc2 != 1,
        key_index(es, InodeInfo { dev, ino }) == es.len(),
    ensures
        ({
            let key = InodeInfo { dev, ino };
            let once = registered(es, first, dev, ino, lc1);
            let twice = registered(once, second, dev, ino, lc2);
            &&& key_index(once, key) == es.len()
            &&& once[es.len() as int] == (key, fresh_record(first, ino))
            &&& twice.len() == once.len()
            &&& twice[es.len() as int].1.link_count == 2
            &&& twice[es.len() as int].1.original_path == first
            &&& forall|j: int| 0 <= j < es.len() ==> twice[j] == es[j]
        }),
{
    let key = InodeInfo { dev, ino };
    lemma_key_index_bounds(es, key, 0);
    let once = registered(es, first, dev, ino, lc1);
    lemma_key_index_at(once, key, 0, es.len());
}

/// Marking an inode that has a record makes it copied, and its original
/// path is then the destination it was marked with.
pub proof fn lemma_marked_inode_is_copied(es: Seq<(InodeInfo, HardlinkInfoView)>, ino: u64, dst: Seq<char>)
    requires
        exists|i: int| 0 <= i < es.len() && #[trigger] es[i].1.inode_number == ino,
    ensures
        ({
            let m = marked(es, ino, dst);
            &&& exists|i: int| 0 <= i < m.len() && #[trigger] m[i].1.inode_number == ino && m[i].1.is_copied
            &&& ino_index(m, ino, true) < m.len()
            &&& m[ino_index(m, ino, true) as int].1.dst_path == Some(dst)
        }),
{
    lemma_ino_index_bounds(es, ino, false, 0);
    let k = ino_index(es, ino, false);
    let w = choose|i: int| 0 <= i < es.len() && #[trigger] es[i].1.inode_number == ino;
    assert(k < es.len()) by {
        if k == es.len() {
            assert(!(es[w].1.inode_number == ino && (!false || es[w].1.is_copied)));
        }
    }
    let m = marked(es, ino, dst);
    assert forall|j: int| 0 <= j < k implies !(m[j].1.inode_number == ino && (!true || m[j].1.is_copied)) by {
        assert(m[j] == es[j]);
    }
    lemma_ino_index_at(m, ino, true, 0, k);
    assert(m[k as int].1.inode_number == ino && m[k as int].1.is_copied);
}

/// Hardlink detection end to end: the first file seen of an inode is
/// registered and, once its content is copied to `dst`, marked; a later
/// file of the same device and inode then finds the inode copied, and the
/// path to link it to is `dst`. (The tracker looks copies up by inode
/// number alone, so this holds when no other device's file with that
/// inode number has been registered.)
pub proof fn lemma_later_link_finds_first_copy(
    es: Seq<(InodeInfo, HardlinkInfoView)>,
    first: Seq<char>,
    later: Seq<char>,
    dev: u64,
    ino: u64,
    link_count: u64,
    dst: Seq<char>,
)
    requires
        link_count > 1,
        forall|i: int| 0 <= i < es.len() ==> es[i].1.inode_number != ino,
        forall|i: int| 0 <= i < es.len() ==> es[i].0 != (InodeInfo { dev, ino }),
    ensures
        ({
            let copied = marked(registered(es, first, dev, ino, link_count), ino, dst);
            let after = registered(copied, later, dev, ino, link_count);
            &&& exists|i: int| 0 <= i < after.len() && #[trigger] after[i].1.inode_number == ino && after[i].1.is_copied
            &&& ino_index(after, ino, true) == es.len()
            &&& after[es.len() as int].1.dst_path == Some(dst)
            &&& after[es.len() as int].1.original_path == first
            &&& after[es.len() as int].1.link_count == 2
        }),
{
    let key = InodeInfo { dev, ino };
    let n = es.len();
    lemma_key_index_bounds(es, key, 0);
    assert(key_index(es, key) == n) by {
        if key_index(es, key) < n {
            assert(es[key_index(es, key) as int].0 == key);
        }
    }
    let once = registered(es, first, dev, ino, link_count);
    assert(once == es.push((key, fresh_record(first, ino))));
    assert forall|j: int| 0 <= j < n implies !(once[j].1.inode_number == ino && (!false || once[j].1.is_copied)) by {
        assert(once[j] == es[j]);
    }
    lemma_ino_index_at(once, ino, false, 0, n);
    let copied = marked(once, ino, dst);
    assert forall|j: int| 0 <= j < n implies copied[j].0 != key by {
        assert(copied[j] == es[j]);
    }
    lemma_key_index_at(copied, key, 0, n);
    let after = registered(copied, later, dev, ino, link_count);
    assert forall|j: int| 0 <= j < n implies !(after[j].1.inode_number == ino && (!true || after[j].1.is_copied)) by {
        assert(after[j] == es[j]);
    }
    lemma_ino_index_at(after, ino, true, 0, n);
    assert(after[n as int].1.inode_number == ino && after[n as int].1.is_copied);
}

/// One call on a tracker, as the history laws replay it.
pub enum TrackerCall {
    /// `register_file(path, dev, ino, link_count)`
    Register { path: Seq<char>, dev: u64, ino: u64, link_count: u64 },
    /// `mark_inode_copied(ino, dst)`
    Mark { ino: u64, dst: Seq<char> },
    /// `set_source_filesystem(dev)`
    SetSource { dev: u64 },
}

/// The records and source filesystem of a tracker made with `new` and then
/// given `calls`, in order, as the `ensures` of `new`, `register_file`,
/// `mark_inode_copied` and `set_source_filesystem` give them.
pub open spec fn replay(calls: Seq<TrackerCall>) -> (Seq<(InodeInfo, HardlinkInfoView)>, Option<u64>)
    decreases calls.len(),
{
    if calls.len() == 0 {
        (Seq::empty(), None)
    } else {
        let before = replay(calls.drop_last());
        match calls.last() {
            TrackerCall::Register { path, dev, ino, link_count } => (
                registered(before.0, path, dev, ino, link_count),
                before.1,
            ),
            TrackerCall::Mark { ino, dst } => (marked(before.0, ino, dst), before.1),
            TrackerCall::SetSource { dev } => (before.0, Some(dev)),
        }
    }
}

/// Whether every registration in `calls` met `register_file`'s
/// precondition: a pair registered again had not yet reached `u64::MAX`
/// links.
pub open spec fn valid_history(calls: Seq<TrackerCall>) -> bool
    decreases calls.len(),
{
    if calls.len() == 0 {
        true
    } else {
        &&& valid_history(calls.drop_last())
        &&& match calls.last() {
            TrackerCall::Register { dev, ino, link_count, .. } => link_count != 1 ==> !saturated_in(
                replay(calls.drop_last()).0,
                InodeInfo { dev, ino },
            ),
            _ => true,
        }
    }
}

/// Whether `call` registers the pair `key` with more than one link.
pub open spec fn registers_pair(call: TrackerCall, key: InodeInfo) -> bool {
    match call {
        TrackerCall::Register { dev, ino, link_count, .. } => link_count != 1 && key == (InodeInfo { dev, ino }),
        _ => false,
    }
}

/// Whether `call` registers a file with more than one link.
pub open spec fn counts_a_link(call: TrackerCall) -> bool {
    match call {
        TrackerCall::Register { link_count, .. } => link_count != 1,
        _ => false,
    }
}

/// How many calls of `calls` register the pair `key` with more than one
/// link.
pub open spec fn registrations(calls: Seq<TrackerCall>, key: InodeInfo) -> nat
    decreases calls.len(),
{
    if calls.len() == 0 {
        0
    } else {
        registrations(calls.drop_last(), key) + if registers_pair(calls.last(), key) {
            1nat
        } else {
            0nat
        }
    }
}

/// How many calls of `calls` register a file with more than one link.
pub open spec fn all_registrations(calls: Seq<TrackerCall>) -> nat
    decreases calls.len(),
{
    if calls.len() == 0 {
        0
    } else {
        all_registrations(calls.drop_last()) + if counts_a_link(calls.last()) {
            1nat
        } else {
            0nat
        }
    }
}

/// The pairs `calls` register with more than one link.
pub open spec fn registered_pairs(calls: Seq<TrackerCall>) -> Set<InodeInfo> {
    Set::new(|key: InodeInfo| registrations(calls, key) > 0)
}

/// Whether some call of `calls` registers inode number `ino` (on any
/// device) with more than one link.
pub open spec fn inode_registered(calls: Seq<TrackerCall>, ino: u64) -> bool
    decreases calls.len(),
{
    if calls.len() == 0 {
        false
    } else {
        inode_registered(calls.drop_last(), ino) || match calls.last() {
            TrackerCall::Register { ino: i, link_count, .. } => link_count != 1 && i == ino,
            _ => false,
        }
    }
}

/// Whether some call of `calls` marks inode number `ino` as copied after an
/// earlier call registered that inode number with more than one link.
pub open spec fn marked_after_registering(calls: Seq<TrackerCall>, ino: u64) -> bool
    decreases calls.len(),
{
    if calls.len() == 0 {
        false
    } else {
        marked_after_registering(calls.drop_last(), ino) || match calls.last() {
            TrackerCall::Mark { ino: i, .. } => i == ino && inode_registered(calls.drop_last(), ino),
            _ => false,
        }
    }
}

/// The device of the last `set_source_filesystem` call; `None` without one.
pub open spec fn last_source(calls: Seq<TrackerCall>) -> Option<u64>
    decreases calls.len(),
{
    if calls.len() == 0 {
        None
    } else {
        match calls.last() {
            TrackerCall::SetSource { dev } => Some(dev),
            _ => last_source(calls.drop_last()),
        }
    }
}

proof fn lemma_link_total_same(a: Seq<(InodeInfo, HardlinkInfoView)>, b: Seq<(InodeInfo, HardlinkInfoView)>, n: nat)
    requires
        n <= a.len(),
        n <= b.len(),
        forall|i: int| 0 <= i < n ==> a[i].1.link_count == b[i].1.link_count,
    ensures
        link_total(a, n) == link_total(b, n),
    decreases n,
{
    if n > 0 {
        lemma_link_total_same(a, b, (n - 1) as nat);
    }
}

proof fn lemma_link_total_bump(a: Seq<(InodeInfo, HardlinkInfoView)>, b: Seq<(InodeInfo, HardlinkInfoView)>, n: nat, k: int)
    requires
        n <= a.len(),
        n <= b.len(),
        0 <= k < n,
        forall|i: int| 0 <= i < n && i != k ==> a[i].1.link_count == b[i].1.link_count,
        b[k].1.link_count == a[k].1.link_count + 1,
    ensures
        link_total(b, n) == link_total(a, n) + 1,
    decreases n,
{
    if n - 1 == k {
        lemma_link_total_same(a, b, (n - 1) as nat);
    } else {
        lemma_link_total_bump(a, b, (n - 1) as nat, k);
    }
}

proof fn lemma_history_records(calls: Seq<TrackerCall>)
    requires
        valid_history(calls),
    ensures
        ({
            let es = replay(calls).0;
            &&& forall|i: int, j: int| 0 <= i < j < es.len() ==> es[i].0 != es[j].0
            &&& forall|i: int| 0 <= i < es.len() ==> #[trigger] es[i].1.inode_number == es[i].0.ino
            &&& forall|i: int| 0 <= i < es.len() ==> #[trigger] es[i].1.link_count == registrations(calls, es[i].0)
            &&& forall|i: int| 0 <= i < es.len() ==> #[trigger] es[i].1.link_count >= 1
            &&& forall|key: InodeInfo|
                #[trigger] registrations(calls, key) > 0 ==> exists|i: int| 0 <= i < es.len() && es[i].0 == key
            &&& forall|ino: u64|
                #[trigger] inode_registered(calls, ino) <==> exists|i: int|
                    0 <= i < es.len() && es[i].1.inode_number == ino
            &&& link_total(es, es.len()) == all_registrations(calls)
            &&& replay(calls).1 == last_source(calls)
        }),
    decreases calls.len(),
{
    if calls.len() == 0 {
        return;
    }
    let p = calls.drop_last();
    lemma_history_records(p);
    let es = replay(p).0;
    let after = replay(calls).0;
    match calls.last() {
        TrackerCall::Register { path, dev, ino, link_count } => {
            let key = InodeInfo { dev, ino };
            lemma_key_index_bounds(es, key, 0);
            let k = key_index(es, key);
            if link_count == 1 {
                assert(after == es);
                assert forall|x: InodeInfo| #[trigger] registrations(calls, x) == registrations(p, x) by {}
                assert forall|i: u64| #[trigger] inode_registered(calls, i) == inode_registered(p, i) by {}
            } else if k < es.len() {
                assert(es[k as int].0 == key);
                assert(after == es.update(k as int, (key, HardlinkInfoView { link_count: (es[k as int].1.link_count + 1) as u64, ..es[k as int].1 })));
                assert(es[k as int].1.link_count < u64::MAX);
                assert forall|i: int| 0 <= i < after.len() implies #[trigger] after[i].1.link_count == registrations(calls, after[i].0) by {
                    if i != k {
                        assert(after[i] == es[i]);
                        assert(es[i].0 != key);
                    }
                }
                assert forall|x: InodeInfo| #[trigger] registrations(calls, x) > 0 implies exists|i: int| 0 <= i < after.len() && after[i].0 == x by {
                    if x == key {
                        assert(after[k as int].0 == x);
                    } else {
                        assert(registrations(p, x) > 0);
                        let w = choose|i: int| 0 <= i < es.len() && es[i].0 == x;
                        assert(after[w].0 == x);
                    }
                }
                assert forall|i: u64| #[trigger] inode_registered(calls, i) <==> exists|j: int| 0 <= j < after.len() && after[j].1.inode_number == i by {
                    if inode_registered(calls, i) {
                        if i == ino {
                            assert(es[k as int].1.inode_number == es[k as int].0.ino);
                            assert(after[k as int].1.inode_number == i);
                        } else {
                            assert(inode_registered(p, i));
                            let w = choose|j: int| 0 <= j < es.len() && es[j].1.inode_number == i;
                            assert(after[w].1.inode_number == i);
                        }
                    }
                    if exists|j: int| 0 <= j < after.len() && after[j].1.inode_number == i {
                        let w = choose|j: int| 0 <= j < after.len() && after[j].1.inode_number == i;
                        assert(es[w].1.inode_number == i);
                        assert(inode_registered(p, i));
                    }
                }
                lemma_link_total_bump(es, after, es.len(), k as int);
            } else {
                assert(after == es.push((key, fresh_record(path, ino))));
                assert forall|i: int| 0 <= i < es.len() implies es[i].0 != key by {}
                assert(registrations(p, key) == 0) by {
                    if registrations(p, key) > 0 {
                        let w = choose|i: int| 0 <= i < es.len() && es[i].0 == key;
                        assert(es[w].0 != key);
                    }
                }
                assert forall|i: int| 0 <= i < after.len() implies #[trigger] after[i].1.link_count == registrations(calls, after[i].0) by {
                    if i < es.len() {
                        assert(after[i] == es[i]);
                        assert(es[i].0 != key);
                    }
                }
                assert forall|x: InodeInfo| #[trigger] registrations(calls, x) > 0 implies exists|i: int| 0 <= i < after.len() && after[i].0 == x by {
                    if x == key {
                        assert(after[es.len() as int].0 == x);
                    } else {
                        assert(registrations(p, x) > 0);
                        let w = choose|i: int| 0 <= i < es.len() && es[i].0 == x;
                        assert(after[w].0 == x);
                    }
                }
                assert forall|i: u64| #[trigger] inode_registered(calls, i) <==> exists|j: int| 0 <= j < after.len() && after[j].1.inode_number == i by {
                    if inode_registered(calls, i) {
                        if i == ino {
                            assert(after[es.len() as int].1.inode_number == i);
                        } else {
                            assert(inode_registered(p, i));
                            let w = choose|j: int| 0 <= j < es.len() && es[j].1.inode_number == i;
                            assert(after[w].1.inode_number == i);
                        }
                    }
                    if exists|j: int| 0 <= j < after.len() && after[j].1.inode_number == i {
                        let w = choose|j: int| 0 <= j < after.len() && after[j].1.inode_number == i;
                        if w < es.len() {
                            assert(es[w].1.inode_number == i);
                            assert(inode_registered(p, i));
                        } else {
                            assert(i == ino);
                        }
                    }
                }
                lemma_link_total_same(es, after, es.len());
            }
        },
        TrackerCall::Mark { ino, dst } => {
            lemma_ino_index_bounds(es, ino, false, 0);
            let k = ino_index(es, ino, false);
            assert forall|i: int| 0 <= i < after.len() implies after[i].0 == es[i].0 && after[i].1.link_count
                == es[i].1.link_count && after[i].1.inode_number == es[i].1.inode_number by {}
            assert forall|x: InodeInfo| #[trigger] registrations(calls, x) == registrations(p, x) by {}
            assert forall|x: InodeInfo| #[trigger] registrations(calls, x) > 0 implies exists|i: int| 0 <= i < after.len() && after[i].0 == x by {
                let w = choose|i: int| 0 <= i < es.len() && es[i].0 == x;
                assert(after[w].0 == x);
            }
            assert forall|i: u64| #[trigger] inode_registered(calls, i) <==> exists|j: int| 0 <= j < after.len() && after[j].1.inode_number == i by {
                assert(inode_registered(calls, i) == inode_registered(p, i));
                if inode_registered(calls, i) {
                    let w = choose|j: int| 0 <= j < es.len() && es[j].1.inode_number == i;
                    assert(after[w].1.inode_number == i);
                }
                if exists|j: int| 0 <= j < after.len() && after[j].1.inode_number == i {
                    let w = choose|j: int| 0 <= j < after.len() && after[j].1.inode_number == i;
                    assert(es[w].1.inode_number == i);
                }
            }
            lemma_link_total_same(es, after, es.len());
        },
        TrackerCall::SetSource { dev } => {
            assert forall|x: InodeInfo| #[trigger] registrations(calls, x) == registrations(p, x) by {}
            assert forall|i: u64| #[trigger] inode_registered(calls, i) == inode_registered(p, i) by {}
        },
    }
}

/// The pairs of the records with more than one link among the first `n`,
/// in order: the pairs of `group_records(es, n)`.
pub open spec fn group_keys(es: Seq<(InodeInfo, HardlinkInfoView)>, n: nat) -> Seq<InodeInfo>
    decreases n,
{
    if n == 0 || n > es.len() {
        Seq::empty()
    } else if es[n - 1].1.link_count > 1 {
        group_keys(es, (n - 1) as nat).push(es[n - 1].0)
    } else {
        group_keys(es, (n - 1) as nat)
    }
}

/// The pairs `calls` register with more than one link at least twice.
pub open spec fn pairs_registered_twice(calls: Seq<TrackerCall>) -> Set<InodeInfo> {
    Set::new(|key: InodeInfo| registrations(calls, key) >= 2)
}

proof fn lemma_group_keys(es: Seq<(InodeInfo, HardlinkInfoView)>, n: nat)
    requires
        n <= es.len(),
        forall|i: int, j: int| 0 <= i < j < es.len() ==> es[i].0 != es[j].0,
    ensures
        group_keys(es, n).len() == group_records(es, n).len(),
        group_keys(es, n).no_duplicates(),
        forall|j: int|
            0 <= j < group_keys(es, n).len() ==> exists|i: int|
                #![trigger es[i]]
                0 <= i < n && #[trigger] group_keys(es, n)[j] == es[i].0 && group_records(es, n)[j] == es[i].1
                    && es[i].1.link_count > 1,
        forall|i: int|
            0 <= i < n && es[i].1.link_count > 1 ==> group_keys(es, n).contains(#[trigger] es[i].0),
    decreases n,
{
    if n > 0 {
        let m = (n - 1) as nat;
        lemma_group_keys(es, m);
        let g = group_keys(es, m);
        let gn = group_keys(es, n);
        let r = group_records(es, m);
        let rn = group_records(es, n);
        if es[m as int].1.link_count > 1 {
            assert(gn == g.push(es[m as int].0));
            assert(rn == r.push(es[m as int].1));
            assert forall|j: int| 0 <= j < g.len() implies g[j] != es[m as int].0 by {
                let i = choose|i: int|
                    #![trigger es[i]]
                    0 <= i < m && g[j] == es[i].0 && r[j] == es[i].1 && es[i].1.link_count > 1;
                assert(es[i].0 != es[m as int].0);
            }
            assert forall|a: int, b: int| 0 <= a < b < gn.len() implies gn[a] != gn[b] by {
                if b == g.len() {
                    assert(gn[a] == g[a]);
                }
            }
        } else {
            assert(gn == g);
            assert(rn == r);
        }
        assert forall|j: int| #![trigger gn[j]] 0 <= j < gn.len() implies exists|i: int|
            #![trigger es[i]]
            0 <= i < n && gn[j] == es[i].0 && rn[j] == es[i].1 && es[i].1.link_count > 1 by {
            if j < g.len() {
                assert(gn[j] == g[j]);
                assert(rn[j] == r[j]);
                let i = choose|i: int|
                    #![trigger es[i]]
                    0 <= i < m && g[j] == es[i].0 && r[j] == es[i].1 && es[i].1.link_count > 1;
                assert(0 <= i < n && gn[j] == es[i].0 && rn[j] == es[i].1 && es[i].1.link_count > 1);
            } else {
                assert(gn[j] == es[m as int].0);
                assert(0 <= m < n && gn[j] == es[m as int].0 && rn[j] == es[m as int].1 && es[m as int].1.link_count > 1);
            }
        }
        assert forall|i: int| 0 <= i < n && es[i].1.link_count > 1 implies gn.contains(#[trigger] es[i].0) by {
            if i < m {
                assert(g.contains(es[i].0));
                let j = choose|j: int| 0 <= j < g.len() && g[j] == es[i].0;
                assert(gn[j] == es[i].0);
            } else {
                assert(gn[g.len() as int] == es[i].0);
            }
        }
    }
}

/// What a tracker's statistics count, over the calls that made it: a
/// tracker made with `new` and then given `calls` (each registration within
/// `register_file`'s precondition) holds exactly one record per (device,
/// inode) pair registered with more than one link, so `total_files` is the
/// number of such pairs; each record's link count is the number of times
/// its pair was registered, so `total_hardlinks` is the number of
/// registrations with more than one link and `hardlink_groups` the number
/// of pairs registered at least twice; the groups `get_hardlink_groups`
/// returns are the records of exactly those pairs, one each, in the order
/// the pairs were first registered; and the source filesystem is the
/// device of the last `set_source_filesystem` call.
pub proof fn lemma_history_stats(calls: Seq<TrackerCall>)
    requires
        valid_history(calls),
    ensures
        ({
            let es = replay(calls).0;
            &&& es.map_values(|e: (InodeInfo, HardlinkInfoView)| e.0).no_duplicates()
            &&& es.map_values(|e: (InodeInfo, HardlinkInfoView)| e.0).to_set() == registered_pairs(calls)
            &&& es.len() == registered_pairs(calls).len()
            &&& forall|i: int| 0 <= i < es.len() ==> #[trigger] es[i].1.link_count == registrations(calls, es[i].0)
            &&& link_total(es, es.len()) == all_registrations(calls)
            &&& group_keys(es, es.len()).len() == group_records(es, es.len()).len()
            &&& forall|j: int|
                0 <= j < group_keys(es, es.len()).len() ==> exists|i: int|
                    #![trigger es[i]]
                    0 <= i < es.len() && #[trigger] group_keys(es, es.len())[j] == es[i].0 && group_records(
                        es,
                        es.len(),
                    )[j] == es[i].1
            &&& group_keys(es, es.len()).no_duplicates()
            &&& group_keys(es, es.len()).to_set() == pairs_registered_twice(calls)
            &&& group_records(es, es.len()).len() == pairs_registered_twice(calls).len()
            &&& replay(calls).1 == last_source(calls)
        }),
{
    lemma_history_records(calls);
    let es = replay(calls).0;
    let keys = es.map_values(|e: (InodeInfo, HardlinkInfoView)| e.0);
    assert forall|a: int, b: int| 0 <= a < b < keys.len() implies keys[a] != keys[b] by {
        assert(es[a].0 != es[b].0);
    }
    assert forall|key: InodeInfo| keys.to_set().contains(key) <==> registered_pairs(calls).contains(key) by {
        if keys.to_set().contains(key) {
            let i = choose|i: int| 0 <= i < keys.len() && keys[i] == key;
            assert(es[i].1.link_count == registrations(calls, es[i].0));
            assert(es[i].1.link_count >= 1);
        }
        if registered_pairs(calls).contains(key) {
            assert(registrations(calls, key) > 0);
            let i = choose|i: int| 0 <= i < es.len() && es[i].0 == key;
            assert(keys[i] == key);
        }
    }
    assert(keys.to_set() =~= registered_pairs(calls));
    keys.unique_seq_to_set();
    lemma_group_keys(es, es.len());
    let g = group_keys(es, es.len());
    assert forall|key: InodeInfo| g.to_set().contains(key) <==> pairs_registered_twice(calls).contains(key) by {
        if g.to_set().contains(key) {
            let j = choose|j: int| 0 <= j < g.len() && g[j] == key;
            let i = choose|i: int|
                #![trigger es[i]]
                0 <= i < es.len() && g[j] == es[i].0 && group_records(es, es.len())[j] == es[i].1 && es[i].1.link_count > 1;
            assert(es[i].1.link_count == registrations(calls, es[i].0));
        }
        if pairs_registered_twice(calls).contains(key) {
            let i = choose|i: int| 0 <= i < es.len() && es[i].0 == key;
            assert(es[i].1.link_count == registrations(calls, es[i].0));
            assert(g.contains(es[i].0));
        }
    }
    assert(g.to_set() =~= pairs_registered_twice(calls));
    g.unique_seq_to_set();
}

/// When an inode counts as copied, over the calls that made the tracker: a
/// tracker made with `new` and then given `calls` (each registration within
/// `register_file`'s precondition) has inode number `ino` copied exactly
/// when some call marked `ino` copied after an earlier call registered
/// `ino` (on any device) with more than one link. Marking an inode that was
/// never registered leaves it not copied.
pub proof fn lemma_history_copied(calls: Seq<TrackerCall>, ino: u64)
    requires
        valid_history(calls),
    ensures
        copied_in(replay(calls).0, ino) <==> marked_after_registering(calls, ino),
    decreases calls.len(),
{
    if calls.len() == 0 {
        return;
    }
    let p = calls.drop_last();
    lemma_history_copied(p, ino);
    lemma_history_records(p);
    let es = replay(p).0;
    let after = replay(calls).0;
    match calls.last() {
        TrackerCall::Register { path, dev, ino: rino, link_count } => {
            let key = InodeInfo { dev, ino: rino };
            lemma_key_index_bounds(es, key, 0);
            let k = key_index(es, key);
            if copied_in(es, ino) {
                let w = choose|i: int| 0 <= i < es.len() && #[trigger] es[i].1.inode_number == ino && es[i].1.is_copied;
                assert(after[w].1.inode_number == ino);
            }
            if copied_in(after, ino) {
                let w = choose|i: int| 0 <= i < after.len() && #[trigger] after[i].1.inode_number == ino && after[i].1.is_copied;
                if w < es.len() {
                    assert(es[w].1.inode_number == ino);
                }
            }
        },
        TrackerCall::Mark { ino: m, dst } => {
            lemma_ino_index_bounds(es, m, false, 0);
            let k = ino_index(es, m, false);
            if copied_in(es, ino) {
                let w = choose|i: int| 0 <= i < es.len() && #[trigger] es[i].1.inode_number == ino && es[i].1.is_copied;
                assert(after[w].1.inode_number == ino);
            }
            if m == ino {
                if inode_registered(p, ino) {
                    let w = choose|j: int| 0 <= j < es.len() && es[j].1.inode_number == ino;
                    assert(!(es[w].1.inode_number == m && (!false || es[w].1.is_copied)) ==> w >= k);
                    assert(k < es.len());
                    assert(after[k as int].1.inode_number == ino);
                } else {
                    assert forall|j: int| 0 <= j < es.len() implies es[j].1.inode_number != ino by {
                        if es[j].1.inode_number == ino {
                            assert(exists|j: int| 0 <= j < es.len() && es[j].1.inode_number == ino);
                        }
                    }
                    assert(k == es.len());
                    assert(after == es);
                }
            } else {
                if copied_in(after, ino) {
                    let w = choose|i: int| 0 <= i < after.len() && #[trigger] after[i].1.inode_number == ino && after[i].1.is_copied;
                    assert(es[w].1.inode_number == ino);
                }
            }
        },
        TrackerCall::SetSource { dev } => {},
    }
}

} // verus!
