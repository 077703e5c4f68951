use arsync::directory::{
    classify_entry, file_action, link_outcome, DirectoryStats, EntryKind, FileAction, FilesystemTracker,
    LinkOutcome, SharedHardlinkTracker, SharedStats,
};
use arsync::error::SyncError;

#[test]
fn test_filesystem_tracker_basic() {
    let mut tracker = FilesystemTracker::new();

    // Test initial state
    assert_eq!(tracker.get_stats().total_files, 0);
    assert_eq!(tracker.get_stats().hardlink_groups, 0);

    // Test setting source filesystem
    tracker.set_source_filesystem(123);
    assert!(tracker.is_same_filesystem(123));
    assert!(!tracker.is_same_filesystem(456));
}

#[test]
fn test_filesystem_tracker_hardlinks() {
    let mut tracker = FilesystemTracker::new();
    let file1 = "/tmp/dir/file1.txt".to_string();
    let file2 = "/tmp/dir/file2.txt".to_string();

    // Register first file
    let registered = tracker.register_file(&file1, 1, 100, 2);
    assert!(registered); // Should register as new file

    // Register hardlink
    let registered = tracker.register_file(&file2, 1, 100, 2);
    assert!(!registered); // Should not register as new (it's a hardlink)

    // Check stats
    let stats = tracker.get_stats();
    assert_eq!(stats.total_files, 1);
    assert_eq!(stats.hardlink_groups, 1);
    assert_eq!(stats.total_hardlinks, 2);
}

#[test]
fn no_source_filesystem_allows_every_device() {
    let tracker = FilesystemTracker::new();
    assert!(tracker.is_same_filesystem(1));
    assert!(tracker.is_same_filesystem(u64::MAX));
    assert_eq!(tracker.get_stats().source_filesystem, None);
}

#[test]
fn single_link_files_are_not_tracked() {
    let mut tracker = FilesystemTracker::new();
    assert!(!tracker.register_file(&"/a".to_string(), 1, 5, 1));
    assert!(tracker.get_hardlink_info(1, 5).is_none());
    assert_eq!(tracker.get_stats().total_files, 0);
}

#[test]
fn hardlink_info_keeps_the_first_path() {
    let mut tracker = FilesystemTracker::new();
    tracker.register_file(&"/first".to_string(), 2, 9, 3);
    tracker.register_file(&"/second".to_string(), 2, 9, 3);
    tracker.register_file(&"/third".to_string(), 2, 9, 3);
    let info = tracker.get_hardlink_info(2, 9).unwrap();
    assert_eq!(info.original_path, "/first");
    assert_eq!(info.inode_number, 9);
    assert_eq!(info.link_count, 3);
    assert!(!info.is_copied);
    assert!(info.dst_path.is_none());
    // the same inode number on another device is another file
    assert!(tracker.get_hardlink_info(3, 9).is_none());
    assert!(tracker.register_file(&"/other".to_string(), 3, 9, 2));
    assert_eq!(tracker.get_stats().total_files, 2);
}

#[test]
fn marking_an_inode_copied_records_its_destination() {
    let mut tracker = FilesystemTracker::new();
    tracker.register_file(&"/src/a".to_string(), 1, 7, 2);
    assert!(!tracker.is_inode_copied(7));
    assert!(tracker.get_original_path_for_inode(7).is_none());
    tracker.mark_inode_copied(7, &"/dst/a".to_string());
    assert!(tracker.is_inode_copied(7));
    assert_eq!(tracker.get_original_path_for_inode(7).unwrap(), "/dst/a");
    // an inode with no record is not marked
    tracker.mark_inode_copied(8, &"/dst/b".to_string());
    assert!(!tracker.is_inode_copied(8));
}

#[test]
fn hardlink_groups_are_records_with_more_than_one_link() {
    let mut tracker = FilesystemTracker::new();
    tracker.register_file(&"/a".to_string(), 1, 1, 2);
    tracker.register_file(&"/b".to_string(), 1, 2, 2);
    tracker.register_file(&"/b2".to_string(), 1, 2, 2);
    let groups = tracker.get_hardlink_groups();
    assert_eq!(groups.len(), 1);
    assert_eq!(groups[0].original_path, "/b");
    let stats = tracker.get_stats();
    assert_eq!(stats.total_files, 2);
    assert_eq!(stats.hardlink_groups, 1);
    assert_eq!(stats.total_hardlinks, 3);
}

#[test]
fn shared_stats_count_updates() {
    let stats = SharedStats::new(DirectoryStats::default());
    let other = stats.clone();
    stats.increment_files_copied().unwrap();
    other.increment_files_copied().unwrap();
    stats.increment_bytes_copied(100).unwrap();
    stats.increment_directories_created().unwrap();
    stats.increment_symlinks_processed().unwrap();
    stats.increment_errors().unwrap();
    assert_eq!(stats.files_copied().unwrap(), 2);
    assert_eq!(other.bytes_copied().unwrap(), 100);
    assert_eq!(stats.directories_created().unwrap(), 1);
    assert_eq!(stats.symlinks_processed().unwrap(), 1);
    assert_eq!(stats.errors().unwrap(), 1);
    // cannot take the statistics out while a clone is alive
    assert!(matches!(stats.into_inner(), Err(SyncError::FileSystem(_))));
    let inner = other.into_inner().unwrap();
    assert_eq!(inner.files_copied, 2);
    assert_eq!(inner.bytes_copied, 100);
}

#[test]
fn shared_tracker_forwards_to_the_tracker() {
    let shared = SharedHardlinkTracker::new(FilesystemTracker::new());
    shared.set_source_filesystem(4).unwrap();
    shared.register_file("/s/x".to_string(), 4, 11, 2).unwrap();
    shared.register_file("/s/y".to_string(), 4, 11, 2).unwrap();
    assert!(!shared.is_inode_copied(11).unwrap());
    shared.mark_inode_copied(11, "/d/x".to_string()).unwrap();
    assert!(shared.is_inode_copied(11).unwrap());
    assert_eq!(shared.get_original_path_for_inode(11).unwrap(), Some("/d/x".to_string()));
    let stats = shared.get_stats().unwrap();
    assert_eq!(stats.total_files, 1);
    assert_eq!(stats.total_hardlinks, 2);
    assert_eq!(stats.source_filesystem, Some(4));
    let tracker = shared.into_inner().unwrap();
    assert!(tracker.is_same_filesystem(4));
}

#[test]
fn entry_kinds_and_file_actions() {
    assert_eq!(classify_entry(true, false, false), EntryKind::Directory);
    assert_eq!(classify_entry(false, true, false), EntryKind::File);
    assert_eq!(classify_entry(false, false, true), EntryKind::Symlink);
    assert_eq!(classify_entry(false, false, false), EntryKind::Other);
    assert_eq!(file_action(2, true), FileAction::LinkToCopy);
    assert_eq!(file_action(1, true), FileAction::CopyContent);
    assert_eq!(file_action(3, false), FileAction::CopyContent);
    assert_eq!(link_outcome(true, true), LinkOutcome::Linked);
    assert_eq!(link_outcome(true, false), LinkOutcome::Failed);
    assert_eq!(link_outcome(false, true), LinkOutcome::Failed);
}

#[test]
fn directory_stats_start_at_zero() {
    let s = DirectoryStats::default();
    assert_eq!(s.files_copied, 0);
    assert_eq!(s.directories_created, 0);
    assert_eq!(s.bytes_copied, 0);
    assert_eq!(s.symlinks_processed, 0);
    assert_eq!(s.errors, 0);
}

#[test]
fn a_later_link_finds_the_first_copy() {
    let mut tracker = FilesystemTracker::new();
    assert!(tracker.register_file(&"/src/one".to_string(), 5, 42, 2));
    tracker.mark_inode_copied(42, &"/dst/one".to_string());
    assert!(!tracker.register_file(&"/src/two".to_string(), 5, 42, 2));
    assert!(tracker.is_inode_copied(42));
    assert_eq!(tracker.get_original_path_for_inode(42).unwrap(), "/dst/one");
    let info = tracker.get_hardlink_info(5, 42).unwrap();
    assert_eq!(info.original_path, "/src/one");
    assert_eq!(info.link_count, 2);
    assert_eq!(file_action(2, tracker.is_inode_copied(42)), FileAction::LinkToCopy);
}

#[test]
fn shared_stats_never_fall_below_their_start() {
    let start = DirectoryStats {
        files_copied: u64::MAX,
        directories_created: 3,
        bytes_copied: u64::MAX - 1,
        symlinks_processed: 0,
        errors: 0,
    };
    let stats = SharedStats::new(start);
    stats.increment_files_copied().unwrap();
    stats.increment_bytes_copied(10).unwrap();
    assert_eq!(stats.files_copied().unwrap(), u64::MAX);
    assert_eq!(stats.bytes_copied().unwrap(), u64::MAX);
    assert_eq!(stats.directories_created().unwrap(), 3);
}

#[test]
fn shared_tracker_keeps_what_it_started_with() {
    let mut tracker = FilesystemTracker::new();
    tracker.register_file(&"/s/a".to_string(), 1, 7, 2);
    tracker.mark_inode_copied(7, &"/d/a".to_string());
    let shared = SharedHardlinkTracker::new(tracker);
    assert!(shared.is_inode_copied(7).unwrap());
    assert_eq!(shared.get_original_path_for_inode(7).unwrap(), Some("/d/a".to_string()));
    shared.register_file("/s/b".to_string(), 1, 8, 3).unwrap();
    let stats = shared.get_stats().unwrap();
    assert_eq!(stats.total_files, 2);
    let back = shared.into_inner().unwrap();
    assert!(back.is_inode_copied(7));
}

#[test]
fn tracker_counts_follow_the_calls_made() {
    let mut t = FilesystemTracker::new();
    t.set_source_filesystem(3);
    t.register_file(&"/s/a".to_string(), 1, 7, 2);
    t.register_file(&"/s/b".to_string(), 1, 7, 2);
    t.register_file(&"/s/c".to_string(), 1, 8, 2);
    t.register_file(&"/s/d".to_string(), 2, 9, 1);
    // marking an inode that was never registered changes nothing
    t.mark_inode_copied(9, &"/d/d".to_string());
    assert!(!t.is_inode_copied(9));
    t.mark_inode_copied(7, &"/d/a".to_string());
    assert!(t.is_inode_copied(7));
    assert!(!t.is_inode_copied(8));
    t.set_source_filesystem(1);
    let stats = t.get_stats();
    assert_eq!(stats.total_files, 2);
    assert_eq!(stats.total_hardlinks, 3);
    assert_eq!(stats.hardlink_groups, 1);
    assert_eq!(stats.source_filesystem, Some(1));
    let groups = t.get_hardlink_groups();
    assert_eq!(groups.len(), 1);
    assert_eq!(groups[0].inode_number, 7);
    assert_eq!(groups[0].original_path, "/s/a");
}
