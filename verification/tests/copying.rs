use arsync::cli::{Args, PathKind};
use arsync::copy::{fadvise_length, metadata_steps, needs_preallocation, MetadataStep, ReadWriteCopy, BUFFER_SIZE};
use arsync::error::SyncError;
use arsync::integration::IoUringOps;
use arsync::io_uring::{CopyOperation, CopyStatus, FileOperations};
use arsync::progress::ProgressTracker;
use arsync::sync::{plan_sync, SyncPlan};

#[test]
fn read_write_copy_walks_the_file_in_chunks() {
    let mut copy = ReadWriteCopy::new(10, 4);
    let mut offsets = Vec::new();
    while let Some((offset, len)) = copy.next_read() {
        offsets.push(offset);
        let n = std::cmp::min(len as u64, 10 - offset) as usize;
        copy.record_write(n, n).unwrap();
    }
    assert_eq!(offsets, vec![0, 4, 8]);
    assert_eq!(copy.copied(), 10);
}

#[test]
fn read_write_copy_stops_at_an_early_end() {
    let mut copy = ReadWriteCopy::new(100, BUFFER_SIZE);
    assert_eq!(copy.next_read(), Some((0, BUFFER_SIZE)));
    copy.record_write(30, 30).unwrap();
    assert_eq!(copy.next_read(), Some((30, BUFFER_SIZE)));
    copy.record_eof();
    assert_eq!(copy.next_read(), None);
    assert_eq!(copy.copied(), 30);
}

#[test]
fn read_write_copy_refuses_a_short_write() {
    let mut copy = ReadWriteCopy::new(100, 64);
    match copy.record_write(64, 10) {
        Err(SyncError::CopyFailed(m)) => assert_eq!(m, "Write size mismatch: expected 64, got 10"),
        other => panic!("unexpected {:?}", other),
    }
    assert_eq!(copy.copied(), 0);
    assert_eq!(copy.next_read(), Some((0, 64)));
}

#[test]
fn empty_files_need_no_reads_and_no_preallocation() {
    let copy = ReadWriteCopy::new(0, BUFFER_SIZE);
    assert_eq!(copy.next_read(), None);
    assert!(!needs_preallocation(0));
    assert!(needs_preallocation(1));
    assert_eq!(BUFFER_SIZE, 65536);
}

#[test]
fn fadvise_lengths_saturate() {
    assert_eq!(fadvise_length(0), 0);
    assert_eq!(fadvise_length(12345), 12345);
    assert_eq!(fadvise_length(i64::MAX as u64), i64::MAX);
    assert_eq!(fadvise_length(u64::MAX), i64::MAX);
}

#[test]
fn metadata_steps_follow_the_flags() {
    let mut args = Args::test_default("/a".to_string(), "/b".to_string());
    assert_eq!(metadata_steps(&args), Vec::<MetadataStep>::new());
    args.archive = true;
    assert_eq!(
        metadata_steps(&args),
        vec![MetadataStep::Permissions, MetadataStep::Ownership, MetadataStep::Timestamps]
    );
    args.xattrs = true;
    assert_eq!(
        metadata_steps(&args),
        vec![MetadataStep::Permissions, MetadataStep::Ownership, MetadataStep::Xattrs, MetadataStep::Timestamps]
    );
    let mut args = Args::test_default("/a".to_string(), "/b".to_string());
    args.times = true;
    assert_eq!(metadata_steps(&args), vec![MetadataStep::Timestamps]);
}

#[test]
fn sync_plans() {
    let args = Args::test_default("/src".to_string(), "/dst".to_string());
    match plan_sync(&args, PathKind::File).unwrap() {
        SyncPlan::CopyFile { source, destination } => {
            assert_eq!(source, "/src");
            assert_eq!(destination, "/dst");
        }
        other => panic!("unexpected {:?}", other),
    }
    assert!(matches!(plan_sync(&args, PathKind::Directory).unwrap(), SyncPlan::CopyDirectory { .. }));
    match plan_sync(&args, PathKind::Missing) {
        Err(SyncError::InvalidConfig(m)) => assert_eq!(m, "Source must be a file or directory"),
        other => panic!("unexpected {:?}", other),
    }
    let mut remote = Args::test_default("/src".to_string(), "/dst".to_string());
    remote.source_positional = Some("host:/src".to_string());
    match plan_sync(&remote, PathKind::File) {
        Err(SyncError::InvalidConfig(m)) => {
            assert_eq!(m, "sync_files only supports local paths. Use remote_sync for remote operations.")
        }
        other => panic!("unexpected {:?}", other),
    }
    let mut none = Args::test_default("/src".to_string(), "/dst".to_string());
    none.source_positional = None;
    none.source = None;
    match plan_sync(&none, PathKind::File) {
        Err(SyncError::InvalidConfig(m)) => assert_eq!(m, "Source must be specified (positional or --source)"),
        other => panic!("unexpected {:?}", other),
    }
}

#[test]
fn test_copy_operation_progress_counts() {
    let mut operation = CopyOperation::new("/src".to_string(), "/dst".to_string(), 100);
    assert_eq!(operation.status, CopyStatus::Pending);
    operation.update_progress(50);
    assert_eq!(operation.status, CopyStatus::InProgress);
    assert_eq!(operation.bytes_copied, 50);
    operation.update_progress(50);
    assert_eq!(operation.status, CopyStatus::Completed);
    operation.mark_failed("Test error".to_string());
    assert_eq!(operation.status, CopyStatus::Failed("Test error".to_string()));
}

#[test]
fn file_operations_keep_their_buffer_size() {
    let ops = FileOperations::new(4096, 64 * 1024).unwrap();
    assert_eq!(ops.get_buffer_size(), 64 * 1024);
    let uring = IoUringOps::new(8192);
    assert_eq!(uring.get_buffer_size(), 8192);
    assert!(uring.progress_tracker().is_none());
    let with = IoUringOps::new_with_progress(1024, ProgressTracker::new());
    assert!(with.progress_tracker().is_some());
}

#[test]
fn progress_tracker_counts() {
    let mut tracker = ProgressTracker::new();
    tracker.track_discovery(100);
    tracker.update(40);
    let mut op = CopyOperation::new("/a".to_string(), "/b".to_string(), 60);
    op.update_progress(60);
    tracker.track_operation(&op);
    let stats = tracker.stats();
    assert_eq!(stats.files_copied, 2);
    assert_eq!(stats.bytes_copied, 100);
    let fresh = ProgressTracker::default().stats();
    assert_eq!(fresh.files_copied, 0);
    assert_eq!(fresh.bytes_copied, 0);
}
