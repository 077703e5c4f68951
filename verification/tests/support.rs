use arsync::adaptive_concurrency::{
    emfile_by_code, is_emfile_error, is_emfile_sync_error, AdaptiveConcurrencyController, ConcurrencyState,
};
use arsync::ban_apis::{is_banned_path_str, is_banned_use_path, join_path};
use arsync::decimal::to_decimal;
use arsync::error::SyncError;
use arsync::io_uring_extended::ExtendedError;
use arsync::protocol::transport::TransferProgress;
use arsync::text::{str_contains, str_equal, str_starts_with};

#[test]
fn decimal_rendering() {
    assert_eq!(to_decimal(0), "0");
    assert_eq!(to_decimal(7), "7");
    assert_eq!(to_decimal(10), "10");
    assert_eq!(to_decimal(1234567890), "1234567890");
    assert_eq!(to_decimal(u64::MAX), "18446744073709551615");
}

#[test]
fn text_searches() {
    assert!(str_equal("abc", "abc"));
    assert!(!str_equal("abc", "abd"));
    assert!(!str_equal("abc", "ab"));
    assert!(str_contains("Too many open files (os error 24)", "os error 24"));
    assert!(str_contains("abc", ""));
    assert!(!str_contains("ab", "abc"));
    assert!(str_starts_with("libc::open", "libc::"));
    assert!(!str_starts_with("lib", "libc::"));
}

#[test]
fn banned_paths() {
    assert!(is_banned_path_str("libc::statx"));
    assert!(is_banned_path_str("nix::unistd::close"));
    assert!(is_banned_path_str("std::fs::read"));
    assert!(!is_banned_path_str("std::fsx::read"));
    assert!(!is_banned_path_str("compio::fs::File"));
    assert!(!is_banned_path_str("mylibc::x"));
}

#[test]
fn banned_use_paths() {
    let segs = |v: &[&str]| v.iter().map(|s| s.to_string()).collect::<Vec<String>>();
    assert!(is_banned_use_path(&segs(&["libc", "statx"])));
    assert!(is_banned_use_path(&segs(&["nix"])));
    assert!(is_banned_use_path(&segs(&["std", "fs", "read"])));
    assert!(!is_banned_use_path(&segs(&["std", "io"])));
    assert!(!is_banned_use_path(&segs(&["std"])));
    assert!(!is_banned_use_path(&segs(&[])));
    assert_eq!(join_path(&segs(&["std", "fs", "read"])), "std::fs::read");
    assert_eq!(join_path(&segs(&["x"])), "x");
    assert_eq!(join_path(&segs(&[])), "");
}

#[test]
fn emfile_errors_are_recognised() {
    assert!(is_emfile_sync_error(&SyncError::FileSystem("Too many open files".to_string())));
    assert!(is_emfile_sync_error(&SyncError::IoUring("open failed: EMFILE".to_string())));
    assert!(is_emfile_sync_error(&SyncError::CopyFailed("x (os error 24)".to_string())));
    assert!(!is_emfile_sync_error(&SyncError::FileSystem("No such file".to_string())));
    let io = std::io::Error::from_raw_os_error(24);
    assert!(is_emfile_sync_error(&SyncError::Io(io)));
}

#[test]
fn pool_shrinks_on_the_first_and_every_fifth_emfile() {
    let mut state = ConcurrencyState::new(1000);
    // not an EMFILE error: nothing changes
    assert!(!state.record_error(false));
    assert_eq!(state.stats().max_permits, 1000);
    assert!(state.record_error(true));
    let s = state.stats();
    assert_eq!(s.max_permits, 750);
    assert_eq!(s.available_permits, 750);
    assert_eq!(s.emfile_errors, 1);
    for _ in 0..3 {
        assert!(!state.record_error(true));
    }
    assert_eq!(state.stats().max_permits, 750);
    assert!(!state.record_error(true));
    assert!(state.record_error(true));
    assert_eq!(state.stats().emfile_errors, 6);
    assert_eq!(state.stats().max_permits, 750 - 187);
}

#[test]
fn pool_never_shrinks_below_its_floor() {
    let mut state = ConcurrencyState::new(20);
    assert!(state.record_error(true));
    assert_eq!(state.stats().max_permits, 10);
    for _ in 0..4 {
        assert!(!state.record_error(true));
    }
    // the sixth error is one on which adaptation is tried, but nothing is
    // left above the floor to take away
    assert!(!state.record_error(true));
    assert_eq!(state.stats().max_permits, 10);
}

#[test]
fn only_free_permits_are_taken_away() {
    let mut state = ConcurrencyState::new(100);
    for _ in 0..95 {
        assert!(state.try_acquire());
    }
    assert!(state.record_error(true));
    let s = state.stats();
    assert_eq!(s.available_permits, 0);
    assert_eq!(s.max_permits, 95);
    assert_eq!(s.in_use, 95);
    state.release();
    assert_eq!(state.stats().available_permits, 1);
}

#[test]
fn controller_shares_its_pool() {
    let controller = AdaptiveConcurrencyController::new(50);
    let clone = controller.clone();
    assert!(clone.try_acquire());
    assert_eq!(controller.stats().in_use, 1);
    assert!(controller.handle_error(&SyncError::FileSystem("EMFILE".to_string())));
    assert!(!controller.handle_error(&SyncError::FileSystem("other".to_string())));
    assert_eq!(clone.stats().emfile_errors, 1);
    assert_eq!(clone.stats().max_permits, 38);
    controller.release();
    assert_eq!(controller.stats().in_use, 0);
}

#[test]
fn transfers_track_their_offset() {
    let mut t = TransferProgress::new(10);
    assert!(!t.is_complete());
    t.record_read(4).unwrap();
    assert_eq!(t.offset(), 4);
    assert_eq!(t.record_read(0), Err("Unexpected EOF while reading 10 bytes".to_string()));
    t.record_read(6).unwrap();
    assert!(t.is_complete());
    let mut w = TransferProgress::new(3);
    w.record_written(3);
    assert!(w.is_complete());
}

#[test]
fn io_uring_extended_errors_convert() {
    let e: ExtendedError = std::io::Error::new(std::io::ErrorKind::Other, "x").into();
    assert!(matches!(e, ExtendedError::IoUring(_)));
    assert!(matches!(ExtendedError::NotSupported("y".to_string()), ExtendedError::NotSupported(_)));
}

#[test]
fn shared_pool_stays_within_its_limits() {
    let empty = AdaptiveConcurrencyController::new(0);
    assert!(!empty.try_acquire());
    let controller = AdaptiveConcurrencyController::new(40);
    let emfile = SyncError::Internal("EMFILE".to_string());
    for _ in 0..30 {
        controller.handle_error(&emfile);
    }
    let s = controller.stats();
    assert!(s.max_permits <= 40);
    assert_eq!(s.max_permits, 10);
}

#[test]
fn emfile_io_errors_are_told_by_their_code() {
    assert!(emfile_by_code(Some(24), 24));
    assert!(!emfile_by_code(Some(23), 24));
    assert!(!emfile_by_code(None, 24));
    assert!(is_emfile_error(&std::io::Error::from_raw_os_error(24)));
    assert!(!is_emfile_error(&std::io::Error::from_raw_os_error(2)));
    let plain = std::io::Error::new(std::io::ErrorKind::Other, "Too many open files");
    assert!(!is_emfile_error(&plain));
}
