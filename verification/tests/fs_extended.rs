use arsync::fs_extended::copy::max_copy_file_range_bytes;
use arsync::fs_extended::error::{
    copy_file_range_error, directory_error, fadvise_error, fallocate_error, filesystem_detection_error,
    hardlink_error, invalid_parameters_error, not_supported_error, symlink_error, xattr_error, ExtendedError,
    SyscallResult,
};
use arsync::fs_extended::fadvise::FadviseAdvice;
use arsync::fs_extended::fallocate::mode;
use arsync::fs_extended::metadata::proc_fd_path;
use arsync::fs_extended::statx::{device_id, RawStatx, StatxMetadata, UnixTime};

#[test]
fn error_helpers_build_their_variants() {
    assert!(matches!(copy_file_range_error("a"), ExtendedError::CopyFileRange(m) if m == "a"));
    assert!(matches!(fadvise_error("b"), ExtendedError::Fadvise(m) if m == "b"));
    assert!(matches!(fallocate_error("c"), ExtendedError::Fallocate(m) if m == "c"));
    assert!(matches!(symlink_error("d"), ExtendedError::Symlink(m) if m == "d"));
    assert!(matches!(hardlink_error("e"), ExtendedError::Hardlink(m) if m == "e"));
    assert!(matches!(directory_error("f"), ExtendedError::Directory(m) if m == "f"));
    assert!(matches!(xattr_error("g"), ExtendedError::Xattr(m) if m == "g"));
    assert!(matches!(filesystem_detection_error("h"), ExtendedError::FilesystemDetection(m) if m == "h"));
    assert!(matches!(not_supported_error("i"), ExtendedError::NotSupported(m) if m == "i"));
    assert!(matches!(invalid_parameters_error("j"), ExtendedError::InvalidParameters(m) if m == "j"));
}

#[test]
fn error_predicates() {
    assert!(not_supported_error("x").is_not_supported());
    assert!(!not_supported_error("x").is_invalid_parameters());
    assert!(invalid_parameters_error("x").is_invalid_parameters());
    assert!(!invalid_parameters_error("x").is_system_call_error());
    assert!(ExtendedError::SystemCall("x".to_string()).is_system_call_error());
    assert!(!ExtendedError::SystemCall("x".to_string()).is_not_supported());
}

#[test]
fn io_errors_convert() {
    let e: ExtendedError = std::io::Error::new(std::io::ErrorKind::Other, "boom").into();
    assert!(matches!(e, ExtendedError::Io(_)));
}

#[test]
fn syscall_results_become_system_call_errors() {
    let ok: Result<u32, std::io::Error> = Ok(5);
    assert_eq!(ok.into_extended_error("open").unwrap(), 5);
    let err: Result<u32, std::io::Error> = Err(std::io::Error::new(std::io::ErrorKind::Other, "boom"));
    match err.into_extended_error("open") {
        Err(ExtendedError::SystemCall(m)) => assert_eq!(m, "open: boom"),
        other => panic!("unexpected {:?}", other),
    }
}

#[test]
fn proc_fd_paths() {
    assert_eq!(proc_fd_path(3), "/proc/self/fd/3");
    assert_eq!(proc_fd_path(0), "/proc/self/fd/0");
    assert_eq!(proc_fd_path(1234), "/proc/self/fd/1234");
    assert_eq!(proc_fd_path(-1), "/proc/self/fd/-1");
    assert_eq!(proc_fd_path(i32::MIN), "/proc/self/fd/-2147483648");
}

#[test]
fn copy_file_range_has_no_limit() {
    assert_eq!(max_copy_file_range_bytes(), None);
}

#[test]
fn fadvise_advice_maps_to_libc() {
    assert_eq!(FadviseAdvice::Normal.to_libc(), 0);
    assert_eq!(FadviseAdvice::Sequential.to_libc(), libc::POSIX_FADV_SEQUENTIAL);
    assert_eq!(FadviseAdvice::Random.to_libc(), libc::POSIX_FADV_RANDOM);
    assert_eq!(FadviseAdvice::DontNeed.to_libc(), libc::POSIX_FADV_DONTNEED);
    assert_eq!(FadviseAdvice::WillNeed.to_libc(), libc::POSIX_FADV_WILLNEED);
    assert_eq!(FadviseAdvice::NoReuse.to_libc(), libc::POSIX_FADV_NOREUSE);
}

#[test]
fn fallocate_modes() {
    assert_eq!(mode::DEFAULT, 0);
    assert_eq!(mode::KEEP_SIZE, 1);
    assert_eq!(mode::PUNCH_HOLE, 2);
    assert_eq!(mode::ZERO_RANGE, 16);
    assert_eq!(mode::UNSHARE_RANGE, 64);
}

#[test]
fn device_ids_join_major_and_minor() {
    assert_eq!(device_id(8, 1), (8u64 << 32) | 1);
    assert_eq!(device_id(0, 0), 0);
    assert_eq!(device_id(u32::MAX, u32::MAX), u64::MAX);
}

#[test]
fn statx_fields_convert() {
    let raw = RawStatx {
        size: 42,
        atime_sec: 10,
        atime_nsec: 5,
        mtime_sec: 20,
        mtime_nsec: 6,
        mode: 0o100644,
        uid: 1000,
        gid: 100,
        nlink: 2,
        dev_major: 259,
        dev_minor: 3,
        ino: 77,
    };
    let m = StatxMetadata::from_raw(&raw);
    assert_eq!(m.size, 42);
    assert_eq!(m.mode, 0o100644);
    assert_eq!(m.uid, 1000);
    assert_eq!(m.gid, 100);
    assert_eq!(m.nlink, 2);
    assert_eq!(m.dev, (259u64 << 32) | 3);
    assert_eq!(m.ino, 77);
    assert_eq!(m.accessed, UnixTime { secs: 10, nanos: 5 });
    assert_eq!(m.modified, UnixTime { secs: 20, nanos: 6 });
}
