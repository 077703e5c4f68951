use arsync::cli::{Args, ArgsError, CopyMethod, Location, LogLevel, PathKind};

fn args_with(source: Option<&str>, destination: Option<&str>, xattrs: bool) -> Args {
    let args = Args::test_default("/nonexistent".to_string(), "/dest".to_string());
    Args {
        source_positional: None,
        dest_positional: None,
        source: source.map(|s| s.to_string()),
        destination: destination.map(|s| s.to_string()),
        copy_method: CopyMethod::Auto,
        queue_depth: 4096,
        cpu_count: 2,
        buffer_size_kb: 1024,
        max_files_in_flight: 100,
        archive: false,
        recursive: false,
        links: false,
        perms: false,
        times: false,
        group: false,
        owner: false,
        devices: false,
        xattrs,
        acls: false,
        hard_links: false,
        atimes: false,
        crtimes: false,
        preserve_xattr: false,
        preserve_acl: false,
        dry_run: false,
        progress: false,
        verbose: 0,
        quiet: false,
        no_adaptive_concurrency: false,
        server: false,
        remote_shell: "ssh".to_string(),
        daemon: false,
        pipe: false,
        pipe_role: None,
        ..args
    }
}

#[test]
fn test_validate_with_existing_file() {
    let args = args_with(Some("/tmp/test_file.txt"), Some("/tmp/dest"), true);
    assert!(args.validate(PathKind::File).is_ok());
}

#[test]
fn test_validate_with_existing_directory() {
    let args = args_with(Some("/tmp/test_dir"), Some("/tmp/dest"), true);
    assert!(args.validate(PathKind::Directory).is_ok());
}

#[test]
fn test_validate_with_nonexistent_source() {
    let args = args_with(Some("/nonexistent/path"), Some("/tmp/dest"), true);
    assert!(args.validate(PathKind::Missing).is_err());
}

#[test]
fn test_parse_local_path() {
    let loc = Location::parse("/home/user/file.txt").unwrap();
    assert!(loc.is_local());
    assert_eq!(loc.path(), "/home/user/file.txt");
}

#[test]
fn test_parse_remote_path_with_user() {
    let loc = Location::parse("user@host:/path/to/file").unwrap();
    assert!(loc.is_remote());
    if let Location::Remote { user, host, path } = loc {
        assert_eq!(user, Some("user".to_string()));
        assert_eq!(host, "host");
        assert_eq!(path, "/path/to/file");
    } else {
        panic!("Expected Remote location");
    }
}

#[test]
fn test_parse_remote_path_without_user() {
    let loc = Location::parse("host:/path/to/file").unwrap();
    assert!(loc.is_remote());
    if let Location::Remote { user, host, path } = loc {
        assert_eq!(user, None);
        assert_eq!(host, "host");
        assert_eq!(path, "/path/to/file");
    } else {
        panic!("Expected Remote location");
    }
}

#[test]
fn test_positional_args() {
    let mut args = args_with(None, None, false);
    args.source_positional = Some("/src".to_string());
    args.dest_positional = Some("/dest".to_string());

    let source = args.get_source().unwrap();
    let dest = args.get_destination().unwrap();

    assert!(source.is_local());
    assert!(dest.is_local());
    assert_eq!(source.path(), "/src");
    assert_eq!(dest.path(), "/dest");
}

#[test]
fn windows_drive_paths_stay_local() {
    let loc = Location::parse("C:/Users/x").unwrap();
    assert!(loc.is_local());
    assert_eq!(loc.path(), "C:/Users/x");
}

#[test]
fn validation_errors_come_in_order() {
    let args = args_with(None, Some("/tmp/dest"), false);
    assert_eq!(args.validate(PathKind::File), Err(ArgsError::SourceNotSpecified));

    let args = args_with(Some("/tmp/src"), None, false);
    assert_eq!(args.validate(PathKind::File), Err(ArgsError::DestinationNotSpecified));

    let args = args_with(Some("/tmp/src"), Some("/tmp/dest"), false);
    assert_eq!(args.validate(PathKind::Missing), Err(ArgsError::SourceNotFound("/tmp/src".to_string())));
    assert_eq!(
        args.validate(PathKind::Other),
        Err(ArgsError::SourceNotFileOrDirectory("/tmp/src".to_string()))
    );

    let mut args = args_with(None, None, false);
    args.source_positional = Some("a@h:/x".to_string());
    args.dest_positional = Some("b@k:/y".to_string());
    assert_eq!(args.validate(PathKind::Missing), Err(ArgsError::RemoteToRemote));
    // a --source flag is always a local path
    let args = args_with(Some("a@h:/x"), Some("/tmp/dest"), false);
    assert_eq!(args.validate(PathKind::Missing), Err(ArgsError::SourceNotFound("a@h:/x".to_string())));

    let mut args = args_with(Some("/tmp/src"), Some("/tmp/dest"), false);
    args.queue_depth = 1023;
    assert_eq!(args.validate(PathKind::File), Err(ArgsError::QueueDepthOutOfRange(1023)));
    args.queue_depth = 65536;
    args.max_files_in_flight = 0;
    assert_eq!(args.validate(PathKind::File), Err(ArgsError::MaxFilesInFlightOutOfRange(0)));
    args.max_files_in_flight = 10000;
    args.buffer_size_kb = 1024 * 1024 + 1;
    assert_eq!(args.validate(PathKind::File), Err(ArgsError::BufferSizeTooLarge(1024 * 1024 + 1)));
    args.buffer_size_kb = 1024 * 1024;
    args.quiet = true;
    args.verbose = 1;
    assert_eq!(args.validate(PathKind::File), Err(ArgsError::QuietAndVerbose));
    args.verbose = 0;
    assert!(args.validate(PathKind::File).is_ok());

    let mut args = args_with(Some("/tmp/src"), Some("/tmp/dest"), false);
    args.pipe = true;
    assert_eq!(args.validate(PathKind::Missing), Err(ArgsError::PipeRoleRequired));
}

#[test]
fn args_error_messages() {
    assert_eq!(
        ArgsError::QueueDepthOutOfRange(7).message(),
        "Queue depth must be between 1024 and 65536, got: 7"
    );
    assert_eq!(ArgsError::BufferSizeTooLarge(2000000).message(), "Buffer size too large (max 1GB): 2000000 KB");
    assert_eq!(ArgsError::SourceNotFound("/x".to_string()).message(), "Source path does not exist: /x");
    assert_eq!(ArgsError::NoCpuCores.message(), "No CPU cores available");
}

#[test]
fn archive_implies_the_preservation_flags() {
    let mut args = args_with(Some("/a"), Some("/b"), false);
    assert!(!args.should_preserve_permissions());
    assert!(!args.should_preserve_timestamps());
    args.archive = true;
    assert!(args.should_preserve_permissions());
    assert!(args.should_preserve_ownership());
    assert!(args.should_preserve_owner());
    assert!(args.should_preserve_group());
    assert!(args.should_preserve_timestamps());
    assert!(args.should_preserve_links());
    assert!(args.should_preserve_devices());
    assert!(args.should_recurse());
    assert!(!args.should_preserve_xattrs());
    assert!(!args.should_preserve_hard_links());
}

#[test]
fn buffer_sizes_are_in_bytes() {
    let args = args_with(Some("/a"), Some("/b"), false);
    assert_eq!(args.buffer_size_bytes(), 1024 * 1024);
    assert!(args.is_file_copy(PathKind::File));
    assert!(args.is_directory_copy(PathKind::Directory));
    assert!(!args.is_file_copy(PathKind::Directory));
}

#[test]
fn cpu_count_zero_means_every_available_cpu() {
    let mut args = args_with(Some("/a"), Some("/b"), false);
    args.cpu_count = 0;
    assert!(args.effective_cpu_count() >= 1);
    args.cpu_count = 3;
    assert_eq!(args.effective_cpu_count(), 3);
}

#[test]
fn log_level_follows_quiet_and_verbosity() {
    let mut args = Args::test_default("/src".to_string(), "/dst".to_string());
    args.quiet = false;
    args.verbose = 0;
    assert_eq!(args.log_level(), LogLevel::Warn);
    args.verbose = 1;
    assert_eq!(args.log_level(), LogLevel::Info);
    args.verbose = 2;
    assert_eq!(args.log_level(), LogLevel::Debug);
    args.verbose = 7;
    assert_eq!(args.log_level(), LogLevel::Trace);
    args.quiet = true;
    assert_eq!(args.log_level(), LogLevel::Error);
}
