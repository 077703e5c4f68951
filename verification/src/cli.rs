//! Command-line arguments: rsync-style locations, validation of the
//! configuration, and the rsync flags that decide what is preserved.

use vstd::prelude::*;
use vstd::string::*;
use crate::decimal::{decimal, push_decimal};

verus! {

/// Role in pipe mode
#[derive(Debug, Clone, Copy, PartialEq, Eq, Structural)]
pub enum PipeRole {
    /// Sender: read files and send via protocol
    Sender,
    /// Receiver: receive via protocol and write files
    Receiver,
}

/// Copy method to use
#[derive(Debug, Clone, Copy, PartialEq, Eq, Structural)]
pub enum CopyMethod {
    /// Automatically choose the best method
    Auto,
    /// Use `copy_file_range` for same-filesystem copies
    CopyFileRange,
    /// Use splice for zero-copy operations
    Splice,
    /// Use traditional read/write operations
    ReadWrite,
}

/// Parsed location (local or remote)
#[derive(Debug, Clone)]
pub enum Location {
    /// A path on this machine
    Local(String),
    /// `[user@]host:path`
    Remote {
        /// Remote user, if given
        user: Option<String>,
        /// Remote host
        host: String,
        /// Path on the remote host
        path: String,
    },
}

/// What a location says, strings taken as characters.
pub enum LocationView {
    /// A local path
    Local(Seq<char>),
    /// A remote path
    Remote { user: Option<Seq<char>>, host: Seq<char>, path: Seq<char> },
}

impl View for Location {
    type V = LocationView;

    open spec fn view(&self) -> LocationView {
        match self {
            Location::Local(p) => LocationView::Local(p@),
            Location::Remote { user, host, path } => LocationView::Remote {
                user: match user {
                    Some(u) => Some(u@),
                    None => None,
                },
                host: host@,
                path: path@,
            },
        }
    }
}

/// Position of the first `c` in `s` at or after `i`; `s.len()` if none.
pub open spec fn first_index_from(s: Seq<char>, c: char, i: nat) -> nat
    decreases s.len() - i,
{
    if i >= s.len() {
        s.len()
    } else if s[i as int] == c {
        i
    } else {
        first_index_from(s, c, i + 1)
    }
}

/// Position of the first `c` in `s`; `s.len()` if none.
pub open spec fn first_index(s: Seq<char>, c: char) -> nat {
    first_index_from(s, c, 0)
}

/// ASCII letters.
pub open spec fn is_ascii_alphabetic(c: char) -> bool {
    ('a' <= c && c <= 'z') || ('A' <= c && c <= 'Z')
}

/// rsync-style location syntax: `[user@]host:path`, where a single letter
/// before the first colon is a Windows drive (`C:\...`), and anything
/// without a colon is a local path.
pub open spec fn parse_location(s: Seq<char>) -> LocationView {
    let colon = first_index(s, ':');
    if colon >= s.len() {
        LocationView::Local(s)
    } else if colon == 1 && is_ascii_alphabetic(s[0]) {
        LocationView::Local(s)
    } else {
        let host_part = s.take(colon as int);
        let path_part = s.skip((colon + 1) as int);
        let at = first_index(host_part, '@');
        if at >= host_part.len() {
            LocationView::Remote { user: None, host: host_part, path: path_part }
        } else {
            LocationView::Remote {
                user: Some(host_part.take(at as int)),
                host: host_part.skip((at + 1) as int),
                path: path_part,
            }
        }
    }
}

/// Find the first `c` in `s` at or after `from`.
fn find_char(s: &str, c: char, from: usize, end: usize) -> (r: usize)
    requires
        from <= end,
        end == s@.len(),
    ensures
        r == first_index_from(s@, c, from as nat),
{
    let mut i = from;
    while i < end
        invariant
            from <= i <= end,
            end == s@.len(),
            first_index_from(s@, c, from as nat) == first_index_from(s@, c, i as nat),
        decreases end - i,
    {
        if s.get_char(i) == c {
            return i;
        }
        i = i + 1;
    }
    i
}

impl Location {
    /// Parse rsync-style path: `[user@]host:path` or `/local/path`
    pub fn parse(s: &str) -> (r: Result<Location, ArgsError>)
        ensures
            r matches Ok(loc) && loc@ == parse_location(s@),
    {
        let len = s.unicode_len();
        let colon = find_char(s, ':', 0, len);
        if colon >= len {
            return Ok(Location::Local(String::from_str(s)));
        }
        if colon == 1 {
            let first = s.get_char(0);
            if ('a' <= first && first <= 'z') || ('A' <= first && first <= 'Z') {
                return Ok(Location::Local(String::from_str(s)));
            }
        }
        let host_part = s.substring_char(0, colon);
        let path_part = s.substring_char(colon + 1, len);
        let host_len = host_part.unicode_len();
        let at = find_char(host_part, '@', 0, host_len);
        assert(host_part@ == s@.take(colon as int));
        assert(path_part@ == s@.skip(colon + 1));
        if at >= host_len {
            Ok(Location::Remote {
                user: None,
                host: String::from_str(host_part),
                path: String::from_str(path_part),
            })
        } else {
            let user = host_part.substring_char(0, at);
            let host = host_part.substring_char(at + 1, host_len);
            Ok(Location::Remote {
                user: Some(String::from_str(user)),
                host: String::from_str(host),
                path: String::from_str(path_part),
            })
        }
    }

    /// Get the path component
    pub fn path(&self) -> (p: &String)
        ensures
            p@ == (match self@ {
                LocationView::Local(path) => path,
                LocationView::Remote { path, .. } => path,
            }),
    {
        match self {
            Location::Local(path) => path,
            Location::Remote { path, .. } => path,
        }
    }

    /// Check if this is a remote location
    pub fn is_remote(&self) -> (r: bool)
        ensures
            r == (self@ is Remote),
    {
        matches!(self, Location::Remote { .. })
    }

    /// Check if this is a local location
    pub fn is_local(&self) -> (r: bool)
        ensures
            r == (self@ is Local),
    {
        matches!(self, Location::Local(_))
    }
}

/// What is found at a path on the local filesystem.
#[derive(Debug, Clone, Copy, PartialEq, Eq, Structural)]
pub enum PathKind {
    /// Nothing there (or a dangling link)
    Missing,
    /// A regular file
    File,
    /// A directory
    Directory,
    /// Something else: a device, a socket, a pipe
    Other,
}

/// Why a configuration was rejected.
#[derive(Debug, Clone, PartialEq, Eq)]
pub enum ArgsError {
    /// Neither a positional source nor `--source`
    SourceNotSpecified,
    /// Neither a positional destination nor `--destination`
    DestinationNotSpecified,
    /// `--pipe` without `--pipe-role`
    PipeRoleRequired,
    /// Both ends remote
    RemoteToRemote,
    /// The local source does not exist
    SourceNotFound(String),
    /// The local source is neither a file nor a directory
    SourceNotFileOrDirectory(String),
    /// Queue depth outside 1024..=65536
    QueueDepthOutOfRange(usize),
    /// Max files in flight outside 1..=10000
    MaxFilesInFlightOutOfRange(usize),
    /// Buffer size over 1 GiB (the value in KB)
    BufferSizeTooLarge(usize),
    /// No CPU cores available
    NoCpuCores,
    /// Both --quiet and --verbose
    QuietAndVerbose,
}

/// The message that describes a rejected configuration.
pub open spec fn args_error_text(e: ArgsError) -> Seq<char> {
    match e {
        ArgsError::SourceNotSpecified => "Source must be specified (positional or --source)"@,
        ArgsError::DestinationNotSpecified => "Destination must be specified (positional or --destination)"@,
        ArgsError::PipeRoleRequired => "--pipe requires --pipe-role (sender or receiver)"@,
        ArgsError::RemoteToRemote => "Cannot sync from remote to remote (yet)"@,
        ArgsError::SourceNotFound(p) => "Source path does not exist: "@ + p@,
        ArgsError::SourceNotFileOrDirectory(p) => "Source path must be a file or directory: "@ + p@,
        ArgsError::QueueDepthOutOfRange(n) => "Queue depth must be between 1024 and 65536, got: "@ + decimal(n as nat),
        ArgsError::MaxFilesInFlightOutOfRange(n) => "Max files in flight must be between 1 and 10000, got: "@ + decimal(
            n as nat,
        ),
        ArgsError::BufferSizeTooLarge(n) => "Buffer size too large (max 1GB): "@ + decimal(n as nat) + " KB"@,
        ArgsError::NoCpuCores => "No CPU cores available"@,
        ArgsError::QuietAndVerbose => "Cannot use both --quiet and --verbose options"@,
    }
}

/// How much is logged, from errors only to everything.
#[derive(Debug, Clone, Copy, PartialEq, Eq, Structural)]
pub enum LogLevel {
    /// Errors only
    Error,
    /// Warnings and errors
    Warn,
    /// Informational messages too
    Info,
    /// Debugging messages too
    Debug,
    /// Everything
    Trace,
}

impl ArgsError {
    /// The message that describes this error.
    pub fn message(&self) -> (s: String)
        ensures
            s@ == args_error_text(*self),
    {
        match self {
            ArgsError::SourceNotSpecified => String::from_str("Source must be specified (positional or --source)"),
            ArgsError::DestinationNotSpecified => String::from_str(
                "Destination must be specified (positional or --destination)",
            ),
            ArgsError::PipeRoleRequired => String::from_str("--pipe requires --pipe-role (sender or receiver)"),
            ArgsError::RemoteToRemote => String::from_str("Cannot sync from remote to remote (yet)"),
            ArgsError::SourceNotFound(p) => {
                let mut s = String::from_str("Source path does not exist: ");
                s.append(p.as_str());
                s
            },
            ArgsError::SourceNotFileOrDirectory(p) => {
                let mut s = String::from_str("Source path must be a file or directory: ");
                s.append(p.as_str());
                s
            },
            ArgsError::QueueDepthOutOfRange(n) => {
                let mut s = String::from_str("Queue depth must be between 1024 and 65536, got: ");
                push_decimal(&mut s, *n as u64);
                s
            },
            ArgsError::MaxFilesInFlightOutOfRange(n) => {
                let mut s = String::from_str("Max files in flight must be between 1 and 10000, got: ");
                push_decimal(&mut s, *n as u64);
                s
            },
            ArgsError::BufferSizeTooLarge(n) => {
                let mut s = String::from_str("Buffer size too large (max 1GB): ");
                push_decimal(&mut s, *n as u64);
                s.append(" KB");
                s
            },
            ArgsError::NoCpuCores => String::from_str("No CPU cores available"),
            ArgsError::QuietAndVerbose => String::from_str("Cannot use both --quiet and --verbose options"),
        }
    }
}

/// High-performance bulk file copying utility: the parsed command line.
#[derive(Debug)]
pub struct Args {
    /// Source directory or file (positional)
    pub source_positional: Option<String>,
    /// Destination directory or file (positional)
    pub dest_positional: Option<String>,
    /// Source directory or file (alternative to positional arg)
    pub source: Option<String>,
    /// Destination directory or file (alternative to positional arg)
    pub destination: Option<String>,
    /// Queue depth for `io_uring` operations
    pub queue_depth: usize,
    /// Maximum total files in flight (across all CPU cores)
    pub max_files_in_flight: usize,
    /// Number of CPU cores to use (0 = auto-detect)
    pub cpu_count: usize,
    /// Buffer size in KB (0 = auto-detect)
    pub buffer_size_kb: usize,
    /// Copy method to use
    pub copy_method: CopyMethod,
    /// Archive mode; same as -rlptgoD
    pub archive: bool,
    /// Recurse into directories
    pub recursive: bool,
    /// Copy symlinks as symlinks
    pub links: bool,
    /// Preserve permissions
    pub perms: bool,
    /// Preserve modification times
    pub times: bool,
    /// Preserve group
    pub group: bool,
    /// Preserve owner (super-user only)
    pub owner: bool,
    /// Preserve device files (super-user only) and special files
    pub devices: bool,
    /// Preserve extended attributes
    pub xattrs: bool,
    /// Preserve ACLs (implies --perms)
    pub acls: bool,
    /// Preserve hard links
    pub hard_links: bool,
    /// Preserve access (use) times
    pub atimes: bool,
    /// Preserve creation times (when supported)
    pub crtimes: bool,
    /// Preserve extended attributes (deprecated: use -X/--xattrs)
    pub preserve_xattr: bool,
    /// Preserve POSIX ACLs (deprecated: use -A/--acls)
    pub preserve_acl: bool,
    /// Show what would be copied without actually copying
    pub dry_run: bool,
    /// Show progress information
    pub progress: bool,
    /// Verbose output (-v, -vv, -vvv)
    pub verbose: u8,
    /// Quiet mode (suppress all output except errors)
    pub quiet: bool,
    /// Disable adaptive concurrency control
    pub no_adaptive_concurrency: bool,
    /// Run in server mode (for remote sync)
    pub server: bool,
    /// Remote shell to use (default: ssh)
    pub remote_shell: String,
    /// Daemon mode (rsyncd compatibility)
    pub daemon: bool,
    /// Pipe mode: communicate via stdin/stdout (for protocol testing)
    pub pipe: bool,
    /// Pipe role: sender or receiver
    pub pipe_role: Option<PipeRole>,
}

impl Args {
    /// Permissions are preserved: `-p`, `-a` or `-A`.
    pub open spec fn preserves_permissions(&self) -> bool {
        self.perms || self.archive || self.acls
    }

    /// Owner or group is preserved: `-o`, `-g` or `-a`.
    pub open spec fn preserves_ownership(&self) -> bool {
        self.owner || self.group || self.archive
    }

    /// The owner is preserved: `-o` or `-a`.
    pub open spec fn preserves_owner(&self) -> bool {
        self.owner || self.archive
    }

    /// The group is preserved: `-g` or `-a`.
    pub open spec fn preserves_group(&self) -> bool {
        self.group || self.archive
    }

    /// Modification times are preserved: `-t` or `-a`.
    pub open spec fn preserves_times(&self) -> bool {
        self.times || self.archive
    }

    /// Extended attributes are preserved: `-X` or its older spelling.
    pub open spec fn preserves_xattrs(&self) -> bool {
        self.xattrs || self.preserve_xattr
    }

    /// ACLs are preserved: `-A` or its older spelling.
    pub open spec fn preserves_acls(&self) -> bool {
        self.acls || self.preserve_acl
    }

    /// Symbolic links are copied as links: `-l` or `-a`.
    pub open spec fn copies_links(&self) -> bool {
        self.links || self.archive
    }

    /// Device and special files are preserved: `-D` or `-a`.
    pub open spec fn preserves_devices(&self) -> bool {
        self.devices || self.archive
    }

    /// Directories are copied recursively: `-r` or `-a`.
    pub open spec fn recurses(&self) -> bool {
        self.recursive || self.archive
    }
}

/// The source a command line names: the positional one, parsed as an
/// rsync location, or else `--source` as a local path.
pub open spec fn source_spec(args: &Args) -> Option<LocationView> {
    match args.source_positional {
        Some(src) => Some(parse_location(src@)),
        None => match args.source {
            Some(src) => Some(LocationView::Local(src@)),
            None => None,
        },
    }
}

/// The destination a command line names, chosen the same way.
pub open spec fn destination_spec(args: &Args) -> Option<LocationView> {
    match args.dest_positional {
        Some(dst) => Some(parse_location(dst@)),
        None => match args.destination {
            Some(dst) => Some(LocationView::Local(dst@)),
            None => None,
        },
    }
}

/// The checks every mode shares, with `cpus` the effective CPU count:
/// the first that fails gives the error.
pub open spec fn common_check(args: &Args, cpus: usize) -> Result<(), ArgsError> {
    if args.queue_depth < 1024 || args.queue_depth > 65536 {
        Err(ArgsError::QueueDepthOutOfRange(args.queue_depth))
    } else if args.max_files_in_flight < 1 || args.max_files_in_flight > 10000 {
        Err(ArgsError::MaxFilesInFlightOutOfRange(args.max_files_in_flight))
    } else if args.buffer_size_kb > 1024 * 1024 {
        Err(ArgsError::BufferSizeTooLarge(args.buffer_size_kb))
    } else if cpus == 0 {
        Err(ArgsError::NoCpuCores)
    } else if args.quiet && args.verbose > 0 {
        Err(ArgsError::QuietAndVerbose)
    } else {
        Ok(())
    }
}

/// Validation: pipe mode needs a role; otherwise both ends must be named,
/// not both remote, and a local source must be a file or directory
/// (`source_kind` is what is found at the local source path); then the
/// common checks.
pub open spec fn validate_spec(args: &Args, source_kind: PathKind, cpus: usize) -> Result<(), ArgsError> {
    if args.pipe {
        if args.pipe_role is None {
            Err(ArgsError::PipeRoleRequired)
        } else {
            common_check(args, cpus)
        }
    } else {
        match source_spec(args) {
            None => Err(ArgsError::SourceNotSpecified),
            Some(src) => match destination_spec(args) {
                None => Err(ArgsError::DestinationNotSpecified),
                Some(dst) => {
                    if src is Remote || dst is Remote {
                        if src is Remote && dst is Remote {
                            Err(ArgsError::RemoteToRemote)
                        } else {
                            common_check(args, cpus)
                        }
                    } else {
                        match source_kind {
                            PathKind::Missing => Err(ArgsError::SourceNotFound(arbitrary())),
                            PathKind::Other => Err(ArgsError::SourceNotFileOrDirectory(arbitrary())),
                            _ => common_check(args, cpus),
                        }
                    }
                },
            },
        }
    }
}

/// The error carries the source path it is about.
pub open spec fn error_path_matches(r: Result<(), ArgsError>, args: &Args) -> bool {
    match r {
        Err(ArgsError::SourceNotFound(p)) => source_spec(args) == Some(LocationView::Local(p@)),
        Err(ArgsError::SourceNotFileOrDirectory(p)) => source_spec(args) == Some(LocationView::Local(p@)),
        _ => true,
    }
}

/// Two validation outcomes are the same, an error's path aside.
pub open spec fn same_outcome(a: Result<(), ArgsError>, b: Result<(), ArgsError>) -> bool {
    match (a, b) {
        (Ok(_), Ok(_)) => true,
        (Err(ArgsError::SourceNotFound(_)), Err(ArgsError::SourceNotFound(_))) => true,
        (Err(ArgsError::SourceNotFileOrDirectory(_)), Err(ArgsError::SourceNotFileOrDirectory(_))) => true,
        (Err(x), Err(y)) => x == y,
        _ => false,
    }
}

/// `num_cpus::get()`: the number of CPUs available to this process, which
/// its documentation promises is at least 1. Nothing else is promised.
#[verifier::external_body]
fn available_cpus() -> (n: usize)
    ensures
        n >= 1,
{
    num_cpus::get()
}

fn clone_string(s: &String) -> (r: String)
    ensures
        r@ == s@,
{
    String::from_str(s.as_str())
}

impl Args {
    /// Get the source location (from positional or flag)
    pub fn get_source(&self) -> (r: Result<Location, ArgsError>)
        ensures
            match source_spec(self) {
                Some(loc) => r matches Ok(l) && l@ == loc,
                None => r == Err::<Location, ArgsError>(ArgsError::SourceNotSpecified),
            },
    {
        if let Some(src) = &self.source_positional {
            Location::parse(src.as_str())
        } else if let Some(src) = &self.source {
            Ok(Location::Local(clone_string(src)))
        } else {
            Err(ArgsError::SourceNotSpecified)
        }
    }

    /// Get the destination location (from positional or flag)
    pub fn get_destination(&self) -> (r: Result<Location, ArgsError>)
        ensures
            match destination_spec(self) {
                Some(loc) => r matches Ok(l) && l@ == loc,
                None => r == Err::<Location, ArgsError>(ArgsError::DestinationNotSpecified),
            },
    {
        if let Some(dst) = &self.dest_positional {
            Location::parse(dst.as_str())
        } else if let Some(dst) = &self.destination {
            Ok(Location::Local(clone_string(dst)))
        } else {
            Err(ArgsError::DestinationNotSpecified)
        }
    }

    /// Validate command-line arguments. `source_kind` is what is found at
    /// the source path when the source is local (it is not looked at
    /// otherwise).
    pub fn validate(&self, source_kind: PathKind) -> (r: Result<(), ArgsError>)
        ensures
            (self.cpu_count != 0 ==> same_outcome(r, validate_spec(self, source_kind, self.cpu_count))),
            (self.cpu_count == 0 ==> same_outcome(r, validate_spec(self, source_kind, 1))),
            error_path_matches(r, self),
    {
        if self.pipe {
            if self.pipe_role.is_none() {
                return Err(ArgsError::PipeRoleRequired);
            }
            return self.validate_common();
        }
        let source = match self.get_source() {
            Ok(s) => s,
            Err(e) => return Err(e),
        };
        let destination = match self.get_destination() {
            Ok(d) => d,
            Err(e) => return Err(e),
        };
        if source.is_remote() || destination.is_remote() {
            if source.is_remote() && destination.is_remote() {
                return Err(ArgsError::RemoteToRemote);
            }
            return self.validate_common();
        }
        let source_path = source.path();
        match source_kind {
            PathKind::Missing => Err(ArgsError::SourceNotFound(clone_string(source_path))),
            PathKind::Other => Err(ArgsError::SourceNotFileOrDirectory(clone_string(source_path))),
            _ => self.validate_common(),
        }
    }

    /// The checks shared by every mode, with the effective CPU count.
    pub fn validate_common(&self) -> (r: Result<(), ArgsError>)
        ensures
            self.cpu_count != 0 ==> r == common_check(self, self.cpu_count),
            self.cpu_count == 0 ==> r == common_check(self, 1),
    {
        let cpus = self.effective_cpu_count();
        let r = self.check_common(cpus);
        proof {
            if self.cpu_count == 0 {
                assert(common_check(self, cpus) == common_check(self, 1)) by {
                    assert(cpus >= 1);
                }
            }
        }
        r
    }

    /// The shared checks for a given effective CPU count.
    pub fn check_common(&self, cpus: usize) -> (r: Result<(), ArgsError>)
        ensures
            r == common_check(self, cpus),
    {
        if self.queue_depth < 1024 || self.queue_depth > 65_536 {
            return Err(ArgsError::QueueDepthOutOfRange(self.queue_depth));
        }
        if self.max_files_in_flight < 1 || self.max_files_in_flight > 10_000 {
            return Err(ArgsError::MaxFilesInFlightOutOfRange(self.max_files_in_flight));
        }
        if self.buffer_size_kb > 1024 * 1024 {
            return Err(ArgsError::BufferSizeTooLarge(self.buffer_size_kb));
        }
        if cpus == 0 {
            return Err(ArgsError::NoCpuCores);
        }
        if self.quiet && self.verbose > 0 {
            return Err(ArgsError::QuietAndVerbose);
        }
        Ok(())
    }

    /// Get the actual CPU count to use: `cpu_count`, or when it is 0 the
    /// number of CPUs available (at least 1).
    pub fn effective_cpu_count(&self) -> (n: usize)
        ensures
            self.cpu_count != 0 ==> n == self.cpu_count,
            n >= 1,
    {
        if self.cpu_count == 0 {
            available_cpus()
        } else {
            self.cpu_count
        }
    }

    /// How much to log: errors only in quiet mode; otherwise warnings,
    /// then info, debug and trace for each `-v` given (three or more give
    /// trace).
    pub fn log_level(&self) -> (l: LogLevel)
        ensures
            l == (if self.quiet {
                LogLevel::Error
            } else if self.verbose == 0 {
                LogLevel::Warn
            } else if self.verbose == 1 {
                LogLevel::Info
            } else if self.verbose == 2 {
                LogLevel::Debug
            } else {
                LogLevel::Trace
            }),
    {
        if self.quiet {
            LogLevel::Error
        } else if self.verbose == 0 {
            LogLevel::Warn
        } else if self.verbose == 1 {
            LogLevel::Info
        } else if self.verbose == 2 {
            LogLevel::Debug
        } else {
            LogLevel::Trace
        }
    }

    /// Get the actual buffer size in bytes (64 KiB when unset)
    pub fn effective_buffer_size(&self) -> (n: usize)
        requires
            self.buffer_size_kb * 1024 <= usize::MAX,
        ensures
            n == (if self.buffer_size_kb == 0 { 65536int } else { self.buffer_size_kb * 1024 }),
    {
        if self.buffer_size_kb == 0 {
            64 * 1024
        } else {
            self.buffer_size_kb * 1024
        }
    }

    /// Check if the source is a directory (for local sources);
    /// `source_kind` is what is found at the source path.
    pub fn is_directory_copy(&self, source_kind: PathKind) -> (r: bool)
        ensures
            r == (source_spec(self) matches Some(LocationView::Local(_)) && source_kind == PathKind::Directory),
    {
        if let Ok(Location::Local(_)) = self.get_source() {
            return source_kind == PathKind::Directory;
        }
        false
    }

    /// Check if the source is a single file (for local sources);
    /// `source_kind` is what is found at the source path.
    pub fn is_file_copy(&self, source_kind: PathKind) -> (r: bool)
        ensures
            r == (source_spec(self) matches Some(LocationView::Local(_)) && source_kind == PathKind::File),
    {
        if let Ok(Location::Local(_)) = self.get_source() {
            return source_kind == PathKind::File;
        }
        false
    }

    /// Get buffer size in bytes
    pub fn buffer_size_bytes(&self) -> (n: usize)
        requires
            self.buffer_size_kb * 1024 <= usize::MAX,
        ensures
            n == self.buffer_size_kb * 1024,
    {
        self.buffer_size_kb * 1024
    }

    /// Check if permissions should be preserved (-p, -a, or -A)
    pub fn should_preserve_permissions(&self) -> (r: bool)
        ensures
            r == self.preserves_permissions(),
    {
        self.perms || self.archive || self.acls
    }

    /// Check if ownership (user and/or group) should be preserved
    pub fn should_preserve_ownership(&self) -> (r: bool)
        ensures
            r == self.preserves_ownership(),
    {
        self.owner || self.group || self.archive
    }

    /// Check if user ownership should be preserved
    pub fn should_preserve_owner(&self) -> (r: bool)
        ensures
            r == self.preserves_owner(),
    {
        self.owner || self.archive
    }

    /// Check if group ownership should be preserved
    pub fn should_preserve_group(&self) -> (r: bool)
        ensures
            r == self.preserves_group(),
    {
        self.group || self.archive
    }

    /// Check if timestamps should be preserved
    pub fn should_preserve_timestamps(&self) -> (r: bool)
        ensures
            r == self.preserves_times(),
    {
        self.times || self.archive
    }

    /// Check if access times should be preserved
    pub fn should_preserve_atimes(&self) -> (r: bool)
        ensures
            r == self.atimes,
    {
        self.atimes
    }

    /// Check if creation times should be preserved
    pub fn should_preserve_crtimes(&self) -> (r: bool)
        ensures
            r == self.crtimes,
    {
        self.crtimes
    }

    /// Check if extended attributes should be preserved
    pub fn should_preserve_xattrs(&self) -> (r: bool)
        ensures
            r == self.preserves_xattrs(),
    {
        self.xattrs || self.preserve_xattr
    }

    /// Check if ACLs should be preserved
    pub fn should_preserve_acls(&self) -> (r: bool)
        ensures
            r == self.preserves_acls(),
    {
        self.acls || self.preserve_acl
    }

    /// Check if symlinks should be copied as symlinks
    pub fn should_preserve_links(&self) -> (r: bool)
        ensures
            r == self.copies_links(),
    {
        self.links || self.archive
    }

    /// Check if hard links should be preserved
    pub fn should_preserve_hard_links(&self) -> (r: bool)
        ensures
            r == self.hard_links,
    {
        self.hard_links
    }

    /// Check if device files should be preserved
    pub fn should_preserve_devices(&self) -> (r: bool)
        ensures
            r == self.preserves_devices(),
    {
        self.devices || self.archive
    }

    /// Check if recursive copying should be performed
    pub fn should_recurse(&self) -> (r: bool)
        ensures
            r == self.recurses(),
    {
        self.recursive || self.archive
    }

    /// An `Args` with default values for the given source and destination
    /// (for testing)
    pub fn test_default(source: String, destination: String) -> (a: Args)
        ensures
            a.source == Some(source),
            a.destination == Some(destination),
            a.source_positional is None,
            a.dest_positional is None,
            a.queue_depth == 4096,
            a.max_files_in_flight == 1024,
            a.cpu_count == 1,
            a.buffer_size_kb == 64,
            a.copy_method == CopyMethod::Auto,
            !a.archive && !a.recursive && !a.links && !a.perms && !a.times && !a.group && !a.owner,
            !a.devices && !a.xattrs && !a.acls && !a.hard_links && !a.atimes && !a.crtimes,
            !a.preserve_xattr && !a.preserve_acl && !a.dry_run && !a.progress && a.verbose == 0,
            !a.quiet && !a.no_adaptive_concurrency && !a.server && !a.daemon && !a.pipe,
            a.remote_shell@ == "ssh"@,
            a.pipe_role is None,
    {
        Args {
            source_positional: None,
            dest_positional: None,
            source: Some(source),
            destination: Some(destination),
            queue_depth: 4096,
            max_files_in_flight: 1024,
            cpu_count: 1,
            buffer_size_kb: 64,
            copy_method: CopyMethod::Auto,
            archive: false,
            recursive: false,
            links: false,
            perms: false,
            times: false,
            group: false,
            owner: false,
            devices: false,
            xattrs: false,
            acls: false,
            hard_links: false,
            atimes: false,
            crtimes: false,
            preserve_xattr: false,
            preserve_acl: false,
            dry_run: false,
            progress: false,
            verbose: 0,
            quiet: false,
            no_adaptive_concurrency: false,
            server: false,
            remote_shell: String::from_str("ssh"),
            daemon: false,
            pipe: false,
            pipe_role: None,
        }
    }
}

/// Each preservation flag turns on what it names, whatever else is given:
/// `-p` permissions, `-t` times, `-o` the owner, `-g` the group (either of
/// them ownership), `-l` links, `-D` devices, `-r` recursion, `-X`
/// extended attributes and `-A` ACLs. Without `-a`, a flag that is not
/// given (nor `-A` for permissions) leaves its preservation off.
pub proof fn lemma_each_flag_turns_on_its_own(args: Args)
    ensures
        args.perms ==> args.preserves_permissions(),
        args.times ==> args.preserves_times(),
        args.owner ==> args.preserves_owner() && args.preserves_ownership(),
        args.group ==> args.preserves_group() && args.preserves_ownership(),
        args.links ==> args.copies_links(),
        args.devices ==> args.preserves_devices(),
        args.recursive ==> args.recurses(),
        args.xattrs ==> args.preserves_xattrs(),
        args.acls ==> args.preserves_acls(),
        !args.archive ==> (args.preserves_permissions() ==> args.perms || args.acls),
        !args.archive ==> (args.preserves_times() ==> args.times),
        !args.archive ==> (args.preserves_owner() ==> args.owner),
        !args.archive ==> (args.preserves_group() ==> args.group),
        !args.archive ==> (args.copies_links() ==> args.links),
        !args.archive ==> (args.preserves_devices() ==> args.devices),
        !args.archive ==> (args.recurses() ==> args.recursive),
{
}

/// Whether a command line's end is named and remote.
pub open spec fn remote_end(end: Option<LocationView>) -> bool {
    match end {
        Some(l) => l is Remote,
        None => false,
    }
}

/// Remote ends: a transfer whose two ends are named and exactly one of
/// them is remote (a push to or a pull from a host) runs only the common
/// checks, and "remote to remote" is refused exactly when both ends are
/// remote, outside pipe mode.
pub proof fn lemma_remote_ends(args: Args, source_kind: PathKind, cpus: usize)
    ensures
        (!args.pipe && source_spec(&args) is Some && destination_spec(&args) is Some && remote_end(source_spec(&args))
            != remote_end(destination_spec(&args))) ==> validate_spec(&args, source_kind, cpus) == common_check(
            &args,
            cpus,
        ),
        (validate_spec(&args, source_kind, cpus) == Err::<(), ArgsError>(ArgsError::RemoteToRemote)) <==> (!args.pipe
            && remote_end(source_spec(&args)) && remote_end(destination_spec(&args))),
{
    if !args.pipe && source_spec(&args) is Some && destination_spec(&args) is Some {
        if !remote_end(source_spec(&args)) && !remote_end(destination_spec(&args)) {
            assert(validate_spec(&args, source_kind, cpus) != Err::<(), ArgsError>(ArgsError::RemoteToRemote));
        }
    }
}

/// Archive mode is `-rlptgoD`: it turns on recursion, symbolic links,
/// permissions, times, group, owner and devices. Extended attributes, ACLs
/// and hard links follow their own flags only, and `-A` preserves
/// permissions as well.
pub proof fn lemma_archive_is_rlptgod(args: Args)
    ensures
        args.archive ==> args.recurses() && args.copies_links() && args.preserves_permissions()
            && args.preserves_times() && args.preserves_group() && args.preserves_owner()
            && args.preserves_ownership() && args.preserves_devices(),
        args.preserves_xattrs() == (args.xattrs || args.preserve_xattr),
        args.preserves_acls() == (args.acls || args.preserve_acl),
        args.acls ==> args.preserves_permissions(),
{
}

} // verus!
