//! arsync: high-performance local file copying in the style of rsync.
//!
//! This library holds the verified core of arsync: the rsync wire-format
//! codecs (varints, rolling checksums, multiplexed framing, file-list
//! entries) and handshake rules, command-line validation, hardlink tracking
//! and the statistics kept while copying, the bookkeeping of the copy loop,
//! adaptive concurrency, translations of user-facing messages, and the error
//! types of the extended filesystem operations.

pub mod protocol;
pub mod cli;
pub mod directory;
pub mod error;
pub mod decimal;
pub mod fs_extended;
pub mod text;
pub mod i18n;
pub mod adaptive_concurrency;
pub mod io_uring;
pub mod progress;
pub mod copy;
pub mod integration;
pub mod sync;
pub mod ban_apis;
pub mod liburing_sys;
pub mod io_uring_extended;
