//! Extended filesystem operations: their error type, advice and
//! allocation modes, and the plain values they exchange with the kernel.

pub mod copy;
pub mod error;
pub mod fadvise;
pub mod fallocate;
pub mod metadata;
pub mod statx;
