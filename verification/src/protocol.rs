//! rsync wire protocol building blocks.

pub mod checksum;
pub mod handshake;
pub mod rsync_compat;
pub mod simple_list;
pub mod transport;
pub mod varint;
