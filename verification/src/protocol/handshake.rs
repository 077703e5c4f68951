//! rsync protocol handshake: versions, capability flags and checksum seeds.
//!
//! The handshake establishes the protocol version both sides speak (the
//! minimum of the two), the capabilities both sides support (the
//! intersection of their flags) and, optionally, a checksum seed.

use rand::Rng;
use vstd::prelude::*;
use vstd::string::*;
use crate::decimal::{decimal, push_decimal};

verus! {

/// Current protocol version supported by arsync (rsync 3.2+)
pub const PROTOCOL_VERSION: u8 = 31;

/// Minimum protocol version we can negotiate with (multiplexed I/O)
pub const MIN_PROTOCOL_VERSION: u8 = 27;

/// Maximum protocol version we understand
pub const MAX_PROTOCOL_VERSION: u8 = 40;

/// File uses checksums (weak + strong) for delta algorithm
pub const XMIT_CHECKSUMS: u32 = 1 << 0;

/// Hard links are preserved
pub const XMIT_HARDLINKS: u32 = 1 << 1;

/// Symbolic links are preserved
pub const XMIT_SYMLINKS: u32 = 1 << 2;

/// Device files and special files are preserved
pub const XMIT_DEVICES: u32 = 1 << 3;

/// Extended attributes are preserved
pub const XMIT_XATTRS: u32 = 1 << 4;

/// POSIX ACLs are preserved
pub const XMIT_ACLS: u32 = 1 << 5;

/// Sparse file optimization (holes not transferred)
pub const XMIT_SPARSE: u32 = 1 << 6;

/// Use random seed for checksums (security)
pub const XMIT_CHECKSUM_SEED: u32 = 1 << 7;

/// File permissions are preserved
pub const XMIT_PROTECTION: u32 = 1 << 8;

/// File timestamps are preserved
pub const XMIT_TIMES: u32 = 1 << 9;

/// The message given when the other side speaks too old a protocol.
pub open spec fn version_too_old_text(remote: u8) -> Seq<char> {
    "Remote protocol version "@ + decimal(remote as nat) + " too old (need at least "@ + decimal(
        MIN_PROTOCOL_VERSION as nat,
    ) + ")"@
}

/// Accept the version the other side announced: at least
/// `MIN_PROTOCOL_VERSION`, or the handshake fails.
pub fn accept_remote_version(remote: u8) -> (r: Result<u8, String>)
    ensures
        remote >= MIN_PROTOCOL_VERSION ==> r == Ok::<u8, String>(remote),
        remote < MIN_PROTOCOL_VERSION ==> (r matches Err(m) && m@ == version_too_old_text(remote)),
{
    if remote < MIN_PROTOCOL_VERSION {
        let mut m = String::from_str("Remote protocol version ");
        push_decimal(&mut m, remote as u64);
        m.append(" too old (need at least ");
        push_decimal(&mut m, MIN_PROTOCOL_VERSION as u64);
        m.append(")");
        Err(m)
    } else {
        Ok(remote)
    }
}

/// Role in the protocol handshake
#[derive(Debug, Clone, Copy, PartialEq, Eq, Structural)]
pub enum Role {
    /// This side is sending files
    Sender,
    /// This side is receiving files
    Receiver,
}

impl Role {
    /// Check if this is the sender role
    pub fn is_sender(&self) -> (r: bool)
        ensures
            r == (*self is Sender),
    {
        matches!(self, Role::Sender)
    }

    /// Check if this is the receiver role
    pub fn is_receiver(&self) -> (r: bool)
        ensures
            r == (*self is Receiver),
    {
        matches!(self, Role::Receiver)
    }

    /// Get the opposite role
    pub fn opposite(&self) -> (r: Role)
        ensures
            r == (if *self is Sender { Role::Receiver } else { Role::Sender }),
    {
        match self {
            Role::Sender => Role::Receiver,
            Role::Receiver => Role::Sender,
        }
    }
}

/// Taking the opposite role twice gives the role back, and a role and its
/// opposite always differ.
pub proof fn lemma_role_opposite_involution(r: Role)
    ensures
        (if r is Sender { Role::Receiver } else { Role::Sender }) != r,
        (if (if r is Sender { Role::Receiver } else { Role::Sender }) is Sender {
            Role::Receiver
        } else {
            Role::Sender
        }) == r,
{
}

/// The little-endian reading of four bytes.
pub open spec fn le_u32(b: Seq<u8>) -> u32 {
    (b[0] as int + 256 * b[1] as int + 65536 * b[2] as int + 16777216 * b[3] as int) as u32
}

/// Reads four bytes as a little-endian number.
fn u32_from_le_bytes(bytes: [u8; 4]) -> (r: u32)
    ensures
        r == le_u32(bytes@),
{
    let b0 = bytes[0];
    let b1 = bytes[1];
    let b2 = bytes[2];
    let b3 = bytes[3];
    let r = (b0 as u32) | ((b1 as u32) << 8u32) | ((b2 as u32) << 16u32) | ((b3 as u32) << 24u32);
    assert(r == b0 as int + 256 * b1 as int + 65536 * b2 as int + 16777216 * b3 as int) by (bit_vector)
        requires
            r == (b0 as u32) | ((b1 as u32) << 8u32) | ((b2 as u32) << 16u32) | ((b3 as u32) << 24u32),
    ;
    r
}

/// Writes a number as four little-endian bytes.
fn u32_to_le_bytes(x: u32) -> (bytes: [u8; 4])
    ensures
        le_u32(bytes@) == x,
{
    let b0 = (x & 0xff) as u8;
    let b1 = ((x >> 8u32) & 0xff) as u8;
    let b2 = ((x >> 16u32) & 0xff) as u8;
    let b3 = ((x >> 24u32) & 0xff) as u8;
    assert(x == b0 as int + 256 * b1 as int + 65536 * b2 as int + 16777216 * b3 as int) by (bit_vector)
        requires
            b0 == (x & 0xff) as u8,
            b1 == ((x >> 8u32) & 0xff) as u8,
            b2 == ((x >> 16u32) & 0xff) as u8,
            b3 == ((x >> 24u32) & 0xff) as u8,
    ;
    let bytes = [b0, b1, b2, b3];
    assert(bytes@ =~= seq![b0, b1, b2, b3]);
    bytes
}

/// Random seed for checksum algorithms, sent as 4 little-endian bytes.
#[derive(Debug, Clone, Copy, PartialEq, Eq, Structural)]
pub struct ChecksumSeed {
    /// The random seed value
    pub seed: u32,
}

/// `rand::thread_rng().gen_range(low..=high)`: a random 32-bit value from
/// `low` to `high`, both included, as rand documents it. Which value comes
/// out is chance. It panics on an empty range, which `requires` leaves out.
#[verifier::external_body]
fn random_u32_in(low: u32, high: u32) -> (r: u32)
    requires
        low <= high,
    ensures
        low <= r <= high,
{
    rand::thread_rng().gen_range(low..=high)
}

impl ChecksumSeed {
    /// Generate a new random checksum seed. The seed is never 0, which
    /// marks a seed as uninitialized; any other 32-bit value may come out.
    pub fn generate() -> (s: Self)
        ensures
            s.seed != 0,
    {
        ChecksumSeed { seed: random_u32_in(1, u32::MAX) }
    }

    /// Create a seed from raw bytes (little-endian)
    pub fn from_bytes(bytes: [u8; 4]) -> (s: Self)
        ensures
            s.seed == le_u32(bytes@),
    {
        ChecksumSeed { seed: u32_from_le_bytes(bytes) }
    }

    /// Convert seed to bytes (little-endian)
    pub fn to_bytes(&self) -> (bytes: [u8; 4])
        ensures
            le_u32(bytes@) == self.seed,
    {
        u32_to_le_bytes(self.seed)
    }

    /// Check if the seed is zero (uninitialized)
    pub fn is_zero(&self) -> (r: bool)
        ensures
            r == (self.seed == 0),
    {
        self.seed == 0
    }
}

/// The four wire bytes of a seed are determined by the seed: writing back
/// a seed read from four bytes gives those bytes again. (Reading back a
/// written seed gives the seed: `from_bytes` reads `le_u32` of what
/// `to_bytes` wrote.)
pub proof fn lemma_le_u32_injective(x: Seq<u8>, y: Seq<u8>)
    requires
        x.len() == 4,
        y.len() == 4,
        le_u32(x) == le_u32(y),
    ensures
        x == y,
{
    let (x0, x1, x2, x3) = (x[0] as int, x[1] as int, x[2] as int, x[3] as int);
    let (y0, y1, y2, y3) = (y[0] as int, y[1] as int, y[2] as int, y[3] as int);
    assert(x0 == y0 && x1 == y1 && x2 == y2 && x3 == y3) by (nonlinear_arith)
        requires
            0 <= x0 < 256, 0 <= x1 < 256, 0 <= x2 < 256, 0 <= x3 < 256,
            0 <= y0 < 256, 0 <= y1 < 256, 0 <= y2 < 256, 0 <= y3 < 256,
            x0 + 256 * x1 + 65536 * x2 + 16777216 * x3 == y0 + 256 * y1 + 65536 * y2 + 16777216 * y3,
    ;
    assert(x =~= y);
}

/// Negotiated protocol capabilities: a version and a set of feature flags.
#[derive(Debug, Clone)]
pub struct ProtocolCapabilities {
    /// Negotiated protocol version (minimum of both sides)
    pub version: u8,
    /// Capability flags (intersection of both sides)
    pub flags: u32,
    /// Optional checksum seed (if `XMIT_CHECKSUM_SEED` is set)
    pub checksum_seed: Option<u32>,
}

impl ProtocolCapabilities {
    /// Create new capabilities with no flags
    pub fn new(version: u8) -> (c: Self)
        ensures
            c.version == version,
            c.flags == 0,
            c.checksum_seed is None,
    {
        ProtocolCapabilities { version, flags: 0, checksum_seed: None }
    }

    /// Check if checksums are supported
    pub fn supports_checksums(&self) -> (r: bool)
        ensures
            r == (self.flags & XMIT_CHECKSUMS != 0),
    {
        self.flags & XMIT_CHECKSUMS != 0
    }

    /// Check if hard links are supported
    pub fn supports_hardlinks(&self) -> (r: bool)
        ensures
            r == (self.flags & XMIT_HARDLINKS != 0),
    {
        self.flags & XMIT_HARDLINKS != 0
    }

    /// Check if symbolic links are supported
    pub fn supports_symlinks(&self) -> (r: bool)
        ensures
            r == (self.flags & XMIT_SYMLINKS != 0),
    {
        self.flags & XMIT_SYMLINKS != 0
    }

    /// Check if device files are supported
    pub fn supports_devices(&self) -> (r: bool)
        ensures
            r == (self.flags & XMIT_DEVICES != 0),
    {
        self.flags & XMIT_DEVICES != 0
    }

    /// Check if extended attributes are supported
    pub fn supports_xattrs(&self) -> (r: bool)
        ensures
            r == (self.flags & XMIT_XATTRS != 0),
    {
        self.flags & XMIT_XATTRS != 0
    }

    /// Check if POSIX ACLs are supported
    pub fn supports_acls(&self) -> (r: bool)
        ensures
            r == (self.flags & XMIT_ACLS != 0),
    {
        self.flags & XMIT_ACLS != 0
    }

    /// Check if sparse file optimization is supported
    pub fn supports_sparse(&self) -> (r: bool)
        ensures
            r == (self.flags & XMIT_SPARSE != 0),
    {
        self.flags & XMIT_SPARSE != 0
    }

    /// Check if checksum seed is supported
    pub fn supports_checksum_seed(&self) -> (r: bool)
        ensures
            r == (self.flags & XMIT_CHECKSUM_SEED != 0),
    {
        self.flags & XMIT_CHECKSUM_SEED != 0
    }

    /// Check if file permissions are supported
    pub fn supports_protection(&self) -> (r: bool)
        ensures
            r == (self.flags & XMIT_PROTECTION != 0),
    {
        self.flags & XMIT_PROTECTION != 0
    }

    /// Check if timestamps are supported
    pub fn supports_times(&self) -> (r: bool)
        ensures
            r == (self.flags & XMIT_TIMES != 0),
    {
        self.flags & XMIT_TIMES != 0
    }

    /// Negotiate capabilities between client and server: the minimum of
    /// the versions and the intersection (bitwise AND) of the flags. The
    /// seed is left for the seed exchange.
    pub fn negotiate(client: &Self, server: &Self) -> (c: Self)
        ensures
            c.version == (if client.version <= server.version { client.version } else { server.version }),
            c.flags == client.flags & server.flags,
            c.checksum_seed is None,
    {
        let version = if client.version <= server.version { client.version } else { server.version };
        ProtocolCapabilities { version, flags: client.flags & server.flags, checksum_seed: None }
    }
}

/// Negotiation keeps exactly the capabilities both sides support, and a
/// version neither side exceeds; it does not depend on which side is the
/// client.
pub proof fn lemma_negotiate_intersection(client_flags: u32, server_flags: u32, bit: u32)
    requires
        bit < 32,
    ensures
        ((client_flags & server_flags) & (1u32 << bit) != 0) == ((client_flags & (1u32 << bit) != 0)
            && (server_flags & (1u32 << bit) != 0)),
        client_flags & server_flags == server_flags & client_flags,
{
    assert(((client_flags & server_flags) & (1u32 << bit) != 0) == ((client_flags & (1u32 << bit) != 0)
        && (server_flags & (1u32 << bit) != 0))) by (bit_vector)
        requires
            bit < 32,
    ;
    assert(client_flags & server_flags == server_flags & client_flags) by (bit_vector);
}

/// State machine for protocol handshake
#[derive(Debug, Clone)]
pub enum HandshakeState {
    /// Initial state - handshake not started
    Initial,
    /// Sent our protocol version to remote
    VersionSent {
        /// Our protocol version
        our_version: u8,
    },
    /// Received remote protocol version
    VersionReceived {
        /// Our protocol version
        our_version: u8,
        /// Remote protocol version
        remote_version: u8,
    },
    /// Negotiated effective protocol version
    VersionNegotiated {
        /// Effective protocol version (minimum of both)
        protocol_version: u8,
    },
    /// Sent our capability flags to remote
    FlagsSent {
        /// Effective protocol version
        protocol_version: u8,
        /// Our capability flags
        our_flags: u32,
    },
    /// Received remote capability flags
    FlagsReceived {
        /// Effective protocol version
        protocol_version: u8,
        /// Our capability flags
        our_flags: u32,
        /// Remote capability flags
        remote_flags: u32,
    },
    /// Negotiated effective capabilities
    CapabilitiesNegotiated {
        /// Negotiated capabilities
        capabilities: ProtocolCapabilities,
    },
    /// Exchanging checksum seeds (optional phase)
    SeedExchange {
        /// Capabilities with seed exchange in progress
        capabilities: ProtocolCapabilities,
    },
    /// Handshake complete - ready for file transfer
    Complete {
        /// Final negotiated capabilities
        capabilities: ProtocolCapabilities,
        /// Checksum seed (if negotiated)
        seed: Option<ChecksumSeed>,
    },
}

impl HandshakeState {
    /// Check if handshake is complete
    pub fn is_complete(&self) -> (r: bool)
        ensures
            r == (*self is Complete),
    {
        matches!(self, HandshakeState::Complete { .. })
    }

    /// Get capabilities if handshake is complete
    pub fn get_capabilities(&self) -> (r: Option<&ProtocolCapabilities>)
        ensures
            match *self {
                HandshakeState::Complete { capabilities, .. } => r == Some(&capabilities),
                _ => r is None,
            },
    {
        match self {
            HandshakeState::Complete { capabilities, .. } => Some(capabilities),
            _ => None,
        }
    }

    /// Get checksum seed if handshake is complete and seed was negotiated
    pub fn get_seed(&self) -> (r: Option<ChecksumSeed>)
        ensures
            match *self {
                HandshakeState::Complete { seed, .. } => r == seed,
                _ => r is None,
            },
    {
        match self {
            HandshakeState::Complete { seed, .. } => *seed,
            _ => None,
        }
    }
}

} // verus!
