//! rsync wire protocol compatibility: multiplexed message framing and
//! file-list entries.
//!
//! rsync multiplexes its stream into tagged messages: one tag byte, a
//! 24-bit little-endian length, then the payload. File-list entries travel
//! as `FList` messages whose payload is a flags byte followed by varint
//! fields.

use vstd::prelude::*;
use vstd::utf8::*;
use crate::protocol::varint::{decode_varint_sync, encode_varint_into, varint_bytes, varint_parse, lemma_varint_roundtrip, lemma_varint_parse_len, VarintError, VarintParse};

verus! {

broadcast use {encode_utf8_valid_utf8, encode_utf8_decode_utf8, decode_utf8_encode_utf8};

/// Message tags (rsync protocol, io.c): the wire byte is 7 (`MPLEX_BASE`)
/// plus an offset.
#[derive(Debug, Clone, Copy, PartialEq, Eq, Structural)]
pub enum MessageTag {
    /// Regular data
    Data,
    /// Transfer error
    ErrorXfer,
    /// Info message
    Info,
    /// Error message
    Error,
    /// Warning
    Warning,
    /// Socket error
    ErrorSocket,
    /// Log message
    Log,
    /// Client message
    Client,
    /// Redo request
    Redo,
    /// File list data
    FList,
    /// Filename
    FName,
    /// I/O error
    IoError,
    /// Success
    Success,
    /// Nothing to send
    NoSend,
}

/// The wire byte of each tag.
pub open spec fn tag_byte(tag: MessageTag) -> u8 {
    match tag {
        MessageTag::Data => 7,
        MessageTag::ErrorXfer => 8,
        MessageTag::Info => 9,
        MessageTag::Error => 10,
        MessageTag::Warning => 11,
        MessageTag::ErrorSocket => 12,
        MessageTag::Log => 13,
        MessageTag::Client => 14,
        MessageTag::Redo => 16,
        MessageTag::FList => 27,
        MessageTag::FName => 28,
        MessageTag::IoError => 29,
        MessageTag::Success => 107,
        MessageTag::NoSend => 108,
    }
}

impl MessageTag {
    /// The tag's wire byte.
    pub fn as_u8(self) -> (b: u8)
        ensures
            b == tag_byte(self),
    {
        match self {
            MessageTag::Data => 7,
            MessageTag::ErrorXfer => 8,
            MessageTag::Info => 9,
            MessageTag::Error => 10,
            MessageTag::Warning => 11,
            MessageTag::ErrorSocket => 12,
            MessageTag::Log => 13,
            MessageTag::Client => 14,
            MessageTag::Redo => 16,
            MessageTag::FList => 27,
            MessageTag::FName => 28,
            MessageTag::IoError => 29,
            MessageTag::Success => 107,
            MessageTag::NoSend => 108,
        }
    }

    /// The tag a wire byte stands for, if any.
    pub fn from_u8(tag: u8) -> (r: Option<MessageTag>)
        ensures
            r matches Some(t) ==> tag_byte(t) == tag,
            r is None ==> forall|t: MessageTag| tag_byte(t) != tag,
    {
        match tag {
            7 => Some(MessageTag::Data),
            8 => Some(MessageTag::ErrorXfer),
            9 => Some(MessageTag::Info),
            10 => Some(MessageTag::Error),
            11 => Some(MessageTag::Warning),
            12 => Some(MessageTag::ErrorSocket),
            13 => Some(MessageTag::Log),
            14 => Some(MessageTag::Client),
            16 => Some(MessageTag::Redo),
            27 => Some(MessageTag::FList),
            28 => Some(MessageTag::FName),
            29 => Some(MessageTag::IoError),
            107 => Some(MessageTag::Success),
            108 => Some(MessageTag::NoSend),
            _ => None,
        }
    }
}

/// Distinct tags have distinct wire bytes, so a tag read back from its
/// byte is the tag that was written.
pub proof fn lemma_tag_byte_injective(t1: MessageTag, t2: MessageTag)
    ensures
        tag_byte(t1) == tag_byte(t2) ==> t1 == t2,
{
}

/// The number of rsync's `MSG_*` code for each tag (io.h): `MSG_DATA` 0,
/// `MSG_ERROR_XFER` 1, `MSG_INFO` 2, `MSG_ERROR` 3, `MSG_WARNING` 4,
/// `MSG_ERROR_SOCKET` 5, `MSG_LOG` 6, `MSG_CLIENT` 7, `MSG_REDO` 9,
/// `MSG_FLIST` 20, `MSG_FNAME` 21, `MSG_IO_ERROR` 22, `MSG_SUCCESS` 100,
/// `MSG_NOSEND` 101.
pub open spec fn rsync_message_code(tag: MessageTag) -> nat {
    match tag {
        MessageTag::Data => 0,
        MessageTag::ErrorXfer => 1,
        MessageTag::Info => 2,
        MessageTag::Error => 3,
        MessageTag::Warning => 4,
        MessageTag::ErrorSocket => 5,
        MessageTag::Log => 6,
        MessageTag::Client => 7,
        MessageTag::Redo => 9,
        MessageTag::FList => 20,
        MessageTag::FName => 21,
        MessageTag::IoError => 22,
        MessageTag::Success => 100,
        MessageTag::NoSend => 101,
    }
}

/// Every tag's wire byte is `MPLEX_BASE` (7) plus rsync's message code for
/// it, so the file-list tag travels as 27 and the file-name tag as 28; and
/// a byte that is 7 plus no message code names no tag (reading it is an
/// unknown-tag error).
pub proof fn lemma_tag_byte_is_base_plus_code(b: u8)
    ensures
        forall|tag: MessageTag| #[trigger] tag_byte(tag) == 7 + rsync_message_code(tag),
        (forall|t: MessageTag| b != 7 + rsync_message_code(t)) ==> (forall|t: MessageTag| #[trigger] tag_byte(t) != b),
{
    assert forall|tag: MessageTag| #[trigger] tag_byte(tag) == 7 + rsync_message_code(tag) by {}
    if forall|t: MessageTag| b != 7 + rsync_message_code(t) {
        assert forall|t: MessageTag| #[trigger] tag_byte(t) != b by {
            assert(b != 7 + rsync_message_code(t));
        }
    }
}

/// The wire bytes of all tags, as rsync's peers send them.
pub proof fn lemma_tag_byte_table()
    ensures
        tag_byte(MessageTag::Data) == 7,
        tag_byte(MessageTag::ErrorXfer) == 8,
        tag_byte(MessageTag::Info) == 9,
        tag_byte(MessageTag::Error) == 10,
        tag_byte(MessageTag::Warning) == 11,
        tag_byte(MessageTag::ErrorSocket) == 12,
        tag_byte(MessageTag::Log) == 13,
        tag_byte(MessageTag::Client) == 14,
        tag_byte(MessageTag::Redo) == 16,
        tag_byte(MessageTag::FList) == 27,
        tag_byte(MessageTag::FName) == 28,
        tag_byte(MessageTag::IoError) == 29,
        tag_byte(MessageTag::Success) == 107,
        tag_byte(MessageTag::NoSend) == 108,
{
}

/// An empty frame a peer sends, the tag byte 7 plus a message code and a
/// zero length, reads as that code's tag with no payload and four bytes
/// consumed; e.g. `[27, 0, 0, 0]`, the end of a file list, is an empty
/// `FList` message.
pub proof fn lemma_empty_frame_of_code(tag: MessageTag)
    ensures
        mplex_parse(seq![(7 + rsync_message_code(tag)) as u8, 0u8, 0u8, 0u8]) == Ok::<
            Option<(MessageTag, Seq<u8>, nat)>,
            MplexError,
        >(Some((tag, Seq::<u8>::empty(), 4))),
{
    let s = seq![(7 + rsync_message_code(tag)) as u8, 0u8, 0u8, 0u8];
    assert(tag_byte(tag) == s[0]);
    let t = choose|t: MessageTag| tag_byte(t) == s[0];
    lemma_tag_byte_injective(tag, t);
    assert(s.subrange(4, 4) =~= Seq::<u8>::empty());
}

/// rsync multiplexed message
#[derive(Debug)]
pub struct MultiplexMessage {
    /// The message tag
    pub tag: MessageTag,
    /// The payload
    pub data: Vec<u8>,
}

/// Errors of the multiplexed framing.
#[derive(Debug, Clone, Copy, PartialEq, Eq, Structural)]
pub enum MplexError {
    /// A tag byte that names no message tag.
    UnknownTag(u8),
    /// A payload longer than the 24-bit length field can carry.
    MessageTooLarge(usize),
    /// A message with another tag than the one expected.
    UnexpectedTag {
        /// The tag that was expected
        expected: MessageTag,
        /// The tag that came
        got: MessageTag,
    },
}

/// The largest payload a frame can carry.
pub const MAX_FRAME_PAYLOAD: usize = 0xFFFFFF;

/// The four header bytes and the payload of a frame.
pub open spec fn mplex_frame(tag: MessageTag, data: Seq<u8>) -> Seq<u8> {
    let n = data.len();
    seq![tag_byte(tag), (n % 256) as u8, ((n / 256) % 256) as u8, ((n / 65536) % 256) as u8] + data
}

/// Append `bytes` to `buffer`.
fn push_all(buffer: &mut Vec<u8>, bytes: &[u8])
    ensures
        final(buffer)@ == old(buffer)@ + bytes@,
{
    let mut i: usize = 0;
    while i < bytes.len()
        invariant
            i <= bytes@.len(),
            buffer@ == old(buffer)@ + bytes@.take(i as int),
        decreases bytes.len() - i,
    {
        assert(bytes@.take(i + 1) =~= bytes@.take(i as int).push(bytes@[i as int]));
        buffer.push(bytes[i]);
        i = i + 1;
    }
    assert(bytes@.take(bytes@.len() as int) =~= bytes@);
}

/// Frame a message: tag byte, 3-byte little-endian length, payload.
/// Payloads over 16 MiB - 1 bytes do not fit the length field.
pub fn encode_mplex_frame(tag: MessageTag, data: &[u8]) -> (r: Result<Vec<u8>, MplexError>)
    ensures
        data@.len() > MAX_FRAME_PAYLOAD ==> r == Err::<Vec<u8>, MplexError>(MplexError::MessageTooLarge(data@.len() as usize)),
        data@.len() <= MAX_FRAME_PAYLOAD ==> (r matches Ok(frame) && frame@ == mplex_frame(tag, data@)),
{
    let length = data.len();
    if length > MAX_FRAME_PAYLOAD {
        return Err(MplexError::MessageTooLarge(length));
    }
    let len32 = length as u32;
    let mut frame = Vec::new();
    frame.push(tag.as_u8());
    frame.push((len32 & 0xFF) as u8);
    frame.push(((len32 >> 8) & 0xFF) as u8);
    frame.push(((len32 >> 16) & 0xFF) as u8);
    assert((len32 & 0xFF) as u8 == (len32 % 256) as u8
        && ((len32 >> 8) & 0xFF) as u8 == ((len32 / 256) % 256) as u8
        && ((len32 >> 16) & 0xFF) as u8 == ((len32 / 65536) % 256) as u8) by (bit_vector);
    push_all(&mut frame, data);
    assert(frame@ =~= mplex_frame(tag, data@));
    Ok(frame)
}

/// Reading a frame from the front of `s`: `None` while the header or the
/// payload is incomplete, an error for an unknown tag byte.
pub open spec fn mplex_parse(s: Seq<u8>) -> Result<Option<(MessageTag, Seq<u8>, nat)>, MplexError> {
    if s.len() == 0 {
        Ok(None)
    } else if !(exists|t: MessageTag| tag_byte(t) == s[0]) {
        Err(MplexError::UnknownTag(s[0]))
    } else if s.len() < 4 {
        Ok(None)
    } else {
        let n = s[1] as nat + 256 * s[2] as nat + 65536 * s[3] as nat;
        if s.len() < 4 + n {
            Ok(None)
        } else {
            Ok(Some((choose|t: MessageTag| tag_byte(t) == s[0], s.subrange(4, 4 + n as int), 4 + n)))
        }
    }
}

/// Read one frame from `buf` at `pos`: the message and the position just
/// past it, `None` if more bytes are needed.
pub fn parse_mplex_frame(buf: &[u8], pos: usize) -> (r: Result<Option<(MultiplexMessage, usize)>, MplexError>)
    requires
        pos <= buf@.len(),
    ensures
        match mplex_parse(buf@.subrange(pos as int, buf@.len() as int)) {
            Err(e) => r == Err::<Option<(MultiplexMessage, usize)>, MplexError>(e),
            Ok(None) => r matches Ok(None),
            Ok(Some((tag, data, n))) => r matches Ok(Some((msg, end))) && msg.tag == tag && msg.data@ == data
                && end == pos + n,
        },
{
    let ghost s = buf@.subrange(pos as int, buf@.len() as int);
    if pos >= buf.len() {
        return Ok(None);
    }
    let tag_byte_read = buf[pos];
    let tag = match MessageTag::from_u8(tag_byte_read) {
        Some(t) => t,
        None => {
            return Err(MplexError::UnknownTag(tag_byte_read));
        },
    };
    assert(s[0] == tag_byte_read);
    if buf.len() - pos < 4 {
        return Ok(None);
    }
    let length = buf[pos + 1] as usize + 256 * (buf[pos + 2] as usize) + 65536 * (buf[pos + 3] as usize);
    if buf.len() - pos - 4 < length {
        return Ok(None);
    }
    let mut data = Vec::new();
    let start = pos + 4;
    let mut i: usize = 0;
    while i < length
        invariant
            start == pos + 4,
            start + length <= buf.len(),
            i <= length,
            data@ == buf@.subrange(start as int, start + i),
        decreases length - i,
    {
        assert(buf@.subrange(start as int, start + i + 1) =~= buf@.subrange(start as int, start + i).push(buf@[start + i]));
        data.push(buf[start + i]);
        i = i + 1;
    }
    proof {
        lemma_tag_byte_injective(tag, choose|t: MessageTag| tag_byte(t) == s[0]);
        assert(data@ =~= s.subrange(4, 4 + length as int));
    }
    Ok(Some((MultiplexMessage { tag, data }, start + length)))
}

/// Framing round trip: a frame written for any tag and any payload that
/// fits, followed by anything, reads back as that tag and payload and
/// consumes exactly the frame.
pub proof fn lemma_mplex_roundtrip(tag: MessageTag, data: Seq<u8>, rest: Seq<u8>)
    requires
        data.len() <= MAX_FRAME_PAYLOAD,
    ensures
        mplex_parse(mplex_frame(tag, data) + rest) == Ok::<Option<(MessageTag, Seq<u8>, nat)>, MplexError>(
            Some((tag, data, 4 + data.len())),
        ),
{
    let s = mplex_frame(tag, data) + rest;
    let n = data.len();
    assert(s[0] == tag_byte(tag));
    assert(s[1] as nat + 256 * s[2] as nat + 65536 * s[3] as nat == n);
    let t = choose|t: MessageTag| tag_byte(t) == s[0];
    lemma_tag_byte_injective(tag, t);
    assert(s.subrange(4, 4 + n as int) =~= data);
}

// ============================================================================
// File list entries (rsync format, simplified: no delta encoding)
// ============================================================================

/// Top-level directory
pub const XMIT_TOP_DIR: u8 = 0x01;
/// Mode unchanged
pub const XMIT_SAME_MODE: u8 = 0x02;
/// Extended flags follow
pub const XMIT_EXTENDED_FLAGS: u8 = 0x04;
/// UID unchanged
pub const XMIT_SAME_UID: u8 = 0x10;
/// GID unchanged
pub const XMIT_SAME_GID: u8 = 0x20;
/// Name matches previous (hardlink)
pub const XMIT_SAME_NAME: u8 = 0x40;
/// Name > 255 bytes
pub const XMIT_LONG_NAME: u8 = 0x80;

/// File list entry in rsync protocol
#[derive(Debug, Clone)]
pub struct FileEntry {
    /// Path relative to the transfer root
    pub path: String,
    /// Size in bytes
    pub size: u64,
    /// Modification time (seconds since the epoch)
    pub mtime: i64,
    /// Mode bits, file type included
    pub mode: u32,
    /// Owner
    pub uid: u32,
    /// Group
    pub gid: u32,
    /// Whether the entry is a symbolic link
    pub is_symlink: bool,
    /// Link target, for symbolic links
    pub symlink_target: Option<String>,
}

/// The contents of a file-list entry, strings taken as characters.
pub struct FileEntryView {
    /// Path
    pub path: Seq<char>,
    /// Size in bytes
    pub size: u64,
    /// Modification time
    pub mtime: i64,
    /// Mode bits
    pub mode: u32,
    /// Owner
    pub uid: u32,
    /// Group
    pub gid: u32,
    /// Symbolic link flag
    pub is_symlink: bool,
    /// Link target
    pub symlink_target: Option<Seq<char>>,
}

impl View for FileEntry {
    type V = FileEntryView;

    open spec fn view(&self) -> FileEntryView {
        FileEntryView {
            path: self.path@,
            size: self.size,
            mtime: self.mtime,
            mode: self.mode,
            uid: self.uid,
            gid: self.gid,
            is_symlink: self.is_symlink,
            symlink_target: match self.symlink_target {
                Some(t) => Some(t@),
                None => None,
            },
        }
    }
}

/// Errors while decoding a file-list entry.
#[derive(Debug, Clone, Copy, PartialEq, Eq, Structural)]
pub enum FileEntryError {
    /// The entry ended in the middle of a field.
    UnexpectedEof,
    /// A varint field held more than 64 bits.
    VarintOverflow,
    /// A path or link target that is not UTF-8.
    InvalidUtf8,
}

/// Mode bits of a symbolic link (`S_IFLNK` under the `S_IFMT` mask).
pub open spec fn is_symlink_mode(mode: u32) -> bool {
    mode & 0o170000 == 0o120000
}

/// Modification times go on the wire unsigned; negative ones become 0.
pub open spec fn mtime_on_wire(mtime: i64) -> u64 {
    if mtime < 0 { 0 } else { mtime as u64 }
}

/// The flags byte: only the long-name flag is ever set.
pub open spec fn entry_flags(path_bytes: Seq<u8>) -> u8 {
    if path_bytes.len() > 255 { XMIT_LONG_NAME } else { 0 }
}

/// The wire bytes of an entry: flags byte; path length and path bytes;
/// size, mtime, mode, uid and gid as varints; and for a symbolic link with a
/// target, the target's length and bytes.
pub open spec fn file_entry_bytes(e: FileEntryView) -> Seq<u8> {
    let pb = encode_utf8(e.path);
    let base = seq![entry_flags(pb)] + varint_bytes(pb.len()) + pb + varint_bytes(e.size as nat)
        + varint_bytes(mtime_on_wire(e.mtime) as nat) + varint_bytes(e.mode as nat)
        + varint_bytes(e.uid as nat) + varint_bytes(e.gid as nat);
    if e.is_symlink && e.symlink_target is Some {
        let tb = encode_utf8(e.symlink_target->0);
        base + varint_bytes(tb.len()) + tb
    } else {
        base
    }
}

/// The bytes of `s` from `pos` on.
pub open spec fn bytes_from(s: Seq<u8>, pos: nat) -> Seq<u8> {
    if pos <= s.len() { s.subrange(pos as int, s.len() as int) } else { Seq::<u8>::empty() }
}

/// A varint field at `pos`: its value and the position after it.
pub open spec fn varint_field(s: Seq<u8>, pos: nat) -> Result<(u64, nat), FileEntryError> {
    match varint_parse(bytes_from(s, pos)) {
        VarintParse::Complete { value, len } => Ok((value, pos + len)),
        VarintParse::Truncated => Err(FileEntryError::UnexpectedEof),
        VarintParse::Overflow => Err(FileEntryError::VarintOverflow),
    }
}

/// A UTF-8 text field of `n` bytes at `pos`: its characters and the
/// position after it.
pub open spec fn text_field(s: Seq<u8>, pos: nat, n: nat) -> Result<(Seq<char>, nat), FileEntryError> {
    if pos + n > s.len() {
        Err(FileEntryError::UnexpectedEof)
    } else if !valid_utf8(s.subrange(pos as int, (pos + n) as int)) {
        Err(FileEntryError::InvalidUtf8)
    } else {
        Ok((decode_utf8(s.subrange(pos as int, (pos + n) as int)), pos + n))
    }
}

/// The fields after the path: size, mtime, mode, uid, gid, and for a mode
/// that says symbolic link, the target.
pub open spec fn entry_tail_parse(s: Seq<u8>, path: Seq<char>, p2: nat) -> Result<FileEntryView, FileEntryError> {
    match varint_field(s, p2) {
        Err(e) => Err(e),
        Ok((size, p3)) => match varint_field(s, p3) {
            Err(e) => Err(e),
            Ok((mtime, p4)) => match varint_field(s, p4) {
                Err(e) => Err(e),
                Ok((mode, p5)) => match varint_field(s, p5) {
                    Err(e) => Err(e),
                    Ok((uid, p6)) => match varint_field(s, p6) {
                        Err(e) => Err(e),
                        Ok((gid, p7)) => {
                            let m = mode as u32;
                            let view = FileEntryView {
                                path,
                                size,
                                mtime: mtime as i64,
                                mode: m,
                                uid: uid as u32,
                                gid: gid as u32,
                                is_symlink: is_symlink_mode(m),
                                symlink_target: None,
                            };
                            if is_symlink_mode(m) {
                                match varint_field(s, p7) {
                                    Err(e) => Err(e),
                                    Ok((tlen, p8)) => match text_field(s, p8, (tlen as usize) as nat) {
                                        Err(e) => Err(e),
                                        Ok((target, _)) => Ok(FileEntryView { symlink_target: Some(target), ..view }),
                                    },
                                }
                            } else {
                                Ok(view)
                            }
                        },
                    },
                },
            },
        },
    }
}

/// Decoding an entry: the flags byte (ignored), the path, then the rest.
pub open spec fn file_entry_parse(s: Seq<u8>) -> Result<FileEntryView, FileEntryError> {
    if s.len() == 0 {
        Err(FileEntryError::UnexpectedEof)
    } else {
        match varint_field(s, 1) {
            Err(e) => Err(e),
            Ok((plen, p1)) => match text_field(s, p1, (plen as usize) as nat) {
                Err(e) => Err(e),
                Ok((path, p2)) => entry_tail_parse(s, path, p2),
            },
        }
    }
}

/// `String::from_utf8`: the bytes as a `String` when they are UTF-8. The
/// contract claims success exactly for valid UTF-8, and that the string's
/// UTF-8 encoding is the bytes given.
#[verifier::external_body]
pub(crate) fn string_from_utf8(bytes: Vec<u8>) -> (r: Option<String>)
    ensures
        r is Some == valid_utf8(bytes@),
        r matches Some(s) ==> encode_utf8(s@) == bytes@,
{
    String::from_utf8(bytes).ok()
}

fn read_varint_field(data: &[u8], pos: usize) -> (r: Result<(u64, usize), FileEntryError>)
    ensures
        match varint_field(data@, pos as nat) {
            Ok((v, p)) => r == Ok::<(u64, usize), FileEntryError>((v, p as usize)) && p <= data@.len(),
            Err(e) => r == Err::<(u64, usize), FileEntryError>(e),
        },
{
    match decode_varint_sync(data, pos) {
        Ok((v, p)) => {
            proof {
                assert(bytes_from(data@, pos as nat) == data@.subrange(pos as int, data@.len() as int));
                lemma_varint_parse_len(bytes_from(data@, pos as nat));
            }
            Ok((v, p))
        },
        Err(VarintError::UnexpectedEof) => Err(FileEntryError::UnexpectedEof),
        Err(VarintError::Overflow) => Err(FileEntryError::VarintOverflow),
    }
}

fn read_text_field(data: &[u8], pos: usize, n: usize) -> (r: Result<(String, usize), FileEntryError>)
    requires
        pos <= data@.len(),
    ensures
        match text_field(data@, pos as nat, n as nat) {
            Ok((t, p)) => r matches Ok((text, q)) && text@ == t && q == p,
            Err(e) => r matches Err(f) && f == e,
        },
{
    if data.len() - pos < n {
        return Err(FileEntryError::UnexpectedEof);
    }
    let mut bytes = Vec::new();
    let mut i: usize = 0;
    while i < n
        invariant
            pos + n <= data.len(),
            i <= n,
            bytes@ == data@.subrange(pos as int, pos + i),
        decreases n - i,
    {
        assert(data@.subrange(pos as int, pos + i + 1) =~= data@.subrange(pos as int, pos + i).push(data@[pos + i]));
        bytes.push(data[pos + i]);
        i = i + 1;
    }
    let ghost b = bytes@;
    match string_from_utf8(bytes) {
        Some(text) => {
            proof {
                encode_utf8_decode_utf8(text@);
            }
            Ok((text, pos + n))
        },
        None => Err(FileEntryError::InvalidUtf8),
    }
}

/// Decode a single file entry from its bytes.
pub fn decode_file_entry(data: &[u8]) -> (r: Result<FileEntry, FileEntryError>)
    ensures
        match file_entry_parse(data@) {
            Ok(v) => r matches Ok(e) && e@ == v,
            Err(err) => r matches Err(f) && f == err,
        },
{
    if data.len() == 0 {
        return Err(FileEntryError::UnexpectedEof);
    }
    let (path_len, p1) = match read_varint_field(data, 1) {
        Ok(x) => x,
        Err(e) => return Err(e),
    };
    let (path, p2) = match read_text_field(data, p1, path_len as usize) {
        Ok(x) => x,
        Err(e) => return Err(e),
    };
    let (size, p3) = match read_varint_field(data, p2) {
        Ok(x) => x,
        Err(e) => return Err(e),
    };
    let (mtime, p4) = match read_varint_field(data, p3) {
        Ok(x) => x,
        Err(e) => return Err(e),
    };
    let (mode, p5) = match read_varint_field(data, p4) {
        Ok(x) => x,
        Err(e) => return Err(e),
    };
    let (uid, p6) = match read_varint_field(data, p5) {
        Ok(x) => x,
        Err(e) => return Err(e),
    };
    let (gid, p7) = match read_varint_field(data, p6) {
        Ok(x) => x,
        Err(e) => return Err(e),
    };
    let mode = mode as u32;
    let is_symlink = (mode & 0o170000) == 0o120000;
    let symlink_target = if is_symlink {
        let (target_len, p8) = match read_varint_field(data, p7) {
            Ok(x) => x,
            Err(e) => return Err(e),
        };
        let (target, _) = match read_text_field(data, p8, target_len as usize) {
            Ok(x) => x,
            Err(e) => return Err(e),
        };
        Some(target)
    } else {
        None
    };
    Ok(FileEntry {
        path,
        size,
        mtime: mtime as i64,
        mode,
        uid: uid as u32,
        gid: gid as u32,
        is_symlink,
        symlink_target,
    })
}

/// Encode a single file entry in rsync wire format (simplified: absolute
/// mtime, no SAME_* flags).
pub fn encode_file_entry(file: &FileEntry) -> (entry: Vec<u8>)
    ensures
        entry@ == file_entry_bytes(file@),
{
    let mut entry = Vec::new();
    let path_bytes = file.path.as_str().as_bytes();
    let ghost pb = encode_utf8(file.path@);
    assert(path_bytes@ == pb);
    let mut flags = 0u8;
    if path_bytes.len() > 255 {
        assert(0u8 | 0x80u8 == 0x80u8) by (bit_vector);
        flags = flags | XMIT_LONG_NAME;
    }
    assert(flags == entry_flags(pb));
    entry.push(flags);
    encode_varint_into(path_bytes.len() as u64, &mut entry);
    push_all(&mut entry, path_bytes);
    encode_varint_into(file.size, &mut entry);
    let mtime_unsigned = if file.mtime < 0 { 0u64 } else { file.mtime as u64 };
    encode_varint_into(mtime_unsigned, &mut entry);
    encode_varint_into(file.mode as u64, &mut entry);
    encode_varint_into(file.uid as u64, &mut entry);
    encode_varint_into(file.gid as u64, &mut entry);
    let ghost base = entry@;
    assert(base =~= seq![entry_flags(encode_utf8(file.path@))] + varint_bytes(encode_utf8(file.path@).len())
        + encode_utf8(file.path@) + varint_bytes(file.size as nat) + varint_bytes(mtime_on_wire(file.mtime) as nat)
        + varint_bytes(file.mode as nat) + varint_bytes(file.uid as nat) + varint_bytes(file.gid as nat));
    if file.is_symlink {
        if let Some(target) = &file.symlink_target {
            let target_bytes = target.as_str().as_bytes();
            encode_varint_into(target_bytes.len() as u64, &mut entry);
            push_all(&mut entry, target_bytes);
        }
    }
    entry
}

proof fn lemma_varint_field_from(s: Seq<u8>, p: nat, v: u64, b: Seq<u8>)
    requires
        p <= s.len(),
        bytes_from(s, p) == varint_bytes(v as nat) + b,
    ensures
        varint_field(s, p) == Ok::<(u64, nat), FileEntryError>((v, p + varint_bytes(v as nat).len())),
        p + varint_bytes(v as nat).len() <= s.len(),
        bytes_from(s, p + varint_bytes(v as nat).len()) == b,
{
    lemma_varint_roundtrip(v, b);
    let n = varint_bytes(v as nat).len();
    let t = bytes_from(s, p);
    assert(t.len() == s.len() - p);
    assert(t.len() == n + b.len());
    assert forall|i: int| 0 <= i < b.len() implies bytes_from(s, p + n)[i] == b[i] by {
        assert(t[n + i] == s[p + n + i]);
        assert(t[n + i] == b[i]);
    }
    assert(bytes_from(s, p + n) =~= b);
}

proof fn lemma_text_field_from(s: Seq<u8>, p: nat, c: Seq<char>, b: Seq<u8>)
    requires
        p <= s.len(),
        bytes_from(s, p) == encode_utf8(c) + b,
    ensures
        text_field(s, p, encode_utf8(c).len()) == Ok::<(Seq<char>, nat), FileEntryError>(
            (c, p + encode_utf8(c).len()),
        ),
        p + encode_utf8(c).len() <= s.len(),
        bytes_from(s, p + encode_utf8(c).len()) == b,
{
    let n = encode_utf8(c).len();
    let t = bytes_from(s, p);
    assert(t.len() == s.len() - p);
    assert(t.len() == n + b.len());
    assert(s.subrange(p as int, (p + n) as int) =~= encode_utf8(c)) by {
        assert forall|i: int| 0 <= i < n implies s.subrange(p as int, (p + n) as int)[i] == encode_utf8(c)[i] by {
            assert(t[i] == s[p + i]);
            assert(t[i] == encode_utf8(c)[i]);
        }
    }
    assert(bytes_from(s, p + n) =~= b) by {
        assert forall|i: int| 0 <= i < b.len() implies bytes_from(s, p + n)[i] == b[i] by {
            assert(t[n + i] == s[p + n + i]);
            assert(t[n + i] == b[i]);
        }
    }
}

/// The entries that survive the trip over the wire unchanged: no negative
/// modification time, the symbolic-link flag agreeing with the mode, a
/// target exactly for links, and texts whose byte length fits a `usize`.
pub open spec fn wire_faithful(e: FileEntryView) -> bool {
    &&& e.mtime >= 0
    &&& e.is_symlink == is_symlink_mode(e.mode)
    &&& e.is_symlink == (e.symlink_target is Some)
    &&& encode_utf8(e.path).len() <= usize::MAX
    &&& e.symlink_target matches Some(t) ==> encode_utf8(t).len() <= usize::MAX
}

/// The fields after the path read back as the entry's, once the bytes
/// from the size field on are the entry's.
#[verifier::spinoff_prover]
#[verifier::rlimit(50)]
proof fn lemma_entry_tail_roundtrip(s: Seq<u8>, p2: nat, e: FileEntryView, rest: Seq<u8>)
    requires
        wire_faithful(e),
        p2 <= s.len(),
        bytes_from(s, p2) == varint_bytes(e.size as nat) + varint_bytes(mtime_on_wire(e.mtime) as nat)
            + varint_bytes(e.mode as nat) + varint_bytes(e.uid as nat) + varint_bytes(e.gid as nat)
            + entry_target_bytes(e) + rest,
    ensures
        entry_tail_parse(s, e.path, p2) == Ok::<FileEntryView, FileEntryError>(e),
{
    let mt = mtime_on_wire(e.mtime);
    let r6 = entry_target_bytes(e) + rest;
    let r5 = varint_bytes((e.gid as u64) as nat) + r6;
    let r4 = varint_bytes((e.uid as u64) as nat) + r5;
    let r3 = varint_bytes((e.mode as u64) as nat) + r4;
    let r2 = varint_bytes(mt as nat) + r3;
    assert(bytes_from(s, p2) =~= varint_bytes(e.size as nat) + r2);
    lemma_varint_field_from(s, p2, e.size, r2);
    let p3 = p2 + varint_bytes(e.size as nat).len();
    lemma_varint_field_from(s, p3, mt, r3);
    let p4 = p3 + varint_bytes(mt as nat).len();
    lemma_varint_field_from(s, p4, e.mode as u64, r4);
    let p5 = p4 + varint_bytes(e.mode as nat).len();
    lemma_varint_field_from(s, p5, e.uid as u64, r5);
    let p6 = p5 + varint_bytes(e.uid as nat).len();
    lemma_varint_field_from(s, p6, e.gid as u64, r6);
    let p7 = p6 + varint_bytes(e.gid as nat).len();
    assert((mt as i64) == e.mtime);
    if e.is_symlink {
        let t = e.symlink_target->0;
        let tb = encode_utf8(t);
        let tlen = tb.len() as u64;
        assert(r6 =~= varint_bytes(tlen as nat) + (tb + rest));
        lemma_varint_field_from(s, p7, tlen, tb + rest);
        let p8 = p7 + varint_bytes(tlen as nat).len();
        assert((tlen as usize) as nat == tb.len());
        lemma_text_field_from(s, p8, t, rest);
    }
}

/// The link target's length and bytes, for a symbolic link with a target.
pub open spec fn entry_target_bytes(e: FileEntryView) -> Seq<u8> {
    if e.is_symlink && e.symlink_target is Some {
        let tb = encode_utf8(e.symlink_target->0);
        varint_bytes(tb.len()) + tb
    } else {
        Seq::<u8>::empty()
    }
}

/// File-entry round trip: decoding the bytes of an entry (followed by
/// anything) gives the entry back, for every entry the wire format can
/// carry.
pub proof fn lemma_file_entry_roundtrip(e: FileEntryView, rest: Seq<u8>)
    requires
        wire_faithful(e),
    ensures
        file_entry_parse(file_entry_bytes(e) + rest) == Ok::<FileEntryView, FileEntryError>(e),
{
    let pb = encode_utf8(e.path);
    let plen = pb.len() as u64;
    let mt = mtime_on_wire(e.mtime);
    let r2 = varint_bytes(e.size as nat) + varint_bytes(mt as nat) + varint_bytes(e.mode as nat)
        + varint_bytes(e.uid as nat) + varint_bytes(e.gid as nat) + entry_target_bytes(e) + rest;
    let s = file_entry_bytes(e) + rest;
    assert(s =~= seq![entry_flags(pb)] + varint_bytes(plen as nat) + pb + r2);
    assert(bytes_from(s, 1) =~= varint_bytes(plen as nat) + (pb + r2));
    lemma_varint_field_from(s, 1, plen, pb + r2);
    let p1 = 1 + varint_bytes(plen as nat).len();
    assert((plen as usize) as nat == pb.len());
    lemma_text_field_from(s, p1, e.path, r2);
    lemma_entry_tail_roundtrip(s, p1 + pb.len(), e, rest);
}

// ============================================================================
// Multiplexed reading and writing
// ============================================================================

/// What reading data does with a message of each tag.
#[derive(Debug, Clone, Copy, PartialEq, Eq, Structural)]
pub enum DataDisposition {
    /// A data message: its payload is the data asked for.
    Deliver,
    /// Info and log messages: shown as debug output, reading goes on.
    Log,
    /// Warning messages: shown as warnings, reading goes on.
    Warn,
    /// Error messages: reading fails with the remote error text.
    Fail,
    /// Any other tag: skipped.
    Skip,
}

/// How reading data treats a message with this tag.
pub open spec fn data_disposition_spec(tag: MessageTag) -> DataDisposition {
    match tag {
        MessageTag::Data => DataDisposition::Deliver,
        MessageTag::Info | MessageTag::Log => DataDisposition::Log,
        MessageTag::Error | MessageTag::ErrorXfer => DataDisposition::Fail,
        MessageTag::Warning => DataDisposition::Warn,
        _ => DataDisposition::Skip,
    }
}

/// Decide what reading data does with a message of this tag.
pub fn data_disposition(tag: MessageTag) -> (d: DataDisposition)
    ensures
        d == data_disposition_spec(tag),
{
    match tag {
        MessageTag::Data => DataDisposition::Deliver,
        MessageTag::Info | MessageTag::Log => DataDisposition::Log,
        MessageTag::Error | MessageTag::ErrorXfer => DataDisposition::Fail,
        MessageTag::Warning => DataDisposition::Warn,
        _ => DataDisposition::Skip,
    }
}

/// Copy as much of a data payload as fits into `buf`; returns how many
/// bytes were copied. The rest of `buf` is left as it was.
pub fn copy_message_data(data: &[u8], buf: &mut [u8]) -> (n: usize)
    ensures
        n == (if data@.len() <= old(buf)@.len() { data@.len() } else { old(buf)@.len() }),
        final(buf)@.len() == old(buf)@.len(),
        final(buf)@.take(n as int) == data@.take(n as int),
        final(buf)@.skip(n as int) == old(buf)@.skip(n as int),
{
    let copy_len = if data.len() <= buf.len() { data.len() } else { buf.len() };
    let mut i: usize = 0;
    while i < copy_len
        invariant
            copy_len <= data@.len(),
            copy_len <= buf@.len(),
            buf@.len() == old(buf)@.len(),
            i <= copy_len,
            forall|j: int| 0 <= j < i ==> buf@[j] == data@[j],
            forall|j: int| i <= j < buf@.len() ==> buf@[j] == old(buf)@[j],
        decreases copy_len - i,
    {
        buf[i] = data[i];
        i = i + 1;
    }
    assert(buf@.take(copy_len as int) =~= data@.take(copy_len as int));
    assert(buf@.skip(copy_len as int) =~= old(buf)@.skip(copy_len as int));
    copy_len
}

/// The tag and payload length that a frame's four header bytes announce.
pub fn parse_frame_header(header: &[u8]) -> (r: Result<(MessageTag, usize), MplexError>)
    requires
        header@.len() == 4,
    ensures
        match r {
            Ok((tag, len)) => tag_byte(tag) == header@[0] && len == header@[1] as nat + 256 * header@[2] as nat
                + 65536 * header@[3] as nat,
            Err(e) => e == MplexError::UnknownTag(header@[0]) && !(exists|t: MessageTag| tag_byte(t) == header@[0]),
        },
{
    match MessageTag::from_u8(header[0]) {
        Some(tag) => {
            let len = header[1] as usize + 256 * (header[2] as usize) + 65536 * (header[3] as usize);
            Ok((tag, len))
        },
        None => Err(MplexError::UnknownTag(header[0])),
    }
}

/// Check that a message carries the expected tag and hand out its payload.
pub fn expect_tag(msg: MultiplexMessage, expected: MessageTag) -> (r: Result<Vec<u8>, MplexError>)
    ensures
        msg.tag == expected ==> (r matches Ok(d) && d@ == msg.data@),
        msg.tag != expected ==> r == Err::<Vec<u8>, MplexError>(MplexError::UnexpectedTag { expected, got: msg.tag }),
{
    if msg.tag == expected {
        Ok(msg.data)
    } else {
        Err(MplexError::UnexpectedTag { expected, got: msg.tag })
    }
}

/// One message of a run that ends with an empty message: the payload, or
/// `None` at the empty end marker.
pub fn until_empty_step(msg: MultiplexMessage, expected: MessageTag) -> (r: Result<Option<Vec<u8>>, MplexError>)
    ensures
        msg.tag != expected ==> r == Err::<Option<Vec<u8>>, MplexError>(MplexError::UnexpectedTag { expected, got: msg.tag }),
        msg.tag == expected && msg.data@.len() == 0 ==> r matches Ok(None),
        msg.tag == expected && msg.data@.len() > 0 ==> (r matches Ok(Some(d)) && d@ == msg.data@),
{
    if msg.tag != expected {
        return Err(MplexError::UnexpectedTag { expected, got: msg.tag });
    }
    if msg.data.len() == 0 {
        Ok(None)
    } else {
        Ok(Some(msg.data))
    }
}

/// Multiplexed reader with buffering: bytes that arrive from the transport
/// are fed in, and whole messages are taken out.
pub struct MultiplexReader<T> {
    transport: T,
    buffer: Vec<u8>,
    buffer_pos: usize,
}

impl<T> MultiplexReader<T> {
    #[verifier::type_invariant]
    spec fn inv(&self) -> bool {
        self.buffer_pos <= self.buffer@.len()
    }

    /// The bytes received and not yet taken out as messages.
    pub closed spec fn pending(&self) -> Seq<u8> {
        self.buffer@.subrange(self.buffer_pos as int, self.buffer@.len() as int)
    }

    /// The transport the bytes come from.
    pub closed spec fn transport_spec(&self) -> T {
        self.transport
    }

    /// A reader over `transport` with nothing buffered.
    pub fn new(transport: T) -> (r: Self)
        ensures
            r.pending() == Seq::<u8>::empty(),
            r.transport_spec() == transport,
    {
        let r = MultiplexReader { transport, buffer: Vec::new(), buffer_pos: 0 };
        assert(r.pending() =~= Seq::<u8>::empty());
        r
    }

    /// The transport the bytes come from.
    pub fn transport(&self) -> (t: &T)
        ensures
            *t == self.transport_spec(),
    {
        &self.transport
    }

    /// Buffer bytes received from the transport.
    pub fn feed(&mut self, bytes: &[u8])
        ensures
            final(self).pending() == old(self).pending() + bytes@,
            final(self).transport_spec() == old(self).transport_spec(),
    {
        proof {
            use_type_invariant(&*self);
        }
        let ghost before = self.pending();
        let mut kept = Vec::new();
        let mut i = self.buffer_pos;
        while i < self.buffer.len()
            invariant
                self.buffer_pos <= i <= self.buffer@.len(),
                kept@ == self.buffer@.subrange(self.buffer_pos as int, i as int),
            decreases self.buffer@.len() - i,
        {
            assert(self.buffer@.subrange(self.buffer_pos as int, i + 1) =~= kept@.push(self.buffer@[i as int]));
            kept.push(self.buffer[i]);
            i = i + 1;
        }
        assert(kept@ =~= before);
        push_all(&mut kept, bytes);
        self.buffer_pos = 0;
        self.buffer = kept;
        assert(self.pending() =~= before + bytes@);
    }

    /// Take the next complete message out of the buffer: `None` while more
    /// bytes are needed, an error for an unknown tag.
    pub fn next_message(&mut self) -> (r: Result<Option<MultiplexMessage>, MplexError>)
        ensures
            match mplex_parse(old(self).pending()) {
                Err(e) => r == Err::<Option<MultiplexMessage>, MplexError>(e)
                    && final(self).pending() == old(self).pending(),
                Ok(None) => r matches Ok(None) && final(self).pending() == old(self).pending(),
                Ok(Some((tag, data, n))) => r matches Ok(Some(msg)) && msg.tag == tag && msg.data@ == data
                    && final(self).pending() == old(self).pending().skip(n as int),
            },
            final(self).transport_spec() == old(self).transport_spec(),
    {
        proof {
            use_type_invariant(&*self);
        }
        let ghost before = self.pending();
        match parse_mplex_frame(self.buffer.as_slice(), self.buffer_pos) {
            Err(e) => Err(e),
            Ok(None) => Ok(None),
            Ok(Some((msg, end))) => {
                self.buffer_pos = end;
                assert(self.pending() =~= before.skip((end - old(self).buffer_pos) as int));
                Ok(Some(msg))
            },
        }
    }
}

/// Multiplexed writer: frames messages for the transport.
pub struct MultiplexWriter<T> {
    transport: T,
}

impl<T> MultiplexWriter<T> {
    /// The transport the frames go to.
    pub closed spec fn transport_spec(&self) -> T {
        self.transport
    }

    /// A writer over `transport`.
    pub fn new(transport: T) -> (w: Self)
        ensures
            w.transport_spec() == transport,
    {
        MultiplexWriter { transport }
    }

    /// The transport the frames go to.
    pub fn transport(&self) -> (t: &T)
        ensures
            *t == self.transport_spec(),
    {
        &self.transport
    }

    /// The frame of a tagged message.
    pub fn frame_message(&self, tag: MessageTag, data: &[u8]) -> (r: Result<Vec<u8>, MplexError>)
        ensures
            data@.len() > MAX_FRAME_PAYLOAD ==> r == Err::<Vec<u8>, MplexError>(MplexError::MessageTooLarge(data@.len() as usize)),
            data@.len() <= MAX_FRAME_PAYLOAD ==> (r matches Ok(frame) && frame@ == mplex_frame(tag, data@)),
    {
        encode_mplex_frame(tag, data)
    }
}

/// Errors while decoding a file list.
#[derive(Debug, Clone, Copy, PartialEq, Eq, Structural)]
pub enum FileListError {
    /// A message that is not a file-list message.
    UnexpectedTag(MessageTag),
    /// A file-list entry that does not decode.
    Entry(FileEntryError),
}

/// One message of a file list: the entry it carries, or `None` at the
/// empty end-of-list message.
pub fn file_list_step(msg: &MultiplexMessage) -> (r: Result<Option<FileEntry>, FileListError>)
    ensures
        msg.tag != MessageTag::FList ==> r == Err::<Option<FileEntry>, FileListError>(FileListError::UnexpectedTag(msg.tag)),
        msg.tag == MessageTag::FList && msg.data@.len() == 0 ==> r matches Ok(None),
        msg.tag == MessageTag::FList && msg.data@.len() > 0 ==> match file_entry_parse(msg.data@) {
            Ok(v) => r matches Ok(Some(e)) && e@ == v,
            Err(err) => r == Err::<Option<FileEntry>, FileListError>(FileListError::Entry(err)),
        },
{
    if msg.tag != MessageTag::FList {
        return Err(FileListError::UnexpectedTag(msg.tag));
    }
    if msg.data.len() == 0 {
        return Ok(None);
    }
    match decode_file_entry(msg.data.as_slice()) {
        Ok(e) => Ok(Some(e)),
        Err(err) => Err(FileListError::Entry(err)),
    }
}

// ============================================================================
// Whole file lists
// ============================================================================

/// The views of a run of entries.
pub open spec fn entry_views(files: Seq<FileEntry>) -> Seq<FileEntryView> {
    files.map_values(|f: FileEntry| f@)
}

/// The `FList` frames of the entries, in order.
pub open spec fn entry_frames(files: Seq<FileEntryView>) -> Seq<u8>
    decreases files.len(),
{
    if files.len() == 0 {
        Seq::<u8>::empty()
    } else {
        entry_frames(files.drop_last()) + mplex_frame(MessageTag::FList, file_entry_bytes(files.last()))
    }
}

/// A file list on the wire: one `FList` frame per entry, then an empty
/// `FList` frame as the end-of-list marker.
pub open spec fn file_list_stream(files: Seq<FileEntryView>) -> Seq<u8> {
    entry_frames(files) + mplex_frame(MessageTag::FList, Seq::<u8>::empty())
}

/// Every entry's bytes fit in one frame.
pub open spec fn entries_fit(files: Seq<FileEntryView>) -> bool {
    forall|i: int| 0 <= i < files.len() ==> #[trigger] file_entry_bytes(files[i]).len() <= MAX_FRAME_PAYLOAD
}

/// Encode a file list in rsync wire format: each entry as an `FList`
/// message, then the empty end-of-list message. Fails on the first entry
/// too large for a frame.
pub fn encode_file_list_frames(files: &[FileEntry]) -> (r: Result<Vec<u8>, MplexError>)
    ensures
        entries_fit(entry_views(files@)) ==> (r matches Ok(stream) && stream@ == file_list_stream(entry_views(files@))),
        r matches Err(e) ==> exists|k: int| 0 <= k < files@.len()
            && (forall|j: int| 0 <= j < k ==> #[trigger] file_entry_bytes(files@[j]@).len() <= MAX_FRAME_PAYLOAD)
            && file_entry_bytes(files@[k]@).len() > MAX_FRAME_PAYLOAD
            && e == MplexError::MessageTooLarge(file_entry_bytes(files@[k]@).len() as usize),
{
    let ghost views = entry_views(files@);
    let mut stream = Vec::new();
    let mut i: usize = 0;
    while i < files.len()
        invariant
            i <= files@.len(),
            views == entry_views(files@),
            stream@ == entry_frames(views.take(i as int)),
            forall|j: int| 0 <= j < i ==> #[trigger] file_entry_bytes(files@[j]@).len() <= MAX_FRAME_PAYLOAD,
        decreases files.len() - i,
    {
        let entry = encode_file_entry(&files[i]);
        match encode_mplex_frame(MessageTag::FList, entry.as_slice()) {
            Ok(frame) => {
                proof {
                    let t = views.take(i + 1);
                    assert(t.drop_last() =~= views.take(i as int));
                    assert(t.last() == files@[i as int]@);
                }
                push_all(&mut stream, frame.as_slice());
            },
            Err(e) => {
                proof {
                    assert(views[i as int] == files@[i as int]@);
                    assert(entry@ == file_entry_bytes(views[i as int]));
                }
                return Err(e);
            },
        }
        i = i + 1;
    }
    let end = encode_mplex_frame(MessageTag::FList, &[]);
    match end {
        Ok(frame) => {
            push_all(&mut stream, frame.as_slice());
        },
        Err(e) => {
            return Err(e);
        },
    }
    assert(views.take(files@.len() as int) =~= views);
    Ok(stream)
}

/// Reading a file list from a byte stream: `FList` messages, each an entry,
/// up to the empty one. `None` when the stream breaks off or holds
/// anything else.
pub open spec fn file_list_parse(s: Seq<u8>) -> Option<Seq<FileEntryView>>
    decreases s.len(),
{
    match mplex_parse(s) {
        Ok(Some((tag, data, n))) => {
            if tag != MessageTag::FList {
                None
            } else if data.len() == 0 {
                Some(Seq::<FileEntryView>::empty())
            } else {
                match file_entry_parse(data) {
                    Ok(v) => if 0 < n <= s.len() {
                        match file_list_parse(s.skip(n as int)) {
                            Some(rest) => Some(seq![v] + rest),
                            None => None,
                        }
                    } else {
                        None
                    },
                    Err(_) => None,
                }
            }
        },
        _ => None,
    }
}

proof fn lemma_entry_frames_front(f: FileEntryView, fs: Seq<FileEntryView>)
    ensures
        entry_frames(seq![f] + fs) == mplex_frame(MessageTag::FList, file_entry_bytes(f)) + entry_frames(fs),
    decreases fs.len(),
{
    let s = seq![f] + fs;
    if fs.len() == 0 {
        assert(s.drop_last() =~= Seq::<FileEntryView>::empty());
        assert(s.last() == f);
        assert(entry_frames(s.drop_last()) == Seq::<u8>::empty());
        assert(entry_frames(fs) == Seq::<u8>::empty());
        assert(entry_frames(s) == entry_frames(s.drop_last())
            + mplex_frame(MessageTag::FList, file_entry_bytes(s.last())));
        assert(entry_frames(s) =~= mplex_frame(MessageTag::FList, file_entry_bytes(f)) + entry_frames(fs));
    } else {
        assert(s.drop_last() =~= seq![f] + fs.drop_last());
        lemma_entry_frames_front(f, fs.drop_last());
        assert(s.last() == fs.last());
        assert(entry_frames(fs) == entry_frames(fs.drop_last())
            + mplex_frame(MessageTag::FList, file_entry_bytes(fs.last())));
        assert(entry_frames(s) == entry_frames(s.drop_last())
            + mplex_frame(MessageTag::FList, file_entry_bytes(s.last())));
        assert(entry_frames(s) =~= mplex_frame(MessageTag::FList, file_entry_bytes(f)) + entry_frames(fs));
    }
}

proof fn lemma_file_list_parse_step(s: Seq<u8>, v: FileEntryView, data: Seq<u8>, tail: Seq<u8>)
    requires
        data.len() <= MAX_FRAME_PAYLOAD,
        data.len() > 0,
        s == mplex_frame(MessageTag::FList, data) + tail,
        file_entry_parse(data) == Ok::<FileEntryView, FileEntryError>(v),
    ensures
        file_list_parse(s) == (match file_list_parse(tail) {
            Some(r) => Some(seq![v] + r),
            None => None,
        }),
{
    lemma_mplex_roundtrip(MessageTag::FList, data, tail);
    let n = 4 + data.len();
    assert(s.skip(n as int) =~= tail);
}

/// File-list round trip: reading back the stream written for a file list
/// (followed by anything) gives the list, when every entry fits a frame and
/// survives the wire.
pub proof fn lemma_file_list_roundtrip(files: Seq<FileEntryView>, rest: Seq<u8>)
    requires
        entries_fit(files),
        forall|i: int| 0 <= i < files.len() ==> #[trigger] wire_faithful(files[i]),
    ensures
        file_list_parse(file_list_stream(files) + rest) == Some(files),
    decreases files.len(),
{
    if files.len() == 0 {
        assert(file_list_stream(files) + rest =~= mplex_frame(MessageTag::FList, Seq::<u8>::empty()) + rest);
        lemma_mplex_roundtrip(MessageTag::FList, Seq::<u8>::empty(), rest);
    } else {
        let f = files[0];
        let fs = files.drop_first();
        assert(files =~= seq![f] + fs);
        lemma_entry_frames_front(f, fs);
        let data = file_entry_bytes(f);
        assert(file_entry_bytes(files[0]).len() <= MAX_FRAME_PAYLOAD);
        let tail = file_list_stream(fs) + rest;
        let s = file_list_stream(files) + rest;
        assert(s =~= mplex_frame(MessageTag::FList, data) + tail);
        assert(wire_faithful(files[0]));
        lemma_file_entry_roundtrip(f, Seq::<u8>::empty());
        assert(data + Seq::<u8>::empty() =~= data);
        lemma_wire_bytes_nonempty(f);
        lemma_file_list_parse_step(s, f, data, tail);
        assert forall|i: int| 0 <= i < fs.len() implies #[trigger] wire_faithful(fs[i]) by {
            assert(fs[i] == files[i + 1]);
        }
        assert forall|i: int| 0 <= i < fs.len() implies #[trigger] file_entry_bytes(fs[i]).len() <= MAX_FRAME_PAYLOAD by {
            assert(fs[i] == files[i + 1]);
        }
        lemma_file_list_roundtrip(fs, rest);
        assert(seq![f] + fs =~= files);
    }
}

proof fn lemma_wire_bytes_nonempty(e: FileEntryView)
    ensures
        file_entry_bytes(e).len() > 0,
{
    let pb = encode_utf8(e.path);
    assert((seq![entry_flags(pb)] + varint_bytes(pb.len())).len() >= 1);
}

} // verus!
