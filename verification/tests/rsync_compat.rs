use arsync::protocol::rsync_compat::{
    decode_file_entry, encode_file_entry, encode_file_list_frames, encode_mplex_frame, expect_tag,
    file_list_step, parse_frame_header, parse_mplex_frame, FileEntry, FileEntryError, FileListError, MessageTag, MplexError,
    MultiplexMessage, MultiplexReader, MultiplexWriter,
};
use arsync::protocol::varint::encode_varint_into;

#[test]
fn test_message_tag_parsing() {
    assert_eq!(MessageTag::from_u8(7), Some(MessageTag::Data));
    assert_eq!(MessageTag::from_u8(9), Some(MessageTag::Info));
    assert_eq!(MessageTag::from_u8(10), Some(MessageTag::Error));
    assert_eq!(MessageTag::from_u8(255), None);
}

#[test]
fn test_length_encoding() {
    // rsync uses 3-byte length encoding
    let length = 12345u32;
    let bytes = length.to_le_bytes();
    let encoded = [bytes[0], bytes[1], bytes[2]];

    let decoded = u32::from_le_bytes([encoded[0], encoded[1], encoded[2], 0]);
    assert_eq!(decoded, length);
}

#[test]
fn test_file_entry_roundtrip() {
    // Create a test file entry
    let original = FileEntry {
        path: "test/file.txt".to_string(),
        size: 12345,
        mtime: 1696800000,
        mode: 0o100644,
        uid: 1000,
        gid: 1000,
        is_symlink: false,
        symlink_target: None,
    };

    // Encode it manually (simulating what encode_file_list_rsync does)
    let mut entry = Vec::new();
    entry.push(0u8); // flags
    encode_varint_into(original.path.len() as u64, &mut entry);
    entry.extend(original.path.as_bytes());
    encode_varint_into(original.size, &mut entry);
    encode_varint_into(original.mtime as u64, &mut entry);
    encode_varint_into(original.mode as u64, &mut entry);
    encode_varint_into(original.uid as u64, &mut entry);
    encode_varint_into(original.gid as u64, &mut entry);

    // Decode it
    let decoded = decode_file_entry(&entry).expect("Should decode");

    assert_eq!(decoded.path, original.path);
    assert_eq!(decoded.size, original.size);
    assert_eq!(decoded.mtime, original.mtime);
    assert_eq!(decoded.mode, original.mode);
    assert_eq!(decoded.uid, original.uid);
    assert_eq!(decoded.gid, original.gid);
}

#[test]
fn test_symlink_entry() {
    let symlink = FileEntry {
        path: "link".to_string(),
        size: 0,
        mtime: 1696800000,
        mode: 0o120777, // S_IFLNK | 0777
        uid: 1000,
        gid: 1000,
        is_symlink: true,
        symlink_target: Some("target/path".to_string()),
    };

    // Encode manually
    let mut entry = Vec::new();
    entry.push(0u8);
    encode_varint_into(symlink.path.len() as u64, &mut entry);
    entry.extend(symlink.path.as_bytes());
    encode_varint_into(symlink.size, &mut entry);
    encode_varint_into(symlink.mtime as u64, &mut entry);
    encode_varint_into(symlink.mode as u64, &mut entry);
    encode_varint_into(symlink.uid as u64, &mut entry);
    encode_varint_into(symlink.gid as u64, &mut entry);
    let target = symlink.symlink_target.as_ref().unwrap();
    encode_varint_into(target.len() as u64, &mut entry);
    entry.extend(target.as_bytes());

    // Decode
    let decoded = decode_file_entry(&entry).expect("Should decode");

    assert_eq!(decoded.is_symlink, true);
    assert_eq!(decoded.symlink_target.as_ref().unwrap(), "target/path");
}

#[test]
fn every_tag_byte_maps_back_to_its_tag() {
    for byte in 0u8..=255 {
        if let Some(tag) = MessageTag::from_u8(byte) {
            assert_eq!(tag.as_u8(), byte);
        }
    }
    assert_eq!(MessageTag::Data.as_u8(), 7);
    assert_eq!(MessageTag::from_u8(0), None);
}

#[test]
fn mplex_frame_has_tag_and_three_length_bytes() {
    let frame = encode_mplex_frame(MessageTag::Data, &[1, 2, 3]).unwrap();
    assert_eq!(frame, vec![7, 3, 0, 0, 1, 2, 3]);
    let big = vec![0u8; 70000];
    let frame = encode_mplex_frame(MessageTag::Info, &big).unwrap();
    assert_eq!(&frame[0..4], &[9, 0x70, 0x11, 0x01]);
}

#[test]
fn mplex_frame_too_large_is_refused() {
    let huge = vec![0u8; 1 << 24];
    assert!(matches!(encode_mplex_frame(MessageTag::Data, &huge), Err(MplexError::MessageTooLarge(n)) if n == 1 << 24));
}

#[test]
fn mplex_parse_gives_back_the_framed_message() {
    let mut buf = encode_mplex_frame(MessageTag::Warning, b"hello").unwrap();
    let first_len = buf.len();
    buf.extend(encode_mplex_frame(MessageTag::Data, b"x").unwrap());
    let (msg, next) = parse_mplex_frame(&buf, 0).unwrap().unwrap();
    assert_eq!(msg.tag, MessageTag::Warning);
    assert_eq!(msg.data, b"hello".to_vec());
    assert_eq!(next, first_len);
    let (msg2, end) = parse_mplex_frame(&buf, next).unwrap().unwrap();
    assert_eq!(msg2.tag, MessageTag::Data);
    assert_eq!(msg2.data, b"x".to_vec());
    assert_eq!(end, buf.len());
    assert!(parse_mplex_frame(&buf, end).unwrap().is_none());
}

#[test]
fn mplex_parse_waits_for_a_whole_frame() {
    let buf = vec![7u8, 5, 0, 0, 1, 2];
    assert!(parse_mplex_frame(&buf, 0).unwrap().is_none());
    assert!(parse_mplex_frame(&[7u8, 5], 0).unwrap().is_none());
}

#[test]
fn mplex_parse_rejects_unknown_tags() {
    assert!(matches!(parse_mplex_frame(&[0u8, 0, 0, 0], 0), Err(MplexError::UnknownTag(0))));
}

#[test]
fn expect_tag_checks_the_tag() {
    let msg = MultiplexMessage { tag: MessageTag::Data, data: vec![1, 2] };
    assert_eq!(expect_tag(msg, MessageTag::Data).unwrap(), vec![1, 2]);
    let msg = MultiplexMessage { tag: MessageTag::Error, data: vec![] };
    assert!(matches!(
        expect_tag(msg, MessageTag::Data),
        Err(MplexError::UnexpectedTag { expected: MessageTag::Data, got: MessageTag::Error })
    ));
}

#[test]
fn file_entry_encoding_round_trips() {
    let entries = vec![
        FileEntry {
            path: "dir/ü.txt".to_string(),
            size: 1 << 40,
            mtime: 5,
            mode: 0o100600,
            uid: 0,
            gid: 42,
            is_symlink: false,
            symlink_target: None,
        },
        FileEntry {
            path: "l".to_string(),
            size: 0,
            mtime: 1,
            mode: 0o120777,
            uid: 1,
            gid: 1,
            is_symlink: true,
            symlink_target: Some("../t".to_string()),
        },
    ];
    for e in entries {
        let bytes = encode_file_entry(&e);
        let d = decode_file_entry(&bytes).unwrap();
        assert_eq!(d.path, e.path);
        assert_eq!(d.size, e.size);
        assert_eq!(d.mtime, e.mtime);
        assert_eq!(d.mode, e.mode);
        assert_eq!(d.uid, e.uid);
        assert_eq!(d.gid, e.gid);
        assert_eq!(d.is_symlink, e.is_symlink);
        assert_eq!(d.symlink_target, e.symlink_target);
    }
}

#[test]
fn negative_mtimes_go_on_the_wire_as_zero() {
    let e = FileEntry {
        path: "old".to_string(),
        size: 1,
        mtime: -5,
        mode: 0o100644,
        uid: 0,
        gid: 0,
        is_symlink: false,
        symlink_target: None,
    };
    let d = decode_file_entry(&encode_file_entry(&e)).unwrap();
    assert_eq!(d.mtime, 0);
    assert_eq!(d.path, "old");
}

#[test]
fn file_entry_errors() {
    assert!(matches!(decode_file_entry(&[]), Err(FileEntryError::UnexpectedEof)));
    // flags, then a path length of 3 with only one byte of path
    assert!(matches!(decode_file_entry(&[0, 3, b'a']), Err(FileEntryError::UnexpectedEof)));
    // an invalid UTF-8 path
    let mut bad = vec![0u8, 1, 0xFF];
    for _ in 0..5 {
        bad.push(0);
    }
    assert!(matches!(decode_file_entry(&bad), Err(FileEntryError::InvalidUtf8)));
    let mut overflow = vec![0u8];
    overflow.extend(vec![0xFF; 11]);
    assert!(matches!(decode_file_entry(&overflow), Err(FileEntryError::VarintOverflow)));
}

#[test]
fn file_list_frames_decode_to_the_same_entries() {
    let files = vec![FileEntry {
        path: "a".to_string(),
        size: 3,
        mtime: 10,
        mode: 0o100644,
        uid: 1,
        gid: 2,
        is_symlink: false,
        symlink_target: None,
    }];
    let stream = encode_file_list_frames(&files).unwrap();
    let (msg, next) = parse_mplex_frame(&stream, 0).unwrap().unwrap();
    let entry = file_list_step(&msg).unwrap().unwrap();
    assert_eq!(entry.path, "a");
    assert_eq!(entry.size, 3);
    let (end, _) = parse_mplex_frame(&stream, next).unwrap().unwrap();
    assert!(file_list_step(&end).unwrap().is_none());
    let wrong = MultiplexMessage { tag: MessageTag::Info, data: vec![] };
    assert!(matches!(file_list_step(&wrong), Err(FileListError::UnexpectedTag(MessageTag::Info))));
}

#[test]
fn multiplex_reader_splits_fed_bytes_into_messages() {
    let mut reader = MultiplexReader::new(());
    let frame = encode_mplex_frame(MessageTag::Data, b"abc").unwrap();
    reader.feed(&frame[0..2]);
    assert!(reader.next_message().unwrap().is_none());
    reader.feed(&frame[2..]);
    let msg = reader.next_message().unwrap().unwrap();
    assert_eq!(msg.data, b"abc".to_vec());
    assert!(reader.next_message().unwrap().is_none());
    let writer = MultiplexWriter::new(());
    assert_eq!(writer.frame_message(MessageTag::Data, b"abc").unwrap(), frame);
}

#[test]
fn a_file_list_entry_that_does_not_decode_is_an_error() {
    let msg = MultiplexMessage { tag: MessageTag::FList, data: vec![0, 5, b'a'] };
    assert!(matches!(file_list_step(&msg), Err(FileListError::Entry(FileEntryError::UnexpectedEof))));
}

#[test]
fn frame_headers_announce_tag_and_length() {
    assert_eq!(parse_frame_header(&[7, 0x39, 0x30, 0]).unwrap(), (MessageTag::Data, 12345));
    assert!(matches!(parse_frame_header(&[3, 0, 0, 0]), Err(MplexError::UnknownTag(3))));
}
