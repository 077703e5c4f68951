use arsync::protocol::handshake::accept_remote_version;
use arsync::protocol::rsync_compat::FileEntry;
use arsync::protocol::simple_list::{decode_file_list_simple, encode_file_list_simple, SimpleListError};

fn entry(path: &str, size: u64, mtime: i64, mode: u32) -> FileEntry {
    FileEntry { path: path.to_string(), size, mtime, mode, uid: 0, gid: 0, is_symlink: false, symlink_target: None }
}

#[test]
fn simple_list_layout() {
    let bytes = encode_file_list_simple(&[entry("ab", 3, 1, 0o644)]);
    let mut expected = vec![1, 0, 0, 0, 2, 0, 0, 0, b'a', b'b'];
    expected.extend_from_slice(&3u64.to_le_bytes());
    expected.extend_from_slice(&1i64.to_le_bytes());
    expected.extend_from_slice(&0o644u32.to_le_bytes());
    assert_eq!(bytes, expected);
    assert_eq!(encode_file_list_simple(&[]), vec![0, 0, 0, 0]);
}

#[test]
fn simple_list_round_trips() {
    let files = vec![entry("a/b.txt", 12345, 1696800000, 0o100644), entry("ü", 0, -7, 0o755), entry("", u64::MAX, i64::MIN, u32::MAX)];
    let mut bytes = encode_file_list_simple(&files);
    let len = bytes.len();
    bytes.extend_from_slice(&[9, 9, 9]);
    let (decoded, used) = decode_file_list_simple(&bytes).unwrap();
    assert_eq!(used, len);
    assert_eq!(decoded.len(), files.len());
    for (d, f) in decoded.iter().zip(files.iter()) {
        assert_eq!(d.path, f.path);
        assert_eq!(d.size, f.size);
        assert_eq!(d.mtime, f.mtime);
        assert_eq!(d.mode, f.mode);
        assert_eq!(d.uid, 0);
        assert_eq!(d.gid, 0);
    }
}

#[test]
fn simple_list_drops_owner_and_group() {
    let mut f = entry("x", 1, 2, 3);
    f.uid = 1000;
    f.gid = 100;
    let (decoded, _) = decode_file_list_simple(&encode_file_list_simple(&[f])).unwrap();
    assert_eq!(decoded[0].uid, 0);
    assert_eq!(decoded[0].gid, 0);
}

#[test]
fn simple_list_errors() {
    assert_eq!(decode_file_list_simple(&[1, 0, 0]).unwrap_err(), SimpleListError::UnexpectedEof);
    // one entry announced, none there
    assert_eq!(decode_file_list_simple(&[1, 0, 0, 0]).unwrap_err(), SimpleListError::UnexpectedEof);
    // a path of one byte that is not UTF-8
    assert_eq!(decode_file_list_simple(&[1, 0, 0, 0, 1, 0, 0, 0, 0xFF]).unwrap_err(), SimpleListError::InvalidUtf8);
    // the path is there, the numbers are cut short
    let bytes = encode_file_list_simple(&[entry("a", 1, 1, 1)]);
    assert_eq!(decode_file_list_simple(&bytes[..bytes.len() - 1]).unwrap_err(), SimpleListError::UnexpectedEof);
}

#[test]
fn remote_versions_below_the_minimum_are_refused() {
    assert_eq!(accept_remote_version(31), Ok(31));
    assert_eq!(accept_remote_version(27), Ok(27));
    assert_eq!(
        accept_remote_version(26),
        Err("Remote protocol version 26 too old (need at least 27)".to_string())
    );
}
