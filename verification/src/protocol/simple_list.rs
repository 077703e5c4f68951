//! The simple file list of pipe mode: a little-endian `u32` count, then for
//! each file the path's byte length (`u32`), the path's UTF-8 bytes, the
//! size (`u64`), the modification time (`i64`) and the mode (`u32`), all
//! little-endian. Owner and group are not sent; they arrive as 0.

use vstd::prelude::*;
use vstd::utf8::*;
use crate::protocol::rsync_compat::{string_from_utf8, FileEntry, FileEntryView};

verus! {

broadcast use {encode_utf8_valid_utf8, encode_utf8_decode_utf8, decode_utf8_encode_utf8};

/// `256^n`.
pub open spec fn pow256(n: nat) -> nat
    decreases n,
{
    if n == 0 {
        1
    } else {
        256 * pow256((n - 1) as nat)
    }
}

/// The `n` little-endian bytes of `v` (its low `8 n` bits).
pub open spec fn le_bytes(v: nat, n: nat) -> Seq<u8>
    decreases n,
{
    if n == 0 {
        Seq::empty()
    } else {
        seq![(v % 256) as u8] + le_bytes(v / 256, (n - 1) as nat)
    }
}

/// The number that little-endian bytes stand for.
pub open spec fn le_value(s: Seq<u8>) -> nat
    decreases s.len(),
{
    if s.len() == 0 {
        0
    } else {
        s[0] as nat + 256 * le_value(s.skip(1))
    }
}

proof fn lemma_pow256_positive(n: nat)
    ensures
        pow256(n) >= 1,
    decreases n,
{
    if n > 0 {
        lemma_pow256_positive((n - 1) as nat);
    }
}

/// Reading back `n` bytes written from a number below `256^n` gives it.
proof fn lemma_le_roundtrip(v: nat, n: nat)
    requires
        v < pow256(n),
    ensures
        le_bytes(v, n).len() == n,
        le_value(le_bytes(v, n)) == v,
    decreases n,
{
    if n > 0 {
        assert(v / 256 < pow256((n - 1) as nat)) by (nonlinear_arith)
            requires
                v < 256 * pow256((n - 1) as nat),
        ;
        lemma_le_roundtrip(v / 256, (n - 1) as nat);
        let s = le_bytes(v, n);
        assert(s.skip(1) =~= le_bytes(v / 256, (n - 1) as nat));
        assert(v == v % 256 + 256 * (v / 256)) by (nonlinear_arith);
    }
}

/// Little-endian bytes stand for a number below `256^len`.
proof fn lemma_le_value_bound(s: Seq<u8>)
    ensures
        le_value(s) < pow256(s.len()),
    decreases s.len(),
{
    if s.len() > 0 {
        lemma_le_value_bound(s.skip(1));
        let r = le_value(s.skip(1));
        let p = pow256((s.len() - 1) as nat);
        assert(s[0] as nat + 256 * r < 256 * p) by (nonlinear_arith)
            requires
                r < p,
                s[0] < 256,
        ;
    }
}

proof fn lemma_pow256_values()
    ensures
        pow256(4) == 0x1_0000_0000,
        pow256(8) == 0x1_0000_0000_0000_0000,
{
    reveal_with_fuel(pow256, 9);
}

/// Append the `n` little-endian bytes of `v`.
fn push_le(buf: &mut Vec<u8>, v: u64, n: usize)
    ensures
        final(buf)@ == old(buf)@ + le_bytes(v as nat, n as nat),
    decreases n,
{
    if n > 0 {
        buf.push((v % 256) as u8);
        push_le(buf, v / 256, n - 1);
        assert(old(buf)@ + le_bytes(v as nat, n as nat) =~= old(buf)@.push((v % 256) as u8) + le_bytes(
            (v / 256) as nat,
            (n - 1) as nat,
        ));
    }
}

/// The number that bytes `pos .. pos + n` of `s` stand for, little-endian.
fn read_le(s: &[u8], pos: usize, n: usize) -> (v: u64)
    requires
        n <= 8,
        pos + n <= s@.len(),
    ensures
        v == le_value(s@.subrange(pos as int, pos + n)),
    decreases n,
{
    let len = s.len();
    if n == 0 {
        0
    } else {
        let rest = read_le(s, pos + 1, n - 1);
        proof {
            let t = s@.subrange(pos as int, pos + n);
            assert(t.skip(1) =~= s@.subrange(pos + 1, pos + n));
            lemma_le_value_bound(s@.subrange(pos + 1, pos + n));
            lemma_pow256_values();
            assert(pow256((n - 1) as nat) <= pow256(7)) by {
                lemma_pow256_monotone((n - 1) as nat, 7);
            }
            reveal_with_fuel(pow256, 8);
            assert(rest * 256 + 255 <= u64::MAX) by (nonlinear_arith)
                requires
                    rest < pow256(7),
                    pow256(7) == 0x100_0000_0000_0000,
            ;
        }
        s[pos] as u64 + 256 * rest
    }
}

proof fn lemma_pow256_monotone(m: nat, n: nat)
    requires
        m <= n,
    ensures
        pow256(m) <= pow256(n),
    decreases n - m,
{
    if m < n {
        lemma_pow256_monotone(m, (n - 1) as nat);
        lemma_pow256_positive((n - 1) as nat);
    }
}

/// What the simple list carries of an entry: path, size, mtime and mode;
/// owner and group arrive as 0, and no link target is sent.
pub open spec fn simple_view(e: FileEntryView) -> FileEntryView {
    FileEntryView { uid: 0, gid: 0, is_symlink: false, symlink_target: None, ..e }
}

/// The wire bytes of one entry.
pub open spec fn simple_entry_bytes(e: FileEntryView) -> Seq<u8> {
    let pb = encode_utf8(e.path);
    le_bytes(pb.len(), 4) + pb + le_bytes(e.size as nat, 8) + le_bytes((e.mtime as u64) as nat, 8) + le_bytes(
        e.mode as nat,
        4,
    )
}

/// The wire bytes of a run of entries, in order.
pub open spec fn simple_entries_bytes(files: Seq<FileEntryView>) -> Seq<u8>
    decreases files.len(),
{
    if files.len() == 0 {
        Seq::empty()
    } else {
        simple_entry_bytes(files[0]) + simple_entries_bytes(files.skip(1))
    }
}

/// The wire bytes of a file list: the count, then the entries.
pub open spec fn simple_list_bytes(files: Seq<FileEntryView>) -> Seq<u8> {
    le_bytes(files.len(), 4) + simple_entries_bytes(files)
}

/// Whether a list can be sent: its count and every path's byte length fit
/// in 32 bits.
pub open spec fn simple_list_fits(files: Seq<FileEntryView>) -> bool {
    &&& files.len() < 0x1_0000_0000
    &&& forall|i: int| 0 <= i < files.len() ==> #[trigger] encode_utf8(files[i].path).len() < 0x1_0000_0000
}

/// Why a simple file list does not decode.
#[derive(Debug, Clone, Copy, PartialEq, Eq, Structural)]
pub enum SimpleListError {
    /// The bytes end inside the list.
    UnexpectedEof,
    /// A path that is not UTF-8.
    InvalidUtf8,
}

/// Reading one entry at `pos`: the entry and the position after it.
pub open spec fn simple_entry_parse(s: Seq<u8>, pos: nat) -> Result<(FileEntryView, nat), SimpleListError> {
    let p0 = pos as int;
    if p0 + 4 > s.len() {
        Err(SimpleListError::UnexpectedEof)
    } else {
        let plen = le_value(s.subrange(p0, p0 + 4)) as int;
        let p1 = p0 + 4;
        if p1 + plen > s.len() {
            Err(SimpleListError::UnexpectedEof)
        } else if !valid_utf8(s.subrange(p1, p1 + plen)) {
            Err(SimpleListError::InvalidUtf8)
        } else {
            let p2 = p1 + plen;
            if p2 + 20 > s.len() {
                Err(SimpleListError::UnexpectedEof)
            } else {
                Ok((
                    FileEntryView {
                        path: decode_utf8(s.subrange(p1, p1 + plen)),
                        size: le_value(s.subrange(p2, p2 + 8)) as u64,
                        mtime: (le_value(s.subrange(p2 + 8, p2 + 16)) as u64) as i64,
                        mode: le_value(s.subrange(p2 + 16, p2 + 20)) as u32,
                        uid: 0,
                        gid: 0,
                        is_symlink: false,
                        symlink_target: None,
                    },
                    (p2 + 20) as nat,
                ))
            }
        }
    }
}

/// Reading `k` entries from `pos` on.
pub open spec fn simple_entries_parse(s: Seq<u8>, pos: nat, k: nat) -> Result<(Seq<FileEntryView>, nat), SimpleListError>
    decreases k,
{
    if k == 0 {
        Ok((Seq::empty(), pos))
    } else {
        match simple_entry_parse(s, pos) {
            Err(e) => Err(e),
            Ok((e, q)) => match simple_entries_parse(s, q, (k - 1) as nat) {
                Err(err) => Err(err),
                Ok((es, r)) => Ok((seq![e] + es, r)),
            },
        }
    }
}

/// Reading a whole list: the count, then that many entries; the entries
/// and the number of bytes the list took.
pub open spec fn simple_list_parse(s: Seq<u8>) -> Result<(Seq<FileEntryView>, nat), SimpleListError> {
    if s.len() < 4 {
        Err(SimpleListError::UnexpectedEof)
    } else {
        simple_entries_parse(s, 4, le_value(s.subrange(0, 4)))
    }
}

proof fn lemma_mtime_bits(m: i64)
    ensures
        ((m as u64) as i64) == m,
{
    assert(((m as u64) as i64) == m) by (bit_vector);
}

proof fn lemma_simple_entry_roundtrip(pre: Seq<u8>, e: FileEntryView, rest: Seq<u8>)
    requires
        encode_utf8(e.path).len() < 0x1_0000_0000,
    ensures
        simple_entry_parse(pre + simple_entry_bytes(e) + rest, pre.len()) == Ok::<(FileEntryView, nat), SimpleListError>(
            (simple_view(e), pre.len() + simple_entry_bytes(e).len()),
        ),
{
    let pb = encode_utf8(e.path);
    let a = le_bytes(pb.len(), 4);
    let b = le_bytes(e.size as nat, 8);
    let c = le_bytes((e.mtime as u64) as nat, 8);
    let d = le_bytes(e.mode as nat, 4);
    lemma_pow256_values();
    lemma_le_roundtrip(pb.len(), 4);
    lemma_le_roundtrip(e.size as nat, 8);
    lemma_le_roundtrip((e.mtime as u64) as nat, 8);
    lemma_le_roundtrip(e.mode as nat, 4);
    lemma_mtime_bits(e.mtime);
    let s = pre + simple_entry_bytes(e) + rest;
    let p0 = pre.len() as int;
    let p1 = p0 + 4;
    let p2 = p1 + pb.len();
    assert(s.subrange(p0, p1) =~= a);
    assert(s.subrange(p1, p2) =~= pb);
    assert(s.subrange(p2, p2 + 8) =~= b);
    assert(s.subrange(p2 + 8, p2 + 16) =~= c);
    assert(s.subrange(p2 + 16, p2 + 20) =~= d);
}

proof fn lemma_simple_entries_roundtrip(pre: Seq<u8>, files: Seq<FileEntryView>, rest: Seq<u8>)
    requires
        forall|i: int| 0 <= i < files.len() ==> #[trigger] encode_utf8(files[i].path).len() < 0x1_0000_0000,
    ensures
        simple_entries_parse(pre + simple_entries_bytes(files) + rest, pre.len(), files.len())
            == Ok::<(Seq<FileEntryView>, nat), SimpleListError>(
            (files.map_values(|f: FileEntryView| simple_view(f)), pre.len() + simple_entries_bytes(files).len()),
        ),
    decreases files.len(),
{
    if files.len() == 0 {
        assert(files.map_values(|f: FileEntryView| simple_view(f)) =~= Seq::<FileEntryView>::empty());
    } else {
        let e = files[0];
        let tail = files.skip(1);
        let eb = simple_entry_bytes(e);
        let tb = simple_entries_bytes(tail);
        assert(encode_utf8(files[0].path).len() < 0x1_0000_0000);
        assert(pre + simple_entries_bytes(files) + rest =~= pre + eb + (tb + rest));
        lemma_simple_entry_roundtrip(pre, e, tb + rest);
        assert forall|i: int| 0 <= i < tail.len() implies #[trigger] encode_utf8(tail[i].path).len() < 0x1_0000_0000 by {
            assert(tail[i] == files[i + 1]);
        }
        lemma_simple_entries_roundtrip(pre + eb, tail, rest);
        assert((pre + eb) + tb + rest =~= pre + simple_entries_bytes(files) + rest);
        assert(seq![simple_view(e)] + tail.map_values(|f: FileEntryView| simple_view(f)) =~= files.map_values(
            |f: FileEntryView| simple_view(f),
        ));
    }
}

/// Decoding an encoded list gives back what the list carries of each
/// entry (path, size, mtime and mode) and says how many bytes it took;
/// whatever follows the list is left alone.
pub proof fn lemma_simple_list_roundtrip(files: Seq<FileEntryView>, rest: Seq<u8>)
    requires
        simple_list_fits(files),
    ensures
        simple_list_parse(simple_list_bytes(files) + rest) == Ok::<(Seq<FileEntryView>, nat), SimpleListError>(
            (files.map_values(|f: FileEntryView| simple_view(f)), simple_list_bytes(files).len()),
        ),
{
    let head = le_bytes(files.len(), 4);
    lemma_pow256_values();
    lemma_le_roundtrip(files.len(), 4);
    let s = simple_list_bytes(files) + rest;
    assert(s.subrange(0, 4) =~= head);
    lemma_simple_entries_roundtrip(head, files, rest);
    assert(head + simple_entries_bytes(files) + rest =~= s);
}

proof fn lemma_simple_entries_bytes_push(files: Seq<FileEntryView>, f: FileEntryView)
    ensures
        simple_entries_bytes(files.push(f)) == simple_entries_bytes(files) + simple_entry_bytes(f),
    decreases files.len(),
{
    if files.len() == 0 {
        assert(files.push(f).skip(1) =~= Seq::<FileEntryView>::empty());
        assert(files.push(f)[0] == f);
        assert(simple_entries_bytes(Seq::<FileEntryView>::empty()) == Seq::<u8>::empty());
        assert(simple_entries_bytes(files.push(f)) =~= simple_entry_bytes(f));
    } else {
        assert(files.push(f).skip(1) =~= files.skip(1).push(f));
        lemma_simple_entries_bytes_push(files.skip(1), f);
        assert(simple_entries_bytes(files.push(f)) =~= simple_entries_bytes(files) + simple_entry_bytes(f));
    }
}

fn push_bytes(out: &mut Vec<u8>, bytes: &[u8])
    ensures
        final(out)@ == old(out)@ + bytes@,
{
    let mut i: usize = 0;
    while i < bytes.len()
        invariant
            i <= bytes@.len(),
            out@ == old(out)@ + bytes@.take(i as int),
        decreases bytes@.len() - i,
    {
        out.push(bytes[i]);
        i = i + 1;
        assert(out@ =~= old(out)@ + bytes@.take(i as int));
    }
    assert(bytes@.take(bytes@.len() as int) =~= bytes@);
}

/// Encode a file list in the simple format: the count, then each entry's
/// path length, path, size, mtime and mode, all little-endian.
pub fn encode_file_list_simple(files: &[FileEntry]) -> (bytes: Vec<u8>)
    requires
        simple_list_fits(files@.map_values(|f: FileEntry| f@)),
    ensures
        bytes@ == simple_list_bytes(files@.map_values(|f: FileEntry| f@)),
{
    let ghost views = files@.map_values(|f: FileEntry| f@);
    let mut out: Vec<u8> = Vec::new();
    push_le(&mut out, files.len() as u64, 4);
    assert(out@ =~= le_bytes(views.len(), 4) + simple_entries_bytes(views.take(0)));
    let mut i: usize = 0;
    while i < files.len()
        invariant
            views == files@.map_values(|f: FileEntry| f@),
            simple_list_fits(views),
            i <= files@.len(),
            out@ == le_bytes(views.len(), 4) + simple_entries_bytes(views.take(i as int)),
        decreases files@.len() - i,
    {
        let f = &files[i];
        let pb = f.path.as_str().as_bytes();
        assert(encode_utf8(views[i as int].path).len() < 0x1_0000_0000);
        let ghost before = out@;
        push_le(&mut out, pb.len() as u64, 4);
        push_bytes(&mut out, pb);
        push_le(&mut out, f.size, 8);
        push_le(&mut out, f.mtime as u64, 8);
        push_le(&mut out, f.mode as u64, 4);
        proof {
            assert(out@ =~= before + simple_entry_bytes(views[i as int]));
            lemma_simple_entries_bytes_push(views.take(i as int), views[i as int]);
            assert(views.take(i + 1) =~= views.take(i as int).push(views[i as int]));
        }
        i = i + 1;
    }
    assert(views.take(files@.len() as int) =~= views);
    out
}

fn copy_range(data: &[u8], pos: usize, n: usize) -> (v: Vec<u8>)
    requires
        pos + n <= data@.len(),
    ensures
        v@ == data@.subrange(pos as int, pos + n),
{
    let len = data.len();
    let mut v: Vec<u8> = Vec::new();
    let mut i: usize = 0;
    while i < n
        invariant
            len == data@.len(),
            pos + n <= data@.len(),
            i <= n,
            v@ == data@.subrange(pos as int, pos + i),
        decreases n - i,
    {
        v.push(data[pos + i]);
        i = i + 1;
        assert(v@ =~= data@.subrange(pos as int, pos + i));
    }
    v
}

fn decode_simple_entry(data: &[u8], pos: usize) -> (r: Result<(FileEntry, usize), SimpleListError>)
    requires
        pos <= data@.len(),
    ensures
        match simple_entry_parse(data@, pos as nat) {
            Ok((e, q)) => r matches Ok((f, p)) && f@ == e && p == q && q <= data@.len(),
            Err(err) => r == Err::<(FileEntry, usize), SimpleListError>(err),
        },
{
    let len = data.len();
    if len - pos < 4 {
        return Err(SimpleListError::UnexpectedEof);
    }
    let plen = read_le(data, pos, 4);
    proof {
        lemma_le_value_bound(data@.subrange(pos as int, pos + 4));
        lemma_pow256_values();
    }
    let p1 = pos + 4;
    if ((len - p1) as u64) < plen {
        return Err(SimpleListError::UnexpectedEof);
    }
    let n = plen as usize;
    let bytes = copy_range(data, p1, n);
    let path = match string_from_utf8(bytes) {
        Some(p) => p,
        None => {
            return Err(SimpleListError::InvalidUtf8);
        },
    };
    let p2 = p1 + n;
    if len - p2 < 20 {
        return Err(SimpleListError::UnexpectedEof);
    }
    let size = read_le(data, p2, 8);
    let mtime_bits = read_le(data, p2 + 8, 8);
    let mode = read_le(data, p2 + 16, 4);
    proof {
        lemma_le_value_bound(data@.subrange(p2 + 16, p2 + 20));
    }
    let entry = FileEntry {
        path,
        size,
        mtime: mtime_bits as i64,
        mode: mode as u32,
        uid: 0,
        gid: 0,
        is_symlink: false,
        symlink_target: None,
    };
    Ok((entry, p2 + 20))
}

/// Decode a file list in the simple format from the front of `data`: the
/// entries and the number of bytes the list took.
pub fn decode_file_list_simple(data: &[u8]) -> (r: Result<(Vec<FileEntry>, usize), SimpleListError>)
    ensures
        match simple_list_parse(data@) {
            Ok((es, n)) => r matches Ok((v, m)) && v@.map_values(|f: FileEntry| f@) == es && m == n,
            Err(e) => r == Err::<(Vec<FileEntry>, usize), SimpleListError>(e),
        },
{
    let len = data.len();
    if len < 4 {
        return Err(SimpleListError::UnexpectedEof);
    }
    let count = read_le(data, 0, 4);
    let mut out: Vec<FileEntry> = Vec::new();
    let mut pos: usize = 4;
    let mut k: u64 = 0;
    assert(out@.map_values(|f: FileEntry| f@) =~= Seq::<FileEntryView>::empty());
    while k < count
        invariant
            pos <= data@.len(),
            k <= count,
            count == le_value(data@.subrange(0, 4)),
            data@.len() >= 4,
            simple_list_parse(data@) == match simple_entries_parse(data@, pos as nat, (count - k) as nat) {
                Ok((es, r)) => Ok((out@.map_values(|f: FileEntry| f@) + es, r)),
                Err(e) => Err::<(Seq<FileEntryView>, nat), SimpleListError>(e),
            },
        decreases count - k,
    {
        let ghost before = out@.map_values(|f: FileEntry| f@);
        match decode_simple_entry(data, pos) {
            Err(e) => {
                return Err(e);
            },
            Ok((f, q)) => {
                let ghost fv = f@;
                out.push(f);
                proof {
                    assert(out@.map_values(|f: FileEntry| f@) =~= before.push(fv));
                    match simple_entries_parse(data@, q as nat, (count - k - 1) as nat) {
                        Ok((es, r)) => {
                            assert(before + (seq![fv] + es) =~= before.push(fv) + es);
                        },
                        Err(_) => {},
                    }
                }
                pos = q;
                k = k + 1;
            },
        }
    }
    assert(out@.map_values(|f: FileEntry| f@) + Seq::<FileEntryView>::empty() =~= out@.map_values(|f: FileEntry| f@));
    Ok((out, pos))
}

} // verus!
