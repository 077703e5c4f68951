//! Checksum algorithms for rsync delta transfer
//!
//! - Rolling checksum (Adler-32 style) for fast block comparison
//! - Strong checksum (MD5) for verification

use vstd::prelude::*;
use vstd::arithmetic::div_mod::*;

verus! {

/// Rolling checksum modulus (prime number for Adler-32)
pub const MODULUS: u32 = 65521;

/// Sum of the bytes of `s`.
pub open spec fn byte_sum(s: Seq<u8>) -> nat
    decreases s.len(),
{
    if s.len() == 0 {
        0
    } else {
        byte_sum(s.drop_last()) + s.last() as nat
    }
}

/// Sum of the running byte sums of `s`: byte `k` of an `n`-byte run counts
/// `n - k` times.
pub open spec fn weighted_sum(s: Seq<u8>) -> nat
    decreases s.len(),
{
    if s.len() == 0 {
        0
    } else {
        weighted_sum(s.drop_last()) + byte_sum(s)
    }
}

/// The low half of the starting state that a seed gives.
pub open spec fn seed_low(seed: u32) -> nat {
    ((seed as nat) % 65536) % (MODULUS as nat)
}

/// The high half of the starting state that a seed gives.
pub open spec fn seed_high(seed: u32) -> nat {
    (((seed as nat) / 65536) % 65536) % (MODULUS as nat)
}

/// Packs the two 16-bit halves of the checksum.
pub open spec fn pack_halves(b: nat, a: nat) -> u32 {
    (b * 65536 + a) as u32
}

/// The seeded rolling checksum of `data`: starting from the halves `a0`,
/// `b0` taken from the seed, `a` is `a0` plus the byte sum and `b` is `b0`
/// plus `a0` once per byte plus every running sum, both modulo 65521.
pub open spec fn rolling_checksum_spec(data: Seq<u8>, seed: u32) -> u32 {
    let m = MODULUS as nat;
    let a0 = seed_low(seed);
    let b0 = seed_high(seed);
    pack_halves(
        (b0 + data.len() * a0 + weighted_sum(data)) % m,
        (a0 + byte_sum(data)) % m,
    )
}

/// The checksum after sliding the window by one byte, as computed from the
/// previous checksum alone.
pub open spec fn rolling_update_spec(old_checksum: u32, old_byte: u8, new_byte: u8, block_size: usize) -> u32 {
    let m = MODULUS as int;
    let a = (old_checksum as int) % 65536;
    let b = (old_checksum as int) / 65536;
    let a1 = (a + m - old_byte as int) % m;
    let b1 = (b + m - ((old_byte as int) * ((block_size as u32) as int)) % m) % m;
    let a2 = (a1 + new_byte as int) % m;
    let b2 = (b1 + a2) % m;
    pack_halves(b2 as nat, a2 as nat)
}

proof fn lemma_pack_halves(b: u32, a: u32)
    requires
        a < 65536,
        b < 65536,
    ensures
        (b << 16) | a == pack_halves(b as nat, a as nat),
{
    assert((b << 16) | a == b * 65536 + a) by (bit_vector)
        requires
            a < 65536,
            b < 65536,
    ;
}

/// Compute rolling checksum (Adler-32 style)
///
/// A fast checksum that can be updated incrementally as a window slides
/// over the data.
pub fn rolling_checksum(data: &[u8]) -> (c: u32)
    ensures
        c == rolling_checksum_spec(data@, 0),
{
    rolling_checksum_with_seed(data, 0)
}

/// Compute rolling checksum with seed (rsync protocol)
///
/// The seed is mixed into the initial state to make checksums
/// session-unique and prevent precomputed collision attacks.
pub fn rolling_checksum_with_seed(data: &[u8], seed: u32) -> (c: u32)
    ensures
        c == rolling_checksum_spec(data@, seed),
{
    let ghost m = MODULUS as int;
    let mut a: u32 = (seed & 0xFFFF) % MODULUS;
    let mut b: u32 = ((seed >> 16) & 0xFFFF) % MODULUS;
    assert((seed & 0xFFFF) == seed % 65536 && (seed >> 16) & 0xFFFF == (seed / 65536) % 65536) by (bit_vector);
    let ghost a0 = seed_low(seed) as int;
    let ghost b0 = seed_high(seed) as int;
    let mut i: usize = 0;
    while i < data.len()
        invariant
            0 <= i <= data@.len(),
            a as int == (a0 + byte_sum(data@.take(i as int))) % m,
            b as int == (b0 + i * a0 + weighted_sum(data@.take(i as int))) % m,
            a < MODULUS,
            b < MODULUS,
            m == MODULUS,
            a0 == seed_low(seed),
            b0 == seed_high(seed),
        decreases data.len() - i,
    {
        let byte = data[i];
        let ghost t = data@.take(i as int);
        let ghost t1 = data@.take(i + 1);
        assert(t1.drop_last() =~= t);
        assert(t1.last() == byte);
        let ghost s1 = byte_sum(t1);
        let ghost w = weighted_sum(t);
        a = (a + byte as u32) % MODULUS;
        proof {
            lemma_add_mod_noop_right(byte as int, a0 + byte_sum(t), m);
            assert(a as int == (a0 + s1) % m) by {
                assert((a0 + byte_sum(t)) % m + byte as int == byte as int + (a0 + byte_sum(t)) % m);
                assert(a0 + s1 == byte as int + (a0 + byte_sum(t)));
            }
        }
        let ghost b_prev = b as int;
        b = (b + a) % MODULUS;
        proof {
            lemma_add_mod_noop(b0 + i * a0 + w, a0 + s1, m);
            lemma_mod_twice(b0 + i * a0 + w, m);
            lemma_mod_twice(a0 + s1, m);
            assert(weighted_sum(t1) == w + s1);
            assert(b0 + i * a0 + w + (a0 + s1) == b0 + (i + 1) * a0 + weighted_sum(t1)) by (nonlinear_arith)
                requires
                    weighted_sum(t1) == w + s1,
            ;
        }
        i = i + 1;
    }
    assert(data@.take(data@.len() as int) =~= data@);
    let r = (b << 16) | a;
    proof {
        lemma_pack_halves(b, a);
    }
    r
}

/// Update rolling checksum when sliding window
///
/// Given the old checksum, the byte leaving the window, the byte entering,
/// and the window size, compute the new checksum without scanning the
/// whole window.
pub fn rolling_checksum_update(old_checksum: u32, old_byte: u8, new_byte: u8, block_size: usize) -> (c: u32)
    requires
        (old_byte as int) * ((block_size as u32) as int) <= u32::MAX,
    ensures
        c == rolling_update_spec(old_checksum, old_byte, new_byte, block_size),
{
    let mut a = old_checksum & 0xFFFF;
    let mut b = old_checksum >> 16;
    assert(old_checksum & 0xFFFF == old_checksum % 65536 && old_checksum >> 16 == old_checksum / 65536) by (bit_vector);

    // Remove old byte contribution
    a = (a + MODULUS - old_byte as u32) % MODULUS;
    b = (b + MODULUS - (old_byte as u32 * block_size as u32) % MODULUS) % MODULUS;

    // Add new byte contribution
    a = (a + new_byte as u32) % MODULUS;
    b = (b + a) % MODULUS;

    let r = (b << 16) | a;
    proof {
        lemma_pack_halves(b, a);
    }
    r
}

proof fn lemma_byte_sum_front(x: u8, t: Seq<u8>)
    ensures
        byte_sum(seq![x] + t) == x as nat + byte_sum(t),
    decreases t.len(),
{
    let s = seq![x] + t;
    if t.len() == 0 {
        assert(s.drop_last() =~= Seq::<u8>::empty());
        assert(s.last() == x);
        assert(byte_sum(s) == byte_sum(s.drop_last()) + s.last() as nat);
    } else {
        assert(s.drop_last() =~= seq![x] + t.drop_last());
        assert(s.last() == t.last());
        lemma_byte_sum_front(x, t.drop_last());
        assert(byte_sum(s) == byte_sum(s.drop_last()) + s.last() as nat);
        assert(byte_sum(t) == byte_sum(t.drop_last()) + t.last() as nat);
    }
}

proof fn lemma_weighted_sum_front(x: u8, t: Seq<u8>)
    ensures
        weighted_sum(seq![x] + t) == (t.len() + 1) * (x as nat) + weighted_sum(t),
    decreases t.len(),
{
    let s = seq![x] + t;
    lemma_byte_sum_front(x, t);
    if t.len() == 0 {
        assert(s.drop_last() =~= Seq::<u8>::empty());
        assert(weighted_sum(s) == weighted_sum(s.drop_last()) + byte_sum(s));
        assert(byte_sum(t) == 0);
        assert(weighted_sum(t) == 0);
        assert((t.len() + 1) * (x as nat) == x as nat) by (nonlinear_arith)
            requires
                t.len() == 0,
        ;
    } else {
        assert(s.drop_last() =~= seq![x] + t.drop_last());
        lemma_weighted_sum_front(x, t.drop_last());
        lemma_byte_sum_front(x, t.drop_last());
        assert(weighted_sum(s) == weighted_sum(s.drop_last()) + byte_sum(s));
        assert(weighted_sum(t) == weighted_sum(t.drop_last()) + byte_sum(t));
        assert((t.drop_last().len() + 1) * (x as nat) + x as nat == (t.len() + 1) * (x as nat))
            by (nonlinear_arith)
            requires
                t.drop_last().len() + 1 == t.len(),
        ;
    }
}

proof fn lemma_unpack_halves(b: nat, a: nat)
    requires
        a < 65536,
        b < 65536,
    ensures
        (pack_halves(b, a) as int) % 65536 == a,
        (pack_halves(b, a) as int) / 65536 == b,
{
    assert(b * 65536 + a <= u32::MAX) by (nonlinear_arith)
        requires
            a < 65536,
            b < 65536,
    ;
    lemma_fundamental_div_mod_converse((b * 65536 + a) as int, 65536, b as int, a as int);
}

/// Sliding the window: updating the checksum of a window with the byte
/// that leaves it and the byte that enters gives the checksum of the
/// shifted window. This holds for the unseeded checksum and for every
/// seed whose low half is a multiple of the modulus.
pub proof fn lemma_rolling_window_slide(window: Seq<u8>, next: u8, seed: u32)
    requires
        window.len() >= 1,
        window.len() <= u32::MAX,
        (window[0] as int) * (window.len() as int) <= u32::MAX,
        seed_low(seed) == 0,
    ensures
        rolling_update_spec(rolling_checksum_spec(window, seed), window[0], next, window.len() as usize)
            == rolling_checksum_spec(window.drop_first().push(next), seed),
{
    let m = MODULUS as int;
    let n = window.len();
    let x0 = window[0];
    let t = window.drop_first();
    let w2 = t.push(next);
    let b0 = seed_high(seed) as int;
    assert(window =~= seq![x0] + t);
    lemma_byte_sum_front(x0, t);
    lemma_weighted_sum_front(x0, t);
    assert(w2.drop_last() =~= t);
    assert(byte_sum(w2) == byte_sum(t) + next as nat);
    assert(weighted_sum(w2) == weighted_sum(t) + byte_sum(w2));
    let a = (byte_sum(window) as int) % m;
    let b = (b0 + n * 0 + weighted_sum(window)) % m;
    assert(n * 0 == 0) by (nonlinear_arith);
    assert(w2.len() * 0 == 0) by (nonlinear_arith);
    lemma_unpack_halves(b as nat, a as nat);
    let old = rolling_checksum_spec(window, seed);
    assert((old as int) % 65536 == a);
    assert((old as int) / 65536 == b);
    assert(((n as usize) as u32) as int == n);
    // low half
    lemma_add_mod_noop_right(m - x0 as int, byte_sum(window) as int, m);
    lemma_mod_add_multiples_vanish(byte_sum(t) as int, m);
    let a1 = (a + m - x0 as int) % m;
    assert(a1 == (byte_sum(t) as int) % m);
    lemma_add_mod_noop_right(next as int, byte_sum(t) as int, m);
    let a2 = (a1 + next as int) % m;
    assert(a2 == (byte_sum(w2) as int) % m);
    // high half
    let p = (x0 as int) * (n as int);
    let big = b0 + weighted_sum(window);
    assert(big - p == b0 + weighted_sum(t)) by (nonlinear_arith)
        requires
            big == b0 + weighted_sum(window),
            weighted_sum(window) == (t.len() + 1) * (x0 as nat) + weighted_sum(t),
            t.len() + 1 == n,
            p == (x0 as int) * (n as int),
    ;
    lemma_sub_mod_noop(big, p, m);
    lemma_mod_add_multiples_vanish(b - p % m, m);
    let b1 = (b + m - p % m) % m;
    assert(b1 == (b0 + weighted_sum(t)) % m);
    lemma_add_mod_noop(b0 + weighted_sum(t), byte_sum(w2) as int, m);
    lemma_mod_twice(b0 + weighted_sum(t), m);
    lemma_mod_twice(byte_sum(w2) as int, m);
    let b2 = (b1 + a2) % m;
    assert(b2 == (b0 + weighted_sum(w2)) % m);
}

/// What MD5 makes of a byte run.
pub uninterp spec fn md5_digest(data: Seq<u8>) -> Seq<u8>;

/// `md5::compute` followed by the conversion of its `Digest` into the 16
/// digest bytes. The contract names the digest as a function of the input
/// bytes alone.
#[verifier::external_body]
fn md5_compute(data: &[u8]) -> (digest: [u8; 16])
    ensures
        digest@ == md5_digest(data@),
{
    md5::compute(data).into()
}

/// Compute strong checksum (MD5)
///
/// Slower, with a very low collision probability; used to confirm that a
/// weak checksum match is a real match.
pub fn strong_checksum(data: &[u8]) -> (digest: [u8; 16])
    ensures
        digest@ == md5_digest(data@),
{
    md5_compute(data)
}

} // verus!
