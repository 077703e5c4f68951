//! Variable-length integer encoding (varint)
//!
//! rsync's varint format: 7-bit groups, least significant group first; the
//! high bit (0x80) of a byte says that more bytes follow.

use vstd::prelude::*;
use vstd::arithmetic::power2::*;
use vstd::bits::*;

verus! {

/// The bytes that encode `v`: its 7-bit groups, least significant first,
/// every byte but the last carrying the continuation bit.
pub open spec fn varint_bytes(v: nat) -> Seq<u8>
    decreases v,
{
    if v < 128 {
        seq![v as u8]
    } else {
        seq![((v % 128) + 128) as u8] + varint_bytes(v / 128)
    }
}

/// Rolls a run of bytes back into a number: the low 7 bits of byte `i`
/// are worth `2^(7 i)`.
pub open spec fn group_value(s: Seq<u8>) -> nat
    decreases s.len(),
{
    if s.len() == 0 {
        0
    } else {
        group_value(s.drop_last()) + ((s.last() % 128) as nat) * pow2((7 * (s.len() - 1)) as nat)
    }
}

proof fn lemma_varint_bytes_shape(v: nat)
    ensures
        varint_bytes(v).len() >= 1,
        varint_bytes(v).last() < 128,
        forall|i: int| 0 <= i < varint_bytes(v).len() - 1 ==> varint_bytes(v)[i] >= 128,
        v < pow2((7 * varint_bytes(v).len()) as nat),
        v >= 128 ==> v >= pow2((7 * (varint_bytes(v).len() - 1)) as nat),
    decreases v,
{
    reveal(pow2);
    if v < 128 {
        lemma2_to64();
    } else {
        lemma_varint_bytes_shape(v / 128);
        let t = varint_bytes(v / 128);
        let s = varint_bytes(v);
        assert(s == seq![((v % 128) + 128) as u8] + t);
        assert forall|i: int| 0 <= i < s.len() - 1 implies s[i] >= 128 by {
            if i > 0 {
                assert(s[i] == t[i - 1]);
            }
        }
        lemma_pow2_adds(7, (7 * t.len()) as nat);
        lemma2_to64();
        if v / 128 >= 128 {
            lemma_pow2_adds(7, (7 * (t.len() - 1)) as nat);
        } else {
            assert(t.len() == 1);
            lemma2_to64();
        }
    }
}


/// A byte run viewed as a little-endian sequence of 7-bit groups is worth
/// less than `2^(7 n)`.
proof fn lemma_group_value_bound(s: Seq<u8>)
    ensures
        group_value(s) < pow2((7 * s.len()) as nat),
    decreases s.len(),
{
    if s.len() == 0 {
        lemma2_to64();
    } else {
        let n = s.len();
        lemma_group_value_bound(s.drop_last());
        let p = pow2((7 * (n - 1)) as nat);
        lemma_pow2_adds((7 * (n - 1)) as nat, 7);
        lemma2_to64();
        let x = (s.last() % 128) as nat;
        assert(group_value(s.drop_last()) + x * p < 128 * p) by (nonlinear_arith)
            requires
                group_value(s.drop_last()) < p,
                x < 128,
        ;
    }
}

/// Peeling the first byte off: its group is the low 7 bits, the rest
/// is worth 128 times as much.
proof fn lemma_group_value_front(b: u8, t: Seq<u8>)
    ensures
        group_value(seq![b] + t) == (b % 128) as nat + 128 * group_value(t),
    decreases t.len(),
{
    let s = seq![b] + t;
    if t.len() == 0 {
        assert(s.drop_last() =~= Seq::<u8>::empty());
        assert(s.last() == b);
        lemma2_to64();
        assert(group_value(s) == group_value(s.drop_last()) + ((b % 128) as nat) * pow2(0));
        assert(group_value(t) == 0);
    } else {
        let n = t.len();
        assert(s.drop_last() =~= seq![b] + t.drop_last());
        lemma_group_value_front(b, t.drop_last());
        lemma_pow2_adds(7, (7 * (n - 1)) as nat);
        lemma2_to64();
        let x = (t.last() % 128) as nat;
        let g = group_value(t.drop_last());
        let p = pow2((7 * (n - 1)) as nat);
        assert((7 + 7 * (n - 1)) as nat == (7 * n) as nat);
        assert(pow2((7 * n) as nat) == 128 * p);
        assert(s.len() == n + 1);
        assert(s.last() == t.last());
        assert(group_value(s) == group_value(s.drop_last()) + x * pow2((7 * n) as nat));
        assert(group_value(t) == g + x * p);
        assert(128 * (g + x * p) == 128 * g + x * (128 * p)) by (nonlinear_arith);
        assert(group_value(s.drop_last()) == (b % 128) as nat + 128 * g);
    }
}

/// The bytes of `varint_bytes(v)` roll back up into `v`.
proof fn lemma_varint_bytes_value(v: nat)
    ensures
        group_value(varint_bytes(v)) == v,
    decreases v,
{
    if v < 128 {
        let s = varint_bytes(v);
        assert(s.drop_last() =~= Seq::<u8>::empty());
        lemma2_to64();
        assert(group_value(s) == group_value(s.drop_last()) + ((s.last() % 128) as nat) * pow2(0));
    } else {
        let b = ((v % 128) + 128) as u8;
        lemma_varint_bytes_value(v / 128);
        lemma_group_value_front(b, varint_bytes(v / 128));
        assert(varint_bytes(v) == seq![b] + varint_bytes(v / 128));
        assert(b % 128 == v % 128);
        assert(v % 128 + 128 * (v / 128) == v);
    }
}

/// A 64-bit value needs at most ten bytes.
proof fn lemma_varint_bytes_len(v: u64)
    ensures
        1 <= varint_bytes(v as nat).len() <= 10,
{
    lemma_varint_bytes_shape(v as nat);
    let n = varint_bytes(v as nat).len();
    if n > 10 {
        lemma_pow2_strictly_increases(64, (7 * (n - 1)) as nat);
        lemma2_to64();
        lemma2_to64_rest();
    }
}

/// Encode a u64 as varint (7-bit continuation encoding)
///
/// Lower 7 bits of each byte carry data; the high bit (0x80) says that
/// more bytes follow.
pub fn encode_varint(value: u64) -> (result: Vec<u8>)
    ensures
        result@ == varint_bytes(value as nat),
{
    let mut result = Vec::new();
    encode_varint_into(value, &mut result);
    assert(result@ =~= varint_bytes(value as nat));
    result
}

/// Encode varint into an existing buffer, appending to what it holds.
pub fn encode_varint_into(value: u64, buffer: &mut Vec<u8>)
    ensures
        final(buffer)@ == old(buffer)@ + varint_bytes(value as nat),
{
    let ghost start = buffer@;
    let ghost target = start + varint_bytes(value as nat);
    let mut value = value;
    loop
        invariant_except_break
            buffer@ + varint_bytes(value as nat) == target,
        ensures
            buffer@ == target,
        decreases value,
    {
        let v = value;
        let mut byte = (value & 0x7F) as u8;
        assert((v & 0x7F) as u8 == v % 128) by (bit_vector);
        value = value >> 7;
        assert(v >> 7 == v / 128) by (bit_vector);
        if value > 0 {
            let b = byte;
            byte = byte | 0x80;
            assert(b < 128 ==> (b | 0x80) == b + 128) by (bit_vector);
            assert(varint_bytes(v as nat) == seq![byte] + varint_bytes(value as nat));
        } else {
            assert(varint_bytes(v as nat) == seq![byte]);
        }
        buffer.push(byte);
        assert(buffer@ + varint_bytes(value as nat) =~= target || value == 0);
        if value == 0 {
            assert(buffer@ =~= target);
            break;
        }
    }
}

/// Encode i64 as signed varint (zigzag encoding): -1 -> 1, 1 -> 2, -2 -> 3 ...
pub fn encode_varint_signed(value: i64) -> (result: Vec<u8>)
    ensures
        result@ == varint_bytes(zigzag(value) as nat),
{
    let zigzag_value = zigzag_encode(value);
    encode_varint(zigzag_value)
}

/// Zigzag mapping of a signed value onto an unsigned one.
pub open spec fn zigzag(v: i64) -> u64 {
    if v >= 0 {
        (2 * v) as u64
    } else {
        (-2 * v - 1) as u64
    }
}

/// The zigzag transform `(n << 1) ^ (n >> 63)`.
pub fn zigzag_encode(value: i64) -> (z: u64)
    ensures
        z == zigzag(value),
{
    let z = ((value << 1) ^ (value >> 63)) as u64;
    assert(z == zigzag(value)) by (bit_vector)
        requires
            z == ((value << 1) ^ (value >> 63)) as u64,
    ;
    z
}

/// The inverse zigzag transform `(n >> 1) ^ -(n & 1)`.
pub fn zigzag_decode(zigzag_value: u64) -> (v: i64)
    ensures
        zigzag(v) == zigzag_value,
{
    let low = (zigzag_value & 1) as i64;
    assert(low == 0 || low == 1) by (bit_vector)
        requires
            low == (zigzag_value & 1) as i64,
    ;
    let mask: i64 = -low;
    let v = ((zigzag_value >> 1) as i64) ^ mask;
    assert(zigzag(v) == zigzag_value) by (bit_vector)
        requires
            low == (zigzag_value & 1) as i64,
            mask == 0 - low,
            v == ((zigzag_value >> 1) as i64) ^ mask,
    ;
    v
}

/// What reading a varint from the front of a byte run yields.
pub enum VarintParse {
    /// A complete varint of `len` bytes holding `value`.
    Complete { value: u64, len: nat },
    /// The run ended before a byte without the continuation bit.
    Truncated,
    /// Ten bytes all carried the continuation bit: more than 64 bits.
    Overflow,
}

/// Reading continues at byte `i`, every byte before it having carried the
/// continuation bit. A terminating byte yields the value of the run, kept
/// to its low 64 bits; a tenth continuation byte is an overflow.
pub open spec fn varint_parse_from(s: Seq<u8>, i: nat) -> VarintParse
    decreases s.len() - i,
{
    if i >= s.len() {
        VarintParse::Truncated
    } else if s[i as int] < 128 {
        VarintParse::Complete {
            value: (group_value(s.take((i + 1) as int)) % pow2(64)) as u64,
            len: i + 1,
        }
    } else if i >= 9 {
        VarintParse::Overflow
    } else {
        varint_parse_from(s, i + 1)
    }
}

/// What reading a varint from the front of `s` yields.
pub open spec fn varint_parse(s: Seq<u8>) -> VarintParse {
    varint_parse_from(s, 0)
}

/// Errors while reading a varint from a byte run.
#[derive(Debug, Clone, Copy, PartialEq, Eq)]
pub enum VarintError {
    /// The input ended inside the varint.
    UnexpectedEof,
    /// More than 64 bits of payload.
    Overflow,
}

/// One step of varint decoding.
pub enum VarintStep {
    /// More bytes are needed; continue with this decoder.
    More(VarintDecoder),
    /// The varint is complete and holds this value.
    Done(u64),
    /// More than 64 bits: the varint is rejected.
    Overflow,
}

/// Incremental varint decoder: fed one byte at a time, as bytes arrive
/// from a transport.
pub struct VarintDecoder {
    result: u64,
    shift: u32,
    consumed: Ghost<Seq<u8>>,
}

impl VarintDecoder {
    /// The bytes fed so far.
    pub closed spec fn consumed(&self) -> Seq<u8> {
        self.consumed@
    }

    #[verifier::type_invariant]
    spec fn inv(&self) -> bool {
        &&& self.consumed@.len() <= 9
        &&& self.shift == 7 * self.consumed@.len()
        &&& forall|i: int| 0 <= i < self.consumed@.len() ==> self.consumed@[i] >= 128
        &&& self.result == group_value(self.consumed@)
    }

    /// A decoder that has seen no byte yet.
    pub fn new() -> (d: Self)
        ensures
            d.consumed() == Seq::<u8>::empty(),
    {
        VarintDecoder { result: 0, shift: 0, consumed: Ghost(Seq::empty()) }
    }

    /// Feed the next byte: add its low 7 bits to the value, and stop at the
    /// first byte without the continuation bit.
    pub fn feed(self, byte: u8) -> (step: VarintStep)
        ensures
            byte < 128 ==> step == VarintStep::Done(
                (group_value(self.consumed().push(byte)) % pow2(64)) as u64,
            ),
            byte >= 128 && self.consumed().len() >= 9 ==> step is Overflow,
            byte >= 128 && self.consumed().len() < 9 ==> (step matches VarintStep::More(d)
                && d.consumed() == self.consumed().push(byte)),
            step matches VarintStep::More(d) ==> d.consumed().len() <= 9,
    {
        proof {
            use_type_invariant(&self);
        }
        let ghost s = self.consumed@.push(byte);
        let ghost n = self.consumed@.len();
        let sh = self.shift;
        let r = self.result;
        let payload = (byte & 0x7F) as u64;
        assert(payload == byte % 128) by (bit_vector)
            requires
                payload == (byte & 0x7F) as u64,
        ;
        let result = r | (payload << sh);
        proof {
            assert(s.drop_last() =~= self.consumed@);
            assert(group_value(s) == r + payload * pow2(sh as nat));
            lemma_group_value_bound(self.consumed@);
            lemma_u64_pow2_no_overflow(sh as nat);
            if sh <= 56 {
                lemma_pow2_strictly_increases(sh as nat, 57);
                lemma2_to64();
                lemma2_to64_rest();
                assert(payload * pow2(sh as nat) <= u64::MAX) by (nonlinear_arith)
                    requires
                        payload < 128,
                        pow2(sh as nat) < pow2(57),
                        pow2(57) == 0x200000000000000,
                ;
                lemma_u64_shl_is_mul(payload, sh as u64);
                lemma_u64_shl_is_mul(1, sh as u64);
                assert((payload << sh) == (payload << (sh as u64)));
                assert((1u64 << sh) == (1u64 << (sh as u64)));
                assert(r | (payload << sh) == r + (payload << sh)) by (bit_vector)
                    requires
                        r < (1u64 << sh),
                        sh <= 56,
                        payload < 128,
                ;
                lemma_group_value_bound(s);
                lemma_pow2_strictly_increases((7 * s.len()) as nat, 64);
                assert(group_value(s) % pow2(64) == group_value(s));
            } else {
                assert(sh == 63);
                lemma2_to64();
                lemma2_to64_rest();
                assert(r | (payload << sh) == r + (payload % 2) * 0x8000000000000000u64) by (bit_vector)
                    requires
                        r < 0x8000000000000000u64,
                        sh == 63,
                        payload < 128,
                ;
                let q = payload / 2;
                assert(r + payload * 0x8000000000000000int == (r + (payload % 2) * 0x8000000000000000int)
                    + q * 0x10000000000000000int) by (nonlinear_arith)
                    requires
                        q == payload / 2,
                ;
                vstd::arithmetic::div_mod::lemma_mod_add_multiples_vanish(
                    (r + (payload % 2) * 0x8000000000000000int) as int,
                    0x10000000000000000int,
                );
                vstd::arithmetic::div_mod::lemma_mod_multiples_vanish(
                    q as int,
                    (r + (payload % 2) * 0x8000000000000000int) as int,
                    0x10000000000000000int,
                );
                vstd::arithmetic::div_mod::lemma_small_mod(
                    (r + (payload % 2) * 0x8000000000000000int) as nat,
                    0x10000000000000000nat,
                );
            }
        }
        if byte & 0x80 == 0 {
            assert(byte < 128) by (bit_vector)
                requires
                    byte & 0x80 == 0,
            ;
            return VarintStep::Done(result);
        }
        assert(byte >= 128) by (bit_vector)
            requires
                byte & 0x80 != 0,
        ;
        let shift = sh + 7;
        if shift > 63 {
            return VarintStep::Overflow;
        }
        proof {
            assert forall|i: int| 0 <= i < s.len() implies s[i] >= 128 by {
                if i < n {
                    assert(s[i] == self.consumed@[i]);
                }
            }
        }
        VarintStep::More(VarintDecoder { result, shift, consumed: Ghost(s) })
    }
}

/// Decode a varint from `data` starting at `pos`, as rsync reads one from a
/// file-list entry; returns the value and the position just past it.
pub fn decode_varint_sync(data: &[u8], pos: usize) -> (r: Result<(u64, usize), VarintError>)
    ensures
        ({
            let s = if pos <= data@.len() { data@.subrange(pos as int, data@.len() as int) } else { Seq::<u8>::empty() };
            match varint_parse(s) {
                VarintParse::Complete { value, len } => r == Ok::<(u64, usize), VarintError>((value, (pos + len) as usize)),
                VarintParse::Truncated => r == Err::<(u64, usize), VarintError>(VarintError::UnexpectedEof),
                VarintParse::Overflow => r == Err::<(u64, usize), VarintError>(VarintError::Overflow),
            }
        }),
{
    if pos > data.len() {
        return Err(VarintError::UnexpectedEof);
    }
    let ghost s = data@.subrange(pos as int, data@.len() as int);
    let mut decoder = VarintDecoder::new();
    let mut i: usize = 0;
    loop
        invariant
            pos <= data@.len(),
            s == data@.subrange(pos as int, data@.len() as int),
            i <= 9,
            pos + i <= data.len(),
            decoder.consumed() == s.take(i as int),
            varint_parse(s) == varint_parse_from(s, i as nat),
        decreases data@.len() - pos - i,
    {
        if pos + i >= data.len() {
            return Err(VarintError::UnexpectedEof);
        }
        let byte = data[pos + i];
        assert(s.take(i as int).push(byte) =~= s.take(i + 1));
        match decoder.feed(byte) {
            VarintStep::Done(value) => {
                return Ok((value, pos + i + 1));
            },
            VarintStep::Overflow => {
                return Err(VarintError::Overflow);
            },
            VarintStep::More(d) => {
                decoder = d;
                i = i + 1;
            },
        }
    }
}

proof fn lemma_parse_skips_continuations(s: Seq<u8>, i: nat, k: nat)
    requires
        i <= k <= 9,
        k < s.len(),
        forall|j: int| 0 <= j < k ==> s[j] >= 128,
        s[k as int] < 128,
    ensures
        varint_parse_from(s, i) == varint_parse_from(s, k),
    decreases k - i,
{
    if i < k {
        lemma_parse_skips_continuations(s, i + 1, k);
    }
}

/// A complete varint never extends past the bytes it was read from.
pub proof fn lemma_varint_parse_len(s: Seq<u8>)
    ensures
        varint_parse(s) matches VarintParse::Complete { len, .. } ==> len <= s.len(),
{
    lemma_varint_parse_from_len(s, 0);
}

proof fn lemma_varint_parse_from_len(s: Seq<u8>, i: nat)
    ensures
        varint_parse_from(s, i) matches VarintParse::Complete { len, .. } ==> len <= s.len(),
    decreases s.len() - i,
{
    if i < s.len() && s[i as int] >= 128 && i < 9 {
        lemma_varint_parse_from_len(s, i + 1);
    }
}

/// Varint round trip: reading back the encoding of any 64-bit value, with
/// anything after it, gives the value and consumes exactly its encoding.
pub proof fn lemma_varint_roundtrip(v: u64, rest: Seq<u8>)
    ensures
        varint_parse(varint_bytes(v as nat) + rest) == (VarintParse::Complete {
            value: v,
            len: varint_bytes(v as nat).len(),
        }),
{
    let b = varint_bytes(v as nat);
    let s = b + rest;
    lemma_varint_bytes_shape(v as nat);
    lemma_varint_bytes_len(v);
    lemma_varint_bytes_value(v as nat);
    let k = (b.len() - 1) as nat;
    assert forall|j: int| 0 <= j < k implies s[j] >= 128 by {
        assert(s[j] == b[j]);
    }
    assert(s[k as int] == b.last());
    lemma_parse_skips_continuations(s, 0, k);
    assert(s.take((k + 1) as int) =~= b);
    lemma2_to64();
    lemma2_to64_rest();
    vstd::arithmetic::div_mod::lemma_small_mod(v as nat, pow2(64));
}

/// Zigzag round trip: every signed value comes back from its zigzag image.
pub proof fn lemma_zigzag_roundtrip(v: i64, w: i64)
    requires
        zigzag(v) == zigzag(w),
    ensures
        v == w,
{
}

} // verus!
