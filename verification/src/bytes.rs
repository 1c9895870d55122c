//! Little-endian integer encoding on byte sequences.
use vstd::prelude::*;

verus! {

/// The little-endian 16-bit value at `i`.
pub open spec fn le16(s: Seq<u8>, i: int) -> int {
    s[i] + s[i + 1] * 0x100
}

/// The little-endian 32-bit value at `i`.
pub open spec fn le32(s: Seq<u8>, i: int) -> int {
    le16(s, i) + le16(s, i + 2) * 0x1_0000
}

/// The little-endian 64-bit value at `i`.
pub open spec fn le64(s: Seq<u8>, i: int) -> int {
    le32(s, i) + le32(s, i + 4) * 0x1_0000_0000
}

/// The one-byte encoding of `x`.
pub open spec fn u8_bytes(x: u8) -> Seq<u8> {
    seq![x]
}

/// The little-endian encoding of `x`.
pub open spec fn u16_le_bytes(x: u16) -> Seq<u8> {
    seq![(x % 0x100) as u8, (x / 0x100) as u8]
}

/// The little-endian encoding of `x`.
pub open spec fn u32_le_bytes(x: u32) -> Seq<u8> {
    u16_le_bytes((x % 0x1_0000) as u16) + u16_le_bytes((x / 0x1_0000) as u16)
}

/// The little-endian encoding of `x`.
pub open spec fn u64_le_bytes(x: u64) -> Seq<u8> {
    u32_le_bytes((x % 0x1_0000_0000) as u32) + u32_le_bytes((x / 0x1_0000_0000) as u32)
}

/// `n` zero bytes.
pub open spec fn zeros(n: nat) -> Seq<u8> {
    Seq::new(n, |i: int| 0u8)
}

/// Decoding an encoded 16-bit value gives it back.
pub proof fn lemma_le16_roundtrip(x: u16, s: Seq<u8>, i: int)
    requires
        0 <= i,
        i + 2 <= s.len(),
        s.subrange(i, i + 2) == u16_le_bytes(x),
    ensures
        le16(s, i) == x,
{
    assert(s[i] == s.subrange(i, i + 2)[0]);
    assert(s[i + 1] == s.subrange(i, i + 2)[1]);
}

/// Decoding an encoded 32-bit value gives it back.
pub proof fn lemma_le32_roundtrip(x: u32, s: Seq<u8>, i: int)
    requires
        0 <= i,
        i + 4 <= s.len(),
        s.subrange(i, i + 4) == u32_le_bytes(x),
    ensures
        le32(s, i) == x,
{
    let e = u32_le_bytes(x);
    assert(s.subrange(i, i + 2) =~= e.subrange(0, 2));
    assert(s.subrange(i + 2, i + 4) =~= e.subrange(2, 4));
    assert(e.subrange(0, 2) =~= u16_le_bytes((x % 0x1_0000) as u16));
    assert(e.subrange(2, 4) =~= u16_le_bytes((x / 0x1_0000) as u16));
    lemma_le16_roundtrip((x % 0x1_0000) as u16, s, i);
    lemma_le16_roundtrip((x / 0x1_0000) as u16, s, i + 2);
}

/// Decoding an encoded 64-bit value gives it back.
pub proof fn lemma_le64_roundtrip(x: u64, s: Seq<u8>, i: int)
    requires
        0 <= i,
        i + 8 <= s.len(),
        s.subrange(i, i + 8) == u64_le_bytes(x),
    ensures
        le64(s, i) == x,
{
    let e = u64_le_bytes(x);
    assert(s.subrange(i, i + 4) =~= e.subrange(0, 4));
    assert(s.subrange(i + 4, i + 8) =~= e.subrange(4, 8));
    assert(e.subrange(0, 4) =~= u32_le_bytes((x % 0x1_0000_0000) as u32));
    assert(e.subrange(4, 8) =~= u32_le_bytes((x / 0x1_0000_0000) as u32));
    lemma_le32_roundtrip((x % 0x1_0000_0000) as u32, s, i);
    lemma_le32_roundtrip((x / 0x1_0000_0000) as u32, s, i + 4);
}

/// The little-endian 16-bit value at `i` of `b`.
pub fn read_u16_le(b: &[u8], i: usize) -> (r: u16)
    requires
        i + 2 <= b.len(),
    ensures
        r == le16(b@, i as int),
{
    b[i] as u16 + (b[i + 1] as u16) * 0x100
}

/// The little-endian 32-bit value at `i` of `b`.
pub fn read_u32_le(b: &[u8], i: usize) -> (r: u32)
    requires
        i + 4 <= b.len(),
    ensures
        r == le32(b@, i as int),
{
    read_u16_le(b, i) as u32 + (read_u16_le(b, i + 2) as u32) * 0x1_0000
}

/// The little-endian 64-bit value at `i` of `b`.
pub fn read_u64_le(b: &[u8], i: usize) -> (r: u64)
    requires
        i + 8 <= b.len(),
    ensures
        r == le64(b@, i as int),
{
    read_u32_le(b, i) as u64 + (read_u32_le(b, i + 4) as u64) * 0x1_0000_0000
}

/// Appends `x`.
pub fn push_u8(v: &mut Vec<u8>, x: u8)
    ensures
        final(v)@ == old(v)@ + u8_bytes(x),
{
    v.push(x);
    assert(final(v)@ =~= old(v)@ + u8_bytes(x));
}

/// Appends the little-endian encoding of `x`.
pub fn push_u16_le(v: &mut Vec<u8>, x: u16)
    ensures
        final(v)@ == old(v)@ + u16_le_bytes(x),
{
    v.push((x % 0x100) as u8);
    v.push((x / 0x100) as u8);
    assert(final(v)@ =~= old(v)@ + u16_le_bytes(x));
}

/// Appends the little-endian encoding of `x`.
pub fn push_u32_le(v: &mut Vec<u8>, x: u32)
    ensures
        final(v)@ == old(v)@ + u32_le_bytes(x),
{
    push_u16_le(v, (x % 0x1_0000) as u16);
    push_u16_le(v, (x / 0x1_0000) as u16);
    assert(final(v)@ =~= old(v)@ + u32_le_bytes(x));
}

/// Appends the little-endian encoding of `x`.
pub fn push_u64_le(v: &mut Vec<u8>, x: u64)
    ensures
        final(v)@ == old(v)@ + u64_le_bytes(x),
{
    push_u32_le(v, (x % 0x1_0000_0000) as u32);
    push_u32_le(v, (x / 0x1_0000_0000) as u32);
    assert(final(v)@ =~= old(v)@ + u64_le_bytes(x));
}

/// Appends `n` zero bytes.
pub fn push_zeros(v: &mut Vec<u8>, n: usize)
    ensures
        final(v)@ == old(v)@ + zeros(n as nat),
{
    let mut i: usize = 0;
    while i < n
        invariant
            i <= n,
            v@ == old(v)@ + zeros(i as nat),
        decreases n - i,
    {
        v.push(0u8);
        i = i + 1;
        assert(v@ =~= old(v)@ + zeros(i as nat));
    }
}

/// Appends the bytes of `b`.
pub fn push_slice(v: &mut Vec<u8>, b: &[u8])
    ensures
        final(v)@ == old(v)@ + b@,
{
    let mut i: usize = 0;
    while i < b.len()
        invariant
            i <= b@.len(),
            v@ == old(v)@ + b@.take(i as int),
        decreases b@.len() - i,
    {
        v.push(b[i]);
        i = i + 1;
        assert(v@ =~= old(v)@ + b@.take(i as int));
    }
    assert(b@.take(b@.len() as int) =~= b@);
}

} // verus!
