//! Big-endian integer encoding on byte sequences.
use vstd::prelude::*;

verus! {

/// The two bytes of `v`, most significant first.
pub open spec fn be16(v: u16) -> Seq<u8> {
    seq![(v >> 8) as u8, v as u8]
}

/// The four bytes of `v`, most significant first.
pub open spec fn be32(v: u32) -> Seq<u8> {
    seq![(v >> 24) as u8, (v >> 16) as u8, (v >> 8) as u8, v as u8]
}

/// The eight bytes of `v`, most significant first.
pub open spec fn be64(v: u64) -> Seq<u8> {
    seq![
        (v >> 56) as u8, (v >> 48) as u8, (v >> 40) as u8, (v >> 32) as u8,
        (v >> 24) as u8, (v >> 16) as u8, (v >> 8) as u8, v as u8,
    ]
}

/// The value of two big-endian bytes.
pub open spec fn u16_from(b0: u8, b1: u8) -> u16 {
    ((b0 as u16) << 8) | (b1 as u16)
}

/// The value of four big-endian bytes.
pub open spec fn u32_from(b0: u8, b1: u8, b2: u8, b3: u8) -> u32 {
    ((b0 as u32) << 24) | ((b1 as u32) << 16) | ((b2 as u32) << 8) | (b3 as u32)
}

/// The value of eight big-endian bytes.
pub open spec fn u64_from(b0: u8, b1: u8, b2: u8, b3: u8, b4: u8, b5: u8, b6: u8, b7: u8) -> u64 {
    ((b0 as u64) << 56) | ((b1 as u64) << 48) | ((b2 as u64) << 40) | ((b3 as u64) << 32)
        | ((b4 as u64) << 24) | ((b5 as u64) << 16) | ((b6 as u64) << 8) | (b7 as u64)
}

/// The big-endian u16 at offset `i` of `s`.
pub open spec fn read_u16(s: Seq<u8>, i: int) -> u16 {
    u16_from(s[i], s[i + 1])
}

/// The big-endian u32 at offset `i` of `s`.
pub open spec fn read_u32(s: Seq<u8>, i: int) -> u32 {
    u32_from(s[i], s[i + 1], s[i + 2], s[i + 3])
}

/// The big-endian u64 at offset `i` of `s`.
pub open spec fn read_u64(s: Seq<u8>, i: int) -> u64 {
    u64_from(s[i], s[i + 1], s[i + 2], s[i + 3], s[i + 4], s[i + 5], s[i + 6], s[i + 7])
}

pub proof fn lemma_u16_roundtrip(v: u16)
    ensures
        u16_from((v >> 8) as u8, v as u8) == v,
{
    assert(u16_from((v >> 8) as u8, v as u8) == v) by (bit_vector);
}

pub proof fn lemma_u32_roundtrip(v: u32)
    ensures
        u32_from((v >> 24) as u8, (v >> 16) as u8, (v >> 8) as u8, v as u8) == v,
{
    assert(u32_from((v >> 24) as u8, (v >> 16) as u8, (v >> 8) as u8, v as u8) == v)
        by (bit_vector);
}

pub proof fn lemma_u64_roundtrip(v: u64)
    ensures
        u64_from(
            (v >> 56) as u8, (v >> 48) as u8, (v >> 40) as u8, (v >> 32) as u8,
            (v >> 24) as u8, (v >> 16) as u8, (v >> 8) as u8, v as u8,
        ) == v,
{
    assert(u64_from(
        (v >> 56) as u8, (v >> 48) as u8, (v >> 40) as u8, (v >> 32) as u8,
        (v >> 24) as u8, (v >> 16) as u8, (v >> 8) as u8, v as u8,
    ) == v) by (bit_vector);
}

pub proof fn lemma_read_be16(v: u16, s: Seq<u8>, i: int)
    requires
        0 <= i,
        i + 2 <= s.len(),
        s.subrange(i, i + 2) == be16(v),
    ensures
        read_u16(s, i) == v,
{
    assert(s[i] == s.subrange(i, i + 2)[0]);
    assert(s[i + 1] == s.subrange(i, i + 2)[1]);
    lemma_u16_roundtrip(v);
}

pub proof fn lemma_read_be32(v: u32, s: Seq<u8>, i: int)
    requires
        0 <= i,
        i + 4 <= s.len(),
        s.subrange(i, i + 4) == be32(v),
    ensures
        read_u32(s, i) == v,
{
    assert(s[i] == s.subrange(i, i + 4)[0]);
    assert(s[i + 1] == s.subrange(i, i + 4)[1]);
    assert(s[i + 2] == s.subrange(i, i + 4)[2]);
    assert(s[i + 3] == s.subrange(i, i + 4)[3]);
    lemma_u32_roundtrip(v);
}

pub proof fn lemma_read_be64(v: u64, s: Seq<u8>, i: int)
    requires
        0 <= i,
        i + 8 <= s.len(),
        s.subrange(i, i + 8) == be64(v),
    ensures
        read_u64(s, i) == v,
{
    let w = s.subrange(i, i + 8);
    assert(s[i] == w[0]);
    assert(s[i + 1] == w[1]);
    assert(s[i + 2] == w[2]);
    assert(s[i + 3] == w[3]);
    assert(s[i + 4] == w[4]);
    assert(s[i + 5] == w[5]);
    assert(s[i + 6] == w[6]);
    assert(s[i + 7] == w[7]);
    lemma_u64_roundtrip(v);
}

/// Appends the big-endian bytes of `v`.
pub fn push_u16_be(buf: &mut Vec<u8>, v: u16)
    ensures
        final(buf)@ == old(buf)@ + be16(v),
{
    buf.push((v >> 8) as u8);
    buf.push(v as u8);
    assert(buf@ =~= old(buf)@ + be16(v));
}

/// Appends the big-endian bytes of `v`.
pub fn push_u32_be(buf: &mut Vec<u8>, v: u32)
    ensures
        final(buf)@ == old(buf)@ + be32(v),
{
    buf.push((v >> 24) as u8);
    buf.push((v >> 16) as u8);
    buf.push((v >> 8) as u8);
    buf.push(v as u8);
    assert(buf@ =~= old(buf)@ + be32(v));
}

/// Appends the big-endian bytes of `v`.
pub fn push_u64_be(buf: &mut Vec<u8>, v: u64)
    ensures
        final(buf)@ == old(buf)@ + be64(v),
{
    buf.push((v >> 56) as u8);
    buf.push((v >> 48) as u8);
    buf.push((v >> 40) as u8);
    buf.push((v >> 32) as u8);
    buf.push((v >> 24) as u8);
    buf.push((v >> 16) as u8);
    buf.push((v >> 8) as u8);
    buf.push(v as u8);
    assert(buf@ =~= old(buf)@ + be64(v));
}

/// Appends every byte of `src`.
pub fn push_all(buf: &mut Vec<u8>, src: &[u8])
    ensures
        final(buf)@ == old(buf)@ + src@,
{
    let mut i: usize = 0;
    while i < src.len()
        invariant
            0 <= i <= src@.len(),
            buf@ == old(buf)@ + src@.subrange(0, i as int),
        decreases src@.len() - i,
    {
        buf.push(src[i]);
        i = i + 1;
        assert(buf@ =~= old(buf)@ + src@.subrange(0, i as int));
    }
    assert(src@.subrange(0, src@.len() as int) =~= src@);
}

/// The big-endian u16 at `buf[i..i + 2]`.
pub fn get_u16(buf: &[u8], i: usize) -> (v: u16)
    requires
        i + 2 <= buf@.len(),
    ensures
        v == read_u16(buf@, i as int),
{
    ((buf[i] as u16) << 8) | (buf[i + 1] as u16)
}

/// The big-endian u32 at `buf[i..i + 4]`.
pub fn get_u32(buf: &[u8], i: usize) -> (v: u32)
    requires
        i + 4 <= buf@.len(),
    ensures
        v == read_u32(buf@, i as int),
{
    ((buf[i] as u32) << 24) | ((buf[i + 1] as u32) << 16) | ((buf[i + 2] as u32) << 8) | (buf[i
        + 3] as u32)
}

/// The big-endian u64 at `buf[i..i + 8]`.
pub fn get_u64(buf: &[u8], i: usize) -> (v: u64)
    requires
        i + 8 <= buf@.len(),
    ensures
        v == read_u64(buf@, i as int),
{
    ((buf[i] as u64) << 56) | ((buf[i + 1] as u64) << 48) | ((buf[i + 2] as u64) << 40) | ((buf[i
        + 3] as u64) << 32) | ((buf[i + 4] as u64) << 24) | ((buf[i + 5] as u64) << 16) | ((buf[i
        + 6] as u64) << 8) | (buf[i + 7] as u64)
}

} // verus!
