//! Little-endian byte encodings of the fixed-width integers the metadata
//! format is made of, with their exec counterparts and round-trip lemmas.

use vstd::prelude::*;

verus! {

/// The two little-endian bytes of a 16-bit value.
pub open spec fn le16(v: u16) -> Seq<u8> {
    seq![(v % 256) as u8, (v / 256) as u8]
}

/// The four little-endian bytes of a 32-bit value.
pub open spec fn le32(v: u32) -> Seq<u8> {
    le16((v % 0x10000) as u16) + le16((v / 0x10000) as u16)
}

/// The eight little-endian bytes of a 64-bit value.
pub open spec fn le64(v: u64) -> Seq<u8> {
    le32((v % 0x1_0000_0000) as u32) + le32((v / 0x1_0000_0000) as u32)
}

/// The value a two-byte little-endian sequence stands for.
pub open spec fn from_le16(s: Seq<u8>) -> int {
    s[0] + 256 * s[1]
}

/// The value a four-byte little-endian sequence stands for.
pub open spec fn from_le32(s: Seq<u8>) -> int {
    from_le16(s.take(2)) + 0x10000 * from_le16(s.skip(2))
}

/// The value an eight-byte little-endian sequence stands for.
pub open spec fn from_le64(s: Seq<u8>) -> int {
    from_le32(s.take(4)) + 0x1_0000_0000 * from_le32(s.skip(4))
}

pub proof fn lemma_le16_roundtrip(v: u16)
    ensures
        le16(v).len() == 2,
        from_le16(le16(v)) == v,
{
}

pub proof fn lemma_le32_roundtrip(v: u32)
    ensures
        le32(v).len() == 4,
        from_le32(le32(v)) == v,
{
    let lo = (v % 0x10000) as u16;
    let hi = (v / 0x10000) as u16;
    lemma_le16_roundtrip(lo);
    lemma_le16_roundtrip(hi);
    assert(le32(v).take(2) =~= le16(lo));
    assert(le32(v).skip(2) =~= le16(hi));
}

pub proof fn lemma_le64_roundtrip(v: u64)
    ensures
        le64(v).len() == 8,
        from_le64(le64(v)) == v,
{
    let lo = (v % 0x1_0000_0000) as u32;
    let hi = (v / 0x1_0000_0000) as u32;
    lemma_le32_roundtrip(lo);
    lemma_le32_roundtrip(hi);
    assert(le64(v).take(4) =~= le32(lo));
    assert(le64(v).skip(4) =~= le32(hi));
}

/// Appends the two little-endian bytes of `v`.
pub fn push_le16(out: &mut Vec<u8>, v: u16)
    ensures
        final(out)@ == old(out)@ + le16(v),
{
    out.push((v % 256) as u8);
    out.push((v / 256) as u8);
    assert(out@ =~= old(out)@ + le16(v));
}

/// Appends the four little-endian bytes of `v`.
pub fn push_le32(out: &mut Vec<u8>, v: u32)
    ensures
        final(out)@ == old(out)@ + le32(v),
{
    push_le16(out, (v % 0x10000) as u16);
    push_le16(out, (v / 0x10000) as u16);
    assert(out@ =~= old(out)@ + le32(v));
}

/// Appends the eight little-endian bytes of `v`.
pub fn push_le64(out: &mut Vec<u8>, v: u64)
    ensures
        final(out)@ == old(out)@ + le64(v),
{
    push_le32(out, (v % 0x1_0000_0000) as u32);
    push_le32(out, (v / 0x1_0000_0000) as u32);
    assert(out@ =~= old(out)@ + le64(v));
}

/// Reads the 16-bit value that two little-endian bytes stand for.
pub fn read_le16(b0: u8, b1: u8) -> (r: u16)
    ensures
        r == from_le16(seq![b0, b1]),
{
    b0 as u16 + 256 * b1 as u16
}

/// Reads the 32-bit value that four little-endian bytes stand for.
pub fn read_le32(b0: u8, b1: u8, b2: u8, b3: u8) -> (r: u32)
    ensures
        r == from_le32(seq![b0, b1, b2, b3]),
{
    let lo = read_le16(b0, b1);
    let hi = read_le16(b2, b3);
    assert(seq![b0, b1, b2, b3].take(2) =~= seq![b0, b1]);
    assert(seq![b0, b1, b2, b3].skip(2) =~= seq![b2, b3]);
    lo as u32 + 0x10000 * hi as u32
}

/// Reads the 64-bit value that eight little-endian bytes stand for.
pub fn read_le64(b0: u8, b1: u8, b2: u8, b3: u8, b4: u8, b5: u8, b6: u8, b7: u8) -> (r: u64)
    ensures
        r == from_le64(seq![b0, b1, b2, b3, b4, b5, b6, b7]),
{
    let lo = read_le32(b0, b1, b2, b3);
    let hi = read_le32(b4, b5, b6, b7);
    assert(seq![b0, b1, b2, b3, b4, b5, b6, b7].take(4) =~= seq![b0, b1, b2, b3]);
    assert(seq![b0, b1, b2, b3, b4, b5, b6, b7].skip(4) =~= seq![b4, b5, b6, b7]);
    lo as u64 + 0x1_0000_0000 * hi as u64
}

} // verus!
