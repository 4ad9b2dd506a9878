//! Little-endian byte layouts of the integers that ZIP records hold.
use vstd::prelude::*;

verus! {

/// The two bytes of `v`, least significant first.
pub open spec fn le_u16(v: u16) -> Seq<u8> {
    seq![(v % 256) as u8, (v / 256) as u8]
}

/// The four bytes of `v`, least significant first.
pub open spec fn le_u32(v: u32) -> Seq<u8> {
    seq![
        (v % 256) as u8,
        ((v / 256) % 256) as u8,
        ((v / 65536) % 256) as u8,
        (v / 16777216) as u8,
    ]
}

/// The eight bytes of `v`, least significant first.
pub open spec fn le_u64(v: u64) -> Seq<u8> {
    le_u32((v % 0x1_0000_0000) as u32) + le_u32((v / 0x1_0000_0000) as u32)
}

/// The four bytes of the two's complement form of `v`, least significant first.
pub open spec fn le_i32(v: i32) -> Seq<u8> {
    le_u32(v as u32)
}

/// The integer whose little-endian form is the first two bytes of `s`.
pub open spec fn from_le_u16(s: Seq<u8>) -> u16 {
    (s[0] + s[1] * 256) as u16
}

/// The integer whose little-endian form is the first four bytes of `s`.
pub open spec fn from_le_u32(s: Seq<u8>) -> u32 {
    (s[0] + s[1] * 256 + s[2] * 65536 + s[3] * 16777216) as u32
}

/// The integer whose little-endian form is the first eight bytes of `s`.
pub open spec fn from_le_u64(s: Seq<u8>) -> u64 {
    (from_le_u32(s) + from_le_u32(s.subrange(4, 8)) * 0x1_0000_0000) as u64
}

/// The signed integer whose two's complement little-endian form is the first four bytes of `s`.
pub open spec fn from_le_i32(s: Seq<u8>) -> i32 {
    from_le_u32(s) as i32
}

/// Decoding the little-endian form of a 16-bit integer gives the integer back.
pub proof fn lemma_le_u16_roundtrip(v: u16)
    ensures
        le_u16(v).len() == 2,
        from_le_u16(le_u16(v)) == v,
{
}

/// Decoding the little-endian form of a 32-bit integer gives the integer back.
pub proof fn lemma_le_u32_roundtrip(v: u32)
    ensures
        le_u32(v).len() == 4,
        from_le_u32(le_u32(v)) == v,
{
}

/// Decoding the little-endian form of a 64-bit integer gives the integer back.
pub proof fn lemma_le_u64_roundtrip(v: u64)
    ensures
        le_u64(v).len() == 8,
        from_le_u64(le_u64(v)) == v,
{
    let lo = (v % 0x1_0000_0000) as u32;
    let hi = (v / 0x1_0000_0000) as u32;
    lemma_le_u32_roundtrip(lo);
    lemma_le_u32_roundtrip(hi);
    assert(le_u64(v).subrange(4, 8) =~= le_u32(hi));
    assert(le_u64(v).subrange(0, 4) =~= le_u32(lo));
    assert(from_le_u32(le_u64(v)) == from_le_u32(le_u32(lo)));
}

/// Decoding the little-endian form of a signed 32-bit integer gives the integer back.
pub proof fn lemma_le_i32_roundtrip(v: i32)
    ensures
        le_i32(v).len() == 4,
        from_le_i32(le_i32(v)) == v,
{
    lemma_le_u32_roundtrip(v as u32);
    assert((v as u32) as i32 == v) by (bit_vector);
}

} // verus!
