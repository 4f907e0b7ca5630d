//! Little-endian byte helpers shared by the memory devices.
use vstd::prelude::*;

verus! {

/// The little-endian halfword stored at `o` and `o + 1` of `s`.
pub open spec fn le16(s: Seq<u8>, o: int) -> u16 {
    ((s[o] as u16) | ((s[o + 1] as u16) << 8u16)) as u16
}

/// The little-endian word stored at `o .. o + 4` of `s`.
pub open spec fn le32(s: Seq<u8>, o: int) -> u32 {
    ((s[o] as u32) | ((s[o + 1] as u32) << 8u32) | ((s[o + 2] as u32) << 16u32) | ((s[o + 3]
        as u32) << 24u32)) as u32
}

/// `s` with the halfword `v` written little-endian at `o`.
pub open spec fn put16(s: Seq<u8>, o: int, v: u16) -> Seq<u8> {
    s.update(o, (v & 0xFF) as u8).update(o + 1, (v >> 8u16) as u8)
}

/// `s` with the word `v` written little-endian at `o`.
pub open spec fn put32(s: Seq<u8>, o: int, v: u32) -> Seq<u8> {
    s.update(o, (v & 0xFF) as u8).update(o + 1, ((v >> 8u32) & 0xFF) as u8).update(
        o + 2,
        ((v >> 16u32) & 0xFF) as u8,
    ).update(o + 3, (v >> 24u32) as u8)
}

pub proof fn lemma_le16_put16(s: Seq<u8>, o: int, v: u16)
    requires
        0 <= o,
        o + 2 <= s.len(),
    ensures
        le16(put16(s, o, v), o) == v,
{
    let t = put16(s, o, v);
    assert(t[o] == (v & 0xFF) as u8);
    assert(t[o + 1] == (v >> 8u16) as u8);
    assert((((v & 0xFF) as u8) as u16 | ((((v >> 8u16) as u8) as u16) << 8u16)) == v)
        by (bit_vector);
}

pub proof fn lemma_le32_put32(s: Seq<u8>, o: int, v: u32)
    requires
        0 <= o,
        o + 4 <= s.len(),
    ensures
        le32(put32(s, o, v), o) == v,
{
    let t = put32(s, o, v);
    assert(t[o] == (v & 0xFF) as u8);
    assert(t[o + 1] == ((v >> 8u32) & 0xFF) as u8);
    assert(t[o + 2] == ((v >> 16u32) & 0xFF) as u8);
    assert(t[o + 3] == (v >> 24u32) as u8);
    assert((((v & 0xFF) as u8) as u32 | ((((v >> 8u32) & 0xFF) as u8) as u32) << 8u32 | ((((v
        >> 16u32) & 0xFF) as u8) as u32) << 16u32 | (((v >> 24u32) as u8) as u32) << 24u32) == v)
        by (bit_vector);
}

} // verus!
