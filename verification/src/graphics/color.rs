//! Colors packed into 32-bit integers: the bytes red, green, blue and
//! alpha, most significant first (`0xRRGGBBAA`).

use vstd::prelude::*;

verus! {

/// The byte of `c` at `shift` bits from the right.
pub open spec fn byte_at(c: u32, shift: u32) -> u8 {
    ((c >> shift) & 0xff) as u8
}

/// The four bytes `r`, `g`, `b`, `a` packed as `0xRRGGBBAA`.
pub open spec fn packed(r: u8, g: u8, b: u8, a: u8) -> u32 {
    (((r as u32) << 24u32) | ((g as u32) << 16u32) | ((b as u32) << 8u32) | (a as u32)) as u32
}

/// The bytes of `c`, most significant first: red, green, blue and alpha of
/// a color packed as `0xRRGGBBAA`.
pub fn rgba_bytes(c: u32) -> (bytes: (u8, u8, u8, u8))
    ensures
        bytes == (byte_at(c, 24), byte_at(c, 16), byte_at(c, 8), byte_at(c, 0)),
        packed(bytes.0, bytes.1, bytes.2, bytes.3) == c,
{
    let r = ((c >> 24u32) & 0xff) as u8;
    let g = ((c >> 16u32) & 0xff) as u8;
    let b = ((c >> 8u32) & 0xff) as u8;
    let a = (c & 0xff) as u8;
    assert(c & 0xff == (c >> 0u32) & 0xff) by (bit_vector);
    assert(((((((c >> 24u32) & 0xff) as u8) as u32) << 24u32) | (((((c >> 16u32) & 0xff) as u8) as u32) << 16u32)
        | (((((c >> 8u32) & 0xff) as u8) as u32) << 8u32) | ((((c & 0xff) as u8) as u32))) == c) by (bit_vector);
    (r, g, b, a)
}

/// The color with these bytes packed as `0xRRGGBBAA`.
pub fn pack_rgba(r: u8, g: u8, b: u8, a: u8) -> (c: u32)
    ensures
        c == packed(r, g, b, a),
        byte_at(c, 24) == r,
        byte_at(c, 16) == g,
        byte_at(c, 8) == b,
        byte_at(c, 0) == a,
{
    let c = ((r as u32) << 24u32) | ((g as u32) << 16u32) | ((b as u32) << 8u32) | (a as u32);
    assert(((((((r as u32) << 24u32) | ((g as u32) << 16u32) | ((b as u32) << 8u32) | (a as u32)) >> 24u32) & 0xff) as u8) == r) by (bit_vector);
    assert(((((((r as u32) << 24u32) | ((g as u32) << 16u32) | ((b as u32) << 8u32) | (a as u32)) >> 16u32) & 0xff) as u8) == g) by (bit_vector);
    assert(((((((r as u32) << 24u32) | ((g as u32) << 16u32) | ((b as u32) << 8u32) | (a as u32)) >> 8u32) & 0xff) as u8) == b) by (bit_vector);
    assert(((((((r as u32) << 24u32) | ((g as u32) << 16u32) | ((b as u32) << 8u32) | (a as u32)) >> 0u32) & 0xff) as u8) == a) by (bit_vector);
    c
}

/// Packing bytes and taking them apart again gives the same bytes, and
/// taking a packed color apart and packing it again gives the same color.
pub proof fn lemma_pack_round_trip(r: u8, g: u8, b: u8, a: u8, c: u32)
    ensures
        byte_at(packed(r, g, b, a), 24) == r,
        byte_at(packed(r, g, b, a), 16) == g,
        byte_at(packed(r, g, b, a), 8) == b,
        byte_at(packed(r, g, b, a), 0) == a,
        packed(byte_at(c, 24), byte_at(c, 16), byte_at(c, 8), byte_at(c, 0)) == c,
{
    assert(((((((r as u32) << 24u32) | ((g as u32) << 16u32) | ((b as u32) << 8u32) | (a as u32)) >> 24u32) & 0xff) as u8) == r) by (bit_vector);
    assert(((((((r as u32) << 24u32) | ((g as u32) << 16u32) | ((b as u32) << 8u32) | (a as u32)) >> 16u32) & 0xff) as u8) == g) by (bit_vector);
    assert(((((((r as u32) << 24u32) | ((g as u32) << 16u32) | ((b as u32) << 8u32) | (a as u32)) >> 8u32) & 0xff) as u8) == b) by (bit_vector);
    assert(((((((r as u32) << 24u32) | ((g as u32) << 16u32) | ((b as u32) << 8u32) | (a as u32)) >> 0u32) & 0xff) as u8) == a) by (bit_vector);
    assert(((((((c >> 24u32) & 0xff) as u8) as u32) << 24u32) | (((((c >> 16u32) & 0xff) as u8) as u32) << 16u32)
        | (((((c >> 8u32) & 0xff) as u8) as u32) << 8u32) | (((((c >> 0u32) & 0xff) as u8) as u32))) == c) by (bit_vector);
}

} // verus!
