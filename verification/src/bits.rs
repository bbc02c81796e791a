//! Bit-level facts shared by the CPU flag unit and the memory fabric.

use vstd::prelude::*;

verus! {

/// The flag byte laid out as Z, N, H, C in bits 7 down to 4; bits 3..0 zero.
pub open spec fn pack_flags(z: bool, n: bool, h: bool, c: bool) -> u8 {
    (if z { 0x80u8 } else { 0u8 }) | (if n { 0x40u8 } else { 0u8 })
        | (if h { 0x20u8 } else { 0u8 }) | (if c { 0x10u8 } else { 0u8 })
}

/// Each flag can be read back from the packed byte, and its low nibble is zero.
pub proof fn lemma_pack_flags(z: bool, n: bool, h: bool, c: bool)
    ensures
        (pack_flags(z, n, h, c) & 0x80 != 0) == z,
        (pack_flags(z, n, h, c) & 0x40 != 0) == n,
        (pack_flags(z, n, h, c) & 0x20 != 0) == h,
        (pack_flags(z, n, h, c) & 0x10 != 0) == c,
        pack_flags(z, n, h, c) & 0x0F == 0,
{
    let f = pack_flags(z, n, h, c);
    assert(f == (if z { 0x80u8 } else { 0u8 }) | (if n { 0x40u8 } else { 0u8 })
        | (if h { 0x20u8 } else { 0u8 }) | (if c { 0x10u8 } else { 0u8 }));
    assert({
        let g = (if z { 0x80u8 } else { 0u8 }) | (if n { 0x40u8 } else { 0u8 })
            | (if h { 0x20u8 } else { 0u8 }) | (if c { 0x10u8 } else { 0u8 });
        (g & 0x80 != 0) == z && (g & 0x40 != 0) == n && (g & 0x20 != 0) == h
            && (g & 0x10 != 0) == c && g & 0x0F == 0
    }) by (bit_vector);
}

/// Keeping only the high nibble of a byte leaves the low nibble clear.
pub proof fn lemma_high_nibble_mask(x: u8)
    ensures
        (x & 0xF0) & 0x0F == 0,
{
    assert((x & 0xF0) & 0x0F == 0) by (bit_vector);
}

/// The nibble masks agree with division and remainder by 16, and the two
/// nibbles reassemble the byte.
pub proof fn lemma_nibbles(x: u8)
    ensures
        x & 0x0F == x % 16,
        x & 0xF0 == 16 * (x >> 4),
        x >> 4 == x / 16,
        x == (x & 0xF0) + (x & 0x0F),
{
    assert(x & 0x0F == x % 16) by (bit_vector);
    assert(x & 0xF0 == 16 * (x >> 4)) by (bit_vector);
    assert(x >> 4 == x / 16) by (bit_vector);
    assert(x == (x & 0xF0) + (x & 0x0F)) by (bit_vector);
}

} // verus!
