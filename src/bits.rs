//! Facts about masks and byte splitting that the rest of the crate relies on.
use vstd::prelude::*;

verus! {

/// Bounds of the address masks used for mirroring and bank folding.
pub proof fn lemma_u16_masks(x: u16)
    by (bit_vector)
    ensures
        x & 0x07FF < 0x0800,
        x & 0x0007 < 8,
        x & 0x3FFF < 0x4000,
        x & 0x7FFF < 0x8000,
        x & 0x00FF < 0x0100,
        x <= 0x01FF ==> x & 0x07FF == x,
        x >> 8 < 0x0100,
{
}

/// A 16-bit value is rebuilt from its high and low bytes.
pub proof fn lemma_split_join(x: u16)
    by (bit_vector)
    ensures
        ((((x >> 8) as u8) as u16) << 8) | (((x & 0x00FF) as u8) as u16) == x,
{
}

/// The high byte of `(hi << 8) | lo` is `hi`, and its page is `hi << 8`.
pub proof fn lemma_join_page(hi: u8, lo: u8)
    by (bit_vector)
    ensures
        (((hi as u16) << 8) | (lo as u16)) & 0xFF00 == (hi as u16) << 8,
        (((hi as u16) << 8) | (lo as u16)) >> 8 == hi as u16,
{
}

/// Two addresses lie in the same page exactly when their high bytes agree.
pub proof fn lemma_page_is_high_byte(x: u16, y: u16)
    by (bit_vector)
    ensures
        ((x & 0xFF00) == (y & 0xFF00)) == ((x >> 8) == (y >> 8)),
{
}

/// Both 16 KiB halves of the program window fold onto the same offset.
pub proof fn lemma_mirror_halves(k: u16)
    by (bit_vector)
    requires
        k < 0x4000,
    ensures
        ((0x8000 + k) as u16) & 0x3FFF == k,
        ((0xC000 + k) as u16) & 0x3FFF == k,
{
}

/// The low byte of a 16-bit value is its remainder modulo 256.
pub proof fn lemma_low_byte(x: u16)
    by (bit_vector)
    ensures
        x & 0x00FF == x % 256,
        ((x & 0x00FF) as u8) as u16 == x % 256,
{
}

/// Setting the high byte of a byte value adds 0xFF00.
pub proof fn lemma_sign_extend(b: u16)
    by (bit_vector)
    requires
        b < 0x100,
    ensures
        b & 0x80 != 0 <==> b >= 0x80,
        b >= 0x80 ==> b | 0xFF00 == b + 0xFF00,
{
}

/// Or-ing in a bit that is already set changes nothing.
pub proof fn lemma_or_idempotent(s: u8, f: u8, g: u8)
    by (bit_vector)
    ensures
        ((s | f | g) | g) == (s | f | g),
{
}

} // verus!
