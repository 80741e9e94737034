use vstd::prelude::*;

verus! {

/// Pixel columns in a framebuffer row; a row is one `u64`, column 0 its highest bit.
pub const SCREEN_WIDTH: usize = 64;

/// Pixel rows in the framebuffer.
pub const SCREEN_HEIGHT: usize = 32;

/// Whether column `c` (0..64) of a framebuffer row is lit.
pub open spec fn pixel(row: u64, c: u64) -> bool {
    (row >> (63u64 - c) as u64) & 1u64 == 1u64
}

/// Bit `k` of a sprite byte, counted from the left; a byte has bits 0..8.
pub open spec fn sprite_bit(b: u8, k: u64) -> bool {
    k < 8 && (b >> (7u64 - k) as u8) & 1u8 == 1u8
}

/// The row bits covered by sprite byte `b` drawn at column `x`: bit `k` of the byte
/// lands on column `(x + k) mod 64`.
pub open spec fn byte_mask(b: u8, x: u64) -> u64 {
    let m = (b as u64) << 56u64;
    let s = x % 64;
    if s == 0 {
        m
    } else {
        (m >> s) | (m << (64u64 - s) as u64)
    }
}

/// A sprite byte drawn at column `x` covers exactly the columns its set bits land on.
pub proof fn lemma_byte_mask_pixel(b: u8, x: u64, c: u64)
    requires
        c < 64,
    ensures
        pixel(byte_mask(b, x), c) == sprite_bit(b, ((c + 64 - x % 64) % 64) as u64),
{
    let s = (x % 64) as u64;
    assert(s % 64 == s);
    assert(byte_mask(b, x) == byte_mask(b, s));
    lemma_mask_pixel_at(b, s, c);
}

proof fn lemma_mask_pixel_at(b: u8, s: u64, c: u64)
    by (bit_vector)
    requires
        s < 64,
        c < 64,
    ensures
        pixel(byte_mask(b, s), c) == sprite_bit(b, ((c + 64 - s) % 64) as u64),
{
}

} // verus!
