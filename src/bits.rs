use vstd::prelude::*;

verus! {

/// Byte `k` (0 = least significant) of a little-endian word.
pub open spec fn byte_of(w: u32, k: u64) -> u8 {
    ((w >> (8 * k) as u32) & 0xFF) as u8
}

/// `w` with byte `k` replaced by `b`.
pub open spec fn with_byte(w: u32, k: u64, b: u8) -> u32 {
    (w & !((0xFFu32) << (8 * k) as u32)) | ((b as u32) << (8 * k) as u32)
}

/// The word whose four little-endian bytes are `b0..b3`.
pub open spec fn word_of(b0: u8, b1: u8, b2: u8, b3: u8) -> u32 {
    (b0 as u32) | ((b1 as u32) << 8) | ((b2 as u32) << 16) | ((b3 as u32) << 24)
}

pub open spec fn half_of(b0: u8, b1: u8) -> u16 {
    ((b0 as u16) | ((b1 as u16) << 8)) as u16
}

pub fn get_byte(w: u32, k: u64) -> (r: u8)
    requires
        k < 4,
    ensures
        r == byte_of(w, k),
{
    ((w >> (8 * k) as u32) & 0xFF) as u8
}

pub fn set_byte(w: u32, k: u64, b: u8) -> (r: u32)
    requires
        k < 4,
    ensures
        r == with_byte(w, k, b),
{
    (w & !((0xFFu32) << (8 * k) as u32)) | ((b as u32) << (8 * k) as u32)
}

/// Splitting a word into bytes and putting them back together gives the word.
pub proof fn lemma_word_bytes(w: u32)
    ensures
        word_of(byte_of(w, 0), byte_of(w, 1), byte_of(w, 2), byte_of(w, 3)) == w,
{
    assert(word_of(
        ((w >> 0u32) & 0xFF) as u8,
        ((w >> 8u32) & 0xFF) as u8,
        ((w >> 16u32) & 0xFF) as u8,
        ((w >> 24u32) & 0xFF) as u8,
    ) == w) by (bit_vector);
}

} // verus!
