//! One pixel as a display word.

use vstd::prelude::*;

verus! {

/// The display word of a pixel: `0x00RRGGBB`, that is the bytes `[0, r, g, b]`
/// read as a big-endian 32-bit number.
pub open spec fn pack_word(r: u8, g: u8, b: u8) -> u32 {
    ((r as u32) << 16) | ((g as u32) << 8) | (b as u32)
}

/// The red channel of a display word.
pub open spec fn red_of(word: u32) -> u8 {
    ((word >> 16) & 0xff) as u8
}

/// The green channel of a display word.
pub open spec fn green_of(word: u32) -> u8 {
    ((word >> 8) & 0xff) as u8
}

/// The blue channel of a display word.
pub open spec fn blue_of(word: u32) -> u8 {
    (word & 0xff) as u8
}

/// Packs one pixel into its display word.
pub fn pack_rgb(r: u8, g: u8, b: u8) -> (word: u32)
    ensures
        word == pack_word(r, g, b),
{
    ((r as u32) << 16) | ((g as u32) << 8) | (b as u32)
}

/// The channels of a display word, red first.
pub fn unpack_rgb(word: u32) -> (channels: (u8, u8, u8))
    ensures
        channels.0 == red_of(word),
        channels.1 == green_of(word),
        channels.2 == blue_of(word),
{
    (((word >> 16) & 0xff) as u8, ((word >> 8) & 0xff) as u8, (word & 0xff) as u8)
}

/// A display word is the number `r * 2^16 + g * 2^8 + b`; its top byte is zero.
pub proof fn pack_word_is_positional(r: u8, g: u8, b: u8)
    ensures
        pack_word(r, g, b) == r as int * 65536 + g as int * 256 + b as int,
        pack_word(r, g, b) <= 0x00ff_ffff,
        pack_word(r, g, b) >> 24 == 0,
{
    assert(((r as u32) << 16) | ((g as u32) << 8) | (b as u32) == (r as u32) * 65536 + (g as u32)
        * 256 + (b as u32)) by (bit_vector);
    assert((((r as u32) << 16) | ((g as u32) << 8) | (b as u32)) >> 24 == 0) by (bit_vector);
}

/// Packing loses nothing: each channel can be read back from the word.
pub proof fn pack_word_keeps_channels(r: u8, g: u8, b: u8)
    ensures
        red_of(pack_word(r, g, b)) == r,
        green_of(pack_word(r, g, b)) == g,
        blue_of(pack_word(r, g, b)) == b,
{
    assert((((((r as u32) << 16) | ((g as u32) << 8) | (b as u32)) >> 16) & 0xff) as u8 == r)
        by (bit_vector);
    assert((((((r as u32) << 16) | ((g as u32) << 8) | (b as u32)) >> 8) & 0xff) as u8 == g)
        by (bit_vector);
    assert(((((r as u32) << 16) | ((g as u32) << 8) | (b as u32)) & 0xff) as u8 == b)
        by (bit_vector);
}

/// Two pixels with the same display word are the same pixel.
pub proof fn pack_word_is_injective(r1: u8, g1: u8, b1: u8, r2: u8, g2: u8, b2: u8)
    requires
        pack_word(r1, g1, b1) == pack_word(r2, g2, b2),
    ensures
        r1 == r2,
        g1 == g2,
        b1 == b2,
{
    pack_word_keeps_channels(r1, g1, b1);
    pack_word_keeps_channels(r2, g2, b2);
}

} // verus!
