//! Bit-level facts shared by the chip models.
//!
//! The chips speak in nibbles (4-bit digits), bytes, and packed words;
//! these lemmas relate the masking, shifting and joining the hardware
//! does to the arithmetic the contracts are written in. Each fact gets
//! its own broadcast lemma, so that its term shape alone brings it in;
//! the bit-level proofs themselves sit in a handful of bundles.

use vstd::prelude::*;

verus! {

/// Every mask, shift and complement fact about one byte at once.
proof fn u8_facts(b: u8)
    ensures
        (b & 1) == b % 2,
        (b & 3) == b % 4,
        (b & 7) == b % 8,
        (b & 0xF) == b % 16,
        (b & 0x1F) == b % 32,
        (b & 0x3F) == b % 64,
        (b & 0b1110) == (b % 16) - (b % 2),
        ((b & 0b1000_0000) == 0b1000_0000) == (b >= 0x80),
        (b >> 1) == b / 2,
        (b >> 2) == b / 4,
        (b >> 3) == b / 8,
        (b >> 4) == b / 16,
        (b >> 5) == b / 32,
        (b >> 6) == b / 64,
        (b >> 7) == b / 128,
        (b << 1) == (b * 2) % 0x100,
        (b << 4) == (b * 16) % 0x100,
        (b << 4) == (b % 16) * 16,
        (!b) == 255 - b,
        b % 2 == 0 ==> (b | 1) == b + 1,
        b % 16 < 8 ==> (b | 8) == (b % 16) + (b / 16) * 16 + 8,
{
    assert(((b & 1) == b % 2) && ((b & 3) == b % 4) && ((b & 7) == b % 8) && ((b & 0xF) == b % 16)
        && ((b & 0x1F) == b % 32) && ((b & 0x3F) == b % 64) && ((b & 0b1110) == (b % 16) - (b % 2))
        && (((b & 0b1000_0000) == 0b1000_0000) == (b >= 0x80)) && ((b >> 1) == b / 2) && ((b >> 2)
        == b / 4) && ((b >> 3) == b / 8) && ((b >> 4) == b / 16) && ((b >> 5) == b / 32) && ((b
        >> 6) == b / 64) && ((b >> 7) == b / 128) && ((b << 1) == (b * 2) % 0x100) && ((b << 4)
        == (b * 16) % 0x100) && ((b << 4) == (b % 16) * 16) && ((!b) == 255 - b) && (b % 2 == 0
        ==> (b | 1) == b + 1) && (b % 16 < 8 ==> (b | 8) == (b % 16) + (b / 16) * 16 + 8))
        by (bit_vector);
}

/// Every mask and shift fact about one word at once.
proof fn u16_facts(w: u16)
    ensures
        (w & 1) == w % 2,
        (w & 0b11) == w % 4,
        (w & 0xF) == w % 16,
        (w & 0b11111) == w % 32,
        (w & 0b1111111) == w % 128,
        (w & 0xFF) == w % 0x100,
        (w & 0x1FF) == w % 0x200,
        (w & 0x3FF) == w % 0x400,
        (w & 0x7FF) == w % 0x800,
        (w & 0xFFF) == w % 0x1000,
        (w & 0x3FFF) == w % 0x4000,
        (w & 0xFF00) == (w / 0x100) * 0x100,
        (w & 0xF00) == ((w / 0x100) % 16) * 0x100,
        (w >> 1) == w / 2,
        (w >> 2) == w / 4,
        (w >> 4) == w / 16,
        (w >> 5) == w / 32,
        (w >> 7) == w / 128,
        (w >> 8) == w / 0x100,
        (w >> 9) == w / 0x200,
{
    assert(((w & 1) == w % 2) && ((w & 0b11) == w % 4) && ((w & 0xF) == w % 16) && ((w & 0b11111)
        == w % 32) && ((w & 0b1111111) == w % 128) && ((w & 0xFF) == w % 0x100) && ((w & 0x1FF)
        == w % 0x200) && ((w & 0x3FF) == w % 0x400) && ((w & 0x7FF) == w % 0x800) && ((w & 0xFFF)
        == w % 0x1000) && ((w & 0x3FFF) == w % 0x4000) && ((w & 0xFF00) == (w / 0x100) * 0x100)
        && ((w & 0xF00) == ((w / 0x100) % 16) * 0x100) && ((w >> 1) == w / 2) && ((w >> 2) == w
        / 4) && ((w >> 4) == w / 16) && ((w >> 5) == w / 32) && ((w >> 7) == w / 128) && ((w >> 8)
        == w / 0x100) && ((w >> 9) == w / 0x200)) by (bit_vector);
}

/// Every fact about joining and bounding ORed words at once.
proof fn u16_join_facts(x: u16, y: u16)
    ensures
        x < 0x100 && y < 0x100 ==> (x | (y << 8)) == x + y * 0x100,
        x < 0x100 && y < 0x100 ==> ((y << 8) | x) == x + y * 0x100,
        x % 0x100 == 0 && y < 0x100 ==> (x | y) == x + y,
        x < 0x400 && y < 0x400 ==> (x | y) < 0x400,
        x < 0x4000 && y < 0x4000 ==> (x | y) < 0x4000,
{
    assert((x < 0x100 && y < 0x100 ==> (x | (y << 8)) == x + y * 0x100) && (x < 0x100 && y < 0x100
        ==> ((y << 8) | x) == x + y * 0x100) && (x % 0x100 == 0 && y < 0x100 ==> (x | y) == x + y)
        && (x < 0x400 && y < 0x400 ==> (x | y) < 0x400) && (x < 0x4000 && y < 0x4000 ==> (x | y)
        < 0x4000)) by (bit_vector);
}

/// Masking a byte keeps its remainder by two.
pub broadcast proof fn lemma_u8_mask1(b: u8)
    ensures
        #[trigger] (b & 1) == b % 2,
{
    u8_facts(b);
}

/// Masking a byte keeps its remainder by four.
pub broadcast proof fn lemma_u8_mask3(b: u8)
    ensures
        #[trigger] (b & 3) == b % 4,
{
    u8_facts(b);
}

/// Masking a byte keeps its remainder by eight.
pub broadcast proof fn lemma_u8_mask7(b: u8)
    ensures
        #[trigger] (b & 7) == b % 8,
{
    u8_facts(b);
}

/// Masking a byte keeps its low nibble.
pub broadcast proof fn lemma_u8_mask15(b: u8)
    ensures
        #[trigger] (b & 0xF) == b % 16,
{
    u8_facts(b);
}

/// Masking a byte keeps its low five bits.
pub broadcast proof fn lemma_u8_mask31(b: u8)
    ensures
        #[trigger] (b & 0x1F) == b % 32,
{
    u8_facts(b);
}

/// Masking a byte keeps its low six bits.
pub broadcast proof fn lemma_u8_mask63(b: u8)
    ensures
        #[trigger] (b & 0x3F) == b % 64,
{
    u8_facts(b);
}

/// The even-register mask clears the lowest bit of the nibble.
pub broadcast proof fn lemma_u8_mask_even(b: u8)
    ensures
        #[trigger] (b & 0b1110) == (b % 16) - (b % 2),
{
    u8_facts(b);
}

/// The top-bit test reads the sign.
pub broadcast proof fn lemma_u8_top_bit(b: u8)
    ensures
        (#[trigger] (b & 0b1000_0000) == 0b1000_0000) == (b >= 0x80),
{
    u8_facts(b);
}

/// Shifting a byte right by one divides it by two.
pub broadcast proof fn lemma_u8_shr1(b: u8)
    ensures
        #[trigger] (b >> 1) == b / 2,
{
    u8_facts(b);
}

/// Shifting a byte right by two divides it by four.
pub broadcast proof fn lemma_u8_shr2(b: u8)
    ensures
        #[trigger] (b >> 2) == b / 4,
{
    u8_facts(b);
}

/// Shifting a byte right by four reads its high nibble.
pub broadcast proof fn lemma_u8_shr4(b: u8)
    ensures
        #[trigger] (b >> 4) == b / 16,
{
    u8_facts(b);
}

/// Shifting a byte right by five divides it by thirty-two.
pub broadcast proof fn lemma_u8_shr5(b: u8)
    ensures
        #[trigger] (b >> 5) == b / 32,
{
    u8_facts(b);
}

/// Shifting a byte right by six reads its top quarter.
pub broadcast proof fn lemma_u8_shr6(b: u8)
    ensures
        #[trigger] (b >> 6) == b / 64,
{
    u8_facts(b);
}

/// Shifting a byte right by seven reads its top bit.
pub broadcast proof fn lemma_u8_shr7(b: u8)
    ensures
        #[trigger] (b >> 7) == b / 128,
{
    u8_facts(b);
}

/// Shifting a byte left by one doubles it, truncating.
pub broadcast proof fn lemma_u8_shl1(b: u8)
    ensures
        #[trigger] (b << 1) == (b * 2) % 0x100,
{
    u8_facts(b);
}

/// Shifting a byte left by four moves its low nibble up, truncating.
pub broadcast proof fn lemma_u8_shl4(b: u8)
    ensures
        #[trigger] (b << 4) == (b * 16) % 0x100,
{
    u8_facts(b);
}

/// The same shift read as the low nibble times sixteen.
pub broadcast proof fn lemma_u8_shl4_nib(b: u8)
    ensures
        #[trigger] (b << 4) == (b % 16) * 16,
{
    u8_facts(b);
}

/// A byte's complement counts down from all-ones.
pub broadcast proof fn lemma_u8_not(b: u8)
    ensures
        #[trigger] (!b) == 255 - b,
{
    u8_facts(b);
}

/// ORing one into an even byte is an addition.
pub broadcast proof fn lemma_u8_or1(b: u8)
    ensures
        b % 2 == 0 ==> #[trigger] (b | 1) == b + 1,
{
    u8_facts(b);
}

/// ORing eight into a byte whose nibble has room is an addition.
pub broadcast proof fn lemma_u8_or8(b: u8)
    ensures
        b % 16 < 8 ==> #[trigger] (b | 8) == (b % 16) + (b / 16) * 16 + 8,
{
    u8_facts(b);
}

/// Masking a word keeps its remainder by two.
pub broadcast proof fn lemma_u16_mask1(w: u16)
    ensures
        #[trigger] (w & 1) == w % 2,
{
    u16_facts(w);
}

/// Masking a word keeps its remainder by four.
pub broadcast proof fn lemma_u16_mask3(w: u16)
    ensures
        #[trigger] (w & 0b11) == w % 4,
{
    u16_facts(w);
}

/// Masking a word keeps its low nibble.
pub broadcast proof fn lemma_u16_mask15(w: u16)
    ensures
        #[trigger] (w & 0xF) == w % 16,
{
    u16_facts(w);
}

/// Masking a word keeps its low five bits.
pub broadcast proof fn lemma_u16_mask31(w: u16)
    ensures
        #[trigger] (w & 0b11111) == w % 32,
{
    u16_facts(w);
}

/// Masking a word keeps its low seven bits.
pub broadcast proof fn lemma_u16_mask127(w: u16)
    ensures
        #[trigger] (w & 0b1111111) == w % 128,
{
    u16_facts(w);
}

/// Masking a word keeps its low byte.
pub broadcast proof fn lemma_u16_mask255(w: u16)
    ensures
        #[trigger] (w & 0xFF) == w % 0x100,
{
    u16_facts(w);
}

/// Masking a word keeps its low nine bits.
pub broadcast proof fn lemma_u16_mask511(w: u16)
    ensures
        #[trigger] (w & 0x1FF) == w % 0x200,
{
    u16_facts(w);
}

/// Masking a word keeps its low ten bits.
pub broadcast proof fn lemma_u16_mask1023(w: u16)
    ensures
        #[trigger] (w & 0x3FF) == w % 0x400,
{
    u16_facts(w);
}

/// Masking a word keeps its low eleven bits.
pub broadcast proof fn lemma_u16_mask2047(w: u16)
    ensures
        #[trigger] (w & 0x7FF) == w % 0x800,
{
    u16_facts(w);
}

/// Masking a word keeps its low twelve bits.
pub broadcast proof fn lemma_u16_mask4095(w: u16)
    ensures
        #[trigger] (w & 0xFFF) == w % 0x1000,
{
    u16_facts(w);
}

/// Masking a word keeps its low fourteen bits.
pub broadcast proof fn lemma_u16_mask16383(w: u16)
    ensures
        #[trigger] (w & 0x3FFF) == w % 0x4000,
{
    u16_facts(w);
}

/// Masking a word's high byte rounds it down to the byte.
pub broadcast proof fn lemma_u16_mask_high(w: u16)
    ensures
        #[trigger] (w & 0xFF00) == (w / 0x100) * 0x100,
{
    u16_facts(w);
}

/// Masking a word's page nibble keeps the page, cleared below.
pub broadcast proof fn lemma_u16_mask_page(w: u16)
    ensures
        #[trigger] (w & 0xF00) == ((w / 0x100) % 16) * 0x100,
{
    u16_facts(w);
}

/// Shifting a word right by one divides it by two.
pub broadcast proof fn lemma_u16_shr1(w: u16)
    ensures
        #[trigger] (w >> 1) == w / 2,
{
    u16_facts(w);
}

/// Shifting a word right by two divides it by four.
pub broadcast proof fn lemma_u16_shr2(w: u16)
    ensures
        #[trigger] (w >> 2) == w / 4,
{
    u16_facts(w);
}

/// Shifting a word right by four divides it by sixteen.
pub broadcast proof fn lemma_u16_shr4(w: u16)
    ensures
        #[trigger] (w >> 4) == w / 16,
{
    u16_facts(w);
}

/// Shifting a word right by five divides it by thirty-two.
pub broadcast proof fn lemma_u16_shr5(w: u16)
    ensures
        #[trigger] (w >> 5) == w / 32,
{
    u16_facts(w);
}

/// Shifting a word right by seven divides it by 128.
pub broadcast proof fn lemma_u16_shr7(w: u16)
    ensures
        #[trigger] (w >> 7) == w / 128,
{
    u16_facts(w);
}

/// Shifting a word right by eight reads its high byte.
pub broadcast proof fn lemma_u16_shr8(w: u16)
    ensures
        #[trigger] (w >> 8) == w / 0x100,
{
    u16_facts(w);
}

/// Shifting a word right by nine reads past a nine-bit field.
pub broadcast proof fn lemma_u16_shr9(w: u16)
    ensures
        #[trigger] (w >> 9) == w / 0x200,
{
    u16_facts(w);
}

/// Combining a low and a high byte in a word yields low + 256 * high.
pub broadcast proof fn lemma_u16_byte_join(x: u16, y: u16)
    ensures
        x < 0x100 && y < 0x100 ==> #[trigger] (x | (y << 8)) == x + y * 0x100,
{
    u16_join_facts(x, y);
}

/// The same join with the high byte written first.
pub broadcast proof fn lemma_u16_byte_join_rev(x: u16, y: u16)
    ensures
        x < 0x100 && y < 0x100 ==> #[trigger] ((y << 8) | x) == x + y * 0x100,
{
    u16_join_facts(x, y);
}

/// ORing a byte under a word whose low byte is clear is an addition.
pub broadcast proof fn lemma_u16_or_low_byte(x: u16, y: u16)
    ensures
        x % 0x100 == 0 && y < 0x100 ==> #[trigger] (x | y) == x + y,
{
    u16_join_facts(x, y);
}

/// The OR of two ten-bit values stays inside ten bits.
pub broadcast proof fn lemma_u16_or_bound10(x: u16, y: u16)
    ensures
        x < 0x400 && y < 0x400 ==> #[trigger] (x | y) < 0x400,
{
    u16_join_facts(x, y);
}

/// The OR of two fourteen-bit values stays inside fourteen bits.
pub broadcast proof fn lemma_u16_or_bound14(x: u16, y: u16)
    ensures
        x < 0x4000 && y < 0x4000 ==> #[trigger] (x | y) < 0x4000,
{
    u16_join_facts(x, y);
}

/// Combining two nibbles yields low + 16 * high.
pub broadcast proof fn lemma_u8_nib_join(lo8: u8, hi8: u8)
    ensures
        lo8 < 16 && hi8 < 16 ==> #[trigger] (lo8 | (hi8 << 4)) == lo8 + hi8 * 16,
{
    assert(lo8 < 16 && hi8 < 16 ==> (lo8 | (hi8 << 4)) == lo8 + hi8 * 16) by (bit_vector);
}

/// The same join with the high nibble written first.
pub broadcast proof fn lemma_u8_nib_join_rev(lo8: u8, hi8: u8)
    ensures
        lo8 < 16 && hi8 < 16 ==> #[trigger] ((hi8 << 4) | lo8) == lo8 + hi8 * 16,
{
    assert(lo8 < 16 && hi8 < 16 ==> ((hi8 << 4) | lo8) == lo8 + hi8 * 16) by (bit_vector);
}

/// Packing a twelve-bit address from its chip, high and low nibbles.
pub broadcast proof fn lemma_u16_nib3_join(chip: u16, mid: u16, end: u16)
    ensures
        chip < 16 && mid < 16 && end < 16 ==> #[trigger] ((chip << 8) | (mid << 4) | end) == chip
            * 0x100 + mid * 16 + end,
        chip < 16 && mid < 16 && end < 16 ==> ((chip << 8) | (mid << 4) | end) < 0x1000,
{
    assert(chip < 16 && mid < 16 && end < 16 ==> ((chip << 8) | (mid << 4) | end) == chip * 0x100
        + mid * 16 + end && ((chip << 8) | (mid << 4) | end) < 0x1000) by (bit_vector);
}

/// Combining a low and a high byte yields low + 256 * high.
pub broadcast proof fn lemma_u16_from_bytes(lo8: u8, hi8: u8)
    ensures
        #[trigger] ((lo8 as u16) | ((hi8 as u16) << 8)) == lo8 + hi8 * 0x100,
{
    assert(((lo8 as u16) | ((hi8 as u16) << 8)) == lo8 + hi8 * 0x100) by (bit_vector);
}

} // verus!
