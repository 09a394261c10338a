use vstd::prelude::*;
use vstd::arithmetic::power2::pow2;

verus! {

/// Bounds of the nibble and small-field extractions of a byte.
pub proof fn lemma_u8_nibbles(b: u8)
    by (bit_vector)
    ensures
        (b & 0xF0) >> 4 <= 15,
        (b & 0xF0) >> 4 == b / 16,
        b & 0x0F == b % 16,
        b & 0x0F <= 15,
        b >> 4 <= 15,
        b & 7 <= 7,
        b & 3 <= 3,
        b & 1 <= 1,
        (b & 0x70) >> 4 <= 7,
        (b & 0xC0) >> 6 <= 3,
        (b & 0x60) >> 5 <= 3,
        b & 0x3F <= 0x3F,
        b & 0x07 == b % 8,
{
}

/// Shifting right never increases a value.
pub proof fn lemma_u32_shr_le(x: u32, s: u32)
    by (bit_vector)
    ensures
        x >> s <= x,
{
}

/// Bounds of the low byte and of bits 8..=10 of a word-sized value.
pub proof fn lemma_u32_low_bytes(x: u32)
    by (bit_vector)
    ensures
        x & 0xFF <= 0xFF,
        (x & 0x700) >> 8 <= 7,
{
}

/// A single extracted bit is 0 or 1.
pub proof fn lemma_duty_bit(pattern: u8, shift: u8)
    by (bit_vector)
    ensures
        (pattern >> shift) & 1 <= 1,
        pattern & 1 <= 1,
{
}

/// An 11-bit period assembled from a low byte and three high bits.
pub proof fn lemma_period_bits(lo: u32, hi: u32)
    by (bit_vector)
    requires
        lo <= 0xFF,
        hi <= 0xFF,
    ensures
        (hi & 7) << 8 | lo <= 0x7FF,
{
}

/// A left shift of a small value is a multiplication by a power of two.
pub proof fn lemma_shl_is_mul_pow2(x: u32, s: u32)
    requires
        x <= 112,
        s <= 15,
    ensures
        x << s == x * pow2(s as nat),
        x * pow2(s as nat) <= 112 * 0x8000,
{
    vstd::arithmetic::power2::lemma2_to64();
    vstd::arithmetic::power2::lemma_pow2_pos(s as nat);
    if s < 15 {
        vstd::arithmetic::power2::lemma_pow2_strictly_increases(s as nat, 15);
    }
    assert(x * pow2(s as nat) <= 112 * 0x8000) by (nonlinear_arith)
        requires
            x <= 112,
            pow2(s as nat) <= 0x8000,
            pow2(s as nat) >= 0,
    ;
    vstd::bits::lemma_u32_shl_is_mul(x, s);
}

/// Shifting a byte right never increases it.
pub proof fn lemma_u8_shr_le(x: u8, s: u8)
    by (bit_vector)
    ensures
        x >> s <= x,
{
}

/// The low bit of a value is 0 or 1.
pub proof fn lemma_u64_low_bit(x: u64)
    by (bit_vector)
    ensures
        x & 0x01 <= 1,
{
}

/// Masking never increases a value.
pub proof fn lemma_and_le_u8(x: u8, m: u8)
    by (bit_vector)
    ensures
        x & m <= m,
        x & m <= x,
{
}

/// Masking never increases a value.
pub proof fn lemma_and_le_usize(x: usize, m: usize)
    by (bit_vector)
    ensures
        x & m <= m,
        x & m <= x,
{
}

/// The MBC1 bank number assembled from two upper bits and five lower bits
/// stays below 128.
pub proof fn lemma_mbc1_upper_bank(byte: u8, mask: u8, cur: usize)
    by (bit_vector)
    requires
        mask <= 3,
    ensures
        (((byte & mask) << 5u8) as usize) | (cur & 0b11111) < 128,
{
}

/// Masking to the low nibble twice is masking once.
pub proof fn lemma_nibble_idem(x: u8)
    by (bit_vector)
    ensures
        (x & 0xF) & 0xF == x & 0xF,
{
}

/// Or-ing bit 8 into a 9-bit bank number keeps it below 512.
pub proof fn lemma_mbc5_high_bit(cur: usize, b: usize)
    by (bit_vector)
    requires
        cur < 512,
    ensures
        cur | ((b & 1) << 8usize) < 512,
{
}

/// A byte with its low five (four) bits clear leaves room to add one, and
/// the MBC1 upper-bank mask of a bank count up to 128 is at most 3.
pub proof fn lemma_bank_increment(byte: u8, rb: u8)
    by (bit_vector)
    ensures
        byte & 0b11111 == 0 ==> byte <= 0xE0,
        byte & 0b1111 == 0 ==> byte <= 0xF0,
        31 <= rb <= 127 ==> ((rb - 0b11111) as u8) >> 5u8 <= 3,
{
}

/// Picking either tile of an 8x16 object pair stays below 256.
pub proof fn lemma_tile_pair(t: usize)
    by (bit_vector)
    requires
        t < 256,
    ensures
        t | 0x01 < 256,
        t & 0xFE < 256,
{
}

/// A 2-bit DMG palette field is at most 3.
pub proof fn lemma_palette_index(colour_id: u8, palette: u8)
    by (bit_vector)
    requires
        colour_id <= 3,
    ensures
        (palette & (0x03u8 << (colour_id << 1u8))) >> (colour_id << 1u8) <= 3,
        colour_id << 1u8 <= 6,
{
}

/// The three 5-bit channels of an RGB555 value are at most 31.
pub proof fn lemma_u16_five_bits(c: u16)
    by (bit_vector)
    ensures
        c & 0x1F <= 31,
        (c >> 5u16) & 0x1F <= 31,
        (c >> 10u16) & 0x1F <= 31,
{
}

/// An odd value has its low bit set.
pub proof fn lemma_odd_low_bit(x: usize)
    requires
        x % 2 == 1,
    ensures
        1usize & x == 1,
{
    assert(x % 2 == 1 ==> 1usize & x == 1) by (bit_vector);
}

} // verus!
