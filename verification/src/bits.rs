use vstd::prelude::*;

verus! {

/// `a` with the element at index `i` replaced by `v`.
pub open spec fn put<T, const N: usize>(a: [T; N], i: int, v: T) -> [T; N] {
    vstd::array::spec_array_update(a, i, v)
}

/// The array whose elements all are `v`.
pub open spec fn fill<T: Copy, const N: usize>(v: T) -> [T; N] {
    vstd::array::spec_array_fill_for_copy_type::<T, N>(v)
}

/// Ranges of the register fields that are cut out of a byte.
pub proof fn lemma_byte_fields(v: u8)
    by (bit_vector)
    ensures
        v & 0x01 <= 1,
        v & 0x03 <= 3,
        v & 0x07 <= 7,
        v & 0x0F <= 15,
        v & 0x1F <= 31,
        v & 0x3F <= 63,
        v & 0x7F <= 127,
        (v >> 1) & 0x03 <= 3,
        (v >> 1) & 0x07 <= 7,
        (v >> 3) & 0x1F <= 31,
        (v >> 4) & 0x07 <= 7,
        (v >> 4) & 0x0F <= 15,
        (v >> 6) & 0x03 <= 3,
        (v >> 3) <= 31,
        (v >> 4) <= 15,
{
}

/// Setting either part of an 11-bit period keeps it within 11 bits, and a
/// right shift never makes a number larger.
pub proof fn lemma_period_bits(p: u16, value: u8, shift: u8)
    by (bit_vector)
    requires
        p <= 0x7FF,
        shift <= 7,
    ensures
        (p & 0xFF00) | value as u16 <= 0x7FF,
        (p & 0x00FF) | (((value & 0x07) as u16) << 8) <= 0x7FF,
        p >> shift <= p,
{
}

/// The bits of a byte by division.
pub proof fn lemma_byte_bits(v: u8)
    by (bit_vector)
    ensures
        v & 0x01 == v % 2,
        v & 0x03 == v % 4,
        v & 0x07 == v % 8,
        v & 0x0F == v % 16,
        v & 0x1F == v % 32,
        v & 0x3F == v % 64,
        v & 0x7F == v % 128,
        (v & 0x01 != 0) == (v % 2 == 1),
        (v & 0x02 != 0) == (v / 2u8 % 2 == 1),
        (v & 0x04 != 0) == (v / 4u8 % 2 == 1),
        (v & 0x08 != 0) == (v / 8u8 % 2 == 1),
        (v & 0x10 != 0) == (v / 16u8 % 2 == 1),
        (v & 0x20 != 0) == (v / 32u8 % 2 == 1),
        (v & 0x40 != 0) == (v / 64u8 % 2 == 1),
        (v & 0x80 != 0) == (v >= 128),
        (v & 0xF0 != 0) == (v >= 16),
        (v >> 6) & 0x03 == v / 64u8,
        (v >> 4) & 0x07 == v / 16u8 % 8,
        (v >> 4) & 0x0F == v / 16u8,
        (v >> 3) & 0x1F == v / 8u8,
        (v >> 4) & 0x01 == v / 16u8 % 2,
        (v >> 3) & 0x01 == v / 8u8 % 2,
        (v >> 1) & 0x07 == v / 2u8 % 8,
        (v >> 1) & 0x03 == v / 2u8 % 4,
        v >> 1 == v / 2u8,
        v >> 2 == v / 4u8,
        v >> 3 == v / 8u8,
        v >> 4 == v / 16u8,
        v >> 5 == v / 32u8,
        v >> 6 == v / 64u8,
        v >> 7 == v / 128u8,
{
}

/// Words put together from bytes, in either order.
pub proof fn lemma_word_bits(w: u16, lo: u8, hi: u8)
    by (bit_vector)
    ensures
        (((w & 0xFF00) | lo as u16) & 0x00FF) | (((hi & 0x07) as u16) << 8) == (256u16 * (hi as u16
            % 8u16) + lo as u16) as u16,
        (((w & 0x00FF) | (((hi & 0x07) as u16) << 8)) & 0xFF00) | lo as u16 == (256u16 * (hi as u16
            % 8u16) + lo as u16) as u16,
        (((w & 0x0F00) | lo as u16) & 0x00FF) | (((hi & 0x0F) as u16) << 8) == (256u16 * (hi as u16
            % 16u16) + lo as u16) as u16,
        (((w & 0x00FF) | (((hi & 0x0F) as u16) << 8)) & 0x0F00) | lo as u16 == (256u16 * (hi as u16
            % 16u16) + lo as u16) as u16,
        (((hi & 0x0F) as u16) << 8) | lo as u16 == (256u16 * (hi as u16 % 16u16) + lo as u16) as u16,
        ((hi as u16) << 8) | lo as u16 == (256u16 * (hi as u16) + lo as u16) as u16,
        lo as u16 | (((hi & 0x01) as u16) << 8) == (256u16 * (hi as u16 % 2u16) + lo as u16) as u16,
        (((w & 0xFF00) | lo as u16) & 0x00FF) | ((hi as u16) << 8) == (256u16 * (hi as u16)
            + lo as u16) as u16,
        (w & 0x00FF) as u8 == (w % 256u16) as u8,
        (w >> 8) as u8 == (w / 256u16) as u8,
{
}

} // verus!
