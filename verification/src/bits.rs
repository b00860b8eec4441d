use vstd::prelude::*;

verus! {

/// A bitwise and is no larger than either operand.
pub proof fn lemma_and_le(x: u32, m: u32)
    by (bit_vector)
    ensures
        x & m <= m,
        x & m <= x,
        x & 0x10 == 0 || x & 0x10 == 0x10,
{
}

/// A flag bit set in a halfword reads back set; a signed word shifted right by 15 is a
/// 17-bit value; zero shifted right stays zero.
pub proof fn lemma_sample_bits(v: u16)
    by (bit_vector)
    ensures
        0i16 >> 6i16 == 0i16,
        (v | 0x40u16) & 0x40u16 == 0x40u16,
        forall|x: i32| #![trigger x >> 15i32] -0x10000 <= x >> 15i32 && x >> 15i32 < 0x10000,
{
}

/// Bounds of the bit fields of a halfword, and of its shifts.
pub proof fn lemma_u16_fields(v: u16, k: u32)
    by (bit_vector)
    ensures
        v & 0xf <= 0xf,
        (v >> 4u16) & 0xf <= 0xf,
        v & 0x1f <= 0x1f,
        v & 0x3 <= 3,
        v & 0x7f <= 0x7f,
        (v >> 2u16) & 0x1f <= 0x1f,
        (v >> 6u16) & 0x3 <= 3,
        (v >> 6u16) & 0x7f <= 0x7f,
        (v >> 8u16) & 0x3 <= 3,
        (v >> 8u16) & 0x1f <= 0x1f,
        (v >> 8u16) & 0x7f <= 0x7f,
        (v >> 10u16) & 0x1f <= 0x1f,
        v >> 15u16 <= 1,
        v >> 2u16 <= v,
        v >> 1u16 <= v,
        (v >> 15u16) & 1 != 1 ==> v < 0x8000,
        v.wrapping_shr(k) <= v,
{
}

/// A counter below 0x10000 has bit 15 clear exactly when it is below 0x8000.
pub proof fn lemma_bit15(c: u32)
    by (bit_vector)
    requires
        c < 0x10000,
    ensures
        ((c >> 15u32) & 1 == 0) == (c < 0x8000),
{
}

} // verus!
