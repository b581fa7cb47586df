use vstd::prelude::*;

verus! {

/// The masks that the instructions apply to a byte, stated as arithmetic.
pub proof fn lemma_byte(b: u8)
    ensures
        b & 0x0F == b % 16,
        (b & 0x80 == 0x80) == (b >= 128),
        (b & 0x01 == 0x01) == (b % 2 == 1),
        b & 0xFF == b,
        b | 0 == b,
        0 | b == b,
        b < 32 ==> ((b & 0x10 == 0x10) == (b >= 16)),
        0x60u8 | 0x06u8 == 0x66u8,
{
    assert(b & 0x0F == b % 16 && ((b & 0x80 == 0x80) == (b >= 128)) && ((b & 0x01 == 0x01) == (b % 2
        == 1)) && b & 0xFF == b && b | 0 == b && 0 | b == b && (b < 32 ==> ((b & 0x10 == 0x10) == (b
        >= 16))) && 0x60u8 | 0x06u8 == 0x66u8) by (bit_vector);
}

/// The shifts and rotations of a byte, stated as arithmetic.
pub proof fn lemma_shifts(b: u8)
    ensures
        b << 1u8 == ((b * 2) % 256) as u8,
        (b << 1u8) | 0 == ((b * 2) % 256) as u8,
        (b << 1u8) | 1 == ((b * 2) % 256 + 1) as u8,
        b >> 1u8 == b / 2,
        (b >> 1u8) | 0 == b / 2,
        (b >> 1u8) | 0x80 == (b / 2 + 128) as u8,
        (b >> 4u8) | (b << 4u8) == ((b % 16) * 16 + b / 16) as u8,
{
    assert(b << 1u8 == ((b * 2) % 256) as u8 && (b << 1u8) | 0 == ((b * 2) % 256) as u8 && (b << 1u8)
        | 1 == ((b * 2) % 256 + 1) as u8 && b >> 1u8 == b / 2 && (b >> 1u8) | 0 == b / 2 && (b >> 1u8)
        | 0x80 == (b / 2 + 128) as u8 && (b >> 4u8) | (b << 4u8) == ((b % 16) * 16 + b / 16) as u8)
        by (bit_vector);
}

/// An arithmetic shift right of a byte keeps its top bit.
pub proof fn lemma_sra(b: u8)
    ensures
        ((b as i8) >> 1u8) as u8 == (b / 2 + (b / 128) * 128) as u8,
{
    assert(((b as i8) >> 1u8) as u8 == (b / 2 + (b / 128) * 128) as u8) by (bit_vector);
}

/// The masks that the 16-bit additions use, stated as remainders.
pub proof fn lemma_word(w: u16)
    ensures
        w & 0x07FF == w % 0x800,
        w & 0x000F == w % 16,
        w & 0x00FF == w % 256,
{
    assert(w & 0x07FF == w % 0x800 && w & 0x000F == w % 16 && w & 0x00FF == w % 256) by (bit_vector);
}

/// A byte sign-extended to 16 bits.
pub proof fn lemma_sign_extend(b: u8)
    ensures
        b as i8 as i16 as u16 == (if b >= 128 {
            (b + 0xFF00) as u16
        } else {
            b as u16
        }),
{
    assert(b as i8 as i16 as u16 == (if b >= 128 {
        (b + 0xFF00) as u16
    } else {
        b as u16
    })) by (bit_vector);
}

} // verus!
