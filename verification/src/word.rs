//! Splitting and joining 16-bit words, and the sign extension of 8-bit
//! displacements.
use vstd::prelude::*;

verus! {

/// The 16-bit word whose most significant byte is `hi` and whose least
/// significant byte is `lo`.
#[verifier::opaque]
pub open spec fn word_of(hi: u8, lo: u8) -> u16 {
    (hi as int * 256 + lo as int) as u16
}

/// The most significant byte of `value`.
#[verifier::opaque]
pub open spec fn high_byte(value: u16) -> u8 {
    (value as int / 256) as u8
}

/// The least significant byte of `value`.
#[verifier::opaque]
pub open spec fn low_byte(value: u16) -> u8 {
    (value as int % 256) as u8
}

/// The displacement that `byte` stands for when read as a signed 8-bit
/// number, from -128 to 127.
pub open spec fn signed8(byte: u8) -> int {
    if byte < 128 {
        byte as int
    } else {
        byte as int - 256
    }
}

/// `base + d` modulo 2^16, for a displacement `d` of either sign.
#[verifier::opaque]
pub open spec fn offset_by(base: u16, d: int) -> u16 {
    ((base as int + d) % 0x1_0000) as u16
}

/// The 16-bit two's-complement pattern of the signed displacement in `byte`:
/// adding it with wrap-around adds the displacement.
pub open spec fn sign_extended(byte: u8) -> u16 {
    if byte < 128 {
        byte as u16
    } else {
        (0xFF00 + byte as int) as u16
    }
}

proof fn lemma_word_bits(value: u16, hi: u8, lo: u8)
    by (bit_vector)
    ensures
        ((value & 0xff00) >> 8) == value / 256,
        (value & 0x00ff) == value % 256,
        ((hi as u16) << 8 | (lo as u16)) == (hi as u16) * 256 + (lo as u16),
{
}

/// Joins two bytes into a word, most significant byte first.
pub fn join(hi: u8, lo: u8) -> (value: u16)
    ensures
        value == word_of(hi, lo),
{
    proof {
        reveal(word_of);
        lemma_word_bits(0, hi, lo);
    }
    (hi as u16) << 8 | (lo as u16)
}

/// The most significant byte of a word.
pub fn high(value: u16) -> (b: u8)
    ensures
        b == high_byte(value),
{
    proof {
        reveal(high_byte);
        lemma_word_bits(value, 0, 0);
    }
    ((value & 0xff00) >> 8) as u8
}

/// The least significant byte of a word.
pub fn low(value: u16) -> (b: u8)
    ensures
        b == low_byte(value),
{
    proof {
        reveal(low_byte);
        lemma_word_bits(value, 0, 0);
    }
    (value & 0x00ff) as u8
}

/// `base + n` with wrap-around.
pub fn forward(base: u16, n: u16) -> (address: u16)
    ensures
        address == offset_by(base, n as int),
{
    proof {
        reveal(offset_by);
    }
    base.wrapping_add(n)
}

/// `base - n` with wrap-around.
pub fn backward(base: u16, n: u16) -> (address: u16)
    ensures
        address == offset_by(base, -(n as int)),
{
    proof {
        reveal(offset_by);
    }
    base.wrapping_sub(n)
}

/// Extends a signed 8-bit displacement to 16 bits. Every relative jump and
/// every stack-pointer-relative address goes through this function.
pub fn sign_extend(byte: u8) -> (value: u16)
    ensures
        value == sign_extended(byte),
        forall|base: u16| #[trigger] offset_by(base, signed8(byte)) == base.wrapping_add(value),
{
    let value: u16 = if byte < 128 {
        byte as u16
    } else {
        0xFF00 + byte as u16
    };
    proof {
        assert forall|base: u16| #[trigger]
            offset_by(base, signed8(byte)) == base.wrapping_add(value) by {
            lemma_offset_wraps(base, byte);
        }
    }
    value
}

/// Adding the sign-extended pattern with wrap-around is adding the signed
/// displacement modulo 2^16.
pub proof fn lemma_offset_wraps(base: u16, byte: u8)
    ensures
        offset_by(base, signed8(byte)) == base.wrapping_add(sign_extended(byte)),
{
    reveal(offset_by);
}

/// Splitting a word and joining the halves gives the word back, and the
/// halves of a joined word are the bytes it was joined from. The halves are
/// the quotient and the remainder of a division by 256.
pub proof fn lemma_split_join(value: u16, hi: u8, lo: u8)
    ensures
        word_of(high_byte(value), low_byte(value)) == value,
        high_byte(word_of(hi, lo)) == hi,
        low_byte(word_of(hi, lo)) == lo,
        high_byte(value) == value / 256,
        low_byte(value) == value % 256,
        word_of(hi, lo) == hi * 256 + lo,
{
    reveal(word_of);
    reveal(high_byte);
    reveal(low_byte);
}

/// Moving an address by `d` is adding `d` modulo 2^16.
pub proof fn lemma_offset_by(base: u16, d: int)
    ensures
        offset_by(base, d) as int == (base + d) % 0x1_0000,
{
    reveal(offset_by);
}

} // verus!
