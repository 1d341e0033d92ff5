//! The four condition flags and their packing into the upper nibble of a byte.
use vstd::prelude::*;

verus! {

/// The condition register: zero, subtract, half-carry and carry.
#[derive(Clone, Copy, Debug, PartialEq, Eq, Structural)]
pub struct Flags {
    pub zero: bool,
    pub subtract: bool,
    pub half_carry: bool,
    pub carry: bool,
}

/// Weight of a flag inside the packed byte: `w` when the flag is set, else 0.
pub open spec fn weight(flag: bool, w: int) -> int {
    if flag {
        w
    } else {
        0
    }
}

/// Bit-level facts that tie the shift-and-mask code to the arithmetic model.
proof fn lemma_pack_bits(z: u8, n: u8, h: u8, c: u8)
    by (bit_vector)
    requires
        z <= 1,
        n <= 1,
        h <= 1,
        c <= 1,
    ensures
        (z << 7) | (n << 6) | (h << 5) | (c << 4) == z * 128 + n * 64 + h * 32 + c * 16,
{
}

proof fn lemma_unpack_bits(b: u8)
    by (bit_vector)
    ensures
        ((b >> 7) & 1 != 0) == (b & 0x80 != 0),
        ((b >> 6) & 1 != 0) == (b & 0x40 != 0),
        ((b >> 5) & 1 != 0) == (b & 0x20 != 0),
        ((b >> 4) & 1 != 0) == (b & 0x10 != 0),
{
}

proof fn lemma_mask_weights(b: u8)
    by (bit_vector)
    ensures
        (if b & 0x80 != 0 { 128u8 } else { 0u8 }) + (if b & 0x40 != 0 { 64u8 } else { 0u8 })
            + (if b & 0x20 != 0 { 32u8 } else { 0u8 }) + (if b & 0x10 != 0 { 16u8 } else { 0u8 })
            == b & 0xF0,
{
}

proof fn lemma_weights_mask(z: bool, n: bool, h: bool, c: bool)
    by (bit_vector)
    ensures
        ({
            let zw = if z { 128u8 } else { 0u8 };
            let nw = if n { 64u8 } else { 0u8 };
            let hw = if h { 32u8 } else { 0u8 };
            let cw = if c { 16u8 } else { 0u8 };
            let b: u8 = (zw + nw + hw + cw) as u8;
            &&& (b & 0x80 != 0) == z
            &&& (b & 0x40 != 0) == n
            &&& (b & 0x20 != 0) == h
            &&& (b & 0x10 != 0) == c
            &&& b & 0x0F == 0
        }),
{
}

impl Flags {
    /// The packed byte: Z in bit 7, N in bit 6, H in bit 5, C in bit 4, and a
    /// low nibble of zero.
    pub open spec fn pack(self) -> u8 {
        (weight(self.zero, 128) + weight(self.subtract, 64) + weight(self.half_carry, 32) + weight(
            self.carry,
            16,
        )) as u8
    }

    /// The flags held in the upper nibble of `byte`; the low nibble is ignored.
    pub open spec fn unpack(byte: u8) -> Flags {
        Flags {
            zero: byte & 0x80 != 0,
            subtract: byte & 0x40 != 0,
            half_carry: byte & 0x20 != 0,
            carry: byte & 0x10 != 0,
        }
    }

    /// The flags after an update in which each selector either gives a new
    /// value or leaves the flag as it is.
    pub open spec fn updated(
        self,
        zero: Option<bool>,
        subtract: Option<bool>,
        half_carry: Option<bool>,
        carry: Option<bool>,
    ) -> Flags {
        Flags {
            zero: if let Some(z) = zero { z } else { self.zero },
            subtract: if let Some(s) = subtract { s } else { self.subtract },
            half_carry: if let Some(h) = half_carry { h } else { self.half_carry },
            carry: if let Some(c) = carry { c } else { self.carry },
        }
    }

    /// All four flags clear.
    pub fn new() -> (f: Flags)
        ensures
            f == (Flags { zero: false, subtract: false, half_carry: false, carry: false }),
    {
        Flags { zero: false, subtract: false, half_carry: false, carry: false }
    }

    /// Updates all four flags at once; `None` keeps a flag.
    pub fn set(
        &mut self,
        zero: Option<bool>,
        subtract: Option<bool>,
        half_carry: Option<bool>,
        carry: Option<bool>,
    )
        ensures
            *final(self) == old(self).updated(zero, subtract, half_carry, carry),
    {
        match zero {
            Some(z) => self.zero = z,
            None => {},
        }
        match subtract {
            Some(s) => self.subtract = s,
            None => {},
        }
        match half_carry {
            Some(h) => self.half_carry = h,
            None => {},
        }
        match carry {
            Some(c) => self.carry = c,
            None => {},
        }
    }

    /// Packs the flags into a byte.
    pub fn to_byte(&self) -> (b: u8)
        ensures
            b == self.pack(),
    {
        let zero: u8 = if self.zero { 1 } else { 0 };
        let subtract: u8 = if self.subtract { 1 } else { 0 };
        let half_carry: u8 = if self.half_carry { 1 } else { 0 };
        let carry: u8 = if self.carry { 1 } else { 0 };
        proof {
            lemma_pack_bits(zero, subtract, half_carry, carry);
        }
        (zero << 7) | (subtract << 6) | (half_carry << 5) | (carry << 4)
    }

    /// Reads the flags out of the upper nibble of a byte.
    pub fn from_byte(byte: u8) -> (f: Flags)
        ensures
            f == Flags::unpack(byte),
    {
        proof {
            lemma_unpack_bits(byte);
        }
        let zero = ((byte >> 7) & 0b1) != 0;
        let subtract = ((byte >> 6) & 0b1) != 0;
        let half_carry = ((byte >> 5) & 0b1) != 0;
        let carry = ((byte >> 4) & 0b1) != 0;
        Flags { zero, subtract, half_carry, carry }
    }

    /// Unpacking a packed flag register gives the same four flags back.
    pub proof fn lemma_unpack_pack(self)
        ensures
            Flags::unpack(self.pack()) == self,
            self.pack() & 0x0F == 0,
    {
        lemma_weights_mask(self.zero, self.subtract, self.half_carry, self.carry);
    }

    /// Packing the flags read from any byte keeps the byte's upper nibble and
    /// clears the lower one.
    pub proof fn lemma_pack_unpack(byte: u8)
        ensures
            Flags::unpack(byte).pack() == byte & 0xF0,
    {
        lemma_mask_weights(byte);
        lemma_weights_mask(byte & 0x80 != 0, byte & 0x40 != 0, byte & 0x20 != 0, byte & 0x10 != 0);
    }
}

impl From<u8> for Flags {
    fn from(byte: u8) -> (f: Flags) {
        Flags::from_byte(byte)
    }
}

impl vstd::std_specs::convert::FromSpecImpl<u8> for Flags {
    open spec fn obeys_from_spec() -> bool {
        true
    }

    open spec fn from_spec(byte: u8) -> Flags {
        Flags::unpack(byte)
    }
}

impl From<Flags> for u8 {
    fn from(flag: Flags) -> (b: u8) {
        flag.to_byte()
    }
}

impl vstd::std_specs::convert::FromSpecImpl<Flags> for u8 {
    open spec fn obeys_from_spec() -> bool {
        true
    }

    open spec fn from_spec(flag: Flags) -> u8 {
        flag.pack()
    }
}

} // verus!
