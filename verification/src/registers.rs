//! The eight byte registers and their four 16-bit paired views.
use vstd::prelude::*;
use crate::flags::Flags;
use crate::word::{high, high_byte, join, lemma_split_join, low, low_byte, word_of};

verus! {

/// The register file: seven byte registers and the flag register `f`.
#[derive(Clone, Copy, Debug, PartialEq, Eq, Structural)]
pub struct Registers {
    pub a: u8,
    pub b: u8,
    pub c: u8,
    pub d: u8,
    pub e: u8,
    pub f: Flags,
    pub h: u8,
    pub l: u8,
}

proof fn lemma_clear_low_nibble(value: u16, hi: u8, lo: u8)
    by (bit_vector)
    requires
        hi == value / 256,
        lo == value % 256,
    ensures
        (hi as u16) * 256 + ((lo & 0xF0) as u16) == value & 0xFFF0,
{
}

impl Registers {
    /// The pair AF: `a` above the packed flags.
    pub open spec fn af(self) -> u16 {
        word_of(self.a, self.f.pack())
    }

    /// The pair BC.
    pub open spec fn bc(self) -> u16 {
        word_of(self.b, self.c)
    }

    /// The pair DE.
    pub open spec fn de(self) -> u16 {
        word_of(self.d, self.e)
    }

    /// The pair HL.
    pub open spec fn hl(self) -> u16 {
        word_of(self.h, self.l)
    }

    /// The registers after a write of `value` to AF: the high byte goes to
    /// `a`, the low byte is unpacked into the flags.
    pub open spec fn with_af(self, value: u16) -> Registers {
        Registers { a: high_byte(value), f: Flags::unpack(low_byte(value)), ..self }
    }

    /// The registers after a write of `value` to BC.
    pub open spec fn with_bc(self, value: u16) -> Registers {
        Registers { b: high_byte(value), c: low_byte(value), ..self }
    }

    /// The registers after a write of `value` to DE.
    pub open spec fn with_de(self, value: u16) -> Registers {
        Registers { d: high_byte(value), e: low_byte(value), ..self }
    }

    /// The registers after a write of `value` to HL.
    pub open spec fn with_hl(self, value: u16) -> Registers {
        Registers { h: high_byte(value), l: low_byte(value), ..self }
    }

    /// The register file at reset: every register zero, every flag clear.
    pub open spec fn reset() -> Registers {
        Registers {
            a: 0,
            b: 0,
            c: 0,
            d: 0,
            e: 0,
            f: Flags { zero: false, subtract: false, half_carry: false, carry: false },
            h: 0,
            l: 0,
        }
    }

    /// A register file in its reset state.
    pub fn new() -> (r: Registers)
        ensures
            r == Registers::reset(),
    {
        Registers { a: 0, b: 0, c: 0, d: 0, e: 0, f: Flags::new(), h: 0, l: 0 }
    }

    pub fn get_af(&self) -> (value: u16)
        ensures
            value == self.af(),
    {
        join(self.a, self.f.to_byte())
    }

    pub fn set_af(&mut self, value: u16)
        ensures
            *final(self) == old(self).with_af(value),
    {
        let a: u8 = high(value);
        let f: Flags = Flags::from_byte(low(value));
        self.a = a;
        self.f = f;
    }

    pub fn get_bc(&self) -> (value: u16)
        ensures
            value == self.bc(),
    {
        join(self.b, self.c)
    }

    pub fn set_bc(&mut self, value: u16)
        ensures
            *final(self) == old(self).with_bc(value),
    {
        let b: u8 = high(value);
        let c: u8 = low(value);
        self.b = b;
        self.c = c;
    }

    pub fn get_de(&self) -> (value: u16)
        ensures
            value == self.de(),
    {
        join(self.d, self.e)
    }

    pub fn set_de(&mut self, value: u16)
        ensures
            *final(self) == old(self).with_de(value),
    {
        let d: u8 = high(value);
        let e: u8 = low(value);
        self.d = d;
        self.e = e;
    }

    pub fn get_hl(&self) -> (value: u16)
        ensures
            value == self.hl(),
    {
        join(self.h, self.l)
    }

    pub fn set_hl(&mut self, value: u16)
        ensures
            *final(self) == old(self).with_hl(value),
    {
        let h: u8 = high(value);
        let l: u8 = low(value);
        self.h = h;
        self.l = l;
    }

    /// A value written to BC, DE or HL is read back unchanged; one written to
    /// AF is read back with its low nibble cleared, since the flag register
    /// keeps only its upper four bits.
    pub proof fn lemma_pair_round_trip(self, value: u16)
        ensures
            self.with_bc(value).bc() == value,
            self.with_de(value).de() == value,
            self.with_hl(value).hl() == value,
            self.with_af(value).af() == value & 0xFFF0,
    {
        lemma_split_join(value, high_byte(value), Flags::unpack(low_byte(value)).pack());
        Flags::lemma_pack_unpack(low_byte(value));
        lemma_clear_low_nibble(value, high_byte(value), low_byte(value));
    }

    /// Writing a pair back with the value just read from it changes nothing.
    pub proof fn lemma_pair_write_back(self)
        ensures
            self.with_bc(self.bc()) == self,
            self.with_de(self.de()) == self,
            self.with_hl(self.hl()) == self,
            self.with_af(self.af()) == self,
    {
        lemma_split_join(0, self.b, self.c);
        lemma_split_join(0, self.d, self.e);
        lemma_split_join(0, self.h, self.l);
        lemma_split_join(0, self.a, self.f.pack());
        self.f.lemma_unpack_pack();
    }
}

} // verus!
