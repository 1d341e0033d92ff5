//! The storage that the display unit owns: video RAM, object attribute memory
//! and the display registers. Pixel generation is not part of this crate.
use vstd::prelude::*;

verus! {

/// The four phases of the display unit, numbered 0 to 3 in the two low bits
/// of `STAT`.
#[derive(Clone, Copy, Debug, PartialEq, Eq, Structural)]
pub enum Mode {
    HBlank,
    VBlank,
    Oam,
    Transfer,
}

impl Mode {
    /// The number of the mode.
    pub open spec fn number(self) -> u8 {
        match self {
            Mode::HBlank => 0,
            Mode::VBlank => 1,
            Mode::Oam => 2,
            Mode::Transfer => 3,
        }
    }
}

/// The display unit's memories and registers.
#[allow(non_snake_case)]
pub struct GPU {
    pub vram: [u8; 0x2000],
    pub oam: [u8; 0xa0],
    pub LCDC: u8,
    pub STAT: u8,
    pub SCY: u8,
    pub SCX: u8,
    pub LY: u8,
    pub LYC: u8,
    pub WY: u8,
    pub WX: u8,
    pub BGP: u8,
    pub OBP0: u8,
    pub OBP1: u8,
}

proof fn lemma_register_bits(stat: u8, lcdc: u8)
    by (bit_vector)
    ensures
        stat & 0x3 == stat % 4,
        (((lcdc & 0x80) >> 7) != 0) == (lcdc >= 128),
{
}

impl GPU {
    /// The 8192 bytes of video RAM.
    pub open spec fn vram(&self) -> Seq<u8> {
        self.vram@
    }

    /// The 160 bytes of object attribute memory.
    pub open spec fn oam(&self) -> Seq<u8> {
        self.oam@
    }

    /// Whether `other` holds the same display registers.
    pub open spec fn same_registers(&self, other: &GPU) -> bool {
        &&& self.LCDC == other.LCDC
        &&& self.STAT == other.STAT
        &&& self.SCY == other.SCY
        &&& self.SCX == other.SCX
        &&& self.LY == other.LY
        &&& self.LYC == other.LYC
        &&& self.WY == other.WY
        &&& self.WX == other.WX
        &&& self.BGP == other.BGP
        &&& self.OBP0 == other.OBP0
        &&& self.OBP1 == other.OBP1
    }

    /// A display unit with both memories and every register zero.
    pub fn new() -> (gpu: GPU)
        ensures
            gpu.vram() == Seq::new(0x2000, |i: int| 0u8),
            gpu.oam() == Seq::new(0xa0, |i: int| 0u8),
            gpu.LCDC == 0 && gpu.STAT == 0 && gpu.SCY == 0 && gpu.SCX == 0 && gpu.LY == 0
                && gpu.LYC == 0 && gpu.WY == 0 && gpu.WX == 0 && gpu.BGP == 0 && gpu.OBP0 == 0
                && gpu.OBP1 == 0,
    {
        let gpu = GPU {
            vram: [0u8; 0x2000],
            oam: [0u8; 0xa0],
            LCDC: 0,
            STAT: 0,
            SCY: 0,
            SCX: 0,
            LY: 0,
            LYC: 0,
            WY: 0,
            WX: 0,
            BGP: 0,
            OBP0: 0,
            OBP1: 0,
        };
        assert(gpu.vram@ =~= Seq::new(0x2000, |i: int| 0u8));
        assert(gpu.oam@ =~= Seq::new(0xa0, |i: int| 0u8));
        gpu
    }

    /// Reads the byte of video RAM at `address`, an offset into the region.
    pub fn get_vram(&self, address: u16) -> (byte: u8)
        requires
            address < 0x2000,
        ensures
            byte == self.vram()[address as int],
    {
        self.vram[address as usize]
    }

    /// Writes the byte of video RAM at `address`, an offset into the region.
    pub fn set_vram(&mut self, address: u16, new_byte: u8)
        requires
            address < 0x2000,
        ensures
            final(self).vram() == old(self).vram().update(address as int, new_byte),
            final(self).oam() == old(self).oam(),
            final(self).same_registers(old(self)),
    {
        self.vram[address as usize] = new_byte;
    }

    /// Reads the byte of object attribute memory at `address`, an offset into
    /// the region.
    pub fn get_oam(&self, address: u16) -> (byte: u8)
        requires
            address < 0xa0,
        ensures
            byte == self.oam()[address as int],
    {
        self.oam[address as usize]
    }

    /// Writes the byte of object attribute memory at `address`, an offset
    /// into the region.
    pub fn set_oam(&mut self, address: u16, new_byte: u8)
        requires
            address < 0xa0,
        ensures
            final(self).oam() == old(self).oam().update(address as int, new_byte),
            final(self).vram() == old(self).vram(),
            final(self).same_registers(old(self)),
    {
        self.oam[address as usize] = new_byte;
    }

    /// The mode held in the two low bits of `STAT`.
    pub fn get_mode(&self) -> (mode: Mode)
        ensures
            mode.number() == self.STAT % 4,
    {
        proof {
            lemma_register_bits(self.STAT, 0);
        }
        let bits: u8 = self.STAT & 0x3;
        if bits == 0 {
            Mode::HBlank
        } else if bits == 1 {
            Mode::VBlank
        } else if bits == 2 {
            Mode::Oam
        } else {
            Mode::Transfer
        }
    }

    /// Sets in `STAT` the bits of the number of `mode`; bits that are set
    /// stay set.
    pub fn set_mode(&mut self, mode: Mode)
        ensures
            final(self).STAT == old(self).STAT | mode.number(),
            final(self).vram() == old(self).vram(),
            final(self).oam() == old(self).oam(),
            final(self).LCDC == old(self).LCDC,
            final(self).SCY == old(self).SCY,
            final(self).SCX == old(self).SCX,
            final(self).LY == old(self).LY,
            final(self).LYC == old(self).LYC,
            final(self).WY == old(self).WY,
            final(self).WX == old(self).WX,
            final(self).BGP == old(self).BGP,
            final(self).OBP0 == old(self).OBP0,
            final(self).OBP1 == old(self).OBP1,
    {
        let number: u8 = match mode {
            Mode::HBlank => 0,
            Mode::VBlank => 1,
            Mode::Oam => 2,
            Mode::Transfer => 3,
        };
        self.STAT = self.STAT | number;
    }

    /// Whether the display is switched on: the top bit of `LCDC`.
    pub fn display_enabled(&self) -> (on: bool)
        ensures
            on == (self.LCDC >= 128),
    {
        proof {
            lemma_register_bits(0, self.LCDC);
        }
        ((self.LCDC & 0x80) >> 7) != 0
    }
}

} // verus!
