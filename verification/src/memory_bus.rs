//! The memory bus: byte reads and writes over the 16-bit address space,
//! routed by region.
use vstd::prelude::*;
use crate::gpu::GPU;
use crate::memory_map::{
    BIOS_END, ECHO_END, ECHO_START, ERAM_END, ERAM_START, HRAM_END, HRAM_START, IO_END, IO_START,
    OAM_END, OAM_START, RESERVED_END, ROM_BANK_0_END, ROM_BANK_N_END, ROM_BANK_N_START, VRAM_END,
    VRAM_START, WRAM_END, WRAM_START,
};

verus! {

/// What the bus holds, region by region: the mathematical model of a
/// `MemoryBus`.
pub struct Memory {
    /// While set, the boot ROM covers the first 256 addresses.
    pub boot_enabled: bool,
    pub bios: Seq<u8>,
    pub rom_bank0: Seq<u8>,
    pub rom_bankn: Seq<u8>,
    pub vram: Seq<u8>,
    pub eram: Seq<u8>,
    pub wram: Seq<u8>,
    pub oam: Seq<u8>,
    pub hram: Seq<u8>,
    pub interrupt_enable: u8,
}

impl Memory {
    /// Every region has its size.
    pub open spec fn wf(self) -> bool {
        &&& self.bios.len() == 0x100
        &&& self.rom_bank0.len() == 0x4000
        &&& self.rom_bankn.len() == 0x4000
        &&& self.vram.len() == 0x2000
        &&& self.eram.len() == 0x2000
        &&& self.wram.len() == 0x2000
        &&& self.oam.len() == 0xa0
        &&& self.hram.len() == 0x7f
    }

    /// The byte that a read of `address` gives. The reserved range above the
    /// object attribute memory reads as `0xFF`, the I/O range as 0.
    #[verifier::opaque]
    pub open spec fn read(self, address: u16) -> u8 {
        if address <= BIOS_END && self.boot_enabled {
            self.bios[address as int]
        } else if address <= ROM_BANK_0_END {
            self.rom_bank0[address as int]
        } else if address <= ROM_BANK_N_END {
            self.rom_bankn[address - ROM_BANK_N_START]
        } else if address <= VRAM_END {
            self.vram[address - VRAM_START]
        } else if address <= ERAM_END {
            self.eram[address - ERAM_START]
        } else if address <= WRAM_END {
            self.wram[address - WRAM_START]
        } else if address <= ECHO_END {
            self.wram[address - ECHO_START]
        } else if address <= OAM_END {
            self.oam[address - OAM_START]
        } else if address <= RESERVED_END {
            0xFF
        } else if address <= IO_END {
            0
        } else if address <= HRAM_END {
            self.hram[address - HRAM_START]
        } else {
            self.interrupt_enable
        }
    }

    /// The memory after a write of `value` to `address`. Writes to the ROM
    /// ranges, to the reserved range and to the I/O range change nothing; a
    /// write to the echo range lands in work RAM.
    #[verifier::opaque]
    pub open spec fn write(self, address: u16, value: u8) -> Memory {
        if address <= ROM_BANK_N_END {
            self
        } else if address <= VRAM_END {
            Memory { vram: self.vram.update(address - VRAM_START, value), ..self }
        } else if address <= ERAM_END {
            Memory { eram: self.eram.update(address - ERAM_START, value), ..self }
        } else if address <= WRAM_END {
            Memory { wram: self.wram.update(address - WRAM_START, value), ..self }
        } else if address <= ECHO_END {
            Memory { wram: self.wram.update(address - ECHO_START, value), ..self }
        } else if address <= OAM_END {
            Memory { oam: self.oam.update(address - OAM_START, value), ..self }
        } else if address <= IO_END {
            self
        } else if address <= HRAM_END {
            Memory { hram: self.hram.update(address - HRAM_START, value), ..self }
        } else {
            Memory { interrupt_enable: value, ..self }
        }
    }

    /// The memory at power-on: the boot ROM mapped in, the first 32 KiB of
    /// the cartridge in the two ROM banks, everything else zero.
    pub open spec fn power_on(rom: Seq<u8>, game: Seq<u8>) -> Memory {
        Memory {
            boot_enabled: true,
            bios: rom,
            rom_bank0: game.subrange(0, 0x4000),
            rom_bankn: game.subrange(0x4000, 0x8000),
            vram: Seq::new(0x2000, |i: int| 0u8),
            eram: Seq::new(0x2000, |i: int| 0u8),
            wram: Seq::new(0x2000, |i: int| 0u8),
            oam: Seq::new(0xa0, |i: int| 0u8),
            hram: Seq::new(0x7f, |i: int| 0u8),
            interrupt_enable: 0,
        }
    }

    /// Whether a write to `address` is kept: the address lies in video RAM,
    /// external RAM, work RAM or its echo, object attribute memory, high RAM
    /// or the interrupt-enable register.
    pub open spec fn keeps_writes(address: u16) -> bool {
        (VRAM_START <= address && address <= OAM_END) || HRAM_START <= address
    }

    /// The address of the cell behind `address`: an echo address stands for
    /// the work RAM cell 0x2000 below it, any other address for itself.
    pub open spec fn cell(address: u16) -> int {
        if ECHO_START <= address && address <= ECHO_END {
            address - 0x2000
        } else {
            address as int
        }
    }

    /// A write keeps every region at its size.
    pub proof fn lemma_write_wf(self, address: u16, value: u8)
        requires
            self.wf(),
        ensures
            self.write(address, value).wf(),
    {
        reveal(Memory::write);
    }

    /// After a write, a read gives the written value where it reaches the cell
    /// that was written and that cell keeps writes; any other read gives what
    /// it gave before.
    pub proof fn lemma_read_after_write(self, address: u16, value: u8, other: u16)
        requires
            self.wf(),
        ensures
            self.write(address, value).read(other) == if Memory::keeps_writes(address)
                && Memory::cell(other) == Memory::cell(address) {
                value
            } else {
                self.read(other)
            },
    {
        reveal(Memory::read);
        reveal(Memory::write);
    }

    /// Work RAM and its echo are one memory: a byte written at `0xC000 + k`
    /// is read at `0xE000 + k`, and one written at `0xE000 + k` is read at
    /// `0xC000 + k`.
    pub proof fn lemma_echo_mirror(self, k: u16, value: u8)
        requires
            self.wf(),
            k <= 0x1DFF,
        ensures
            self.write((0xC000 + k) as u16, value).read((0xE000 + k) as u16) == value,
            self.write((0xE000 + k) as u16, value).read((0xC000 + k) as u16) == value,
    {
        reveal(Memory::read);
        reveal(Memory::write);
    }
}

/// The bus with the memories it owns and the display unit behind it.
pub struct MemoryBus {
    bios: [u8; 0x100],
    rom_bank0: [u8; 0x4000],
    rom_bankn: [u8; 0x4000],
    eram: [u8; 0x2000],
    wram: [u8; 0x2000],
    hram: [u8; 0x7f],
    interrupt_enable: u8,
    boot_enabled: bool,
    gpu: GPU,
}

/// Copies 256 bytes of `src`, starting at its beginning, into an array.
fn copy_page(src: &Vec<u8>) -> (out: [u8; 0x100])
    requires
        src.len() >= 0x100,
    ensures
        out@ == src@.subrange(0, 0x100),
{
    let mut out: [u8; 0x100] = [0u8; 0x100];
    let mut i: usize = 0;
    while i < 0x100
        invariant
            i <= 0x100,
            src.len() >= 0x100,
            forall|j: int| 0 <= j < i ==> out@[j] == src@[j],
        decreases 0x100 - i,
    {
        out[i] = src[i];
        i += 1;
    }
    assert(out@ =~= src@.subrange(0, 0x100));
    out
}

/// Copies the 16 KiB of `src` that start at `start` into an array.
fn copy_bank(src: &Vec<u8>, start: usize) -> (out: [u8; 0x4000])
    requires
        start + 0x4000 <= src.len(),
    ensures
        out@ == src@.subrange(start as int, start + 0x4000),
{
    let mut out: [u8; 0x4000] = [0u8; 0x4000];
    let mut i: usize = 0;
    while i < 0x4000
        invariant
            i <= 0x4000,
            start + 0x4000 <= src.len(),
            forall|j: int| 0 <= j < i ==> out@[j] == src@[start + j],
        decreases 0x4000 - i,
    {
        out[i] = src[start + i];
        i += 1;
    }
    assert(out@ =~= src@.subrange(start as int, start + 0x4000));
    out
}

impl MemoryBus {
    /// What the bus holds.
    pub closed spec fn view(&self) -> Memory {
        Memory {
            boot_enabled: self.boot_enabled,
            bios: self.bios@,
            rom_bank0: self.rom_bank0@,
            rom_bankn: self.rom_bankn@,
            vram: self.gpu.vram(),
            eram: self.eram@,
            wram: self.wram@,
            oam: self.gpu.oam(),
            hram: self.hram@,
            interrupt_enable: self.interrupt_enable,
        }
    }

    /// Every bus holds regions of the right sizes.
    pub proof fn lemma_view_wf(&self)
        ensures
            self@.wf(),
    {
    }

    /// A bus at power-on. `rom` is the boot ROM, exactly 256 bytes; `game` is
    /// the cartridge image, at least 32 KiB, of which the first 16 KiB become
    /// bank 0 and the next 16 KiB bank N.
    pub fn new(rom: Vec<u8>, game: Vec<u8>) -> (bus: MemoryBus)
        requires
            rom.len() == 0x100,
            game.len() >= 0x8000,
        ensures
            bus@ == Memory::power_on(rom@, game@),
            bus@.wf(),
    {
        let bios = copy_page(&rom);
        let bank0 = copy_bank(&game, 0);
        let bankn = copy_bank(&game, 0x4000);
        let bus = MemoryBus {
            bios: bios,
            rom_bank0: bank0,
            rom_bankn: bankn,
            eram: [0u8; 0x2000],
            wram: [0u8; 0x2000],
            hram: [0u8; 0x7f],
            interrupt_enable: 0,
            boot_enabled: true,
            gpu: GPU::new(),
        };
        proof {
            let m = Memory::power_on(rom@, game@);
            assert(bus@.bios =~= m.bios);
            assert(bus@.eram =~= m.eram);
            assert(bus@.wram =~= m.wram);
            assert(bus@.hram =~= m.hram);
        }
        bus
    }

    /// Whether the boot ROM covers the first 256 addresses.
    pub fn boot_enabled(&self) -> (enabled: bool)
        ensures
            enabled == self@.boot_enabled,
    {
        self.boot_enabled
    }

    /// Sets the boot-enable latch: while it is set, reads of the first 256
    /// addresses give the boot ROM, else bank 0 of the cartridge.
    pub fn set_boot_enabled(&mut self, enabled: bool)
        ensures
            final(self)@ == (Memory { boot_enabled: enabled, ..old(self)@ }),
    {
        self.boot_enabled = enabled;
    }

    /// Reads the byte at `address`. Every address is defined.
    pub fn read_byte(&self, address: u16) -> (byte: u8)
        ensures
            byte == self@.read(address),
    {
        proof {
            reveal(Memory::read);
        }
        if address <= BIOS_END && self.boot_enabled {
            self.bios[address as usize]
        } else if address <= ROM_BANK_0_END {
            self.rom_bank0[address as usize]
        } else if address <= ROM_BANK_N_END {
            self.rom_bankn[(address - ROM_BANK_N_START) as usize]
        } else if address <= VRAM_END {
            self.gpu.get_vram(address - VRAM_START)
        } else if address <= ERAM_END {
            self.eram[(address - ERAM_START) as usize]
        } else if address <= WRAM_END {
            self.wram[(address - WRAM_START) as usize]
        } else if address <= ECHO_END {
            self.wram[(address - ECHO_START) as usize]
        } else if address <= OAM_END {
            self.gpu.get_oam(address - OAM_START)
        } else if address <= RESERVED_END {
            0xFF
        } else if address <= IO_END {
            self.read_io_register(address)
        } else if address <= HRAM_END {
            self.hram[(address - HRAM_START) as usize]
        } else {
            self.interrupt_enable
        }
    }

    /// Writes `new_byte` at `address`. Every address is defined; a write to
    /// ROM, to the reserved range or to an I/O register is dropped.
    pub fn set_byte(&mut self, address: u16, new_byte: u8)
        ensures
            final(self)@ == old(self)@.write(address, new_byte),
    {
        proof {
            reveal(Memory::write);
        }
        if address <= ROM_BANK_N_END {
        } else if address <= VRAM_END {
            self.gpu.set_vram(address - VRAM_START, new_byte);
        } else if address <= ERAM_END {
            self.eram[(address - ERAM_START) as usize] = new_byte;
        } else if address <= WRAM_END {
            self.wram[(address - WRAM_START) as usize] = new_byte;
        } else if address <= ECHO_END {
            self.wram[(address - ECHO_START) as usize] = new_byte;
        } else if address <= OAM_END {
            self.gpu.set_oam(address - OAM_START, new_byte);
        } else if address <= RESERVED_END {
        } else if address <= IO_END {
            self.write_io_register(address, new_byte);
        } else if address <= HRAM_END {
            self.hram[(address - HRAM_START) as usize] = new_byte;
        } else {
            self.interrupt_enable = new_byte;
        }
        assert(self@ =~= old(self)@.write(address, new_byte));
    }

    /// Reads an I/O register. No peripheral is attached: every register
    /// reads as 0.
    fn read_io_register(&self, address: u16) -> (byte: u8)
        requires
            IO_START <= address <= IO_END,
        ensures
            byte == 0,
    {
        0
    }

    /// Writes an I/O register. No peripheral is attached: the byte is
    /// dropped.
    fn write_io_register(&mut self, address: u16, new_byte: u8)
        requires
            IO_START <= address <= IO_END,
        ensures
            *final(self) == *old(self),
    {
    }
}

} // verus!
