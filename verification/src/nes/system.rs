use vstd::prelude::*;
use crate::nes::cassette::{Cassette, Mapper};

verus! {

pub const VRAM_SIZE: usize = 0x0800;
pub const WRAM_SIZE: usize = 0x0800;
pub const PPU_REG_SIZE: usize = 0x0008;
pub const APU_AND_IO_REG_SIZE: usize = 0x0020;
pub const EROM_SIZE: usize = 0x1FE0;
pub const ERAM_SIZE: usize = 0x2000;
pub const PROM_SIZE: usize = 0x8000;

/// The CPU address space, with plain registers: reads have no side effects.
/// 0x0000 - 0x07ff WRAM, mirrored up to 0x1fff;
/// 0x2000 - 0x2007 PPU registers, mirrored up to 0x3fff;
/// 0x4000 - 0x4017 APU and I/O registers;
/// 0x4020 - 0xffff the cartridge.
pub struct System {
    /// Video RAM
    pub vram: [u8; VRAM_SIZE],
    pub wram: [u8; WRAM_SIZE],
    pub ppu_reg: [u8; PPU_REG_SIZE],
    pub io_reg: [u8; APU_AND_IO_REG_SIZE],
    /// Accesses at or above 0x4020 go to the cartridge, with the address
    /// that the instruction names.
    pub cassette: Cassette,
    /// $2005 and $2006 share this: the next write is the second one.
    pub ppu_is_second_write: bool,
    pub ppu_scroll_y_reg: u8,
    pub ppu_addr_lower_reg: u8,
    /// $4014 OAM DMA was written; the DMA source page is io_reg[0x14].
    pub is_trigger_oam_dam: bool,
}

impl Default for System {
    fn default() -> (s: Self)
        ensures
            forall|i: int| 0 <= i < 0x800 ==> s.vram[i] == 0 && s.wram[i] == 0,
            forall|i: int| 0 <= i < 8 ==> s.ppu_reg[i] == 0,
            forall|i: int| 0 <= i < 0x20 ==> s.io_reg[i] == 0,
            !s.ppu_is_second_write,
            s.ppu_scroll_y_reg == 0,
            s.ppu_addr_lower_reg == 0,
            !s.is_trigger_oam_dam,
            s.cassette.mapper == Mapper::Unknown,
    {
        Self {
            vram: [0u8; VRAM_SIZE],
            wram: [0u8; WRAM_SIZE],
            ppu_reg: [0u8; PPU_REG_SIZE],
            io_reg: [0u8; APU_AND_IO_REG_SIZE],
            cassette: Cassette::default(),
            ppu_is_second_write: false,
            ppu_scroll_y_reg: 0,
            ppu_addr_lower_reg: 0,
            is_trigger_oam_dam: false,
        }
    }
}

impl System {
    /// Whether the bus answers `addr`: WRAM, the PPU and APU / I/O registers
    /// always do, and the cartridge answers only where it has PRG-ROM.
    pub open spec fn addr_ok(self, addr: u16) -> bool {
        addr < 0x4020 || (addr >= 0x8000 && self.cassette.mapper == Mapper::Nrom)
    }

    /// The byte at `addr`.
    #[verifier::opaque]
    pub open spec fn read_spec(self, addr: u16) -> u8 {
        if addr < 0x2000 {
            self.wram[(addr % 0x800) as int]
        } else if addr < 0x4000 {
            self.ppu_reg[((addr - 0x2000) % 8) as int]
        } else if addr < 0x4020 {
            self.io_reg[addr - 0x4000]
        } else {
            self.cassette.prg_rom[addr - 0x8000]
        }
    }

    /// The state after writing `data` to `addr`.
    #[verifier::opaque]
    pub open spec fn write_spec(self, addr: u16, data: u8) -> System {
        if addr < 0x2000 {
            System {
                wram: vstd::array::spec_array_update(self.wram, (addr % 0x800) as int, data),
                ..self
            }
        } else if addr < 0x4000 {
            System {
                ppu_reg: vstd::array::spec_array_update(self.ppu_reg, ((addr - 0x2000) % 8) as int, data),
                ..self
            }
        } else if addr < 0x4020 {
            System { io_reg: vstd::array::spec_array_update(self.io_reg, addr - 0x4000, data), ..self }
        } else {
            System {
                cassette: Cassette {
                    prg_rom: vstd::array::spec_array_update(self.cassette.prg_rom, addr - 0x8000, data),
                    ..self.cassette
                },
                ..self
            }
        }
    }

    /// A write leaves the cartridge's mapper, and so the answered addresses,
    /// as they were.
    pub broadcast proof fn lemma_write_keeps_mapper(self, addr: u16, data: u8)
        ensures
            (#[trigger] self.write_spec(addr, data)).cassette.mapper == self.cassette.mapper,
    {
        reveal(System::write_spec);
    }

    /// The byte that an address stands for: the region (WRAM, PPU registers,
    /// APU and I/O registers, PRG-ROM) and the index in it. Mirrored
    /// addresses stand for the same byte.
    pub open spec fn cell(addr: u16) -> (int, int) {
        if addr < 0x2000 {
            (0, (addr % 0x800) as int)
        } else if addr < 0x4000 {
            (1, ((addr - 0x2000) % 8) as int)
        } else if addr < 0x4020 {
            (2, addr - 0x4000)
        } else {
            (3, addr - 0x8000)
        }
    }

    /// A read gives back what the last write to the same byte wrote, and a
    /// write leaves every other byte as it was, at every address the bus
    /// answers.
    pub proof fn lemma_write_then_read(self, addr: u16, data: u8, other: u16)
        requires
            self.addr_ok(addr),
            self.addr_ok(other),
        ensures
            self.write_spec(addr, data).read_spec(other) == if System::cell(addr) == System::cell(other) {
                data
            } else {
                self.read_spec(other)
            },
    {
        reveal(System::write_spec);
        reveal(System::read_spec);
    }

    /// WRAM repeats every 0x800 bytes up to 0x1fff, and the PPU registers
    /// every 8 bytes up to 0x3fff.
    pub proof fn lemma_mirrors(self, addr: u16)
        ensures
            addr < 0x1800 ==> self.read_spec(addr) == self.read_spec((addr + 0x800) as u16),
            0x2000 <= addr < 0x3ff8 ==> self.read_spec(addr) == self.read_spec((addr + 8) as u16),
    {
        reveal(System::read_spec);
        assert((addr + 0x800) % 0x800 == addr % 0x800);
        assert((addr + 8 - 0x2000) % 8 == (addr - 0x2000) % 8);
    }

    /// Tells whether the bus answers `addr`.
    pub fn is_addr_ok(&self, addr: u16) -> (is_ok: bool)
        ensures
            is_ok == self.addr_ok(addr),
    {
        addr < 0x4020 || (addr >= 0x8000 && self.cassette.mapper == Mapper::Nrom)
    }

    /// Reads a byte; reads have no side effects here.
    pub fn read_u8(&self, addr: u16, is_nondestructive: bool) -> (data: u8)
        requires
            self.addr_ok(addr),
        ensures
            data == self.read_spec(addr),
    {
        reveal(System::read_spec);
        if addr < 0x2000 {
            // mirror support
            let index = (addr as usize) % WRAM_SIZE;
            self.wram[index]
        } else if addr < 0x4000 {
            // mirror support
            let index = ((addr - 0x2000) as usize) % PPU_REG_SIZE;
            self.ppu_reg[index]
        } else if addr < 0x4020 {
            let index = (addr - 0x4000) as usize;
            self.io_reg[index]
        } else {
            let index = (addr - 0x8000) as usize;
            self.cassette.prg_rom[index]
        }
    }

    /// Writes a byte.
    pub fn write_u8(&mut self, addr: u16, data: u8, is_nondestructive: bool)
        requires
            old(self).addr_ok(addr),
        ensures
            *final(self) == old(self).write_spec(addr, data),
    {
        reveal(System::write_spec);
        if addr < 0x2000 {
            // mirror support
            let index = (addr as usize) % WRAM_SIZE;
            self.wram[index] = data;
            proof {
                assert(self.wram =~= vstd::array::spec_array_update(old(self).wram, index as int, data));
            }
        } else if addr < 0x4000 {
            // mirror support
            let index = ((addr - 0x2000) as usize) % PPU_REG_SIZE;
            self.ppu_reg[index] = data;
            proof {
                assert(self.ppu_reg =~= vstd::array::spec_array_update(old(self).ppu_reg, index as int, data));
            }
        } else if addr < 0x4020 {
            let index = (addr - 0x4000) as usize;
            self.io_reg[index] = data;
            proof {
                assert(self.io_reg =~= vstd::array::spec_array_update(old(self).io_reg, index as int, data));
            }
        } else {
            let index = (addr - 0x8000) as usize;
            self.cassette.prg_rom[index] = data;
            proof {
                assert(self.cassette.prg_rom =~= vstd::array::spec_array_update(
                    old(self).cassette.prg_rom,
                    index as int,
                    data,
                ));
            }
        }
    }

    /// Clears the memories and the registers; the cartridge and the PPU
    /// toggles stay.
    pub fn reset(&mut self)
        ensures
            forall|i: int| 0 <= i < 0x800 ==> final(self).vram[i] == 0 && final(self).wram[i] == 0,
            forall|i: int| 0 <= i < 8 ==> final(self).ppu_reg[i] == 0,
            forall|i: int| 0 <= i < 0x20 ==> final(self).io_reg[i] == 0,
            final(self).cassette == old(self).cassette,
            final(self).ppu_is_second_write == old(self).ppu_is_second_write,
            final(self).ppu_scroll_y_reg == old(self).ppu_scroll_y_reg,
            final(self).ppu_addr_lower_reg == old(self).ppu_addr_lower_reg,
            final(self).is_trigger_oam_dam == old(self).is_trigger_oam_dam,
    {
        self.vram = [0u8; VRAM_SIZE];
        self.wram = [0u8; WRAM_SIZE];
        self.ppu_reg = [0u8; PPU_REG_SIZE];
        self.io_reg = [0u8; APU_AND_IO_REG_SIZE];
    }

    /// The size of a dump: the whole CPU address space below the cartridge.
    pub fn get_dump_size() -> (size: usize)
        ensures
            size == 0x4020,
    {
        0x4020
    }
}

} // verus!
