use vstd::prelude::*;
use crate::interface::{EmulateControl, SystemBus};
use crate::nes::cassette::Cassette;
use crate::nes::pad::Pad;
use crate::video_system::VideoSystem;

verus! {

pub const WRAM_SIZE: usize = 0x0800;
pub const PPU_REG_SIZE: usize = 0x0008;
pub const APU_IO_REG_SIZE: usize = 0x0020;
pub const EROM_SIZE: usize = 0x1FE0;
pub const ERAM_SIZE: usize = 0x2000;
pub const PROM_SIZE: usize = 0x8000;

pub const WRAM_BASE_ADDR: u16 = 0x0000;
pub const PPU_REG_BASE_ADDR: u16 = 0x2000;
pub const APU_IO_REG_BASE_ADDR: u16 = 0x4000;
pub const CASSETTE_BASE_ADDR: u16 = 0x4020;

/// The CPU address space:
/// 0x0000 - 0x07ff WRAM, mirrored up to 0x1fff;
/// 0x2000 - 0x2007 PPU registers, mirrored up to 0x3fff;
/// 0x4000 - 0x4017 APU and I/O registers (pads at 0x4016/0x4017);
/// 0x4020 - 0xffff the cartridge.
#[derive(Clone)]
pub struct System {
    pub wram: [u8; WRAM_SIZE],
    pub ppu_reg: [u8; PPU_REG_SIZE],
    pub io_reg: [u8; APU_IO_REG_SIZE],
    /// Accesses at or above 0x4020 go to the cartridge, with the address
    /// that the instruction names.
    pub cassette: Cassette,
    /// The memory that the PPU draws from.
    pub video: VideoSystem,
    /// The controllers at 0x4016 and 0x4017.
    pub pad1: Pad,
    pub pad2: Pad,
    /// OAM_DATA was written.
    pub written_oam_data: bool,
    /// PPU_SCROLL was written twice.
    pub written_ppu_scroll: bool,
    /// PPU_ADDR was written twice.
    pub written_ppu_addr: bool,
    /// PPU_DATA was written.
    pub written_ppu_data: bool,
    /// OAM_DMA was written.
    pub written_oam_dma: bool,
    /// OAM_DATA was read.
    pub read_oam_data: bool,
    /// PPU_DATA was read.
    pub read_ppu_data: bool,
    /// $2005 and $2006 share this: the next write is the second one.
    /// Reading $2002 clears it.
    pub ppu_is_second_write: bool,
    /// The second byte written to $2005.
    pub ppu_scroll_y_reg: u8,
    /// The second byte written to $2006.
    pub ppu_addr_lower_reg: u8,
}

impl Default for System {
    fn default() -> (s: Self)
        ensures
            forall|i: int| 0 <= i < 0x800 ==> s.wram[i] == 0,
            forall|i: int| 0 <= i < 8 ==> s.ppu_reg[i] == 0,
            forall|i: int| 0 <= i < 0x20 ==> s.io_reg[i] == 0,
            !s.written_oam_data && !s.written_ppu_scroll && !s.written_ppu_addr,
            !s.written_ppu_data && !s.written_oam_dma && !s.read_oam_data && !s.read_ppu_data,
            !s.ppu_is_second_write,
            s.ppu_scroll_y_reg == 0,
            s.ppu_addr_lower_reg == 0,
    {
        Self {
            wram: [0u8; WRAM_SIZE],
            ppu_reg: [0u8; PPU_REG_SIZE],
            io_reg: [0u8; APU_IO_REG_SIZE],
            cassette: Cassette::default(),
            video: VideoSystem::default(),
            pad1: Pad::default(),
            pad2: Pad::default(),
            written_oam_data: false,
            written_ppu_scroll: false,
            written_ppu_addr: false,
            written_ppu_data: false,
            written_oam_dma: false,
            read_oam_data: false,
            read_ppu_data: false,
            ppu_is_second_write: false,
            ppu_scroll_y_reg: 0,
            ppu_addr_lower_reg: 0,
        }
    }
}

impl EmulateControl for System {
    /// Reset clears the memories, the registers and the flags; the cartridge
    /// stays.
    open spec fn reset_state(&self) -> System {
        System {
            wram: vstd::array::spec_array_fill_for_copy_type::<u8, 0x800>(0),
            ppu_reg: vstd::array::spec_array_fill_for_copy_type::<u8, 8>(0),
            io_reg: vstd::array::spec_array_fill_for_copy_type::<u8, 0x20>(0),
            cassette: self.cassette,
            video: self.video.reset_state(),
            pad1: Pad { button_shift_reg: 0, strobe_enable: false },
            pad2: Pad { button_shift_reg: 0, strobe_enable: false },
            written_oam_data: false,
            written_ppu_scroll: false,
            written_ppu_addr: false,
            written_ppu_data: false,
            written_oam_dma: false,
            read_oam_data: false,
            read_ppu_data: false,
            ppu_is_second_write: false,
            ppu_scroll_y_reg: 0,
            ppu_addr_lower_reg: 0,
        }
    }

    fn reset(&mut self) {
        self.video.reset();
        crate::nes::interface::EmulateControl::reset(&mut self.pad1);
        crate::nes::interface::EmulateControl::reset(&mut self.pad2);

        self.wram = [0u8; WRAM_SIZE];
        self.ppu_reg = [0u8; PPU_REG_SIZE];
        self.io_reg = [0u8; APU_IO_REG_SIZE];

        self.written_oam_data = false;
        self.written_ppu_scroll = false;
        self.written_ppu_addr = false;
        self.written_ppu_data = false;
        self.written_oam_dma = false;
        self.read_oam_data = false;
        self.read_ppu_data = false;

        self.ppu_is_second_write = false;
        self.ppu_scroll_y_reg = 0;
        self.ppu_addr_lower_reg = 0;
    }
}

impl System {
    /// Whether the bus answers `addr`: WRAM, the PPU and APU / I/O registers
    /// always do, and the cartridge answers only where it has PRG-ROM.
    pub open spec fn addr_ok(self, addr: u16) -> bool {
        addr < 0x4020 || self.cassette.bus_addr_ok(addr)
    }

    /// A read: the value, and the state after it. Reading PPU_STATUS clears
    /// the write toggle and the VBLANK flag; reading OAM_DATA / PPU_DATA
    /// raises a request for the PPU; reading a pad shifts it. A
    /// non-destructive read changes nothing.
    #[verifier::opaque]
    pub open spec fn read_spec(self, addr: u16, is_nondestructive: bool) -> (u8, System) {
        if addr < 0x2000 {
            (self.wram[(addr % 0x800) as int], self)
        } else if addr < 0x4000 {
            let index = (addr - 0x2000) % 8;
            if index == 2 {
                (
                    self.ppu_reg[2],
                    if is_nondestructive {
                        self
                    } else {
                        System {
                            ppu_is_second_write: false,
                            ppu_reg: vstd::array::spec_array_update(
                                self.ppu_reg,
                                2,
                                self.ppu_reg[2] & !0x80u8,
                            ),
                            ..self
                        }
                    },
                )
            } else if index == 4 {
                (
                    self.ppu_reg[4],
                    if is_nondestructive { self } else { System { read_oam_data: true, ..self } },
                )
            } else if index == 7 {
                (
                    self.ppu_reg[7],
                    if is_nondestructive { self } else { System { read_ppu_data: true, ..self } },
                )
            } else {
                (self.ppu_reg[index], self)
            }
        } else if addr < 0x4020 {
            let index = addr - 0x4000;
            if !is_nondestructive && index == 0x16 {
                let (d, p) = self.pad1.read_dout_spec();
                (d, System { pad1: p, ..self })
            } else if !is_nondestructive && index == 0x17 {
                let (d, p) = self.pad2.read_dout_spec();
                (d, System { pad2: p, ..self })
            } else {
                (self.io_reg[index], self)
            }
        } else {
            let (d, c) = self.cassette.bus_read(addr, is_nondestructive);
            (d, System { cassette: c, ..self })
        }
    }

    /// A write. $2005 and $2006 take two writes, told apart by the shared
    /// toggle; writes to OAM_DATA, PPU_DATA, OAM_DMA raise a request for the
    /// PPU; writes to 0x4016/0x4017 set the pads' strobe. A non-destructive
    /// write stores the data but raises nothing and moves no toggle.
    #[verifier::opaque]
    pub open spec fn write_spec(self, addr: u16, data: u8, is_nondestructive: bool) -> System {
        if addr < 0x2000 {
            System {
                wram: vstd::array::spec_array_update(self.wram, (addr % 0x800) as int, data),
                ..self
            }
        } else if addr < 0x4000 {
            let index = (addr - 0x2000) % 8;
            let stored = System {
                ppu_reg: vstd::array::spec_array_update(self.ppu_reg, index, data),
                ..self
            };
            if index == 4 {
                if is_nondestructive { stored } else { System { written_oam_data: true, ..stored } }
            } else if index == 5 {
                if self.ppu_is_second_write {
                    let s = System { ppu_scroll_y_reg: data, ..self };
                    if is_nondestructive {
                        s
                    } else {
                        System { ppu_is_second_write: false, written_ppu_scroll: true, ..s }
                    }
                } else {
                    if is_nondestructive { stored } else { System { ppu_is_second_write: true, ..stored } }
                }
            } else if index == 6 {
                if self.ppu_is_second_write {
                    let s = System { ppu_addr_lower_reg: data, ..self };
                    if is_nondestructive {
                        s
                    } else {
                        System { ppu_is_second_write: false, written_ppu_addr: true, ..s }
                    }
                } else {
                    if is_nondestructive { stored } else { System { ppu_is_second_write: true, ..stored } }
                }
            } else if index == 7 {
                if is_nondestructive { stored } else { System { written_ppu_data: true, ..stored } }
            } else {
                stored
            }
        } else if addr < 0x4020 {
            let index = addr - 0x4000;
            let s = if is_nondestructive {
                self
            } else if index == 0x14 {
                System { written_oam_dma: true, ..self }
            } else if index == 0x16 {
                System { pad1: Pad { strobe_enable: data & 0x01 == 0x01, ..self.pad1 }, ..self }
            } else if index == 0x17 {
                System { pad2: Pad { strobe_enable: data & 0x01 == 0x01, ..self.pad2 }, ..self }
            } else {
                self
            };
            System { io_reg: vstd::array::spec_array_update(s.io_reg, index, data), ..s }
        } else {
            System { cassette: self.cassette.bus_write(addr, data, is_nondestructive), ..self }
        }
    }

    /// A read leaves the cartridge's mapper, and so the answered addresses,
    /// as they were.
    pub broadcast proof fn lemma_read_keeps_mapper(self, addr: u16, is_nondestructive: bool)
        ensures
            (#[trigger] self.read_spec(addr, is_nondestructive)).1.cassette.mapper
                == self.cassette.mapper,
    {
        reveal(System::read_spec);
    }

    /// A write leaves the cartridge's mapper, and so the answered addresses,
    /// as they were.
    pub broadcast proof fn lemma_write_keeps_mapper(self, addr: u16, data: u8, is_nondestructive: bool)
        ensures
            (#[trigger] self.write_spec(addr, data, is_nondestructive)).cassette.mapper
                == self.cassette.mapper,
    {
        reveal(System::write_spec);
    }

    /// The addresses at which the bus is plain storage: WRAM, the APU and
    /// I/O registers below the pads (0x4000 - 0x4015), and PRG-ROM.
    pub open spec fn is_storage(self, addr: u16) -> bool {
        addr < 0x2000 || (0x4000 <= addr < 0x4016) || (addr >= 0x8000 && self.cassette.mapper
            == crate::nes::cassette::Mapper::Nrom)
    }

    /// The byte that a storage address stands for: the region and the index
    /// in it; mirrored WRAM addresses stand for the same byte.
    pub open spec fn storage_cell(addr: u16) -> (int, int) {
        if addr < 0x2000 {
            (0, (addr % 0x800) as int)
        } else if addr < 0x8000 {
            (1, addr - 0x4000)
        } else {
            (2, addr - 0x8000)
        }
    }

    /// At storage addresses a read gives back what the last write to the
    /// same byte wrote, and a write leaves every other storage byte as it
    /// was. (A PPU register does not read back a second write to $2005 or
    /// $2006, and the pads read their shift registers, so those are left
    /// out.)
    pub proof fn lemma_storage_write_then_read(self, addr: u16, data: u8, other: u16, nd_write: bool, nd_read: bool)
        requires
            self.is_storage(addr),
            self.is_storage(other),
        ensures
            self.write_spec(addr, data, nd_write).read_spec(other, nd_read).0 == if System::storage_cell(addr)
                == System::storage_cell(other) {
                data
            } else {
                self.read_spec(other, nd_read).0
            },
    {
        reveal(System::write_spec);
        reveal(System::read_spec);
    }

    /// A read of WRAM gives its byte and changes nothing.
    pub proof fn lemma_wram_read(self, addr: u16, nd: bool)
        requires
            addr < 0x2000,
        ensures
            self.read_spec(addr, nd) == (self.wram[(addr % 0x800) as int], self),
    {
        reveal(System::read_spec);
    }

    /// In WRAM (0x0000 - 0x1fff, repeating every 0x800 bytes) a read has no
    /// side effect, gives back what the last write to the same byte wrote,
    /// and a write leaves every other byte as it was.
    pub proof fn lemma_wram_write_then_read(self, addr: u16, data: u8, other: u16, nd_write: bool, nd_read: bool)
        requires
            addr < 0x2000,
            other < 0x2000,
        ensures
            self.write_spec(addr, data, nd_write).read_spec(other, nd_read) == (
                if addr % 0x800 == other % 0x800 {
                    data
                } else {
                    self.read_spec(other, nd_read).0
                },
                self.write_spec(addr, data, nd_write),
            ),
            self.read_spec(other, nd_read).1 == self,
    {
        reveal(System::write_spec);
        reveal(System::read_spec);
    }

    /// Tells whether the bus answers `addr`.
    pub fn is_addr_ok(&self, addr: u16) -> (is_ok: bool)
        ensures
            is_ok == self.addr_ok(addr),
    {
        addr < 0x4020 || (addr >= 0x8000
            && self.cassette.mapper == crate::nes::cassette::Mapper::Nrom)
    }
}

impl SystemBus for System {
    open spec fn bus_addr_ok(&self, addr: u16) -> bool {
        self.addr_ok(addr)
    }

    open spec fn bus_read(&self, addr: u16, is_nondestructive: bool) -> (u8, System) {
        self.read_spec(addr, is_nondestructive)
    }

    open spec fn bus_write(&self, addr: u16, data: u8, is_nondestructive: bool) -> System {
        self.write_spec(addr, data, is_nondestructive)
    }

    fn read_u8(&mut self, addr: u16, is_nondestructive: bool) -> (data: u8) {
        reveal(System::read_spec);
        if addr < PPU_REG_BASE_ADDR {
            // mirror support
            let index = (addr as usize) % WRAM_SIZE;
            self.wram[index]
        } else if addr < APU_IO_REG_BASE_ADDR {
            // mirror support
            let index = ((addr - PPU_REG_BASE_ADDR) as usize) % PPU_REG_SIZE;
            match index {
                // PPU_STATUS: clears the write toggle and the VBLANK flag
                0x02 => {
                    let data = self.ppu_reg[index];
                    if !is_nondestructive {
                        self.ppu_is_second_write = false;
                        self.write_ppu_is_vblank(false);
                    }
                    data
                },
                // OAM_DATA read request
                0x04 => {
                    if !is_nondestructive {
                        self.read_oam_data = true;
                    }
                    self.ppu_reg[index]
                },
                // PPU_DATA read request; the PPU answers one step later
                0x07 => {
                    if !is_nondestructive {
                        self.read_ppu_data = true;
                    }
                    self.ppu_reg[index]
                },
                _ => self.ppu_reg[index],
            }
        } else if addr < CASSETTE_BASE_ADDR {
            let index = (addr - APU_IO_REG_BASE_ADDR) as usize;
            if !is_nondestructive {
                match index {
                    0x16 => self.pad1.read_dout(),
                    0x17 => self.pad2.read_dout(),
                    _ => self.io_reg[index],
                }
            } else {
                self.io_reg[index]
            }
        } else {
            let d = self.cassette.read_u8(addr, is_nondestructive);
            d
        }
    }

    fn write_u8(&mut self, addr: u16, data: u8, is_nondestructive: bool) {
        reveal(System::write_spec);
        if addr < PPU_REG_BASE_ADDR {
            // mirror support
            let index = (addr as usize) % WRAM_SIZE;
            self.wram[index] = data;
            proof {
                assert(self.wram =~= vstd::array::spec_array_update(
                    old(self).wram,
                    index as int,
                    data,
                ));
            }
        } else if addr < APU_IO_REG_BASE_ADDR {
            self.write_ppu_register(addr, data, is_nondestructive);
        } else if addr < CASSETTE_BASE_ADDR {
            self.write_io_register(addr, data, is_nondestructive);
        } else {
            self.cassette.write_u8(addr, data, is_nondestructive);
        }
    }
}

impl System {
    /// Writes a PPU register (0x2000 - 0x3fff, mirrored every 8 bytes).
    #[verifier::rlimit(60)]
    fn write_ppu_register(&mut self, addr: u16, data: u8, is_nondestructive: bool)
        requires
            PPU_REG_BASE_ADDR <= addr < APU_IO_REG_BASE_ADDR,
        ensures
            *final(self) == old(self).write_spec(addr, data, is_nondestructive),
    {
        reveal(System::write_spec);
        let index = ((addr - PPU_REG_BASE_ADDR) as usize) % PPU_REG_SIZE;
        assert(index == (addr - 0x2000) % 8);
        let ghost stored = vstd::array::spec_array_update(old(self).ppu_reg, index as int, data);
        match index {
            // OAM_DATA
            0x04 => {
                if !is_nondestructive {
                    self.written_oam_data = true;
                }
                self.ppu_reg[index] = data;
                proof { assert(self.ppu_reg =~= stored); }
            },
            // PPU_SCROLL, written twice
            0x05 => {
                if self.ppu_is_second_write {
                    self.ppu_scroll_y_reg = data;
                    if !is_nondestructive {
                        self.ppu_is_second_write = false;
                        self.written_ppu_scroll = true;
                    }
                } else {
                    self.ppu_reg[index] = data;
                    proof { assert(self.ppu_reg =~= stored); }
                    if !is_nondestructive {
                        self.ppu_is_second_write = true;
                    }
                }
            },
            // PPU_ADDR, written twice
            0x06 => {
                if self.ppu_is_second_write {
                    self.ppu_addr_lower_reg = data;
                    if !is_nondestructive {
                        self.ppu_is_second_write = false;
                        self.written_ppu_addr = true;
                    }
                } else {
                    self.ppu_reg[index] = data;
                    proof { assert(self.ppu_reg =~= stored); }
                    if !is_nondestructive {
                        self.ppu_is_second_write = true;
                    }
                }
            },
            // PPU_DATA, written by the PPU
            0x07 => {
                self.ppu_reg[index] = data;
                proof { assert(self.ppu_reg =~= stored); }
                if !is_nondestructive {
                    self.written_ppu_data = true;
                }
            },
            _ => {
                self.ppu_reg[index] = data;
                proof { assert(self.ppu_reg =~= stored); }
            },
        }
    }

    /// Writes an APU / I/O register (0x4000 - 0x401f).
    fn write_io_register(&mut self, addr: u16, data: u8, is_nondestructive: bool)
        requires
            APU_IO_REG_BASE_ADDR <= addr < 0x4020,
        ensures
            *final(self) == old(self).write_spec(addr, data, is_nondestructive),
    {
        reveal(System::write_spec);
        let index = (addr - APU_IO_REG_BASE_ADDR) as usize;
        if !is_nondestructive {
            match index {
                0x14 => self.written_oam_dma = true,
                0x16 => self.pad1.write_strobe((data & 0x01) == 0x01),
                0x17 => self.pad2.write_strobe((data & 0x01) == 0x01),
                _ => {},
            }
        }
        let ghost before = self.io_reg;
        self.io_reg[index] = data;
        proof {
            assert(self.io_reg =~= vstd::array::spec_array_update(before, index as int, data));
        }
    }
}

} // verus!
