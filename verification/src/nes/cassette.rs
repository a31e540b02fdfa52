use vstd::prelude::*;
use crate::interface::{SystemBus, VideoBus, EmulateControl};

verus! {

/// The cartridge mapper. Only mapper 0 (no mapper) is supported.
#[derive(Copy, Clone, PartialEq, Eq, Structural)]
pub enum Mapper {
    Unknown,
    /// Mapper0: no mapper
    Nrom,
}

/// How the four logical name tables are laid over the two physical ones.
#[derive(Copy, Clone, PartialEq, Eq, Structural)]
pub enum NameTableMirror {
    /// [A, A] / [B, B]
    Horizontal,
    /// [A, B] / [A, B]
    Vertical,
    /// [A, A] / [A, A]
    SingleScreen,
    /// [A, B] / [C, D]
    FourScreen,
}

/// A cartridge: its mapper, its name table mirroring, 32KB of PRG-ROM
/// (0x8000 - 0xffff) and 8KB of CHR-ROM (video 0x0000 - 0x1fff).
#[derive(Copy, Clone)]
pub struct Cassette {
    pub mapper: Mapper,
    pub nametable_mirror: NameTableMirror,
    pub prg_rom: [u8; 0x8000],
    pub chr_rom: [u8; 0x2000],
}

impl Default for Cassette {
    fn default() -> (c: Self)
        ensures
            c.mapper == Mapper::Unknown,
            c.nametable_mirror == NameTableMirror::Horizontal,
            forall|i: int| 0 <= i < 0x8000 ==> c.prg_rom[i] == 0,
            forall|i: int| 0 <= i < 0x2000 ==> c.chr_rom[i] == 0,
    {
        Self {
            mapper: Mapper::Unknown,
            nametable_mirror: NameTableMirror::Horizontal,
            prg_rom: [0u8; 0x8000],
            chr_rom: [0u8; 0x2000],
        }
    }
}

/// The byte that a deterministic byte source gives at `i`.
pub open spec fn closure_byte<F: Fn(usize) -> u8>(f: F, i: usize) -> u8 {
    choose|r: u8| f.ensures((i,), r)
}

/// A byte source that accepts every index and gives one byte per index.
pub open spec fn is_byte_source<F: Fn(usize) -> u8>(f: F) -> bool {
    &&& forall|i: usize| #[trigger] f.requires((i,))
    &&& forall|i: usize, r1: u8, r2: u8|
        #![trigger f.ensures((i,), r1), f.ensures((i,), r2)]
        f.ensures((i,), r1) && f.ensures((i,), r2) ==> r1 == r2
}

pub proof fn lemma_closure_byte<F: Fn(usize) -> u8>(f: F, i: usize, b: u8)
    requires
        is_byte_source(f),
        f.ensures((i,), b),
    ensures
        closure_byte(f, i) == b,
{
    let c = closure_byte(f, i);
    assert(f.ensures((i,), c));
}

/// An iNES image starts with "NES" and 0x1a.
pub open spec fn ines_header_ok<F: Fn(usize) -> u8>(f: F) -> bool {
    &&& closure_byte(f, 0) == 0x4e
    &&& closure_byte(f, 1) == 0x45
    &&& closure_byte(f, 2) == 0x53
    &&& closure_byte(f, 3) == 0x1a
}

/// Bytes of PRG-ROM: byte 4 counts 16KB units.
pub open spec fn ines_prg_bytes<F: Fn(usize) -> u8>(f: F) -> int {
    closure_byte(f, 4) * 0x4000
}

/// Bytes of CHR-ROM: byte 5 counts 8KB units.
pub open spec fn ines_chr_bytes<F: Fn(usize) -> u8>(f: F) -> int {
    closure_byte(f, 5) * 0x2000
}

/// Where PRG-ROM starts: after the 16 byte header and the 512 byte trainer
/// when flags6 bit 2 announces one.
pub open spec fn ines_prg_base<F: Fn(usize) -> u8>(f: F) -> int {
    16 + (if closure_byte(f, 6) & 0x04 == 0x04 { 512int } else { 0int })
}

/// Where CHR-ROM starts: right after PRG-ROM.
pub open spec fn ines_chr_base<F: Fn(usize) -> u8>(f: F) -> int {
    ines_prg_base(f) + ines_prg_bytes(f)
}

/// The mirroring that flags6 bit 0 announces.
pub open spec fn ines_mirror<F: Fn(usize) -> u8>(f: F) -> NameTableMirror {
    if closure_byte(f, 6) & 0x01 == 0x01 {
        NameTableMirror::Vertical
    } else {
        NameTableMirror::Horizontal
    }
}

/// PRG-ROM byte `i` after loading: the image's PRG-ROM, mirrored into the
/// upper half when the image holds a single 16KB bank.
pub open spec fn ines_prg_at<F: Fn(usize) -> u8>(f: F, old_rom: [u8; 0x8000], i: int) -> u8 {
    if i < ines_prg_bytes(f) {
        closure_byte(f, (ines_prg_base(f) + i) as usize)
    } else if closure_byte(f, 4) == 1 && 0x4000 <= i < 0x8000 {
        closure_byte(f, (ines_prg_base(f) + i - 0x4000) as usize)
    } else {
        old_rom[i]
    }
}

/// CHR-ROM byte `i` after loading.
pub open spec fn ines_chr_at<F: Fn(usize) -> u8>(f: F, old_rom: [u8; 0x2000], i: int) -> u8 {
    if i < ines_chr_bytes(f) {
        closure_byte(f, (ines_chr_base(f) + i) as usize)
    } else {
        old_rom[i]
    }
}

/// The iNES layout that a load follows: a 16 byte header, then a 512 byte
/// trainer when flags6 bit 2 is set, then byte 4 times 16KB of PRG-ROM, then
/// byte 5 times 8KB of CHR-ROM. PRG-ROM byte `i` and CHR-ROM byte `i` are
/// taken from those places in the image, and a single 16KB PRG bank is
/// seen again in the upper half.
pub proof fn lemma_ines_layout<F: Fn(usize) -> u8>(f: F, old_prg: [u8; 0x8000], old_chr: [u8; 0x2000], i: int)
    requires
        0 <= i,
    ensures
        ({
            let trainer: int = if closure_byte(f, 6) & 0x04 == 0x04 { 512 } else { 0 };
            let prg_banks: int = closure_byte(f, 4) as int;
            let chr_banks: int = closure_byte(f, 5) as int;
            &&& i < 0x4000 * prg_banks ==> ines_prg_at(f, old_prg, i) == closure_byte(f, (16 + trainer + i) as usize)
            &&& prg_banks == 1 && 0x4000 <= i < 0x8000 ==> ines_prg_at(f, old_prg, i) == closure_byte(
                f,
                (16 + trainer + i - 0x4000) as usize,
            )
            &&& i < 0x2000 * chr_banks ==> ines_chr_at(f, old_chr, i) == closure_byte(
                f,
                (16 + trainer + 0x4000 * prg_banks + i) as usize,
            )
        }),
{
}

impl Cassette {
    /// Loads an iNES image, read byte by byte through `read_closure`, so that
    /// an image that is not held in RAM can be loaded too. Returns false, and
    /// changes nothing, when the header is not an iNES header.
    pub fn from_ines_binary(&mut self, read_closure: impl Fn(usize) -> u8) -> (is_loaded: bool)
        requires
            is_byte_source(read_closure),
            ines_header_ok(read_closure) ==> closure_byte(read_closure, 4) <= 2
                && closure_byte(read_closure, 5) <= 1,
        ensures
            is_loaded == ines_header_ok(read_closure),
            !is_loaded ==> *final(self) == *old(self),
            is_loaded ==> final(self).mapper == Mapper::Nrom,
            is_loaded ==> final(self).nametable_mirror == ines_mirror(read_closure),
            is_loaded ==> forall|i: int|
                0 <= i < 0x8000 ==> final(self).prg_rom[i] == ines_prg_at(
                    read_closure,
                    old(self).prg_rom,
                    i,
                ),
            is_loaded ==> forall|i: int|
                0 <= i < 0x2000 ==> final(self).chr_rom[i] == ines_chr_at(
                    read_closure,
                    old(self).chr_rom,
                    i,
                ),
    {
        let b0 = read_closure(0);
        proof { lemma_closure_byte(read_closure, 0, b0); }
        if b0 != 0x4e {
            return false;
        }
        let b1 = read_closure(1);
        proof { lemma_closure_byte(read_closure, 1, b1); }
        if b1 != 0x45 {
            return false;
        }
        let b2 = read_closure(2);
        proof { lemma_closure_byte(read_closure, 2, b2); }
        if b2 != 0x53 {
            return false;
        }
        let b3 = read_closure(3);
        proof { lemma_closure_byte(read_closure, 3, b3); }
        if b3 != 0x1a {
            return false;
        }
        let b4 = read_closure(4);
        proof { lemma_closure_byte(read_closure, 4, b4); }
        let b5 = read_closure(5);
        proof { lemma_closure_byte(read_closure, 5, b5); }
        let flags6 = read_closure(6);
        proof { lemma_closure_byte(read_closure, 6, flags6); }
        let prg_rom_size: usize = b4 as usize;
        let chr_rom_size: usize = b5 as usize;

        let is_mirroring_vertical = (flags6 & 0x01) == 0x01;
        let is_exists_trainer = (flags6 & 0x04) == 0x04;

        let header_bytes: usize = 16;
        let trainer_bytes: usize = if is_exists_trainer { 512 } else { 0 };
        let prg_rom_bytes: usize = prg_rom_size * 0x4000;
        let chr_rom_bytes: usize = chr_rom_size * 0x2000;
        let prg_rom_baseaddr: usize = header_bytes + trainer_bytes;
        let chr_rom_baseaddr: usize = header_bytes + trainer_bytes + prg_rom_bytes;

        // only mapper 0 is supported
        self.mapper = Mapper::Nrom;
        self.nametable_mirror = if is_mirroring_vertical {
            NameTableMirror::Vertical
        } else {
            NameTableMirror::Horizontal
        };

        let ghost old_prg = old(self).prg_rom;
        let mut index: usize = 0;
        while index < prg_rom_bytes
            invariant
                is_byte_source(read_closure),
                prg_rom_size as int == closure_byte(read_closure, 4),
                prg_rom_size <= 2,
                prg_rom_bytes as int == ines_prg_bytes(read_closure),
                prg_rom_baseaddr as int == ines_prg_base(read_closure),
                index <= prg_rom_bytes,
                forall|j: int|
                    0 <= j < 0x8000 ==> #[trigger] self.prg_rom[j] == (if j < index {
                        closure_byte(read_closure, (prg_rom_baseaddr + j) as usize)
                    } else if prg_rom_size == 1 && 0x4000 <= j < 0x4000 + index {
                        closure_byte(read_closure, (prg_rom_baseaddr + j - 0x4000) as usize)
                    } else {
                        old_prg[j]
                    }),
                self.mapper == Mapper::Nrom,
                self.nametable_mirror == ines_mirror(read_closure),
                self.chr_rom == old(self).chr_rom,
            decreases prg_rom_bytes - index,
        {
            let ines_binary_addr = prg_rom_baseaddr + index;
            let d = read_closure(ines_binary_addr);
            proof { lemma_closure_byte(read_closure, ines_binary_addr, d); }
            self.prg_rom[index] = d;
            // a single 16KB bank is mirrored into 0xc000 - 0xffff
            if prg_rom_size == 1 {
                let d2 = read_closure(ines_binary_addr);
                proof { lemma_closure_byte(read_closure, ines_binary_addr, d2); }
                self.prg_rom[index + 0x4000] = d2;
            }
            index = index + 1;
        }

        let ghost old_chr = old(self).chr_rom;
        let mut index: usize = 0;
        while index < chr_rom_bytes
            invariant
                is_byte_source(read_closure),
                chr_rom_size as int == closure_byte(read_closure, 5),
                chr_rom_size <= 1,
                chr_rom_bytes as int == ines_chr_bytes(read_closure),
                chr_rom_baseaddr as int == ines_chr_base(read_closure),
                index <= chr_rom_bytes,
                forall|j: int|
                    0 <= j < 0x2000 ==> #[trigger] self.chr_rom[j] == (if j < index {
                        closure_byte(read_closure, (chr_rom_baseaddr + j) as usize)
                    } else {
                        old_chr[j]
                    }),
                forall|j: int|
                    0 <= j < 0x8000 ==> #[trigger] self.prg_rom[j] == ines_prg_at(
                        read_closure,
                        old_prg,
                        j,
                    ),
                self.mapper == Mapper::Nrom,
                self.nametable_mirror == ines_mirror(read_closure),
            decreases chr_rom_bytes - index,
        {
            let ines_binary_addr = chr_rom_baseaddr + index;
            let d = read_closure(ines_binary_addr);
            proof { lemma_closure_byte(read_closure, ines_binary_addr, d); }
            self.chr_rom[index] = d;
            index = index + 1;
        }
        true
    }
}

impl SystemBus for Cassette {
    /// Only PRG-ROM (0x8000 - 0xffff) of a mapper 0 cartridge answers.
    open spec fn bus_addr_ok(&self, addr: u16) -> bool {
        addr >= 0x8000 && self.mapper == Mapper::Nrom
    }

    open spec fn bus_read(&self, addr: u16, is_nondestructive: bool) -> (u8, Cassette) {
        (self.prg_rom[addr - 0x8000], *self)
    }

    open spec fn bus_write(&self, addr: u16, data: u8, is_nondestructive: bool) -> Cassette {
        Cassette {
            prg_rom: vstd::array::spec_array_update(self.prg_rom, addr - 0x8000, data),
            ..*self
        }
    }

    fn read_u8(&mut self, addr: u16, is_nondestructive: bool) -> (data: u8) {
        let index = (addr - 0x8000) as usize;
        self.prg_rom[index]
    }

    fn write_u8(&mut self, addr: u16, data: u8, is_nondestructive: bool) {
        let index = (addr - 0x8000) as usize;
        self.prg_rom[index] = data;
        proof {
            assert(self.prg_rom =~= vstd::array::spec_array_update(
                old(self).prg_rom,
                addr - 0x8000,
                data,
            ));
        }
    }
}

impl VideoBus for Cassette {
    /// The pattern tables (video 0x0000 - 0x1fff) live in CHR-ROM.
    open spec fn video_addr_ok(&self, addr: u16) -> bool {
        addr < 0x2000
    }

    open spec fn video_read(&self, addr: u16) -> u8 {
        self.chr_rom[addr as int]
    }

    open spec fn video_write(&self, addr: u16, data: u8) -> Cassette {
        Cassette { chr_rom: vstd::array::spec_array_update(self.chr_rom, addr as int, data), ..*self }
    }

    fn read_video_u8(&mut self, addr: u16) -> (data: u8) {
        self.chr_rom[addr as usize]
    }

    fn write_video_u8(&mut self, addr: u16, data: u8) {
        self.chr_rom[addr as usize] = data;
        proof {
            assert(self.chr_rom =~= vstd::array::spec_array_update(
                old(self).chr_rom,
                addr as int,
                data,
            ));
        }
    }
}

impl EmulateControl for Cassette {
    /// Reset clears both ROMs; the mapper and the mirroring stay.
    open spec fn reset_state(&self) -> Cassette {
        Cassette {
            prg_rom: vstd::array::spec_array_fill_for_copy_type::<u8, 0x8000>(0),
            chr_rom: vstd::array::spec_array_fill_for_copy_type::<u8, 0x2000>(0),
            ..*self
        }
    }

    fn reset(&mut self) {
        self.prg_rom = [0u8; 0x8000];
        self.chr_rom = [0u8; 0x2000];
    }
}

} // verus!
