use vstd::prelude::*;
use crate::interface::{EmulateControl, VideoBus};
use crate::nes::cassette::{Cassette, NameTableMirror};

verus! {

pub const PATTERN_TABLE_BASE_ADDR: u16 = 0x0000;
pub const NAME_TABLE_BASE_ADDR: u16 = 0x2000;
pub const NAME_TABLE_MIRROR_BASE_ADDR: u16 = 0x3000;
pub const PALETTE_TABLE_BASE_ADDR: u16 = 0x3f00;
pub const VIDEO_ADDRESS_SIZE: u16 = 0x4000;

pub const NAME_TABLE_SIZE: usize = 0x0400;
pub const NUM_OF_NAME_TABLE: usize = 4;
pub const ATTRIBUTE_TABLE_SIZE: u16 = 0x0040;
/// The attribute table sits at name table + 0x3c0.
pub const ATTRIBUTE_TABLE_OFFSET: u16 = 0x03c0;

pub const PALETTE_SIZE: usize = 0x20;
pub const PALETTE_ENTRY_SIZE: u16 = 0x04;
pub const PALETTE_BG_OFFSET: u16 = 0x00;
pub const PALETTE_SPRITE_OFFSET: u16 = 0x10;

/// The memory that the PPU draws from, besides the pattern tables, which
/// live in the cartridge.
#[derive(Clone)]
pub struct VideoSystem {
    /// 0x2000 - 0x2fff: name tables 0/1/2/3 (0x400 each). Only two exist;
    /// the cartridge's mirroring lays the four over them.
    /// 0x3000 - 0x3eff mirrors 0x2000.
    pub nametables: [[u8; NAME_TABLE_SIZE]; NUM_OF_NAME_TABLE],
    /// 0x3f00 - 0x3f1f: palette, mirrored through 0x3fff.
    pub palette: [u8; PALETTE_SIZE],
}

impl Default for VideoSystem {
    fn default() -> (v: Self)
        ensures
            forall|t: int, i: int| 0 <= t < 4 && 0 <= i < 0x400 ==> v.nametables[t][i] == 0,
            forall|i: int| 0 <= i < 0x20 ==> v.palette[i] == 0,
    {
        Self { nametables: [[0u8; NAME_TABLE_SIZE]; NUM_OF_NAME_TABLE], palette: [0u8; PALETTE_SIZE] }
    }
}

impl EmulateControl for VideoSystem {
    open spec fn reset_state(&self) -> VideoSystem {
        VideoSystem {
            nametables: vstd::array::spec_array_fill_for_copy_type::<[u8; 0x400], 4>(
                vstd::array::spec_array_fill_for_copy_type::<u8, 0x400>(0),
            ),
            palette: vstd::array::spec_array_fill_for_copy_type::<u8, 0x20>(0),
        }
    }

    fn reset(&mut self) {
        self.nametables = [[0u8; NAME_TABLE_SIZE]; NUM_OF_NAME_TABLE];
        self.palette = [0u8; PALETTE_SIZE];
    }
}

/// Which physical name table a name table address (0x2000 - 0x2fff) falls in.
pub open spec fn name_table_index(mirror: NameTableMirror, addr: u16) -> int {
    match mirror {
        NameTableMirror::Horizontal => if addr < 0x2800 { 0 } else { 1 },
        NameTableMirror::Vertical => {
            let tmp_addr = if addr >= 0x2800 { addr - 0x800 } else { addr as int };
            if tmp_addr < 0x2400 { 0 } else { 1 }
        },
        NameTableMirror::SingleScreen => 0,
        NameTableMirror::FourScreen => (addr - 0x2000) / 0x400,
    }
}

/// The offset within that name table.
pub open spec fn name_table_offset(addr: u16) -> int {
    (addr - 0x2000) % 0x400
}

/// The name table address that a video address reads: 0x3000 - 0x3eff
/// mirrors 0x2000 - 0x2eff.
pub open spec fn name_table_addr(addr: u16) -> u16 {
    if addr < 0x3000 { addr } else { (addr - 0x1000) as u16 }
}

/// The palette entry that a video address at or above 0x3f00 reads: the 32
/// entries repeat, and 0x10/0x14/0x18/0x1c are the same as 0x00/0x04/0x08/0x0c.
pub open spec fn palette_index(addr: u16) -> int {
    let index = (addr - 0x3f00) % 0x20;
    if index == 0x10 || index == 0x14 || index == 0x18 || index == 0x1c {
        index - 0x10
    } else {
        index
    }
}

/// A name table access falls in one of the four physical name tables.
pub open spec fn video_addr_ok(mirror: NameTableMirror, addr: u16) -> bool {
    (0x2000 <= addr < 0x3f00) ==> name_table_index(mirror, name_table_addr(addr)) < 4
}

impl VideoSystem {
    /// What a read of `addr` gives.
    pub open spec fn read_spec(self, cassette: Cassette, addr: u16) -> u8 {
        if addr < 0x2000 {
            cassette.video_read(addr)
        } else if addr < 0x3f00 {
            let a = name_table_addr(addr);
            self.nametables[name_table_index(cassette.nametable_mirror, a)][name_table_offset(a)]
        } else {
            self.palette[palette_index(addr)]
        }
    }

    /// The video memory and the cartridge after a write of `data` to `addr`.
    pub open spec fn write_spec(self, cassette: Cassette, addr: u16, data: u8) -> (VideoSystem, Cassette) {
        if addr < 0x2000 {
            (self, cassette.video_write(addr, data))
        } else if addr < 0x3f00 {
            let a = name_table_addr(addr);
            let t = name_table_index(cassette.nametable_mirror, a);
            let o = name_table_offset(a);
            (
                VideoSystem {
                    nametables: vstd::array::spec_array_update(
                        self.nametables,
                        t,
                        vstd::array::spec_array_update(self.nametables[t], o, data),
                    ),
                    ..self
                },
                cassette,
            )
        } else {
            (
                VideoSystem {
                    palette: vstd::array::spec_array_update(self.palette, palette_index(addr), data),
                    ..self
                },
                cassette,
            )
        }
    }

    /// A read gives back what a write to the same address wrote, at every
    /// address the video bus answers.
    pub proof fn lemma_write_then_read(self, cassette: Cassette, addr: u16, data: u8)
        requires
            video_addr_ok(cassette.nametable_mirror, addr),
        ensures
            ({
                let (v, c) = self.write_spec(cassette, addr, data);
                v.read_spec(c, addr) == data
            }),
    {
    }

    /// The mirrors of the video address space: 0x3000 - 0x3eff repeats the
    /// name tables at 0x2000; the palette repeats every 0x20 bytes, and its
    /// entries 0x10, 0x14, 0x18, 0x1c are those of 0x00, 0x04, 0x08, 0x0c;
    /// horizontal mirroring repeats 0x2000 at 0x2400, vertical at 0x2800.
    pub proof fn lemma_mirrors(self, cassette: Cassette, addr: u16)
        ensures
            0x2000 <= addr < 0x2f00 ==> self.read_spec(cassette, addr) == self.read_spec(cassette, (addr + 0x1000) as u16),
            0x3f00 <= addr < 0xffe0 ==> self.read_spec(cassette, addr) == self.read_spec(cassette, (addr + 0x20) as u16),
            0x3f00 <= addr < 0x3f10 && addr % 4 == 0 ==> self.read_spec(cassette, addr) == self.read_spec(cassette, (addr + 0x10) as u16),
            cassette.nametable_mirror == NameTableMirror::Horizontal && 0x2000 <= addr < 0x2400 ==> self.read_spec(cassette, addr)
                == self.read_spec(cassette, (addr + 0x400) as u16),
            cassette.nametable_mirror == NameTableMirror::Vertical && 0x2000 <= addr < 0x2800 ==> self.read_spec(cassette, addr)
                == self.read_spec(cassette, (addr + 0x800) as u16),
    {
        assert((addr + 0x20 - 0x3f00) % 0x20 == (addr - 0x3f00) % 0x20);
        assert((addr + 0x400 - 0x2000) % 0x400 == (addr - 0x2000) % 0x400);
        assert((addr + 0x800 - 0x2000) % 0x400 == (addr - 0x2000) % 0x400);
    }

    /// Converts a name table address (0x2000 - 0x2fff) to (table, offset)
    /// under the given mirroring.
    fn convert_name_table_addr(&self, mirror_mode: NameTableMirror, addr: u16) -> (r: (usize, usize))
        requires
            NAME_TABLE_BASE_ADDR <= addr < NAME_TABLE_MIRROR_BASE_ADDR,
        ensures
            r.0 == name_table_index(mirror_mode, addr),
            r.1 == name_table_offset(addr),
    {
        let offset = ((addr - NAME_TABLE_BASE_ADDR) as usize) % NAME_TABLE_SIZE;
        let table_index: usize = match mirror_mode {
            NameTableMirror::Horizontal => {
                if addr < 0x2800 { 0 } else { 1 }
            },
            NameTableMirror::Vertical => {
                let tmp_addr = if addr >= 0x2800 { addr - 0x800 } else { addr };
                if tmp_addr < 0x2400 { 0 } else { 1 }
            },
            NameTableMirror::SingleScreen => 0,
            NameTableMirror::FourScreen => ((addr - 0x2000) / 0x400) as usize,
        };
        (table_index, offset)
    }

    fn palette_index_of(addr: u16) -> (index: usize)
        requires
            addr >= PALETTE_TABLE_BASE_ADDR,
        ensures
            index == palette_index(addr),
            index < PALETTE_SIZE,
    {
        let index = ((addr - PALETTE_TABLE_BASE_ADDR) as usize) % PALETTE_SIZE;
        match index {
            0x10 => 0x00,
            0x14 => 0x04,
            0x18 => 0x08,
            0x1c => 0x0c,
            _ => index,
        }
    }

    /// Reads the video address space: pattern tables from the cartridge,
    /// name tables through the cartridge's mirroring, then the palette.
    pub fn read_u8(&self, cassette: &mut Cassette, addr: u16) -> (data: u8)
        requires
            video_addr_ok(old(cassette).nametable_mirror, addr),
        ensures
            data == self.read_spec(*old(cassette), addr),
            *final(cassette) == *old(cassette),
    {
        if addr < NAME_TABLE_BASE_ADDR {
            cassette.read_video_u8(addr)
        } else if addr < NAME_TABLE_MIRROR_BASE_ADDR {
            let (index, offset) = self.convert_name_table_addr(cassette.nametable_mirror, addr);
            self.nametables[index][offset]
        } else if addr < PALETTE_TABLE_BASE_ADDR {
            // 0x3000 mirrors 0x2000
            let (index, offset) = self.convert_name_table_addr(
                cassette.nametable_mirror,
                addr - 0x1000,
            );
            self.nametables[index][offset]
        } else {
            let index = Self::palette_index_of(addr);
            self.palette[index]
        }
    }

    /// Writes the video address space; pattern table writes go to the
    /// cartridge.
    pub fn write_u8(&mut self, cassette: &mut Cassette, addr: u16, data: u8)
        requires
            video_addr_ok(old(cassette).nametable_mirror, addr),
        ensures
            (*final(self), *final(cassette)) == old(self).write_spec(*old(cassette), addr, data),
    {
        if addr < NAME_TABLE_BASE_ADDR {
            cassette.write_video_u8(addr, data);
        } else if addr < PALETTE_TABLE_BASE_ADDR {
            let a = if addr < NAME_TABLE_MIRROR_BASE_ADDR { addr } else { addr - 0x1000 };
            let (index, offset) = self.convert_name_table_addr(cassette.nametable_mirror, a);
            self.nametables[index][offset] = data;
            proof {
                let t = index as int;
                let o = offset as int;
                assert(self.nametables[t] =~= vstd::array::spec_array_update(
                    old(self).nametables[t],
                    o,
                    data,
                ));
                assert(self.nametables =~= vstd::array::spec_array_update(
                    old(self).nametables,
                    t,
                    vstd::array::spec_array_update(old(self).nametables[t], o, data),
                ));
            }
        } else {
            let index = Self::palette_index_of(addr);
            self.palette[index] = data;
            proof {
                assert(self.palette =~= vstd::array::spec_array_update(
                    old(self).palette,
                    index as int,
                    data,
                ));
            }
        }
    }
}

} // verus!
