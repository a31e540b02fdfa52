use vstd::prelude::*;
use crate::system::System;
use crate::cpu_register::flag_update;

verus! {

pub const PPU_CTRL_OFFSET: usize = 0x00;
pub const PPU_MASK_OFFSET: usize = 0x01;
pub const PPU_STATUS_OFFSET: usize = 0x02;
pub const PPU_OAMADDR_OFFSET: usize = 0x03;
pub const PPU_OAMDATA_OFFSET: usize = 0x04;
pub const PPU_SCROLL_OFFSET: usize = 0x05;
pub const PPU_ADDR_OFFSET: usize = 0x06;
pub const PPU_DATA_OFFSET: usize = 0x07;
pub const APU_IO_OAM_DMA_OFFSET: usize = 0x14;

/// The name table base address that PPU_CTRL bits 0-1 select.
pub open spec fn name_table_base(ctrl: u8) -> u16 {
    let sel = ctrl & 0x03u8;
    if sel == 0 {
        0x2000
    } else if sel == 1 {
        0x2400
    } else if sel == 2 {
        0x2800
    } else {
        0x2c00
    }
}

impl System {
    /// The 16-bit PPU address: $2006's first byte above its second.
    pub open spec fn ppu_addr_spec(self) -> u16 {
        ((self.ppu_reg[6] as u16) << 8u16) | (self.ppu_addr_lower_reg as u16)
    }

    /// The PPU address increment that PPU_CTRL bit 2 selects.
    pub open spec fn ppu_addr_increment_spec(self) -> u8 {
        if self.ppu_reg[0] & 0x04u8 == 0x04u8 { 32 } else { 1 }
    }

    pub open spec fn with_ppu_reg(self, index: int, value: u8) -> System {
        System { ppu_reg: vstd::array::spec_array_update(self.ppu_reg, index, value), ..self }
    }

    /// What `read_oam_data` returns and leaves behind.
    pub open spec fn read_oam_data_spec(self) -> ((bool, bool, u8), System) {
        if self.written_oam_data {
            ((false, true, self.ppu_reg[4]), System { written_oam_data: false, ..self })
        } else if self.read_oam_data {
            ((true, false, self.ppu_reg[4]), System { read_oam_data: false, ..self })
        } else {
            ((false, false, self.ppu_reg[4]), self)
        }
    }

    /// What `read_ppu_scroll` returns and leaves behind.
    pub open spec fn read_ppu_scroll_spec(self) -> ((bool, u8, u8), System) {
        if self.written_ppu_scroll {
            ((true, self.ppu_reg[5], self.ppu_scroll_y_reg), System { written_ppu_scroll: false, ..self })
        } else {
            ((false, self.ppu_reg[5], self.ppu_scroll_y_reg), self)
        }
    }

    /// What `read_ppu_addr` returns and leaves behind.
    pub open spec fn read_ppu_addr_spec(self) -> ((bool, u16), System) {
        if self.written_ppu_addr {
            ((true, self.ppu_addr_spec()), System { written_ppu_addr: false, ..self })
        } else {
            ((false, self.ppu_addr_spec()), self)
        }
    }

    /// What `read_ppu_data` returns and leaves behind.
    pub open spec fn read_ppu_data_spec(self) -> ((bool, bool, u8), System) {
        if self.written_ppu_data {
            ((false, true, self.ppu_reg[7]), System { written_ppu_data: false, ..self })
        } else if self.read_ppu_data {
            ((true, false, self.ppu_reg[7]), System { read_ppu_data: false, ..self })
        } else {
            ((false, false, self.ppu_reg[7]), self)
        }
    }

    /// The state after the PPU address has advanced by its increment.
    pub open spec fn increment_ppu_addr_spec(self) -> System {
        let dst = ((self.ppu_addr_spec() + self.ppu_addr_increment_spec()) % 0x10000) as u16;
        System {
            ppu_addr_lower_reg: (dst & 0xffu16) as u8,
            ppu_reg: vstd::array::spec_array_update(self.ppu_reg, 6, (dst >> 8u16) as u8),
            ..self
        }
    }

    /// What `read_oam_dma` returns and leaves behind.
    pub open spec fn read_oam_dma_spec(self) -> ((bool, u16), System) {
        let start_addr = (self.io_reg[0x14] as u16) << 8u16;
        if self.written_oam_dma {
            ((true, start_addr), System { written_oam_dma: false, ..self })
        } else {
            ((false, start_addr), self)
        }
    }

    /*************************** 0x2000: PPUCTRL ***************************/
    /// NMI on VBLANK, for as long as the VBLANK flag of 0x2002 stays set.
    pub fn read_ppu_nmi_enable(&self) -> (r: bool)
        ensures
            r == (self.ppu_reg[0] & 0x80u8 == 0x80u8),
    {
        (self.ppu_reg[PPU_CTRL_OFFSET] & 0x80u8) == 0x80u8
    }

    pub fn read_ppu_is_master(&self) -> (r: bool)
        ensures
            r == (self.ppu_reg[0] & 0x40u8 == 0x40u8),
    {
        (self.ppu_reg[PPU_CTRL_OFFSET] & 0x40u8) == 0x40u8
    }

    /// 8 or 16
    pub fn read_ppu_sprite_height(&self) -> (r: u8)
        ensures
            r == (if self.ppu_reg[0] & 0x20u8 == 0x20u8 { 16u8 } else { 8u8 }),
    {
        if (self.ppu_reg[PPU_CTRL_OFFSET] & 0x20u8) == 0x20u8 {
            16
        } else {
            8
        }
    }

    pub fn read_ppu_bg_pattern_table_addr(&self) -> (r: u16)
        ensures
            r == (if self.ppu_reg[0] & 0x10u8 == 0x10u8 { 0x1000u16 } else { 0x0000u16 }),
    {
        if (self.ppu_reg[PPU_CTRL_OFFSET] & 0x10u8) == 0x10u8 {
            0x1000u16
        } else {
            0x0000u16
        }
    }

    pub fn read_ppu_sprite_pattern_table_addr(&self) -> (r: u16)
        ensures
            r == (if self.ppu_reg[0] & 0x08u8 == 0x08u8 { 0x1000u16 } else { 0x0000u16 }),
    {
        if (self.ppu_reg[PPU_CTRL_OFFSET] & 0x08u8) == 0x08u8 {
            0x1000u16
        } else {
            0x0000u16
        }
    }

    /// The PPU address increment: 1 (horizontal) or 32 (vertical).
    pub fn read_ppu_addr_increment(&self) -> (r: u8)
        ensures
            r == self.ppu_addr_increment_spec(),
    {
        if (self.ppu_reg[PPU_CTRL_OFFSET] & 0x04u8) == 0x04u8 {
            32u8
        } else {
            1u8
        }
    }

    pub fn read_ppu_name_table_base_addr(&self) -> (r: u16)
        ensures
            r == name_table_base(self.ppu_reg[0]),
    {
        let sel = self.ppu_reg[PPU_CTRL_OFFSET] & 0x03u8;
        if sel == 0 {
            0x2000
        } else if sel == 1 {
            0x2400
        } else if sel == 2 {
            0x2800
        } else {
            0x2c00
        }
    }

    /*************************** 0x2001: PPUMASK ***************************/
    pub fn read_ppu_is_write_sprite(&self) -> (r: bool)
        ensures
            r == (self.ppu_reg[1] & 0x10u8 == 0x10u8),
    {
        (self.ppu_reg[PPU_MASK_OFFSET] & 0x10u8) == 0x10u8
    }

    pub fn read_ppu_is_write_bg(&self) -> (r: bool)
        ensures
            r == (self.ppu_reg[1] & 0x08u8 == 0x08u8),
    {
        (self.ppu_reg[PPU_MASK_OFFSET] & 0x08u8) == 0x08u8
    }

    /// Sprites are clipped in the leftmost 8 pixels while bit 2 is clear.
    pub fn read_ppu_is_clip_sprite_leftend(&self) -> (r: bool)
        ensures
            r == (self.ppu_reg[1] & 0x04u8 != 0x04u8),
    {
        (self.ppu_reg[PPU_MASK_OFFSET] & 0x04u8) != 0x04u8
    }

    /// The background is clipped in the leftmost 8 pixels while bit 1 is clear.
    pub fn read_ppu_is_clip_bg_leftend(&self) -> (r: bool)
        ensures
            r == (self.ppu_reg[1] & 0x02u8 != 0x02u8),
    {
        (self.ppu_reg[PPU_MASK_OFFSET] & 0x02u8) != 0x02u8
    }

    pub fn read_is_monochrome(&self) -> (r: bool)
        ensures
            r == (self.ppu_reg[1] & 0x01u8 == 0x01u8),
    {
        (self.ppu_reg[PPU_MASK_OFFSET] & 0x01u8) == 0x01u8
    }

    /*************************** 0x2002: PPU_STATUS ***************************/
    /// Reading through this function does not clear the flag; a CPU read of
    /// PPU_STATUS does.
    pub fn read_ppu_is_vblank(&self) -> (r: bool)
        ensures
            r == (self.ppu_reg[2] & 0x80u8 == 0x80u8),
    {
        (self.ppu_reg[PPU_STATUS_OFFSET] & 0x80u8) == 0x80u8
    }

    pub fn write_ppu_is_vblank(&mut self, is_set: bool)
        ensures
            *final(self) == old(self).with_ppu_reg(2, flag_update(old(self).ppu_reg[2], 0x80, is_set)),
    {
        if is_set {
            self.ppu_reg[PPU_STATUS_OFFSET] = self.ppu_reg[PPU_STATUS_OFFSET] | 0x80u8;
        } else {
            self.ppu_reg[PPU_STATUS_OFFSET] = self.ppu_reg[PPU_STATUS_OFFSET] & (!0x80u8);
        }
        proof {
            assert(self.ppu_reg =~= old(self).with_ppu_reg(
                2,
                flag_update(old(self).ppu_reg[2], 0x80, is_set),
            ).ppu_reg);
        }
    }

    /// Sprite 0 is being drawn.
    pub fn read_ppu_is_hit_sprite0(&self) -> (r: bool)
        ensures
            r == (self.ppu_reg[2] & 0x40u8 == 0x40u8),
    {
        (self.ppu_reg[PPU_STATUS_OFFSET] & 0x40u8) == 0x40u8
    }

    pub fn write_ppu_is_hit_sprite0(&mut self, is_set: bool)
        ensures
            *final(self) == old(self).with_ppu_reg(2, flag_update(old(self).ppu_reg[2], 0x40, is_set)),
    {
        if is_set {
            self.ppu_reg[PPU_STATUS_OFFSET] = self.ppu_reg[PPU_STATUS_OFFSET] | 0x40u8;
        } else {
            self.ppu_reg[PPU_STATUS_OFFSET] = self.ppu_reg[PPU_STATUS_OFFSET] & (!0x40u8);
        }
        proof {
            assert(self.ppu_reg =~= old(self).with_ppu_reg(
                2,
                flag_update(old(self).ppu_reg[2], 0x40, is_set),
            ).ppu_reg);
        }
    }

    /// More than 8 sprites on the scanline.
    pub fn read_ppu_is_sprite_overflow(&self) -> (r: bool)
        ensures
            r == (self.ppu_reg[2] & 0x20u8 == 0x20u8),
    {
        (self.ppu_reg[PPU_STATUS_OFFSET] & 0x20u8) == 0x20u8
    }

    pub fn write_ppu_is_sprite_overflow(&mut self, is_set: bool)
        ensures
            *final(self) == old(self).with_ppu_reg(2, flag_update(old(self).ppu_reg[2], 0x20, is_set)),
    {
        if is_set {
            self.ppu_reg[PPU_STATUS_OFFSET] = self.ppu_reg[PPU_STATUS_OFFSET] | 0x20u8;
        } else {
            self.ppu_reg[PPU_STATUS_OFFSET] = self.ppu_reg[PPU_STATUS_OFFSET] & (!0x20u8);
        }
        proof {
            assert(self.ppu_reg =~= old(self).with_ppu_reg(
                2,
                flag_update(old(self).ppu_reg[2], 0x20, is_set),
            ).ppu_reg);
        }
    }

    /// Clears PPU_STATUS (at line 261).
    pub fn clear_ppu_status(&mut self)
        ensures
            *final(self) == old(self).with_ppu_reg(2, 0),
    {
        self.ppu_reg[PPU_STATUS_OFFSET] = 0x00u8;
        proof {
            assert(self.ppu_reg =~= old(self).with_ppu_reg(2, 0).ppu_reg);
        }
    }

    /*************************** 0x2003: OAMADDR ***************************/
    pub fn read_ppu_oam_addr(&self) -> (r: u8)
        ensures
            r == self.ppu_reg[3],
    {
        self.ppu_reg[PPU_OAMADDR_OFFSET]
    }

    /*************************** 0x2004: OAMDATA ***************************/
    /// Returns (was read, was written, data) and clears the request; a write
    /// request wins over a read request.
    pub fn read_oam_data(&mut self) -> (r: (bool, bool, u8))
        ensures
            (r, *final(self)) == old(self).read_oam_data_spec(),
    {
        if self.written_oam_data {
            self.written_oam_data = false;
            (false, true, self.ppu_reg[PPU_OAMDATA_OFFSET])
        } else if self.read_oam_data {
            self.read_oam_data = false;
            (true, false, self.ppu_reg[PPU_OAMDATA_OFFSET])
        } else {
            (false, false, self.ppu_reg[PPU_OAMDATA_OFFSET])
        }
    }

    pub fn write_oam_data(&mut self, data: u8)
        ensures
            *final(self) == old(self).with_ppu_reg(4, data),
    {
        self.ppu_reg[PPU_OAMDATA_OFFSET] = data;
        proof {
            assert(self.ppu_reg =~= old(self).with_ppu_reg(4, data).ppu_reg);
        }
    }

    /*************************** 0x2005: PPUSCROLL ***************************/
    /// Returns (was updated, x, y) and clears the update flag.
    pub fn read_ppu_scroll(&mut self) -> (r: (bool, u8, u8))
        ensures
            (r, *final(self)) == old(self).read_ppu_scroll_spec(),
    {
        if self.written_ppu_scroll {
            self.written_ppu_scroll = false;
            (true, self.ppu_reg[PPU_SCROLL_OFFSET], self.ppu_scroll_y_reg)
        } else {
            (false, self.ppu_reg[PPU_SCROLL_OFFSET], self.ppu_scroll_y_reg)
        }
    }

    /*************************** 0x2006: PPUADDR ***************************/
    /// Returns (was updated, address) and clears the update flag.
    pub fn read_ppu_addr(&mut self) -> (r: (bool, u16))
        ensures
            (r, *final(self)) == old(self).read_ppu_addr_spec(),
    {
        let addr = ((self.ppu_reg[PPU_ADDR_OFFSET] as u16) << 8u16) | (self.ppu_addr_lower_reg as u16);
        if self.written_ppu_addr {
            self.written_ppu_addr = false;
            (true, addr)
        } else {
            (false, addr)
        }
    }

    /*************************** 0x2007: PPUDATA ***************************/
    /// Returns (was read, was written, data) and clears the request; never
    /// both. A write request wins over a read request.
    pub fn read_ppu_data(&mut self) -> (r: (bool, bool, u8))
        ensures
            (r, *final(self)) == old(self).read_ppu_data_spec(),
    {
        if self.written_ppu_data {
            self.written_ppu_data = false;
            (false, true, self.ppu_reg[PPU_DATA_OFFSET])
        } else if self.read_ppu_data {
            self.read_ppu_data = false;
            (true, false, self.ppu_reg[PPU_DATA_OFFSET])
        } else {
            (false, false, self.ppu_reg[PPU_DATA_OFFSET])
        }
    }

    /// Stores the data without advancing the address.
    pub fn write_ppu_data(&mut self, data: u8)
        ensures
            *final(self) == old(self).with_ppu_reg(7, data),
    {
        self.ppu_reg[PPU_DATA_OFFSET] = data;
        proof {
            assert(self.ppu_reg =~= old(self).with_ppu_reg(7, data).ppu_reg);
        }
    }

    /// Advances the PPU address by the increment that PPU_CTRL selects,
    /// wrapping at 0x10000.
    pub fn increment_ppu_addr(&mut self)
        ensures
            *final(self) == old(self).increment_ppu_addr_spec(),
    {
        let current_addr = ((self.ppu_reg[PPU_ADDR_OFFSET] as u16) << 8u16) | (self.ppu_addr_lower_reg as u16);
        let add_val = self.read_ppu_addr_increment() as u16;
        let dst_addr = current_addr.wrapping_add(add_val);
        self.ppu_addr_lower_reg = (dst_addr & 0xff) as u8;
        self.ppu_reg[PPU_ADDR_OFFSET] = (dst_addr >> 8u16) as u8;
        proof {
            assert(self.ppu_reg =~= old(self).increment_ppu_addr_spec().ppu_reg);
        }
    }

    /*************************** 0x4014: OAM_DMA ***************************/
    /// Returns (whether a DMA was requested, source address) and clears the
    /// request.
    pub fn read_oam_dma(&mut self) -> (r: (bool, u16))
        ensures
            (r, *final(self)) == old(self).read_oam_dma_spec(),
    {
        let start_addr = (self.io_reg[APU_IO_OAM_DMA_OFFSET] as u16) << 8u16;
        if self.written_oam_dma {
            self.written_oam_dma = false;
            (true, start_addr)
        } else {
            (false, start_addr)
        }
    }
}

} // verus!
