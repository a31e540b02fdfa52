use vstd::prelude::*;
use crate::cpu_register::flag_update;
use crate::nes::system::System;

verus! {

/// PPU registers 0x2000 - 0x2007: each flag reads as set while its bit is
/// set; the left-end clipping flags read as set while their bit is clear
/// (the bit enables showing the left 8 pixels).
impl System {
    pub open spec fn with_ppu_reg(self, index: int, value: u8) -> System {
        System { ppu_reg: vstd::array::spec_array_update(self.ppu_reg, index, value), ..self }
    }

    /*************************** 0x2000: PPUCTRL ***************************/
    pub fn read_ppu_nmi_enable(&self) -> (r: bool)
        ensures
            r == (self.ppu_reg[0] & 0x80u8 == 0x80u8),
    {
        (self.ppu_reg[0] & 0x80u8) == 0x80u8
    }

    pub fn read_ppu_is_master(&self) -> (r: bool)
        ensures
            r == (self.ppu_reg[0] & 0x40u8 == 0x40u8),
    {
        (self.ppu_reg[0] & 0x40u8) == 0x40u8
    }

    pub fn read_ppu_sprite_height(&self) -> (r: u8)
        ensures
            r == (if self.ppu_reg[0] & 0x20u8 == 0x20u8 { 16u8 } else { 8u8 }),
    {
        if (self.ppu_reg[0] & 0x20u8) == 0x20u8 {
            16
        } else {
            8
        }
    }

    pub fn read_ppu_bg_pattern_table_addr(&self) -> (r: u16)
        ensures
            r == (if self.ppu_reg[0] & 0x10u8 == 0x10u8 { 0x1000u16 } else { 0x0000u16 }),
    {
        if (self.ppu_reg[0] & 0x10u8) == 0x10u8 {
            0x1000u16
        } else {
            0x0000u16
        }
    }

    pub fn read_ppu_sprite_pattern_table_addr(&self) -> (r: u16)
        ensures
            r == (if self.ppu_reg[0] & 0x08u8 == 0x08u8 { 0x1000u16 } else { 0x0000u16 }),
    {
        if (self.ppu_reg[0] & 0x08u8) == 0x08u8 {
            0x1000u16
        } else {
            0x0000u16
        }
    }

    /// The PPU address increment: PPUCTRL bit 2 clear gives +1 (horizontal),
    /// set gives +32 (vertical).
    pub fn read_ppu_addr_increment(&self) -> (r: u8)
        ensures
            r == (if self.ppu_reg[0] & 0x04u8 == 0x04u8 { 32u8 } else { 1u8 }),
    {
        if (self.ppu_reg[0] & 0x04u8) == 0x04u8 {
            32u8
        } else {
            1u8
        }
    }

    pub fn read_ppu_name_table_addr(&self) -> (r: u16)
        ensures
            r == crate::system_ppu_reg::name_table_base(self.ppu_reg[0]),
    {
        let sel = self.ppu_reg[0] & 0x03u8;
        if sel == 0 {
            0x2000
        } else if sel == 1 {
            0x2400
        } else if sel == 2 {
            0x2800
        } else {
            0x2c00
        }
    }

    /*************************** 0x2001: PPUMASK ***************************/
    pub fn read_ppu_is_write_sprite(&self) -> (r: bool)
        ensures
            r == (self.ppu_reg[1] & 0x10u8 == 0x10u8),
    {
        (self.ppu_reg[1] & 0x10u8) == 0x10u8
    }

    pub fn read_ppu_is_write_bg(&self) -> (r: bool)
        ensures
            r == (self.ppu_reg[1] & 0x08u8 == 0x08u8),
    {
        (self.ppu_reg[1] & 0x08u8) == 0x08u8
    }

    pub fn read_ppu_is_clip_sprite_at_leftend(&self) -> (r: bool)
        ensures
            r == (self.ppu_reg[1] & 0x04u8 != 0x04u8),
    {
        (self.ppu_reg[1] & 0x04u8) != 0x04u8
    }

    pub fn read_ppu_is_clip_bg_at_leftend(&self) -> (r: bool)
        ensures
            r == (self.ppu_reg[1] & 0x02u8 != 0x02u8),
    {
        (self.ppu_reg[1] & 0x02u8) != 0x02u8
    }

    pub fn read_is_monochrome(&self) -> (r: bool)
        ensures
            r == (self.ppu_reg[1] & 0x01u8 == 0x01u8),
    {
        (self.ppu_reg[1] & 0x01u8) == 0x01u8
    }

    /*************************** 0x2002: PPU_STATUS ***************************/
    pub fn read_ppu_is_vblank(&self) -> (r: bool)
        ensures
            r == (self.ppu_reg[2] & 0x80u8 == 0x80u8),
    {
        (self.ppu_reg[2] & 0x80u8) == 0x80u8
    }

    pub fn write_ppu_is_vblank(&mut self, is_set: bool)
        ensures
            *final(self) == old(self).with_ppu_reg(2, flag_update(old(self).ppu_reg[2], 0x80, is_set)),
    {
        if is_set {
            self.ppu_reg[2] = self.ppu_reg[2] | 0x80u8;
        } else {
            self.ppu_reg[2] = self.ppu_reg[2] & (!0x80u8);
        }
        proof {
            assert(self.ppu_reg =~= old(self).with_ppu_reg(2, flag_update(old(self).ppu_reg[2], 0x80, is_set)).ppu_reg);
        }
    }

    pub fn read_ppu_is_hit_sprite0(&self) -> (r: bool)
        ensures
            r == (self.ppu_reg[2] & 0x40u8 == 0x40u8),
    {
        (self.ppu_reg[2] & 0x40u8) == 0x40u8
    }

    pub fn write_ppu_is_hit_sprite0(&mut self, is_set: bool)
        ensures
            *final(self) == old(self).with_ppu_reg(2, flag_update(old(self).ppu_reg[2], 0x40, is_set)),
    {
        if is_set {
            self.ppu_reg[2] = self.ppu_reg[2] | 0x40u8;
        } else {
            self.ppu_reg[2] = self.ppu_reg[2] & (!0x40u8);
        }
        proof {
            assert(self.ppu_reg =~= old(self).with_ppu_reg(2, flag_update(old(self).ppu_reg[2], 0x40, is_set)).ppu_reg);
        }
    }

    /// Clears PPU_STATUS (at line 261).
    pub fn clear_ppu_status(&mut self)
        ensures
            *final(self) == old(self).with_ppu_reg(2, 0),
    {
        self.ppu_reg[2] = 0x00u8;
        proof {
            assert(self.ppu_reg =~= old(self).with_ppu_reg(2, 0).ppu_reg);
        }
    }

    /*************************** 0x2003: OAMADDR ***************************/
    pub fn read_ppu_oam_addr(&self) -> (r: u8)
        ensures
            r == self.ppu_reg[3],
    {
        self.ppu_reg[3]
    }

    /*************************** 0x2004: OAMDATA ***************************/
    pub fn read_ppu_oam_data(&self) -> (r: u8)
        ensures
            r == self.ppu_reg[4],
    {
        self.ppu_reg[4]
    }

    /*************************** 0x2005: PPUSCROLL ***************************/
    /// (x, y)
    pub fn read_ppu_scroll(&self) -> (r: (u8, u8))
        ensures
            r == (self.ppu_reg[5], self.ppu_scroll_y_reg),
    {
        (self.ppu_reg[5], self.ppu_scroll_y_reg)
    }

    /*************************** 0x2006: PPUADDR ***************************/
    pub fn read_ppu_addr(&self) -> (r: u16)
        ensures
            r == ((self.ppu_reg[6] as u16) << 8u16) | (self.ppu_addr_lower_reg as u16),
    {
        ((self.ppu_reg[6] as u16) << 8u16) | (self.ppu_addr_lower_reg as u16)
    }

    /*************************** 0x2007: PPUDATA ***************************/
    pub fn read_ppu_data(&self) -> (r: u8)
        ensures
            r == self.ppu_reg[7],
    {
        self.ppu_reg[7]
    }

    /*************************** 0x4014: OAM_DMA ***************************/
    /// Returns (whether a DMA was requested, source address) and clears the
    /// request.
    pub fn read_oam_dma_trigger(&mut self) -> (r: (bool, u16))
        ensures
            r == (old(self).is_trigger_oam_dam, (old(self).io_reg[0x14] as u16) << 8u16),
            *final(self) == (System { is_trigger_oam_dam: false, ..*old(self) }),
    {
        let start_addr = (self.io_reg[0x14] as u16) << 8u16;
        if self.is_trigger_oam_dam {
            self.is_trigger_oam_dam = false;
            (true, start_addr)
        } else {
            (false, start_addr)
        }
    }
}

} // verus!
