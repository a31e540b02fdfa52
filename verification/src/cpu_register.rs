use vstd::prelude::*;
use crate::cpu::Cpu;

verus! {

/// A status byte with the bits of `mask` set or cleared.
pub open spec fn flag_update(p: u8, mask: u8, is_active: bool) -> u8 {
    if is_active { p | mask } else { p & !mask }
}

/// Whether all the bits of `mask` are set.
pub open spec fn flag_is_set(p: u8, mask: u8) -> bool {
    p & mask == mask
}

pub const NEGATIVE_FLAG: u8 = 0x80;
pub const OVERFLOW_FLAG: u8 = 0x40;
pub const RESERVED_FLAG: u8 = 0x20;
pub const BREAK_FLAG: u8 = 0x10;
pub const DECIMAL_FLAG: u8 = 0x08;
pub const INTERRUPT_FLAG: u8 = 0x04;
pub const ZERO_FLAG: u8 = 0x02;
pub const CARRY_FLAG: u8 = 0x01;

/// The eight single-bit masks of the status register.
pub open spec fn is_status_flag(mask: u8) -> bool {
    mask == 0x80 || mask == 0x40 || mask == 0x20 || mask == 0x10 || mask == 0x08 || mask == 0x04
        || mask == 0x02 || mask == 0x01
}

/// Writing a status flag and then reading it gives the value written, and
/// leaves every other flag as it was.
pub proof fn lemma_flag_write_read(p: u8, mask: u8, other: u8, is_active: bool)
    requires
        is_status_flag(mask),
        is_status_flag(other),
    ensures
        flag_is_set(flag_update(p, mask, is_active), mask) == is_active,
        other != mask ==> flag_is_set(flag_update(p, mask, is_active), other) == flag_is_set(
            p,
            other,
        ),
{
    let q = flag_update(p, mask, is_active);
    assert((p | mask) & mask == mask && (p & !mask) & mask != mask) by (bit_vector)
        requires
            mask == 0x80u8 || mask == 0x40u8 || mask == 0x20u8 || mask == 0x10u8 || mask == 0x08u8
                || mask == 0x04u8 || mask == 0x02u8 || mask == 0x01u8,
    ;
    if other != mask {
        assert(((p | mask) & other == other) == (p & other == other) && ((p & !mask) & other
            == other) == (p & other == other)) by (bit_vector)
            requires
                mask == 0x80u8 || mask == 0x40u8 || mask == 0x20u8 || mask == 0x10u8 || mask
                    == 0x08u8 || mask == 0x04u8 || mask == 0x02u8 || mask == 0x01u8,
                other == 0x80u8 || other == 0x40u8 || other == 0x20u8 || other == 0x10u8 || other
                    == 0x08u8 || other == 0x04u8 || other == 0x02u8 || other == 0x01u8,
                other != mask,
        ;
    }
}

/// Processor status flags: N V - B D I Z C
impl Cpu {
    pub fn write_negative_flag(&mut self, is_active: bool)
        ensures
            *final(self) == (Cpu { p: flag_update(old(self).p, 0x80, is_active), ..*old(self) }),
    {
        if is_active {
            self.p = self.p | 0x80u8;
        } else {
            self.p = self.p & (!0x80u8);
        }
    }

    pub fn write_overflow_flag(&mut self, is_active: bool)
        ensures
            *final(self) == (Cpu { p: flag_update(old(self).p, 0x40, is_active), ..*old(self) }),
    {
        if is_active {
            self.p = self.p | 0x40u8;
        } else {
            self.p = self.p & (!0x40u8);
        }
    }

    pub fn write_reserved_flag(&mut self, is_active: bool)
        ensures
            *final(self) == (Cpu { p: flag_update(old(self).p, 0x20, is_active), ..*old(self) }),
    {
        if is_active {
            self.p = self.p | 0x20u8;
        } else {
            self.p = self.p & (!0x20u8);
        }
    }

    pub fn write_break_flag(&mut self, is_active: bool)
        ensures
            *final(self) == (Cpu { p: flag_update(old(self).p, 0x10, is_active), ..*old(self) }),
    {
        if is_active {
            self.p = self.p | 0x10u8;
        } else {
            self.p = self.p & (!0x10u8);
        }
    }

    pub fn write_decimal_flag(&mut self, is_active: bool)
        ensures
            *final(self) == (Cpu { p: flag_update(old(self).p, 0x08, is_active), ..*old(self) }),
    {
        if is_active {
            self.p = self.p | 0x08u8;
        } else {
            self.p = self.p & (!0x08u8);
        }
    }

    pub fn write_interrupt_flag(&mut self, is_active: bool)
        ensures
            *final(self) == (Cpu { p: flag_update(old(self).p, 0x04, is_active), ..*old(self) }),
    {
        if is_active {
            self.p = self.p | 0x04u8;
        } else {
            self.p = self.p & (!0x04u8);
        }
    }

    pub fn write_zero_flag(&mut self, is_active: bool)
        ensures
            *final(self) == (Cpu { p: flag_update(old(self).p, 0x02, is_active), ..*old(self) }),
    {
        if is_active {
            self.p = self.p | 0x02u8;
        } else {
            self.p = self.p & (!0x02u8);
        }
    }

    pub fn write_carry_flag(&mut self, is_active: bool)
        ensures
            *final(self) == (Cpu { p: flag_update(old(self).p, 0x01, is_active), ..*old(self) }),
    {
        if is_active {
            self.p = self.p | 0x01u8;
        } else {
            self.p = self.p & (!0x01u8);
        }
    }

    pub fn read_negative_flag(&self) -> (is_set: bool)
        ensures
            is_set == flag_is_set(self.p, 0x80),
    {
        (self.p & 0x80u8) == 0x80u8
    }

    pub fn read_overflow_flag(&self) -> (is_set: bool)
        ensures
            is_set == flag_is_set(self.p, 0x40),
    {
        (self.p & 0x40u8) == 0x40u8
    }

    pub fn read_reserved_flag(&self) -> (is_set: bool)
        ensures
            is_set == flag_is_set(self.p, 0x20),
    {
        (self.p & 0x20u8) == 0x20u8
    }

    pub fn read_break_flag(&self) -> (is_set: bool)
        ensures
            is_set == flag_is_set(self.p, 0x10),
    {
        (self.p & 0x10u8) == 0x10u8
    }

    pub fn read_decimal_flag(&self) -> (is_set: bool)
        ensures
            is_set == flag_is_set(self.p, 0x08),
    {
        (self.p & 0x08u8) == 0x08u8
    }

    pub fn read_interrupt_flag(&self) -> (is_set: bool)
        ensures
            is_set == flag_is_set(self.p, 0x04),
    {
        (self.p & 0x04u8) == 0x04u8
    }

    pub fn read_zero_flag(&self) -> (is_set: bool)
        ensures
            is_set == flag_is_set(self.p, 0x02),
    {
        (self.p & 0x02u8) == 0x02u8
    }

    pub fn read_carry_flag(&self) -> (is_set: bool)
        ensures
            is_set == flag_is_set(self.p, 0x01),
    {
        (self.p & 0x01u8) == 0x01u8
    }
}

} // verus!
