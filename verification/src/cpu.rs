use vstd::prelude::*;
use crate::cpu_register::{flag_is_set, flag_update};
use crate::interface::{EmulateControl, SystemBus};
use crate::nes::cassette::Mapper;
use crate::system::System;

verus! {

broadcast use {System::lemma_read_keeps_mapper, System::lemma_write_keeps_mapper};

pub const CPU_FREQ: u32 = 1790000;
pub const NMI_READ_LOWER: u16 = 0xfffa;
pub const NMI_READ_UPPER: u16 = 0xfffb;
pub const RESET_READ_LOWER: u16 = 0xfffc;
pub const RESET_READ_UPPER: u16 = 0xfffd;
pub const IRQ_READ_LOWER: u16 = 0xfffe;
pub const IRQ_READ_UPPER: u16 = 0xffff;
pub const BRK_READ_LOWER: u16 = 0xfffe;
pub const BRK_READ_UPPER: u16 = 0xffff;

#[derive(Copy, Clone, PartialEq, Eq, Structural)]
pub enum Interrupt {
    NMI,
    RESET,
    IRQ,
    BRK,
}

/// The 6502 registers.
#[derive(Clone)]
pub struct Cpu {
    /// Accumulator
    pub a: u8,
    /// Index Register
    pub x: u8,
    /// Index Register
    pub y: u8,
    /// Program Counter
    pub pc: u16,
    /// Stack Pointer; its upper byte is normally 0x01
    pub sp: u16,
    /// Processor Status Register: N V - B D I Z C
    pub p: u8,
}

impl Default for Cpu {
    fn default() -> (cpu: Self)
        ensures
            cpu == (Cpu { a: 0, x: 0, y: 0, pc: 0, sp: 0, p: 0 }),
    {
        Self { a: 0, x: 0, y: 0, pc: 0, sp: 0, p: 0 }
    }
}

impl EmulateControl for Cpu {
    open spec fn reset_state(&self) -> Cpu {
        Cpu { a: 0, x: 0, y: 0, pc: 0, sp: 0x01fd, p: 0x34 }
    }

    fn reset(&mut self) {
        self.a = 0;
        self.x = 0;
        self.y = 0;
        self.pc = 0;
        self.sp = 0x01fd;
        self.p = 0x34;
    }
}

/// The stack pointer after a push: its low byte moves down, wrapping inside
/// page 1.
pub open spec fn sp_after_push(sp: u16) -> u16 {
    if sp % 0x100 == 0 { 0x01ff } else { (0x0100 + sp % 0x100 - 1) as u16 }
}

/// The stack pointer after a pop: its low byte moves up, wrapping inside
/// page 1.
pub open spec fn sp_after_pop(sp: u16) -> u16 {
    if sp % 0x100 == 0xff { 0x0100 } else { (0x0100 + sp % 0x100 + 1) as u16 }
}

/// The vector address that an interrupt reads its new PC's low byte from.
pub open spec fn vector_lower(irq_type: Interrupt) -> u16 {
    match irq_type {
        Interrupt::NMI => 0xfffa,
        Interrupt::RESET => 0xfffc,
        Interrupt::IRQ => 0xfffe,
        Interrupt::BRK => 0xfffe,
    }
}

/// The vector address that an interrupt reads its new PC's high byte from.
pub open spec fn vector_upper(irq_type: Interrupt) -> u16 {
    match irq_type {
        Interrupt::NMI => 0xfffb,
        Interrupt::RESET => 0xfffd,
        Interrupt::IRQ => 0xffff,
        Interrupt::BRK => 0xffff,
    }
}

/// The stack pointer after a push; the upper byte of SP stays 0x01.
pub fn push_sp(sp: u16) -> (r: u16)
    ensures
        r == sp_after_push(sp),
{
    let low: u16 = sp % 0x100;
    if low == 0 { 0x01ff } else { 0x0100 + low - 1 }
}

impl Cpu {
    /// A push can be made: the bus answers the stack pointer.
    pub open spec fn push_ok(self, sys: System) -> bool {
        sys.addr_ok(self.sp)
    }

    /// A push stores at SP, then moves SP down inside page 1.
    pub open spec fn push_spec(self, sys: System, data: u8) -> (Cpu, System) {
        (Cpu { sp: sp_after_push(self.sp), ..self }, sys.write_spec(self.sp, data, false))
    }

    /// A pop can be made: the bus answers the stack pointer after it moves.
    pub open spec fn pop_ok(self, sys: System) -> bool {
        sys.addr_ok(sp_after_pop(self.sp))
    }

    /// A pop moves SP up inside page 1, then reads at SP.
    pub open spec fn pop_spec(self, sys: System) -> (Cpu, System, u8) {
        let sp = sp_after_pop(self.sp);
        let (d, s) = sys.read_spec(sp, false);
        (Cpu { sp: sp, ..self }, s, d)
    }

    /// With the stack in WRAM, a pop right after a push gives back the pushed
    /// byte and the stack pointer, and leaves the bus as the push left it.
    pub proof fn lemma_push_then_pop(self, sys: System, data: u8)
        requires
            self.push_ok(sys),
            0x0100 <= self.sp < 0x0200,
        ensures
            ({
                let (c1, s1) = self.push_spec(sys, data);
                &&& c1.pop_ok(s1)
                &&& c1.pop_spec(s1) == (self, s1, data)
            }),
    {
        sys.lemma_wram_write_then_read(self.sp, data, self.sp, false, false);
    }

    /// The interrupt is taken: RESET and NMI always are; IRQ and BRK are not
    /// while interrupts are disabled, as they may not nest.
    pub open spec fn interrupt_taken(self, irq_type: Interrupt) -> bool {
        !(flag_is_set(self.p, 0x04) && (irq_type == Interrupt::IRQ || irq_type == Interrupt::BRK))
    }

    /// The interrupt can be handled: BRK can move PC past its padding byte,
    /// there is room for the three pushes of NMI, IRQ and BRK, and the
    /// cartridge answers the vectors.
    pub open spec fn interrupt_ok(self, sys: System, irq_type: Interrupt) -> bool {
        self.interrupt_taken(irq_type) ==> {
            &&& irq_type == Interrupt::BRK ==> self.pc < 0xffff
            &&& irq_type != Interrupt::RESET ==> {
                &&& sys.addr_ok(self.sp)
                &&& sys.addr_ok(sp_after_push(self.sp))
                &&& sys.addr_ok(sp_after_push(sp_after_push(self.sp)))
            }
            &&& sys.cassette.mapper == Mapper::Nrom
        }
    }

    /// NMI and IRQ clear B; BRK sets B and moves PC past its padding byte.
    /// Each of them then pushes PC (high, low) and P, and sets I; RESET sets
    /// I. Then PC is loaded from the interrupt's vector.
    pub open spec fn interrupt_spec(self, sys: System, irq_type: Interrupt) -> (Cpu, System) {
        if !self.interrupt_taken(irq_type) {
            (self, sys)
        } else {
            let (c1, s1) = if irq_type == Interrupt::RESET {
                (Cpu { p: flag_update(self.p, 0x04, true), ..self }, sys)
            } else {
                let c0 = if irq_type == Interrupt::BRK {
                    Cpu { p: flag_update(self.p, 0x10, true), pc: (self.pc + 1) as u16, ..self }
                } else {
                    Cpu { p: flag_update(self.p, 0x10, false), ..self }
                };
                let (c1, s1) = c0.push_spec(sys, (c0.pc >> 8u16) as u8);
                let (c2, s2) = c1.push_spec(s1, (c0.pc & 0xffu16) as u8);
                let (c3, s3) = c2.push_spec(s2, c0.p);
                (Cpu { p: flag_update(c3.p, 0x04, true), ..c3 }, s3)
            };
            let (lower, s2) = s1.read_spec(vector_lower(irq_type), false);
            let (upper, s3) = s2.read_spec(vector_upper(irq_type), false);
            (Cpu { pc: (lower as u16) | ((upper as u16) << 8u16), ..c1 }, s3)
        }
    }

    /// Advances the program counter.
    pub fn increment_pc(&mut self, incr: u16)
        requires
            old(self).pc + incr <= 0xffff,
        ensures
            *final(self) == (Cpu { pc: (old(self).pc + incr) as u16, ..*old(self) }),
    {
        self.pc = self.pc + incr;
    }

    /// Pushes a byte on the stack.
    pub fn stack_push(&mut self, system: &mut System, data: u8)
        requires
            old(self).push_ok(*old(system)),
        ensures
            (*final(self), *final(system)) == old(self).push_spec(*old(system), data),
    {
        system.write_u8(self.sp, data, false);
        self.sp = push_sp(self.sp);
    }

    /// Pops a byte from the stack.
    pub fn stack_pop(&mut self, system: &mut System) -> (data: u8)
        requires
            old(self).pop_ok(*old(system)),
        ensures
            (*final(self), *final(system), data) == old(self).pop_spec(*old(system)),
    {
        let low: u16 = self.sp % 0x100;
        self.sp = if low == 0xff { 0x0100 } else { 0x0100 + low + 1 };
        system.read_u8(self.sp, false)
    }

    /// Whether an interrupt can be handled now (see `interrupt_ok`).
    pub fn can_interrupt(&self, system: &System, irq_type: Interrupt) -> (r: bool)
        ensures
            r == self.interrupt_ok(*system, irq_type),
    {
        let is_masked = self.read_interrupt_flag()
            && (irq_type == Interrupt::IRQ || irq_type == Interrupt::BRK);
        if is_masked {
            return true;
        }
        if irq_type == Interrupt::BRK && self.pc == 0xffff {
            return false;
        }
        if irq_type != Interrupt::RESET {
            let sp1 = push_sp(self.sp);
            let sp2 = push_sp(sp1);
            if !(system.is_addr_ok(self.sp) && system.is_addr_ok(sp1) && system.is_addr_ok(sp2)) {
                return false;
            }
        }
        matches!(system.cassette.mapper, Mapper::Nrom)
    }

    /// Handles an interrupt.
    pub fn interrupt(&mut self, system: &mut System, irq_type: Interrupt)
        requires
            old(self).interrupt_ok(*old(system), irq_type),
        ensures
            (*final(self), *final(system)) == old(self).interrupt_spec(*old(system), irq_type),
    {
        let is_nested_interrupt = self.read_interrupt_flag();
        // only RESET and NMI may nest
        if is_nested_interrupt && (irq_type == Interrupt::IRQ || irq_type == Interrupt::BRK) {
            return;
        }
        match irq_type {
            Interrupt::NMI => {
                self.write_break_flag(false);
                // push PC upper, lower and the status register
                self.stack_push(system, (self.pc >> 8u16) as u8);
                self.stack_push(system, (self.pc & 0xffu16) as u8);
                self.stack_push(system, self.p);
                self.write_interrupt_flag(true);
            },
            Interrupt::RESET => {
                self.write_interrupt_flag(true);
            },
            Interrupt::IRQ => {
                self.write_break_flag(false);
                self.stack_push(system, (self.pc >> 8u16) as u8);
                self.stack_push(system, (self.pc & 0xffu16) as u8);
                self.stack_push(system, self.p);
                self.write_interrupt_flag(true);
            },
            Interrupt::BRK => {
                self.write_break_flag(true);
                self.pc = self.pc + 1;
                self.stack_push(system, (self.pc >> 8u16) as u8);
                self.stack_push(system, (self.pc & 0xffu16) as u8);
                self.stack_push(system, self.p);
                self.write_interrupt_flag(true);
            },
        }
        let lower_addr = match irq_type {
            Interrupt::NMI => NMI_READ_LOWER,
            Interrupt::RESET => RESET_READ_LOWER,
            Interrupt::IRQ => IRQ_READ_LOWER,
            Interrupt::BRK => BRK_READ_LOWER,
        };
        let upper_addr = match irq_type {
            Interrupt::NMI => NMI_READ_UPPER,
            Interrupt::RESET => RESET_READ_UPPER,
            Interrupt::IRQ => IRQ_READ_UPPER,
            Interrupt::BRK => BRK_READ_UPPER,
        };
        let lower = system.read_u8(lower_addr, false);
        let upper = system.read_u8(upper_addr, false);
        self.pc = (lower as u16) | ((upper as u16) << 8u16);
    }
}

} // verus!
