use vstd::prelude::*;
use crate::cpu_register::{flag_is_set, flag_update};
use crate::nes::cassette::Mapper;
use crate::nes::interface::EmulateControl;
use crate::nes::system::System;

verus! {

broadcast use System::lemma_write_keeps_mapper;

pub const NMI_READ_LOWER: u16 = 0xfffa;
pub const NMI_READ_UPPER: u16 = 0xfffb;
pub const RESET_READ_LOWER: u16 = 0xfffc;
pub const RESET_READ_UPPER: u16 = 0xfffd;
pub const IRQ_READ_LOWER: u16 = 0xfffe;
pub const IRQ_READ_UPPER: u16 = 0xffff;
pub const BRK_READ_LOWER: u16 = 0xfffe;
pub const BRK_READ_UPPER: u16 = 0xffff;

#[derive(Copy, Clone, PartialEq, Eq, Structural)]
pub enum Interrupt {
    NMI,
    RESET,
    IRQ,
    BRK,
}

/// The 6502 registers.
pub struct Cpu {
    /// Accumulator
    pub a: u8,
    /// Index Register
    pub x: u8,
    /// Index Register
    pub y: u8,
    /// Program Counter
    pub pc: u16,
    /// Stack Pointer; its upper byte is fixed at 0x01
    pub sp: u16,
    /// Processor Status Register: N V - B D I Z C
    pub p: u8,
}

impl EmulateControl for Cpu {
    fn reset(&mut self)
        ensures
            *final(self) == (Cpu { a: 0, x: 0, y: 0, pc: 0, sp: 0x01fd, p: 0x34 }),
    {
        self.a = 0;
        self.x = 0;
        self.y = 0;
        self.pc = 0;
        self.sp = 0x01fd;
        self.p = 0x34;
    }

    /// A dump holds A, X, Y, PC, SP (each 16-bit value low byte first) and P.
    fn get_dump_size() -> (size: usize)
        ensures
            size == 8,
    {
        8
    }

    /// Hands out the registers at indices 0 to 7 (see `dump_bytes`).
    fn dump<F: Fn(usize, u8)>(&self, read_callback: F)
        ensures
            forall|i: int| 0 <= i < 8 ==> read_callback.ensures((i as usize, #[trigger] self.dump_bytes()[i]), ()),
    {
        read_callback(0, self.a);
        read_callback(1, self.x);
        read_callback(2, self.y);
        read_callback(3, (self.pc & 0xffu16) as u8);
        read_callback(4, ((self.pc >> 8u16) & 0xffu16) as u8);
        read_callback(5, (self.sp & 0xffu16) as u8);
        read_callback(6, ((self.sp >> 8u16) & 0xffu16) as u8);
        read_callback(7, self.p);
    }

    /// Restores the registers from indices 0 to 7, as `dump` hands them out.
    fn restore<F: Fn(usize) -> u8>(&mut self, write_callback: F)
        ensures
            exists|bytes: Seq<u8>|
                bytes.len() == 8 && (forall|i: int| 0 <= i < 8 ==> write_callback.ensures((i as usize,), #[trigger] bytes[i]))
                    && *final(self) == Cpu::from_dump(bytes),
    {
        let a = write_callback(0);
        let x = write_callback(1);
        let y = write_callback(2);
        let pc_lo = write_callback(3);
        let pc_hi = write_callback(4);
        let sp_lo = write_callback(5);
        let sp_hi = write_callback(6);
        let p = write_callback(7);
        self.a = a;
        self.x = x;
        self.y = y;
        self.pc = (pc_lo as u16) | ((pc_hi as u16) << 8u16);
        self.sp = (sp_lo as u16) | ((sp_hi as u16) << 8u16);
        self.p = p;
        proof {
            let bytes = seq![a, x, y, pc_lo, pc_hi, sp_lo, sp_hi, p];
            assert(*self == Cpu::from_dump(bytes));
        }
    }
}

impl Cpu {
    /// The bytes of a dump: A, X, Y, PC low and high, SP low and high, P.
    pub open spec fn dump_bytes(self) -> Seq<u8> {
        seq![
            self.a,
            self.x,
            self.y,
            (self.pc & 0xffu16) as u8,
            ((self.pc >> 8u16) & 0xffu16) as u8,
            (self.sp & 0xffu16) as u8,
            ((self.sp >> 8u16) & 0xffu16) as u8,
            self.p,
        ]
    }

    /// The registers that a dump's bytes describe.
    pub open spec fn from_dump(bytes: Seq<u8>) -> Cpu {
        Cpu {
            a: bytes[0],
            x: bytes[1],
            y: bytes[2],
            pc: word(bytes[3], bytes[4]),
            sp: word(bytes[5], bytes[6]),
            p: bytes[7],
        }
    }

    /// Restoring from the bytes of a dump gives back the registers.
    pub proof fn lemma_dump_then_restore(self)
        ensures
            Cpu::from_dump(self.dump_bytes()) == self,
    {
        let pc = self.pc;
        let sp = self.sp;
        assert(((pc & 0xffu16) as u8 as u16) | ((((pc >> 8u16) & 0xffu16) as u8 as u16) << 8u16) == pc) by (bit_vector);
        assert(((sp & 0xffu16) as u8 as u16) | ((((sp >> 8u16) & 0xffu16) as u8 as u16) << 8u16) == sp) by (bit_vector);
    }
}

/// A 16-bit value from its low and high bytes.
pub open spec fn word(lower: u8, upper: u8) -> u16 {
    (lower as u16) | ((upper as u16) << 8u16)
}

/// The vector address that an interrupt reads its new PC's low byte from.
pub open spec fn vector_lower(irq_type: Interrupt) -> u16 {
    match irq_type {
        Interrupt::NMI => 0xfffa,
        Interrupt::RESET => 0xfffc,
        Interrupt::IRQ => 0xfffe,
        Interrupt::BRK => 0xfffe,
    }
}

/// The stack pointer after a push: its low byte moves down, wrapping inside
/// page 1, whose number is the fixed upper byte of SP.
pub open spec fn sp_after_push(sp: u16) -> u16 {
    if sp % 0x100 == 0 { 0x01ff } else { (0x0100 + sp % 0x100 - 1) as u16 }
}

/// The stack pointer after a pop: its low byte moves up, wrapping inside
/// page 1.
pub open spec fn sp_after_pop(sp: u16) -> u16 {
    if sp % 0x100 == 0xff { 0x0100 } else { (0x0100 + sp % 0x100 + 1) as u16 }
}

/// The stack pointer after a push.
pub fn push_sp(sp: u16) -> (r: u16)
    ensures
        r == sp_after_push(sp),
{
    let low: u16 = sp % 0x100;
    if low == 0 { 0x01ff } else { 0x0100 + low - 1 }
}

/// The stack pointer after a pop.
pub fn pop_sp(sp: u16) -> (r: u16)
    ensures
        r == sp_after_pop(sp),
{
    let low: u16 = sp % 0x100;
    if low == 0xff { 0x0100 } else { 0x0100 + low + 1 }
}

impl Cpu {
    /// A push can be made: the bus answers SP.
    pub open spec fn push_ok(self, sys: System) -> bool {
        sys.addr_ok(self.sp)
    }

    /// A push stores at SP, then moves SP down inside page 1.
    pub open spec fn push_spec(self, sys: System, data: u8) -> (Cpu, System) {
        (Cpu { sp: sp_after_push(self.sp), ..self }, sys.write_spec(self.sp, data))
    }

    /// A pop can be made: the bus answers SP after it moves.
    pub open spec fn pop_ok(self, sys: System) -> bool {
        sys.addr_ok(sp_after_pop(self.sp))
    }

    /// A pop moves SP up inside page 1, then reads at SP.
    pub open spec fn pop_spec(self, sys: System) -> (Cpu, u8) {
        (Cpu { sp: sp_after_pop(self.sp), ..self }, sys.read_spec(sp_after_pop(self.sp)))
    }

    /// A pop right after a push gives back the pushed byte and the stack
    /// pointer.
    pub proof fn lemma_push_then_pop(self, sys: System, data: u8)
        requires
            self.push_ok(sys),
            0x0100 <= self.sp < 0x0200,
        ensures
            ({
                let (c1, s1) = self.push_spec(sys, data);
                &&& c1.pop_ok(s1)
                &&& c1.pop_spec(s1) == (self, data)
            }),
    {
        sys.lemma_write_then_read(self.sp, data, self.sp);
    }

    /// The interrupt is taken: RESET and NMI always are; IRQ and BRK are not
    /// while interrupts are disabled, as they may not nest.
    pub open spec fn interrupt_taken(self, irq_type: Interrupt) -> bool {
        !(flag_is_set(self.p, 0x04) && (irq_type == Interrupt::IRQ || irq_type == Interrupt::BRK))
    }

    /// The interrupt can be handled: BRK can move PC past its padding byte,
    /// there is room for the three pushes of NMI, IRQ and BRK, and the
    /// cartridge answers the vectors.
    pub open spec fn interrupt_ok(self, sys: System, irq_type: Interrupt) -> bool {
        self.interrupt_taken(irq_type) ==> {
            &&& irq_type == Interrupt::BRK ==> self.pc < 0xffff
            &&& irq_type != Interrupt::RESET ==> {
                &&& sys.addr_ok(self.sp)
                &&& sys.addr_ok(sp_after_push(self.sp))
                &&& sys.addr_ok(sp_after_push(sp_after_push(self.sp)))
            }
            &&& sys.cassette.mapper == Mapper::Nrom
        }
    }

    /// NMI and IRQ clear B; BRK sets B and moves PC past its padding byte.
    /// Each of them then pushes PC (high, low) and P, and sets I; RESET sets
    /// I. Then PC is loaded from the interrupt's vector.
    pub open spec fn interrupt_spec(self, sys: System, irq_type: Interrupt) -> (Cpu, System) {
        if !self.interrupt_taken(irq_type) {
            (self, sys)
        } else {
            let (c1, s1) = if irq_type == Interrupt::RESET {
                (Cpu { p: flag_update(self.p, 0x04, true), ..self }, sys)
            } else {
                let c0 = if irq_type == Interrupt::BRK {
                    Cpu { p: flag_update(self.p, 0x10, true), pc: (self.pc + 1) as u16, ..self }
                } else {
                    Cpu { p: flag_update(self.p, 0x10, false), ..self }
                };
                let (c1, s1) = c0.push_spec(sys, (c0.pc >> 8u16) as u8);
                let (c2, s2) = c1.push_spec(s1, (c0.pc & 0xffu16) as u8);
                let (c3, s3) = c2.push_spec(s2, c0.p);
                (Cpu { p: flag_update(c3.p, 0x04, true), ..c3 }, s3)
            };
            let lower = s1.read_spec(vector_lower(irq_type));
            let upper = s1.read_spec((vector_lower(irq_type) + 1) as u16);
            (Cpu { pc: word(lower, upper), ..c1 }, s1)
        }
    }

    /// Whether an interrupt can be handled now (see `interrupt_ok`).
    pub fn can_interrupt(&self, system: &System, irq_type: Interrupt) -> (r: bool)
        ensures
            r == self.interrupt_ok(*system, irq_type),
    {
        let is_masked = self.read_interrupt_flag()
            && (irq_type == Interrupt::IRQ || irq_type == Interrupt::BRK);
        if is_masked {
            return true;
        }
        if irq_type == Interrupt::BRK && self.pc == 0xffff {
            return false;
        }
        if irq_type != Interrupt::RESET {
            let sp1 = push_sp(self.sp);
            let sp2 = push_sp(sp1);
            if !(system.is_addr_ok(self.sp) && system.is_addr_ok(sp1) && system.is_addr_ok(sp2)) {
                return false;
            }
        }
        matches!(system.cassette.mapper, Mapper::Nrom)
    }

    /// Handles an interrupt.
    pub fn do_interrupt(&mut self, system: &mut System, irq_type: Interrupt)
        requires
            old(self).interrupt_ok(*old(system), irq_type),
        ensures
            (*final(self), *final(system)) == old(self).interrupt_spec(*old(system), irq_type),
    {
        let is_nested_interrupt = self.read_interrupt_flag();
        // only RESET and NMI may nest
        if is_nested_interrupt && (irq_type == Interrupt::IRQ || irq_type == Interrupt::BRK) {
            return;
        }
        match irq_type {
            Interrupt::NMI => {
                self.write_break_flag(false);
                // push PC upper, lower and the status register
                self.stack_push(system, (self.pc >> 8u16) as u8);
                self.stack_push(system, (self.pc & 0xffu16) as u8);
                self.stack_push(system, self.p);
                self.write_interrupt_flag(true);
            },
            Interrupt::RESET => {
                self.write_interrupt_flag(true);
            },
            Interrupt::IRQ => {
                self.write_break_flag(false);
                self.stack_push(system, (self.pc >> 8u16) as u8);
                self.stack_push(system, (self.pc & 0xffu16) as u8);
                self.stack_push(system, self.p);
                self.write_interrupt_flag(true);
            },
            Interrupt::BRK => {
                self.write_break_flag(true);
                self.pc = self.pc + 1;
                self.stack_push(system, (self.pc >> 8u16) as u8);
                self.stack_push(system, (self.pc & 0xffu16) as u8);
                self.stack_push(system, self.p);
                self.write_interrupt_flag(true);
            },
        }
        let lower_addr = match irq_type {
            Interrupt::NMI => NMI_READ_LOWER,
            Interrupt::RESET => RESET_READ_LOWER,
            Interrupt::IRQ => IRQ_READ_LOWER,
            Interrupt::BRK => BRK_READ_LOWER,
        };
        let upper_addr = match irq_type {
            Interrupt::NMI => NMI_READ_UPPER,
            Interrupt::RESET => RESET_READ_UPPER,
            Interrupt::IRQ => IRQ_READ_UPPER,
            Interrupt::BRK => BRK_READ_UPPER,
        };
        let lower = system.read_u8(lower_addr, false);
        let upper = system.read_u8(upper_addr, false);
        self.pc = (lower as u16) | ((upper as u16) << 8u16);
    }

    /// Advances the program counter.
    pub(crate) fn increment_pc(&mut self, incr: u16)
        requires
            old(self).pc + incr <= 0xffff,
        ensures
            *final(self) == (Cpu { pc: (old(self).pc + incr) as u16, ..*old(self) }),
    {
        self.pc = self.pc + incr;
    }

    /// Pushes a byte on the stack.
    pub(crate) fn stack_push(&mut self, system: &mut System, data: u8)
        requires
            old(self).push_ok(*old(system)),
        ensures
            (*final(self), *final(system)) == old(self).push_spec(*old(system), data),
    {
        system.write_u8(self.sp, data, false);
        self.sp = push_sp(self.sp);
    }

    /// Pops a byte from the stack.
    pub(crate) fn stack_pop(&mut self, system: &System) -> (data: u8)
        requires
            old(self).pop_ok(*system),
        ensures
            (*final(self), data) == old(self).pop_spec(*system),
    {
        self.sp = pop_sp(self.sp);
        system.read_u8(self.sp, false)
    }
}

/// Processor status flags: N V - B D I Z C
impl Cpu {
    pub(crate) fn write_negative_flag(&mut self, is_active: bool)
        ensures
            *final(self) == (Cpu { p: flag_update(old(self).p, 0x80, is_active), ..*old(self) }),
    {
        if is_active {
            self.p = self.p | 0x80u8;
        } else {
            self.p = self.p & (!0x80u8);
        }
    }

    pub(crate) fn write_overflow_flag(&mut self, is_active: bool)
        ensures
            *final(self) == (Cpu { p: flag_update(old(self).p, 0x40, is_active), ..*old(self) }),
    {
        if is_active {
            self.p = self.p | 0x40u8;
        } else {
            self.p = self.p & (!0x40u8);
        }
    }

    pub(crate) fn write_reserved_flag(&mut self, is_active: bool)
        ensures
            *final(self) == (Cpu { p: flag_update(old(self).p, 0x20, is_active), ..*old(self) }),
    {
        if is_active {
            self.p = self.p | 0x20u8;
        } else {
            self.p = self.p & (!0x20u8);
        }
    }

    pub(crate) fn write_break_flag(&mut self, is_active: bool)
        ensures
            *final(self) == (Cpu { p: flag_update(old(self).p, 0x10, is_active), ..*old(self) }),
    {
        if is_active {
            self.p = self.p | 0x10u8;
        } else {
            self.p = self.p & (!0x10u8);
        }
    }

    pub(crate) fn write_decimal_flag(&mut self, is_active: bool)
        ensures
            *final(self) == (Cpu { p: flag_update(old(self).p, 0x08, is_active), ..*old(self) }),
    {
        if is_active {
            self.p = self.p | 0x08u8;
        } else {
            self.p = self.p & (!0x08u8);
        }
    }

    pub(crate) fn write_interrupt_flag(&mut self, is_active: bool)
        ensures
            *final(self) == (Cpu { p: flag_update(old(self).p, 0x04, is_active), ..*old(self) }),
    {
        if is_active {
            self.p = self.p | 0x04u8;
        } else {
            self.p = self.p & (!0x04u8);
        }
    }

    pub(crate) fn write_zero_flag(&mut self, is_active: bool)
        ensures
            *final(self) == (Cpu { p: flag_update(old(self).p, 0x02, is_active), ..*old(self) }),
    {
        if is_active {
            self.p = self.p | 0x02u8;
        } else {
            self.p = self.p & (!0x02u8);
        }
    }

    pub(crate) fn write_carry_flag(&mut self, is_active: bool)
        ensures
            *final(self) == (Cpu { p: flag_update(old(self).p, 0x01, is_active), ..*old(self) }),
    {
        if is_active {
            self.p = self.p | 0x01u8;
        } else {
            self.p = self.p & (!0x01u8);
        }
    }

    pub(crate) fn read_negative_flag(&self) -> (r: bool)
        ensures
            r == flag_is_set(self.p, 0x80),
    {
        proof { lemma_flag_bit(self.p, 0x80); }
        (self.p & 0x80u8) != 0x00u8
    }

    pub(crate) fn read_overflow_flag(&self) -> (r: bool)
        ensures
            r == flag_is_set(self.p, 0x40),
    {
        proof { lemma_flag_bit(self.p, 0x40); }
        (self.p & 0x40u8) != 0x00u8
    }

    pub(crate) fn read_reserved_flag(&self) -> (r: bool)
        ensures
            r == flag_is_set(self.p, 0x20),
    {
        proof { lemma_flag_bit(self.p, 0x20); }
        (self.p & 0x20u8) != 0x00u8
    }

    pub(crate) fn read_break_flag(&self) -> (r: bool)
        ensures
            r == flag_is_set(self.p, 0x10),
    {
        proof { lemma_flag_bit(self.p, 0x10); }
        (self.p & 0x10u8) != 0x00u8
    }

    pub(crate) fn read_decimal_flag(&self) -> (r: bool)
        ensures
            r == flag_is_set(self.p, 0x08),
    {
        proof { lemma_flag_bit(self.p, 0x08); }
        (self.p & 0x08u8) != 0x00u8
    }

    pub(crate) fn read_interrupt_flag(&self) -> (r: bool)
        ensures
            r == flag_is_set(self.p, 0x04),
    {
        proof { lemma_flag_bit(self.p, 0x04); }
        (self.p & 0x04u8) != 0x00u8
    }

    pub(crate) fn read_zero_flag(&self) -> (r: bool)
        ensures
            r == flag_is_set(self.p, 0x02),
    {
        proof { lemma_flag_bit(self.p, 0x02); }
        (self.p & 0x02u8) != 0x00u8
    }

    pub(crate) fn read_carry_flag(&self) -> (r: bool)
        ensures
            r == flag_is_set(self.p, 0x01),
    {
        proof { lemma_flag_bit(self.p, 0x01); }
        (self.p & 0x01u8) != 0x00u8
    }
}

/// For a single-bit mask, the bit is set exactly when the masked byte is
/// not zero.
proof fn lemma_flag_bit(p: u8, mask: u8)
    requires
        crate::cpu_register::is_status_flag(mask),
    ensures
        (p & mask != 0) == flag_is_set(p, mask),
{
    assert((p & mask != 0) == (p & mask == mask)) by (bit_vector)
        requires
            mask == 0x80u8 || mask == 0x40u8 || mask == 0x20u8 || mask == 0x10u8 || mask == 0x08u8
                || mask == 0x04u8 || mask == 0x02u8 || mask == 0x01u8,
    ;
}

} // verus!
