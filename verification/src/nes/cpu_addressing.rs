use vstd::prelude::*;
use crate::cpu_instruction::{lemma_wrapping_add_u16, lemma_wrapping_add_u8, page_cycle};
use crate::nes::cpu::{word, Cpu};
use crate::nes::cpu_instruction::AddressingMode;
use crate::nes::system::System;

verus! {

/// Addressing: each routine takes the address of the operand bytes (the PC
/// after the opcode) and gives the effective address and the extra cycles
/// it takes. Accumulator and implied addressing need no routine.
impl Cpu {
    /// The bus answers every read that the addressing routine makes, and its
    /// arithmetic stays in range.
    pub open spec fn addressing_ok(self, sys: System, mode: AddressingMode, base: u16) -> bool {
        match mode {
            AddressingMode::Implied | AddressingMode::Accumulator | AddressingMode::Immediate => true,
            AddressingMode::ZeroPage | AddressingMode::ZeroPageX | AddressingMode::ZeroPageY => sys.addr_ok(base),
            AddressingMode::Absolute | AddressingMode::AbsoluteX | AddressingMode::AbsoluteY => {
                base < 0xffff && sys.addr_ok(base) && sys.addr_ok((base + 1) as u16)
            },
            AddressingMode::Indirect => {
                &&& base < 0xffff
                &&& sys.addr_ok(base)
                &&& sys.addr_ok((base + 1) as u16)
                &&& sys.addr_ok(word(sys.read_spec(base), sys.read_spec((base + 1) as u16)))
                &&& sys.addr_ok(
                    ((word(sys.read_spec(base), sys.read_spec((base + 1) as u16)) + 1) % 0x10000) as u16,
                )
            },
            AddressingMode::Relative => {
                let target = (sys.read_spec(base) as i8) as int + self.pc as int;
                sys.addr_ok(base) && 0 <= target < 0xffff
            },
            AddressingMode::IndirectX => {
                let ptr = ((sys.read_spec(base) + self.x) % 256) as u16;
                sys.addr_ok(base) && sys.addr_ok(ptr) && sys.addr_ok(((ptr + 1) % 256) as u16)
            },
            AddressingMode::IndirectY => {
                let zp = sys.read_spec(base) as u16;
                sys.addr_ok(base) && sys.addr_ok(zp) && sys.addr_ok(((zp + 1) % 256) as u16)
            },
        }
    }

    /// The effective address and the extra cycles. Zero page indexing and the
    /// zero page pointers of (d,x) and (d),y wrap within the zero page; an
    /// indexed address that crosses a page from its base costs one more
    /// cycle; relative addressing targets one past PC + offset.
    pub open spec fn addressing_spec(self, sys: System, mode: AddressingMode, base: u16) -> (u16, u8) {
        match mode {
            AddressingMode::Implied | AddressingMode::Accumulator => (0, 0),
            AddressingMode::Immediate => (base, 0),
            AddressingMode::Absolute => (word(sys.read_spec(base), sys.read_spec((base + 1) as u16)), 0),
            AddressingMode::Indirect => {
                let ptr = word(sys.read_spec(base), sys.read_spec((base + 1) as u16));
                let next = ((ptr + 1) % 0x10000) as u16;
                (word(sys.read_spec(ptr), sys.read_spec(next)), 0)
            },
            AddressingMode::ZeroPage => (sys.read_spec(base) as u16, 0),
            AddressingMode::ZeroPageX => (((sys.read_spec(base) + self.x) % 256) as u16, 0),
            AddressingMode::ZeroPageY => (((sys.read_spec(base) + self.y) % 256) as u16, 0),
            AddressingMode::AbsoluteX => {
                let w = word(sys.read_spec(base), sys.read_spec((base + 1) as u16));
                let addr = ((w + self.x) % 0x10000) as u16;
                (addr, page_cycle(w, addr))
            },
            AddressingMode::AbsoluteY => {
                let w = word(sys.read_spec(base), sys.read_spec((base + 1) as u16));
                let addr = ((w + self.y) % 0x10000) as u16;
                (addr, page_cycle(w, addr))
            },
            AddressingMode::Relative => {
                let addr = ((sys.read_spec(base) as i8) as int + self.pc as int + 1) as u16;
                (addr, page_cycle(base, addr))
            },
            AddressingMode::IndirectX => {
                let ptr = ((sys.read_spec(base) + self.x) % 256) as u16;
                (word(sys.read_spec(ptr), sys.read_spec(((ptr + 1) % 256) as u16)), 0)
            },
            AddressingMode::IndirectY => {
                let zp = sys.read_spec(base) as u16;
                let w = word(sys.read_spec(zp), sys.read_spec(((zp + 1) % 256) as u16));
                let addr = ((w + self.y) % 0x10000) as u16;
                (addr, page_cycle(w, addr))
            },
        }
    }

    /// #v: the operand is the value itself
    pub fn addressing_immediate(&self, _system: &System, base_addr: u16) -> (r: (u16, u8))
        ensures
            r == self.addressing_spec(*_system, AddressingMode::Immediate, base_addr),
    {
        (base_addr, 0)
    }

    /// a
    pub fn addressing_absolute(&self, system: &System, base_addr: u16) -> (r: (u16, u8))
        requires
            self.addressing_ok(*system, AddressingMode::Absolute, base_addr),
        ensures
            r == self.addressing_spec(*system, AddressingMode::Absolute, base_addr),
    {
        let lower_addr = base_addr;
        let upper_addr = base_addr + 1;
        let lower = system.read_u8(lower_addr, false);
        let upper = system.read_u8(upper_addr, false);
        let addr = (lower as u16) | ((upper as u16) << 8u16);
        (addr, 0)
    }

    /// (a), for JMP: absolute indirect
    pub fn addressing_indirect(&self, system: &System, base_addr: u16) -> (r: (u16, u8))
        requires
            self.addressing_ok(*system, AddressingMode::Indirect, base_addr),
        ensures
            r == self.addressing_spec(*system, AddressingMode::Indirect, base_addr),
    {
        let lower_addr1 = base_addr;
        let upper_addr1 = base_addr + 1;
        let lower1 = system.read_u8(lower_addr1, false);
        let upper1 = system.read_u8(upper_addr1, false);
        let lower_addr2 = (lower1 as u16) | ((upper1 as u16) << 8u16);
        let upper_addr2 = lower_addr2.wrapping_add(1);
        proof { lemma_wrapping_add_u16(lower_addr2, 1); }
        let lower3 = system.read_u8(lower_addr2, false);
        let upper3 = system.read_u8(upper_addr2, false);
        let addr3 = (lower3 as u16) | ((upper3 as u16) << 8u16);
        (addr3, 0)
    }

    /// d
    pub fn addressing_zero_page(&self, system: &System, base_addr: u16) -> (r: (u16, u8))
        requires
            self.addressing_ok(*system, AddressingMode::ZeroPage, base_addr),
        ensures
            r == self.addressing_spec(*system, AddressingMode::ZeroPage, base_addr),
    {
        let lower_addr = base_addr;
        let lower = system.read_u8(lower_addr, false);
        let addr = lower as u16;
        (addr, 0)
    }

    /// d,x
    pub fn addressing_zero_page_x(&self, system: &System, base_addr: u16) -> (r: (u16, u8))
        requires
            self.addressing_ok(*system, AddressingMode::ZeroPageX, base_addr),
        ensures
            r == self.addressing_spec(*system, AddressingMode::ZeroPageX, base_addr),
    {
        let lower_addr = base_addr;
        let lower = system.read_u8(lower_addr, false);
        // the index wraps within the zero page
        let addr = lower.wrapping_add(self.x) as u16;
        proof { lemma_wrapping_add_u8(lower, self.x); }
        (addr, 0)
    }

    /// d,y
    pub fn addressing_zero_page_y(&self, system: &System, base_addr: u16) -> (r: (u16, u8))
        requires
            self.addressing_ok(*system, AddressingMode::ZeroPageY, base_addr),
        ensures
            r == self.addressing_spec(*system, AddressingMode::ZeroPageY, base_addr),
    {
        let lower_addr = base_addr;
        let lower = system.read_u8(lower_addr, false);
        // the index wraps within the zero page
        let addr = lower.wrapping_add(self.y) as u16;
        proof { lemma_wrapping_add_u8(lower, self.y); }
        (addr, 0)
    }

    /// a,x
    pub fn addressing_absolute_x(&self, system: &System, base_addr: u16) -> (r: (u16, u8))
        requires
            self.addressing_ok(*system, AddressingMode::AbsoluteX, base_addr),
        ensures
            r == self.addressing_spec(*system, AddressingMode::AbsoluteX, base_addr),
    {
        let lower_addr = base_addr;
        let upper_addr = base_addr + 1;
        let lower = system.read_u8(lower_addr, false);
        let upper = system.read_u8(upper_addr, false);
        let base = (lower as u16) | ((upper as u16) << 8u16);
        let addr = base.wrapping_add(self.x as u16);
        proof { lemma_wrapping_add_u16(base, self.x as u16); }
        // one more cycle when indexing crosses a page
        let additional_cycle: u8 = if (base & 0xff00u16) != (addr & 0xff00u16) { 1 } else { 0 };
        (addr, additional_cycle)
    }

    /// a,y
    pub fn addressing_absolute_y(&self, system: &System, base_addr: u16) -> (r: (u16, u8))
        requires
            self.addressing_ok(*system, AddressingMode::AbsoluteY, base_addr),
        ensures
            r == self.addressing_spec(*system, AddressingMode::AbsoluteY, base_addr),
    {
        let lower_addr = base_addr;
        let upper_addr = base_addr + 1;
        let lower = system.read_u8(lower_addr, false);
        let upper = system.read_u8(upper_addr, false);
        let base = (lower as u16) | ((upper as u16) << 8u16);
        let addr = base.wrapping_add(self.y as u16);
        proof { lemma_wrapping_add_u16(base, self.y as u16); }
        // one more cycle when indexing crosses a page
        let additional_cycle: u8 = if (base & 0xff00u16) != (addr & 0xff00u16) { 1 } else { 0 };
        (addr, additional_cycle)
    }

    /// label
    pub fn addressing_relative(&self, system: &System, base_addr: u16) -> (r: (u16, u8))
        requires
            self.addressing_ok(*system, AddressingMode::Relative, base_addr),
        ensures
            r == self.addressing_spec(*system, AddressingMode::Relative, base_addr),
    {
        let offset_addr = base_addr;
        let offset = system.read_u8(offset_addr, false);
        let addr_signed: i32 = ((offset as i8) as i32) + (self.pc as i32);
        // the target is one past the signed offset
        let addr = addr_signed as u16 + 1;
        let additional_cycle: u8 = if (base_addr & 0xff00u16) != (addr & 0xff00u16) { 1 } else { 0 };
        (addr, additional_cycle)
    }

    /// (d,x): indexed indirect; the pointer is read in the zero page at d + x
    pub fn addressing_indirect_x(&self, system: &System, base_addr: u16) -> (r: (u16, u8))
        requires
            self.addressing_ok(*system, AddressingMode::IndirectX, base_addr),
        ensures
            r == self.addressing_spec(*system, AddressingMode::IndirectX, base_addr),
    {
        let data1 = system.read_u8(base_addr, false);
        let ptr = data1.wrapping_add(self.x);
        let ptr_next = ptr.wrapping_add(1);
        proof {
            lemma_wrapping_add_u8(data1, self.x);
            lemma_wrapping_add_u8(ptr, 1);
        }
        let lower = system.read_u8(ptr as u16, false);
        let upper = system.read_u8(ptr_next as u16, false);
        let addr = (lower as u16) | ((upper as u16) << 8u16);
        (addr, 0)
    }

    /// (d),y: indirect indexed; the pointer is read in the zero page at d and
    /// d + 1, then Y is added to it
    pub fn addressing_indirect_y(&self, system: &System, base_addr: u16) -> (r: (u16, u8))
        requires
            self.addressing_ok(*system, AddressingMode::IndirectY, base_addr),
        ensures
            r == self.addressing_spec(*system, AddressingMode::IndirectY, base_addr),
    {
        let zp = system.read_u8(base_addr, false);
        let zp_next = zp.wrapping_add(1);
        proof { lemma_wrapping_add_u8(zp, 1); }
        let lower = system.read_u8(zp as u16, false);
        let upper = system.read_u8(zp_next as u16, false);
        let ptr = (lower as u16) | ((upper as u16) << 8u16);
        let addr = ptr.wrapping_add(self.y as u16);
        proof { lemma_wrapping_add_u16(ptr, self.y as u16); }
        // one more cycle when indexing crosses a page
        let additional_cycle: u8 = if (ptr & 0xff00u16) != (addr & 0xff00u16) { 1 } else { 0 };
        (addr, additional_cycle)
    }

    /// Zero page addressing stays in the zero page: d, d + X and d + Y are
    /// taken modulo 256, with d the operand byte.
    pub proof fn lemma_zero_page_modes(self, sys: System, base: u16)
        ensures
            ({
                let d = sys.read_spec(base);
                let zp = self.addressing_spec(sys, AddressingMode::ZeroPage, base).0;
                let zx = self.addressing_spec(sys, AddressingMode::ZeroPageX, base).0;
                let zy = self.addressing_spec(sys, AddressingMode::ZeroPageY, base).0;
                &&& zp < 0x100 && zx < 0x100 && zy < 0x100
                &&& zp == d
                &&& (zx - d - self.x) % 256 == 0
                &&& (zy - d - self.y) % 256 == 0
            }),
    {
    }

    /// Indexed indirect (d,x) takes its pointer from the zero page at d + X
    /// and d + X + 1, indirect indexed (d),y from the zero page at d and
    /// d + 1 and adds Y to it (modulo 0x10000), with d the operand byte.
    pub proof fn lemma_indirect_modes(self, sys: System, base: u16)
        ensures
            ({
                let d = sys.read_spec(base) as int;
                let px = (d + self.x) % 256;
                let ix = self.addressing_spec(sys, AddressingMode::IndirectX, base).0;
                let iy = self.addressing_spec(sys, AddressingMode::IndirectY, base).0;
                let ptr_x = sys.read_spec(px as u16) as int + 256 * sys.read_spec(((px + 1) % 256) as u16);
                let ptr_y = sys.read_spec(d as u16) as int + 256 * sys.read_spec(((d + 1) % 256) as u16);
                &&& ix == ptr_x
                &&& iy == (ptr_y + self.y) % 0x10000
            }),
    {
        let d = sys.read_spec(base) as int;
        let px = (d + self.x) % 256;
        let lx = sys.read_spec(px as u16);
        let ux = sys.read_spec(((px + 1) % 256) as u16);
        let ly = sys.read_spec(d as u16);
        let uy = sys.read_spec(((d + 1) % 256) as u16);
        assert(word(lx, ux) == lx as int + 256 * ux && word(ly, uy) == ly as int + 256 * uy) by {
            assert((lx as u16) | ((ux as u16) << 8u16) == lx as u16 + 256 * (ux as u16)) by (bit_vector);
            assert((ly as u16) | ((uy as u16) << 8u16) == ly as u16 + 256 * (uy as u16)) by (bit_vector);
        }
    }
}

} // verus!
