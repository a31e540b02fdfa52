use rust_nes_emulator::nes::cassette::Mapper;
use rust_nes_emulator::nes::cpu::{Cpu, Interrupt};
use rust_nes_emulator::nes::cpu_instruction::{AddressingMode, Instruction, Opcode, Operand};
use rust_nes_emulator::nes::interface::EmulateControl;
use rust_nes_emulator::nes::system::System;

fn cpu_with(a: u8, p: u8) -> Cpu {
    Cpu { a: a, x: 0, y: 0, pc: 0x8000, sp: 0x01fd, p: p }
}

/// A system whose PRG-ROM holds `program` at 0x8000 and whose vectors are
/// NMI 0x9000, RESET 0x8000, IRQ 0xa000.
fn system_with(program: &[u8]) -> System {
    let mut sys = System::default();
    sys.cassette.mapper = Mapper::Nrom;
    sys.cassette.prg_rom[..program.len()].copy_from_slice(program);
    sys.cassette.prg_rom[0x7ffa] = 0x00;
    sys.cassette.prg_rom[0x7ffb] = 0x90;
    sys.cassette.prg_rom[0x7ffc] = 0x00;
    sys.cassette.prg_rom[0x7ffd] = 0x80;
    sys.cassette.prg_rom[0x7ffe] = 0x00;
    sys.cassette.prg_rom[0x7fff] = 0xa0;
    sys
}

#[test]
fn test_nes_decode() {
    assert!(Instruction::from(0x69) == Instruction(Opcode::ADC, AddressingMode::Immediate));
    assert!(Instruction::from(0x60) == Instruction(Opcode::RTS, AddressingMode::Implied));
    assert!(Instruction::from(0xea) == Instruction(Opcode::NOP, AddressingMode::Absolute));
}

#[test]
fn test_nes_adc_overflow() {
    let mut cpu = cpu_with(0x50, 0x00);
    assert_eq!(cpu.inst_adc(0x50), 0);
    assert_eq!(cpu.a, 0xa0);
    // N and V set, C and Z clear
    assert_eq!(cpu.p, 0xc0);
    let mut cpu = cpu_with(0xff, 0x01);
    cpu.inst_adc(0x00);
    assert_eq!(cpu.a, 0x00);
    assert_eq!(cpu.p, 0x03);
}

#[test]
fn test_nes_sbc_overflow() {
    // 0x50 - 0xb0 borrows, and 80 - (-80) overflows: V and N set, C clear
    let mut cpu = cpu_with(0x50, 0x01);
    assert_eq!(cpu.inst_sbc(0xb0), 0);
    assert_eq!(cpu.a, 0xa0);
    assert_eq!(cpu.p, 0xc0);
    // 0x50 - 0x10 with no borrow sets C
    let mut cpu = cpu_with(0x50, 0x01);
    cpu.inst_sbc(0x10);
    assert_eq!(cpu.a, 0x40);
    assert_eq!(cpu.p, 0x01);
}

#[test]
fn test_nes_compare_carry() {
    // C is set when the register is at least the argument
    let mut cpu = cpu_with(0x05, 0x00);
    cpu.inst_cmp(0x03);
    assert_eq!(cpu.p, 0x01);
    cpu.inst_cmp(0x05);
    assert_eq!(cpu.p, 0x03);
    cpu.inst_cmp(0x07);
    assert_eq!(cpu.p, 0x80);
    let mut cpu = cpu_with(0x10, 0x00);
    assert_eq!(cpu.inst_cmp(0x05), 0);
    assert_eq!(cpu.p, 0x01);
    assert_eq!(cpu.a, 0x10);
    cpu.x = 0x02;
    cpu.inst_cpx(0x02);
    assert_eq!(cpu.p, 0x03);
    cpu.y = 0x01;
    cpu.inst_cpy(0x02);
    assert_eq!(cpu.p, 0x80);
}

#[test]
fn test_nes_shifts() {
    // ASL moves bit 7 into C
    let mut cpu = cpu_with(0x81, 0x00);
    cpu.inst_asl_a();
    assert_eq!(cpu.a, 0x02);
    assert_eq!(cpu.p, 0x01);
    let mut sys = system_with(&[]);
    let mut cpu = cpu_with(0, 0x01);
    cpu.inst_asl(&mut sys, 0x0011, 0x40);
    assert_eq!(sys.wram[0x11], 0x80);
    assert_eq!(cpu.p, 0x80);
    // LSR on memory writes back the shifted byte
    let mut cpu = cpu_with(0, 0);
    assert_eq!(cpu.inst_lsr(&mut sys, 0x0010, 0x03), 0);
    assert_eq!(sys.wram[0x10], 0x01);
    assert_eq!(cpu.p, 0x01);
    // ROL then ROR gives the value and the carry back
    let mut cpu = cpu_with(0x96, 0x01);
    cpu.inst_rol_a();
    assert_eq!(cpu.a, 0x2d);
    cpu.inst_ror_a();
    assert_eq!(cpu.a, 0x96);
    assert_eq!(cpu.p & 0x01, 0x01);
}

#[test]
fn test_nes_bit() {
    // Z comes from A & M; N and V from bits 7 and 6 of M
    let mut cpu = cpu_with(0x00, 0x00);
    cpu.inst_bit(0xc0);
    assert_eq!(cpu.p, 0xc2);
    let mut cpu = cpu_with(0xff, 0x00);
    assert_eq!(cpu.inst_bit(0xc0), 0);
    assert_eq!(cpu.p, 0xc0);
    assert_eq!(cpu.a, 0xff);
    let mut cpu = cpu_with(0x01, 0x00);
    cpu.inst_bit(0x02);
    assert_eq!(cpu.p, 0x02);
}

#[test]
fn test_nes_branch_and_transfer() {
    let mut cpu = cpu_with(0, 0x00);
    assert_eq!(cpu.inst_bne(0x8123), 1);
    assert_eq!(cpu.pc, 0x8123);
    assert_eq!(cpu.inst_beq(0x9000), 0);
    assert_eq!(cpu.pc, 0x8123);
    cpu.x = 0x80;
    cpu.inst_txs();
    assert_eq!(cpu.sp, 0x0180);
    cpu.inst_tsx();
    assert_eq!(cpu.x, 0x80);
    assert_eq!(cpu.p & 0x80, 0x80);
    cpu.inst_dex();
    assert_eq!(cpu.x, 0x7f);
    cpu.x = 0;
    cpu.inst_dex();
    assert_eq!(cpu.x, 0xff);
}

#[test]
fn test_nes_stack_instructions() {
    let mut sys = system_with(&[]);
    let mut cpu = cpu_with(0x42, 0x00);
    cpu.inst_pha(&mut sys);
    assert_eq!(sys.wram[0x1fd], 0x42);
    cpu.a = 0;
    cpu.inst_pla(&mut sys);
    assert_eq!(cpu.a, 0x42);
    assert_eq!(cpu.sp, 0x01fd);
    // JSR at 0x8000 pushes 0x8002; RTS returns to 0x8003
    cpu.inst_jsr(&mut sys, 0x8100, 0x8000);
    assert_eq!(cpu.pc, 0x8100);
    cpu.inst_rts(&mut sys);
    assert_eq!(cpu.pc, 0x8003);
    // the stack pointer wraps inside page 1
    let mut cpu = cpu_with(0x77, 0x00);
    cpu.sp = 0x0100;
    cpu.inst_pha(&mut sys);
    assert_eq!(sys.wram[0x100], 0x77);
    assert_eq!(cpu.sp, 0x01ff);
    cpu.a = 0;
    cpu.inst_pla(&mut sys);
    assert_eq!(cpu.sp, 0x0100);
    assert_eq!(cpu.a, 0x77);
}

#[test]
fn test_nes_addressing() {
    // operand bytes at 0x8001: 0x34 0x12; pointer table in WRAM
    let mut sys = system_with(&[0x00, 0x34, 0x12]);
    sys.wram[0x34] = 0x78;
    sys.wram[0x35] = 0x56;
    let mut cpu = cpu_with(0, 0);
    cpu.x = 0x01;
    cpu.y = 0xff;
    assert_eq!(cpu.addressing_immediate(&sys, 0x8001), (0x8001, 0));
    assert_eq!(cpu.addressing_absolute(&sys, 0x8001), (0x1234, 0));
    assert_eq!(cpu.addressing_zero_page(&sys, 0x8001), (0x0034, 0));
    assert_eq!(cpu.addressing_zero_page_x(&sys, 0x8001), (0x0035, 0));
    // 0x1234 + 1 stays in its page; 0x1234 + 0xff crosses it
    assert_eq!(cpu.addressing_absolute_x(&sys, 0x8001), (0x1235, 0));
    assert_eq!(cpu.addressing_absolute_y(&sys, 0x8001), (0x1333, 1));
    // (d,x): the pointer at 0x35 holds 0x0056
    sys.wram[0x36] = 0x00;
    assert_eq!(cpu.addressing_indirect_x(&sys, 0x8001), (0x0056, 0));
    // (d),y: the pointer at 0x34 holds 0x5678; Y is added to it
    assert_eq!(cpu.addressing_indirect_y(&sys, 0x8001), (0x5777, 1));
    // zero page indexing wraps within the zero page
    let mut sys3 = system_with(&[]);
    sys3.wram[0] = 0x80;
    let mut cpu3 = Cpu { a: 0, x: 0xff, y: 0xff, pc: 0, sp: 0x01fd, p: 0 };
    assert_eq!(cpu3.addressing_zero_page_x(&sys3, 0x0000), (0x007f, 0));
    assert_eq!(cpu3.addressing_zero_page_y(&sys3, 0x0000), (0x007f, 0));
    // the pointer of (d,x) and (d),y wraps too: 0xff + 1 reads 0x00
    sys3.wram[0] = 0xff;
    sys3.wram[0xff] = 0x10;
    cpu3.x = 0;
    cpu3.y = 0;
    assert_eq!(cpu3.addressing_indirect_y(&sys3, 0x0000), (0xff10, 0));
    assert_eq!(cpu3.addressing_indirect_x(&sys3, 0x0000), (0xff10, 0));
    // relative: one past PC + offset
    cpu.pc = 0x8010;
    let sys2 = system_with(&[0xfe]);
    assert_eq!(cpu.addressing_relative(&sys2, 0x8000), (0x800f, 0));
}

#[test]
fn test_nes_fetch_and_run() {
    let mut sys = system_with(&[0x69, 0x05, 0x34, 0x12]);
    let mut cpu = cpu_with(0x10, 0x00);
    cpu.pc = 0x8001;
    assert_eq!(cpu.fetch_u8(&mut sys), 0x05);
    assert_eq!(cpu.fetch_u16(&mut sys), 0x1234);
    assert_eq!(cpu.pc, 0x8004);
    cpu.pc = 0x8002;
    assert!(cpu.fetch_operand(&mut sys, AddressingMode::ZeroPage) == Operand(0x34, 2));
    // run: ADC #$05
    cpu.pc = 0x8001;
    assert_eq!(cpu.run(&mut sys, 0x69), 2);
    assert_eq!(cpu.a, 0x15);
}

#[test]
fn test_nes_step_program() {
    // LDA #$42; LDX #$03; loop: DEX; BNE loop; STA $10; JMP self
    let program = [0xa9, 0x42, 0xa2, 0x03, 0xca, 0xd0, 0xfd, 0x85, 0x10, 0x4c, 0x09, 0x80];
    let mut sys = system_with(&program);
    let mut cpu = cpu_with(0, 0x34);
    let expected_cycles = [2u8, 2, 2, 3, 2, 3, 2, 2, 3, 3];
    for c in expected_cycles.iter() {
        assert_eq!(cpu.try_step(&mut sys), Some(*c));
    }
    assert_eq!(cpu.a, 0x42);
    assert_eq!(cpu.x, 0);
    assert_eq!(cpu.pc, 0x8009);
    assert_eq!(sys.wram[0x10], 0x42);
}

#[test]
fn test_nes_step_rts_and_rti() {
    // 0x60 is RTS: PC low and high are pulled, and PC moves one past them
    let mut sys = system_with(&[0x60]);
    sys.wram[0x1fe] = 0x34;
    sys.wram[0x1ff] = 0x12;
    let mut cpu = cpu_with(0, 0);
    assert_eq!(cpu.try_step(&mut sys), Some(6));
    assert_eq!(cpu.p, 0x00);
    assert_eq!(cpu.pc, 0x1235);
    assert_eq!(cpu.sp, 0x01ff);
    // 0x40 is RTI: P, then PC low and high are pulled
    let mut sys = system_with(&[0x40]);
    sys.wram[0x1fd] = 0xc3;
    sys.wram[0x1fe] = 0x34;
    sys.wram[0x1ff] = 0x12;
    let mut cpu = cpu_with(0, 0);
    cpu.sp = 0x01fc;
    assert_eq!(cpu.try_step(&mut sys), Some(6));
    assert_eq!(cpu.p, 0xc3);
    assert_eq!(cpu.pc, 0x1234);
}

#[test]
fn test_nes_step_brk() {
    // BRK at 0x8000 pushes 0x8002 and P with B set, sets I, and jumps to the
    // IRQ/BRK vector
    let mut sys = system_with(&[0x00]);
    let mut cpu = cpu_with(0, 0x00);
    assert_eq!(cpu.try_step(&mut sys), Some(7));
    assert_eq!(cpu.pc, 0xa000);
    assert_eq!(cpu.sp, 0x01fa);
    assert_eq!(sys.wram[0x1fd], 0x80);
    assert_eq!(sys.wram[0x1fc], 0x02);
    assert_eq!(sys.wram[0x1fb], 0x10);
    assert_eq!(cpu.p, 0x14);
    // with I set, BRK may not nest: only B is set
    let mut sys = system_with(&[0x00]);
    let mut cpu = cpu_with(0, 0x04);
    assert_eq!(cpu.try_step(&mut sys), Some(7));
    assert_eq!(cpu.pc, 0x8001);
    assert_eq!(cpu.p, 0x14);
    assert_eq!(cpu.sp, 0x01fd);
}

#[test]
fn test_nes_step_flag_set_cycles() {
    // SEC; SED; SEI take two cycles each
    let mut sys = system_with(&[0x38, 0xf8, 0x78]);
    let mut cpu = cpu_with(0, 0);
    for _ in 0..3 {
        assert_eq!(cpu.try_step(&mut sys), Some(2));
    }
    assert_eq!(cpu.p, 0x0d);
}

#[test]
fn test_nes_step_unknown_opcode() {
    let mut sys = system_with(&[0x02]);
    let mut cpu = cpu_with(0, 0);
    assert_eq!(cpu.try_step(&mut sys), None);
}

#[test]
fn test_nes_interrupt_and_reset() {
    let mut sys = system_with(&[]);
    let mut cpu = cpu_with(0, 0);
    cpu.reset();
    assert_eq!(cpu.sp, 0x01fd);
    assert_eq!(cpu.p, 0x34);
    cpu.do_interrupt(&mut sys, Interrupt::RESET);
    assert_eq!(cpu.pc, 0x8000);
    cpu.p = 0;
    cpu.do_interrupt(&mut sys, Interrupt::NMI);
    assert_eq!(cpu.pc, 0x9000);
    assert_eq!(cpu.sp, 0x01fa);
    assert_eq!(sys.wram[0x1fd], 0x80);
    assert_eq!(sys.wram[0x1fc], 0x00);
    // BRK pushes PC + 1 and P with B set, then jumps to the IRQ/BRK vector
    let mut cpu = cpu_with(0, 0);
    assert_eq!(cpu.inst_brk(&mut sys), 0);
    assert_eq!(cpu.pc, 0xa000);
    assert_eq!(cpu.sp, 0x01fa);
    assert_eq!(sys.wram[0x1fd], 0x80);
    assert_eq!(sys.wram[0x1fc], 0x01);
    assert_eq!(sys.wram[0x1fb], 0x10);
    assert_eq!(cpu.p & 0x14, 0x14);
    // do_interrupt: BRK with I clear is taken, IRQ with I set is not
    let mut cpu = cpu_with(0, 0);
    cpu.do_interrupt(&mut sys, Interrupt::BRK);
    assert_eq!(cpu.pc, 0xa000);
    assert_eq!(cpu.sp, 0x01fa);
    cpu.do_interrupt(&mut sys, Interrupt::IRQ);
    assert_eq!(cpu.pc, 0xa000);
    cpu.do_interrupt(&mut sys, Interrupt::BRK);
    assert_eq!(cpu.pc, 0xa000);
    assert_eq!(cpu.sp, 0x01fa);
}

#[test]
fn test_nes_cpu_dump_restore() {
    let cpu = Cpu { a: 1, x: 2, y: 3, pc: 0x1234, sp: 0x01fd, p: 0x34 };
    let dumped = std::cell::RefCell::new(vec![0u8; Cpu::get_dump_size()]);
    cpu.dump(|i: usize, d: u8| dumped.borrow_mut()[i] = d);
    let bytes = dumped.into_inner();
    assert_eq!(bytes, vec![1, 2, 3, 0x34, 0x12, 0xfd, 0x01, 0x34]);
    let mut restored = cpu_with(0, 0);
    restored.restore(|i: usize| bytes[i]);
    assert_eq!(restored.pc, 0x1234);
    assert_eq!(restored.sp, 0x01fd);
    assert_eq!(restored.y, 3);
}

#[test]
fn test_nes_step_unanswered_fetch() {
    // 0x6000 has no memory behind it in this system
    let mut sys = system_with(&[]);
    let mut cpu = cpu_with(0, 0);
    cpu.pc = 0x6000;
    assert_eq!(cpu.try_step(&mut sys), None);
}
