use rust_nes_emulator::cpu::{Cpu, Interrupt};
use rust_nes_emulator::cpu_instruction::{is_valid_inst_code, AddressingMode, Instruction, Opcode};
use rust_nes_emulator::interface::{EmulateControl, SystemBus};
use rust_nes_emulator::nes::cassette::{Mapper, NameTableMirror};
use rust_nes_emulator::system::System;

/// An iNES image with one 16KB PRG bank holding `program` at 0x8000 and the
/// reset vector pointing there, and one 8KB CHR bank.
fn ines_image(program: &[u8]) -> Vec<u8> {
    let mut img = vec![0u8; 16 + 0x4000 + 0x2000];
    img[0..4].copy_from_slice(&[0x4e, 0x45, 0x53, 0x1a]);
    img[4] = 1;
    img[5] = 1;
    img[16..16 + program.len()].copy_from_slice(program);
    // vectors: NMI 0x9000, RESET 0x8000, IRQ/BRK 0xa000
    img[16 + 0x3ffa] = 0x00;
    img[16 + 0x3ffb] = 0x90;
    img[16 + 0x3ffc] = 0x00;
    img[16 + 0x3ffd] = 0x80;
    img[16 + 0x3ffe] = 0x00;
    img[16 + 0x3fff] = 0xa0;
    img
}

fn boot(program: &[u8]) -> (Cpu, System) {
    let img = ines_image(program);
    let mut sys = System::default();
    assert!(sys.cassette.from_ines_binary(|i: usize| img[i]));
    let mut cpu = Cpu::default();
    cpu.reset();
    cpu.interrupt(&mut sys, Interrupt::RESET);
    (cpu, sys)
}

#[test]
fn test_cassette_load_and_mirror() {
    let img = ines_image(&[0xa9, 0x42]);
    let mut sys = System::default();
    assert!(sys.cassette.from_ines_binary(|i: usize| img[i]));
    assert!(sys.cassette.mapper == Mapper::Nrom);
    assert!(sys.cassette.nametable_mirror == NameTableMirror::Horizontal);
    // a single 16KB bank is mirrored into 0xc000
    assert_eq!(sys.read_u8(0x8000, false), 0xa9);
    assert_eq!(sys.read_u8(0xc001, false), 0x42);
}

#[test]
fn test_cassette_rejects_bad_header() {
    let mut img = ines_image(&[]);
    img[3] = 0;
    let mut sys = System::default();
    assert!(!sys.cassette.from_ines_binary(|i: usize| img[i]));
    assert!(sys.cassette.mapper == Mapper::Unknown);
}

#[test]
fn test_reset_vector() {
    let (cpu, _sys) = boot(&[]);
    assert_eq!(cpu.pc, 0x8000);
    assert_eq!(cpu.sp, 0x01fd);
    assert_eq!(cpu.p, 0x34);
}

#[test]
fn test_decode() {
    assert!(matches!(Instruction::from(0xa9), Instruction(Opcode::LDA, AddressingMode::Immediate)));
    assert!(matches!(Instruction::from(0x6c), Instruction(Opcode::JMP, AddressingMode::Indirect)));
    assert!(matches!(Instruction::from(0xea), Instruction(Opcode::NOP, AddressingMode::Implied)));
    assert!(is_valid_inst_code(0x00));
    assert!(!is_valid_inst_code(0x02));
}

#[test]
fn test_step_program() {
    // LDA #$42; LDX #$03; loop: DEX; BNE loop; STA $10; JMP self
    let program = [0xa9, 0x42, 0xa2, 0x03, 0xca, 0xd0, 0xfd, 0x85, 0x10, 0x4c, 0x09, 0x80];
    let (mut cpu, mut sys) = boot(&program);
    let expected_cycles = [2u8, 2, 2, 3, 2, 3, 2, 2, 3, 3];
    for c in expected_cycles.iter() {
        assert_eq!(cpu.try_step(&mut sys), Some(*c));
    }
    assert_eq!(cpu.a, 0x42);
    assert_eq!(cpu.x, 0);
    assert_eq!(cpu.pc, 0x8009);
    assert_eq!(sys.wram[0x10], 0x42);
    // Z set by the last DEX
    assert_eq!(cpu.p & 0x02, 0x02);
}

#[test]
fn test_step_unknown_opcode() {
    let (mut cpu, mut sys) = boot(&[0x02]);
    assert_eq!(cpu.try_step(&mut sys), None);
}

#[test]
fn test_adc_and_sbc() {
    // CLC; LDA #$50; ADC #$50 -> 0xa0, V and N set, C clear
    let (mut cpu, mut sys) = boot(&[0x18, 0xa9, 0x50, 0x69, 0x50]);
    for _ in 0..3 {
        assert!(cpu.try_step(&mut sys).is_some());
    }
    assert_eq!(cpu.a, 0xa0);
    assert_eq!(cpu.p & 0xc3, 0xc0);
    // SEC; LDA #$50; SBC #$f0 -> 0x60, borrow clears C
    let (mut cpu, mut sys) = boot(&[0x38, 0xa9, 0x50, 0xe9, 0xf0]);
    for _ in 0..3 {
        assert!(cpu.try_step(&mut sys).is_some());
    }
    assert_eq!(cpu.a, 0x60);
    assert_eq!(cpu.p & 0x01, 0x00);
}

#[test]
fn test_jsr_rts_and_stack() {
    // 0x8000: JSR $8006; 0x8003: JMP $8003; 0x8006: LDA #$07; RTS
    let program = [0x20, 0x06, 0x80, 0x4c, 0x03, 0x80, 0xa9, 0x07, 0x60];
    let (mut cpu, mut sys) = boot(&program);
    assert_eq!(cpu.try_step(&mut sys), Some(6));
    assert_eq!(cpu.pc, 0x8006);
    assert_eq!(cpu.sp, 0x01fb);
    // return address pushed: 0x8002, high byte first
    assert_eq!(sys.wram[0x1fd], 0x80);
    assert_eq!(sys.wram[0x1fc], 0x02);
    assert_eq!(cpu.try_step(&mut sys), Some(2));
    assert_eq!(cpu.a, 0x07);
    assert_eq!(cpu.try_step(&mut sys), Some(6));
    assert_eq!(cpu.pc, 0x8003);
    assert_eq!(cpu.sp, 0x01fd);
}

#[test]
fn test_push_then_pop() {
    let (mut cpu, mut sys) = boot(&[]);
    cpu.stack_push(&mut sys, 0x5a);
    assert_eq!(cpu.sp, 0x01fc);
    assert_eq!(cpu.stack_pop(&mut sys), 0x5a);
    assert_eq!(cpu.sp, 0x01fd);
}

#[test]
fn test_nmi_interrupt() {
    let (mut cpu, mut sys) = boot(&[]);
    cpu.p = 0x00;
    cpu.interrupt(&mut sys, Interrupt::NMI);
    assert_eq!(cpu.pc, 0x9000);
    assert_eq!(cpu.sp, 0x01fa);
    assert_eq!(cpu.p & 0x04, 0x04);
    // PC high, PC low, P pushed
    assert_eq!(sys.wram[0x1fd], 0x80);
    assert_eq!(sys.wram[0x1fc], 0x00);
    assert_eq!(sys.wram[0x1fb], 0x00);
}

#[test]
fn test_irq_and_brk_masked() {
    let (mut cpu, mut sys) = boot(&[]);
    // I is set after reset: neither IRQ nor BRK is taken
    cpu.interrupt(&mut sys, Interrupt::IRQ);
    assert_eq!(cpu.pc, 0x8000);
    cpu.interrupt(&mut sys, Interrupt::BRK);
    assert_eq!(cpu.pc, 0x8000);
    assert_eq!(cpu.sp, 0x01fd);
    cpu.p = 0x00;
    cpu.interrupt(&mut sys, Interrupt::IRQ);
    assert_eq!(cpu.pc, 0xa000);
}

#[test]
fn test_brk_interrupt() {
    let (mut cpu, mut sys) = boot(&[]);
    cpu.p = 0x00;
    assert!(cpu.can_interrupt(&sys, Interrupt::BRK));
    cpu.interrupt(&mut sys, Interrupt::BRK);
    // PC + 1 pushed high then low, then P with B set; I set; PC from 0xfffe
    assert_eq!(cpu.pc, 0xa000);
    assert_eq!(cpu.sp, 0x01fa);
    assert_eq!(sys.wram[0x1fd], 0x80);
    assert_eq!(sys.wram[0x1fc], 0x01);
    assert_eq!(sys.wram[0x1fb], 0x10);
    assert_eq!(cpu.p & 0x14, 0x14);
}

#[test]
fn test_step_brk() {
    // CLI; BRK
    let (mut cpu, mut sys) = boot(&[0x58, 0x00]);
    assert_eq!(cpu.try_step(&mut sys), Some(2));
    assert_eq!(cpu.try_step(&mut sys), Some(7));
    assert_eq!(cpu.pc, 0xa000);
    assert_eq!(cpu.sp, 0x01fa);
    // the BRK at 0x8001 pushes 0x8003
    assert_eq!(sys.wram[0x1fd], 0x80);
    assert_eq!(sys.wram[0x1fc], 0x03);
    assert_eq!(sys.wram[0x1fb] & 0x10, 0x10);
    assert_eq!(cpu.p & 0x04, 0x04);
}

#[test]
fn test_step_axs() {
    // LDA #$f0; LDX #$0f; AXS #$01: X = (A & X) - 1 = 0xff, borrow clears C
    let (mut cpu, mut sys) = boot(&[0xa9, 0xf0, 0xa2, 0x0f, 0xcb, 0x01]);
    for _ in 0..3 {
        assert!(cpu.try_step(&mut sys).is_some());
    }
    assert_eq!(cpu.x, 0xff);
    assert_eq!(cpu.p & 0x83, 0x80);
    assert_eq!(cpu.a, 0xf0);
    assert_eq!(cpu.pc, 0x8006);
    // LDA #$ff; LDX #$0f; AXS #$05: X = 0x0f - 5 = 0x0a, C set
    let (mut cpu, mut sys) = boot(&[0xa9, 0xff, 0xa2, 0x0f, 0xcb, 0x05]);
    for _ in 0..3 {
        assert!(cpu.try_step(&mut sys).is_some());
    }
    assert_eq!(cpu.x, 0x0a);
    assert_eq!(cpu.p & 0x83, 0x01);
}

#[test]
fn test_step_page_crossing_cycle() {
    // LDX #$01; LDA $8010,X; LDA $80ff,X (crosses into page 0x81)
    let (mut cpu, mut sys) = boot(&[0xa2, 0x01, 0xbd, 0x10, 0x80, 0xbd, 0xff, 0x80]);
    assert_eq!(cpu.try_step(&mut sys), Some(2));
    let same_page = cpu.try_step(&mut sys).unwrap();
    let crossing = cpu.try_step(&mut sys).unwrap();
    assert_eq!(crossing, same_page + 1);
}

#[test]
fn test_stack_wraps_in_page_one() {
    let (mut cpu, mut sys) = boot(&[]);
    cpu.sp = 0x0100;
    cpu.stack_push(&mut sys, 0xaa);
    assert_eq!(sys.wram[0x100], 0xaa);
    assert_eq!(cpu.sp, 0x01ff);
    assert_eq!(cpu.stack_pop(&mut sys), 0xaa);
    assert_eq!(cpu.sp, 0x0100);
}

#[test]
fn test_flag_write_read() {
    let mut cpu = Cpu::default();
    cpu.write_carry_flag(true);
    cpu.write_negative_flag(true);
    assert!(cpu.read_carry_flag());
    assert!(cpu.read_negative_flag());
    assert!(!cpu.read_zero_flag());
    cpu.write_carry_flag(false);
    assert!(!cpu.read_carry_flag());
    assert_eq!(cpu.p, 0x80);
}

#[test]
fn test_step_unanswered_fetch() {
    let (mut cpu, mut sys) = boot(&[]);
    // the cartridge answers only its PRG-ROM
    cpu.pc = 0x5000;
    assert_eq!(cpu.try_step(&mut sys), None);
}
