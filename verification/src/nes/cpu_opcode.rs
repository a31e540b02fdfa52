use vstd::prelude::*;
use crate::cpu_instruction::{lemma_wrapping_add_u16, lemma_wrapping_add_u8};
use crate::nes::cpu::{pop_sp, push_sp, word, Cpu, Interrupt};
use crate::nes::cpu_instruction::{
    branch_taken, data_op, implied_op, jsr_spec, pop_opt, rmw_op, stack_spec, store_value,
    AddressingMode, Opcode,
};
use crate::cpu_register::flag_update;
use crate::nes::system::System;

verus! {

broadcast use System::lemma_write_keeps_mapper;

/// What an opcode byte runs: the instruction routine, the addressing routine
/// (`Implied` for none, `Accumulator` for the shifts on A), how far PC
/// advances past the operand, and the base cycle count.
pub open spec fn step_entry(opcode: u8) -> Option<(Opcode, AddressingMode, u16, u8)> {
    match opcode {
        0x69u8 => Some((Opcode::ADC, AddressingMode::Immediate, 1, 2)),
        0x65u8 => Some((Opcode::ADC, AddressingMode::ZeroPage, 1, 3)),
        0x75u8 => Some((Opcode::ADC, AddressingMode::ZeroPageX, 1, 4)),
        0x6du8 => Some((Opcode::ADC, AddressingMode::Absolute, 2, 4)),
        0x7du8 => Some((Opcode::ADC, AddressingMode::AbsoluteX, 2, 4)),
        0x79u8 => Some((Opcode::ADC, AddressingMode::AbsoluteY, 2, 4)),
        0x61u8 => Some((Opcode::ADC, AddressingMode::IndirectX, 1, 6)),
        0x71u8 => Some((Opcode::ADC, AddressingMode::IndirectY, 1, 5)),
        0x29u8 => Some((Opcode::AND, AddressingMode::Immediate, 1, 2)),
        0x25u8 => Some((Opcode::AND, AddressingMode::ZeroPage, 1, 3)),
        0x35u8 => Some((Opcode::AND, AddressingMode::ZeroPageX, 1, 4)),
        0x2du8 => Some((Opcode::AND, AddressingMode::Absolute, 2, 4)),
        0x3du8 => Some((Opcode::AND, AddressingMode::AbsoluteX, 2, 4)),
        0x39u8 => Some((Opcode::AND, AddressingMode::AbsoluteY, 2, 4)),
        0x21u8 => Some((Opcode::AND, AddressingMode::IndirectX, 1, 6)),
        0x31u8 => Some((Opcode::AND, AddressingMode::IndirectY, 1, 5)),
        0x0au8 => Some((Opcode::ASL, AddressingMode::Accumulator, 0, 2)),
        0x06u8 => Some((Opcode::ASL, AddressingMode::ZeroPage, 1, 5)),
        0x16u8 => Some((Opcode::ASL, AddressingMode::ZeroPageX, 1, 6)),
        0x0eu8 => Some((Opcode::ASL, AddressingMode::Absolute, 2, 6)),
        0x1eu8 => Some((Opcode::ASL, AddressingMode::AbsoluteX, 2, 7)),
        0x90u8 => Some((Opcode::BCC, AddressingMode::Relative, 1, 2)),
        0xb0u8 => Some((Opcode::BCS, AddressingMode::Relative, 1, 2)),
        0xf0u8 => Some((Opcode::BEQ, AddressingMode::Relative, 1, 2)),
        0x24u8 => Some((Opcode::BIT, AddressingMode::ZeroPage, 1, 3)),
        0x2cu8 => Some((Opcode::BIT, AddressingMode::Absolute, 2, 4)),
        0x30u8 => Some((Opcode::BMI, AddressingMode::Relative, 1, 2)),
        0xd0u8 => Some((Opcode::BNE, AddressingMode::Relative, 1, 2)),
        0x10u8 => Some((Opcode::BPL, AddressingMode::Relative, 1, 2)),
        0x00u8 => Some((Opcode::BRK, AddressingMode::Implied, 0, 7)),
        0x50u8 => Some((Opcode::BVC, AddressingMode::Relative, 1, 2)),
        0x70u8 => Some((Opcode::BVS, AddressingMode::Relative, 1, 2)),
        0x18u8 => Some((Opcode::CLC, AddressingMode::Implied, 0, 2)),
        0xd8u8 => Some((Opcode::CLD, AddressingMode::Implied, 0, 2)),
        0x58u8 => Some((Opcode::CLI, AddressingMode::Implied, 0, 2)),
        0xb8u8 => Some((Opcode::CLV, AddressingMode::Implied, 0, 2)),
        0xc9u8 => Some((Opcode::CMP, AddressingMode::Immediate, 1, 2)),
        0xc5u8 => Some((Opcode::CMP, AddressingMode::ZeroPage, 1, 3)),
        0xd5u8 => Some((Opcode::CMP, AddressingMode::ZeroPageX, 1, 4)),
        0xcdu8 => Some((Opcode::CMP, AddressingMode::Absolute, 2, 4)),
        0xddu8 => Some((Opcode::CMP, AddressingMode::AbsoluteX, 2, 4)),
        0xd9u8 => Some((Opcode::CMP, AddressingMode::AbsoluteY, 2, 4)),
        0xc1u8 => Some((Opcode::CMP, AddressingMode::IndirectX, 1, 6)),
        0xd1u8 => Some((Opcode::CMP, AddressingMode::IndirectY, 1, 5)),
        0xe0u8 => Some((Opcode::CPX, AddressingMode::Immediate, 1, 2)),
        0xe4u8 => Some((Opcode::CPX, AddressingMode::ZeroPage, 1, 3)),
        0xecu8 => Some((Opcode::CPX, AddressingMode::Absolute, 2, 4)),
        0xc0u8 => Some((Opcode::CPY, AddressingMode::Immediate, 1, 2)),
        0xc4u8 => Some((Opcode::CPY, AddressingMode::ZeroPage, 1, 3)),
        0xccu8 => Some((Opcode::CPY, AddressingMode::Absolute, 2, 4)),
        0xc6u8 => Some((Opcode::DEC, AddressingMode::ZeroPage, 1, 5)),
        0xd6u8 => Some((Opcode::DEC, AddressingMode::ZeroPageX, 1, 6)),
        0xceu8 => Some((Opcode::DEC, AddressingMode::Absolute, 2, 6)),
        0xdeu8 => Some((Opcode::DEC, AddressingMode::AbsoluteX, 2, 7)),
        0xcau8 => Some((Opcode::DEX, AddressingMode::Implied, 0, 2)),
        0x88u8 => Some((Opcode::DEY, AddressingMode::Implied, 0, 2)),
        0x49u8 => Some((Opcode::EOR, AddressingMode::Immediate, 1, 2)),
        0x45u8 => Some((Opcode::EOR, AddressingMode::ZeroPage, 1, 3)),
        0x55u8 => Some((Opcode::EOR, AddressingMode::ZeroPageX, 1, 4)),
        0x4du8 => Some((Opcode::EOR, AddressingMode::Absolute, 2, 4)),
        0x5du8 => Some((Opcode::EOR, AddressingMode::AbsoluteX, 2, 4)),
        0x59u8 => Some((Opcode::EOR, AddressingMode::AbsoluteY, 2, 4)),
        0x41u8 => Some((Opcode::EOR, AddressingMode::IndirectX, 1, 6)),
        0x51u8 => Some((Opcode::EOR, AddressingMode::IndirectY, 1, 5)),
        0xe6u8 => Some((Opcode::INC, AddressingMode::ZeroPage, 1, 5)),
        0xf6u8 => Some((Opcode::INC, AddressingMode::ZeroPageX, 1, 6)),
        0xeeu8 => Some((Opcode::INC, AddressingMode::Absolute, 2, 6)),
        0xfeu8 => Some((Opcode::INC, AddressingMode::AbsoluteX, 2, 7)),
        0xe8u8 => Some((Opcode::INX, AddressingMode::Implied, 0, 2)),
        0xc8u8 => Some((Opcode::INY, AddressingMode::Implied, 0, 2)),
        0x4cu8 => Some((Opcode::JMP, AddressingMode::Absolute, 2, 3)),
        0x6cu8 => Some((Opcode::JMP, AddressingMode::Indirect, 2, 5)),
        0x20u8 => Some((Opcode::JSR, AddressingMode::Absolute, 2, 6)),
        0xa9u8 => Some((Opcode::LDA, AddressingMode::Immediate, 1, 2)),
        0xa5u8 => Some((Opcode::LDA, AddressingMode::ZeroPage, 1, 3)),
        0xb5u8 => Some((Opcode::LDA, AddressingMode::ZeroPageX, 1, 4)),
        0xadu8 => Some((Opcode::LDA, AddressingMode::Absolute, 2, 4)),
        0xbdu8 => Some((Opcode::LDA, AddressingMode::AbsoluteX, 2, 4)),
        0xb9u8 => Some((Opcode::LDA, AddressingMode::AbsoluteY, 2, 4)),
        0xa1u8 => Some((Opcode::LDA, AddressingMode::IndirectX, 1, 6)),
        0xb1u8 => Some((Opcode::LDA, AddressingMode::IndirectY, 1, 5)),
        0xa2u8 => Some((Opcode::LDX, AddressingMode::Immediate, 1, 2)),
        0xa6u8 => Some((Opcode::LDX, AddressingMode::ZeroPage, 1, 3)),
        0xb6u8 => Some((Opcode::LDX, AddressingMode::ZeroPageY, 1, 4)),
        0xaeu8 => Some((Opcode::LDX, AddressingMode::Absolute, 2, 4)),
        0xbeu8 => Some((Opcode::LDX, AddressingMode::AbsoluteY, 2, 4)),
        0xa0u8 => Some((Opcode::LDY, AddressingMode::Immediate, 1, 2)),
        0xa4u8 => Some((Opcode::LDY, AddressingMode::ZeroPage, 1, 3)),
        0xb4u8 => Some((Opcode::LDY, AddressingMode::ZeroPageX, 1, 4)),
        0xacu8 => Some((Opcode::LDY, AddressingMode::Absolute, 2, 4)),
        0xbcu8 => Some((Opcode::LDY, AddressingMode::AbsoluteX, 2, 4)),
        0x4au8 => Some((Opcode::LSR, AddressingMode::Accumulator, 0, 2)),
        0x46u8 => Some((Opcode::LSR, AddressingMode::ZeroPage, 1, 5)),
        0x56u8 => Some((Opcode::LSR, AddressingMode::ZeroPageX, 1, 6)),
        0x4eu8 => Some((Opcode::LSR, AddressingMode::Absolute, 2, 6)),
        0x5eu8 => Some((Opcode::LSR, AddressingMode::AbsoluteX, 2, 7)),
        0xeau8 => Some((Opcode::NOP, AddressingMode::Implied, 0, 2)),
        0x09u8 => Some((Opcode::ORA, AddressingMode::Immediate, 1, 2)),
        0x05u8 => Some((Opcode::ORA, AddressingMode::ZeroPage, 1, 3)),
        0x15u8 => Some((Opcode::ORA, AddressingMode::ZeroPageX, 1, 4)),
        0x0du8 => Some((Opcode::ORA, AddressingMode::Absolute, 2, 4)),
        0x1du8 => Some((Opcode::ORA, AddressingMode::AbsoluteX, 2, 4)),
        0x19u8 => Some((Opcode::ORA, AddressingMode::AbsoluteY, 2, 4)),
        0x01u8 => Some((Opcode::ORA, AddressingMode::IndirectX, 1, 6)),
        0x11u8 => Some((Opcode::ORA, AddressingMode::IndirectY, 1, 5)),
        0x48u8 => Some((Opcode::PHA, AddressingMode::Implied, 0, 2)),
        0x08u8 => Some((Opcode::PHP, AddressingMode::Implied, 0, 2)),
        0x68u8 => Some((Opcode::PLA, AddressingMode::Implied, 0, 2)),
        0x28u8 => Some((Opcode::PLP, AddressingMode::Implied, 0, 2)),
        0x2au8 => Some((Opcode::ROL, AddressingMode::Accumulator, 0, 2)),
        0x26u8 => Some((Opcode::ROL, AddressingMode::ZeroPage, 1, 5)),
        0x36u8 => Some((Opcode::ROL, AddressingMode::ZeroPageX, 1, 6)),
        0x2eu8 => Some((Opcode::ROL, AddressingMode::Absolute, 2, 6)),
        0x3eu8 => Some((Opcode::ROL, AddressingMode::AbsoluteX, 2, 7)),
        0x6au8 => Some((Opcode::ROR, AddressingMode::Accumulator, 0, 2)),
        0x66u8 => Some((Opcode::ROR, AddressingMode::ZeroPage, 1, 5)),
        0x76u8 => Some((Opcode::ROR, AddressingMode::ZeroPageX, 1, 6)),
        0x6eu8 => Some((Opcode::ROR, AddressingMode::Absolute, 2, 6)),
        0x7eu8 => Some((Opcode::ROR, AddressingMode::AbsoluteX, 2, 7)),
        0x40u8 => Some((Opcode::RTI, AddressingMode::Implied, 0, 6)),
        0x60u8 => Some((Opcode::RTS, AddressingMode::Implied, 0, 6)),
        0xe9u8 => Some((Opcode::SBC, AddressingMode::Immediate, 1, 2)),
        0xe5u8 => Some((Opcode::SBC, AddressingMode::ZeroPage, 1, 3)),
        0xf5u8 => Some((Opcode::SBC, AddressingMode::ZeroPageX, 1, 4)),
        0xedu8 => Some((Opcode::SBC, AddressingMode::Absolute, 2, 4)),
        0xfdu8 => Some((Opcode::SBC, AddressingMode::AbsoluteX, 2, 4)),
        0xf9u8 => Some((Opcode::SBC, AddressingMode::AbsoluteY, 2, 4)),
        0xe1u8 => Some((Opcode::SBC, AddressingMode::IndirectX, 1, 6)),
        0xf1u8 => Some((Opcode::SBC, AddressingMode::IndirectY, 1, 5)),
        0x38u8 => Some((Opcode::SEC, AddressingMode::Implied, 0, 2)),
        0xf8u8 => Some((Opcode::SED, AddressingMode::Implied, 0, 2)),
        0x78u8 => Some((Opcode::SEI, AddressingMode::Implied, 0, 2)),
        0x85u8 => Some((Opcode::STA, AddressingMode::ZeroPage, 1, 3)),
        0x95u8 => Some((Opcode::STA, AddressingMode::ZeroPageX, 1, 4)),
        0x8du8 => Some((Opcode::STA, AddressingMode::Absolute, 2, 4)),
        0x9du8 => Some((Opcode::STA, AddressingMode::AbsoluteX, 2, 5)),
        0x99u8 => Some((Opcode::STA, AddressingMode::AbsoluteY, 2, 5)),
        0x81u8 => Some((Opcode::STA, AddressingMode::IndirectX, 1, 6)),
        0x91u8 => Some((Opcode::STA, AddressingMode::IndirectY, 1, 6)),
        0x86u8 => Some((Opcode::STX, AddressingMode::ZeroPage, 1, 3)),
        0x96u8 => Some((Opcode::STX, AddressingMode::ZeroPageY, 1, 4)),
        0x8eu8 => Some((Opcode::STX, AddressingMode::Absolute, 2, 4)),
        0x84u8 => Some((Opcode::STY, AddressingMode::ZeroPage, 1, 3)),
        0x94u8 => Some((Opcode::STY, AddressingMode::ZeroPageX, 1, 4)),
        0x8cu8 => Some((Opcode::STY, AddressingMode::Absolute, 2, 4)),
        0xaau8 => Some((Opcode::TAX, AddressingMode::Implied, 0, 2)),
        0xa8u8 => Some((Opcode::TAY, AddressingMode::Implied, 0, 2)),
        0xbau8 => Some((Opcode::TSX, AddressingMode::Implied, 0, 2)),
        0x8au8 => Some((Opcode::TXA, AddressingMode::Implied, 0, 2)),
        0x9au8 => Some((Opcode::TXS, AddressingMode::Implied, 0, 2)),
        0x98u8 => Some((Opcode::TYA, AddressingMode::Implied, 0, 2)),
        _ => None,
    }
}

/// The table of `step_entry`.
fn step_entry_exec(opcode: u8) -> (r: Option<(Opcode, AddressingMode, u16, u8)>)
    ensures
        r == step_entry(opcode),
        r matches Some(e) ==> e.2 <= 2 && e.3 <= 7,
{
    match opcode {
        0x69u8 => Some((Opcode::ADC, AddressingMode::Immediate, 1, 2)),
        0x65u8 => Some((Opcode::ADC, AddressingMode::ZeroPage, 1, 3)),
        0x75u8 => Some((Opcode::ADC, AddressingMode::ZeroPageX, 1, 4)),
        0x6du8 => Some((Opcode::ADC, AddressingMode::Absolute, 2, 4)),
        0x7du8 => Some((Opcode::ADC, AddressingMode::AbsoluteX, 2, 4)),
        0x79u8 => Some((Opcode::ADC, AddressingMode::AbsoluteY, 2, 4)),
        0x61u8 => Some((Opcode::ADC, AddressingMode::IndirectX, 1, 6)),
        0x71u8 => Some((Opcode::ADC, AddressingMode::IndirectY, 1, 5)),
        0x29u8 => Some((Opcode::AND, AddressingMode::Immediate, 1, 2)),
        0x25u8 => Some((Opcode::AND, AddressingMode::ZeroPage, 1, 3)),
        0x35u8 => Some((Opcode::AND, AddressingMode::ZeroPageX, 1, 4)),
        0x2du8 => Some((Opcode::AND, AddressingMode::Absolute, 2, 4)),
        0x3du8 => Some((Opcode::AND, AddressingMode::AbsoluteX, 2, 4)),
        0x39u8 => Some((Opcode::AND, AddressingMode::AbsoluteY, 2, 4)),
        0x21u8 => Some((Opcode::AND, AddressingMode::IndirectX, 1, 6)),
        0x31u8 => Some((Opcode::AND, AddressingMode::IndirectY, 1, 5)),
        0x0au8 => Some((Opcode::ASL, AddressingMode::Accumulator, 0, 2)),
        0x06u8 => Some((Opcode::ASL, AddressingMode::ZeroPage, 1, 5)),
        0x16u8 => Some((Opcode::ASL, AddressingMode::ZeroPageX, 1, 6)),
        0x0eu8 => Some((Opcode::ASL, AddressingMode::Absolute, 2, 6)),
        0x1eu8 => Some((Opcode::ASL, AddressingMode::AbsoluteX, 2, 7)),
        0x90u8 => Some((Opcode::BCC, AddressingMode::Relative, 1, 2)),
        0xb0u8 => Some((Opcode::BCS, AddressingMode::Relative, 1, 2)),
        0xf0u8 => Some((Opcode::BEQ, AddressingMode::Relative, 1, 2)),
        0x24u8 => Some((Opcode::BIT, AddressingMode::ZeroPage, 1, 3)),
        0x2cu8 => Some((Opcode::BIT, AddressingMode::Absolute, 2, 4)),
        0x30u8 => Some((Opcode::BMI, AddressingMode::Relative, 1, 2)),
        0xd0u8 => Some((Opcode::BNE, AddressingMode::Relative, 1, 2)),
        0x10u8 => Some((Opcode::BPL, AddressingMode::Relative, 1, 2)),
        0x00u8 => Some((Opcode::BRK, AddressingMode::Implied, 0, 7)),
        0x50u8 => Some((Opcode::BVC, AddressingMode::Relative, 1, 2)),
        0x70u8 => Some((Opcode::BVS, AddressingMode::Relative, 1, 2)),
        0x18u8 => Some((Opcode::CLC, AddressingMode::Implied, 0, 2)),
        0xd8u8 => Some((Opcode::CLD, AddressingMode::Implied, 0, 2)),
        0x58u8 => Some((Opcode::CLI, AddressingMode::Implied, 0, 2)),
        0xb8u8 => Some((Opcode::CLV, AddressingMode::Implied, 0, 2)),
        0xc9u8 => Some((Opcode::CMP, AddressingMode::Immediate, 1, 2)),
        0xc5u8 => Some((Opcode::CMP, AddressingMode::ZeroPage, 1, 3)),
        0xd5u8 => Some((Opcode::CMP, AddressingMode::ZeroPageX, 1, 4)),
        0xcdu8 => Some((Opcode::CMP, AddressingMode::Absolute, 2, 4)),
        0xddu8 => Some((Opcode::CMP, AddressingMode::AbsoluteX, 2, 4)),
        0xd9u8 => Some((Opcode::CMP, AddressingMode::AbsoluteY, 2, 4)),
        0xc1u8 => Some((Opcode::CMP, AddressingMode::IndirectX, 1, 6)),
        0xd1u8 => Some((Opcode::CMP, AddressingMode::IndirectY, 1, 5)),
        0xe0u8 => Some((Opcode::CPX, AddressingMode::Immediate, 1, 2)),
        0xe4u8 => Some((Opcode::CPX, AddressingMode::ZeroPage, 1, 3)),
        0xecu8 => Some((Opcode::CPX, AddressingMode::Absolute, 2, 4)),
        0xc0u8 => Some((Opcode::CPY, AddressingMode::Immediate, 1, 2)),
        0xc4u8 => Some((Opcode::CPY, AddressingMode::ZeroPage, 1, 3)),
        0xccu8 => Some((Opcode::CPY, AddressingMode::Absolute, 2, 4)),
        0xc6u8 => Some((Opcode::DEC, AddressingMode::ZeroPage, 1, 5)),
        0xd6u8 => Some((Opcode::DEC, AddressingMode::ZeroPageX, 1, 6)),
        0xceu8 => Some((Opcode::DEC, AddressingMode::Absolute, 2, 6)),
        0xdeu8 => Some((Opcode::DEC, AddressingMode::AbsoluteX, 2, 7)),
        0xcau8 => Some((Opcode::DEX, AddressingMode::Implied, 0, 2)),
        0x88u8 => Some((Opcode::DEY, AddressingMode::Implied, 0, 2)),
        0x49u8 => Some((Opcode::EOR, AddressingMode::Immediate, 1, 2)),
        0x45u8 => Some((Opcode::EOR, AddressingMode::ZeroPage, 1, 3)),
        0x55u8 => Some((Opcode::EOR, AddressingMode::ZeroPageX, 1, 4)),
        0x4du8 => Some((Opcode::EOR, AddressingMode::Absolute, 2, 4)),
        0x5du8 => Some((Opcode::EOR, AddressingMode::AbsoluteX, 2, 4)),
        0x59u8 => Some((Opcode::EOR, AddressingMode::AbsoluteY, 2, 4)),
        0x41u8 => Some((Opcode::EOR, AddressingMode::IndirectX, 1, 6)),
        0x51u8 => Some((Opcode::EOR, AddressingMode::IndirectY, 1, 5)),
        0xe6u8 => Some((Opcode::INC, AddressingMode::ZeroPage, 1, 5)),
        0xf6u8 => Some((Opcode::INC, AddressingMode::ZeroPageX, 1, 6)),
        0xeeu8 => Some((Opcode::INC, AddressingMode::Absolute, 2, 6)),
        0xfeu8 => Some((Opcode::INC, AddressingMode::AbsoluteX, 2, 7)),
        0xe8u8 => Some((Opcode::INX, AddressingMode::Implied, 0, 2)),
        0xc8u8 => Some((Opcode::INY, AddressingMode::Implied, 0, 2)),
        0x4cu8 => Some((Opcode::JMP, AddressingMode::Absolute, 2, 3)),
        0x6cu8 => Some((Opcode::JMP, AddressingMode::Indirect, 2, 5)),
        0x20u8 => Some((Opcode::JSR, AddressingMode::Absolute, 2, 6)),
        0xa9u8 => Some((Opcode::LDA, AddressingMode::Immediate, 1, 2)),
        0xa5u8 => Some((Opcode::LDA, AddressingMode::ZeroPage, 1, 3)),
        0xb5u8 => Some((Opcode::LDA, AddressingMode::ZeroPageX, 1, 4)),
        0xadu8 => Some((Opcode::LDA, AddressingMode::Absolute, 2, 4)),
        0xbdu8 => Some((Opcode::LDA, AddressingMode::AbsoluteX, 2, 4)),
        0xb9u8 => Some((Opcode::LDA, AddressingMode::AbsoluteY, 2, 4)),
        0xa1u8 => Some((Opcode::LDA, AddressingMode::IndirectX, 1, 6)),
        0xb1u8 => Some((Opcode::LDA, AddressingMode::IndirectY, 1, 5)),
        0xa2u8 => Some((Opcode::LDX, AddressingMode::Immediate, 1, 2)),
        0xa6u8 => Some((Opcode::LDX, AddressingMode::ZeroPage, 1, 3)),
        0xb6u8 => Some((Opcode::LDX, AddressingMode::ZeroPageY, 1, 4)),
        0xaeu8 => Some((Opcode::LDX, AddressingMode::Absolute, 2, 4)),
        0xbeu8 => Some((Opcode::LDX, AddressingMode::AbsoluteY, 2, 4)),
        0xa0u8 => Some((Opcode::LDY, AddressingMode::Immediate, 1, 2)),
        0xa4u8 => Some((Opcode::LDY, AddressingMode::ZeroPage, 1, 3)),
        0xb4u8 => Some((Opcode::LDY, AddressingMode::ZeroPageX, 1, 4)),
        0xacu8 => Some((Opcode::LDY, AddressingMode::Absolute, 2, 4)),
        0xbcu8 => Some((Opcode::LDY, AddressingMode::AbsoluteX, 2, 4)),
        0x4au8 => Some((Opcode::LSR, AddressingMode::Accumulator, 0, 2)),
        0x46u8 => Some((Opcode::LSR, AddressingMode::ZeroPage, 1, 5)),
        0x56u8 => Some((Opcode::LSR, AddressingMode::ZeroPageX, 1, 6)),
        0x4eu8 => Some((Opcode::LSR, AddressingMode::Absolute, 2, 6)),
        0x5eu8 => Some((Opcode::LSR, AddressingMode::AbsoluteX, 2, 7)),
        0xeau8 => Some((Opcode::NOP, AddressingMode::Implied, 0, 2)),
        0x09u8 => Some((Opcode::ORA, AddressingMode::Immediate, 1, 2)),
        0x05u8 => Some((Opcode::ORA, AddressingMode::ZeroPage, 1, 3)),
        0x15u8 => Some((Opcode::ORA, AddressingMode::ZeroPageX, 1, 4)),
        0x0du8 => Some((Opcode::ORA, AddressingMode::Absolute, 2, 4)),
        0x1du8 => Some((Opcode::ORA, AddressingMode::AbsoluteX, 2, 4)),
        0x19u8 => Some((Opcode::ORA, AddressingMode::AbsoluteY, 2, 4)),
        0x01u8 => Some((Opcode::ORA, AddressingMode::IndirectX, 1, 6)),
        0x11u8 => Some((Opcode::ORA, AddressingMode::IndirectY, 1, 5)),
        0x48u8 => Some((Opcode::PHA, AddressingMode::Implied, 0, 2)),
        0x08u8 => Some((Opcode::PHP, AddressingMode::Implied, 0, 2)),
        0x68u8 => Some((Opcode::PLA, AddressingMode::Implied, 0, 2)),
        0x28u8 => Some((Opcode::PLP, AddressingMode::Implied, 0, 2)),
        0x2au8 => Some((Opcode::ROL, AddressingMode::Accumulator, 0, 2)),
        0x26u8 => Some((Opcode::ROL, AddressingMode::ZeroPage, 1, 5)),
        0x36u8 => Some((Opcode::ROL, AddressingMode::ZeroPageX, 1, 6)),
        0x2eu8 => Some((Opcode::ROL, AddressingMode::Absolute, 2, 6)),
        0x3eu8 => Some((Opcode::ROL, AddressingMode::AbsoluteX, 2, 7)),
        0x6au8 => Some((Opcode::ROR, AddressingMode::Accumulator, 0, 2)),
        0x66u8 => Some((Opcode::ROR, AddressingMode::ZeroPage, 1, 5)),
        0x76u8 => Some((Opcode::ROR, AddressingMode::ZeroPageX, 1, 6)),
        0x6eu8 => Some((Opcode::ROR, AddressingMode::Absolute, 2, 6)),
        0x7eu8 => Some((Opcode::ROR, AddressingMode::AbsoluteX, 2, 7)),
        0x40u8 => Some((Opcode::RTI, AddressingMode::Implied, 0, 6)),
        0x60u8 => Some((Opcode::RTS, AddressingMode::Implied, 0, 6)),
        0xe9u8 => Some((Opcode::SBC, AddressingMode::Immediate, 1, 2)),
        0xe5u8 => Some((Opcode::SBC, AddressingMode::ZeroPage, 1, 3)),
        0xf5u8 => Some((Opcode::SBC, AddressingMode::ZeroPageX, 1, 4)),
        0xedu8 => Some((Opcode::SBC, AddressingMode::Absolute, 2, 4)),
        0xfdu8 => Some((Opcode::SBC, AddressingMode::AbsoluteX, 2, 4)),
        0xf9u8 => Some((Opcode::SBC, AddressingMode::AbsoluteY, 2, 4)),
        0xe1u8 => Some((Opcode::SBC, AddressingMode::IndirectX, 1, 6)),
        0xf1u8 => Some((Opcode::SBC, AddressingMode::IndirectY, 1, 5)),
        0x38u8 => Some((Opcode::SEC, AddressingMode::Implied, 0, 2)),
        0xf8u8 => Some((Opcode::SED, AddressingMode::Implied, 0, 2)),
        0x78u8 => Some((Opcode::SEI, AddressingMode::Implied, 0, 2)),
        0x85u8 => Some((Opcode::STA, AddressingMode::ZeroPage, 1, 3)),
        0x95u8 => Some((Opcode::STA, AddressingMode::ZeroPageX, 1, 4)),
        0x8du8 => Some((Opcode::STA, AddressingMode::Absolute, 2, 4)),
        0x9du8 => Some((Opcode::STA, AddressingMode::AbsoluteX, 2, 5)),
        0x99u8 => Some((Opcode::STA, AddressingMode::AbsoluteY, 2, 5)),
        0x81u8 => Some((Opcode::STA, AddressingMode::IndirectX, 1, 6)),
        0x91u8 => Some((Opcode::STA, AddressingMode::IndirectY, 1, 6)),
        0x86u8 => Some((Opcode::STX, AddressingMode::ZeroPage, 1, 3)),
        0x96u8 => Some((Opcode::STX, AddressingMode::ZeroPageY, 1, 4)),
        0x8eu8 => Some((Opcode::STX, AddressingMode::Absolute, 2, 4)),
        0x84u8 => Some((Opcode::STY, AddressingMode::ZeroPage, 1, 3)),
        0x94u8 => Some((Opcode::STY, AddressingMode::ZeroPageX, 1, 4)),
        0x8cu8 => Some((Opcode::STY, AddressingMode::Absolute, 2, 4)),
        0xaau8 => Some((Opcode::TAX, AddressingMode::Implied, 0, 2)),
        0xa8u8 => Some((Opcode::TAY, AddressingMode::Implied, 0, 2)),
        0xbau8 => Some((Opcode::TSX, AddressingMode::Implied, 0, 2)),
        0x8au8 => Some((Opcode::TXA, AddressingMode::Implied, 0, 2)),
        0x9au8 => Some((Opcode::TXS, AddressingMode::Implied, 0, 2)),
        0x98u8 => Some((Opcode::TYA, AddressingMode::Implied, 0, 2)),
        _ => None,
    }
}

/// The expected outcome of a routine that may fail: `None` where it cannot
/// be carried out, and then the state is not meaningful.
pub open spec fn outcome<T>(expected: Option<(Cpu, System, T)>, cpu: Cpu, sys: System, r: Option<T>) -> bool {
    match expected {
        Some((c, s, v)) => r == Some(v) && cpu == c && sys == s,
        None => r is None,
    }
}

/// Runs the instruction routine of `op` with the effective address and the
/// byte read there; gives the registers, the bus and the extra cycles, or
/// `None` where the routine would fail.
pub open spec fn exec_spec(op: Opcode, mode: AddressingMode, cpu: Cpu, sys: System, addr: u16, data: u8) -> Option<(Cpu, System, u8)> {
    match op {
        Opcode::ADC | Opcode::SBC | Opcode::AND | Opcode::EOR | Opcode::ORA | Opcode::BIT
        | Opcode::CMP | Opcode::CPX | Opcode::CPY | Opcode::LDA | Opcode::LDX | Opcode::LDY => Some(
            (data_op(op, cpu, data), sys, 0),
        ),
        Opcode::ASL | Opcode::LSR | Opcode::ROL | Opcode::ROR | Opcode::INC | Opcode::DEC => {
            if mode == AddressingMode::Accumulator && op != Opcode::INC && op != Opcode::DEC {
                Some((implied_op(op, cpu), sys, 0))
            } else if sys.addr_ok(addr) {
                Some((rmw_op(op, cpu, data).0, sys.write_spec(addr, rmw_op(op, cpu, data).1), 0))
            } else {
                None
            }
        },
        Opcode::STA | Opcode::STX | Opcode::STY => if sys.addr_ok(addr) {
            Some((cpu, sys.write_spec(addr, store_value(op, cpu)), 0))
        } else {
            None
        },
        Opcode::BCC | Opcode::BCS | Opcode::BEQ | Opcode::BMI | Opcode::BNE | Opcode::BPL
        | Opcode::BVC | Opcode::BVS => if branch_taken(op, cpu.p) {
            Some((Cpu { pc: addr, ..cpu }, sys, 1))
        } else {
            Some((cpu, sys, 0))
        },
        Opcode::JMP => Some((Cpu { pc: addr, ..cpu }, sys, 0)),
        // the opcode's address, PC having moved past the two operand bytes
        Opcode::JSR => if cpu.pc >= 3 {
            match jsr_spec(cpu, sys, addr, (cpu.pc - 3) as u16) {
                None => None,
                Some((c, s)) => Some((c, s, 0)),
            }
        } else {
            None
        },
        Opcode::PHA | Opcode::PHP | Opcode::PLA | Opcode::PLP | Opcode::RTI | Opcode::RTS => {
            match stack_spec(op, cpu, sys) {
                None => None,
                Some((c, s)) => Some((c, s, 0)),
            }
        },
        // sets B, then raises the BRK interrupt
        Opcode::BRK => {
            let c0 = Cpu { p: flag_update(cpu.p, 0x10, true), ..cpu };
            if c0.interrupt_ok(sys, Interrupt::BRK) {
                let (c, s) = c0.interrupt_spec(sys, Interrupt::BRK);
                Some((c, s, 0))
            } else {
                None
            }
        },
        _ => Some((implied_op(op, cpu), sys, 0)),
    }
}

/// One instruction: fetch the opcode at PC and advance PC; then, for an
/// instruction with an operand, compute the effective address from the PC,
/// read the byte there and advance PC past the operand; run the routine.
/// Gives the registers, the bus and the cycles (base, addressing and
/// routine), or `None` where it cannot be carried out: an unknown opcode, a
/// read or write that the bus does not answer, or PC or SP leaving their
/// range.
pub open spec fn step_spec(cpu: Cpu, sys: System) -> Option<(Cpu, System, u8)> {
    if !(cpu.pc < 0xffff && sys.addr_ok(cpu.pc)) {
        None
    } else {
        let c1 = Cpu { pc: (cpu.pc + 1) as u16, ..cpu };
        match step_entry(sys.read_spec(cpu.pc)) {
            None => None,
            Some((op, mode, pc_incr, cycle)) => if pc_incr > 0 {
                if !c1.addressing_ok(sys, mode, c1.pc) {
                    None
                } else {
                    let (addr, extra1) = c1.addressing_spec(sys, mode, c1.pc);
                    if !(sys.addr_ok(addr) && c1.pc + pc_incr <= 0xffff) {
                        None
                    } else {
                        let c2 = Cpu { pc: (c1.pc + pc_incr) as u16, ..c1 };
                        match exec_spec(op, mode, c2, sys, addr, sys.read_spec(addr)) {
                            None => None,
                            Some((c3, s3, extra2)) => Some((c3, s3, (cycle + extra1 + extra2) as u8)),
                        }
                    }
                }
            } else {
                match exec_spec(op, mode, c1, sys, 0, 0) {
                    None => None,
                    Some((c3, s3, extra2)) => Some((c3, s3, (cycle + extra2) as u8)),
                }
            },
        }
    }
}

impl Cpu {
    /// Runs the addressing routine of `mode` where it can run.
    fn try_addressing(&self, system: &System, mode: AddressingMode, base: u16) -> (r: Option<(u16, u8)>)
        ensures
            self.addressing_ok(*system, mode, base) ==> r == Some(self.addressing_spec(*system, mode, base)),
            !self.addressing_ok(*system, mode, base) ==> r is None,
            r matches Some(x) ==> x.1 <= 1,
    {
        match mode {
            AddressingMode::Implied | AddressingMode::Accumulator => Some((0, 0)),
            AddressingMode::Immediate => Some(self.addressing_immediate(system, base)),
            AddressingMode::ZeroPage => if system.is_addr_ok(base) {
                Some(self.addressing_zero_page(system, base))
            } else {
                None
            },
            AddressingMode::ZeroPageX => if system.is_addr_ok(base) {
                Some(self.addressing_zero_page_x(system, base))
            } else {
                None
            },
            AddressingMode::ZeroPageY => if system.is_addr_ok(base) {
                Some(self.addressing_zero_page_y(system, base))
            } else {
                None
            },
            AddressingMode::Absolute | AddressingMode::AbsoluteX | AddressingMode::AbsoluteY => {
                if base < 0xffff && system.is_addr_ok(base) && system.is_addr_ok(base + 1) {
                    match mode {
                        AddressingMode::Absolute => Some(self.addressing_absolute(system, base)),
                        AddressingMode::AbsoluteX => Some(self.addressing_absolute_x(system, base)),
                        _ => Some(self.addressing_absolute_y(system, base)),
                    }
                } else {
                    None
                }
            },
            AddressingMode::Indirect => {
                if base < 0xffff && system.is_addr_ok(base) && system.is_addr_ok(base + 1) {
                    let lower = system.read_u8(base, false);
                    let upper = system.read_u8(base + 1, false);
                    let ptr = (lower as u16) | ((upper as u16) << 8u16);
                    proof { lemma_wrapping_add_u16(ptr, 1); }
                    if system.is_addr_ok(ptr) && system.is_addr_ok(ptr.wrapping_add(1)) {
                        Some(self.addressing_indirect(system, base))
                    } else {
                        None
                    }
                } else {
                    None
                }
            },
            AddressingMode::Relative => {
                if system.is_addr_ok(base) {
                    let offset = system.read_u8(base, false);
                    let target: i32 = ((offset as i8) as i32) + (self.pc as i32);
                    if 0 <= target && target < 0xffff {
                        Some(self.addressing_relative(system, base))
                    } else {
                        None
                    }
                } else {
                    None
                }
            },
            AddressingMode::IndirectX | AddressingMode::IndirectY => {
                if system.is_addr_ok(base) {
                    let d = system.read_u8(base, false);
                    let ptr: u8 = if mode == AddressingMode::IndirectX { d.wrapping_add(self.x) } else { d };
                    let ptr_next = ptr.wrapping_add(1);
                    proof {
                        lemma_wrapping_add_u8(d, self.x);
                        lemma_wrapping_add_u8(ptr, 1);
                    }
                    if system.is_addr_ok(ptr as u16) && system.is_addr_ok(ptr_next as u16) {
                        if mode == AddressingMode::IndirectX {
                            Some(self.addressing_indirect_x(system, base))
                        } else {
                            Some(self.addressing_indirect_y(system, base))
                        }
                    } else {
                        None
                    }
                } else {
                    None
                }
            },
        }
    }

    /// Whether the stack instruction `op` can run.
    fn stack_check(&self, system: &System, op: Opcode) -> (r: bool)
        requires
            op == Opcode::PHA || op == Opcode::PHP || op == Opcode::PLA || op == Opcode::PLP
                || op == Opcode::RTI || op == Opcode::RTS,
        ensures
            r == stack_spec(op, *self, *system) is Some,
    {
        match op {
            Opcode::PHA | Opcode::PHP => system.is_addr_ok(self.sp),
            Opcode::PLA | Opcode::PLP => system.is_addr_ok(pop_sp(self.sp)),
            Opcode::RTI => {
                let sp1 = pop_sp(self.sp);
                let sp2 = pop_sp(sp1);
                let sp3 = pop_sp(sp2);
                system.is_addr_ok(sp1) && system.is_addr_ok(sp2) && system.is_addr_ok(sp3)
            },
            _ => {
                let sp1 = pop_sp(self.sp);
                let sp2 = pop_sp(sp1);
                if system.is_addr_ok(sp1) && system.is_addr_ok(sp2) {
                    let lower = system.read_u8(sp1, false);
                    let upper = system.read_u8(sp2, false);
                    ((lower as u16) | ((upper as u16) << 8u16)) < 0xffff
                } else {
                    false
                }
            },
        }
    }

    /// The routines that take a data byte.
    fn execute_data(&mut self, op: Opcode, data: u8)
        requires
            op == Opcode::ADC || op == Opcode::SBC || op == Opcode::AND || op == Opcode::EOR || op
                == Opcode::ORA || op == Opcode::BIT || op == Opcode::CMP || op == Opcode::CPX || op
                == Opcode::CPY || op == Opcode::LDA || op == Opcode::LDX || op == Opcode::LDY,
        ensures
            *final(self) == data_op(op, *old(self), data),
    {
        match op {
            Opcode::ADC => { self.inst_adc(data); },
            Opcode::SBC => { self.inst_sbc(data); },
            Opcode::AND => { self.inst_and(data); },
            Opcode::EOR => { self.inst_eor(data); },
            Opcode::ORA => { self.inst_ora(data); },
            Opcode::BIT => { self.inst_bit(data); },
            Opcode::CMP => { self.inst_cmp(data); },
            Opcode::CPX => { self.inst_cpx(data); },
            Opcode::CPY => { self.inst_cpy(data); },
            Opcode::LDA => { self.inst_lda(data); },
            Opcode::LDX => { self.inst_ldx(data); },
            _ => { self.inst_ldy(data); },
        }
    }

    /// The read-modify-write routines, on A or on memory.
    fn execute_rmw(&mut self, system: &mut System, op: Opcode, mode: AddressingMode, addr: u16, data: u8) -> (r: Option<u8>)
        requires
            op == Opcode::ASL || op == Opcode::LSR || op == Opcode::ROL || op == Opcode::ROR || op
                == Opcode::INC || op == Opcode::DEC,
        ensures
            outcome(exec_spec(op, mode, *old(self), *old(system), addr, data), *final(self), *final(system), r),
            r matches Some(c) ==> c <= 1,
    {
        if mode == AddressingMode::Accumulator && op != Opcode::INC && op != Opcode::DEC {
            match op {
                Opcode::ASL => Some(self.inst_asl_a()),
                Opcode::LSR => Some(self.inst_lsr_a()),
                Opcode::ROL => Some(self.inst_rol_a()),
                _ => Some(self.inst_ror_a()),
            }
        } else if system.is_addr_ok(addr) {
            match op {
                Opcode::ASL => Some(self.inst_asl(system, addr, data)),
                Opcode::LSR => Some(self.inst_lsr(system, addr, data)),
                Opcode::ROL => Some(self.inst_rol(system, addr, data)),
                Opcode::ROR => Some(self.inst_ror(system, addr, data)),
                Opcode::INC => Some(self.inst_inc(system, addr, data)),
                _ => Some(self.inst_dec(system, addr, data)),
            }
        } else {
            None
        }
    }

    /// The branch routines.
    fn execute_branch(&mut self, op: Opcode, addr: u16) -> (cyc: u8)
        requires
            op == Opcode::BCC || op == Opcode::BCS || op == Opcode::BEQ || op == Opcode::BMI || op
                == Opcode::BNE || op == Opcode::BPL || op == Opcode::BVC || op == Opcode::BVS,
        ensures
            branch_taken(op, old(self).p) ==> *final(self) == (Cpu { pc: addr, ..*old(self) }) && cyc == 1,
            !branch_taken(op, old(self).p) ==> *final(self) == *old(self) && cyc == 0,
    {
        match op {
            Opcode::BCC => self.inst_bcc(addr),
            Opcode::BCS => self.inst_bcs(addr),
            Opcode::BEQ => self.inst_beq(addr),
            Opcode::BMI => self.inst_bmi(addr),
            Opcode::BNE => self.inst_bne(addr),
            Opcode::BPL => self.inst_bpl(addr),
            Opcode::BVC => self.inst_bvc(addr),
            _ => self.inst_bvs(addr),
        }
    }

    /// The stack routines.
    fn execute_stack(&mut self, system: &mut System, op: Opcode) -> (r: Option<u8>)
        requires
            op == Opcode::PHA || op == Opcode::PHP || op == Opcode::PLA || op == Opcode::PLP
                || op == Opcode::RTI || op == Opcode::RTS,
        ensures
            match stack_spec(op, *old(self), *old(system)) {
                Some((c, s)) => r == Some(0u8) && *final(self) == c && *final(system) == s,
                None => r is None,
            },
    {
        if !self.stack_check(system, op) {
            return None;
        }
        match op {
            Opcode::PHA => Some(self.inst_pha(system)),
            Opcode::PHP => Some(self.inst_php(system)),
            Opcode::PLA => Some(self.inst_pla(system)),
            Opcode::PLP => Some(self.inst_plp(system)),
            Opcode::RTI => Some(self.inst_rti(system)),
            _ => Some(self.inst_rts(system)),
        }
    }

    /// BRK, where its interrupt can be handled.
    #[verifier::rlimit(60)]
    fn execute_brk(&mut self, system: &mut System, mode: AddressingMode, addr: u16, data: u8) -> (r: Option<u8>)
        ensures
            outcome(exec_spec(Opcode::BRK, mode, *old(self), *old(system), addr, data), *final(self), *final(system), r),
            r matches Some(c) ==> c <= 1,
    {
        let ghost c0_spec = Cpu { p: flag_update(self.p, 0x10, true), ..*self };
        assert(exec_spec(Opcode::BRK, mode, *self, *system, addr, data) == (if c0_spec.interrupt_ok(*system, Interrupt::BRK) {
            Some((c0_spec.interrupt_spec(*system, Interrupt::BRK).0, c0_spec.interrupt_spec(*system, Interrupt::BRK).1, 0u8))
        } else {
            None
        }));
        let mut c0 = Cpu { a: self.a, x: self.x, y: self.y, pc: self.pc, sp: self.sp, p: self.p };
        c0.write_break_flag(true);
        assert(c0 == c0_spec);
        if !c0.can_interrupt(system, Interrupt::BRK) {
            return None;
        }
        let cyc = self.inst_brk(system);
        Some(cyc)
    }

    /// The routines without operand that change registers only.
    fn execute_implied(&mut self, system: &mut System, op: Opcode)
        requires
            op == Opcode::CLC || op == Opcode::CLD || op == Opcode::CLI || op == Opcode::CLV || op
                == Opcode::SEC || op == Opcode::SED || op == Opcode::SEI || op == Opcode::DEX || op
                == Opcode::DEY || op == Opcode::INX || op == Opcode::INY || op == Opcode::TAX || op
                == Opcode::TAY || op == Opcode::TSX || op == Opcode::TXA || op == Opcode::TXS || op
                == Opcode::TYA || op == Opcode::NOP,
        ensures
            *final(self) == implied_op(op, *old(self)),
            *final(system) == *old(system),
    {
        match op {
            Opcode::CLC => { self.inst_clc(); },
            Opcode::CLD => { self.inst_cld(); },
            Opcode::CLI => { self.inst_cli(); },
            Opcode::CLV => { self.inst_clv(); },
            Opcode::SEC => { self.inst_sec(); },
            Opcode::SED => { self.inst_sed(); },
            Opcode::SEI => { self.inst_sei(); },
            Opcode::DEX => { self.inst_dex(); },
            Opcode::DEY => { self.inst_dey(); },
            Opcode::INX => { self.inst_inx(); },
            Opcode::INY => { self.inst_iny(); },
            Opcode::TAX => { self.inst_tax(); },
            Opcode::TAY => { self.inst_tay(); },
            Opcode::TSX => { self.inst_tsx(); },
            Opcode::TXA => { self.inst_txa(); },
            Opcode::TXS => { self.inst_txs(); },
            Opcode::TYA => { self.inst_tya(); },
            _ => { self.inst_nop(); },
        }
    }

    /// Runs the routine of `op`.
    fn execute(&mut self, system: &mut System, op: Opcode, mode: AddressingMode, addr: u16, data: u8) -> (r: Option<u8>)
        ensures
            outcome(exec_spec(op, mode, *old(self), *old(system), addr, data), *final(self), *final(system), r),
            r matches Some(c) ==> c <= 1,
    {
        match op {
            Opcode::ADC | Opcode::SBC | Opcode::AND | Opcode::EOR | Opcode::ORA | Opcode::BIT
            | Opcode::CMP | Opcode::CPX | Opcode::CPY | Opcode::LDA | Opcode::LDX | Opcode::LDY => {
                self.execute_data(op, data);
                Some(0)
            },
            Opcode::ASL | Opcode::LSR | Opcode::ROL | Opcode::ROR | Opcode::INC | Opcode::DEC => {
                self.execute_rmw(system, op, mode, addr, data)
            },
            Opcode::STA | Opcode::STX | Opcode::STY => {
                if !system.is_addr_ok(addr) {
                    return None;
                }
                match op {
                    Opcode::STA => Some(self.inst_sta(system, addr)),
                    Opcode::STX => Some(self.inst_stx(system, addr)),
                    _ => Some(self.inst_sty(system, addr)),
                }
            },
            Opcode::BCC | Opcode::BCS | Opcode::BEQ | Opcode::BMI | Opcode::BNE | Opcode::BPL
            | Opcode::BVC | Opcode::BVS => Some(self.execute_branch(op, addr)),
            Opcode::JMP => Some(self.inst_jmp(addr)),
            Opcode::JSR => {
                if self.pc < 3 || !system.is_addr_ok(self.sp) || !system.is_addr_ok(push_sp(self.sp)) {
                    return None;
                }
                // PC has moved past the opcode and the two operand bytes
                let opcode_addr = self.pc - 3;
                Some(self.inst_jsr(system, addr, opcode_addr))
            },
            Opcode::PHA | Opcode::PHP | Opcode::PLA | Opcode::PLP | Opcode::RTI | Opcode::RTS => {
                self.execute_stack(system, op)
            },
            Opcode::BRK => self.execute_brk(system, mode, addr, data),
            _ => {
                self.execute_implied(system, op);
                Some(0)
            },
        }
    }

    /// Runs one instruction and returns its cycle count, or `None` where it
    /// cannot be carried out: an opcode byte that stands for no instruction,
    /// a read or write that the bus does not answer, or PC or SP leaving
    /// their range. After `None` the state is not meaningful.
    pub fn try_step(&mut self, system: &mut System) -> (r: Option<u8>)
        ensures
            outcome(step_spec(*old(self), *old(system)), *final(self), *final(system), r),
    {
        if !(self.pc < 0xffff && system.is_addr_ok(self.pc)) {
            return None;
        }
        let opcode = system.read_u8(self.pc, false);
        self.increment_pc(1);
        let (op, mode, pc_incr, cycle) = match step_entry_exec(opcode) {
            Some(entry) => entry,
            None => return None,
        };
        // instructions without operand (implied, accumulator) skip addressing
        let (addr, additional_cycle1, data) = if pc_incr > 0 {
            let (a, c) = match self.try_addressing(system, mode, self.pc) {
                Some(x) => x,
                None => return None,
            };
            if !(system.is_addr_ok(a) && self.pc <= 0xffff - pc_incr) {
                return None;
            }
            // BIT reads without side effects
            let d = system.read_u8(a, op == Opcode::BIT);
            self.increment_pc(pc_incr);
            (a, c, d)
        } else {
            (0u16, 0u8, 0u8)
        };
        let additional_cycle2 = match self.execute(system, op, mode, addr, data) {
            Some(c) => c,
            None => return None,
        };
        Some(cycle + additional_cycle1 + additional_cycle2)
    }

    /// Runs one instruction and returns the clock cycles it took.
    pub fn step(&mut self, system: &mut System) -> (cycles: u8)
        requires
            step_spec(*old(self), *old(system)) is Some,
        ensures
            step_spec(*old(self), *old(system)) == Some((*final(self), *final(system), cycles)),
    {
        match self.try_step(system) {
            Some(cycles) => cycles,
            None => 0,
        }
    }
}

} // verus!
