use vstd::prelude::*;
use crate::alu::{adc, asl, compare, lsr, nz, rol, ror, sbc};
use crate::cpu_instruction::{lemma_wrapping_add_u16, lemma_wrapping_add_u8, page_cycle};
use crate::cpu_register::{flag_is_set, flag_update};
use crate::nes::cpu::{word, Cpu, Interrupt};
use crate::nes::system::System;

verus! {

broadcast use System::lemma_write_keeps_mapper;

#[derive(Copy, Clone, Debug, PartialEq, Eq, Structural)]
pub enum Opcode {
    // binary op
    ADC,
    SBC,
    AND,
    EOR,
    ORA,
    // shift/rotate
    ASL,
    LSR,
    ROL,
    ROR,
    // inc/dec
    INC,
    INX,
    INY,
    DEC,
    DEX,
    DEY,
    // load/store
    LDA,
    LDX,
    LDY,
    STA,
    STX,
    STY,
    // set/clear flag
    SEC,
    SED,
    SEI,
    CLC,
    CLD,
    CLI,
    CLV,
    // compare
    CMP,
    CPX,
    CPY,
    // jump return
    JMP,
    JSR,
    RTI,
    RTS,
    // branch
    BCC,
    BCS,
    BEQ,
    BMI,
    BNE,
    BPL,
    BVC,
    BVS,
    // push/pop
    PHA,
    PHP,
    PLA,
    PLP,
    // transfer
    TAX,
    TAY,
    TSX,
    TXA,
    TXS,
    TYA,
    // other
    BRK,
    BIT,
    NOP,
}

#[derive(Copy, Clone, Debug, PartialEq, Eq, Structural)]
pub enum AddressingMode {
    Implied,
    Accumulator,
    Immediate,
    Absolute,
    ZeroPage,
    ZeroPageX,
    ZeroPageY,
    AbsoluteX,
    AbsoluteY,
    Relative,
    Indirect,
    IndirectX,
    IndirectY,
}

/// (data, cycles)
#[derive(Copy, Clone, Debug, PartialEq, Eq, Structural)]
pub struct Operand(pub u16, pub u8);

#[derive(Copy, Clone, Debug, PartialEq, Eq, Structural)]
pub struct Instruction(pub Opcode, pub AddressingMode);

/// The instruction that an opcode byte stands for; `None` for a byte that
/// stands for none.
pub open spec fn decode_spec(inst_code: u8) -> Option<Instruction> {
    match inst_code {
        0x69u8 => Some(Instruction(Opcode::ADC, AddressingMode::Immediate)),
        0x65u8 => Some(Instruction(Opcode::ADC, AddressingMode::ZeroPage)),
        0x75u8 => Some(Instruction(Opcode::ADC, AddressingMode::ZeroPageX)),
        0x6du8 => Some(Instruction(Opcode::ADC, AddressingMode::Absolute)),
        0x7du8 => Some(Instruction(Opcode::ADC, AddressingMode::AbsoluteX)),
        0x79u8 => Some(Instruction(Opcode::ADC, AddressingMode::AbsoluteY)),
        0x61u8 => Some(Instruction(Opcode::ADC, AddressingMode::IndirectX)),
        0x71u8 => Some(Instruction(Opcode::ADC, AddressingMode::IndirectY)),
        0xe9u8 => Some(Instruction(Opcode::SBC, AddressingMode::Immediate)),
        0xe5u8 => Some(Instruction(Opcode::SBC, AddressingMode::ZeroPage)),
        0xf5u8 => Some(Instruction(Opcode::SBC, AddressingMode::ZeroPageX)),
        0xedu8 => Some(Instruction(Opcode::SBC, AddressingMode::Absolute)),
        0xfdu8 => Some(Instruction(Opcode::SBC, AddressingMode::AbsoluteX)),
        0xf9u8 => Some(Instruction(Opcode::SBC, AddressingMode::AbsoluteY)),
        0xe1u8 => Some(Instruction(Opcode::SBC, AddressingMode::IndirectX)),
        0xf1u8 => Some(Instruction(Opcode::SBC, AddressingMode::IndirectY)),
        0x29u8 => Some(Instruction(Opcode::AND, AddressingMode::Immediate)),
        0x25u8 => Some(Instruction(Opcode::AND, AddressingMode::ZeroPage)),
        0x35u8 => Some(Instruction(Opcode::AND, AddressingMode::ZeroPageX)),
        0x2du8 => Some(Instruction(Opcode::AND, AddressingMode::Absolute)),
        0x3du8 => Some(Instruction(Opcode::AND, AddressingMode::AbsoluteX)),
        0x39u8 => Some(Instruction(Opcode::AND, AddressingMode::AbsoluteY)),
        0x21u8 => Some(Instruction(Opcode::AND, AddressingMode::IndirectX)),
        0x31u8 => Some(Instruction(Opcode::AND, AddressingMode::IndirectY)),
        0x49u8 => Some(Instruction(Opcode::EOR, AddressingMode::Immediate)),
        0x45u8 => Some(Instruction(Opcode::EOR, AddressingMode::ZeroPage)),
        0x55u8 => Some(Instruction(Opcode::EOR, AddressingMode::ZeroPageX)),
        0x4du8 => Some(Instruction(Opcode::EOR, AddressingMode::Absolute)),
        0x5du8 => Some(Instruction(Opcode::EOR, AddressingMode::AbsoluteX)),
        0x59u8 => Some(Instruction(Opcode::EOR, AddressingMode::AbsoluteY)),
        0x41u8 => Some(Instruction(Opcode::EOR, AddressingMode::IndirectX)),
        0x51u8 => Some(Instruction(Opcode::EOR, AddressingMode::IndirectY)),
        0x09u8 => Some(Instruction(Opcode::ORA, AddressingMode::Immediate)),
        0x05u8 => Some(Instruction(Opcode::ORA, AddressingMode::ZeroPage)),
        0x15u8 => Some(Instruction(Opcode::ORA, AddressingMode::ZeroPageX)),
        0x0du8 => Some(Instruction(Opcode::ORA, AddressingMode::Absolute)),
        0x1du8 => Some(Instruction(Opcode::ORA, AddressingMode::AbsoluteX)),
        0x19u8 => Some(Instruction(Opcode::ORA, AddressingMode::AbsoluteY)),
        0x01u8 => Some(Instruction(Opcode::ORA, AddressingMode::IndirectX)),
        0x11u8 => Some(Instruction(Opcode::ORA, AddressingMode::IndirectY)),
        0x0au8 => Some(Instruction(Opcode::ASL, AddressingMode::Accumulator)),
        0x06u8 => Some(Instruction(Opcode::ASL, AddressingMode::ZeroPage)),
        0x16u8 => Some(Instruction(Opcode::ASL, AddressingMode::ZeroPageX)),
        0x0eu8 => Some(Instruction(Opcode::ASL, AddressingMode::Absolute)),
        0x1eu8 => Some(Instruction(Opcode::ASL, AddressingMode::AbsoluteX)),
        0x4au8 => Some(Instruction(Opcode::LSR, AddressingMode::Accumulator)),
        0x46u8 => Some(Instruction(Opcode::LSR, AddressingMode::ZeroPage)),
        0x56u8 => Some(Instruction(Opcode::LSR, AddressingMode::ZeroPageX)),
        0x4eu8 => Some(Instruction(Opcode::LSR, AddressingMode::Absolute)),
        0x5eu8 => Some(Instruction(Opcode::LSR, AddressingMode::AbsoluteX)),
        0x2au8 => Some(Instruction(Opcode::ROL, AddressingMode::Accumulator)),
        0x26u8 => Some(Instruction(Opcode::ROL, AddressingMode::ZeroPage)),
        0x36u8 => Some(Instruction(Opcode::ROL, AddressingMode::ZeroPageX)),
        0x2eu8 => Some(Instruction(Opcode::ROL, AddressingMode::Absolute)),
        0x3eu8 => Some(Instruction(Opcode::ROL, AddressingMode::AbsoluteX)),
        0x6au8 => Some(Instruction(Opcode::ROR, AddressingMode::Accumulator)),
        0x66u8 => Some(Instruction(Opcode::ROR, AddressingMode::ZeroPage)),
        0x76u8 => Some(Instruction(Opcode::ROR, AddressingMode::ZeroPageX)),
        0x6eu8 => Some(Instruction(Opcode::ROR, AddressingMode::Absolute)),
        0x7eu8 => Some(Instruction(Opcode::ROR, AddressingMode::AbsoluteX)),
        0xe6u8 => Some(Instruction(Opcode::INC, AddressingMode::ZeroPage)),
        0xf6u8 => Some(Instruction(Opcode::INC, AddressingMode::ZeroPageX)),
        0xeeu8 => Some(Instruction(Opcode::INC, AddressingMode::Absolute)),
        0xfeu8 => Some(Instruction(Opcode::INC, AddressingMode::AbsoluteX)),
        0xe8u8 => Some(Instruction(Opcode::INX, AddressingMode::Implied)),
        0xc8u8 => Some(Instruction(Opcode::INY, AddressingMode::Implied)),
        0xc6u8 => Some(Instruction(Opcode::DEC, AddressingMode::ZeroPage)),
        0xd6u8 => Some(Instruction(Opcode::DEC, AddressingMode::ZeroPageX)),
        0xceu8 => Some(Instruction(Opcode::DEC, AddressingMode::Absolute)),
        0xdeu8 => Some(Instruction(Opcode::DEC, AddressingMode::AbsoluteX)),
        0xcau8 => Some(Instruction(Opcode::DEX, AddressingMode::Implied)),
        0x88u8 => Some(Instruction(Opcode::DEY, AddressingMode::Implied)),
        0xa9u8 => Some(Instruction(Opcode::LDA, AddressingMode::Immediate)),
        0xa5u8 => Some(Instruction(Opcode::LDA, AddressingMode::ZeroPage)),
        0xb5u8 => Some(Instruction(Opcode::LDA, AddressingMode::ZeroPageX)),
        0xadu8 => Some(Instruction(Opcode::LDA, AddressingMode::Absolute)),
        0xbdu8 => Some(Instruction(Opcode::LDA, AddressingMode::AbsoluteX)),
        0xb9u8 => Some(Instruction(Opcode::LDA, AddressingMode::AbsoluteY)),
        0xa1u8 => Some(Instruction(Opcode::LDA, AddressingMode::IndirectX)),
        0xb1u8 => Some(Instruction(Opcode::LDA, AddressingMode::IndirectY)),
        0xa2u8 => Some(Instruction(Opcode::LDX, AddressingMode::Immediate)),
        0xa6u8 => Some(Instruction(Opcode::LDX, AddressingMode::ZeroPage)),
        0xb6u8 => Some(Instruction(Opcode::LDX, AddressingMode::ZeroPageY)),
        0xaeu8 => Some(Instruction(Opcode::LDX, AddressingMode::Absolute)),
        0xbeu8 => Some(Instruction(Opcode::LDX, AddressingMode::AbsoluteY)),
        0xa0u8 => Some(Instruction(Opcode::LDY, AddressingMode::Immediate)),
        0xa4u8 => Some(Instruction(Opcode::LDY, AddressingMode::ZeroPage)),
        0xb4u8 => Some(Instruction(Opcode::LDY, AddressingMode::ZeroPageX)),
        0xacu8 => Some(Instruction(Opcode::LDY, AddressingMode::Absolute)),
        0xbcu8 => Some(Instruction(Opcode::LDY, AddressingMode::AbsoluteX)),
        0x85u8 => Some(Instruction(Opcode::STA, AddressingMode::ZeroPage)),
        0x95u8 => Some(Instruction(Opcode::STA, AddressingMode::ZeroPageX)),
        0x8du8 => Some(Instruction(Opcode::STA, AddressingMode::Absolute)),
        0x9du8 => Some(Instruction(Opcode::STA, AddressingMode::AbsoluteX)),
        0x99u8 => Some(Instruction(Opcode::STA, AddressingMode::AbsoluteY)),
        0x81u8 => Some(Instruction(Opcode::STA, AddressingMode::IndirectX)),
        0x91u8 => Some(Instruction(Opcode::STA, AddressingMode::IndirectY)),
        0x86u8 => Some(Instruction(Opcode::STX, AddressingMode::ZeroPage)),
        0x96u8 => Some(Instruction(Opcode::STX, AddressingMode::ZeroPageY)),
        0x8eu8 => Some(Instruction(Opcode::STX, AddressingMode::Absolute)),
        0x84u8 => Some(Instruction(Opcode::STY, AddressingMode::ZeroPage)),
        0x94u8 => Some(Instruction(Opcode::STY, AddressingMode::ZeroPageX)),
        0x8cu8 => Some(Instruction(Opcode::STY, AddressingMode::Absolute)),
        0x38u8 => Some(Instruction(Opcode::SEC, AddressingMode::Implied)),
        0xf8u8 => Some(Instruction(Opcode::SED, AddressingMode::Implied)),
        0x78u8 => Some(Instruction(Opcode::SEI, AddressingMode::Implied)),
        0x18u8 => Some(Instruction(Opcode::CLC, AddressingMode::Implied)),
        0xd8u8 => Some(Instruction(Opcode::CLD, AddressingMode::Implied)),
        0x58u8 => Some(Instruction(Opcode::CLI, AddressingMode::Implied)),
        0xb8u8 => Some(Instruction(Opcode::CLV, AddressingMode::Implied)),
        0xc9u8 => Some(Instruction(Opcode::CMP, AddressingMode::Immediate)),
        0xc5u8 => Some(Instruction(Opcode::CMP, AddressingMode::ZeroPage)),
        0xd5u8 => Some(Instruction(Opcode::CMP, AddressingMode::ZeroPageX)),
        0xcdu8 => Some(Instruction(Opcode::CMP, AddressingMode::Absolute)),
        0xddu8 => Some(Instruction(Opcode::CMP, AddressingMode::AbsoluteX)),
        0xd9u8 => Some(Instruction(Opcode::CMP, AddressingMode::AbsoluteY)),
        0xc1u8 => Some(Instruction(Opcode::CMP, AddressingMode::IndirectX)),
        0xd1u8 => Some(Instruction(Opcode::CMP, AddressingMode::IndirectY)),
        0xe0u8 => Some(Instruction(Opcode::CPX, AddressingMode::Immediate)),
        0xe4u8 => Some(Instruction(Opcode::CPX, AddressingMode::ZeroPage)),
        0xecu8 => Some(Instruction(Opcode::CPX, AddressingMode::Absolute)),
        0xc0u8 => Some(Instruction(Opcode::CPY, AddressingMode::Immediate)),
        0xc4u8 => Some(Instruction(Opcode::CPY, AddressingMode::ZeroPage)),
        0xccu8 => Some(Instruction(Opcode::CPY, AddressingMode::Absolute)),
        0x4cu8 => Some(Instruction(Opcode::JMP, AddressingMode::Absolute)),
        0x6cu8 => Some(Instruction(Opcode::JMP, AddressingMode::Indirect)),
        0x20u8 => Some(Instruction(Opcode::JSR, AddressingMode::Absolute)),
        0x40u8 => Some(Instruction(Opcode::RTI, AddressingMode::Implied)),
        0x60u8 => Some(Instruction(Opcode::RTS, AddressingMode::Implied)),
        0x90u8 => Some(Instruction(Opcode::BCC, AddressingMode::Relative)),
        0xb0u8 => Some(Instruction(Opcode::BCS, AddressingMode::Relative)),
        0xf0u8 => Some(Instruction(Opcode::BEQ, AddressingMode::Relative)),
        0x30u8 => Some(Instruction(Opcode::BMI, AddressingMode::Relative)),
        0xd0u8 => Some(Instruction(Opcode::BNE, AddressingMode::Relative)),
        0x10u8 => Some(Instruction(Opcode::BPL, AddressingMode::Relative)),
        0x50u8 => Some(Instruction(Opcode::BVC, AddressingMode::Relative)),
        0x70u8 => Some(Instruction(Opcode::BVS, AddressingMode::Relative)),
        0x48u8 => Some(Instruction(Opcode::PHA, AddressingMode::Implied)),
        0x08u8 => Some(Instruction(Opcode::PHP, AddressingMode::Implied)),
        0x68u8 => Some(Instruction(Opcode::PLA, AddressingMode::Implied)),
        0x28u8 => Some(Instruction(Opcode::PLP, AddressingMode::Implied)),
        0xaau8 => Some(Instruction(Opcode::TAX, AddressingMode::Implied)),
        0xa8u8 => Some(Instruction(Opcode::TAY, AddressingMode::Implied)),
        0xbau8 => Some(Instruction(Opcode::TSX, AddressingMode::Implied)),
        0x8au8 => Some(Instruction(Opcode::TXA, AddressingMode::Implied)),
        0x9au8 => Some(Instruction(Opcode::TXS, AddressingMode::Implied)),
        0x98u8 => Some(Instruction(Opcode::TYA, AddressingMode::Implied)),
        0x00u8 => Some(Instruction(Opcode::BRK, AddressingMode::Implied)),
        0x24u8 => Some(Instruction(Opcode::BIT, AddressingMode::ZeroPage)),
        0x2cu8 => Some(Instruction(Opcode::BIT, AddressingMode::Absolute)),
        0xeau8 => Some(Instruction(Opcode::NOP, AddressingMode::Absolute)),
        _ => None,
    }
}

impl Instruction {
    /// Decodes an opcode byte of the ROM.
    pub fn from(inst_code: u8) -> (inst: Instruction)
        requires
            decode_spec(inst_code) is Some,
        ensures
            decode_spec(inst_code) == Some(inst),
    {
        match inst_code {
            0x69u8 => Instruction(Opcode::ADC, AddressingMode::Immediate),
            0x65u8 => Instruction(Opcode::ADC, AddressingMode::ZeroPage),
            0x75u8 => Instruction(Opcode::ADC, AddressingMode::ZeroPageX),
            0x6du8 => Instruction(Opcode::ADC, AddressingMode::Absolute),
            0x7du8 => Instruction(Opcode::ADC, AddressingMode::AbsoluteX),
            0x79u8 => Instruction(Opcode::ADC, AddressingMode::AbsoluteY),
            0x61u8 => Instruction(Opcode::ADC, AddressingMode::IndirectX),
            0x71u8 => Instruction(Opcode::ADC, AddressingMode::IndirectY),
            0xe9u8 => Instruction(Opcode::SBC, AddressingMode::Immediate),
            0xe5u8 => Instruction(Opcode::SBC, AddressingMode::ZeroPage),
            0xf5u8 => Instruction(Opcode::SBC, AddressingMode::ZeroPageX),
            0xedu8 => Instruction(Opcode::SBC, AddressingMode::Absolute),
            0xfdu8 => Instruction(Opcode::SBC, AddressingMode::AbsoluteX),
            0xf9u8 => Instruction(Opcode::SBC, AddressingMode::AbsoluteY),
            0xe1u8 => Instruction(Opcode::SBC, AddressingMode::IndirectX),
            0xf1u8 => Instruction(Opcode::SBC, AddressingMode::IndirectY),
            0x29u8 => Instruction(Opcode::AND, AddressingMode::Immediate),
            0x25u8 => Instruction(Opcode::AND, AddressingMode::ZeroPage),
            0x35u8 => Instruction(Opcode::AND, AddressingMode::ZeroPageX),
            0x2du8 => Instruction(Opcode::AND, AddressingMode::Absolute),
            0x3du8 => Instruction(Opcode::AND, AddressingMode::AbsoluteX),
            0x39u8 => Instruction(Opcode::AND, AddressingMode::AbsoluteY),
            0x21u8 => Instruction(Opcode::AND, AddressingMode::IndirectX),
            0x31u8 => Instruction(Opcode::AND, AddressingMode::IndirectY),
            0x49u8 => Instruction(Opcode::EOR, AddressingMode::Immediate),
            0x45u8 => Instruction(Opcode::EOR, AddressingMode::ZeroPage),
            0x55u8 => Instruction(Opcode::EOR, AddressingMode::ZeroPageX),
            0x4du8 => Instruction(Opcode::EOR, AddressingMode::Absolute),
            0x5du8 => Instruction(Opcode::EOR, AddressingMode::AbsoluteX),
            0x59u8 => Instruction(Opcode::EOR, AddressingMode::AbsoluteY),
            0x41u8 => Instruction(Opcode::EOR, AddressingMode::IndirectX),
            0x51u8 => Instruction(Opcode::EOR, AddressingMode::IndirectY),
            0x09u8 => Instruction(Opcode::ORA, AddressingMode::Immediate),
            0x05u8 => Instruction(Opcode::ORA, AddressingMode::ZeroPage),
            0x15u8 => Instruction(Opcode::ORA, AddressingMode::ZeroPageX),
            0x0du8 => Instruction(Opcode::ORA, AddressingMode::Absolute),
            0x1du8 => Instruction(Opcode::ORA, AddressingMode::AbsoluteX),
            0x19u8 => Instruction(Opcode::ORA, AddressingMode::AbsoluteY),
            0x01u8 => Instruction(Opcode::ORA, AddressingMode::IndirectX),
            0x11u8 => Instruction(Opcode::ORA, AddressingMode::IndirectY),
            0x0au8 => Instruction(Opcode::ASL, AddressingMode::Accumulator),
            0x06u8 => Instruction(Opcode::ASL, AddressingMode::ZeroPage),
            0x16u8 => Instruction(Opcode::ASL, AddressingMode::ZeroPageX),
            0x0eu8 => Instruction(Opcode::ASL, AddressingMode::Absolute),
            0x1eu8 => Instruction(Opcode::ASL, AddressingMode::AbsoluteX),
            0x4au8 => Instruction(Opcode::LSR, AddressingMode::Accumulator),
            0x46u8 => Instruction(Opcode::LSR, AddressingMode::ZeroPage),
            0x56u8 => Instruction(Opcode::LSR, AddressingMode::ZeroPageX),
            0x4eu8 => Instruction(Opcode::LSR, AddressingMode::Absolute),
            0x5eu8 => Instruction(Opcode::LSR, AddressingMode::AbsoluteX),
            0x2au8 => Instruction(Opcode::ROL, AddressingMode::Accumulator),
            0x26u8 => Instruction(Opcode::ROL, AddressingMode::ZeroPage),
            0x36u8 => Instruction(Opcode::ROL, AddressingMode::ZeroPageX),
            0x2eu8 => Instruction(Opcode::ROL, AddressingMode::Absolute),
            0x3eu8 => Instruction(Opcode::ROL, AddressingMode::AbsoluteX),
            0x6au8 => Instruction(Opcode::ROR, AddressingMode::Accumulator),
            0x66u8 => Instruction(Opcode::ROR, AddressingMode::ZeroPage),
            0x76u8 => Instruction(Opcode::ROR, AddressingMode::ZeroPageX),
            0x6eu8 => Instruction(Opcode::ROR, AddressingMode::Absolute),
            0x7eu8 => Instruction(Opcode::ROR, AddressingMode::AbsoluteX),
            0xe6u8 => Instruction(Opcode::INC, AddressingMode::ZeroPage),
            0xf6u8 => Instruction(Opcode::INC, AddressingMode::ZeroPageX),
            0xeeu8 => Instruction(Opcode::INC, AddressingMode::Absolute),
            0xfeu8 => Instruction(Opcode::INC, AddressingMode::AbsoluteX),
            0xe8u8 => Instruction(Opcode::INX, AddressingMode::Implied),
            0xc8u8 => Instruction(Opcode::INY, AddressingMode::Implied),
            0xc6u8 => Instruction(Opcode::DEC, AddressingMode::ZeroPage),
            0xd6u8 => Instruction(Opcode::DEC, AddressingMode::ZeroPageX),
            0xceu8 => Instruction(Opcode::DEC, AddressingMode::Absolute),
            0xdeu8 => Instruction(Opcode::DEC, AddressingMode::AbsoluteX),
            0xcau8 => Instruction(Opcode::DEX, AddressingMode::Implied),
            0x88u8 => Instruction(Opcode::DEY, AddressingMode::Implied),
            0xa9u8 => Instruction(Opcode::LDA, AddressingMode::Immediate),
            0xa5u8 => Instruction(Opcode::LDA, AddressingMode::ZeroPage),
            0xb5u8 => Instruction(Opcode::LDA, AddressingMode::ZeroPageX),
            0xadu8 => Instruction(Opcode::LDA, AddressingMode::Absolute),
            0xbdu8 => Instruction(Opcode::LDA, AddressingMode::AbsoluteX),
            0xb9u8 => Instruction(Opcode::LDA, AddressingMode::AbsoluteY),
            0xa1u8 => Instruction(Opcode::LDA, AddressingMode::IndirectX),
            0xb1u8 => Instruction(Opcode::LDA, AddressingMode::IndirectY),
            0xa2u8 => Instruction(Opcode::LDX, AddressingMode::Immediate),
            0xa6u8 => Instruction(Opcode::LDX, AddressingMode::ZeroPage),
            0xb6u8 => Instruction(Opcode::LDX, AddressingMode::ZeroPageY),
            0xaeu8 => Instruction(Opcode::LDX, AddressingMode::Absolute),
            0xbeu8 => Instruction(Opcode::LDX, AddressingMode::AbsoluteY),
            0xa0u8 => Instruction(Opcode::LDY, AddressingMode::Immediate),
            0xa4u8 => Instruction(Opcode::LDY, AddressingMode::ZeroPage),
            0xb4u8 => Instruction(Opcode::LDY, AddressingMode::ZeroPageX),
            0xacu8 => Instruction(Opcode::LDY, AddressingMode::Absolute),
            0xbcu8 => Instruction(Opcode::LDY, AddressingMode::AbsoluteX),
            0x85u8 => Instruction(Opcode::STA, AddressingMode::ZeroPage),
            0x95u8 => Instruction(Opcode::STA, AddressingMode::ZeroPageX),
            0x8du8 => Instruction(Opcode::STA, AddressingMode::Absolute),
            0x9du8 => Instruction(Opcode::STA, AddressingMode::AbsoluteX),
            0x99u8 => Instruction(Opcode::STA, AddressingMode::AbsoluteY),
            0x81u8 => Instruction(Opcode::STA, AddressingMode::IndirectX),
            0x91u8 => Instruction(Opcode::STA, AddressingMode::IndirectY),
            0x86u8 => Instruction(Opcode::STX, AddressingMode::ZeroPage),
            0x96u8 => Instruction(Opcode::STX, AddressingMode::ZeroPageY),
            0x8eu8 => Instruction(Opcode::STX, AddressingMode::Absolute),
            0x84u8 => Instruction(Opcode::STY, AddressingMode::ZeroPage),
            0x94u8 => Instruction(Opcode::STY, AddressingMode::ZeroPageX),
            0x8cu8 => Instruction(Opcode::STY, AddressingMode::Absolute),
            0x38u8 => Instruction(Opcode::SEC, AddressingMode::Implied),
            0xf8u8 => Instruction(Opcode::SED, AddressingMode::Implied),
            0x78u8 => Instruction(Opcode::SEI, AddressingMode::Implied),
            0x18u8 => Instruction(Opcode::CLC, AddressingMode::Implied),
            0xd8u8 => Instruction(Opcode::CLD, AddressingMode::Implied),
            0x58u8 => Instruction(Opcode::CLI, AddressingMode::Implied),
            0xb8u8 => Instruction(Opcode::CLV, AddressingMode::Implied),
            0xc9u8 => Instruction(Opcode::CMP, AddressingMode::Immediate),
            0xc5u8 => Instruction(Opcode::CMP, AddressingMode::ZeroPage),
            0xd5u8 => Instruction(Opcode::CMP, AddressingMode::ZeroPageX),
            0xcdu8 => Instruction(Opcode::CMP, AddressingMode::Absolute),
            0xddu8 => Instruction(Opcode::CMP, AddressingMode::AbsoluteX),
            0xd9u8 => Instruction(Opcode::CMP, AddressingMode::AbsoluteY),
            0xc1u8 => Instruction(Opcode::CMP, AddressingMode::IndirectX),
            0xd1u8 => Instruction(Opcode::CMP, AddressingMode::IndirectY),
            0xe0u8 => Instruction(Opcode::CPX, AddressingMode::Immediate),
            0xe4u8 => Instruction(Opcode::CPX, AddressingMode::ZeroPage),
            0xecu8 => Instruction(Opcode::CPX, AddressingMode::Absolute),
            0xc0u8 => Instruction(Opcode::CPY, AddressingMode::Immediate),
            0xc4u8 => Instruction(Opcode::CPY, AddressingMode::ZeroPage),
            0xccu8 => Instruction(Opcode::CPY, AddressingMode::Absolute),
            0x4cu8 => Instruction(Opcode::JMP, AddressingMode::Absolute),
            0x6cu8 => Instruction(Opcode::JMP, AddressingMode::Indirect),
            0x20u8 => Instruction(Opcode::JSR, AddressingMode::Absolute),
            0x40u8 => Instruction(Opcode::RTI, AddressingMode::Implied),
            0x60u8 => Instruction(Opcode::RTS, AddressingMode::Implied),
            0x90u8 => Instruction(Opcode::BCC, AddressingMode::Relative),
            0xb0u8 => Instruction(Opcode::BCS, AddressingMode::Relative),
            0xf0u8 => Instruction(Opcode::BEQ, AddressingMode::Relative),
            0x30u8 => Instruction(Opcode::BMI, AddressingMode::Relative),
            0xd0u8 => Instruction(Opcode::BNE, AddressingMode::Relative),
            0x10u8 => Instruction(Opcode::BPL, AddressingMode::Relative),
            0x50u8 => Instruction(Opcode::BVC, AddressingMode::Relative),
            0x70u8 => Instruction(Opcode::BVS, AddressingMode::Relative),
            0x48u8 => Instruction(Opcode::PHA, AddressingMode::Implied),
            0x08u8 => Instruction(Opcode::PHP, AddressingMode::Implied),
            0x68u8 => Instruction(Opcode::PLA, AddressingMode::Implied),
            0x28u8 => Instruction(Opcode::PLP, AddressingMode::Implied),
            0xaau8 => Instruction(Opcode::TAX, AddressingMode::Implied),
            0xa8u8 => Instruction(Opcode::TAY, AddressingMode::Implied),
            0xbau8 => Instruction(Opcode::TSX, AddressingMode::Implied),
            0x8au8 => Instruction(Opcode::TXA, AddressingMode::Implied),
            0x9au8 => Instruction(Opcode::TXS, AddressingMode::Implied),
            0x98u8 => Instruction(Opcode::TYA, AddressingMode::Implied),
            0x00u8 => Instruction(Opcode::BRK, AddressingMode::Implied),
            0x24u8 => Instruction(Opcode::BIT, AddressingMode::ZeroPage),
            0x2cu8 => Instruction(Opcode::BIT, AddressingMode::Absolute),
            0xeau8 => Instruction(Opcode::NOP, AddressingMode::Absolute),
            _ => Instruction(Opcode::NOP, AddressingMode::Implied),
        }
    }
}

/// BIT: N from bit 7 and V from bit 6 of M; Z is set when A & M is zero.
pub open spec fn bit_spec(a: u8, m: u8, p: u8) -> u8 {
    let n = m & 0x80u8 == 0x80u8;
    let v = m & 0x40u8 == 0x40u8;
    flag_update(flag_update(flag_update(p, 0x80, n), 0x02, a & m == 0u8), 0x40, v)
}

/// An instruction that takes a data byte and changes registers only.
pub open spec fn data_op(op: Opcode, cpu: Cpu, arg: u8) -> Cpu {
    match op {
        Opcode::ADC => Cpu { a: adc(cpu.a, arg, cpu.p).0, p: adc(cpu.a, arg, cpu.p).1, ..cpu },
        Opcode::SBC => Cpu { a: sbc(cpu.a, arg, cpu.p).0, p: sbc(cpu.a, arg, cpu.p).1, ..cpu },
        Opcode::AND => Cpu { a: cpu.a & arg, p: nz(cpu.p, cpu.a & arg), ..cpu },
        Opcode::EOR => Cpu { a: cpu.a ^ arg, p: nz(cpu.p, cpu.a ^ arg), ..cpu },
        Opcode::ORA => Cpu { a: cpu.a | arg, p: nz(cpu.p, cpu.a | arg), ..cpu },
        Opcode::BIT => Cpu { p: bit_spec(cpu.a, arg, cpu.p), ..cpu },
        Opcode::CMP => Cpu { p: compare(cpu.a, arg, cpu.p), ..cpu },
        Opcode::CPX => Cpu { p: compare(cpu.x, arg, cpu.p), ..cpu },
        Opcode::CPY => Cpu { p: compare(cpu.y, arg, cpu.p), ..cpu },
        Opcode::LDA => Cpu { a: arg, p: nz(cpu.p, arg), ..cpu },
        Opcode::LDX => Cpu { x: arg, p: nz(cpu.p, arg), ..cpu },
        Opcode::LDY => Cpu { y: arg, p: nz(cpu.p, arg), ..cpu },
        _ => cpu,
    }
}

/// An instruction without operand that changes registers only; the shifts
/// and rotations work on A here.
pub open spec fn implied_op(op: Opcode, cpu: Cpu) -> Cpu {
    match op {
        Opcode::ASL => Cpu { a: asl(cpu.a, cpu.p).0, p: asl(cpu.a, cpu.p).1, ..cpu },
        Opcode::LSR => Cpu { a: lsr(cpu.a, cpu.p).0, p: lsr(cpu.a, cpu.p).1, ..cpu },
        Opcode::ROL => Cpu { a: rol(cpu.a, cpu.p).0, p: rol(cpu.a, cpu.p).1, ..cpu },
        Opcode::ROR => Cpu { a: ror(cpu.a, cpu.p).0, p: ror(cpu.a, cpu.p).1, ..cpu },
        Opcode::CLC => Cpu { p: flag_update(cpu.p, 0x01, false), ..cpu },
        Opcode::CLD => Cpu { p: flag_update(cpu.p, 0x08, false), ..cpu },
        Opcode::CLI => Cpu { p: flag_update(cpu.p, 0x04, false), ..cpu },
        Opcode::CLV => Cpu { p: flag_update(cpu.p, 0x40, false), ..cpu },
        Opcode::SEC => Cpu { p: flag_update(cpu.p, 0x01, true), ..cpu },
        Opcode::SED => Cpu { p: flag_update(cpu.p, 0x08, true), ..cpu },
        Opcode::SEI => Cpu { p: flag_update(cpu.p, 0x04, true), ..cpu },
        Opcode::DEX => {
            let r = ((cpu.x - 1) % 256) as u8;
            Cpu { x: r, p: nz(cpu.p, r), ..cpu }
        },
        Opcode::DEY => {
            let r = ((cpu.y - 1) % 256) as u8;
            Cpu { y: r, p: nz(cpu.p, r), ..cpu }
        },
        Opcode::INX => {
            let r = ((cpu.x + 1) % 256) as u8;
            Cpu { x: r, p: nz(cpu.p, r), ..cpu }
        },
        Opcode::INY => {
            let r = ((cpu.y + 1) % 256) as u8;
            Cpu { y: r, p: nz(cpu.p, r), ..cpu }
        },
        Opcode::TAX => Cpu { x: cpu.a, p: nz(cpu.p, cpu.a), ..cpu },
        Opcode::TAY => Cpu { y: cpu.a, p: nz(cpu.p, cpu.a), ..cpu },
        Opcode::TSX => {
            let r = (cpu.sp & 0xffu16) as u8;
            Cpu { x: r, p: nz(cpu.p, r), ..cpu }
        },
        Opcode::TXA => Cpu { a: cpu.x, p: nz(cpu.p, cpu.x), ..cpu },
        Opcode::TXS => Cpu { sp: (cpu.x as u16) | 0x0100u16, ..cpu },
        Opcode::TYA => Cpu { a: cpu.y, p: nz(cpu.p, cpu.y), ..cpu },
        _ => cpu,
    }
}

/// A read-modify-write instruction on memory: the registers after it and the
/// byte it writes back.
pub open spec fn rmw_op(op: Opcode, cpu: Cpu, arg: u8) -> (Cpu, u8) {
    match op {
        Opcode::ASL => (Cpu { p: asl(arg, cpu.p).1, ..cpu }, asl(arg, cpu.p).0),
        Opcode::LSR => (Cpu { p: lsr(arg, cpu.p).1, ..cpu }, lsr(arg, cpu.p).0),
        Opcode::ROL => (Cpu { p: rol(arg, cpu.p).1, ..cpu }, rol(arg, cpu.p).0),
        Opcode::ROR => (Cpu { p: ror(arg, cpu.p).1, ..cpu }, ror(arg, cpu.p).0),
        Opcode::INC => {
            let r = ((arg + 1) % 256) as u8;
            (Cpu { p: nz(cpu.p, r), ..cpu }, r)
        },
        Opcode::DEC => {
            let r = ((arg - 1) % 256) as u8;
            (Cpu { p: nz(cpu.p, r), ..cpu }, r)
        },
        _ => (cpu, arg),
    }
}

/// The register that a store instruction writes.
pub open spec fn store_value(op: Opcode, cpu: Cpu) -> u8 {
    match op {
        Opcode::STX => cpu.x,
        Opcode::STY => cpu.y,
        _ => cpu.a,
    }
}

/// Whether a branch instruction branches.
pub open spec fn branch_taken(op: Opcode, p: u8) -> bool {
    match op {
        Opcode::BCC => !flag_is_set(p, 0x01),
        Opcode::BCS => flag_is_set(p, 0x01),
        Opcode::BEQ => flag_is_set(p, 0x02),
        Opcode::BMI => flag_is_set(p, 0x80),
        Opcode::BNE => !flag_is_set(p, 0x02),
        Opcode::BPL => !flag_is_set(p, 0x80),
        Opcode::BVC => !flag_is_set(p, 0x40),
        Opcode::BVS => flag_is_set(p, 0x40),
        _ => false,
    }
}

/// A pop, where one can be made.
pub open spec fn pop_opt(cpu: Cpu, sys: System) -> Option<(Cpu, u8)> {
    if cpu.pop_ok(sys) {
        Some(cpu.pop_spec(sys))
    } else {
        None
    }
}

/// A push, where one can be made.
pub open spec fn push_opt(cpu: Cpu, sys: System, data: u8) -> Option<(Cpu, System)> {
    if cpu.push_ok(sys) {
        Some(cpu.push_spec(sys, data))
    } else {
        None
    }
}

/// The stack instructions; `None` where a push or pop cannot be made or the
/// return address of RTS overflows.
pub open spec fn stack_spec(op: Opcode, cpu: Cpu, sys: System) -> Option<(Cpu, System)> {
    match op {
        Opcode::PHA => push_opt(cpu, sys, cpu.a),
        Opcode::PHP => push_opt(cpu, sys, cpu.p),
        Opcode::PLA => match pop_opt(cpu, sys) {
            None => None,
            Some((c, d)) => Some((Cpu { a: d, p: nz(c.p, d), ..c }, sys)),
        },
        Opcode::PLP => match pop_opt(cpu, sys) {
            None => None,
            Some((c, d)) => Some((Cpu { p: d, ..c }, sys)),
        },
        Opcode::RTI => match pop_opt(cpu, sys) {
            None => None,
            Some((c1, p)) => match pop_opt(Cpu { p: p, ..c1 }, sys) {
                None => None,
                Some((c2, lower)) => match pop_opt(c2, sys) {
                    None => None,
                    Some((c3, upper)) => Some((Cpu { pc: word(lower, upper), ..c3 }, sys)),
                },
            },
        },
        Opcode::RTS => match pop_opt(cpu, sys) {
            None => None,
            Some((c1, lower)) => match pop_opt(c1, sys) {
                None => None,
                Some((c2, upper)) => if word(lower, upper) < 0xffff {
                    Some((Cpu { pc: (word(lower, upper) + 1) as u16, ..c2 }, sys))
                } else {
                    None
                },
            },
        },
        _ => None,
    }
}

/// JSR: pushes the return address (the opcode's address + 2), high byte
/// first, and jumps.
pub open spec fn jsr_spec(cpu: Cpu, sys: System, dst_addr: u16, opcode_addr: u16) -> Option<(Cpu, System)> {
    if opcode_addr + 2 > 0xffff {
        None
    } else {
        let ret_addr = (opcode_addr + 2) as u16;
        match push_opt(cpu, sys, (ret_addr >> 8u16) as u8) {
            None => None,
            Some((c1, s1)) => match push_opt(c1, s1, (ret_addr & 0xffu16) as u8) {
                None => None,
                Some((c2, s2)) => Some((Cpu { pc: dst_addr, ..c2 }, s2)),
            },
        }
    }
}

/// Fetches the byte at PC and advances PC.
pub open spec fn fetch_u8_spec(cpu: Cpu, sys: System) -> Option<(Cpu, u8)> {
    if cpu.pc < 0xffff && sys.addr_ok(cpu.pc) {
        Some((Cpu { pc: (cpu.pc + 1) as u16, ..cpu }, sys.read_spec(cpu.pc)))
    } else {
        None
    }
}

/// Fetches two bytes at PC, low byte first.
pub open spec fn fetch_u16_spec(cpu: Cpu, sys: System) -> Option<(Cpu, u16)> {
    match fetch_u8_spec(cpu, sys) {
        None => None,
        Some((c1, lower)) => match fetch_u8_spec(c1, sys) {
            None => None,
            Some((c2, upper)) => Some((c2, word(lower, upper))),
        },
    }
}

/// A pointer read through the bus, where the bus answers both bytes.
pub open spec fn read_pointer(sys: System, lower_addr: u16, upper_addr: u16) -> Option<u16> {
    if sys.addr_ok(lower_addr) && sys.addr_ok(upper_addr) {
        Some(word(sys.read_spec(lower_addr), sys.read_spec(upper_addr)))
    } else {
        None
    }
}

/// The operand of an addressing mode (an address, or the value itself for
/// immediate) and its cycles; `None` where the fetch would fail.
pub open spec fn fetch_operand_spec(cpu: Cpu, sys: System, mode: AddressingMode) -> Option<(Cpu, Operand)> {
    match mode {
        AddressingMode::Implied => Some((cpu, Operand(0, 0))),
        AddressingMode::Accumulator => Some((cpu, Operand(0, 0))),
        AddressingMode::Immediate => match fetch_u8_spec(cpu, sys) {
            None => None,
            Some((c, d)) => Some((c, Operand(d as u16, 1))),
        },
        AddressingMode::Absolute => match fetch_u16_spec(cpu, sys) {
            None => None,
            Some((c, d)) => Some((c, Operand(d, 3))),
        },
        AddressingMode::ZeroPage => match fetch_u8_spec(cpu, sys) {
            None => None,
            Some((c, d)) => Some((c, Operand(d as u16, 2))),
        },
        AddressingMode::ZeroPageX => match fetch_u8_spec(cpu, sys) {
            None => None,
            Some((c, d)) => Some((c, Operand(((d + c.x) % 256) as u16, 3))),
        },
        AddressingMode::ZeroPageY => match fetch_u8_spec(cpu, sys) {
            None => None,
            Some((c, d)) => Some((c, Operand(((d + c.y) % 256) as u16, 3))),
        },
        AddressingMode::AbsoluteX => match fetch_u16_spec(cpu, sys) {
            None => None,
            Some((c, d)) => {
                let data = ((d + c.x) % 0x10000) as u16;
                let next = ((data + c.x) % 0x10000) as u16;
                Some((c, Operand(data, (3 + page_cycle(data, next)) as u8)))
            },
        },
        AddressingMode::AbsoluteY => match fetch_u16_spec(cpu, sys) {
            None => None,
            Some((c, d)) => {
                let data = ((d + c.y) % 0x10000) as u16;
                let next = ((data + c.y) % 0x10000) as u16;
                Some((c, Operand(data, (3 + page_cycle(data, next)) as u8)))
            },
        },
        AddressingMode::Relative => match fetch_u8_spec(cpu, sys) {
            None => None,
            Some((c, d)) => {
                // the sign-extended offset from the PC after the operand, + 1
                let target = (d as i8) as int + c.pc as int;
                if 0 <= target < 0xffff {
                    let data = (target + 1) as u16;
                    Some((c, Operand(data, (1 + page_cycle(data, c.pc)) as u8)))
                } else {
                    None
                }
            },
        },
        AddressingMode::Indirect => match fetch_u8_spec(cpu, sys) {
            None => None,
            Some((c1, lower)) => match fetch_u8_spec(c1, sys) {
                None => None,
                Some((c2, upper)) => {
                    // the pointer's high byte is read without carrying into the page
                    let lower_addr = word(lower, upper);
                    let upper_addr = word(((lower + 1) % 256) as u8, upper);
                    match read_pointer(sys, lower_addr, upper_addr) {
                        None => None,
                        Some(data) => Some((c2, Operand(data, 4))),
                    }
                },
            },
        },
        AddressingMode::IndirectX => match fetch_u8_spec(cpu, sys) {
            None => None,
            Some((c, src)) => {
                let dst = (src + c.x) % 256;
                match read_pointer(sys, dst as u16, ((dst + 1) % 256) as u16) {
                    None => None,
                    Some(data) => Some((c, Operand(data, 5))),
                }
            },
        },
        AddressingMode::IndirectY => match fetch_u8_spec(cpu, sys) {
            None => None,
            Some((c, src)) => match read_pointer(sys, src as u16, ((src + 1) % 256) as u16) {
                None => None,
                Some(base) => if base + c.y <= 0xffff {
                    let data = (base + c.y) as u16;
                    Some((c, Operand(data, (4 + page_cycle(base, data)) as u8)))
                } else {
                    None
                },
            },
        },
    }
}

/// CMP, CPX and CPY compare A, X and Y respectively with the argument: C
/// is set exactly when the register is at least the argument, Z exactly
/// when they are equal, N from bit 7 of their difference (mod 256); no
/// register and no other flag changes.
#[verifier::rlimit(50)]
pub proof fn lemma_compare_ops(cpu: Cpu, opcode: Opcode, m: u8)
    requires
        opcode == Opcode::CMP || opcode == Opcode::CPX || opcode == Opcode::CPY,
    ensures
        ({
            let reg = if opcode == Opcode::CMP { cpu.a } else if opcode == Opcode::CPX { cpu.x } else { cpu.y };
            let r = data_op(opcode, cpu, m);
            &&& r.a == cpu.a && r.x == cpu.x && r.y == cpu.y && r.pc == cpu.pc && r.sp == cpu.sp
            &&& flag_is_set(r.p, 0x01) == (reg >= m)
            &&& flag_is_set(r.p, 0x02) == (reg == m)
            &&& flag_is_set(r.p, 0x80) == ((reg - m) % 256 >= 0x80)
            &&& r.p & 0x7cu8 == cpu.p & 0x7cu8
        }),
{
    let reg = if opcode == Opcode::CMP { cpu.a } else if opcode == Opcode::CPX { cpu.x } else { cpu.y };
    crate::alu::lemma_compare_flags(reg, m, cpu.p);
}

/// AND, ORA and EOR combine A with the argument bit by bit: bit `i` of the
/// new A is the and, the or, and the exclusive or of bit `i` of A and of the
/// argument; Z tells whether the new A is 0, N copies its bit 7, and X and Y
/// are kept.
#[verifier::rlimit(50)]
pub proof fn lemma_logic_ops(cpu: Cpu, m: u8, i: u8)
    requires
        i < 8,
    ensures
        ({
            let and = data_op(Opcode::AND, cpu, m);
            let ora = data_op(Opcode::ORA, cpu, m);
            let eor = data_op(Opcode::EOR, cpu, m);
            let bit_a = (cpu.a >> i) & 1u8 == 1u8;
            let bit_m = (m >> i) & 1u8 == 1u8;
            &&& ((and.a >> i) & 1u8 == 1u8) == (bit_a && bit_m)
            &&& ((ora.a >> i) & 1u8 == 1u8) == (bit_a || bit_m)
            &&& ((eor.a >> i) & 1u8 == 1u8) == (bit_a != bit_m)
            &&& flag_is_set(and.p, 0x02) == (and.a == 0) && flag_is_set(and.p, 0x80) == (and.a >= 0x80)
            &&& flag_is_set(ora.p, 0x02) == (ora.a == 0) && flag_is_set(ora.p, 0x80) == (ora.a >= 0x80)
            &&& flag_is_set(eor.p, 0x02) == (eor.a == 0) && flag_is_set(eor.p, 0x80) == (eor.a >= 0x80)
            &&& and.x == cpu.x && and.y == cpu.y && ora.x == cpu.x && ora.y == cpu.y
            &&& eor.x == cpu.x && eor.y == cpu.y
        }),
{
    let a = cpu.a;
    crate::alu::lemma_nz_flags(cpu.p, a & m);
    crate::alu::lemma_nz_flags(cpu.p, a | m);
    crate::alu::lemma_nz_flags(cpu.p, a ^ m);
    assert({
        let bit_a = (a >> i) & 1u8 == 1u8;
        let bit_m = (m >> i) & 1u8 == 1u8;
        &&& (((a & m) >> i) & 1u8 == 1u8) == (bit_a && bit_m)
        &&& (((a | m) >> i) & 1u8 == 1u8) == (bit_a || bit_m)
        &&& (((a ^ m) >> i) & 1u8 == 1u8) == (bit_a != bit_m)
    }) by (bit_vector)
        requires
            i < 8,
    ;
}

/// ADC and SBC in numbers, with `c` the carry going in: ADC gives
/// A + M + c modulo 256 and sets C when the sum exceeds 255; SBC gives
/// A - M - (1 - c) modulo 256 and sets C when no borrow is needed. V tells
/// whether the signed result is out of range; X and Y are kept.
#[verifier::rlimit(50)]
pub proof fn lemma_arith_ops(cpu: Cpu, m: u8)
    ensures
        ({
            let c = (if flag_is_set(cpu.p, 0x01) { 1int } else { 0int });
            let adc_r = data_op(Opcode::ADC, cpu, m);
            let sbc_r = data_op(Opcode::SBC, cpu, m);
            &&& adc_r.a == (cpu.a + m + c) % 256
            &&& flag_is_set(adc_r.p, 0x01) == (cpu.a + m + c > 255)
            &&& flag_is_set(adc_r.p, 0x40) == ((cpu.a >= 0x80) == (m >= 0x80) && (adc_r.a >= 0x80) != (cpu.a >= 0x80))
            &&& flag_is_set(adc_r.p, 0x02) == (adc_r.a == 0)
            &&& flag_is_set(adc_r.p, 0x80) == (adc_r.a >= 0x80)
            &&& adc_r.x == cpu.x && adc_r.y == cpu.y && adc_r.sp == cpu.sp && adc_r.pc == cpu.pc
            &&& sbc_r.a == (cpu.a - m - (1 - c)) % 256
            &&& flag_is_set(sbc_r.p, 0x01) == (cpu.a >= m + (1 - c))
            &&& flag_is_set(sbc_r.p, 0x40) == ((cpu.a >= 0x80) != (m >= 0x80) && (sbc_r.a >= 0x80) != (cpu.a >= 0x80))
            &&& flag_is_set(sbc_r.p, 0x02) == (sbc_r.a == 0)
            &&& flag_is_set(sbc_r.p, 0x80) == (sbc_r.a >= 0x80)
            &&& sbc_r.x == cpu.x && sbc_r.y == cpu.y && sbc_r.sp == cpu.sp && sbc_r.pc == cpu.pc
        }),
{
    crate::alu::lemma_adc_flags(cpu.a, m, cpu.p);
    crate::alu::lemma_sbc_flags(cpu.a, m, cpu.p);
}

/// LDA, LDX and LDY load the argument into A, X and Y respectively and
/// leave the other two registers; Z and N come from the argument.
#[verifier::rlimit(50)]
pub proof fn lemma_load_ops(cpu: Cpu, m: u8)
    ensures
        ({
            let lda = data_op(Opcode::LDA, cpu, m);
            let ldx = data_op(Opcode::LDX, cpu, m);
            let ldy = data_op(Opcode::LDY, cpu, m);
            &&& lda.a == m && lda.x == cpu.x && lda.y == cpu.y
            &&& ldx.x == m && ldx.a == cpu.a && ldx.y == cpu.y
            &&& ldy.y == m && ldy.a == cpu.a && ldy.x == cpu.x
            &&& flag_is_set(lda.p, 0x02) == (m == 0) && flag_is_set(lda.p, 0x80) == (m >= 0x80)
            &&& flag_is_set(ldx.p, 0x02) == (m == 0) && flag_is_set(ldx.p, 0x80) == (m >= 0x80)
            &&& flag_is_set(ldy.p, 0x02) == (m == 0) && flag_is_set(ldy.p, 0x80) == (m >= 0x80)
        }),
{
    crate::alu::lemma_nz_flags(cpu.p, m);
}

/// INX, INY, DEX and DEY count X or Y up or down modulo 256; TAX, TAY, TXA
/// and TYA copy between A and X or Y; TSX copies the low byte of SP into X,
/// TXS puts X into page 1 as SP. Each keeps the registers it does not name;
/// Z and N come from the new value (TXS changes no flag).
#[verifier::rlimit(50)]
pub proof fn lemma_register_ops(cpu: Cpu)
    ensures
        implied_op(Opcode::INX, cpu).x == (cpu.x + 1) % 256 && implied_op(Opcode::INX, cpu).a == cpu.a && implied_op(Opcode::INX, cpu).y == cpu.y,
        implied_op(Opcode::INY, cpu).y == (cpu.y + 1) % 256 && implied_op(Opcode::INY, cpu).a == cpu.a && implied_op(Opcode::INY, cpu).x == cpu.x,
        implied_op(Opcode::DEX, cpu).x == (cpu.x + 255) % 256 && implied_op(Opcode::DEX, cpu).a == cpu.a && implied_op(Opcode::DEX, cpu).y == cpu.y,
        implied_op(Opcode::DEY, cpu).y == (cpu.y + 255) % 256 && implied_op(Opcode::DEY, cpu).a == cpu.a && implied_op(Opcode::DEY, cpu).x == cpu.x,
        implied_op(Opcode::TAX, cpu).x == cpu.a && implied_op(Opcode::TAX, cpu).a == cpu.a && implied_op(Opcode::TAX, cpu).y == cpu.y,
        implied_op(Opcode::TAY, cpu).y == cpu.a && implied_op(Opcode::TAY, cpu).a == cpu.a && implied_op(Opcode::TAY, cpu).x == cpu.x,
        implied_op(Opcode::TXA, cpu).a == cpu.x && implied_op(Opcode::TXA, cpu).x == cpu.x && implied_op(Opcode::TXA, cpu).y == cpu.y,
        implied_op(Opcode::TYA, cpu).a == cpu.y && implied_op(Opcode::TYA, cpu).x == cpu.x && implied_op(Opcode::TYA, cpu).y == cpu.y,
        implied_op(Opcode::TSX, cpu).x == cpu.sp % 0x100 && implied_op(Opcode::TSX, cpu).a == cpu.a,
        implied_op(Opcode::TXS, cpu).sp == 0x0100 + cpu.x && implied_op(Opcode::TXS, cpu).p == cpu.p && implied_op(Opcode::TXS, cpu).x == cpu.x,
        flag_is_set(implied_op(Opcode::INX, cpu).p, 0x02) == (implied_op(Opcode::INX, cpu).x == 0),
        flag_is_set(implied_op(Opcode::DEY, cpu).p, 0x80) == (implied_op(Opcode::DEY, cpu).y >= 0x80),
        flag_is_set(implied_op(Opcode::TAX, cpu).p, 0x02) == (cpu.a == 0),
        flag_is_set(implied_op(Opcode::TYA, cpu).p, 0x80) == (cpu.y >= 0x80),
{
    crate::alu::lemma_nz_flags(cpu.p, ((cpu.x + 1) % 256) as u8);
    crate::alu::lemma_nz_flags(cpu.p, ((cpu.y - 1) % 256) as u8);
    crate::alu::lemma_nz_flags(cpu.p, cpu.a);
    crate::alu::lemma_nz_flags(cpu.p, cpu.y);
    let sp = cpu.sp;
    let x = cpu.x;
    assert((sp & 0xffu16) as u8 == sp % 0x100 && (x as u16) | 0x0100u16 == 0x0100 + x) by (bit_vector);
}

/// Branches test one flag each: BCC/BCS take C clear/set, BNE/BEQ take Z
/// clear/set, BPL/BMI take N clear/set, BVC/BVS take V clear/set.
pub proof fn lemma_branch_conditions(p: u8)
    ensures
        branch_taken(Opcode::BCC, p) == (p & 0x01 == 0) && branch_taken(Opcode::BCS, p) == (p & 0x01 != 0),
        branch_taken(Opcode::BNE, p) == (p & 0x02 == 0) && branch_taken(Opcode::BEQ, p) == (p & 0x02 != 0),
        branch_taken(Opcode::BPL, p) == (p & 0x80 == 0) && branch_taken(Opcode::BMI, p) == (p & 0x80 != 0),
        branch_taken(Opcode::BVC, p) == (p & 0x40 == 0) && branch_taken(Opcode::BVS, p) == (p & 0x40 != 0),
{
    assert((p & 0x01u8 == 0x01u8) == (p & 0x01u8 != 0) && (p & 0x02u8 == 0x02u8) == (p & 0x02u8 != 0)
        && (p & 0x80u8 == 0x80u8) == (p & 0x80u8 != 0) && (p & 0x40u8 == 0x40u8) == (p & 0x40u8 != 0))
        by (bit_vector);
}

/// STA, STX and STY store A, X and Y respectively.
pub proof fn lemma_store_values(cpu: Cpu)
    ensures
        store_value(Opcode::STA, cpu) == cpu.a,
        store_value(Opcode::STX, cpu) == cpu.x,
        store_value(Opcode::STY, cpu) == cpu.y,
{
}

/// On memory, ASL doubles modulo 256, LSR halves, ROL doubles and adds the
/// old C, ROR halves and adds 0x80 for the old C; ASL and ROL move the old
/// bit 7 into C, LSR and ROR the old bit 0. INC and DEC count up or down
/// modulo 256. The registers are kept.
#[verifier::rlimit(50)]
pub proof fn lemma_memory_rmw_ops(cpu: Cpu, v: u8)
    ensures
        ({
            let c = (if flag_is_set(cpu.p, 0x01) { 1int } else { 0int });
            &&& rmw_op(Opcode::ASL, cpu, v).1 == (2 * v) % 256
            &&& flag_is_set(rmw_op(Opcode::ASL, cpu, v).0.p, 0x01) == (v >= 0x80)
            &&& rmw_op(Opcode::LSR, cpu, v).1 == v / 2
            &&& flag_is_set(rmw_op(Opcode::LSR, cpu, v).0.p, 0x01) == (v % 2 == 1)
            &&& rmw_op(Opcode::ROL, cpu, v).1 == (2 * v + c) % 256
            &&& flag_is_set(rmw_op(Opcode::ROL, cpu, v).0.p, 0x01) == (v >= 0x80)
            &&& rmw_op(Opcode::ROR, cpu, v).1 == v / 2 + 0x80 * c
            &&& flag_is_set(rmw_op(Opcode::ROR, cpu, v).0.p, 0x01) == (v % 2 == 1)
            &&& rmw_op(Opcode::INC, cpu, v).1 == (v + 1) % 256
            &&& rmw_op(Opcode::DEC, cpu, v).1 == (v + 255) % 256
            &&& rmw_op(Opcode::ASL, cpu, v).0.a == cpu.a && rmw_op(Opcode::ROR, cpu, v).0.a == cpu.a
            &&& rmw_op(Opcode::INC, cpu, v).0.x == cpu.x && rmw_op(Opcode::DEC, cpu, v).0.y == cpu.y
        }),
{
    crate::alu::lemma_shift_results(v, cpu.p);
}

/// On A, ASL doubles modulo 256, LSR halves, ROL doubles and adds the old
/// C, ROR halves and adds 0x80 for the old C; ASL and ROL move the old bit 7
/// into C, LSR and ROR the old bit 0. X and Y are kept.
#[verifier::rlimit(50)]
pub proof fn lemma_accumulator_shift_ops(cpu: Cpu)
    ensures
        ({
            let c = (if flag_is_set(cpu.p, 0x01) { 1int } else { 0int });
            let v = cpu.a;
            &&& implied_op(Opcode::ASL, cpu).a == (2 * v) % 256
            &&& flag_is_set(implied_op(Opcode::ASL, cpu).p, 0x01) == (v >= 0x80)
            &&& implied_op(Opcode::LSR, cpu).a == v / 2
            &&& flag_is_set(implied_op(Opcode::LSR, cpu).p, 0x01) == (v % 2 == 1)
            &&& implied_op(Opcode::ROL, cpu).a == (2 * v + c) % 256
            &&& flag_is_set(implied_op(Opcode::ROL, cpu).p, 0x01) == (v >= 0x80)
            &&& implied_op(Opcode::ROR, cpu).a == v / 2 + 0x80 * c
            &&& flag_is_set(implied_op(Opcode::ROR, cpu).p, 0x01) == (v % 2 == 1)
            &&& implied_op(Opcode::ASL, cpu).x == cpu.x && implied_op(Opcode::ROR, cpu).y == cpu.y
        }),
{
    crate::alu::lemma_shift_results(cpu.a, cpu.p);
}

/// EOR with the same argument twice gives A back, and EOR of A with itself
/// gives 0 and sets Z.
#[verifier::rlimit(50)]
pub proof fn lemma_eor_twice(cpu: Cpu, m: u8)
    ensures
        data_op(Opcode::EOR, data_op(Opcode::EOR, cpu, m), m).a == cpu.a,
        data_op(Opcode::EOR, cpu, cpu.a).a == 0,
        flag_is_set(data_op(Opcode::EOR, cpu, cpu.a).p, 0x02),
{
    let a = cpu.a;
    assert((a ^ m) ^ m == a && a ^ a == 0) by (bit_vector);
    crate::alu::lemma_nz_flags(cpu.p, a ^ a);
}

impl Cpu {
    /// Fetches one byte at PC, then advances PC by one.
    pub fn fetch_u8(&mut self, system: &mut System) -> (data: u8)
        requires
            fetch_u8_spec(*old(self), *old(system)) is Some,
        ensures
            fetch_u8_spec(*old(self), *old(system)) == Some((*final(self), data)),
            *final(system) == *old(system),
    {
        let data = system.read_u8(self.pc, false);
        self.pc = self.pc + 1;
        data
    }

    /// Fetches two bytes at PC, low byte first, advancing PC past them.
    pub fn fetch_u16(&mut self, system: &mut System) -> (data: u16)
        requires
            fetch_u16_spec(*old(self), *old(system)) is Some,
        ensures
            fetch_u16_spec(*old(self), *old(system)) == Some((*final(self), data)),
            *final(system) == *old(system),
    {
        let lower = self.fetch_u8(system);
        let upper = self.fetch_u8(system);
        let data = (lower as u16) | ((upper as u16) << 8u16);
        data
    }

    /// Fetches the operand of an addressing mode; the operand bytes that
    /// follow the opcode are fetched at PC, pointers are read through the bus.
    pub fn fetch_operand(&mut self, system: &mut System, mode: AddressingMode) -> (operand: Operand)
        requires
            fetch_operand_spec(*old(self), *old(system), mode) is Some,
        ensures
            fetch_operand_spec(*old(self), *old(system), mode) == Some((*final(self), operand)),
            *final(system) == *old(system),
            operand.1 <= 5,
    {
        match mode {
            AddressingMode::Implied => Operand(0, 0),
            AddressingMode::Accumulator => Operand(0, 0),
            AddressingMode::Immediate => Operand(self.fetch_u8(system) as u16, 1),
            AddressingMode::Absolute => Operand(self.fetch_u16(system), 3),
            AddressingMode::ZeroPage => Operand(self.fetch_u8(system) as u16, 2),
            AddressingMode::ZeroPageX => {
                let d = self.fetch_u8(system);
                proof { lemma_wrapping_add_u8(d, self.x); }
                Operand(d.wrapping_add(self.x) as u16, 3)
            },
            AddressingMode::ZeroPageY => {
                let d = self.fetch_u8(system);
                proof { lemma_wrapping_add_u8(d, self.y); }
                Operand(d.wrapping_add(self.y) as u16, 3)
            },
            AddressingMode::AbsoluteX => self.fetch_operand_absolute_indexed(system, mode),
            AddressingMode::AbsoluteY => self.fetch_operand_absolute_indexed(system, mode),
            AddressingMode::Relative => self.fetch_operand_relative(system, mode),
            AddressingMode::Indirect => self.fetch_operand_indirect(system, mode),
            AddressingMode::IndirectX => self.fetch_operand_indexed_indirect(system, mode),
            AddressingMode::IndirectY => self.fetch_operand_indexed_indirect(system, mode),
        }
    }

    /// a,x and a,y
    fn fetch_operand_absolute_indexed(&mut self, system: &mut System, mode: AddressingMode) -> (operand: Operand)
        requires
            mode == AddressingMode::AbsoluteX || mode == AddressingMode::AbsoluteY,
            fetch_operand_spec(*old(self), *old(system), mode) is Some,
        ensures
            fetch_operand_spec(*old(self), *old(system), mode) == Some((*final(self), operand)),
            *final(system) == *old(system),
            operand.1 <= 5,
    {
        let index: u16 = if mode == AddressingMode::AbsoluteX { self.x as u16 } else { self.y as u16 };
        let d = self.fetch_u16(system);
        let data = d.wrapping_add(index);
        let next = data.wrapping_add(index);
        proof {
            lemma_wrapping_add_u16(d, index);
            lemma_wrapping_add_u16(data, index);
        }
        let additional_cyc: u8 = if (data & 0xff00u16) != (next & 0xff00u16) { 1 } else { 0 };
        Operand(data, 3 + additional_cyc)
    }

    /// label
    fn fetch_operand_relative(&mut self, system: &mut System, mode: AddressingMode) -> (operand: Operand)
        requires
            mode == AddressingMode::Relative,
            fetch_operand_spec(*old(self), *old(system), mode) is Some,
        ensures
            fetch_operand_spec(*old(self), *old(system), mode) == Some((*final(self), operand)),
            *final(system) == *old(system),
            operand.1 <= 5,
    {
        let src_addr = self.fetch_u8(system);
        // sign-extend the offset; the target is one past it
        let signed_data: i32 = ((src_addr as i8) as i32) + (self.pc as i32);
        let data = signed_data as u16 + 1;
        let additional_cyc: u8 = if (data & 0xff00u16) != (self.pc & 0xff00u16) { 1 } else { 0 };
        Operand(data, 1 + additional_cyc)
    }

    /// (a), for JMP
    fn fetch_operand_indirect(&mut self, system: &mut System, mode: AddressingMode) -> (operand: Operand)
        requires
            mode == AddressingMode::Indirect,
            fetch_operand_spec(*old(self), *old(system), mode) is Some,
        ensures
            fetch_operand_spec(*old(self), *old(system), mode) == Some((*final(self), operand)),
            *final(system) == *old(system),
            operand.1 <= 5,
    {
        let src_addr_lower = self.fetch_u8(system);
        let src_addr_upper = self.fetch_u8(system);
        // the operand itself, and the operand with its low byte + 1
        let dst_addr_lower = (src_addr_lower as u16) | ((src_addr_upper as u16) << 8u16);
        let dst_addr_upper = (src_addr_lower.wrapping_add(1) as u16) | ((src_addr_upper as u16) << 8u16);
        proof { lemma_wrapping_add_u8(src_addr_lower, 1); }
        let dst_data_lower = system.read_u8(dst_addr_lower, false) as u16;
        let dst_data_upper = system.read_u8(dst_addr_upper, false) as u16;
        let data = dst_data_lower | (dst_data_upper << 8u16);
        Operand(data, 4)
    }

    /// (d,x) and (d),y
    fn fetch_operand_indexed_indirect(&mut self, system: &mut System, mode: AddressingMode) -> (operand: Operand)
        requires
            mode == AddressingMode::IndirectX || mode == AddressingMode::IndirectY,
            fetch_operand_spec(*old(self), *old(system), mode) is Some,
        ensures
            fetch_operand_spec(*old(self), *old(system), mode) == Some((*final(self), operand)),
            *final(system) == *old(system),
            operand.1 <= 5,
    {
        let src_addr = self.fetch_u8(system);
        if mode == AddressingMode::IndirectX {
            let dst_addr = src_addr.wrapping_add(self.x);
            let dst_next = dst_addr.wrapping_add(1);
            proof {
                lemma_wrapping_add_u8(src_addr, self.x);
                lemma_wrapping_add_u8(dst_addr, 1);
            }
            let data_lower = system.read_u8(dst_addr as u16, false) as u16;
            let data_upper = system.read_u8(dst_next as u16, false) as u16;
            let data = data_lower | (data_upper << 8u16);
            Operand(data, 5)
        } else {
            let src_next = src_addr.wrapping_add(1);
            proof { lemma_wrapping_add_u8(src_addr, 1); }
            let data_lower = system.read_u8(src_addr as u16, false) as u16;
            let data_upper = system.read_u8(src_next as u16, false) as u16;
            let base_data = data_lower | (data_upper << 8u16);
            let data = base_data + (self.y as u16);
            let additional_cyc: u8 = if (base_data & 0xff00u16) != (data & 0xff00u16) { 1 } else { 0 };
            Operand(data, 4 + additional_cyc)
        }
    }

    /// Runs an instruction and returns its cycle count. Only ADC is carried
    /// out here; the operand's value (for the memory modes, its address) is
    /// taken as the argument.
    pub fn run(&mut self, system: &mut System, inst_code: u8) -> (cyc: u8)
        requires
            decode_spec(inst_code) is Some,
            decode_spec(inst_code).unwrap().0 == Opcode::ADC,
            fetch_operand_spec(*old(self), *old(system), decode_spec(inst_code).unwrap().1) is Some,
        ensures
            ({
                let (c, op) = fetch_operand_spec(*old(self), *old(system), decode_spec(inst_code).unwrap().1).unwrap();
                &&& *final(self) == data_op(Opcode::ADC, c, op.0 as u8)
                &&& cyc == 1 + op.1
            }),
            *final(system) == *old(system),
    {
        let Instruction(opcode, mode) = Instruction::from(inst_code);
        match opcode {
            Opcode::ADC => {
                let Operand(data, cyc) = self.fetch_operand(system, mode);
                let arg = data as u8;
                self.inst_adc(arg);
                1 + cyc
            },
            _ => 0,
        }
    }
}

/// Instruction routines; each returns the extra cycles it takes.
/// http://obelisk.me.uk/6502/reference.html
impl Cpu {
    /// Sets Z and N from a result.
    fn write_nz(&mut self, result: u8)
        ensures
            *final(self) == (Cpu { p: nz(old(self).p, result), ..*old(self) }),
    {
        let is_zero = result == 0;
        let is_negative = (result & 0x80u8) == 0x80u8;
        self.write_zero_flag(is_zero);
        self.write_negative_flag(is_negative);
    }

    /// add with carry
    pub fn inst_adc(&mut self, arg: u8) -> (cyc: u8)
        ensures
            *final(self) == data_op(Opcode::ADC, *old(self), arg),
            cyc == 0,
    {
        let c: u8 = if self.read_carry_flag() { 1 } else { 0 };
        let data1 = self.a.wrapping_add(arg);
        let is_carry1 = arg > 255 - self.a;
        let result = data1.wrapping_add(c);
        let is_carry2 = c > 255 - data1;
        proof {
            lemma_wrapping_add_u8(self.a, arg);
            lemma_wrapping_add_u8(data1, c);
            let a = self.a;
            assert(((!(a ^ arg)) & (a ^ result) & 0x80u8 == 0x80u8) == ((a ^ result) & (arg ^ result)
                & 0x80u8 == 0x80u8)) by (bit_vector);
        }
        let is_carry = is_carry1 || is_carry2;
        let is_zero = result == 0;
        let is_negative = (result & 0x80u8) == 0x80u8;
        let is_overflow = ((!(self.a ^ arg)) & (self.a ^ result) & 0x80u8) == 0x80u8;
        self.write_carry_flag(is_carry);
        self.write_zero_flag(is_zero);
        self.write_negative_flag(is_negative);
        self.write_overflow_flag(is_overflow);
        self.a = result;
        0
    }

    /// logical and
    pub fn inst_and(&mut self, arg: u8) -> (cyc: u8)
        ensures
            *final(self) == data_op(Opcode::AND, *old(self), arg),
            cyc == 0,
    {
        let result = self.a & arg;
        self.write_nz(result);
        self.a = result;
        0
    }

    /// arithmetic shift left (Accumulator)
    pub fn inst_asl_a(&mut self) -> (cyc: u8)
        ensures
            *final(self) == implied_op(Opcode::ASL, *old(self)),
            cyc == 0,
    {
        // bit 7 goes to C
        let result = self.a << 1u8;
        let is_carry = (self.a & 0x80u8) == 0x80u8;
        self.write_carry_flag(is_carry);
        self.write_nz(result);
        self.a = result;
        0
    }

    /// arithmetic shift left
    pub fn inst_asl(&mut self, system: &mut System, dst_addr: u16, arg: u8) -> (cyc: u8)
        requires
            old(system).addr_ok(dst_addr),
        ensures
            *final(self) == rmw_op(Opcode::ASL, *old(self), arg).0,
            *final(system) == old(system).write_spec(dst_addr, rmw_op(Opcode::ASL, *old(self), arg).1),
            cyc == 0,
    {
        // bit 7 goes to C
        let result = arg << 1u8;
        let is_carry = (arg & 0x80u8) == 0x80u8;
        self.write_carry_flag(is_carry);
        self.write_nz(result);
        system.write_u8(dst_addr, result, false);
        0
    }

    /// branch if carry clear
    pub fn inst_bcc(&mut self, dst_addr: u16) -> (cyc: u8)
        ensures
            branch_taken(Opcode::BCC, old(self).p) ==> *final(self) == (Cpu { pc: dst_addr, ..*old(self) }) && cyc == 1,
            !branch_taken(Opcode::BCC, old(self).p) ==> *final(self) == *old(self) && cyc == 0,
    {
        if !self.read_carry_flag() {
            self.pc = dst_addr;
            1
        } else {
            0
        }
    }

    /// branch if carry set
    pub fn inst_bcs(&mut self, dst_addr: u16) -> (cyc: u8)
        ensures
            branch_taken(Opcode::BCS, old(self).p) ==> *final(self) == (Cpu { pc: dst_addr, ..*old(self) }) && cyc == 1,
            !branch_taken(Opcode::BCS, old(self).p) ==> *final(self) == *old(self) && cyc == 0,
    {
        if self.read_carry_flag() {
            self.pc = dst_addr;
            1
        } else {
            0
        }
    }

    /// branch if equal
    pub fn inst_beq(&mut self, dst_addr: u16) -> (cyc: u8)
        ensures
            branch_taken(Opcode::BEQ, old(self).p) ==> *final(self) == (Cpu { pc: dst_addr, ..*old(self) }) && cyc == 1,
            !branch_taken(Opcode::BEQ, old(self).p) ==> *final(self) == *old(self) && cyc == 0,
    {
        if self.read_zero_flag() {
            self.pc = dst_addr;
            1
        } else {
            0
        }
    }

    /// bit test
    pub fn inst_bit(&mut self, arg: u8) -> (cyc: u8)
        ensures
            *final(self) == data_op(Opcode::BIT, *old(self), arg),
            cyc == 0,
    {
        let is_negative = (arg & 0x80u8) == 0x80u8;
        let is_overflow = (arg & 0x40u8) == 0x40u8;
        let is_zero = (self.a & arg) == 0u8;
        self.write_negative_flag(is_negative);
        self.write_zero_flag(is_zero);
        self.write_overflow_flag(is_overflow);
        0
    }

    /// branch if minus
    pub fn inst_bmi(&mut self, dst_addr: u16) -> (cyc: u8)
        ensures
            branch_taken(Opcode::BMI, old(self).p) ==> *final(self) == (Cpu { pc: dst_addr, ..*old(self) }) && cyc == 1,
            !branch_taken(Opcode::BMI, old(self).p) ==> *final(self) == *old(self) && cyc == 0,
    {
        if self.read_negative_flag() {
            self.pc = dst_addr;
            1
        } else {
            0
        }
    }

    /// branch if not equal
    pub fn inst_bne(&mut self, dst_addr: u16) -> (cyc: u8)
        ensures
            branch_taken(Opcode::BNE, old(self).p) ==> *final(self) == (Cpu { pc: dst_addr, ..*old(self) }) && cyc == 1,
            !branch_taken(Opcode::BNE, old(self).p) ==> *final(self) == *old(self) && cyc == 0,
    {
        if !self.read_zero_flag() {
            self.pc = dst_addr;
            1
        } else {
            0
        }
    }

    /// branch if plus
    pub fn inst_bpl(&mut self, dst_addr: u16) -> (cyc: u8)
        ensures
            branch_taken(Opcode::BPL, old(self).p) ==> *final(self) == (Cpu { pc: dst_addr, ..*old(self) }) && cyc == 1,
            !branch_taken(Opcode::BPL, old(self).p) ==> *final(self) == *old(self) && cyc == 0,
    {
        if !self.read_negative_flag() {
            self.pc = dst_addr;
            1
        } else {
            0
        }
    }

    /// force interrupt: sets B, then raises the BRK interrupt.
    pub fn inst_brk(&mut self, system: &mut System) -> (cyc: u8)
        requires
            (Cpu { p: flag_update(old(self).p, 0x10, true), ..*old(self) }).interrupt_ok(*old(system), Interrupt::BRK),
        ensures
            (*final(self), *final(system)) == (Cpu { p: flag_update(old(self).p, 0x10, true), ..*old(self) })
                .interrupt_spec(*old(system), Interrupt::BRK),
            cyc == 0,
    {
        self.write_break_flag(true);
        self.do_interrupt(system, Interrupt::BRK);
        0
    }

    /// branch if overflow clear
    pub fn inst_bvc(&mut self, dst_addr: u16) -> (cyc: u8)
        ensures
            branch_taken(Opcode::BVC, old(self).p) ==> *final(self) == (Cpu { pc: dst_addr, ..*old(self) }) && cyc == 1,
            !branch_taken(Opcode::BVC, old(self).p) ==> *final(self) == *old(self) && cyc == 0,
    {
        if !self.read_overflow_flag() {
            self.pc = dst_addr;
            1
        } else {
            0
        }
    }

    /// branch if overflow set
    pub fn inst_bvs(&mut self, dst_addr: u16) -> (cyc: u8)
        ensures
            branch_taken(Opcode::BVS, old(self).p) ==> *final(self) == (Cpu { pc: dst_addr, ..*old(self) }) && cyc == 1,
            !branch_taken(Opcode::BVS, old(self).p) ==> *final(self) == *old(self) && cyc == 0,
    {
        if self.read_overflow_flag() {
            self.pc = dst_addr;
            1
        } else {
            0
        }
    }

    /// clear carry flag
    pub fn inst_clc(&mut self) -> (cyc: u8)
        ensures
            *final(self) == implied_op(Opcode::CLC, *old(self)),
            cyc == 0,
    {
        self.write_carry_flag(false);
        0
    }

    /// clear decimal mode
    pub fn inst_cld(&mut self) -> (cyc: u8)
        ensures
            *final(self) == implied_op(Opcode::CLD, *old(self)),
            cyc == 0,
    {
        self.write_decimal_flag(false);
        0
    }

    /// clear interrupt disable
    pub fn inst_cli(&mut self) -> (cyc: u8)
        ensures
            *final(self) == implied_op(Opcode::CLI, *old(self)),
            cyc == 0,
    {
        self.write_interrupt_flag(false);
        0
    }

    /// clear overflow flag
    pub fn inst_clv(&mut self) -> (cyc: u8)
        ensures
            *final(self) == implied_op(Opcode::CLV, *old(self)),
            cyc == 0,
    {
        self.write_overflow_flag(false);
        0
    }

    /// Compares a register with the argument; C is set when reg >= arg.
    fn compare_with(&mut self, reg: u8, arg: u8)
        ensures
            *final(self) == (Cpu { p: compare(reg, arg, old(self).p), ..*old(self) }),
    {
        let result = reg.wrapping_sub(arg);
        let is_carry = reg >= arg;
        self.write_carry_flag(is_carry);
        self.write_nz(result);
    }

    /// compare
    pub fn inst_cmp(&mut self, arg: u8) -> (cyc: u8)
        ensures
            *final(self) == data_op(Opcode::CMP, *old(self), arg),
            cyc == 0,
    {
        self.compare_with(self.a, arg);
        0
    }

    /// compare x register
    pub fn inst_cpx(&mut self, arg: u8) -> (cyc: u8)
        ensures
            *final(self) == data_op(Opcode::CPX, *old(self), arg),
            cyc == 0,
    {
        self.compare_with(self.x, arg);
        0
    }

    /// compare y register
    pub fn inst_cpy(&mut self, arg: u8) -> (cyc: u8)
        ensures
            *final(self) == data_op(Opcode::CPY, *old(self), arg),
            cyc == 0,
    {
        self.compare_with(self.y, arg);
        0
    }

    /// decrement memory
    pub fn inst_dec(&mut self, system: &mut System, dst_addr: u16, arg: u8) -> (cyc: u8)
        requires
            old(system).addr_ok(dst_addr),
        ensures
            *final(self) == rmw_op(Opcode::DEC, *old(self), arg).0,
            *final(system) == old(system).write_spec(dst_addr, rmw_op(Opcode::DEC, *old(self), arg).1),
            cyc == 0,
    {
        let result = arg.wrapping_sub(1);
        self.write_nz(result);
        system.write_u8(dst_addr, result, false);
        0
    }

    /// decrement x register
    pub fn inst_dex(&mut self) -> (cyc: u8)
        ensures
            *final(self) == implied_op(Opcode::DEX, *old(self)),
            cyc == 0,
    {
        let result = self.x.wrapping_sub(1);
        self.write_nz(result);
        self.x = result;
        0
    }

    /// decrement y register
    pub fn inst_dey(&mut self) -> (cyc: u8)
        ensures
            *final(self) == implied_op(Opcode::DEY, *old(self)),
            cyc == 0,
    {
        let result = self.y.wrapping_sub(1);
        self.write_nz(result);
        self.y = result;
        0
    }

    /// exclusive or
    pub fn inst_eor(&mut self, arg: u8) -> (cyc: u8)
        ensures
            *final(self) == data_op(Opcode::EOR, *old(self), arg),
            cyc == 0,
    {
        let result = self.a ^ arg;
        self.write_nz(result);
        self.a = result;
        0
    }

    /// increment memory
    pub fn inst_inc(&mut self, system: &mut System, dst_addr: u16, arg: u8) -> (cyc: u8)
        requires
            old(system).addr_ok(dst_addr),
        ensures
            *final(self) == rmw_op(Opcode::INC, *old(self), arg).0,
            *final(system) == old(system).write_spec(dst_addr, rmw_op(Opcode::INC, *old(self), arg).1),
            cyc == 0,
    {
        let result = arg.wrapping_add(1);
        proof { lemma_wrapping_add_u8(arg, 1); }
        self.write_nz(result);
        system.write_u8(dst_addr, result, false);
        0
    }

    /// increment x register
    pub fn inst_inx(&mut self) -> (cyc: u8)
        ensures
            *final(self) == implied_op(Opcode::INX, *old(self)),
            cyc == 0,
    {
        let result = self.x.wrapping_add(1);
        proof { lemma_wrapping_add_u8(self.x, 1); }
        self.write_nz(result);
        self.x = result;
        0
    }

    /// increment y register
    pub fn inst_iny(&mut self) -> (cyc: u8)
        ensures
            *final(self) == implied_op(Opcode::INY, *old(self)),
            cyc == 0,
    {
        let result = self.y.wrapping_add(1);
        proof { lemma_wrapping_add_u8(self.y, 1); }
        self.write_nz(result);
        self.y = result;
        0
    }

    /// jump
    /// `dst_addr` - the target named by absolute or indirect addressing
    pub fn inst_jmp(&mut self, dst_addr: u16) -> (cyc: u8)
        ensures
            *final(self) == (Cpu { pc: dst_addr, ..*old(self) }),
            cyc == 0,
    {
        self.pc = dst_addr;
        0
    }

    /// jump to subroutine
    /// `dst_addr` - the target named by absolute addressing
    /// `opcode_addr` - the address that held the JSR opcode
    pub fn inst_jsr(&mut self, system: &mut System, dst_addr: u16, opcode_addr: u16) -> (cyc: u8)
        requires
            jsr_spec(*old(self), *old(system), dst_addr, opcode_addr) is Some,
        ensures
            jsr_spec(*old(self), *old(system), dst_addr, opcode_addr) == Some((*final(self), *final(system))),
            cyc == 0,
    {
        let ret_addr = opcode_addr + 2;
        // push upper, then lower
        self.stack_push(system, (ret_addr >> 8u16) as u8);
        self.stack_push(system, (ret_addr & 0xffu16) as u8);
        self.pc = dst_addr;
        0
    }
}

impl Cpu {
    /// load accumulator
    pub fn inst_lda(&mut self, arg: u8) -> (cyc: u8)
        ensures
            *final(self) == data_op(Opcode::LDA, *old(self), arg),
            cyc == 0,
    {
        self.write_nz(arg);
        self.a = arg;
        0
    }

    /// load x register
    pub fn inst_ldx(&mut self, arg: u8) -> (cyc: u8)
        ensures
            *final(self) == data_op(Opcode::LDX, *old(self), arg),
            cyc == 0,
    {
        self.write_nz(arg);
        self.x = arg;
        0
    }

    /// load y register
    pub fn inst_ldy(&mut self, arg: u8) -> (cyc: u8)
        ensures
            *final(self) == data_op(Opcode::LDY, *old(self), arg),
            cyc == 0,
    {
        self.write_nz(arg);
        self.y = arg;
        0
    }

    /// logical shift right (Accumulator)
    pub fn inst_lsr_a(&mut self) -> (cyc: u8)
        ensures
            *final(self) == implied_op(Opcode::LSR, *old(self)),
            cyc == 0,
    {
        let result = self.a >> 1u8;
        let is_carry = (self.a & 0x01u8) == 0x01u8;
        self.write_carry_flag(is_carry);
        self.write_nz(result);
        self.a = result;
        0
    }

    /// logical shift right
    pub fn inst_lsr(&mut self, system: &mut System, dst_addr: u16, arg: u8) -> (cyc: u8)
        requires
            old(system).addr_ok(dst_addr),
        ensures
            *final(self) == rmw_op(Opcode::LSR, *old(self), arg).0,
            *final(system) == old(system).write_spec(dst_addr, rmw_op(Opcode::LSR, *old(self), arg).1),
            cyc == 0,
    {
        let result = arg >> 1u8;
        let is_carry = (arg & 0x01u8) == 0x01u8;
        self.write_carry_flag(is_carry);
        self.write_nz(result);
        system.write_u8(dst_addr, result, false);
        0
    }

    /// no operation
    pub fn inst_nop(&mut self) -> (cyc: u8)
        ensures
            *final(self) == *old(self),
            cyc == 0,
    {
        0
    }

    /// logical inclusive or
    pub fn inst_ora(&mut self, arg: u8) -> (cyc: u8)
        ensures
            *final(self) == data_op(Opcode::ORA, *old(self), arg),
            cyc == 0,
    {
        let result = self.a | arg;
        self.write_nz(result);
        self.a = result;
        0
    }

    /// push accumulator
    pub fn inst_pha(&mut self, system: &mut System) -> (cyc: u8)
        requires
            stack_spec(Opcode::PHA, *old(self), *old(system)) is Some,
        ensures
            stack_spec(Opcode::PHA, *old(self), *old(system)) == Some((*final(self), *final(system))),
            cyc == 0,
    {
        self.stack_push(system, self.a);
        0
    }

    /// push processor status
    pub fn inst_php(&mut self, system: &mut System) -> (cyc: u8)
        requires
            stack_spec(Opcode::PHP, *old(self), *old(system)) is Some,
        ensures
            stack_spec(Opcode::PHP, *old(self), *old(system)) == Some((*final(self), *final(system))),
            cyc == 0,
    {
        self.stack_push(system, self.p);
        0
    }

    /// pull accumulator
    pub fn inst_pla(&mut self, system: &mut System) -> (cyc: u8)
        requires
            stack_spec(Opcode::PLA, *old(self), *old(system)) is Some,
        ensures
            stack_spec(Opcode::PLA, *old(self), *old(system)) == Some((*final(self), *final(system))),
            cyc == 0,
    {
        let result = self.stack_pop(system);
        self.write_nz(result);
        self.a = result;
        0
    }

    /// pull processor status
    pub fn inst_plp(&mut self, system: &mut System) -> (cyc: u8)
        requires
            stack_spec(Opcode::PLP, *old(self), *old(system)) is Some,
        ensures
            stack_spec(Opcode::PLP, *old(self), *old(system)) == Some((*final(self), *final(system))),
            cyc == 0,
    {
        self.p = self.stack_pop(system);
        0
    }

    /// rotate left (Accumulator)
    pub fn inst_rol_a(&mut self) -> (cyc: u8)
        ensures
            *final(self) == implied_op(Opcode::ROL, *old(self)),
            cyc == 0,
    {
        let result = (self.a << 1u8) | (if self.read_carry_flag() { 0x01u8 } else { 0x00u8 });
        let is_carry = (self.a & 0x80u8) == 0x80u8;
        self.write_carry_flag(is_carry);
        self.write_nz(result);
        self.a = result;
        0
    }

    /// rotate left
    pub fn inst_rol(&mut self, system: &mut System, dst_addr: u16, arg: u8) -> (cyc: u8)
        requires
            old(system).addr_ok(dst_addr),
        ensures
            *final(self) == rmw_op(Opcode::ROL, *old(self), arg).0,
            *final(system) == old(system).write_spec(dst_addr, rmw_op(Opcode::ROL, *old(self), arg).1),
            cyc == 0,
    {
        let result = (arg << 1u8) | (if self.read_carry_flag() { 0x01u8 } else { 0x00u8 });
        let is_carry = (arg & 0x80u8) == 0x80u8;
        self.write_carry_flag(is_carry);
        self.write_nz(result);
        system.write_u8(dst_addr, result, false);
        0
    }

    /// rotate right (Accumulator)
    pub fn inst_ror_a(&mut self) -> (cyc: u8)
        ensures
            *final(self) == implied_op(Opcode::ROR, *old(self)),
            cyc == 0,
    {
        let result = (self.a >> 1u8) | (if self.read_carry_flag() { 0x80u8 } else { 0x00u8 });
        let is_carry = (self.a & 0x01u8) == 0x01u8;
        self.write_carry_flag(is_carry);
        self.write_nz(result);
        self.a = result;
        0
    }

    /// rotate right
    pub fn inst_ror(&mut self, system: &mut System, dst_addr: u16, arg: u8) -> (cyc: u8)
        requires
            old(system).addr_ok(dst_addr),
        ensures
            *final(self) == rmw_op(Opcode::ROR, *old(self), arg).0,
            *final(system) == old(system).write_spec(dst_addr, rmw_op(Opcode::ROR, *old(self), arg).1),
            cyc == 0,
    {
        let result = (arg >> 1u8) | (if self.read_carry_flag() { 0x80u8 } else { 0x00u8 });
        let is_carry = (arg & 0x01u8) == 0x01u8;
        self.write_carry_flag(is_carry);
        self.write_nz(result);
        system.write_u8(dst_addr, result, false);
        0
    }

    /// return from interrupt
    pub fn inst_rti(&mut self, system: &mut System) -> (cyc: u8)
        requires
            stack_spec(Opcode::RTI, *old(self), *old(system)) is Some,
        ensures
            stack_spec(Opcode::RTI, *old(self), *old(system)) == Some((*final(self), *final(system))),
            cyc == 0,
    {
        self.p = self.stack_pop(system);
        let pc_lower = self.stack_pop(system);
        let pc_upper = self.stack_pop(system);
        self.pc = (pc_lower as u16) | ((pc_upper as u16) << 8u16);
        0
    }

    /// return from subroutine
    pub fn inst_rts(&mut self, system: &mut System) -> (cyc: u8)
        requires
            stack_spec(Opcode::RTS, *old(self), *old(system)) is Some,
        ensures
            stack_spec(Opcode::RTS, *old(self), *old(system)) == Some((*final(self), *final(system))),
            cyc == 0,
    {
        let pc_lower = self.stack_pop(system);
        let pc_upper = self.stack_pop(system);
        self.pc = ((pc_lower as u16) | ((pc_upper as u16) << 8u16)) + 1;
        0
    }

    /// subtract with carry
    /// A = A - arg - (1 - C)
    #[verifier::rlimit(40)]
    pub fn inst_sbc(&mut self, arg: u8) -> (cyc: u8)
        ensures
            *final(self) == data_op(Opcode::SBC, *old(self), arg),
            cyc == 0,
    {
        let data1 = self.a.wrapping_sub(arg);
        let is_carry1 = self.a < arg;
        let borrow: u8 = if self.read_carry_flag() { 0 } else { 1 };
        let result = data1.wrapping_sub(borrow);
        let is_carry2 = data1 < borrow;
        // C is cleared when the subtraction borrows
        let is_carry = !(is_carry1 || is_carry2);
        // V: A and the argument differ in sign, and the result's sign differs
        // from A's
        let is_overflow = ((self.a ^ arg) & 0x80u8) == 0x80u8 && ((self.a ^ result) & 0x80u8) == 0x80u8;
        self.write_carry_flag(is_carry);
        self.write_nz(result);
        self.write_overflow_flag(is_overflow);
        self.a = result;
        0
    }

    /// set carry flag
    pub fn inst_sec(&mut self) -> (cyc: u8)
        ensures
            *final(self) == implied_op(Opcode::SEC, *old(self)),
            cyc == 0,
    {
        self.write_carry_flag(true);
        0
    }

    /// set decimal mode
    pub fn inst_sed(&mut self) -> (cyc: u8)
        ensures
            *final(self) == implied_op(Opcode::SED, *old(self)),
            cyc == 0,
    {
        self.write_decimal_flag(true);
        0
    }

    /// set interrupt disable
    pub fn inst_sei(&mut self) -> (cyc: u8)
        ensures
            *final(self) == implied_op(Opcode::SEI, *old(self)),
            cyc == 0,
    {
        self.write_interrupt_flag(true);
        0
    }

    /// store accumulator
    pub fn inst_sta(&self, system: &mut System, dst_addr: u16) -> (cyc: u8)
        requires
            old(system).addr_ok(dst_addr),
        ensures
            *final(system) == old(system).write_spec(dst_addr, store_value(Opcode::STA, *self)),
            cyc == 0,
    {
        system.write_u8(dst_addr, self.a, false);
        0
    }

    /// store x register
    pub fn inst_stx(&self, system: &mut System, dst_addr: u16) -> (cyc: u8)
        requires
            old(system).addr_ok(dst_addr),
        ensures
            *final(system) == old(system).write_spec(dst_addr, store_value(Opcode::STX, *self)),
            cyc == 0,
    {
        system.write_u8(dst_addr, self.x, false);
        0
    }

    /// store y register
    pub fn inst_sty(&self, system: &mut System, dst_addr: u16) -> (cyc: u8)
        requires
            old(system).addr_ok(dst_addr),
        ensures
            *final(system) == old(system).write_spec(dst_addr, store_value(Opcode::STY, *self)),
            cyc == 0,
    {
        system.write_u8(dst_addr, self.y, false);
        0
    }

    /// transfer accumulator to x
    pub fn inst_tax(&mut self) -> (cyc: u8)
        ensures
            *final(self) == implied_op(Opcode::TAX, *old(self)),
            cyc == 0,
    {
        self.write_nz(self.a);
        self.x = self.a;
        0
    }

    /// transfer accumulator to y
    pub fn inst_tay(&mut self) -> (cyc: u8)
        ensures
            *final(self) == implied_op(Opcode::TAY, *old(self)),
            cyc == 0,
    {
        self.write_nz(self.a);
        self.y = self.a;
        0
    }

    /// transfer stack pointer to x
    pub fn inst_tsx(&mut self) -> (cyc: u8)
        ensures
            *final(self) == implied_op(Opcode::TSX, *old(self)),
            cyc == 0,
    {
        let result = (self.sp & 0xffu16) as u8;
        self.write_nz(result);
        self.x = result;
        0
    }

    /// transfer x to accumulator
    pub fn inst_txa(&mut self) -> (cyc: u8)
        ensures
            *final(self) == implied_op(Opcode::TXA, *old(self)),
            cyc == 0,
    {
        self.write_nz(self.x);
        self.a = self.x;
        0
    }

    /// transfer x to stack pointer; the upper byte of SP is fixed at 0x01,
    /// and no flag changes
    pub fn inst_txs(&mut self) -> (cyc: u8)
        ensures
            *final(self) == implied_op(Opcode::TXS, *old(self)),
            cyc == 0,
    {
        self.sp = (self.x as u16) | 0x0100u16;
        0
    }

    /// transfer y to accumulator
    pub fn inst_tya(&mut self) -> (cyc: u8)
        ensures
            *final(self) == implied_op(Opcode::TYA, *old(self)),
            cyc == 0,
    {
        self.write_nz(self.y);
        self.a = self.y;
        0
    }
}

} // verus!
