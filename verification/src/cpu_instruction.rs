use vstd::prelude::*;
use crate::alu::{adc, asl, compare, lsr, nz, rol, ror, sbc};
use crate::cpu::{Cpu, Interrupt};
use crate::cpu_register::{flag_is_set, flag_update};
use crate::interface::SystemBus;
use crate::system::System;

verus! {

broadcast use {System::lemma_read_keeps_mapper, System::lemma_write_keeps_mapper};

#[derive(PartialEq, Eq, Copy, Clone, Debug, Structural)]
pub enum Opcode {
    // binary op
    ADC,
    SBC,
    AND,
    EOR,
    ORA,
    // shift/rotate
    ASL,
    LSR,
    ROL,
    ROR,
    // inc/dec
    INC,
    INX,
    INY,
    DEC,
    DEX,
    DEY,
    // load/store
    LDA,
    LDX,
    LDY,
    STA,
    STX,
    STY,
    // set/clear flag
    SEC,
    SED,
    SEI,
    CLC,
    CLD,
    CLI,
    CLV,
    // compare
    CMP,
    CPX,
    CPY,
    // jump return
    JMP,
    JSR,
    RTI,
    RTS,
    // branch
    BCC,
    BCS,
    BEQ,
    BMI,
    BNE,
    BPL,
    BVC,
    BVS,
    // push/pop
    PHA,
    PHP,
    PLA,
    PLP,
    // transfer
    TAX,
    TAY,
    TSX,
    TXA,
    TXS,
    TYA,
    // other
    BRK,
    BIT,
    NOP,
    // unofficial
    ALR,
    ANC,
    ARR,
    AXS,
    LAX,
    SAX,
    DCP,
    ISC,
    RLA,
    RRA,
    SLO,
    SRE,
    SKB,
    IGN,
}

#[derive(PartialEq, Eq, Copy, Clone, Debug, Structural)]
pub enum AddressingMode {
    Implied,
    Accumulator,
    Immediate,
    Absolute,
    ZeroPage,
    ZeroPageX,
    ZeroPageY,
    AbsoluteX,
    AbsoluteY,
    Relative,
    Indirect,
    IndirectX,
    IndirectY,
}

/// (data or address, cycles)
#[derive(Copy, Clone)]
pub struct Operand(pub u16, pub u8);

#[derive(Copy, Clone, Debug)]
pub struct Instruction(pub Opcode, pub AddressingMode);

/// The instruction that an opcode byte stands for; `None` for the bytes
/// that no supported instruction uses.
pub open spec fn decode_spec(inst_code: u8) -> Option<Instruction> {
    match inst_code {
        0x69u8 => Some(Instruction(Opcode::ADC, AddressingMode::Immediate)),
        0x65u8 => Some(Instruction(Opcode::ADC, AddressingMode::ZeroPage)),
        0x75u8 => Some(Instruction(Opcode::ADC, AddressingMode::ZeroPageX)),
        0x6du8 => Some(Instruction(Opcode::ADC, AddressingMode::Absolute)),
        0x7du8 => Some(Instruction(Opcode::ADC, AddressingMode::AbsoluteX)),
        0x79u8 => Some(Instruction(Opcode::ADC, AddressingMode::AbsoluteY)),
        0x61u8 => Some(Instruction(Opcode::ADC, AddressingMode::IndirectX)),
        0x71u8 => Some(Instruction(Opcode::ADC, AddressingMode::IndirectY)),
        0xe9u8 => Some(Instruction(Opcode::SBC, AddressingMode::Immediate)),
        0xe5u8 => Some(Instruction(Opcode::SBC, AddressingMode::ZeroPage)),
        0xf5u8 => Some(Instruction(Opcode::SBC, AddressingMode::ZeroPageX)),
        0xedu8 => Some(Instruction(Opcode::SBC, AddressingMode::Absolute)),
        0xfdu8 => Some(Instruction(Opcode::SBC, AddressingMode::AbsoluteX)),
        0xf9u8 => Some(Instruction(Opcode::SBC, AddressingMode::AbsoluteY)),
        0xe1u8 => Some(Instruction(Opcode::SBC, AddressingMode::IndirectX)),
        0xf1u8 => Some(Instruction(Opcode::SBC, AddressingMode::IndirectY)),
        0x29u8 => Some(Instruction(Opcode::AND, AddressingMode::Immediate)),
        0x25u8 => Some(Instruction(Opcode::AND, AddressingMode::ZeroPage)),
        0x35u8 => Some(Instruction(Opcode::AND, AddressingMode::ZeroPageX)),
        0x2du8 => Some(Instruction(Opcode::AND, AddressingMode::Absolute)),
        0x3du8 => Some(Instruction(Opcode::AND, AddressingMode::AbsoluteX)),
        0x39u8 => Some(Instruction(Opcode::AND, AddressingMode::AbsoluteY)),
        0x21u8 => Some(Instruction(Opcode::AND, AddressingMode::IndirectX)),
        0x31u8 => Some(Instruction(Opcode::AND, AddressingMode::IndirectY)),
        0x49u8 => Some(Instruction(Opcode::EOR, AddressingMode::Immediate)),
        0x45u8 => Some(Instruction(Opcode::EOR, AddressingMode::ZeroPage)),
        0x55u8 => Some(Instruction(Opcode::EOR, AddressingMode::ZeroPageX)),
        0x4du8 => Some(Instruction(Opcode::EOR, AddressingMode::Absolute)),
        0x5du8 => Some(Instruction(Opcode::EOR, AddressingMode::AbsoluteX)),
        0x59u8 => Some(Instruction(Opcode::EOR, AddressingMode::AbsoluteY)),
        0x41u8 => Some(Instruction(Opcode::EOR, AddressingMode::IndirectX)),
        0x51u8 => Some(Instruction(Opcode::EOR, AddressingMode::IndirectY)),
        0x09u8 => Some(Instruction(Opcode::ORA, AddressingMode::Immediate)),
        0x05u8 => Some(Instruction(Opcode::ORA, AddressingMode::ZeroPage)),
        0x15u8 => Some(Instruction(Opcode::ORA, AddressingMode::ZeroPageX)),
        0x0du8 => Some(Instruction(Opcode::ORA, AddressingMode::Absolute)),
        0x1du8 => Some(Instruction(Opcode::ORA, AddressingMode::AbsoluteX)),
        0x19u8 => Some(Instruction(Opcode::ORA, AddressingMode::AbsoluteY)),
        0x01u8 => Some(Instruction(Opcode::ORA, AddressingMode::IndirectX)),
        0x11u8 => Some(Instruction(Opcode::ORA, AddressingMode::IndirectY)),
        0x0au8 => Some(Instruction(Opcode::ASL, AddressingMode::Accumulator)),
        0x06u8 => Some(Instruction(Opcode::ASL, AddressingMode::ZeroPage)),
        0x16u8 => Some(Instruction(Opcode::ASL, AddressingMode::ZeroPageX)),
        0x0eu8 => Some(Instruction(Opcode::ASL, AddressingMode::Absolute)),
        0x1eu8 => Some(Instruction(Opcode::ASL, AddressingMode::AbsoluteX)),
        0x4au8 => Some(Instruction(Opcode::LSR, AddressingMode::Accumulator)),
        0x46u8 => Some(Instruction(Opcode::LSR, AddressingMode::ZeroPage)),
        0x56u8 => Some(Instruction(Opcode::LSR, AddressingMode::ZeroPageX)),
        0x4eu8 => Some(Instruction(Opcode::LSR, AddressingMode::Absolute)),
        0x5eu8 => Some(Instruction(Opcode::LSR, AddressingMode::AbsoluteX)),
        0x2au8 => Some(Instruction(Opcode::ROL, AddressingMode::Accumulator)),
        0x26u8 => Some(Instruction(Opcode::ROL, AddressingMode::ZeroPage)),
        0x36u8 => Some(Instruction(Opcode::ROL, AddressingMode::ZeroPageX)),
        0x2eu8 => Some(Instruction(Opcode::ROL, AddressingMode::Absolute)),
        0x3eu8 => Some(Instruction(Opcode::ROL, AddressingMode::AbsoluteX)),
        0x6au8 => Some(Instruction(Opcode::ROR, AddressingMode::Accumulator)),
        0x66u8 => Some(Instruction(Opcode::ROR, AddressingMode::ZeroPage)),
        0x76u8 => Some(Instruction(Opcode::ROR, AddressingMode::ZeroPageX)),
        0x6eu8 => Some(Instruction(Opcode::ROR, AddressingMode::Absolute)),
        0x7eu8 => Some(Instruction(Opcode::ROR, AddressingMode::AbsoluteX)),
        0xe6u8 => Some(Instruction(Opcode::INC, AddressingMode::ZeroPage)),
        0xf6u8 => Some(Instruction(Opcode::INC, AddressingMode::ZeroPageX)),
        0xeeu8 => Some(Instruction(Opcode::INC, AddressingMode::Absolute)),
        0xfeu8 => Some(Instruction(Opcode::INC, AddressingMode::AbsoluteX)),
        0xe8u8 => Some(Instruction(Opcode::INX, AddressingMode::Implied)),
        0xc8u8 => Some(Instruction(Opcode::INY, AddressingMode::Implied)),
        0xc6u8 => Some(Instruction(Opcode::DEC, AddressingMode::ZeroPage)),
        0xd6u8 => Some(Instruction(Opcode::DEC, AddressingMode::ZeroPageX)),
        0xceu8 => Some(Instruction(Opcode::DEC, AddressingMode::Absolute)),
        0xdeu8 => Some(Instruction(Opcode::DEC, AddressingMode::AbsoluteX)),
        0xcau8 => Some(Instruction(Opcode::DEX, AddressingMode::Implied)),
        0x88u8 => Some(Instruction(Opcode::DEY, AddressingMode::Implied)),
        0xa9u8 => Some(Instruction(Opcode::LDA, AddressingMode::Immediate)),
        0xa5u8 => Some(Instruction(Opcode::LDA, AddressingMode::ZeroPage)),
        0xb5u8 => Some(Instruction(Opcode::LDA, AddressingMode::ZeroPageX)),
        0xadu8 => Some(Instruction(Opcode::LDA, AddressingMode::Absolute)),
        0xbdu8 => Some(Instruction(Opcode::LDA, AddressingMode::AbsoluteX)),
        0xb9u8 => Some(Instruction(Opcode::LDA, AddressingMode::AbsoluteY)),
        0xa1u8 => Some(Instruction(Opcode::LDA, AddressingMode::IndirectX)),
        0xb1u8 => Some(Instruction(Opcode::LDA, AddressingMode::IndirectY)),
        0xa2u8 => Some(Instruction(Opcode::LDX, AddressingMode::Immediate)),
        0xa6u8 => Some(Instruction(Opcode::LDX, AddressingMode::ZeroPage)),
        0xb6u8 => Some(Instruction(Opcode::LDX, AddressingMode::ZeroPageY)),
        0xaeu8 => Some(Instruction(Opcode::LDX, AddressingMode::Absolute)),
        0xbeu8 => Some(Instruction(Opcode::LDX, AddressingMode::AbsoluteY)),
        0xa0u8 => Some(Instruction(Opcode::LDY, AddressingMode::Immediate)),
        0xa4u8 => Some(Instruction(Opcode::LDY, AddressingMode::ZeroPage)),
        0xb4u8 => Some(Instruction(Opcode::LDY, AddressingMode::ZeroPageX)),
        0xacu8 => Some(Instruction(Opcode::LDY, AddressingMode::Absolute)),
        0xbcu8 => Some(Instruction(Opcode::LDY, AddressingMode::AbsoluteX)),
        0x85u8 => Some(Instruction(Opcode::STA, AddressingMode::ZeroPage)),
        0x95u8 => Some(Instruction(Opcode::STA, AddressingMode::ZeroPageX)),
        0x8du8 => Some(Instruction(Opcode::STA, AddressingMode::Absolute)),
        0x9du8 => Some(Instruction(Opcode::STA, AddressingMode::AbsoluteX)),
        0x99u8 => Some(Instruction(Opcode::STA, AddressingMode::AbsoluteY)),
        0x81u8 => Some(Instruction(Opcode::STA, AddressingMode::IndirectX)),
        0x91u8 => Some(Instruction(Opcode::STA, AddressingMode::IndirectY)),
        0x86u8 => Some(Instruction(Opcode::STX, AddressingMode::ZeroPage)),
        0x96u8 => Some(Instruction(Opcode::STX, AddressingMode::ZeroPageY)),
        0x8eu8 => Some(Instruction(Opcode::STX, AddressingMode::Absolute)),
        0x84u8 => Some(Instruction(Opcode::STY, AddressingMode::ZeroPage)),
        0x94u8 => Some(Instruction(Opcode::STY, AddressingMode::ZeroPageX)),
        0x8cu8 => Some(Instruction(Opcode::STY, AddressingMode::Absolute)),
        0x38u8 => Some(Instruction(Opcode::SEC, AddressingMode::Implied)),
        0xf8u8 => Some(Instruction(Opcode::SED, AddressingMode::Implied)),
        0x78u8 => Some(Instruction(Opcode::SEI, AddressingMode::Implied)),
        0x18u8 => Some(Instruction(Opcode::CLC, AddressingMode::Implied)),
        0xd8u8 => Some(Instruction(Opcode::CLD, AddressingMode::Implied)),
        0x58u8 => Some(Instruction(Opcode::CLI, AddressingMode::Implied)),
        0xb8u8 => Some(Instruction(Opcode::CLV, AddressingMode::Implied)),
        0xc9u8 => Some(Instruction(Opcode::CMP, AddressingMode::Immediate)),
        0xc5u8 => Some(Instruction(Opcode::CMP, AddressingMode::ZeroPage)),
        0xd5u8 => Some(Instruction(Opcode::CMP, AddressingMode::ZeroPageX)),
        0xcdu8 => Some(Instruction(Opcode::CMP, AddressingMode::Absolute)),
        0xddu8 => Some(Instruction(Opcode::CMP, AddressingMode::AbsoluteX)),
        0xd9u8 => Some(Instruction(Opcode::CMP, AddressingMode::AbsoluteY)),
        0xc1u8 => Some(Instruction(Opcode::CMP, AddressingMode::IndirectX)),
        0xd1u8 => Some(Instruction(Opcode::CMP, AddressingMode::IndirectY)),
        0xe0u8 => Some(Instruction(Opcode::CPX, AddressingMode::Immediate)),
        0xe4u8 => Some(Instruction(Opcode::CPX, AddressingMode::ZeroPage)),
        0xecu8 => Some(Instruction(Opcode::CPX, AddressingMode::Absolute)),
        0xc0u8 => Some(Instruction(Opcode::CPY, AddressingMode::Immediate)),
        0xc4u8 => Some(Instruction(Opcode::CPY, AddressingMode::ZeroPage)),
        0xccu8 => Some(Instruction(Opcode::CPY, AddressingMode::Absolute)),
        0x4cu8 => Some(Instruction(Opcode::JMP, AddressingMode::Absolute)),
        0x6cu8 => Some(Instruction(Opcode::JMP, AddressingMode::Indirect)),
        0x20u8 => Some(Instruction(Opcode::JSR, AddressingMode::Absolute)),
        0x40u8 => Some(Instruction(Opcode::RTI, AddressingMode::Implied)),
        0x60u8 => Some(Instruction(Opcode::RTS, AddressingMode::Implied)),
        0x90u8 => Some(Instruction(Opcode::BCC, AddressingMode::Relative)),
        0xb0u8 => Some(Instruction(Opcode::BCS, AddressingMode::Relative)),
        0xf0u8 => Some(Instruction(Opcode::BEQ, AddressingMode::Relative)),
        0xd0u8 => Some(Instruction(Opcode::BNE, AddressingMode::Relative)),
        0x30u8 => Some(Instruction(Opcode::BMI, AddressingMode::Relative)),
        0x10u8 => Some(Instruction(Opcode::BPL, AddressingMode::Relative)),
        0x50u8 => Some(Instruction(Opcode::BVC, AddressingMode::Relative)),
        0x70u8 => Some(Instruction(Opcode::BVS, AddressingMode::Relative)),
        0x48u8 => Some(Instruction(Opcode::PHA, AddressingMode::Implied)),
        0x08u8 => Some(Instruction(Opcode::PHP, AddressingMode::Implied)),
        0x68u8 => Some(Instruction(Opcode::PLA, AddressingMode::Implied)),
        0x28u8 => Some(Instruction(Opcode::PLP, AddressingMode::Implied)),
        0xaau8 => Some(Instruction(Opcode::TAX, AddressingMode::Implied)),
        0xa8u8 => Some(Instruction(Opcode::TAY, AddressingMode::Implied)),
        0xbau8 => Some(Instruction(Opcode::TSX, AddressingMode::Implied)),
        0x8au8 => Some(Instruction(Opcode::TXA, AddressingMode::Implied)),
        0x9au8 => Some(Instruction(Opcode::TXS, AddressingMode::Implied)),
        0x98u8 => Some(Instruction(Opcode::TYA, AddressingMode::Implied)),
        0x00u8 => Some(Instruction(Opcode::BRK, AddressingMode::Implied)),
        0x24u8 => Some(Instruction(Opcode::BIT, AddressingMode::ZeroPage)),
        0x2cu8 => Some(Instruction(Opcode::BIT, AddressingMode::Absolute)),
        0xeau8 => Some(Instruction(Opcode::NOP, AddressingMode::Implied)),
        0x4bu8 => Some(Instruction(Opcode::ALR, AddressingMode::Immediate)),
        0x0bu8 => Some(Instruction(Opcode::ANC, AddressingMode::Immediate)),
        0x6bu8 => Some(Instruction(Opcode::ARR, AddressingMode::Immediate)),
        0xcbu8 => Some(Instruction(Opcode::AXS, AddressingMode::Immediate)),
        0xa3u8 => Some(Instruction(Opcode::LAX, AddressingMode::IndirectX)),
        0xa7u8 => Some(Instruction(Opcode::LAX, AddressingMode::ZeroPage)),
        0xafu8 => Some(Instruction(Opcode::LAX, AddressingMode::Absolute)),
        0xb3u8 => Some(Instruction(Opcode::LAX, AddressingMode::IndirectY)),
        0xb7u8 => Some(Instruction(Opcode::LAX, AddressingMode::ZeroPageY)),
        0xbfu8 => Some(Instruction(Opcode::LAX, AddressingMode::AbsoluteY)),
        0x83u8 => Some(Instruction(Opcode::SAX, AddressingMode::IndirectX)),
        0x87u8 => Some(Instruction(Opcode::SAX, AddressingMode::ZeroPage)),
        0x8fu8 => Some(Instruction(Opcode::SAX, AddressingMode::Absolute)),
        0x97u8 => Some(Instruction(Opcode::SAX, AddressingMode::ZeroPageY)),
        0xc3u8 => Some(Instruction(Opcode::DCP, AddressingMode::IndirectX)),
        0xc7u8 => Some(Instruction(Opcode::DCP, AddressingMode::ZeroPage)),
        0xcfu8 => Some(Instruction(Opcode::DCP, AddressingMode::Absolute)),
        0xd3u8 => Some(Instruction(Opcode::DCP, AddressingMode::IndirectY)),
        0xd7u8 => Some(Instruction(Opcode::DCP, AddressingMode::ZeroPageX)),
        0xdbu8 => Some(Instruction(Opcode::DCP, AddressingMode::AbsoluteY)),
        0xdfu8 => Some(Instruction(Opcode::DCP, AddressingMode::AbsoluteX)),
        0xe3u8 => Some(Instruction(Opcode::ISC, AddressingMode::IndirectX)),
        0xe7u8 => Some(Instruction(Opcode::ISC, AddressingMode::ZeroPage)),
        0xefu8 => Some(Instruction(Opcode::ISC, AddressingMode::Absolute)),
        0xf3u8 => Some(Instruction(Opcode::ISC, AddressingMode::IndirectY)),
        0xf7u8 => Some(Instruction(Opcode::ISC, AddressingMode::ZeroPageX)),
        0xfbu8 => Some(Instruction(Opcode::ISC, AddressingMode::AbsoluteY)),
        0xffu8 => Some(Instruction(Opcode::ISC, AddressingMode::AbsoluteX)),
        0x23u8 => Some(Instruction(Opcode::RLA, AddressingMode::IndirectX)),
        0x27u8 => Some(Instruction(Opcode::RLA, AddressingMode::ZeroPage)),
        0x2fu8 => Some(Instruction(Opcode::RLA, AddressingMode::Absolute)),
        0x33u8 => Some(Instruction(Opcode::RLA, AddressingMode::IndirectY)),
        0x37u8 => Some(Instruction(Opcode::RLA, AddressingMode::ZeroPageX)),
        0x3bu8 => Some(Instruction(Opcode::RLA, AddressingMode::AbsoluteY)),
        0x3fu8 => Some(Instruction(Opcode::RLA, AddressingMode::AbsoluteX)),
        0x63u8 => Some(Instruction(Opcode::RRA, AddressingMode::IndirectX)),
        0x67u8 => Some(Instruction(Opcode::RRA, AddressingMode::ZeroPage)),
        0x6fu8 => Some(Instruction(Opcode::RRA, AddressingMode::Absolute)),
        0x73u8 => Some(Instruction(Opcode::RRA, AddressingMode::IndirectY)),
        0x77u8 => Some(Instruction(Opcode::RRA, AddressingMode::ZeroPageX)),
        0x7bu8 => Some(Instruction(Opcode::RRA, AddressingMode::AbsoluteY)),
        0x7fu8 => Some(Instruction(Opcode::RRA, AddressingMode::AbsoluteX)),
        0x03u8 => Some(Instruction(Opcode::SLO, AddressingMode::IndirectX)),
        0x07u8 => Some(Instruction(Opcode::SLO, AddressingMode::ZeroPage)),
        0x0fu8 => Some(Instruction(Opcode::SLO, AddressingMode::Absolute)),
        0x13u8 => Some(Instruction(Opcode::SLO, AddressingMode::IndirectY)),
        0x17u8 => Some(Instruction(Opcode::SLO, AddressingMode::ZeroPageX)),
        0x1bu8 => Some(Instruction(Opcode::SLO, AddressingMode::AbsoluteY)),
        0x1fu8 => Some(Instruction(Opcode::SLO, AddressingMode::AbsoluteX)),
        0x43u8 => Some(Instruction(Opcode::SRE, AddressingMode::IndirectX)),
        0x47u8 => Some(Instruction(Opcode::SRE, AddressingMode::ZeroPage)),
        0x4fu8 => Some(Instruction(Opcode::SRE, AddressingMode::Absolute)),
        0x53u8 => Some(Instruction(Opcode::SRE, AddressingMode::IndirectY)),
        0x57u8 => Some(Instruction(Opcode::SRE, AddressingMode::ZeroPageX)),
        0x5bu8 => Some(Instruction(Opcode::SRE, AddressingMode::AbsoluteY)),
        0x5fu8 => Some(Instruction(Opcode::SRE, AddressingMode::AbsoluteX)),
        0x80u8 => Some(Instruction(Opcode::SKB, AddressingMode::Immediate)),
        0x82u8 => Some(Instruction(Opcode::SKB, AddressingMode::Immediate)),
        0x89u8 => Some(Instruction(Opcode::SKB, AddressingMode::Immediate)),
        0xc2u8 => Some(Instruction(Opcode::SKB, AddressingMode::Immediate)),
        0xe2u8 => Some(Instruction(Opcode::SKB, AddressingMode::Immediate)),
        0x0cu8 => Some(Instruction(Opcode::IGN, AddressingMode::Absolute)),
        0x1cu8 => Some(Instruction(Opcode::IGN, AddressingMode::AbsoluteX)),
        0x3cu8 => Some(Instruction(Opcode::IGN, AddressingMode::AbsoluteX)),
        0x5cu8 => Some(Instruction(Opcode::IGN, AddressingMode::AbsoluteX)),
        0x7cu8 => Some(Instruction(Opcode::IGN, AddressingMode::AbsoluteX)),
        0xdcu8 => Some(Instruction(Opcode::IGN, AddressingMode::AbsoluteX)),
        0xfcu8 => Some(Instruction(Opcode::IGN, AddressingMode::AbsoluteX)),
        0x04u8 => Some(Instruction(Opcode::IGN, AddressingMode::ZeroPage)),
        0x44u8 => Some(Instruction(Opcode::IGN, AddressingMode::ZeroPage)),
        0x64u8 => Some(Instruction(Opcode::IGN, AddressingMode::ZeroPage)),
        0x14u8 => Some(Instruction(Opcode::IGN, AddressingMode::ZeroPageX)),
        0x34u8 => Some(Instruction(Opcode::IGN, AddressingMode::ZeroPageX)),
        0x54u8 => Some(Instruction(Opcode::IGN, AddressingMode::ZeroPageX)),
        0x74u8 => Some(Instruction(Opcode::IGN, AddressingMode::ZeroPageX)),
        0xd4u8 => Some(Instruction(Opcode::IGN, AddressingMode::ZeroPageX)),
        0xf4u8 => Some(Instruction(Opcode::IGN, AddressingMode::ZeroPageX)),
        0xebu8 => Some(Instruction(Opcode::SBC, AddressingMode::Immediate)),
        0x1au8 => Some(Instruction(Opcode::NOP, AddressingMode::Implied)),
        0x3au8 => Some(Instruction(Opcode::NOP, AddressingMode::Implied)),
        0x5au8 => Some(Instruction(Opcode::NOP, AddressingMode::Implied)),
        0x7au8 => Some(Instruction(Opcode::NOP, AddressingMode::Implied)),
        0xdau8 => Some(Instruction(Opcode::NOP, AddressingMode::Implied)),
        0xfau8 => Some(Instruction(Opcode::NOP, AddressingMode::Implied)),
        _ => None,
    }
}

/// Whether an opcode byte stands for a supported instruction.
pub fn is_valid_inst_code(inst_code: u8) -> (is_valid: bool)
    ensures
        is_valid == decode_spec(inst_code) is Some,
{
    match inst_code {
        0x02u8 | 0x12u8 | 0x22u8 | 0x2bu8 | 0x32u8 | 0x42u8 | 0x52u8 | 0x62u8 | 0x72u8 | 0x8bu8 | 0x92u8 | 0x93u8 | 0x9bu8 | 0x9cu8 | 0x9eu8 | 0x9fu8 | 0xabu8 | 0xb2u8 | 0xbbu8 | 0xd2u8 | 0xf2u8 => false,
        _ => true,
    }
}

impl Instruction {
    /// Decodes an opcode byte from the ROM; official and unofficial
    /// instructions.
    pub fn from(inst_code: u8) -> (inst: Instruction)
        requires
            decode_spec(inst_code) is Some,
        ensures
            Some(inst) == decode_spec(inst_code),
    {
        match inst_code {
            0x69u8 => Instruction(Opcode::ADC, AddressingMode::Immediate),
            0x65u8 => Instruction(Opcode::ADC, AddressingMode::ZeroPage),
            0x75u8 => Instruction(Opcode::ADC, AddressingMode::ZeroPageX),
            0x6du8 => Instruction(Opcode::ADC, AddressingMode::Absolute),
            0x7du8 => Instruction(Opcode::ADC, AddressingMode::AbsoluteX),
            0x79u8 => Instruction(Opcode::ADC, AddressingMode::AbsoluteY),
            0x61u8 => Instruction(Opcode::ADC, AddressingMode::IndirectX),
            0x71u8 => Instruction(Opcode::ADC, AddressingMode::IndirectY),
            0xe9u8 => Instruction(Opcode::SBC, AddressingMode::Immediate),
            0xe5u8 => Instruction(Opcode::SBC, AddressingMode::ZeroPage),
            0xf5u8 => Instruction(Opcode::SBC, AddressingMode::ZeroPageX),
            0xedu8 => Instruction(Opcode::SBC, AddressingMode::Absolute),
            0xfdu8 => Instruction(Opcode::SBC, AddressingMode::AbsoluteX),
            0xf9u8 => Instruction(Opcode::SBC, AddressingMode::AbsoluteY),
            0xe1u8 => Instruction(Opcode::SBC, AddressingMode::IndirectX),
            0xf1u8 => Instruction(Opcode::SBC, AddressingMode::IndirectY),
            0x29u8 => Instruction(Opcode::AND, AddressingMode::Immediate),
            0x25u8 => Instruction(Opcode::AND, AddressingMode::ZeroPage),
            0x35u8 => Instruction(Opcode::AND, AddressingMode::ZeroPageX),
            0x2du8 => Instruction(Opcode::AND, AddressingMode::Absolute),
            0x3du8 => Instruction(Opcode::AND, AddressingMode::AbsoluteX),
            0x39u8 => Instruction(Opcode::AND, AddressingMode::AbsoluteY),
            0x21u8 => Instruction(Opcode::AND, AddressingMode::IndirectX),
            0x31u8 => Instruction(Opcode::AND, AddressingMode::IndirectY),
            0x49u8 => Instruction(Opcode::EOR, AddressingMode::Immediate),
            0x45u8 => Instruction(Opcode::EOR, AddressingMode::ZeroPage),
            0x55u8 => Instruction(Opcode::EOR, AddressingMode::ZeroPageX),
            0x4du8 => Instruction(Opcode::EOR, AddressingMode::Absolute),
            0x5du8 => Instruction(Opcode::EOR, AddressingMode::AbsoluteX),
            0x59u8 => Instruction(Opcode::EOR, AddressingMode::AbsoluteY),
            0x41u8 => Instruction(Opcode::EOR, AddressingMode::IndirectX),
            0x51u8 => Instruction(Opcode::EOR, AddressingMode::IndirectY),
            0x09u8 => Instruction(Opcode::ORA, AddressingMode::Immediate),
            0x05u8 => Instruction(Opcode::ORA, AddressingMode::ZeroPage),
            0x15u8 => Instruction(Opcode::ORA, AddressingMode::ZeroPageX),
            0x0du8 => Instruction(Opcode::ORA, AddressingMode::Absolute),
            0x1du8 => Instruction(Opcode::ORA, AddressingMode::AbsoluteX),
            0x19u8 => Instruction(Opcode::ORA, AddressingMode::AbsoluteY),
            0x01u8 => Instruction(Opcode::ORA, AddressingMode::IndirectX),
            0x11u8 => Instruction(Opcode::ORA, AddressingMode::IndirectY),
            0x0au8 => Instruction(Opcode::ASL, AddressingMode::Accumulator),
            0x06u8 => Instruction(Opcode::ASL, AddressingMode::ZeroPage),
            0x16u8 => Instruction(Opcode::ASL, AddressingMode::ZeroPageX),
            0x0eu8 => Instruction(Opcode::ASL, AddressingMode::Absolute),
            0x1eu8 => Instruction(Opcode::ASL, AddressingMode::AbsoluteX),
            0x4au8 => Instruction(Opcode::LSR, AddressingMode::Accumulator),
            0x46u8 => Instruction(Opcode::LSR, AddressingMode::ZeroPage),
            0x56u8 => Instruction(Opcode::LSR, AddressingMode::ZeroPageX),
            0x4eu8 => Instruction(Opcode::LSR, AddressingMode::Absolute),
            0x5eu8 => Instruction(Opcode::LSR, AddressingMode::AbsoluteX),
            0x2au8 => Instruction(Opcode::ROL, AddressingMode::Accumulator),
            0x26u8 => Instruction(Opcode::ROL, AddressingMode::ZeroPage),
            0x36u8 => Instruction(Opcode::ROL, AddressingMode::ZeroPageX),
            0x2eu8 => Instruction(Opcode::ROL, AddressingMode::Absolute),
            0x3eu8 => Instruction(Opcode::ROL, AddressingMode::AbsoluteX),
            0x6au8 => Instruction(Opcode::ROR, AddressingMode::Accumulator),
            0x66u8 => Instruction(Opcode::ROR, AddressingMode::ZeroPage),
            0x76u8 => Instruction(Opcode::ROR, AddressingMode::ZeroPageX),
            0x6eu8 => Instruction(Opcode::ROR, AddressingMode::Absolute),
            0x7eu8 => Instruction(Opcode::ROR, AddressingMode::AbsoluteX),
            0xe6u8 => Instruction(Opcode::INC, AddressingMode::ZeroPage),
            0xf6u8 => Instruction(Opcode::INC, AddressingMode::ZeroPageX),
            0xeeu8 => Instruction(Opcode::INC, AddressingMode::Absolute),
            0xfeu8 => Instruction(Opcode::INC, AddressingMode::AbsoluteX),
            0xe8u8 => Instruction(Opcode::INX, AddressingMode::Implied),
            0xc8u8 => Instruction(Opcode::INY, AddressingMode::Implied),
            0xc6u8 => Instruction(Opcode::DEC, AddressingMode::ZeroPage),
            0xd6u8 => Instruction(Opcode::DEC, AddressingMode::ZeroPageX),
            0xceu8 => Instruction(Opcode::DEC, AddressingMode::Absolute),
            0xdeu8 => Instruction(Opcode::DEC, AddressingMode::AbsoluteX),
            0xcau8 => Instruction(Opcode::DEX, AddressingMode::Implied),
            0x88u8 => Instruction(Opcode::DEY, AddressingMode::Implied),
            0xa9u8 => Instruction(Opcode::LDA, AddressingMode::Immediate),
            0xa5u8 => Instruction(Opcode::LDA, AddressingMode::ZeroPage),
            0xb5u8 => Instruction(Opcode::LDA, AddressingMode::ZeroPageX),
            0xadu8 => Instruction(Opcode::LDA, AddressingMode::Absolute),
            0xbdu8 => Instruction(Opcode::LDA, AddressingMode::AbsoluteX),
            0xb9u8 => Instruction(Opcode::LDA, AddressingMode::AbsoluteY),
            0xa1u8 => Instruction(Opcode::LDA, AddressingMode::IndirectX),
            0xb1u8 => Instruction(Opcode::LDA, AddressingMode::IndirectY),
            0xa2u8 => Instruction(Opcode::LDX, AddressingMode::Immediate),
            0xa6u8 => Instruction(Opcode::LDX, AddressingMode::ZeroPage),
            0xb6u8 => Instruction(Opcode::LDX, AddressingMode::ZeroPageY),
            0xaeu8 => Instruction(Opcode::LDX, AddressingMode::Absolute),
            0xbeu8 => Instruction(Opcode::LDX, AddressingMode::AbsoluteY),
            0xa0u8 => Instruction(Opcode::LDY, AddressingMode::Immediate),
            0xa4u8 => Instruction(Opcode::LDY, AddressingMode::ZeroPage),
            0xb4u8 => Instruction(Opcode::LDY, AddressingMode::ZeroPageX),
            0xacu8 => Instruction(Opcode::LDY, AddressingMode::Absolute),
            0xbcu8 => Instruction(Opcode::LDY, AddressingMode::AbsoluteX),
            0x85u8 => Instruction(Opcode::STA, AddressingMode::ZeroPage),
            0x95u8 => Instruction(Opcode::STA, AddressingMode::ZeroPageX),
            0x8du8 => Instruction(Opcode::STA, AddressingMode::Absolute),
            0x9du8 => Instruction(Opcode::STA, AddressingMode::AbsoluteX),
            0x99u8 => Instruction(Opcode::STA, AddressingMode::AbsoluteY),
            0x81u8 => Instruction(Opcode::STA, AddressingMode::IndirectX),
            0x91u8 => Instruction(Opcode::STA, AddressingMode::IndirectY),
            0x86u8 => Instruction(Opcode::STX, AddressingMode::ZeroPage),
            0x96u8 => Instruction(Opcode::STX, AddressingMode::ZeroPageY),
            0x8eu8 => Instruction(Opcode::STX, AddressingMode::Absolute),
            0x84u8 => Instruction(Opcode::STY, AddressingMode::ZeroPage),
            0x94u8 => Instruction(Opcode::STY, AddressingMode::ZeroPageX),
            0x8cu8 => Instruction(Opcode::STY, AddressingMode::Absolute),
            0x38u8 => Instruction(Opcode::SEC, AddressingMode::Implied),
            0xf8u8 => Instruction(Opcode::SED, AddressingMode::Implied),
            0x78u8 => Instruction(Opcode::SEI, AddressingMode::Implied),
            0x18u8 => Instruction(Opcode::CLC, AddressingMode::Implied),
            0xd8u8 => Instruction(Opcode::CLD, AddressingMode::Implied),
            0x58u8 => Instruction(Opcode::CLI, AddressingMode::Implied),
            0xb8u8 => Instruction(Opcode::CLV, AddressingMode::Implied),
            0xc9u8 => Instruction(Opcode::CMP, AddressingMode::Immediate),
            0xc5u8 => Instruction(Opcode::CMP, AddressingMode::ZeroPage),
            0xd5u8 => Instruction(Opcode::CMP, AddressingMode::ZeroPageX),
            0xcdu8 => Instruction(Opcode::CMP, AddressingMode::Absolute),
            0xddu8 => Instruction(Opcode::CMP, AddressingMode::AbsoluteX),
            0xd9u8 => Instruction(Opcode::CMP, AddressingMode::AbsoluteY),
            0xc1u8 => Instruction(Opcode::CMP, AddressingMode::IndirectX),
            0xd1u8 => Instruction(Opcode::CMP, AddressingMode::IndirectY),
            0xe0u8 => Instruction(Opcode::CPX, AddressingMode::Immediate),
            0xe4u8 => Instruction(Opcode::CPX, AddressingMode::ZeroPage),
            0xecu8 => Instruction(Opcode::CPX, AddressingMode::Absolute),
            0xc0u8 => Instruction(Opcode::CPY, AddressingMode::Immediate),
            0xc4u8 => Instruction(Opcode::CPY, AddressingMode::ZeroPage),
            0xccu8 => Instruction(Opcode::CPY, AddressingMode::Absolute),
            0x4cu8 => Instruction(Opcode::JMP, AddressingMode::Absolute),
            0x6cu8 => Instruction(Opcode::JMP, AddressingMode::Indirect),
            0x20u8 => Instruction(Opcode::JSR, AddressingMode::Absolute),
            0x40u8 => Instruction(Opcode::RTI, AddressingMode::Implied),
            0x60u8 => Instruction(Opcode::RTS, AddressingMode::Implied),
            0x90u8 => Instruction(Opcode::BCC, AddressingMode::Relative),
            0xb0u8 => Instruction(Opcode::BCS, AddressingMode::Relative),
            0xf0u8 => Instruction(Opcode::BEQ, AddressingMode::Relative),
            0xd0u8 => Instruction(Opcode::BNE, AddressingMode::Relative),
            0x30u8 => Instruction(Opcode::BMI, AddressingMode::Relative),
            0x10u8 => Instruction(Opcode::BPL, AddressingMode::Relative),
            0x50u8 => Instruction(Opcode::BVC, AddressingMode::Relative),
            0x70u8 => Instruction(Opcode::BVS, AddressingMode::Relative),
            0x48u8 => Instruction(Opcode::PHA, AddressingMode::Implied),
            0x08u8 => Instruction(Opcode::PHP, AddressingMode::Implied),
            0x68u8 => Instruction(Opcode::PLA, AddressingMode::Implied),
            0x28u8 => Instruction(Opcode::PLP, AddressingMode::Implied),
            0xaau8 => Instruction(Opcode::TAX, AddressingMode::Implied),
            0xa8u8 => Instruction(Opcode::TAY, AddressingMode::Implied),
            0xbau8 => Instruction(Opcode::TSX, AddressingMode::Implied),
            0x8au8 => Instruction(Opcode::TXA, AddressingMode::Implied),
            0x9au8 => Instruction(Opcode::TXS, AddressingMode::Implied),
            0x98u8 => Instruction(Opcode::TYA, AddressingMode::Implied),
            0x00u8 => Instruction(Opcode::BRK, AddressingMode::Implied),
            0x24u8 => Instruction(Opcode::BIT, AddressingMode::ZeroPage),
            0x2cu8 => Instruction(Opcode::BIT, AddressingMode::Absolute),
            0xeau8 => Instruction(Opcode::NOP, AddressingMode::Implied),
            0x4bu8 => Instruction(Opcode::ALR, AddressingMode::Immediate),
            0x0bu8 => Instruction(Opcode::ANC, AddressingMode::Immediate),
            0x6bu8 => Instruction(Opcode::ARR, AddressingMode::Immediate),
            0xcbu8 => Instruction(Opcode::AXS, AddressingMode::Immediate),
            0xa3u8 => Instruction(Opcode::LAX, AddressingMode::IndirectX),
            0xa7u8 => Instruction(Opcode::LAX, AddressingMode::ZeroPage),
            0xafu8 => Instruction(Opcode::LAX, AddressingMode::Absolute),
            0xb3u8 => Instruction(Opcode::LAX, AddressingMode::IndirectY),
            0xb7u8 => Instruction(Opcode::LAX, AddressingMode::ZeroPageY),
            0xbfu8 => Instruction(Opcode::LAX, AddressingMode::AbsoluteY),
            0x83u8 => Instruction(Opcode::SAX, AddressingMode::IndirectX),
            0x87u8 => Instruction(Opcode::SAX, AddressingMode::ZeroPage),
            0x8fu8 => Instruction(Opcode::SAX, AddressingMode::Absolute),
            0x97u8 => Instruction(Opcode::SAX, AddressingMode::ZeroPageY),
            0xc3u8 => Instruction(Opcode::DCP, AddressingMode::IndirectX),
            0xc7u8 => Instruction(Opcode::DCP, AddressingMode::ZeroPage),
            0xcfu8 => Instruction(Opcode::DCP, AddressingMode::Absolute),
            0xd3u8 => Instruction(Opcode::DCP, AddressingMode::IndirectY),
            0xd7u8 => Instruction(Opcode::DCP, AddressingMode::ZeroPageX),
            0xdbu8 => Instruction(Opcode::DCP, AddressingMode::AbsoluteY),
            0xdfu8 => Instruction(Opcode::DCP, AddressingMode::AbsoluteX),
            0xe3u8 => Instruction(Opcode::ISC, AddressingMode::IndirectX),
            0xe7u8 => Instruction(Opcode::ISC, AddressingMode::ZeroPage),
            0xefu8 => Instruction(Opcode::ISC, AddressingMode::Absolute),
            0xf3u8 => Instruction(Opcode::ISC, AddressingMode::IndirectY),
            0xf7u8 => Instruction(Opcode::ISC, AddressingMode::ZeroPageX),
            0xfbu8 => Instruction(Opcode::ISC, AddressingMode::AbsoluteY),
            0xffu8 => Instruction(Opcode::ISC, AddressingMode::AbsoluteX),
            0x23u8 => Instruction(Opcode::RLA, AddressingMode::IndirectX),
            0x27u8 => Instruction(Opcode::RLA, AddressingMode::ZeroPage),
            0x2fu8 => Instruction(Opcode::RLA, AddressingMode::Absolute),
            0x33u8 => Instruction(Opcode::RLA, AddressingMode::IndirectY),
            0x37u8 => Instruction(Opcode::RLA, AddressingMode::ZeroPageX),
            0x3bu8 => Instruction(Opcode::RLA, AddressingMode::AbsoluteY),
            0x3fu8 => Instruction(Opcode::RLA, AddressingMode::AbsoluteX),
            0x63u8 => Instruction(Opcode::RRA, AddressingMode::IndirectX),
            0x67u8 => Instruction(Opcode::RRA, AddressingMode::ZeroPage),
            0x6fu8 => Instruction(Opcode::RRA, AddressingMode::Absolute),
            0x73u8 => Instruction(Opcode::RRA, AddressingMode::IndirectY),
            0x77u8 => Instruction(Opcode::RRA, AddressingMode::ZeroPageX),
            0x7bu8 => Instruction(Opcode::RRA, AddressingMode::AbsoluteY),
            0x7fu8 => Instruction(Opcode::RRA, AddressingMode::AbsoluteX),
            0x03u8 => Instruction(Opcode::SLO, AddressingMode::IndirectX),
            0x07u8 => Instruction(Opcode::SLO, AddressingMode::ZeroPage),
            0x0fu8 => Instruction(Opcode::SLO, AddressingMode::Absolute),
            0x13u8 => Instruction(Opcode::SLO, AddressingMode::IndirectY),
            0x17u8 => Instruction(Opcode::SLO, AddressingMode::ZeroPageX),
            0x1bu8 => Instruction(Opcode::SLO, AddressingMode::AbsoluteY),
            0x1fu8 => Instruction(Opcode::SLO, AddressingMode::AbsoluteX),
            0x43u8 => Instruction(Opcode::SRE, AddressingMode::IndirectX),
            0x47u8 => Instruction(Opcode::SRE, AddressingMode::ZeroPage),
            0x4fu8 => Instruction(Opcode::SRE, AddressingMode::Absolute),
            0x53u8 => Instruction(Opcode::SRE, AddressingMode::IndirectY),
            0x57u8 => Instruction(Opcode::SRE, AddressingMode::ZeroPageX),
            0x5bu8 => Instruction(Opcode::SRE, AddressingMode::AbsoluteY),
            0x5fu8 => Instruction(Opcode::SRE, AddressingMode::AbsoluteX),
            0x80u8 => Instruction(Opcode::SKB, AddressingMode::Immediate),
            0x82u8 => Instruction(Opcode::SKB, AddressingMode::Immediate),
            0x89u8 => Instruction(Opcode::SKB, AddressingMode::Immediate),
            0xc2u8 => Instruction(Opcode::SKB, AddressingMode::Immediate),
            0xe2u8 => Instruction(Opcode::SKB, AddressingMode::Immediate),
            0x0cu8 => Instruction(Opcode::IGN, AddressingMode::Absolute),
            0x1cu8 => Instruction(Opcode::IGN, AddressingMode::AbsoluteX),
            0x3cu8 => Instruction(Opcode::IGN, AddressingMode::AbsoluteX),
            0x5cu8 => Instruction(Opcode::IGN, AddressingMode::AbsoluteX),
            0x7cu8 => Instruction(Opcode::IGN, AddressingMode::AbsoluteX),
            0xdcu8 => Instruction(Opcode::IGN, AddressingMode::AbsoluteX),
            0xfcu8 => Instruction(Opcode::IGN, AddressingMode::AbsoluteX),
            0x04u8 => Instruction(Opcode::IGN, AddressingMode::ZeroPage),
            0x44u8 => Instruction(Opcode::IGN, AddressingMode::ZeroPage),
            0x64u8 => Instruction(Opcode::IGN, AddressingMode::ZeroPage),
            0x14u8 => Instruction(Opcode::IGN, AddressingMode::ZeroPageX),
            0x34u8 => Instruction(Opcode::IGN, AddressingMode::ZeroPageX),
            0x54u8 => Instruction(Opcode::IGN, AddressingMode::ZeroPageX),
            0x74u8 => Instruction(Opcode::IGN, AddressingMode::ZeroPageX),
            0xd4u8 => Instruction(Opcode::IGN, AddressingMode::ZeroPageX),
            0xf4u8 => Instruction(Opcode::IGN, AddressingMode::ZeroPageX),
            0xebu8 => Instruction(Opcode::SBC, AddressingMode::Immediate),
            0x1au8 => Instruction(Opcode::NOP, AddressingMode::Implied),
            0x3au8 => Instruction(Opcode::NOP, AddressingMode::Implied),
            0x5au8 => Instruction(Opcode::NOP, AddressingMode::Implied),
            0x7au8 => Instruction(Opcode::NOP, AddressingMode::Implied),
            0xdau8 => Instruction(Opcode::NOP, AddressingMode::Implied),
            0xfau8 => Instruction(Opcode::NOP, AddressingMode::Implied),
            _ => Instruction(Opcode::NOP, AddressingMode::Implied),
        }
    }
}

/// An exec outcome matches the expected one: when one is expected, the value
/// and the states are the expected ones; when none is, nothing is returned.
pub open spec fn outcome<T>(expected: Option<(Cpu, System, T)>, cpu: Cpu, sys: System, r: Option<T>) -> bool {
    match expected {
        Some((c, s, v)) => r == Some(v) && cpu == c && sys == s,
        None => r is None,
    }
}

pub proof fn lemma_wrapping_add_u8(a: u8, b: u8)
    ensures
        vstd::wrapping::u8_specs::wrapping_add(a, b) == ((a + b) % 256) as u8,
{
    if a + b > 255 {
        assert((a + b) % 256 == a + b - 256);
    }
}

pub proof fn lemma_wrapping_add_u16(a: u16, b: u16)
    ensures
        vstd::wrapping::u16_specs::wrapping_add(a, b) == ((a + b) % 0x10000) as u16,
{
    if a + b > 0xffff {
        assert((a + b) % 0x10000 == a + b - 0x10000);
    }
}

/// A destructive read on the bus, when the bus answers.
pub open spec fn read_byte(sys: System, addr: u16) -> Option<(System, u8)> {
    if sys.addr_ok(addr) {
        let (d, s) = sys.read_spec(addr, false);
        Some((s, d))
    } else {
        None
    }
}

/// Fetches the byte at PC and advances PC.
pub open spec fn fetch_u8_spec(cpu: Cpu, sys: System) -> Option<(Cpu, System, u8)> {
    if cpu.pc < 0xffff && sys.addr_ok(cpu.pc) {
        let (d, s) = sys.read_spec(cpu.pc, false);
        Some((Cpu { pc: (cpu.pc + 1) as u16, ..cpu }, s, d))
    } else {
        None
    }
}

/// Fetches two bytes at PC, low byte first.
pub open spec fn fetch_u16_spec(cpu: Cpu, sys: System) -> Option<(Cpu, System, u16)> {
    match fetch_u8_spec(cpu, sys) {
        None => None,
        Some((c1, s1, lower)) => match fetch_u8_spec(c1, s1) {
            None => None,
            Some((c2, s2, upper)) => Some((c2, s2, (lower as u16) | ((upper as u16) << 8u16))),
        },
    }
}

/// A 16-bit little-endian pointer read from two addresses.
pub open spec fn read_pointer(sys: System, lower_addr: u16, upper_addr: u16) -> Option<(System, u16)> {
    match read_byte(sys, lower_addr) {
        None => None,
        Some((s1, lower)) => match read_byte(s1, upper_addr) {
            None => None,
            Some((s2, upper)) => Some((s2, (lower as u16) | ((upper as u16) << 8u16))),
        },
    }
}

/// The extra cycle of an indexed access: one when the high bytes differ.
pub open spec fn page_cycle(a: u16, b: u16) -> u8 {
    if a & 0xff00u16 != b & 0xff00u16 { 1 } else { 0 }
}

/// The operand of an addressing mode: an address (or immediate value) and
/// the cycles it takes. Operand bytes are fetched at PC; pointers are read
/// through the bus.
pub open spec fn fetch_operand_spec(cpu: Cpu, sys: System, mode: AddressingMode) -> Option<(Cpu, System, Operand)> {
    match mode {
        AddressingMode::Implied => Some((cpu, sys, Operand(0, 0))),
        AddressingMode::Accumulator => Some((cpu, sys, Operand(0, 1))),
        AddressingMode::Immediate => match fetch_u8_spec(cpu, sys) {
            None => None,
            Some((c, s, d)) => Some((c, s, Operand(d as u16, 1))),
        },
        AddressingMode::Absolute => match fetch_u16_spec(cpu, sys) {
            None => None,
            Some((c, s, d)) => Some((c, s, Operand(d, 3))),
        },
        AddressingMode::ZeroPage => match fetch_u8_spec(cpu, sys) {
            None => None,
            Some((c, s, d)) => Some((c, s, Operand(d as u16, 2))),
        },
        AddressingMode::ZeroPageX => match fetch_u8_spec(cpu, sys) {
            None => None,
            Some((c, s, d)) => Some((c, s, Operand(((d + c.x) % 256) as u16, 3))),
        },
        AddressingMode::ZeroPageY => match fetch_u8_spec(cpu, sys) {
            None => None,
            Some((c, s, d)) => Some((c, s, Operand(((d + c.y) % 256) as u16, 3))),
        },
        AddressingMode::AbsoluteX => match fetch_u16_spec(cpu, sys) {
            None => None,
            Some((c, s, d)) => {
                let data = ((d + c.x) % 0x10000) as u16;
                // one more cycle when indexing crosses a page
                Some((c, s, Operand(data, (3 + page_cycle(d, data)) as u8)))
            },
        },
        AddressingMode::AbsoluteY => match fetch_u16_spec(cpu, sys) {
            None => None,
            Some((c, s, d)) => {
                let data = ((d + c.y) % 0x10000) as u16;
                // one more cycle when indexing crosses a page
                Some((c, s, Operand(data, (3 + page_cycle(d, data)) as u8)))
            },
        },
        AddressingMode::Relative => match fetch_u8_spec(cpu, sys) {
            None => None,
            Some((c, s, d)) => {
                // sign-extended offset from the PC after the operand
                let data = ((d as i8) as i32 + c.pc as i32) as u16;
                Some((c, s, Operand(data, (1 + page_cycle(data, c.pc)) as u8)))
            },
        },
        AddressingMode::Indirect => match fetch_u8_spec(cpu, sys) {
            None => None,
            Some((c1, s1, lower)) => match fetch_u8_spec(c1, s1) {
                None => None,
                Some((c2, s2, upper)) => {
                    // the pointer's high byte is read without carrying into the page
                    let lower_addr = (lower as u16) | ((upper as u16) << 8u16);
                    let upper_addr = (((lower + 1) % 256) as u16) | ((upper as u16) << 8u16);
                    match read_pointer(s2, lower_addr, upper_addr) {
                        None => None,
                        Some((s3, data)) => Some((c2, s3, Operand(data, 5))),
                    }
                },
            },
        },
        AddressingMode::IndirectX => match fetch_u8_spec(cpu, sys) {
            None => None,
            Some((c, s, src)) => {
                let dst = (src + c.x) % 256;
                match read_pointer(s, dst as u16, ((dst + 1) % 256) as u16) {
                    None => None,
                    Some((s2, data)) => Some((c, s2, Operand(data, 5))),
                }
            },
        },
        AddressingMode::IndirectY => match fetch_u8_spec(cpu, sys) {
            None => None,
            Some((c, s, src)) => match read_pointer(s, src as u16, ((src + 1) % 256) as u16) {
                None => None,
                Some((s2, base)) => {
                    let data = ((base + c.y) % 0x10000) as u16;
                    Some((c, s2, Operand(data, (4 + page_cycle(base, data)) as u8)))
                },
            },
        },
    }
}

/// The operand together with the data it names: none for implied, A for
/// accumulator, the byte itself for immediate, otherwise the byte read at the
/// operand's address.
pub open spec fn fetch_args_spec(cpu: Cpu, sys: System, mode: AddressingMode) -> Option<(Cpu, System, (Operand, u8))> {
    match fetch_operand_spec(cpu, sys, mode) {
        None => None,
        Some((c, s, op)) => match mode {
            AddressingMode::Implied => Some((c, s, (op, 0u8))),
            AddressingMode::Accumulator => Some((c, s, (op, c.a))),
            AddressingMode::Immediate => Some((c, s, (op, op.0 as u8))),
            _ => match read_byte(s, op.0) {
                None => None,
                Some((s2, d)) => Some((c, s2, (op, d))),
            },
        },
    }
}

/// Instructions that read one argument and change only registers.
pub open spec fn is_read_op(opcode: Opcode) -> bool {
    matches!(opcode, Opcode::ADC | Opcode::SBC | Opcode::AND | Opcode::EOR | Opcode::ORA | Opcode::CMP
        | Opcode::CPX | Opcode::CPY | Opcode::LDA | Opcode::LDX | Opcode::LDY | Opcode::ALR
        | Opcode::ANC | Opcode::ARR | Opcode::AXS | Opcode::LAX | Opcode::SKB | Opcode::IGN)
}

/// Instructions that read one argument and write a result back.
pub open spec fn is_rmw_op(opcode: Opcode) -> bool {
    matches!(opcode, Opcode::ASL | Opcode::LSR | Opcode::ROL | Opcode::ROR | Opcode::INC | Opcode::DEC
        | Opcode::DCP | Opcode::ISC | Opcode::RLA | Opcode::RRA | Opcode::SLO | Opcode::SRE
        | Opcode::SAX)
}

/// The shifts and rotates, which may work on A.
pub open spec fn is_shift_op(opcode: Opcode) -> bool {
    matches!(opcode, Opcode::ASL | Opcode::LSR | Opcode::ROL | Opcode::ROR)
}

/// Instructions that neither fetch an operand nor touch memory.
pub open spec fn is_implied_op(opcode: Opcode) -> bool {
    matches!(opcode, Opcode::INX | Opcode::INY | Opcode::DEX | Opcode::DEY | Opcode::TAX | Opcode::TAY
        | Opcode::TSX | Opcode::TXA | Opcode::TXS | Opcode::TYA | Opcode::SEC | Opcode::SED
        | Opcode::SEI | Opcode::CLC | Opcode::CLD | Opcode::CLI | Opcode::CLV | Opcode::NOP)
}

pub open spec fn is_branch_op(opcode: Opcode) -> bool {
    matches!(opcode, Opcode::BCC | Opcode::BCS | Opcode::BEQ | Opcode::BMI | Opcode::BNE | Opcode::BPL
        | Opcode::BVC | Opcode::BVS)
}

pub open spec fn is_store_op(opcode: Opcode) -> bool {
    matches!(opcode, Opcode::STA | Opcode::STX | Opcode::STY)
}

/// Whether a branch is taken under the status `p`.
pub open spec fn branch_taken(opcode: Opcode, p: u8) -> bool {
    match opcode {
        Opcode::BCC => !flag_is_set(p, 0x01),
        Opcode::BCS => flag_is_set(p, 0x01),
        Opcode::BEQ => flag_is_set(p, 0x02),
        Opcode::BNE => !flag_is_set(p, 0x02),
        Opcode::BMI => flag_is_set(p, 0x80),
        Opcode::BPL => !flag_is_set(p, 0x80),
        Opcode::BVC => !flag_is_set(p, 0x40),
        _ => flag_is_set(p, 0x40),
    }
}

/// The register that a store writes.
pub open spec fn store_value(cpu: Cpu, opcode: Opcode) -> u8 {
    match opcode {
        Opcode::STA => cpu.a,
        Opcode::STX => cpu.x,
        _ => cpu.y,
    }
}

/// The registers after a read instruction with argument `arg`.
pub open spec fn read_op_spec(cpu: Cpu, opcode: Opcode, arg: u8) -> Cpu {
    match opcode {
        Opcode::ADC => {
            let (r, p) = adc(cpu.a, arg, cpu.p);
            Cpu { a: r, p: p, ..cpu }
        },
        Opcode::SBC => {
            let (r, p) = sbc(cpu.a, arg, cpu.p);
            Cpu { a: r, p: p, ..cpu }
        },
        Opcode::AND => Cpu { a: cpu.a & arg, p: nz(cpu.p, cpu.a & arg), ..cpu },
        Opcode::EOR => Cpu { a: cpu.a ^ arg, p: nz(cpu.p, cpu.a ^ arg), ..cpu },
        Opcode::ORA => Cpu { a: cpu.a | arg, p: nz(cpu.p, cpu.a | arg), ..cpu },
        Opcode::CMP => Cpu { p: compare(cpu.a, arg, cpu.p), ..cpu },
        Opcode::CPX => Cpu { p: compare(cpu.x, arg, cpu.p), ..cpu },
        Opcode::CPY => Cpu { p: compare(cpu.y, arg, cpu.p), ..cpu },
        Opcode::LDA => Cpu { a: arg, p: nz(cpu.p, arg), ..cpu },
        Opcode::LDX => Cpu { x: arg, p: nz(cpu.p, arg), ..cpu },
        Opcode::LDY => Cpu { y: arg, p: nz(cpu.p, arg), ..cpu },
        // A = (A & imm) >> 1
        Opcode::ALR => {
            let (r, p) = lsr(cpu.a & arg, cpu.p);
            Cpu { a: r, p: p, ..cpu }
        },
        // A = A & imm, C takes the previous N
        Opcode::ANC => {
            let r = cpu.a & arg;
            Cpu { a: r, p: flag_update(nz(cpu.p, r), 0x01, flag_is_set(cpu.p, 0x80)), ..cpu }
        },
        // A = (A & imm) rotated right; C = bit 6, V = bit 6 xor bit 5
        Opcode::ARR => {
            let src = cpu.a & arg;
            let r = (src >> 1u8) | (if flag_is_set(cpu.p, 0x01) { 0x80u8 } else { 0x00u8 });
            let p1 = flag_update(nz(cpu.p, r), 0x01, r & 0x40u8 == 0x40u8);
            let p2 = flag_update(p1, 0x40, (r & 0x40u8) ^ ((r & 0x20u8) << 1u8) == 0x40u8);
            Cpu { a: r, p: p2, ..cpu }
        },
        // X = (A & X) - imm, without borrow in; C is set when no borrow
        // comes out
        Opcode::AXS => {
            let src = cpu.a & cpu.x;
            let r = ((src - arg) % 256) as u8;
            Cpu { x: r, p: nz(flag_update(cpu.p, 0x01, src >= arg), r), ..cpu }
        },
        // A = X = arg
        Opcode::LAX => Cpu { a: arg, x: arg, p: nz(cpu.p, arg), ..cpu },
        _ => cpu,
    }
}

/// The registers after a read-modify-write instruction with argument `arg`,
/// and the value it writes back.
pub open spec fn rmw_spec(cpu: Cpu, opcode: Opcode, arg: u8) -> (Cpu, u8) {
    match opcode {
        Opcode::ASL => {
            let (r, p) = asl(arg, cpu.p);
            (Cpu { p: p, ..cpu }, r)
        },
        Opcode::LSR => {
            let (r, p) = lsr(arg, cpu.p);
            (Cpu { p: p, ..cpu }, r)
        },
        Opcode::ROL => {
            let (r, p) = rol(arg, cpu.p);
            (Cpu { p: p, ..cpu }, r)
        },
        Opcode::ROR => {
            let (r, p) = ror(arg, cpu.p);
            (Cpu { p: p, ..cpu }, r)
        },
        Opcode::INC => {
            let r = ((arg + 1) % 256) as u8;
            (Cpu { p: nz(cpu.p, r), ..cpu }, r)
        },
        Opcode::DEC => {
            let r = ((arg - 1) % 256) as u8;
            (Cpu { p: nz(cpu.p, r), ..cpu }, r)
        },
        // DEC then CMP
        Opcode::DCP => {
            let r = ((arg - 1) % 256) as u8;
            (Cpu { p: compare(cpu.a, r, cpu.p), ..cpu }, r)
        },
        // INC then SBC
        Opcode::ISC => {
            let r = ((arg + 1) % 256) as u8;
            let (a, p) = sbc(cpu.a, r, cpu.p);
            (Cpu { a: a, p: p, ..cpu }, r)
        },
        // ROL then AND
        Opcode::RLA => {
            let r = (arg << 1u8) | (if flag_is_set(cpu.p, 0x01) { 0x01u8 } else { 0x00u8 });
            let p1 = flag_update(cpu.p, 0x01, arg & 0x80u8 == 0x80u8);
            (Cpu { a: cpu.a & r, p: nz(p1, cpu.a & r), ..cpu }, r)
        },
        // ROR then ADC, the ADC taking the carry that ROR left
        Opcode::RRA => {
            let r = (arg >> 1u8) | (if flag_is_set(cpu.p, 0x01) { 0x80u8 } else { 0x00u8 });
            let p1 = flag_update(cpu.p, 0x01, arg & 0x01u8 == 0x01u8);
            let (a, p) = adc(cpu.a, r, p1);
            (Cpu { a: a, p: p, ..cpu }, r)
        },
        // ASL then ORA
        Opcode::SLO => {
            let r = arg << 1u8;
            let p1 = flag_update(cpu.p, 0x01, arg & 0x80u8 == 0x80u8);
            (Cpu { a: cpu.a | r, p: nz(p1, cpu.a | r), ..cpu }, r)
        },
        // LSR then EOR
        Opcode::SRE => {
            let r = arg >> 1u8;
            let p1 = flag_update(cpu.p, 0x01, arg & 0x01u8 == 0x01u8);
            (Cpu { a: cpu.a ^ r, p: nz(p1, cpu.a ^ r), ..cpu }, r)
        },
        // memory = A & X, no flags
        _ => (cpu, cpu.a & cpu.x),
    }
}

/// The cycles of a read-modify-write instruction beyond its operand's.
pub open spec fn rmw_cycles(opcode: Opcode) -> u8 {
    match opcode {
        Opcode::ISC | Opcode::SAX => 1,
        _ => 3,
    }
}

/// The registers after an implied instruction.
pub open spec fn implied_spec(cpu: Cpu, opcode: Opcode) -> Cpu {
    match opcode {
        Opcode::INX => {
            let r = ((cpu.x + 1) % 256) as u8;
            Cpu { x: r, p: nz(cpu.p, r), ..cpu }
        },
        Opcode::INY => {
            let r = ((cpu.y + 1) % 256) as u8;
            Cpu { y: r, p: nz(cpu.p, r), ..cpu }
        },
        Opcode::DEX => {
            let r = ((cpu.x - 1) % 256) as u8;
            Cpu { x: r, p: nz(cpu.p, r), ..cpu }
        },
        Opcode::DEY => {
            let r = ((cpu.y - 1) % 256) as u8;
            Cpu { y: r, p: nz(cpu.p, r), ..cpu }
        },
        Opcode::TAX => Cpu { x: cpu.a, p: nz(cpu.p, cpu.a), ..cpu },
        Opcode::TAY => Cpu { y: cpu.a, p: nz(cpu.p, cpu.a), ..cpu },
        Opcode::TSX => {
            let r = (cpu.sp & 0xffu16) as u8;
            Cpu { x: r, p: nz(cpu.p, r), ..cpu }
        },
        Opcode::TXA => Cpu { a: cpu.x, p: nz(cpu.p, cpu.x), ..cpu },
        // the stack page is fixed at 0x01; no flags change
        Opcode::TXS => Cpu { sp: (cpu.x as u16) | 0x0100u16, ..cpu },
        Opcode::TYA => Cpu { a: cpu.y, p: nz(cpu.p, cpu.y), ..cpu },
        Opcode::SEC => Cpu { p: flag_update(cpu.p, 0x01, true), ..cpu },
        Opcode::SED => Cpu { p: flag_update(cpu.p, 0x08, true), ..cpu },
        Opcode::SEI => Cpu { p: flag_update(cpu.p, 0x04, true), ..cpu },
        Opcode::CLC => Cpu { p: flag_update(cpu.p, 0x01, false), ..cpu },
        Opcode::CLD => Cpu { p: flag_update(cpu.p, 0x08, false), ..cpu },
        Opcode::CLI => Cpu { p: flag_update(cpu.p, 0x04, false), ..cpu },
        Opcode::CLV => Cpu { p: flag_update(cpu.p, 0x40, false), ..cpu },
        _ => cpu,
    }
}

/// Two pushes, high byte first, when both can be made.
pub open spec fn push_u16_spec(cpu: Cpu, sys: System, value: u16) -> Option<(Cpu, System)> {
    if cpu.push_ok(sys) {
        let (c1, s1) = cpu.push_spec(sys, (value >> 8u16) as u8);
        if c1.push_ok(s1) {
            Some(c1.push_spec(s1, (value & 0xffu16) as u8))
        } else {
            None
        }
    } else {
        None
    }
}

/// A pop, when it can be made.
pub open spec fn pop_opt(cpu: Cpu, sys: System) -> Option<(Cpu, System, u8)> {
    if cpu.pop_ok(sys) { Some(cpu.pop_spec(sys)) } else { None }
}

/// Two pops, low byte first.
pub open spec fn pop_u16_spec(cpu: Cpu, sys: System) -> Option<(Cpu, System, u16)> {
    match pop_opt(cpu, sys) {
        None => None,
        Some((c1, s1, lower)) => match pop_opt(c1, s1) {
            None => None,
            Some((c2, s2, upper)) => Some((c2, s2, ((upper as u16) << 8u16) | (lower as u16))),
        },
    }
}

/// Jumps, returns, stack instructions, BRK and BIT.
pub open spec fn control_spec(cpu: Cpu, sys: System, opcode: Opcode, mode: AddressingMode, inst_pc: u16) -> Option<(Cpu, System, u8)> {
    match opcode {
        Opcode::JMP => match fetch_operand_spec(cpu, sys, mode) {
            None => None,
            Some((c, s, op)) => Some((Cpu { pc: op.0, ..c }, s, op.1)),
        },
        // pushes the address of the JSR's last byte
        Opcode::JSR => match fetch_operand_spec(cpu, sys, mode) {
            None => None,
            Some((c, s, op)) => if inst_pc + 2 <= 0xffff {
                match push_u16_spec(c, s, (inst_pc + 2) as u16) {
                    None => None,
                    Some((c2, s2)) => Some((Cpu { pc: op.0, ..c2 }, s2, 6)),
                }
            } else {
                None
            },
        },
        Opcode::RTI => match pop_opt(cpu, sys) {
            None => None,
            Some((c1, s1, p)) => match pop_u16_spec(Cpu { p: p, ..c1 }, s1) {
                None => None,
                Some((c2, s2, pc)) => Some((Cpu { pc: pc, ..c2 }, s2, 6)),
            },
        },
        Opcode::RTS => match pop_u16_spec(cpu, sys) {
            None => None,
            Some((c2, s2, pc)) => if pc < 0xffff {
                Some((Cpu { pc: (pc + 1) as u16, ..c2 }, s2, 6))
            } else {
                None
            },
        },
        Opcode::PHA => if cpu.push_ok(sys) {
            let (c, s) = cpu.push_spec(sys, cpu.a);
            Some((c, s, 3))
        } else {
            None
        },
        Opcode::PHP => if cpu.push_ok(sys) {
            let (c, s) = cpu.push_spec(sys, cpu.p);
            Some((c, s, 3))
        } else {
            None
        },
        Opcode::PLA => match pop_opt(cpu, sys) {
            None => None,
            Some((c, s, r)) => Some((Cpu { a: r, p: nz(c.p, r), ..c }, s, 4)),
        },
        Opcode::PLP => match pop_opt(cpu, sys) {
            None => None,
            Some((c, s, r)) => Some((Cpu { p: r, ..c }, s, 4)),
        },
        // sets B, then raises the BRK interrupt
        Opcode::BRK => {
            let c0 = Cpu { p: flag_update(cpu.p, 0x10, true), ..cpu };
            if c0.interrupt_ok(sys, Interrupt::BRK) {
                let (c, s) = c0.interrupt_spec(sys, Interrupt::BRK);
                Some((c, s, 7))
            } else {
                None
            }
        },
        // reads its argument without side effects
        Opcode::BIT => match fetch_operand_spec(cpu, sys, mode) {
            None => None,
            Some((c, s, op)) => if s.addr_ok(op.0) {
                let (arg, s2) = s.read_spec(op.0, true);
                let p1 = flag_update(c.p, 0x80, arg & 0x80u8 == 0x80u8);
                let p2 = flag_update(p1, 0x02, c.a & arg == 0x00u8);
                let p3 = flag_update(p2, 0x40, arg & 0x40u8 == 0x40u8);
                Some((Cpu { p: p3, ..c }, s2, (2 + op.1) as u8))
            } else {
                None
            },
        },
        _ => None,
    }
}

/// Executes a decoded instruction whose opcode byte was at `inst_pc`; PC has
/// moved past the opcode byte. The result is the cycle count; `None` when the
/// instruction would touch an address that the bus does not answer, or move
/// PC or SP past the ends of their range.
pub open spec fn execute_spec(cpu: Cpu, sys: System, opcode: Opcode, mode: AddressingMode, inst_pc: u16) -> Option<(Cpu, System, u8)> {
    if is_read_op(opcode) {
        match fetch_args_spec(cpu, sys, mode) {
            None => None,
            Some((c, s, (op, arg))) => Some((read_op_spec(c, opcode, arg), s, (1 + op.1) as u8)),
        }
    } else if is_rmw_op(opcode) {
        match fetch_args_spec(cpu, sys, mode) {
            None => None,
            Some((c, s, (op, arg))) => {
                let (c2, v) = rmw_spec(c, opcode, arg);
                if is_shift_op(opcode) && mode == AddressingMode::Accumulator {
                    Some((Cpu { a: v, ..c2 }, s, (1 + op.1) as u8))
                } else if s.addr_ok(op.0) {
                    Some((c2, s.write_spec(op.0, v, false), (rmw_cycles(opcode) + op.1) as u8))
                } else {
                    None
                }
            },
        }
    } else if is_implied_op(opcode) {
        Some((implied_spec(cpu, opcode), sys, 2))
    } else if is_branch_op(opcode) {
        match fetch_operand_spec(cpu, sys, mode) {
            None => None,
            Some((c, s, op)) => if branch_taken(opcode, c.p) {
                Some((Cpu { pc: op.0, ..c }, s, (1 + op.1 + 1) as u8))
            } else {
                Some((c, s, (1 + op.1) as u8))
            },
        }
    } else if is_store_op(opcode) {
        match fetch_operand_spec(cpu, sys, mode) {
            None => None,
            Some((c, s, op)) => if s.addr_ok(op.0) {
                Some((c, s.write_spec(op.0, store_value(c, opcode), false), (1 + op.1) as u8))
            } else {
                None
            },
        }
    } else {
        control_spec(cpu, sys, opcode, mode, inst_pc)
    }
}

/// One instruction: fetch the opcode byte at PC, decode it, execute it. The
/// result is the cycle count; `None` when the byte is no supported
/// instruction or the instruction cannot be carried out (see
/// `execute_spec`).
pub open spec fn step_spec(cpu: Cpu, sys: System) -> Option<(Cpu, System, u8)> {
    match fetch_u8_spec(cpu, sys) {
        None => None,
        Some((c, s, inst_code)) => match decode_spec(inst_code) {
            None => None,
            Some(Instruction(opcode, mode)) => execute_spec(c, s, opcode, mode, cpu.pc),
        },
    }
}

/// A step whose opcode byte decodes to JSR or RTS runs it as a control
/// instruction.
proof fn lemma_step_control(cpu: Cpu, sys: System, code: u8, opcode: Opcode, mode: AddressingMode)
    requires
        opcode == Opcode::JSR || opcode == Opcode::RTS,
        fetch_u8_spec(cpu, sys) is Some,
        fetch_u8_spec(cpu, sys)->Some_0.2 == code,
        decode_spec(code) == Some(Instruction(opcode, mode)),
    ensures
        step_spec(cpu, sys) == control_spec(
            fetch_u8_spec(cpu, sys)->Some_0.0,
            fetch_u8_spec(cpu, sys)->Some_0.1,
            opcode,
            mode,
            cpu.pc,
        ),
{
}

/// The stack bytes that JSR at PC leaves: the return address PC + 2, high
/// byte at SP and low byte below it, readable without side effects.
#[verifier::rlimit(40)]
proof fn lemma_jsr_step(cpu: Cpu, sys: System)
    requires
        0x0100 <= cpu.sp < 0x0200,
        sys.addr_ok(cpu.pc),
        fetch_u8_spec(cpu, sys) is Some,
        fetch_u8_spec(cpu, sys)->Some_0.2 == 0x20u8,
        step_spec(cpu, sys) is Some,
    ensures
        ({
            let (c1, s1, _) = step_spec(cpu, sys)->Some_0;
            let sp1 = crate::cpu::sp_after_push(cpu.sp);
            let ret = (cpu.pc + 2) as u16;
            &&& c1.sp == crate::cpu::sp_after_push(sp1)
            &&& s1.read_spec(sp1, false) == ((ret & 0xffu16) as u8, s1)
            &&& s1.read_spec(cpu.sp, false) == ((ret >> 8u16) as u8, s1)
        }),
{
    let (c0, s0, code) = fetch_u8_spec(cpu, sys)->Some_0;
    assert(decode_spec(0x20u8) == Some(Instruction(Opcode::JSR, AddressingMode::Absolute)));
    lemma_step_control(cpu, sys, 0x20u8, Opcode::JSR, AddressingMode::Absolute);
    let (c, s, op) = fetch_operand_spec(c0, s0, AddressingMode::Absolute)->Some_0;
    let ret = (cpu.pc + 2) as u16;
    let sp1 = crate::cpu::sp_after_push(cpu.sp);
    let (ca, sa) = c.push_spec(s, (ret >> 8u16) as u8);
    let (cb, sb) = ca.push_spec(sa, (ret & 0xffu16) as u8);
    assert(step_spec(cpu, sys) == Some((Cpu { pc: op.0, ..cb }, sb, 6u8)));
    assert(0x0100 <= sp1 < 0x0200 && sp1 % 0x800 != cpu.sp % 0x800);
    s.lemma_wram_write_then_read(cpu.sp, (ret >> 8u16) as u8, cpu.sp, false, false);
    sa.lemma_wram_write_then_read(sp1, (ret & 0xffu16) as u8, sp1, false, false);
    sa.lemma_wram_write_then_read(sp1, (ret & 0xffu16) as u8, cpu.sp, false, false);
}

/// RTS with the return address `ret` on the stack, low byte at `sp1` and
/// high byte above it at `sp0`, moves PC one past `ret` and SP back to `sp0`.
#[verifier::rlimit(40)]
proof fn lemma_rts_step(c1: Cpu, s1: System, sp0: u16, ret: u16)
    requires
        0x0100 <= sp0 < 0x0200,
        ret < 0xffff,
        c1.sp == crate::cpu::sp_after_push(crate::cpu::sp_after_push(sp0)),
        s1.read_spec(crate::cpu::sp_after_push(sp0), false) == ((ret & 0xffu16) as u8, s1),
        s1.read_spec(sp0, false) == ((ret >> 8u16) as u8, s1),
        c1.pc < 0xffff,
        s1.addr_ok(c1.pc),
        s1.read_spec(c1.pc, false) == (0x60u8, s1),
    ensures
        step_spec(c1, s1) is Some,
        step_spec(c1, s1)->Some_0.0.pc == ret + 1,
        step_spec(c1, s1)->Some_0.0.sp == sp0,
{
    assert(decode_spec(0x60u8) == Some(Instruction(Opcode::RTS, AddressingMode::Implied)));
    lemma_step_control(c1, s1, 0x60u8, Opcode::RTS, AddressingMode::Implied);
    let sp1 = crate::cpu::sp_after_push(sp0);
    assert(crate::cpu::sp_after_pop(c1.sp) == sp1);
    assert(crate::cpu::sp_after_pop(sp1) == sp0);
    s1.lemma_wram_read(sp1, false);
    s1.lemma_wram_read(sp0, false);
    let lower = (ret & 0xffu16) as u8;
    let upper = (ret >> 8u16) as u8;
    assert(((upper as u16) << 8u16) | (lower as u16) == ret) by (bit_vector)
        requires
            lower == (ret & 0xffu16) as u8,
            upper == (ret >> 8u16) as u8,
    ;
}

/// A subroutine call and its return: after JSR at PC (with the stack in page
/// 1), when the first instruction of the subroutine is RTS, the next step
/// comes back to the instruction after the JSR with SP as it was.
pub proof fn lemma_jsr_then_rts(cpu: Cpu, sys: System)
    requires
        0x0100 <= cpu.sp < 0x0200,
        cpu.pc + 3 <= 0xffff,
        sys.addr_ok(cpu.pc),
        sys.read_spec(cpu.pc, false).0 == 0x20u8,
        step_spec(cpu, sys) is Some,
        ({
            let (c1, s1, _) = step_spec(cpu, sys)->Some_0;
            &&& c1.pc < 0xffff
            &&& s1.addr_ok(c1.pc)
            &&& s1.read_spec(c1.pc, false) == (0x60u8, s1)
        }),
    ensures
        ({
            let (c1, s1, _) = step_spec(cpu, sys)->Some_0;
            &&& step_spec(c1, s1) is Some
            &&& step_spec(c1, s1)->Some_0.0.pc == cpu.pc + 3
            &&& step_spec(c1, s1)->Some_0.0.sp == cpu.sp
        }),
{
    lemma_jsr_step(cpu, sys);
    let (c1, s1, _) = step_spec(cpu, sys)->Some_0;
    lemma_rts_step(c1, s1, cpu.sp, (cpu.pc + 2) as u16);
}

/// The operand of each addressing mode takes between 0 and 6 cycles, and
/// at least 1 where it reads an operand byte.
proof fn lemma_operand_cycles(cpu: Cpu, sys: System, mode: AddressingMode)
    requires
        fetch_operand_spec(cpu, sys, mode) is Some,
    ensures
        fetch_operand_spec(cpu, sys, mode)->Some_0.2.1 <= 6,
        mode != AddressingMode::Implied ==> fetch_operand_spec(cpu, sys, mode)->Some_0.2.1 >= 1,
{
}

/// Every instruction takes between 2 and 8 cycles.
#[verifier::rlimit(100)]
pub proof fn lemma_step_cycles(cpu: Cpu, sys: System)
    requires
        step_spec(cpu, sys) is Some,
    ensures
        2 <= step_spec(cpu, sys)->Some_0.2 <= 8,
{
    let (c, s, code) = fetch_u8_spec(cpu, sys)->Some_0;
    let Instruction(opcode, mode) = decode_spec(code)->Some_0;
    if fetch_operand_spec(c, s, mode) is Some {
        lemma_operand_cycles(c, s, mode);
    }
}

/// CMP, CPX and CPY compare A, X and Y respectively with the argument: C
/// is set exactly when the register is at least the argument, Z exactly
/// when they are equal, N from bit 7 of their difference (mod 256); no
/// register and no other flag changes.
#[verifier::rlimit(50)]
pub proof fn lemma_compare_ops(cpu: Cpu, opcode: Opcode, m: u8)
    requires
        opcode == Opcode::CMP || opcode == Opcode::CPX || opcode == Opcode::CPY,
    ensures
        ({
            let reg = if opcode == Opcode::CMP { cpu.a } else if opcode == Opcode::CPX { cpu.x } else { cpu.y };
            let r = read_op_spec(cpu, opcode, m);
            &&& r.a == cpu.a && r.x == cpu.x && r.y == cpu.y && r.pc == cpu.pc && r.sp == cpu.sp
            &&& flag_is_set(r.p, 0x01) == (reg >= m)
            &&& flag_is_set(r.p, 0x02) == (reg == m)
            &&& flag_is_set(r.p, 0x80) == ((reg - m) % 256 >= 0x80)
            &&& r.p & 0x7cu8 == cpu.p & 0x7cu8
        }),
{
    let reg = if opcode == Opcode::CMP { cpu.a } else if opcode == Opcode::CPX { cpu.x } else { cpu.y };
    crate::alu::lemma_compare_flags(reg, m, cpu.p);
}

/// A step whose opcode byte decodes to an instruction runs that instruction.
proof fn lemma_step_decoded(cpu: Cpu, sys: System, code: u8, opcode: Opcode, mode: AddressingMode)
    requires
        fetch_u8_spec(cpu, sys) is Some,
        fetch_u8_spec(cpu, sys)->Some_0.2 == code,
        decode_spec(code) == Some(Instruction(opcode, mode)),
    ensures
        step_spec(cpu, sys) == execute_spec(
            fetch_u8_spec(cpu, sys)->Some_0.0,
            fetch_u8_spec(cpu, sys)->Some_0.1,
            opcode,
            mode,
            cpu.pc,
        ),
{
}

/// A compare with an immediate argument run by a step (CMP #m: c9, CPX #m:
/// e0, CPY #m: c0) compares A, X or Y respectively with m: C is set exactly
/// when the register is at least m, Z exactly when they are equal, N from bit
/// 7 of their difference; it takes 2 cycles, moves PC past both bytes and
/// changes no register.
#[verifier::rlimit(40)]
pub proof fn lemma_step_compare_immediate(cpu: Cpu, sys: System, code: u8, m: u8)
    requires
        code == 0xc9u8 || code == 0xe0u8 || code == 0xc0u8,
        cpu.pc + 2 <= 0xffff,
        sys.addr_ok(cpu.pc),
        sys.addr_ok((cpu.pc + 1) as u16),
        sys.read_spec(cpu.pc, false) == (code, sys),
        sys.read_spec((cpu.pc + 1) as u16, false) == (m, sys),
    ensures
        step_spec(cpu, sys) is Some,
        ({
            let reg = if code == 0xc9u8 { cpu.a } else if code == 0xe0u8 { cpu.x } else { cpu.y };
            let (c, s, cycles) = step_spec(cpu, sys)->Some_0;
            &&& cycles == 2
            &&& s == sys
            &&& c.pc == cpu.pc + 2
            &&& c.a == cpu.a && c.x == cpu.x && c.y == cpu.y && c.sp == cpu.sp
            &&& flag_is_set(c.p, 0x01) == (reg >= m)
            &&& flag_is_set(c.p, 0x02) == (reg == m)
            &&& flag_is_set(c.p, 0x80) == ((reg - m) % 256 >= 0x80)
            &&& c.p & 0x7cu8 == cpu.p & 0x7cu8
        }),
{
    let opcode = if code == 0xc9u8 { Opcode::CMP } else if code == 0xe0u8 { Opcode::CPX } else { Opcode::CPY };
    assert(decode_spec(code) == Some(Instruction(opcode, AddressingMode::Immediate)));
    lemma_step_decoded(cpu, sys, code, opcode, AddressingMode::Immediate);
    let c1 = Cpu { pc: (cpu.pc + 1) as u16, ..cpu };
    assert(fetch_u8_spec(cpu, sys) == Some((c1, sys, code)));
    let c2 = Cpu { pc: (cpu.pc + 2) as u16, ..cpu };
    assert(fetch_args_spec(c1, sys, AddressingMode::Immediate) == Some((c2, sys, (Operand(m as u16, 1), m))));
    lemma_compare_ops(c2, opcode, m);
}

/// AND, ORA and EOR combine A with the argument bit by bit: bit `i` of the
/// new A is the and, the or, and the exclusive or of bit `i` of A and of the
/// argument; Z tells whether the new A is 0, N copies its bit 7, and X and Y
/// are kept.
#[verifier::rlimit(50)]
pub proof fn lemma_logic_ops(cpu: Cpu, m: u8, i: u8)
    requires
        i < 8,
    ensures
        ({
            let and = read_op_spec(cpu, Opcode::AND, m);
            let ora = read_op_spec(cpu, Opcode::ORA, m);
            let eor = read_op_spec(cpu, Opcode::EOR, m);
            let bit_a = (cpu.a >> i) & 1u8 == 1u8;
            let bit_m = (m >> i) & 1u8 == 1u8;
            &&& ((and.a >> i) & 1u8 == 1u8) == (bit_a && bit_m)
            &&& ((ora.a >> i) & 1u8 == 1u8) == (bit_a || bit_m)
            &&& ((eor.a >> i) & 1u8 == 1u8) == (bit_a != bit_m)
            &&& flag_is_set(and.p, 0x02) == (and.a == 0) && flag_is_set(and.p, 0x80) == (and.a >= 0x80)
            &&& flag_is_set(ora.p, 0x02) == (ora.a == 0) && flag_is_set(ora.p, 0x80) == (ora.a >= 0x80)
            &&& flag_is_set(eor.p, 0x02) == (eor.a == 0) && flag_is_set(eor.p, 0x80) == (eor.a >= 0x80)
            &&& and.x == cpu.x && and.y == cpu.y && ora.x == cpu.x && ora.y == cpu.y
            &&& eor.x == cpu.x && eor.y == cpu.y
        }),
{
    let a = cpu.a;
    crate::alu::lemma_nz_flags(cpu.p, a & m);
    crate::alu::lemma_nz_flags(cpu.p, a | m);
    crate::alu::lemma_nz_flags(cpu.p, a ^ m);
    assert({
        let bit_a = (a >> i) & 1u8 == 1u8;
        let bit_m = (m >> i) & 1u8 == 1u8;
        &&& (((a & m) >> i) & 1u8 == 1u8) == (bit_a && bit_m)
        &&& (((a | m) >> i) & 1u8 == 1u8) == (bit_a || bit_m)
        &&& (((a ^ m) >> i) & 1u8 == 1u8) == (bit_a != bit_m)
    }) by (bit_vector)
        requires
            i < 8,
    ;
}

/// ADC and SBC in numbers, with `c` the carry going in: ADC gives
/// A + M + c modulo 256 and sets C when the sum exceeds 255; SBC gives
/// A - M - (1 - c) modulo 256 and sets C when no borrow is needed. V tells
/// whether the signed result is out of range; X and Y are kept.
#[verifier::rlimit(50)]
pub proof fn lemma_arith_ops(cpu: Cpu, m: u8)
    ensures
        ({
            let c = (if flag_is_set(cpu.p, 0x01) { 1int } else { 0int });
            let adc_r = read_op_spec(cpu, Opcode::ADC, m);
            let sbc_r = read_op_spec(cpu, Opcode::SBC, m);
            &&& adc_r.a == (cpu.a + m + c) % 256
            &&& flag_is_set(adc_r.p, 0x01) == (cpu.a + m + c > 255)
            &&& flag_is_set(adc_r.p, 0x40) == ((cpu.a >= 0x80) == (m >= 0x80) && (adc_r.a >= 0x80) != (cpu.a >= 0x80))
            &&& flag_is_set(adc_r.p, 0x02) == (adc_r.a == 0)
            &&& flag_is_set(adc_r.p, 0x80) == (adc_r.a >= 0x80)
            &&& adc_r.x == cpu.x && adc_r.y == cpu.y && adc_r.sp == cpu.sp && adc_r.pc == cpu.pc
            &&& sbc_r.a == (cpu.a - m - (1 - c)) % 256
            &&& flag_is_set(sbc_r.p, 0x01) == (cpu.a >= m + (1 - c))
            &&& flag_is_set(sbc_r.p, 0x40) == ((cpu.a >= 0x80) != (m >= 0x80) && (sbc_r.a >= 0x80) != (cpu.a >= 0x80))
            &&& flag_is_set(sbc_r.p, 0x02) == (sbc_r.a == 0)
            &&& flag_is_set(sbc_r.p, 0x80) == (sbc_r.a >= 0x80)
            &&& sbc_r.x == cpu.x && sbc_r.y == cpu.y && sbc_r.sp == cpu.sp && sbc_r.pc == cpu.pc
        }),
{
    crate::alu::lemma_adc_flags(cpu.a, m, cpu.p);
    crate::alu::lemma_sbc_flags(cpu.a, m, cpu.p);
}

/// LDA, LDX and LDY load the argument into A, X and Y respectively and
/// leave the other two registers; Z and N come from the argument.
#[verifier::rlimit(50)]
pub proof fn lemma_load_ops(cpu: Cpu, m: u8)
    ensures
        ({
            let lda = read_op_spec(cpu, Opcode::LDA, m);
            let ldx = read_op_spec(cpu, Opcode::LDX, m);
            let ldy = read_op_spec(cpu, Opcode::LDY, m);
            &&& lda.a == m && lda.x == cpu.x && lda.y == cpu.y
            &&& ldx.x == m && ldx.a == cpu.a && ldx.y == cpu.y
            &&& ldy.y == m && ldy.a == cpu.a && ldy.x == cpu.x
            &&& flag_is_set(lda.p, 0x02) == (m == 0) && flag_is_set(lda.p, 0x80) == (m >= 0x80)
            &&& flag_is_set(ldx.p, 0x02) == (m == 0) && flag_is_set(ldx.p, 0x80) == (m >= 0x80)
            &&& flag_is_set(ldy.p, 0x02) == (m == 0) && flag_is_set(ldy.p, 0x80) == (m >= 0x80)
        }),
{
    crate::alu::lemma_nz_flags(cpu.p, m);
}

/// INX, INY, DEX and DEY count X or Y up or down modulo 256; TAX, TAY, TXA
/// and TYA copy between A and X or Y; TSX copies the low byte of SP into X,
/// TXS puts X into page 1 as SP. Each keeps the registers it does not name;
/// Z and N come from the new value (TXS changes no flag).
#[verifier::rlimit(50)]
pub proof fn lemma_register_ops(cpu: Cpu)
    ensures
        implied_spec(cpu, Opcode::INX).x == (cpu.x + 1) % 256 && implied_spec(cpu, Opcode::INX).a == cpu.a && implied_spec(cpu, Opcode::INX).y == cpu.y,
        implied_spec(cpu, Opcode::INY).y == (cpu.y + 1) % 256 && implied_spec(cpu, Opcode::INY).a == cpu.a && implied_spec(cpu, Opcode::INY).x == cpu.x,
        implied_spec(cpu, Opcode::DEX).x == (cpu.x + 255) % 256 && implied_spec(cpu, Opcode::DEX).a == cpu.a && implied_spec(cpu, Opcode::DEX).y == cpu.y,
        implied_spec(cpu, Opcode::DEY).y == (cpu.y + 255) % 256 && implied_spec(cpu, Opcode::DEY).a == cpu.a && implied_spec(cpu, Opcode::DEY).x == cpu.x,
        implied_spec(cpu, Opcode::TAX).x == cpu.a && implied_spec(cpu, Opcode::TAX).a == cpu.a && implied_spec(cpu, Opcode::TAX).y == cpu.y,
        implied_spec(cpu, Opcode::TAY).y == cpu.a && implied_spec(cpu, Opcode::TAY).a == cpu.a && implied_spec(cpu, Opcode::TAY).x == cpu.x,
        implied_spec(cpu, Opcode::TXA).a == cpu.x && implied_spec(cpu, Opcode::TXA).x == cpu.x && implied_spec(cpu, Opcode::TXA).y == cpu.y,
        implied_spec(cpu, Opcode::TYA).a == cpu.y && implied_spec(cpu, Opcode::TYA).x == cpu.x && implied_spec(cpu, Opcode::TYA).y == cpu.y,
        implied_spec(cpu, Opcode::TSX).x == cpu.sp % 0x100 && implied_spec(cpu, Opcode::TSX).a == cpu.a,
        implied_spec(cpu, Opcode::TXS).sp == 0x0100 + cpu.x && implied_spec(cpu, Opcode::TXS).p == cpu.p && implied_spec(cpu, Opcode::TXS).x == cpu.x,
        flag_is_set(implied_spec(cpu, Opcode::INX).p, 0x02) == (implied_spec(cpu, Opcode::INX).x == 0),
        flag_is_set(implied_spec(cpu, Opcode::DEY).p, 0x80) == (implied_spec(cpu, Opcode::DEY).y >= 0x80),
        flag_is_set(implied_spec(cpu, Opcode::TAX).p, 0x02) == (cpu.a == 0),
        flag_is_set(implied_spec(cpu, Opcode::TYA).p, 0x80) == (cpu.y >= 0x80),
{
    crate::alu::lemma_nz_flags(cpu.p, ((cpu.x + 1) % 256) as u8);
    crate::alu::lemma_nz_flags(cpu.p, ((cpu.y - 1) % 256) as u8);
    crate::alu::lemma_nz_flags(cpu.p, cpu.a);
    crate::alu::lemma_nz_flags(cpu.p, cpu.y);
    let sp = cpu.sp;
    let x = cpu.x;
    assert((sp & 0xffu16) as u8 == sp % 0x100 && (x as u16) | 0x0100u16 == 0x0100 + x) by (bit_vector);
}

/// Branches test one flag each: BCC/BCS take C clear/set, BNE/BEQ take Z
/// clear/set, BPL/BMI take N clear/set, BVC/BVS take V clear/set.
pub proof fn lemma_branch_conditions(p: u8)
    ensures
        branch_taken(Opcode::BCC, p) == (p & 0x01 == 0) && branch_taken(Opcode::BCS, p) == (p & 0x01 != 0),
        branch_taken(Opcode::BNE, p) == (p & 0x02 == 0) && branch_taken(Opcode::BEQ, p) == (p & 0x02 != 0),
        branch_taken(Opcode::BPL, p) == (p & 0x80 == 0) && branch_taken(Opcode::BMI, p) == (p & 0x80 != 0),
        branch_taken(Opcode::BVC, p) == (p & 0x40 == 0) && branch_taken(Opcode::BVS, p) == (p & 0x40 != 0),
{
    assert((p & 0x01u8 == 0x01u8) == (p & 0x01u8 != 0) && (p & 0x02u8 == 0x02u8) == (p & 0x02u8 != 0)
        && (p & 0x80u8 == 0x80u8) == (p & 0x80u8 != 0) && (p & 0x40u8 == 0x40u8) == (p & 0x40u8 != 0))
        by (bit_vector);
}

/// STA, STX and STY store A, X and Y respectively.
pub proof fn lemma_store_values(cpu: Cpu)
    ensures
        store_value(cpu, Opcode::STA) == cpu.a,
        store_value(cpu, Opcode::STX) == cpu.x,
        store_value(cpu, Opcode::STY) == cpu.y,
{
}

/// On memory, ASL doubles modulo 256, LSR halves, ROL doubles and adds the
/// old C, ROR halves and adds 0x80 for the old C; ASL and ROL move the old
/// bit 7 into C, LSR and ROR the old bit 0. INC and DEC count up or down
/// modulo 256. The registers are kept.
#[verifier::rlimit(50)]
pub proof fn lemma_memory_rmw_ops(cpu: Cpu, v: u8)
    ensures
        ({
            let c = (if flag_is_set(cpu.p, 0x01) { 1int } else { 0int });
            &&& rmw_spec(cpu, Opcode::ASL, v).1 == (2 * v) % 256
            &&& flag_is_set(rmw_spec(cpu, Opcode::ASL, v).0.p, 0x01) == (v >= 0x80)
            &&& rmw_spec(cpu, Opcode::LSR, v).1 == v / 2
            &&& flag_is_set(rmw_spec(cpu, Opcode::LSR, v).0.p, 0x01) == (v % 2 == 1)
            &&& rmw_spec(cpu, Opcode::ROL, v).1 == (2 * v + c) % 256
            &&& flag_is_set(rmw_spec(cpu, Opcode::ROL, v).0.p, 0x01) == (v >= 0x80)
            &&& rmw_spec(cpu, Opcode::ROR, v).1 == v / 2 + 0x80 * c
            &&& flag_is_set(rmw_spec(cpu, Opcode::ROR, v).0.p, 0x01) == (v % 2 == 1)
            &&& rmw_spec(cpu, Opcode::INC, v).1 == (v + 1) % 256
            &&& rmw_spec(cpu, Opcode::DEC, v).1 == (v + 255) % 256
            &&& rmw_spec(cpu, Opcode::ASL, v).0.a == cpu.a && rmw_spec(cpu, Opcode::ROR, v).0.a == cpu.a
            &&& rmw_spec(cpu, Opcode::INC, v).0.x == cpu.x && rmw_spec(cpu, Opcode::DEC, v).0.y == cpu.y
        }),
{
    crate::alu::lemma_shift_results(v, cpu.p);
}

/// EOR with the same argument twice gives A back, and EOR of A with itself
/// gives 0 and sets Z.
#[verifier::rlimit(50)]
pub proof fn lemma_eor_twice(cpu: Cpu, m: u8)
    ensures
        read_op_spec(read_op_spec(cpu, Opcode::EOR, m), Opcode::EOR, m).a == cpu.a,
        read_op_spec(cpu, Opcode::EOR, cpu.a).a == 0,
        flag_is_set(read_op_spec(cpu, Opcode::EOR, cpu.a).p, 0x02),
{
    let a = cpu.a;
    assert((a ^ m) ^ m == a && a ^ a == 0) by (bit_vector);
    crate::alu::lemma_nz_flags(cpu.p, a ^ a);
}

fn is_read_op_exec(opcode: Opcode) -> (r: bool)
    ensures
        r == is_read_op(opcode),
{
    matches!(opcode, Opcode::ADC | Opcode::SBC | Opcode::AND | Opcode::EOR | Opcode::ORA | Opcode::CMP
        | Opcode::CPX | Opcode::CPY | Opcode::LDA | Opcode::LDX | Opcode::LDY | Opcode::ALR
        | Opcode::ANC | Opcode::ARR | Opcode::AXS | Opcode::LAX | Opcode::SKB | Opcode::IGN)
}

fn is_rmw_op_exec(opcode: Opcode) -> (r: bool)
    ensures
        r == is_rmw_op(opcode),
{
    matches!(opcode, Opcode::ASL | Opcode::LSR | Opcode::ROL | Opcode::ROR | Opcode::INC | Opcode::DEC
        | Opcode::DCP | Opcode::ISC | Opcode::RLA | Opcode::RRA | Opcode::SLO | Opcode::SRE
        | Opcode::SAX)
}

fn is_implied_op_exec(opcode: Opcode) -> (r: bool)
    ensures
        r == is_implied_op(opcode),
{
    matches!(opcode, Opcode::INX | Opcode::INY | Opcode::DEX | Opcode::DEY | Opcode::TAX | Opcode::TAY
        | Opcode::TSX | Opcode::TXA | Opcode::TXS | Opcode::TYA | Opcode::SEC | Opcode::SED
        | Opcode::SEI | Opcode::CLC | Opcode::CLD | Opcode::CLI | Opcode::CLV | Opcode::NOP)
}

fn is_branch_op_exec(opcode: Opcode) -> (r: bool)
    ensures
        r == is_branch_op(opcode),
{
    matches!(opcode, Opcode::BCC | Opcode::BCS | Opcode::BEQ | Opcode::BMI | Opcode::BNE | Opcode::BPL
        | Opcode::BVC | Opcode::BVS)
}

fn is_store_op_exec(opcode: Opcode) -> (r: bool)
    ensures
        r == is_store_op(opcode),
{
    matches!(opcode, Opcode::STA | Opcode::STX | Opcode::STY)
}

fn page_cycle_exec(a: u16, b: u16) -> (r: u8)
    ensures
        r == page_cycle(a, b),
{
    if (a & 0xff00u16) != (b & 0xff00u16) { 1 } else { 0 }
}

/// Reads a byte through the bus when the bus answers the address.
fn read_checked(system: &mut System, addr: u16) -> (r: Option<u8>)
    ensures
        match read_byte(*old(system), addr) {
            Some((s, d)) => r == Some(d) && *final(system) == s,
            None => r is None,
        },
{
    if system.is_addr_ok(addr) {
        Some(system.read_u8(addr, false))
    } else {
        None
    }
}

/// Reads a little-endian pointer from two addresses.
fn read_pointer_checked(system: &mut System, lower_addr: u16, upper_addr: u16) -> (r: Option<u16>)
    ensures
        match read_pointer(*old(system), lower_addr, upper_addr) {
            Some((s, d)) => r == Some(d) && *final(system) == s,
            None => r is None,
        },
{
    let lower = read_checked(system, lower_addr)?;
    let upper = read_checked(system, upper_addr)?;
    Some((lower as u16) | ((upper as u16) << 8u16))
}

impl Cpu {
    fn can_push(&self, system: &System) -> (r: bool)
        ensures
            r == self.push_ok(*system),
    {
        system.is_addr_ok(self.sp)
    }

    fn can_pop(&self, system: &System) -> (r: bool)
        ensures
            r == self.pop_ok(*system),
    {
        let low: u16 = self.sp % 0x100;
        system.is_addr_ok(if low == 0xff { 0x0100 } else { 0x0100 + low + 1 })
    }

    /// Fetches one byte at PC, then advances PC.
    fn fetch_u8(&mut self, system: &mut System) -> (r: Option<u8>)
        ensures
            outcome(fetch_u8_spec(*old(self), *old(system)), *final(self), *final(system), r),
    {
        if self.pc < 0xffff && system.is_addr_ok(self.pc) {
            let data = system.read_u8(self.pc, false);
            self.pc = self.pc + 1;
            Some(data)
        } else {
            None
        }
    }

    /// Fetches two bytes at PC, low byte first.
    fn fetch_u16(&mut self, system: &mut System) -> (r: Option<u16>)
        ensures
            outcome(fetch_u16_spec(*old(self), *old(system)), *final(self), *final(system), r),
    {
        let lower = self.fetch_u8(system)?;
        let upper = self.fetch_u8(system)?;
        Some((lower as u16) | ((upper as u16) << 8u16))
    }

    /// Fetches the operand of an addressing mode; PC moves past the operand
    /// bytes.
    fn fetch_operand(&mut self, system: &mut System, mode: AddressingMode) -> (r: Option<Operand>)
        ensures
            outcome(fetch_operand_spec(*old(self), *old(system), mode), *final(self), *final(system), r),
            r matches Some(op) ==> op.1 <= 6,
    {
        match mode {
            AddressingMode::Implied => Some(Operand(0, 0)),
            AddressingMode::Accumulator => Some(Operand(0, 1)),
            AddressingMode::Immediate => {
                let d = self.fetch_u8(system)?;
                Some(Operand(d as u16, 1))
            },
            AddressingMode::Absolute => {
                let d = self.fetch_u16(system)?;
                Some(Operand(d, 3))
            },
            AddressingMode::ZeroPage => {
                let d = self.fetch_u8(system)?;
                Some(Operand(d as u16, 2))
            },
            AddressingMode::ZeroPageX => {
                let d = self.fetch_u8(system)?;
                proof { lemma_wrapping_add_u8(d, self.x); }
                Some(Operand(d.wrapping_add(self.x) as u16, 3))
            },
            AddressingMode::ZeroPageY => {
                let d = self.fetch_u8(system)?;
                proof { lemma_wrapping_add_u8(d, self.y); }
                Some(Operand(d.wrapping_add(self.y) as u16, 3))
            },
            AddressingMode::AbsoluteX | AddressingMode::AbsoluteY => self.fetch_operand_absolute_indexed(system, mode),
            AddressingMode::Relative => self.fetch_operand_relative(system, mode),
            AddressingMode::Indirect => self.fetch_operand_indirect(system, mode),
            AddressingMode::IndirectX | AddressingMode::IndirectY => self.fetch_operand_indexed_indirect(system, mode),
        }
    }

    /// a,x and a,y
    fn fetch_operand_absolute_indexed(&mut self, system: &mut System, mode: AddressingMode) -> (r: Option<Operand>)
        requires
            mode == AddressingMode::AbsoluteX || mode == AddressingMode::AbsoluteY,
        ensures
            outcome(fetch_operand_spec(*old(self), *old(system), mode), *final(self), *final(system), r),
            r matches Some(op) ==> op.1 <= 6,
    {
        let index: u16 = if mode == AddressingMode::AbsoluteX { self.x as u16 } else { self.y as u16 };
        let base = self.fetch_u16(system)?;
        let data = base.wrapping_add(index);
        proof {
            lemma_wrapping_add_u16(base, index);
        }
        // one more cycle when indexing crosses a page
        let additional_cyc = page_cycle_exec(base, data);
        Some(Operand(data, 3 + additional_cyc))
    }

    /// label
    fn fetch_operand_relative(&mut self, system: &mut System, mode: AddressingMode) -> (r: Option<Operand>)
        requires
            mode == AddressingMode::Relative,
        ensures
            outcome(fetch_operand_spec(*old(self), *old(system), mode), *final(self), *final(system), r),
            r matches Some(op) ==> op.1 <= 6,
    {
        let src_addr = self.fetch_u8(system)?;
        // sign-extend the offset
        let signed_data: i32 = ((src_addr as i8) as i32) + (self.pc as i32);
        let data = signed_data as u16;
        let additional_cyc = page_cycle_exec(data, self.pc);
        Some(Operand(data, 1 + additional_cyc))
    }

    /// (a), for JMP
    fn fetch_operand_indirect(&mut self, system: &mut System, mode: AddressingMode) -> (r: Option<Operand>)
        requires
            mode == AddressingMode::Indirect,
        ensures
            outcome(fetch_operand_spec(*old(self), *old(system), mode), *final(self), *final(system), r),
            r matches Some(op) ==> op.1 <= 6,
    {
        let src_addr_lower = self.fetch_u8(system)?;
        let src_addr_upper = self.fetch_u8(system)?;
        // the operand itself, and the operand with its low byte + 1
        let dst_addr_lower = (src_addr_lower as u16) | ((src_addr_upper as u16) << 8u16);
        let dst_addr_upper = (src_addr_lower.wrapping_add(1) as u16) | ((src_addr_upper as u16) << 8u16);
        proof { lemma_wrapping_add_u8(src_addr_lower, 1); }
        let data = read_pointer_checked(system, dst_addr_lower, dst_addr_upper)?;
        Some(Operand(data, 5))
    }

    /// (d,x) and (d),y
    fn fetch_operand_indexed_indirect(&mut self, system: &mut System, mode: AddressingMode) -> (r: Option<Operand>)
        requires
            mode == AddressingMode::IndirectX || mode == AddressingMode::IndirectY,
        ensures
            outcome(fetch_operand_spec(*old(self), *old(system), mode), *final(self), *final(system), r),
            r matches Some(op) ==> op.1 <= 6,
    {
        let src_addr = self.fetch_u8(system)?;
        if mode == AddressingMode::IndirectX {
            let dst_addr = src_addr.wrapping_add(self.x);
            proof {
                lemma_wrapping_add_u8(src_addr, self.x);
                lemma_wrapping_add_u8(dst_addr, 1);
            }
            let data = read_pointer_checked(system, dst_addr as u16, dst_addr.wrapping_add(1) as u16)?;
            Some(Operand(data, 5))
        } else {
            proof { lemma_wrapping_add_u8(src_addr, 1); }
            let base_data = read_pointer_checked(system, src_addr as u16, src_addr.wrapping_add(1) as u16)?;
            let data = base_data.wrapping_add(self.y as u16);
            proof { lemma_wrapping_add_u16(base_data, self.y as u16); }
            let additional_cyc = page_cycle_exec(base_data, data);
            Some(Operand(data, 4 + additional_cyc))
        }
    }

    /// Fetches the operand and the data it names.
    fn fetch_args(&mut self, system: &mut System, mode: AddressingMode) -> (r: Option<(Operand, u8)>)
        ensures
            outcome(fetch_args_spec(*old(self), *old(system), mode), *final(self), *final(system), r),
            r matches Some(v) ==> v.0.1 <= 6,
    {
        let op = self.fetch_operand(system, mode)?;
        match mode {
            AddressingMode::Implied => Some((op, 0)),
            AddressingMode::Accumulator => Some((op, self.a)),
            AddressingMode::Immediate => Some((op, op.0 as u8)),
            _ => {
                let data = read_checked(system, op.0)?;
                Some((op, data))
            },
        }
    }

    /// Sets Z and N from a result.
    fn write_nz(&mut self, result: u8)
        ensures
            *final(self) == (Cpu { p: nz(old(self).p, result), ..*old(self) }),
    {
        let is_zero = result == 0;
        let is_negative = (result & 0x80u8) == 0x80u8;
        self.write_zero_flag(is_zero);
        self.write_negative_flag(is_negative);
    }

    /// ADC on A.
    fn add_with_carry(&mut self, arg: u8)
        ensures
            *final(self) == (Cpu {
                a: adc(old(self).a, arg, old(self).p).0,
                p: adc(old(self).a, arg, old(self).p).1,
                ..*old(self)
            }),
    {
        let c: u16 = if self.read_carry_flag() { 1 } else { 0 };
        let tmp: u16 = (self.a as u16) + (arg as u16) + c;
        let result = (tmp & 0xffu16) as u8;
        proof {
            assert(tmp & 0xffu16 == tmp % 256) by (bit_vector);
        }
        let is_carry = tmp > 0x00ffu16;
        let is_overflow = ((self.a ^ result) & (arg ^ result) & 0x80u8) == 0x80u8;
        self.write_carry_flag(is_carry);
        self.write_nz(result);
        self.write_overflow_flag(is_overflow);
        self.a = result;
    }

    /// SBC on A.
    fn subtract_with_carry(&mut self, arg: u8)
        ensures
            *final(self) == (Cpu {
                a: sbc(old(self).a, arg, old(self).p).0,
                p: sbc(old(self).a, arg, old(self).p).1,
                ..*old(self)
            }),
    {
        let data1 = self.a.wrapping_sub(arg);
        let is_carry1 = self.a < arg;
        let borrow: u8 = if self.read_carry_flag() { 0 } else { 1 };
        let result = data1.wrapping_sub(borrow);
        let is_carry2 = data1 < borrow;
        // a borrow clears the carry
        let is_carry = !(is_carry1 || is_carry2);
        let is_overflow = (((self.a ^ arg) & 0x80u8) == 0x80u8) && (((self.a ^ result) & 0x80u8) == 0x80u8);
        self.write_carry_flag(is_carry);
        self.write_nz(result);
        self.write_overflow_flag(is_overflow);
        self.a = result;
    }

    /// Compares a register with the argument.
    fn compare_with(&mut self, reg: u8, arg: u8)
        ensures
            *final(self) == (Cpu { p: compare(reg, arg, old(self).p), ..*old(self) }),
    {
        let result = reg.wrapping_sub(arg);
        let is_carry = reg >= arg;
        self.write_carry_flag(is_carry);
        self.write_nz(result);
    }

    /// The register part of a read instruction.
    #[verifier::rlimit(30)]
    fn read_op(&mut self, opcode: Opcode, arg: u8)
        requires
            is_read_op(opcode),
        ensures
            *final(self) == read_op_spec(*old(self), opcode, arg),
    {
        match opcode {
            Opcode::ADC => self.add_with_carry(arg),
            Opcode::SBC => self.subtract_with_carry(arg),
            Opcode::AND => {
                let result = self.a & arg;
                self.write_nz(result);
                self.a = result;
            },
            Opcode::EOR => {
                let result = self.a ^ arg;
                self.write_nz(result);
                self.a = result;
            },
            Opcode::ORA => {
                let result = self.a | arg;
                self.write_nz(result);
                self.a = result;
            },
            Opcode::CMP => {
                let reg = self.a;
                self.compare_with(reg, arg);
            },
            Opcode::CPX => {
                let reg = self.x;
                self.compare_with(reg, arg);
            },
            Opcode::CPY => {
                let reg = self.y;
                self.compare_with(reg, arg);
            },
            Opcode::LDA => {
                self.write_nz(arg);
                self.a = arg;
            },
            Opcode::LDX => {
                self.write_nz(arg);
                self.x = arg;
            },
            Opcode::LDY => {
                self.write_nz(arg);
                self.y = arg;
            },
            Opcode::ALR => {
                let src = self.a & arg;
                let result = src >> 1u8;
                let is_carry = (src & 0x01u8) == 0x01u8;
                self.write_carry_flag(is_carry);
                self.write_nz(result);
                self.a = result;
            },
            Opcode::ANC => {
                let result = self.a & arg;
                let is_carry = self.read_negative_flag();
                self.write_nz(result);
                self.write_carry_flag(is_carry);
                self.a = result;
            },
            Opcode::ARR => {
                let src = self.a & arg;
                let result = (src >> 1u8) | (if self.read_carry_flag() { 0x80u8 } else { 0x00u8 });
                let is_carry = (result & 0x40u8) == 0x40u8;
                let is_overflow = ((result & 0x40u8) ^ ((result & 0x20u8) << 1u8)) == 0x40u8;
                self.write_nz(result);
                self.write_carry_flag(is_carry);
                self.write_overflow_flag(is_overflow);
                self.a = result;
            },
            Opcode::AXS => {
                let src = self.a & self.x;
                let result = src.wrapping_sub(arg);
                let is_carry = src >= arg;
                self.write_carry_flag(is_carry);
                self.write_nz(result);
                self.x = result;
            },
            Opcode::LAX => {
                self.write_nz(arg);
                self.a = arg;
                self.x = arg;
            },
            _ => {},
        }
    }

    /// The register part of a read-modify-write instruction; returns the
    /// value to write back.
    fn rmw_op(&mut self, opcode: Opcode, arg: u8) -> (v: u8)
        requires
            is_rmw_op(opcode),
        ensures
            (*final(self), v) == rmw_spec(*old(self), opcode, arg),
    {
        match opcode {
            Opcode::ASL => {
                let result = arg << 1u8;
                let is_carry = (arg & 0x80u8) == 0x80u8;
                self.write_carry_flag(is_carry);
                self.write_nz(result);
                result
            },
            Opcode::LSR => {
                let result = arg >> 1u8;
                let is_carry = (arg & 0x01u8) == 0x01u8;
                self.write_carry_flag(is_carry);
                self.write_nz(result);
                result
            },
            Opcode::ROL => {
                let result = (arg << 1u8) | (if self.read_carry_flag() { 0x01u8 } else { 0x00u8 });
                let is_carry = (arg & 0x80u8) == 0x80u8;
                self.write_carry_flag(is_carry);
                self.write_nz(result);
                result
            },
            Opcode::ROR => {
                let result = (arg >> 1u8) | (if self.read_carry_flag() { 0x80u8 } else { 0x00u8 });
                let is_carry = (arg & 0x01u8) == 0x01u8;
                self.write_carry_flag(is_carry);
                self.write_nz(result);
                result
            },
            Opcode::INC => {
                let result = arg.wrapping_add(1);
                self.write_nz(result);
                result
            },
            Opcode::DEC => {
                let result = arg.wrapping_sub(1);
                self.write_nz(result);
                result
            },
            Opcode::DCP => {
                let dec_result = arg.wrapping_sub(1);
                let reg = self.a;
                self.compare_with(reg, dec_result);
                dec_result
            },
            Opcode::ISC => {
                let inc_result = arg.wrapping_add(1);
                self.subtract_with_carry(inc_result);
                inc_result
            },
            Opcode::RLA => {
                let result_rol = (arg << 1u8) | (if self.read_carry_flag() { 0x01u8 } else { 0x00u8 });
                let is_carry = (arg & 0x80u8) == 0x80u8;
                self.write_carry_flag(is_carry);
                let result_and = self.a & result_rol;
                self.write_nz(result_and);
                self.a = result_and;
                result_rol
            },
            Opcode::RRA => {
                let result_ror = (arg >> 1u8) | (if self.read_carry_flag() { 0x80u8 } else { 0x00u8 });
                let is_carry_ror = (arg & 0x01u8) == 0x01u8;
                self.write_carry_flag(is_carry_ror);
                self.add_with_carry(result_ror);
                result_ror
            },
            Opcode::SLO => {
                let result_asl = arg << 1u8;
                let is_carry = (arg & 0x80u8) == 0x80u8;
                self.write_carry_flag(is_carry);
                let result_ora = self.a | result_asl;
                self.write_nz(result_ora);
                self.a = result_ora;
                result_asl
            },
            Opcode::SRE => {
                let result_lsr = arg >> 1u8;
                let is_carry = (arg & 0x01u8) == 0x01u8;
                self.write_carry_flag(is_carry);
                let result_eor = self.a ^ result_lsr;
                self.write_nz(result_eor);
                self.a = result_eor;
                result_lsr
            },
            _ => self.a & self.x,
        }
    }

    /// An implied instruction.
    fn implied_op(&mut self, opcode: Opcode)
        requires
            is_implied_op(opcode),
        ensures
            *final(self) == implied_spec(*old(self), opcode),
    {
        match opcode {
            Opcode::INX => {
                let result = self.x.wrapping_add(1);
                self.write_nz(result);
                self.x = result;
            },
            Opcode::INY => {
                let result = self.y.wrapping_add(1);
                self.write_nz(result);
                self.y = result;
            },
            Opcode::DEX => {
                let result = self.x.wrapping_sub(1);
                self.write_nz(result);
                self.x = result;
            },
            Opcode::DEY => {
                let result = self.y.wrapping_sub(1);
                self.write_nz(result);
                self.y = result;
            },
            Opcode::TAX => {
                let v = self.a;
                self.write_nz(v);
                self.x = v;
            },
            Opcode::TAY => {
                let v = self.a;
                self.write_nz(v);
                self.y = v;
            },
            Opcode::TSX => {
                let result = (self.sp & 0xffu16) as u8;
                self.write_nz(result);
                self.x = result;
            },
            Opcode::TXA => {
                let v = self.x;
                self.write_nz(v);
                self.a = v;
            },
            Opcode::TXS => {
                self.sp = (self.x as u16) | 0x0100u16;
            },
            Opcode::TYA => {
                let v = self.y;
                self.write_nz(v);
                self.a = v;
            },
            Opcode::SEC => self.write_carry_flag(true),
            Opcode::SED => self.write_decimal_flag(true),
            Opcode::SEI => self.write_interrupt_flag(true),
            Opcode::CLC => self.write_carry_flag(false),
            Opcode::CLD => self.write_decimal_flag(false),
            Opcode::CLI => self.write_interrupt_flag(false),
            Opcode::CLV => self.write_overflow_flag(false),
            _ => {},
        }
    }

    fn branch_taken_exec(&self, opcode: Opcode) -> (r: bool)
        ensures
            r == branch_taken(opcode, self.p),
    {
        match opcode {
            Opcode::BCC => !self.read_carry_flag(),
            Opcode::BCS => self.read_carry_flag(),
            Opcode::BEQ => self.read_zero_flag(),
            Opcode::BNE => !self.read_zero_flag(),
            Opcode::BMI => self.read_negative_flag(),
            Opcode::BPL => !self.read_negative_flag(),
            Opcode::BVC => !self.read_overflow_flag(),
            _ => self.read_overflow_flag(),
        }
    }

    fn exec_read(&mut self, system: &mut System, opcode: Opcode, mode: AddressingMode, inst_pc: u16) -> (r: Option<u8>)
        requires
            is_read_op(opcode),
        ensures
            outcome(execute_spec(*old(self), *old(system), opcode, mode, inst_pc), *final(self), *final(system), r),
    {
        let (op, arg) = self.fetch_args(system, mode)?;
        self.read_op(opcode, arg);
        Some(1 + op.1)
    }

    fn exec_rmw(&mut self, system: &mut System, opcode: Opcode, mode: AddressingMode, inst_pc: u16) -> (r: Option<u8>)
        requires
            is_rmw_op(opcode),
        ensures
            outcome(execute_spec(*old(self), *old(system), opcode, mode, inst_pc), *final(self), *final(system), r),
    {
        let (op, arg) = self.fetch_args(system, mode)?;
        let is_shift = matches!(opcode, Opcode::ASL | Opcode::LSR | Opcode::ROL | Opcode::ROR);
        if is_shift && mode == AddressingMode::Accumulator {
            let result = self.rmw_op(opcode, arg);
            self.a = result;
            Some(1 + op.1)
        } else if system.is_addr_ok(op.0) {
            let result = self.rmw_op(opcode, arg);
            // write the result back where it came from
            system.write_u8(op.0, result, false);
            let extra: u8 = if matches!(opcode, Opcode::ISC | Opcode::SAX) { 1 } else { 3 };
            Some(extra + op.1)
        } else {
            None
        }
    }

    fn exec_branch(&mut self, system: &mut System, opcode: Opcode, mode: AddressingMode, inst_pc: u16) -> (r: Option<u8>)
        requires
            is_branch_op(opcode),
        ensures
            outcome(execute_spec(*old(self), *old(system), opcode, mode, inst_pc), *final(self), *final(system), r),
    {
        let op = self.fetch_operand(system, mode)?;
        if self.branch_taken_exec(opcode) {
            self.pc = op.0;
            Some(1 + op.1 + 1)
        } else {
            Some(1 + op.1)
        }
    }

    fn exec_store(&mut self, system: &mut System, opcode: Opcode, mode: AddressingMode, inst_pc: u16) -> (r: Option<u8>)
        requires
            is_store_op(opcode),
        ensures
            outcome(execute_spec(*old(self), *old(system), opcode, mode, inst_pc), *final(self), *final(system), r),
    {
        let op = self.fetch_operand(system, mode)?;
        if !system.is_addr_ok(op.0) {
            return None;
        }
        let data = match opcode {
            Opcode::STA => self.a,
            Opcode::STX => self.x,
            _ => self.y,
        };
        system.write_u8(op.0, data, false);
        Some(1 + op.1)
    }

    /// Pops two bytes, low byte first, into a 16-bit value.
    fn pop_u16(&mut self, system: &mut System) -> (r: Option<u16>)
        ensures
            outcome(pop_u16_spec(*old(self), *old(system)), *final(self), *final(system), r),
    {
        if !self.can_pop(system) {
            return None;
        }
        let pc_lower = self.stack_pop(system);
        if !self.can_pop(system) {
            return None;
        }
        let pc_upper = self.stack_pop(system);
        Some(((pc_upper as u16) << 8u16) | (pc_lower as u16))
    }

    fn exec_control(&mut self, system: &mut System, opcode: Opcode, mode: AddressingMode, inst_pc: u16) -> (r: Option<u8>)
        requires
            !is_read_op(opcode),
            !is_rmw_op(opcode),
            !is_implied_op(opcode),
            !is_branch_op(opcode),
            !is_store_op(opcode),
        ensures
            outcome(execute_spec(*old(self), *old(system), opcode, mode, inst_pc), *final(self), *final(system), r),
    {
        match opcode {
            Opcode::JMP => {
                let op = self.fetch_operand(system, mode)?;
                self.pc = op.0;
                Some(op.1)
            },
            Opcode::JSR => {
                let op = self.fetch_operand(system, mode)?;
                if inst_pc > 0xfffd {
                    return None;
                }
                // push the address of the instruction's last byte, upper first
                let ret_addr = inst_pc + 2;
                if !self.can_push(system) {
                    return None;
                }
                self.stack_push(system, (ret_addr >> 8u16) as u8);
                if !self.can_push(system) {
                    return None;
                }
                self.stack_push(system, (ret_addr & 0xffu16) as u8);
                self.pc = op.0;
                Some(6)
            },
            Opcode::RTI => {
                if !self.can_pop(system) {
                    return None;
                }
                self.p = self.stack_pop(system);
                let pc = self.pop_u16(system)?;
                self.pc = pc;
                Some(6)
            },
            Opcode::RTS => {
                let pc = self.pop_u16(system)?;
                if pc == 0xffff {
                    return None;
                }
                self.pc = pc + 1;
                Some(6)
            },
            Opcode::PHA => {
                if !self.can_push(system) {
                    return None;
                }
                let a = self.a;
                self.stack_push(system, a);
                Some(3)
            },
            Opcode::PHP => {
                if !self.can_push(system) {
                    return None;
                }
                let p = self.p;
                self.stack_push(system, p);
                Some(3)
            },
            Opcode::PLA => {
                if !self.can_pop(system) {
                    return None;
                }
                let result = self.stack_pop(system);
                self.write_nz(result);
                self.a = result;
                Some(4)
            },
            Opcode::PLP => {
                if !self.can_pop(system) {
                    return None;
                }
                self.p = self.stack_pop(system);
                Some(4)
            },
            Opcode::BRK => {
                self.write_break_flag(true);
                if !self.can_interrupt(system, Interrupt::BRK) {
                    return None;
                }
                self.interrupt(system, Interrupt::BRK);
                Some(7)
            },
            Opcode::BIT => {
                // a non-destructive read of the argument
                let op = self.fetch_operand(system, mode)?;
                if !system.is_addr_ok(op.0) {
                    return None;
                }
                let arg = system.read_u8(op.0, true);
                let is_negative = (arg & 0x80u8) == 0x80u8;
                let is_overflow = (arg & 0x40u8) == 0x40u8;
                let is_zero = (self.a & arg) == 0x00u8;
                self.write_negative_flag(is_negative);
                self.write_zero_flag(is_zero);
                self.write_overflow_flag(is_overflow);
                Some(2 + op.1)
            },
            _ => None,
        }
    }

    fn execute(&mut self, system: &mut System, opcode: Opcode, mode: AddressingMode, inst_pc: u16) -> (r: Option<u8>)
        ensures
            outcome(execute_spec(*old(self), *old(system), opcode, mode, inst_pc), *final(self), *final(system), r),
    {
        if is_read_op_exec(opcode) {
            self.exec_read(system, opcode, mode, inst_pc)
        } else if is_rmw_op_exec(opcode) {
            self.exec_rmw(system, opcode, mode, inst_pc)
        } else if is_implied_op_exec(opcode) {
            self.implied_op(opcode);
            Some(2)
        } else if is_branch_op_exec(opcode) {
            self.exec_branch(system, opcode, mode, inst_pc)
        } else if is_store_op_exec(opcode) {
            self.exec_store(system, opcode, mode, inst_pc)
        } else {
            self.exec_control(system, opcode, mode, inst_pc)
        }
    }

    /// Executes one instruction, or returns `None` where the instruction
    /// cannot be carried out: an opcode byte that stands for no supported
    /// instruction, an access that the bus does not answer, or PC or SP
    /// moving past the ends of their range. After `None` the state is not
    /// meaningful.
    pub fn try_step(&mut self, system: &mut System) -> (r: Option<u8>)
        ensures
            outcome(step_spec(*old(self), *old(system)), *final(self), *final(system), r),
    {
        let inst_pc = self.pc;
        let inst_code = self.fetch_u8(system)?;
        if !is_valid_inst_code(inst_code) {
            return None;
        }
        let Instruction(opcode, mode) = Instruction::from(inst_code);
        self.execute(system, opcode, mode, inst_pc)
    }

    /// Executes one instruction and returns its cycle count.
    /// See http://obelisk.me.uk/6502/reference.html
    pub fn step(&mut self, system: &mut System) -> (cycles: u8)
        requires
            step_spec(*old(self), *old(system)) is Some,
        ensures
            step_spec(*old(self), *old(system)) == Some((*final(self), *final(system), cycles)),
    {
        match self.try_step(system) {
            Some(cycles) => cycles,
            None => 0,
        }
    }
}

} // verus!
