use vstd::prelude::*;
use crate::cpu::{inc16, lemma_flag_set_get, lemma_push_pop16, read16_spec, signed8, AddressingMode, CPU, CPUFlags};
use crate::memory_bus::lemma_read_keeps_ram;
use crate::memory_bus::{BusView, MemoryBus};
use crate::ppu::wrap16;

verus! {

/// The official 6502 instructions.
#[derive(Copy, Clone, Debug, PartialEq, Eq, Structural)]
pub enum Instruction {
    ADC,
    AND,
    ASL,
    BCC,
    BCS,
    BEQ,
    BIT,
    BMI,
    BNE,
    BPL,
    BRK,
    BVC,
    BVS,
    CLC,
    CLD,
    CLI,
    CLV,
    CMP,
    CPX,
    CPY,
    DEC,
    DEX,
    DEY,
    EOR,
    INC,
    INX,
    INY,
    JMP,
    JSR,
    LDA,
    LDX,
    LDY,
    LSR,
    NOP,
    ORA,
    PHA,
    PHP,
    PLA,
    PLP,
    ROL,
    ROR,
    RTI,
    RTS,
    SBC,
    SEC,
    SED,
    SEI,
    STA,
    STX,
    STY,
    TAX,
    TAY,
    TSX,
    TXA,
    TXS,
    TYA,
}

/// The instruction and addressing mode an opcode encodes; `None` for the
/// unofficial opcodes, which are not executed.
pub open spec fn decode(opcode: u8) -> Option<(Instruction, AddressingMode)> {
    match opcode {
        0x69 => Some((Instruction::ADC, AddressingMode::Immediate)),
        0x65 => Some((Instruction::ADC, AddressingMode::ZeroPage)),
        0x75 => Some((Instruction::ADC, AddressingMode::ZeroPageX)),
        0x6D => Some((Instruction::ADC, AddressingMode::Absolute)),
        0x7D => Some((Instruction::ADC, AddressingMode::AbsoluteX)),
        0x79 => Some((Instruction::ADC, AddressingMode::AbsoluteY)),
        0x61 => Some((Instruction::ADC, AddressingMode::IndexedIndirect)),
        0x71 => Some((Instruction::ADC, AddressingMode::IndirectIndexed)),
        0x29 => Some((Instruction::AND, AddressingMode::Immediate)),
        0x25 => Some((Instruction::AND, AddressingMode::ZeroPage)),
        0x35 => Some((Instruction::AND, AddressingMode::ZeroPageX)),
        0x2D => Some((Instruction::AND, AddressingMode::Absolute)),
        0x3D => Some((Instruction::AND, AddressingMode::AbsoluteX)),
        0x39 => Some((Instruction::AND, AddressingMode::AbsoluteY)),
        0x21 => Some((Instruction::AND, AddressingMode::IndexedIndirect)),
        0x31 => Some((Instruction::AND, AddressingMode::IndirectIndexed)),
        0x0A => Some((Instruction::ASL, AddressingMode::Accumulator)),
        0x06 => Some((Instruction::ASL, AddressingMode::ZeroPage)),
        0x16 => Some((Instruction::ASL, AddressingMode::ZeroPageX)),
        0x0E => Some((Instruction::ASL, AddressingMode::Absolute)),
        0x1E => Some((Instruction::ASL, AddressingMode::AbsoluteX)),
        0x90 => Some((Instruction::BCC, AddressingMode::Relative)),
        0xB0 => Some((Instruction::BCS, AddressingMode::Relative)),
        0xF0 => Some((Instruction::BEQ, AddressingMode::Relative)),
        0x30 => Some((Instruction::BMI, AddressingMode::Relative)),
        0xD0 => Some((Instruction::BNE, AddressingMode::Relative)),
        0x10 => Some((Instruction::BPL, AddressingMode::Relative)),
        0x50 => Some((Instruction::BVC, AddressingMode::Relative)),
        0x70 => Some((Instruction::BVS, AddressingMode::Relative)),
        0x24 => Some((Instruction::BIT, AddressingMode::ZeroPage)),
        0x2C => Some((Instruction::BIT, AddressingMode::Absolute)),
        0x00 => Some((Instruction::BRK, AddressingMode::Immediate)),
        0x18 => Some((Instruction::CLC, AddressingMode::Implied)),
        0xD8 => Some((Instruction::CLD, AddressingMode::Implied)),
        0x58 => Some((Instruction::CLI, AddressingMode::Implied)),
        0xB8 => Some((Instruction::CLV, AddressingMode::Implied)),
        0xC9 => Some((Instruction::CMP, AddressingMode::Immediate)),
        0xC5 => Some((Instruction::CMP, AddressingMode::ZeroPage)),
        0xD5 => Some((Instruction::CMP, AddressingMode::ZeroPageX)),
        0xCD => Some((Instruction::CMP, AddressingMode::Absolute)),
        0xDD => Some((Instruction::CMP, AddressingMode::AbsoluteX)),
        0xD9 => Some((Instruction::CMP, AddressingMode::AbsoluteY)),
        0xC1 => Some((Instruction::CMP, AddressingMode::IndexedIndirect)),
        0xD1 => Some((Instruction::CMP, AddressingMode::IndirectIndexed)),
        0xE0 => Some((Instruction::CPX, AddressingMode::Immediate)),
        0xE4 => Some((Instruction::CPX, AddressingMode::ZeroPage)),
        0xEC => Some((Instruction::CPX, AddressingMode::Absolute)),
        0xC0 => Some((Instruction::CPY, AddressingMode::Immediate)),
        0xC4 => Some((Instruction::CPY, AddressingMode::ZeroPage)),
        0xCC => Some((Instruction::CPY, AddressingMode::Absolute)),
        0xE6 => Some((Instruction::INC, AddressingMode::ZeroPage)),
        0xF6 => Some((Instruction::INC, AddressingMode::ZeroPageX)),
        0xEE => Some((Instruction::INC, AddressingMode::Absolute)),
        0xFE => Some((Instruction::INC, AddressingMode::AbsoluteX)),
        0xC6 => Some((Instruction::DEC, AddressingMode::ZeroPage)),
        0xD6 => Some((Instruction::DEC, AddressingMode::ZeroPageX)),
        0xCE => Some((Instruction::DEC, AddressingMode::Absolute)),
        0xDE => Some((Instruction::DEC, AddressingMode::AbsoluteX)),
        0xE8 => Some((Instruction::INX, AddressingMode::Implied)),
        0xCA => Some((Instruction::DEX, AddressingMode::Implied)),
        0xC8 => Some((Instruction::INY, AddressingMode::Implied)),
        0x88 => Some((Instruction::DEY, AddressingMode::Implied)),
        0x49 => Some((Instruction::EOR, AddressingMode::Immediate)),
        0x45 => Some((Instruction::EOR, AddressingMode::ZeroPage)),
        0x55 => Some((Instruction::EOR, AddressingMode::ZeroPageX)),
        0x4D => Some((Instruction::EOR, AddressingMode::Absolute)),
        0x5D => Some((Instruction::EOR, AddressingMode::AbsoluteX)),
        0x59 => Some((Instruction::EOR, AddressingMode::AbsoluteY)),
        0x41 => Some((Instruction::EOR, AddressingMode::IndexedIndirect)),
        0x51 => Some((Instruction::EOR, AddressingMode::IndirectIndexed)),
        0x4C => Some((Instruction::JMP, AddressingMode::Absolute)),
        0x6C => Some((Instruction::JMP, AddressingMode::Indirect)),
        0x20 => Some((Instruction::JSR, AddressingMode::Absolute)),
        0xA9 => Some((Instruction::LDA, AddressingMode::Immediate)),
        0xA5 => Some((Instruction::LDA, AddressingMode::ZeroPage)),
        0xB5 => Some((Instruction::LDA, AddressingMode::ZeroPageX)),
        0xAD => Some((Instruction::LDA, AddressingMode::Absolute)),
        0xBD => Some((Instruction::LDA, AddressingMode::AbsoluteX)),
        0xB9 => Some((Instruction::LDA, AddressingMode::AbsoluteY)),
        0xA1 => Some((Instruction::LDA, AddressingMode::IndexedIndirect)),
        0xB1 => Some((Instruction::LDA, AddressingMode::IndirectIndexed)),
        0xA2 => Some((Instruction::LDX, AddressingMode::Immediate)),
        0xA6 => Some((Instruction::LDX, AddressingMode::ZeroPage)),
        0xB6 => Some((Instruction::LDX, AddressingMode::ZeroPageY)),
        0xAE => Some((Instruction::LDX, AddressingMode::Absolute)),
        0xBE => Some((Instruction::LDX, AddressingMode::AbsoluteY)),
        0xA0 => Some((Instruction::LDY, AddressingMode::Immediate)),
        0xA4 => Some((Instruction::LDY, AddressingMode::ZeroPage)),
        0xB4 => Some((Instruction::LDY, AddressingMode::ZeroPageX)),
        0xAC => Some((Instruction::LDY, AddressingMode::Absolute)),
        0xBC => Some((Instruction::LDY, AddressingMode::AbsoluteX)),
        0x4A => Some((Instruction::LSR, AddressingMode::Accumulator)),
        0x46 => Some((Instruction::LSR, AddressingMode::ZeroPage)),
        0x56 => Some((Instruction::LSR, AddressingMode::ZeroPageX)),
        0x4E => Some((Instruction::LSR, AddressingMode::Absolute)),
        0x5E => Some((Instruction::LSR, AddressingMode::AbsoluteX)),
        0xEA => Some((Instruction::NOP, AddressingMode::Implied)),
        0x09 => Some((Instruction::ORA, AddressingMode::Immediate)),
        0x05 => Some((Instruction::ORA, AddressingMode::ZeroPage)),
        0x15 => Some((Instruction::ORA, AddressingMode::ZeroPageX)),
        0x0D => Some((Instruction::ORA, AddressingMode::Absolute)),
        0x1D => Some((Instruction::ORA, AddressingMode::AbsoluteX)),
        0x19 => Some((Instruction::ORA, AddressingMode::AbsoluteY)),
        0x01 => Some((Instruction::ORA, AddressingMode::IndexedIndirect)),
        0x11 => Some((Instruction::ORA, AddressingMode::IndirectIndexed)),
        0x48 => Some((Instruction::PHA, AddressingMode::Implied)),
        0x08 => Some((Instruction::PHP, AddressingMode::Implied)),
        0x68 => Some((Instruction::PLA, AddressingMode::Implied)),
        0x28 => Some((Instruction::PLP, AddressingMode::Implied)),
        0x2A => Some((Instruction::ROL, AddressingMode::Accumulator)),
        0x26 => Some((Instruction::ROL, AddressingMode::ZeroPage)),
        0x36 => Some((Instruction::ROL, AddressingMode::ZeroPageX)),
        0x2E => Some((Instruction::ROL, AddressingMode::Absolute)),
        0x3E => Some((Instruction::ROL, AddressingMode::AbsoluteX)),
        0x6A => Some((Instruction::ROR, AddressingMode::Accumulator)),
        0x66 => Some((Instruction::ROR, AddressingMode::ZeroPage)),
        0x76 => Some((Instruction::ROR, AddressingMode::ZeroPageX)),
        0x6E => Some((Instruction::ROR, AddressingMode::Absolute)),
        0x7E => Some((Instruction::ROR, AddressingMode::AbsoluteX)),
        0x40 => Some((Instruction::RTI, AddressingMode::Implied)),
        0x60 => Some((Instruction::RTS, AddressingMode::Implied)),
        0xE9 => Some((Instruction::SBC, AddressingMode::Immediate)),
        0xE5 => Some((Instruction::SBC, AddressingMode::ZeroPage)),
        0xF5 => Some((Instruction::SBC, AddressingMode::ZeroPageX)),
        0xED => Some((Instruction::SBC, AddressingMode::Absolute)),
        0xFD => Some((Instruction::SBC, AddressingMode::AbsoluteX)),
        0xF9 => Some((Instruction::SBC, AddressingMode::AbsoluteY)),
        0xE1 => Some((Instruction::SBC, AddressingMode::IndexedIndirect)),
        0xF1 => Some((Instruction::SBC, AddressingMode::IndirectIndexed)),
        0x38 => Some((Instruction::SEC, AddressingMode::Implied)),
        0xF8 => Some((Instruction::SED, AddressingMode::Implied)),
        0x78 => Some((Instruction::SEI, AddressingMode::Implied)),
        0x85 => Some((Instruction::STA, AddressingMode::ZeroPage)),
        0x95 => Some((Instruction::STA, AddressingMode::ZeroPageX)),
        0x8D => Some((Instruction::STA, AddressingMode::Absolute)),
        0x9D => Some((Instruction::STA, AddressingMode::AbsoluteX)),
        0x99 => Some((Instruction::STA, AddressingMode::AbsoluteY)),
        0x81 => Some((Instruction::STA, AddressingMode::IndexedIndirect)),
        0x91 => Some((Instruction::STA, AddressingMode::IndirectIndexed)),
        0x86 => Some((Instruction::STX, AddressingMode::ZeroPage)),
        0x96 => Some((Instruction::STX, AddressingMode::ZeroPageY)),
        0x8E => Some((Instruction::STX, AddressingMode::Absolute)),
        0x84 => Some((Instruction::STY, AddressingMode::ZeroPage)),
        0x94 => Some((Instruction::STY, AddressingMode::ZeroPageX)),
        0x8C => Some((Instruction::STY, AddressingMode::Absolute)),
        0xAA => Some((Instruction::TAX, AddressingMode::Implied)),
        0xA8 => Some((Instruction::TAY, AddressingMode::Implied)),
        0xBA => Some((Instruction::TSX, AddressingMode::Implied)),
        0x8A => Some((Instruction::TXA, AddressingMode::Implied)),
        0x9A => Some((Instruction::TXS, AddressingMode::Implied)),
        0x98 => Some((Instruction::TYA, AddressingMode::Implied)),
        _ => None,
    }
}

/// The instruction and addressing mode of an opcode, as `decode` states.
#[verifier::rlimit(50)]
pub fn decode_opcode(opcode: u8) -> (r: Option<(Instruction, AddressingMode)>)
    ensures
        r == decode(opcode),
{
    match opcode {
        0x69 => Some((Instruction::ADC, AddressingMode::Immediate)),
        0x65 => Some((Instruction::ADC, AddressingMode::ZeroPage)),
        0x75 => Some((Instruction::ADC, AddressingMode::ZeroPageX)),
        0x6D => Some((Instruction::ADC, AddressingMode::Absolute)),
        0x7D => Some((Instruction::ADC, AddressingMode::AbsoluteX)),
        0x79 => Some((Instruction::ADC, AddressingMode::AbsoluteY)),
        0x61 => Some((Instruction::ADC, AddressingMode::IndexedIndirect)),
        0x71 => Some((Instruction::ADC, AddressingMode::IndirectIndexed)),
        0x29 => Some((Instruction::AND, AddressingMode::Immediate)),
        0x25 => Some((Instruction::AND, AddressingMode::ZeroPage)),
        0x35 => Some((Instruction::AND, AddressingMode::ZeroPageX)),
        0x2D => Some((Instruction::AND, AddressingMode::Absolute)),
        0x3D => Some((Instruction::AND, AddressingMode::AbsoluteX)),
        0x39 => Some((Instruction::AND, AddressingMode::AbsoluteY)),
        0x21 => Some((Instruction::AND, AddressingMode::IndexedIndirect)),
        0x31 => Some((Instruction::AND, AddressingMode::IndirectIndexed)),
        0x0A => Some((Instruction::ASL, AddressingMode::Accumulator)),
        0x06 => Some((Instruction::ASL, AddressingMode::ZeroPage)),
        0x16 => Some((Instruction::ASL, AddressingMode::ZeroPageX)),
        0x0E => Some((Instruction::ASL, AddressingMode::Absolute)),
        0x1E => Some((Instruction::ASL, AddressingMode::AbsoluteX)),
        0x90 => Some((Instruction::BCC, AddressingMode::Relative)),
        0xB0 => Some((Instruction::BCS, AddressingMode::Relative)),
        0xF0 => Some((Instruction::BEQ, AddressingMode::Relative)),
        0x30 => Some((Instruction::BMI, AddressingMode::Relative)),
        0xD0 => Some((Instruction::BNE, AddressingMode::Relative)),
        0x10 => Some((Instruction::BPL, AddressingMode::Relative)),
        0x50 => Some((Instruction::BVC, AddressingMode::Relative)),
        0x70 => Some((Instruction::BVS, AddressingMode::Relative)),
        0x24 => Some((Instruction::BIT, AddressingMode::ZeroPage)),
        0x2C => Some((Instruction::BIT, AddressingMode::Absolute)),
        0x00 => Some((Instruction::BRK, AddressingMode::Immediate)),
        0x18 => Some((Instruction::CLC, AddressingMode::Implied)),
        0xD8 => Some((Instruction::CLD, AddressingMode::Implied)),
        0x58 => Some((Instruction::CLI, AddressingMode::Implied)),
        0xB8 => Some((Instruction::CLV, AddressingMode::Implied)),
        0xC9 => Some((Instruction::CMP, AddressingMode::Immediate)),
        0xC5 => Some((Instruction::CMP, AddressingMode::ZeroPage)),
        0xD5 => Some((Instruction::CMP, AddressingMode::ZeroPageX)),
        0xCD => Some((Instruction::CMP, AddressingMode::Absolute)),
        0xDD => Some((Instruction::CMP, AddressingMode::AbsoluteX)),
        0xD9 => Some((Instruction::CMP, AddressingMode::AbsoluteY)),
        0xC1 => Some((Instruction::CMP, AddressingMode::IndexedIndirect)),
        0xD1 => Some((Instruction::CMP, AddressingMode::IndirectIndexed)),
        0xE0 => Some((Instruction::CPX, AddressingMode::Immediate)),
        0xE4 => Some((Instruction::CPX, AddressingMode::ZeroPage)),
        0xEC => Some((Instruction::CPX, AddressingMode::Absolute)),
        0xC0 => Some((Instruction::CPY, AddressingMode::Immediate)),
        0xC4 => Some((Instruction::CPY, AddressingMode::ZeroPage)),
        0xCC => Some((Instruction::CPY, AddressingMode::Absolute)),
        0xE6 => Some((Instruction::INC, AddressingMode::ZeroPage)),
        0xF6 => Some((Instruction::INC, AddressingMode::ZeroPageX)),
        0xEE => Some((Instruction::INC, AddressingMode::Absolute)),
        0xFE => Some((Instruction::INC, AddressingMode::AbsoluteX)),
        0xC6 => Some((Instruction::DEC, AddressingMode::ZeroPage)),
        0xD6 => Some((Instruction::DEC, AddressingMode::ZeroPageX)),
        0xCE => Some((Instruction::DEC, AddressingMode::Absolute)),
        0xDE => Some((Instruction::DEC, AddressingMode::AbsoluteX)),
        0xE8 => Some((Instruction::INX, AddressingMode::Implied)),
        0xCA => Some((Instruction::DEX, AddressingMode::Implied)),
        0xC8 => Some((Instruction::INY, AddressingMode::Implied)),
        0x88 => Some((Instruction::DEY, AddressingMode::Implied)),
        0x49 => Some((Instruction::EOR, AddressingMode::Immediate)),
        0x45 => Some((Instruction::EOR, AddressingMode::ZeroPage)),
        0x55 => Some((Instruction::EOR, AddressingMode::ZeroPageX)),
        0x4D => Some((Instruction::EOR, AddressingMode::Absolute)),
        0x5D => Some((Instruction::EOR, AddressingMode::AbsoluteX)),
        0x59 => Some((Instruction::EOR, AddressingMode::AbsoluteY)),
        0x41 => Some((Instruction::EOR, AddressingMode::IndexedIndirect)),
        0x51 => Some((Instruction::EOR, AddressingMode::IndirectIndexed)),
        0x4C => Some((Instruction::JMP, AddressingMode::Absolute)),
        0x6C => Some((Instruction::JMP, AddressingMode::Indirect)),
        0x20 => Some((Instruction::JSR, AddressingMode::Absolute)),
        0xA9 => Some((Instruction::LDA, AddressingMode::Immediate)),
        0xA5 => Some((Instruction::LDA, AddressingMode::ZeroPage)),
        0xB5 => Some((Instruction::LDA, AddressingMode::ZeroPageX)),
        0xAD => Some((Instruction::LDA, AddressingMode::Absolute)),
        0xBD => Some((Instruction::LDA, AddressingMode::AbsoluteX)),
        0xB9 => Some((Instruction::LDA, AddressingMode::AbsoluteY)),
        0xA1 => Some((Instruction::LDA, AddressingMode::IndexedIndirect)),
        0xB1 => Some((Instruction::LDA, AddressingMode::IndirectIndexed)),
        0xA2 => Some((Instruction::LDX, AddressingMode::Immediate)),
        0xA6 => Some((Instruction::LDX, AddressingMode::ZeroPage)),
        0xB6 => Some((Instruction::LDX, AddressingMode::ZeroPageY)),
        0xAE => Some((Instruction::LDX, AddressingMode::Absolute)),
        0xBE => Some((Instruction::LDX, AddressingMode::AbsoluteY)),
        0xA0 => Some((Instruction::LDY, AddressingMode::Immediate)),
        0xA4 => Some((Instruction::LDY, AddressingMode::ZeroPage)),
        0xB4 => Some((Instruction::LDY, AddressingMode::ZeroPageX)),
        0xAC => Some((Instruction::LDY, AddressingMode::Absolute)),
        0xBC => Some((Instruction::LDY, AddressingMode::AbsoluteX)),
        0x4A => Some((Instruction::LSR, AddressingMode::Accumulator)),
        0x46 => Some((Instruction::LSR, AddressingMode::ZeroPage)),
        0x56 => Some((Instruction::LSR, AddressingMode::ZeroPageX)),
        0x4E => Some((Instruction::LSR, AddressingMode::Absolute)),
        0x5E => Some((Instruction::LSR, AddressingMode::AbsoluteX)),
        0xEA => Some((Instruction::NOP, AddressingMode::Implied)),
        0x09 => Some((Instruction::ORA, AddressingMode::Immediate)),
        0x05 => Some((Instruction::ORA, AddressingMode::ZeroPage)),
        0x15 => Some((Instruction::ORA, AddressingMode::ZeroPageX)),
        0x0D => Some((Instruction::ORA, AddressingMode::Absolute)),
        0x1D => Some((Instruction::ORA, AddressingMode::AbsoluteX)),
        0x19 => Some((Instruction::ORA, AddressingMode::AbsoluteY)),
        0x01 => Some((Instruction::ORA, AddressingMode::IndexedIndirect)),
        0x11 => Some((Instruction::ORA, AddressingMode::IndirectIndexed)),
        0x48 => Some((Instruction::PHA, AddressingMode::Implied)),
        0x08 => Some((Instruction::PHP, AddressingMode::Implied)),
        0x68 => Some((Instruction::PLA, AddressingMode::Implied)),
        0x28 => Some((Instruction::PLP, AddressingMode::Implied)),
        0x2A => Some((Instruction::ROL, AddressingMode::Accumulator)),
        0x26 => Some((Instruction::ROL, AddressingMode::ZeroPage)),
        0x36 => Some((Instruction::ROL, AddressingMode::ZeroPageX)),
        0x2E => Some((Instruction::ROL, AddressingMode::Absolute)),
        0x3E => Some((Instruction::ROL, AddressingMode::AbsoluteX)),
        0x6A => Some((Instruction::ROR, AddressingMode::Accumulator)),
        0x66 => Some((Instruction::ROR, AddressingMode::ZeroPage)),
        0x76 => Some((Instruction::ROR, AddressingMode::ZeroPageX)),
        0x6E => Some((Instruction::ROR, AddressingMode::Absolute)),
        0x7E => Some((Instruction::ROR, AddressingMode::AbsoluteX)),
        0x40 => Some((Instruction::RTI, AddressingMode::Implied)),
        0x60 => Some((Instruction::RTS, AddressingMode::Implied)),
        0xE9 => Some((Instruction::SBC, AddressingMode::Immediate)),
        0xE5 => Some((Instruction::SBC, AddressingMode::ZeroPage)),
        0xF5 => Some((Instruction::SBC, AddressingMode::ZeroPageX)),
        0xED => Some((Instruction::SBC, AddressingMode::Absolute)),
        0xFD => Some((Instruction::SBC, AddressingMode::AbsoluteX)),
        0xF9 => Some((Instruction::SBC, AddressingMode::AbsoluteY)),
        0xE1 => Some((Instruction::SBC, AddressingMode::IndexedIndirect)),
        0xF1 => Some((Instruction::SBC, AddressingMode::IndirectIndexed)),
        0x38 => Some((Instruction::SEC, AddressingMode::Implied)),
        0xF8 => Some((Instruction::SED, AddressingMode::Implied)),
        0x78 => Some((Instruction::SEI, AddressingMode::Implied)),
        0x85 => Some((Instruction::STA, AddressingMode::ZeroPage)),
        0x95 => Some((Instruction::STA, AddressingMode::ZeroPageX)),
        0x8D => Some((Instruction::STA, AddressingMode::Absolute)),
        0x9D => Some((Instruction::STA, AddressingMode::AbsoluteX)),
        0x99 => Some((Instruction::STA, AddressingMode::AbsoluteY)),
        0x81 => Some((Instruction::STA, AddressingMode::IndexedIndirect)),
        0x91 => Some((Instruction::STA, AddressingMode::IndirectIndexed)),
        0x86 => Some((Instruction::STX, AddressingMode::ZeroPage)),
        0x96 => Some((Instruction::STX, AddressingMode::ZeroPageY)),
        0x8E => Some((Instruction::STX, AddressingMode::Absolute)),
        0x84 => Some((Instruction::STY, AddressingMode::ZeroPage)),
        0x94 => Some((Instruction::STY, AddressingMode::ZeroPageX)),
        0x8C => Some((Instruction::STY, AddressingMode::Absolute)),
        0xAA => Some((Instruction::TAX, AddressingMode::Implied)),
        0xA8 => Some((Instruction::TAY, AddressingMode::Implied)),
        0xBA => Some((Instruction::TSX, AddressingMode::Implied)),
        0x8A => Some((Instruction::TXA, AddressingMode::Implied)),
        0x9A => Some((Instruction::TXS, AddressingMode::Implied)),
        0x98 => Some((Instruction::TYA, AddressingMode::Implied)),
        _ => None,
    }
}

/// `v + 1` modulo 256.
pub open spec fn inc8(v: u8) -> u8 {
    if v == 255 { 0 } else { (v + 1) as u8 }
}

/// `v - 1` modulo 256.
pub open spec fn dec8(v: u8) -> u8 {
    if v == 0 { 255 } else { (v - 1) as u8 }
}

/// `a - b` modulo 256.
pub open spec fn sub8(a: u8, b: u8) -> u8 {
    if a >= b { (a - b) as u8 } else { (a - b + 256) as u8 }
}

impl CPU {
    /// Cycles of an instruction that reads memory, one more when indexing crosses a page.
    pub open spec fn access_cycles_spec(self, b: BusView, mode: AddressingMode) -> Option<(BusView, usize)> {
        match mode {
            AddressingMode::Immediate => Some((b, 2)),
            AddressingMode::ZeroPage => Some((b, 3)),
            AddressingMode::ZeroPageX | AddressingMode::ZeroPageY => Some((b, 4)),
            AddressingMode::Absolute => Some((b, 4)),
            AddressingMode::AbsoluteX | AddressingMode::AbsoluteY => match self.page_crossed_spec(b, mode) {
                None => None,
                Some((b1, crossed)) => Some((b1, if crossed { 5usize } else { 4 })),
            },
            AddressingMode::IndexedIndirect => Some((b, 6)),
            AddressingMode::IndirectIndexed => match self.page_crossed_spec(b, mode) {
                None => None,
                Some((b1, crossed)) => Some((b1, if crossed { 6usize } else { 5 })),
            },
            _ => None,
        }
    }

    /// Cycles of a read-modify-write instruction.
    pub open spec fn arithmetic_cycles_spec(mode: AddressingMode) -> Option<usize> {
        match mode {
            AddressingMode::Accumulator => Some(2),
            AddressingMode::ZeroPage => Some(5),
            AddressingMode::ZeroPageX => Some(6),
            AddressingMode::Absolute => Some(6),
            AddressingMode::AbsoluteX => Some(7),
            _ => None,
        }
    }

    /// Cycles of a store.
    pub open spec fn store_cycles_spec(mode: AddressingMode) -> Option<usize> {
        match mode {
            AddressingMode::ZeroPage => Some(3),
            AddressingMode::ZeroPageX | AddressingMode::ZeroPageY => Some(4),
            AddressingMode::Absolute => Some(4),
            AddressingMode::AbsoluteX | AddressingMode::AbsoluteY => Some(5),
            AddressingMode::IndexedIndirect | AddressingMode::IndirectIndexed => Some(6),
            _ => None,
        }
    }

    /// Binary addition of the accumulator, `m` and the carry: the low eight
    /// bits go to A, the ninth to C; V tells that the operands had the same
    /// sign and the result the other.
    pub open spec fn add_with_carry(self, m: u8) -> CPU {
        let c = if self.flag(CPUFlags::Carry) { 1int } else { 0 };
        let sum = self.a + m + c;
        let r = (sum % 256) as u8;
        let flagged = self.with_flag(CPUFlags::Carry, sum > 255).with_flag(CPUFlags::Zero, r == 0).with_flag(
            CPUFlags::Overflow,
            ((self.a ^ r) & (m ^ r)) & 0x80 != 0,
        ).with_flag(CPUFlags::Negative, r & 0x80 != 0);
        CPU { a: r, ..flagged }
    }

    /// Flags of comparing `reg` with `v`: C for `reg >= v`, Z for equality, N
    /// from bit 7 of the difference.
    pub open spec fn compared(self, reg: u8, v: u8) -> CPU {
        self.with_flag(CPUFlags::Carry, reg >= v).with_flag(CPUFlags::Zero, reg == v).with_flag(
            CPUFlags::Negative,
            sub8(reg, v) & 0x80 != 0,
        )
    }

    /// Register effect of an instruction that reads the operand `v`.
    pub open spec fn read_effect(self, ins: Instruction, v: u8) -> CPU {
        match ins {
            Instruction::LDA => CPU { a: v, ..self }.with_zn(v),
            Instruction::LDX => CPU { x: v, ..self }.with_zn(v),
            Instruction::LDY => CPU { y: v, ..self }.with_zn(v),
            Instruction::ADC => self.add_with_carry(v),
            Instruction::SBC => self.add_with_carry(!v),
            Instruction::AND => CPU { a: self.a & v, ..self }.with_zn(self.a & v),
            Instruction::ORA => CPU { a: self.a | v, ..self }.with_zn(self.a | v),
            Instruction::EOR => CPU { a: self.a ^ v, ..self }.with_zn(self.a ^ v),
            Instruction::CMP => self.compared(self.a, v),
            Instruction::CPX => self.compared(self.x, v),
            Instruction::CPY => self.compared(self.y, v),
            _ => self,
        }
    }

    /// Result and register effect of a shift or rotate of `v`.
    pub open spec fn shift_effect(self, ins: Instruction, v: u8) -> (CPU, u8) {
        let carry_in = if self.flag(CPUFlags::Carry) { 1u8 } else { 0u8 };
        match ins {
            Instruction::ASL => {
                let r = v << 1u8;
                (self.with_flag(CPUFlags::Carry, v & 0x80 != 0).with_zn(r), r)
            },
            Instruction::LSR => {
                let r = v >> 1u8;
                (self.with_flag(CPUFlags::Carry, v & 1 != 0).with_zn(r), r)
            },
            Instruction::ROL => {
                let r = (v << 1u8) | carry_in;
                (self.with_flag(CPUFlags::Carry, v & 0x80 != 0).with_zn(r), r)
            },
            _ => {
                let r = (v >> 1u8) | (carry_in << 7u8);
                (self.with_flag(CPUFlags::Carry, v & 1 != 0).with_zn(r), r)
            },
        }
    }

    /// Whether a branch instruction's condition holds.
    pub open spec fn branch_taken(self, ins: Instruction) -> bool {
        match ins {
            Instruction::BCC => !self.flag(CPUFlags::Carry),
            Instruction::BCS => self.flag(CPUFlags::Carry),
            Instruction::BEQ => self.flag(CPUFlags::Zero),
            Instruction::BNE => !self.flag(CPUFlags::Zero),
            Instruction::BPL => !self.flag(CPUFlags::Negative),
            Instruction::BMI => self.flag(CPUFlags::Negative),
            Instruction::BVC => !self.flag(CPUFlags::Overflow),
            _ => self.flag(CPUFlags::Overflow),
        }
    }

    /// Flag set or cleared by a flag instruction.
    pub open spec fn flag_effect(self, ins: Instruction) -> CPU {
        match ins {
            Instruction::CLC => self.with_flag(CPUFlags::Carry, false),
            Instruction::SEC => self.with_flag(CPUFlags::Carry, true),
            Instruction::CLI => self.with_flag(CPUFlags::InterruptDisable, false),
            Instruction::SEI => self.with_flag(CPUFlags::InterruptDisable, true),
            Instruction::CLD => self.with_flag(CPUFlags::Decimal, false),
            Instruction::SED => self.with_flag(CPUFlags::Decimal, true),
            _ => self.with_flag(CPUFlags::Overflow, false),
        }
    }

    /// Register effect of an implied-mode register instruction.
    pub open spec fn register_effect(self, ins: Instruction) -> CPU {
        match ins {
            Instruction::TAX => CPU { x: self.a, ..self }.with_zn(self.a),
            Instruction::TXA => CPU { a: self.x, ..self }.with_zn(self.x),
            Instruction::TAY => CPU { y: self.a, ..self }.with_zn(self.a),
            Instruction::TYA => CPU { a: self.y, ..self }.with_zn(self.y),
            Instruction::INX => CPU { x: inc8(self.x), ..self }.with_zn(inc8(self.x)),
            Instruction::DEX => CPU { x: dec8(self.x), ..self }.with_zn(dec8(self.x)),
            Instruction::INY => CPU { y: inc8(self.y), ..self }.with_zn(inc8(self.y)),
            Instruction::DEY => CPU { y: dec8(self.y), ..self }.with_zn(dec8(self.y)),
            Instruction::TXS => CPU { sp: self.x, ..self },
            Instruction::TSX => CPU { x: self.sp, ..self }.with_zn(self.sp),
            _ => self,
        }
    }

    /// The status byte pulled by PLP and RTI: bit 4 cleared, bit 5 set.
    pub open spec fn pulled_status(v: u8) -> u8 {
        (v & 0xEF) | 0x20
    }

    /// Loads, arithmetic, logic and compares: read the operand, update registers.
    pub open spec fn read_instr_spec(self, b: BusView, ins: Instruction, mode: AddressingMode) -> Option<(CPU, BusView, usize)> {
        match self.operand_spec(b, mode) {
            None => None,
            Some((b1, v)) => {
                let c1 = self.read_effect(ins, v);
                match c1.access_cycles_spec(b1, mode) {
                    None => None,
                    Some((b2, cyc)) => Some((c1.advanced(mode), b2, cyc)),
                }
            },
        }
    }

    /// STA, STX, STY: write `v` to the operand's address.
    pub open spec fn store_instr_spec(self, b: BusView, mode: AddressingMode, v: u8) -> Option<(CPU, BusView, usize)> {
        match self.store_spec(b, mode, v) {
            None => None,
            Some((c1, b1)) => match CPU::store_cycles_spec(mode) {
                None => None,
                Some(cyc) => Some((c1.advanced(mode), b1, cyc)),
            },
        }
    }

    /// ASL, LSR, ROL, ROR: read, shift, write back.
    pub open spec fn shift_instr_spec(self, b: BusView, ins: Instruction, mode: AddressingMode) -> Option<(CPU, BusView, usize)> {
        match self.operand_spec(b, mode) {
            None => None,
            Some((b1, v)) => {
                let (c1, r) = self.shift_effect(ins, v);
                match c1.store_spec(b1, mode, r) {
                    None => None,
                    Some((c2, b2)) => match CPU::arithmetic_cycles_spec(mode) {
                        None => None,
                        Some(cyc) => Some((c2.advanced(mode), b2, cyc)),
                    },
                }
            },
        }
    }

    /// INC and DEC: memory moved by one, with Z and N from the result.
    pub open spec fn step_memory_spec(self, b: BusView, up: bool, mode: AddressingMode) -> Option<(CPU, BusView, usize)> {
        match self.operand_spec(b, mode) {
            None => None,
            Some((b1, v)) => {
                let r = if up { inc8(v) } else { dec8(v) };
                match self.store_spec(b1, mode, r) {
                    None => None,
                    Some((c2, b2)) => match CPU::arithmetic_cycles_spec(mode) {
                        None => None,
                        Some(cyc) => Some((c2.with_zn(r).advanced(mode), b2, cyc)),
                    },
                }
            },
        }
    }

    /// BIT: Z from A AND the operand, V and N from its bits 6 and 7.
    pub open spec fn bit_instr_spec(self, b: BusView, mode: AddressingMode) -> Option<(CPU, BusView, usize)> {
        match self.operand_spec(b, mode) {
            None => None,
            Some((b1, v)) => {
                let c1 = self.with_flag(CPUFlags::Zero, self.a & v == 0).with_flag(
                    CPUFlags::Overflow,
                    v & 0x40 != 0,
                ).with_flag(CPUFlags::Negative, v & 0x80 != 0);
                if mode == AddressingMode::ZeroPage {
                    Some((c1.advanced(mode), b1, 3))
                } else if mode == AddressingMode::Absolute {
                    Some((c1.advanced(mode), b1, 4))
                } else {
                    None
                }
            },
        }
    }

    /// A conditional branch: to the target (3 cycles, 4 across a page) when
    /// taken, else past the instruction in 2.
    pub open spec fn branch_spec(self, b: BusView, mode: AddressingMode, taken: bool) -> Option<(CPU, BusView, usize)> {
        if taken {
            match self.address_spec(b, mode) {
                None => None,
                Some((b1, target)) => match self.page_crossed_spec(b1, mode) {
                    None => None,
                    Some((b2, crossed)) => Some((CPU { pc: target, ..self }, b2, if crossed { 4usize } else { 3 })),
                },
            }
        } else {
            Some((self.advanced(mode), b, 2))
        }
    }

    /// JMP: the PC set to the operand's address.
    pub open spec fn jump_spec(self, b: BusView, mode: AddressingMode) -> Option<(CPU, BusView, usize)> {
        match self.address_spec(b, mode) {
            None => None,
            Some((b1, target)) => if mode == AddressingMode::Absolute {
                Some((CPU { pc: target, ..self }, b1, 3))
            } else if mode == AddressingMode::Indirect {
                Some((CPU { pc: target, ..self }, b1, 5))
            } else {
                None
            },
        }
    }

    /// JSR: the address of its last byte pushed, then a jump.
    pub open spec fn jsr_spec(self, b: BusView, mode: AddressingMode) -> Option<(CPU, BusView, usize)> {
        if self.pc > 0xFFFD {
            None
        } else {
            match self.push16_spec(b, (self.pc + 2) as u16) {
                None => None,
                Some((c1, b1)) => match c1.address_spec(b1, mode) {
                    None => None,
                    Some((b2, target)) => Some((CPU { pc: target, ..c1 }, b2, 6)),
                },
            }
        }
    }

    /// RTS: the pulled address plus one.
    pub open spec fn rts_spec(self, b: BusView) -> Option<(CPU, BusView, usize)> {
        match self.pop16_spec(b) {
            None => None,
            Some((c1, b1, ret)) => if ret == 0xFFFF {
                None
            } else {
                Some((CPU { pc: (ret + 1) as u16, ..c1 }, b1, 6))
            },
        }
    }

    /// BRK: an interrupt through the vector at 0xFFFE, returning past the
    /// padding byte.
    pub open spec fn brk_spec(self, b: BusView) -> Option<(CPU, BusView, usize)> {
        if self.pc > 0xFFFD {
            None
        } else {
            match self.interrupt_spec(b, (self.pc + 2) as u16, 0xFFFE) {
                None => None,
                Some((c1, b1)) => Some((c1, b1, 7)),
            }
        }
    }

    /// RTI: the status, then the return address, pulled.
    pub open spec fn rti_spec(self, b: BusView) -> Option<(CPU, BusView, usize)> {
        match self.pop8_spec(b) {
            None => None,
            Some((c1, b1, v)) => {
                let c2 = CPU { p: CPU::pulled_status(v), ..c1 };
                match c2.pop16_spec(b1) {
                    None => None,
                    Some((c3, b2, ret)) => Some((CPU { pc: ret, ..c3 }, b2, 6)),
                }
            },
        }
    }

    /// PHA, PHP, PLA, PLP.
    pub open spec fn stack_instr_spec(self, b: BusView, ins: Instruction, mode: AddressingMode) -> Option<(CPU, BusView, usize)> {
        match ins {
            Instruction::PHA => match self.push8_spec(b, self.a) {
                None => None,
                Some((c1, b1)) => Some((c1.advanced(mode), b1, 3)),
            },
            Instruction::PHP => match self.push8_spec(b, self.p | 0x10) {
                None => None,
                Some((c1, b1)) => Some((c1.advanced(mode), b1, 3)),
            },
            Instruction::PLA => match self.pop8_spec(b) {
                None => None,
                Some((c1, b1, v)) => Some((CPU { a: v, ..c1 }.with_zn(v).advanced(mode), b1, 4)),
            },
            _ => match self.pop8_spec(b) {
                None => None,
                Some((c1, b1, v)) => Some((CPU { p: CPU::pulled_status(v), ..c1 }.advanced(mode), b1, 4)),
            },
        }
    }

    /// One instruction: the new registers, the bus after its accesses and the
    /// cycles it takes; `None` where executing it panics (an impossible
    /// addressing mode, an undefined bus access, or an address overflow in
    /// JSR, RTS or BRK).
    #[verifier::opaque]
    pub open spec fn instr_spec(self, b: BusView, ins: Instruction, mode: AddressingMode) -> Option<(CPU, BusView, usize)> {
        match ins {
            Instruction::LDA | Instruction::LDX | Instruction::LDY | Instruction::ADC | Instruction::SBC
            | Instruction::AND | Instruction::ORA | Instruction::EOR | Instruction::CMP | Instruction::CPX
            | Instruction::CPY => self.read_instr_spec(b, ins, mode),
            Instruction::STA => self.store_instr_spec(b, mode, self.a),
            Instruction::STX => self.store_instr_spec(b, mode, self.x),
            Instruction::STY => self.store_instr_spec(b, mode, self.y),
            Instruction::ASL | Instruction::LSR | Instruction::ROL | Instruction::ROR => self.shift_instr_spec(b, ins, mode),
            Instruction::INC => self.step_memory_spec(b, true, mode),
            Instruction::DEC => self.step_memory_spec(b, false, mode),
            Instruction::TAX | Instruction::TXA | Instruction::TAY | Instruction::TYA | Instruction::INX
            | Instruction::DEX | Instruction::INY | Instruction::DEY | Instruction::TXS | Instruction::TSX => Some(
                (self.register_effect(ins).advanced(mode), b, 2),
            ),
            Instruction::CLC | Instruction::SEC | Instruction::CLI | Instruction::SEI | Instruction::CLD
            | Instruction::SED | Instruction::CLV => Some((self.flag_effect(ins).advanced(mode), b, 2)),
            Instruction::NOP => Some((self.advanced(mode), b, 2)),
            Instruction::BIT => self.bit_instr_spec(b, mode),
            Instruction::BCC | Instruction::BCS | Instruction::BEQ | Instruction::BNE | Instruction::BPL
            | Instruction::BMI | Instruction::BVC | Instruction::BVS => self.branch_spec(b, mode, self.branch_taken(ins)),
            Instruction::JMP => self.jump_spec(b, mode),
            Instruction::JSR => self.jsr_spec(b, mode),
            Instruction::RTS => self.rts_spec(b),
            Instruction::BRK => self.brk_spec(b),
            Instruction::RTI => self.rti_spec(b),
            Instruction::PHA | Instruction::PHP | Instruction::PLA | Instruction::PLP => self.stack_instr_spec(b, ins, mode),
        }
    }

    /// Executing the instruction at an opcode: `None` where that panics; the
    /// cycle count is `None` for an opcode that is not an official instruction.
    pub open spec fn execute_spec(self, b: BusView, opcode: u8) -> Option<(CPU, BusView, Option<usize>)> {
        match decode(opcode) {
            None => Some((self, b, None)),
            Some((ins, mode)) => match self.instr_spec(b, ins, mode) {
                None => None,
                Some((c, b2, cyc)) => Some((c, b2, Some(cyc))),
            },
        }
    }

    /// One CPU cycle: either a cycle of the current instruction's delay, or the
    /// fetch and execution of the next instruction, whose remaining cycles
    /// become the delay. The flag is false when the opcode is not an official one.
    pub open spec fn step_spec(self, b: BusView) -> Option<(CPU, BusView, bool)> {
        if self.delay > 0 {
            Some((CPU { delay: (self.delay - 1) as usize, cycles: (self.cycles + 1) as usize, ..self }, b, true))
        } else {
            match b.read_spec(self.pc) {
                None => None,
                Some((b1, opcode)) => match self.execute_spec(b1, opcode) {
                    None => None,
                    Some((c, b2, None)) => Some((c, b2, false)),
                    Some((c, b2, Some(cyc))) => Some((CPU { cycles: (c.cycles + 1) as usize, delay: (cyc - 1) as usize, ..c }, b2, true)),
                },
            }
        }
    }
}

impl CPU {
    fn set_zn_flags(&mut self, value: u8)
        ensures
            *final(self) == old(self).with_zn(value),
    {
        self.set_flag(CPUFlags::Zero, value == 0);
        self.set_flag(CPUFlags::Negative, value & 0x80 != 0);
    }

    fn advance(&mut self, mode: AddressingMode)
        ensures
            *final(self) == old(self).advanced(mode),
    {
        self.pc = self.pc.wrapping_add(
            match mode {
                AddressingMode::Implied => 1,
                AddressingMode::Accumulator => 1,
                AddressingMode::Immediate => 2,
                AddressingMode::ZeroPage => 2,
                AddressingMode::ZeroPageX => 2,
                AddressingMode::ZeroPageY => 2,
                AddressingMode::Relative => 2,
                AddressingMode::Absolute => 3,
                AddressingMode::AbsoluteX => 3,
                AddressingMode::AbsoluteY => 3,
                AddressingMode::Indirect => 3,
                AddressingMode::IndexedIndirect => 2,
                AddressingMode::IndirectIndexed => 2,
            },
        );
    }

    fn access_cycles(&self, bus: &mut MemoryBus, mode: AddressingMode) -> (r: usize)
        requires
            self.access_cycles_spec(old(bus)@, mode) is Some,
        ensures
            final(bus).cartridge.name == old(bus).cartridge.name,
            (final(bus)@, r) == self.access_cycles_spec(old(bus)@, mode)->0,
            old(bus)@.wf() ==> final(bus)@.wf(),
            2 <= r <= 7,
    {
        match mode {
            AddressingMode::Immediate => 2,
            AddressingMode::ZeroPage => 3,
            AddressingMode::ZeroPageX => 4,
            AddressingMode::ZeroPageY => 4,
            AddressingMode::Absolute => 4,
            AddressingMode::AbsoluteX => 4 + (if self.page_crossed(bus, mode) { 1 } else { 0 }),
            AddressingMode::AbsoluteY => 4 + (if self.page_crossed(bus, mode) { 1 } else { 0 }),
            AddressingMode::IndexedIndirect => 6,
            AddressingMode::IndirectIndexed => 5 + (if self.page_crossed(bus, mode) { 1 } else { 0 }),
            _ => {
                proof {
                    assert(false);
                }
                2
            },
        }
    }

    fn arithmetic_cycles(&self, mode: AddressingMode) -> (r: usize)
        requires
            CPU::arithmetic_cycles_spec(mode) is Some,
        ensures
            r == CPU::arithmetic_cycles_spec(mode)->0,
    {
        match mode {
            AddressingMode::Accumulator => 2,
            AddressingMode::ZeroPage => 5,
            AddressingMode::ZeroPageX => 6,
            AddressingMode::Absolute => 6,
            AddressingMode::AbsoluteX => 7,
            _ => {
                proof {
                    assert(false);
                }
                2
            },
        }
    }

    fn store_cycles(&self, mode: AddressingMode) -> (r: usize)
        requires
            CPU::store_cycles_spec(mode) is Some,
        ensures
            r == CPU::store_cycles_spec(mode)->0,
    {
        match mode {
            AddressingMode::ZeroPage => 3,
            AddressingMode::ZeroPageX => 4,
            AddressingMode::ZeroPageY => 4,
            AddressingMode::Absolute => 4,
            AddressingMode::AbsoluteX => 5,
            AddressingMode::AbsoluteY => 5,
            AddressingMode::IndexedIndirect => 6,
            AddressingMode::IndirectIndexed => 6,
            _ => {
                proof {
                    assert(false);
                }
                2
            },
        }
    }

    /// A + value + C into A, with C, Z, V and N set from the addition.
    fn add_to_accumulator(&mut self, value: u8)
        ensures
            *final(self) == old(self).add_with_carry(value),
    {
        let carry_in: u16 = if self.flag_set(CPUFlags::Carry) { 1 } else { 0 };
        let sum: u16 = self.a as u16 + value as u16 + carry_in;
        let result = (sum % 256) as u8;
        let carry = sum > 0xFF;
        let a = self.a;
        self.set_flag(CPUFlags::Carry, carry);
        self.set_flag(CPUFlags::Zero, result == 0);
        self.set_flag(CPUFlags::Overflow, ((a ^ result) & (value ^ result)) & 0x80 != 0);
        self.set_flag(CPUFlags::Negative, result & 0x80 != 0);
        self.a = result;
    }

    /// Loads the PC from the IRQ/BRK vector at 0xFFFE.
    fn jump_to_interrupt_handler(&mut self, bus: &mut MemoryBus)
        requires
            crate::cpu::read16_spec(old(bus)@, 0xFFFE) is Some,
        ensures
            final(bus).cartridge.name == old(bus).cartridge.name,
            (final(bus)@, final(self).pc) == crate::cpu::read16_spec(old(bus)@, 0xFFFE)->0,
            *final(self) == (CPU { pc: final(self).pc, ..*old(self) }),
            old(bus)@.wf() ==> final(bus)@.wf(),
    {
        self.pc = self.read16(bus, 0xFFFE);
    }

    fn branch(&mut self, bus: &mut MemoryBus, mode: AddressingMode, b: bool) -> (r: usize)
        requires
            old(bus)@.wf(),
            old(self).branch_spec(old(bus)@, mode, b) is Some,
        ensures
            final(bus).cartridge.name == old(bus).cartridge.name,
            (*final(self), final(bus)@, r) == old(self).branch_spec(old(bus)@, mode, b)->0,
            final(bus)@.wf(),
            final(self).cycles == old(self).cycles && final(self).delay == old(self).delay,
            2 <= r <= 7,
    {
        if b {
            let branch_position = self.get_address(bus, mode);
            let crossed_page = self.page_crossed(bus, mode);
            self.pc = branch_position;
            3 + if crossed_page { 1 } else { 0 }
        } else {
            self.advance(mode);
            2
        }
    }

    fn lda(&mut self, bus: &mut MemoryBus, mode: AddressingMode) -> (r: usize)
        requires
            old(bus)@.wf(),
            old(self).instr_spec(old(bus)@, Instruction::LDA, mode) is Some,
        ensures
            final(bus).cartridge.name == old(bus).cartridge.name,
            (*final(self), final(bus)@, r) == old(self).instr_spec(old(bus)@, Instruction::LDA, mode)->0,
            final(bus)@.wf(),
            final(self).cycles == old(self).cycles && final(self).delay == old(self).delay,
            2 <= r <= 7,
    {
        proof {
            reveal(CPU::instr_spec);
        }
        let byte = self.get8(bus, mode);
        self.a = byte;
        self.set_zn_flags(byte);
        let cycles = self.access_cycles(bus, mode);
        self.advance(mode);
        cycles
    }

    fn sta(&mut self, bus: &mut MemoryBus, mode: AddressingMode) -> (r: usize)
        requires
            old(bus)@.wf(),
            old(self).instr_spec(old(bus)@, Instruction::STA, mode) is Some,
        ensures
            final(bus).cartridge.name == old(bus).cartridge.name,
            (*final(self), final(bus)@, r) == old(self).instr_spec(old(bus)@, Instruction::STA, mode)->0,
            final(bus)@.wf(),
            final(self).cycles == old(self).cycles && final(self).delay == old(self).delay,
            2 <= r <= 7,
    {
        proof {
            reveal(CPU::instr_spec);
        }
        let v = self.a;
        self.set8(bus, mode, v);
        let cycles = self.store_cycles(mode);
        self.advance(mode);
        cycles
    }

    fn ldx(&mut self, bus: &mut MemoryBus, mode: AddressingMode) -> (r: usize)
        requires
            old(bus)@.wf(),
            old(self).instr_spec(old(bus)@, Instruction::LDX, mode) is Some,
        ensures
            final(bus).cartridge.name == old(bus).cartridge.name,
            (*final(self), final(bus)@, r) == old(self).instr_spec(old(bus)@, Instruction::LDX, mode)->0,
            final(bus)@.wf(),
            final(self).cycles == old(self).cycles && final(self).delay == old(self).delay,
            2 <= r <= 7,
    {
        proof {
            reveal(CPU::instr_spec);
        }
        let byte = self.get8(bus, mode);
        self.x = byte;
        self.set_zn_flags(byte);
        let cycles = self.access_cycles(bus, mode);
        self.advance(mode);
        cycles
    }

    fn stx(&mut self, bus: &mut MemoryBus, mode: AddressingMode) -> (r: usize)
        requires
            old(bus)@.wf(),
            old(self).instr_spec(old(bus)@, Instruction::STX, mode) is Some,
        ensures
            final(bus).cartridge.name == old(bus).cartridge.name,
            (*final(self), final(bus)@, r) == old(self).instr_spec(old(bus)@, Instruction::STX, mode)->0,
            final(bus)@.wf(),
            final(self).cycles == old(self).cycles && final(self).delay == old(self).delay,
            2 <= r <= 7,
    {
        proof {
            reveal(CPU::instr_spec);
        }
        let v = self.x;
        self.set8(bus, mode, v);
        let cycles = self.store_cycles(mode);
        self.advance(mode);
        cycles
    }

    fn ldy(&mut self, bus: &mut MemoryBus, mode: AddressingMode) -> (r: usize)
        requires
            old(bus)@.wf(),
            old(self).instr_spec(old(bus)@, Instruction::LDY, mode) is Some,
        ensures
            final(bus).cartridge.name == old(bus).cartridge.name,
            (*final(self), final(bus)@, r) == old(self).instr_spec(old(bus)@, Instruction::LDY, mode)->0,
            final(bus)@.wf(),
            final(self).cycles == old(self).cycles && final(self).delay == old(self).delay,
            2 <= r <= 7,
    {
        proof {
            reveal(CPU::instr_spec);
        }
        let byte = self.get8(bus, mode);
        self.y = byte;
        self.set_zn_flags(byte);
        let cycles = self.access_cycles(bus, mode);
        self.advance(mode);
        cycles
    }

    fn sty(&mut self, bus: &mut MemoryBus, mode: AddressingMode) -> (r: usize)
        requires
            old(bus)@.wf(),
            old(self).instr_spec(old(bus)@, Instruction::STY, mode) is Some,
        ensures
            final(bus).cartridge.name == old(bus).cartridge.name,
            (*final(self), final(bus)@, r) == old(self).instr_spec(old(bus)@, Instruction::STY, mode)->0,
            final(bus)@.wf(),
            final(self).cycles == old(self).cycles && final(self).delay == old(self).delay,
            2 <= r <= 7,
    {
        proof {
            reveal(CPU::instr_spec);
        }
        let v = self.y;
        self.set8(bus, mode, v);
        let cycles = self.store_cycles(mode);
        self.advance(mode);
        cycles
    }

    fn tax(&mut self, bus: &mut MemoryBus, mode: AddressingMode) -> (r: usize)
        requires
            old(bus)@.wf(),
            old(self).instr_spec(old(bus)@, Instruction::TAX, mode) is Some,
        ensures
            final(bus).cartridge.name == old(bus).cartridge.name,
            (*final(self), final(bus)@, r) == old(self).instr_spec(old(bus)@, Instruction::TAX, mode)->0,
            final(bus)@.wf(),
            final(self).cycles == old(self).cycles && final(self).delay == old(self).delay,
            2 <= r <= 7,
    {
        proof {
            reveal(CPU::instr_spec);
        }
        let v = self.a;
        self.x = v;
        self.set_zn_flags(v);
        self.advance(mode);
        2
    }

    fn txa(&mut self, bus: &mut MemoryBus, mode: AddressingMode) -> (r: usize)
        requires
            old(bus)@.wf(),
            old(self).instr_spec(old(bus)@, Instruction::TXA, mode) is Some,
        ensures
            final(bus).cartridge.name == old(bus).cartridge.name,
            (*final(self), final(bus)@, r) == old(self).instr_spec(old(bus)@, Instruction::TXA, mode)->0,
            final(bus)@.wf(),
            final(self).cycles == old(self).cycles && final(self).delay == old(self).delay,
            2 <= r <= 7,
    {
        proof {
            reveal(CPU::instr_spec);
        }
        let v = self.x;
        self.a = v;
        self.set_zn_flags(v);
        self.advance(mode);
        2
    }

    fn tay(&mut self, bus: &mut MemoryBus, mode: AddressingMode) -> (r: usize)
        requires
            old(bus)@.wf(),
            old(self).instr_spec(old(bus)@, Instruction::TAY, mode) is Some,
        ensures
            final(bus).cartridge.name == old(bus).cartridge.name,
            (*final(self), final(bus)@, r) == old(self).instr_spec(old(bus)@, Instruction::TAY, mode)->0,
            final(bus)@.wf(),
            final(self).cycles == old(self).cycles && final(self).delay == old(self).delay,
            2 <= r <= 7,
    {
        proof {
            reveal(CPU::instr_spec);
        }
        let v = self.a;
        self.y = v;
        self.set_zn_flags(v);
        self.advance(mode);
        2
    }

    fn tya(&mut self, bus: &mut MemoryBus, mode: AddressingMode) -> (r: usize)
        requires
            old(bus)@.wf(),
            old(self).instr_spec(old(bus)@, Instruction::TYA, mode) is Some,
        ensures
            final(bus).cartridge.name == old(bus).cartridge.name,
            (*final(self), final(bus)@, r) == old(self).instr_spec(old(bus)@, Instruction::TYA, mode)->0,
            final(bus)@.wf(),
            final(self).cycles == old(self).cycles && final(self).delay == old(self).delay,
            2 <= r <= 7,
    {
        proof {
            reveal(CPU::instr_spec);
        }
        let v = self.y;
        self.a = v;
        self.set_zn_flags(v);
        self.advance(mode);
        2
    }

    fn adc(&mut self, bus: &mut MemoryBus, mode: AddressingMode) -> (r: usize)
        requires
            old(bus)@.wf(),
            old(self).instr_spec(old(bus)@, Instruction::ADC, mode) is Some,
        ensures
            final(bus).cartridge.name == old(bus).cartridge.name,
            (*final(self), final(bus)@, r) == old(self).instr_spec(old(bus)@, Instruction::ADC, mode)->0,
            final(bus)@.wf(),
            final(self).cycles == old(self).cycles && final(self).delay == old(self).delay,
            2 <= r <= 7,
    {
        proof {
            reveal(CPU::instr_spec);
        }
        let value = self.get8(bus, mode);
        self.add_to_accumulator(value);
        let cycles = self.access_cycles(bus, mode);
        self.advance(mode);
        cycles
    }

    fn sbc(&mut self, bus: &mut MemoryBus, mode: AddressingMode) -> (r: usize)
        requires
            old(bus)@.wf(),
            old(self).instr_spec(old(bus)@, Instruction::SBC, mode) is Some,
        ensures
            final(bus).cartridge.name == old(bus).cartridge.name,
            (*final(self), final(bus)@, r) == old(self).instr_spec(old(bus)@, Instruction::SBC, mode)->0,
            final(bus)@.wf(),
            final(self).cycles == old(self).cycles && final(self).delay == old(self).delay,
            2 <= r <= 7,
    {
        proof {
            reveal(CPU::instr_spec);
        }
        let value = !self.get8(bus, mode);
        self.add_to_accumulator(value);
        let cycles = self.access_cycles(bus, mode);
        self.advance(mode);
        cycles
    }

    fn inc(&mut self, bus: &mut MemoryBus, mode: AddressingMode) -> (r: usize)
        requires
            old(bus)@.wf(),
            old(self).instr_spec(old(bus)@, Instruction::INC, mode) is Some,
        ensures
            final(bus).cartridge.name == old(bus).cartridge.name,
            (*final(self), final(bus)@, r) == old(self).instr_spec(old(bus)@, Instruction::INC, mode)->0,
            final(bus)@.wf(),
            final(self).cycles == old(self).cycles && final(self).delay == old(self).delay,
            2 <= r <= 7,
    {
        proof {
            reveal(CPU::instr_spec);
        }
        let byte = self.get8(bus, mode).wrapping_add(1);
        self.set8(bus, mode, byte);
        self.set_zn_flags(byte);
        let cycles = self.arithmetic_cycles(mode);
        self.advance(mode);
        cycles
    }

    fn dec(&mut self, bus: &mut MemoryBus, mode: AddressingMode) -> (r: usize)
        requires
            old(bus)@.wf(),
            old(self).instr_spec(old(bus)@, Instruction::DEC, mode) is Some,
        ensures
            final(bus).cartridge.name == old(bus).cartridge.name,
            (*final(self), final(bus)@, r) == old(self).instr_spec(old(bus)@, Instruction::DEC, mode)->0,
            final(bus)@.wf(),
            final(self).cycles == old(self).cycles && final(self).delay == old(self).delay,
            2 <= r <= 7,
    {
        proof {
            reveal(CPU::instr_spec);
        }
        let byte = self.get8(bus, mode).wrapping_sub(1);
        self.set8(bus, mode, byte);
        self.set_zn_flags(byte);
        let cycles = self.arithmetic_cycles(mode);
        self.advance(mode);
        cycles
    }

    fn inx(&mut self, bus: &mut MemoryBus, mode: AddressingMode) -> (r: usize)
        requires
            old(bus)@.wf(),
            old(self).instr_spec(old(bus)@, Instruction::INX, mode) is Some,
        ensures
            final(bus).cartridge.name == old(bus).cartridge.name,
            (*final(self), final(bus)@, r) == old(self).instr_spec(old(bus)@, Instruction::INX, mode)->0,
            final(bus)@.wf(),
            final(self).cycles == old(self).cycles && final(self).delay == old(self).delay,
            2 <= r <= 7,
    {
        proof {
            reveal(CPU::instr_spec);
        }
        let v = self.x.wrapping_add(1);
        self.x = v;
        self.set_zn_flags(v);
        self.advance(mode);
        2
    }

    fn dex(&mut self, bus: &mut MemoryBus, mode: AddressingMode) -> (r: usize)
        requires
            old(bus)@.wf(),
            old(self).instr_spec(old(bus)@, Instruction::DEX, mode) is Some,
        ensures
            final(bus).cartridge.name == old(bus).cartridge.name,
            (*final(self), final(bus)@, r) == old(self).instr_spec(old(bus)@, Instruction::DEX, mode)->0,
            final(bus)@.wf(),
            final(self).cycles == old(self).cycles && final(self).delay == old(self).delay,
            2 <= r <= 7,
    {
        proof {
            reveal(CPU::instr_spec);
        }
        let v = self.x.wrapping_sub(1);
        self.x = v;
        self.set_zn_flags(v);
        self.advance(mode);
        2
    }

    fn iny(&mut self, bus: &mut MemoryBus, mode: AddressingMode) -> (r: usize)
        requires
            old(bus)@.wf(),
            old(self).instr_spec(old(bus)@, Instruction::INY, mode) is Some,
        ensures
            final(bus).cartridge.name == old(bus).cartridge.name,
            (*final(self), final(bus)@, r) == old(self).instr_spec(old(bus)@, Instruction::INY, mode)->0,
            final(bus)@.wf(),
            final(self).cycles == old(self).cycles && final(self).delay == old(self).delay,
            2 <= r <= 7,
    {
        proof {
            reveal(CPU::instr_spec);
        }
        let v = self.y.wrapping_add(1);
        self.y = v;
        self.set_zn_flags(v);
        self.advance(mode);
        2
    }

    fn dey(&mut self, bus: &mut MemoryBus, mode: AddressingMode) -> (r: usize)
        requires
            old(bus)@.wf(),
            old(self).instr_spec(old(bus)@, Instruction::DEY, mode) is Some,
        ensures
            final(bus).cartridge.name == old(bus).cartridge.name,
            (*final(self), final(bus)@, r) == old(self).instr_spec(old(bus)@, Instruction::DEY, mode)->0,
            final(bus)@.wf(),
            final(self).cycles == old(self).cycles && final(self).delay == old(self).delay,
            2 <= r <= 7,
    {
        proof {
            reveal(CPU::instr_spec);
        }
        let v = self.y.wrapping_sub(1);
        self.y = v;
        self.set_zn_flags(v);
        self.advance(mode);
        2
    }

    fn asl(&mut self, bus: &mut MemoryBus, mode: AddressingMode) -> (r: usize)
        requires
            old(bus)@.wf(),
            old(self).instr_spec(old(bus)@, Instruction::ASL, mode) is Some,
        ensures
            final(bus).cartridge.name == old(bus).cartridge.name,
            (*final(self), final(bus)@, r) == old(self).instr_spec(old(bus)@, Instruction::ASL, mode)->0,
            final(bus)@.wf(),
            final(self).cycles == old(self).cycles && final(self).delay == old(self).delay,
            2 <= r <= 7,
    {
        proof {
            reveal(CPU::instr_spec);
        }
        let value = self.get8(bus, mode);
        self.set_flag(CPUFlags::Carry, value & 0x80 != 0);
        let result = value << 1u8;
        self.set_zn_flags(result);
        self.set8(bus, mode, result);
        let cycles = self.arithmetic_cycles(mode);
        self.advance(mode);
        cycles
    }

    fn lsr(&mut self, bus: &mut MemoryBus, mode: AddressingMode) -> (r: usize)
        requires
            old(bus)@.wf(),
            old(self).instr_spec(old(bus)@, Instruction::LSR, mode) is Some,
        ensures
            final(bus).cartridge.name == old(bus).cartridge.name,
            (*final(self), final(bus)@, r) == old(self).instr_spec(old(bus)@, Instruction::LSR, mode)->0,
            final(bus)@.wf(),
            final(self).cycles == old(self).cycles && final(self).delay == old(self).delay,
            2 <= r <= 7,
    {
        proof {
            reveal(CPU::instr_spec);
        }
        let value = self.get8(bus, mode);
        self.set_flag(CPUFlags::Carry, value & 1 != 0);
        let result = value >> 1u8;
        self.set_zn_flags(result);
        self.set8(bus, mode, result);
        let cycles = self.arithmetic_cycles(mode);
        self.advance(mode);
        cycles
    }

    fn rol(&mut self, bus: &mut MemoryBus, mode: AddressingMode) -> (r: usize)
        requires
            old(bus)@.wf(),
            old(self).instr_spec(old(bus)@, Instruction::ROL, mode) is Some,
        ensures
            final(bus).cartridge.name == old(bus).cartridge.name,
            (*final(self), final(bus)@, r) == old(self).instr_spec(old(bus)@, Instruction::ROL, mode)->0,
            final(bus)@.wf(),
            final(self).cycles == old(self).cycles && final(self).delay == old(self).delay,
            2 <= r <= 7,
    {
        proof {
            reveal(CPU::instr_spec);
        }
        let value = self.get8(bus, mode);
        let carry_in: u8 = if self.flag_set(CPUFlags::Carry) { 1 } else { 0 };
        let carry_out = value & 0x80 != 0;
        let result = (value << 1u8) | carry_in;
        self.set_flag(CPUFlags::Carry, carry_out);
        self.set_zn_flags(result);
        self.set8(bus, mode, result);
        let cycles = self.arithmetic_cycles(mode);
        self.advance(mode);
        cycles
    }

    fn ror(&mut self, bus: &mut MemoryBus, mode: AddressingMode) -> (r: usize)
        requires
            old(bus)@.wf(),
            old(self).instr_spec(old(bus)@, Instruction::ROR, mode) is Some,
        ensures
            final(bus).cartridge.name == old(bus).cartridge.name,
            (*final(self), final(bus)@, r) == old(self).instr_spec(old(bus)@, Instruction::ROR, mode)->0,
            final(bus)@.wf(),
            final(self).cycles == old(self).cycles && final(self).delay == old(self).delay,
            2 <= r <= 7,
    {
        proof {
            reveal(CPU::instr_spec);
        }
        let value = self.get8(bus, mode);
        let carry_in: u8 = (if self.flag_set(CPUFlags::Carry) { 1u8 } else { 0u8 }) << 7u8;
        let carry_out = value & 1 != 0;
        let result = (value >> 1u8) | carry_in;
        self.set_flag(CPUFlags::Carry, carry_out);
        self.set_zn_flags(result);
        self.set8(bus, mode, result);
        let cycles = self.arithmetic_cycles(mode);
        self.advance(mode);
        cycles
    }

    fn and(&mut self, bus: &mut MemoryBus, mode: AddressingMode) -> (r: usize)
        requires
            old(bus)@.wf(),
            old(self).instr_spec(old(bus)@, Instruction::AND, mode) is Some,
        ensures
            final(bus).cartridge.name == old(bus).cartridge.name,
            (*final(self), final(bus)@, r) == old(self).instr_spec(old(bus)@, Instruction::AND, mode)->0,
            final(bus)@.wf(),
            final(self).cycles == old(self).cycles && final(self).delay == old(self).delay,
            2 <= r <= 7,
    {
        proof {
            reveal(CPU::instr_spec);
        }
        let value = self.get8(bus, mode);
        let r = self.a & value;
        self.a = r;
        self.set_zn_flags(r);
        let cycles = self.access_cycles(bus, mode);
        self.advance(mode);
        cycles
    }

    fn ora(&mut self, bus: &mut MemoryBus, mode: AddressingMode) -> (r: usize)
        requires
            old(bus)@.wf(),
            old(self).instr_spec(old(bus)@, Instruction::ORA, mode) is Some,
        ensures
            final(bus).cartridge.name == old(bus).cartridge.name,
            (*final(self), final(bus)@, r) == old(self).instr_spec(old(bus)@, Instruction::ORA, mode)->0,
            final(bus)@.wf(),
            final(self).cycles == old(self).cycles && final(self).delay == old(self).delay,
            2 <= r <= 7,
    {
        proof {
            reveal(CPU::instr_spec);
        }
        let value = self.get8(bus, mode);
        let r = self.a | value;
        self.a = r;
        self.set_zn_flags(r);
        let cycles = self.access_cycles(bus, mode);
        self.advance(mode);
        cycles
    }

    fn eor(&mut self, bus: &mut MemoryBus, mode: AddressingMode) -> (r: usize)
        requires
            old(bus)@.wf(),
            old(self).instr_spec(old(bus)@, Instruction::EOR, mode) is Some,
        ensures
            final(bus).cartridge.name == old(bus).cartridge.name,
            (*final(self), final(bus)@, r) == old(self).instr_spec(old(bus)@, Instruction::EOR, mode)->0,
            final(bus)@.wf(),
            final(self).cycles == old(self).cycles && final(self).delay == old(self).delay,
            2 <= r <= 7,
    {
        proof {
            reveal(CPU::instr_spec);
        }
        let value = self.get8(bus, mode);
        let r = self.a ^ value;
        self.a = r;
        self.set_zn_flags(r);
        let cycles = self.access_cycles(bus, mode);
        self.advance(mode);
        cycles
    }

    fn bit(&mut self, bus: &mut MemoryBus, mode: AddressingMode) -> (r: usize)
        requires
            old(bus)@.wf(),
            old(self).instr_spec(old(bus)@, Instruction::BIT, mode) is Some,
        ensures
            final(bus).cartridge.name == old(bus).cartridge.name,
            (*final(self), final(bus)@, r) == old(self).instr_spec(old(bus)@, Instruction::BIT, mode)->0,
            final(bus)@.wf(),
            final(self).cycles == old(self).cycles && final(self).delay == old(self).delay,
            2 <= r <= 7,
    {
        proof {
            reveal(CPU::instr_spec);
        }
        let value = self.get8(bus, mode);
        let result = self.a & value;
        self.set_flag(CPUFlags::Zero, result == 0);
        self.set_flag(CPUFlags::Overflow, value & 0x40 != 0);
        self.set_flag(CPUFlags::Negative, value & 0x80 != 0);
        self.advance(mode);
        match mode {
            AddressingMode::ZeroPage => 3,
            AddressingMode::Absolute => 4,
            _ => {
                proof {
                    assert(false);
                }
                0
            },
        }
    }

    fn cmp(&mut self, bus: &mut MemoryBus, mode: AddressingMode) -> (r: usize)
        requires
            old(bus)@.wf(),
            old(self).instr_spec(old(bus)@, Instruction::CMP, mode) is Some,
        ensures
            final(bus).cartridge.name == old(bus).cartridge.name,
            (*final(self), final(bus)@, r) == old(self).instr_spec(old(bus)@, Instruction::CMP, mode)->0,
            final(bus)@.wf(),
            final(self).cycles == old(self).cycles && final(self).delay == old(self).delay,
            2 <= r <= 7,
    {
        proof {
            reveal(CPU::instr_spec);
        }
        let value = self.get8(bus, mode);
        let reg = self.a;
        self.set_flag(CPUFlags::Carry, reg >= value);
        self.set_flag(CPUFlags::Zero, reg == value);
        self.set_flag(CPUFlags::Negative, reg.wrapping_sub(value) & 0x80 != 0);
        let cycles = self.access_cycles(bus, mode);
        self.advance(mode);
        cycles
    }

    fn cpx(&mut self, bus: &mut MemoryBus, mode: AddressingMode) -> (r: usize)
        requires
            old(bus)@.wf(),
            old(self).instr_spec(old(bus)@, Instruction::CPX, mode) is Some,
        ensures
            final(bus).cartridge.name == old(bus).cartridge.name,
            (*final(self), final(bus)@, r) == old(self).instr_spec(old(bus)@, Instruction::CPX, mode)->0,
            final(bus)@.wf(),
            final(self).cycles == old(self).cycles && final(self).delay == old(self).delay,
            2 <= r <= 7,
    {
        proof {
            reveal(CPU::instr_spec);
        }
        let value = self.get8(bus, mode);
        let reg = self.x;
        self.set_flag(CPUFlags::Carry, reg >= value);
        self.set_flag(CPUFlags::Zero, reg == value);
        self.set_flag(CPUFlags::Negative, reg.wrapping_sub(value) & 0x80 != 0);
        let cycles = self.access_cycles(bus, mode);
        self.advance(mode);
        cycles
    }

    fn cpy(&mut self, bus: &mut MemoryBus, mode: AddressingMode) -> (r: usize)
        requires
            old(bus)@.wf(),
            old(self).instr_spec(old(bus)@, Instruction::CPY, mode) is Some,
        ensures
            final(bus).cartridge.name == old(bus).cartridge.name,
            (*final(self), final(bus)@, r) == old(self).instr_spec(old(bus)@, Instruction::CPY, mode)->0,
            final(bus)@.wf(),
            final(self).cycles == old(self).cycles && final(self).delay == old(self).delay,
            2 <= r <= 7,
    {
        proof {
            reveal(CPU::instr_spec);
        }
        let value = self.get8(bus, mode);
        let reg = self.y;
        self.set_flag(CPUFlags::Carry, reg >= value);
        self.set_flag(CPUFlags::Zero, reg == value);
        self.set_flag(CPUFlags::Negative, reg.wrapping_sub(value) & 0x80 != 0);
        let cycles = self.access_cycles(bus, mode);
        self.advance(mode);
        cycles
    }

    fn bcc(&mut self, bus: &mut MemoryBus, mode: AddressingMode) -> (r: usize)
        requires
            old(bus)@.wf(),
            old(self).instr_spec(old(bus)@, Instruction::BCC, mode) is Some,
        ensures
            final(bus).cartridge.name == old(bus).cartridge.name,
            (*final(self), final(bus)@, r) == old(self).instr_spec(old(bus)@, Instruction::BCC, mode)->0,
            final(bus)@.wf(),
            final(self).cycles == old(self).cycles && final(self).delay == old(self).delay,
            2 <= r <= 7,
    {
        proof {
            reveal(CPU::instr_spec);
        }
        let taken = !self.flag_set(CPUFlags::Carry);
        self.branch(bus, mode, taken)
    }

    fn bcs(&mut self, bus: &mut MemoryBus, mode: AddressingMode) -> (r: usize)
        requires
            old(bus)@.wf(),
            old(self).instr_spec(old(bus)@, Instruction::BCS, mode) is Some,
        ensures
            final(bus).cartridge.name == old(bus).cartridge.name,
            (*final(self), final(bus)@, r) == old(self).instr_spec(old(bus)@, Instruction::BCS, mode)->0,
            final(bus)@.wf(),
            final(self).cycles == old(self).cycles && final(self).delay == old(self).delay,
            2 <= r <= 7,
    {
        proof {
            reveal(CPU::instr_spec);
        }
        let taken = self.flag_set(CPUFlags::Carry);
        self.branch(bus, mode, taken)
    }

    fn beq(&mut self, bus: &mut MemoryBus, mode: AddressingMode) -> (r: usize)
        requires
            old(bus)@.wf(),
            old(self).instr_spec(old(bus)@, Instruction::BEQ, mode) is Some,
        ensures
            final(bus).cartridge.name == old(bus).cartridge.name,
            (*final(self), final(bus)@, r) == old(self).instr_spec(old(bus)@, Instruction::BEQ, mode)->0,
            final(bus)@.wf(),
            final(self).cycles == old(self).cycles && final(self).delay == old(self).delay,
            2 <= r <= 7,
    {
        proof {
            reveal(CPU::instr_spec);
        }
        let taken = self.flag_set(CPUFlags::Zero);
        self.branch(bus, mode, taken)
    }

    fn bne(&mut self, bus: &mut MemoryBus, mode: AddressingMode) -> (r: usize)
        requires
            old(bus)@.wf(),
            old(self).instr_spec(old(bus)@, Instruction::BNE, mode) is Some,
        ensures
            final(bus).cartridge.name == old(bus).cartridge.name,
            (*final(self), final(bus)@, r) == old(self).instr_spec(old(bus)@, Instruction::BNE, mode)->0,
            final(bus)@.wf(),
            final(self).cycles == old(self).cycles && final(self).delay == old(self).delay,
            2 <= r <= 7,
    {
        proof {
            reveal(CPU::instr_spec);
        }
        let taken = !self.flag_set(CPUFlags::Zero);
        self.branch(bus, mode, taken)
    }

    fn bpl(&mut self, bus: &mut MemoryBus, mode: AddressingMode) -> (r: usize)
        requires
            old(bus)@.wf(),
            old(self).instr_spec(old(bus)@, Instruction::BPL, mode) is Some,
        ensures
            final(bus).cartridge.name == old(bus).cartridge.name,
            (*final(self), final(bus)@, r) == old(self).instr_spec(old(bus)@, Instruction::BPL, mode)->0,
            final(bus)@.wf(),
            final(self).cycles == old(self).cycles && final(self).delay == old(self).delay,
            2 <= r <= 7,
    {
        proof {
            reveal(CPU::instr_spec);
        }
        let taken = !self.flag_set(CPUFlags::Negative);
        self.branch(bus, mode, taken)
    }

    fn bmi(&mut self, bus: &mut MemoryBus, mode: AddressingMode) -> (r: usize)
        requires
            old(bus)@.wf(),
            old(self).instr_spec(old(bus)@, Instruction::BMI, mode) is Some,
        ensures
            final(bus).cartridge.name == old(bus).cartridge.name,
            (*final(self), final(bus)@, r) == old(self).instr_spec(old(bus)@, Instruction::BMI, mode)->0,
            final(bus)@.wf(),
            final(self).cycles == old(self).cycles && final(self).delay == old(self).delay,
            2 <= r <= 7,
    {
        proof {
            reveal(CPU::instr_spec);
        }
        let taken = self.flag_set(CPUFlags::Negative);
        self.branch(bus, mode, taken)
    }

    fn bvc(&mut self, bus: &mut MemoryBus, mode: AddressingMode) -> (r: usize)
        requires
            old(bus)@.wf(),
            old(self).instr_spec(old(bus)@, Instruction::BVC, mode) is Some,
        ensures
            final(bus).cartridge.name == old(bus).cartridge.name,
            (*final(self), final(bus)@, r) == old(self).instr_spec(old(bus)@, Instruction::BVC, mode)->0,
            final(bus)@.wf(),
            final(self).cycles == old(self).cycles && final(self).delay == old(self).delay,
            2 <= r <= 7,
    {
        proof {
            reveal(CPU::instr_spec);
        }
        let taken = !self.flag_set(CPUFlags::Overflow);
        self.branch(bus, mode, taken)
    }

    fn bvs(&mut self, bus: &mut MemoryBus, mode: AddressingMode) -> (r: usize)
        requires
            old(bus)@.wf(),
            old(self).instr_spec(old(bus)@, Instruction::BVS, mode) is Some,
        ensures
            final(bus).cartridge.name == old(bus).cartridge.name,
            (*final(self), final(bus)@, r) == old(self).instr_spec(old(bus)@, Instruction::BVS, mode)->0,
            final(bus)@.wf(),
            final(self).cycles == old(self).cycles && final(self).delay == old(self).delay,
            2 <= r <= 7,
    {
        proof {
            reveal(CPU::instr_spec);
        }
        let taken = self.flag_set(CPUFlags::Overflow);
        self.branch(bus, mode, taken)
    }

    fn jmp(&mut self, bus: &mut MemoryBus, mode: AddressingMode) -> (r: usize)
        requires
            old(bus)@.wf(),
            old(self).instr_spec(old(bus)@, Instruction::JMP, mode) is Some,
        ensures
            final(bus).cartridge.name == old(bus).cartridge.name,
            (*final(self), final(bus)@, r) == old(self).instr_spec(old(bus)@, Instruction::JMP, mode)->0,
            final(bus)@.wf(),
            final(self).cycles == old(self).cycles && final(self).delay == old(self).delay,
            2 <= r <= 7,
    {
        proof {
            reveal(CPU::instr_spec);
        }
        let addr = self.get_address(bus, mode);
        self.pc = addr;
        match mode {
            AddressingMode::Absolute => 3,
            AddressingMode::Indirect => 5,
            _ => {
                proof {
                    assert(false);
                }
                0
            },
        }
    }

    fn jsr(&mut self, bus: &mut MemoryBus, mode: AddressingMode) -> (r: usize)
        requires
            old(bus)@.wf(),
            old(self).instr_spec(old(bus)@, Instruction::JSR, mode) is Some,
        ensures
            final(bus).cartridge.name == old(bus).cartridge.name,
            (*final(self), final(bus)@, r) == old(self).instr_spec(old(bus)@, Instruction::JSR, mode)->0,
            final(bus)@.wf(),
            final(self).cycles == old(self).cycles && final(self).delay == old(self).delay,
            2 <= r <= 7,
    {
        proof {
            reveal(CPU::instr_spec);
        }
        let ret_target = self.pc + 2;
        self.push16(bus, ret_target);
        let jmp_target = self.get_address(bus, mode);
        self.pc = jmp_target;
        6
    }

    fn rts(&mut self, bus: &mut MemoryBus, mode: AddressingMode) -> (r: usize)
        requires
            old(bus)@.wf(),
            old(self).instr_spec(old(bus)@, Instruction::RTS, mode) is Some,
        ensures
            final(bus).cartridge.name == old(bus).cartridge.name,
            (*final(self), final(bus)@, r) == old(self).instr_spec(old(bus)@, Instruction::RTS, mode)->0,
            final(bus)@.wf(),
            final(self).cycles == old(self).cycles && final(self).delay == old(self).delay,
            2 <= r <= 7,
    {
        proof {
            reveal(CPU::instr_spec);
        }
        let ret_target = self.pop16(bus);
        self.pc = ret_target + 1;
        6
    }

    fn brk(&mut self, bus: &mut MemoryBus, mode: AddressingMode) -> (r: usize)
        requires
            old(bus)@.wf(),
            old(self).instr_spec(old(bus)@, Instruction::BRK, mode) is Some,
        ensures
            final(bus).cartridge.name == old(bus).cartridge.name,
            (*final(self), final(bus)@, r) == old(self).instr_spec(old(bus)@, Instruction::BRK, mode)->0,
            final(bus)@.wf(),
            final(self).cycles == old(self).cycles && final(self).delay == old(self).delay,
            2 <= r <= 7,
    {
        proof {
            reveal(CPU::instr_spec);
        }
        let ret_target = self.pc + 2;
        let ghost c0 = *self;
        let ghost b0 = bus@;
        self.push16(bus, ret_target);
        let ghost c1 = *self;
        let ghost b1 = bus@;
        let p = self.p;
        self.push8(bus, p | 0x30);
        assert((*self, bus@) == c1.push8_spec(b1, c1.p | 0x30)->0);
        self.set_flag(CPUFlags::InterruptDisable, true);
        self.jump_to_interrupt_handler(bus);
        7
    }

    fn rti(&mut self, bus: &mut MemoryBus, mode: AddressingMode) -> (r: usize)
        requires
            old(bus)@.wf(),
            old(self).instr_spec(old(bus)@, Instruction::RTI, mode) is Some,
        ensures
            final(bus).cartridge.name == old(bus).cartridge.name,
            (*final(self), final(bus)@, r) == old(self).instr_spec(old(bus)@, Instruction::RTI, mode)->0,
            final(bus)@.wf(),
            final(self).cycles == old(self).cycles && final(self).delay == old(self).delay,
            2 <= r <= 7,
    {
        proof {
            reveal(CPU::instr_spec);
        }
        let v = self.pop8(bus);
        self.p = (v & 0xEF) | 0x20;
        self.pc = self.pop16(bus);
        6
    }

    fn pha(&mut self, bus: &mut MemoryBus, mode: AddressingMode) -> (r: usize)
        requires
            old(bus)@.wf(),
            old(self).instr_spec(old(bus)@, Instruction::PHA, mode) is Some,
        ensures
            final(bus).cartridge.name == old(bus).cartridge.name,
            (*final(self), final(bus)@, r) == old(self).instr_spec(old(bus)@, Instruction::PHA, mode)->0,
            final(bus)@.wf(),
            final(self).cycles == old(self).cycles && final(self).delay == old(self).delay,
            2 <= r <= 7,
    {
        proof {
            reveal(CPU::instr_spec);
        }
        let v = self.a;
        self.push8(bus, v);
        self.advance(mode);
        3
    }

    fn pla(&mut self, bus: &mut MemoryBus, mode: AddressingMode) -> (r: usize)
        requires
            old(bus)@.wf(),
            old(self).instr_spec(old(bus)@, Instruction::PLA, mode) is Some,
        ensures
            final(bus).cartridge.name == old(bus).cartridge.name,
            (*final(self), final(bus)@, r) == old(self).instr_spec(old(bus)@, Instruction::PLA, mode)->0,
            final(bus)@.wf(),
            final(self).cycles == old(self).cycles && final(self).delay == old(self).delay,
            2 <= r <= 7,
    {
        proof {
            reveal(CPU::instr_spec);
        }
        let v = self.pop8(bus);
        self.a = v;
        self.set_zn_flags(v);
        self.advance(mode);
        4
    }

    fn php(&mut self, bus: &mut MemoryBus, mode: AddressingMode) -> (r: usize)
        requires
            old(bus)@.wf(),
            old(self).instr_spec(old(bus)@, Instruction::PHP, mode) is Some,
        ensures
            final(bus).cartridge.name == old(bus).cartridge.name,
            (*final(self), final(bus)@, r) == old(self).instr_spec(old(bus)@, Instruction::PHP, mode)->0,
            final(bus)@.wf(),
            final(self).cycles == old(self).cycles && final(self).delay == old(self).delay,
            2 <= r <= 7,
    {
        proof {
            reveal(CPU::instr_spec);
        }
        let v = self.p | 0x10;
        self.push8(bus, v);
        self.advance(mode);
        3
    }

    fn plp(&mut self, bus: &mut MemoryBus, mode: AddressingMode) -> (r: usize)
        requires
            old(bus)@.wf(),
            old(self).instr_spec(old(bus)@, Instruction::PLP, mode) is Some,
        ensures
            final(bus).cartridge.name == old(bus).cartridge.name,
            (*final(self), final(bus)@, r) == old(self).instr_spec(old(bus)@, Instruction::PLP, mode)->0,
            final(bus)@.wf(),
            final(self).cycles == old(self).cycles && final(self).delay == old(self).delay,
            2 <= r <= 7,
    {
        proof {
            reveal(CPU::instr_spec);
        }
        let v = self.pop8(bus);
        self.p = (v & 0xEF) | 0x20;
        self.advance(mode);
        4
    }

    fn txs(&mut self, bus: &mut MemoryBus, mode: AddressingMode) -> (r: usize)
        requires
            old(bus)@.wf(),
            old(self).instr_spec(old(bus)@, Instruction::TXS, mode) is Some,
        ensures
            final(bus).cartridge.name == old(bus).cartridge.name,
            (*final(self), final(bus)@, r) == old(self).instr_spec(old(bus)@, Instruction::TXS, mode)->0,
            final(bus)@.wf(),
            final(self).cycles == old(self).cycles && final(self).delay == old(self).delay,
            2 <= r <= 7,
    {
        proof {
            reveal(CPU::instr_spec);
        }
        self.sp = self.x;
        self.advance(mode);
        2
    }

    fn tsx(&mut self, bus: &mut MemoryBus, mode: AddressingMode) -> (r: usize)
        requires
            old(bus)@.wf(),
            old(self).instr_spec(old(bus)@, Instruction::TSX, mode) is Some,
        ensures
            final(bus).cartridge.name == old(bus).cartridge.name,
            (*final(self), final(bus)@, r) == old(self).instr_spec(old(bus)@, Instruction::TSX, mode)->0,
            final(bus)@.wf(),
            final(self).cycles == old(self).cycles && final(self).delay == old(self).delay,
            2 <= r <= 7,
    {
        proof {
            reveal(CPU::instr_spec);
        }
        let v = self.sp;
        self.x = v;
        self.set_zn_flags(v);
        self.advance(mode);
        2
    }

    fn clc(&mut self, bus: &mut MemoryBus, mode: AddressingMode) -> (r: usize)
        requires
            old(bus)@.wf(),
            old(self).instr_spec(old(bus)@, Instruction::CLC, mode) is Some,
        ensures
            final(bus).cartridge.name == old(bus).cartridge.name,
            (*final(self), final(bus)@, r) == old(self).instr_spec(old(bus)@, Instruction::CLC, mode)->0,
            final(bus)@.wf(),
            final(self).cycles == old(self).cycles && final(self).delay == old(self).delay,
            2 <= r <= 7,
    {
        proof {
            reveal(CPU::instr_spec);
        }
        self.set_flag(CPUFlags::Carry, false);
        self.advance(mode);
        2
    }

    fn sec(&mut self, bus: &mut MemoryBus, mode: AddressingMode) -> (r: usize)
        requires
            old(bus)@.wf(),
            old(self).instr_spec(old(bus)@, Instruction::SEC, mode) is Some,
        ensures
            final(bus).cartridge.name == old(bus).cartridge.name,
            (*final(self), final(bus)@, r) == old(self).instr_spec(old(bus)@, Instruction::SEC, mode)->0,
            final(bus)@.wf(),
            final(self).cycles == old(self).cycles && final(self).delay == old(self).delay,
            2 <= r <= 7,
    {
        proof {
            reveal(CPU::instr_spec);
        }
        self.set_flag(CPUFlags::Carry, true);
        self.advance(mode);
        2
    }

    fn cli(&mut self, bus: &mut MemoryBus, mode: AddressingMode) -> (r: usize)
        requires
            old(bus)@.wf(),
            old(self).instr_spec(old(bus)@, Instruction::CLI, mode) is Some,
        ensures
            final(bus).cartridge.name == old(bus).cartridge.name,
            (*final(self), final(bus)@, r) == old(self).instr_spec(old(bus)@, Instruction::CLI, mode)->0,
            final(bus)@.wf(),
            final(self).cycles == old(self).cycles && final(self).delay == old(self).delay,
            2 <= r <= 7,
    {
        proof {
            reveal(CPU::instr_spec);
        }
        self.set_flag(CPUFlags::InterruptDisable, false);
        self.advance(mode);
        2
    }

    fn sei(&mut self, bus: &mut MemoryBus, mode: AddressingMode) -> (r: usize)
        requires
            old(bus)@.wf(),
            old(self).instr_spec(old(bus)@, Instruction::SEI, mode) is Some,
        ensures
            final(bus).cartridge.name == old(bus).cartridge.name,
            (*final(self), final(bus)@, r) == old(self).instr_spec(old(bus)@, Instruction::SEI, mode)->0,
            final(bus)@.wf(),
            final(self).cycles == old(self).cycles && final(self).delay == old(self).delay,
            2 <= r <= 7,
    {
        proof {
            reveal(CPU::instr_spec);
        }
        self.set_flag(CPUFlags::InterruptDisable, true);
        self.advance(mode);
        2
    }

    fn cld(&mut self, bus: &mut MemoryBus, mode: AddressingMode) -> (r: usize)
        requires
            old(bus)@.wf(),
            old(self).instr_spec(old(bus)@, Instruction::CLD, mode) is Some,
        ensures
            final(bus).cartridge.name == old(bus).cartridge.name,
            (*final(self), final(bus)@, r) == old(self).instr_spec(old(bus)@, Instruction::CLD, mode)->0,
            final(bus)@.wf(),
            final(self).cycles == old(self).cycles && final(self).delay == old(self).delay,
            2 <= r <= 7,
    {
        proof {
            reveal(CPU::instr_spec);
        }
        self.set_flag(CPUFlags::Decimal, false);
        self.advance(mode);
        2
    }

    fn sed(&mut self, bus: &mut MemoryBus, mode: AddressingMode) -> (r: usize)
        requires
            old(bus)@.wf(),
            old(self).instr_spec(old(bus)@, Instruction::SED, mode) is Some,
        ensures
            final(bus).cartridge.name == old(bus).cartridge.name,
            (*final(self), final(bus)@, r) == old(self).instr_spec(old(bus)@, Instruction::SED, mode)->0,
            final(bus)@.wf(),
            final(self).cycles == old(self).cycles && final(self).delay == old(self).delay,
            2 <= r <= 7,
    {
        proof {
            reveal(CPU::instr_spec);
        }
        self.set_flag(CPUFlags::Decimal, true);
        self.advance(mode);
        2
    }

    fn clv(&mut self, bus: &mut MemoryBus, mode: AddressingMode) -> (r: usize)
        requires
            old(bus)@.wf(),
            old(self).instr_spec(old(bus)@, Instruction::CLV, mode) is Some,
        ensures
            final(bus).cartridge.name == old(bus).cartridge.name,
            (*final(self), final(bus)@, r) == old(self).instr_spec(old(bus)@, Instruction::CLV, mode)->0,
            final(bus)@.wf(),
            final(self).cycles == old(self).cycles && final(self).delay == old(self).delay,
            2 <= r <= 7,
    {
        proof {
            reveal(CPU::instr_spec);
        }
        self.set_flag(CPUFlags::Overflow, false);
        self.advance(mode);
        2
    }

    fn nop(&mut self, bus: &mut MemoryBus, mode: AddressingMode) -> (r: usize)
        requires
            old(bus)@.wf(),
            old(self).instr_spec(old(bus)@, Instruction::NOP, mode) is Some,
        ensures
            final(bus).cartridge.name == old(bus).cartridge.name,
            (*final(self), final(bus)@, r) == old(self).instr_spec(old(bus)@, Instruction::NOP, mode)->0,
            final(bus)@.wf(),
            final(self).cycles == old(self).cycles && final(self).delay == old(self).delay,
            2 <= r <= 7,
    {
        proof {
            reveal(CPU::instr_spec);
        }
        self.advance(mode);
        2
    }

    /// Loads and stores.
    fn run_access(&mut self, bus: &mut MemoryBus, ins: Instruction, mode: AddressingMode) -> (r: usize)
        requires
            old(bus)@.wf(),
            old(self).instr_spec(old(bus)@, ins, mode) is Some,
            ins == Instruction::LDA || ins == Instruction::LDX || ins == Instruction::LDY || ins == Instruction::STA || ins == Instruction::STX || ins == Instruction::STY,
        ensures
            final(bus).cartridge.name == old(bus).cartridge.name,
            (*final(self), final(bus)@, r) == old(self).instr_spec(old(bus)@, ins, mode)->0,
            final(bus)@.wf(),
            final(self).cycles == old(self).cycles && final(self).delay == old(self).delay,
            2 <= r <= 7,
    {
        match ins {
            Instruction::LDA => self.lda(bus, mode),
            Instruction::LDX => self.ldx(bus, mode),
            Instruction::LDY => self.ldy(bus, mode),
            Instruction::STA => self.sta(bus, mode),
            Instruction::STX => self.stx(bus, mode),
            Instruction::STY => self.sty(bus, mode),
            _ => {
                proof {
                    assert(false);
                }
                2
            },
        }
    }

    /// Register transfers, increments and decrements.
    fn run_register(&mut self, bus: &mut MemoryBus, ins: Instruction, mode: AddressingMode) -> (r: usize)
        requires
            old(bus)@.wf(),
            old(self).instr_spec(old(bus)@, ins, mode) is Some,
            ins == Instruction::TAX || ins == Instruction::TXA || ins == Instruction::TAY || ins == Instruction::TYA || ins == Instruction::INX || ins == Instruction::DEX || ins == Instruction::INY || ins == Instruction::DEY || ins == Instruction::TXS || ins == Instruction::TSX,
        ensures
            final(bus).cartridge.name == old(bus).cartridge.name,
            (*final(self), final(bus)@, r) == old(self).instr_spec(old(bus)@, ins, mode)->0,
            final(bus)@.wf(),
            final(self).cycles == old(self).cycles && final(self).delay == old(self).delay,
            2 <= r <= 7,
    {
        match ins {
            Instruction::TAX => self.tax(bus, mode),
            Instruction::TXA => self.txa(bus, mode),
            Instruction::TAY => self.tay(bus, mode),
            Instruction::TYA => self.tya(bus, mode),
            Instruction::INX => self.inx(bus, mode),
            Instruction::DEX => self.dex(bus, mode),
            Instruction::INY => self.iny(bus, mode),
            Instruction::DEY => self.dey(bus, mode),
            Instruction::TXS => self.txs(bus, mode),
            Instruction::TSX => self.tsx(bus, mode),
            _ => {
                proof {
                    assert(false);
                }
                2
            },
        }
    }

    /// Arithmetic, logic and compares.
    fn run_arithmetic(&mut self, bus: &mut MemoryBus, ins: Instruction, mode: AddressingMode) -> (r: usize)
        requires
            old(bus)@.wf(),
            old(self).instr_spec(old(bus)@, ins, mode) is Some,
            ins == Instruction::ADC || ins == Instruction::SBC || ins == Instruction::AND || ins == Instruction::ORA || ins == Instruction::EOR || ins == Instruction::CMP || ins == Instruction::CPX || ins == Instruction::CPY || ins == Instruction::BIT,
        ensures
            final(bus).cartridge.name == old(bus).cartridge.name,
            (*final(self), final(bus)@, r) == old(self).instr_spec(old(bus)@, ins, mode)->0,
            final(bus)@.wf(),
            final(self).cycles == old(self).cycles && final(self).delay == old(self).delay,
            2 <= r <= 7,
    {
        match ins {
            Instruction::ADC => self.adc(bus, mode),
            Instruction::SBC => self.sbc(bus, mode),
            Instruction::AND => self.and(bus, mode),
            Instruction::ORA => self.ora(bus, mode),
            Instruction::EOR => self.eor(bus, mode),
            Instruction::CMP => self.cmp(bus, mode),
            Instruction::CPX => self.cpx(bus, mode),
            Instruction::CPY => self.cpy(bus, mode),
            Instruction::BIT => self.bit(bus, mode),
            _ => {
                proof {
                    assert(false);
                }
                2
            },
        }
    }

    /// Read-modify-write instructions.
    fn run_read_modify_write(&mut self, bus: &mut MemoryBus, ins: Instruction, mode: AddressingMode) -> (r: usize)
        requires
            old(bus)@.wf(),
            old(self).instr_spec(old(bus)@, ins, mode) is Some,
            ins == Instruction::INC || ins == Instruction::DEC || ins == Instruction::ASL || ins == Instruction::LSR || ins == Instruction::ROL || ins == Instruction::ROR,
        ensures
            final(bus).cartridge.name == old(bus).cartridge.name,
            (*final(self), final(bus)@, r) == old(self).instr_spec(old(bus)@, ins, mode)->0,
            final(bus)@.wf(),
            final(self).cycles == old(self).cycles && final(self).delay == old(self).delay,
            2 <= r <= 7,
    {
        match ins {
            Instruction::INC => self.inc(bus, mode),
            Instruction::DEC => self.dec(bus, mode),
            Instruction::ASL => self.asl(bus, mode),
            Instruction::LSR => self.lsr(bus, mode),
            Instruction::ROL => self.rol(bus, mode),
            Instruction::ROR => self.ror(bus, mode),
            _ => {
                proof {
                    assert(false);
                }
                2
            },
        }
    }

    /// Conditional branches.
    fn run_branch(&mut self, bus: &mut MemoryBus, ins: Instruction, mode: AddressingMode) -> (r: usize)
        requires
            old(bus)@.wf(),
            old(self).instr_spec(old(bus)@, ins, mode) is Some,
            ins == Instruction::BCC || ins == Instruction::BCS || ins == Instruction::BEQ || ins == Instruction::BNE || ins == Instruction::BPL || ins == Instruction::BMI || ins == Instruction::BVC || ins == Instruction::BVS,
        ensures
            final(bus).cartridge.name == old(bus).cartridge.name,
            (*final(self), final(bus)@, r) == old(self).instr_spec(old(bus)@, ins, mode)->0,
            final(bus)@.wf(),
            final(self).cycles == old(self).cycles && final(self).delay == old(self).delay,
            2 <= r <= 7,
    {
        match ins {
            Instruction::BCC => self.bcc(bus, mode),
            Instruction::BCS => self.bcs(bus, mode),
            Instruction::BEQ => self.beq(bus, mode),
            Instruction::BNE => self.bne(bus, mode),
            Instruction::BPL => self.bpl(bus, mode),
            Instruction::BMI => self.bmi(bus, mode),
            Instruction::BVC => self.bvc(bus, mode),
            Instruction::BVS => self.bvs(bus, mode),
            _ => {
                proof {
                    assert(false);
                }
                2
            },
        }
    }

    /// Jumps, subroutines, interrupts and the stack.
    fn run_control(&mut self, bus: &mut MemoryBus, ins: Instruction, mode: AddressingMode) -> (r: usize)
        requires
            old(bus)@.wf(),
            old(self).instr_spec(old(bus)@, ins, mode) is Some,
            ins == Instruction::JMP || ins == Instruction::JSR || ins == Instruction::RTS || ins == Instruction::BRK || ins == Instruction::RTI || ins == Instruction::PHA || ins == Instruction::PHP || ins == Instruction::PLA || ins == Instruction::PLP,
        ensures
            final(bus).cartridge.name == old(bus).cartridge.name,
            (*final(self), final(bus)@, r) == old(self).instr_spec(old(bus)@, ins, mode)->0,
            final(bus)@.wf(),
            final(self).cycles == old(self).cycles && final(self).delay == old(self).delay,
            2 <= r <= 7,
    {
        match ins {
            Instruction::JMP => self.jmp(bus, mode),
            Instruction::JSR => self.jsr(bus, mode),
            Instruction::RTS => self.rts(bus, mode),
            Instruction::BRK => self.brk(bus, mode),
            Instruction::RTI => self.rti(bus, mode),
            Instruction::PHA => self.pha(bus, mode),
            Instruction::PHP => self.php(bus, mode),
            Instruction::PLA => self.pla(bus, mode),
            Instruction::PLP => self.plp(bus, mode),
            _ => {
                proof {
                    assert(false);
                }
                2
            },
        }
    }

    /// Flag instructions and NOP.
    fn run_flags(&mut self, bus: &mut MemoryBus, ins: Instruction, mode: AddressingMode) -> (r: usize)
        requires
            old(bus)@.wf(),
            old(self).instr_spec(old(bus)@, ins, mode) is Some,
            ins == Instruction::CLC || ins == Instruction::SEC || ins == Instruction::CLI || ins == Instruction::SEI || ins == Instruction::CLD || ins == Instruction::SED || ins == Instruction::CLV || ins == Instruction::NOP,
        ensures
            final(bus).cartridge.name == old(bus).cartridge.name,
            (*final(self), final(bus)@, r) == old(self).instr_spec(old(bus)@, ins, mode)->0,
            final(bus)@.wf(),
            final(self).cycles == old(self).cycles && final(self).delay == old(self).delay,
            2 <= r <= 7,
    {
        match ins {
            Instruction::CLC => self.clc(bus, mode),
            Instruction::SEC => self.sec(bus, mode),
            Instruction::CLI => self.cli(bus, mode),
            Instruction::SEI => self.sei(bus, mode),
            Instruction::CLD => self.cld(bus, mode),
            Instruction::SED => self.sed(bus, mode),
            Instruction::CLV => self.clv(bus, mode),
            Instruction::NOP => self.nop(bus, mode),
            _ => {
                proof {
                    assert(false);
                }
                2
            },
        }
    }

    /// Runs one decoded instruction and returns the cycles it takes.
    fn run(&mut self, bus: &mut MemoryBus, ins: Instruction, mode: AddressingMode) -> (r: usize)
        requires
            old(bus)@.wf(),
            old(self).instr_spec(old(bus)@, ins, mode) is Some,
        ensures
            final(bus).cartridge.name == old(bus).cartridge.name,
            (*final(self), final(bus)@, r) == old(self).instr_spec(old(bus)@, ins, mode)->0,
            final(bus)@.wf(),
            final(self).cycles == old(self).cycles && final(self).delay == old(self).delay,
            2 <= r <= 7,
    {
        match ins {
            Instruction::LDA | Instruction::LDX | Instruction::LDY | Instruction::STA | Instruction::STX | Instruction::STY => self.run_access(bus, ins, mode),
            Instruction::TAX | Instruction::TXA | Instruction::TAY | Instruction::TYA | Instruction::INX | Instruction::DEX | Instruction::INY | Instruction::DEY | Instruction::TXS | Instruction::TSX => self.run_register(bus, ins, mode),
            Instruction::ADC | Instruction::SBC | Instruction::AND | Instruction::ORA | Instruction::EOR | Instruction::CMP | Instruction::CPX | Instruction::CPY | Instruction::BIT => self.run_arithmetic(bus, ins, mode),
            Instruction::INC | Instruction::DEC | Instruction::ASL | Instruction::LSR | Instruction::ROL | Instruction::ROR => self.run_read_modify_write(bus, ins, mode),
            Instruction::BCC | Instruction::BCS | Instruction::BEQ | Instruction::BNE | Instruction::BPL | Instruction::BMI | Instruction::BVC | Instruction::BVS => self.run_branch(bus, ins, mode),
            Instruction::JMP | Instruction::JSR | Instruction::RTS | Instruction::BRK | Instruction::RTI | Instruction::PHA | Instruction::PHP | Instruction::PLA | Instruction::PLP => self.run_control(bus, ins, mode),
            Instruction::CLC | Instruction::SEC | Instruction::CLI | Instruction::SEI | Instruction::CLD | Instruction::SED | Instruction::CLV | Instruction::NOP => self.run_flags(bus, ins, mode),
        }
    }

    fn execute(&mut self, bus: &mut MemoryBus, opcode: u8) -> (r: Option<usize>)
        requires
            old(bus)@.wf(),
            old(self).execute_spec(old(bus)@, opcode) is Some,
        ensures
            final(bus).cartridge.name == old(bus).cartridge.name,
            (*final(self), final(bus)@, r) == old(self).execute_spec(old(bus)@, opcode)->0,
            final(bus)@.wf(),
            final(self).cycles == old(self).cycles && final(self).delay == old(self).delay,
            r is Some ==> 2 <= r->0 <= 7,
    {
        match decode_opcode(opcode) {
            None => None,
            Some((ins, mode)) => Some(self.run(bus, ins, mode)),
        }
    }

    /// Runs one CPU cycle; returns false when the opcode at the PC is not an
    /// official instruction.
    pub fn step(&mut self, bus: &mut MemoryBus) -> (r: bool)
        requires
            old(bus)@.wf(),
            old(self).cycles < usize::MAX,
            old(self).step_spec(old(bus)@) is Some,
        ensures
            final(bus).cartridge.name == old(bus).cartridge.name,
            (*final(self), final(bus)@, r) == old(self).step_spec(old(bus)@)->0,
            final(bus)@.wf(),
            final(self).delay <= 6 || final(self).delay < old(self).delay,
    {
        if self.delay > 0 {
            self.delay = self.delay - 1;
            self.cycles = self.cycles + 1;
            return true;
        }
        let opcode = self.read8(bus, self.pc);
        if let Some(cycles) = self.execute(bus, opcode) {
            self.cycles = self.cycles + 1;
            self.delay = cycles - 1;
            return true;
        }
        false
    }
}


/// ADC: A becomes A + M + C modulo 256; C is set when that sum exceeds 255,
/// V when A, M and C added as signed bytes leave -128..=127, and Z and N
/// describe the result.
pub proof fn lemma_adc_flags(c: CPU, m: u8)
    ensures
        ({
            let carry: int = if c.flag(CPUFlags::Carry) { 1 } else { 0 };
            let r = c.add_with_carry(m);
            &&& r.a == (c.a + m + carry) % 256
            &&& r.flag(CPUFlags::Carry) == (c.a + m + carry > 255)
            &&& r.flag(CPUFlags::Overflow) == !(-128 <= signed8(c.a) + signed8(m) + carry <= 127)
            &&& r.flag(CPUFlags::Zero) == (r.a == 0)
            &&& r.flag(CPUFlags::Negative) == (r.a >= 128)
        }),
{
    let carry: int = if c.flag(CPUFlags::Carry) { 1 } else { 0 };
    let sum = c.a + m + carry;
    let rr = (sum % 256) as u8;
    let a = c.a;
    let ov = ((a ^ rr) & (m ^ rr)) & 0x80 != 0;
    let c1 = c.with_flag(CPUFlags::Carry, sum > 255);
    let c2 = c1.with_flag(CPUFlags::Zero, rr == 0);
    let c3 = c2.with_flag(CPUFlags::Overflow, ov);
    let n = rr & 0x80 != 0;
    lemma_flag_set_get(c, CPUFlags::Carry, CPUFlags::Carry, sum > 255);
    lemma_flag_set_get(c1, CPUFlags::Zero, CPUFlags::Carry, rr == 0);
    lemma_flag_set_get(c2, CPUFlags::Overflow, CPUFlags::Carry, ov);
    lemma_flag_set_get(c2, CPUFlags::Overflow, CPUFlags::Zero, ov);
    lemma_flag_set_get(c3, CPUFlags::Negative, CPUFlags::Carry, n);
    lemma_flag_set_get(c3, CPUFlags::Negative, CPUFlags::Zero, n);
    lemma_flag_set_get(c3, CPUFlags::Negative, CPUFlags::Overflow, n);
    assert(ov == ((a >= 128) == (m >= 128) && (a >= 128) != (rr >= 128))) by (bit_vector)
        requires ov == (((a ^ rr) & (m ^ rr)) & 0x80 != 0);
    assert(n == (rr >= 128)) by (bit_vector)
        requires n == (rr & 0x80 != 0);
}

/// SBC: A becomes A - M - (1 - C) modulo 256, and C is set exactly when that
/// difference is not negative, that is when nothing was borrowed.
pub proof fn lemma_sbc_subtracts(c: CPU, m: u8)
    ensures
        ({
            let borrow: int = if c.flag(CPUFlags::Carry) { 0 } else { 1 };
            let r = c.read_effect(Instruction::SBC, m);
            &&& r.a == (c.a - m - borrow) % 256
            &&& r.flag(CPUFlags::Carry) == (c.a - m - borrow >= 0)
        }),
{
    let nm = !m;
    assert(nm == 255 - m) by (bit_vector)
        requires nm == !m;
    lemma_adc_flags(c, nm);
}

/// CMP, CPX and CPY: C tells `reg >= v`, Z tells `reg == v`, N is bit 7 of
/// `reg - v` modulo 256, and no register changes.
pub proof fn lemma_compare_flags(c: CPU, reg: u8, v: u8)
    ensures
        ({
            let r = c.compared(reg, v);
            &&& r.flag(CPUFlags::Carry) == (reg >= v)
            &&& r.flag(CPUFlags::Zero) == (reg == v)
            &&& r.flag(CPUFlags::Negative) == (sub8(reg, v) >= 128)
            &&& r.a == c.a && r.x == c.x && r.y == c.y && r.sp == c.sp && r.pc == c.pc
        }),
{
    let c1 = c.with_flag(CPUFlags::Carry, reg >= v);
    let c2 = c1.with_flag(CPUFlags::Zero, reg == v);
    let d = sub8(reg, v);
    let n = d & 0x80 != 0;
    lemma_flag_set_get(c, CPUFlags::Carry, CPUFlags::Carry, reg >= v);
    lemma_flag_set_get(c1, CPUFlags::Zero, CPUFlags::Carry, reg == v);
    lemma_flag_set_get(c2, CPUFlags::Negative, CPUFlags::Carry, n);
    lemma_flag_set_get(c2, CPUFlags::Negative, CPUFlags::Zero, n);
    assert(n == (d >= 128)) by (bit_vector)
        requires n == (d & 0x80 != 0);
}

/// A return right after a subroutine call resumes at the instruction that
/// follows the JSR, with the stack pointer back where it was.
pub proof fn lemma_jsr_then_rts(c: CPU, b: BusView)
    requires
        c.pc < 0xFFFD,
        c.instr_spec(b, Instruction::JSR, AddressingMode::Absolute) is Some,
    ensures
        ({
            let (c1, b1, _) = c.instr_spec(b, Instruction::JSR, AddressingMode::Absolute)->0;
            &&& c1.instr_spec(b1, Instruction::RTS, AddressingMode::Implied) is Some
            &&& ({
                let (c2, _, _) = c1.instr_spec(b1, Instruction::RTS, AddressingMode::Implied)->0;
                c2.pc == c.pc + 3 && c2.sp == c.sp
            })
        }),
{
    reveal(CPU::instr_spec);
    reveal(read16_spec);
    let ret = (c.pc + 2) as u16;
    let (cp, bp) = c.push16_spec(b, ret)->0;
    let op = inc16(cp.pc);
    lemma_read_keeps_ram(bp, op);
    let bq = (bp.read_spec(op)->0).0;
    lemma_read_keeps_ram(bq, inc16(op));
    let (b2, target) = cp.address_spec(bp, AddressingMode::Absolute)->0;
    assert(b2.ram == bp.ram);
    let c1 = CPU { pc: target, ..cp };
    lemma_push_pop16(c, b, ret, c1, b2);
}

/// A branch in relative mode, given whether it is taken: to the signed
/// operand past the instruction in 3 or 4 cycles, or over its two bytes in 2.
proof fn lemma_branch_outcome(c: CPU, b: BusView, taken: bool)
    requires
        c.branch_spec(b, AddressingMode::Relative, taken) is Some,
    ensures
        ({
            let (c2, b2, cycles) = c.branch_spec(b, AddressingMode::Relative, taken)->0;
            let next = wrap16(c.pc + 2);
            let (b1, offset) = b.read_spec(inc16(c.pc))->0;
            let target = wrap16(next + signed8(offset));
            let retarget = wrap16(next + signed8((b1.read_spec(inc16(c.pc))->0).1));
            &&& taken ==> c2 == (CPU { pc: target, ..c })
                && cycles == (if next / 256 != retarget / 256 { 4usize } else { 3usize })
            &&& !taken ==> c2 == (CPU { pc: next, ..c }) && cycles == 2 && b2 == b
        }),
{
}

/// The eight conditional branches, against the status bits: BPL (0x10) and
/// BMI (0x30) test bit 7, BVC (0x50) and BVS (0x70) bit 6, BCC (0x90) and BCS
/// (0xB0) bit 0, BNE (0xD0) and BEQ (0xF0) bit 1. A taken branch moves the PC to
/// the instruction after the branch plus the signed operand byte and costs 3
/// cycles, 4 when the target lies on another page (the page test reads the
/// operand a second time); a branch not taken only
/// steps over its two bytes in 2 cycles. Nothing else changes.
pub proof fn lemma_branch_conditions(c: CPU, b: BusView, op: u8)
    requires
        op == 0x10 || op == 0x30 || op == 0x50 || op == 0x70 || op == 0x90 || op == 0xB0 || op == 0xD0 || op == 0xF0,
        c.execute_spec(b, op) is Some,
    ensures
        ({
            let (c2, b2, cycles) = c.execute_spec(b, op)->0;
            let p = c.p;
            let taken = if op == 0x10 { p & 0x80 == 0 }
                else if op == 0x30 { p & 0x80 != 0 }
                else if op == 0x50 { p & 0x40 == 0 }
                else if op == 0x70 { p & 0x40 != 0 }
                else if op == 0x90 { p & 0x01 == 0 }
                else if op == 0xB0 { p & 0x01 != 0 }
                else if op == 0xD0 { p & 0x02 == 0 }
                else { p & 0x02 != 0 };
            let next = wrap16(c.pc + 2);
            let (b1, offset) = b.read_spec(inc16(c.pc))->0;
            let target = wrap16(next + signed8(offset));
            let retarget = wrap16(next + signed8((b1.read_spec(inc16(c.pc))->0).1));
            &&& taken ==> c2 == (CPU { pc: target, ..c })
                && cycles == Some(if next / 256 != retarget / 256 { 4usize } else { 3usize })
            &&& !taken ==> c2 == (CPU { pc: next, ..c }) && cycles == Some(2usize) && b2 == b
        }),
{
    let p = c.p;
    assert({
        &&& ((p >> 7u8) & 1 == 1) == (p & 0x80 != 0)
        &&& ((p >> 6u8) & 1 == 1) == (p & 0x40 != 0)
        &&& ((p >> 0u8) & 1 == 1) == (p & 0x01 != 0)
        &&& ((p >> 1u8) & 1 == 1) == (p & 0x02 != 0)
    }) by (bit_vector);
    let rel = AddressingMode::Relative;
    let ins = if op == 0x10 { Instruction::BPL }
        else if op == 0x30 { Instruction::BMI }
        else if op == 0x50 { Instruction::BVC }
        else if op == 0x70 { Instruction::BVS }
        else if op == 0x90 { Instruction::BCC }
        else if op == 0xB0 { Instruction::BCS }
        else if op == 0xD0 { Instruction::BNE }
        else { Instruction::BEQ };
    assert(decode(op) == Some((ins, rel)));
    assert(c.instr_spec(b, ins, rel) == c.branch_spec(b, rel, c.branch_taken(ins))) by {
        reveal(CPU::instr_spec);
    }
    lemma_branch_outcome(c, b, c.branch_taken(ins));
}

/// Shifts and rotates as arithmetic on the byte `v`: ASL doubles it modulo 256
/// and carries out bit 7; LSR halves it and carries out bit 0; ROL doubles it
/// plus the old carry, modulo 256, carrying out bit 7; ROR halves it plus 128
/// times the old carry, carrying out bit 0. Z tells a zero result and N a result
/// of 128 or more; the other flags and the registers stay.
pub proof fn lemma_shift_results(c: CPU, ins: Instruction, v: u8)
    requires
        ins == Instruction::ASL || ins == Instruction::LSR || ins == Instruction::ROL || ins == Instruction::ROR,
    ensures
        ({
            let (d, r) = c.shift_effect(ins, v);
            let carry_in: int = if c.flag(CPUFlags::Carry) { 1 } else { 0 };
            &&& ins == Instruction::ASL ==> r == (2 * v) % 256 && d.flag(CPUFlags::Carry) == (v >= 128)
            &&& ins == Instruction::LSR ==> r == v / 2 && d.flag(CPUFlags::Carry) == (v % 2 == 1)
            &&& ins == Instruction::ROL ==> r == (2 * v + carry_in) % 256 && d.flag(CPUFlags::Carry) == (v >= 128)
            &&& ins == Instruction::ROR ==> r == v / 2 + 128 * carry_in && d.flag(CPUFlags::Carry) == (v % 2 == 1)
            &&& d.flag(CPUFlags::Zero) == (r == 0)
            &&& d.flag(CPUFlags::Negative) == (r >= 128)
            &&& d.flag(CPUFlags::Overflow) == c.flag(CPUFlags::Overflow)
            &&& d.flag(CPUFlags::InterruptDisable) == c.flag(CPUFlags::InterruptDisable)
            &&& d.flag(CPUFlags::Decimal) == c.flag(CPUFlags::Decimal)
            &&& d.a == c.a && d.x == c.x && d.y == c.y && d.sp == c.sp && d.pc == c.pc
        }),
{
    crate::bit_utils::lemma_byte_fields(v);
    let (d, r) = c.shift_effect(ins, v);
    crate::bit_utils::lemma_byte_fields(r);
    let carry = if ins == Instruction::ASL || ins == Instruction::ROL { v & 0x80 != 0 } else { v & 1 != 0 };
    let c1 = c.with_flag(CPUFlags::Carry, carry);
    let c2 = c1.with_flag(CPUFlags::Zero, r == 0);
    let n = r & 0x80 != 0;
    assert(d == c2.with_flag(CPUFlags::Negative, n));
    lemma_flag_set_get(c, CPUFlags::Carry, CPUFlags::Carry, carry);
    lemma_flag_set_get(c, CPUFlags::Carry, CPUFlags::Overflow, carry);
    lemma_flag_set_get(c, CPUFlags::Carry, CPUFlags::InterruptDisable, carry);
    lemma_flag_set_get(c, CPUFlags::Carry, CPUFlags::Decimal, carry);
    lemma_flag_set_get(c1, CPUFlags::Zero, CPUFlags::Carry, r == 0);
    lemma_flag_set_get(c1, CPUFlags::Zero, CPUFlags::Zero, r == 0);
    lemma_flag_set_get(c1, CPUFlags::Zero, CPUFlags::Overflow, r == 0);
    lemma_flag_set_get(c1, CPUFlags::Zero, CPUFlags::InterruptDisable, r == 0);
    lemma_flag_set_get(c1, CPUFlags::Zero, CPUFlags::Decimal, r == 0);
    lemma_flag_set_get(c2, CPUFlags::Negative, CPUFlags::Carry, n);
    lemma_flag_set_get(c2, CPUFlags::Negative, CPUFlags::Zero, n);
    lemma_flag_set_get(c2, CPUFlags::Negative, CPUFlags::Negative, n);
    lemma_flag_set_get(c2, CPUFlags::Negative, CPUFlags::Overflow, n);
    lemma_flag_set_get(c2, CPUFlags::Negative, CPUFlags::InterruptDisable, n);
    lemma_flag_set_get(c2, CPUFlags::Negative, CPUFlags::Decimal, n);
}

/// Loads put the operand in their register; AND, ORA and EOR combine it with
/// A. Either way Z tells a zero result and N a result of 128 or more, while C,
/// V, I and D and the other registers stay.
pub proof fn lemma_load_logic_flags(c: CPU, ins: Instruction, v: u8)
    requires
        ins == Instruction::LDA || ins == Instruction::LDX || ins == Instruction::LDY
            || ins == Instruction::AND || ins == Instruction::ORA || ins == Instruction::EOR,
    ensures
        ({
            let d = c.read_effect(ins, v);
            let r = if ins == Instruction::LDX { d.x } else if ins == Instruction::LDY { d.y } else { d.a };
            &&& (ins == Instruction::LDA || ins == Instruction::LDX || ins == Instruction::LDY) ==> r == v
            &&& ins != Instruction::LDX ==> d.x == c.x
            &&& ins != Instruction::LDY ==> d.y == c.y
            &&& (ins == Instruction::LDX || ins == Instruction::LDY) ==> d.a == c.a
            &&& d.flag(CPUFlags::Zero) == (r == 0)
            &&& d.flag(CPUFlags::Negative) == (r >= 128)
            &&& d.flag(CPUFlags::Carry) == c.flag(CPUFlags::Carry)
            &&& d.flag(CPUFlags::Overflow) == c.flag(CPUFlags::Overflow)
            &&& d.flag(CPUFlags::InterruptDisable) == c.flag(CPUFlags::InterruptDisable)
            &&& d.flag(CPUFlags::Decimal) == c.flag(CPUFlags::Decimal)
            &&& d.sp == c.sp && d.pc == c.pc
        }),
{
    let d = c.read_effect(ins, v);
    let r = if ins == Instruction::LDX { d.x } else if ins == Instruction::LDY { d.y } else { d.a };
    crate::bit_utils::lemma_byte_fields(r);
    let c0 = if ins == Instruction::LDA { CPU { a: v, ..c } }
        else if ins == Instruction::LDX { CPU { x: v, ..c } }
        else if ins == Instruction::LDY { CPU { y: v, ..c } }
        else if ins == Instruction::AND { CPU { a: c.a & v, ..c } }
        else if ins == Instruction::ORA { CPU { a: c.a | v, ..c } }
        else { CPU { a: c.a ^ v, ..c } };
    let c1 = c0.with_flag(CPUFlags::Zero, r == 0);
    let n = r & 0x80 != 0;
    assert(d == c1.with_flag(CPUFlags::Negative, n));
    lemma_flag_set_get(c0, CPUFlags::Zero, CPUFlags::Zero, r == 0);
    lemma_flag_set_get(c0, CPUFlags::Zero, CPUFlags::Carry, r == 0);
    lemma_flag_set_get(c0, CPUFlags::Zero, CPUFlags::Overflow, r == 0);
    lemma_flag_set_get(c0, CPUFlags::Zero, CPUFlags::InterruptDisable, r == 0);
    lemma_flag_set_get(c0, CPUFlags::Zero, CPUFlags::Decimal, r == 0);
    lemma_flag_set_get(c1, CPUFlags::Negative, CPUFlags::Carry, n);
    lemma_flag_set_get(c1, CPUFlags::Negative, CPUFlags::Zero, n);
    lemma_flag_set_get(c1, CPUFlags::Negative, CPUFlags::Negative, n);
    lemma_flag_set_get(c1, CPUFlags::Negative, CPUFlags::Overflow, n);
    lemma_flag_set_get(c1, CPUFlags::Negative, CPUFlags::InterruptDisable, n);
    lemma_flag_set_get(c1, CPUFlags::Negative, CPUFlags::Decimal, n);
}

} // verus!
