use vstd::prelude::*;
use crate::apu::Apu;
use crate::bus::Bus;
use crate::pad::PadInputs;
use crate::ppu::Ppu;
use crate::rom::Rom;
use crate::util::{addr_of, bit, flag_value, get_addr, high_byte, low_byte, test_bit};

verus! {

/// How an instruction finds its operand.
#[derive(PartialEq, Eq, Structural, Debug, Clone, Copy)]
pub enum AddressingMode {
    Implied,
    Accumulator,
    Immediate,
    ZeroPage,
    ZeroPageX,
    ZeroPageY,
    Relative,
    Absolute,
    AbsoluteX,
    AbsoluteY,
    Indirect,
    IndirectX,
    IndirectY,
}

/// Instruction mnemonics: the official set, the documented unofficial LAX, SAX, DCP, ISB,
/// SLO, RLA, SRE, RRA, and `Undefined` for opcodes that run as a one-cycle NOP.
#[allow(non_camel_case_types)]
#[derive(PartialEq, Eq, Structural, Debug, Clone, Copy)]
pub enum Instruction {
    ADC,
    SBC,
    AND,
    ORA,
    EOR,
    ASL,
    LSR,
    ROL,
    ROR,
    BCC,
    BCS,
    BEQ,
    BNE,
    BVC,
    BVS,
    BPL,
    BMI,
    BIT,
    JMP,
    JSR,
    RTS,
    BRK,
    RTI,
    CMP,
    CPX,
    CPY,
    INC,
    DEC,
    INX,
    DEX,
    INY,
    DEY,
    CLC,
    SEC,
    CLI,
    SEI,
    CLD,
    SED,
    CLV,
    LDA,
    LDX,
    LDY,
    STA,
    STX,
    STY,
    TAX,
    TXA,
    TAY,
    TYA,
    TSX,
    TXS,
    PHA,
    PLA,
    PHP,
    PLP,
    NOP,
    LAX,
    SAX,
    DCP,
    ISB,
    SLO,
    RLA,
    SRE,
    RRA,
    Undefined,
}

/// The opcode table: addressing mode and instruction of each of the 256 opcodes. The
/// opcodes that neither the official set nor the documented unofficial instructions
/// use are `Undefined`.
pub open spec fn opcode_entry(op: u8) -> (AddressingMode, Instruction) {
    match op {
        0x00 => (AddressingMode::Implied, Instruction::BRK),
        0x01 => (AddressingMode::IndirectX, Instruction::ORA),
        0x02 => (AddressingMode::Implied, Instruction::Undefined),
        0x03 => (AddressingMode::IndirectX, Instruction::SLO),
        0x04 => (AddressingMode::ZeroPage, Instruction::NOP),
        0x05 => (AddressingMode::ZeroPage, Instruction::ORA),
        0x06 => (AddressingMode::ZeroPage, Instruction::ASL),
        0x07 => (AddressingMode::ZeroPage, Instruction::SLO),
        0x08 => (AddressingMode::Implied, Instruction::PHP),
        0x09 => (AddressingMode::Immediate, Instruction::ORA),
        0x0A => (AddressingMode::Accumulator, Instruction::ASL),
        0x0B => (AddressingMode::Implied, Instruction::Undefined),
        0x0C => (AddressingMode::Absolute, Instruction::NOP),
        0x0D => (AddressingMode::Absolute, Instruction::ORA),
        0x0E => (AddressingMode::Absolute, Instruction::ASL),
        0x0F => (AddressingMode::Absolute, Instruction::SLO),
        0x10 => (AddressingMode::Relative, Instruction::BPL),
        0x11 => (AddressingMode::IndirectY, Instruction::ORA),
        0x12 => (AddressingMode::Implied, Instruction::Undefined),
        0x13 => (AddressingMode::IndirectY, Instruction::SLO),
        0x14 => (AddressingMode::ZeroPageX, Instruction::NOP),
        0x15 => (AddressingMode::ZeroPageX, Instruction::ORA),
        0x16 => (AddressingMode::ZeroPageX, Instruction::ASL),
        0x17 => (AddressingMode::ZeroPageX, Instruction::SLO),
        0x18 => (AddressingMode::Implied, Instruction::CLC),
        0x19 => (AddressingMode::AbsoluteY, Instruction::ORA),
        0x1A => (AddressingMode::Implied, Instruction::NOP),
        0x1B => (AddressingMode::AbsoluteY, Instruction::SLO),
        0x1C => (AddressingMode::AbsoluteX, Instruction::NOP),
        0x1D => (AddressingMode::AbsoluteX, Instruction::ORA),
        0x1E => (AddressingMode::AbsoluteX, Instruction::ASL),
        0x1F => (AddressingMode::AbsoluteX, Instruction::SLO),
        0x20 => (AddressingMode::Absolute, Instruction::JSR),
        0x21 => (AddressingMode::IndirectX, Instruction::AND),
        0x22 => (AddressingMode::Implied, Instruction::Undefined),
        0x23 => (AddressingMode::IndirectX, Instruction::RLA),
        0x24 => (AddressingMode::ZeroPage, Instruction::BIT),
        0x25 => (AddressingMode::ZeroPage, Instruction::AND),
        0x26 => (AddressingMode::ZeroPage, Instruction::ROL),
        0x27 => (AddressingMode::ZeroPage, Instruction::RLA),
        0x28 => (AddressingMode::Implied, Instruction::PLP),
        0x29 => (AddressingMode::Immediate, Instruction::AND),
        0x2A => (AddressingMode::Accumulator, Instruction::ROL),
        0x2B => (AddressingMode::Implied, Instruction::Undefined),
        0x2C => (AddressingMode::Absolute, Instruction::BIT),
        0x2D => (AddressingMode::Absolute, Instruction::AND),
        0x2E => (AddressingMode::Absolute, Instruction::ROL),
        0x2F => (AddressingMode::Absolute, Instruction::RLA),
        0x30 => (AddressingMode::Relative, Instruction::BMI),
        0x31 => (AddressingMode::IndirectY, Instruction::AND),
        0x32 => (AddressingMode::Implied, Instruction::Undefined),
        0x33 => (AddressingMode::IndirectY, Instruction::RLA),
        0x34 => (AddressingMode::ZeroPageX, Instruction::NOP),
        0x35 => (AddressingMode::ZeroPageX, Instruction::AND),
        0x36 => (AddressingMode::ZeroPageX, Instruction::ROL),
        0x37 => (AddressingMode::ZeroPageX, Instruction::RLA),
        0x38 => (AddressingMode::Implied, Instruction::SEC),
        0x39 => (AddressingMode::AbsoluteY, Instruction::AND),
        0x3A => (AddressingMode::Implied, Instruction::NOP),
        0x3B => (AddressingMode::AbsoluteY, Instruction::RLA),
        0x3C => (AddressingMode::AbsoluteX, Instruction::NOP),
        0x3D => (AddressingMode::AbsoluteX, Instruction::AND),
        0x3E => (AddressingMode::AbsoluteX, Instruction::ROL),
        0x3F => (AddressingMode::AbsoluteX, Instruction::RLA),
        0x40 => (AddressingMode::Implied, Instruction::RTI),
        0x41 => (AddressingMode::IndirectX, Instruction::EOR),
        0x42 => (AddressingMode::Implied, Instruction::Undefined),
        0x43 => (AddressingMode::IndirectX, Instruction::SRE),
        0x44 => (AddressingMode::ZeroPage, Instruction::NOP),
        0x45 => (AddressingMode::ZeroPage, Instruction::EOR),
        0x46 => (AddressingMode::ZeroPage, Instruction::LSR),
        0x47 => (AddressingMode::ZeroPage, Instruction::SRE),
        0x48 => (AddressingMode::Implied, Instruction::PHA),
        0x49 => (AddressingMode::Immediate, Instruction::EOR),
        0x4A => (AddressingMode::Accumulator, Instruction::LSR),
        0x4B => (AddressingMode::Implied, Instruction::Undefined),
        0x4C => (AddressingMode::Absolute, Instruction::JMP),
        0x4D => (AddressingMode::Absolute, Instruction::EOR),
        0x4E => (AddressingMode::Absolute, Instruction::LSR),
        0x4F => (AddressingMode::Absolute, Instruction::SRE),
        0x50 => (AddressingMode::Relative, Instruction::BVC),
        0x51 => (AddressingMode::IndirectY, Instruction::EOR),
        0x52 => (AddressingMode::Implied, Instruction::Undefined),
        0x53 => (AddressingMode::IndirectY, Instruction::SRE),
        0x54 => (AddressingMode::ZeroPageX, Instruction::NOP),
        0x55 => (AddressingMode::ZeroPageX, Instruction::EOR),
        0x56 => (AddressingMode::ZeroPageX, Instruction::LSR),
        0x57 => (AddressingMode::ZeroPageX, Instruction::SRE),
        0x58 => (AddressingMode::Implied, Instruction::CLI),
        0x59 => (AddressingMode::AbsoluteY, Instruction::EOR),
        0x5A => (AddressingMode::Implied, Instruction::NOP),
        0x5B => (AddressingMode::AbsoluteY, Instruction::SRE),
        0x5C => (AddressingMode::AbsoluteX, Instruction::NOP),
        0x5D => (AddressingMode::AbsoluteX, Instruction::EOR),
        0x5E => (AddressingMode::AbsoluteX, Instruction::LSR),
        0x5F => (AddressingMode::AbsoluteX, Instruction::SRE),
        0x60 => (AddressingMode::Implied, Instruction::RTS),
        0x61 => (AddressingMode::IndirectX, Instruction::ADC),
        0x62 => (AddressingMode::Implied, Instruction::Undefined),
        0x63 => (AddressingMode::IndirectX, Instruction::RRA),
        0x64 => (AddressingMode::ZeroPage, Instruction::NOP),
        0x65 => (AddressingMode::ZeroPage, Instruction::ADC),
        0x66 => (AddressingMode::ZeroPage, Instruction::ROR),
        0x67 => (AddressingMode::ZeroPage, Instruction::RRA),
        0x68 => (AddressingMode::Implied, Instruction::PLA),
        0x69 => (AddressingMode::Immediate, Instruction::ADC),
        0x6A => (AddressingMode::Accumulator, Instruction::ROR),
        0x6B => (AddressingMode::Implied, Instruction::Undefined),
        0x6C => (AddressingMode::Indirect, Instruction::JMP),
        0x6D => (AddressingMode::Absolute, Instruction::ADC),
        0x6E => (AddressingMode::Absolute, Instruction::ROR),
        0x6F => (AddressingMode::Absolute, Instruction::RRA),
        0x70 => (AddressingMode::Relative, Instruction::BVS),
        0x71 => (AddressingMode::IndirectY, Instruction::ADC),
        0x72 => (AddressingMode::Implied, Instruction::Undefined),
        0x73 => (AddressingMode::IndirectY, Instruction::RRA),
        0x74 => (AddressingMode::ZeroPageX, Instruction::NOP),
        0x75 => (AddressingMode::ZeroPageX, Instruction::ADC),
        0x76 => (AddressingMode::ZeroPageX, Instruction::ROR),
        0x77 => (AddressingMode::ZeroPageX, Instruction::RRA),
        0x78 => (AddressingMode::Implied, Instruction::SEI),
        0x79 => (AddressingMode::AbsoluteY, Instruction::ADC),
        0x7A => (AddressingMode::Implied, Instruction::NOP),
        0x7B => (AddressingMode::AbsoluteY, Instruction::RRA),
        0x7C => (AddressingMode::AbsoluteX, Instruction::NOP),
        0x7D => (AddressingMode::AbsoluteX, Instruction::ADC),
        0x7E => (AddressingMode::AbsoluteX, Instruction::ROR),
        0x7F => (AddressingMode::AbsoluteX, Instruction::RRA),
        0x80 => (AddressingMode::Immediate, Instruction::NOP),
        0x81 => (AddressingMode::IndirectX, Instruction::STA),
        0x82 => (AddressingMode::Immediate, Instruction::NOP),
        0x83 => (AddressingMode::IndirectX, Instruction::SAX),
        0x84 => (AddressingMode::ZeroPage, Instruction::STY),
        0x85 => (AddressingMode::ZeroPage, Instruction::STA),
        0x86 => (AddressingMode::ZeroPage, Instruction::STX),
        0x87 => (AddressingMode::ZeroPage, Instruction::SAX),
        0x88 => (AddressingMode::Implied, Instruction::DEY),
        0x89 => (AddressingMode::Immediate, Instruction::NOP),
        0x8A => (AddressingMode::Implied, Instruction::TXA),
        0x8B => (AddressingMode::Implied, Instruction::Undefined),
        0x8C => (AddressingMode::Absolute, Instruction::STY),
        0x8D => (AddressingMode::Absolute, Instruction::STA),
        0x8E => (AddressingMode::Absolute, Instruction::STX),
        0x8F => (AddressingMode::Absolute, Instruction::SAX),
        0x90 => (AddressingMode::Relative, Instruction::BCC),
        0x91 => (AddressingMode::IndirectY, Instruction::STA),
        0x92 => (AddressingMode::Implied, Instruction::Undefined),
        0x93 => (AddressingMode::Implied, Instruction::Undefined),
        0x94 => (AddressingMode::ZeroPageX, Instruction::STY),
        0x95 => (AddressingMode::ZeroPageX, Instruction::STA),
        0x96 => (AddressingMode::ZeroPageY, Instruction::STX),
        0x97 => (AddressingMode::ZeroPageY, Instruction::SAX),
        0x98 => (AddressingMode::Implied, Instruction::TYA),
        0x99 => (AddressingMode::AbsoluteY, Instruction::STA),
        0x9A => (AddressingMode::Implied, Instruction::TXS),
        0x9B => (AddressingMode::Implied, Instruction::Undefined),
        0x9C => (AddressingMode::Implied, Instruction::Undefined),
        0x9D => (AddressingMode::AbsoluteX, Instruction::STA),
        0x9E => (AddressingMode::Implied, Instruction::Undefined),
        0x9F => (AddressingMode::Implied, Instruction::Undefined),
        0xA0 => (AddressingMode::Immediate, Instruction::LDY),
        0xA1 => (AddressingMode::IndirectX, Instruction::LDA),
        0xA2 => (AddressingMode::Immediate, Instruction::LDX),
        0xA3 => (AddressingMode::IndirectX, Instruction::LAX),
        0xA4 => (AddressingMode::ZeroPage, Instruction::LDY),
        0xA5 => (AddressingMode::ZeroPage, Instruction::LDA),
        0xA6 => (AddressingMode::ZeroPage, Instruction::LDX),
        0xA7 => (AddressingMode::ZeroPage, Instruction::LAX),
        0xA8 => (AddressingMode::Implied, Instruction::TAY),
        0xA9 => (AddressingMode::Immediate, Instruction::LDA),
        0xAA => (AddressingMode::Implied, Instruction::TAX),
        0xAB => (AddressingMode::Implied, Instruction::Undefined),
        0xAC => (AddressingMode::Absolute, Instruction::LDY),
        0xAD => (AddressingMode::Absolute, Instruction::LDA),
        0xAE => (AddressingMode::Absolute, Instruction::LDX),
        0xAF => (AddressingMode::Absolute, Instruction::LAX),
        0xB0 => (AddressingMode::Relative, Instruction::BCS),
        0xB1 => (AddressingMode::IndirectY, Instruction::LDA),
        0xB2 => (AddressingMode::Implied, Instruction::Undefined),
        0xB3 => (AddressingMode::IndirectY, Instruction::LAX),
        0xB4 => (AddressingMode::ZeroPageX, Instruction::LDY),
        0xB5 => (AddressingMode::ZeroPageX, Instruction::LDA),
        0xB6 => (AddressingMode::ZeroPageY, Instruction::LDX),
        0xB7 => (AddressingMode::ZeroPageY, Instruction::LAX),
        0xB8 => (AddressingMode::Implied, Instruction::CLV),
        0xB9 => (AddressingMode::AbsoluteY, Instruction::LDA),
        0xBA => (AddressingMode::Implied, Instruction::TSX),
        0xBB => (AddressingMode::Implied, Instruction::Undefined),
        0xBC => (AddressingMode::AbsoluteX, Instruction::LDY),
        0xBD => (AddressingMode::AbsoluteX, Instruction::LDA),
        0xBE => (AddressingMode::AbsoluteY, Instruction::LDX),
        0xBF => (AddressingMode::AbsoluteY, Instruction::LAX),
        0xC0 => (AddressingMode::Immediate, Instruction::CPY),
        0xC1 => (AddressingMode::IndirectX, Instruction::CMP),
        0xC2 => (AddressingMode::Immediate, Instruction::NOP),
        0xC3 => (AddressingMode::IndirectX, Instruction::DCP),
        0xC4 => (AddressingMode::ZeroPage, Instruction::CPY),
        0xC5 => (AddressingMode::ZeroPage, Instruction::CMP),
        0xC6 => (AddressingMode::ZeroPage, Instruction::DEC),
        0xC7 => (AddressingMode::ZeroPage, Instruction::DCP),
        0xC8 => (AddressingMode::Implied, Instruction::INY),
        0xC9 => (AddressingMode::Immediate, Instruction::CMP),
        0xCA => (AddressingMode::Implied, Instruction::DEX),
        0xCB => (AddressingMode::Implied, Instruction::Undefined),
        0xCC => (AddressingMode::Absolute, Instruction::CPY),
        0xCD => (AddressingMode::Absolute, Instruction::CMP),
        0xCE => (AddressingMode::Absolute, Instruction::DEC),
        0xCF => (AddressingMode::Absolute, Instruction::DCP),
        0xD0 => (AddressingMode::Relative, Instruction::BNE),
        0xD1 => (AddressingMode::IndirectY, Instruction::CMP),
        0xD2 => (AddressingMode::Implied, Instruction::Undefined),
        0xD3 => (AddressingMode::IndirectY, Instruction::DCP),
        0xD4 => (AddressingMode::ZeroPageX, Instruction::NOP),
        0xD5 => (AddressingMode::ZeroPageX, Instruction::CMP),
        0xD6 => (AddressingMode::ZeroPageX, Instruction::DEC),
        0xD7 => (AddressingMode::ZeroPageX, Instruction::DCP),
        0xD8 => (AddressingMode::Implied, Instruction::CLD),
        0xD9 => (AddressingMode::AbsoluteY, Instruction::CMP),
        0xDA => (AddressingMode::Implied, Instruction::NOP),
        0xDB => (AddressingMode::AbsoluteY, Instruction::DCP),
        0xDC => (AddressingMode::AbsoluteX, Instruction::NOP),
        0xDD => (AddressingMode::AbsoluteX, Instruction::CMP),
        0xDE => (AddressingMode::AbsoluteX, Instruction::DEC),
        0xDF => (AddressingMode::AbsoluteX, Instruction::DCP),
        0xE0 => (AddressingMode::Immediate, Instruction::CPX),
        0xE1 => (AddressingMode::IndirectX, Instruction::SBC),
        0xE2 => (AddressingMode::Immediate, Instruction::NOP),
        0xE3 => (AddressingMode::IndirectX, Instruction::ISB),
        0xE4 => (AddressingMode::ZeroPage, Instruction::CPX),
        0xE5 => (AddressingMode::ZeroPage, Instruction::SBC),
        0xE6 => (AddressingMode::ZeroPage, Instruction::INC),
        0xE7 => (AddressingMode::ZeroPage, Instruction::ISB),
        0xE8 => (AddressingMode::Implied, Instruction::INX),
        0xE9 => (AddressingMode::Immediate, Instruction::SBC),
        0xEA => (AddressingMode::Implied, Instruction::NOP),
        0xEB => (AddressingMode::Immediate, Instruction::SBC),
        0xEC => (AddressingMode::Absolute, Instruction::CPX),
        0xED => (AddressingMode::Absolute, Instruction::SBC),
        0xEE => (AddressingMode::Absolute, Instruction::INC),
        0xEF => (AddressingMode::Absolute, Instruction::ISB),
        0xF0 => (AddressingMode::Relative, Instruction::BEQ),
        0xF1 => (AddressingMode::IndirectY, Instruction::SBC),
        0xF2 => (AddressingMode::Implied, Instruction::Undefined),
        0xF3 => (AddressingMode::IndirectY, Instruction::ISB),
        0xF4 => (AddressingMode::ZeroPageX, Instruction::NOP),
        0xF5 => (AddressingMode::ZeroPageX, Instruction::SBC),
        0xF6 => (AddressingMode::ZeroPageX, Instruction::INC),
        0xF7 => (AddressingMode::ZeroPageX, Instruction::ISB),
        0xF8 => (AddressingMode::Implied, Instruction::SED),
        0xF9 => (AddressingMode::AbsoluteY, Instruction::SBC),
        0xFA => (AddressingMode::Implied, Instruction::NOP),
        0xFB => (AddressingMode::AbsoluteY, Instruction::ISB),
        0xFC => (AddressingMode::AbsoluteX, Instruction::NOP),
        0xFD => (AddressingMode::AbsoluteX, Instruction::SBC),
        0xFE => (AddressingMode::AbsoluteX, Instruction::INC),
        _ => (AddressingMode::AbsoluteX, Instruction::ISB),

    }
}

/// Decodes an opcode through the table.
pub fn decode(op: u8) -> (r: (AddressingMode, Instruction))
    ensures
        r == opcode_entry(op),
        r.1 == Instruction::Undefined ==> r.0 == AddressingMode::Implied,
{
    match op {
        0x00 => (AddressingMode::Implied, Instruction::BRK),
        0x01 => (AddressingMode::IndirectX, Instruction::ORA),
        0x02 => (AddressingMode::Implied, Instruction::Undefined),
        0x03 => (AddressingMode::IndirectX, Instruction::SLO),
        0x04 => (AddressingMode::ZeroPage, Instruction::NOP),
        0x05 => (AddressingMode::ZeroPage, Instruction::ORA),
        0x06 => (AddressingMode::ZeroPage, Instruction::ASL),
        0x07 => (AddressingMode::ZeroPage, Instruction::SLO),
        0x08 => (AddressingMode::Implied, Instruction::PHP),
        0x09 => (AddressingMode::Immediate, Instruction::ORA),
        0x0A => (AddressingMode::Accumulator, Instruction::ASL),
        0x0B => (AddressingMode::Implied, Instruction::Undefined),
        0x0C => (AddressingMode::Absolute, Instruction::NOP),
        0x0D => (AddressingMode::Absolute, Instruction::ORA),
        0x0E => (AddressingMode::Absolute, Instruction::ASL),
        0x0F => (AddressingMode::Absolute, Instruction::SLO),
        0x10 => (AddressingMode::Relative, Instruction::BPL),
        0x11 => (AddressingMode::IndirectY, Instruction::ORA),
        0x12 => (AddressingMode::Implied, Instruction::Undefined),
        0x13 => (AddressingMode::IndirectY, Instruction::SLO),
        0x14 => (AddressingMode::ZeroPageX, Instruction::NOP),
        0x15 => (AddressingMode::ZeroPageX, Instruction::ORA),
        0x16 => (AddressingMode::ZeroPageX, Instruction::ASL),
        0x17 => (AddressingMode::ZeroPageX, Instruction::SLO),
        0x18 => (AddressingMode::Implied, Instruction::CLC),
        0x19 => (AddressingMode::AbsoluteY, Instruction::ORA),
        0x1A => (AddressingMode::Implied, Instruction::NOP),
        0x1B => (AddressingMode::AbsoluteY, Instruction::SLO),
        0x1C => (AddressingMode::AbsoluteX, Instruction::NOP),
        0x1D => (AddressingMode::AbsoluteX, Instruction::ORA),
        0x1E => (AddressingMode::AbsoluteX, Instruction::ASL),
        0x1F => (AddressingMode::AbsoluteX, Instruction::SLO),
        0x20 => (AddressingMode::Absolute, Instruction::JSR),
        0x21 => (AddressingMode::IndirectX, Instruction::AND),
        0x22 => (AddressingMode::Implied, Instruction::Undefined),
        0x23 => (AddressingMode::IndirectX, Instruction::RLA),
        0x24 => (AddressingMode::ZeroPage, Instruction::BIT),
        0x25 => (AddressingMode::ZeroPage, Instruction::AND),
        0x26 => (AddressingMode::ZeroPage, Instruction::ROL),
        0x27 => (AddressingMode::ZeroPage, Instruction::RLA),
        0x28 => (AddressingMode::Implied, Instruction::PLP),
        0x29 => (AddressingMode::Immediate, Instruction::AND),
        0x2A => (AddressingMode::Accumulator, Instruction::ROL),
        0x2B => (AddressingMode::Implied, Instruction::Undefined),
        0x2C => (AddressingMode::Absolute, Instruction::BIT),
        0x2D => (AddressingMode::Absolute, Instruction::AND),
        0x2E => (AddressingMode::Absolute, Instruction::ROL),
        0x2F => (AddressingMode::Absolute, Instruction::RLA),
        0x30 => (AddressingMode::Relative, Instruction::BMI),
        0x31 => (AddressingMode::IndirectY, Instruction::AND),
        0x32 => (AddressingMode::Implied, Instruction::Undefined),
        0x33 => (AddressingMode::IndirectY, Instruction::RLA),
        0x34 => (AddressingMode::ZeroPageX, Instruction::NOP),
        0x35 => (AddressingMode::ZeroPageX, Instruction::AND),
        0x36 => (AddressingMode::ZeroPageX, Instruction::ROL),
        0x37 => (AddressingMode::ZeroPageX, Instruction::RLA),
        0x38 => (AddressingMode::Implied, Instruction::SEC),
        0x39 => (AddressingMode::AbsoluteY, Instruction::AND),
        0x3A => (AddressingMode::Implied, Instruction::NOP),
        0x3B => (AddressingMode::AbsoluteY, Instruction::RLA),
        0x3C => (AddressingMode::AbsoluteX, Instruction::NOP),
        0x3D => (AddressingMode::AbsoluteX, Instruction::AND),
        0x3E => (AddressingMode::AbsoluteX, Instruction::ROL),
        0x3F => (AddressingMode::AbsoluteX, Instruction::RLA),
        0x40 => (AddressingMode::Implied, Instruction::RTI),
        0x41 => (AddressingMode::IndirectX, Instruction::EOR),
        0x42 => (AddressingMode::Implied, Instruction::Undefined),
        0x43 => (AddressingMode::IndirectX, Instruction::SRE),
        0x44 => (AddressingMode::ZeroPage, Instruction::NOP),
        0x45 => (AddressingMode::ZeroPage, Instruction::EOR),
        0x46 => (AddressingMode::ZeroPage, Instruction::LSR),
        0x47 => (AddressingMode::ZeroPage, Instruction::SRE),
        0x48 => (AddressingMode::Implied, Instruction::PHA),
        0x49 => (AddressingMode::Immediate, Instruction::EOR),
        0x4A => (AddressingMode::Accumulator, Instruction::LSR),
        0x4B => (AddressingMode::Implied, Instruction::Undefined),
        0x4C => (AddressingMode::Absolute, Instruction::JMP),
        0x4D => (AddressingMode::Absolute, Instruction::EOR),
        0x4E => (AddressingMode::Absolute, Instruction::LSR),
        0x4F => (AddressingMode::Absolute, Instruction::SRE),
        0x50 => (AddressingMode::Relative, Instruction::BVC),
        0x51 => (AddressingMode::IndirectY, Instruction::EOR),
        0x52 => (AddressingMode::Implied, Instruction::Undefined),
        0x53 => (AddressingMode::IndirectY, Instruction::SRE),
        0x54 => (AddressingMode::ZeroPageX, Instruction::NOP),
        0x55 => (AddressingMode::ZeroPageX, Instruction::EOR),
        0x56 => (AddressingMode::ZeroPageX, Instruction::LSR),
        0x57 => (AddressingMode::ZeroPageX, Instruction::SRE),
        0x58 => (AddressingMode::Implied, Instruction::CLI),
        0x59 => (AddressingMode::AbsoluteY, Instruction::EOR),
        0x5A => (AddressingMode::Implied, Instruction::NOP),
        0x5B => (AddressingMode::AbsoluteY, Instruction::SRE),
        0x5C => (AddressingMode::AbsoluteX, Instruction::NOP),
        0x5D => (AddressingMode::AbsoluteX, Instruction::EOR),
        0x5E => (AddressingMode::AbsoluteX, Instruction::LSR),
        0x5F => (AddressingMode::AbsoluteX, Instruction::SRE),
        0x60 => (AddressingMode::Implied, Instruction::RTS),
        0x61 => (AddressingMode::IndirectX, Instruction::ADC),
        0x62 => (AddressingMode::Implied, Instruction::Undefined),
        0x63 => (AddressingMode::IndirectX, Instruction::RRA),
        0x64 => (AddressingMode::ZeroPage, Instruction::NOP),
        0x65 => (AddressingMode::ZeroPage, Instruction::ADC),
        0x66 => (AddressingMode::ZeroPage, Instruction::ROR),
        0x67 => (AddressingMode::ZeroPage, Instruction::RRA),
        0x68 => (AddressingMode::Implied, Instruction::PLA),
        0x69 => (AddressingMode::Immediate, Instruction::ADC),
        0x6A => (AddressingMode::Accumulator, Instruction::ROR),
        0x6B => (AddressingMode::Implied, Instruction::Undefined),
        0x6C => (AddressingMode::Indirect, Instruction::JMP),
        0x6D => (AddressingMode::Absolute, Instruction::ADC),
        0x6E => (AddressingMode::Absolute, Instruction::ROR),
        0x6F => (AddressingMode::Absolute, Instruction::RRA),
        0x70 => (AddressingMode::Relative, Instruction::BVS),
        0x71 => (AddressingMode::IndirectY, Instruction::ADC),
        0x72 => (AddressingMode::Implied, Instruction::Undefined),
        0x73 => (AddressingMode::IndirectY, Instruction::RRA),
        0x74 => (AddressingMode::ZeroPageX, Instruction::NOP),
        0x75 => (AddressingMode::ZeroPageX, Instruction::ADC),
        0x76 => (AddressingMode::ZeroPageX, Instruction::ROR),
        0x77 => (AddressingMode::ZeroPageX, Instruction::RRA),
        0x78 => (AddressingMode::Implied, Instruction::SEI),
        0x79 => (AddressingMode::AbsoluteY, Instruction::ADC),
        0x7A => (AddressingMode::Implied, Instruction::NOP),
        0x7B => (AddressingMode::AbsoluteY, Instruction::RRA),
        0x7C => (AddressingMode::AbsoluteX, Instruction::NOP),
        0x7D => (AddressingMode::AbsoluteX, Instruction::ADC),
        0x7E => (AddressingMode::AbsoluteX, Instruction::ROR),
        0x7F => (AddressingMode::AbsoluteX, Instruction::RRA),
        0x80 => (AddressingMode::Immediate, Instruction::NOP),
        0x81 => (AddressingMode::IndirectX, Instruction::STA),
        0x82 => (AddressingMode::Immediate, Instruction::NOP),
        0x83 => (AddressingMode::IndirectX, Instruction::SAX),
        0x84 => (AddressingMode::ZeroPage, Instruction::STY),
        0x85 => (AddressingMode::ZeroPage, Instruction::STA),
        0x86 => (AddressingMode::ZeroPage, Instruction::STX),
        0x87 => (AddressingMode::ZeroPage, Instruction::SAX),
        0x88 => (AddressingMode::Implied, Instruction::DEY),
        0x89 => (AddressingMode::Immediate, Instruction::NOP),
        0x8A => (AddressingMode::Implied, Instruction::TXA),
        0x8B => (AddressingMode::Implied, Instruction::Undefined),
        0x8C => (AddressingMode::Absolute, Instruction::STY),
        0x8D => (AddressingMode::Absolute, Instruction::STA),
        0x8E => (AddressingMode::Absolute, Instruction::STX),
        0x8F => (AddressingMode::Absolute, Instruction::SAX),
        0x90 => (AddressingMode::Relative, Instruction::BCC),
        0x91 => (AddressingMode::IndirectY, Instruction::STA),
        0x92 => (AddressingMode::Implied, Instruction::Undefined),
        0x93 => (AddressingMode::Implied, Instruction::Undefined),
        0x94 => (AddressingMode::ZeroPageX, Instruction::STY),
        0x95 => (AddressingMode::ZeroPageX, Instruction::STA),
        0x96 => (AddressingMode::ZeroPageY, Instruction::STX),
        0x97 => (AddressingMode::ZeroPageY, Instruction::SAX),
        0x98 => (AddressingMode::Implied, Instruction::TYA),
        0x99 => (AddressingMode::AbsoluteY, Instruction::STA),
        0x9A => (AddressingMode::Implied, Instruction::TXS),
        0x9B => (AddressingMode::Implied, Instruction::Undefined),
        0x9C => (AddressingMode::Implied, Instruction::Undefined),
        0x9D => (AddressingMode::AbsoluteX, Instruction::STA),
        0x9E => (AddressingMode::Implied, Instruction::Undefined),
        0x9F => (AddressingMode::Implied, Instruction::Undefined),
        0xA0 => (AddressingMode::Immediate, Instruction::LDY),
        0xA1 => (AddressingMode::IndirectX, Instruction::LDA),
        0xA2 => (AddressingMode::Immediate, Instruction::LDX),
        0xA3 => (AddressingMode::IndirectX, Instruction::LAX),
        0xA4 => (AddressingMode::ZeroPage, Instruction::LDY),
        0xA5 => (AddressingMode::ZeroPage, Instruction::LDA),
        0xA6 => (AddressingMode::ZeroPage, Instruction::LDX),
        0xA7 => (AddressingMode::ZeroPage, Instruction::LAX),
        0xA8 => (AddressingMode::Implied, Instruction::TAY),
        0xA9 => (AddressingMode::Immediate, Instruction::LDA),
        0xAA => (AddressingMode::Implied, Instruction::TAX),
        0xAB => (AddressingMode::Implied, Instruction::Undefined),
        0xAC => (AddressingMode::Absolute, Instruction::LDY),
        0xAD => (AddressingMode::Absolute, Instruction::LDA),
        0xAE => (AddressingMode::Absolute, Instruction::LDX),
        0xAF => (AddressingMode::Absolute, Instruction::LAX),
        0xB0 => (AddressingMode::Relative, Instruction::BCS),
        0xB1 => (AddressingMode::IndirectY, Instruction::LDA),
        0xB2 => (AddressingMode::Implied, Instruction::Undefined),
        0xB3 => (AddressingMode::IndirectY, Instruction::LAX),
        0xB4 => (AddressingMode::ZeroPageX, Instruction::LDY),
        0xB5 => (AddressingMode::ZeroPageX, Instruction::LDA),
        0xB6 => (AddressingMode::ZeroPageY, Instruction::LDX),
        0xB7 => (AddressingMode::ZeroPageY, Instruction::LAX),
        0xB8 => (AddressingMode::Implied, Instruction::CLV),
        0xB9 => (AddressingMode::AbsoluteY, Instruction::LDA),
        0xBA => (AddressingMode::Implied, Instruction::TSX),
        0xBB => (AddressingMode::Implied, Instruction::Undefined),
        0xBC => (AddressingMode::AbsoluteX, Instruction::LDY),
        0xBD => (AddressingMode::AbsoluteX, Instruction::LDA),
        0xBE => (AddressingMode::AbsoluteY, Instruction::LDX),
        0xBF => (AddressingMode::AbsoluteY, Instruction::LAX),
        0xC0 => (AddressingMode::Immediate, Instruction::CPY),
        0xC1 => (AddressingMode::IndirectX, Instruction::CMP),
        0xC2 => (AddressingMode::Immediate, Instruction::NOP),
        0xC3 => (AddressingMode::IndirectX, Instruction::DCP),
        0xC4 => (AddressingMode::ZeroPage, Instruction::CPY),
        0xC5 => (AddressingMode::ZeroPage, Instruction::CMP),
        0xC6 => (AddressingMode::ZeroPage, Instruction::DEC),
        0xC7 => (AddressingMode::ZeroPage, Instruction::DCP),
        0xC8 => (AddressingMode::Implied, Instruction::INY),
        0xC9 => (AddressingMode::Immediate, Instruction::CMP),
        0xCA => (AddressingMode::Implied, Instruction::DEX),
        0xCB => (AddressingMode::Implied, Instruction::Undefined),
        0xCC => (AddressingMode::Absolute, Instruction::CPY),
        0xCD => (AddressingMode::Absolute, Instruction::CMP),
        0xCE => (AddressingMode::Absolute, Instruction::DEC),
        0xCF => (AddressingMode::Absolute, Instruction::DCP),
        0xD0 => (AddressingMode::Relative, Instruction::BNE),
        0xD1 => (AddressingMode::IndirectY, Instruction::CMP),
        0xD2 => (AddressingMode::Implied, Instruction::Undefined),
        0xD3 => (AddressingMode::IndirectY, Instruction::DCP),
        0xD4 => (AddressingMode::ZeroPageX, Instruction::NOP),
        0xD5 => (AddressingMode::ZeroPageX, Instruction::CMP),
        0xD6 => (AddressingMode::ZeroPageX, Instruction::DEC),
        0xD7 => (AddressingMode::ZeroPageX, Instruction::DCP),
        0xD8 => (AddressingMode::Implied, Instruction::CLD),
        0xD9 => (AddressingMode::AbsoluteY, Instruction::CMP),
        0xDA => (AddressingMode::Implied, Instruction::NOP),
        0xDB => (AddressingMode::AbsoluteY, Instruction::DCP),
        0xDC => (AddressingMode::AbsoluteX, Instruction::NOP),
        0xDD => (AddressingMode::AbsoluteX, Instruction::CMP),
        0xDE => (AddressingMode::AbsoluteX, Instruction::DEC),
        0xDF => (AddressingMode::AbsoluteX, Instruction::DCP),
        0xE0 => (AddressingMode::Immediate, Instruction::CPX),
        0xE1 => (AddressingMode::IndirectX, Instruction::SBC),
        0xE2 => (AddressingMode::Immediate, Instruction::NOP),
        0xE3 => (AddressingMode::IndirectX, Instruction::ISB),
        0xE4 => (AddressingMode::ZeroPage, Instruction::CPX),
        0xE5 => (AddressingMode::ZeroPage, Instruction::SBC),
        0xE6 => (AddressingMode::ZeroPage, Instruction::INC),
        0xE7 => (AddressingMode::ZeroPage, Instruction::ISB),
        0xE8 => (AddressingMode::Implied, Instruction::INX),
        0xE9 => (AddressingMode::Immediate, Instruction::SBC),
        0xEA => (AddressingMode::Implied, Instruction::NOP),
        0xEB => (AddressingMode::Immediate, Instruction::SBC),
        0xEC => (AddressingMode::Absolute, Instruction::CPX),
        0xED => (AddressingMode::Absolute, Instruction::SBC),
        0xEE => (AddressingMode::Absolute, Instruction::INC),
        0xEF => (AddressingMode::Absolute, Instruction::ISB),
        0xF0 => (AddressingMode::Relative, Instruction::BEQ),
        0xF1 => (AddressingMode::IndirectY, Instruction::SBC),
        0xF2 => (AddressingMode::Implied, Instruction::Undefined),
        0xF3 => (AddressingMode::IndirectY, Instruction::ISB),
        0xF4 => (AddressingMode::ZeroPageX, Instruction::NOP),
        0xF5 => (AddressingMode::ZeroPageX, Instruction::SBC),
        0xF6 => (AddressingMode::ZeroPageX, Instruction::INC),
        0xF7 => (AddressingMode::ZeroPageX, Instruction::ISB),
        0xF8 => (AddressingMode::Implied, Instruction::SED),
        0xF9 => (AddressingMode::AbsoluteY, Instruction::SBC),
        0xFA => (AddressingMode::Implied, Instruction::NOP),
        0xFB => (AddressingMode::AbsoluteY, Instruction::ISB),
        0xFC => (AddressingMode::AbsoluteX, Instruction::NOP),
        0xFD => (AddressingMode::AbsoluteX, Instruction::SBC),
        0xFE => (AddressingMode::AbsoluteX, Instruction::INC),
        _ => (AddressingMode::AbsoluteX, Instruction::ISB),

    }
}

/// Sign bit of a byte.
pub open spec fn negative(v: u8) -> bool {
    v >= 128
}

/// Result of an addition with carry: the byte, the carry out and the signed overflow.
pub open spec fn adc_spec(a: u8, operand: u8, carry: bool) -> (u8, bool, bool) {
    let sum = a + operand + if carry {
        1int
    } else {
        0
    };
    let r = (sum % 256) as u8;
    (r, sum > 255, negative(a) == negative(operand) && negative(r) != negative(a))
}

/// ADC: `a + operand + carry`; carry on unsigned overflow, V on signed overflow.
pub fn adc(a: u8, operand: u8, carry: bool) -> (r: (u8, bool, bool))
    ensures
        r == adc_spec(a, operand, carry),
{
    let sum: u16 = a as u16 + operand as u16 + if carry {
        1
    } else {
        0
    };
    let r = (sum % 256) as u8;
    (r, sum > 255, (a >= 128) == (operand >= 128) && (r >= 128) != (a >= 128))
}

/// SBC: ADC of the bitwise complement of the operand; carry is the inverted borrow.
pub fn sbc(a: u8, operand: u8, carry: bool) -> (r: (u8, bool, bool))
    ensures
        r == adc_spec(a, (255 - operand) as u8, carry),
        r.0 == ((a - operand - if carry {
            0int
        } else {
            1
        }) % 256) as u8,
        r.1 == (a - operand - if carry {
            0int
        } else {
            1
        } >= 0),
{
    adc(a, 255 - operand, carry)
}

/// CMP/CPX/CPY: the difference `reg - operand` (for N and Z) and carry `reg >= operand`.
pub fn compare(reg: u8, operand: u8) -> (r: (u8, bool))
    ensures
        r.0 == ((reg - operand) % 256) as u8,
        r.1 == (reg >= operand),
{
    (reg.wrapping_sub(operand), reg >= operand)
}

/// ASL: shift left; carry takes bit 7.
pub fn asl(v: u8) -> (r: (u8, bool))
    ensures
        r.0 == (v * 2) % 256,
        r.1 == (v >= 128),
{
    (((v as u16 * 2) % 256) as u8, v >= 128)
}

/// LSR: shift right; carry takes bit 0.
pub fn lsr(v: u8) -> (r: (u8, bool))
    ensures
        r.0 == v / 2,
        r.1 == (v % 2 == 1),
{
    (v / 2, v % 2 == 1)
}

/// ROL: rotate left through carry.
pub fn rol(v: u8, carry: bool) -> (r: (u8, bool))
    ensures
        r.0 == (v * 2 + if carry {
            1int
        } else {
            0
        }) % 256,
        r.1 == (v >= 128),
{
    (((v as u16 * 2 + if carry {
        1
    } else {
        0
    }) % 256) as u8, v >= 128)
}

/// ROR: rotate right through carry.
pub fn ror(v: u8, carry: bool) -> (r: (u8, bool))
    ensures
        r.0 == v / 2 + if carry {
            128int
        } else {
            0
        },
        r.1 == (v % 2 == 1),
{
    (v / 2 + if carry {
        128
    } else {
        0
    }, v % 2 == 1)
}

/// Where indirect JMP reads the high byte of its target: the byte after the pointer,
/// wrapping within the pointer's page.
pub open spec fn indirect_high(ptr: int) -> int {
    (ptr / 256) * 256 + (ptr % 256 + 1) % 256
}

/// Address of the high byte of an indirect JMP target: the 6502 does not carry into the
/// high byte of the pointer, so it stays in the pointer's page.
pub fn indirect_high_addr(ptr: u16) -> (r: u16)
    ensures
        r == (ptr / 256) * 256 + (ptr % 256 + 1) % 256,
{
    (ptr / 256) * 256 + (ptr % 256 + 1) % 256
}

/// Target of a relative branch from `next` with a signed 8-bit offset.
pub open spec fn relative_target(next: int, offset: u8) -> int {
    (next + if offset >= 128 {
        offset - 256
    } else {
        offset as int
    }) % 0x10000
}

/// Target of a relative branch from `next_pc` (the address after the operand) with a signed
/// 8-bit offset, and whether it lies on another page.
pub fn branch_target(next_pc: u16, offset: u8) -> (r: (u16, bool))
    ensures
        r.0 == relative_target(next_pc as int, offset),
        r.1 == (r.0 / 256 != next_pc / 256),
{
    let target: u16 = if offset >= 128 {
        next_pc.wrapping_sub(256 - offset as u16)
    } else {
        next_pc.wrapping_add(offset as u16)
    };
    (target, target / 256 != next_pc / 256)
}

/// The processor status register P. Bit 5 has no flag: it always reads as 1.
#[derive(PartialEq, Eq, Structural, Debug, Clone, Copy)]
pub struct ProcessorStatusRegister {
    pub n: bool,
    pub v: bool,
    pub b: bool,
    pub d: bool,
    pub i: bool,
    pub z: bool,
    pub c: bool,
}

impl ProcessorStatusRegister {
    /// The byte of P with bit 4 given by `b`.
    pub open spec fn byte_with(&self, b: bool) -> int {
        flag_value(self.n, 7) + flag_value(self.v, 6) + 32 + flag_value(b, 4) + flag_value(self.d, 3)
            + flag_value(self.i, 2) + flag_value(self.z, 1) + flag_value(self.c, 0)
    }

    /// Reads P: bit 5 set, bit 4 from the B flag.
    pub fn read(&self) -> (r: u8)
        ensures
            r == self.byte_with(self.b),
            bit(r, 5),
            bit(r, 4) == self.b,
    {
        self.byte_for_push(self.b)
    }

    /// The copy of P that goes on the stack: bit 5 set and bit 4 as given (clear for
    /// hardware interrupts, set for BRK and PHP).
    #[verifier::rlimit(80)]
    pub fn byte_for_push(&self, b: bool) -> (r: u8)
        ensures
            r == self.byte_with(b),
            bit(r, 5),
            bit(r, 4) == b,
            bit(r, 7) == self.n,
            bit(r, 6) == self.v,
            bit(r, 3) == self.d,
            bit(r, 2) == self.i,
            bit(r, 1) == self.z,
            bit(r, 0) == self.c,
    {
        let mut value: u8 = 0b0010_0000;
        if self.n {
            value = value + 0b1000_0000;
        }
        if self.v {
            value = value + 0b0100_0000;
        }
        if b {
            value = value + 0b0001_0000;
        }
        if self.d {
            value = value + 0b0000_1000;
        }
        if self.i {
            value = value + 0b0000_0100;
        }
        if self.z {
            value = value + 0b0000_0010;
        }
        if self.c {
            value = value + 0b0000_0001;
        }
        value
    }

    /// Loads P from a byte; bit 5 is ignored.
    pub fn write(&mut self, value: u8)
        ensures
            final(self).n == bit(value, 7),
            final(self).v == bit(value, 6),
            final(self).b == bit(value, 4),
            final(self).d == bit(value, 3),
            final(self).i == bit(value, 2),
            final(self).z == bit(value, 1),
            final(self).c == bit(value, 0),
    {
        self.n = test_bit(value, 7);
        self.v = test_bit(value, 6);
        self.b = test_bit(value, 4);
        self.d = test_bit(value, 3);
        self.i = test_bit(value, 2);
        self.z = test_bit(value, 1);
        self.c = test_bit(value, 0);
    }
}

/// The programmer-visible registers that instructions compute on.
#[derive(PartialEq, Eq, Structural, Debug, Clone, Copy)]
pub struct Regs {
    pub a: u8,
    pub x: u8,
    pub y: u8,
    pub p: ProcessorStatusRegister,
}

/// Sets N and Z from a result.
fn with_nz(r: Regs, v: u8) -> (o: Regs)
    ensures
        o == (Regs { p: ProcessorStatusRegister { n: v >= 128, z: v == 0, ..r.p }, ..r }),
{
    Regs { p: ProcessorStatusRegister { n: v >= 128, z: v == 0, ..r.p }, ..r }
}

/// Register effect of an instruction that reads an operand: `r` before, `o` after.
pub open spec fn read_effect(inst: Instruction, r: Regs, operand: u8, o: Regs) -> bool {
    &&& inst != Instruction::LDX && inst != Instruction::LAX ==> o.x == r.x
    &&& inst != Instruction::LDY ==> o.y == r.y
    &&& !(inst == Instruction::ADC || inst == Instruction::SBC || inst == Instruction::AND || inst
        == Instruction::ORA || inst == Instruction::EOR || inst == Instruction::LDA || inst == Instruction::LAX)
        ==> o.a == r.a
    &&& o.p.i == r.p.i
    &&& o.p.d == r.p.d
    &&& o.p.b == r.p.b
    &&& inst != Instruction::ADC && inst != Instruction::SBC && inst != Instruction::CMP && inst
            != Instruction::CPX && inst != Instruction::CPY ==> o.p.c == r.p.c
    &&& inst != Instruction::ADC && inst != Instruction::SBC && inst != Instruction::BIT ==> o.p.v == r.p.v
    &&& inst == Instruction::ADC ==> (o.a, o.p.c, o.p.v) == adc_spec(r.a, operand, r.p.c)
    &&& inst == Instruction::SBC ==> (o.a, o.p.c, o.p.v) == adc_spec(r.a, (255 - operand) as u8, r.p.c)
    &&& inst == Instruction::AND ==> o.a == r.a & operand
    &&& inst == Instruction::ORA ==> o.a == r.a | operand
    &&& inst == Instruction::EOR ==> o.a == r.a ^ operand
    &&& inst == Instruction::LDA ==> o.a == operand
    &&& inst == Instruction::LDX ==> o.x == operand && o.p.n == negative(operand) && o.p.z == (operand == 0)
    &&& inst == Instruction::LDY ==> o.y == operand && o.p.n == negative(operand) && o.p.z == (operand == 0)
    &&& inst == Instruction::LAX ==> o.a == operand && o.x == operand
    &&& inst == Instruction::CMP ==> o.p.n == negative(((r.a - operand) % 256) as u8) && o.p.c == (r.a
        >= operand) && o.p.z == (r.a == operand) && o.a == r.a
    &&& inst == Instruction::CPX ==> o.p.n == negative(((r.x - operand) % 256) as u8) && o.p.c == (r.x
        >= operand) && o.p.z == (r.x == operand) && o.x == r.x
    &&& inst == Instruction::CPY ==> o.p.n == negative(((r.y - operand) % 256) as u8) && o.p.c == (r.y
        >= operand) && o.p.z == (r.y == operand) && o.y == r.y
    &&& inst == Instruction::BIT ==> o.p.n == bit(operand, 7) && o.p.v == bit(operand, 6) && o.p.z == (r.a
            & operand == 0) && o.a == r.a
    &&& inst == Instruction::ADC || inst == Instruction::SBC || inst == Instruction::AND || inst
            == Instruction::ORA || inst == Instruction::EOR || inst == Instruction::LDA || inst
            == Instruction::LAX ==> o.p.n == negative(o.a) && o.p.z == (o.a == 0)
}

/// Instructions that write a register to memory: STA, STX, STY and SAX (A AND X).
pub open spec fn is_store_instruction(inst: Instruction) -> bool {
    inst == Instruction::STA || inst == Instruction::STX || inst == Instruction::STY || inst == Instruction::SAX
}

/// The byte a store instruction writes.
pub open spec fn store_value(inst: Instruction, r: Regs) -> u8 {
    if inst == Instruction::STA {
        r.a
    } else if inst == Instruction::STX {
        r.x
    } else if inst == Instruction::STY {
        r.y
    } else {
        r.a & r.x
    }
}

/// Instructions whose execution reads an operand and sets registers.
pub open spec fn is_read_instruction(inst: Instruction) -> bool {
    inst == Instruction::ADC || inst == Instruction::SBC || inst == Instruction::AND || inst == Instruction::ORA
        || inst == Instruction::EOR || inst == Instruction::CMP || inst == Instruction::CPX || inst
        == Instruction::CPY || inst == Instruction::BIT || inst == Instruction::LDA || inst == Instruction::LDX
        || inst == Instruction::LDY || inst == Instruction::LAX
}

pub fn apply_read(inst: Instruction, r: Regs, operand: u8) -> (o: Regs)
    ensures
        read_effect(inst, r, operand, o),
{
    match inst {
        Instruction::ADC => {
            let (a, c, v) = adc(r.a, operand, r.p.c);
            with_nz(Regs { a, p: ProcessorStatusRegister { c, v, ..r.p }, ..r }, a)
        },
        Instruction::SBC => {
            let (a, c, v) = sbc(r.a, operand, r.p.c);
            with_nz(Regs { a, p: ProcessorStatusRegister { c, v, ..r.p }, ..r }, a)
        },
        Instruction::AND => with_nz(Regs { a: r.a & operand, ..r }, r.a & operand),
        Instruction::ORA => with_nz(Regs { a: r.a | operand, ..r }, r.a | operand),
        Instruction::EOR => with_nz(Regs { a: r.a ^ operand, ..r }, r.a ^ operand),
        Instruction::LDA => with_nz(Regs { a: operand, ..r }, operand),
        Instruction::LDX => with_nz(Regs { x: operand, ..r }, operand),
        Instruction::LDY => with_nz(Regs { y: operand, ..r }, operand),
        Instruction::LAX => with_nz(Regs { a: operand, x: operand, ..r }, operand),
        Instruction::CMP | Instruction::CPX | Instruction::CPY => {
            let reg = if inst == Instruction::CMP {
                r.a
            } else if inst == Instruction::CPX {
                r.x
            } else {
                r.y
            };
            let (diff, carry) = compare(reg, operand);
            let o = with_nz(r, diff);
            Regs { p: ProcessorStatusRegister { c: carry, ..o.p }, ..o }
        },
        Instruction::BIT => Regs {
            p: ProcessorStatusRegister {
                n: test_bit(operand, 7),
                v: test_bit(operand, 6),
                z: r.a & operand == 0,
                ..r.p
            },
            ..r
        },
        _ => r,
    }
}

/// Effect of a read-modify-write instruction on `v`: the new value `value`, and the
/// registers `r` before and `o` after. Shifts and rotates set the carry, N and Z follow
/// the new value; the combined unofficial instructions (SLO, RLA, SRE, RRA, DCP, ISB) then
/// apply ORA, AND, EOR, ADC, CMP or SBC to it.
pub open spec fn modify_effect(inst: Instruction, r: Regs, v: u8, value: u8, o: Regs) -> bool {
    &&& value == apply_modify_spec_value(inst, r.p.c, v)
    &&& o.p.i == r.p.i
    &&& o.p.d == r.p.d
    &&& inst == Instruction::ASL || inst == Instruction::SLO ==> value == (v * 2) % 256
    &&& inst == Instruction::LSR || inst == Instruction::SRE ==> value == v / 2
    &&& inst == Instruction::ROL || inst == Instruction::RLA ==> value == (v * 2 + if r.p.c {
            1int
        } else {
            0
        }) % 256
    &&& inst == Instruction::ROR || inst == Instruction::RRA ==> value == v / 2 + if r.p.c {
            128int
        } else {
            0
        }
    &&& inst == Instruction::ASL || inst == Instruction::ROL ==> o.p.c == (v >= 128)
    &&& inst == Instruction::LSR || inst == Instruction::ROR ==> o.p.c == (v % 2 == 1)
    &&& inst == Instruction::INC || inst == Instruction::ISB ==> value == (v + 1) % 256
    &&& inst == Instruction::DEC || inst == Instruction::DCP ==> value == (v + 255) % 256
    &&& inst == Instruction::ASL || inst == Instruction::LSR || inst == Instruction::ROL || inst
            == Instruction::ROR || inst == Instruction::INC || inst == Instruction::DEC ==> o.p.n
            == negative(value) && o.p.z == (value == 0) && o.a == r.a && o.x == r.x && o.y == r.y
    &&& inst == Instruction::SLO ==> o.a == r.a | value && o.p.c == (v >= 128)
    &&& inst == Instruction::RLA ==> o.a == r.a & value && o.p.c == (v >= 128)
    &&& inst == Instruction::SRE ==> o.a == r.a ^ value && o.p.c == (v % 2 == 1)
    &&& inst == Instruction::RRA ==> (o.a, o.p.c, o.p.v) == adc_spec(r.a, value, v % 2 == 1)
    &&& inst == Instruction::DCP ==> o.p.c == (r.a >= value) && o.p.z == (r.a == value) && o.a == r.a
    &&& inst == Instruction::ISB ==> (o.a, o.p.c, o.p.v) == adc_spec(r.a, (255 - value) as u8, r.p.c)
}

pub fn apply_modify(inst: Instruction, r: Regs, v: u8) -> (o: (u8, Regs))
    ensures
        modify_effect(inst, r, v, o.0, o.1),
{
    let (value, carried) = if inst == Instruction::ASL || inst == Instruction::SLO {
        let (x, c) = asl(v);
        (x, shifted_carry_exec(r, c))
    } else if inst == Instruction::LSR || inst == Instruction::SRE {
        let (x, c) = lsr(v);
        (x, shifted_carry_exec(r, c))
    } else if inst == Instruction::ROL || inst == Instruction::RLA {
        let (x, c) = rol(v, r.p.c);
        (x, shifted_carry_exec(r, c))
    } else if inst == Instruction::ROR || inst == Instruction::RRA {
        let (x, c) = ror(v, r.p.c);
        (x, shifted_carry_exec(r, c))
    } else if inst == Instruction::INC || inst == Instruction::ISB {
        (v.wrapping_add(1), r)
    } else {
        (v.wrapping_sub(1), r)
    };
    let flagged = with_nz(carried, value);
    let regs = if inst == Instruction::SLO {
        apply_read(Instruction::ORA, flagged, value)
    } else if inst == Instruction::RLA {
        apply_read(Instruction::AND, flagged, value)
    } else if inst == Instruction::SRE {
        apply_read(Instruction::EOR, flagged, value)
    } else if inst == Instruction::RRA {
        apply_read(Instruction::ADC, flagged, value)
    } else if inst == Instruction::DCP {
        apply_read(Instruction::CMP, flagged, value)
    } else if inst == Instruction::ISB {
        apply_read(Instruction::SBC, flagged, value)
    } else {
        flagged
    };
    (value, regs)
}

/// Registers with the carry replaced.
spec fn shifted_carry(r: Regs, c: bool) -> Regs {
    Regs { p: ProcessorStatusRegister { c, ..r.p }, ..r }
}

fn shifted_carry_exec(r: Regs, c: bool) -> (o: Regs)
    ensures
        o == shifted_carry(r, c),
{
    Regs { p: ProcessorStatusRegister { c, ..r.p }, ..r }
}

/// Condition of a branch instruction on the flags.
pub open spec fn branch_condition(inst: Instruction, p: ProcessorStatusRegister) -> bool {
    match inst {
        Instruction::BCC => !p.c,
        Instruction::BCS => p.c,
        Instruction::BEQ => p.z,
        Instruction::BNE => !p.z,
        Instruction::BVC => !p.v,
        Instruction::BVS => p.v,
        Instruction::BPL => !p.n,
        Instruction::BMI => p.n,
        _ => false,
    }
}

fn branch_taken(inst: Instruction, p: ProcessorStatusRegister) -> (r: bool)
    ensures
        r == branch_condition(inst, p),
{
    match inst {
        Instruction::BCC => !p.c,
        Instruction::BCS => p.c,
        Instruction::BEQ => p.z,
        Instruction::BNE => !p.z,
        Instruction::BVC => !p.v,
        Instruction::BVS => p.v,
        Instruction::BPL => !p.n,
        Instruction::BMI => p.n,
        _ => false,
    }
}

/// The increment, decrement and transfer instructions.
pub open spec fn is_transfer_instruction(inst: Instruction) -> bool {
    inst == Instruction::INX || inst == Instruction::DEX || inst == Instruction::INY || inst == Instruction::DEY
        || inst == Instruction::TAX || inst == Instruction::TAY || inst == Instruction::TXA || inst
        == Instruction::TYA || inst == Instruction::TSX || inst == Instruction::TXS
}

/// The flags after a flag instruction (CLC, SEC, CLI, SEI, CLD, SED, CLV); other
/// instructions leave them.
pub open spec fn flag_effect(inst: Instruction, p: ProcessorStatusRegister) -> ProcessorStatusRegister {
    match inst {
        Instruction::CLC => ProcessorStatusRegister { c: false, ..p },
        Instruction::SEC => ProcessorStatusRegister { c: true, ..p },
        Instruction::CLI => ProcessorStatusRegister { i: false, ..p },
        Instruction::SEI => ProcessorStatusRegister { i: true, ..p },
        Instruction::CLD => ProcessorStatusRegister { d: false, ..p },
        Instruction::SED => ProcessorStatusRegister { d: true, ..p },
        Instruction::CLV => ProcessorStatusRegister { v: false, ..p },
        _ => p,
    }
}

/// Register effect of the flag instructions CLC, SEC, CLI, SEI, CLD, SED and CLV.
pub fn apply_flag_instruction(inst: Instruction, p: ProcessorStatusRegister) -> (o: ProcessorStatusRegister)
    ensures
        o == flag_effect(inst, p),
        inst == Instruction::CLC ==> o == (ProcessorStatusRegister { c: false, ..p }),
        inst == Instruction::SEC ==> o == (ProcessorStatusRegister { c: true, ..p }),
        inst == Instruction::CLI ==> o == (ProcessorStatusRegister { i: false, ..p }),
        inst == Instruction::SEI ==> o == (ProcessorStatusRegister { i: true, ..p }),
        inst == Instruction::CLD ==> o == (ProcessorStatusRegister { d: false, ..p }),
        inst == Instruction::SED ==> o == (ProcessorStatusRegister { d: true, ..p }),
        inst == Instruction::CLV ==> o == (ProcessorStatusRegister { v: false, ..p }),
        !(inst == Instruction::CLC || inst == Instruction::SEC || inst == Instruction::CLI || inst
            == Instruction::SEI || inst == Instruction::CLD || inst == Instruction::SED || inst
            == Instruction::CLV) ==> o == p,
{
    match inst {
        Instruction::CLC => ProcessorStatusRegister { c: false, ..p },
        Instruction::SEC => ProcessorStatusRegister { c: true, ..p },
        Instruction::CLI => ProcessorStatusRegister { i: false, ..p },
        Instruction::SEI => ProcessorStatusRegister { i: true, ..p },
        Instruction::CLD => ProcessorStatusRegister { d: false, ..p },
        Instruction::SED => ProcessorStatusRegister { d: true, ..p },
        Instruction::CLV => ProcessorStatusRegister { v: false, ..p },
        _ => p,
    }
}

/// Register effect of the register instructions: increments and decrements of X and Y and
/// the transfers. Returns the registers and the stack pointer.
/// Effect of a register instruction: registers `r` and stack pointer `sp` before, `o`
/// and `osp` after.
pub open spec fn transfer_effect(inst: Instruction, r: Regs, sp: u8, o: Regs, osp: u8) -> bool {
    &&& !is_transfer_instruction(inst) ==> o == r && osp == sp
    &&& inst != Instruction::TXS ==> osp == sp
    &&& inst == Instruction::TXS ==> osp == r.x && o == r
    &&& inst == Instruction::INX ==> o.x == (r.x + 1) % 256 && o.a == r.a && o.y == r.y
    &&& inst == Instruction::DEX ==> o.x == (r.x + 255) % 256 && o.a == r.a && o.y == r.y
    &&& inst == Instruction::INY ==> o.y == (r.y + 1) % 256 && o.a == r.a && o.x == r.x
    &&& inst == Instruction::DEY ==> o.y == (r.y + 255) % 256 && o.a == r.a && o.x == r.x
    &&& inst == Instruction::TAX ==> o.x == r.a && o.a == r.a && o.y == r.y
    &&& inst == Instruction::TAY ==> o.y == r.a && o.a == r.a && o.x == r.x
    &&& inst == Instruction::TXA ==> o.a == r.x && o.x == r.x && o.y == r.y
    &&& inst == Instruction::TYA ==> o.a == r.y && o.x == r.x && o.y == r.y
    &&& inst == Instruction::TSX ==> o.x == sp && o.a == r.a && o.y == r.y
    &&& inst == Instruction::INX || inst == Instruction::DEX || inst == Instruction::TAX || inst
            == Instruction::TSX ==> o.p == (ProcessorStatusRegister { n: o.x >= 128, z: o.x == 0, ..r.p })
    &&& inst == Instruction::INY || inst == Instruction::DEY || inst == Instruction::TAY
            ==> o.p == (ProcessorStatusRegister { n: o.y >= 128, z: o.y == 0, ..r.p })
    &&& inst == Instruction::TXA || inst == Instruction::TYA ==> o.p == (ProcessorStatusRegister {
            n: o.a >= 128,
            z: o.a == 0,
            ..r.p
        })
}

pub fn apply_transfer(inst: Instruction, r: Regs, sp: u8) -> (o: (Regs, u8))
    ensures
        transfer_effect(inst, r, sp, o.0, o.1),
{
    match inst {
        Instruction::INX => {
            let x = r.x.wrapping_add(1);
            (with_nz(Regs { x, ..r }, x), sp)
        },
        Instruction::DEX => {
            let x = r.x.wrapping_sub(1);
            (with_nz(Regs { x, ..r }, x), sp)
        },
        Instruction::INY => {
            let y = r.y.wrapping_add(1);
            (with_nz(Regs { y, ..r }, y), sp)
        },
        Instruction::DEY => {
            let y = r.y.wrapping_sub(1);
            (with_nz(Regs { y, ..r }, y), sp)
        },
        Instruction::TAX => (with_nz(Regs { x: r.a, ..r }, r.a), sp),
        Instruction::TAY => (with_nz(Regs { y: r.a, ..r }, r.a), sp),
        Instruction::TXA => (with_nz(Regs { a: r.x, ..r }, r.x), sp),
        Instruction::TYA => (with_nz(Regs { a: r.y, ..r }, r.y), sp),
        Instruction::TSX => (with_nz(Regs { x: sp, ..r }, sp), sp),
        Instruction::TXS => (r, r.x),
        _ => (r, sp),
    }
}

/// CPU addresses that answer from memory (work RAM, extended RAM, PRG) without side effects.
pub open spec fn memory_addr(a: int) -> bool {
    a < 0x2000 || 0x6000 <= a < 0x10000
}

/// The read-modify-write instructions.
pub open spec fn is_modify_instruction(inst: Instruction) -> bool {
    inst == Instruction::ASL || inst == Instruction::LSR || inst == Instruction::ROL || inst == Instruction::ROR
        || inst == Instruction::INC || inst == Instruction::DEC || inst == Instruction::SLO || inst
        == Instruction::RLA || inst == Instruction::SRE || inst == Instruction::RRA || inst == Instruction::DCP
        || inst == Instruction::ISB
}

/// The relative branches.
pub open spec fn is_branch_instruction(inst: Instruction) -> bool {
    inst == Instruction::BCC || inst == Instruction::BCS || inst == Instruction::BEQ || inst == Instruction::BNE
        || inst == Instruction::BVC || inst == Instruction::BVS || inst == Instruction::BPL || inst
        == Instruction::BMI
}

/// The one-cycle flag, register and no-operation instructions.
pub open spec fn is_implied_instruction(inst: Instruction) -> bool {
    is_transfer_instruction(inst) || inst == Instruction::CLC || inst == Instruction::SEC || inst
        == Instruction::CLI || inst == Instruction::SEI || inst == Instruction::CLD || inst == Instruction::SED
        || inst == Instruction::CLV || inst == Instruction::NOP
}

/// Micro-step state of the interpreter.
#[derive(PartialEq, Eq, Structural, Debug, Clone, Copy)]
pub enum CpuState {
    Reset,
    Nmi,
    Irq,
    ReadOpcode,
    ReadOperand,
    ExecuteInstruction,
}

/// The 6502 core: registers, the interpreter's micro-step state and the CPU bus.
pub struct Cpu {
    a: u8,
    x: u8,
    y: u8,
    pc: u16,
    sp: u8,
    p: ProcessorStatusRegister,
    bus: Bus,
    op: u8,
    mode: AddressingMode,
    instruction: Instruction,
    state: CpuState,
    step: u8,
    addr_l: u8,
    addr_h: u8,
    immediate_operand: u8,
    is_immediate: bool,
    is_accumulator: bool,
    reset: bool,
    nmi: bool,
    irq: bool,
    addressing_overflow: bool,
    latch: u8,
    suspend_cycle: u16,
}

impl Cpu {
    pub closed spec fn wf(&self) -> bool {
        &&& self.bus.wf()
        &&& self.step < 8
    }

    pub closed spec fn pc_reg(&self) -> u16 {
        self.pc
    }

    pub closed spec fn sp_reg(&self) -> u8 {
        self.sp
    }

    pub closed spec fn a_reg(&self) -> u8 {
        self.a
    }

    pub closed spec fn x_reg(&self) -> u8 {
        self.x
    }

    pub closed spec fn y_reg(&self) -> u8 {
        self.y
    }

    /// The decoded instruction in progress.
    pub closed spec fn instruction_kind(&self) -> Instruction {
        self.instruction
    }

    /// The registers A, X, Y and P.
    pub open spec fn regs_view(&self) -> Regs {
        Regs { a: self.a_reg(), x: self.x_reg(), y: self.y_reg(), p: self.flags() }
    }

    /// The operand of the instruction in progress: the immediate byte, or None when it
    /// comes from memory.
    pub closed spec fn immediate(&self) -> Option<u8> {
        if self.is_immediate {
            Some(self.immediate_operand)
        } else {
            None
        }
    }

    /// The effective address of the instruction in progress.
    pub closed spec fn effective_addr(&self) -> int {
        addr_of(self.addr_h, self.addr_l)
    }

    /// The addressing mode of the instruction in progress.
    pub closed spec fn mode_kind(&self) -> AddressingMode {
        self.mode
    }

    /// The micro-step counter within the current state.
    pub closed spec fn micro_step(&self) -> int {
        self.step as int
    }

    /// True when the instruction in progress works on the accumulator.
    pub closed spec fn accumulator_mode(&self) -> bool {
        self.is_accumulator
    }

    /// True when indexing or a taken branch crossed a page.
    pub closed spec fn page_crossed(&self) -> bool {
        self.addressing_overflow
    }

    /// True when the fetch step takes an interrupt instead of an opcode: a pending reset
    /// or NMI, or (with I clear) a pending IRQ or a high APU IRQ line.
    pub open spec fn interrupt_taken(&self, apu_irq: bool) -> bool {
        self.pending_reset() || self.pending_nmi() || (!self.flags().i && (self.pending_irq() || apu_irq))
    }

    /// Everything but the three interrupt requests is the same in both states.
    pub open spec fn same_except_requests(&self, o: &Cpu) -> bool {
        &&& self.pc_reg() == o.pc_reg()
        &&& self.sp_reg() == o.sp_reg()
        &&& self.regs_view() == o.regs_view()
        &&& self.bus_state() == o.bus_state()
        &&& self.suspend() == o.suspend()
        &&& self.state() == o.state()
        &&& self.micro_step() == o.micro_step()
        &&& self.instruction_kind() == o.instruction_kind()
        &&& self.mode_kind() == o.mode_kind()
        &&& self.immediate() == o.immediate()
        &&& self.effective_addr() == o.effective_addr()
        &&& self.opcode_reg() == o.opcode_reg()
        &&& self.accumulator_mode() == o.accumulator_mode()
        &&& self.page_crossed() == o.page_crossed()
    }

    /// What one fetch step does: an interrupt is taken in the order reset, NMI, IRQ and
    /// nothing else changes; otherwise the opcode at PC is read and decoded, PC passes it
    /// (and an immediate operand), and the next state follows from the addressing mode.
    /// An undefined opcode takes this one step only.
    pub open spec fn fetch_effect(o: Cpu, n: Cpu, rom: &Rom, apu_irq: bool) -> bool {
        let pc = o.pc_reg() as int;
        let (m, i) = opcode_entry(n.opcode_reg());
        &&& n.sp_reg() == o.sp_reg()
        &&& n.regs_view() == o.regs_view()
        &&& n.bus_state().wram() == o.bus_state().wram()
        &&& n.bus_state().ext_ram() == o.bus_state().ext_ram()
        &&& n.suspend() == o.suspend()
        &&& n.micro_step() == 0
        &&& o.interrupt_taken(apu_irq) ==> {
            &&& n.pc_reg() == o.pc_reg()
            &&& n.bus_state() == o.bus_state()
            &&& o.pending_reset() ==> n.state() == CpuState::Reset && !n.pending_reset()
                && n.pending_nmi() == o.pending_nmi()
            &&& !o.pending_reset() && o.pending_nmi() ==> n.state() == CpuState::Nmi && !n.pending_nmi()
            &&& !o.pending_reset() && !o.pending_nmi() ==> n.state() == CpuState::Irq && !n.pending_irq()
        }
        &&& !o.interrupt_taken(apu_irq) ==> {
            &&& n.pending_reset() == o.pending_reset()
            &&& n.pending_nmi() == o.pending_nmi()
            &&& (pc < 0x2000 || pc >= 0x6000) ==> n.opcode_reg() == o.bus_state().peek_value(rom, pc)
            &&& n.instruction_kind() == i
            &&& n.mode_kind() == m
            &&& i == Instruction::Undefined ==> n.state() == CpuState::ReadOpcode && n.pc_reg() == (pc + 1)
                % 0x10000
            &&& i != Instruction::Undefined && (m == AddressingMode::Accumulator || m == AddressingMode::Implied
                || m == AddressingMode::Relative) ==> n.state() == CpuState::ExecuteInstruction && n.pc_reg()
                == (pc + 1) % 0x10000 && n.immediate() is None && n.accumulator_mode() == (m
                == AddressingMode::Accumulator)
            &&& i != Instruction::Undefined && m == AddressingMode::Immediate ==> {
                let q = (pc + 1) % 0x10000;
                &&& n.state() == CpuState::ExecuteInstruction
                &&& n.pc_reg() == (pc + 2) % 0x10000
                &&& n.immediate() is Some
                &&& (q < 0x2000 || q >= 0x6000) ==> n.immediate() == Some(o.bus_state().peek_value(rom, q))
            }
            &&& i != Instruction::Undefined && !(m == AddressingMode::Accumulator || m == AddressingMode::Implied
                || m == AddressingMode::Relative || m == AddressingMode::Immediate) ==> n.state()
                == CpuState::ReadOperand && n.pc_reg() == (pc + 1) % 0x10000 && n.immediate() is None
                && !n.accumulator_mode()
        }
    }

    /// One execution step of a reading instruction (one cycle): registers as `read_effect`
    /// gives them for the immediate byte or the byte at the effective address.
    pub open spec fn read_step(o: Cpu, n: Cpu, rom: &Rom, done: bool) -> bool {
        let i = o.instruction_kind();
        let ea = o.effective_addr();
        is_read_instruction(i) ==> {
            &&& done
            &&& n.pc_reg() == o.pc_reg()
            &&& n.sp_reg() == o.sp_reg()
            &&& n.bus_state().wram() == o.bus_state().wram()
            &&& o.immediate() matches Some(v) ==> read_effect(i, o.regs_view(), v, n.regs_view())
            &&& o.immediate() is None && memory_addr(ea) ==> read_effect(
                i,
                o.regs_view(),
                o.bus_state().peek_value(rom, ea),
                n.regs_view(),
            )
        }
    }

    /// One execution step of a store (one cycle): the register value goes to the effective
    /// address; a store to $4014 starts a 513-cycle DMA stall.
    pub open spec fn store_step(o: Cpu, n: Cpu, done: bool) -> bool {
        let i = o.instruction_kind();
        let ea = o.effective_addr();
        is_store_instruction(i) ==> {
            &&& done
            &&& n.pc_reg() == o.pc_reg()
            &&& n.sp_reg() == o.sp_reg()
            &&& n.regs_view() == o.regs_view()
            &&& ea < 0x2000 ==> n.bus_state().wram() == o.bus_state().wram().update(
                ea % 0x800,
                store_value(i, o.regs_view()),
            )
            &&& o.suspend() == 0 ==> n.suspend() == if ea == 0x4014 {
                crate::bus::DMA_CYCLES as int
            } else {
                0
            }
        }
    }

    /// One execution step of a branch. Step 0 reads the offset: not taken ends the
    /// instruction at the next address (2 cycles in all); taken moves PC to the target.
    /// Step 1 ends it when the target is on the next instruction's page (3 cycles); else
    /// step 2 ends it (4 cycles).
    pub open spec fn branch_step(o: Cpu, n: Cpu, rom: &Rom, done: bool) -> bool {
        let i = o.instruction_kind();
        let pc = o.pc_reg() as int;
        let next = (pc + 1) % 0x10000;
        is_branch_instruction(i) ==> {
            &&& n.sp_reg() == o.sp_reg()
            &&& n.regs_view() == o.regs_view()
            &&& n.bus_state().wram() == o.bus_state().wram()
            &&& o.micro_step() == 0 && !branch_condition(i, o.flags()) ==> done && n.pc_reg() == next
            &&& o.micro_step() == 0 && branch_condition(i, o.flags()) ==> {
                &&& !done
                &&& n.page_crossed() == (n.pc_reg() / 256 != next / 256)
                &&& memory_addr(pc) ==> n.pc_reg() == relative_target(next, o.bus_state().peek_value(rom, pc))
            }
            &&& o.micro_step() == 1 ==> done == !o.page_crossed() && n.pc_reg() == o.pc_reg()
                && n.page_crossed() == o.page_crossed()
            &&& o.micro_step() >= 2 ==> done && n.pc_reg() == o.pc_reg()
        }
    }

    /// One execution step of a read-modify-write instruction. On the accumulator it takes
    /// one cycle. On memory the first step latches the byte at the effective address and
    /// the second writes the new value.
    pub open spec fn modify_step(o: Cpu, n: Cpu, rom: &Rom, done: bool) -> bool {
        let i = o.instruction_kind();
        let ea = o.effective_addr();
        let latch = o.operand_latch();
        let value = apply_modify_spec_value(i, o.flags().c, latch);
        is_modify_instruction(i) ==> {
            &&& n.pc_reg() == o.pc_reg()
            &&& n.sp_reg() == o.sp_reg()
            &&& o.accumulator_mode() && (i == Instruction::ASL || i == Instruction::LSR || i == Instruction::ROL
                || i == Instruction::ROR) ==> done && n.bus_state().wram() == o.bus_state().wram()
                && modify_effect(i, o.regs_view(), o.a_reg(), n.a_reg(), Regs { a: o.a_reg(), ..n.regs_view() })
            &&& !o.accumulator_mode() && o.micro_step() == 0 ==> {
                &&& !done
                &&& n.regs_view() == o.regs_view()
                &&& n.bus_state().wram() == o.bus_state().wram()
                &&& memory_addr(ea) ==> n.operand_latch() == o.bus_state().peek_value(rom, ea)
            }
            &&& !o.accumulator_mode() && o.micro_step() != 0 ==> {
                &&& done
                &&& modify_effect(i, o.regs_view(), latch, value, n.regs_view())
                &&& ea < 0x2000 ==> n.bus_state().wram() == o.bus_state().wram().update(ea % 0x800, value)
            }
        }
    }

    /// One execution step of a flag, register or no-operation instruction (one cycle).
    pub open spec fn implied_step(o: Cpu, n: Cpu, done: bool) -> bool {
        let i = o.instruction_kind();
        is_implied_instruction(i) ==> {
            &&& done
            &&& n.pc_reg() == o.pc_reg()
            &&& n.bus_state() == o.bus_state()
            &&& transfer_effect(
                i,
                Regs { p: flag_effect(i, o.flags()), ..o.regs_view() },
                o.sp_reg(),
                n.regs_view(),
                n.sp_reg(),
            )
        }
    }

    /// The byte at offset `k` of the stack page, counted from SP + 1 (the next pop).
    pub open spec fn stack_top(&self, k: int) -> u8 {
        self.bus_state().wram()[0x100 + (self.sp_reg() + 1 + k) % 256]
    }

    /// One execution step of PHA, PHP, PLA or PLP. Pushes take 2 steps, pulls 3. PHP
    /// pushes P with bits 4 and 5 set; PLP loads P with B clear.
    pub open spec fn push_pull_step(o: Cpu, n: Cpu, done: bool) -> bool {
        let i = o.instruction_kind();
        let s = o.sp_reg() as int;
        let st = o.micro_step();
        let v = o.stack_top(0);
        &&& (i == Instruction::PHA || i == Instruction::PHP) ==> {
            &&& n.pc_reg() == o.pc_reg()
            &&& n.regs_view() == o.regs_view()
            &&& st == 0 ==> !done && n.sp_reg() == o.sp_reg() && n.bus_state().wram() == o.bus_state().wram()
            &&& st != 0 ==> done && n.sp_reg() == (s + 255) % 256 && n.bus_state().wram()
                == o.bus_state().wram().update(
                0x100 + s,
                if i == Instruction::PHA {
                    o.a_reg()
                } else {
                    o.flags().byte_with(true) as u8
                },
            )
        }
        &&& (i == Instruction::PLA || i == Instruction::PLP) ==> {
            &&& n.pc_reg() == o.pc_reg()
            &&& n.bus_state().wram() == o.bus_state().wram()
            &&& st < 2 ==> !done && n.sp_reg() == o.sp_reg() && n.regs_view() == o.regs_view()
            &&& st >= 2 ==> done && n.sp_reg() == (s + 1) % 256
            &&& st >= 2 && i == Instruction::PLA ==> n.regs_view() == (Regs {
                a: v,
                p: ProcessorStatusRegister { n: v >= 128, z: v == 0, ..o.flags() },
                ..o.regs_view()
            })
            &&& st >= 2 && i == Instruction::PLP ==> n.regs_view() == (Regs {
                p: ProcessorStatusRegister {
                    n: bit(v, 7),
                    v: bit(v, 6),
                    b: false,
                    d: bit(v, 3),
                    i: bit(v, 2),
                    z: bit(v, 1),
                    c: bit(v, 0),
                },
                ..o.regs_view()
            })
        }
    }

    /// One execution step of JSR (3 steps: push PCH, PCL of the return address - 1, jump),
    /// RTS (5 steps: two idle, pull PCL, PCH, then PC + 1), BRK (6 steps: skip the padding
    /// byte, push PCH, PCL and P with B set, set I and read $FFFE, read $FFFF and jump) and
    /// RTI (5 steps: two idle, pull P with B clear, PCL, PCH).
    pub open spec fn subroutine_step(o: Cpu, n: Cpu, rom: &Rom, done: bool) -> bool {
        let i = o.instruction_kind();
        let s = o.sp_reg() as int;
        let st = o.micro_step();
        let pc = o.pc_reg() as int;
        let low = o.effective_addr() % 256;
        &&& i == Instruction::JSR ==> {
            let ret = (pc + 0xFFFF) % 0x10000;
            &&& n.regs_view() == o.regs_view()
            &&& st == 0 ==> !done && n.pc_reg() == o.pc_reg() && n.sp_reg() == (s + 255) % 256
                && n.bus_state().wram() == o.bus_state().wram().update(0x100 + s, (ret / 256) as u8)
            &&& st == 1 ==> !done && n.pc_reg() == o.pc_reg() && n.sp_reg() == (s + 255) % 256
                && n.bus_state().wram() == o.bus_state().wram().update(0x100 + s, (ret % 256) as u8)
            &&& st >= 2 ==> done && n.pc_reg() == o.effective_addr() && n.sp_reg() == o.sp_reg()
        }
        &&& i == Instruction::RTS ==> {
            &&& n.regs_view() == o.regs_view()
            &&& n.bus_state().wram() == o.bus_state().wram()
            &&& st < 2 ==> !done && n.pc_reg() == o.pc_reg() && n.sp_reg() == o.sp_reg()
            &&& st == 2 ==> !done && n.sp_reg() == (s + 1) % 256 && n.effective_addr() % 256 == o.stack_top(0)
            &&& st == 3 ==> !done && n.sp_reg() == (s + 1) % 256 && n.effective_addr() == o.stack_top(0) as int
                * 256 + low
            &&& st >= 4 ==> done && n.pc_reg() == (o.effective_addr() + 1) % 0x10000 && n.sp_reg() == o.sp_reg()
        }
        &&& i == Instruction::BRK ==> {
            &&& st == 0 ==> !done && n.pc_reg() == (pc + 1) % 0x10000 && n.sp_reg() == o.sp_reg()
                && n.regs_view() == o.regs_view()
            &&& 1 <= st <= 3 ==> !done && n.pc_reg() == o.pc_reg() && n.regs_view() == o.regs_view()
                && n.sp_reg() == (s + 255) % 256 && n.bus_state().wram() == o.bus_state().wram().update(
                0x100 + s,
                if st == 1 {
                    (pc / 256) as u8
                } else if st == 2 {
                    (pc % 256) as u8
                } else {
                    o.flags().byte_with(true) as u8
                },
            )
            &&& st == 4 ==> n.bus_state().wram() == o.bus_state().wram() && n.pc_reg() == o.pc_reg()
            &&& st == 4 ==> !done && n.regs_view() == (Regs { p: ProcessorStatusRegister { i: true, ..o.flags() }, ..o.regs_view() })
                && n.effective_addr() % 256 == rom.prg_at(0xFFFE) && n.sp_reg() == o.sp_reg()
            &&& st >= 5 ==> done && n.pc_reg() == rom.prg_at(0xFFFF) as int * 256 + low && n.sp_reg() == o.sp_reg()
                && n.regs_view() == o.regs_view() && n.bus_state().wram() == o.bus_state().wram()
        }
        &&& i == Instruction::RTI ==> {
            let v = o.stack_top(0);
            &&& n.bus_state().wram() == o.bus_state().wram()
            &&& st < 2 ==> !done && n.pc_reg() == o.pc_reg() && n.sp_reg() == o.sp_reg()
            &&& st == 2 ==> !done && n.sp_reg() == (s + 1) % 256 && n.flags() == (ProcessorStatusRegister {
                n: bit(v, 7),
                v: bit(v, 6),
                b: false,
                d: bit(v, 3),
                i: bit(v, 2),
                z: bit(v, 1),
                c: bit(v, 0),
            })
            &&& st == 3 ==> !done && n.sp_reg() == (s + 1) % 256 && n.effective_addr() % 256 == v
            &&& st >= 4 ==> done && n.sp_reg() == (s + 1) % 256 && n.pc_reg() == v as int * 256 + low
        }
        &&& i == Instruction::JMP ==> done && n.pc_reg() == o.effective_addr()
    }

    /// What an execution step keeps: the instruction, its mode and operand, the opcode,
    /// the latched address (but for RTS, RTI and BRK, which latch return addresses and
    /// vectors), the page-cross flag (but for branches), and extended RAM unless a store or
    /// read-modify-write targets it.
    pub open spec fn execute_carry(o: Cpu, n: Cpu) -> bool {
        let i = o.instruction_kind();
        &&& n.instruction_kind() == i
        &&& n.mode_kind() == o.mode_kind()
        &&& n.immediate() == o.immediate()
        &&& n.accumulator_mode() == o.accumulator_mode()
        &&& n.opcode_reg() == o.opcode_reg()
        &&& !(i == Instruction::RTS || i == Instruction::RTI || i == Instruction::BRK) ==> n.effective_addr()
            == o.effective_addr()
        &&& !is_branch_instruction(i) ==> n.page_crossed() == o.page_crossed()
        &&& !((is_store_instruction(i) || is_modify_instruction(i)) && 0x6000 <= o.effective_addr() < 0x8000)
            ==> n.bus_state().ext_ram() == o.bus_state().ext_ram()
    }

    /// What one step in the execution state does: the step of the instruction's class,
    /// and whether it completed (back to the fetch state) or moves to its next step.
    pub open spec fn execute_effect(o: Cpu, n: Cpu, rom: &Rom) -> bool {
        let done = n.state() == CpuState::ReadOpcode;
        &&& done ==> n.micro_step() == 0
        &&& !done ==> n.state() == CpuState::ExecuteInstruction && n.micro_step() == o.micro_step() + 1
        &&& Cpu::execute_carry(o, n)
        &&& Cpu::read_step(o, n, rom, done)
        &&& Cpu::store_step(o, n, done)
        &&& Cpu::branch_step(o, n, rom, done)
        &&& Cpu::modify_step(o, n, rom, done)
        &&& Cpu::implied_step(o, n, done)
        &&& Cpu::push_pull_step(o, n, done)
        &&& Cpu::subroutine_step(o, n, rom, done)
    }

    /// One operand-fetch step before the instruction executes. Operand bytes are read at
    /// PC, which then advances; the effective address is built as the addressing mode says,
    /// with one more step when indexing crosses a page (absolute,X/Y and (zp),Y); (zp,X)
    /// and (zp),Y read their pointer from the zero page, wrapping within it.
    pub open spec fn operand_step(o: Cpu, n: Cpu, rom: &Rom, done: bool) -> bool {
        let m = o.mode_kind();
        let st = o.micro_step();
        let pc = o.pc_reg() as int;
        let next = (pc + 1) % 0x10000;
        let b = o.bus_state().peek_value(rom, pc) as int;
        let ea = o.effective_addr();
        let low = ea % 256;
        let wram = o.bus_state().wram();
        let idx = if m == AddressingMode::AbsoluteX || m == AddressingMode::ZeroPageX {
            o.x_reg() as int
        } else {
            o.y_reg() as int
        };
        &&& n.sp_reg() == o.sp_reg()
        &&& n.regs_view() == o.regs_view()
        &&& n.bus_state().wram() == wram
        &&& n.bus_state().ext_ram() == o.bus_state().ext_ram()
        &&& n.suspend() == o.suspend()
        &&& n.instruction_kind() == o.instruction_kind()
        &&& n.mode_kind() == m
        &&& n.immediate() == o.immediate()
        &&& n.opcode_reg() == o.opcode_reg()
        &&& m == AddressingMode::Absolute && st == 0 ==> !done && n.pc_reg() == next && (memory_addr(pc)
            ==> n.effective_addr() % 256 == b)
        &&& m == AddressingMode::Absolute && st >= 1 ==> done && (memory_addr(pc) ==> n.effective_addr() == b
            * 256 + low) && (o.instruction_kind() != Instruction::JMP ==> n.pc_reg() == next)
        &&& (m == AddressingMode::AbsoluteX || m == AddressingMode::AbsoluteY) && st == 0 ==> !done
            && n.pc_reg() == next && (memory_addr(pc) ==> n.effective_addr() % 256 == (b + idx) % 256
            && n.page_crossed() == (b + idx > 255))
        &&& (m == AddressingMode::AbsoluteX || m == AddressingMode::AbsoluteY) && st == 1 ==> done
            == !o.page_crossed() && n.pc_reg() == next && n.page_crossed() == o.page_crossed() && (memory_addr(
            pc,
        ) ==> n.effective_addr() == b * 256 + low)
        &&& (m == AddressingMode::AbsoluteX || m == AddressingMode::AbsoluteY) && st >= 2 ==> done && n.pc_reg()
            == o.pc_reg() && n.effective_addr() == ((ea / 256 + 1) % 256) * 256 + low
        &&& m == AddressingMode::ZeroPage ==> done && n.pc_reg() == next && (memory_addr(pc) ==> n.effective_addr()
            == b)
        &&& (m == AddressingMode::ZeroPageX || m == AddressingMode::ZeroPageY) && st == 0 ==> !done && n.pc_reg()
            == next && (memory_addr(pc) ==> n.effective_addr() == (b + idx) % 256)
        &&& (m == AddressingMode::ZeroPageX || m == AddressingMode::ZeroPageY) && st >= 1 ==> done && n.pc_reg()
            == o.pc_reg() && n.effective_addr() == ea
        &&& m == AddressingMode::Indirect && st == 0 ==> !done && n.pc_reg() == next && (memory_addr(pc)
            ==> n.effective_addr() % 256 == b)
        &&& m == AddressingMode::Indirect && st == 1 ==> !done && n.pc_reg() == next && (memory_addr(pc)
            ==> n.effective_addr() == b * 256 + low)
        &&& m == AddressingMode::IndirectX && st == 0 ==> !done && n.pc_reg() == next && (memory_addr(pc)
            ==> n.effective_addr() % 256 == (b + o.x_reg()) % 256)
        &&& m == AddressingMode::IndirectX && st == 1 ==> !done && n.pc_reg() == o.pc_reg() && n.effective_addr()
            == low
        &&& m == AddressingMode::IndirectX && st == 2 ==> !done && n.pc_reg() == o.pc_reg() && n.effective_addr()
            == wram[(low + 1) % 256] as int * 256 + wram[low] as int
        &&& m == AddressingMode::IndirectX && st >= 3 ==> done && n.pc_reg() == o.pc_reg() && n.effective_addr()
            == ea
        &&& m == AddressingMode::IndirectY && st == 0 ==> !done && n.pc_reg() == next && (memory_addr(pc)
            ==> n.effective_addr() % 256 == b)
        &&& m == AddressingMode::IndirectY && st == 1 ==> !done && n.pc_reg() == o.pc_reg() && n.effective_addr()
            == wram[(low + 1) % 256] as int * 256 + (wram[low] + o.y_reg()) % 256 && n.page_crossed() == (
        wram[low] + o.y_reg() > 255)
        &&& m == AddressingMode::IndirectY && st == 2 ==> done == !o.page_crossed() && n.pc_reg() == o.pc_reg()
            && n.effective_addr() == ea
        &&& m == AddressingMode::IndirectY && st >= 3 ==> done && n.pc_reg() == o.pc_reg() && n.effective_addr()
            == ((ea / 256 + 1) % 256) * 256 + low
    }

    /// One step in the operand-fetch state: `operand_step`, then either the next step, the
    /// execution state, or (for JMP) the next fetch.
    pub open spec fn operand_effect(o: Cpu, n: Cpu, rom: &Rom) -> bool {
        let done = n.state() != CpuState::ReadOperand;
        &&& !done ==> n.micro_step() == o.micro_step() + 1
        &&& done ==> n.micro_step() == 0 && (n.state() == CpuState::ExecuteInstruction || n.state()
            == CpuState::ReadOpcode && o.instruction_kind() == Instruction::JMP)
        &&& o.micro_step() < 4 ==> Cpu::operand_step(o, n, rom, done)
        &&& Cpu::jump_step(o, n, rom)
    }

    /// The last operand step of JMP: absolute JMP loads PC from its two operand bytes,
    /// indirect JMP from the pointer and `indirect_high` of it; both go to the fetch state.
    pub open spec fn jump_step(o: Cpu, n: Cpu, rom: &Rom) -> bool {
        let pc = o.pc_reg() as int;
        let ptr = o.effective_addr();
        o.instruction_kind() == Instruction::JMP ==> {
            &&& o.mode_kind() == AddressingMode::Absolute && o.micro_step() == 1 ==> n.state() == CpuState::ReadOpcode
                && (memory_addr(pc) ==> n.pc_reg() == o.bus_state().peek_value(rom, pc) as int * 256 + ptr % 256)
            &&& o.mode_kind() == AddressingMode::Indirect && o.micro_step() == 2 ==> n.state()
                == CpuState::ReadOpcode && (memory_addr(ptr) && memory_addr(indirect_high(ptr)) ==> n.pc_reg()
                == o.bus_state().peek_value(rom, indirect_high(ptr)) as int * 256 + o.bus_state().peek_value(
                rom,
                ptr,
            ))
        }
    }

    /// The byte a read-modify-write instruction read in its first step.
    pub closed spec fn operand_latch(&self) -> u8 {
        self.latch
    }

    /// The opcode of the current instruction.
    pub closed spec fn opcode_reg(&self) -> u8 {
        self.op
    }

    pub closed spec fn flags(&self) -> ProcessorStatusRegister {
        self.p
    }

    pub closed spec fn state(&self) -> CpuState {
        self.state
    }

    /// The CPU bus with work RAM and controller shift registers.
    pub closed spec fn bus_state(&self) -> Bus {
        self.bus
    }

    /// Cycles still to be stalled (stolen by OAM DMA).
    pub closed spec fn suspend(&self) -> int {
        self.suspend_cycle as int
    }

    pub closed spec fn pending_reset(&self) -> bool {
        self.reset
    }

    pub closed spec fn pending_nmi(&self) -> bool {
        self.nmi
    }

    pub closed spec fn pending_irq(&self) -> bool {
        self.irq
    }

    /// The byte of the stack page at offset `s`.
    pub open spec fn stack_at(&self, s: int) -> u8 {
        self.bus_state().wram()[0x100 + s]
    }

    /// A CPU at power-up: the first clock runs the reset sequence.
    pub fn new() -> (r: Cpu)
        ensures
            r.wf(),
            r.state() == CpuState::Reset,
            r.sp_reg() == 0xFD,
            r.flags().i,
            r.suspend() == 0,
            !r.pending_reset() && !r.pending_nmi() && !r.pending_irq(),
            r.bus_state().wram() == Seq::new(0x800, |i: int| 0u8),
    {
        Cpu {
            a: 0,
            x: 0,
            y: 0,
            pc: 0,
            sp: 0xFD,
            p: ProcessorStatusRegister { n: false, v: false, b: true, d: false, i: true, z: false, c: false },
            bus: Bus::new(),
            op: 0,
            mode: AddressingMode::Implied,
            instruction: Instruction::NOP,
            state: CpuState::Reset,
            step: 0,
            addr_l: 0,
            addr_h: 0,
            immediate_operand: 0,
            is_immediate: false,
            is_accumulator: false,
            reset: false,
            nmi: false,
            irq: false,
            addressing_overflow: false,
            latch: 0,
            suspend_cycle: 0,
        }
    }

    /// Requests a reset at the next instruction boundary.
    pub fn reset(&mut self)
        ensures
            final(self).pending_reset(),
            final(self).pending_nmi() == old(self).pending_nmi(),
            final(self).pending_irq() == old(self).pending_irq(),
            final(self).same_except_requests(old(self)),
            final(self).wf() == old(self).wf(),
    {
        self.reset = true;
    }

    /// Requests an NMI at the next instruction boundary.
    pub fn nmi(&mut self)
        ensures
            final(self).pending_nmi(),
            final(self).pending_reset() == old(self).pending_reset(),
            final(self).pending_irq() == old(self).pending_irq(),
            final(self).same_except_requests(old(self)),
            final(self).wf() == old(self).wf(),
    {
        self.nmi = true;
    }

    /// Requests an IRQ at the next instruction boundary (taken unless I is set).
    pub fn irq(&mut self)
        ensures
            final(self).pending_irq(),
            final(self).pending_reset() == old(self).pending_reset(),
            final(self).pending_nmi() == old(self).pending_nmi(),
            final(self).same_except_requests(old(self)),
            final(self).wf() == old(self).wf(),
    {
        self.irq = true;
    }

    /// The program counter.
    pub fn pc(&self) -> (r: u16)
        ensures
            r == self.pc_reg(),
    {
        self.pc
    }

    /// The stack pointer.
    pub fn sp(&self) -> (r: u8)
        ensures
            r == self.sp_reg(),
    {
        self.sp
    }

    /// The accumulator.
    pub fn a(&self) -> (r: u8)
        ensures
            r == self.a_reg(),
    {
        self.a
    }

    /// Index register X.
    pub fn x(&self) -> (r: u8)
        ensures
            r == self.x_reg(),
    {
        self.x
    }

    /// Index register Y.
    pub fn y(&self) -> (r: u8)
        ensures
            r == self.y_reg(),
    {
        self.y
    }

    /// The status register as a byte (bit 5 set).
    pub fn status(&self) -> (r: u8)
        ensures
            r == self.flags().byte_with(self.flags().b),
    {
        self.p.read()
    }

    /// The opcode being executed.
    pub fn opcode(&self) -> (r: u8)
        ensures
            r == self.opcode_reg(),
    {
        self.op
    }

    /// Cycles still to be stalled.
    pub fn suspend_cycles(&self) -> (r: u16)
        ensures
            r == self.suspend(),
    {
        self.suspend_cycle
    }

    /// Pushes a byte on the stack page; SP wraps from $00 to $FF.
    fn push(&mut self, rom: &Rom, apu: &mut Apu, ppu: &mut Ppu, value: u8)
        requires
            old(self).wf(),
            old(apu).wf(),
            old(ppu).wf(),
        ensures
            final(self).wf(),
            *final(apu) == *old(apu),
            *final(ppu) == *old(ppu),
            final(self).sp == (old(self).sp + 255) % 256,
            final(self).bus.wram() == old(self).bus.wram().update(0x100 + old(self).sp, value),
            final(self).bus.pad(1) == old(self).bus.pad(1),
            final(self).bus.pad(2) == old(self).bus.pad(2),
            final(self).bus.ext_ram() == old(self).bus.ext_ram(),
            *final(self) == (Cpu { sp: final(self).sp, bus: final(self).bus, ..*old(self) }),
    {
        let addr: u16 = 0x0100 + self.sp as u16;
        self.bus.write(rom, apu, ppu, addr, value);
        proof {
            assert((addr as int) % 0x800 == 0x100 + old(self).sp);
        }
        self.sp = self.sp.wrapping_sub(1);
    }

    /// Pops a byte from the stack page; SP wraps from $FF to $00.
    fn pop(&mut self, rom: &Rom, apu: &mut Apu, ppu: &mut Ppu, pad: &PadInputs) -> (r: u8)
        requires
            old(self).wf(),
            old(apu).wf(),
            old(ppu).wf(),
        ensures
            final(self).wf(),
            *final(apu) == *old(apu),
            *final(ppu) == *old(ppu),
            final(self).sp == (old(self).sp + 1) % 256,
            r == old(self).bus.wram()[0x100 + final(self).sp],
            final(self).bus.wram() == old(self).bus.wram(),
            *final(self) == (Cpu { sp: final(self).sp, bus: final(self).bus, ..*old(self) }),
            final(self).bus.ext_ram() == old(self).bus.ext_ram(),
    {
        self.sp = self.sp.wrapping_add(1);
        let addr: u16 = 0x0100 + self.sp as u16;
        proof {
            assert((addr as int) % 0x800 == 0x100 + self.sp);
        }
        self.bus.read(rom, apu, ppu, pad, addr)
    }

    /// Reads the CPU address space through the bus.
    fn read_bus(&mut self, rom: &Rom, apu: &mut Apu, ppu: &mut Ppu, pad: &PadInputs, addr: u16) -> (r: u8)
        requires
            old(self).wf(),
            old(apu).wf(),
            old(ppu).wf(),
        ensures
            final(self).wf(),
            final(apu).wf(),
            final(ppu).wf(),
            final(ppu).frame_position() == old(ppu).frame_position(),
            addr >= 0x6000 ==> r == old(self).bus.peek_value(rom, addr as int) && *final(apu) == *old(apu)
                && *final(ppu) == *old(ppu) && final(self).bus == old(self).bus,
            addr < 0x2000 ==> r == old(self).bus.wram()[addr as int % 0x800],
            addr != 0x4016 && addr != 0x4017 ==> final(self).bus == old(self).bus,
            final(self).bus.wram() == old(self).bus.wram(),
            *final(self) == (Cpu { bus: final(self).bus, ..*old(self) }),
            final(self).bus.ext_ram() == old(self).bus.ext_ram(),
            memory_addr(addr as int) ==> *final(apu) == *old(apu) && *final(ppu) == *old(ppu),
    {
        self.bus.read(rom, apu, ppu, pad, addr)
    }

    #[verifier::rlimit(50)]
    /// Writes the CPU address space through the bus; cycles stolen by DMA are added to the
    /// suspend counter.
    fn write_bus(&mut self, rom: &Rom, apu: &mut Apu, ppu: &mut Ppu, addr: u16, value: u8)
        requires
            old(self).wf(),
            old(apu).wf(),
            old(ppu).wf(),
        ensures
            final(self).wf(),
            final(apu).wf(),
            final(ppu).wf(),
            final(ppu).frame_position() == old(ppu).frame_position(),
            final(self).suspend_cycle == if addr == 0x4014 {
                if old(self).suspend_cycle <= 0xFFFF - crate::bus::DMA_CYCLES {
                    old(self).suspend_cycle + crate::bus::DMA_CYCLES
                } else {
                    0xFFFF
                }
            } else {
                old(self).suspend_cycle as int
            },
            *final(self) == (Cpu { bus: final(self).bus, suspend_cycle: final(self).suspend_cycle, ..*old(self) }),
            final(self).bus.wram() == if addr < 0x2000 {
                old(self).bus.wram().update(addr as int % 0x800, value)
            } else {
                old(self).bus.wram()
            },
            !(0x6000 <= addr < 0x8000) ==> final(self).bus.ext_ram() == old(self).bus.ext_ram(),
    {
        let stolen = self.bus.write(rom, apu, ppu, addr, value);
        if stolen > 0 {
            self.suspend_cycle = if self.suspend_cycle <= 0xFFFF - stolen {
                self.suspend_cycle + stolen
            } else {
                0xFFFF
            };
        }
    }

    /// Reset sequence: SP = $FD, I set, PC from the vector at $FFFC/$FFFD.
    fn enter_reset(&mut self, rom: &Rom, apu: &mut Apu, ppu: &mut Ppu, pad: &PadInputs)
        requires
            old(self).wf(),
            old(apu).wf(),
            old(ppu).wf(),
        ensures
            final(self).wf(),
            *final(apu) == *old(apu),
            *final(ppu) == *old(ppu),
            final(self).pc == addr_of(rom.prg_at(0xFFFD), rom.prg_at(0xFFFC)),
            final(self).sp == 0xFD,
            final(self).p == (ProcessorStatusRegister { b: false, i: true, ..old(self).p }),
            final(self).state == CpuState::ReadOpcode,
            final(self).step == 0,
            final(self).bus == old(self).bus,
            final(self).suspend_cycle == old(self).suspend_cycle,
    {
        self.p.b = false;
        self.p.i = true;
        self.sp = 0xFD;
        let addr_l = self.read_bus(rom, apu, ppu, pad, 0xFFFC);
        let addr_h = self.read_bus(rom, apu, ppu, pad, 0xFFFD);
        self.pc = get_addr(addr_h, addr_l);
        self.state = CpuState::ReadOpcode;
        self.step = 0;
    }

    /// NMI or IRQ entry: pushes PCH, PCL and P with B clear, sets I, and loads PC from
    /// the vector at `vector`/`vector + 1`.
    fn enter_interrupt(&mut self, rom: &Rom, apu: &mut Apu, ppu: &mut Ppu, pad: &PadInputs, vector: u16)
        requires
            old(self).wf(),
            old(apu).wf(),
            old(ppu).wf(),
            vector == 0xFFFA || vector == 0xFFFE,
        ensures
            final(self).wf(),
            *final(apu) == *old(apu),
            *final(ppu) == *old(ppu),
            final(self).pc == addr_of(rom.prg_at(vector + 1), rom.prg_at(vector as int)),
            final(self).sp == (old(self).sp + 253) % 256,
            final(self).bus.wram() == old(self).bus.wram().update(0x100 + old(self).sp, high_byte_spec(old(self).pc)).update(
                0x100 + (old(self).sp + 255) % 256,
                (old(self).pc % 256) as u8,
            ).update(0x100 + (old(self).sp + 254) % 256, old(self).p.byte_with(false) as u8),
            final(self).p == (ProcessorStatusRegister { b: false, i: true, ..old(self).p }),
            final(self).state == CpuState::ReadOpcode,
            final(self).step == 0,
            final(self).suspend_cycle == old(self).suspend_cycle,
            final(self).reset == old(self).reset,
            final(self).nmi == old(self).nmi,
            final(self).irq == old(self).irq,
    {
        let pc = self.pc;
        self.push(rom, apu, ppu, high_byte(pc));
        self.push(rom, apu, ppu, low_byte(pc));
        let status = self.p.byte_for_push(false);
        self.push(rom, apu, ppu, status);
        self.p.b = false;
        self.p.i = true;
        let addr_l = self.read_bus(rom, apu, ppu, pad, vector);
        let addr_h = self.read_bus(rom, apu, ppu, pad, vector + 1);
        self.pc = get_addr(addr_h, addr_l);
        self.state = CpuState::ReadOpcode;
        self.step = 0;
    }

    /// Instruction boundary: takes a pending reset, NMI or (unless I is set) IRQ, the
    /// IRQ line of the APU included; otherwise fetches and decodes the next opcode.
    /// Undefined opcodes take this one cycle only.
    fn read_opcode(&mut self, rom: &Rom, apu: &mut Apu, ppu: &mut Ppu, pad: &PadInputs)
        requires
            old(self).wf(),
            old(apu).wf(),
            old(ppu).wf(),
            old(self).state == CpuState::ReadOpcode,
        ensures
            final(self).wf(),
            final(apu).wf(),
            final(ppu).wf(),
            final(ppu).frame_position() == old(ppu).frame_position(),
            final(self).step == 0,
            Cpu::fetch_effect(*old(self), *final(self), rom, old(apu).check_irq_spec()),
            final(self).irq == old(self).irq || final(self).state == CpuState::Irq,
    {
        if self.reset {
            self.reset = false;
            self.state = CpuState::Reset;
            self.step = 0;
            return;
        }
        if self.nmi {
            self.nmi = false;
            self.state = CpuState::Nmi;
            self.step = 0;
            return;
        }
        if !self.p.i && (self.irq || apu.check_irq()) {
            self.irq = false;
            self.state = CpuState::Irq;
            self.step = 0;
            return;
        }
        self.is_immediate = false;
        self.is_accumulator = false;
        self.addressing_overflow = false;
        self.step = 0;
        let pc = self.pc;
        self.op = self.read_bus(rom, apu, ppu, pad, pc);
        let (mode, instruction) = decode(self.op);
        self.mode = mode;
        self.instruction = instruction;
        self.pc = self.pc.wrapping_add(1);
        if instruction == Instruction::Undefined {
            return;
        }
        match mode {
            AddressingMode::Accumulator => {
                self.is_accumulator = true;
                self.state = CpuState::ExecuteInstruction;
            },
            AddressingMode::Implied | AddressingMode::Relative => {
                self.state = CpuState::ExecuteInstruction;
            },
            AddressingMode::Immediate => {
                let pc = self.pc;
                self.immediate_operand = self.read_bus(rom, apu, ppu, pad, pc);
                self.is_immediate = true;
                self.pc = self.pc.wrapping_add(1);
                self.state = CpuState::ExecuteInstruction;
            },
            _ => {
                self.state = CpuState::ReadOperand;
            },
        }
    }

    /// Reads the next program byte and advances PC.
    fn fetch_pc(&mut self, rom: &Rom, apu: &mut Apu, ppu: &mut Ppu, pad: &PadInputs) -> (r: u8)
        requires
            old(self).wf(),
            old(apu).wf(),
            old(ppu).wf(),
        ensures
            final(self).wf(),
            final(apu).wf(),
            final(ppu).wf(),
            final(ppu).frame_position() == old(ppu).frame_position(),
            *final(self) == (Cpu { bus: final(self).bus, pc: final(self).pc, ..*old(self) }),
            final(self).pc == (old(self).pc + 1) % 0x10000,
            final(self).bus.wram() == old(self).bus.wram(),
            memory_addr(old(self).pc as int) ==> r == old(self).bus.peek_value(rom, old(self).pc as int),
            final(self).bus.ext_ram() == old(self).bus.ext_ram(),
            memory_addr(old(self).pc as int) ==> *final(apu) == *old(apu) && *final(ppu) == *old(ppu),
    {
        let pc = self.pc;
        let r = self.read_bus(rom, apu, ppu, pad, pc);
        self.pc = self.pc.wrapping_add(1);
        r
    }

    /// One micro-step of operand fetch. Returns true when the effective address is complete.
    /// Absolute and indirect JMP load PC here and go straight to the next opcode.
    fn read_operand(&mut self, rom: &Rom, apu: &mut Apu, ppu: &mut Ppu, pad: &PadInputs) -> (done: bool)
        requires
            old(self).wf(),
            old(apu).wf(),
            old(ppu).wf(),
            old(self).step < 4,
        ensures
            final(self).wf(),
            final(apu).wf(),
            final(ppu).wf(),
            final(ppu).frame_position() == old(ppu).frame_position(),
            final(self).step == old(self).step,
            final(self).suspend_cycle == old(self).suspend_cycle,
            final(self).sp == old(self).sp,
            final(self).p == old(self).p,
            final(self).reset == old(self).reset,
            final(self).nmi == old(self).nmi,
            final(self).state == old(self).state || final(self).state == CpuState::ReadOpcode
                && old(self).instruction == Instruction::JMP,
            final(self).state != old(self).state ==> done,
            !done ==> old(self).step < 3,
            old(self).mode == AddressingMode::Indirect && old(self).step == 2 && old(self).instruction
                == Instruction::JMP ==> done && final(self).state
                == CpuState::ReadOpcode && final(self).pc == addr_of(
                final(self).addr_h,
                final(self).addr_l,
            ),
            Cpu::jump_step(*old(self), *final(self), rom),
            Cpu::operand_step(*old(self), *final(self), rom, done),
    {
        match self.mode {
            AddressingMode::Indirect | AddressingMode::IndirectX | AddressingMode::IndirectY => {
                self.read_operand_indirect(rom, apu, ppu, pad)
            },
            _ => self.read_operand_direct(rom, apu, ppu, pad),
        }
    }

    /// Absolute: low byte, then high byte (absolute JMP jumps here).
    fn read_operand_absolute(&mut self, rom: &Rom, apu: &mut Apu, ppu: &mut Ppu, pad: &PadInputs) -> (done: bool)
        requires
            old(self).wf(),
            old(apu).wf(),
            old(ppu).wf(),
            old(self).step < 4,
            old(self).mode == AddressingMode::Absolute,
        ensures
            final(self).wf(),
            final(apu).wf(),
            final(ppu).wf(),
            final(ppu).frame_position() == old(ppu).frame_position(),
            final(self).step == old(self).step,
            final(self).suspend_cycle == old(self).suspend_cycle,
            final(self).sp == old(self).sp,
            final(self).p == old(self).p,
            final(self).reset == old(self).reset,
            final(self).nmi == old(self).nmi,
            final(self).state == old(self).state || final(self).state == CpuState::ReadOpcode
                && old(self).instruction == Instruction::JMP,
            final(self).state != old(self).state ==> done,
            !done ==> old(self).step < 3,
            old(self).mode != AddressingMode::Indirect ==> final(self).mode == old(self).mode,
            Cpu::jump_step(*old(self), *final(self), rom),
            Cpu::operand_step(*old(self), *final(self), rom, done),
    {
        proof {
            lemma_addr_parts();
        }
        let step = self.step;
        if step == 0 {
            self.addr_l = self.fetch_pc(rom, apu, ppu, pad);
            false
        } else {
            self.addr_h = self.fetch_pc(rom, apu, ppu, pad);
            if self.instruction == Instruction::JMP {
                proof {
                    assert(addr_of(old(self).addr_h, old(self).addr_l) % 256 == old(self).addr_l);
                }
                self.pc = get_addr(self.addr_h, self.addr_l);
                self.state = CpuState::ReadOpcode;
            }
            true
        }
    }

    /// Absolute,X/Y: indexed low byte, high byte, then one more step on a page cross.
    #[verifier::rlimit(100)]
    fn read_operand_absolute_indexed(&mut self, rom: &Rom, apu: &mut Apu, ppu: &mut Ppu, pad: &PadInputs) -> (done: bool)
        requires
            old(self).wf(),
            old(apu).wf(),
            old(ppu).wf(),
            old(self).step < 4,
            old(self).mode == AddressingMode::AbsoluteX || old(self).mode == AddressingMode::AbsoluteY,
        ensures
            final(self).wf(),
            final(apu).wf(),
            final(ppu).wf(),
            final(ppu).frame_position() == old(ppu).frame_position(),
            final(self).step == old(self).step,
            final(self).suspend_cycle == old(self).suspend_cycle,
            final(self).sp == old(self).sp,
            final(self).p == old(self).p,
            final(self).reset == old(self).reset,
            final(self).nmi == old(self).nmi,
            final(self).state == old(self).state || final(self).state == CpuState::ReadOpcode
                && old(self).instruction == Instruction::JMP,
            final(self).state != old(self).state ==> done,
            !done ==> old(self).step < 3,
            old(self).mode != AddressingMode::Indirect ==> final(self).mode == old(self).mode,
            Cpu::jump_step(*old(self), *final(self), rom),
            Cpu::operand_step(*old(self), *final(self), rom, done),
    {
        proof {
            lemma_addr_parts();
        }
        let step = self.step;
        if step == 0 {
            let index = if self.mode == AddressingMode::AbsoluteX {
                self.x
            } else {
                self.y
            };
            let low = self.fetch_pc(rom, apu, ppu, pad);
            self.addressing_overflow = low as u16 + index as u16 > 255;
            self.addr_l = low.wrapping_add(index);
            false
        } else if step == 1 {
            self.addr_h = self.fetch_pc(rom, apu, ppu, pad);
            !self.addressing_overflow
        } else {
            self.addr_h = self.addr_h.wrapping_add(1);
            true
        }
    }

    /// Zero page and zero page,X/Y (the index wraps within the zero page).
    fn read_operand_zero_page(&mut self, rom: &Rom, apu: &mut Apu, ppu: &mut Ppu, pad: &PadInputs) -> (done: bool)
        requires
            old(self).wf(),
            old(apu).wf(),
            old(ppu).wf(),
            old(self).step < 4,
            old(self).mode == AddressingMode::ZeroPage || old(self).mode == AddressingMode::ZeroPageX
                || old(self).mode == AddressingMode::ZeroPageY,
        ensures
            final(self).wf(),
            final(apu).wf(),
            final(ppu).wf(),
            final(ppu).frame_position() == old(ppu).frame_position(),
            final(self).step == old(self).step,
            final(self).suspend_cycle == old(self).suspend_cycle,
            final(self).sp == old(self).sp,
            final(self).p == old(self).p,
            final(self).reset == old(self).reset,
            final(self).nmi == old(self).nmi,
            final(self).state == old(self).state || final(self).state == CpuState::ReadOpcode
                && old(self).instruction == Instruction::JMP,
            final(self).state != old(self).state ==> done,
            !done ==> old(self).step < 3,
            old(self).mode != AddressingMode::Indirect ==> final(self).mode == old(self).mode,
            Cpu::jump_step(*old(self), *final(self), rom),
            Cpu::operand_step(*old(self), *final(self), rom, done),
    {
        proof {
            lemma_addr_parts();
        }
        let step = self.step;
        if self.mode == AddressingMode::ZeroPage {
            self.addr_h = 0;
            self.addr_l = self.fetch_pc(rom, apu, ppu, pad);
            true
        } else {
            if step == 0 {
                let index = if self.mode == AddressingMode::ZeroPageX {
                    self.x
                } else {
                    self.y
                };
                self.addr_h = 0;
                let base = self.fetch_pc(rom, apu, ppu, pad);
                self.addr_l = base.wrapping_add(index);
                false
            } else {
                true
            }
        }
    }

    /// Operand fetch of the absolute, zero-page and indexed modes.
    fn read_operand_direct(&mut self, rom: &Rom, apu: &mut Apu, ppu: &mut Ppu, pad: &PadInputs) -> (done: bool)
        requires
            old(self).wf(),
            old(apu).wf(),
            old(ppu).wf(),
            old(self).step < 4,
            old(self).mode != AddressingMode::Indirect && old(self).mode != AddressingMode::IndirectX
                && old(self).mode != AddressingMode::IndirectY,
        ensures
            final(self).wf(),
            final(apu).wf(),
            final(ppu).wf(),
            final(ppu).frame_position() == old(ppu).frame_position(),
            final(self).step == old(self).step,
            final(self).suspend_cycle == old(self).suspend_cycle,
            final(self).sp == old(self).sp,
            final(self).p == old(self).p,
            final(self).reset == old(self).reset,
            final(self).nmi == old(self).nmi,
            final(self).state == old(self).state || final(self).state == CpuState::ReadOpcode
                && old(self).instruction == Instruction::JMP,
            final(self).state != old(self).state ==> done,
            !done ==> old(self).step < 3,
            old(self).mode != AddressingMode::Indirect ==> final(self).mode == old(self).mode,
            Cpu::jump_step(*old(self), *final(self), rom),
            Cpu::operand_step(*old(self), *final(self), rom, done),
    {
        match self.mode {
            AddressingMode::Absolute => self.read_operand_absolute(rom, apu, ppu, pad),
            AddressingMode::AbsoluteX | AddressingMode::AbsoluteY => self.read_operand_absolute_indexed(
                rom,
                apu,
                ppu,
                pad,
            ),
            AddressingMode::ZeroPage | AddressingMode::ZeroPageX | AddressingMode::ZeroPageY => {
                self.read_operand_zero_page(rom, apu, ppu, pad)
            },
            _ => true,
        }
    }

    /// Operand fetch through a pointer: indirect JMP, (zp,X) and (zp),Y.
    fn read_operand_indirect(&mut self, rom: &Rom, apu: &mut Apu, ppu: &mut Ppu, pad: &PadInputs) -> (done: bool)
        requires
            old(self).wf(),
            old(apu).wf(),
            old(ppu).wf(),
            old(self).step < 4,
            old(self).mode == AddressingMode::Indirect || old(self).mode == AddressingMode::IndirectX
                || old(self).mode == AddressingMode::IndirectY,
        ensures
            final(self).wf(),
            final(apu).wf(),
            final(ppu).wf(),
            final(ppu).frame_position() == old(ppu).frame_position(),
            final(self).step == old(self).step,
            final(self).suspend_cycle == old(self).suspend_cycle,
            final(self).sp == old(self).sp,
            final(self).p == old(self).p,
            final(self).reset == old(self).reset,
            final(self).nmi == old(self).nmi,
            final(self).state == old(self).state || final(self).state == CpuState::ReadOpcode
                && old(self).instruction == Instruction::JMP,
            final(self).state != old(self).state ==> done,
            !done ==> old(self).step < 3,
            old(self).mode == AddressingMode::Indirect && old(self).step == 2 && old(self).instruction
                == Instruction::JMP ==> done && final(self).state
                == CpuState::ReadOpcode && final(self).pc == addr_of(
                final(self).addr_h,
                final(self).addr_l,
            ),
            Cpu::jump_step(*old(self), *final(self), rom),
            Cpu::operand_step(*old(self), *final(self), rom, done),
    {
        match self.mode {
            AddressingMode::Indirect => self.read_operand_jmp_indirect(rom, apu, ppu, pad),
            AddressingMode::IndirectX => self.read_operand_indexed_indirect(rom, apu, ppu, pad),
            _ => self.read_operand_indirect_indexed(rom, apu, ppu, pad),
        }
    }

    /// Indirect JMP: loads PC in its third step, with the high byte from the pointer's own page.
    fn read_operand_jmp_indirect(&mut self, rom: &Rom, apu: &mut Apu, ppu: &mut Ppu, pad: &PadInputs) -> (done: bool)
        requires
            old(self).wf(),
            old(apu).wf(),
            old(ppu).wf(),
            old(self).step < 4,
            old(self).mode == AddressingMode::Indirect,
        ensures
            final(self).wf(),
            final(apu).wf(),
            final(ppu).wf(),
            final(ppu).frame_position() == old(ppu).frame_position(),
            final(self).step == old(self).step,
            final(self).suspend_cycle == old(self).suspend_cycle,
            final(self).sp == old(self).sp,
            final(self).p == old(self).p,
            final(self).reset == old(self).reset,
            final(self).nmi == old(self).nmi,
            final(self).state == old(self).state || final(self).state == CpuState::ReadOpcode
                && old(self).instruction == Instruction::JMP,
            final(self).state != old(self).state ==> done,
            !done ==> old(self).step < 3,
            old(self).mode == AddressingMode::Indirect && old(self).step == 2 && old(self).instruction
                == Instruction::JMP ==> done && final(self).state
                == CpuState::ReadOpcode && final(self).pc == addr_of(
                final(self).addr_h,
                final(self).addr_l,
            ),
            Cpu::jump_step(*old(self), *final(self), rom),
            Cpu::operand_step(*old(self), *final(self), rom, done),
    {
        proof {
            lemma_addr_parts();
        }
        let step = self.step;
        if step == 0 {
            self.addr_l = self.fetch_pc(rom, apu, ppu, pad);
            false
        } else if step == 1 {
            self.addr_h = self.fetch_pc(rom, apu, ppu, pad);
            false
        } else {
            let ptr = get_addr(self.addr_h, self.addr_l);
            let low = self.read_bus(rom, apu, ppu, pad, ptr);
            let high = self.read_bus(rom, apu, ppu, pad, indirect_high_addr(ptr));
            self.addr_l = low;
            self.addr_h = high;
            if self.instruction == Instruction::JMP {
                self.pc = get_addr(high, low);
                self.state = CpuState::ReadOpcode;
            }
            true
        }
    }

    /// (zp,X): the pointer is read from the zero page at operand + X.
    #[verifier::rlimit(60)]
    fn read_operand_indexed_indirect(&mut self, rom: &Rom, apu: &mut Apu, ppu: &mut Ppu, pad: &PadInputs) -> (done: bool)
        requires
            old(self).wf(),
            old(apu).wf(),
            old(ppu).wf(),
            old(self).step < 4,
            old(self).mode == AddressingMode::IndirectX,
        ensures
            final(self).wf(),
            final(apu).wf(),
            final(ppu).wf(),
            final(ppu).frame_position() == old(ppu).frame_position(),
            final(self).step == old(self).step,
            final(self).suspend_cycle == old(self).suspend_cycle,
            final(self).sp == old(self).sp,
            final(self).p == old(self).p,
            final(self).reset == old(self).reset,
            final(self).nmi == old(self).nmi,
            final(self).state == old(self).state || final(self).state == CpuState::ReadOpcode
                && old(self).instruction == Instruction::JMP,
            final(self).state != old(self).state ==> done,
            !done ==> old(self).step < 3,
            old(self).mode == AddressingMode::IndirectX ==> final(self).mode == old(self).mode,
            Cpu::operand_step(*old(self), *final(self), rom, done),
    {
        proof {
            lemma_addr_parts();
        }
        let step = self.step;
        if step == 0 {
            let base = self.fetch_pc(rom, apu, ppu, pad);
            self.addr_l = base.wrapping_add(self.x);
            false
        } else if step == 1 {
            self.addr_h = 0;
            false
        } else if step == 2 {
            let zp = self.addr_l;
            let low = self.read_bus(rom, apu, ppu, pad, zp as u16);
            let high = self.read_bus(rom, apu, ppu, pad, zp.wrapping_add(1) as u16);
            self.addr_l = low;
            self.addr_h = high;
            false
        } else {
            true
        }
    }

    /// (zp),Y: Y is added to the pointer read from the zero page; one more step when
    /// that crosses a page.
    fn read_operand_indirect_indexed(&mut self, rom: &Rom, apu: &mut Apu, ppu: &mut Ppu, pad: &PadInputs) -> (done: bool)
        requires
            old(self).wf(),
            old(apu).wf(),
            old(ppu).wf(),
            old(self).step < 4,
            old(self).mode == AddressingMode::IndirectY,
        ensures
            final(self).wf(),
            final(apu).wf(),
            final(ppu).wf(),
            final(ppu).frame_position() == old(ppu).frame_position(),
            final(self).step == old(self).step,
            final(self).suspend_cycle == old(self).suspend_cycle,
            final(self).sp == old(self).sp,
            final(self).p == old(self).p,
            final(self).reset == old(self).reset,
            final(self).nmi == old(self).nmi,
            final(self).state == old(self).state || final(self).state == CpuState::ReadOpcode
                && old(self).instruction == Instruction::JMP,
            final(self).state != old(self).state ==> done,
            !done ==> old(self).step < 3,
            final(self).mode == old(self).mode,
            old(self).mode == AddressingMode::IndirectY ==> final(self).mode == old(self).mode,
            Cpu::operand_step(*old(self), *final(self), rom, done),
    {
        proof {
            lemma_addr_parts();
        }
        let step = self.step;
        if step == 0 {
            self.addr_l = self.fetch_pc(rom, apu, ppu, pad);
            false
        } else if step == 1 {
            let zp = self.addr_l;
            let low = self.read_bus(rom, apu, ppu, pad, zp as u16);
            let high = self.read_bus(rom, apu, ppu, pad, zp.wrapping_add(1) as u16);
            self.addressing_overflow = low as u16 + self.y as u16 > 255;
            self.addr_l = low.wrapping_add(self.y);
            self.addr_h = high;
            false
        } else if step == 2 {
            !self.addressing_overflow
        } else {
            self.addr_h = self.addr_h.wrapping_add(1);
            true
        }
    }

    /// The operand of a reading instruction: the immediate byte or the byte at the
    /// effective address.
    fn fetch_operand(&mut self, rom: &Rom, apu: &mut Apu, ppu: &mut Ppu, pad: &PadInputs) -> (r: u8)
        requires
            old(self).wf(),
            old(apu).wf(),
            old(ppu).wf(),
        ensures
            final(self).wf(),
            final(apu).wf(),
            final(ppu).wf(),
            final(ppu).frame_position() == old(ppu).frame_position(),
            old(self).is_immediate ==> r == old(self).immediate_operand,
            !old(self).is_immediate && (old(self).effective_addr() < 0x2000 || old(self).effective_addr()
                >= 0x6000) ==> r == old(self).bus.peek_value(rom, old(self).effective_addr()),
            *final(self) == (Cpu { bus: final(self).bus, ..*old(self) }),
            final(self).bus.wram() == old(self).bus.wram(),
            final(self).bus.ext_ram() == old(self).bus.ext_ram(),
    {
        if self.is_immediate {
            self.immediate_operand
        } else {
            let addr = get_addr(self.addr_h, self.addr_l);
            self.read_bus(rom, apu, ppu, pad, addr)
        }
    }


    /// Interpreter bookkeeping that an execution micro-step leaves alone.
    spec fn keeps_control(&self, o: &Cpu) -> bool {
        &&& self.state == o.state
        &&& self.step == o.step
        &&& self.reset == o.reset
        &&& self.nmi == o.nmi
        &&& self.irq == o.irq
        &&& self.instruction == o.instruction
        &&& self.mode == o.mode
        &&& self.is_accumulator == o.is_accumulator
        &&& self.is_immediate == o.is_immediate
        &&& self.immediate_operand == o.immediate_operand
    }

    /// The opcode, the page-cross flag and the latched effective address are kept.
    spec fn keeps_latches(&self, o: &Cpu) -> bool {
        &&& self.op == o.op
        &&& self.addressing_overflow == o.addressing_overflow
        &&& self.addr_l == o.addr_l
        &&& self.addr_h == o.addr_h
    }

    fn regs(&self) -> (r: Regs)
        ensures
            r == (Regs { a: self.a, x: self.x, y: self.y, p: self.p }),
    {
        Regs { a: self.a, x: self.x, y: self.y, p: self.p }
    }

    fn set_regs(&mut self, r: Regs)
        ensures
            *final(self) == (Cpu { a: r.a, x: r.x, y: r.y, p: r.p, ..*old(self) }),
    {
        self.a = r.a;
        self.x = r.x;
        self.y = r.y;
        self.p = r.p;
    }

    /// Instructions that read an operand and set registers: one cycle.
    fn execute_read(&mut self, rom: &Rom, apu: &mut Apu, ppu: &mut Ppu, pad: &PadInputs)
        requires
            old(self).wf(),
            old(apu).wf(),
            old(ppu).wf(),
        ensures
            final(self).wf(),
            final(apu).wf(),
            final(ppu).wf(),
            final(ppu).frame_position() == old(ppu).frame_position(),
            final(self).keeps_control(old(self)),
            final(self).suspend_cycle == old(self).suspend_cycle,
            final(self).pc == old(self).pc,
            final(self).sp == old(self).sp,
            final(self).bus.wram() == old(self).bus.wram(),
            is_read_instruction(old(self).instruction) && old(self).is_immediate ==> read_effect(
                old(self).instruction,
                old(self).regs_view(),
                old(self).immediate_operand,
                final(self).regs_view(),
            ),
            is_read_instruction(old(self).instruction) && !old(self).is_immediate && (old(self).effective_addr()
                < 0x2000 || old(self).effective_addr() >= 0x6000) ==> read_effect(
                old(self).instruction,
                old(self).regs_view(),
                old(self).bus.peek_value(rom, old(self).effective_addr()),
                final(self).regs_view(),
            ),
            Cpu::read_step(*old(self), *final(self), rom, true),
            final(self).keeps_latches(old(self)),
            final(self).bus.ext_ram() == old(self).bus.ext_ram(),
    {
        if self.instruction == Instruction::NOP {
            return;
        }
        let operand = self.fetch_operand(rom, apu, ppu, pad);
        let r = apply_read(self.instruction, self.regs(), operand);
        self.set_regs(r);
    }

    /// Store instructions: one cycle, a write to the effective address.
    fn execute_store(&mut self, rom: &Rom, apu: &mut Apu, ppu: &mut Ppu)
        requires
            old(self).wf(),
            old(apu).wf(),
            old(ppu).wf(),
        ensures
            final(self).wf(),
            final(apu).wf(),
            final(ppu).wf(),
            final(ppu).frame_position() == old(ppu).frame_position(),
            final(self).keeps_control(old(self)),
            final(self).pc == old(self).pc,
            final(self).sp == old(self).sp,
            final(self).a == old(self).a,
            final(self).x == old(self).x,
            final(self).y == old(self).y,
            final(self).p == old(self).p,
            ({
                let addr = addr_of(old(self).addr_h, old(self).addr_l);
                let value = if old(self).instruction == Instruction::STA {
                    old(self).a
                } else if old(self).instruction == Instruction::STX {
                    old(self).x
                } else if old(self).instruction == Instruction::STY {
                    old(self).y
                } else {
                    old(self).a & old(self).x
                };
                &&& addr < 0x2000 ==> final(self).bus.wram() == old(self).bus.wram().update(addr % 0x800, value)
                &&& final(self).suspend_cycle == if addr == 0x4014 {
                    if old(self).suspend_cycle <= 0xFFFF - crate::bus::DMA_CYCLES {
                        old(self).suspend_cycle + crate::bus::DMA_CYCLES
                    } else {
                        0xFFFF
                    }
                } else {
                    old(self).suspend_cycle as int
                }
            }),
            Cpu::store_step(*old(self), *final(self), true),
            final(self).keeps_latches(old(self)),
            !(0x6000 <= old(self).effective_addr() < 0x8000) ==> final(self).bus.ext_ram() == old(self).bus.ext_ram(),
    {
        let value = if self.instruction == Instruction::STA {
            self.a
        } else if self.instruction == Instruction::STX {
            self.x
        } else if self.instruction == Instruction::STY {
            self.y
        } else {
            self.a & self.x
        };
        let addr = get_addr(self.addr_h, self.addr_l);
        self.write_bus(rom, apu, ppu, addr, value);
    }

    /// Read-modify-write instructions. On the accumulator: one cycle. On memory: the read
    /// in the first cycle, the write in the second. Returns true when done.
    fn execute_modify(&mut self, rom: &Rom, apu: &mut Apu, ppu: &mut Ppu, pad: &PadInputs) -> (done: bool)
        requires
            old(self).wf(),
            old(apu).wf(),
            old(ppu).wf(),
        ensures
            final(self).wf(),
            final(apu).wf(),
            final(ppu).wf(),
            final(ppu).frame_position() == old(ppu).frame_position(),
            final(self).keeps_control(old(self)),
            final(self).pc == old(self).pc,
            final(self).sp == old(self).sp,
            done == (old(self).is_accumulator || old(self).step != 0),
            old(self).is_accumulator ==> {
                let o = apply_modify_spec_value(old(self).instruction, old(self).p.c, old(self).a);
                final(self).a == o
            },
            old(self).suspend_cycle == 0 ==> final(self).suspend_cycle == 0 || final(self).suspend_cycle
                == crate::bus::DMA_CYCLES,
            Cpu::modify_step(*old(self), *final(self), rom, done),
            final(self).keeps_latches(old(self)),
            !(0x6000 <= old(self).effective_addr() < 0x8000) ==> final(self).bus.ext_ram() == old(self).bus.ext_ram(),
    {
        if self.is_accumulator {
            let (value, r) = apply_modify(self.instruction, self.regs(), self.a);
            self.set_regs(r);
            self.a = value;
            true
        } else if self.step == 0 {
            let addr = get_addr(self.addr_h, self.addr_l);
            self.latch = self.read_bus(rom, apu, ppu, pad, addr);
            false
        } else {
            let (value, r) = apply_modify(self.instruction, self.regs(), self.latch);
            self.set_regs(r);
            let addr = get_addr(self.addr_h, self.addr_l);
            self.write_bus(rom, apu, ppu, addr, value);
            true
        }
    }

    /// Branches: the offset is read in the first cycle; a taken branch takes one more
    /// cycle, and one more again when the target is on another page than the next
    /// instruction.
    fn execute_branch(&mut self, rom: &Rom, apu: &mut Apu, ppu: &mut Ppu, pad: &PadInputs) -> (done: bool)
        requires
            old(self).wf(),
            old(apu).wf(),
            old(ppu).wf(),
        ensures
            final(self).wf(),
            final(apu).wf(),
            final(ppu).wf(),
            final(ppu).frame_position() == old(ppu).frame_position(),
            final(self).keeps_control(old(self)),
            final(self).suspend_cycle == old(self).suspend_cycle,
            final(self).sp == old(self).sp,
            final(self).p == old(self).p,
            final(self).a == old(self).a,
            final(self).bus.wram() == old(self).bus.wram(),
            old(self).step == 0 && !branch_condition(old(self).instruction, old(self).p) ==> done
                && final(self).pc == (old(self).pc + 1) % 0x10000,
            old(self).step == 0 && branch_condition(old(self).instruction, old(self).p) ==> !done
                && final(self).addressing_overflow == (final(self).pc / 256 != ((old(self).pc + 1)
                % 0x10000) / 256),
            old(self).step == 1 ==> done == !old(self).addressing_overflow && final(self).pc == old(self).pc,
            old(self).step >= 2 ==> done && final(self).pc == old(self).pc,
            Cpu::branch_step(*old(self), *final(self), rom, done),
            final(self).op == old(self).op,
            final(self).addr_l == old(self).addr_l,
            final(self).addr_h == old(self).addr_h,
            final(self).bus.ext_ram() == old(self).bus.ext_ram(),
    {
        if self.step == 0 {
            let offset = self.fetch_pc(rom, apu, ppu, pad);
            if !branch_taken(self.instruction, self.p) {
                return true;
            }
            let (target, crossed) = branch_target(self.pc, offset);
            self.pc = target;
            self.addressing_overflow = crossed;
            false
        } else if self.step == 1 {
            !self.addressing_overflow
        } else {
            true
        }
    }

    /// Subroutine, interrupt and stack instructions, micro-step by micro-step.
    fn execute_control(&mut self, rom: &Rom, apu: &mut Apu, ppu: &mut Ppu, pad: &PadInputs) -> (done: bool)
        requires
            old(self).wf(),
            old(apu).wf(),
            old(ppu).wf(),
        ensures
            final(self).wf(),
            final(apu).wf(),
            final(ppu).wf(),
            final(ppu).frame_position() == old(ppu).frame_position(),
            final(self).keeps_control(old(self)),
            final(self).suspend_cycle == old(self).suspend_cycle,
            !done ==> old(self).step < 5,
            Cpu::push_pull_step(*old(self), *final(self), done),
            Cpu::subroutine_step(*old(self), *final(self), rom, done),
            final(self).op == old(self).op,
            !(old(self).instruction == Instruction::RTS || old(self).instruction == Instruction::RTI
                || old(self).instruction == Instruction::BRK) ==> final(self).addr_l == old(self).addr_l
                && final(self).addr_h == old(self).addr_h,
            !is_branch_instruction(old(self).instruction) ==> final(self).addressing_overflow
                == old(self).addressing_overflow,
            !((is_store_instruction(old(self).instruction) || is_modify_instruction(old(self).instruction))
                && 0x6000 <= old(self).effective_addr() < 0x8000) ==> final(self).bus.ext_ram()
                == old(self).bus.ext_ram(),
    {
        match self.instruction {
            Instruction::PHA | Instruction::PHP | Instruction::PLA | Instruction::PLP => {
                self.execute_stack(rom, apu, ppu, pad)
            },
            _ => self.execute_subroutine(rom, apu, ppu, pad),
        }
    }

    /// JSR: pushes the return address - 1, then jumps.
    fn execute_jsr(&mut self, rom: &Rom, apu: &mut Apu, ppu: &mut Ppu, pad: &PadInputs) -> (done: bool)
        requires
            old(self).wf(),
            old(apu).wf(),
            old(ppu).wf(),
            old(self).instruction == Instruction::JSR,
        ensures
            final(self).wf(),
            final(apu).wf(),
            final(ppu).wf(),
            final(ppu).frame_position() == old(ppu).frame_position(),
            final(self).keeps_control(old(self)),
            final(self).suspend_cycle == old(self).suspend_cycle,
            !done ==> old(self).step < 5,
            Cpu::subroutine_step(*old(self), *final(self), rom, done),
            final(self).keeps_latches(old(self)),
            final(self).bus.ext_ram() == old(self).bus.ext_ram(),
    {
        let step = self.step;
        let ret = self.pc.wrapping_sub(1);
        if step == 0 {
            self.push(rom, apu, ppu, high_byte(ret));
            false
        } else if step == 1 {
            self.push(rom, apu, ppu, low_byte(ret));
            false
        } else {
            self.pc = get_addr(self.addr_h, self.addr_l);
            true
        }
    }

    /// RTS: pulls the return address and continues after it.
    #[verifier::rlimit(100)]
    fn execute_rts(&mut self, rom: &Rom, apu: &mut Apu, ppu: &mut Ppu, pad: &PadInputs) -> (done: bool)
        requires
            old(self).wf(),
            old(apu).wf(),
            old(ppu).wf(),
            old(self).instruction == Instruction::RTS,
        ensures
            final(self).wf(),
            final(apu).wf(),
            final(ppu).wf(),
            final(ppu).frame_position() == old(ppu).frame_position(),
            final(self).keeps_control(old(self)),
            final(self).suspend_cycle == old(self).suspend_cycle,
            !done ==> old(self).step < 5,
            Cpu::subroutine_step(*old(self), *final(self), rom, done),
            final(self).op == old(self).op,
            final(self).addressing_overflow == old(self).addressing_overflow,
            final(self).bus.ext_ram() == old(self).bus.ext_ram(),
    {
        let step = self.step;
        if step < 2 {
            false
        } else if step == 2 {
            self.addr_l = self.pop(rom, apu, ppu, pad);
            false
        } else if step == 3 {
            self.addr_h = self.pop(rom, apu, ppu, pad);
            false
        } else {
            self.pc = get_addr(self.addr_h, self.addr_l).wrapping_add(1);
            true
        }
    }

    /// BRK: pushes PC and P with B set, sets I, jumps through $FFFE/$FFFF.
    fn execute_brk(&mut self, rom: &Rom, apu: &mut Apu, ppu: &mut Ppu, pad: &PadInputs) -> (done: bool)
        requires
            old(self).wf(),
            old(apu).wf(),
            old(ppu).wf(),
            old(self).instruction == Instruction::BRK,
        ensures
            final(self).wf(),
            final(apu).wf(),
            final(ppu).wf(),
            final(ppu).frame_position() == old(ppu).frame_position(),
            final(self).keeps_control(old(self)),
            final(self).suspend_cycle == old(self).suspend_cycle,
            !done ==> old(self).step < 5,
            Cpu::subroutine_step(*old(self), *final(self), rom, done),
            final(self).op == old(self).op,
            final(self).addressing_overflow == old(self).addressing_overflow,
            final(self).bus.ext_ram() == old(self).bus.ext_ram(),
    {
        if self.step == 0 {
            self.pc = self.pc.wrapping_add(1);
            false
        } else if self.step <= 3 {
            self.execute_brk_push(rom, apu, ppu, pad)
        } else {
            self.execute_brk_vector(rom, apu, ppu, pad)
        }
    }

    /// BRK steps 1-3: push PCH, PCL, then P with B set.
    fn execute_brk_push(&mut self, rom: &Rom, apu: &mut Apu, ppu: &mut Ppu, pad: &PadInputs) -> (done: bool)
        requires
            old(self).wf(),
            old(apu).wf(),
            old(ppu).wf(),
            old(self).instruction == Instruction::BRK,
            1 <= old(self).step <= 3,
        ensures
            final(self).wf(),
            final(apu).wf(),
            final(ppu).wf(),
            final(ppu).frame_position() == old(ppu).frame_position(),
            final(self).keeps_control(old(self)),
            final(self).suspend_cycle == old(self).suspend_cycle,
            !done ==> old(self).step < 5,
            Cpu::subroutine_step(*old(self), *final(self), rom, done),
            final(self).op == old(self).op,
            final(self).addressing_overflow == old(self).addressing_overflow,
            final(self).bus.ext_ram() == old(self).bus.ext_ram(),
    {
        let value = if self.step == 1 {
            high_byte(self.pc)
        } else if self.step == 2 {
            low_byte(self.pc)
        } else {
            self.p.byte_for_push(true)
        };
        self.push(rom, apu, ppu, value);
        false
    }

    /// BRK steps 4-5: set I and read the vector at $FFFE/$FFFF into PC.
    fn execute_brk_vector(&mut self, rom: &Rom, apu: &mut Apu, ppu: &mut Ppu, pad: &PadInputs) -> (done: bool)
        requires
            old(self).wf(),
            old(apu).wf(),
            old(ppu).wf(),
            old(self).instruction == Instruction::BRK,
            old(self).step >= 4,
        ensures
            final(self).wf(),
            final(apu).wf(),
            final(ppu).wf(),
            final(ppu).frame_position() == old(ppu).frame_position(),
            final(self).keeps_control(old(self)),
            final(self).suspend_cycle == old(self).suspend_cycle,
            !done ==> old(self).step < 5,
            Cpu::subroutine_step(*old(self), *final(self), rom, done),
            final(self).op == old(self).op,
            final(self).addressing_overflow == old(self).addressing_overflow,
            final(self).bus.ext_ram() == old(self).bus.ext_ram(),
    {
        if self.step == 4 {
            self.p.i = true;
            self.addr_l = self.read_bus(rom, apu, ppu, pad, 0xFFFE);
            false
        } else {
            self.addr_h = self.read_bus(rom, apu, ppu, pad, 0xFFFF);
            self.pc = get_addr(self.addr_h, self.addr_l);
            true
        }
    }


    /// RTI: pulls P with B clear, then PC.
    #[verifier::rlimit(60)]
    fn execute_rti(&mut self, rom: &Rom, apu: &mut Apu, ppu: &mut Ppu, pad: &PadInputs) -> (done: bool)
        requires
            old(self).wf(),
            old(apu).wf(),
            old(ppu).wf(),
            old(self).instruction == Instruction::RTI,
        ensures
            final(self).wf(),
            final(apu).wf(),
            final(ppu).wf(),
            final(ppu).frame_position() == old(ppu).frame_position(),
            final(self).keeps_control(old(self)),
            final(self).suspend_cycle == old(self).suspend_cycle,
            !done ==> old(self).step < 5,
            Cpu::subroutine_step(*old(self), *final(self), rom, done),
            final(self).op == old(self).op,
            final(self).addressing_overflow == old(self).addressing_overflow,
            final(self).bus.ext_ram() == old(self).bus.ext_ram(),
    {
        let step = self.step;
        if step < 2 {
            false
        } else if step == 2 {
            let status = self.pop(rom, apu, ppu, pad);
            self.p.write(status);
            self.p.b = false;
            false
        } else if step == 3 {
            self.addr_l = self.pop(rom, apu, ppu, pad);
            false
        } else {
            self.addr_h = self.pop(rom, apu, ppu, pad);
            self.pc = get_addr(self.addr_h, self.addr_l);
            true
        }
    }

    /// PHA and PHP.
    fn execute_push(&mut self, rom: &Rom, apu: &mut Apu, ppu: &mut Ppu, pad: &PadInputs) -> (done: bool)
        requires
            old(self).wf(),
            old(apu).wf(),
            old(ppu).wf(),
            old(self).instruction == Instruction::PHA || old(self).instruction == Instruction::PHP,
        ensures
            final(self).wf(),
            final(apu).wf(),
            final(ppu).wf(),
            final(ppu).frame_position() == old(ppu).frame_position(),
            final(self).keeps_control(old(self)),
            final(self).suspend_cycle == old(self).suspend_cycle,
            !done ==> old(self).step < 5,
            Cpu::push_pull_step(*old(self), *final(self), done),
            final(self).keeps_latches(old(self)),
            final(self).bus.ext_ram() == old(self).bus.ext_ram(),
    {
        let step = self.step;
        if step == 0 {
            false
        } else {
            let value = if self.instruction == Instruction::PHA {
                self.a
            } else {
                self.p.byte_for_push(true)
            };
            self.push(rom, apu, ppu, value);
            true
        }
    }

    /// PLA and PLP.
    fn execute_pull(&mut self, rom: &Rom, apu: &mut Apu, ppu: &mut Ppu, pad: &PadInputs) -> (done: bool)
        requires
            old(self).wf(),
            old(apu).wf(),
            old(ppu).wf(),
            old(self).instruction == Instruction::PLA || old(self).instruction == Instruction::PLP,
        ensures
            final(self).wf(),
            final(apu).wf(),
            final(ppu).wf(),
            final(ppu).frame_position() == old(ppu).frame_position(),
            final(self).keeps_control(old(self)),
            final(self).suspend_cycle == old(self).suspend_cycle,
            !done ==> old(self).step < 5,
            Cpu::push_pull_step(*old(self), *final(self), done),
            final(self).keeps_latches(old(self)),
            final(self).bus.ext_ram() == old(self).bus.ext_ram(),
    {
        let step = self.step;
        if step < 2 {
            false
        } else {
            let value = self.pop(rom, apu, ppu, pad);
            if self.instruction == Instruction::PLA {
                self.a = value;
                self.p.n = value >= 128;
                self.p.z = value == 0;
            } else {
                self.p.write(value);
                self.p.b = false;
            }
            true
        }
    }

    /// JSR, RTS, BRK and RTI. BRK pushes P with B set.
    fn execute_subroutine(&mut self, rom: &Rom, apu: &mut Apu, ppu: &mut Ppu, pad: &PadInputs) -> (done: bool)
        requires
            old(self).wf(),
            old(apu).wf(),
            old(ppu).wf(),
        ensures
            final(self).wf(),
            final(apu).wf(),
            final(ppu).wf(),
            final(ppu).frame_position() == old(ppu).frame_position(),
            final(self).keeps_control(old(self)),
            final(self).suspend_cycle == old(self).suspend_cycle,
            !done ==> old(self).step < 5,
            old(self).instruction == Instruction::BRK && old(self).step == 3 ==> final(self).bus.wram()
                == old(self).bus.wram().update(0x100 + old(self).sp, old(self).p.byte_with(true) as u8)
                && final(self).sp == (old(self).sp + 255) % 256,
            Cpu::subroutine_step(*old(self), *final(self), rom, done),
            final(self).op == old(self).op,
            !(old(self).instruction == Instruction::RTS || old(self).instruction == Instruction::RTI
                || old(self).instruction == Instruction::BRK) ==> final(self).addr_l == old(self).addr_l
                && final(self).addr_h == old(self).addr_h,
            !is_branch_instruction(old(self).instruction) ==> final(self).addressing_overflow
                == old(self).addressing_overflow,
            !((is_store_instruction(old(self).instruction) || is_modify_instruction(old(self).instruction))
                && 0x6000 <= old(self).effective_addr() < 0x8000) ==> final(self).bus.ext_ram()
                == old(self).bus.ext_ram(),
    {
        match self.instruction {
            Instruction::JSR => self.execute_jsr(rom, apu, ppu, pad),
            Instruction::RTS => self.execute_rts(rom, apu, ppu, pad),
            Instruction::BRK => self.execute_brk(rom, apu, ppu, pad),
            Instruction::RTI => self.execute_rti(rom, apu, ppu, pad),
            _ => {
                self.pc = get_addr(self.addr_h, self.addr_l);
                true
            },
        }
    }

    /// PHA, PHP, PLA and PLP. PHP pushes P with B set; PLP clears B.
    fn execute_stack(&mut self, rom: &Rom, apu: &mut Apu, ppu: &mut Ppu, pad: &PadInputs) -> (done: bool)
        requires
            old(self).wf(),
            old(apu).wf(),
            old(ppu).wf(),
        ensures
            final(self).wf(),
            final(apu).wf(),
            final(ppu).wf(),
            final(ppu).frame_position() == old(ppu).frame_position(),
            final(self).keeps_control(old(self)),
            final(self).suspend_cycle == old(self).suspend_cycle,
            !done ==> old(self).step < 5,
            old(self).instruction == Instruction::PHP && old(self).step == 1 ==> done && final(self).bus.wram()
                == old(self).bus.wram().update(0x100 + old(self).sp, old(self).p.byte_with(true) as u8)
                && final(self).sp == (old(self).sp + 255) % 256,
            old(self).instruction == Instruction::PLP && old(self).step == 2 ==> done && !final(self).p.b
                && final(self).sp == (old(self).sp + 1) % 256,
            Cpu::push_pull_step(*old(self), *final(self), done),
            final(self).keeps_latches(old(self)),
            final(self).bus.ext_ram() == old(self).bus.ext_ram(),
    {
        match self.instruction {
            Instruction::PHA | Instruction::PHP => self.execute_push(rom, apu, ppu, pad),
            Instruction::PLA | Instruction::PLP => self.execute_pull(rom, apu, ppu, pad),
            _ => true,
        }
    }

    /// One-cycle implied instructions.
    fn execute_implied(&mut self)
        ensures
            final(self).wf() == old(self).wf(),
            final(self).keeps_control(old(self)),
            final(self).suspend_cycle == old(self).suspend_cycle,
            final(self).pc == old(self).pc,
            final(self).bus == old(self).bus,
            Cpu::implied_step(*old(self), *final(self), true),
            final(self).keeps_latches(old(self)),
            final(self).bus.ext_ram() == old(self).bus.ext_ram(),
    {
        let p = apply_flag_instruction(self.instruction, self.p);
        self.p = p;
        let (r, sp) = apply_transfer(self.instruction, self.regs(), self.sp);
        self.set_regs(r);
        self.sp = sp;
    }

    /// One micro-step of the current instruction. Returns true when it is complete.
    fn execute(&mut self, rom: &Rom, apu: &mut Apu, ppu: &mut Ppu, pad: &PadInputs) -> (done: bool)
        requires
            old(self).wf(),
            old(apu).wf(),
            old(ppu).wf(),
        ensures
            final(self).wf(),
            final(apu).wf(),
            final(ppu).wf(),
            final(ppu).frame_position() == old(ppu).frame_position(),
            final(self).keeps_control(old(self)),
            !done ==> old(self).step < 5,
            old(self).suspend_cycle == 0 ==> final(self).suspend_cycle == 0 || final(self).suspend_cycle
                == crate::bus::DMA_CYCLES,
            is_read_instruction(old(self).instruction) ==> done && final(self).pc == old(self).pc,
            is_store_instruction(old(self).instruction) ==> done && final(self).pc == old(self).pc
                && final(self).regs_view() == old(self).regs_view() && (old(self).effective_addr() < 0x2000
                ==> final(self).bus.wram() == old(self).bus.wram().update(
                old(self).effective_addr() % 0x800,
                store_value(old(self).instruction, old(self).regs_view()),
            )),
            is_read_instruction(old(self).instruction) && old(self).is_immediate ==> read_effect(
                old(self).instruction,
                old(self).regs_view(),
                old(self).immediate_operand,
                final(self).regs_view(),
            ),
            is_read_instruction(old(self).instruction) && !old(self).is_immediate && (old(self).effective_addr()
                < 0x2000 || old(self).effective_addr() >= 0x6000) ==> read_effect(
                old(self).instruction,
                old(self).regs_view(),
                old(self).bus.peek_value(rom, old(self).effective_addr()),
                final(self).regs_view(),
            ),
            Cpu::read_step(*old(self), *final(self), rom, done),
            Cpu::store_step(*old(self), *final(self), done),
            Cpu::branch_step(*old(self), *final(self), rom, done),
            Cpu::modify_step(*old(self), *final(self), rom, done),
            Cpu::implied_step(*old(self), *final(self), done),
            Cpu::push_pull_step(*old(self), *final(self), done),
            Cpu::subroutine_step(*old(self), *final(self), rom, done),
            final(self).op == old(self).op,
            !(old(self).instruction == Instruction::RTS || old(self).instruction == Instruction::RTI
                || old(self).instruction == Instruction::BRK) ==> final(self).addr_l == old(self).addr_l
                && final(self).addr_h == old(self).addr_h,
            !is_branch_instruction(old(self).instruction) ==> final(self).addressing_overflow
                == old(self).addressing_overflow,
            !((is_store_instruction(old(self).instruction) || is_modify_instruction(old(self).instruction))
                && 0x6000 <= old(self).effective_addr() < 0x8000) ==> final(self).bus.ext_ram()
                == old(self).bus.ext_ram(),
            Cpu::execute_carry(*old(self), *final(self)),
    {
        match self.instruction {
            Instruction::ADC | Instruction::SBC | Instruction::AND | Instruction::ORA | Instruction::EOR
            | Instruction::CMP | Instruction::CPX | Instruction::CPY | Instruction::BIT | Instruction::LDA
            | Instruction::LDX | Instruction::LDY | Instruction::LAX => {
                self.execute_read(rom, apu, ppu, pad);
                true
            },
            Instruction::NOP => {
                true
            },
            Instruction::STA | Instruction::STX | Instruction::STY | Instruction::SAX => {
                self.execute_store(rom, apu, ppu);
                true
            },
            Instruction::ASL | Instruction::LSR | Instruction::ROL | Instruction::ROR | Instruction::INC
            | Instruction::DEC | Instruction::SLO | Instruction::RLA | Instruction::SRE | Instruction::RRA
            | Instruction::DCP | Instruction::ISB => self.execute_modify(rom, apu, ppu, pad),
            Instruction::BCC | Instruction::BCS | Instruction::BEQ | Instruction::BNE | Instruction::BVC
            | Instruction::BVS | Instruction::BPL | Instruction::BMI => self.execute_branch(rom, apu, ppu, pad),
            Instruction::JMP | Instruction::JSR | Instruction::RTS | Instruction::BRK | Instruction::RTI
            | Instruction::PHA | Instruction::PHP | Instruction::PLA | Instruction::PLP => {
                self.execute_control(rom, apu, ppu, pad)
            },
            _ => {
                self.execute_implied();
                true
            },
        }
    }

    /// One step in the operand-fetch state.
    #[verifier::rlimit(60)]
    fn clock_operand(&mut self, rom: &Rom, apu: &mut Apu, ppu: &mut Ppu, pad: &PadInputs)
        requires
            old(self).wf(),
            old(apu).wf(),
            old(ppu).wf(),
            old(self).state == CpuState::ReadOperand,
        ensures
            final(self).wf(),
            final(apu).wf(),
            final(ppu).wf(),
            final(ppu).frame_position() == old(ppu).frame_position(),
            Cpu::operand_effect(*old(self), *final(self), rom),
            final(self).suspend_cycle == old(self).suspend_cycle,
    {
        if self.step >= 4 {
            self.state = CpuState::ExecuteInstruction;
            self.step = 0;
        } else {
            let ghost before = *self;
            let done = self.read_operand(rom, apu, ppu, pad);
            let ghost after = *self;
            if self.state == CpuState::ReadOpcode {
                self.step = 0;
            } else if done {
                self.state = CpuState::ExecuteInstruction;
                self.step = 0;
            } else {
                self.step = self.step + 1;
            }
            proof {
                lemma_operand_ignore_control(before, after, *self, rom, done);
            }
        }
    }

    /// One step in the execution state.
    #[verifier::rlimit(100)]
    fn clock_execute(&mut self, rom: &Rom, apu: &mut Apu, ppu: &mut Ppu, pad: &PadInputs)
        requires
            old(self).wf(),
            old(apu).wf(),
            old(ppu).wf(),
            old(self).state == CpuState::ExecuteInstruction,
        ensures
            final(self).wf(),
            final(apu).wf(),
            final(ppu).wf(),
            final(ppu).frame_position() == old(ppu).frame_position(),
            Cpu::execute_effect(*old(self), *final(self), rom),
            old(self).suspend_cycle == 0 ==> final(self).suspend_cycle == 0 || final(self).suspend_cycle
                == crate::bus::DMA_CYCLES,
    {
        let ghost before = *self;
        let done = self.execute(rom, apu, ppu, pad);
        let ghost after = *self;
        if done {
            self.state = CpuState::ReadOpcode;
            self.step = 0;
        } else {
            self.step = self.step + 1;
        }
        proof {
            lemma_steps_ignore_control(before, after, *self, rom, done);
        }
    }

    /// What one CPU cycle does: a cycle of a DMA stall only counts down; otherwise the
    /// reset sequence, NMI/IRQ entry, fetch, operand or execution step of the current state.
    /// `apu_irq` is the APU's IRQ line.
    pub open spec fn step_effect(o: Cpu, n: Cpu, rom: &Rom, apu_irq: bool) -> bool {
        &&& o.suspend() > 0 ==> {
            &&& n.suspend() == o.suspend() - 1
            &&& n.state() == o.state()
            &&& n.pc_reg() == o.pc_reg()
            &&& n.sp_reg() == o.sp_reg()
            &&& n.a_reg() == o.a_reg()
            &&& n.flags() == o.flags()
            &&& n.bus_state() == o.bus_state()
            &&& n.regs_view() == o.regs_view()
        }
        &&& o.suspend() == 0 ==> n.suspend() == 0 || n.suspend() == crate::bus::DMA_CYCLES
        &&& o.suspend() == 0 && o.state() == CpuState::Reset ==> {
            &&& n.pc_reg() == addr_of(rom.prg_at(0xFFFD), rom.prg_at(0xFFFC))
            &&& n.sp_reg() == 0xFD
            &&& n.flags().i
            &&& n.state() == CpuState::ReadOpcode
        }
        &&& o.suspend() == 0 && (o.state() == CpuState::Nmi || o.state() == CpuState::Irq) ==> {
            let vector: int = if o.state() == CpuState::Nmi {
                0xFFFA
            } else {
                0xFFFE
            };
            let s = o.sp_reg() as int;
            &&& n.pc_reg() == addr_of(rom.prg_at(vector + 1), rom.prg_at(vector))
            &&& n.sp_reg() == (s + 253) % 256
            &&& n.stack_at(s) == high_byte_spec(o.pc_reg())
            &&& n.stack_at((s + 255) % 256) == o.pc_reg() % 256
            &&& n.stack_at((s + 254) % 256) == o.flags().byte_with(false) as u8
            &&& n.flags() == (ProcessorStatusRegister { b: false, i: true, ..o.flags() })
            &&& n.state() == CpuState::ReadOpcode
        }
        &&& o.suspend() == 0 && o.state() == CpuState::ReadOperand ==> Cpu::operand_effect(o, n, rom)
        &&& o.suspend() == 0 && o.state() == CpuState::ExecuteInstruction ==> Cpu::execute_effect(o, n, rom)
        &&& o.suspend() == 0 && o.state() == CpuState::ReadOpcode ==> Cpu::fetch_effect(o, n, rom, apu_irq)
    }

    /// Advances one CPU cycle. While cycles stolen by DMA remain, only that counter moves.
    /// At an instruction boundary a pending reset, NMI or IRQ is taken in that order;
    /// reset, NMI and IRQ entry each take one cycle.
    pub fn clock(&mut self, rom: &Rom, apu: &mut Apu, ppu: &mut Ppu, pad: &PadInputs)
        requires
            old(self).wf(),
            old(apu).wf(),
            old(ppu).wf(),
        ensures
            final(self).wf(),
            final(apu).wf(),
            final(ppu).wf(),
            final(ppu).frame_position() == old(ppu).frame_position(),
            old(self).suspend() > 0 ==> *final(apu) == *old(apu) && *final(ppu) == *old(ppu),
            Cpu::step_effect(*old(self), *final(self), rom, old(apu).check_irq_spec()),
    {
        if self.suspend_cycle > 0 {
            self.suspend_cycle = self.suspend_cycle - 1;
            return;
        }
        match self.state {
            CpuState::Reset => {
                self.enter_reset(rom, apu, ppu, pad);
            },
            CpuState::Nmi => {
                self.enter_interrupt(rom, apu, ppu, pad, 0xFFFA);
                proof {
                    lemma_stack_slots(old(self).sp as int);
                    old(self).bus.lemma_sizes();
                }
            },
            CpuState::Irq => {
                self.enter_interrupt(rom, apu, ppu, pad, 0xFFFE);
                proof {
                    lemma_stack_slots(old(self).sp as int);
                    old(self).bus.lemma_sizes();
                }
            },
            CpuState::ReadOpcode => {
                self.read_opcode(rom, apu, ppu, pad);
            },
            CpuState::ReadOperand => {
                self.clock_operand(rom, apu, ppu, pad);
            },
            CpuState::ExecuteInstruction => {
                self.clock_execute(rom, apu, ppu, pad);
            },
        }
    }
}

/// The high byte of a 16-bit value.
pub open spec fn high_byte_spec(v: u16) -> u8 {
    (v / 256) as u8
}

/// New value of a shift, rotate, increment or decrement of `v` with carry in `c`.
pub open spec fn apply_modify_spec_value(inst: Instruction, c: bool, v: u8) -> u8 {
    if inst == Instruction::ASL || inst == Instruction::SLO {
        ((v * 2) % 256) as u8
    } else if inst == Instruction::LSR || inst == Instruction::SRE {
        (v / 2) as u8
    } else if inst == Instruction::ROL || inst == Instruction::RLA {
        ((v * 2 + if c {
            1int
        } else {
            0
        }) % 256) as u8
    } else if inst == Instruction::ROR || inst == Instruction::RRA {
        (v / 2 + if c {
            128int
        } else {
            0
        }) as u8
    } else if inst == Instruction::INC || inst == Instruction::ISB {
        ((v + 1) % 256) as u8
    } else {
        ((v + 255) % 256) as u8
    }
}

/// The three stack slots an interrupt entry writes are distinct.
proof fn lemma_stack_slots(s: int)
    requires
        0 <= s < 256,
    ensures
        s != (s + 255) % 256,
        s != (s + 254) % 256,
        (s + 255) % 256 != (s + 254) % 256,
{
}

/// Bit 5 of P always reads as 1. Bit 4 (B) is 0 in the copy pushed by NMI and IRQ
/// entry and 1 in the copy pushed by BRK and PHP.
pub proof fn status_bits(p: ProcessorStatusRegister)
    ensures
        bit(p.byte_with(p.b) as u8, 5),
        bit(p.byte_with(p.b) as u8, 4) == p.b,
        bit(p.byte_with(false) as u8, 5),
        !bit(p.byte_with(false) as u8, 4),
        bit(p.byte_with(true) as u8, 5),
        bit(p.byte_with(true) as u8, 4),
{
    lemma_status_byte(p, p.b);
    lemma_status_byte(p, false);
    lemma_status_byte(p, true);
}

proof fn lemma_status_byte(p: ProcessorStatusRegister, b: bool)
    ensures
        0 <= p.byte_with(b) < 256,
        bit(p.byte_with(b) as u8, 5),
        bit(p.byte_with(b) as u8, 4) == b,
{
    let low = flag_value(p.d, 3) + flag_value(p.i, 2) + flag_value(p.z, 1) + flag_value(p.c, 0);
    let high = flag_value(p.n, 7) + flag_value(p.v, 6);
    assert(0 <= low < 16);
    assert(high == 64 * ((if p.n { 2int } else { 0 }) + (if p.v { 1int } else { 0 })));
    let v = p.byte_with(b);
    assert(v == high + 32 + flag_value(b, 4) + low);
    assert(v / 32 == high / 32 + 1);
    assert(v / 16 == high / 16 + 2 + (if b { 1int } else { 0 }));
}

/// The execution-step predicates do not look at the interpreter's state or step counter
/// of the state after.
proof fn lemma_steps_ignore_control(o: Cpu, n1: Cpu, n2: Cpu, rom: &Rom, done: bool)
    requires
        n2 == (Cpu { state: n2.state, step: n2.step, ..n1 }),
        Cpu::read_step(o, n1, rom, done),
        Cpu::store_step(o, n1, done),
        Cpu::branch_step(o, n1, rom, done),
        Cpu::modify_step(o, n1, rom, done),
        Cpu::implied_step(o, n1, done),
        Cpu::push_pull_step(o, n1, done),
        Cpu::subroutine_step(o, n1, rom, done),
        Cpu::execute_carry(o, n1),
        n2.state == (if done {
            CpuState::ReadOpcode
        } else {
            CpuState::ExecuteInstruction
        }),
        n2.step == (if done {
            0
        } else {
            o.step + 1
        }),
    ensures
        Cpu::execute_effect(o, n2, rom),
        Cpu::read_step(o, n2, rom, done),
        Cpu::store_step(o, n2, done),
        Cpu::branch_step(o, n2, rom, done),
        Cpu::modify_step(o, n2, rom, done),
        Cpu::implied_step(o, n2, done),
        Cpu::push_pull_step(o, n2, done),
        Cpu::subroutine_step(o, n2, rom, done),
{
    assert(n2.pc_reg() == n1.pc_reg() && n2.sp_reg() == n1.sp_reg() && n2.regs_view() == n1.regs_view());
    assert(n2.bus_state() == n1.bus_state() && n2.suspend() == n1.suspend() && n2.flags() == n1.flags());
    assert(n2.effective_addr() == n1.effective_addr() && n2.operand_latch() == n1.operand_latch());
    assert(n2.page_crossed() == n1.page_crossed() && n2.a_reg() == n1.a_reg());
    assert(n2.instruction_kind() == n1.instruction_kind() && n2.mode_kind() == n1.mode_kind());
    assert(n2.immediate() == n1.immediate() && n2.accumulator_mode() == n1.accumulator_mode());
    assert(n2.opcode_reg() == n1.opcode_reg());
    assert(Cpu::execute_carry(o, n2));
}

/// The two bytes of a 16-bit address are its quotient and remainder by 256.
proof fn lemma_addr_parts()
    ensures
        forall|h: u8, l: u8| #[trigger] addr_of(h, l) % 256 == l && addr_of(h, l) / 256 == h,
{
    assert forall|h: u8, l: u8| #[trigger] addr_of(h, l) % 256 == l && addr_of(h, l) / 256 == h by {
        assert((h as int * 256 + l as int) % 256 == l as int) by (nonlinear_arith);
        assert((h as int * 256 + l as int) / 256 == h as int) by (nonlinear_arith);
    }
}

/// The operand-step predicate does not look at the interpreter's state or step counter
/// of the state after.
proof fn lemma_operand_ignore_control(o: Cpu, n1: Cpu, n2: Cpu, rom: &Rom, done: bool)
    requires
        n2 == (Cpu { state: n2.state, step: n2.step, ..n1 }),
        Cpu::operand_step(o, n1, rom, done),
        Cpu::jump_step(o, n1, rom),
        n1.state == CpuState::ReadOpcode ==> n2.state == n1.state,
        n1.state != CpuState::ReadOpcode ==> n2.state != CpuState::ReadOpcode,
    ensures
        Cpu::operand_step(o, n2, rom, done),
        Cpu::jump_step(o, n2, rom),
{
    assert(n2.pc_reg() == n1.pc_reg() && n2.sp_reg() == n1.sp_reg() && n2.regs_view() == n1.regs_view());
    assert(n2.bus_state() == n1.bus_state() && n2.suspend() == n1.suspend());
    assert(n2.effective_addr() == n1.effective_addr() && n2.page_crossed() == n1.page_crossed());
    assert(n2.instruction_kind() == n1.instruction_kind() && n2.mode_kind() == n1.mode_kind());
    assert(n2.immediate() == n1.immediate() && n2.opcode_reg() == n1.opcode_reg());
}

} // verus!
