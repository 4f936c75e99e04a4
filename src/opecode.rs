//! The opcode table: instruction, addressing mode and base cycle count of
//! every one of the 256 opcode bytes.
use vstd::prelude::*;

verus! {

/// The rule by which an instruction's operand bytes become a value or an
/// address.
#[derive(Clone, Copy, Debug, PartialEq, Eq, Structural)]
pub enum AddressingMode {
    Implied,
    Accumulator,
    Immediate,
    ZeroPage,
    ZeroPageX,
    ZeroPageY,
    Relative,
    Absolute,
    AbsoluteX,
    AbsoluteY,
    IndirectAbsolute,
    PreIndexedIndirect,
    PostIndexedIndirect,
}

/// The instructions, documented and undocumented, that opcode bytes name.
/// `JAM` marks the bytes that halt the processor, `Undefined` the bytes
/// that name none.
#[derive(Clone, Copy, Debug, PartialEq, Eq, Structural)]
pub enum Command {
    BNE,
    DEY,
    INX,
    JMP,
    LDA,
    LDX,
    LDY,
    SEI,
    STA,
    TXS,
    ADC,
    AND,
    ASL,
    BCC,
    BCS,
    BEQ,
    BIT,
    BMI,
    BPL,
    BRK,
    BVC,
    BVS,
    CLC,
    CLD,
    CLI,
    CLV,
    CMP,
    CPX,
    CPY,
    DCP,
    DEC,
    DEX,
    EOR,
    INC,
    INY,
    ISB,
    JSR,
    LAX,
    LSR,
    NOP,
    ORA,
    PHA,
    PHP,
    PLA,
    PLP,
    RLA,
    ROL,
    ROR,
    RRA,
    RTI,
    RTS,
    SAX,
    SBC,
    SEC,
    SED,
    SLO,
    SRE,
    STX,
    STY,
    TAX,
    TAY,
    TSX,
    TXA,
    TYA,
    JAM,
    Undefined,
}

/// One entry of the opcode table.
#[derive(Clone, Copy, Debug, PartialEq, Eq, Structural)]
pub struct Opecode {
    pub command: Command,
    pub mode: AddressingMode,
    pub cycle: usize,
}

/// The instruction that each opcode byte names; bytes that name none map to
/// `Command::Undefined`.
pub open spec fn command_of(op: u8) -> Command {
    match op {
        0xD0 => Command::BNE,
        0x88 => Command::DEY,
        0xE8 => Command::INX,
        0x4C | 0x6C => Command::JMP,
        0xA1 | 0xA5 | 0xA9 | 0xAD | 0xB1 | 0xB5 | 0xB9 | 0xBD => Command::LDA,
        0xA2 | 0xA6 | 0xAE | 0xB6 | 0xBE => Command::LDX,
        0xA0 | 0xA4 | 0xAC | 0xB4 | 0xBC => Command::LDY,
        0x78 => Command::SEI,
        0x81 | 0x85 | 0x8D | 0x91 | 0x95 | 0x99 | 0x9D => Command::STA,
        0x9A => Command::TXS,
        0x61 | 0x65 | 0x69 | 0x6D | 0x71 | 0x75 | 0x79 | 0x7D => Command::ADC,
        0x21 | 0x25 | 0x29 | 0x2D | 0x31 | 0x35 | 0x39 | 0x3D => Command::AND,
        0x06 | 0x0A | 0x0E | 0x16 | 0x1E => Command::ASL,
        0x90 => Command::BCC,
        0xB0 => Command::BCS,
        0xF0 => Command::BEQ,
        0x24 | 0x2C => Command::BIT,
        0x30 => Command::BMI,
        0x10 => Command::BPL,
        0x00 => Command::BRK,
        0x50 => Command::BVC,
        0x70 => Command::BVS,
        0x18 => Command::CLC,
        0xD8 => Command::CLD,
        0x58 => Command::CLI,
        0xB8 => Command::CLV,
        0xC1 | 0xC5 | 0xC9 | 0xCD | 0xD1 | 0xD5 | 0xD9 | 0xDD => Command::CMP,
        0xE0 | 0xE4 | 0xEC => Command::CPX,
        0xC0 | 0xC4 | 0xCC => Command::CPY,
        0xC3 | 0xC7 | 0xCF | 0xD3 | 0xD7 | 0xDB | 0xDF => Command::DCP,
        0xC6 | 0xCE | 0xD6 | 0xDE => Command::DEC,
        0xCA => Command::DEX,
        0x41 | 0x45 | 0x49 | 0x4D | 0x51 | 0x55 | 0x59 | 0x5D => Command::EOR,
        0xE6 | 0xEE | 0xF6 | 0xFE => Command::INC,
        0xC8 => Command::INY,
        0xE3 | 0xE7 | 0xEF | 0xF3 | 0xF7 | 0xFB | 0xFF => Command::ISB,
        0x20 => Command::JSR,
        0xA3 | 0xA7 | 0xAF | 0xB3 | 0xB7 | 0xBF => Command::LAX,
        0x46 | 0x4A | 0x4E | 0x56 | 0x5E => Command::LSR,
        0x04 | 0x0C | 0x14 | 0x1A | 0x1C | 0x34 | 0x3A | 0x3C | 0x44 | 0x54 | 0x5A | 0x5C |
            0x64 | 0x74 | 0x7A | 0x7C | 0x80 | 0x82 | 0x89 | 0xC2 | 0xD4 | 0xDA | 0xDC | 0xE2 |
            0xEA | 0xF4 | 0xFA | 0xFC => Command::NOP,
        0x01 | 0x05 | 0x09 | 0x0D | 0x11 | 0x15 | 0x19 | 0x1D => Command::ORA,
        0x48 => Command::PHA,
        0x08 => Command::PHP,
        0x68 => Command::PLA,
        0x28 => Command::PLP,
        0x23 | 0x27 | 0x2F | 0x33 | 0x37 | 0x3B | 0x3F => Command::RLA,
        0x26 | 0x2A | 0x2E | 0x36 | 0x3E => Command::ROL,
        0x66 | 0x6A | 0x6E | 0x76 | 0x7E => Command::ROR,
        0x63 | 0x67 | 0x6F | 0x73 | 0x77 | 0x7B | 0x7F => Command::RRA,
        0x40 => Command::RTI,
        0x60 => Command::RTS,
        0x83 | 0x87 | 0x8F | 0x97 => Command::SAX,
        0xE1 | 0xE5 | 0xE9 | 0xEB | 0xED | 0xF1 | 0xF5 | 0xF9 | 0xFD => Command::SBC,
        0x38 => Command::SEC,
        0xF8 => Command::SED,
        0x03 | 0x07 | 0x0F | 0x13 | 0x17 | 0x1B | 0x1F => Command::SLO,
        0x43 | 0x47 | 0x4F | 0x53 | 0x57 | 0x5B | 0x5F => Command::SRE,
        0x86 | 0x8E | 0x96 => Command::STX,
        0x84 | 0x8C | 0x94 => Command::STY,
        0xAA => Command::TAX,
        0xA8 => Command::TAY,
        0xBA => Command::TSX,
        0x8A => Command::TXA,
        0x98 => Command::TYA,
        0x02 | 0x12 | 0x22 | 0x32 | 0x42 | 0x52 | 0x62 | 0x72 | 0x92 | 0xB2 | 0xD2 | 0xF2 => Command::JAM,
        _ => Command::Undefined,
    }
}

/// The addressing mode of each opcode byte.
pub open spec fn mode_of(op: u8) -> AddressingMode {
    match op {
        0x00 | 0x02 | 0x08 | 0x0B | 0x12 | 0x18 | 0x1A | 0x22 | 0x28 | 0x2B | 0x32 | 0x38 |
            0x3A | 0x40 | 0x42 | 0x48 | 0x4B | 0x52 | 0x58 | 0x5A | 0x60 | 0x62 | 0x68 | 0x6B |
            0x72 | 0x78 | 0x7A | 0x88 | 0x8A | 0x8B | 0x92 | 0x93 | 0x98 | 0x9A | 0x9B | 0x9C |
            0x9E | 0x9F | 0xA8 | 0xAA | 0xAB | 0xB2 | 0xB8 | 0xBA | 0xBB | 0xC8 | 0xCA | 0xCB |
            0xD2 | 0xD8 | 0xDA | 0xE8 | 0xEA | 0xF2 | 0xF8 | 0xFA => AddressingMode::Implied,
        0x0A | 0x2A | 0x4A | 0x6A => AddressingMode::Accumulator,
        0x09 | 0x29 | 0x49 | 0x69 | 0x80 | 0x82 | 0x89 | 0xA0 | 0xA2 | 0xA9 | 0xC0 | 0xC2 |
            0xC9 | 0xE0 | 0xE2 | 0xE9 | 0xEB => AddressingMode::Immediate,
        0x04 | 0x05 | 0x06 | 0x07 | 0x24 | 0x25 | 0x26 | 0x27 | 0x44 | 0x45 | 0x46 | 0x47 |
            0x64 | 0x65 | 0x66 | 0x67 | 0x84 | 0x85 | 0x86 | 0x87 | 0xA4 | 0xA5 | 0xA6 | 0xA7 |
            0xC4 | 0xC5 | 0xC6 | 0xC7 | 0xE4 | 0xE5 | 0xE6 | 0xE7 => AddressingMode::ZeroPage,
        0x14 | 0x15 | 0x16 | 0x17 | 0x34 | 0x35 | 0x36 | 0x37 | 0x54 | 0x55 | 0x56 | 0x57 |
            0x74 | 0x75 | 0x76 | 0x77 | 0x94 | 0x95 | 0xB4 | 0xB5 | 0xD4 | 0xD5 | 0xD6 | 0xD7 |
            0xF4 | 0xF5 | 0xF6 | 0xF7 => AddressingMode::ZeroPageX,
        0x96 | 0x97 | 0xB6 | 0xB7 => AddressingMode::ZeroPageY,
        0x10 | 0x30 | 0x50 | 0x70 | 0x90 | 0xB0 | 0xD0 | 0xF0 => AddressingMode::Relative,
        0x0C | 0x0D | 0x0E | 0x0F | 0x20 | 0x2C | 0x2D | 0x2E | 0x2F | 0x4C | 0x4D | 0x4E |
            0x4F | 0x6D | 0x6E | 0x6F | 0x8C | 0x8D | 0x8E | 0x8F | 0xAC | 0xAD | 0xAE | 0xAF |
            0xCC | 0xCD | 0xCE | 0xCF | 0xEC | 0xED | 0xEE | 0xEF => AddressingMode::Absolute,
        0x1C | 0x1D | 0x1E | 0x1F | 0x3C | 0x3D | 0x3E | 0x3F | 0x5C | 0x5D | 0x5E | 0x5F |
            0x7C | 0x7D | 0x7E | 0x7F | 0x9D | 0xBC | 0xBD | 0xDC | 0xDD | 0xDE | 0xDF | 0xFC |
            0xFD | 0xFE | 0xFF => AddressingMode::AbsoluteX,
        0x19 | 0x1B | 0x39 | 0x3B | 0x59 | 0x5B | 0x79 | 0x7B | 0x99 | 0xB9 | 0xBE | 0xBF |
            0xD9 | 0xDB | 0xF9 | 0xFB => AddressingMode::AbsoluteY,
        0x6C => AddressingMode::IndirectAbsolute,
        0x01 | 0x03 | 0x21 | 0x23 | 0x41 | 0x43 | 0x61 | 0x63 | 0x81 | 0x83 | 0xA1 | 0xA3 |
            0xC1 | 0xC3 | 0xE1 | 0xE3 => AddressingMode::PreIndexedIndirect,
        _ => AddressingMode::PostIndexedIndirect,
    }
}

/// The base cycle count of each opcode byte, without page-cross or
/// branch-taken penalties.
pub open spec fn cycles_of(op: u8) -> usize {
    match op {
        0x02 | 0x09 | 0x0A | 0x0B | 0x10 | 0x12 | 0x18 | 0x1A | 0x22 | 0x29 | 0x2A | 0x2B |
            0x30 | 0x32 | 0x38 | 0x3A | 0x42 | 0x49 | 0x4A | 0x4B | 0x50 | 0x52 | 0x58 | 0x5A |
            0x62 | 0x69 | 0x6A | 0x6B | 0x70 | 0x72 | 0x78 | 0x7A | 0x80 | 0x82 | 0x88 | 0x89 |
            0x8A | 0x8B | 0x90 | 0x92 | 0x98 | 0x9A | 0xA0 | 0xA2 | 0xA8 | 0xA9 | 0xAA | 0xAB |
            0xB0 | 0xB2 | 0xB8 | 0xBA | 0xC0 | 0xC2 | 0xC8 | 0xC9 | 0xCA | 0xCB | 0xD0 | 0xD2 |
            0xD8 | 0xDA | 0xE0 | 0xE2 | 0xE8 | 0xE9 | 0xEA | 0xEB | 0xF0 | 0xF2 | 0xF8 | 0xFA => 2,
        0x04 | 0x05 | 0x08 | 0x24 | 0x25 | 0x44 | 0x45 | 0x48 | 0x4C | 0x64 | 0x65 | 0x84 |
            0x85 | 0x86 | 0x87 | 0xA4 | 0xA5 | 0xA6 | 0xA7 | 0xC4 | 0xC5 | 0xE4 | 0xE5 => 3,
        0x0C | 0x0D | 0x14 | 0x15 | 0x19 | 0x1C | 0x1D | 0x28 | 0x2C | 0x2D | 0x34 | 0x35 |
            0x39 | 0x3C | 0x3D | 0x4D | 0x54 | 0x55 | 0x59 | 0x5C | 0x5D | 0x68 | 0x6D | 0x74 |
            0x75 | 0x79 | 0x7C | 0x7D | 0x8C | 0x8D | 0x8E | 0x8F | 0x94 | 0x95 | 0x96 | 0x97 |
            0x99 | 0x9D | 0xAC | 0xAD | 0xAE | 0xAF | 0xB4 | 0xB5 | 0xB6 | 0xB7 | 0xB9 | 0xBB |
            0xBC | 0xBD | 0xBE | 0xBF | 0xCC | 0xCD | 0xD4 | 0xD5 | 0xD9 | 0xDC | 0xDD | 0xEC |
            0xED | 0xF4 | 0xF5 | 0xF9 | 0xFC | 0xFD => 4,
        0x06 | 0x07 | 0x11 | 0x26 | 0x27 | 0x31 | 0x46 | 0x47 | 0x51 | 0x66 | 0x67 | 0x6C |
            0x71 | 0x9B | 0x9C | 0x9E | 0x9F | 0xB1 | 0xB3 | 0xC6 | 0xC7 | 0xD1 | 0xE6 | 0xE7 |
            0xF1 => 5,
        0x01 | 0x0E | 0x0F | 0x16 | 0x17 | 0x1E | 0x20 | 0x21 | 0x2E | 0x2F | 0x36 | 0x37 |
            0x3E | 0x40 | 0x41 | 0x4E | 0x4F | 0x56 | 0x57 | 0x5E | 0x60 | 0x61 | 0x6E | 0x6F |
            0x76 | 0x77 | 0x7E | 0x81 | 0x83 | 0x91 | 0x93 | 0xA1 | 0xA3 | 0xC1 | 0xCE | 0xCF |
            0xD6 | 0xD7 | 0xE1 | 0xEE | 0xEF | 0xF6 | 0xF7 => 6,
        0x00 | 0x1B | 0x1F | 0x3B | 0x3F | 0x5B | 0x5F | 0x7B | 0x7F | 0xDB | 0xDE | 0xDF |
            0xFB | 0xFE | 0xFF => 7,
        _ => 8,
    }
}

/// The table entry of an opcode byte. Opaque: a proof about one step needs
/// the entry only by name, and unfolding the 256 cases there costs much.
#[verifier::opaque]
pub open spec fn opecode_of(op: u8) -> Opecode {
    Opecode { command: command_of(op), mode: mode_of(op), cycle: cycles_of(op) }
}

impl Opecode {
    /// The table entry of an opcode byte. Every byte has one.
    pub fn lookup(op: u8) -> (r: Opecode)
        ensures
            r == opecode_of(op),
    {
        reveal(opecode_of);
        match op {
            0x00 => Opecode { command: Command::BRK, mode: AddressingMode::Implied, cycle: 7 },
            0x01 => Opecode { command: Command::ORA, mode: AddressingMode::PreIndexedIndirect, cycle: 6 },
            0x02 => Opecode { command: Command::JAM, mode: AddressingMode::Implied, cycle: 2 },
            0x03 => Opecode { command: Command::SLO, mode: AddressingMode::PreIndexedIndirect, cycle: 8 },
            0x04 => Opecode { command: Command::NOP, mode: AddressingMode::ZeroPage, cycle: 3 },
            0x05 => Opecode { command: Command::ORA, mode: AddressingMode::ZeroPage, cycle: 3 },
            0x06 => Opecode { command: Command::ASL, mode: AddressingMode::ZeroPage, cycle: 5 },
            0x07 => Opecode { command: Command::SLO, mode: AddressingMode::ZeroPage, cycle: 5 },
            0x08 => Opecode { command: Command::PHP, mode: AddressingMode::Implied, cycle: 3 },
            0x09 => Opecode { command: Command::ORA, mode: AddressingMode::Immediate, cycle: 2 },
            0x0A => Opecode { command: Command::ASL, mode: AddressingMode::Accumulator, cycle: 2 },
            0x0B => Opecode { command: Command::Undefined, mode: AddressingMode::Implied, cycle: 2 },
            0x0C => Opecode { command: Command::NOP, mode: AddressingMode::Absolute, cycle: 4 },
            0x0D => Opecode { command: Command::ORA, mode: AddressingMode::Absolute, cycle: 4 },
            0x0E => Opecode { command: Command::ASL, mode: AddressingMode::Absolute, cycle: 6 },
            0x0F => Opecode { command: Command::SLO, mode: AddressingMode::Absolute, cycle: 6 },
            0x10 => Opecode { command: Command::BPL, mode: AddressingMode::Relative, cycle: 2 },
            0x11 => Opecode { command: Command::ORA, mode: AddressingMode::PostIndexedIndirect, cycle: 5 },
            0x12 => Opecode { command: Command::JAM, mode: AddressingMode::Implied, cycle: 2 },
            0x13 => Opecode { command: Command::SLO, mode: AddressingMode::PostIndexedIndirect, cycle: 8 },
            0x14 => Opecode { command: Command::NOP, mode: AddressingMode::ZeroPageX, cycle: 4 },
            0x15 => Opecode { command: Command::ORA, mode: AddressingMode::ZeroPageX, cycle: 4 },
            0x16 => Opecode { command: Command::ASL, mode: AddressingMode::ZeroPageX, cycle: 6 },
            0x17 => Opecode { command: Command::SLO, mode: AddressingMode::ZeroPageX, cycle: 6 },
            0x18 => Opecode { command: Command::CLC, mode: AddressingMode::Implied, cycle: 2 },
            0x19 => Opecode { command: Command::ORA, mode: AddressingMode::AbsoluteY, cycle: 4 },
            0x1A => Opecode { command: Command::NOP, mode: AddressingMode::Implied, cycle: 2 },
            0x1B => Opecode { command: Command::SLO, mode: AddressingMode::AbsoluteY, cycle: 7 },
            0x1C => Opecode { command: Command::NOP, mode: AddressingMode::AbsoluteX, cycle: 4 },
            0x1D => Opecode { command: Command::ORA, mode: AddressingMode::AbsoluteX, cycle: 4 },
            0x1E => Opecode { command: Command::ASL, mode: AddressingMode::AbsoluteX, cycle: 6 },
            0x1F => Opecode { command: Command::SLO, mode: AddressingMode::AbsoluteX, cycle: 7 },
            0x20 => Opecode { command: Command::JSR, mode: AddressingMode::Absolute, cycle: 6 },
            0x21 => Opecode { command: Command::AND, mode: AddressingMode::PreIndexedIndirect, cycle: 6 },
            0x22 => Opecode { command: Command::JAM, mode: AddressingMode::Implied, cycle: 2 },
            0x23 => Opecode { command: Command::RLA, mode: AddressingMode::PreIndexedIndirect, cycle: 8 },
            0x24 => Opecode { command: Command::BIT, mode: AddressingMode::ZeroPage, cycle: 3 },
            0x25 => Opecode { command: Command::AND, mode: AddressingMode::ZeroPage, cycle: 3 },
            0x26 => Opecode { command: Command::ROL, mode: AddressingMode::ZeroPage, cycle: 5 },
            0x27 => Opecode { command: Command::RLA, mode: AddressingMode::ZeroPage, cycle: 5 },
            0x28 => Opecode { command: Command::PLP, mode: AddressingMode::Implied, cycle: 4 },
            0x29 => Opecode { command: Command::AND, mode: AddressingMode::Immediate, cycle: 2 },
            0x2A => Opecode { command: Command::ROL, mode: AddressingMode::Accumulator, cycle: 2 },
            0x2B => Opecode { command: Command::Undefined, mode: AddressingMode::Implied, cycle: 2 },
            0x2C => Opecode { command: Command::BIT, mode: AddressingMode::Absolute, cycle: 4 },
            0x2D => Opecode { command: Command::AND, mode: AddressingMode::Absolute, cycle: 4 },
            0x2E => Opecode { command: Command::ROL, mode: AddressingMode::Absolute, cycle: 6 },
            0x2F => Opecode { command: Command::RLA, mode: AddressingMode::Absolute, cycle: 6 },
            0x30 => Opecode { command: Command::BMI, mode: AddressingMode::Relative, cycle: 2 },
            0x31 => Opecode { command: Command::AND, mode: AddressingMode::PostIndexedIndirect, cycle: 5 },
            0x32 => Opecode { command: Command::JAM, mode: AddressingMode::Implied, cycle: 2 },
            0x33 => Opecode { command: Command::RLA, mode: AddressingMode::PostIndexedIndirect, cycle: 8 },
            0x34 => Opecode { command: Command::NOP, mode: AddressingMode::ZeroPageX, cycle: 4 },
            0x35 => Opecode { command: Command::AND, mode: AddressingMode::ZeroPageX, cycle: 4 },
            0x36 => Opecode { command: Command::ROL, mode: AddressingMode::ZeroPageX, cycle: 6 },
            0x37 => Opecode { command: Command::RLA, mode: AddressingMode::ZeroPageX, cycle: 6 },
            0x38 => Opecode { command: Command::SEC, mode: AddressingMode::Implied, cycle: 2 },
            0x39 => Opecode { command: Command::AND, mode: AddressingMode::AbsoluteY, cycle: 4 },
            0x3A => Opecode { command: Command::NOP, mode: AddressingMode::Implied, cycle: 2 },
            0x3B => Opecode { command: Command::RLA, mode: AddressingMode::AbsoluteY, cycle: 7 },
            0x3C => Opecode { command: Command::NOP, mode: AddressingMode::AbsoluteX, cycle: 4 },
            0x3D => Opecode { command: Command::AND, mode: AddressingMode::AbsoluteX, cycle: 4 },
            0x3E => Opecode { command: Command::ROL, mode: AddressingMode::AbsoluteX, cycle: 6 },
            0x3F => Opecode { command: Command::RLA, mode: AddressingMode::AbsoluteX, cycle: 7 },
            0x40 => Opecode { command: Command::RTI, mode: AddressingMode::Implied, cycle: 6 },
            0x41 => Opecode { command: Command::EOR, mode: AddressingMode::PreIndexedIndirect, cycle: 6 },
            0x42 => Opecode { command: Command::JAM, mode: AddressingMode::Implied, cycle: 2 },
            0x43 => Opecode { command: Command::SRE, mode: AddressingMode::PreIndexedIndirect, cycle: 8 },
            0x44 => Opecode { command: Command::NOP, mode: AddressingMode::ZeroPage, cycle: 3 },
            0x45 => Opecode { command: Command::EOR, mode: AddressingMode::ZeroPage, cycle: 3 },
            0x46 => Opecode { command: Command::LSR, mode: AddressingMode::ZeroPage, cycle: 5 },
            0x47 => Opecode { command: Command::SRE, mode: AddressingMode::ZeroPage, cycle: 5 },
            0x48 => Opecode { command: Command::PHA, mode: AddressingMode::Implied, cycle: 3 },
            0x49 => Opecode { command: Command::EOR, mode: AddressingMode::Immediate, cycle: 2 },
            0x4A => Opecode { command: Command::LSR, mode: AddressingMode::Accumulator, cycle: 2 },
            0x4B => Opecode { command: Command::Undefined, mode: AddressingMode::Implied, cycle: 2 },
            0x4C => Opecode { command: Command::JMP, mode: AddressingMode::Absolute, cycle: 3 },
            0x4D => Opecode { command: Command::EOR, mode: AddressingMode::Absolute, cycle: 4 },
            0x4E => Opecode { command: Command::LSR, mode: AddressingMode::Absolute, cycle: 6 },
            0x4F => Opecode { command: Command::SRE, mode: AddressingMode::Absolute, cycle: 6 },
            0x50 => Opecode { command: Command::BVC, mode: AddressingMode::Relative, cycle: 2 },
            0x51 => Opecode { command: Command::EOR, mode: AddressingMode::PostIndexedIndirect, cycle: 5 },
            0x52 => Opecode { command: Command::JAM, mode: AddressingMode::Implied, cycle: 2 },
            0x53 => Opecode { command: Command::SRE, mode: AddressingMode::PostIndexedIndirect, cycle: 8 },
            0x54 => Opecode { command: Command::NOP, mode: AddressingMode::ZeroPageX, cycle: 4 },
            0x55 => Opecode { command: Command::EOR, mode: AddressingMode::ZeroPageX, cycle: 4 },
            0x56 => Opecode { command: Command::LSR, mode: AddressingMode::ZeroPageX, cycle: 6 },
            0x57 => Opecode { command: Command::SRE, mode: AddressingMode::ZeroPageX, cycle: 6 },
            0x58 => Opecode { command: Command::CLI, mode: AddressingMode::Implied, cycle: 2 },
            0x59 => Opecode { command: Command::EOR, mode: AddressingMode::AbsoluteY, cycle: 4 },
            0x5A => Opecode { command: Command::NOP, mode: AddressingMode::Implied, cycle: 2 },
            0x5B => Opecode { command: Command::SRE, mode: AddressingMode::AbsoluteY, cycle: 7 },
            0x5C => Opecode { command: Command::NOP, mode: AddressingMode::AbsoluteX, cycle: 4 },
            0x5D => Opecode { command: Command::EOR, mode: AddressingMode::AbsoluteX, cycle: 4 },
            0x5E => Opecode { command: Command::LSR, mode: AddressingMode::AbsoluteX, cycle: 6 },
            0x5F => Opecode { command: Command::SRE, mode: AddressingMode::AbsoluteX, cycle: 7 },
            0x60 => Opecode { command: Command::RTS, mode: AddressingMode::Implied, cycle: 6 },
            0x61 => Opecode { command: Command::ADC, mode: AddressingMode::PreIndexedIndirect, cycle: 6 },
            0x62 => Opecode { command: Command::JAM, mode: AddressingMode::Implied, cycle: 2 },
            0x63 => Opecode { command: Command::RRA, mode: AddressingMode::PreIndexedIndirect, cycle: 8 },
            0x64 => Opecode { command: Command::NOP, mode: AddressingMode::ZeroPage, cycle: 3 },
            0x65 => Opecode { command: Command::ADC, mode: AddressingMode::ZeroPage, cycle: 3 },
            0x66 => Opecode { command: Command::ROR, mode: AddressingMode::ZeroPage, cycle: 5 },
            0x67 => Opecode { command: Command::RRA, mode: AddressingMode::ZeroPage, cycle: 5 },
            0x68 => Opecode { command: Command::PLA, mode: AddressingMode::Implied, cycle: 4 },
            0x69 => Opecode { command: Command::ADC, mode: AddressingMode::Immediate, cycle: 2 },
            0x6A => Opecode { command: Command::ROR, mode: AddressingMode::Accumulator, cycle: 2 },
            0x6B => Opecode { command: Command::Undefined, mode: AddressingMode::Implied, cycle: 2 },
            0x6C => Opecode { command: Command::JMP, mode: AddressingMode::IndirectAbsolute, cycle: 5 },
            0x6D => Opecode { command: Command::ADC, mode: AddressingMode::Absolute, cycle: 4 },
            0x6E => Opecode { command: Command::ROR, mode: AddressingMode::Absolute, cycle: 6 },
            0x6F => Opecode { command: Command::RRA, mode: AddressingMode::Absolute, cycle: 6 },
            0x70 => Opecode { command: Command::BVS, mode: AddressingMode::Relative, cycle: 2 },
            0x71 => Opecode { command: Command::ADC, mode: AddressingMode::PostIndexedIndirect, cycle: 5 },
            0x72 => Opecode { command: Command::JAM, mode: AddressingMode::Implied, cycle: 2 },
            0x73 => Opecode { command: Command::RRA, mode: AddressingMode::PostIndexedIndirect, cycle: 8 },
            0x74 => Opecode { command: Command::NOP, mode: AddressingMode::ZeroPageX, cycle: 4 },
            0x75 => Opecode { command: Command::ADC, mode: AddressingMode::ZeroPageX, cycle: 4 },
            0x76 => Opecode { command: Command::ROR, mode: AddressingMode::ZeroPageX, cycle: 6 },
            0x77 => Opecode { command: Command::RRA, mode: AddressingMode::ZeroPageX, cycle: 6 },
            0x78 => Opecode { command: Command::SEI, mode: AddressingMode::Implied, cycle: 2 },
            0x79 => Opecode { command: Command::ADC, mode: AddressingMode::AbsoluteY, cycle: 4 },
            0x7A => Opecode { command: Command::NOP, mode: AddressingMode::Implied, cycle: 2 },
            0x7B => Opecode { command: Command::RRA, mode: AddressingMode::AbsoluteY, cycle: 7 },
            0x7C => Opecode { command: Command::NOP, mode: AddressingMode::AbsoluteX, cycle: 4 },
            0x7D => Opecode { command: Command::ADC, mode: AddressingMode::AbsoluteX, cycle: 4 },
            0x7E => Opecode { command: Command::ROR, mode: AddressingMode::AbsoluteX, cycle: 6 },
            0x7F => Opecode { command: Command::RRA, mode: AddressingMode::AbsoluteX, cycle: 7 },
            0x80 => Opecode { command: Command::NOP, mode: AddressingMode::Immediate, cycle: 2 },
            0x81 => Opecode { command: Command::STA, mode: AddressingMode::PreIndexedIndirect, cycle: 6 },
            0x82 => Opecode { command: Command::NOP, mode: AddressingMode::Immediate, cycle: 2 },
            0x83 => Opecode { command: Command::SAX, mode: AddressingMode::PreIndexedIndirect, cycle: 6 },
            0x84 => Opecode { command: Command::STY, mode: AddressingMode::ZeroPage, cycle: 3 },
            0x85 => Opecode { command: Command::STA, mode: AddressingMode::ZeroPage, cycle: 3 },
            0x86 => Opecode { command: Command::STX, mode: AddressingMode::ZeroPage, cycle: 3 },
            0x87 => Opecode { command: Command::SAX, mode: AddressingMode::ZeroPage, cycle: 3 },
            0x88 => Opecode { command: Command::DEY, mode: AddressingMode::Implied, cycle: 2 },
            0x89 => Opecode { command: Command::NOP, mode: AddressingMode::Immediate, cycle: 2 },
            0x8A => Opecode { command: Command::TXA, mode: AddressingMode::Implied, cycle: 2 },
            0x8B => Opecode { command: Command::Undefined, mode: AddressingMode::Implied, cycle: 2 },
            0x8C => Opecode { command: Command::STY, mode: AddressingMode::Absolute, cycle: 4 },
            0x8D => Opecode { command: Command::STA, mode: AddressingMode::Absolute, cycle: 4 },
            0x8E => Opecode { command: Command::STX, mode: AddressingMode::Absolute, cycle: 4 },
            0x8F => Opecode { command: Command::SAX, mode: AddressingMode::Absolute, cycle: 4 },
            0x90 => Opecode { command: Command::BCC, mode: AddressingMode::Relative, cycle: 2 },
            0x91 => Opecode { command: Command::STA, mode: AddressingMode::PostIndexedIndirect, cycle: 6 },
            0x92 => Opecode { command: Command::JAM, mode: AddressingMode::Implied, cycle: 2 },
            0x93 => Opecode { command: Command::Undefined, mode: AddressingMode::Implied, cycle: 6 },
            0x94 => Opecode { command: Command::STY, mode: AddressingMode::ZeroPageX, cycle: 4 },
            0x95 => Opecode { command: Command::STA, mode: AddressingMode::ZeroPageX, cycle: 4 },
            0x96 => Opecode { command: Command::STX, mode: AddressingMode::ZeroPageY, cycle: 4 },
            0x97 => Opecode { command: Command::SAX, mode: AddressingMode::ZeroPageY, cycle: 4 },
            0x98 => Opecode { command: Command::TYA, mode: AddressingMode::Implied, cycle: 2 },
            0x99 => Opecode { command: Command::STA, mode: AddressingMode::AbsoluteY, cycle: 4 },
            0x9A => Opecode { command: Command::TXS, mode: AddressingMode::Implied, cycle: 2 },
            0x9B => Opecode { command: Command::Undefined, mode: AddressingMode::Implied, cycle: 5 },
            0x9C => Opecode { command: Command::Undefined, mode: AddressingMode::Implied, cycle: 5 },
            0x9D => Opecode { command: Command::STA, mode: AddressingMode::AbsoluteX, cycle: 4 },
            0x9E => Opecode { command: Command::Undefined, mode: AddressingMode::Implied, cycle: 5 },
            0x9F => Opecode { command: Command::Undefined, mode: AddressingMode::Implied, cycle: 5 },
            0xA0 => Opecode { command: Command::LDY, mode: AddressingMode::Immediate, cycle: 2 },
            0xA1 => Opecode { command: Command::LDA, mode: AddressingMode::PreIndexedIndirect, cycle: 6 },
            0xA2 => Opecode { command: Command::LDX, mode: AddressingMode::Immediate, cycle: 2 },
            0xA3 => Opecode { command: Command::LAX, mode: AddressingMode::PreIndexedIndirect, cycle: 6 },
            0xA4 => Opecode { command: Command::LDY, mode: AddressingMode::ZeroPage, cycle: 3 },
            0xA5 => Opecode { command: Command::LDA, mode: AddressingMode::ZeroPage, cycle: 3 },
            0xA6 => Opecode { command: Command::LDX, mode: AddressingMode::ZeroPage, cycle: 3 },
            0xA7 => Opecode { command: Command::LAX, mode: AddressingMode::ZeroPage, cycle: 3 },
            0xA8 => Opecode { command: Command::TAY, mode: AddressingMode::Implied, cycle: 2 },
            0xA9 => Opecode { command: Command::LDA, mode: AddressingMode::Immediate, cycle: 2 },
            0xAA => Opecode { command: Command::TAX, mode: AddressingMode::Implied, cycle: 2 },
            0xAB => Opecode { command: Command::Undefined, mode: AddressingMode::Implied, cycle: 2 },
            0xAC => Opecode { command: Command::LDY, mode: AddressingMode::Absolute, cycle: 4 },
            0xAD => Opecode { command: Command::LDA, mode: AddressingMode::Absolute, cycle: 4 },
            0xAE => Opecode { command: Command::LDX, mode: AddressingMode::Absolute, cycle: 4 },
            0xAF => Opecode { command: Command::LAX, mode: AddressingMode::Absolute, cycle: 4 },
            0xB0 => Opecode { command: Command::BCS, mode: AddressingMode::Relative, cycle: 2 },
            0xB1 => Opecode { command: Command::LDA, mode: AddressingMode::PostIndexedIndirect, cycle: 5 },
            0xB2 => Opecode { command: Command::JAM, mode: AddressingMode::Implied, cycle: 2 },
            0xB3 => Opecode { command: Command::LAX, mode: AddressingMode::PostIndexedIndirect, cycle: 5 },
            0xB4 => Opecode { command: Command::LDY, mode: AddressingMode::ZeroPageX, cycle: 4 },
            0xB5 => Opecode { command: Command::LDA, mode: AddressingMode::ZeroPageX, cycle: 4 },
            0xB6 => Opecode { command: Command::LDX, mode: AddressingMode::ZeroPageY, cycle: 4 },
            0xB7 => Opecode { command: Command::LAX, mode: AddressingMode::ZeroPageY, cycle: 4 },
            0xB8 => Opecode { command: Command::CLV, mode: AddressingMode::Implied, cycle: 2 },
            0xB9 => Opecode { command: Command::LDA, mode: AddressingMode::AbsoluteY, cycle: 4 },
            0xBA => Opecode { command: Command::TSX, mode: AddressingMode::Implied, cycle: 2 },
            0xBB => Opecode { command: Command::Undefined, mode: AddressingMode::Implied, cycle: 4 },
            0xBC => Opecode { command: Command::LDY, mode: AddressingMode::AbsoluteX, cycle: 4 },
            0xBD => Opecode { command: Command::LDA, mode: AddressingMode::AbsoluteX, cycle: 4 },
            0xBE => Opecode { command: Command::LDX, mode: AddressingMode::AbsoluteY, cycle: 4 },
            0xBF => Opecode { command: Command::LAX, mode: AddressingMode::AbsoluteY, cycle: 4 },
            0xC0 => Opecode { command: Command::CPY, mode: AddressingMode::Immediate, cycle: 2 },
            0xC1 => Opecode { command: Command::CMP, mode: AddressingMode::PreIndexedIndirect, cycle: 6 },
            0xC2 => Opecode { command: Command::NOP, mode: AddressingMode::Immediate, cycle: 2 },
            0xC3 => Opecode { command: Command::DCP, mode: AddressingMode::PreIndexedIndirect, cycle: 8 },
            0xC4 => Opecode { command: Command::CPY, mode: AddressingMode::ZeroPage, cycle: 3 },
            0xC5 => Opecode { command: Command::CMP, mode: AddressingMode::ZeroPage, cycle: 3 },
            0xC6 => Opecode { command: Command::DEC, mode: AddressingMode::ZeroPage, cycle: 5 },
            0xC7 => Opecode { command: Command::DCP, mode: AddressingMode::ZeroPage, cycle: 5 },
            0xC8 => Opecode { command: Command::INY, mode: AddressingMode::Implied, cycle: 2 },
            0xC9 => Opecode { command: Command::CMP, mode: AddressingMode::Immediate, cycle: 2 },
            0xCA => Opecode { command: Command::DEX, mode: AddressingMode::Implied, cycle: 2 },
            0xCB => Opecode { command: Command::Undefined, mode: AddressingMode::Implied, cycle: 2 },
            0xCC => Opecode { command: Command::CPY, mode: AddressingMode::Absolute, cycle: 4 },
            0xCD => Opecode { command: Command::CMP, mode: AddressingMode::Absolute, cycle: 4 },
            0xCE => Opecode { command: Command::DEC, mode: AddressingMode::Absolute, cycle: 6 },
            0xCF => Opecode { command: Command::DCP, mode: AddressingMode::Absolute, cycle: 6 },
            0xD0 => Opecode { command: Command::BNE, mode: AddressingMode::Relative, cycle: 2 },
            0xD1 => Opecode { command: Command::CMP, mode: AddressingMode::PostIndexedIndirect, cycle: 5 },
            0xD2 => Opecode { command: Command::JAM, mode: AddressingMode::Implied, cycle: 2 },
            0xD3 => Opecode { command: Command::DCP, mode: AddressingMode::PostIndexedIndirect, cycle: 8 },
            0xD4 => Opecode { command: Command::NOP, mode: AddressingMode::ZeroPageX, cycle: 4 },
            0xD5 => Opecode { command: Command::CMP, mode: AddressingMode::ZeroPageX, cycle: 4 },
            0xD6 => Opecode { command: Command::DEC, mode: AddressingMode::ZeroPageX, cycle: 6 },
            0xD7 => Opecode { command: Command::DCP, mode: AddressingMode::ZeroPageX, cycle: 6 },
            0xD8 => Opecode { command: Command::CLD, mode: AddressingMode::Implied, cycle: 2 },
            0xD9 => Opecode { command: Command::CMP, mode: AddressingMode::AbsoluteY, cycle: 4 },
            0xDA => Opecode { command: Command::NOP, mode: AddressingMode::Implied, cycle: 2 },
            0xDB => Opecode { command: Command::DCP, mode: AddressingMode::AbsoluteY, cycle: 7 },
            0xDC => Opecode { command: Command::NOP, mode: AddressingMode::AbsoluteX, cycle: 4 },
            0xDD => Opecode { command: Command::CMP, mode: AddressingMode::AbsoluteX, cycle: 4 },
            0xDE => Opecode { command: Command::DEC, mode: AddressingMode::AbsoluteX, cycle: 7 },
            0xDF => Opecode { command: Command::DCP, mode: AddressingMode::AbsoluteX, cycle: 7 },
            0xE0 => Opecode { command: Command::CPX, mode: AddressingMode::Immediate, cycle: 2 },
            0xE1 => Opecode { command: Command::SBC, mode: AddressingMode::PreIndexedIndirect, cycle: 6 },
            0xE2 => Opecode { command: Command::NOP, mode: AddressingMode::Immediate, cycle: 2 },
            0xE3 => Opecode { command: Command::ISB, mode: AddressingMode::PreIndexedIndirect, cycle: 8 },
            0xE4 => Opecode { command: Command::CPX, mode: AddressingMode::ZeroPage, cycle: 3 },
            0xE5 => Opecode { command: Command::SBC, mode: AddressingMode::ZeroPage, cycle: 3 },
            0xE6 => Opecode { command: Command::INC, mode: AddressingMode::ZeroPage, cycle: 5 },
            0xE7 => Opecode { command: Command::ISB, mode: AddressingMode::ZeroPage, cycle: 5 },
            0xE8 => Opecode { command: Command::INX, mode: AddressingMode::Implied, cycle: 2 },
            0xE9 => Opecode { command: Command::SBC, mode: AddressingMode::Immediate, cycle: 2 },
            0xEA => Opecode { command: Command::NOP, mode: AddressingMode::Implied, cycle: 2 },
            0xEB => Opecode { command: Command::SBC, mode: AddressingMode::Immediate, cycle: 2 },
            0xEC => Opecode { command: Command::CPX, mode: AddressingMode::Absolute, cycle: 4 },
            0xED => Opecode { command: Command::SBC, mode: AddressingMode::Absolute, cycle: 4 },
            0xEE => Opecode { command: Command::INC, mode: AddressingMode::Absolute, cycle: 6 },
            0xEF => Opecode { command: Command::ISB, mode: AddressingMode::Absolute, cycle: 6 },
            0xF0 => Opecode { command: Command::BEQ, mode: AddressingMode::Relative, cycle: 2 },
            0xF1 => Opecode { command: Command::SBC, mode: AddressingMode::PostIndexedIndirect, cycle: 5 },
            0xF2 => Opecode { command: Command::JAM, mode: AddressingMode::Implied, cycle: 2 },
            0xF3 => Opecode { command: Command::ISB, mode: AddressingMode::PostIndexedIndirect, cycle: 8 },
            0xF4 => Opecode { command: Command::NOP, mode: AddressingMode::ZeroPageX, cycle: 4 },
            0xF5 => Opecode { command: Command::SBC, mode: AddressingMode::ZeroPageX, cycle: 4 },
            0xF6 => Opecode { command: Command::INC, mode: AddressingMode::ZeroPageX, cycle: 6 },
            0xF7 => Opecode { command: Command::ISB, mode: AddressingMode::ZeroPageX, cycle: 6 },
            0xF8 => Opecode { command: Command::SED, mode: AddressingMode::Implied, cycle: 2 },
            0xF9 => Opecode { command: Command::SBC, mode: AddressingMode::AbsoluteY, cycle: 4 },
            0xFA => Opecode { command: Command::NOP, mode: AddressingMode::Implied, cycle: 2 },
            0xFB => Opecode { command: Command::ISB, mode: AddressingMode::AbsoluteY, cycle: 7 },
            0xFC => Opecode { command: Command::NOP, mode: AddressingMode::AbsoluteX, cycle: 4 },
            0xFD => Opecode { command: Command::SBC, mode: AddressingMode::AbsoluteX, cycle: 4 },
            0xFE => Opecode { command: Command::INC, mode: AddressingMode::AbsoluteX, cycle: 7 },
            _ => Opecode { command: Command::ISB, mode: AddressingMode::AbsoluteX, cycle: 7 },
        }
    }
}

} // verus!
