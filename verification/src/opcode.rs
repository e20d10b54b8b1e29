//! The table of the 151 documented instructions, keyed by opcode byte.
use crate::cpu::AddressingMode;
use vstd::prelude::*;

verus! {

/// The operation an opcode stands for.
#[derive(Debug, PartialEq, Eq, Clone, Copy, Structural)]
pub enum Mnemonic {
    ADC,
    AND,
    ASL,
    BCC,
    BCS,
    BEQ,
    BIT,
    BMI,
    BNE,
    BPL,
    BRK,
    BVC,
    BVS,
    CLC,
    CLD,
    CLI,
    CLV,
    CMP,
    CPX,
    CPY,
    DEC,
    DEX,
    DEY,
    EOR,
    INC,
    INX,
    INY,
    JMP,
    JSR,
    LDA,
    LDX,
    LDY,
    LSR,
    NOP,
    ORA,
    PHA,
    PHP,
    PLA,
    PLP,
    ROL,
    ROR,
    RTI,
    RTS,
    SBC,
    SEC,
    SED,
    SEI,
    STA,
    STX,
    STY,
    TAX,
    TAY,
    TSX,
    TXA,
    TXS,
    TYA,
}

/// One entry of the table.
#[derive(Debug, PartialEq, Eq, Clone, Copy, Structural)]
pub struct OpCode {
    pub code: u8,
    pub mnemonic: Mnemonic,
    /// Instruction length in bytes, the opcode byte included.
    pub len: u8,
    /// Base cycle count.
    pub cycles: u8,
    pub mode: AddressingMode,
}

impl OpCode {
    /// An entry made of its five fields.
    #[verifier::allow_in_spec]
    pub fn new(code: u8, mnemonic: Mnemonic, len: u8, cycles: u8, mode: AddressingMode) -> OpCode
        returns
            (OpCode { code, mnemonic, len, cycles, mode }),
    {
        OpCode { code, mnemonic, len, cycles, mode }
    }
}

/// The table as a function: the entry of `code`, or `None` for a byte
/// that is no documented opcode.
pub open spec fn decode(code: u8) -> Option<OpCode> {
    match code {
        0x00 => Some(OpCode::new(0x00, Mnemonic::BRK, 1, 7, AddressingMode::NoneAddressing)),
        0x01 => Some(OpCode::new(0x01, Mnemonic::ORA, 2, 6, AddressingMode::Indirect_X)),
        0x05 => Some(OpCode::new(0x05, Mnemonic::ORA, 2, 3, AddressingMode::ZeroPage)),
        0x06 => Some(OpCode::new(0x06, Mnemonic::ASL, 2, 5, AddressingMode::ZeroPage)),
        0x08 => Some(OpCode::new(0x08, Mnemonic::PHP, 1, 3, AddressingMode::NoneAddressing)),
        0x09 => Some(OpCode::new(0x09, Mnemonic::ORA, 2, 2, AddressingMode::Immediate)),
        0x0a => Some(OpCode::new(0x0a, Mnemonic::ASL, 1, 2, AddressingMode::NoneAddressing)),
        0x0d => Some(OpCode::new(0x0d, Mnemonic::ORA, 3, 4, AddressingMode::Absolute)),
        0x0e => Some(OpCode::new(0x0e, Mnemonic::ASL, 3, 6, AddressingMode::Absolute)),
        0x10 => Some(OpCode::new(0x10, Mnemonic::BPL, 2, 2, AddressingMode::NoneAddressing)),
        0x11 => Some(OpCode::new(0x11, Mnemonic::ORA, 2, 5, AddressingMode::Indirect_Y)),
        0x15 => Some(OpCode::new(0x15, Mnemonic::ORA, 2, 4, AddressingMode::ZeroPage_X)),
        0x16 => Some(OpCode::new(0x16, Mnemonic::ASL, 2, 6, AddressingMode::ZeroPage_X)),
        0x18 => Some(OpCode::new(0x18, Mnemonic::CLC, 1, 2, AddressingMode::NoneAddressing)),
        0x19 => Some(OpCode::new(0x19, Mnemonic::ORA, 3, 4, AddressingMode::Absolute_Y)),
        0x1d => Some(OpCode::new(0x1d, Mnemonic::ORA, 3, 4, AddressingMode::Absolute_X)),
        0x1e => Some(OpCode::new(0x1e, Mnemonic::ASL, 3, 7, AddressingMode::Absolute_X)),
        0x20 => Some(OpCode::new(0x20, Mnemonic::JSR, 3, 6, AddressingMode::Absolute)),
        0x21 => Some(OpCode::new(0x21, Mnemonic::AND, 2, 6, AddressingMode::Indirect_X)),
        0x24 => Some(OpCode::new(0x24, Mnemonic::BIT, 2, 3, AddressingMode::ZeroPage)),
        0x25 => Some(OpCode::new(0x25, Mnemonic::AND, 2, 3, AddressingMode::ZeroPage)),
        0x26 => Some(OpCode::new(0x26, Mnemonic::ROL, 2, 5, AddressingMode::ZeroPage)),
        0x28 => Some(OpCode::new(0x28, Mnemonic::PLP, 1, 4, AddressingMode::NoneAddressing)),
        0x29 => Some(OpCode::new(0x29, Mnemonic::AND, 2, 2, AddressingMode::Immediate)),
        0x2a => Some(OpCode::new(0x2a, Mnemonic::ROL, 1, 2, AddressingMode::NoneAddressing)),
        0x2c => Some(OpCode::new(0x2c, Mnemonic::BIT, 3, 4, AddressingMode::Absolute)),
        0x2d => Some(OpCode::new(0x2d, Mnemonic::AND, 3, 4, AddressingMode::Absolute)),
        0x2e => Some(OpCode::new(0x2e, Mnemonic::ROL, 3, 6, AddressingMode::Absolute)),
        0x30 => Some(OpCode::new(0x30, Mnemonic::BMI, 2, 2, AddressingMode::NoneAddressing)),
        0x31 => Some(OpCode::new(0x31, Mnemonic::AND, 2, 5, AddressingMode::Indirect_Y)),
        0x35 => Some(OpCode::new(0x35, Mnemonic::AND, 2, 4, AddressingMode::ZeroPage_X)),
        0x36 => Some(OpCode::new(0x36, Mnemonic::ROL, 2, 6, AddressingMode::ZeroPage_X)),
        0x38 => Some(OpCode::new(0x38, Mnemonic::SEC, 1, 2, AddressingMode::NoneAddressing)),
        0x39 => Some(OpCode::new(0x39, Mnemonic::AND, 3, 4, AddressingMode::Absolute_Y)),
        0x3d => Some(OpCode::new(0x3d, Mnemonic::AND, 3, 4, AddressingMode::Absolute_X)),
        0x3e => Some(OpCode::new(0x3e, Mnemonic::ROL, 3, 7, AddressingMode::Absolute_X)),
        0x40 => Some(OpCode::new(0x40, Mnemonic::RTI, 1, 6, AddressingMode::NoneAddressing)),
        0x41 => Some(OpCode::new(0x41, Mnemonic::EOR, 2, 6, AddressingMode::Indirect_X)),
        0x45 => Some(OpCode::new(0x45, Mnemonic::EOR, 2, 3, AddressingMode::ZeroPage)),
        0x46 => Some(OpCode::new(0x46, Mnemonic::LSR, 2, 5, AddressingMode::ZeroPage)),
        0x48 => Some(OpCode::new(0x48, Mnemonic::PHA, 1, 3, AddressingMode::NoneAddressing)),
        0x49 => Some(OpCode::new(0x49, Mnemonic::EOR, 2, 2, AddressingMode::Immediate)),
        0x4a => Some(OpCode::new(0x4a, Mnemonic::LSR, 1, 2, AddressingMode::NoneAddressing)),
        0x4c => Some(OpCode::new(0x4c, Mnemonic::JMP, 3, 3, AddressingMode::Absolute)),
        0x4d => Some(OpCode::new(0x4d, Mnemonic::EOR, 3, 4, AddressingMode::Absolute)),
        0x4e => Some(OpCode::new(0x4e, Mnemonic::LSR, 3, 6, AddressingMode::Absolute)),
        0x50 => Some(OpCode::new(0x50, Mnemonic::BVC, 2, 2, AddressingMode::NoneAddressing)),
        0x51 => Some(OpCode::new(0x51, Mnemonic::EOR, 2, 5, AddressingMode::Indirect_Y)),
        0x55 => Some(OpCode::new(0x55, Mnemonic::EOR, 2, 4, AddressingMode::ZeroPage_X)),
        0x56 => Some(OpCode::new(0x56, Mnemonic::LSR, 2, 6, AddressingMode::ZeroPage_X)),
        0x58 => Some(OpCode::new(0x58, Mnemonic::CLI, 1, 2, AddressingMode::NoneAddressing)),
        0x59 => Some(OpCode::new(0x59, Mnemonic::EOR, 3, 4, AddressingMode::Absolute_Y)),
        0x5d => Some(OpCode::new(0x5d, Mnemonic::EOR, 3, 4, AddressingMode::Absolute_X)),
        0x5e => Some(OpCode::new(0x5e, Mnemonic::LSR, 3, 7, AddressingMode::Absolute_X)),
        0x60 => Some(OpCode::new(0x60, Mnemonic::RTS, 1, 6, AddressingMode::NoneAddressing)),
        0x61 => Some(OpCode::new(0x61, Mnemonic::ADC, 2, 6, AddressingMode::Indirect_X)),
        0x65 => Some(OpCode::new(0x65, Mnemonic::ADC, 2, 3, AddressingMode::ZeroPage)),
        0x66 => Some(OpCode::new(0x66, Mnemonic::ROR, 2, 5, AddressingMode::ZeroPage)),
        0x68 => Some(OpCode::new(0x68, Mnemonic::PLA, 1, 4, AddressingMode::NoneAddressing)),
        0x69 => Some(OpCode::new(0x69, Mnemonic::ADC, 2, 2, AddressingMode::Immediate)),
        0x6a => Some(OpCode::new(0x6a, Mnemonic::ROR, 1, 2, AddressingMode::NoneAddressing)),
        0x6c => Some(OpCode::new(0x6c, Mnemonic::JMP, 3, 5, AddressingMode::NoneAddressing)),
        0x6d => Some(OpCode::new(0x6d, Mnemonic::ADC, 3, 4, AddressingMode::Absolute)),
        0x6e => Some(OpCode::new(0x6e, Mnemonic::ROR, 3, 6, AddressingMode::Absolute)),
        0x70 => Some(OpCode::new(0x70, Mnemonic::BVS, 2, 2, AddressingMode::NoneAddressing)),
        0x71 => Some(OpCode::new(0x71, Mnemonic::ADC, 2, 5, AddressingMode::Indirect_Y)),
        0x75 => Some(OpCode::new(0x75, Mnemonic::ADC, 2, 4, AddressingMode::ZeroPage_X)),
        0x76 => Some(OpCode::new(0x76, Mnemonic::ROR, 2, 6, AddressingMode::ZeroPage_X)),
        0x78 => Some(OpCode::new(0x78, Mnemonic::SEI, 1, 2, AddressingMode::NoneAddressing)),
        0x79 => Some(OpCode::new(0x79, Mnemonic::ADC, 3, 4, AddressingMode::Absolute_Y)),
        0x7d => Some(OpCode::new(0x7d, Mnemonic::ADC, 3, 4, AddressingMode::Absolute_X)),
        0x7e => Some(OpCode::new(0x7e, Mnemonic::ROR, 3, 7, AddressingMode::Absolute_X)),
        0x81 => Some(OpCode::new(0x81, Mnemonic::STA, 2, 6, AddressingMode::Indirect_X)),
        0x84 => Some(OpCode::new(0x84, Mnemonic::STY, 2, 3, AddressingMode::ZeroPage)),
        0x85 => Some(OpCode::new(0x85, Mnemonic::STA, 2, 3, AddressingMode::ZeroPage)),
        0x86 => Some(OpCode::new(0x86, Mnemonic::STX, 2, 3, AddressingMode::ZeroPage)),
        0x88 => Some(OpCode::new(0x88, Mnemonic::DEY, 1, 2, AddressingMode::NoneAddressing)),
        0x8a => Some(OpCode::new(0x8a, Mnemonic::TXA, 1, 2, AddressingMode::NoneAddressing)),
        0x8c => Some(OpCode::new(0x8c, Mnemonic::STY, 3, 4, AddressingMode::Absolute)),
        0x8d => Some(OpCode::new(0x8d, Mnemonic::STA, 3, 4, AddressingMode::Absolute)),
        0x8e => Some(OpCode::new(0x8e, Mnemonic::STX, 3, 4, AddressingMode::Absolute)),
        0x90 => Some(OpCode::new(0x90, Mnemonic::BCC, 2, 2, AddressingMode::NoneAddressing)),
        0x91 => Some(OpCode::new(0x91, Mnemonic::STA, 2, 6, AddressingMode::Indirect_Y)),
        0x94 => Some(OpCode::new(0x94, Mnemonic::STY, 2, 4, AddressingMode::ZeroPage_X)),
        0x95 => Some(OpCode::new(0x95, Mnemonic::STA, 2, 4, AddressingMode::ZeroPage_X)),
        0x96 => Some(OpCode::new(0x96, Mnemonic::STX, 2, 4, AddressingMode::ZeroPage_Y)),
        0x98 => Some(OpCode::new(0x98, Mnemonic::TYA, 1, 2, AddressingMode::NoneAddressing)),
        0x99 => Some(OpCode::new(0x99, Mnemonic::STA, 3, 5, AddressingMode::Absolute_Y)),
        0x9a => Some(OpCode::new(0x9a, Mnemonic::TXS, 1, 2, AddressingMode::NoneAddressing)),
        0x9d => Some(OpCode::new(0x9d, Mnemonic::STA, 3, 5, AddressingMode::Absolute_X)),
        0xa0 => Some(OpCode::new(0xa0, Mnemonic::LDY, 2, 2, AddressingMode::Immediate)),
        0xa1 => Some(OpCode::new(0xa1, Mnemonic::LDA, 2, 6, AddressingMode::Indirect_X)),
        0xa2 => Some(OpCode::new(0xa2, Mnemonic::LDX, 2, 2, AddressingMode::Immediate)),
        0xa4 => Some(OpCode::new(0xa4, Mnemonic::LDY, 2, 3, AddressingMode::ZeroPage)),
        0xa5 => Some(OpCode::new(0xa5, Mnemonic::LDA, 2, 3, AddressingMode::ZeroPage)),
        0xa6 => Some(OpCode::new(0xa6, Mnemonic::LDX, 2, 3, AddressingMode::ZeroPage)),
        0xa8 => Some(OpCode::new(0xa8, Mnemonic::TAY, 1, 2, AddressingMode::NoneAddressing)),
        0xa9 => Some(OpCode::new(0xa9, Mnemonic::LDA, 2, 2, AddressingMode::Immediate)),
        0xaa => Some(OpCode::new(0xaa, Mnemonic::TAX, 1, 2, AddressingMode::NoneAddressing)),
        0xac => Some(OpCode::new(0xac, Mnemonic::LDY, 3, 4, AddressingMode::Absolute)),
        0xad => Some(OpCode::new(0xad, Mnemonic::LDA, 3, 4, AddressingMode::Absolute)),
        0xae => Some(OpCode::new(0xae, Mnemonic::LDX, 3, 4, AddressingMode::Absolute)),
        0xb0 => Some(OpCode::new(0xb0, Mnemonic::BCS, 2, 2, AddressingMode::NoneAddressing)),
        0xb1 => Some(OpCode::new(0xb1, Mnemonic::LDA, 2, 5, AddressingMode::Indirect_Y)),
        0xb4 => Some(OpCode::new(0xb4, Mnemonic::LDY, 2, 4, AddressingMode::ZeroPage_X)),
        0xb5 => Some(OpCode::new(0xb5, Mnemonic::LDA, 2, 4, AddressingMode::ZeroPage_X)),
        0xb6 => Some(OpCode::new(0xb6, Mnemonic::LDX, 2, 4, AddressingMode::ZeroPage_Y)),
        0xb8 => Some(OpCode::new(0xb8, Mnemonic::CLV, 1, 2, AddressingMode::NoneAddressing)),
        0xb9 => Some(OpCode::new(0xb9, Mnemonic::LDA, 3, 4, AddressingMode::Absolute_Y)),
        0xba => Some(OpCode::new(0xba, Mnemonic::TSX, 1, 2, AddressingMode::NoneAddressing)),
        0xbc => Some(OpCode::new(0xbc, Mnemonic::LDY, 3, 4, AddressingMode::Absolute_X)),
        0xbd => Some(OpCode::new(0xbd, Mnemonic::LDA, 3, 4, AddressingMode::Absolute_X)),
        0xbe => Some(OpCode::new(0xbe, Mnemonic::LDX, 3, 4, AddressingMode::Absolute_Y)),
        0xc0 => Some(OpCode::new(0xc0, Mnemonic::CPY, 2, 2, AddressingMode::Immediate)),
        0xc1 => Some(OpCode::new(0xc1, Mnemonic::CMP, 2, 6, AddressingMode::Indirect_X)),
        0xc4 => Some(OpCode::new(0xc4, Mnemonic::CPY, 2, 3, AddressingMode::ZeroPage)),
        0xc5 => Some(OpCode::new(0xc5, Mnemonic::CMP, 2, 3, AddressingMode::ZeroPage)),
        0xc6 => Some(OpCode::new(0xc6, Mnemonic::DEC, 2, 5, AddressingMode::ZeroPage)),
        0xc8 => Some(OpCode::new(0xc8, Mnemonic::INY, 1, 2, AddressingMode::NoneAddressing)),
        0xc9 => Some(OpCode::new(0xc9, Mnemonic::CMP, 2, 2, AddressingMode::Immediate)),
        0xca => Some(OpCode::new(0xca, Mnemonic::DEX, 1, 2, AddressingMode::NoneAddressing)),
        0xcc => Some(OpCode::new(0xcc, Mnemonic::CPY, 3, 4, AddressingMode::Absolute)),
        0xcd => Some(OpCode::new(0xcd, Mnemonic::CMP, 3, 4, AddressingMode::Absolute)),
        0xce => Some(OpCode::new(0xce, Mnemonic::DEC, 3, 6, AddressingMode::Absolute)),
        0xd0 => Some(OpCode::new(0xd0, Mnemonic::BNE, 2, 2, AddressingMode::NoneAddressing)),
        0xd1 => Some(OpCode::new(0xd1, Mnemonic::CMP, 2, 5, AddressingMode::Indirect_Y)),
        0xd5 => Some(OpCode::new(0xd5, Mnemonic::CMP, 2, 4, AddressingMode::ZeroPage_X)),
        0xd6 => Some(OpCode::new(0xd6, Mnemonic::DEC, 2, 6, AddressingMode::ZeroPage_X)),
        0xd8 => Some(OpCode::new(0xd8, Mnemonic::CLD, 1, 2, AddressingMode::NoneAddressing)),
        0xd9 => Some(OpCode::new(0xd9, Mnemonic::CMP, 3, 4, AddressingMode::Absolute_Y)),
        0xdd => Some(OpCode::new(0xdd, Mnemonic::CMP, 3, 4, AddressingMode::Absolute_X)),
        0xde => Some(OpCode::new(0xde, Mnemonic::DEC, 3, 7, AddressingMode::Absolute_X)),
        0xe0 => Some(OpCode::new(0xe0, Mnemonic::CPX, 2, 2, AddressingMode::Immediate)),
        0xe1 => Some(OpCode::new(0xe1, Mnemonic::SBC, 2, 6, AddressingMode::Indirect_X)),
        0xe4 => Some(OpCode::new(0xe4, Mnemonic::CPX, 2, 3, AddressingMode::ZeroPage)),
        0xe5 => Some(OpCode::new(0xe5, Mnemonic::SBC, 2, 3, AddressingMode::ZeroPage)),
        0xe6 => Some(OpCode::new(0xe6, Mnemonic::INC, 2, 5, AddressingMode::ZeroPage)),
        0xe8 => Some(OpCode::new(0xe8, Mnemonic::INX, 1, 2, AddressingMode::NoneAddressing)),
        0xe9 => Some(OpCode::new(0xe9, Mnemonic::SBC, 2, 2, AddressingMode::Immediate)),
        0xea => Some(OpCode::new(0xea, Mnemonic::NOP, 1, 2, AddressingMode::NoneAddressing)),
        0xec => Some(OpCode::new(0xec, Mnemonic::CPX, 3, 4, AddressingMode::Absolute)),
        0xed => Some(OpCode::new(0xed, Mnemonic::SBC, 3, 4, AddressingMode::Absolute)),
        0xee => Some(OpCode::new(0xee, Mnemonic::INC, 3, 6, AddressingMode::Absolute)),
        0xf0 => Some(OpCode::new(0xf0, Mnemonic::BEQ, 2, 2, AddressingMode::NoneAddressing)),
        0xf1 => Some(OpCode::new(0xf1, Mnemonic::SBC, 2, 5, AddressingMode::Indirect_Y)),
        0xf5 => Some(OpCode::new(0xf5, Mnemonic::SBC, 2, 4, AddressingMode::ZeroPage_X)),
        0xf6 => Some(OpCode::new(0xf6, Mnemonic::INC, 2, 6, AddressingMode::ZeroPage_X)),
        0xf8 => Some(OpCode::new(0xf8, Mnemonic::SED, 1, 2, AddressingMode::NoneAddressing)),
        0xf9 => Some(OpCode::new(0xf9, Mnemonic::SBC, 3, 4, AddressingMode::Absolute_Y)),
        0xfd => Some(OpCode::new(0xfd, Mnemonic::SBC, 3, 4, AddressingMode::Absolute_X)),
        0xfe => Some(OpCode::new(0xfe, Mnemonic::INC, 3, 7, AddressingMode::Absolute_X)),
        _ => None,
    }
}

/// Looks `code` up in the table.
#[verifier::when_used_as_spec(decode)]
pub fn lookup(code: u8) -> (entry: Option<OpCode>)
    ensures
        entry == decode(code),
{
    match code {
        0x00 => Some(OpCode::new(0x00, Mnemonic::BRK, 1, 7, AddressingMode::NoneAddressing)),
        0x01 => Some(OpCode::new(0x01, Mnemonic::ORA, 2, 6, AddressingMode::Indirect_X)),
        0x05 => Some(OpCode::new(0x05, Mnemonic::ORA, 2, 3, AddressingMode::ZeroPage)),
        0x06 => Some(OpCode::new(0x06, Mnemonic::ASL, 2, 5, AddressingMode::ZeroPage)),
        0x08 => Some(OpCode::new(0x08, Mnemonic::PHP, 1, 3, AddressingMode::NoneAddressing)),
        0x09 => Some(OpCode::new(0x09, Mnemonic::ORA, 2, 2, AddressingMode::Immediate)),
        0x0a => Some(OpCode::new(0x0a, Mnemonic::ASL, 1, 2, AddressingMode::NoneAddressing)),
        0x0d => Some(OpCode::new(0x0d, Mnemonic::ORA, 3, 4, AddressingMode::Absolute)),
        0x0e => Some(OpCode::new(0x0e, Mnemonic::ASL, 3, 6, AddressingMode::Absolute)),
        0x10 => Some(OpCode::new(0x10, Mnemonic::BPL, 2, 2, AddressingMode::NoneAddressing)),
        0x11 => Some(OpCode::new(0x11, Mnemonic::ORA, 2, 5, AddressingMode::Indirect_Y)),
        0x15 => Some(OpCode::new(0x15, Mnemonic::ORA, 2, 4, AddressingMode::ZeroPage_X)),
        0x16 => Some(OpCode::new(0x16, Mnemonic::ASL, 2, 6, AddressingMode::ZeroPage_X)),
        0x18 => Some(OpCode::new(0x18, Mnemonic::CLC, 1, 2, AddressingMode::NoneAddressing)),
        0x19 => Some(OpCode::new(0x19, Mnemonic::ORA, 3, 4, AddressingMode::Absolute_Y)),
        0x1d => Some(OpCode::new(0x1d, Mnemonic::ORA, 3, 4, AddressingMode::Absolute_X)),
        0x1e => Some(OpCode::new(0x1e, Mnemonic::ASL, 3, 7, AddressingMode::Absolute_X)),
        0x20 => Some(OpCode::new(0x20, Mnemonic::JSR, 3, 6, AddressingMode::Absolute)),
        0x21 => Some(OpCode::new(0x21, Mnemonic::AND, 2, 6, AddressingMode::Indirect_X)),
        0x24 => Some(OpCode::new(0x24, Mnemonic::BIT, 2, 3, AddressingMode::ZeroPage)),
        0x25 => Some(OpCode::new(0x25, Mnemonic::AND, 2, 3, AddressingMode::ZeroPage)),
        0x26 => Some(OpCode::new(0x26, Mnemonic::ROL, 2, 5, AddressingMode::ZeroPage)),
        0x28 => Some(OpCode::new(0x28, Mnemonic::PLP, 1, 4, AddressingMode::NoneAddressing)),
        0x29 => Some(OpCode::new(0x29, Mnemonic::AND, 2, 2, AddressingMode::Immediate)),
        0x2a => Some(OpCode::new(0x2a, Mnemonic::ROL, 1, 2, AddressingMode::NoneAddressing)),
        0x2c => Some(OpCode::new(0x2c, Mnemonic::BIT, 3, 4, AddressingMode::Absolute)),
        0x2d => Some(OpCode::new(0x2d, Mnemonic::AND, 3, 4, AddressingMode::Absolute)),
        0x2e => Some(OpCode::new(0x2e, Mnemonic::ROL, 3, 6, AddressingMode::Absolute)),
        0x30 => Some(OpCode::new(0x30, Mnemonic::BMI, 2, 2, AddressingMode::NoneAddressing)),
        0x31 => Some(OpCode::new(0x31, Mnemonic::AND, 2, 5, AddressingMode::Indirect_Y)),
        0x35 => Some(OpCode::new(0x35, Mnemonic::AND, 2, 4, AddressingMode::ZeroPage_X)),
        0x36 => Some(OpCode::new(0x36, Mnemonic::ROL, 2, 6, AddressingMode::ZeroPage_X)),
        0x38 => Some(OpCode::new(0x38, Mnemonic::SEC, 1, 2, AddressingMode::NoneAddressing)),
        0x39 => Some(OpCode::new(0x39, Mnemonic::AND, 3, 4, AddressingMode::Absolute_Y)),
        0x3d => Some(OpCode::new(0x3d, Mnemonic::AND, 3, 4, AddressingMode::Absolute_X)),
        0x3e => Some(OpCode::new(0x3e, Mnemonic::ROL, 3, 7, AddressingMode::Absolute_X)),
        0x40 => Some(OpCode::new(0x40, Mnemonic::RTI, 1, 6, AddressingMode::NoneAddressing)),
        0x41 => Some(OpCode::new(0x41, Mnemonic::EOR, 2, 6, AddressingMode::Indirect_X)),
        0x45 => Some(OpCode::new(0x45, Mnemonic::EOR, 2, 3, AddressingMode::ZeroPage)),
        0x46 => Some(OpCode::new(0x46, Mnemonic::LSR, 2, 5, AddressingMode::ZeroPage)),
        0x48 => Some(OpCode::new(0x48, Mnemonic::PHA, 1, 3, AddressingMode::NoneAddressing)),
        0x49 => Some(OpCode::new(0x49, Mnemonic::EOR, 2, 2, AddressingMode::Immediate)),
        0x4a => Some(OpCode::new(0x4a, Mnemonic::LSR, 1, 2, AddressingMode::NoneAddressing)),
        0x4c => Some(OpCode::new(0x4c, Mnemonic::JMP, 3, 3, AddressingMode::Absolute)),
        0x4d => Some(OpCode::new(0x4d, Mnemonic::EOR, 3, 4, AddressingMode::Absolute)),
        0x4e => Some(OpCode::new(0x4e, Mnemonic::LSR, 3, 6, AddressingMode::Absolute)),
        0x50 => Some(OpCode::new(0x50, Mnemonic::BVC, 2, 2, AddressingMode::NoneAddressing)),
        0x51 => Some(OpCode::new(0x51, Mnemonic::EOR, 2, 5, AddressingMode::Indirect_Y)),
        0x55 => Some(OpCode::new(0x55, Mnemonic::EOR, 2, 4, AddressingMode::ZeroPage_X)),
        0x56 => Some(OpCode::new(0x56, Mnemonic::LSR, 2, 6, AddressingMode::ZeroPage_X)),
        0x58 => Some(OpCode::new(0x58, Mnemonic::CLI, 1, 2, AddressingMode::NoneAddressing)),
        0x59 => Some(OpCode::new(0x59, Mnemonic::EOR, 3, 4, AddressingMode::Absolute_Y)),
        0x5d => Some(OpCode::new(0x5d, Mnemonic::EOR, 3, 4, AddressingMode::Absolute_X)),
        0x5e => Some(OpCode::new(0x5e, Mnemonic::LSR, 3, 7, AddressingMode::Absolute_X)),
        0x60 => Some(OpCode::new(0x60, Mnemonic::RTS, 1, 6, AddressingMode::NoneAddressing)),
        0x61 => Some(OpCode::new(0x61, Mnemonic::ADC, 2, 6, AddressingMode::Indirect_X)),
        0x65 => Some(OpCode::new(0x65, Mnemonic::ADC, 2, 3, AddressingMode::ZeroPage)),
        0x66 => Some(OpCode::new(0x66, Mnemonic::ROR, 2, 5, AddressingMode::ZeroPage)),
        0x68 => Some(OpCode::new(0x68, Mnemonic::PLA, 1, 4, AddressingMode::NoneAddressing)),
        0x69 => Some(OpCode::new(0x69, Mnemonic::ADC, 2, 2, AddressingMode::Immediate)),
        0x6a => Some(OpCode::new(0x6a, Mnemonic::ROR, 1, 2, AddressingMode::NoneAddressing)),
        0x6c => Some(OpCode::new(0x6c, Mnemonic::JMP, 3, 5, AddressingMode::NoneAddressing)),
        0x6d => Some(OpCode::new(0x6d, Mnemonic::ADC, 3, 4, AddressingMode::Absolute)),
        0x6e => Some(OpCode::new(0x6e, Mnemonic::ROR, 3, 6, AddressingMode::Absolute)),
        0x70 => Some(OpCode::new(0x70, Mnemonic::BVS, 2, 2, AddressingMode::NoneAddressing)),
        0x71 => Some(OpCode::new(0x71, Mnemonic::ADC, 2, 5, AddressingMode::Indirect_Y)),
        0x75 => Some(OpCode::new(0x75, Mnemonic::ADC, 2, 4, AddressingMode::ZeroPage_X)),
        0x76 => Some(OpCode::new(0x76, Mnemonic::ROR, 2, 6, AddressingMode::ZeroPage_X)),
        0x78 => Some(OpCode::new(0x78, Mnemonic::SEI, 1, 2, AddressingMode::NoneAddressing)),
        0x79 => Some(OpCode::new(0x79, Mnemonic::ADC, 3, 4, AddressingMode::Absolute_Y)),
        0x7d => Some(OpCode::new(0x7d, Mnemonic::ADC, 3, 4, AddressingMode::Absolute_X)),
        0x7e => Some(OpCode::new(0x7e, Mnemonic::ROR, 3, 7, AddressingMode::Absolute_X)),
        0x81 => Some(OpCode::new(0x81, Mnemonic::STA, 2, 6, AddressingMode::Indirect_X)),
        0x84 => Some(OpCode::new(0x84, Mnemonic::STY, 2, 3, AddressingMode::ZeroPage)),
        0x85 => Some(OpCode::new(0x85, Mnemonic::STA, 2, 3, AddressingMode::ZeroPage)),
        0x86 => Some(OpCode::new(0x86, Mnemonic::STX, 2, 3, AddressingMode::ZeroPage)),
        0x88 => Some(OpCode::new(0x88, Mnemonic::DEY, 1, 2, AddressingMode::NoneAddressing)),
        0x8a => Some(OpCode::new(0x8a, Mnemonic::TXA, 1, 2, AddressingMode::NoneAddressing)),
        0x8c => Some(OpCode::new(0x8c, Mnemonic::STY, 3, 4, AddressingMode::Absolute)),
        0x8d => Some(OpCode::new(0x8d, Mnemonic::STA, 3, 4, AddressingMode::Absolute)),
        0x8e => Some(OpCode::new(0x8e, Mnemonic::STX, 3, 4, AddressingMode::Absolute)),
        0x90 => Some(OpCode::new(0x90, Mnemonic::BCC, 2, 2, AddressingMode::NoneAddressing)),
        0x91 => Some(OpCode::new(0x91, Mnemonic::STA, 2, 6, AddressingMode::Indirect_Y)),
        0x94 => Some(OpCode::new(0x94, Mnemonic::STY, 2, 4, AddressingMode::ZeroPage_X)),
        0x95 => Some(OpCode::new(0x95, Mnemonic::STA, 2, 4, AddressingMode::ZeroPage_X)),
        0x96 => Some(OpCode::new(0x96, Mnemonic::STX, 2, 4, AddressingMode::ZeroPage_Y)),
        0x98 => Some(OpCode::new(0x98, Mnemonic::TYA, 1, 2, AddressingMode::NoneAddressing)),
        0x99 => Some(OpCode::new(0x99, Mnemonic::STA, 3, 5, AddressingMode::Absolute_Y)),
        0x9a => Some(OpCode::new(0x9a, Mnemonic::TXS, 1, 2, AddressingMode::NoneAddressing)),
        0x9d => Some(OpCode::new(0x9d, Mnemonic::STA, 3, 5, AddressingMode::Absolute_X)),
        0xa0 => Some(OpCode::new(0xa0, Mnemonic::LDY, 2, 2, AddressingMode::Immediate)),
        0xa1 => Some(OpCode::new(0xa1, Mnemonic::LDA, 2, 6, AddressingMode::Indirect_X)),
        0xa2 => Some(OpCode::new(0xa2, Mnemonic::LDX, 2, 2, AddressingMode::Immediate)),
        0xa4 => Some(OpCode::new(0xa4, Mnemonic::LDY, 2, 3, AddressingMode::ZeroPage)),
        0xa5 => Some(OpCode::new(0xa5, Mnemonic::LDA, 2, 3, AddressingMode::ZeroPage)),
        0xa6 => Some(OpCode::new(0xa6, Mnemonic::LDX, 2, 3, AddressingMode::ZeroPage)),
        0xa8 => Some(OpCode::new(0xa8, Mnemonic::TAY, 1, 2, AddressingMode::NoneAddressing)),
        0xa9 => Some(OpCode::new(0xa9, Mnemonic::LDA, 2, 2, AddressingMode::Immediate)),
        0xaa => Some(OpCode::new(0xaa, Mnemonic::TAX, 1, 2, AddressingMode::NoneAddressing)),
        0xac => Some(OpCode::new(0xac, Mnemonic::LDY, 3, 4, AddressingMode::Absolute)),
        0xad => Some(OpCode::new(0xad, Mnemonic::LDA, 3, 4, AddressingMode::Absolute)),
        0xae => Some(OpCode::new(0xae, Mnemonic::LDX, 3, 4, AddressingMode::Absolute)),
        0xb0 => Some(OpCode::new(0xb0, Mnemonic::BCS, 2, 2, AddressingMode::NoneAddressing)),
        0xb1 => Some(OpCode::new(0xb1, Mnemonic::LDA, 2, 5, AddressingMode::Indirect_Y)),
        0xb4 => Some(OpCode::new(0xb4, Mnemonic::LDY, 2, 4, AddressingMode::ZeroPage_X)),
        0xb5 => Some(OpCode::new(0xb5, Mnemonic::LDA, 2, 4, AddressingMode::ZeroPage_X)),
        0xb6 => Some(OpCode::new(0xb6, Mnemonic::LDX, 2, 4, AddressingMode::ZeroPage_Y)),
        0xb8 => Some(OpCode::new(0xb8, Mnemonic::CLV, 1, 2, AddressingMode::NoneAddressing)),
        0xb9 => Some(OpCode::new(0xb9, Mnemonic::LDA, 3, 4, AddressingMode::Absolute_Y)),
        0xba => Some(OpCode::new(0xba, Mnemonic::TSX, 1, 2, AddressingMode::NoneAddressing)),
        0xbc => Some(OpCode::new(0xbc, Mnemonic::LDY, 3, 4, AddressingMode::Absolute_X)),
        0xbd => Some(OpCode::new(0xbd, Mnemonic::LDA, 3, 4, AddressingMode::Absolute_X)),
        0xbe => Some(OpCode::new(0xbe, Mnemonic::LDX, 3, 4, AddressingMode::Absolute_Y)),
        0xc0 => Some(OpCode::new(0xc0, Mnemonic::CPY, 2, 2, AddressingMode::Immediate)),
        0xc1 => Some(OpCode::new(0xc1, Mnemonic::CMP, 2, 6, AddressingMode::Indirect_X)),
        0xc4 => Some(OpCode::new(0xc4, Mnemonic::CPY, 2, 3, AddressingMode::ZeroPage)),
        0xc5 => Some(OpCode::new(0xc5, Mnemonic::CMP, 2, 3, AddressingMode::ZeroPage)),
        0xc6 => Some(OpCode::new(0xc6, Mnemonic::DEC, 2, 5, AddressingMode::ZeroPage)),
        0xc8 => Some(OpCode::new(0xc8, Mnemonic::INY, 1, 2, AddressingMode::NoneAddressing)),
        0xc9 => Some(OpCode::new(0xc9, Mnemonic::CMP, 2, 2, AddressingMode::Immediate)),
        0xca => Some(OpCode::new(0xca, Mnemonic::DEX, 1, 2, AddressingMode::NoneAddressing)),
        0xcc => Some(OpCode::new(0xcc, Mnemonic::CPY, 3, 4, AddressingMode::Absolute)),
        0xcd => Some(OpCode::new(0xcd, Mnemonic::CMP, 3, 4, AddressingMode::Absolute)),
        0xce => Some(OpCode::new(0xce, Mnemonic::DEC, 3, 6, AddressingMode::Absolute)),
        0xd0 => Some(OpCode::new(0xd0, Mnemonic::BNE, 2, 2, AddressingMode::NoneAddressing)),
        0xd1 => Some(OpCode::new(0xd1, Mnemonic::CMP, 2, 5, AddressingMode::Indirect_Y)),
        0xd5 => Some(OpCode::new(0xd5, Mnemonic::CMP, 2, 4, AddressingMode::ZeroPage_X)),
        0xd6 => Some(OpCode::new(0xd6, Mnemonic::DEC, 2, 6, AddressingMode::ZeroPage_X)),
        0xd8 => Some(OpCode::new(0xd8, Mnemonic::CLD, 1, 2, AddressingMode::NoneAddressing)),
        0xd9 => Some(OpCode::new(0xd9, Mnemonic::CMP, 3, 4, AddressingMode::Absolute_Y)),
        0xdd => Some(OpCode::new(0xdd, Mnemonic::CMP, 3, 4, AddressingMode::Absolute_X)),
        0xde => Some(OpCode::new(0xde, Mnemonic::DEC, 3, 7, AddressingMode::Absolute_X)),
        0xe0 => Some(OpCode::new(0xe0, Mnemonic::CPX, 2, 2, AddressingMode::Immediate)),
        0xe1 => Some(OpCode::new(0xe1, Mnemonic::SBC, 2, 6, AddressingMode::Indirect_X)),
        0xe4 => Some(OpCode::new(0xe4, Mnemonic::CPX, 2, 3, AddressingMode::ZeroPage)),
        0xe5 => Some(OpCode::new(0xe5, Mnemonic::SBC, 2, 3, AddressingMode::ZeroPage)),
        0xe6 => Some(OpCode::new(0xe6, Mnemonic::INC, 2, 5, AddressingMode::ZeroPage)),
        0xe8 => Some(OpCode::new(0xe8, Mnemonic::INX, 1, 2, AddressingMode::NoneAddressing)),
        0xe9 => Some(OpCode::new(0xe9, Mnemonic::SBC, 2, 2, AddressingMode::Immediate)),
        0xea => Some(OpCode::new(0xea, Mnemonic::NOP, 1, 2, AddressingMode::NoneAddressing)),
        0xec => Some(OpCode::new(0xec, Mnemonic::CPX, 3, 4, AddressingMode::Absolute)),
        0xed => Some(OpCode::new(0xed, Mnemonic::SBC, 3, 4, AddressingMode::Absolute)),
        0xee => Some(OpCode::new(0xee, Mnemonic::INC, 3, 6, AddressingMode::Absolute)),
        0xf0 => Some(OpCode::new(0xf0, Mnemonic::BEQ, 2, 2, AddressingMode::NoneAddressing)),
        0xf1 => Some(OpCode::new(0xf1, Mnemonic::SBC, 2, 5, AddressingMode::Indirect_Y)),
        0xf5 => Some(OpCode::new(0xf5, Mnemonic::SBC, 2, 4, AddressingMode::ZeroPage_X)),
        0xf6 => Some(OpCode::new(0xf6, Mnemonic::INC, 2, 6, AddressingMode::ZeroPage_X)),
        0xf8 => Some(OpCode::new(0xf8, Mnemonic::SED, 1, 2, AddressingMode::NoneAddressing)),
        0xf9 => Some(OpCode::new(0xf9, Mnemonic::SBC, 3, 4, AddressingMode::Absolute_Y)),
        0xfd => Some(OpCode::new(0xfd, Mnemonic::SBC, 3, 4, AddressingMode::Absolute_X)),
        0xfe => Some(OpCode::new(0xfe, Mnemonic::INC, 3, 7, AddressingMode::Absolute_X)),
        _ => None,
    }
}

/// The families into which the instructions fall.
#[derive(Debug, PartialEq, Eq, Clone, Copy, Structural)]
pub enum Family {
    /// Loads and stores between a register and memory.
    Move,
    /// Bitwise operations of the accumulator with memory.
    Logic,
    /// Addition, subtraction, comparison, and counting in memory.
    Arithmetic,
    /// Transfers between registers, and counting in X and Y.
    Register,
    /// Pushes and pulls.
    Stack,
    /// Shifts and rotates, of the accumulator or of memory.
    Shift,
    /// Setting and clearing of single flags.
    Flag,
    /// Conditional branches, whose operand is a signed offset.
    Branch,
    /// Jumps, calls, returns, and the instructions that do nothing.
    Control,
}

impl Mnemonic {
    /// The family of the instruction.
    #[verifier::allow_in_spec]
    pub fn family(self) -> Family
        returns
            (match self {
                Mnemonic::LDA
                | Mnemonic::LDX
                | Mnemonic::LDY
                | Mnemonic::STA
                | Mnemonic::STX
                | Mnemonic::STY => Family::Move,
                Mnemonic::AND
                | Mnemonic::ORA
                | Mnemonic::EOR
                | Mnemonic::BIT => Family::Logic,
                Mnemonic::ADC
                | Mnemonic::SBC
                | Mnemonic::CMP
                | Mnemonic::CPX
                | Mnemonic::CPY
                | Mnemonic::INC
                | Mnemonic::DEC => Family::Arithmetic,
                Mnemonic::TAX
                | Mnemonic::TAY
                | Mnemonic::TSX
                | Mnemonic::TXA
                | Mnemonic::TXS
                | Mnemonic::TYA
                | Mnemonic::INX
                | Mnemonic::INY
                | Mnemonic::DEX
                | Mnemonic::DEY => Family::Register,
                Mnemonic::PHA
                | Mnemonic::PHP
                | Mnemonic::PLA
                | Mnemonic::PLP => Family::Stack,
                Mnemonic::ASL
                | Mnemonic::LSR
                | Mnemonic::ROL
                | Mnemonic::ROR => Family::Shift,
                Mnemonic::CLC
                | Mnemonic::CLD
                | Mnemonic::CLI
                | Mnemonic::CLV
                | Mnemonic::SEC
                | Mnemonic::SED
                | Mnemonic::SEI => Family::Flag,
                Mnemonic::BCC
                | Mnemonic::BCS
                | Mnemonic::BEQ
                | Mnemonic::BMI
                | Mnemonic::BNE
                | Mnemonic::BPL
                | Mnemonic::BVC
                | Mnemonic::BVS => Family::Branch,
                Mnemonic::JMP
                | Mnemonic::JSR
                | Mnemonic::RTS
                | Mnemonic::RTI
                | Mnemonic::NOP
                | Mnemonic::BRK => Family::Control,
            }),
    {
        match self {
            Mnemonic::LDA
            | Mnemonic::LDX
            | Mnemonic::LDY
            | Mnemonic::STA
            | Mnemonic::STX
            | Mnemonic::STY => Family::Move,
            Mnemonic::AND
            | Mnemonic::ORA
            | Mnemonic::EOR
            | Mnemonic::BIT => Family::Logic,
            Mnemonic::ADC
            | Mnemonic::SBC
            | Mnemonic::CMP
            | Mnemonic::CPX
            | Mnemonic::CPY
            | Mnemonic::INC
            | Mnemonic::DEC => Family::Arithmetic,
            Mnemonic::TAX
            | Mnemonic::TAY
            | Mnemonic::TSX
            | Mnemonic::TXA
            | Mnemonic::TXS
            | Mnemonic::TYA
            | Mnemonic::INX
            | Mnemonic::INY
            | Mnemonic::DEX
            | Mnemonic::DEY => Family::Register,
            Mnemonic::PHA
            | Mnemonic::PHP
            | Mnemonic::PLA
            | Mnemonic::PLP => Family::Stack,
            Mnemonic::ASL
            | Mnemonic::LSR
            | Mnemonic::ROL
            | Mnemonic::ROR => Family::Shift,
            Mnemonic::CLC
            | Mnemonic::CLD
            | Mnemonic::CLI
            | Mnemonic::CLV
            | Mnemonic::SEC
            | Mnemonic::SED
            | Mnemonic::SEI => Family::Flag,
            Mnemonic::BCC
            | Mnemonic::BCS
            | Mnemonic::BEQ
            | Mnemonic::BMI
            | Mnemonic::BNE
            | Mnemonic::BPL
            | Mnemonic::BVC
            | Mnemonic::BVS => Family::Branch,
            Mnemonic::JMP
            | Mnemonic::JSR
            | Mnemonic::RTS
            | Mnemonic::RTI
            | Mnemonic::NOP
            | Mnemonic::BRK => Family::Control,
        }
    }

    /// Whether the instruction always works on an operand found through
    /// its addressing mode.
    pub open spec fn takes_operand(self) -> bool {
        self.family() == Family::Move || self.family() == Family::Logic || self.family()
            == Family::Arithmetic
    }

    pub open spec fn is_branch(self) -> bool {
        self.family() == Family::Branch
    }
}

/// The number of operand bytes that an addressing mode reads.
pub open spec fn operand_bytes(mode: AddressingMode) -> int {
    match mode {
        AddressingMode::NoneAddressing => 0,
        AddressingMode::Absolute | AddressingMode::Absolute_X | AddressingMode::Absolute_Y => 2,
        _ => 1,
    }
}

impl OpCode {
    /// This is an entry of the table.
    pub open spec fn listed(self) -> bool {
        decode(self.code) == Some(self)
    }

    /// An instruction that needs an operand has a mode to find it by.
    pub open spec fn finds_operand(self) -> bool {
        self.mnemonic.takes_operand() ==> self.mode != AddressingMode::NoneAddressing
    }

    /// The number of bytes that follow the opcode byte. Branches carry
    /// their offset and the indirect jump its pointer without an
    /// addressing mode of their own.
    pub open spec fn operand_len(self) -> int {
        if self.mnemonic.is_branch() {
            1
        } else if self.mnemonic == Mnemonic::JMP {
            2
        } else {
            operand_bytes(self.mode)
        }
    }
}

/// An entry is filed under its own opcode byte.
pub proof fn lemma_decode_code(code: u8)
    ensures
        decode(code) matches Some(op) ==> op.code == code,
{
}

/// In every entry the length is the opcode byte plus the operand bytes,
/// an instruction that needs an operand has a mode to find it by, and a
/// jump is either absolute or, without a mode, indirect.
pub proof fn lemma_listed(op: OpCode)
    requires
        op.listed(),
    ensures
        op.len == 1 + op.operand_len(),
        op.finds_operand(),
        op.mnemonic == Mnemonic::JMP ==> op.mode == AddressingMode::Absolute || op.mode
            == AddressingMode::NoneAddressing,
{
}

} // verus!
