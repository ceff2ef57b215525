use vstd::prelude::*;
use crate::addr_mode::AddressingMode;
use crate::instruction::Instruction;

verus! {

/// What an opcode byte stands for: its operation, its addressing mode, its
/// base cycle count, and whether a page crossing or a taken branch costs
/// extra cycles.
#[derive(Clone, Copy, Debug, PartialEq, Eq, Structural)]
pub struct OpCode {
    pub instruction: Instruction,
    pub mode: AddressingMode,
    pub cycles: u8,
    pub page_penalty: bool,
    pub branch_penalty: bool,
}

/// The instruction table: every legal opcode and the documented illegal
/// ones; `None` for a byte that names no instruction.
#[verifier::opaque]
pub open spec fn opcode_spec(op: u8) -> Option<OpCode> {
    match op {
        0x00 => Some(OpCode { instruction: Instruction::BRK, mode: AddressingMode::Implicit, cycles: 7, page_penalty: false, branch_penalty: false }),
        0x01 => Some(OpCode { instruction: Instruction::ORA, mode: AddressingMode::XIndexedIndirect, cycles: 6, page_penalty: false, branch_penalty: false }),
        0x03 => Some(OpCode { instruction: Instruction::SLO, mode: AddressingMode::XIndexedIndirect, cycles: 8, page_penalty: false, branch_penalty: false }),
        0x05 => Some(OpCode { instruction: Instruction::ORA, mode: AddressingMode::ZeroPage, cycles: 3, page_penalty: false, branch_penalty: false }),
        0x06 => Some(OpCode { instruction: Instruction::ASL, mode: AddressingMode::ZeroPage, cycles: 5, page_penalty: false, branch_penalty: false }),
        0x07 => Some(OpCode { instruction: Instruction::SLO, mode: AddressingMode::ZeroPage, cycles: 5, page_penalty: false, branch_penalty: false }),
        0x08 => Some(OpCode { instruction: Instruction::PHP, mode: AddressingMode::Implicit, cycles: 3, page_penalty: false, branch_penalty: false }),
        0x09 => Some(OpCode { instruction: Instruction::ORA, mode: AddressingMode::Immediate, cycles: 2, page_penalty: false, branch_penalty: false }),
        0x0a => Some(OpCode { instruction: Instruction::ASL, mode: AddressingMode::Accumulator, cycles: 2, page_penalty: false, branch_penalty: false }),
        0x0d => Some(OpCode { instruction: Instruction::ORA, mode: AddressingMode::Absolute, cycles: 4, page_penalty: false, branch_penalty: false }),
        0x0e => Some(OpCode { instruction: Instruction::ASL, mode: AddressingMode::Absolute, cycles: 6, page_penalty: false, branch_penalty: false }),
        0x0f => Some(OpCode { instruction: Instruction::SLO, mode: AddressingMode::Absolute, cycles: 6, page_penalty: false, branch_penalty: false }),
        0x10 => Some(OpCode { instruction: Instruction::BPL, mode: AddressingMode::Relative, cycles: 2, page_penalty: false, branch_penalty: true }),
        0x11 => Some(OpCode { instruction: Instruction::ORA, mode: AddressingMode::IndirectYIndexed, cycles: 5, page_penalty: true, branch_penalty: false }),
        0x13 => Some(OpCode { instruction: Instruction::SLO, mode: AddressingMode::IndirectYIndexed, cycles: 8, page_penalty: false, branch_penalty: false }),
        0x15 => Some(OpCode { instruction: Instruction::ORA, mode: AddressingMode::ZeroPageX, cycles: 4, page_penalty: false, branch_penalty: false }),
        0x16 => Some(OpCode { instruction: Instruction::ASL, mode: AddressingMode::ZeroPageX, cycles: 6, page_penalty: false, branch_penalty: false }),
        0x17 => Some(OpCode { instruction: Instruction::SLO, mode: AddressingMode::ZeroPageX, cycles: 6, page_penalty: false, branch_penalty: false }),
        0x18 => Some(OpCode { instruction: Instruction::CLC, mode: AddressingMode::Implicit, cycles: 2, page_penalty: false, branch_penalty: false }),
        0x19 => Some(OpCode { instruction: Instruction::ORA, mode: AddressingMode::AbsoluteY, cycles: 4, page_penalty: true, branch_penalty: false }),
        0x1b => Some(OpCode { instruction: Instruction::SLO, mode: AddressingMode::AbsoluteY, cycles: 7, page_penalty: false, branch_penalty: false }),
        0x1d => Some(OpCode { instruction: Instruction::ORA, mode: AddressingMode::AbsoluteX, cycles: 4, page_penalty: true, branch_penalty: false }),
        0x1e => Some(OpCode { instruction: Instruction::ASL, mode: AddressingMode::AbsoluteX, cycles: 7, page_penalty: false, branch_penalty: false }),
        0x1f => Some(OpCode { instruction: Instruction::SLO, mode: AddressingMode::AbsoluteX, cycles: 7, page_penalty: false, branch_penalty: false }),
        0x20 => Some(OpCode { instruction: Instruction::JSR, mode: AddressingMode::Absolute, cycles: 6, page_penalty: false, branch_penalty: false }),
        0x21 => Some(OpCode { instruction: Instruction::AND, mode: AddressingMode::XIndexedIndirect, cycles: 6, page_penalty: false, branch_penalty: false }),
        0x23 => Some(OpCode { instruction: Instruction::RLA, mode: AddressingMode::XIndexedIndirect, cycles: 8, page_penalty: false, branch_penalty: false }),
        0x24 => Some(OpCode { instruction: Instruction::BIT, mode: AddressingMode::ZeroPage, cycles: 3, page_penalty: false, branch_penalty: false }),
        0x25 => Some(OpCode { instruction: Instruction::AND, mode: AddressingMode::ZeroPage, cycles: 3, page_penalty: false, branch_penalty: false }),
        0x26 => Some(OpCode { instruction: Instruction::ROL, mode: AddressingMode::ZeroPage, cycles: 5, page_penalty: false, branch_penalty: false }),
        0x27 => Some(OpCode { instruction: Instruction::RLA, mode: AddressingMode::ZeroPage, cycles: 5, page_penalty: false, branch_penalty: false }),
        0x28 => Some(OpCode { instruction: Instruction::PLP, mode: AddressingMode::Implicit, cycles: 4, page_penalty: false, branch_penalty: false }),
        0x29 => Some(OpCode { instruction: Instruction::AND, mode: AddressingMode::Immediate, cycles: 2, page_penalty: false, branch_penalty: false }),
        0x2a => Some(OpCode { instruction: Instruction::ROL, mode: AddressingMode::Accumulator, cycles: 2, page_penalty: false, branch_penalty: false }),
        0x2c => Some(OpCode { instruction: Instruction::BIT, mode: AddressingMode::Absolute, cycles: 4, page_penalty: false, branch_penalty: false }),
        0x2d => Some(OpCode { instruction: Instruction::AND, mode: AddressingMode::Absolute, cycles: 4, page_penalty: false, branch_penalty: false }),
        0x2e => Some(OpCode { instruction: Instruction::ROL, mode: AddressingMode::Absolute, cycles: 6, page_penalty: false, branch_penalty: false }),
        0x2f => Some(OpCode { instruction: Instruction::RLA, mode: AddressingMode::Absolute, cycles: 6, page_penalty: false, branch_penalty: false }),
        0x30 => Some(OpCode { instruction: Instruction::BMI, mode: AddressingMode::Relative, cycles: 2, page_penalty: false, branch_penalty: true }),
        0x31 => Some(OpCode { instruction: Instruction::AND, mode: AddressingMode::IndirectYIndexed, cycles: 5, page_penalty: true, branch_penalty: false }),
        0x33 => Some(OpCode { instruction: Instruction::RLA, mode: AddressingMode::IndirectYIndexed, cycles: 8, page_penalty: false, branch_penalty: false }),
        0x35 => Some(OpCode { instruction: Instruction::AND, mode: AddressingMode::ZeroPageX, cycles: 4, page_penalty: false, branch_penalty: false }),
        0x36 => Some(OpCode { instruction: Instruction::ROL, mode: AddressingMode::ZeroPageX, cycles: 6, page_penalty: false, branch_penalty: false }),
        0x37 => Some(OpCode { instruction: Instruction::RLA, mode: AddressingMode::ZeroPageX, cycles: 6, page_penalty: false, branch_penalty: false }),
        0x38 => Some(OpCode { instruction: Instruction::SEC, mode: AddressingMode::Implicit, cycles: 2, page_penalty: false, branch_penalty: false }),
        0x39 => Some(OpCode { instruction: Instruction::AND, mode: AddressingMode::AbsoluteY, cycles: 4, page_penalty: true, branch_penalty: false }),
        0x3b => Some(OpCode { instruction: Instruction::RLA, mode: AddressingMode::AbsoluteY, cycles: 7, page_penalty: false, branch_penalty: false }),
        0x3d => Some(OpCode { instruction: Instruction::AND, mode: AddressingMode::AbsoluteX, cycles: 4, page_penalty: true, branch_penalty: false }),
        0x3e => Some(OpCode { instruction: Instruction::ROL, mode: AddressingMode::AbsoluteX, cycles: 7, page_penalty: false, branch_penalty: false }),
        0x3f => Some(OpCode { instruction: Instruction::RLA, mode: AddressingMode::AbsoluteX, cycles: 7, page_penalty: false, branch_penalty: false }),
        0x40 => Some(OpCode { instruction: Instruction::RTI, mode: AddressingMode::Implicit, cycles: 6, page_penalty: false, branch_penalty: false }),
        0x41 => Some(OpCode { instruction: Instruction::EOR, mode: AddressingMode::XIndexedIndirect, cycles: 6, page_penalty: false, branch_penalty: false }),
        0x43 => Some(OpCode { instruction: Instruction::SRE, mode: AddressingMode::XIndexedIndirect, cycles: 8, page_penalty: false, branch_penalty: false }),
        0x45 => Some(OpCode { instruction: Instruction::EOR, mode: AddressingMode::ZeroPage, cycles: 3, page_penalty: false, branch_penalty: false }),
        0x46 => Some(OpCode { instruction: Instruction::LSR, mode: AddressingMode::ZeroPage, cycles: 5, page_penalty: false, branch_penalty: false }),
        0x47 => Some(OpCode { instruction: Instruction::SRE, mode: AddressingMode::ZeroPage, cycles: 5, page_penalty: false, branch_penalty: false }),
        0x48 => Some(OpCode { instruction: Instruction::PHA, mode: AddressingMode::Implicit, cycles: 3, page_penalty: false, branch_penalty: false }),
        0x49 => Some(OpCode { instruction: Instruction::EOR, mode: AddressingMode::Immediate, cycles: 2, page_penalty: false, branch_penalty: false }),
        0x4a => Some(OpCode { instruction: Instruction::LSR, mode: AddressingMode::Accumulator, cycles: 2, page_penalty: false, branch_penalty: false }),
        0x4c => Some(OpCode { instruction: Instruction::JMP, mode: AddressingMode::Absolute, cycles: 3, page_penalty: false, branch_penalty: false }),
        0x4d => Some(OpCode { instruction: Instruction::EOR, mode: AddressingMode::Absolute, cycles: 4, page_penalty: false, branch_penalty: false }),
        0x4e => Some(OpCode { instruction: Instruction::LSR, mode: AddressingMode::Absolute, cycles: 6, page_penalty: false, branch_penalty: false }),
        0x4f => Some(OpCode { instruction: Instruction::SRE, mode: AddressingMode::Absolute, cycles: 6, page_penalty: false, branch_penalty: false }),
        0x50 => Some(OpCode { instruction: Instruction::BVC, mode: AddressingMode::Relative, cycles: 2, page_penalty: false, branch_penalty: true }),
        0x51 => Some(OpCode { instruction: Instruction::EOR, mode: AddressingMode::IndirectYIndexed, cycles: 5, page_penalty: true, branch_penalty: false }),
        0x53 => Some(OpCode { instruction: Instruction::SRE, mode: AddressingMode::IndirectYIndexed, cycles: 8, page_penalty: false, branch_penalty: false }),
        0x55 => Some(OpCode { instruction: Instruction::EOR, mode: AddressingMode::ZeroPageX, cycles: 4, page_penalty: false, branch_penalty: false }),
        0x56 => Some(OpCode { instruction: Instruction::LSR, mode: AddressingMode::ZeroPageX, cycles: 6, page_penalty: false, branch_penalty: false }),
        0x57 => Some(OpCode { instruction: Instruction::SRE, mode: AddressingMode::ZeroPageX, cycles: 6, page_penalty: false, branch_penalty: false }),
        0x58 => Some(OpCode { instruction: Instruction::CLI, mode: AddressingMode::Implicit, cycles: 2, page_penalty: false, branch_penalty: false }),
        0x59 => Some(OpCode { instruction: Instruction::EOR, mode: AddressingMode::AbsoluteY, cycles: 4, page_penalty: true, branch_penalty: false }),
        0x5b => Some(OpCode { instruction: Instruction::SRE, mode: AddressingMode::AbsoluteY, cycles: 7, page_penalty: false, branch_penalty: false }),
        0x5d => Some(OpCode { instruction: Instruction::EOR, mode: AddressingMode::AbsoluteX, cycles: 4, page_penalty: true, branch_penalty: false }),
        0x5e => Some(OpCode { instruction: Instruction::LSR, mode: AddressingMode::AbsoluteX, cycles: 7, page_penalty: false, branch_penalty: false }),
        0x5f => Some(OpCode { instruction: Instruction::SRE, mode: AddressingMode::AbsoluteX, cycles: 7, page_penalty: false, branch_penalty: false }),
        0x60 => Some(OpCode { instruction: Instruction::RTS, mode: AddressingMode::Implicit, cycles: 6, page_penalty: false, branch_penalty: false }),
        0x61 => Some(OpCode { instruction: Instruction::ADC, mode: AddressingMode::XIndexedIndirect, cycles: 6, page_penalty: false, branch_penalty: false }),
        0x63 => Some(OpCode { instruction: Instruction::RRA, mode: AddressingMode::XIndexedIndirect, cycles: 8, page_penalty: false, branch_penalty: false }),
        0x65 => Some(OpCode { instruction: Instruction::ADC, mode: AddressingMode::ZeroPage, cycles: 3, page_penalty: false, branch_penalty: false }),
        0x66 => Some(OpCode { instruction: Instruction::ROR, mode: AddressingMode::ZeroPage, cycles: 5, page_penalty: false, branch_penalty: false }),
        0x67 => Some(OpCode { instruction: Instruction::RRA, mode: AddressingMode::ZeroPage, cycles: 5, page_penalty: false, branch_penalty: false }),
        0x68 => Some(OpCode { instruction: Instruction::PLA, mode: AddressingMode::Implicit, cycles: 4, page_penalty: false, branch_penalty: false }),
        0x69 => Some(OpCode { instruction: Instruction::ADC, mode: AddressingMode::Immediate, cycles: 2, page_penalty: false, branch_penalty: false }),
        0x6a => Some(OpCode { instruction: Instruction::ROR, mode: AddressingMode::Accumulator, cycles: 2, page_penalty: false, branch_penalty: false }),
        0x6c => Some(OpCode { instruction: Instruction::JMP, mode: AddressingMode::Indirect, cycles: 5, page_penalty: false, branch_penalty: false }),
        0x6d => Some(OpCode { instruction: Instruction::ADC, mode: AddressingMode::Absolute, cycles: 4, page_penalty: false, branch_penalty: false }),
        0x6e => Some(OpCode { instruction: Instruction::ROR, mode: AddressingMode::Absolute, cycles: 6, page_penalty: false, branch_penalty: false }),
        0x6f => Some(OpCode { instruction: Instruction::RRA, mode: AddressingMode::Absolute, cycles: 6, page_penalty: false, branch_penalty: false }),
        0x70 => Some(OpCode { instruction: Instruction::BVS, mode: AddressingMode::Relative, cycles: 2, page_penalty: false, branch_penalty: true }),
        0x71 => Some(OpCode { instruction: Instruction::ADC, mode: AddressingMode::IndirectYIndexed, cycles: 5, page_penalty: true, branch_penalty: false }),
        0x73 => Some(OpCode { instruction: Instruction::RRA, mode: AddressingMode::IndirectYIndexed, cycles: 8, page_penalty: false, branch_penalty: false }),
        0x75 => Some(OpCode { instruction: Instruction::ADC, mode: AddressingMode::ZeroPageX, cycles: 4, page_penalty: false, branch_penalty: false }),
        0x76 => Some(OpCode { instruction: Instruction::ROR, mode: AddressingMode::ZeroPageX, cycles: 6, page_penalty: false, branch_penalty: false }),
        0x77 => Some(OpCode { instruction: Instruction::RRA, mode: AddressingMode::ZeroPageX, cycles: 6, page_penalty: false, branch_penalty: false }),
        0x78 => Some(OpCode { instruction: Instruction::SEI, mode: AddressingMode::Implicit, cycles: 2, page_penalty: false, branch_penalty: false }),
        0x79 => Some(OpCode { instruction: Instruction::ADC, mode: AddressingMode::AbsoluteY, cycles: 4, page_penalty: true, branch_penalty: false }),
        0x7b => Some(OpCode { instruction: Instruction::RRA, mode: AddressingMode::AbsoluteY, cycles: 7, page_penalty: false, branch_penalty: false }),
        0x7d => Some(OpCode { instruction: Instruction::ADC, mode: AddressingMode::AbsoluteX, cycles: 4, page_penalty: true, branch_penalty: false }),
        0x7e => Some(OpCode { instruction: Instruction::ROR, mode: AddressingMode::AbsoluteX, cycles: 7, page_penalty: false, branch_penalty: false }),
        0x7f => Some(OpCode { instruction: Instruction::RRA, mode: AddressingMode::AbsoluteX, cycles: 7, page_penalty: false, branch_penalty: false }),
        0x81 => Some(OpCode { instruction: Instruction::STA, mode: AddressingMode::XIndexedIndirect, cycles: 6, page_penalty: false, branch_penalty: false }),
        0x83 => Some(OpCode { instruction: Instruction::SAX, mode: AddressingMode::XIndexedIndirect, cycles: 6, page_penalty: false, branch_penalty: false }),
        0x84 => Some(OpCode { instruction: Instruction::STY, mode: AddressingMode::ZeroPage, cycles: 3, page_penalty: false, branch_penalty: false }),
        0x85 => Some(OpCode { instruction: Instruction::STA, mode: AddressingMode::ZeroPage, cycles: 3, page_penalty: false, branch_penalty: false }),
        0x86 => Some(OpCode { instruction: Instruction::STX, mode: AddressingMode::ZeroPage, cycles: 3, page_penalty: false, branch_penalty: false }),
        0x87 => Some(OpCode { instruction: Instruction::SAX, mode: AddressingMode::ZeroPage, cycles: 3, page_penalty: false, branch_penalty: false }),
        0x88 => Some(OpCode { instruction: Instruction::DEY, mode: AddressingMode::Implicit, cycles: 2, page_penalty: false, branch_penalty: false }),
        0x8a => Some(OpCode { instruction: Instruction::TXA, mode: AddressingMode::Implicit, cycles: 2, page_penalty: false, branch_penalty: false }),
        0x8c => Some(OpCode { instruction: Instruction::STY, mode: AddressingMode::Absolute, cycles: 4, page_penalty: false, branch_penalty: false }),
        0x8d => Some(OpCode { instruction: Instruction::STA, mode: AddressingMode::Absolute, cycles: 4, page_penalty: false, branch_penalty: false }),
        0x8e => Some(OpCode { instruction: Instruction::STX, mode: AddressingMode::Absolute, cycles: 4, page_penalty: false, branch_penalty: false }),
        0x8f => Some(OpCode { instruction: Instruction::SAX, mode: AddressingMode::Absolute, cycles: 4, page_penalty: false, branch_penalty: false }),
        0x90 => Some(OpCode { instruction: Instruction::BCC, mode: AddressingMode::Relative, cycles: 2, page_penalty: false, branch_penalty: true }),
        0x91 => Some(OpCode { instruction: Instruction::STA, mode: AddressingMode::IndirectYIndexed, cycles: 6, page_penalty: false, branch_penalty: false }),
        0x94 => Some(OpCode { instruction: Instruction::STY, mode: AddressingMode::ZeroPageX, cycles: 4, page_penalty: false, branch_penalty: false }),
        0x95 => Some(OpCode { instruction: Instruction::STA, mode: AddressingMode::ZeroPageX, cycles: 4, page_penalty: false, branch_penalty: false }),
        0x96 => Some(OpCode { instruction: Instruction::STX, mode: AddressingMode::ZeroPageY, cycles: 4, page_penalty: false, branch_penalty: false }),
        0x97 => Some(OpCode { instruction: Instruction::SAX, mode: AddressingMode::ZeroPageY, cycles: 4, page_penalty: false, branch_penalty: false }),
        0x98 => Some(OpCode { instruction: Instruction::TYA, mode: AddressingMode::Implicit, cycles: 2, page_penalty: false, branch_penalty: false }),
        0x99 => Some(OpCode { instruction: Instruction::STA, mode: AddressingMode::AbsoluteY, cycles: 5, page_penalty: false, branch_penalty: false }),
        0x9a => Some(OpCode { instruction: Instruction::TXS, mode: AddressingMode::Implicit, cycles: 2, page_penalty: false, branch_penalty: false }),
        0x9d => Some(OpCode { instruction: Instruction::STA, mode: AddressingMode::AbsoluteX, cycles: 5, page_penalty: false, branch_penalty: false }),
        0xa0 => Some(OpCode { instruction: Instruction::LDY, mode: AddressingMode::Immediate, cycles: 2, page_penalty: false, branch_penalty: false }),
        0xa1 => Some(OpCode { instruction: Instruction::LDA, mode: AddressingMode::XIndexedIndirect, cycles: 6, page_penalty: false, branch_penalty: false }),
        0xa2 => Some(OpCode { instruction: Instruction::LDX, mode: AddressingMode::Immediate, cycles: 2, page_penalty: false, branch_penalty: false }),
        0xa3 => Some(OpCode { instruction: Instruction::LAX, mode: AddressingMode::XIndexedIndirect, cycles: 6, page_penalty: false, branch_penalty: false }),
        0xa4 => Some(OpCode { instruction: Instruction::LDY, mode: AddressingMode::ZeroPage, cycles: 3, page_penalty: false, branch_penalty: false }),
        0xa5 => Some(OpCode { instruction: Instruction::LDA, mode: AddressingMode::ZeroPage, cycles: 3, page_penalty: false, branch_penalty: false }),
        0xa6 => Some(OpCode { instruction: Instruction::LDX, mode: AddressingMode::ZeroPage, cycles: 3, page_penalty: false, branch_penalty: false }),
        0xa7 => Some(OpCode { instruction: Instruction::LAX, mode: AddressingMode::ZeroPage, cycles: 3, page_penalty: false, branch_penalty: false }),
        0xa8 => Some(OpCode { instruction: Instruction::TAY, mode: AddressingMode::Implicit, cycles: 2, page_penalty: false, branch_penalty: false }),
        0xa9 => Some(OpCode { instruction: Instruction::LDA, mode: AddressingMode::Immediate, cycles: 2, page_penalty: false, branch_penalty: false }),
        0xaa => Some(OpCode { instruction: Instruction::TAX, mode: AddressingMode::Implicit, cycles: 2, page_penalty: false, branch_penalty: false }),
        0xac => Some(OpCode { instruction: Instruction::LDY, mode: AddressingMode::Absolute, cycles: 4, page_penalty: false, branch_penalty: false }),
        0xad => Some(OpCode { instruction: Instruction::LDA, mode: AddressingMode::Absolute, cycles: 4, page_penalty: false, branch_penalty: false }),
        0xae => Some(OpCode { instruction: Instruction::LDX, mode: AddressingMode::Absolute, cycles: 4, page_penalty: false, branch_penalty: false }),
        0xaf => Some(OpCode { instruction: Instruction::LAX, mode: AddressingMode::Absolute, cycles: 4, page_penalty: false, branch_penalty: false }),
        0xb0 => Some(OpCode { instruction: Instruction::BCS, mode: AddressingMode::Relative, cycles: 2, page_penalty: false, branch_penalty: true }),
        0xb1 => Some(OpCode { instruction: Instruction::LDA, mode: AddressingMode::IndirectYIndexed, cycles: 5, page_penalty: true, branch_penalty: false }),
        0xb3 => Some(OpCode { instruction: Instruction::LAX, mode: AddressingMode::IndirectYIndexed, cycles: 5, page_penalty: true, branch_penalty: false }),
        0xb4 => Some(OpCode { instruction: Instruction::LDY, mode: AddressingMode::ZeroPageX, cycles: 4, page_penalty: false, branch_penalty: false }),
        0xb5 => Some(OpCode { instruction: Instruction::LDA, mode: AddressingMode::ZeroPageX, cycles: 4, page_penalty: false, branch_penalty: false }),
        0xb6 => Some(OpCode { instruction: Instruction::LDX, mode: AddressingMode::ZeroPageY, cycles: 4, page_penalty: false, branch_penalty: false }),
        0xb7 => Some(OpCode { instruction: Instruction::LAX, mode: AddressingMode::ZeroPageY, cycles: 4, page_penalty: false, branch_penalty: false }),
        0xb8 => Some(OpCode { instruction: Instruction::CLV, mode: AddressingMode::Implicit, cycles: 2, page_penalty: false, branch_penalty: false }),
        0xb9 => Some(OpCode { instruction: Instruction::LDA, mode: AddressingMode::AbsoluteY, cycles: 4, page_penalty: true, branch_penalty: false }),
        0xba => Some(OpCode { instruction: Instruction::TSX, mode: AddressingMode::Implicit, cycles: 2, page_penalty: false, branch_penalty: false }),
        0xbc => Some(OpCode { instruction: Instruction::LDY, mode: AddressingMode::AbsoluteX, cycles: 4, page_penalty: true, branch_penalty: false }),
        0xbd => Some(OpCode { instruction: Instruction::LDA, mode: AddressingMode::AbsoluteX, cycles: 4, page_penalty: true, branch_penalty: false }),
        0xbe => Some(OpCode { instruction: Instruction::LDX, mode: AddressingMode::AbsoluteY, cycles: 4, page_penalty: true, branch_penalty: false }),
        0xbf => Some(OpCode { instruction: Instruction::LAX, mode: AddressingMode::AbsoluteY, cycles: 4, page_penalty: true, branch_penalty: false }),
        0xc0 => Some(OpCode { instruction: Instruction::CPY, mode: AddressingMode::Immediate, cycles: 2, page_penalty: false, branch_penalty: false }),
        0xc1 => Some(OpCode { instruction: Instruction::CMP, mode: AddressingMode::XIndexedIndirect, cycles: 6, page_penalty: false, branch_penalty: false }),
        0xc3 => Some(OpCode { instruction: Instruction::DCP, mode: AddressingMode::XIndexedIndirect, cycles: 8, page_penalty: false, branch_penalty: false }),
        0xc4 => Some(OpCode { instruction: Instruction::CPY, mode: AddressingMode::ZeroPage, cycles: 3, page_penalty: false, branch_penalty: false }),
        0xc5 => Some(OpCode { instruction: Instruction::CMP, mode: AddressingMode::ZeroPage, cycles: 3, page_penalty: false, branch_penalty: false }),
        0xc6 => Some(OpCode { instruction: Instruction::DEC, mode: AddressingMode::ZeroPage, cycles: 5, page_penalty: false, branch_penalty: false }),
        0xc7 => Some(OpCode { instruction: Instruction::DCP, mode: AddressingMode::ZeroPage, cycles: 5, page_penalty: false, branch_penalty: false }),
        0xc8 => Some(OpCode { instruction: Instruction::INY, mode: AddressingMode::Implicit, cycles: 2, page_penalty: false, branch_penalty: false }),
        0xc9 => Some(OpCode { instruction: Instruction::CMP, mode: AddressingMode::Immediate, cycles: 2, page_penalty: false, branch_penalty: false }),
        0xca => Some(OpCode { instruction: Instruction::DEX, mode: AddressingMode::Implicit, cycles: 2, page_penalty: false, branch_penalty: false }),
        0xcc => Some(OpCode { instruction: Instruction::CPY, mode: AddressingMode::Absolute, cycles: 4, page_penalty: false, branch_penalty: false }),
        0xcd => Some(OpCode { instruction: Instruction::CMP, mode: AddressingMode::Absolute, cycles: 4, page_penalty: false, branch_penalty: false }),
        0xce => Some(OpCode { instruction: Instruction::DEC, mode: AddressingMode::Absolute, cycles: 6, page_penalty: false, branch_penalty: false }),
        0xcf => Some(OpCode { instruction: Instruction::DCP, mode: AddressingMode::Absolute, cycles: 6, page_penalty: false, branch_penalty: false }),
        0xd0 => Some(OpCode { instruction: Instruction::BNE, mode: AddressingMode::Relative, cycles: 2, page_penalty: false, branch_penalty: true }),
        0xd1 => Some(OpCode { instruction: Instruction::CMP, mode: AddressingMode::IndirectYIndexed, cycles: 5, page_penalty: true, branch_penalty: false }),
        0xd3 => Some(OpCode { instruction: Instruction::DCP, mode: AddressingMode::IndirectYIndexed, cycles: 8, page_penalty: false, branch_penalty: false }),
        0xd5 => Some(OpCode { instruction: Instruction::CMP, mode: AddressingMode::ZeroPageX, cycles: 4, page_penalty: false, branch_penalty: false }),
        0xd6 => Some(OpCode { instruction: Instruction::DEC, mode: AddressingMode::ZeroPageX, cycles: 6, page_penalty: false, branch_penalty: false }),
        0xd7 => Some(OpCode { instruction: Instruction::DCP, mode: AddressingMode::ZeroPageX, cycles: 6, page_penalty: false, branch_penalty: false }),
        0xd8 => Some(OpCode { instruction: Instruction::CLD, mode: AddressingMode::Implicit, cycles: 2, page_penalty: false, branch_penalty: false }),
        0xd9 => Some(OpCode { instruction: Instruction::CMP, mode: AddressingMode::AbsoluteY, cycles: 4, page_penalty: true, branch_penalty: false }),
        0xdb => Some(OpCode { instruction: Instruction::DCP, mode: AddressingMode::AbsoluteY, cycles: 7, page_penalty: false, branch_penalty: false }),
        0xdd => Some(OpCode { instruction: Instruction::CMP, mode: AddressingMode::AbsoluteX, cycles: 4, page_penalty: true, branch_penalty: false }),
        0xde => Some(OpCode { instruction: Instruction::DEC, mode: AddressingMode::AbsoluteX, cycles: 7, page_penalty: false, branch_penalty: false }),
        0xdf => Some(OpCode { instruction: Instruction::DCP, mode: AddressingMode::AbsoluteX, cycles: 7, page_penalty: false, branch_penalty: false }),
        0xe0 => Some(OpCode { instruction: Instruction::CPX, mode: AddressingMode::Immediate, cycles: 2, page_penalty: false, branch_penalty: false }),
        0xe1 => Some(OpCode { instruction: Instruction::SBC, mode: AddressingMode::XIndexedIndirect, cycles: 6, page_penalty: false, branch_penalty: false }),
        0xe3 => Some(OpCode { instruction: Instruction::ISC, mode: AddressingMode::XIndexedIndirect, cycles: 8, page_penalty: false, branch_penalty: false }),
        0xe4 => Some(OpCode { instruction: Instruction::CPX, mode: AddressingMode::ZeroPage, cycles: 3, page_penalty: false, branch_penalty: false }),
        0xe5 => Some(OpCode { instruction: Instruction::SBC, mode: AddressingMode::ZeroPage, cycles: 3, page_penalty: false, branch_penalty: false }),
        0xe6 => Some(OpCode { instruction: Instruction::INC, mode: AddressingMode::ZeroPage, cycles: 5, page_penalty: false, branch_penalty: false }),
        0xe7 => Some(OpCode { instruction: Instruction::ISC, mode: AddressingMode::ZeroPage, cycles: 5, page_penalty: false, branch_penalty: false }),
        0xe8 => Some(OpCode { instruction: Instruction::INX, mode: AddressingMode::Implicit, cycles: 2, page_penalty: false, branch_penalty: false }),
        0xe9 => Some(OpCode { instruction: Instruction::SBC, mode: AddressingMode::Immediate, cycles: 2, page_penalty: false, branch_penalty: false }),
        0xea => Some(OpCode { instruction: Instruction::NOP, mode: AddressingMode::Implicit, cycles: 2, page_penalty: false, branch_penalty: false }),
        0xec => Some(OpCode { instruction: Instruction::CPX, mode: AddressingMode::Absolute, cycles: 4, page_penalty: false, branch_penalty: false }),
        0xed => Some(OpCode { instruction: Instruction::SBC, mode: AddressingMode::Absolute, cycles: 4, page_penalty: false, branch_penalty: false }),
        0xee => Some(OpCode { instruction: Instruction::INC, mode: AddressingMode::Absolute, cycles: 6, page_penalty: false, branch_penalty: false }),
        0xef => Some(OpCode { instruction: Instruction::ISC, mode: AddressingMode::Absolute, cycles: 6, page_penalty: false, branch_penalty: false }),
        0xf0 => Some(OpCode { instruction: Instruction::BEQ, mode: AddressingMode::Relative, cycles: 2, page_penalty: false, branch_penalty: true }),
        0xf1 => Some(OpCode { instruction: Instruction::SBC, mode: AddressingMode::IndirectYIndexed, cycles: 5, page_penalty: true, branch_penalty: false }),
        0xf3 => Some(OpCode { instruction: Instruction::ISC, mode: AddressingMode::IndirectYIndexed, cycles: 8, page_penalty: false, branch_penalty: false }),
        0xf5 => Some(OpCode { instruction: Instruction::SBC, mode: AddressingMode::ZeroPageX, cycles: 4, page_penalty: false, branch_penalty: false }),
        0xf6 => Some(OpCode { instruction: Instruction::INC, mode: AddressingMode::ZeroPageX, cycles: 6, page_penalty: false, branch_penalty: false }),
        0xf7 => Some(OpCode { instruction: Instruction::ISC, mode: AddressingMode::ZeroPageX, cycles: 6, page_penalty: false, branch_penalty: false }),
        0xf8 => Some(OpCode { instruction: Instruction::SED, mode: AddressingMode::Implicit, cycles: 2, page_penalty: false, branch_penalty: false }),
        0xf9 => Some(OpCode { instruction: Instruction::SBC, mode: AddressingMode::AbsoluteY, cycles: 4, page_penalty: true, branch_penalty: false }),
        0xfb => Some(OpCode { instruction: Instruction::ISC, mode: AddressingMode::AbsoluteY, cycles: 7, page_penalty: false, branch_penalty: false }),
        0xfd => Some(OpCode { instruction: Instruction::SBC, mode: AddressingMode::AbsoluteX, cycles: 4, page_penalty: true, branch_penalty: false }),
        0xfe => Some(OpCode { instruction: Instruction::INC, mode: AddressingMode::AbsoluteX, cycles: 7, page_penalty: false, branch_penalty: false }),
        0xff => Some(OpCode { instruction: Instruction::ISC, mode: AddressingMode::AbsoluteX, cycles: 7, page_penalty: false, branch_penalty: false }),
        _ => None,
    }
}

/// Looks an opcode byte up in the instruction table.
pub fn decode(op: u8) -> (r: Option<OpCode>)
    ensures
        r == opcode_spec(op),
        r matches Some(d) ==> d.cycles <= 8,
{
    reveal(opcode_spec);
    match op {
        0x00 => Some(OpCode { instruction: Instruction::BRK, mode: AddressingMode::Implicit, cycles: 7, page_penalty: false, branch_penalty: false }),
        0x01 => Some(OpCode { instruction: Instruction::ORA, mode: AddressingMode::XIndexedIndirect, cycles: 6, page_penalty: false, branch_penalty: false }),
        0x03 => Some(OpCode { instruction: Instruction::SLO, mode: AddressingMode::XIndexedIndirect, cycles: 8, page_penalty: false, branch_penalty: false }),
        0x05 => Some(OpCode { instruction: Instruction::ORA, mode: AddressingMode::ZeroPage, cycles: 3, page_penalty: false, branch_penalty: false }),
        0x06 => Some(OpCode { instruction: Instruction::ASL, mode: AddressingMode::ZeroPage, cycles: 5, page_penalty: false, branch_penalty: false }),
        0x07 => Some(OpCode { instruction: Instruction::SLO, mode: AddressingMode::ZeroPage, cycles: 5, page_penalty: false, branch_penalty: false }),
        0x08 => Some(OpCode { instruction: Instruction::PHP, mode: AddressingMode::Implicit, cycles: 3, page_penalty: false, branch_penalty: false }),
        0x09 => Some(OpCode { instruction: Instruction::ORA, mode: AddressingMode::Immediate, cycles: 2, page_penalty: false, branch_penalty: false }),
        0x0a => Some(OpCode { instruction: Instruction::ASL, mode: AddressingMode::Accumulator, cycles: 2, page_penalty: false, branch_penalty: false }),
        0x0d => Some(OpCode { instruction: Instruction::ORA, mode: AddressingMode::Absolute, cycles: 4, page_penalty: false, branch_penalty: false }),
        0x0e => Some(OpCode { instruction: Instruction::ASL, mode: AddressingMode::Absolute, cycles: 6, page_penalty: false, branch_penalty: false }),
        0x0f => Some(OpCode { instruction: Instruction::SLO, mode: AddressingMode::Absolute, cycles: 6, page_penalty: false, branch_penalty: false }),
        0x10 => Some(OpCode { instruction: Instruction::BPL, mode: AddressingMode::Relative, cycles: 2, page_penalty: false, branch_penalty: true }),
        0x11 => Some(OpCode { instruction: Instruction::ORA, mode: AddressingMode::IndirectYIndexed, cycles: 5, page_penalty: true, branch_penalty: false }),
        0x13 => Some(OpCode { instruction: Instruction::SLO, mode: AddressingMode::IndirectYIndexed, cycles: 8, page_penalty: false, branch_penalty: false }),
        0x15 => Some(OpCode { instruction: Instruction::ORA, mode: AddressingMode::ZeroPageX, cycles: 4, page_penalty: false, branch_penalty: false }),
        0x16 => Some(OpCode { instruction: Instruction::ASL, mode: AddressingMode::ZeroPageX, cycles: 6, page_penalty: false, branch_penalty: false }),
        0x17 => Some(OpCode { instruction: Instruction::SLO, mode: AddressingMode::ZeroPageX, cycles: 6, page_penalty: false, branch_penalty: false }),
        0x18 => Some(OpCode { instruction: Instruction::CLC, mode: AddressingMode::Implicit, cycles: 2, page_penalty: false, branch_penalty: false }),
        0x19 => Some(OpCode { instruction: Instruction::ORA, mode: AddressingMode::AbsoluteY, cycles: 4, page_penalty: true, branch_penalty: false }),
        0x1b => Some(OpCode { instruction: Instruction::SLO, mode: AddressingMode::AbsoluteY, cycles: 7, page_penalty: false, branch_penalty: false }),
        0x1d => Some(OpCode { instruction: Instruction::ORA, mode: AddressingMode::AbsoluteX, cycles: 4, page_penalty: true, branch_penalty: false }),
        0x1e => Some(OpCode { instruction: Instruction::ASL, mode: AddressingMode::AbsoluteX, cycles: 7, page_penalty: false, branch_penalty: false }),
        0x1f => Some(OpCode { instruction: Instruction::SLO, mode: AddressingMode::AbsoluteX, cycles: 7, page_penalty: false, branch_penalty: false }),
        0x20 => Some(OpCode { instruction: Instruction::JSR, mode: AddressingMode::Absolute, cycles: 6, page_penalty: false, branch_penalty: false }),
        0x21 => Some(OpCode { instruction: Instruction::AND, mode: AddressingMode::XIndexedIndirect, cycles: 6, page_penalty: false, branch_penalty: false }),
        0x23 => Some(OpCode { instruction: Instruction::RLA, mode: AddressingMode::XIndexedIndirect, cycles: 8, page_penalty: false, branch_penalty: false }),
        0x24 => Some(OpCode { instruction: Instruction::BIT, mode: AddressingMode::ZeroPage, cycles: 3, page_penalty: false, branch_penalty: false }),
        0x25 => Some(OpCode { instruction: Instruction::AND, mode: AddressingMode::ZeroPage, cycles: 3, page_penalty: false, branch_penalty: false }),
        0x26 => Some(OpCode { instruction: Instruction::ROL, mode: AddressingMode::ZeroPage, cycles: 5, page_penalty: false, branch_penalty: false }),
        0x27 => Some(OpCode { instruction: Instruction::RLA, mode: AddressingMode::ZeroPage, cycles: 5, page_penalty: false, branch_penalty: false }),
        0x28 => Some(OpCode { instruction: Instruction::PLP, mode: AddressingMode::Implicit, cycles: 4, page_penalty: false, branch_penalty: false }),
        0x29 => Some(OpCode { instruction: Instruction::AND, mode: AddressingMode::Immediate, cycles: 2, page_penalty: false, branch_penalty: false }),
        0x2a => Some(OpCode { instruction: Instruction::ROL, mode: AddressingMode::Accumulator, cycles: 2, page_penalty: false, branch_penalty: false }),
        0x2c => Some(OpCode { instruction: Instruction::BIT, mode: AddressingMode::Absolute, cycles: 4, page_penalty: false, branch_penalty: false }),
        0x2d => Some(OpCode { instruction: Instruction::AND, mode: AddressingMode::Absolute, cycles: 4, page_penalty: false, branch_penalty: false }),
        0x2e => Some(OpCode { instruction: Instruction::ROL, mode: AddressingMode::Absolute, cycles: 6, page_penalty: false, branch_penalty: false }),
        0x2f => Some(OpCode { instruction: Instruction::RLA, mode: AddressingMode::Absolute, cycles: 6, page_penalty: false, branch_penalty: false }),
        0x30 => Some(OpCode { instruction: Instruction::BMI, mode: AddressingMode::Relative, cycles: 2, page_penalty: false, branch_penalty: true }),
        0x31 => Some(OpCode { instruction: Instruction::AND, mode: AddressingMode::IndirectYIndexed, cycles: 5, page_penalty: true, branch_penalty: false }),
        0x33 => Some(OpCode { instruction: Instruction::RLA, mode: AddressingMode::IndirectYIndexed, cycles: 8, page_penalty: false, branch_penalty: false }),
        0x35 => Some(OpCode { instruction: Instruction::AND, mode: AddressingMode::ZeroPageX, cycles: 4, page_penalty: false, branch_penalty: false }),
        0x36 => Some(OpCode { instruction: Instruction::ROL, mode: AddressingMode::ZeroPageX, cycles: 6, page_penalty: false, branch_penalty: false }),
        0x37 => Some(OpCode { instruction: Instruction::RLA, mode: AddressingMode::ZeroPageX, cycles: 6, page_penalty: false, branch_penalty: false }),
        0x38 => Some(OpCode { instruction: Instruction::SEC, mode: AddressingMode::Implicit, cycles: 2, page_penalty: false, branch_penalty: false }),
        0x39 => Some(OpCode { instruction: Instruction::AND, mode: AddressingMode::AbsoluteY, cycles: 4, page_penalty: true, branch_penalty: false }),
        0x3b => Some(OpCode { instruction: Instruction::RLA, mode: AddressingMode::AbsoluteY, cycles: 7, page_penalty: false, branch_penalty: false }),
        0x3d => Some(OpCode { instruction: Instruction::AND, mode: AddressingMode::AbsoluteX, cycles: 4, page_penalty: true, branch_penalty: false }),
        0x3e => Some(OpCode { instruction: Instruction::ROL, mode: AddressingMode::AbsoluteX, cycles: 7, page_penalty: false, branch_penalty: false }),
        0x3f => Some(OpCode { instruction: Instruction::RLA, mode: AddressingMode::AbsoluteX, cycles: 7, page_penalty: false, branch_penalty: false }),
        0x40 => Some(OpCode { instruction: Instruction::RTI, mode: AddressingMode::Implicit, cycles: 6, page_penalty: false, branch_penalty: false }),
        0x41 => Some(OpCode { instruction: Instruction::EOR, mode: AddressingMode::XIndexedIndirect, cycles: 6, page_penalty: false, branch_penalty: false }),
        0x43 => Some(OpCode { instruction: Instruction::SRE, mode: AddressingMode::XIndexedIndirect, cycles: 8, page_penalty: false, branch_penalty: false }),
        0x45 => Some(OpCode { instruction: Instruction::EOR, mode: AddressingMode::ZeroPage, cycles: 3, page_penalty: false, branch_penalty: false }),
        0x46 => Some(OpCode { instruction: Instruction::LSR, mode: AddressingMode::ZeroPage, cycles: 5, page_penalty: false, branch_penalty: false }),
        0x47 => Some(OpCode { instruction: Instruction::SRE, mode: AddressingMode::ZeroPage, cycles: 5, page_penalty: false, branch_penalty: false }),
        0x48 => Some(OpCode { instruction: Instruction::PHA, mode: AddressingMode::Implicit, cycles: 3, page_penalty: false, branch_penalty: false }),
        0x49 => Some(OpCode { instruction: Instruction::EOR, mode: AddressingMode::Immediate, cycles: 2, page_penalty: false, branch_penalty: false }),
        0x4a => Some(OpCode { instruction: Instruction::LSR, mode: AddressingMode::Accumulator, cycles: 2, page_penalty: false, branch_penalty: false }),
        0x4c => Some(OpCode { instruction: Instruction::JMP, mode: AddressingMode::Absolute, cycles: 3, page_penalty: false, branch_penalty: false }),
        0x4d => Some(OpCode { instruction: Instruction::EOR, mode: AddressingMode::Absolute, cycles: 4, page_penalty: false, branch_penalty: false }),
        0x4e => Some(OpCode { instruction: Instruction::LSR, mode: AddressingMode::Absolute, cycles: 6, page_penalty: false, branch_penalty: false }),
        0x4f => Some(OpCode { instruction: Instruction::SRE, mode: AddressingMode::Absolute, cycles: 6, page_penalty: false, branch_penalty: false }),
        0x50 => Some(OpCode { instruction: Instruction::BVC, mode: AddressingMode::Relative, cycles: 2, page_penalty: false, branch_penalty: true }),
        0x51 => Some(OpCode { instruction: Instruction::EOR, mode: AddressingMode::IndirectYIndexed, cycles: 5, page_penalty: true, branch_penalty: false }),
        0x53 => Some(OpCode { instruction: Instruction::SRE, mode: AddressingMode::IndirectYIndexed, cycles: 8, page_penalty: false, branch_penalty: false }),
        0x55 => Some(OpCode { instruction: Instruction::EOR, mode: AddressingMode::ZeroPageX, cycles: 4, page_penalty: false, branch_penalty: false }),
        0x56 => Some(OpCode { instruction: Instruction::LSR, mode: AddressingMode::ZeroPageX, cycles: 6, page_penalty: false, branch_penalty: false }),
        0x57 => Some(OpCode { instruction: Instruction::SRE, mode: AddressingMode::ZeroPageX, cycles: 6, page_penalty: false, branch_penalty: false }),
        0x58 => Some(OpCode { instruction: Instruction::CLI, mode: AddressingMode::Implicit, cycles: 2, page_penalty: false, branch_penalty: false }),
        0x59 => Some(OpCode { instruction: Instruction::EOR, mode: AddressingMode::AbsoluteY, cycles: 4, page_penalty: true, branch_penalty: false }),
        0x5b => Some(OpCode { instruction: Instruction::SRE, mode: AddressingMode::AbsoluteY, cycles: 7, page_penalty: false, branch_penalty: false }),
        0x5d => Some(OpCode { instruction: Instruction::EOR, mode: AddressingMode::AbsoluteX, cycles: 4, page_penalty: true, branch_penalty: false }),
        0x5e => Some(OpCode { instruction: Instruction::LSR, mode: AddressingMode::AbsoluteX, cycles: 7, page_penalty: false, branch_penalty: false }),
        0x5f => Some(OpCode { instruction: Instruction::SRE, mode: AddressingMode::AbsoluteX, cycles: 7, page_penalty: false, branch_penalty: false }),
        0x60 => Some(OpCode { instruction: Instruction::RTS, mode: AddressingMode::Implicit, cycles: 6, page_penalty: false, branch_penalty: false }),
        0x61 => Some(OpCode { instruction: Instruction::ADC, mode: AddressingMode::XIndexedIndirect, cycles: 6, page_penalty: false, branch_penalty: false }),
        0x63 => Some(OpCode { instruction: Instruction::RRA, mode: AddressingMode::XIndexedIndirect, cycles: 8, page_penalty: false, branch_penalty: false }),
        0x65 => Some(OpCode { instruction: Instruction::ADC, mode: AddressingMode::ZeroPage, cycles: 3, page_penalty: false, branch_penalty: false }),
        0x66 => Some(OpCode { instruction: Instruction::ROR, mode: AddressingMode::ZeroPage, cycles: 5, page_penalty: false, branch_penalty: false }),
        0x67 => Some(OpCode { instruction: Instruction::RRA, mode: AddressingMode::ZeroPage, cycles: 5, page_penalty: false, branch_penalty: false }),
        0x68 => Some(OpCode { instruction: Instruction::PLA, mode: AddressingMode::Implicit, cycles: 4, page_penalty: false, branch_penalty: false }),
        0x69 => Some(OpCode { instruction: Instruction::ADC, mode: AddressingMode::Immediate, cycles: 2, page_penalty: false, branch_penalty: false }),
        0x6a => Some(OpCode { instruction: Instruction::ROR, mode: AddressingMode::Accumulator, cycles: 2, page_penalty: false, branch_penalty: false }),
        0x6c => Some(OpCode { instruction: Instruction::JMP, mode: AddressingMode::Indirect, cycles: 5, page_penalty: false, branch_penalty: false }),
        0x6d => Some(OpCode { instruction: Instruction::ADC, mode: AddressingMode::Absolute, cycles: 4, page_penalty: false, branch_penalty: false }),
        0x6e => Some(OpCode { instruction: Instruction::ROR, mode: AddressingMode::Absolute, cycles: 6, page_penalty: false, branch_penalty: false }),
        0x6f => Some(OpCode { instruction: Instruction::RRA, mode: AddressingMode::Absolute, cycles: 6, page_penalty: false, branch_penalty: false }),
        0x70 => Some(OpCode { instruction: Instruction::BVS, mode: AddressingMode::Relative, cycles: 2, page_penalty: false, branch_penalty: true }),
        0x71 => Some(OpCode { instruction: Instruction::ADC, mode: AddressingMode::IndirectYIndexed, cycles: 5, page_penalty: true, branch_penalty: false }),
        0x73 => Some(OpCode { instruction: Instruction::RRA, mode: AddressingMode::IndirectYIndexed, cycles: 8, page_penalty: false, branch_penalty: false }),
        0x75 => Some(OpCode { instruction: Instruction::ADC, mode: AddressingMode::ZeroPageX, cycles: 4, page_penalty: false, branch_penalty: false }),
        0x76 => Some(OpCode { instruction: Instruction::ROR, mode: AddressingMode::ZeroPageX, cycles: 6, page_penalty: false, branch_penalty: false }),
        0x77 => Some(OpCode { instruction: Instruction::RRA, mode: AddressingMode::ZeroPageX, cycles: 6, page_penalty: false, branch_penalty: false }),
        0x78 => Some(OpCode { instruction: Instruction::SEI, mode: AddressingMode::Implicit, cycles: 2, page_penalty: false, branch_penalty: false }),
        0x79 => Some(OpCode { instruction: Instruction::ADC, mode: AddressingMode::AbsoluteY, cycles: 4, page_penalty: true, branch_penalty: false }),
        0x7b => Some(OpCode { instruction: Instruction::RRA, mode: AddressingMode::AbsoluteY, cycles: 7, page_penalty: false, branch_penalty: false }),
        0x7d => Some(OpCode { instruction: Instruction::ADC, mode: AddressingMode::AbsoluteX, cycles: 4, page_penalty: true, branch_penalty: false }),
        0x7e => Some(OpCode { instruction: Instruction::ROR, mode: AddressingMode::AbsoluteX, cycles: 7, page_penalty: false, branch_penalty: false }),
        0x7f => Some(OpCode { instruction: Instruction::RRA, mode: AddressingMode::AbsoluteX, cycles: 7, page_penalty: false, branch_penalty: false }),
        0x81 => Some(OpCode { instruction: Instruction::STA, mode: AddressingMode::XIndexedIndirect, cycles: 6, page_penalty: false, branch_penalty: false }),
        0x83 => Some(OpCode { instruction: Instruction::SAX, mode: AddressingMode::XIndexedIndirect, cycles: 6, page_penalty: false, branch_penalty: false }),
        0x84 => Some(OpCode { instruction: Instruction::STY, mode: AddressingMode::ZeroPage, cycles: 3, page_penalty: false, branch_penalty: false }),
        0x85 => Some(OpCode { instruction: Instruction::STA, mode: AddressingMode::ZeroPage, cycles: 3, page_penalty: false, branch_penalty: false }),
        0x86 => Some(OpCode { instruction: Instruction::STX, mode: AddressingMode::ZeroPage, cycles: 3, page_penalty: false, branch_penalty: false }),
        0x87 => Some(OpCode { instruction: Instruction::SAX, mode: AddressingMode::ZeroPage, cycles: 3, page_penalty: false, branch_penalty: false }),
        0x88 => Some(OpCode { instruction: Instruction::DEY, mode: AddressingMode::Implicit, cycles: 2, page_penalty: false, branch_penalty: false }),
        0x8a => Some(OpCode { instruction: Instruction::TXA, mode: AddressingMode::Implicit, cycles: 2, page_penalty: false, branch_penalty: false }),
        0x8c => Some(OpCode { instruction: Instruction::STY, mode: AddressingMode::Absolute, cycles: 4, page_penalty: false, branch_penalty: false }),
        0x8d => Some(OpCode { instruction: Instruction::STA, mode: AddressingMode::Absolute, cycles: 4, page_penalty: false, branch_penalty: false }),
        0x8e => Some(OpCode { instruction: Instruction::STX, mode: AddressingMode::Absolute, cycles: 4, page_penalty: false, branch_penalty: false }),
        0x8f => Some(OpCode { instruction: Instruction::SAX, mode: AddressingMode::Absolute, cycles: 4, page_penalty: false, branch_penalty: false }),
        0x90 => Some(OpCode { instruction: Instruction::BCC, mode: AddressingMode::Relative, cycles: 2, page_penalty: false, branch_penalty: true }),
        0x91 => Some(OpCode { instruction: Instruction::STA, mode: AddressingMode::IndirectYIndexed, cycles: 6, page_penalty: false, branch_penalty: false }),
        0x94 => Some(OpCode { instruction: Instruction::STY, mode: AddressingMode::ZeroPageX, cycles: 4, page_penalty: false, branch_penalty: false }),
        0x95 => Some(OpCode { instruction: Instruction::STA, mode: AddressingMode::ZeroPageX, cycles: 4, page_penalty: false, branch_penalty: false }),
        0x96 => Some(OpCode { instruction: Instruction::STX, mode: AddressingMode::ZeroPageY, cycles: 4, page_penalty: false, branch_penalty: false }),
        0x97 => Some(OpCode { instruction: Instruction::SAX, mode: AddressingMode::ZeroPageY, cycles: 4, page_penalty: false, branch_penalty: false }),
        0x98 => Some(OpCode { instruction: Instruction::TYA, mode: AddressingMode::Implicit, cycles: 2, page_penalty: false, branch_penalty: false }),
        0x99 => Some(OpCode { instruction: Instruction::STA, mode: AddressingMode::AbsoluteY, cycles: 5, page_penalty: false, branch_penalty: false }),
        0x9a => Some(OpCode { instruction: Instruction::TXS, mode: AddressingMode::Implicit, cycles: 2, page_penalty: false, branch_penalty: false }),
        0x9d => Some(OpCode { instruction: Instruction::STA, mode: AddressingMode::AbsoluteX, cycles: 5, page_penalty: false, branch_penalty: false }),
        0xa0 => Some(OpCode { instruction: Instruction::LDY, mode: AddressingMode::Immediate, cycles: 2, page_penalty: false, branch_penalty: false }),
        0xa1 => Some(OpCode { instruction: Instruction::LDA, mode: AddressingMode::XIndexedIndirect, cycles: 6, page_penalty: false, branch_penalty: false }),
        0xa2 => Some(OpCode { instruction: Instruction::LDX, mode: AddressingMode::Immediate, cycles: 2, page_penalty: false, branch_penalty: false }),
        0xa3 => Some(OpCode { instruction: Instruction::LAX, mode: AddressingMode::XIndexedIndirect, cycles: 6, page_penalty: false, branch_penalty: false }),
        0xa4 => Some(OpCode { instruction: Instruction::LDY, mode: AddressingMode::ZeroPage, cycles: 3, page_penalty: false, branch_penalty: false }),
        0xa5 => Some(OpCode { instruction: Instruction::LDA, mode: AddressingMode::ZeroPage, cycles: 3, page_penalty: false, branch_penalty: false }),
        0xa6 => Some(OpCode { instruction: Instruction::LDX, mode: AddressingMode::ZeroPage, cycles: 3, page_penalty: false, branch_penalty: false }),
        0xa7 => Some(OpCode { instruction: Instruction::LAX, mode: AddressingMode::ZeroPage, cycles: 3, page_penalty: false, branch_penalty: false }),
        0xa8 => Some(OpCode { instruction: Instruction::TAY, mode: AddressingMode::Implicit, cycles: 2, page_penalty: false, branch_penalty: false }),
        0xa9 => Some(OpCode { instruction: Instruction::LDA, mode: AddressingMode::Immediate, cycles: 2, page_penalty: false, branch_penalty: false }),
        0xaa => Some(OpCode { instruction: Instruction::TAX, mode: AddressingMode::Implicit, cycles: 2, page_penalty: false, branch_penalty: false }),
        0xac => Some(OpCode { instruction: Instruction::LDY, mode: AddressingMode::Absolute, cycles: 4, page_penalty: false, branch_penalty: false }),
        0xad => Some(OpCode { instruction: Instruction::LDA, mode: AddressingMode::Absolute, cycles: 4, page_penalty: false, branch_penalty: false }),
        0xae => Some(OpCode { instruction: Instruction::LDX, mode: AddressingMode::Absolute, cycles: 4, page_penalty: false, branch_penalty: false }),
        0xaf => Some(OpCode { instruction: Instruction::LAX, mode: AddressingMode::Absolute, cycles: 4, page_penalty: false, branch_penalty: false }),
        0xb0 => Some(OpCode { instruction: Instruction::BCS, mode: AddressingMode::Relative, cycles: 2, page_penalty: false, branch_penalty: true }),
        0xb1 => Some(OpCode { instruction: Instruction::LDA, mode: AddressingMode::IndirectYIndexed, cycles: 5, page_penalty: true, branch_penalty: false }),
        0xb3 => Some(OpCode { instruction: Instruction::LAX, mode: AddressingMode::IndirectYIndexed, cycles: 5, page_penalty: true, branch_penalty: false }),
        0xb4 => Some(OpCode { instruction: Instruction::LDY, mode: AddressingMode::ZeroPageX, cycles: 4, page_penalty: false, branch_penalty: false }),
        0xb5 => Some(OpCode { instruction: Instruction::LDA, mode: AddressingMode::ZeroPageX, cycles: 4, page_penalty: false, branch_penalty: false }),
        0xb6 => Some(OpCode { instruction: Instruction::LDX, mode: AddressingMode::ZeroPageY, cycles: 4, page_penalty: false, branch_penalty: false }),
        0xb7 => Some(OpCode { instruction: Instruction::LAX, mode: AddressingMode::ZeroPageY, cycles: 4, page_penalty: false, branch_penalty: false }),
        0xb8 => Some(OpCode { instruction: Instruction::CLV, mode: AddressingMode::Implicit, cycles: 2, page_penalty: false, branch_penalty: false }),
        0xb9 => Some(OpCode { instruction: Instruction::LDA, mode: AddressingMode::AbsoluteY, cycles: 4, page_penalty: true, branch_penalty: false }),
        0xba => Some(OpCode { instruction: Instruction::TSX, mode: AddressingMode::Implicit, cycles: 2, page_penalty: false, branch_penalty: false }),
        0xbc => Some(OpCode { instruction: Instruction::LDY, mode: AddressingMode::AbsoluteX, cycles: 4, page_penalty: true, branch_penalty: false }),
        0xbd => Some(OpCode { instruction: Instruction::LDA, mode: AddressingMode::AbsoluteX, cycles: 4, page_penalty: true, branch_penalty: false }),
        0xbe => Some(OpCode { instruction: Instruction::LDX, mode: AddressingMode::AbsoluteY, cycles: 4, page_penalty: true, branch_penalty: false }),
        0xbf => Some(OpCode { instruction: Instruction::LAX, mode: AddressingMode::AbsoluteY, cycles: 4, page_penalty: true, branch_penalty: false }),
        0xc0 => Some(OpCode { instruction: Instruction::CPY, mode: AddressingMode::Immediate, cycles: 2, page_penalty: false, branch_penalty: false }),
        0xc1 => Some(OpCode { instruction: Instruction::CMP, mode: AddressingMode::XIndexedIndirect, cycles: 6, page_penalty: false, branch_penalty: false }),
        0xc3 => Some(OpCode { instruction: Instruction::DCP, mode: AddressingMode::XIndexedIndirect, cycles: 8, page_penalty: false, branch_penalty: false }),
        0xc4 => Some(OpCode { instruction: Instruction::CPY, mode: AddressingMode::ZeroPage, cycles: 3, page_penalty: false, branch_penalty: false }),
        0xc5 => Some(OpCode { instruction: Instruction::CMP, mode: AddressingMode::ZeroPage, cycles: 3, page_penalty: false, branch_penalty: false }),
        0xc6 => Some(OpCode { instruction: Instruction::DEC, mode: AddressingMode::ZeroPage, cycles: 5, page_penalty: false, branch_penalty: false }),
        0xc7 => Some(OpCode { instruction: Instruction::DCP, mode: AddressingMode::ZeroPage, cycles: 5, page_penalty: false, branch_penalty: false }),
        0xc8 => Some(OpCode { instruction: Instruction::INY, mode: AddressingMode::Implicit, cycles: 2, page_penalty: false, branch_penalty: false }),
        0xc9 => Some(OpCode { instruction: Instruction::CMP, mode: AddressingMode::Immediate, cycles: 2, page_penalty: false, branch_penalty: false }),
        0xca => Some(OpCode { instruction: Instruction::DEX, mode: AddressingMode::Implicit, cycles: 2, page_penalty: false, branch_penalty: false }),
        0xcc => Some(OpCode { instruction: Instruction::CPY, mode: AddressingMode::Absolute, cycles: 4, page_penalty: false, branch_penalty: false }),
        0xcd => Some(OpCode { instruction: Instruction::CMP, mode: AddressingMode::Absolute, cycles: 4, page_penalty: false, branch_penalty: false }),
        0xce => Some(OpCode { instruction: Instruction::DEC, mode: AddressingMode::Absolute, cycles: 6, page_penalty: false, branch_penalty: false }),
        0xcf => Some(OpCode { instruction: Instruction::DCP, mode: AddressingMode::Absolute, cycles: 6, page_penalty: false, branch_penalty: false }),
        0xd0 => Some(OpCode { instruction: Instruction::BNE, mode: AddressingMode::Relative, cycles: 2, page_penalty: false, branch_penalty: true }),
        0xd1 => Some(OpCode { instruction: Instruction::CMP, mode: AddressingMode::IndirectYIndexed, cycles: 5, page_penalty: true, branch_penalty: false }),
        0xd3 => Some(OpCode { instruction: Instruction::DCP, mode: AddressingMode::IndirectYIndexed, cycles: 8, page_penalty: false, branch_penalty: false }),
        0xd5 => Some(OpCode { instruction: Instruction::CMP, mode: AddressingMode::ZeroPageX, cycles: 4, page_penalty: false, branch_penalty: false }),
        0xd6 => Some(OpCode { instruction: Instruction::DEC, mode: AddressingMode::ZeroPageX, cycles: 6, page_penalty: false, branch_penalty: false }),
        0xd7 => Some(OpCode { instruction: Instruction::DCP, mode: AddressingMode::ZeroPageX, cycles: 6, page_penalty: false, branch_penalty: false }),
        0xd8 => Some(OpCode { instruction: Instruction::CLD, mode: AddressingMode::Implicit, cycles: 2, page_penalty: false, branch_penalty: false }),
        0xd9 => Some(OpCode { instruction: Instruction::CMP, mode: AddressingMode::AbsoluteY, cycles: 4, page_penalty: true, branch_penalty: false }),
        0xdb => Some(OpCode { instruction: Instruction::DCP, mode: AddressingMode::AbsoluteY, cycles: 7, page_penalty: false, branch_penalty: false }),
        0xdd => Some(OpCode { instruction: Instruction::CMP, mode: AddressingMode::AbsoluteX, cycles: 4, page_penalty: true, branch_penalty: false }),
        0xde => Some(OpCode { instruction: Instruction::DEC, mode: AddressingMode::AbsoluteX, cycles: 7, page_penalty: false, branch_penalty: false }),
        0xdf => Some(OpCode { instruction: Instruction::DCP, mode: AddressingMode::AbsoluteX, cycles: 7, page_penalty: false, branch_penalty: false }),
        0xe0 => Some(OpCode { instruction: Instruction::CPX, mode: AddressingMode::Immediate, cycles: 2, page_penalty: false, branch_penalty: false }),
        0xe1 => Some(OpCode { instruction: Instruction::SBC, mode: AddressingMode::XIndexedIndirect, cycles: 6, page_penalty: false, branch_penalty: false }),
        0xe3 => Some(OpCode { instruction: Instruction::ISC, mode: AddressingMode::XIndexedIndirect, cycles: 8, page_penalty: false, branch_penalty: false }),
        0xe4 => Some(OpCode { instruction: Instruction::CPX, mode: AddressingMode::ZeroPage, cycles: 3, page_penalty: false, branch_penalty: false }),
        0xe5 => Some(OpCode { instruction: Instruction::SBC, mode: AddressingMode::ZeroPage, cycles: 3, page_penalty: false, branch_penalty: false }),
        0xe6 => Some(OpCode { instruction: Instruction::INC, mode: AddressingMode::ZeroPage, cycles: 5, page_penalty: false, branch_penalty: false }),
        0xe7 => Some(OpCode { instruction: Instruction::ISC, mode: AddressingMode::ZeroPage, cycles: 5, page_penalty: false, branch_penalty: false }),
        0xe8 => Some(OpCode { instruction: Instruction::INX, mode: AddressingMode::Implicit, cycles: 2, page_penalty: false, branch_penalty: false }),
        0xe9 => Some(OpCode { instruction: Instruction::SBC, mode: AddressingMode::Immediate, cycles: 2, page_penalty: false, branch_penalty: false }),
        0xea => Some(OpCode { instruction: Instruction::NOP, mode: AddressingMode::Implicit, cycles: 2, page_penalty: false, branch_penalty: false }),
        0xec => Some(OpCode { instruction: Instruction::CPX, mode: AddressingMode::Absolute, cycles: 4, page_penalty: false, branch_penalty: false }),
        0xed => Some(OpCode { instruction: Instruction::SBC, mode: AddressingMode::Absolute, cycles: 4, page_penalty: false, branch_penalty: false }),
        0xee => Some(OpCode { instruction: Instruction::INC, mode: AddressingMode::Absolute, cycles: 6, page_penalty: false, branch_penalty: false }),
        0xef => Some(OpCode { instruction: Instruction::ISC, mode: AddressingMode::Absolute, cycles: 6, page_penalty: false, branch_penalty: false }),
        0xf0 => Some(OpCode { instruction: Instruction::BEQ, mode: AddressingMode::Relative, cycles: 2, page_penalty: false, branch_penalty: true }),
        0xf1 => Some(OpCode { instruction: Instruction::SBC, mode: AddressingMode::IndirectYIndexed, cycles: 5, page_penalty: true, branch_penalty: false }),
        0xf3 => Some(OpCode { instruction: Instruction::ISC, mode: AddressingMode::IndirectYIndexed, cycles: 8, page_penalty: false, branch_penalty: false }),
        0xf5 => Some(OpCode { instruction: Instruction::SBC, mode: AddressingMode::ZeroPageX, cycles: 4, page_penalty: false, branch_penalty: false }),
        0xf6 => Some(OpCode { instruction: Instruction::INC, mode: AddressingMode::ZeroPageX, cycles: 6, page_penalty: false, branch_penalty: false }),
        0xf7 => Some(OpCode { instruction: Instruction::ISC, mode: AddressingMode::ZeroPageX, cycles: 6, page_penalty: false, branch_penalty: false }),
        0xf8 => Some(OpCode { instruction: Instruction::SED, mode: AddressingMode::Implicit, cycles: 2, page_penalty: false, branch_penalty: false }),
        0xf9 => Some(OpCode { instruction: Instruction::SBC, mode: AddressingMode::AbsoluteY, cycles: 4, page_penalty: true, branch_penalty: false }),
        0xfb => Some(OpCode { instruction: Instruction::ISC, mode: AddressingMode::AbsoluteY, cycles: 7, page_penalty: false, branch_penalty: false }),
        0xfd => Some(OpCode { instruction: Instruction::SBC, mode: AddressingMode::AbsoluteX, cycles: 4, page_penalty: true, branch_penalty: false }),
        0xfe => Some(OpCode { instruction: Instruction::INC, mode: AddressingMode::AbsoluteX, cycles: 7, page_penalty: false, branch_penalty: false }),
        0xff => Some(OpCode { instruction: Instruction::ISC, mode: AddressingMode::AbsoluteX, cycles: 7, page_penalty: false, branch_penalty: false }),
        _ => None,
    }
}

} // verus!
