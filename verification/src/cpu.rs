//! The CPU core: opcode fetch and decode against the 6502 opcode table,
//! instruction dispatch, reset, and NMI entry.

use vstd::prelude::*;
use crate::cpuregisters::{CPURegisters, CPUFlags, with_flag, with_zn, flag_is_set};
use crate::opcodes;
use crate::opcodes::{
    OpCode, InstructionType, AddressingMode, ZeroPageAddress, AbsoluteAddress, RelativeAddress,
    is_value_mode, is_mem_mode, is_writable_mode, is_store_mode, spec_ea,
    spec_crossed, spec_operand_val, spec_operand_step, spec_store_step, spec_store_cost,
    spec_branch_regs, spec_branch_cycles, spec_adc_a, spec_adc_status, spec_cmp_status,
    spec_rmw_regs, spec_rmw_bus, spec_rol_val, spec_ror_val,
};
use crate::ram_controller::{RamController, BusView, raw_byte, raw_word};
use crate::stack;
use crate::stack::{spec_push_regs, spec_push_bus, spec_pop_regs, spec_pop_val};
use crate::{wrap8, wrap16};

verus! {

pub const NMI_VECTOR: u16 = 0xFFFA;

pub const RESET_VECTOR: u16 = 0xFFFC;

/// The shape of an addressing mode, without its operand.
#[derive(Clone, Copy, PartialEq, Eq, Structural, Debug)]
pub enum AddrKind {
    Implicit,
    Accumulator,
    Immediate,
    Indirect,
    ZeroPage,
    ZeroPageX,
    ZeroPageY,
    Relative,
    Absolute,
    AbsoluteX,
    AbsoluteY,
    IndexedIndirect,
    IndirectIndexed,
}

/// The shape of a decoded mode.
pub open spec fn kind_of(m: AddressingMode) -> AddrKind {
    match m {
        AddressingMode::Implicit => AddrKind::Implicit,
        AddressingMode::Accumulator => AddrKind::Accumulator,
        AddressingMode::Immediate(_) => AddrKind::Immediate,
        AddressingMode::Indirect(_) => AddrKind::Indirect,
        AddressingMode::ZeroPage(_) => AddrKind::ZeroPage,
        AddressingMode::ZeroPageX(_) => AddrKind::ZeroPageX,
        AddressingMode::ZeroPageY(_) => AddrKind::ZeroPageY,
        AddressingMode::Relative(_) => AddrKind::Relative,
        AddressingMode::Absolute(_) => AddrKind::Absolute,
        AddressingMode::AbsoluteX(_) => AddrKind::AbsoluteX,
        AddressingMode::AbsoluteY(_) => AddrKind::AbsoluteY,
        AddressingMode::IndexedIndirect(_) => AddrKind::IndexedIndirect,
        AddressingMode::IndirectIndexed(_) => AddrKind::IndirectIndexed,
    }
}

/// How many operand bytes a mode shape consumes after the opcode byte.
pub open spec fn operand_len(k: AddrKind) -> int {
    match k {
        AddrKind::Implicit => 0,
        AddrKind::Accumulator => 0,
        AddrKind::Indirect => 2,
        AddrKind::Absolute => 2,
        AddrKind::AbsoluteX => 2,
        AddrKind::AbsoluteY => 2,
        _ => 1,
    }
}

/// One row of the decode table.
pub ghost struct OpRow {
    pub instruction: InstructionType,
    pub kind: AddrKind,
    pub cycles: int,
    pub is_unofficial: bool,
}

/// The 6502 opcode table: for every opcode byte, its mnemonic, mode
/// shape, base cycle count and unofficial flag. Bytes outside the
/// official and documented-unofficial sets decode to JAM.
pub open spec fn opcode_row(code: u8) -> OpRow {
    match code {
        0x00u8 => OpRow { instruction: InstructionType::BRK, kind: AddrKind::Implicit, cycles: 7, is_unofficial: false },
        0x01u8 => OpRow { instruction: InstructionType::ORA, kind: AddrKind::IndexedIndirect, cycles: 6, is_unofficial: false },
        0x03u8 => OpRow { instruction: InstructionType::SLO, kind: AddrKind::IndexedIndirect, cycles: 8, is_unofficial: true },
        0x04u8 => OpRow { instruction: InstructionType::NOP, kind: AddrKind::ZeroPage, cycles: 3, is_unofficial: true },
        0x05u8 => OpRow { instruction: InstructionType::ORA, kind: AddrKind::ZeroPage, cycles: 3, is_unofficial: false },
        0x06u8 => OpRow { instruction: InstructionType::ASL, kind: AddrKind::ZeroPage, cycles: 5, is_unofficial: false },
        0x07u8 => OpRow { instruction: InstructionType::SLO, kind: AddrKind::ZeroPage, cycles: 5, is_unofficial: true },
        0x08u8 => OpRow { instruction: InstructionType::PHP, kind: AddrKind::Implicit, cycles: 3, is_unofficial: false },
        0x09u8 => OpRow { instruction: InstructionType::ORA, kind: AddrKind::Immediate, cycles: 2, is_unofficial: false },
        0x0Au8 => OpRow { instruction: InstructionType::ASL, kind: AddrKind::Accumulator, cycles: 2, is_unofficial: false },
        0x0Cu8 => OpRow { instruction: InstructionType::NOP, kind: AddrKind::Absolute, cycles: 4, is_unofficial: true },
        0x0Du8 => OpRow { instruction: InstructionType::ORA, kind: AddrKind::Absolute, cycles: 4, is_unofficial: false },
        0x0Eu8 => OpRow { instruction: InstructionType::ASL, kind: AddrKind::Absolute, cycles: 6, is_unofficial: false },
        0x0Fu8 => OpRow { instruction: InstructionType::SLO, kind: AddrKind::Absolute, cycles: 6, is_unofficial: true },
        0x10u8 => OpRow { instruction: InstructionType::BPL, kind: AddrKind::Relative, cycles: 2, is_unofficial: false },
        0x11u8 => OpRow { instruction: InstructionType::ORA, kind: AddrKind::IndirectIndexed, cycles: 5, is_unofficial: false },
        0x13u8 => OpRow { instruction: InstructionType::SLO, kind: AddrKind::IndirectIndexed, cycles: 8, is_unofficial: true },
        0x14u8 => OpRow { instruction: InstructionType::NOP, kind: AddrKind::ZeroPageX, cycles: 4, is_unofficial: true },
        0x15u8 => OpRow { instruction: InstructionType::ORA, kind: AddrKind::ZeroPageX, cycles: 4, is_unofficial: false },
        0x16u8 => OpRow { instruction: InstructionType::ASL, kind: AddrKind::ZeroPageX, cycles: 6, is_unofficial: false },
        0x17u8 => OpRow { instruction: InstructionType::SLO, kind: AddrKind::ZeroPageX, cycles: 6, is_unofficial: true },
        0x18u8 => OpRow { instruction: InstructionType::CLC, kind: AddrKind::Implicit, cycles: 2, is_unofficial: false },
        0x19u8 => OpRow { instruction: InstructionType::ORA, kind: AddrKind::AbsoluteY, cycles: 4, is_unofficial: false },
        0x1Au8 => OpRow { instruction: InstructionType::NOP, kind: AddrKind::Implicit, cycles: 2, is_unofficial: true },
        0x1Bu8 => OpRow { instruction: InstructionType::SLO, kind: AddrKind::AbsoluteY, cycles: 7, is_unofficial: true },
        0x1Cu8 => OpRow { instruction: InstructionType::NOP, kind: AddrKind::AbsoluteX, cycles: 4, is_unofficial: true },
        0x1Du8 => OpRow { instruction: InstructionType::ORA, kind: AddrKind::AbsoluteX, cycles: 4, is_unofficial: false },
        0x1Eu8 => OpRow { instruction: InstructionType::ASL, kind: AddrKind::AbsoluteX, cycles: 7, is_unofficial: false },
        0x1Fu8 => OpRow { instruction: InstructionType::SLO, kind: AddrKind::AbsoluteX, cycles: 7, is_unofficial: true },
        0x20u8 => OpRow { instruction: InstructionType::JSR, kind: AddrKind::Absolute, cycles: 6, is_unofficial: false },
        0x21u8 => OpRow { instruction: InstructionType::AND, kind: AddrKind::IndexedIndirect, cycles: 6, is_unofficial: false },
        0x23u8 => OpRow { instruction: InstructionType::RLA, kind: AddrKind::IndexedIndirect, cycles: 8, is_unofficial: true },
        0x24u8 => OpRow { instruction: InstructionType::BIT, kind: AddrKind::ZeroPage, cycles: 3, is_unofficial: false },
        0x25u8 => OpRow { instruction: InstructionType::AND, kind: AddrKind::ZeroPage, cycles: 3, is_unofficial: false },
        0x26u8 => OpRow { instruction: InstructionType::ROL, kind: AddrKind::ZeroPage, cycles: 5, is_unofficial: false },
        0x27u8 => OpRow { instruction: InstructionType::RLA, kind: AddrKind::ZeroPage, cycles: 5, is_unofficial: true },
        0x28u8 => OpRow { instruction: InstructionType::PLP, kind: AddrKind::Implicit, cycles: 4, is_unofficial: false },
        0x29u8 => OpRow { instruction: InstructionType::AND, kind: AddrKind::Immediate, cycles: 2, is_unofficial: false },
        0x2Au8 => OpRow { instruction: InstructionType::ROL, kind: AddrKind::Accumulator, cycles: 2, is_unofficial: false },
        0x2Cu8 => OpRow { instruction: InstructionType::BIT, kind: AddrKind::Absolute, cycles: 4, is_unofficial: false },
        0x2Du8 => OpRow { instruction: InstructionType::AND, kind: AddrKind::Absolute, cycles: 4, is_unofficial: false },
        0x2Eu8 => OpRow { instruction: InstructionType::ROL, kind: AddrKind::Absolute, cycles: 6, is_unofficial: false },
        0x2Fu8 => OpRow { instruction: InstructionType::RLA, kind: AddrKind::Absolute, cycles: 6, is_unofficial: true },
        0x30u8 => OpRow { instruction: InstructionType::BMI, kind: AddrKind::Relative, cycles: 2, is_unofficial: false },
        0x31u8 => OpRow { instruction: InstructionType::AND, kind: AddrKind::IndirectIndexed, cycles: 5, is_unofficial: false },
        0x33u8 => OpRow { instruction: InstructionType::RLA, kind: AddrKind::IndirectIndexed, cycles: 8, is_unofficial: true },
        0x34u8 => OpRow { instruction: InstructionType::NOP, kind: AddrKind::ZeroPageX, cycles: 4, is_unofficial: true },
        0x35u8 => OpRow { instruction: InstructionType::AND, kind: AddrKind::ZeroPageX, cycles: 4, is_unofficial: false },
        0x36u8 => OpRow { instruction: InstructionType::ROL, kind: AddrKind::ZeroPageX, cycles: 6, is_unofficial: false },
        0x37u8 => OpRow { instruction: InstructionType::RLA, kind: AddrKind::ZeroPageX, cycles: 6, is_unofficial: true },
        0x38u8 => OpRow { instruction: InstructionType::SEC, kind: AddrKind::Implicit, cycles: 2, is_unofficial: false },
        0x39u8 => OpRow { instruction: InstructionType::AND, kind: AddrKind::AbsoluteY, cycles: 4, is_unofficial: false },
        0x3Au8 => OpRow { instruction: InstructionType::NOP, kind: AddrKind::Implicit, cycles: 2, is_unofficial: true },
        0x3Bu8 => OpRow { instruction: InstructionType::RLA, kind: AddrKind::AbsoluteY, cycles: 7, is_unofficial: true },
        0x3Cu8 => OpRow { instruction: InstructionType::NOP, kind: AddrKind::AbsoluteX, cycles: 4, is_unofficial: true },
        0x3Du8 => OpRow { instruction: InstructionType::AND, kind: AddrKind::AbsoluteX, cycles: 4, is_unofficial: false },
        0x3Eu8 => OpRow { instruction: InstructionType::ROL, kind: AddrKind::AbsoluteX, cycles: 7, is_unofficial: false },
        0x3Fu8 => OpRow { instruction: InstructionType::RLA, kind: AddrKind::AbsoluteX, cycles: 7, is_unofficial: true },
        0x40u8 => OpRow { instruction: InstructionType::RTI, kind: AddrKind::Implicit, cycles: 6, is_unofficial: false },
        0x41u8 => OpRow { instruction: InstructionType::EOR, kind: AddrKind::IndexedIndirect, cycles: 6, is_unofficial: false },
        0x43u8 => OpRow { instruction: InstructionType::SRE, kind: AddrKind::IndexedIndirect, cycles: 8, is_unofficial: true },
        0x44u8 => OpRow { instruction: InstructionType::NOP, kind: AddrKind::ZeroPage, cycles: 3, is_unofficial: true },
        0x45u8 => OpRow { instruction: InstructionType::EOR, kind: AddrKind::ZeroPage, cycles: 3, is_unofficial: false },
        0x46u8 => OpRow { instruction: InstructionType::LSR, kind: AddrKind::ZeroPage, cycles: 5, is_unofficial: false },
        0x47u8 => OpRow { instruction: InstructionType::SRE, kind: AddrKind::ZeroPage, cycles: 5, is_unofficial: true },
        0x48u8 => OpRow { instruction: InstructionType::PHA, kind: AddrKind::Implicit, cycles: 3, is_unofficial: false },
        0x49u8 => OpRow { instruction: InstructionType::EOR, kind: AddrKind::Immediate, cycles: 2, is_unofficial: false },
        0x4Au8 => OpRow { instruction: InstructionType::LSR, kind: AddrKind::Accumulator, cycles: 2, is_unofficial: false },
        0x4Cu8 => OpRow { instruction: InstructionType::JMP, kind: AddrKind::Absolute, cycles: 3, is_unofficial: false },
        0x4Du8 => OpRow { instruction: InstructionType::EOR, kind: AddrKind::Absolute, cycles: 4, is_unofficial: false },
        0x4Eu8 => OpRow { instruction: InstructionType::LSR, kind: AddrKind::Absolute, cycles: 6, is_unofficial: false },
        0x4Fu8 => OpRow { instruction: InstructionType::SRE, kind: AddrKind::Absolute, cycles: 6, is_unofficial: true },
        0x50u8 => OpRow { instruction: InstructionType::BVC, kind: AddrKind::Relative, cycles: 2, is_unofficial: false },
        0x51u8 => OpRow { instruction: InstructionType::EOR, kind: AddrKind::IndirectIndexed, cycles: 5, is_unofficial: false },
        0x53u8 => OpRow { instruction: InstructionType::SRE, kind: AddrKind::IndirectIndexed, cycles: 8, is_unofficial: true },
        0x54u8 => OpRow { instruction: InstructionType::NOP, kind: AddrKind::ZeroPageX, cycles: 4, is_unofficial: true },
        0x55u8 => OpRow { instruction: InstructionType::EOR, kind: AddrKind::ZeroPageX, cycles: 4, is_unofficial: false },
        0x56u8 => OpRow { instruction: InstructionType::LSR, kind: AddrKind::ZeroPageX, cycles: 6, is_unofficial: false },
        0x57u8 => OpRow { instruction: InstructionType::SRE, kind: AddrKind::ZeroPageX, cycles: 6, is_unofficial: true },
        0x58u8 => OpRow { instruction: InstructionType::CLI, kind: AddrKind::Implicit, cycles: 2, is_unofficial: false },
        0x59u8 => OpRow { instruction: InstructionType::EOR, kind: AddrKind::AbsoluteY, cycles: 4, is_unofficial: false },
        0x5Au8 => OpRow { instruction: InstructionType::NOP, kind: AddrKind::Implicit, cycles: 2, is_unofficial: true },
        0x5Bu8 => OpRow { instruction: InstructionType::SRE, kind: AddrKind::AbsoluteY, cycles: 7, is_unofficial: true },
        0x5Cu8 => OpRow { instruction: InstructionType::NOP, kind: AddrKind::AbsoluteX, cycles: 4, is_unofficial: true },
        0x5Du8 => OpRow { instruction: InstructionType::EOR, kind: AddrKind::AbsoluteX, cycles: 4, is_unofficial: false },
        0x5Eu8 => OpRow { instruction: InstructionType::LSR, kind: AddrKind::AbsoluteX, cycles: 7, is_unofficial: false },
        0x5Fu8 => OpRow { instruction: InstructionType::SRE, kind: AddrKind::AbsoluteX, cycles: 7, is_unofficial: true },
        0x60u8 => OpRow { instruction: InstructionType::RTS, kind: AddrKind::Implicit, cycles: 6, is_unofficial: false },
        0x61u8 => OpRow { instruction: InstructionType::ADC, kind: AddrKind::IndexedIndirect, cycles: 6, is_unofficial: false },
        0x63u8 => OpRow { instruction: InstructionType::RRA, kind: AddrKind::IndexedIndirect, cycles: 8, is_unofficial: true },
        0x64u8 => OpRow { instruction: InstructionType::NOP, kind: AddrKind::ZeroPage, cycles: 3, is_unofficial: true },
        0x65u8 => OpRow { instruction: InstructionType::ADC, kind: AddrKind::ZeroPage, cycles: 3, is_unofficial: false },
        0x66u8 => OpRow { instruction: InstructionType::ROR, kind: AddrKind::ZeroPage, cycles: 5, is_unofficial: false },
        0x67u8 => OpRow { instruction: InstructionType::RRA, kind: AddrKind::ZeroPage, cycles: 5, is_unofficial: true },
        0x68u8 => OpRow { instruction: InstructionType::PLA, kind: AddrKind::Implicit, cycles: 4, is_unofficial: false },
        0x69u8 => OpRow { instruction: InstructionType::ADC, kind: AddrKind::Immediate, cycles: 2, is_unofficial: false },
        0x6Au8 => OpRow { instruction: InstructionType::ROR, kind: AddrKind::Accumulator, cycles: 2, is_unofficial: false },
        0x6Cu8 => OpRow { instruction: InstructionType::JMP, kind: AddrKind::Indirect, cycles: 5, is_unofficial: false },
        0x6Du8 => OpRow { instruction: InstructionType::ADC, kind: AddrKind::Absolute, cycles: 4, is_unofficial: false },
        0x6Eu8 => OpRow { instruction: InstructionType::ROR, kind: AddrKind::Absolute, cycles: 6, is_unofficial: false },
        0x6Fu8 => OpRow { instruction: InstructionType::RRA, kind: AddrKind::Absolute, cycles: 6, is_unofficial: true },
        0x70u8 => OpRow { instruction: InstructionType::BVS, kind: AddrKind::Relative, cycles: 2, is_unofficial: false },
        0x71u8 => OpRow { instruction: InstructionType::ADC, kind: AddrKind::IndirectIndexed, cycles: 5, is_unofficial: false },
        0x73u8 => OpRow { instruction: InstructionType::RRA, kind: AddrKind::IndirectIndexed, cycles: 8, is_unofficial: true },
        0x74u8 => OpRow { instruction: InstructionType::NOP, kind: AddrKind::ZeroPageX, cycles: 4, is_unofficial: true },
        0x75u8 => OpRow { instruction: InstructionType::ADC, kind: AddrKind::ZeroPageX, cycles: 4, is_unofficial: false },
        0x76u8 => OpRow { instruction: InstructionType::ROR, kind: AddrKind::ZeroPageX, cycles: 6, is_unofficial: false },
        0x77u8 => OpRow { instruction: InstructionType::RRA, kind: AddrKind::ZeroPageX, cycles: 6, is_unofficial: true },
        0x78u8 => OpRow { instruction: InstructionType::SEI, kind: AddrKind::Implicit, cycles: 2, is_unofficial: false },
        0x79u8 => OpRow { instruction: InstructionType::ADC, kind: AddrKind::AbsoluteY, cycles: 4, is_unofficial: false },
        0x7Au8 => OpRow { instruction: InstructionType::NOP, kind: AddrKind::Implicit, cycles: 2, is_unofficial: true },
        0x7Bu8 => OpRow { instruction: InstructionType::RRA, kind: AddrKind::AbsoluteY, cycles: 7, is_unofficial: true },
        0x7Cu8 => OpRow { instruction: InstructionType::NOP, kind: AddrKind::AbsoluteX, cycles: 4, is_unofficial: true },
        0x7Du8 => OpRow { instruction: InstructionType::ADC, kind: AddrKind::AbsoluteX, cycles: 4, is_unofficial: false },
        0x7Eu8 => OpRow { instruction: InstructionType::ROR, kind: AddrKind::AbsoluteX, cycles: 7, is_unofficial: false },
        0x7Fu8 => OpRow { instruction: InstructionType::RRA, kind: AddrKind::AbsoluteX, cycles: 7, is_unofficial: true },
        0x80u8 => OpRow { instruction: InstructionType::NOP, kind: AddrKind::Immediate, cycles: 2, is_unofficial: true },
        0x81u8 => OpRow { instruction: InstructionType::STA, kind: AddrKind::IndexedIndirect, cycles: 6, is_unofficial: false },
        0x83u8 => OpRow { instruction: InstructionType::SAX, kind: AddrKind::IndexedIndirect, cycles: 6, is_unofficial: true },
        0x84u8 => OpRow { instruction: InstructionType::STY, kind: AddrKind::ZeroPage, cycles: 3, is_unofficial: false },
        0x85u8 => OpRow { instruction: InstructionType::STA, kind: AddrKind::ZeroPage, cycles: 3, is_unofficial: false },
        0x86u8 => OpRow { instruction: InstructionType::STX, kind: AddrKind::ZeroPage, cycles: 3, is_unofficial: false },
        0x87u8 => OpRow { instruction: InstructionType::SAX, kind: AddrKind::ZeroPage, cycles: 3, is_unofficial: true },
        0x88u8 => OpRow { instruction: InstructionType::DEY, kind: AddrKind::Implicit, cycles: 2, is_unofficial: false },
        0x8Au8 => OpRow { instruction: InstructionType::TXA, kind: AddrKind::Implicit, cycles: 2, is_unofficial: false },
        0x8Cu8 => OpRow { instruction: InstructionType::STY, kind: AddrKind::Absolute, cycles: 4, is_unofficial: false },
        0x8Du8 => OpRow { instruction: InstructionType::STA, kind: AddrKind::Absolute, cycles: 4, is_unofficial: false },
        0x8Eu8 => OpRow { instruction: InstructionType::STX, kind: AddrKind::Absolute, cycles: 4, is_unofficial: false },
        0x8Fu8 => OpRow { instruction: InstructionType::SAX, kind: AddrKind::Absolute, cycles: 4, is_unofficial: true },
        0x90u8 => OpRow { instruction: InstructionType::BCC, kind: AddrKind::Relative, cycles: 2, is_unofficial: false },
        0x91u8 => OpRow { instruction: InstructionType::STA, kind: AddrKind::IndirectIndexed, cycles: 6, is_unofficial: false },
        0x94u8 => OpRow { instruction: InstructionType::STY, kind: AddrKind::ZeroPageX, cycles: 4, is_unofficial: false },
        0x95u8 => OpRow { instruction: InstructionType::STA, kind: AddrKind::ZeroPageX, cycles: 4, is_unofficial: false },
        0x96u8 => OpRow { instruction: InstructionType::STX, kind: AddrKind::ZeroPageY, cycles: 4, is_unofficial: false },
        0x97u8 => OpRow { instruction: InstructionType::SAX, kind: AddrKind::ZeroPageY, cycles: 4, is_unofficial: true },
        0x98u8 => OpRow { instruction: InstructionType::TYA, kind: AddrKind::Implicit, cycles: 2, is_unofficial: false },
        0x99u8 => OpRow { instruction: InstructionType::STA, kind: AddrKind::AbsoluteY, cycles: 5, is_unofficial: false },
        0x9Au8 => OpRow { instruction: InstructionType::TXS, kind: AddrKind::Implicit, cycles: 2, is_unofficial: false },
        0x9Du8 => OpRow { instruction: InstructionType::STA, kind: AddrKind::AbsoluteX, cycles: 5, is_unofficial: false },
        0xA0u8 => OpRow { instruction: InstructionType::LDY, kind: AddrKind::Immediate, cycles: 2, is_unofficial: false },
        0xA1u8 => OpRow { instruction: InstructionType::LDA, kind: AddrKind::IndexedIndirect, cycles: 6, is_unofficial: false },
        0xA2u8 => OpRow { instruction: InstructionType::LDX, kind: AddrKind::Immediate, cycles: 2, is_unofficial: false },
        0xA3u8 => OpRow { instruction: InstructionType::LAX, kind: AddrKind::IndexedIndirect, cycles: 6, is_unofficial: true },
        0xA4u8 => OpRow { instruction: InstructionType::LDY, kind: AddrKind::ZeroPage, cycles: 3, is_unofficial: false },
        0xA5u8 => OpRow { instruction: InstructionType::LDA, kind: AddrKind::ZeroPage, cycles: 3, is_unofficial: false },
        0xA6u8 => OpRow { instruction: InstructionType::LDX, kind: AddrKind::ZeroPage, cycles: 3, is_unofficial: false },
        0xA7u8 => OpRow { instruction: InstructionType::LAX, kind: AddrKind::ZeroPage, cycles: 3, is_unofficial: true },
        0xA8u8 => OpRow { instruction: InstructionType::TAY, kind: AddrKind::Implicit, cycles: 2, is_unofficial: false },
        0xA9u8 => OpRow { instruction: InstructionType::LDA, kind: AddrKind::Immediate, cycles: 2, is_unofficial: false },
        0xAAu8 => OpRow { instruction: InstructionType::TAX, kind: AddrKind::Implicit, cycles: 2, is_unofficial: false },
        0xACu8 => OpRow { instruction: InstructionType::LDY, kind: AddrKind::Absolute, cycles: 4, is_unofficial: false },
        0xADu8 => OpRow { instruction: InstructionType::LDA, kind: AddrKind::Absolute, cycles: 4, is_unofficial: false },
        0xAEu8 => OpRow { instruction: InstructionType::LDX, kind: AddrKind::Absolute, cycles: 4, is_unofficial: false },
        0xAFu8 => OpRow { instruction: InstructionType::LAX, kind: AddrKind::Absolute, cycles: 4, is_unofficial: true },
        0xB0u8 => OpRow { instruction: InstructionType::BCS, kind: AddrKind::Relative, cycles: 2, is_unofficial: false },
        0xB1u8 => OpRow { instruction: InstructionType::LDA, kind: AddrKind::IndirectIndexed, cycles: 5, is_unofficial: false },
        0xB3u8 => OpRow { instruction: InstructionType::LAX, kind: AddrKind::IndirectIndexed, cycles: 5, is_unofficial: true },
        0xB4u8 => OpRow { instruction: InstructionType::LDY, kind: AddrKind::ZeroPageX, cycles: 4, is_unofficial: false },
        0xB5u8 => OpRow { instruction: InstructionType::LDA, kind: AddrKind::ZeroPageX, cycles: 4, is_unofficial: false },
        0xB6u8 => OpRow { instruction: InstructionType::LDX, kind: AddrKind::ZeroPageY, cycles: 4, is_unofficial: false },
        0xB7u8 => OpRow { instruction: InstructionType::LAX, kind: AddrKind::ZeroPageY, cycles: 4, is_unofficial: true },
        0xB8u8 => OpRow { instruction: InstructionType::CLV, kind: AddrKind::Implicit, cycles: 2, is_unofficial: false },
        0xB9u8 => OpRow { instruction: InstructionType::LDA, kind: AddrKind::AbsoluteY, cycles: 4, is_unofficial: false },
        0xBAu8 => OpRow { instruction: InstructionType::TSX, kind: AddrKind::Implicit, cycles: 2, is_unofficial: false },
        0xBCu8 => OpRow { instruction: InstructionType::LDY, kind: AddrKind::AbsoluteX, cycles: 4, is_unofficial: false },
        0xBDu8 => OpRow { instruction: InstructionType::LDA, kind: AddrKind::AbsoluteX, cycles: 4, is_unofficial: false },
        0xBEu8 => OpRow { instruction: InstructionType::LDX, kind: AddrKind::AbsoluteY, cycles: 4, is_unofficial: false },
        0xBFu8 => OpRow { instruction: InstructionType::LAX, kind: AddrKind::AbsoluteY, cycles: 4, is_unofficial: true },
        0xC0u8 => OpRow { instruction: InstructionType::CPY, kind: AddrKind::Immediate, cycles: 2, is_unofficial: false },
        0xC1u8 => OpRow { instruction: InstructionType::CMP, kind: AddrKind::IndexedIndirect, cycles: 6, is_unofficial: false },
        0xC3u8 => OpRow { instruction: InstructionType::DCP, kind: AddrKind::IndexedIndirect, cycles: 8, is_unofficial: true },
        0xC4u8 => OpRow { instruction: InstructionType::CPY, kind: AddrKind::ZeroPage, cycles: 3, is_unofficial: false },
        0xC5u8 => OpRow { instruction: InstructionType::CMP, kind: AddrKind::ZeroPage, cycles: 3, is_unofficial: false },
        0xC6u8 => OpRow { instruction: InstructionType::DEC, kind: AddrKind::ZeroPage, cycles: 5, is_unofficial: false },
        0xC7u8 => OpRow { instruction: InstructionType::DCP, kind: AddrKind::ZeroPage, cycles: 5, is_unofficial: true },
        0xC8u8 => OpRow { instruction: InstructionType::INY, kind: AddrKind::Implicit, cycles: 2, is_unofficial: false },
        0xC9u8 => OpRow { instruction: InstructionType::CMP, kind: AddrKind::Immediate, cycles: 2, is_unofficial: false },
        0xCAu8 => OpRow { instruction: InstructionType::DEX, kind: AddrKind::Implicit, cycles: 2, is_unofficial: false },
        0xCCu8 => OpRow { instruction: InstructionType::CPY, kind: AddrKind::Absolute, cycles: 4, is_unofficial: false },
        0xCDu8 => OpRow { instruction: InstructionType::CMP, kind: AddrKind::Absolute, cycles: 4, is_unofficial: false },
        0xCEu8 => OpRow { instruction: InstructionType::DEC, kind: AddrKind::Absolute, cycles: 6, is_unofficial: false },
        0xCFu8 => OpRow { instruction: InstructionType::DCP, kind: AddrKind::Absolute, cycles: 6, is_unofficial: true },
        0xD0u8 => OpRow { instruction: InstructionType::BNE, kind: AddrKind::Relative, cycles: 2, is_unofficial: false },
        0xD1u8 => OpRow { instruction: InstructionType::CMP, kind: AddrKind::IndirectIndexed, cycles: 5, is_unofficial: false },
        0xD3u8 => OpRow { instruction: InstructionType::DCP, kind: AddrKind::IndirectIndexed, cycles: 8, is_unofficial: true },
        0xD4u8 => OpRow { instruction: InstructionType::NOP, kind: AddrKind::ZeroPageX, cycles: 4, is_unofficial: true },
        0xD5u8 => OpRow { instruction: InstructionType::CMP, kind: AddrKind::ZeroPageX, cycles: 4, is_unofficial: false },
        0xD6u8 => OpRow { instruction: InstructionType::DEC, kind: AddrKind::ZeroPageX, cycles: 6, is_unofficial: false },
        0xD7u8 => OpRow { instruction: InstructionType::DCP, kind: AddrKind::ZeroPageX, cycles: 6, is_unofficial: true },
        0xD8u8 => OpRow { instruction: InstructionType::CLD, kind: AddrKind::Implicit, cycles: 2, is_unofficial: false },
        0xD9u8 => OpRow { instruction: InstructionType::CMP, kind: AddrKind::AbsoluteY, cycles: 4, is_unofficial: false },
        0xDAu8 => OpRow { instruction: InstructionType::NOP, kind: AddrKind::Implicit, cycles: 2, is_unofficial: true },
        0xDBu8 => OpRow { instruction: InstructionType::DCP, kind: AddrKind::AbsoluteY, cycles: 7, is_unofficial: true },
        0xDCu8 => OpRow { instruction: InstructionType::NOP, kind: AddrKind::AbsoluteX, cycles: 4, is_unofficial: true },
        0xDDu8 => OpRow { instruction: InstructionType::CMP, kind: AddrKind::AbsoluteX, cycles: 4, is_unofficial: false },
        0xDEu8 => OpRow { instruction: InstructionType::DEC, kind: AddrKind::AbsoluteX, cycles: 7, is_unofficial: false },
        0xDFu8 => OpRow { instruction: InstructionType::DCP, kind: AddrKind::AbsoluteX, cycles: 7, is_unofficial: true },
        0xE0u8 => OpRow { instruction: InstructionType::CPX, kind: AddrKind::Immediate, cycles: 2, is_unofficial: false },
        0xE1u8 => OpRow { instruction: InstructionType::SBC, kind: AddrKind::IndexedIndirect, cycles: 6, is_unofficial: false },
        0xE3u8 => OpRow { instruction: InstructionType::ISB, kind: AddrKind::IndexedIndirect, cycles: 8, is_unofficial: true },
        0xE4u8 => OpRow { instruction: InstructionType::CPX, kind: AddrKind::ZeroPage, cycles: 3, is_unofficial: false },
        0xE5u8 => OpRow { instruction: InstructionType::SBC, kind: AddrKind::ZeroPage, cycles: 3, is_unofficial: false },
        0xE6u8 => OpRow { instruction: InstructionType::INC, kind: AddrKind::ZeroPage, cycles: 5, is_unofficial: false },
        0xE7u8 => OpRow { instruction: InstructionType::ISB, kind: AddrKind::ZeroPage, cycles: 5, is_unofficial: true },
        0xE8u8 => OpRow { instruction: InstructionType::INX, kind: AddrKind::Implicit, cycles: 2, is_unofficial: false },
        0xE9u8 => OpRow { instruction: InstructionType::SBC, kind: AddrKind::Immediate, cycles: 2, is_unofficial: false },
        0xEAu8 => OpRow { instruction: InstructionType::NOP, kind: AddrKind::Implicit, cycles: 2, is_unofficial: false },
        0xEBu8 => OpRow { instruction: InstructionType::SBC, kind: AddrKind::Immediate, cycles: 2, is_unofficial: true },
        0xECu8 => OpRow { instruction: InstructionType::CPX, kind: AddrKind::Absolute, cycles: 4, is_unofficial: false },
        0xEDu8 => OpRow { instruction: InstructionType::SBC, kind: AddrKind::Absolute, cycles: 4, is_unofficial: false },
        0xEEu8 => OpRow { instruction: InstructionType::INC, kind: AddrKind::Absolute, cycles: 6, is_unofficial: false },
        0xEFu8 => OpRow { instruction: InstructionType::ISB, kind: AddrKind::Absolute, cycles: 6, is_unofficial: true },
        0xF0u8 => OpRow { instruction: InstructionType::BEQ, kind: AddrKind::Relative, cycles: 2, is_unofficial: false },
        0xF1u8 => OpRow { instruction: InstructionType::SBC, kind: AddrKind::IndirectIndexed, cycles: 5, is_unofficial: false },
        0xF3u8 => OpRow { instruction: InstructionType::ISB, kind: AddrKind::IndirectIndexed, cycles: 8, is_unofficial: true },
        0xF4u8 => OpRow { instruction: InstructionType::NOP, kind: AddrKind::ZeroPageX, cycles: 4, is_unofficial: true },
        0xF5u8 => OpRow { instruction: InstructionType::SBC, kind: AddrKind::ZeroPageX, cycles: 4, is_unofficial: false },
        0xF6u8 => OpRow { instruction: InstructionType::INC, kind: AddrKind::ZeroPageX, cycles: 6, is_unofficial: false },
        0xF7u8 => OpRow { instruction: InstructionType::ISB, kind: AddrKind::ZeroPageX, cycles: 6, is_unofficial: true },
        0xF8u8 => OpRow { instruction: InstructionType::SED, kind: AddrKind::Implicit, cycles: 2, is_unofficial: false },
        0xF9u8 => OpRow { instruction: InstructionType::SBC, kind: AddrKind::AbsoluteY, cycles: 4, is_unofficial: false },
        0xFAu8 => OpRow { instruction: InstructionType::NOP, kind: AddrKind::Implicit, cycles: 2, is_unofficial: true },
        0xFBu8 => OpRow { instruction: InstructionType::ISB, kind: AddrKind::AbsoluteY, cycles: 7, is_unofficial: true },
        0xFCu8 => OpRow { instruction: InstructionType::NOP, kind: AddrKind::AbsoluteX, cycles: 4, is_unofficial: true },
        0xFDu8 => OpRow { instruction: InstructionType::SBC, kind: AddrKind::AbsoluteX, cycles: 4, is_unofficial: false },
        0xFEu8 => OpRow { instruction: InstructionType::INC, kind: AddrKind::AbsoluteX, cycles: 7, is_unofficial: false },
        0xFFu8 => OpRow { instruction: InstructionType::ISB, kind: AddrKind::AbsoluteX, cycles: 7, is_unofficial: true },
        _ => OpRow {
            instruction: InstructionType::JAM,
            kind: AddrKind::Implicit,
            cycles: 2,
            is_unofficial: true,
        },
    }
}


/// The signed displacement with the same bit pattern as a byte.
pub open spec fn spec_to_signed(b: u8) -> i8 {
    if b < 128 {
        b as i8
    } else {
        (b - 256) as i8
    }
}

/// The addressing mode a decoded shape carries, with its operand read
/// from the bytes starting at `base`.
pub open spec fn spec_mode_for(kind: AddrKind, s: BusView, base: u16) -> AddressingMode {
    match kind {
        AddrKind::Implicit => AddressingMode::Implicit,
        AddrKind::Accumulator => AddressingMode::Accumulator,
        AddrKind::Immediate => AddressingMode::Immediate(AbsoluteAddress(base)),
        AddrKind::Indirect => AddressingMode::Indirect(
            AbsoluteAddress((raw_byte(s, base) + raw_byte(s, wrap16(base + 1)) * 256) as u16),
        ),
        AddrKind::ZeroPage => AddressingMode::ZeroPage(ZeroPageAddress(raw_byte(s, base))),
        AddrKind::ZeroPageX => AddressingMode::ZeroPageX(ZeroPageAddress(raw_byte(s, base))),
        AddrKind::ZeroPageY => AddressingMode::ZeroPageY(ZeroPageAddress(raw_byte(s, base))),
        AddrKind::Relative => AddressingMode::Relative(
            RelativeAddress(spec_to_signed(raw_byte(s, base))),
        ),
        AddrKind::Absolute => AddressingMode::Absolute(
            AbsoluteAddress((raw_byte(s, base) + raw_byte(s, wrap16(base + 1)) * 256) as u16),
        ),
        AddrKind::AbsoluteX => AddressingMode::AbsoluteX(
            AbsoluteAddress((raw_byte(s, base) + raw_byte(s, wrap16(base + 1)) * 256) as u16),
        ),
        AddrKind::AbsoluteY => AddressingMode::AbsoluteY(
            AbsoluteAddress((raw_byte(s, base) + raw_byte(s, wrap16(base + 1)) * 256) as u16),
        ),
        AddrKind::IndexedIndirect => AddressingMode::IndexedIndirect(
            ZeroPageAddress(raw_byte(s, base)),
        ),
        AddrKind::IndirectIndexed => AddressingMode::IndirectIndexed(
            ZeroPageAddress(raw_byte(s, base)),
        ),
    }
}

/// The record decode yields for an opcode byte whose operand bytes
/// start at `base`.
pub open spec fn spec_op_from(code: u8, s: BusView, base: u16) -> OpCode {
    let row = opcode_row(code);
    OpCode {
        instruction: row.instruction,
        mode: spec_mode_for(row.kind, s, base),
        cycles: row.cycles as i32,
        code,
        is_unofficial: row.is_unofficial,
    }
}

/// The instruction decoded at `pc`.
pub open spec fn spec_decoded_op(s: BusView, pc: u16) -> OpCode {
    spec_op_from(raw_byte(s, pc), s, wrap16(pc + 1))
}

/// The decoded operand embedded in a mode agrees with the instruction's
/// operand bytes, which start at `base` (the slot after the opcode).
pub open spec fn mode_operand_ok(m: AddressingMode, s: BusView, base: u16) -> bool {
    match m {
        AddressingMode::Implicit => true,
        AddressingMode::Accumulator => true,
        AddressingMode::Immediate(a) => a.0 == base,
        AddressingMode::Indirect(a) => a.0 == raw_byte(s, base) + raw_byte(
            s,
            wrap16(base + 1),
        ) * 256,
        AddressingMode::ZeroPage(z) => z.0 == raw_byte(s, base),
        AddressingMode::ZeroPageX(z) => z.0 == raw_byte(s, base),
        AddressingMode::ZeroPageY(z) => z.0 == raw_byte(s, base),
        AddressingMode::Relative(r) => wrap8(r.0 as int) == raw_byte(s, base),
        AddressingMode::Absolute(a) => a.0 == raw_byte(s, base) + raw_byte(
            s,
            wrap16(base + 1),
        ) * 256,
        AddressingMode::AbsoluteX(a) => a.0 == raw_byte(s, base) + raw_byte(
            s,
            wrap16(base + 1),
        ) * 256,
        AddressingMode::AbsoluteY(a) => a.0 == raw_byte(s, base) + raw_byte(
            s,
            wrap16(base + 1),
        ) * 256,
        AddressingMode::IndexedIndirect(z) => z.0 == raw_byte(s, base),
        AddressingMode::IndirectIndexed(z) => z.0 == raw_byte(s, base),
    }
}

/// The instruction-mode pairings the decode table produces; each
/// executor requires its own shape.
pub open spec fn op_valid(op: OpCode) -> bool {
    match op.instruction {
        InstructionType::LDA => is_value_mode(op.mode),
        InstructionType::LDX => is_value_mode(op.mode),
        InstructionType::LDY => is_value_mode(op.mode),
        InstructionType::LAX => is_value_mode(op.mode),
        InstructionType::ORA => is_value_mode(op.mode),
        InstructionType::AND => is_value_mode(op.mode),
        InstructionType::EOR => is_value_mode(op.mode),
        InstructionType::ADC => is_value_mode(op.mode),
        InstructionType::SBC => is_value_mode(op.mode),
        InstructionType::CMP => is_value_mode(op.mode),
        InstructionType::CPX => is_value_mode(op.mode),
        InstructionType::CPY => is_value_mode(op.mode),
        InstructionType::BIT => is_value_mode(op.mode),
        InstructionType::STA => is_store_mode(op.mode),
        InstructionType::STX => is_store_mode(op.mode),
        InstructionType::STY => is_store_mode(op.mode),
        InstructionType::SAX => is_store_mode(op.mode),
        InstructionType::ASL => is_writable_mode(op.mode),
        InstructionType::LSR => is_writable_mode(op.mode),
        InstructionType::ROL => is_writable_mode(op.mode),
        InstructionType::ROR => is_writable_mode(op.mode),
        InstructionType::INC => is_store_mode(op.mode),
        InstructionType::DEC => is_store_mode(op.mode),
        InstructionType::DCP => is_store_mode(op.mode),
        InstructionType::ISB => is_store_mode(op.mode),
        InstructionType::SLO => is_store_mode(op.mode),
        InstructionType::RLA => is_store_mode(op.mode),
        InstructionType::SRE => is_store_mode(op.mode),
        InstructionType::RRA => is_store_mode(op.mode),
        InstructionType::BCC => op.mode matches AddressingMode::Relative(_),
        InstructionType::BCS => op.mode matches AddressingMode::Relative(_),
        InstructionType::BEQ => op.mode matches AddressingMode::Relative(_),
        InstructionType::BNE => op.mode matches AddressingMode::Relative(_),
        InstructionType::BMI => op.mode matches AddressingMode::Relative(_),
        InstructionType::BPL => op.mode matches AddressingMode::Relative(_),
        InstructionType::BVC => op.mode matches AddressingMode::Relative(_),
        InstructionType::BVS => op.mode matches AddressingMode::Relative(_),
        InstructionType::JMP => is_mem_mode(op.mode),
        InstructionType::JSR => is_mem_mode(op.mode),
        InstructionType::NOP => !(op.mode matches AddressingMode::Relative(_)),
        _ => true,
    }
}


/// The exact effect of executing one decoded instruction on the
/// registers and the bus, with the extra cycles beyond the opcode's
/// base count.
///
/// Each arm restates the contract of the instruction's executor.
#[verifier::opaque]
pub open spec fn spec_instr_effect(op: OpCode, r0: CPURegisters, s0: BusView) -> (
    CPURegisters,
    BusView,
    int,
) {
    let m = op.mode;
    let crossed_extra: int = if spec_crossed(s0, r0, m) { 1int } else { 0int };
    match op.instruction {
        InstructionType::LDA => {
            let v = spec_operand_val(s0, r0, m);
            ((CPURegisters { accumulator: v, status: with_zn(r0.status, v), ..r0 }), spec_operand_step(s0, r0, m), crossed_extra)
        },
        InstructionType::LDX => {
            let v = spec_operand_val(s0, r0, m);
            ((CPURegisters { x: v, status: with_zn(r0.status, v), ..r0 }), spec_operand_step(s0, r0, m), crossed_extra)
        },
        InstructionType::LDY => {
            let v = spec_operand_val(s0, r0, m);
            ((CPURegisters { y: v, status: with_zn(r0.status, v), ..r0 }), spec_operand_step(s0, r0, m), crossed_extra)
        },
        InstructionType::LAX => {
            let v = spec_operand_val(s0, r0, m);
            ((CPURegisters {
                accumulator: v,
                x: v,
                status: with_zn(with_zn(r0.status, v), v),
                ..r0
            }), spec_operand_step(s0, r0, m), crossed_extra)
        },
        InstructionType::ORA => {
            let v = r0.accumulator | spec_operand_val(s0, r0, m);
            ((CPURegisters { accumulator: v, status: with_zn(r0.status, v), ..r0 }), spec_operand_step(s0, r0, m), crossed_extra)
        },
        InstructionType::AND => {
            let v = r0.accumulator & spec_operand_val(s0, r0, m);
            ((CPURegisters { accumulator: v, status: with_zn(r0.status, v), ..r0 }), spec_operand_step(s0, r0, m), crossed_extra)
        },
        InstructionType::EOR => {
            let v = r0.accumulator ^ spec_operand_val(s0, r0, m);
            ((CPURegisters { accumulator: v, status: with_zn(r0.status, v), ..r0 }), spec_operand_step(s0, r0, m), crossed_extra)
        },
        InstructionType::ADC => {
            let v = spec_operand_val(s0, r0, m);
            ((CPURegisters {
                accumulator: spec_adc_a(r0.accumulator, v, r0.status),
                status: spec_adc_status(r0.accumulator, v, r0.status),
                ..r0
            }), spec_operand_step(s0, r0, m), crossed_extra)
        },
        InstructionType::SBC => {
            let v = !spec_operand_val(s0, r0, m);
            ((CPURegisters {
                accumulator: spec_adc_a(r0.accumulator, v, r0.status),
                status: spec_adc_status(r0.accumulator, v, r0.status),
                ..r0
            }), spec_operand_step(s0, r0, m), crossed_extra)
        },
        InstructionType::CMP => {
            let v = spec_operand_val(s0, r0, m);
            ((CPURegisters {
                status: spec_cmp_status(r0.status, r0.accumulator, v),
                ..r0
            }), spec_operand_step(s0, r0, m), crossed_extra)
        },
        InstructionType::CPX => {
            let v = spec_operand_val(s0, r0, m);
            ((CPURegisters { status: spec_cmp_status(r0.status, r0.x, v), ..r0 }), spec_operand_step(s0, r0, m), 0)
        },
        InstructionType::CPY => {
            let v = spec_operand_val(s0, r0, m);
            ((CPURegisters { status: spec_cmp_status(r0.status, r0.y, v), ..r0 }), spec_operand_step(s0, r0, m), 0)
        },
        InstructionType::BIT => {
            let v = spec_operand_val(s0, r0, m);
            ((CPURegisters {
                status: with_flag(
                    with_flag(
                        with_flag(r0.status, 0x02, v & r0.accumulator == 0),
                        0x40,
                        v & 0x40 != 0,
                    ),
                    0x80,
                    v & 0x80 != 0,
                ),
                ..r0
            }), spec_operand_step(s0, r0, m), 0)
        },
        InstructionType::STA => {
            (r0, spec_store_step(s0, r0, m, r0.accumulator), spec_store_cost(s0, r0, m))
        },
        InstructionType::STX => {
            (r0, spec_store_step(s0, r0, m, r0.x), spec_store_cost(s0, r0, m))
        },
        InstructionType::STY => {
            (r0, spec_store_step(s0, r0, m, r0.y), spec_store_cost(s0, r0, m))
        },
        InstructionType::SAX => {
            (r0, spec_store_step(s0, r0, m, r0.accumulator & r0.x), spec_store_cost(s0, r0, m))
        },
        InstructionType::ASL => {
            let v = spec_operand_val(s0, r0, m);
            (spec_rmw_regs(r0, m, wrap8(2 * v), v & 0x80 == 0x80), spec_rmw_bus(s0, r0, m, wrap8(2 * v)), spec_store_cost(s0, r0, m))
        },
        InstructionType::LSR => {
            let v = spec_operand_val(s0, r0, m);
            (spec_rmw_regs(r0, m, v / 2, v & 0x01 == 0x01), spec_rmw_bus(s0, r0, m, v / 2), spec_store_cost(s0, r0, m))
        },
        InstructionType::ROL => {
            let v = spec_operand_val(s0, r0, m);
            let nv = spec_rol_val(v, flag_is_set(r0.status, 0x01));
            (spec_rmw_regs(r0, m, nv, v & 0x80 == 0x80), spec_rmw_bus(s0, r0, m, nv), spec_store_cost(s0, r0, m))
        },
        InstructionType::ROR => {
            let v = spec_operand_val(s0, r0, m);
            let nv = spec_ror_val(v, flag_is_set(r0.status, 0x01));
            (spec_rmw_regs(r0, m, nv, v & 0x01 == 0x01), spec_rmw_bus(s0, r0, m, nv), spec_store_cost(s0, r0, m))
        },
        InstructionType::INC => {
            let v = wrap8(spec_operand_val(s0, r0, m) + 1);
            ((CPURegisters {
                status: with_flag(
                    with_flag(r0.status, 0x02, v == 0),
                    0x80,
                    v & 0x80 == 0x80,
                ),
                ..r0
            }), spec_rmw_bus(s0, r0, m, v), spec_store_cost(s0, r0, m))
        },
        InstructionType::DEC => {
            let v = wrap8(spec_operand_val(s0, r0, m) - 1);
            ((CPURegisters {
                status: with_flag(
                    with_flag(r0.status, 0x02, v == 0),
                    0x80,
                    v & 0x80 == 0x80,
                ),
                ..r0
            }), spec_rmw_bus(s0, r0, m, v), spec_store_cost(s0, r0, m))
        },
        InstructionType::DCP => {
            let v = wrap8(spec_operand_val(s0, r0, m) - 1);
            ((CPURegisters {
                status: spec_cmp_status(
                    with_flag(
                        with_flag(r0.status, 0x02, v == 0),
                        0x80,
                        v & 0x80 == 0x80,
                    ),
                    r0.accumulator,
                    v,
                ),
                ..r0
            }), spec_rmw_bus(s0, r0, m, v), spec_store_cost(s0, r0, m))
        },
        InstructionType::ISB => {
            let v = wrap8(spec_operand_val(s0, r0, m) + 1);
            let si = with_flag(
                with_flag(r0.status, 0x02, v == 0),
                0x80,
                v & 0x80 == 0x80,
            );
            ((CPURegisters {
                accumulator: spec_adc_a(r0.accumulator, !v, si),
                status: spec_adc_status(r0.accumulator, !v, si),
                ..r0
            }), spec_rmw_bus(s0, r0, m, v), spec_store_cost(s0, r0, m))
        },
        InstructionType::SLO => {
            let v = spec_operand_val(s0, r0, m);
            let nv = wrap8(2 * v);
            let ri = spec_rmw_regs(r0, m, nv, v & 0x80 == 0x80);
            let a = r0.accumulator | nv;
            ((CPURegisters { accumulator: a, status: with_zn(ri.status, a), ..ri }), spec_rmw_bus(s0, r0, m, nv), spec_store_cost(s0, r0, m))
        },
        InstructionType::RLA => {
            let v = spec_operand_val(s0, r0, m);
            let nv = spec_rol_val(v, flag_is_set(r0.status, 0x01));
            let ri = spec_rmw_regs(r0, m, nv, v & 0x80 == 0x80);
            let a = r0.accumulator & nv;
            ((CPURegisters { accumulator: a, status: with_zn(ri.status, a), ..ri }), spec_rmw_bus(s0, r0, m, nv), spec_store_cost(s0, r0, m))
        },
        InstructionType::SRE => {
            let v = spec_operand_val(s0, r0, m);
            let nv = (v / 2) as u8;
            let ri = spec_rmw_regs(r0, m, nv, v & 0x01 == 0x01);
            let a = r0.accumulator ^ nv;
            ((CPURegisters { accumulator: a, status: with_zn(ri.status, a), ..ri }), spec_rmw_bus(s0, r0, m, nv), spec_store_cost(s0, r0, m))
        },
        InstructionType::RRA => {
            let v = spec_operand_val(s0, r0, m);
            let nv = spec_ror_val(v, flag_is_set(r0.status, 0x01));
            let ri = spec_rmw_regs(r0, m, nv, v & 0x01 == 0x01);
            ((CPURegisters {
                accumulator: spec_adc_a(r0.accumulator, nv, ri.status),
                status: spec_adc_status(r0.accumulator, nv, ri.status),
                ..ri
            }), spec_rmw_bus(s0, r0, m, nv), spec_store_cost(s0, r0, m))
        },
        InstructionType::BCS => spec_branch_effect(op, r0, s0, flag_is_set(r0.status, 0x01)),
        InstructionType::BCC => spec_branch_effect(op, r0, s0, !flag_is_set(r0.status, 0x01)),
        InstructionType::BEQ => spec_branch_effect(op, r0, s0, flag_is_set(r0.status, 0x02)),
        InstructionType::BNE => spec_branch_effect(op, r0, s0, !flag_is_set(r0.status, 0x02)),
        InstructionType::BMI => spec_branch_effect(op, r0, s0, flag_is_set(r0.status, 0x80)),
        InstructionType::BPL => spec_branch_effect(op, r0, s0, !flag_is_set(r0.status, 0x80)),
        InstructionType::BVS => spec_branch_effect(op, r0, s0, flag_is_set(r0.status, 0x40)),
        InstructionType::BVC => spec_branch_effect(op, r0, s0, !flag_is_set(r0.status, 0x40)),
        InstructionType::SEC => {
            ((CPURegisters { status: r0.status | 0x01, ..r0 }), s0, 0)
        },
        InstructionType::CLC => {
            ((CPURegisters { status: r0.status & !0x01, ..r0 }), s0, 0)
        },
        InstructionType::SEI => {
            ((CPURegisters { status: r0.status | 0x04, ..r0 }), s0, 0)
        },
        InstructionType::CLI => {
            ((CPURegisters { status: r0.status & !0x04, ..r0 }), s0, 0)
        },
        InstructionType::SED => {
            ((CPURegisters { status: r0.status | 0x08, ..r0 }), s0, 0)
        },
        InstructionType::CLD => {
            ((CPURegisters { status: r0.status & !0x08, ..r0 }), s0, 0)
        },
        InstructionType::CLV => {
            ((CPURegisters { status: r0.status & !0x40, ..r0 }), s0, 0)
        },
        InstructionType::TAX => {
            ((CPURegisters {
                x: r0.accumulator,
                status: with_zn(r0.status, r0.accumulator),
                ..r0
            }), s0, 0)
        },
        InstructionType::TAY => {
            ((CPURegisters {
                y: r0.accumulator,
                status: with_zn(r0.status, r0.accumulator),
                ..r0
            }), s0, 0)
        },
        InstructionType::TXA => {
            ((CPURegisters {
                accumulator: r0.x,
                status: with_zn(r0.status, r0.x),
                ..r0
            }), s0, 0)
        },
        InstructionType::TYA => {
            ((CPURegisters {
                accumulator: r0.y,
                status: with_zn(r0.status, r0.y),
                ..r0
            }), s0, 0)
        },
        InstructionType::TSX => {
            let v = (r0.stack % 256) as u8;
            ((CPURegisters { x: v, status: with_zn(r0.status, v), ..r0 }), s0, 0)
        },
        InstructionType::TXS => {
            ((CPURegisters { stack: (0x0100 + r0.x) as u16, ..r0 }), s0, 0)
        },
        InstructionType::INX => {
            let v = wrap8(r0.x + 1);
            ((CPURegisters { x: v, status: with_zn(r0.status, v), ..r0 }), s0, 0)
        },
        InstructionType::INY => {
            let v = wrap8(r0.y + 1);
            ((CPURegisters { y: v, status: with_zn(r0.status, v), ..r0 }), s0, 0)
        },
        InstructionType::DEX => {
            let v = wrap8(r0.x - 1);
            ((CPURegisters { x: v, status: with_zn(r0.status, v), ..r0 }), s0, 0)
        },
        InstructionType::DEY => {
            let v = wrap8(r0.y - 1);
            ((CPURegisters { y: v, status: with_zn(r0.status, v), ..r0 }), s0, 0)
        },
        InstructionType::NOP => {
            (r0, s0, crossed_extra)
        },
        InstructionType::JAM => {
            (r0, s0, 0)
        },
        InstructionType::PHA => {
            (spec_push_regs(r0), spec_push_bus(r0, s0, r0.accumulator), 0)
        },
        InstructionType::PHP => {
            (spec_push_regs(r0), spec_push_bus(r0, s0, r0.status | 0x30), 0)
        },
        InstructionType::PLA => {
            let v = spec_pop_val(r0, s0);
            let ri = spec_pop_regs(r0);
            ((CPURegisters { accumulator: v, status: with_zn(ri.status, v), ..ri }), s0, 0)
        },
        InstructionType::PLP => {
            let v = spec_pop_val(r0, s0);
            ((CPURegisters { status: (v | 0x20) & !0x10, ..spec_pop_regs(r0) }), s0, 0)
        },
        InstructionType::JMP => {
            ((CPURegisters { pc: AbsoluteAddress(spec_ea(s0, r0, m)), ..r0 }), s0, 0)
        },
        InstructionType::JSR => {
            let ret = wrap16(r0.pc.0 - 1);
            ((CPURegisters {
                pc: AbsoluteAddress(spec_ea(s0, r0, m)),
                ..spec_push_regs(spec_push_regs(r0))
            }), spec_push_bus(
                spec_push_regs(r0),
                spec_push_bus(r0, s0, (ret / 256) as u8),
                (ret % 256) as u8,
            ), 0)
        },
        InstructionType::RTS => {
            let low = spec_pop_val(r0, s0);
            let ra = spec_pop_regs(r0);
            let high = spec_pop_val(ra, s0);
            let rb = spec_pop_regs(ra);
            ((CPURegisters {
                pc: AbsoluteAddress(wrap16(high * 256 + low + 1)),
                ..rb
            }), s0, 0)
        },
        InstructionType::RTI => {
            let p = spec_pop_val(r0, s0);
            let ra = spec_pop_regs(r0);
            let low = spec_pop_val(ra, s0);
            let rb = spec_pop_regs(ra);
            let high = spec_pop_val(rb, s0);
            let rc = spec_pop_regs(rb);
            ((CPURegisters {
                status: (p | 0x20) & !0x10,
                pc: AbsoluteAddress((high * 256 + low) as u16),
                ..rc
            }), s0, 0)
        },
        InstructionType::BRK => {
            let sa = spec_push_bus(r0, s0, (r0.pc.0 / 256) as u8);
            let ra = spec_push_regs(r0);
            let sb = spec_push_bus(ra, sa, (r0.pc.0 % 256) as u8);
            let rb = spec_push_regs(ra);
            let sc = spec_push_bus(rb, sb, r0.status | 0x30);
            let rc = spec_push_regs(rb);
            ((CPURegisters {
                status: r0.status | 0x04,
                pc: AbsoluteAddress(wrap16(raw_word(sc, 0xFFFE))),
                ..rc
            }), sc, 0)
        },
    }
}

/// The instruction step relation: the post state and extra cycles are
/// exactly the instruction's effect on the pre state.
#[verifier::opaque]
pub open spec fn spec_instr(
    op: OpCode,
    r0: CPURegisters,
    s0: BusView,
    r1: CPURegisters,
    s1: BusView,
    extra: int,
) -> bool {
    let effect = spec_instr_effect(op, r0, s0);
    r1 == effect.0 && s1 == effect.1 && extra == effect.2
}

/// The effect of a branch instruction with the given condition.
pub open spec fn spec_branch_effect(op: OpCode, r0: CPURegisters, s0: BusView, cond: bool) -> (
    CPURegisters,
    BusView,
    int,
) {
    let off = op.mode->Relative_0.0;
    (spec_branch_regs(r0, off, cond), s0, spec_branch_cycles(r0.pc.0, off, cond))
}

/// Reinterpret a byte as the signed displacement with the same bits.
fn to_signed(b: u8) -> (r: i8)
    ensures
        r == spec_to_signed(b),
        wrap8(r as int) == b,
{
    if b < 128 {
        b as i8
    } else {
        ((b as i16) - 256) as i8
    }
}


/// The bus after an NMI entry: the PC's high and low bytes, then the
/// status with B clear and U set, pushed onto the stack.
pub open spec fn spec_nmi_bus(r0: CPURegisters, s0: BusView) -> BusView {
    let s1 = spec_push_bus(r0, s0, (r0.pc.0 / 256) as u8);
    let r1 = spec_push_regs(r0);
    let s2 = spec_push_bus(r1, s1, (r0.pc.0 % 256) as u8);
    let r2 = spec_push_regs(r1);
    spec_push_bus(r2, s2, (r0.status & !0x10) | 0x20)
}

/// The registers after an NMI entry: three slots deeper on the stack,
/// interrupts disabled, PC from the vector at $FFFA.
pub open spec fn spec_nmi_regs(r0: CPURegisters, s0: BusView) -> CPURegisters {
    CPURegisters {
        status: r0.status | 0x04,
        pc: AbsoluteAddress(raw_word(spec_nmi_bus(r0, s0), NMI_VECTOR) as u16),
        ..spec_push_regs(spec_push_regs(spec_push_regs(r0)))
    }
}

/// The CPU: its register file. Memory is handed to each operation by
/// the orchestrator, which owns the bus.
pub struct CPU {
    pub registers: CPURegisters,
}

impl CPU {
    pub fn new() -> (r: CPU)
        ensures
            r.registers == CPURegisters::spec_new(),
            r.registers.wf(),
    {
        CPU { registers: CPURegisters::new() }
    }

    /// Power-on reset: fresh registers, PC from the reset vector.
    pub fn reset(&mut self, mem: &RamController)
        requires
            mem.wf(),
        ensures
            final(self).registers == (CPURegisters {
                pc: AbsoluteAddress(raw_word(mem@, RESET_VECTOR) as u16),
                ..CPURegisters::spec_new()
            }),
            final(self).registers.wf(),
    {
        self.registers = CPURegisters::new();
        let address = mem.read16(RESET_VECTOR);
        self.registers.set_pc(AbsoluteAddress::from(address));
    }

    /// NMI entry: push the PC (high byte first) and the status with B
    /// clear and U set, set the interrupt-disable flag, and vector
    /// through $FFFA. Costs 7 cycles, accounted by the orchestrator.
    pub fn trigger_nmi(&mut self, mem: &mut RamController)
        requires
            old(self).registers.wf(),
            old(mem).wf(),
        ensures
            final(self).registers.wf(),
            final(mem).wf(),
            final(mem)@ == spec_nmi_bus(old(self).registers, old(mem)@),
            final(self).registers == spec_nmi_regs(old(self).registers, old(mem)@),
    {
        let pc = self.registers.pc();
        stack::push(&mut self.registers, mem, pc.high());
        stack::push(&mut self.registers, mem, pc.low());

        // A hardware interrupt pushes the status with B clear and U set.
        let pushed_status = (self.registers.status() & !0x10) | 0x20;
        stack::push(&mut self.registers, mem, pushed_status);

        self.registers.set_flag(CPUFlags::InterruptDisable);

        let address = mem.read16(NMI_VECTOR);
        self.registers.set_pc(AbsoluteAddress::from(address));
    }

    /// Fetch the byte at PC and advance past it.
    fn next_byte(&mut self, mem: &RamController) -> (b: u8)
        requires
            mem.wf(),
        ensures
            b == raw_byte(mem@, old(self).registers.pc.0),
            final(self).registers == (CPURegisters {
                pc: AbsoluteAddress(wrap16(old(self).registers.pc.0 + 1)),
                ..old(self).registers
            }),
    {
        let addr = self.registers.increment_pc();
        mem.read8x(&addr)
    }

    /// Fetch a little-endian operand word and advance past it.
    fn next_short(&mut self, mem: &RamController) -> (a: AbsoluteAddress)
        requires
            mem.wf(),
        ensures
            a.0 == raw_byte(mem@, old(self).registers.pc.0) + raw_byte(
                mem@,
                wrap16(old(self).registers.pc.0 + 1),
            ) * 256,
            final(self).registers == (CPURegisters {
                pc: AbsoluteAddress(wrap16(old(self).registers.pc.0 + 2)),
                ..old(self).registers
            }),
    {
        let low = self.next_byte(mem);
        let high = self.next_byte(mem);
        AbsoluteAddress::from_u8(low, high)
    }

    #[verifier::rlimit(100)]
    fn decode_00(&mut self, mem: &RamController, opcode: u8) -> (op: OpCode)
        requires
            mem.wf(),
            0x00 <= opcode < 0x20,
        ensures
            ({
                let s = mem@;
                let base = old(self).registers.pc.0;
                let row = opcode_row(opcode);
                &&& op == spec_op_from(opcode, s, base)
                &&& op.code == opcode
                &&& op.instruction == row.instruction
                &&& kind_of(op.mode) == row.kind
                &&& op.cycles == row.cycles
                &&& 2 <= op.cycles <= 8
                &&& op.is_unofficial == row.is_unofficial
                &&& mode_operand_ok(op.mode, s, base)
                &&& op_valid(op)
                &&& final(self).registers == (CPURegisters {
                    pc: AbsoluteAddress(wrap16(base + operand_len(row.kind))),
                    ..old(self).registers
                })
            }),
    {
        match opcode {
            0x00 => OpCode::new(
                InstructionType::BRK,
                AddressingMode::Implicit,
                7,
                opcode,
                false,
            ),
            0x01 => OpCode::new(
                InstructionType::ORA,
                AddressingMode::IndexedIndirect(ZeroPageAddress::from(self.next_byte(mem))),
                6,
                opcode,
                false,
            ),
            0x02 => OpCode::new(InstructionType::JAM, AddressingMode::Implicit, 2, opcode, true),
            0x03 => OpCode::new(
                InstructionType::SLO,
                AddressingMode::IndexedIndirect(ZeroPageAddress::from(self.next_byte(mem))),
                8,
                opcode,
                true,
            ),
            0x04 => OpCode::new(
                InstructionType::NOP,
                AddressingMode::ZeroPage(ZeroPageAddress::from(self.next_byte(mem))),
                3,
                opcode,
                true,
            ),
            0x05 => OpCode::new(
                InstructionType::ORA,
                AddressingMode::ZeroPage(ZeroPageAddress::from(self.next_byte(mem))),
                3,
                opcode,
                false,
            ),
            0x06 => OpCode::new(
                InstructionType::ASL,
                AddressingMode::ZeroPage(ZeroPageAddress::from(self.next_byte(mem))),
                5,
                opcode,
                false,
            ),
            0x07 => OpCode::new(
                InstructionType::SLO,
                AddressingMode::ZeroPage(ZeroPageAddress::from(self.next_byte(mem))),
                5,
                opcode,
                true,
            ),
            0x08 => OpCode::new(
                InstructionType::PHP,
                AddressingMode::Implicit,
                3,
                opcode,
                false,
            ),
            0x09 => OpCode::new(
                InstructionType::ORA,
                AddressingMode::Immediate(self.registers.increment_pc()),
                2,
                opcode,
                false,
            ),
            0x0A => OpCode::new(
                InstructionType::ASL,
                AddressingMode::Accumulator,
                2,
                opcode,
                false,
            ),
            0x0B => OpCode::new(InstructionType::JAM, AddressingMode::Implicit, 2, opcode, true),
            0x0C => OpCode::new(
                InstructionType::NOP,
                AddressingMode::Absolute(self.next_short(mem)),
                4,
                opcode,
                true,
            ),
            0x0D => OpCode::new(
                InstructionType::ORA,
                AddressingMode::Absolute(self.next_short(mem)),
                4,
                opcode,
                false,
            ),
            0x0E => OpCode::new(
                InstructionType::ASL,
                AddressingMode::Absolute(self.next_short(mem)),
                6,
                opcode,
                false,
            ),
            0x0F => OpCode::new(
                InstructionType::SLO,
                AddressingMode::Absolute(self.next_short(mem)),
                6,
                opcode,
                true,
            ),
            0x10 => OpCode::new(
                InstructionType::BPL,
                AddressingMode::Relative(RelativeAddress::from(to_signed(self.next_byte(mem)))),
                2,
                opcode,
                false,
            ),
            0x11 => OpCode::new(
                InstructionType::ORA,
                AddressingMode::IndirectIndexed(ZeroPageAddress::from(self.next_byte(mem))),
                5,
                opcode,
                false,
            ),
            0x12 => OpCode::new(InstructionType::JAM, AddressingMode::Implicit, 2, opcode, true),
            0x13 => OpCode::new(
                InstructionType::SLO,
                AddressingMode::IndirectIndexed(ZeroPageAddress::from(self.next_byte(mem))),
                8,
                opcode,
                true,
            ),
            0x14 => OpCode::new(
                InstructionType::NOP,
                AddressingMode::ZeroPageX(ZeroPageAddress::from(self.next_byte(mem))),
                4,
                opcode,
                true,
            ),
            0x15 => OpCode::new(
                InstructionType::ORA,
                AddressingMode::ZeroPageX(ZeroPageAddress::from(self.next_byte(mem))),
                4,
                opcode,
                false,
            ),
            0x16 => OpCode::new(
                InstructionType::ASL,
                AddressingMode::ZeroPageX(ZeroPageAddress::from(self.next_byte(mem))),
                6,
                opcode,
                false,
            ),
            0x17 => OpCode::new(
                InstructionType::SLO,
                AddressingMode::ZeroPageX(ZeroPageAddress::from(self.next_byte(mem))),
                6,
                opcode,
                true,
            ),
            0x18 => OpCode::new(
                InstructionType::CLC,
                AddressingMode::Implicit,
                2,
                opcode,
                false,
            ),
            0x19 => OpCode::new(
                InstructionType::ORA,
                AddressingMode::AbsoluteY(self.next_short(mem)),
                4,
                opcode,
                false,
            ),
            0x1A => OpCode::new(
                InstructionType::NOP,
                AddressingMode::Implicit,
                2,
                opcode,
                true,
            ),
            0x1B => OpCode::new(
                InstructionType::SLO,
                AddressingMode::AbsoluteY(self.next_short(mem)),
                7,
                opcode,
                true,
            ),
            0x1C => OpCode::new(
                InstructionType::NOP,
                AddressingMode::AbsoluteX(self.next_short(mem)),
                4,
                opcode,
                true,
            ),
            0x1D => OpCode::new(
                InstructionType::ORA,
                AddressingMode::AbsoluteX(self.next_short(mem)),
                4,
                opcode,
                false,
            ),
            0x1E => OpCode::new(
                InstructionType::ASL,
                AddressingMode::AbsoluteX(self.next_short(mem)),
                7,
                opcode,
                false,
            ),
            0x1F => OpCode::new(
                InstructionType::SLO,
                AddressingMode::AbsoluteX(self.next_short(mem)),
                7,
                opcode,
                true,
            ),
            _ => {
                // Every byte in this group has an arm above.
                proof {
                    assert(false);
                }
                OpCode::new(InstructionType::JAM, AddressingMode::Implicit, 2, opcode, true)
            },
        }
    }

    #[verifier::rlimit(100)]
    fn decode_20(&mut self, mem: &RamController, opcode: u8) -> (op: OpCode)
        requires
            mem.wf(),
            0x20 <= opcode < 0x40,
        ensures
            ({
                let s = mem@;
                let base = old(self).registers.pc.0;
                let row = opcode_row(opcode);
                &&& op == spec_op_from(opcode, s, base)
                &&& op.code == opcode
                &&& op.instruction == row.instruction
                &&& kind_of(op.mode) == row.kind
                &&& op.cycles == row.cycles
                &&& 2 <= op.cycles <= 8
                &&& op.is_unofficial == row.is_unofficial
                &&& mode_operand_ok(op.mode, s, base)
                &&& op_valid(op)
                &&& final(self).registers == (CPURegisters {
                    pc: AbsoluteAddress(wrap16(base + operand_len(row.kind))),
                    ..old(self).registers
                })
            }),
    {
        match opcode {
            0x20 => OpCode::new(
                InstructionType::JSR,
                AddressingMode::Absolute(self.next_short(mem)),
                6,
                opcode,
                false,
            ),
            0x21 => OpCode::new(
                InstructionType::AND,
                AddressingMode::IndexedIndirect(ZeroPageAddress::from(self.next_byte(mem))),
                6,
                opcode,
                false,
            ),
            0x22 => OpCode::new(InstructionType::JAM, AddressingMode::Implicit, 2, opcode, true),
            0x23 => OpCode::new(
                InstructionType::RLA,
                AddressingMode::IndexedIndirect(ZeroPageAddress::from(self.next_byte(mem))),
                8,
                opcode,
                true,
            ),
            0x24 => OpCode::new(
                InstructionType::BIT,
                AddressingMode::ZeroPage(ZeroPageAddress::from(self.next_byte(mem))),
                3,
                opcode,
                false,
            ),
            0x25 => OpCode::new(
                InstructionType::AND,
                AddressingMode::ZeroPage(ZeroPageAddress::from(self.next_byte(mem))),
                3,
                opcode,
                false,
            ),
            0x26 => OpCode::new(
                InstructionType::ROL,
                AddressingMode::ZeroPage(ZeroPageAddress::from(self.next_byte(mem))),
                5,
                opcode,
                false,
            ),
            0x27 => OpCode::new(
                InstructionType::RLA,
                AddressingMode::ZeroPage(ZeroPageAddress::from(self.next_byte(mem))),
                5,
                opcode,
                true,
            ),
            0x28 => OpCode::new(
                InstructionType::PLP,
                AddressingMode::Implicit,
                4,
                opcode,
                false,
            ),
            0x29 => OpCode::new(
                InstructionType::AND,
                AddressingMode::Immediate(self.registers.increment_pc()),
                2,
                opcode,
                false,
            ),
            0x2A => OpCode::new(
                InstructionType::ROL,
                AddressingMode::Accumulator,
                2,
                opcode,
                false,
            ),
            0x2B => OpCode::new(InstructionType::JAM, AddressingMode::Implicit, 2, opcode, true),
            0x2C => OpCode::new(
                InstructionType::BIT,
                AddressingMode::Absolute(self.next_short(mem)),
                4,
                opcode,
                false,
            ),
            0x2D => OpCode::new(
                InstructionType::AND,
                AddressingMode::Absolute(self.next_short(mem)),
                4,
                opcode,
                false,
            ),
            0x2E => OpCode::new(
                InstructionType::ROL,
                AddressingMode::Absolute(self.next_short(mem)),
                6,
                opcode,
                false,
            ),
            0x2F => OpCode::new(
                InstructionType::RLA,
                AddressingMode::Absolute(self.next_short(mem)),
                6,
                opcode,
                true,
            ),
            0x30 => OpCode::new(
                InstructionType::BMI,
                AddressingMode::Relative(RelativeAddress::from(to_signed(self.next_byte(mem)))),
                2,
                opcode,
                false,
            ),
            0x31 => OpCode::new(
                InstructionType::AND,
                AddressingMode::IndirectIndexed(ZeroPageAddress::from(self.next_byte(mem))),
                5,
                opcode,
                false,
            ),
            0x32 => OpCode::new(InstructionType::JAM, AddressingMode::Implicit, 2, opcode, true),
            0x33 => OpCode::new(
                InstructionType::RLA,
                AddressingMode::IndirectIndexed(ZeroPageAddress::from(self.next_byte(mem))),
                8,
                opcode,
                true,
            ),
            0x34 => OpCode::new(
                InstructionType::NOP,
                AddressingMode::ZeroPageX(ZeroPageAddress::from(self.next_byte(mem))),
                4,
                opcode,
                true,
            ),
            0x35 => OpCode::new(
                InstructionType::AND,
                AddressingMode::ZeroPageX(ZeroPageAddress::from(self.next_byte(mem))),
                4,
                opcode,
                false,
            ),
            0x36 => OpCode::new(
                InstructionType::ROL,
                AddressingMode::ZeroPageX(ZeroPageAddress::from(self.next_byte(mem))),
                6,
                opcode,
                false,
            ),
            0x37 => OpCode::new(
                InstructionType::RLA,
                AddressingMode::ZeroPageX(ZeroPageAddress::from(self.next_byte(mem))),
                6,
                opcode,
                true,
            ),
            0x38 => OpCode::new(
                InstructionType::SEC,
                AddressingMode::Implicit,
                2,
                opcode,
                false,
            ),
            0x39 => OpCode::new(
                InstructionType::AND,
                AddressingMode::AbsoluteY(self.next_short(mem)),
                4,
                opcode,
                false,
            ),
            0x3A => OpCode::new(
                InstructionType::NOP,
                AddressingMode::Implicit,
                2,
                opcode,
                true,
            ),
            0x3B => OpCode::new(
                InstructionType::RLA,
                AddressingMode::AbsoluteY(self.next_short(mem)),
                7,
                opcode,
                true,
            ),
            0x3C => OpCode::new(
                InstructionType::NOP,
                AddressingMode::AbsoluteX(self.next_short(mem)),
                4,
                opcode,
                true,
            ),
            0x3D => OpCode::new(
                InstructionType::AND,
                AddressingMode::AbsoluteX(self.next_short(mem)),
                4,
                opcode,
                false,
            ),
            0x3E => OpCode::new(
                InstructionType::ROL,
                AddressingMode::AbsoluteX(self.next_short(mem)),
                7,
                opcode,
                false,
            ),
            0x3F => OpCode::new(
                InstructionType::RLA,
                AddressingMode::AbsoluteX(self.next_short(mem)),
                7,
                opcode,
                true,
            ),
            _ => {
                // Every byte in this group has an arm above.
                proof {
                    assert(false);
                }
                OpCode::new(InstructionType::JAM, AddressingMode::Implicit, 2, opcode, true)
            },
        }
    }

    #[verifier::rlimit(100)]
    fn decode_40(&mut self, mem: &RamController, opcode: u8) -> (op: OpCode)
        requires
            mem.wf(),
            0x40 <= opcode < 0x60,
        ensures
            ({
                let s = mem@;
                let base = old(self).registers.pc.0;
                let row = opcode_row(opcode);
                &&& op == spec_op_from(opcode, s, base)
                &&& op.code == opcode
                &&& op.instruction == row.instruction
                &&& kind_of(op.mode) == row.kind
                &&& op.cycles == row.cycles
                &&& 2 <= op.cycles <= 8
                &&& op.is_unofficial == row.is_unofficial
                &&& mode_operand_ok(op.mode, s, base)
                &&& op_valid(op)
                &&& final(self).registers == (CPURegisters {
                    pc: AbsoluteAddress(wrap16(base + operand_len(row.kind))),
                    ..old(self).registers
                })
            }),
    {
        match opcode {
            0x40 => OpCode::new(
                InstructionType::RTI,
                AddressingMode::Implicit,
                6,
                opcode,
                false,
            ),
            0x41 => OpCode::new(
                InstructionType::EOR,
                AddressingMode::IndexedIndirect(ZeroPageAddress::from(self.next_byte(mem))),
                6,
                opcode,
                false,
            ),
            0x42 => OpCode::new(InstructionType::JAM, AddressingMode::Implicit, 2, opcode, true),
            0x43 => OpCode::new(
                InstructionType::SRE,
                AddressingMode::IndexedIndirect(ZeroPageAddress::from(self.next_byte(mem))),
                8,
                opcode,
                true,
            ),
            0x44 => OpCode::new(
                InstructionType::NOP,
                AddressingMode::ZeroPage(ZeroPageAddress::from(self.next_byte(mem))),
                3,
                opcode,
                true,
            ),
            0x45 => OpCode::new(
                InstructionType::EOR,
                AddressingMode::ZeroPage(ZeroPageAddress::from(self.next_byte(mem))),
                3,
                opcode,
                false,
            ),
            0x46 => OpCode::new(
                InstructionType::LSR,
                AddressingMode::ZeroPage(ZeroPageAddress::from(self.next_byte(mem))),
                5,
                opcode,
                false,
            ),
            0x47 => OpCode::new(
                InstructionType::SRE,
                AddressingMode::ZeroPage(ZeroPageAddress::from(self.next_byte(mem))),
                5,
                opcode,
                true,
            ),
            0x48 => OpCode::new(
                InstructionType::PHA,
                AddressingMode::Implicit,
                3,
                opcode,
                false,
            ),
            0x49 => OpCode::new(
                InstructionType::EOR,
                AddressingMode::Immediate(self.registers.increment_pc()),
                2,
                opcode,
                false,
            ),
            0x4A => OpCode::new(
                InstructionType::LSR,
                AddressingMode::Accumulator,
                2,
                opcode,
                false,
            ),
            0x4B => OpCode::new(InstructionType::JAM, AddressingMode::Implicit, 2, opcode, true),
            0x4C => OpCode::new(
                InstructionType::JMP,
                AddressingMode::Absolute(self.next_short(mem)),
                3,
                opcode,
                false,
            ),
            0x4D => OpCode::new(
                InstructionType::EOR,
                AddressingMode::Absolute(self.next_short(mem)),
                4,
                opcode,
                false,
            ),
            0x4E => OpCode::new(
                InstructionType::LSR,
                AddressingMode::Absolute(self.next_short(mem)),
                6,
                opcode,
                false,
            ),
            0x4F => OpCode::new(
                InstructionType::SRE,
                AddressingMode::Absolute(self.next_short(mem)),
                6,
                opcode,
                true,
            ),
            0x50 => OpCode::new(
                InstructionType::BVC,
                AddressingMode::Relative(RelativeAddress::from(to_signed(self.next_byte(mem)))),
                2,
                opcode,
                false,
            ),
            0x51 => OpCode::new(
                InstructionType::EOR,
                AddressingMode::IndirectIndexed(ZeroPageAddress::from(self.next_byte(mem))),
                5,
                opcode,
                false,
            ),
            0x52 => OpCode::new(InstructionType::JAM, AddressingMode::Implicit, 2, opcode, true),
            0x53 => OpCode::new(
                InstructionType::SRE,
                AddressingMode::IndirectIndexed(ZeroPageAddress::from(self.next_byte(mem))),
                8,
                opcode,
                true,
            ),
            0x54 => OpCode::new(
                InstructionType::NOP,
                AddressingMode::ZeroPageX(ZeroPageAddress::from(self.next_byte(mem))),
                4,
                opcode,
                true,
            ),
            0x55 => OpCode::new(
                InstructionType::EOR,
                AddressingMode::ZeroPageX(ZeroPageAddress::from(self.next_byte(mem))),
                4,
                opcode,
                false,
            ),
            0x56 => OpCode::new(
                InstructionType::LSR,
                AddressingMode::ZeroPageX(ZeroPageAddress::from(self.next_byte(mem))),
                6,
                opcode,
                false,
            ),
            0x57 => OpCode::new(
                InstructionType::SRE,
                AddressingMode::ZeroPageX(ZeroPageAddress::from(self.next_byte(mem))),
                6,
                opcode,
                true,
            ),
            0x58 => OpCode::new(
                InstructionType::CLI,
                AddressingMode::Implicit,
                2,
                opcode,
                false,
            ),
            0x59 => OpCode::new(
                InstructionType::EOR,
                AddressingMode::AbsoluteY(self.next_short(mem)),
                4,
                opcode,
                false,
            ),
            0x5A => OpCode::new(
                InstructionType::NOP,
                AddressingMode::Implicit,
                2,
                opcode,
                true,
            ),
            0x5B => OpCode::new(
                InstructionType::SRE,
                AddressingMode::AbsoluteY(self.next_short(mem)),
                7,
                opcode,
                true,
            ),
            0x5C => OpCode::new(
                InstructionType::NOP,
                AddressingMode::AbsoluteX(self.next_short(mem)),
                4,
                opcode,
                true,
            ),
            0x5D => OpCode::new(
                InstructionType::EOR,
                AddressingMode::AbsoluteX(self.next_short(mem)),
                4,
                opcode,
                false,
            ),
            0x5E => OpCode::new(
                InstructionType::LSR,
                AddressingMode::AbsoluteX(self.next_short(mem)),
                7,
                opcode,
                false,
            ),
            0x5F => OpCode::new(
                InstructionType::SRE,
                AddressingMode::AbsoluteX(self.next_short(mem)),
                7,
                opcode,
                true,
            ),
            _ => {
                // Every byte in this group has an arm above.
                proof {
                    assert(false);
                }
                OpCode::new(InstructionType::JAM, AddressingMode::Implicit, 2, opcode, true)
            },
        }
    }

    #[verifier::rlimit(100)]
    fn decode_60(&mut self, mem: &RamController, opcode: u8) -> (op: OpCode)
        requires
            mem.wf(),
            0x60 <= opcode < 0x80,
        ensures
            ({
                let s = mem@;
                let base = old(self).registers.pc.0;
                let row = opcode_row(opcode);
                &&& op == spec_op_from(opcode, s, base)
                &&& op.code == opcode
                &&& op.instruction == row.instruction
                &&& kind_of(op.mode) == row.kind
                &&& op.cycles == row.cycles
                &&& 2 <= op.cycles <= 8
                &&& op.is_unofficial == row.is_unofficial
                &&& mode_operand_ok(op.mode, s, base)
                &&& op_valid(op)
                &&& final(self).registers == (CPURegisters {
                    pc: AbsoluteAddress(wrap16(base + operand_len(row.kind))),
                    ..old(self).registers
                })
            }),
    {
        match opcode {
            0x60 => OpCode::new(
                InstructionType::RTS,
                AddressingMode::Implicit,
                6,
                opcode,
                false,
            ),
            0x61 => OpCode::new(
                InstructionType::ADC,
                AddressingMode::IndexedIndirect(ZeroPageAddress::from(self.next_byte(mem))),
                6,
                opcode,
                false,
            ),
            0x62 => OpCode::new(InstructionType::JAM, AddressingMode::Implicit, 2, opcode, true),
            0x63 => OpCode::new(
                InstructionType::RRA,
                AddressingMode::IndexedIndirect(ZeroPageAddress::from(self.next_byte(mem))),
                8,
                opcode,
                true,
            ),
            0x64 => OpCode::new(
                InstructionType::NOP,
                AddressingMode::ZeroPage(ZeroPageAddress::from(self.next_byte(mem))),
                3,
                opcode,
                true,
            ),
            0x65 => OpCode::new(
                InstructionType::ADC,
                AddressingMode::ZeroPage(ZeroPageAddress::from(self.next_byte(mem))),
                3,
                opcode,
                false,
            ),
            0x66 => OpCode::new(
                InstructionType::ROR,
                AddressingMode::ZeroPage(ZeroPageAddress::from(self.next_byte(mem))),
                5,
                opcode,
                false,
            ),
            0x67 => OpCode::new(
                InstructionType::RRA,
                AddressingMode::ZeroPage(ZeroPageAddress::from(self.next_byte(mem))),
                5,
                opcode,
                true,
            ),
            0x68 => OpCode::new(
                InstructionType::PLA,
                AddressingMode::Implicit,
                4,
                opcode,
                false,
            ),
            0x69 => OpCode::new(
                InstructionType::ADC,
                AddressingMode::Immediate(self.registers.increment_pc()),
                2,
                opcode,
                false,
            ),
            0x6A => OpCode::new(
                InstructionType::ROR,
                AddressingMode::Accumulator,
                2,
                opcode,
                false,
            ),
            0x6B => OpCode::new(InstructionType::JAM, AddressingMode::Implicit, 2, opcode, true),
            0x6C => OpCode::new(
                InstructionType::JMP,
                AddressingMode::Indirect(self.next_short(mem)),
                5,
                opcode,
                false,
            ),
            0x6D => OpCode::new(
                InstructionType::ADC,
                AddressingMode::Absolute(self.next_short(mem)),
                4,
                opcode,
                false,
            ),
            0x6E => OpCode::new(
                InstructionType::ROR,
                AddressingMode::Absolute(self.next_short(mem)),
                6,
                opcode,
                false,
            ),
            0x6F => OpCode::new(
                InstructionType::RRA,
                AddressingMode::Absolute(self.next_short(mem)),
                6,
                opcode,
                true,
            ),
            0x70 => OpCode::new(
                InstructionType::BVS,
                AddressingMode::Relative(RelativeAddress::from(to_signed(self.next_byte(mem)))),
                2,
                opcode,
                false,
            ),
            0x71 => OpCode::new(
                InstructionType::ADC,
                AddressingMode::IndirectIndexed(ZeroPageAddress::from(self.next_byte(mem))),
                5,
                opcode,
                false,
            ),
            0x72 => OpCode::new(InstructionType::JAM, AddressingMode::Implicit, 2, opcode, true),
            0x73 => OpCode::new(
                InstructionType::RRA,
                AddressingMode::IndirectIndexed(ZeroPageAddress::from(self.next_byte(mem))),
                8,
                opcode,
                true,
            ),
            0x74 => OpCode::new(
                InstructionType::NOP,
                AddressingMode::ZeroPageX(ZeroPageAddress::from(self.next_byte(mem))),
                4,
                opcode,
                true,
            ),
            0x75 => OpCode::new(
                InstructionType::ADC,
                AddressingMode::ZeroPageX(ZeroPageAddress::from(self.next_byte(mem))),
                4,
                opcode,
                false,
            ),
            0x76 => OpCode::new(
                InstructionType::ROR,
                AddressingMode::ZeroPageX(ZeroPageAddress::from(self.next_byte(mem))),
                6,
                opcode,
                false,
            ),
            0x77 => OpCode::new(
                InstructionType::RRA,
                AddressingMode::ZeroPageX(ZeroPageAddress::from(self.next_byte(mem))),
                6,
                opcode,
                true,
            ),
            0x78 => OpCode::new(
                InstructionType::SEI,
                AddressingMode::Implicit,
                2,
                opcode,
                false,
            ),
            0x79 => OpCode::new(
                InstructionType::ADC,
                AddressingMode::AbsoluteY(self.next_short(mem)),
                4,
                opcode,
                false,
            ),
            0x7A => OpCode::new(
                InstructionType::NOP,
                AddressingMode::Implicit,
                2,
                opcode,
                true,
            ),
            0x7B => OpCode::new(
                InstructionType::RRA,
                AddressingMode::AbsoluteY(self.next_short(mem)),
                7,
                opcode,
                true,
            ),
            0x7C => OpCode::new(
                InstructionType::NOP,
                AddressingMode::AbsoluteX(self.next_short(mem)),
                4,
                opcode,
                true,
            ),
            0x7D => OpCode::new(
                InstructionType::ADC,
                AddressingMode::AbsoluteX(self.next_short(mem)),
                4,
                opcode,
                false,
            ),
            0x7E => OpCode::new(
                InstructionType::ROR,
                AddressingMode::AbsoluteX(self.next_short(mem)),
                7,
                opcode,
                false,
            ),
            0x7F => OpCode::new(
                InstructionType::RRA,
                AddressingMode::AbsoluteX(self.next_short(mem)),
                7,
                opcode,
                true,
            ),
            _ => {
                // Every byte in this group has an arm above.
                proof {
                    assert(false);
                }
                OpCode::new(InstructionType::JAM, AddressingMode::Implicit, 2, opcode, true)
            },
        }
    }

    #[verifier::rlimit(100)]
    fn decode_80(&mut self, mem: &RamController, opcode: u8) -> (op: OpCode)
        requires
            mem.wf(),
            0x80 <= opcode < 0xA0,
        ensures
            ({
                let s = mem@;
                let base = old(self).registers.pc.0;
                let row = opcode_row(opcode);
                &&& op == spec_op_from(opcode, s, base)
                &&& op.code == opcode
                &&& op.instruction == row.instruction
                &&& kind_of(op.mode) == row.kind
                &&& op.cycles == row.cycles
                &&& 2 <= op.cycles <= 8
                &&& op.is_unofficial == row.is_unofficial
                &&& mode_operand_ok(op.mode, s, base)
                &&& op_valid(op)
                &&& final(self).registers == (CPURegisters {
                    pc: AbsoluteAddress(wrap16(base + operand_len(row.kind))),
                    ..old(self).registers
                })
            }),
    {
        match opcode {
            0x80 => OpCode::new(
                InstructionType::NOP,
                AddressingMode::Immediate(self.registers.increment_pc()),
                2,
                opcode,
                true,
            ),
            0x81 => OpCode::new(
                InstructionType::STA,
                AddressingMode::IndexedIndirect(ZeroPageAddress::from(self.next_byte(mem))),
                6,
                opcode,
                false,
            ),
            0x82 => OpCode::new(InstructionType::JAM, AddressingMode::Implicit, 2, opcode, true),
            0x83 => OpCode::new(
                InstructionType::SAX,
                AddressingMode::IndexedIndirect(ZeroPageAddress::from(self.next_byte(mem))),
                6,
                opcode,
                true,
            ),
            0x84 => OpCode::new(
                InstructionType::STY,
                AddressingMode::ZeroPage(ZeroPageAddress::from(self.next_byte(mem))),
                3,
                opcode,
                false,
            ),
            0x85 => OpCode::new(
                InstructionType::STA,
                AddressingMode::ZeroPage(ZeroPageAddress::from(self.next_byte(mem))),
                3,
                opcode,
                false,
            ),
            0x86 => OpCode::new(
                InstructionType::STX,
                AddressingMode::ZeroPage(ZeroPageAddress::from(self.next_byte(mem))),
                3,
                opcode,
                false,
            ),
            0x87 => OpCode::new(
                InstructionType::SAX,
                AddressingMode::ZeroPage(ZeroPageAddress::from(self.next_byte(mem))),
                3,
                opcode,
                true,
            ),
            0x88 => OpCode::new(
                InstructionType::DEY,
                AddressingMode::Implicit,
                2,
                opcode,
                false,
            ),
            0x89 => OpCode::new(InstructionType::JAM, AddressingMode::Implicit, 2, opcode, true),
            0x8A => OpCode::new(
                InstructionType::TXA,
                AddressingMode::Implicit,
                2,
                opcode,
                false,
            ),
            0x8B => OpCode::new(InstructionType::JAM, AddressingMode::Implicit, 2, opcode, true),
            0x8C => OpCode::new(
                InstructionType::STY,
                AddressingMode::Absolute(self.next_short(mem)),
                4,
                opcode,
                false,
            ),
            0x8D => OpCode::new(
                InstructionType::STA,
                AddressingMode::Absolute(self.next_short(mem)),
                4,
                opcode,
                false,
            ),
            0x8E => OpCode::new(
                InstructionType::STX,
                AddressingMode::Absolute(self.next_short(mem)),
                4,
                opcode,
                false,
            ),
            0x8F => OpCode::new(
                InstructionType::SAX,
                AddressingMode::Absolute(self.next_short(mem)),
                4,
                opcode,
                true,
            ),
            0x90 => OpCode::new(
                InstructionType::BCC,
                AddressingMode::Relative(RelativeAddress::from(to_signed(self.next_byte(mem)))),
                2,
                opcode,
                false,
            ),
            0x91 => OpCode::new(
                InstructionType::STA,
                AddressingMode::IndirectIndexed(ZeroPageAddress::from(self.next_byte(mem))),
                6,
                opcode,
                false,
            ),
            0x92 => OpCode::new(InstructionType::JAM, AddressingMode::Implicit, 2, opcode, true),
            0x93 => OpCode::new(InstructionType::JAM, AddressingMode::Implicit, 2, opcode, true),
            0x94 => OpCode::new(
                InstructionType::STY,
                AddressingMode::ZeroPageX(ZeroPageAddress::from(self.next_byte(mem))),
                4,
                opcode,
                false,
            ),
            0x95 => OpCode::new(
                InstructionType::STA,
                AddressingMode::ZeroPageX(ZeroPageAddress::from(self.next_byte(mem))),
                4,
                opcode,
                false,
            ),
            0x96 => OpCode::new(
                InstructionType::STX,
                AddressingMode::ZeroPageY(ZeroPageAddress::from(self.next_byte(mem))),
                4,
                opcode,
                false,
            ),
            0x97 => OpCode::new(
                InstructionType::SAX,
                AddressingMode::ZeroPageY(ZeroPageAddress::from(self.next_byte(mem))),
                4,
                opcode,
                true,
            ),
            0x98 => OpCode::new(
                InstructionType::TYA,
                AddressingMode::Implicit,
                2,
                opcode,
                false,
            ),
            0x99 => OpCode::new(
                InstructionType::STA,
                AddressingMode::AbsoluteY(self.next_short(mem)),
                5,
                opcode,
                false,
            ),
            0x9A => OpCode::new(
                InstructionType::TXS,
                AddressingMode::Implicit,
                2,
                opcode,
                false,
            ),
            0x9B => OpCode::new(InstructionType::JAM, AddressingMode::Implicit, 2, opcode, true),
            0x9C => OpCode::new(InstructionType::JAM, AddressingMode::Implicit, 2, opcode, true),
            0x9D => OpCode::new(
                InstructionType::STA,
                AddressingMode::AbsoluteX(self.next_short(mem)),
                5,
                opcode,
                false,
            ),
            0x9E => OpCode::new(InstructionType::JAM, AddressingMode::Implicit, 2, opcode, true),
            0x9F => OpCode::new(InstructionType::JAM, AddressingMode::Implicit, 2, opcode, true),
            _ => {
                // Every byte in this group has an arm above.
                proof {
                    assert(false);
                }
                OpCode::new(InstructionType::JAM, AddressingMode::Implicit, 2, opcode, true)
            },
        }
    }

    #[verifier::rlimit(100)]
    fn decode_a0(&mut self, mem: &RamController, opcode: u8) -> (op: OpCode)
        requires
            mem.wf(),
            0xA0 <= opcode < 0xC0,
        ensures
            ({
                let s = mem@;
                let base = old(self).registers.pc.0;
                let row = opcode_row(opcode);
                &&& op == spec_op_from(opcode, s, base)
                &&& op.code == opcode
                &&& op.instruction == row.instruction
                &&& kind_of(op.mode) == row.kind
                &&& op.cycles == row.cycles
                &&& 2 <= op.cycles <= 8
                &&& op.is_unofficial == row.is_unofficial
                &&& mode_operand_ok(op.mode, s, base)
                &&& op_valid(op)
                &&& final(self).registers == (CPURegisters {
                    pc: AbsoluteAddress(wrap16(base + operand_len(row.kind))),
                    ..old(self).registers
                })
            }),
    {
        match opcode {
            0xA0 => OpCode::new(
                InstructionType::LDY,
                AddressingMode::Immediate(self.registers.increment_pc()),
                2,
                opcode,
                false,
            ),
            0xA1 => OpCode::new(
                InstructionType::LDA,
                AddressingMode::IndexedIndirect(ZeroPageAddress::from(self.next_byte(mem))),
                6,
                opcode,
                false,
            ),
            0xA2 => OpCode::new(
                InstructionType::LDX,
                AddressingMode::Immediate(self.registers.increment_pc()),
                2,
                opcode,
                false,
            ),
            0xA3 => OpCode::new(
                InstructionType::LAX,
                AddressingMode::IndexedIndirect(ZeroPageAddress::from(self.next_byte(mem))),
                6,
                opcode,
                true,
            ),
            0xA4 => OpCode::new(
                InstructionType::LDY,
                AddressingMode::ZeroPage(ZeroPageAddress::from(self.next_byte(mem))),
                3,
                opcode,
                false,
            ),
            0xA5 => OpCode::new(
                InstructionType::LDA,
                AddressingMode::ZeroPage(ZeroPageAddress::from(self.next_byte(mem))),
                3,
                opcode,
                false,
            ),
            0xA6 => OpCode::new(
                InstructionType::LDX,
                AddressingMode::ZeroPage(ZeroPageAddress::from(self.next_byte(mem))),
                3,
                opcode,
                false,
            ),
            0xA7 => OpCode::new(
                InstructionType::LAX,
                AddressingMode::ZeroPage(ZeroPageAddress::from(self.next_byte(mem))),
                3,
                opcode,
                true,
            ),
            0xA8 => OpCode::new(
                InstructionType::TAY,
                AddressingMode::Implicit,
                2,
                opcode,
                false,
            ),
            0xA9 => OpCode::new(
                InstructionType::LDA,
                AddressingMode::Immediate(self.registers.increment_pc()),
                2,
                opcode,
                false,
            ),
            0xAA => OpCode::new(
                InstructionType::TAX,
                AddressingMode::Implicit,
                2,
                opcode,
                false,
            ),
            0xAB => OpCode::new(InstructionType::JAM, AddressingMode::Implicit, 2, opcode, true),
            0xAC => OpCode::new(
                InstructionType::LDY,
                AddressingMode::Absolute(self.next_short(mem)),
                4,
                opcode,
                false,
            ),
            0xAD => OpCode::new(
                InstructionType::LDA,
                AddressingMode::Absolute(self.next_short(mem)),
                4,
                opcode,
                false,
            ),
            0xAE => OpCode::new(
                InstructionType::LDX,
                AddressingMode::Absolute(self.next_short(mem)),
                4,
                opcode,
                false,
            ),
            0xAF => OpCode::new(
                InstructionType::LAX,
                AddressingMode::Absolute(self.next_short(mem)),
                4,
                opcode,
                true,
            ),
            0xB0 => OpCode::new(
                InstructionType::BCS,
                AddressingMode::Relative(RelativeAddress::from(to_signed(self.next_byte(mem)))),
                2,
                opcode,
                false,
            ),
            0xB1 => OpCode::new(
                InstructionType::LDA,
                AddressingMode::IndirectIndexed(ZeroPageAddress::from(self.next_byte(mem))),
                5,
                opcode,
                false,
            ),
            0xB2 => OpCode::new(InstructionType::JAM, AddressingMode::Implicit, 2, opcode, true),
            0xB3 => OpCode::new(
                InstructionType::LAX,
                AddressingMode::IndirectIndexed(ZeroPageAddress::from(self.next_byte(mem))),
                5,
                opcode,
                true,
            ),
            0xB4 => OpCode::new(
                InstructionType::LDY,
                AddressingMode::ZeroPageX(ZeroPageAddress::from(self.next_byte(mem))),
                4,
                opcode,
                false,
            ),
            0xB5 => OpCode::new(
                InstructionType::LDA,
                AddressingMode::ZeroPageX(ZeroPageAddress::from(self.next_byte(mem))),
                4,
                opcode,
                false,
            ),
            0xB6 => OpCode::new(
                InstructionType::LDX,
                AddressingMode::ZeroPageY(ZeroPageAddress::from(self.next_byte(mem))),
                4,
                opcode,
                false,
            ),
            0xB7 => OpCode::new(
                InstructionType::LAX,
                AddressingMode::ZeroPageY(ZeroPageAddress::from(self.next_byte(mem))),
                4,
                opcode,
                true,
            ),
            0xB8 => OpCode::new(
                InstructionType::CLV,
                AddressingMode::Implicit,
                2,
                opcode,
                false,
            ),
            0xB9 => OpCode::new(
                InstructionType::LDA,
                AddressingMode::AbsoluteY(self.next_short(mem)),
                4,
                opcode,
                false,
            ),
            0xBA => OpCode::new(
                InstructionType::TSX,
                AddressingMode::Implicit,
                2,
                opcode,
                false,
            ),
            0xBB => OpCode::new(InstructionType::JAM, AddressingMode::Implicit, 2, opcode, true),
            0xBC => OpCode::new(
                InstructionType::LDY,
                AddressingMode::AbsoluteX(self.next_short(mem)),
                4,
                opcode,
                false,
            ),
            0xBD => OpCode::new(
                InstructionType::LDA,
                AddressingMode::AbsoluteX(self.next_short(mem)),
                4,
                opcode,
                false,
            ),
            0xBE => OpCode::new(
                InstructionType::LDX,
                AddressingMode::AbsoluteY(self.next_short(mem)),
                4,
                opcode,
                false,
            ),
            0xBF => OpCode::new(
                InstructionType::LAX,
                AddressingMode::AbsoluteY(self.next_short(mem)),
                4,
                opcode,
                true,
            ),
            _ => {
                // Every byte in this group has an arm above.
                proof {
                    assert(false);
                }
                OpCode::new(InstructionType::JAM, AddressingMode::Implicit, 2, opcode, true)
            },
        }
    }

    #[verifier::rlimit(100)]
    fn decode_c0(&mut self, mem: &RamController, opcode: u8) -> (op: OpCode)
        requires
            mem.wf(),
            0xC0 <= opcode < 0xE0,
        ensures
            ({
                let s = mem@;
                let base = old(self).registers.pc.0;
                let row = opcode_row(opcode);
                &&& op == spec_op_from(opcode, s, base)
                &&& op.code == opcode
                &&& op.instruction == row.instruction
                &&& kind_of(op.mode) == row.kind
                &&& op.cycles == row.cycles
                &&& 2 <= op.cycles <= 8
                &&& op.is_unofficial == row.is_unofficial
                &&& mode_operand_ok(op.mode, s, base)
                &&& op_valid(op)
                &&& final(self).registers == (CPURegisters {
                    pc: AbsoluteAddress(wrap16(base + operand_len(row.kind))),
                    ..old(self).registers
                })
            }),
    {
        match opcode {
            0xC0 => OpCode::new(
                InstructionType::CPY,
                AddressingMode::Immediate(self.registers.increment_pc()),
                2,
                opcode,
                false,
            ),
            0xC1 => OpCode::new(
                InstructionType::CMP,
                AddressingMode::IndexedIndirect(ZeroPageAddress::from(self.next_byte(mem))),
                6,
                opcode,
                false,
            ),
            0xC2 => OpCode::new(InstructionType::JAM, AddressingMode::Implicit, 2, opcode, true),
            0xC3 => OpCode::new(
                InstructionType::DCP,
                AddressingMode::IndexedIndirect(ZeroPageAddress::from(self.next_byte(mem))),
                8,
                opcode,
                true,
            ),
            0xC4 => OpCode::new(
                InstructionType::CPY,
                AddressingMode::ZeroPage(ZeroPageAddress::from(self.next_byte(mem))),
                3,
                opcode,
                false,
            ),
            0xC5 => OpCode::new(
                InstructionType::CMP,
                AddressingMode::ZeroPage(ZeroPageAddress::from(self.next_byte(mem))),
                3,
                opcode,
                false,
            ),
            0xC6 => OpCode::new(
                InstructionType::DEC,
                AddressingMode::ZeroPage(ZeroPageAddress::from(self.next_byte(mem))),
                5,
                opcode,
                false,
            ),
            0xC7 => OpCode::new(
                InstructionType::DCP,
                AddressingMode::ZeroPage(ZeroPageAddress::from(self.next_byte(mem))),
                5,
                opcode,
                true,
            ),
            0xC8 => OpCode::new(
                InstructionType::INY,
                AddressingMode::Implicit,
                2,
                opcode,
                false,
            ),
            0xC9 => OpCode::new(
                InstructionType::CMP,
                AddressingMode::Immediate(self.registers.increment_pc()),
                2,
                opcode,
                false,
            ),
            0xCA => OpCode::new(
                InstructionType::DEX,
                AddressingMode::Implicit,
                2,
                opcode,
                false,
            ),
            0xCB => OpCode::new(InstructionType::JAM, AddressingMode::Implicit, 2, opcode, true),
            0xCC => OpCode::new(
                InstructionType::CPY,
                AddressingMode::Absolute(self.next_short(mem)),
                4,
                opcode,
                false,
            ),
            0xCD => OpCode::new(
                InstructionType::CMP,
                AddressingMode::Absolute(self.next_short(mem)),
                4,
                opcode,
                false,
            ),
            0xCE => OpCode::new(
                InstructionType::DEC,
                AddressingMode::Absolute(self.next_short(mem)),
                6,
                opcode,
                false,
            ),
            0xCF => OpCode::new(
                InstructionType::DCP,
                AddressingMode::Absolute(self.next_short(mem)),
                6,
                opcode,
                true,
            ),
            0xD0 => OpCode::new(
                InstructionType::BNE,
                AddressingMode::Relative(RelativeAddress::from(to_signed(self.next_byte(mem)))),
                2,
                opcode,
                false,
            ),
            0xD1 => OpCode::new(
                InstructionType::CMP,
                AddressingMode::IndirectIndexed(ZeroPageAddress::from(self.next_byte(mem))),
                5,
                opcode,
                false,
            ),
            0xD2 => OpCode::new(InstructionType::JAM, AddressingMode::Implicit, 2, opcode, true),
            0xD3 => OpCode::new(
                InstructionType::DCP,
                AddressingMode::IndirectIndexed(ZeroPageAddress::from(self.next_byte(mem))),
                8,
                opcode,
                true,
            ),
            0xD4 => OpCode::new(
                InstructionType::NOP,
                AddressingMode::ZeroPageX(ZeroPageAddress::from(self.next_byte(mem))),
                4,
                opcode,
                true,
            ),
            0xD5 => OpCode::new(
                InstructionType::CMP,
                AddressingMode::ZeroPageX(ZeroPageAddress::from(self.next_byte(mem))),
                4,
                opcode,
                false,
            ),
            0xD6 => OpCode::new(
                InstructionType::DEC,
                AddressingMode::ZeroPageX(ZeroPageAddress::from(self.next_byte(mem))),
                6,
                opcode,
                false,
            ),
            0xD7 => OpCode::new(
                InstructionType::DCP,
                AddressingMode::ZeroPageX(ZeroPageAddress::from(self.next_byte(mem))),
                6,
                opcode,
                true,
            ),
            0xD8 => OpCode::new(
                InstructionType::CLD,
                AddressingMode::Implicit,
                2,
                opcode,
                false,
            ),
            0xD9 => OpCode::new(
                InstructionType::CMP,
                AddressingMode::AbsoluteY(self.next_short(mem)),
                4,
                opcode,
                false,
            ),
            0xDA => OpCode::new(
                InstructionType::NOP,
                AddressingMode::Implicit,
                2,
                opcode,
                true,
            ),
            0xDB => OpCode::new(
                InstructionType::DCP,
                AddressingMode::AbsoluteY(self.next_short(mem)),
                7,
                opcode,
                true,
            ),
            0xDC => OpCode::new(
                InstructionType::NOP,
                AddressingMode::AbsoluteX(self.next_short(mem)),
                4,
                opcode,
                true,
            ),
            0xDD => OpCode::new(
                InstructionType::CMP,
                AddressingMode::AbsoluteX(self.next_short(mem)),
                4,
                opcode,
                false,
            ),
            0xDE => OpCode::new(
                InstructionType::DEC,
                AddressingMode::AbsoluteX(self.next_short(mem)),
                7,
                opcode,
                false,
            ),
            0xDF => OpCode::new(
                InstructionType::DCP,
                AddressingMode::AbsoluteX(self.next_short(mem)),
                7,
                opcode,
                true,
            ),
            _ => {
                // Every byte in this group has an arm above.
                proof {
                    assert(false);
                }
                OpCode::new(InstructionType::JAM, AddressingMode::Implicit, 2, opcode, true)
            },
        }
    }

    #[verifier::rlimit(100)]
    fn decode_e0(&mut self, mem: &RamController, opcode: u8) -> (op: OpCode)
        requires
            mem.wf(),
            0xE0 <= opcode < 0x100,
        ensures
            ({
                let s = mem@;
                let base = old(self).registers.pc.0;
                let row = opcode_row(opcode);
                &&& op == spec_op_from(opcode, s, base)
                &&& op.code == opcode
                &&& op.instruction == row.instruction
                &&& kind_of(op.mode) == row.kind
                &&& op.cycles == row.cycles
                &&& 2 <= op.cycles <= 8
                &&& op.is_unofficial == row.is_unofficial
                &&& mode_operand_ok(op.mode, s, base)
                &&& op_valid(op)
                &&& final(self).registers == (CPURegisters {
                    pc: AbsoluteAddress(wrap16(base + operand_len(row.kind))),
                    ..old(self).registers
                })
            }),
    {
        match opcode {
            0xE0 => OpCode::new(
                InstructionType::CPX,
                AddressingMode::Immediate(self.registers.increment_pc()),
                2,
                opcode,
                false,
            ),
            0xE1 => OpCode::new(
                InstructionType::SBC,
                AddressingMode::IndexedIndirect(ZeroPageAddress::from(self.next_byte(mem))),
                6,
                opcode,
                false,
            ),
            0xE2 => OpCode::new(InstructionType::JAM, AddressingMode::Implicit, 2, opcode, true),
            0xE3 => OpCode::new(
                InstructionType::ISB,
                AddressingMode::IndexedIndirect(ZeroPageAddress::from(self.next_byte(mem))),
                8,
                opcode,
                true,
            ),
            0xE4 => OpCode::new(
                InstructionType::CPX,
                AddressingMode::ZeroPage(ZeroPageAddress::from(self.next_byte(mem))),
                3,
                opcode,
                false,
            ),
            0xE5 => OpCode::new(
                InstructionType::SBC,
                AddressingMode::ZeroPage(ZeroPageAddress::from(self.next_byte(mem))),
                3,
                opcode,
                false,
            ),
            0xE6 => OpCode::new(
                InstructionType::INC,
                AddressingMode::ZeroPage(ZeroPageAddress::from(self.next_byte(mem))),
                5,
                opcode,
                false,
            ),
            0xE7 => OpCode::new(
                InstructionType::ISB,
                AddressingMode::ZeroPage(ZeroPageAddress::from(self.next_byte(mem))),
                5,
                opcode,
                true,
            ),
            0xE8 => OpCode::new(
                InstructionType::INX,
                AddressingMode::Implicit,
                2,
                opcode,
                false,
            ),
            0xE9 => OpCode::new(
                InstructionType::SBC,
                AddressingMode::Immediate(self.registers.increment_pc()),
                2,
                opcode,
                false,
            ),
            0xEA => OpCode::new(
                InstructionType::NOP,
                AddressingMode::Implicit,
                2,
                opcode,
                false,
            ),
            0xEB => OpCode::new(
                InstructionType::SBC,
                AddressingMode::Immediate(self.registers.increment_pc()),
                2,
                opcode,
                true,
            ),
            0xEC => OpCode::new(
                InstructionType::CPX,
                AddressingMode::Absolute(self.next_short(mem)),
                4,
                opcode,
                false,
            ),
            0xED => OpCode::new(
                InstructionType::SBC,
                AddressingMode::Absolute(self.next_short(mem)),
                4,
                opcode,
                false,
            ),
            0xEE => OpCode::new(
                InstructionType::INC,
                AddressingMode::Absolute(self.next_short(mem)),
                6,
                opcode,
                false,
            ),
            0xEF => OpCode::new(
                InstructionType::ISB,
                AddressingMode::Absolute(self.next_short(mem)),
                6,
                opcode,
                true,
            ),
            0xF0 => OpCode::new(
                InstructionType::BEQ,
                AddressingMode::Relative(RelativeAddress::from(to_signed(self.next_byte(mem)))),
                2,
                opcode,
                false,
            ),
            0xF1 => OpCode::new(
                InstructionType::SBC,
                AddressingMode::IndirectIndexed(ZeroPageAddress::from(self.next_byte(mem))),
                5,
                opcode,
                false,
            ),
            0xF2 => OpCode::new(InstructionType::JAM, AddressingMode::Implicit, 2, opcode, true),
            0xF3 => OpCode::new(
                InstructionType::ISB,
                AddressingMode::IndirectIndexed(ZeroPageAddress::from(self.next_byte(mem))),
                8,
                opcode,
                true,
            ),
            0xF4 => OpCode::new(
                InstructionType::NOP,
                AddressingMode::ZeroPageX(ZeroPageAddress::from(self.next_byte(mem))),
                4,
                opcode,
                true,
            ),
            0xF5 => OpCode::new(
                InstructionType::SBC,
                AddressingMode::ZeroPageX(ZeroPageAddress::from(self.next_byte(mem))),
                4,
                opcode,
                false,
            ),
            0xF6 => OpCode::new(
                InstructionType::INC,
                AddressingMode::ZeroPageX(ZeroPageAddress::from(self.next_byte(mem))),
                6,
                opcode,
                false,
            ),
            0xF7 => OpCode::new(
                InstructionType::ISB,
                AddressingMode::ZeroPageX(ZeroPageAddress::from(self.next_byte(mem))),
                6,
                opcode,
                true,
            ),
            0xF8 => OpCode::new(
                InstructionType::SED,
                AddressingMode::Implicit,
                2,
                opcode,
                false,
            ),
            0xF9 => OpCode::new(
                InstructionType::SBC,
                AddressingMode::AbsoluteY(self.next_short(mem)),
                4,
                opcode,
                false,
            ),
            0xFA => OpCode::new(
                InstructionType::NOP,
                AddressingMode::Implicit,
                2,
                opcode,
                true,
            ),
            0xFB => OpCode::new(
                InstructionType::ISB,
                AddressingMode::AbsoluteY(self.next_short(mem)),
                7,
                opcode,
                true,
            ),
            0xFC => OpCode::new(
                InstructionType::NOP,
                AddressingMode::AbsoluteX(self.next_short(mem)),
                4,
                opcode,
                true,
            ),
            0xFD => OpCode::new(
                InstructionType::SBC,
                AddressingMode::AbsoluteX(self.next_short(mem)),
                4,
                opcode,
                false,
            ),
            0xFE => OpCode::new(
                InstructionType::INC,
                AddressingMode::AbsoluteX(self.next_short(mem)),
                7,
                opcode,
                false,
            ),
            0xFF => OpCode::new(
                InstructionType::ISB,
                AddressingMode::AbsoluteX(self.next_short(mem)),
                7,
                opcode,
                true,
            ),
            _ => {
                // Every byte in this group has an arm above.
                proof {
                    assert(false);
                }
                OpCode::new(InstructionType::JAM, AddressingMode::Implicit, 2, opcode, true)
            },
        }
    }

    /// Fetch and decode one instruction at PC.
    ///
    /// The returned record matches the opcode table row for the fetched
    /// byte; the embedded operand equals the bytes that follow it, and
    /// the PC ends just past the instruction.
    pub fn decode(&mut self, mem: &RamController) -> (op: OpCode)
        requires
            mem.wf(),
        ensures
            ({
                let s = mem@;
                let pc0 = old(self).registers.pc.0;
                let base = wrap16(pc0 + 1);
                let row = opcode_row(raw_byte(s, pc0));
                &&& op == spec_decoded_op(s, pc0)
                &&& op.code == raw_byte(s, pc0)
                &&& op.instruction == row.instruction
                &&& kind_of(op.mode) == row.kind
                &&& op.cycles == row.cycles
                &&& 2 <= op.cycles <= 8
                &&& op.is_unofficial == row.is_unofficial
                &&& mode_operand_ok(op.mode, s, base)
                &&& op_valid(op)
                &&& final(self).registers == (CPURegisters {
                    pc: AbsoluteAddress(wrap16(base + operand_len(row.kind))),
                    ..old(self).registers
                })
            }),
    {
        let opcode = self.next_byte(mem);
        if opcode < 0x20 {
            self.decode_00(mem, opcode)
        } else if opcode < 0x40 {
            self.decode_20(mem, opcode)
        } else if opcode < 0x60 {
            self.decode_40(mem, opcode)
        } else if opcode < 0x80 {
            self.decode_60(mem, opcode)
        } else if opcode < 0xA0 {
            self.decode_80(mem, opcode)
        } else if opcode < 0xC0 {
            self.decode_a0(mem, opcode)
        } else if opcode < 0xE0 {
            self.decode_c0(mem, opcode)
        } else {
            self.decode_e0(mem, opcode)
        }
    }

    /// Execute one decoded instruction: dispatch to its executor and
    /// return the total cycle count, base plus any addressing, branch or
    /// DMA penalty. The effect on registers and bus is exactly the
    /// instruction relation's arm for the mnemonic.
    #[verifier::rlimit(100)]
    pub fn process(&mut self, mem: &mut RamController, op: OpCode) -> (cycles: i32)
        requires
            op_valid(op),
            2 <= op.cycles <= 8,
            old(self).registers.wf(),
            old(mem).wf(),
        ensures
            final(self).registers.wf(),
            final(mem).wf(),
            op.cycles <= cycles <= op.cycles + 513,
            spec_instr(
                op,
                old(self).registers,
                old(mem)@,
                final(self).registers,
                final(mem)@,
                cycles - op.cycles,
            ),
    {
        proof {
            reveal(spec_instr);
            reveal(spec_instr_effect);
        }
        let extra = match op.instruction {
            InstructionType::ADC => opcodes::adc(&mut self.registers, mem, &op.mode),
            InstructionType::AND => opcodes::and(&mut self.registers, mem, &op.mode),
            InstructionType::ASL => opcodes::asl(&mut self.registers, mem, &op.mode),
            InstructionType::BCC => opcodes::bcc(&mut self.registers, mem, &op.mode),
            InstructionType::BCS => opcodes::bcs(&mut self.registers, mem, &op.mode),
            InstructionType::BEQ => opcodes::beq(&mut self.registers, mem, &op.mode),
            InstructionType::BIT => opcodes::bit(&mut self.registers, mem, &op.mode),
            InstructionType::BMI => opcodes::bmi(&mut self.registers, mem, &op.mode),
            InstructionType::BNE => opcodes::bne(&mut self.registers, mem, &op.mode),
            InstructionType::BPL => opcodes::bpl(&mut self.registers, mem, &op.mode),
            InstructionType::BRK => opcodes::brk(&mut self.registers, mem, &op.mode),
            InstructionType::BVC => opcodes::bvc(&mut self.registers, mem, &op.mode),
            InstructionType::BVS => opcodes::bvs(&mut self.registers, mem, &op.mode),
            InstructionType::CLC => opcodes::clc(&mut self.registers, mem, &op.mode),
            InstructionType::CLD => opcodes::cld(&mut self.registers, mem, &op.mode),
            InstructionType::CLI => opcodes::cli(&mut self.registers, mem, &op.mode),
            InstructionType::CLV => opcodes::clv(&mut self.registers, mem, &op.mode),
            InstructionType::CMP => opcodes::cmp(&mut self.registers, mem, &op.mode),
            InstructionType::CPX => opcodes::cpx(&mut self.registers, mem, &op.mode),
            InstructionType::CPY => opcodes::cpy(&mut self.registers, mem, &op.mode),
            InstructionType::DCP => opcodes::dcp(&mut self.registers, mem, &op.mode),
            InstructionType::DEC => opcodes::dec(&mut self.registers, mem, &op.mode),
            InstructionType::DEX => opcodes::dex(&mut self.registers, mem, &op.mode),
            InstructionType::DEY => opcodes::dey(&mut self.registers, mem, &op.mode),
            InstructionType::EOR => opcodes::eor(&mut self.registers, mem, &op.mode),
            InstructionType::INC => opcodes::inc(&mut self.registers, mem, &op.mode),
            InstructionType::INX => opcodes::inx(&mut self.registers, mem, &op.mode),
            InstructionType::INY => opcodes::iny(&mut self.registers, mem, &op.mode),
            InstructionType::ISB => opcodes::isc(&mut self.registers, mem, &op.mode),
            InstructionType::JAM => 0,
            InstructionType::JMP => opcodes::jmp(&mut self.registers, mem, &op.mode),
            InstructionType::JSR => opcodes::jsr(&mut self.registers, mem, &op.mode),
            InstructionType::LAX => opcodes::lax(&mut self.registers, mem, &op.mode),
            InstructionType::LDA => opcodes::lda(&mut self.registers, mem, &op.mode),
            InstructionType::LDX => opcodes::ldx(&mut self.registers, mem, &op.mode),
            InstructionType::LDY => opcodes::ldy(&mut self.registers, mem, &op.mode),
            InstructionType::LSR => opcodes::lsr(&mut self.registers, mem, &op.mode),
            InstructionType::NOP => opcodes::nop(&mut self.registers, mem, &op.mode),
            InstructionType::ORA => opcodes::ora(&mut self.registers, mem, &op.mode),
            InstructionType::PHA => opcodes::pha(&mut self.registers, mem, &op.mode),
            InstructionType::PHP => opcodes::php(&mut self.registers, mem, &op.mode),
            InstructionType::PLA => opcodes::pla(&mut self.registers, mem, &op.mode),
            InstructionType::PLP => opcodes::plp(&mut self.registers, mem, &op.mode),
            InstructionType::RLA => opcodes::rla(&mut self.registers, mem, &op.mode),
            InstructionType::RRA => opcodes::rra(&mut self.registers, mem, &op.mode),
            InstructionType::ROL => opcodes::rol(&mut self.registers, mem, &op.mode),
            InstructionType::ROR => opcodes::ror(&mut self.registers, mem, &op.mode),
            InstructionType::RTI => opcodes::rti(&mut self.registers, mem, &op.mode),
            InstructionType::RTS => opcodes::rts(&mut self.registers, mem, &op.mode),
            InstructionType::SAX => opcodes::sax(&mut self.registers, mem, &op.mode),
            InstructionType::SBC => opcodes::sbc(&mut self.registers, mem, &op.mode),
            InstructionType::SEC => opcodes::sec(&mut self.registers, mem, &op.mode),
            InstructionType::SED => opcodes::sed(&mut self.registers, mem, &op.mode),
            InstructionType::SEI => opcodes::sei(&mut self.registers, mem, &op.mode),
            InstructionType::SLO => opcodes::slo(&mut self.registers, mem, &op.mode),
            InstructionType::SRE => opcodes::sre(&mut self.registers, mem, &op.mode),
            InstructionType::STA => opcodes::sta(&mut self.registers, mem, &op.mode),
            InstructionType::STX => opcodes::stx(&mut self.registers, mem, &op.mode),
            InstructionType::STY => opcodes::sty(&mut self.registers, mem, &op.mode),
            InstructionType::TAX => opcodes::tax(&mut self.registers, mem, &op.mode),
            InstructionType::TAY => opcodes::tay(&mut self.registers, mem, &op.mode),
            InstructionType::TSX => opcodes::tsx(&mut self.registers, mem, &op.mode),
            InstructionType::TXA => opcodes::txa(&mut self.registers, mem, &op.mode),
            InstructionType::TXS => opcodes::txs(&mut self.registers, mem, &op.mode),
            InstructionType::TYA => opcodes::tya(&mut self.registers, mem, &op.mode),
        };
        extra + op.cycles
    }
}

} // verus!
