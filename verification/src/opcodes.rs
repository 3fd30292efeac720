//! Addressing-mode types for the 6502 core: zero-page, absolute and
//! relative addresses, the addressing-mode sum type, and the decoded
//! opcode record.

use vstd::prelude::*;
use crate::cpuregisters::{
    CPURegisters, CPUFlags, with_flag, with_zn, flag_is_set,
};
use crate::ram_controller::{
    RamController, BusView, bus_read_val, bus_read_step, bus_write_step, bus_write_cost, raw_byte,
};
use crate::stack;
use crate::stack::{spec_push_regs, spec_push_bus, spec_pop_regs, spec_pop_val};
use crate::{wrap8, wrap16, same_page};

verus! {

/// An address within the zero page ($00xx).
#[derive(Clone, Copy, PartialEq, Eq, Structural, Debug)]
pub struct ZeroPageAddress(pub u8);

/// A full 16-bit address in the CPU address space.
#[derive(Clone, Copy, PartialEq, Eq, Structural, Debug)]
pub struct AbsoluteAddress(pub u16);

/// A signed branch displacement.
#[derive(Clone, Copy, PartialEq, Eq, Structural, Debug)]
pub struct RelativeAddress(pub i8);

impl ZeroPageAddress {
    pub fn from(addr: u8) -> (r: ZeroPageAddress)
        ensures
            r.0 == addr,
    {
        ZeroPageAddress(addr)
    }

    /// The zero-page address seen as a full 16-bit address.
    pub fn absolute(&self) -> (r: AbsoluteAddress)
        ensures
            r.0 == self.0,
    {
        AbsoluteAddress(self.0 as u16)
    }

    /// Indexing within the zero page wraps at $FF.
    pub fn offset(&self, val: u8) -> (r: ZeroPageAddress)
        ensures
            r.0 == wrap8(self.0 + val),
    {
        ZeroPageAddress(self.0.wrapping_add(val))
    }
}

impl AbsoluteAddress {
    pub fn from(addr: u16) -> (r: AbsoluteAddress)
        ensures
            r.0 == addr,
    {
        AbsoluteAddress(addr)
    }

    /// Compose an address from its little-endian halves.
    pub fn from_u8(low: u8, high: u8) -> (r: AbsoluteAddress)
        ensures
            r.0 == high * 256 + low,
    {
        AbsoluteAddress((high as u16) * 256 + low as u16)
    }

    pub fn low(&self) -> (r: u8)
        ensures
            r == self.0 % 256,
    {
        (self.0 % 256) as u8
    }

    pub fn high(&self) -> (r: u8)
        ensures
            r == self.0 / 256,
    {
        (self.0 / 256) as u8
    }

    pub fn to_u16(&self) -> (r: u16)
        ensures
            r == self.0,
    {
        self.0
    }

    /// Add a displacement, wrapping around the 16-bit address space.
    pub fn offset_wrap(&self, value: i16) -> (r: AbsoluteAddress)
        ensures
            r.0 == wrap16(self.0 + value),
    {
        AbsoluteAddress(self.0.wrapping_add_signed(value))
    }

    /// Add a signed 8-bit displacement, wrapping around the address space.
    pub fn offset(&self, value: i8) -> (r: AbsoluteAddress)
        ensures
            r.0 == wrap16(self.0 + value),
    {
        AbsoluteAddress(self.0.wrapping_add_signed(value as i16))
    }
}

impl RelativeAddress {
    pub fn from(addr: i8) -> (r: RelativeAddress)
        ensures
            r.0 == addr,
    {
        RelativeAddress(addr)
    }

    pub fn to_i8(&self) -> (r: i8)
        ensures
            r == self.0,
    {
        self.0
    }
}

/// The 6502 instruction mnemonics, official and documented-unofficial.
/// JAM stands for the remaining undefined opcodes, which this core treats
/// as halting no-ops.
#[derive(Clone, Copy, PartialEq, Eq, Structural, Debug)]
pub enum InstructionType {
    ADC,
    AND,
    ASL,
    BCC,
    BCS,
    BEQ,
    BIT,
    BMI,
    BNE,
    BPL,
    BRK,
    BVC,
    BVS,
    CLC,
    CLD,
    CLI,
    CLV,
    CMP,
    CPX,
    CPY,
    DCP,
    DEC,
    DEX,
    DEY,
    EOR,
    INC,
    INX,
    INY,
    ISB,
    JAM,
    JMP,
    JSR,
    LAX,
    LDA,
    LDX,
    LDY,
    LSR,
    NOP,
    ORA,
    PHA,
    PHP,
    PLA,
    PLP,
    RLA,
    RRA,
    ROL,
    ROR,
    RTI,
    RTS,
    SAX,
    SBC,
    SEC,
    SED,
    SEI,
    SLO,
    SRE,
    STA,
    STX,
    STY,
    TAX,
    TAY,
    TSX,
    TXA,
    TXS,
    TYA,
}

/// An addressing mode together with its decoded operand.
#[derive(Clone, Copy, PartialEq, Eq, Structural, Debug)]
pub enum AddressingMode {
    Implicit,
    Accumulator,
    /// The operand is the byte at this address (the slot after the opcode).
    Immediate(AbsoluteAddress),
    /// JMP only: the target is the little-endian word this address points at.
    Indirect(AbsoluteAddress),
    ZeroPage(ZeroPageAddress),
    ZeroPageX(ZeroPageAddress),
    ZeroPageY(ZeroPageAddress),
    Relative(RelativeAddress),
    Absolute(AbsoluteAddress),
    AbsoluteX(AbsoluteAddress),
    AbsoluteY(AbsoluteAddress),
    IndexedIndirect(ZeroPageAddress),
    IndirectIndexed(ZeroPageAddress),
}

/// Modes from which an operand value can be fetched.
pub open spec fn is_value_mode(m: AddressingMode) -> bool {
    m matches AddressingMode::Accumulator || is_mem_mode(m)
}

/// Modes that resolve to a memory address.
pub open spec fn is_mem_mode(m: AddressingMode) -> bool {
    ||| m matches AddressingMode::Immediate(_)
    ||| m matches AddressingMode::Indirect(_)
    ||| m matches AddressingMode::ZeroPage(_)
    ||| m matches AddressingMode::ZeroPageX(_)
    ||| m matches AddressingMode::ZeroPageY(_)
    ||| m matches AddressingMode::Absolute(_)
    ||| m matches AddressingMode::AbsoluteX(_)
    ||| m matches AddressingMode::AbsoluteY(_)
    ||| m matches AddressingMode::IndexedIndirect(_)
    ||| m matches AddressingMode::IndirectIndexed(_)
}

/// Modes an instruction may write its result through.
pub open spec fn is_writable_mode(m: AddressingMode) -> bool {
    ||| m matches AddressingMode::Accumulator
    ||| m matches AddressingMode::ZeroPage(_)
    ||| m matches AddressingMode::ZeroPageX(_)
    ||| m matches AddressingMode::ZeroPageY(_)
    ||| m matches AddressingMode::Absolute(_)
    ||| m matches AddressingMode::AbsoluteX(_)
    ||| m matches AddressingMode::AbsoluteY(_)
    ||| m matches AddressingMode::IndexedIndirect(_)
    ||| m matches AddressingMode::IndirectIndexed(_)
}

/// The effective address and page-crossing flag of a memory mode.
///
/// Pointer bytes (indirect modes) are raw fetches from main memory.
/// Indirect preserves the 6502 page-wrap defect: a pointer at $xxFF takes
/// its high byte from $xx00. The indexed zero-page and pointer reads wrap
/// within the zero page.
pub open spec fn spec_resolve(s: BusView, regs: CPURegisters, m: AddressingMode) -> Option<
    (u16, bool),
> {
    match m {
        AddressingMode::Immediate(a) => Some((a.0, false)),
        AddressingMode::Indirect(a) => {
            let high_src: u16 = if a.0 % 256 == 0xFF {
                (a.0 - 0xFF) as u16
            } else {
                wrap16(a.0 + 1)
            };
            Some(((raw_byte(s, a.0) + raw_byte(s, high_src) * 256) as u16, false))
        },
        AddressingMode::ZeroPage(z) => Some((z.0 as u16, false)),
        AddressingMode::ZeroPageX(z) => Some((wrap8(z.0 + regs.x) as u16, false)),
        AddressingMode::ZeroPageY(z) => Some((wrap8(z.0 + regs.y) as u16, false)),
        AddressingMode::Absolute(a) => Some((a.0, false)),
        AddressingMode::AbsoluteX(a) => Some(
            (wrap16(a.0 + regs.x), a.0 % 256 + regs.x > 0xFF),
        ),
        AddressingMode::AbsoluteY(a) => Some(
            (wrap16(a.0 + regs.y), a.0 % 256 + regs.y > 0xFF),
        ),
        AddressingMode::IndexedIndirect(z) => {
            let ptr = wrap8(z.0 + regs.x);
            let low = raw_byte(s, ptr as u16);
            let high = raw_byte(s, wrap8(ptr + 1) as u16);
            Some(((low + high * 256) as u16, false))
        },
        AddressingMode::IndirectIndexed(z) => {
            let low = raw_byte(s, z.0 as u16);
            let high = raw_byte(s, wrap8(z.0 + 1) as u16);
            let base = low + high * 256;
            Some((wrap16(base + regs.y), low + regs.y > 0xFF))
        },
        _ => None,
    }
}

/// The effective address of a memory mode.
pub open spec fn spec_ea(s: BusView, regs: CPURegisters, m: AddressingMode) -> u16 {
    spec_resolve(s, regs, m)->Some_0.0
}

/// Whether resolving the mode crossed a page boundary.
pub open spec fn spec_crossed(s: BusView, regs: CPURegisters, m: AddressingMode) -> bool {
    match spec_resolve(s, regs, m) {
        Some(r) => r.1,
        None => false,
    }
}

/// The operand value a value mode yields: the accumulator, or a
/// dispatching bus read at the effective address.
pub open spec fn spec_operand_val(s: BusView, regs: CPURegisters, m: AddressingMode) -> u8 {
    if (m matches AddressingMode::Accumulator) {
        regs.accumulator
    } else {
        bus_read_val(s, spec_ea(s, regs, m))
    }
}

/// The bus after fetching the operand (reads of PPUSTATUS and PPUDATA
/// have side effects).
pub open spec fn spec_operand_step(s: BusView, regs: CPURegisters, m: AddressingMode) -> BusView {
    if (m matches AddressingMode::Accumulator) {
        s
    } else {
        bus_read_step(s, spec_ea(s, regs, m))
    }
}

/// The bus after an instruction writes `v` through the mode.
pub open spec fn spec_store_step(s: BusView, regs: CPURegisters, m: AddressingMode, v: u8) -> BusView {
    if (m matches AddressingMode::Accumulator) {
        s
    } else {
        bus_write_step(s, spec_ea(s, regs, m), v)
    }
}

/// The cycle penalty of writing through the mode (OAM DMA stalls).
pub open spec fn spec_store_cost(s: BusView, regs: CPURegisters, m: AddressingMode) -> int {
    if (m matches AddressingMode::Accumulator) {
        0
    } else {
        bus_write_cost(spec_ea(s, regs, m))
    }
}

/// An effective address together with the page-crossing flag.
pub struct AddressingResult {
    pub address: AbsoluteAddress,
    pub page_boundary_crossed: bool,
}

/// A fetched operand: its value, its address when it came from memory,
/// and the page-crossing flag.
pub struct ValueAddressingResult {
    pub address: Option<AbsoluteAddress>,
    pub value: u8,
    pub page_boundary_crossed: bool,
}

/// Absolute indexed addressing: add the index to the low byte and carry
/// into the high byte, noting the page crossing.
fn absolute_indexed(address: &AbsoluteAddress, index: u8) -> (r: AddressingResult)
    ensures
        r.address.0 == wrap16(address.0 + index),
        r.page_boundary_crossed == (address.0 % 256 + index > 0xFF),
{
    let low = address.low();
    let high = address.high();
    let new_low = low.wrapping_add(index);
    let page_boundary_crossed = new_low < index;
    let new_high = if page_boundary_crossed {
        high.wrapping_add(1)
    } else {
        high
    };
    AddressingResult {
        page_boundary_crossed,
        address: AbsoluteAddress::from_u8(new_low, new_high),
    }
}

/// Resolve a memory mode to its effective address.
#[verifier::rlimit(60)]
pub fn resolve_address(regs: &CPURegisters, mem: &RamController, mode: &AddressingMode) -> (r:
    Option<AddressingResult>)
    requires
        mem.wf(),
    ensures
        r is Some <==> is_mem_mode(*mode),
        r is Some ==> {
            let rr = r->Some_0;
            &&& Some((rr.address.0, rr.page_boundary_crossed)) == spec_resolve(
                mem@,
                *regs,
                *mode,
            )
        },
{
    match mode {
        AddressingMode::Absolute(address) => Some(
            AddressingResult { address: *address, page_boundary_crossed: false },
        ),
        AddressingMode::Indirect(address) => {
            // The original 6502 never carries into the pointer's high
            // byte: a pointer at $xxFF takes its high byte from $xx00.
            let address_high = if address.low() == 0xFF {
                AbsoluteAddress::from_u8(0x00, address.high())
            } else {
                address.offset_wrap(1)
            };
            let low = mem.read8x(address);
            let high = mem.read8x(&address_high);
            Some(
                AddressingResult {
                    address: AbsoluteAddress::from_u8(low, high),
                    page_boundary_crossed: false,
                },
            )
        },
        AddressingMode::ZeroPage(address) => Some(
            AddressingResult { address: address.absolute(), page_boundary_crossed: false },
        ),
        AddressingMode::ZeroPageX(address) => Some(
            AddressingResult {
                address: address.offset(regs.x()).absolute(),
                page_boundary_crossed: false,
            },
        ),
        AddressingMode::ZeroPageY(address) => Some(
            AddressingResult {
                address: address.offset(regs.y()).absolute(),
                page_boundary_crossed: false,
            },
        ),
        AddressingMode::AbsoluteX(address) => Some(absolute_indexed(address, regs.x())),
        AddressingMode::AbsoluteY(address) => Some(absolute_indexed(address, regs.y())),
        AddressingMode::IndexedIndirect(address) => {
            let zero_page_address = address.offset(regs.x());
            let low = mem.read8x(&zero_page_address.absolute());
            let high = mem.read8x(&zero_page_address.offset(1).absolute());
            Some(
                AddressingResult {
                    address: AbsoluteAddress::from_u8(low, high),
                    page_boundary_crossed: false,
                },
            )
        },
        AddressingMode::IndirectIndexed(address) => {
            let low = mem.read8x(&address.absolute());
            let high = mem.read8x(&address.offset(1).absolute());
            let new_low = low.wrapping_add(regs.y());
            let page_boundary_crossed = new_low < regs.y();
            let new_high = if page_boundary_crossed {
                high.wrapping_add(1)
            } else {
                high
            };
            Some(
                AddressingResult {
                    page_boundary_crossed,
                    address: AbsoluteAddress::from_u8(new_low, new_high),
                },
            )
        },
        AddressingMode::Immediate(address) => Some(
            AddressingResult { address: *address, page_boundary_crossed: false },
        ),
        _ => None,
    }
}

/// The branch displacement of a relative mode.
pub fn resolve_relative(mode: &AddressingMode) -> (r: RelativeAddress)
    requires
        *mode matches AddressingMode::Relative(_),
    ensures
        *mode == AddressingMode::Relative(r),
{
    match mode {
        AddressingMode::Relative(address) => *address,
        _ => {
            // Excluded by the precondition.
            proof {
                assert(false);
            }
            RelativeAddress(0)
        },
    }
}

/// Fetch the operand of a value mode, with any bus read side effect.
pub fn resolve_u8(regs: &CPURegisters, mem: &mut RamController, mode: &AddressingMode) -> (r:
    ValueAddressingResult)
    requires
        is_value_mode(*mode),
        old(mem).wf(),
    ensures
        final(mem).wf(),
        r.value == spec_operand_val(old(mem)@, *regs, *mode),
        final(mem)@ == spec_operand_step(old(mem)@, *regs, *mode),
        r.page_boundary_crossed == spec_crossed(old(mem)@, *regs, *mode),
        r.address is Some <==> is_mem_mode(*mode),
        r.address is Some ==> r.address->Some_0.0 == spec_ea(old(mem)@, *regs, *mode),
{
    match mode {
        AddressingMode::Accumulator => ValueAddressingResult {
            address: None,
            value: regs.accumulator(),
            page_boundary_crossed: false,
        },
        _ => {
            let result = resolve_address(regs, mem, mode).unwrap();
            let value = mem.read8(result.address.to_u16());
            ValueAddressingResult {
                address: Some(result.address),
                value,
                page_boundary_crossed: result.page_boundary_crossed,
            }
        },
    }
}

/// A decoded instruction: mnemonic, addressing mode with operand, base
/// cycle count, the opcode byte, and whether it is a documented
/// unofficial opcode.
pub struct OpCode {
    pub instruction: InstructionType,
    pub mode: AddressingMode,
    pub cycles: i32,
    pub code: u8,
    pub is_unofficial: bool,
}

impl OpCode {
    pub fn new(
        instruction: InstructionType,
        mode: AddressingMode,
        cycles: i32,
        code: u8,
        is_unofficial: bool,
    ) -> (r: OpCode)
        ensures
            r == (OpCode { instruction, mode, cycles, code, is_unofficial }),
    {
        OpCode { instruction, mode, cycles, code, is_unofficial }
    }

    pub fn instruction(&self) -> (r: &InstructionType)
        ensures
            r == &self.instruction,
    {
        &self.instruction
    }

    pub fn mode(&self) -> (r: &AddressingMode)
        ensures
            r == &self.mode,
    {
        &self.mode
    }

    pub fn cycles(&self) -> (r: i32)
        ensures
            r == self.cycles,
    {
        self.cycles
    }

    pub fn code(&self) -> (r: u8)
        ensures
            r == self.code,
    {
        self.code
    }

    pub fn is_unofficial(&self) -> (r: bool)
        ensures
            r == self.is_unofficial,
    {
        self.is_unofficial
    }
}

/// Write an instruction result through a writable mode: to the
/// accumulator (refreshing Z and N), or through the bus.
pub fn set_u8(regs: &mut CPURegisters, mem: &mut RamController, mode: &AddressingMode, value: u8)
    -> (cycles: i32)
    requires
        is_writable_mode(*mode),
        old(mem).wf(),
    ensures
        final(mem).wf(),
        *final(regs) == if (*mode matches AddressingMode::Accumulator) {
            (CPURegisters {
                accumulator: value,
                status: crate::cpuregisters::with_zn(old(regs).status, value),
                ..*old(regs)
            })
        } else {
            *old(regs)
        },
        final(mem)@ == spec_store_step(old(mem)@, *old(regs), *mode, value),
        cycles == spec_store_cost(old(mem)@, *old(regs), *mode),
{
    match mode {
        AddressingMode::Accumulator => {
            regs.set_accumulator(value);
            0
        },
        _ => {
            let address = resolve_address(regs, mem, mode).unwrap().address;
            mem.write8x(&address, value)
        },
    }
}

/// Modes a pure store may write through (everything writable except the
/// accumulator).
pub open spec fn is_store_mode(m: AddressingMode) -> bool {
    is_writable_mode(m) && !(m matches AddressingMode::Accumulator)
}

/// Register file after a branch: the PC moves by the displacement when
/// the condition holds.
pub open spec fn spec_branch_regs(regs: CPURegisters, off: i8, cond: bool) -> CPURegisters {
    if cond {
        CPURegisters { pc: AbsoluteAddress(wrap16(regs.pc.0 + off)), ..regs }
    } else {
        regs
    }
}

/// Extra cycles of a branch: one when taken, one more when the taken
/// branch lands on a different page.
pub open spec fn spec_branch_cycles(pc: u16, off: i8, cond: bool) -> int {
    if !cond {
        0
    } else if !same_page(pc, wrap16(pc + off)) {
        2
    } else {
        1
    }
}

/// The accumulator after an add-with-carry of `value`.
pub open spec fn spec_adc_a(a: u8, value: u8, status: u8) -> u8 {
    wrap8(a + value + (status & 1))
}

/// The status after an add-with-carry: C from the 9th bit, V when both
/// addends share a sign the sum does not, Z and N from the result.
pub open spec fn spec_adc_status(a: u8, value: u8, status: u8) -> u8 {
    let sum = a + value + (status & 1);
    let new = wrap8(sum);
    with_zn(
        with_flag(
            with_flag(status, 0x01, sum > 0xFF),
            0x40,
            ((!(a ^ value)) & (a ^ new)) & 0x80 == 0x80,
        ),
        new,
    )
}

/// The status after a register/value comparison: C when the register is
/// at least the value, Z on equality, N from the wrapped difference.
pub open spec fn spec_cmp_status(status: u8, register_value: u8, value: u8) -> u8 {
    with_flag(
        with_flag(
            with_flag(status, 0x01, register_value >= value),
            0x02,
            register_value == value,
        ),
        0x80,
        wrap8(register_value - value) & 0x80 == 0x80,
    )
}

/// A taken branch costs 3 cycles in total (2 base + 1), or 4 when the
/// target lies on a different page from the pre-branch PC (2 base + 2).
pub proof fn lemma_branch_cost(pc: u16, off: i8, cond: bool)
    requires
        cond,
    ensures
        2 + spec_branch_cycles(pc, off, cond) == if same_page(pc, wrap16(pc + off)) {
            3int
        } else {
            4int
        },
{
}

/// ADC sets the overflow flag exactly when the accumulator and the
/// operand share a sign bit and the sum's sign bit differs from it.
pub proof fn lemma_adc_overflow(a: u8, m: u8, status: u8)
    ensures
        flag_is_set(spec_adc_status(a, m, status), 0x40) <==> ((a & 0x80) == (m & 0x80) && (
        spec_adc_a(a, m, status) & 0x80) != (a & 0x80)),
{
    let sum = a + m + (status & 1);
    let new = wrap8(sum);
    let s1 = with_flag(with_flag(status, 0x01, sum > 0xFF), 0x40, ((!(a ^ m)) & (a ^ new)) & 0x80
        == 0x80);
    assert(spec_adc_status(a, m, status) == with_zn(s1, new));
    // The Z and N updates leave bit 6 as the V update set it.
    assert forall|s: u8, z: bool, n: bool|
        flag_is_set(with_flag(with_flag(s, 0x02, z), 0x80, n), 0x40) == flag_is_set(
            s,
            0x40,
        ) by {
        let sz = with_flag(s, 0x02, z);
        assert((s | 0x02) & 0x40 == s & 0x40) by (bit_vector);
        assert((s & !0x02) & 0x40 == s & 0x40) by (bit_vector);
        assert((sz | 0x80) & 0x40 == sz & 0x40) by (bit_vector);
        assert((sz & !0x80) & 0x40 == sz & 0x40) by (bit_vector);
    }
    // Bit 6 of the V update reflects the overflow formula, which is the
    // sign statement in bit form.
    let v = ((!(a ^ m)) & (a ^ new)) & 0x80 == 0x80;
    assert(flag_is_set(with_flag(with_flag(status, 0x01, sum > 0xFF), 0x40, v), 0x40) == v) by {
        let sc = with_flag(status, 0x01, sum > 0xFF);
        assert((sc | 0x40) & 0x40 == 0x40) by (bit_vector);
        assert((sc & !0x40) & 0x40 == 0) by (bit_vector);
    }
    assert(forall|x: u8, y: u8, z: u8|
        ((((!(x ^ y)) & (x ^ z)) & 0x80 == 0x80) <==> ((x & 0x80) == (y & 0x80) && (z & 0x80) != (
        x & 0x80)))) by (bit_vector);
}

/// JMP through a pointer at the end of a page ($xxFF) fetches the high
/// target byte from the start of the same page ($xx00), reproducing the
/// 6502's page-wrap defect.
pub proof fn lemma_jmp_indirect_page_wrap(s: BusView, regs: CPURegisters, a: AbsoluteAddress)
    requires
        a.0 % 256 == 0xFF,
    ensures
        spec_ea(s, regs, AddressingMode::Indirect(a)) == raw_byte(s, a.0) + raw_byte(
            s,
            (a.0 - 0xFF) as u16,
        ) * 256,
{
}

/// ORA: accumulator OR operand; Z and N from the result.
pub fn ora(regs: &mut CPURegisters, mem: &mut RamController, mode: &AddressingMode) -> (cycles:
    i32)
    requires
        is_value_mode(*mode),
        old(mem).wf(),
    ensures
        final(mem).wf(),
        final(mem)@ == spec_operand_step(old(mem)@, *old(regs), *mode),
        *final(regs) == ({
            let v = old(regs).accumulator | spec_operand_val(old(mem)@, *old(regs), *mode);
            (CPURegisters { accumulator: v, status: with_zn(old(regs).status, v), ..*old(regs) })
        }),
        cycles == if spec_crossed(old(mem)@, *old(regs), *mode) {
            1int
        } else {
            0int
        },
{
    let addressing = resolve_u8(regs, mem, mode);
    regs.set_accumulator(regs.accumulator() | addressing.value);
    if addressing.page_boundary_crossed {
        1
    } else {
        0
    }
}

/// AND: accumulator AND operand; Z and N from the result.
pub fn and(regs: &mut CPURegisters, mem: &mut RamController, mode: &AddressingMode) -> (cycles:
    i32)
    requires
        is_value_mode(*mode),
        old(mem).wf(),
    ensures
        final(mem).wf(),
        final(mem)@ == spec_operand_step(old(mem)@, *old(regs), *mode),
        *final(regs) == ({
            let v = old(regs).accumulator & spec_operand_val(old(mem)@, *old(regs), *mode);
            (CPURegisters { accumulator: v, status: with_zn(old(regs).status, v), ..*old(regs) })
        }),
        cycles == if spec_crossed(old(mem)@, *old(regs), *mode) {
            1int
        } else {
            0int
        },
{
    let addressing = resolve_u8(regs, mem, mode);
    regs.set_accumulator(regs.accumulator() & addressing.value);
    if addressing.page_boundary_crossed {
        1
    } else {
        0
    }
}

/// EOR: accumulator XOR operand; Z and N from the result.
pub fn eor(regs: &mut CPURegisters, mem: &mut RamController, mode: &AddressingMode) -> (cycles:
    i32)
    requires
        is_value_mode(*mode),
        old(mem).wf(),
    ensures
        final(mem).wf(),
        final(mem)@ == spec_operand_step(old(mem)@, *old(regs), *mode),
        *final(regs) == ({
            let v = old(regs).accumulator ^ spec_operand_val(old(mem)@, *old(regs), *mode);
            (CPURegisters { accumulator: v, status: with_zn(old(regs).status, v), ..*old(regs) })
        }),
        cycles == if spec_crossed(old(mem)@, *old(regs), *mode) {
            1int
        } else {
            0int
        },
{
    let addressing = resolve_u8(regs, mem, mode);
    regs.set_accumulator(regs.accumulator() ^ addressing.value);
    if addressing.page_boundary_crossed {
        1
    } else {
        0
    }
}

/// LDA: load the accumulator; Z and N from the value.
pub fn lda(regs: &mut CPURegisters, mem: &mut RamController, mode: &AddressingMode) -> (cycles:
    i32)
    requires
        is_value_mode(*mode),
        old(mem).wf(),
    ensures
        final(mem).wf(),
        final(mem)@ == spec_operand_step(old(mem)@, *old(regs), *mode),
        *final(regs) == ({
            let v = spec_operand_val(old(mem)@, *old(regs), *mode);
            (CPURegisters { accumulator: v, status: with_zn(old(regs).status, v), ..*old(regs) })
        }),
        cycles == if spec_crossed(old(mem)@, *old(regs), *mode) {
            1int
        } else {
            0int
        },
{
    let addressing = resolve_u8(regs, mem, mode);
    regs.set_accumulator(addressing.value);
    if addressing.page_boundary_crossed {
        1
    } else {
        0
    }
}

/// LDX: load X; Z and N from the value.
pub fn ldx(regs: &mut CPURegisters, mem: &mut RamController, mode: &AddressingMode) -> (cycles:
    i32)
    requires
        is_value_mode(*mode),
        old(mem).wf(),
    ensures
        final(mem).wf(),
        final(mem)@ == spec_operand_step(old(mem)@, *old(regs), *mode),
        *final(regs) == ({
            let v = spec_operand_val(old(mem)@, *old(regs), *mode);
            (CPURegisters { x: v, status: with_zn(old(regs).status, v), ..*old(regs) })
        }),
        cycles == if spec_crossed(old(mem)@, *old(regs), *mode) {
            1int
        } else {
            0int
        },
{
    let addressing = resolve_u8(regs, mem, mode);
    regs.set_x(addressing.value);
    if addressing.page_boundary_crossed {
        1
    } else {
        0
    }
}

/// LDY: load Y; Z and N from the value.
pub fn ldy(regs: &mut CPURegisters, mem: &mut RamController, mode: &AddressingMode) -> (cycles:
    i32)
    requires
        is_value_mode(*mode),
        old(mem).wf(),
    ensures
        final(mem).wf(),
        final(mem)@ == spec_operand_step(old(mem)@, *old(regs), *mode),
        *final(regs) == ({
            let v = spec_operand_val(old(mem)@, *old(regs), *mode);
            (CPURegisters { y: v, status: with_zn(old(regs).status, v), ..*old(regs) })
        }),
        cycles == if spec_crossed(old(mem)@, *old(regs), *mode) {
            1int
        } else {
            0int
        },
{
    let addressing = resolve_u8(regs, mem, mode);
    regs.set_y(addressing.value);
    if addressing.page_boundary_crossed {
        1
    } else {
        0
    }
}

/// LAX (unofficial): load the accumulator and X with the operand.
pub fn lax(regs: &mut CPURegisters, mem: &mut RamController, mode: &AddressingMode) -> (cycles:
    i32)
    requires
        is_value_mode(*mode),
        old(mem).wf(),
    ensures
        final(mem).wf(),
        final(mem)@ == spec_operand_step(old(mem)@, *old(regs), *mode),
        *final(regs) == ({
            let v = spec_operand_val(old(mem)@, *old(regs), *mode);
            (CPURegisters {
                accumulator: v,
                x: v,
                status: with_zn(with_zn(old(regs).status, v), v),
                ..*old(regs)
            })
        }),
        cycles == if spec_crossed(old(mem)@, *old(regs), *mode) {
            1int
        } else {
            0int
        },
{
    let addressing = resolve_u8(regs, mem, mode);
    regs.set_accumulator(addressing.value);
    regs.set_x(addressing.value);
    if addressing.page_boundary_crossed {
        1
    } else {
        0
    }
}

/// STA: store the accumulator; flags untouched.
pub fn sta(regs: &mut CPURegisters, mem: &mut RamController, mode: &AddressingMode) -> (cycles:
    i32)
    requires
        is_store_mode(*mode),
        old(mem).wf(),
    ensures
        final(mem).wf(),
        *final(regs) == *old(regs),
        final(mem)@ == spec_store_step(old(mem)@, *old(regs), *mode, old(regs).accumulator),
        cycles == spec_store_cost(old(mem)@, *old(regs), *mode),
{
    set_u8(regs, mem, mode, regs.accumulator())
}

/// STX: store X; flags untouched.
pub fn stx(regs: &mut CPURegisters, mem: &mut RamController, mode: &AddressingMode) -> (cycles:
    i32)
    requires
        is_store_mode(*mode),
        old(mem).wf(),
    ensures
        final(mem).wf(),
        *final(regs) == *old(regs),
        final(mem)@ == spec_store_step(old(mem)@, *old(regs), *mode, old(regs).x),
        cycles == spec_store_cost(old(mem)@, *old(regs), *mode),
{
    set_u8(regs, mem, mode, regs.x())
}

/// STY: store Y; flags untouched.
pub fn sty(regs: &mut CPURegisters, mem: &mut RamController, mode: &AddressingMode) -> (cycles:
    i32)
    requires
        is_store_mode(*mode),
        old(mem).wf(),
    ensures
        final(mem).wf(),
        *final(regs) == *old(regs),
        final(mem)@ == spec_store_step(old(mem)@, *old(regs), *mode, old(regs).y),
        cycles == spec_store_cost(old(mem)@, *old(regs), *mode),
{
    set_u8(regs, mem, mode, regs.y())
}

/// SAX (unofficial): store A AND X; flags untouched.
pub fn sax(regs: &mut CPURegisters, mem: &mut RamController, mode: &AddressingMode) -> (cycles:
    i32)
    requires
        is_store_mode(*mode),
        old(mem).wf(),
    ensures
        final(mem).wf(),
        *final(regs) == *old(regs),
        final(mem)@ == spec_store_step(
            old(mem)@,
            *old(regs),
            *mode,
            old(regs).accumulator & old(regs).x,
        ),
        cycles == spec_store_cost(old(mem)@, *old(regs), *mode),
{
    set_u8(regs, mem, mode, regs.accumulator() & regs.x())
}

/// ADC: add the operand and the carry into the accumulator.
pub fn adc(regs: &mut CPURegisters, mem: &mut RamController, mode: &AddressingMode) -> (cycles:
    i32)
    requires
        is_value_mode(*mode),
        old(mem).wf(),
    ensures
        final(mem).wf(),
        final(mem)@ == spec_operand_step(old(mem)@, *old(regs), *mode),
        *final(regs) == ({
            let v = spec_operand_val(old(mem)@, *old(regs), *mode);
            (CPURegisters {
                accumulator: spec_adc_a(old(regs).accumulator, v, old(regs).status),
                status: spec_adc_status(old(regs).accumulator, v, old(regs).status),
                ..*old(regs)
            })
        }),
        cycles == if spec_crossed(old(mem)@, *old(regs), *mode) {
            1int
        } else {
            0int
        },
{
    let addressing = resolve_u8(regs, mem, mode);
    adc_core(regs, addressing.value);
    if addressing.page_boundary_crossed {
        1
    } else {
        0
    }
}

/// SBC: subtract the operand with borrow, via add of its complement.
pub fn sbc(regs: &mut CPURegisters, mem: &mut RamController, mode: &AddressingMode) -> (cycles:
    i32)
    requires
        is_value_mode(*mode),
        old(mem).wf(),
    ensures
        final(mem).wf(),
        final(mem)@ == spec_operand_step(old(mem)@, *old(regs), *mode),
        *final(regs) == ({
            let v = !spec_operand_val(old(mem)@, *old(regs), *mode);
            (CPURegisters {
                accumulator: spec_adc_a(old(regs).accumulator, v, old(regs).status),
                status: spec_adc_status(old(regs).accumulator, v, old(regs).status),
                ..*old(regs)
            })
        }),
        cycles == if spec_crossed(old(mem)@, *old(regs), *mode) {
            1int
        } else {
            0int
        },
{
    let addressing = resolve_u8(regs, mem, mode);
    adc_core(regs, !addressing.value);
    if addressing.page_boundary_crossed {
        1
    } else {
        0
    }
}

/// The shared add-with-carry core of ADC, SBC, ISB and RRA.
fn adc_core(regs: &mut CPURegisters, value: u8) -> (cycles: i32)
    ensures
        *final(regs) == (CPURegisters {
            accumulator: spec_adc_a(old(regs).accumulator, value, old(regs).status),
            status: spec_adc_status(old(regs).accumulator, value, old(regs).status),
            ..*old(regs)
        }),
        cycles == 0,
{
    let a = regs.accumulator();
    let carry: u16 = (regs.status() & 0x01) as u16;
    let result: u16 = a as u16 + value as u16 + carry;

    // Carry out of bit 7.
    regs.set_flag_if(CPUFlags::Carry, result > 0xFF);

    // Overflow when both addends share a sign and the sum does not.
    let new_value = (result % 256) as u8;
    regs.set_flag_if(
        CPUFlags::Overflow,
        (((!(a ^ value)) & (a ^ new_value)) & 0x80) == 0x80,
    );

    regs.set_accumulator(new_value);
    0
}

/// Shared comparison core of CMP/CPX/CPY/DCP.
pub fn compare(regs: &mut CPURegisters, register_value: u8, value: u8)
    ensures
        *final(regs) == (CPURegisters {
            status: spec_cmp_status(old(regs).status, register_value, value),
            ..*old(regs)
        }),
{
    regs.set_flag_if(CPUFlags::Carry, register_value >= value);
    regs.set_flag_if(CPUFlags::Zero, register_value == value);
    let result = register_value.wrapping_sub(value);
    regs.set_flag_if(CPUFlags::Sign, (result & 0x80) == 0x80);
}

/// CMP: compare the accumulator with the operand.
pub fn cmp(regs: &mut CPURegisters, mem: &mut RamController, mode: &AddressingMode) -> (cycles:
    i32)
    requires
        is_value_mode(*mode),
        old(mem).wf(),
    ensures
        final(mem).wf(),
        final(mem)@ == spec_operand_step(old(mem)@, *old(regs), *mode),
        *final(regs) == (CPURegisters {
            status: spec_cmp_status(
                old(regs).status,
                old(regs).accumulator,
                spec_operand_val(old(mem)@, *old(regs), *mode),
            ),
            ..*old(regs)
        }),
        cycles == if spec_crossed(old(mem)@, *old(regs), *mode) {
            1int
        } else {
            0int
        },
{
    let addressing = resolve_u8(regs, mem, mode);
    compare(regs, regs.accumulator(), addressing.value);
    if addressing.page_boundary_crossed {
        1
    } else {
        0
    }
}

/// CPX: compare X with the operand.
pub fn cpx(regs: &mut CPURegisters, mem: &mut RamController, mode: &AddressingMode) -> (cycles:
    i32)
    requires
        is_value_mode(*mode),
        old(mem).wf(),
    ensures
        final(mem).wf(),
        final(mem)@ == spec_operand_step(old(mem)@, *old(regs), *mode),
        *final(regs) == (CPURegisters {
            status: spec_cmp_status(
                old(regs).status,
                old(regs).x,
                spec_operand_val(old(mem)@, *old(regs), *mode),
            ),
            ..*old(regs)
        }),
        cycles == 0,
{
    let addressing = resolve_u8(regs, mem, mode);
    compare(regs, regs.x(), addressing.value);
    0
}

/// CPY: compare Y with the operand.
pub fn cpy(regs: &mut CPURegisters, mem: &mut RamController, mode: &AddressingMode) -> (cycles:
    i32)
    requires
        is_value_mode(*mode),
        old(mem).wf(),
    ensures
        final(mem).wf(),
        final(mem)@ == spec_operand_step(old(mem)@, *old(regs), *mode),
        *final(regs) == (CPURegisters {
            status: spec_cmp_status(
                old(regs).status,
                old(regs).y,
                spec_operand_val(old(mem)@, *old(regs), *mode),
            ),
            ..*old(regs)
        }),
        cycles == 0,
{
    let addressing = resolve_u8(regs, mem, mode);
    compare(regs, regs.y(), addressing.value);
    0
}

/// BIT: Z from A AND operand, V and N copied from operand bits 6 and 7.
pub fn bit(regs: &mut CPURegisters, mem: &mut RamController, mode: &AddressingMode) -> (cycles:
    i32)
    requires
        is_value_mode(*mode),
        old(mem).wf(),
    ensures
        final(mem).wf(),
        final(mem)@ == spec_operand_step(old(mem)@, *old(regs), *mode),
        *final(regs) == ({
            let v = spec_operand_val(old(mem)@, *old(regs), *mode);
            (CPURegisters {
                status: with_flag(
                    with_flag(
                        with_flag(old(regs).status, 0x02, v & old(regs).accumulator == 0),
                        0x40,
                        v & 0x40 != 0,
                    ),
                    0x80,
                    v & 0x80 != 0,
                ),
                ..*old(regs)
            })
        }),
        cycles == 0,
{
    let value = resolve_u8(regs, mem, mode).value;
    regs.set_flag_if(CPUFlags::Zero, (value & regs.accumulator()) == 0);
    regs.set_flag_if(CPUFlags::Overflow, (value & 0x40) != 0);
    regs.set_flag_if(CPUFlags::Sign, (value & 0x80) != 0);
    0
}

/// Shared branch core: move the PC when the condition holds; one extra
/// cycle for a taken branch, two when it crosses a page.
pub fn branch(regs: &mut CPURegisters, relative_address: &RelativeAddress, condition: bool) -> (
    cycles: i32)
    ensures
        *final(regs) == spec_branch_regs(*old(regs), relative_address.0, condition),
        cycles == spec_branch_cycles(old(regs).pc.0, relative_address.0, condition),
{
    if condition {
        if regs.offset_pcx(relative_address) {
            return 2;
        }
        return 1;
    }
    0
}

/// BCS: branch when carry is set.
pub fn bcs(regs: &mut CPURegisters, _mem: &mut RamController, mode: &AddressingMode) -> (cycles:
    i32)
    requires
        *mode matches AddressingMode::Relative(_),
    ensures
        final(_mem)@ == old(_mem)@,
        *final(regs) == spec_branch_regs(
            *old(regs),
            mode->Relative_0.0,
            flag_is_set(old(regs).status, 0x01),
        ),
        cycles == spec_branch_cycles(
            old(regs).pc.0,
            mode->Relative_0.0,
            flag_is_set(old(regs).status, 0x01),
        ),
{
    let address = resolve_relative(mode);
    branch(regs, &address, regs.flag(CPUFlags::Carry))
}

/// BCC: branch when carry is clear.
pub fn bcc(regs: &mut CPURegisters, _mem: &mut RamController, mode: &AddressingMode) -> (cycles:
    i32)
    requires
        *mode matches AddressingMode::Relative(_),
    ensures
        final(_mem)@ == old(_mem)@,
        *final(regs) == spec_branch_regs(
            *old(regs),
            mode->Relative_0.0,
            !flag_is_set(old(regs).status, 0x01),
        ),
        cycles == spec_branch_cycles(
            old(regs).pc.0,
            mode->Relative_0.0,
            !flag_is_set(old(regs).status, 0x01),
        ),
{
    let address = resolve_relative(mode);
    branch(regs, &address, !regs.flag(CPUFlags::Carry))
}

/// BEQ: branch when the zero flag is set.
pub fn beq(regs: &mut CPURegisters, _mem: &mut RamController, mode: &AddressingMode) -> (cycles:
    i32)
    requires
        *mode matches AddressingMode::Relative(_),
    ensures
        final(_mem)@ == old(_mem)@,
        *final(regs) == spec_branch_regs(
            *old(regs),
            mode->Relative_0.0,
            flag_is_set(old(regs).status, 0x02),
        ),
        cycles == spec_branch_cycles(
            old(regs).pc.0,
            mode->Relative_0.0,
            flag_is_set(old(regs).status, 0x02),
        ),
{
    let address = resolve_relative(mode);
    branch(regs, &address, regs.flag(CPUFlags::Zero))
}

/// BNE: branch when the zero flag is clear.
pub fn bne(regs: &mut CPURegisters, _mem: &mut RamController, mode: &AddressingMode) -> (cycles:
    i32)
    requires
        *mode matches AddressingMode::Relative(_),
    ensures
        final(_mem)@ == old(_mem)@,
        *final(regs) == spec_branch_regs(
            *old(regs),
            mode->Relative_0.0,
            !flag_is_set(old(regs).status, 0x02),
        ),
        cycles == spec_branch_cycles(
            old(regs).pc.0,
            mode->Relative_0.0,
            !flag_is_set(old(regs).status, 0x02),
        ),
{
    let address = resolve_relative(mode);
    branch(regs, &address, !regs.flag(CPUFlags::Zero))
}

/// BMI: branch when the sign flag is set.
pub fn bmi(regs: &mut CPURegisters, _mem: &mut RamController, mode: &AddressingMode) -> (cycles:
    i32)
    requires
        *mode matches AddressingMode::Relative(_),
    ensures
        final(_mem)@ == old(_mem)@,
        *final(regs) == spec_branch_regs(
            *old(regs),
            mode->Relative_0.0,
            flag_is_set(old(regs).status, 0x80),
        ),
        cycles == spec_branch_cycles(
            old(regs).pc.0,
            mode->Relative_0.0,
            flag_is_set(old(regs).status, 0x80),
        ),
{
    let address = resolve_relative(mode);
    branch(regs, &address, regs.flag(CPUFlags::Sign))
}

/// BPL: branch when the sign flag is clear.
pub fn bpl(regs: &mut CPURegisters, _mem: &mut RamController, mode: &AddressingMode) -> (cycles:
    i32)
    requires
        *mode matches AddressingMode::Relative(_),
    ensures
        final(_mem)@ == old(_mem)@,
        *final(regs) == spec_branch_regs(
            *old(regs),
            mode->Relative_0.0,
            !flag_is_set(old(regs).status, 0x80),
        ),
        cycles == spec_branch_cycles(
            old(regs).pc.0,
            mode->Relative_0.0,
            !flag_is_set(old(regs).status, 0x80),
        ),
{
    let address = resolve_relative(mode);
    branch(regs, &address, !regs.flag(CPUFlags::Sign))
}

/// BVS: branch when the overflow flag is set.
pub fn bvs(regs: &mut CPURegisters, _mem: &mut RamController, mode: &AddressingMode) -> (cycles:
    i32)
    requires
        *mode matches AddressingMode::Relative(_),
    ensures
        final(_mem)@ == old(_mem)@,
        *final(regs) == spec_branch_regs(
            *old(regs),
            mode->Relative_0.0,
            flag_is_set(old(regs).status, 0x40),
        ),
        cycles == spec_branch_cycles(
            old(regs).pc.0,
            mode->Relative_0.0,
            flag_is_set(old(regs).status, 0x40),
        ),
{
    let address = resolve_relative(mode);
    branch(regs, &address, regs.flag(CPUFlags::Overflow))
}

/// BVC: branch when the overflow flag is clear.
pub fn bvc(regs: &mut CPURegisters, _mem: &mut RamController, mode: &AddressingMode) -> (cycles:
    i32)
    requires
        *mode matches AddressingMode::Relative(_),
    ensures
        final(_mem)@ == old(_mem)@,
        *final(regs) == spec_branch_regs(
            *old(regs),
            mode->Relative_0.0,
            !flag_is_set(old(regs).status, 0x40),
        ),
        cycles == spec_branch_cycles(
            old(regs).pc.0,
            mode->Relative_0.0,
            !flag_is_set(old(regs).status, 0x40),
        ),
{
    let address = resolve_relative(mode);
    branch(regs, &address, !regs.flag(CPUFlags::Overflow))
}

/// SEC: set the carry flag.
pub fn sec(regs: &mut CPURegisters, _mem: &mut RamController, _mode: &AddressingMode) -> (cycles:
    i32)
    ensures
        final(_mem)@ == old(_mem)@,
        *final(regs) == (CPURegisters { status: old(regs).status | 0x01, ..*old(regs) }),
        cycles == 0,
{
    regs.set_flag(CPUFlags::Carry);
    0
}

/// CLC: clear the carry flag.
pub fn clc(regs: &mut CPURegisters, _mem: &mut RamController, _mode: &AddressingMode) -> (cycles:
    i32)
    ensures
        final(_mem)@ == old(_mem)@,
        *final(regs) == (CPURegisters { status: old(regs).status & !0x01, ..*old(regs) }),
        cycles == 0,
{
    regs.clear_flag(CPUFlags::Carry);
    0
}

/// SEI: set the interrupt-disable flag.
pub fn sei(regs: &mut CPURegisters, _mem: &mut RamController, _mode: &AddressingMode) -> (cycles:
    i32)
    ensures
        final(_mem)@ == old(_mem)@,
        *final(regs) == (CPURegisters { status: old(regs).status | 0x04, ..*old(regs) }),
        cycles == 0,
{
    regs.set_flag(CPUFlags::InterruptDisable);
    0
}

/// CLI: clear the interrupt-disable flag.
pub fn cli(regs: &mut CPURegisters, _mem: &mut RamController, _mode: &AddressingMode) -> (cycles:
    i32)
    ensures
        final(_mem)@ == old(_mem)@,
        *final(regs) == (CPURegisters { status: old(regs).status & !0x04, ..*old(regs) }),
        cycles == 0,
{
    regs.clear_flag(CPUFlags::InterruptDisable);
    0
}

/// SED: set the decimal flag (the 2A03 stores it but ignores it).
pub fn sed(regs: &mut CPURegisters, _mem: &mut RamController, _mode: &AddressingMode) -> (cycles:
    i32)
    ensures
        final(_mem)@ == old(_mem)@,
        *final(regs) == (CPURegisters { status: old(regs).status | 0x08, ..*old(regs) }),
        cycles == 0,
{
    regs.set_flag(CPUFlags::ClearDecimalMode);
    0
}

/// CLD: clear the decimal flag.
pub fn cld(regs: &mut CPURegisters, _mem: &mut RamController, _mode: &AddressingMode) -> (cycles:
    i32)
    ensures
        final(_mem)@ == old(_mem)@,
        *final(regs) == (CPURegisters { status: old(regs).status & !0x08, ..*old(regs) }),
        cycles == 0,
{
    regs.clear_flag(CPUFlags::ClearDecimalMode);
    0
}

/// CLV: clear the overflow flag.
pub fn clv(regs: &mut CPURegisters, _mem: &mut RamController, _mode: &AddressingMode) -> (cycles:
    i32)
    ensures
        final(_mem)@ == old(_mem)@,
        *final(regs) == (CPURegisters { status: old(regs).status & !0x40, ..*old(regs) }),
        cycles == 0,
{
    regs.clear_flag(CPUFlags::Overflow);
    0
}

/// TAX: X from A; Z and N from the value.
pub fn tax(regs: &mut CPURegisters, _mem: &mut RamController, _mode: &AddressingMode) -> (cycles:
    i32)
    ensures
        final(_mem)@ == old(_mem)@,
        *final(regs) == (CPURegisters {
            x: old(regs).accumulator,
            status: with_zn(old(regs).status, old(regs).accumulator),
            ..*old(regs)
        }),
        cycles == 0,
{
    regs.set_x(regs.accumulator());
    0
}

/// TAY: Y from A; Z and N from the value.
pub fn tay(regs: &mut CPURegisters, _mem: &mut RamController, _mode: &AddressingMode) -> (cycles:
    i32)
    ensures
        final(_mem)@ == old(_mem)@,
        *final(regs) == (CPURegisters {
            y: old(regs).accumulator,
            status: with_zn(old(regs).status, old(regs).accumulator),
            ..*old(regs)
        }),
        cycles == 0,
{
    regs.set_y(regs.accumulator());
    0
}

/// TXA: A from X; Z and N from the value.
pub fn txa(regs: &mut CPURegisters, _mem: &mut RamController, _mode: &AddressingMode) -> (cycles:
    i32)
    ensures
        final(_mem)@ == old(_mem)@,
        *final(regs) == (CPURegisters {
            accumulator: old(regs).x,
            status: with_zn(old(regs).status, old(regs).x),
            ..*old(regs)
        }),
        cycles == 0,
{
    regs.set_accumulator(regs.x());
    0
}

/// TYA: A from Y; Z and N from the value.
pub fn tya(regs: &mut CPURegisters, _mem: &mut RamController, _mode: &AddressingMode) -> (cycles:
    i32)
    ensures
        final(_mem)@ == old(_mem)@,
        *final(regs) == (CPURegisters {
            accumulator: old(regs).y,
            status: with_zn(old(regs).status, old(regs).y),
            ..*old(regs)
        }),
        cycles == 0,
{
    regs.set_accumulator(regs.y());
    0
}

/// TSX: X from the stack pointer's low byte; Z and N from the value.
pub fn tsx(regs: &mut CPURegisters, _mem: &mut RamController, _mode: &AddressingMode) -> (cycles:
    i32)
    ensures
        final(_mem)@ == old(_mem)@,
        *final(regs) == ({
            let v = (old(regs).stack % 256) as u8;
            (CPURegisters { x: v, status: with_zn(old(regs).status, v), ..*old(regs) })
        }),
        cycles == 0,
{
    let v = (regs.stack() % 256) as u8;
    regs.set_x(v);
    0
}

/// TXS: stack pointer's low byte from X; no flags touched.
pub fn txs(regs: &mut CPURegisters, _mem: &mut RamController, _mode: &AddressingMode) -> (cycles:
    i32)
    ensures
        final(_mem)@ == old(_mem)@,
        *final(regs) == (CPURegisters { stack: (0x0100 + old(regs).x) as u16, ..*old(regs) }),
        final(regs).wf(),
        cycles == 0,
{
    regs.set_stack(regs.x() as u16);
    0
}

/// INX: increment X with 8-bit wrap; Z and N from the result.
pub fn inx(regs: &mut CPURegisters, _mem: &mut RamController, _mode: &AddressingMode) -> (cycles:
    i32)
    ensures
        final(_mem)@ == old(_mem)@,
        *final(regs) == ({
            let v = wrap8(old(regs).x + 1);
            (CPURegisters { x: v, status: with_zn(old(regs).status, v), ..*old(regs) })
        }),
        cycles == 0,
{
    regs.set_x(regs.x().wrapping_add(1));
    0
}

/// INY: increment Y with 8-bit wrap; Z and N from the result.
pub fn iny(regs: &mut CPURegisters, _mem: &mut RamController, _mode: &AddressingMode) -> (cycles:
    i32)
    ensures
        final(_mem)@ == old(_mem)@,
        *final(regs) == ({
            let v = wrap8(old(regs).y + 1);
            (CPURegisters { y: v, status: with_zn(old(regs).status, v), ..*old(regs) })
        }),
        cycles == 0,
{
    regs.set_y(regs.y().wrapping_add(1));
    0
}

/// DEX: decrement X with 8-bit wrap; Z and N from the result.
pub fn dex(regs: &mut CPURegisters, _mem: &mut RamController, _mode: &AddressingMode) -> (cycles:
    i32)
    ensures
        final(_mem)@ == old(_mem)@,
        *final(regs) == ({
            let v = wrap8(old(regs).x - 1);
            (CPURegisters { x: v, status: with_zn(old(regs).status, v), ..*old(regs) })
        }),
        cycles == 0,
{
    regs.set_x(regs.x().wrapping_sub(1));
    0
}

/// DEY: decrement Y with 8-bit wrap; Z and N from the result.
pub fn dey(regs: &mut CPURegisters, _mem: &mut RamController, _mode: &AddressingMode) -> (cycles:
    i32)
    ensures
        final(_mem)@ == old(_mem)@,
        *final(regs) == ({
            let v = wrap8(old(regs).y - 1);
            (CPURegisters { y: v, status: with_zn(old(regs).status, v), ..*old(regs) })
        }),
        cycles == 0,
{
    regs.set_y(regs.y().wrapping_sub(1));
    0
}

/// NOP: no effect on registers or memory; multi-byte unofficial NOPs
/// still pay the page-crossing cycle of their addressing mode.
pub fn nop(regs: &mut CPURegisters, mem: &mut RamController, mode: &AddressingMode) -> (cycles:
    i32)
    requires
        old(mem).wf(),
    ensures
        final(mem).wf(),
        final(mem)@ == old(mem)@,
        *final(regs) == *old(regs),
        cycles == if spec_crossed(old(mem)@, *old(regs), *mode) {
            1int
        } else {
            0int
        },
{
    match resolve_address(regs, mem, mode) {
        None => 0,
        Some(x) => if x.page_boundary_crossed {
            1
        } else {
            0
        },
    }
}

/// Register state after a read-modify-write instruction: through the
/// accumulator the value lands with Z/N refreshed, then C, Z and N are
/// forced from the instruction's own carry-out and result.
pub open spec fn spec_rmw_regs(
    regs: CPURegisters,
    m: AddressingMode,
    new: u8,
    carry: bool,
) -> CPURegisters {
    let r1 = if (m matches AddressingMode::Accumulator) {
        CPURegisters { accumulator: new, status: with_zn(regs.status, new), ..regs }
    } else {
        regs
    };
    CPURegisters {
        status: with_flag(
            with_flag(with_flag(r1.status, 0x01, carry), 0x02, new == 0),
            0x80,
            new & 0x80 == 0x80,
        ),
        ..r1
    }
}

/// Bus state after a read-modify-write instruction: the operand fetch's
/// side effect, then the store of the new value.
pub open spec fn spec_rmw_bus(s: BusView, regs: CPURegisters, m: AddressingMode, new: u8) -> BusView {
    spec_store_step(spec_operand_step(s, regs, m), regs, m, new)
}

/// ASL: shift left; C from bit 7, Z and N from the result.
#[verifier::rlimit(80)]
pub fn asl(regs: &mut CPURegisters, mem: &mut RamController, mode: &AddressingMode) -> (cycles:
    i32)
    requires
        is_writable_mode(*mode),
        old(mem).wf(),
    ensures
        final(mem).wf(),
        final(mem)@ == ({
            let v = spec_operand_val(old(mem)@, *old(regs), *mode);
            spec_rmw_bus(old(mem)@, *old(regs), *mode, wrap8(2 * v))
        }),
        *final(regs) == ({
            let v = spec_operand_val(old(mem)@, *old(regs), *mode);
            spec_rmw_regs(*old(regs), *mode, wrap8(2 * v), v & 0x80 == 0x80)
        }),
        cycles == spec_store_cost(old(mem)@, *old(regs), *mode),
{
    let old_value = resolve_u8(regs, mem, mode).value;
    let new_value = old_value.wrapping_mul(2);
    let cycles = set_u8(regs, mem, mode, new_value);
    regs.set_flag_if(CPUFlags::Carry, (old_value & 0x80) == 0x80);
    regs.set_flag_if(CPUFlags::Zero, new_value == 0);
    regs.set_flag_if(CPUFlags::Sign, (new_value & 0x80) == 0x80);
    cycles
}

/// LSR: shift right; C from bit 0, Z and N from the result.
#[verifier::rlimit(80)]
pub fn lsr(regs: &mut CPURegisters, mem: &mut RamController, mode: &AddressingMode) -> (cycles:
    i32)
    requires
        is_writable_mode(*mode),
        old(mem).wf(),
    ensures
        final(mem).wf(),
        final(mem)@ == ({
            let v = spec_operand_val(old(mem)@, *old(regs), *mode);
            spec_rmw_bus(old(mem)@, *old(regs), *mode, v / 2)
        }),
        *final(regs) == ({
            let v = spec_operand_val(old(mem)@, *old(regs), *mode);
            spec_rmw_regs(*old(regs), *mode, v / 2, v & 0x01 == 0x01)
        }),
        cycles == spec_store_cost(old(mem)@, *old(regs), *mode),
{
    let old_value = resolve_u8(regs, mem, mode).value;
    let new_value = old_value / 2;
    let cycles = set_u8(regs, mem, mode, new_value);
    regs.set_flag_if(CPUFlags::Carry, (old_value & 0x01) == 0x01);
    regs.set_flag_if(CPUFlags::Zero, new_value == 0);
    regs.set_flag_if(CPUFlags::Sign, (new_value & 0x80) == 0x80);
    cycles
}

/// The value ROL produces: shift left with the old carry into bit 0.
pub open spec fn spec_rol_val(v: u8, carry_in: bool) -> u8 {
    wrap8(2 * v + if carry_in { 1int } else { 0int })
}

/// The value ROR produces: shift right with the old carry into bit 7.
pub open spec fn spec_ror_val(v: u8, carry_in: bool) -> u8 {
    (v / 2 + if carry_in { 128int } else { 0int }) as u8
}

/// ROL: rotate left through the carry; C from bit 7, Z and N from the
/// result.
#[verifier::rlimit(80)]
pub fn rol(regs: &mut CPURegisters, mem: &mut RamController, mode: &AddressingMode) -> (cycles:
    i32)
    requires
        is_writable_mode(*mode),
        old(mem).wf(),
    ensures
        final(mem).wf(),
        final(mem)@ == ({
            let v = spec_operand_val(old(mem)@, *old(regs), *mode);
            spec_rmw_bus(old(mem)@, *old(regs), *mode, spec_rol_val(v, flag_is_set(old(regs).status, 0x01)))
        }),
        *final(regs) == ({
            let v = spec_operand_val(old(mem)@, *old(regs), *mode);
            spec_rmw_regs(
                *old(regs),
                *mode,
                spec_rol_val(v, flag_is_set(old(regs).status, 0x01)),
                v & 0x80 == 0x80,
            )
        }),
        cycles == spec_store_cost(old(mem)@, *old(regs), *mode),
{
    let old_value = resolve_u8(regs, mem, mode).value;
    let carry_in: u16 = if regs.flag(CPUFlags::Carry) {
        1
    } else {
        0
    };
    let new_value = (((old_value as u16) * 2 + carry_in) % 256) as u8;
    let cycles = set_u8(regs, mem, mode, new_value);
    regs.set_flag_if(CPUFlags::Carry, (old_value & 0x80) == 0x80);
    regs.set_flag_if(CPUFlags::Zero, new_value == 0);
    regs.set_flag_if(CPUFlags::Sign, (new_value & 0x80) == 0x80);
    cycles
}

/// ROR: rotate right through the carry; C from bit 0, Z and N from the
/// result.
#[verifier::rlimit(80)]
pub fn ror(regs: &mut CPURegisters, mem: &mut RamController, mode: &AddressingMode) -> (cycles:
    i32)
    requires
        is_writable_mode(*mode),
        old(mem).wf(),
    ensures
        final(mem).wf(),
        final(mem)@ == ({
            let v = spec_operand_val(old(mem)@, *old(regs), *mode);
            spec_rmw_bus(old(mem)@, *old(regs), *mode, spec_ror_val(v, flag_is_set(old(regs).status, 0x01)))
        }),
        *final(regs) == ({
            let v = spec_operand_val(old(mem)@, *old(regs), *mode);
            spec_rmw_regs(
                *old(regs),
                *mode,
                spec_ror_val(v, flag_is_set(old(regs).status, 0x01)),
                v & 0x01 == 0x01,
            )
        }),
        cycles == spec_store_cost(old(mem)@, *old(regs), *mode),
{
    let old_value = resolve_u8(regs, mem, mode).value;
    let carry_in: u8 = if regs.flag(CPUFlags::Carry) {
        128
    } else {
        0
    };
    let new_value = old_value / 2 + carry_in;
    let cycles = set_u8(regs, mem, mode, new_value);
    regs.set_flag_if(CPUFlags::Carry, (old_value & 0x01) == 0x01);
    regs.set_flag_if(CPUFlags::Zero, new_value == 0);
    regs.set_flag_if(CPUFlags::Sign, (new_value & 0x80) == 0x80);
    cycles
}

/// INC: increment the memory operand with 8-bit wrap; Z and N from the
/// result.
#[verifier::rlimit(80)]
pub fn inc(regs: &mut CPURegisters, mem: &mut RamController, mode: &AddressingMode) -> (cycles:
    i32)
    requires
        is_store_mode(*mode),
        old(mem).wf(),
    ensures
        final(mem).wf(),
        final(mem)@ == ({
            let v = spec_operand_val(old(mem)@, *old(regs), *mode);
            spec_rmw_bus(old(mem)@, *old(regs), *mode, wrap8(v + 1))
        }),
        *final(regs) == ({
            let v = wrap8(spec_operand_val(old(mem)@, *old(regs), *mode) + 1);
            (CPURegisters {
                status: with_flag(
                    with_flag(old(regs).status, 0x02, v == 0),
                    0x80,
                    v & 0x80 == 0x80,
                ),
                ..*old(regs)
            })
        }),
        cycles == spec_store_cost(old(mem)@, *old(regs), *mode),
{
    let value = resolve_u8(regs, mem, mode).value.wrapping_add(1);
    let cycles = set_u8(regs, mem, mode, value);
    regs.set_flag_if(CPUFlags::Zero, value == 0);
    regs.set_flag_if(CPUFlags::Sign, (value & 0x80) == 0x80);
    cycles
}

/// DEC: decrement the memory operand with 8-bit wrap; Z and N from the
/// result.
#[verifier::rlimit(80)]
pub fn dec(regs: &mut CPURegisters, mem: &mut RamController, mode: &AddressingMode) -> (cycles:
    i32)
    requires
        is_store_mode(*mode),
        old(mem).wf(),
    ensures
        final(mem).wf(),
        final(mem)@ == ({
            let v = spec_operand_val(old(mem)@, *old(regs), *mode);
            spec_rmw_bus(old(mem)@, *old(regs), *mode, wrap8(v - 1))
        }),
        *final(regs) == ({
            let v = wrap8(spec_operand_val(old(mem)@, *old(regs), *mode) - 1);
            (CPURegisters {
                status: with_flag(
                    with_flag(old(regs).status, 0x02, v == 0),
                    0x80,
                    v & 0x80 == 0x80,
                ),
                ..*old(regs)
            })
        }),
        cycles == spec_store_cost(old(mem)@, *old(regs), *mode),
{
    let value = resolve_u8(regs, mem, mode).value.wrapping_sub(1);
    let cycles = set_u8(regs, mem, mode, value);
    regs.set_flag_if(CPUFlags::Zero, value == 0);
    regs.set_flag_if(CPUFlags::Sign, (value & 0x80) == 0x80);
    cycles
}

/// DCP (unofficial): DEC the operand, then compare the accumulator with
/// the decremented value.
#[verifier::rlimit(80)]
pub fn dcp(regs: &mut CPURegisters, mem: &mut RamController, mode: &AddressingMode) -> (cycles:
    i32)
    requires
        is_store_mode(*mode),
        old(mem).wf(),
    ensures
        final(mem).wf(),
        final(mem)@ == ({
            let v = spec_operand_val(old(mem)@, *old(regs), *mode);
            spec_rmw_bus(old(mem)@, *old(regs), *mode, wrap8(v - 1))
        }),
        *final(regs) == ({
            let v = wrap8(spec_operand_val(old(mem)@, *old(regs), *mode) - 1);
            (CPURegisters {
                status: spec_cmp_status(
                    with_flag(
                        with_flag(old(regs).status, 0x02, v == 0),
                        0x80,
                        v & 0x80 == 0x80,
                    ),
                    old(regs).accumulator,
                    v,
                ),
                ..*old(regs)
            })
        }),
        cycles == spec_store_cost(old(mem)@, *old(regs), *mode),
{
    let value = resolve_u8(regs, mem, mode).value.wrapping_sub(1);
    let cycles = set_u8(regs, mem, mode, value);
    regs.set_flag_if(CPUFlags::Zero, value == 0);
    regs.set_flag_if(CPUFlags::Sign, (value & 0x80) == 0x80);
    compare(regs, regs.accumulator(), value);
    cycles
}

/// ISB (unofficial, also called ISC): INC the operand, then SBC it.
#[verifier::rlimit(80)]
pub fn isc(regs: &mut CPURegisters, mem: &mut RamController, mode: &AddressingMode) -> (cycles:
    i32)
    requires
        is_store_mode(*mode),
        old(mem).wf(),
    ensures
        final(mem).wf(),
        final(mem)@ == ({
            let v = spec_operand_val(old(mem)@, *old(regs), *mode);
            spec_rmw_bus(old(mem)@, *old(regs), *mode, wrap8(v + 1))
        }),
        *final(regs) == ({
            let v = wrap8(spec_operand_val(old(mem)@, *old(regs), *mode) + 1);
            let s1 = with_flag(
                with_flag(old(regs).status, 0x02, v == 0),
                0x80,
                v & 0x80 == 0x80,
            );
            (CPURegisters {
                accumulator: spec_adc_a(old(regs).accumulator, !v, s1),
                status: spec_adc_status(old(regs).accumulator, !v, s1),
                ..*old(regs)
            })
        }),
        cycles == spec_store_cost(old(mem)@, *old(regs), *mode),
{
    let value = resolve_u8(regs, mem, mode).value.wrapping_add(1);
    let cycles = set_u8(regs, mem, mode, value);
    regs.set_flag_if(CPUFlags::Zero, value == 0);
    regs.set_flag_if(CPUFlags::Sign, (value & 0x80) == 0x80);
    adc_core(regs, !value);
    cycles
}

/// SLO (unofficial): ASL the operand, then OR it into the accumulator.
#[verifier::rlimit(80)]
pub fn slo(regs: &mut CPURegisters, mem: &mut RamController, mode: &AddressingMode) -> (cycles:
    i32)
    requires
        is_store_mode(*mode),
        old(mem).wf(),
    ensures
        final(mem).wf(),
        final(mem)@ == ({
            let v = spec_operand_val(old(mem)@, *old(regs), *mode);
            spec_rmw_bus(old(mem)@, *old(regs), *mode, wrap8(2 * v))
        }),
        *final(regs) == ({
            let v = spec_operand_val(old(mem)@, *old(regs), *mode);
            let nv = wrap8(2 * v);
            let r1 = spec_rmw_regs(*old(regs), *mode, nv, v & 0x80 == 0x80);
            let a = old(regs).accumulator | nv;
            (CPURegisters { accumulator: a, status: with_zn(r1.status, a), ..r1 })
        }),
        cycles == spec_store_cost(old(mem)@, *old(regs), *mode),
{
    let old_value = resolve_u8(regs, mem, mode).value;
    let new_value = old_value.wrapping_mul(2);
    let cycles = set_u8(regs, mem, mode, new_value);
    regs.set_flag_if(CPUFlags::Carry, (old_value & 0x80) == 0x80);
    regs.set_flag_if(CPUFlags::Zero, new_value == 0);
    regs.set_flag_if(CPUFlags::Sign, (new_value & 0x80) == 0x80);
    regs.set_accumulator(regs.accumulator() | new_value);
    cycles
}

/// RLA (unofficial): ROL the operand, then AND it into the accumulator.
#[verifier::rlimit(80)]
pub fn rla(regs: &mut CPURegisters, mem: &mut RamController, mode: &AddressingMode) -> (cycles:
    i32)
    requires
        is_store_mode(*mode),
        old(mem).wf(),
    ensures
        final(mem).wf(),
        final(mem)@ == ({
            let v = spec_operand_val(old(mem)@, *old(regs), *mode);
            spec_rmw_bus(old(mem)@, *old(regs), *mode, spec_rol_val(v, flag_is_set(old(regs).status, 0x01)))
        }),
        *final(regs) == ({
            let v = spec_operand_val(old(mem)@, *old(regs), *mode);
            let nv = spec_rol_val(v, flag_is_set(old(regs).status, 0x01));
            let r1 = spec_rmw_regs(*old(regs), *mode, nv, v & 0x80 == 0x80);
            let a = old(regs).accumulator & nv;
            (CPURegisters { accumulator: a, status: with_zn(r1.status, a), ..r1 })
        }),
        cycles == spec_store_cost(old(mem)@, *old(regs), *mode),
{
    let old_value = resolve_u8(regs, mem, mode).value;
    let carry_in: u16 = if regs.flag(CPUFlags::Carry) {
        1
    } else {
        0
    };
    let new_value = (((old_value as u16) * 2 + carry_in) % 256) as u8;
    let cycles = set_u8(regs, mem, mode, new_value);
    regs.set_flag_if(CPUFlags::Carry, (old_value & 0x80) == 0x80);
    regs.set_flag_if(CPUFlags::Zero, new_value == 0);
    regs.set_flag_if(CPUFlags::Sign, (new_value & 0x80) == 0x80);
    regs.set_accumulator(regs.accumulator() & new_value);
    cycles
}

/// SRE (unofficial): LSR the operand, then XOR it into the accumulator.
#[verifier::rlimit(80)]
pub fn sre(regs: &mut CPURegisters, mem: &mut RamController, mode: &AddressingMode) -> (cycles:
    i32)
    requires
        is_store_mode(*mode),
        old(mem).wf(),
    ensures
        final(mem).wf(),
        final(mem)@ == ({
            let v = spec_operand_val(old(mem)@, *old(regs), *mode);
            spec_rmw_bus(old(mem)@, *old(regs), *mode, v / 2)
        }),
        *final(regs) == ({
            let v = spec_operand_val(old(mem)@, *old(regs), *mode);
            let nv = (v / 2) as u8;
            let r1 = spec_rmw_regs(*old(regs), *mode, nv, v & 0x01 == 0x01);
            let a = old(regs).accumulator ^ nv;
            (CPURegisters { accumulator: a, status: with_zn(r1.status, a), ..r1 })
        }),
        cycles == spec_store_cost(old(mem)@, *old(regs), *mode),
{
    let old_value = resolve_u8(regs, mem, mode).value;
    let new_value = old_value / 2;
    let cycles = set_u8(regs, mem, mode, new_value);
    regs.set_flag_if(CPUFlags::Carry, (old_value & 0x01) == 0x01);
    regs.set_flag_if(CPUFlags::Zero, new_value == 0);
    regs.set_flag_if(CPUFlags::Sign, (new_value & 0x80) == 0x80);
    regs.set_accumulator(regs.accumulator() ^ new_value);
    cycles
}

/// RRA (unofficial): ROR the operand, then ADC it into the accumulator.
#[verifier::rlimit(80)]
pub fn rra(regs: &mut CPURegisters, mem: &mut RamController, mode: &AddressingMode) -> (cycles:
    i32)
    requires
        is_store_mode(*mode),
        old(mem).wf(),
    ensures
        final(mem).wf(),
        final(mem)@ == ({
            let v = spec_operand_val(old(mem)@, *old(regs), *mode);
            spec_rmw_bus(old(mem)@, *old(regs), *mode, spec_ror_val(v, flag_is_set(old(regs).status, 0x01)))
        }),
        *final(regs) == ({
            let v = spec_operand_val(old(mem)@, *old(regs), *mode);
            let nv = spec_ror_val(v, flag_is_set(old(regs).status, 0x01));
            let r1 = spec_rmw_regs(*old(regs), *mode, nv, v & 0x01 == 0x01);
            (CPURegisters {
                accumulator: spec_adc_a(old(regs).accumulator, nv, r1.status),
                status: spec_adc_status(old(regs).accumulator, nv, r1.status),
                ..r1
            })
        }),
        cycles == spec_store_cost(old(mem)@, *old(regs), *mode),
{
    let old_value = resolve_u8(regs, mem, mode).value;
    let carry_in: u8 = if regs.flag(CPUFlags::Carry) {
        128
    } else {
        0
    };
    let new_value = old_value / 2 + carry_in;
    let cycles = set_u8(regs, mem, mode, new_value);
    regs.set_flag_if(CPUFlags::Carry, (old_value & 0x01) == 0x01);
    regs.set_flag_if(CPUFlags::Zero, new_value == 0);
    regs.set_flag_if(CPUFlags::Sign, (new_value & 0x80) == 0x80);
    adc_core(regs, new_value);
    cycles
}

/// PHA: push the accumulator.
pub fn pha(regs: &mut CPURegisters, mem: &mut RamController, _mode: &AddressingMode) -> (cycles:
    i32)
    requires
        old(regs).wf(),
        old(mem).wf(),
    ensures
        final(regs).wf(),
        final(mem).wf(),
        *final(regs) == spec_push_regs(*old(regs)),
        final(mem)@ == spec_push_bus(*old(regs), old(mem)@, old(regs).accumulator),
        cycles == 0,
{
    stack::push(regs, mem, regs.accumulator());
    0
}

/// PHP: push the status with bits 4 (B) and 5 (U) set, as the hardware
/// does for a software push.
pub fn php(regs: &mut CPURegisters, mem: &mut RamController, _mode: &AddressingMode) -> (cycles:
    i32)
    requires
        old(regs).wf(),
        old(mem).wf(),
    ensures
        final(regs).wf(),
        final(mem).wf(),
        *final(regs) == spec_push_regs(*old(regs)),
        final(mem)@ == spec_push_bus(*old(regs), old(mem)@, old(regs).status | 0x30),
        cycles == 0,
{
    stack::push(regs, mem, regs.status() | 0x30);
    0
}

/// PLA: pop into the accumulator; Z and N from the value.
pub fn pla(regs: &mut CPURegisters, mem: &mut RamController, _mode: &AddressingMode) -> (cycles:
    i32)
    requires
        old(regs).wf(),
        old(mem).wf(),
    ensures
        final(regs).wf(),
        final(mem).wf(),
        final(mem)@ == old(mem)@,
        *final(regs) == ({
            let v = spec_pop_val(*old(regs), old(mem)@);
            let r1 = spec_pop_regs(*old(regs));
            (CPURegisters { accumulator: v, status: with_zn(r1.status, v), ..r1 })
        }),
        cycles == 0,
{
    let value = stack::pop(regs, mem);
    regs.set_accumulator(value);
    0
}

/// PLP: pop into the status; bit 5 is forced set and bit 4 cleared.
pub fn plp(regs: &mut CPURegisters, mem: &mut RamController, _mode: &AddressingMode) -> (cycles:
    i32)
    requires
        old(regs).wf(),
        old(mem).wf(),
    ensures
        final(regs).wf(),
        final(mem).wf(),
        final(mem)@ == old(mem)@,
        *final(regs) == ({
            let v = spec_pop_val(*old(regs), old(mem)@);
            (CPURegisters { status: (v | 0x20) & !0x10, ..spec_pop_regs(*old(regs)) })
        }),
        cycles == 0,
{
    let status = stack::pop(regs, mem);
    regs.set_status((status | 0x20) & !0x10);
    0
}

/// JMP: load the PC with the effective address.
pub fn jmp(regs: &mut CPURegisters, mem: &mut RamController, mode: &AddressingMode) -> (cycles:
    i32)
    requires
        is_mem_mode(*mode),
        old(mem).wf(),
    ensures
        final(mem).wf(),
        final(mem)@ == old(mem)@,
        *final(regs) == (CPURegisters {
            pc: AbsoluteAddress(spec_ea(old(mem)@, *old(regs), *mode)),
            ..*old(regs)
        }),
        cycles == 0,
{
    let address = resolve_address(regs, mem, mode).unwrap().address;
    regs.set_pc(address);
    0
}

/// JSR: push the address of the call's last byte (PC - 1), high byte
/// first, then jump.
pub fn jsr(regs: &mut CPURegisters, mem: &mut RamController, mode: &AddressingMode) -> (cycles:
    i32)
    requires
        is_mem_mode(*mode),
        old(regs).wf(),
        old(mem).wf(),
    ensures
        final(regs).wf(),
        final(mem).wf(),
        *final(regs) == ({
            let r1 = spec_push_regs(spec_push_regs(*old(regs)));
            (CPURegisters {
                pc: AbsoluteAddress(spec_ea(old(mem)@, *old(regs), *mode)),
                ..r1
            })
        }),
        final(mem)@ == ({
            let ret = wrap16(old(regs).pc.0 - 1);
            spec_push_bus(
                spec_push_regs(*old(regs)),
                spec_push_bus(*old(regs), old(mem)@, (ret / 256) as u8),
                (ret % 256) as u8,
            )
        }),
        cycles == 0,
{
    let routine_address = resolve_address(regs, mem, mode).unwrap().address;
    let return_address = regs.pc().offset(-1);

    // The high byte is pushed first, so RTS pops low then high.
    stack::push(regs, mem, return_address.high());
    stack::push(regs, mem, return_address.low());

    regs.set_pc(routine_address);
    0
}

/// RTS: pop the return address, low byte first, and resume past it.
pub fn rts(regs: &mut CPURegisters, mem: &mut RamController, _mode: &AddressingMode) -> (cycles:
    i32)
    requires
        old(regs).wf(),
        old(mem).wf(),
    ensures
        final(regs).wf(),
        final(mem).wf(),
        final(mem)@ == old(mem)@,
        *final(regs) == ({
            let low = spec_pop_val(*old(regs), old(mem)@);
            let r1 = spec_pop_regs(*old(regs));
            let high = spec_pop_val(r1, old(mem)@);
            let r2 = spec_pop_regs(r1);
            (CPURegisters {
                pc: AbsoluteAddress(wrap16(high * 256 + low + 1)),
                ..r2
            })
        }),
        cycles == 0,
{
    let low = stack::pop(regs, mem);
    let high = stack::pop(regs, mem);
    let address = AbsoluteAddress::from_u8(low, high);
    regs.set_pc(address.offset(1));
    0
}

/// RTI: pop the status (bit 5 forced set, bit 4 cleared), then the PC,
/// low byte first.
pub fn rti(regs: &mut CPURegisters, mem: &mut RamController, _mode: &AddressingMode) -> (cycles:
    i32)
    requires
        old(regs).wf(),
        old(mem).wf(),
    ensures
        final(regs).wf(),
        final(mem).wf(),
        final(mem)@ == old(mem)@,
        *final(regs) == ({
            let p = spec_pop_val(*old(regs), old(mem)@);
            let r1 = spec_pop_regs(*old(regs));
            let low = spec_pop_val(r1, old(mem)@);
            let r2 = spec_pop_regs(r1);
            let high = spec_pop_val(r2, old(mem)@);
            let r3 = spec_pop_regs(r2);
            (CPURegisters {
                status: (p | 0x20) & !0x10,
                pc: AbsoluteAddress((high * 256 + low) as u16),
                ..r3
            })
        }),
        cycles == 0,
{
    let new_status = stack::pop(regs, mem);
    regs.set_status((new_status | 0x20) & !0x10);

    let low = stack::pop(regs, mem);
    let high = stack::pop(regs, mem);
    let new_pc = AbsoluteAddress::from_u8(low, high);
    regs.set_pc(new_pc);
    0
}

/// BRK: push the PC (high byte first) and the status with B and U set,
/// set the interrupt-disable flag, and vector through $FFFE.
pub fn brk(regs: &mut CPURegisters, mem: &mut RamController, _mode: &AddressingMode) -> (cycles:
    i32)
    requires
        old(regs).wf(),
        old(mem).wf(),
    ensures
        final(regs).wf(),
        final(mem).wf(),
        final(mem)@ == ({
            let s1 = spec_push_bus(*old(regs), old(mem)@, (old(regs).pc.0 / 256) as u8);
            let r1 = spec_push_regs(*old(regs));
            let s2 = spec_push_bus(r1, s1, (old(regs).pc.0 % 256) as u8);
            let r2 = spec_push_regs(r1);
            spec_push_bus(r2, s2, old(regs).status | 0x30)
        }),
        *final(regs) == ({
            let r3 = spec_push_regs(spec_push_regs(spec_push_regs(*old(regs))));
            let s3 = ({
                let s1 = spec_push_bus(*old(regs), old(mem)@, (old(regs).pc.0 / 256) as u8);
                let r1 = spec_push_regs(*old(regs));
                let s2 = spec_push_bus(r1, s1, (old(regs).pc.0 % 256) as u8);
                let r2 = spec_push_regs(r1);
                spec_push_bus(r2, s2, old(regs).status | 0x30)
            });
            (CPURegisters {
                status: old(regs).status | 0x04,
                pc: AbsoluteAddress(wrap16(crate::ram_controller::raw_word(s3, 0xFFFE))),
                ..r3
            })
        }),
        cycles == 0,
{
    let pc = regs.pc();
    stack::push(regs, mem, pc.high());
    stack::push(regs, mem, pc.low());

    // A software interrupt pushes the status with bits 4 and 5 set.
    stack::push(regs, mem, regs.status() | 0x30);

    regs.set_flag(CPUFlags::InterruptDisable);

    let address = mem.read16(0xFFFE);
    regs.set_pc(AbsoluteAddress::from(address));
    0
}

} // verus!
