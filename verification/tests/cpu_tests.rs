use nes_core::cpuregisters::{CPURegisters, CPUFlags};
use nes_core::opcodes;
use nes_core::opcodes::{AddressingMode, AbsoluteAddress, ZeroPageAddress, RelativeAddress};
use nes_core::ppu_registers::PPURegisters;
use nes_core::ram_controller::RamController;
use nes_core::vram_controller::VRAMController;

fn fresh_bus() -> RamController {
    RamController::new(PPURegisters::new(), VRAMController::new())
}

fn carry(regs: &CPURegisters) -> bool {
    regs.flag(CPUFlags::Carry)
}

fn zero(regs: &CPURegisters) -> bool {
    regs.flag(CPUFlags::Zero)
}

fn sign(regs: &CPURegisters) -> bool {
    regs.flag(CPUFlags::Sign)
}

fn overflow(regs: &CPURegisters) -> bool {
    regs.flag(CPUFlags::Overflow)
}

#[test]
fn inc_wraps_ff_to_zero_with_z_set() {
    let mut regs = CPURegisters::new();
    let mut mem = fresh_bus();
    mem.write8(0x0010, 0xFF);
    let mode = AddressingMode::ZeroPage(ZeroPageAddress::from(0x10));
    opcodes::inc(&mut regs, &mut mem, &mode);
    assert_eq!(mem.read8(0x0010), 0x00);
    assert!(zero(&regs));
    assert!(!sign(&regs));
}

#[test]
fn dec_wraps_zero_to_ff_with_n_set() {
    let mut regs = CPURegisters::new();
    let mut mem = fresh_bus();
    mem.write8(0x0010, 0x00);
    let mode = AddressingMode::ZeroPage(ZeroPageAddress::from(0x10));
    opcodes::dec(&mut regs, &mut mem, &mode);
    assert_eq!(mem.read8(0x0010), 0xFF);
    assert!(!zero(&regs));
    assert!(sign(&regs));
}

#[test]
fn asl_of_80_sets_c_and_z_clears_n() {
    let mut regs = CPURegisters::new();
    let mut mem = fresh_bus();
    regs.set_accumulator(0x80);
    opcodes::asl(&mut regs, &mut mem, &AddressingMode::Accumulator);
    assert_eq!(regs.accumulator(), 0x00);
    assert!(carry(&regs));
    assert!(zero(&regs));
    assert!(!sign(&regs));
}

#[test]
fn adc_50_plus_50_overflows_to_a0() {
    let mut regs = CPURegisters::new();
    let mut mem = fresh_bus();
    regs.set_accumulator(0x50);
    regs.set_flag_if(CPUFlags::Carry, false);
    mem.write8(0x0040, 0x50);
    let mode = AddressingMode::Immediate(AbsoluteAddress::from(0x0040));
    opcodes::adc(&mut regs, &mut mem, &mode);
    assert_eq!(regs.accumulator(), 0xA0);
    assert!(overflow(&regs));
    assert!(sign(&regs));
    assert!(!carry(&regs));
}

#[test]
fn adc_carry_out_and_no_overflow() {
    let mut regs = CPURegisters::new();
    let mut mem = fresh_bus();
    regs.set_accumulator(0xFF);
    regs.set_flag(CPUFlags::Carry);
    mem.write8(0x0040, 0x01);
    let mode = AddressingMode::Immediate(AbsoluteAddress::from(0x0040));
    opcodes::adc(&mut regs, &mut mem, &mode);
    // 0xFF + 0x01 + 1 = 0x101
    assert_eq!(regs.accumulator(), 0x01);
    assert!(carry(&regs));
    assert!(!overflow(&regs));
}

#[test]
fn sbc_borrows_when_carry_clear() {
    let mut regs = CPURegisters::new();
    let mut mem = fresh_bus();
    regs.set_accumulator(0x10);
    regs.set_flag(CPUFlags::Carry);
    mem.write8(0x0040, 0x08);
    let mode = AddressingMode::Immediate(AbsoluteAddress::from(0x0040));
    opcodes::sbc(&mut regs, &mut mem, &mode);
    assert_eq!(regs.accumulator(), 0x08);
    assert!(carry(&regs));
}

#[test]
fn lda_indexed_indirect_pointer_wraps_in_zero_page() {
    let mut regs = CPURegisters::new();
    let mut mem = fresh_bus();
    // (zp + X) = $FF: the pointer's low byte is read from $FF and its
    // high byte wraps to $00.
    regs.set_x(0x0F);
    mem.write8(0x00FF, 0x34);
    mem.write8(0x0000, 0x12);
    mem.write8(0x1234 & 0x07FF, 0x42);
    let mode = AddressingMode::IndexedIndirect(ZeroPageAddress::from(0xF0));
    opcodes::lda(&mut regs, &mut mem, &mode);
    assert_eq!(regs.accumulator(), 0x42);
}

#[test]
fn jmp_indirect_page_wrap_bug_preserved() {
    let mut regs = CPURegisters::new();
    let mut mem = fresh_bus();
    // Pointer at $02FF: low byte from $02FF, high byte from $0200.
    mem.write8(0x02FF, 0x34);
    mem.write8(0x0200, 0x12);
    mem.write8(0x0300, 0x99); // would be used without the defect
    let mode = AddressingMode::Indirect(AbsoluteAddress::from(0x02FF));
    opcodes::jmp(&mut regs, &mut mem, &mode);
    assert_eq!(regs.pc().to_u16(), 0x1234);
}

#[test]
fn taken_branch_costs_one_extra_cycle_on_same_page() {
    let mut regs = CPURegisters::new();
    let mut mem = fresh_bus();
    regs.set_pc(AbsoluteAddress::from(0x0210));
    regs.set_flag(CPUFlags::Zero);
    let mode = AddressingMode::Relative(RelativeAddress::from(0x10));
    let extra = opcodes::beq(&mut regs, &mut mem, &mode);
    assert_eq!(regs.pc().to_u16(), 0x0220);
    // Total cost: 2 base + 1 taken = 3.
    assert_eq!(extra, 1);
}

#[test]
fn taken_branch_costs_two_extra_cycles_on_page_cross() {
    let mut regs = CPURegisters::new();
    let mut mem = fresh_bus();
    regs.set_pc(AbsoluteAddress::from(0x02F0));
    regs.set_flag(CPUFlags::Zero);
    let mode = AddressingMode::Relative(RelativeAddress::from(0x20));
    let extra = opcodes::beq(&mut regs, &mut mem, &mode);
    assert_eq!(regs.pc().to_u16(), 0x0310);
    // Total cost: 2 base + 2 (taken, page crossed) = 4.
    assert_eq!(extra, 2);
}

#[test]
fn untaken_branch_costs_nothing_extra() {
    let mut regs = CPURegisters::new();
    let mut mem = fresh_bus();
    regs.set_pc(AbsoluteAddress::from(0x0210));
    let mode = AddressingMode::Relative(RelativeAddress::from(0x10));
    let extra = opcodes::beq(&mut regs, &mut mem, &mode);
    assert_eq!(regs.pc().to_u16(), 0x0210);
    assert_eq!(extra, 0);
}

#[test]
fn pha_pla_round_trip_preserves_a_and_sp() {
    let mut regs = CPURegisters::new();
    let mut mem = fresh_bus();
    regs.set_accumulator(0x5A);
    let sp_before = regs.stack();
    opcodes::pha(&mut regs, &mut mem, &AddressingMode::Implicit);
    assert_eq!(regs.stack(), sp_before - 1);
    // Clobber A to show PLA restores it from the stack.
    regs.set_accumulator(0x00);
    opcodes::pla(&mut regs, &mut mem, &AddressingMode::Implicit);
    assert_eq!(regs.accumulator(), 0x5A);
    assert_eq!(regs.stack(), sp_before);
}

#[test]
fn php_plp_round_trip_forces_bits_4_and_5() {
    let mut regs = CPURegisters::new();
    let mut mem = fresh_bus();
    regs.set_status(0x91);
    opcodes::php(&mut regs, &mut mem, &AddressingMode::Implicit);
    regs.set_status(0x00);
    opcodes::plp(&mut regs, &mut mem, &AddressingMode::Implicit);
    // Unchanged except bit 4 cleared and bit 5 set.
    assert_eq!(regs.status(), (0x91 & !0x10) | 0x20);
}

#[test]
fn cmp_sets_carry_zero_and_sign() {
    let mut regs = CPURegisters::new();
    let mut mem = fresh_bus();
    regs.set_accumulator(0x40);
    mem.write8(0x0040, 0x41);
    let mode = AddressingMode::Immediate(AbsoluteAddress::from(0x0040));
    opcodes::cmp(&mut regs, &mut mem, &mode);
    assert!(!carry(&regs));
    assert!(!zero(&regs));
    assert!(sign(&regs)); // 0x40 - 0x41 = 0xFF
}

#[test]
fn jsr_rts_round_trip_returns_past_call() {
    let mut regs = CPURegisters::new();
    let mut mem = fresh_bus();
    // As decoded, PC already sits past the 3-byte JSR at $0200.
    regs.set_pc(AbsoluteAddress::from(0x0203));
    let mode = AddressingMode::Absolute(AbsoluteAddress::from(0x0300));
    opcodes::jsr(&mut regs, &mut mem, &mode);
    assert_eq!(regs.pc().to_u16(), 0x0300);
    opcodes::rts(&mut regs, &mut mem, &AddressingMode::Implicit);
    assert_eq!(regs.pc().to_u16(), 0x0203);
}

#[test]
fn sp_stays_in_page_one_under_deep_pushes() {
    let mut regs = CPURegisters::new();
    let mut mem = fresh_bus();
    for i in 0..600 {
        opcodes::pha(&mut regs, &mut mem, &AddressingMode::Implicit);
        let sp = regs.stack();
        assert!((0x0100..=0x01FF).contains(&sp), "push {} left SP at {:04X}", i, sp);
    }
}

#[test]
fn unofficial_lax_loads_a_and_x() {
    let mut regs = CPURegisters::new();
    let mut mem = fresh_bus();
    mem.write8(0x0020, 0x7E);
    let mode = AddressingMode::ZeroPage(ZeroPageAddress::from(0x20));
    opcodes::lax(&mut regs, &mut mem, &mode);
    assert_eq!(regs.accumulator(), 0x7E);
    assert_eq!(regs.x(), 0x7E);
}

#[test]
fn unofficial_dcp_decrements_then_compares() {
    let mut regs = CPURegisters::new();
    let mut mem = fresh_bus();
    regs.set_accumulator(0x10);
    mem.write8(0x0020, 0x11);
    let mode = AddressingMode::ZeroPage(ZeroPageAddress::from(0x20));
    opcodes::dcp(&mut regs, &mut mem, &mode);
    assert_eq!(mem.read8(0x0020), 0x10);
    assert!(zero(&regs)); // A == decremented value
    assert!(carry(&regs));
}

#[test]
fn rol_shifts_carry_into_bit_zero() {
    let mut regs = CPURegisters::new();
    let mut mem = fresh_bus();
    regs.set_accumulator(0xC0);
    regs.set_flag(CPUFlags::Carry);
    opcodes::rol(&mut regs, &mut mem, &AddressingMode::Accumulator);
    assert_eq!(regs.accumulator(), 0x81);
    assert!(carry(&regs));
    assert!(sign(&regs));
}

#[test]
fn ror_shifts_carry_into_bit_seven() {
    let mut regs = CPURegisters::new();
    let mut mem = fresh_bus();
    regs.set_accumulator(0x01);
    regs.set_flag(CPUFlags::Carry);
    opcodes::ror(&mut regs, &mut mem, &AddressingMode::Accumulator);
    assert_eq!(regs.accumulator(), 0x80);
    assert!(carry(&regs));
}

#[test]
fn brk_pushes_state_and_vectors_through_fffe() {
    let mut regs = CPURegisters::new();
    let mut mem = fresh_bus();
    // Install a bank whose IRQ/BRK vector points at $1234.
    let mut bank = vec![0u8; 0x4000];
    bank[0x3FFE] = 0x34;
    bank[0x3FFF] = 0x12;
    mem.load_prg_bank2(&nes_core::cartridge::PrgRomBank::new(bank));
    regs.set_pc(AbsoluteAddress::from(0x0456));
    let p = regs.status();
    let sp_before = regs.stack();
    opcodes::brk(&mut regs, &mut mem, &AddressingMode::Implicit);
    assert_eq!(regs.pc().to_u16(), 0x1234);
    assert!(regs.flag(CPUFlags::InterruptDisable));
    assert_eq!(regs.stack(), sp_before - 3);
    assert_eq!(mem.read8(sp_before), 0x04); // PC high
    assert_eq!(mem.read8(sp_before - 1), 0x56); // PC low
    assert_eq!(mem.read8(sp_before - 2), p | 0x30); // P with B and U
}

#[test]
fn rti_restores_status_and_pc_from_the_stack() {
    let mut regs = CPURegisters::new();
    let mut mem = fresh_bus();
    nes_core::stack::push(&mut regs, &mut mem, 0x12); // PC high
    nes_core::stack::push(&mut regs, &mut mem, 0x34); // PC low
    nes_core::stack::push(&mut regs, &mut mem, 0x85); // P
    opcodes::rti(&mut regs, &mut mem, &AddressingMode::Implicit);
    assert_eq!(regs.pc().to_u16(), 0x1234);
    // Bit 5 comes back set, bit 4 clear.
    assert_eq!(regs.status(), (0x85 | 0x20) & !0x10);
}

#[test]
fn unofficial_sre_shifts_right_then_xors() {
    let mut regs = CPURegisters::new();
    let mut mem = fresh_bus();
    regs.set_accumulator(0x0F);
    mem.write8(0x0020, 0x03);
    let mode = AddressingMode::ZeroPage(ZeroPageAddress::from(0x20));
    opcodes::sre(&mut regs, &mut mem, &mode);
    assert_eq!(mem.read8(0x0020), 0x01);
    assert_eq!(regs.accumulator(), 0x0F ^ 0x01);
    assert!(carry(&regs)); // bit 0 of the original value
}

#[test]
fn unofficial_isc_increments_then_subtracts() {
    let mut regs = CPURegisters::new();
    let mut mem = fresh_bus();
    regs.set_accumulator(0x10);
    regs.set_flag(CPUFlags::Carry);
    mem.write8(0x0020, 0x04);
    let mode = AddressingMode::ZeroPage(ZeroPageAddress::from(0x20));
    opcodes::isc(&mut regs, &mut mem, &mode);
    assert_eq!(mem.read8(0x0020), 0x05);
    assert_eq!(regs.accumulator(), 0x10 - 0x05);
}

#[test]
fn unofficial_slo_shifts_left_then_ors() {
    let mut regs = CPURegisters::new();
    let mut mem = fresh_bus();
    regs.set_accumulator(0x01);
    mem.write8(0x0020, 0xC0);
    let mode = AddressingMode::ZeroPage(ZeroPageAddress::from(0x20));
    opcodes::slo(&mut regs, &mut mem, &mode);
    assert_eq!(mem.read8(0x0020), 0x80);
    assert_eq!(regs.accumulator(), 0x81);
    assert!(carry(&regs));
}

#[test]
fn bit_copies_operand_bits_to_v_and_n() {
    let mut regs = CPURegisters::new();
    let mut mem = fresh_bus();
    regs.set_accumulator(0x0F);
    mem.write8(0x0020, 0xC0);
    let mode = AddressingMode::ZeroPage(ZeroPageAddress::from(0x20));
    opcodes::bit(&mut regs, &mut mem, &mode);
    assert!(zero(&regs)); // 0x0F & 0xC0 == 0
    assert!(overflow(&regs));
    assert!(sign(&regs));
}
