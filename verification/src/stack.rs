//! The 6502 stack discipline: the stack lives in page $01xx and grows
//! downward; pushes store then decrement, pops increment then load.

use vstd::prelude::*;
use crate::cpuregisters::CPURegisters;
use crate::opcodes::AbsoluteAddress;
use crate::ram_controller::{RamController, BusView, bus_write_step, raw_byte};

verus! {

/// Register file after a push: the stack pointer moves down one slot,
/// wrapping within the stack page.
pub open spec fn spec_push_regs(regs: CPURegisters) -> CPURegisters {
    CPURegisters {
        stack: if regs.stack == 0x0100 {
            0x01FFu16
        } else {
            (regs.stack - 1) as u16
        },
        ..regs
    }
}

/// Bus after a push: the byte lands at the pre-push stack address.
pub open spec fn spec_push_bus(regs: CPURegisters, s: BusView, value: u8) -> BusView {
    bus_write_step(s, regs.stack, value)
}

/// Register file after a pop: the stack pointer moves up one slot,
/// wrapping within the stack page.
pub open spec fn spec_pop_regs(regs: CPURegisters) -> CPURegisters {
    CPURegisters {
        stack: if regs.stack == 0x01FF {
            0x0100u16
        } else {
            (regs.stack + 1) as u16
        },
        ..regs
    }
}

/// The byte a pop returns: the slot the incremented stack pointer names.
pub open spec fn spec_pop_val(regs: CPURegisters, s: BusView) -> u8 {
    raw_byte(s, spec_pop_regs(regs).stack)
}

/// A pop after a push returns the pushed byte, and the stack pointer
/// returns to where it started: the push stores at the pre-push stack
/// address (always plain RAM), moves the pointer down, and the pop
/// moves it back up and reads the same slot.
pub proof fn lemma_push_pop_round_trip(regs: CPURegisters, s: BusView, value: u8)
    requires
        regs.wf(),
        crate::ram_controller::bus_wf(s),
    ensures
        ({
            let r1 = spec_push_regs(regs);
            let s1 = spec_push_bus(regs, s, value);
            &&& spec_pop_val(r1, s1) == value
            &&& spec_pop_regs(r1).stack == regs.stack
        }),
{
}

/// PHA then PLA leaves the accumulator and the stack pointer unchanged:
/// the pop returns the byte the push stored, and loading the
/// accumulator with its own value leaves it as it was.
pub proof fn lemma_pha_pla(regs: CPURegisters, s: BusView)
    requires
        regs.wf(),
        crate::ram_controller::bus_wf(s),
    ensures
        ({
            let r1 = spec_push_regs(regs);
            let s1 = spec_push_bus(regs, s, regs.accumulator);
            &&& spec_pop_val(r1, s1) == regs.accumulator
            &&& spec_pop_regs(r1).stack == regs.stack
        }),
{
    lemma_push_pop_round_trip(regs, s, regs.accumulator);
}

/// PHP then PLP restores the status except that bit 4 (B) comes back
/// clear and bit 5 (U) comes back set: the byte pushed is P with both
/// set, and the restore forces exactly those two bits.
pub proof fn lemma_php_plp(regs: CPURegisters, s: BusView)
    requires
        regs.wf(),
        crate::ram_controller::bus_wf(s),
    ensures
        ({
            let r1 = spec_push_regs(regs);
            let s1 = spec_push_bus(regs, s, regs.status | 0x30);
            let restored = (spec_pop_val(r1, s1) | 0x20) & !0x10;
            &&& restored == (regs.status & !0x10) | 0x20
            &&& spec_pop_regs(r1).stack == regs.stack
        }),
{
    lemma_push_pop_round_trip(regs, s, regs.status | 0x30);
    let p = regs.status;
    assert((((p | 0x30) | 0x20) & !0x10) == (p & !0x10) | 0x20) by (bit_vector);
}

/// Push a byte onto the stack.
pub fn push(regs: &mut CPURegisters, mem: &mut RamController, value: u8)
    requires
        old(regs).wf(),
        old(mem).wf(),
    ensures
        final(regs).wf(),
        final(mem).wf(),
        *final(regs) == spec_push_regs(*old(regs)),
        final(mem)@ == spec_push_bus(*old(regs), old(mem)@, value),
{
    mem.write8(regs.stack(), value);
    regs.decrement_stack();
}

/// Pop a byte from the stack.
pub fn pop(regs: &mut CPURegisters, mem: &RamController) -> (value: u8)
    requires
        old(regs).wf(),
        mem.wf(),
    ensures
        final(regs).wf(),
        *final(regs) == spec_pop_regs(*old(regs)),
        value == spec_pop_val(*old(regs), mem@),
{
    regs.increment_stack();
    mem.read8x(&AbsoluteAddress(regs.stack()))
}

} // verus!
