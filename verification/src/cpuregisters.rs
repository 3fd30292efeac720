//! The 2A03's register file: accumulator, index registers, status flags,
//! program counter and stack pointer, together with the flag semantics
//! every instruction relies on.

use vstd::prelude::*;
use crate::opcodes::{AbsoluteAddress, RelativeAddress};
use crate::{wrap16, same_page};

verus! {

/// One of the eight status-register flags.
///
/// Bit assignment within P, low to high: C, Z, I, D, B, U (always reads
/// set), V, N.
#[derive(Clone, Copy, Debug)]
pub enum CPUFlags {
    Carry,
    Zero,
    InterruptDisable,
    ClearDecimalMode,
    BreakCommand,
    Unused,
    Overflow,
    Sign,
}

/// The bit mask a flag occupies within the status register.
pub open spec fn spec_flag_mask(flag: CPUFlags) -> u8 {
    match flag {
        CPUFlags::Carry => 0x01,
        CPUFlags::Zero => 0x02,
        CPUFlags::InterruptDisable => 0x04,
        CPUFlags::ClearDecimalMode => 0x08,
        CPUFlags::BreakCommand => 0x10,
        CPUFlags::Unused => 0x20,
        CPUFlags::Overflow => 0x40,
        CPUFlags::Sign => 0x80,
    }
}

/// Whether a flag is set in a status byte.
pub open spec fn flag_is_set(status: u8, mask: u8) -> bool {
    status & mask == mask
}

/// A status byte with one flag forced on or off.
pub open spec fn with_flag(status: u8, mask: u8, on: bool) -> u8 {
    if on {
        status | mask
    } else {
        status & !mask
    }
}

/// A status byte with Z and N refreshed from a freshly written value:
/// Z iff the value is zero, N iff its bit 7 is set.
pub open spec fn with_zn(status: u8, value: u8) -> u8 {
    with_flag(with_flag(status, 0x02, value == 0), 0x80, value & 0x80 == 0x80)
}

/// The CPU register file.
///
/// The stack pointer is kept as the full $01xx address of the next free
/// stack slot; `wf` pins it inside the stack page.
#[derive(Clone, Copy, PartialEq, Eq, Structural, Debug)]
pub struct CPURegisters {
    pub accumulator: u8,
    pub x: u8,
    pub y: u8,
    pub status: u8,
    pub pc: AbsoluteAddress,
    pub stack: u16,
}

impl CPURegisters {
    /// The stack pointer stays inside the stack page $0100-$01FF, so its
    /// low byte (the architectural SP) always lies in 0x00..=0xFF.
    pub open spec fn wf(self) -> bool {
        0x0100 <= self.stack <= 0x01FF
    }

    /// The power-on register file: interrupts disabled (P = $24),
    /// SP = $FD, everything else zero.
    pub open spec fn spec_new() -> CPURegisters {
        CPURegisters {
            accumulator: 0u8,
            x: 0u8,
            y: 0u8,
            status: 0x24u8,
            pc: AbsoluteAddress(0u16),
            stack: 0x01FDu16,
        }
    }

    pub fn new() -> (r: CPURegisters)
        ensures
            r == CPURegisters::spec_new(),
            r.wf(),
    {
        CPURegisters {
            accumulator: 0,
            x: 0,
            y: 0,
            // The processor starts with interrupts disabled (I and U set).
            status: 0b00100100,
            pc: AbsoluteAddress(0),
            stack: 0x01FD,
        }
    }

    pub fn accumulator(&self) -> (r: u8)
        ensures
            r == self.accumulator,
    {
        self.accumulator
    }

    pub fn x(&self) -> (r: u8)
        ensures
            r == self.x,
    {
        self.x
    }

    pub fn y(&self) -> (r: u8)
        ensures
            r == self.y,
    {
        self.y
    }

    pub fn status(&self) -> (r: u8)
        ensures
            r == self.status,
    {
        self.status
    }

    pub fn pc(&self) -> (r: AbsoluteAddress)
        ensures
            r == self.pc,
    {
        self.pc
    }

    pub fn stack(&self) -> (r: u16)
        ensures
            r == self.stack,
    {
        self.stack
    }

    /// Return the current PC and advance it past one fetched byte.
    pub fn increment_pc(&mut self) -> (r: AbsoluteAddress)
        ensures
            r == old(self).pc,
            final(self).pc.0 == wrap16(old(self).pc.0 + 1),
            *final(self) == (CPURegisters { pc: final(self).pc, ..*old(self) }),
    {
        let pc = self.pc;
        self.pc = self.pc.offset_wrap(1);
        pc
    }

    /// Move the stack pointer up one slot, wrapping within the stack page.
    pub fn increment_stack(&mut self)
        requires
            old(self).wf(),
        ensures
            final(self).stack == if old(self).stack == 0x01FF {
                0x0100int
            } else {
                old(self).stack + 1
            },
            *final(self) == (CPURegisters { stack: final(self).stack, ..*old(self) }),
            final(self).wf(),
    {
        self.stack = self.stack + 1;
        if self.stack > 0x01FF {
            self.stack = 0x0100;
        }
    }

    /// Move the stack pointer down one slot, wrapping within the stack page.
    pub fn decrement_stack(&mut self)
        requires
            old(self).wf(),
        ensures
            final(self).stack == if old(self).stack == 0x0100 {
                0x01FFint
            } else {
                old(self).stack - 1
            },
            *final(self) == (CPURegisters { stack: final(self).stack, ..*old(self) }),
            final(self).wf(),
    {
        if self.stack == 0x0100 {
            self.stack = 0x01FF;
        } else {
            self.stack = self.stack - 1;
        }
    }

    /// Write the accumulator and refresh Z and N from the new value.
    pub fn set_accumulator(&mut self, value: u8)
        ensures
            *final(self) == (CPURegisters {
                accumulator: value,
                status: with_zn(old(self).status, value),
                ..*old(self)
            }),
    {
        self.accumulator = value;
        self.set_flag_if(CPUFlags::Zero, value == 0);
        self.set_flag_if(CPUFlags::Sign, (value & 0b10000000) == 0b10000000);
    }

    /// Write the X index register and refresh Z and N.
    pub fn set_x(&mut self, value: u8)
        ensures
            *final(self) == (CPURegisters {
                x: value,
                status: with_zn(old(self).status, value),
                ..*old(self)
            }),
    {
        self.x = value;
        self.set_flag_if(CPUFlags::Zero, value == 0);
        self.set_flag_if(CPUFlags::Sign, (value & 0b10000000) == 0b10000000);
    }

    /// Write the Y index register and refresh Z and N.
    pub fn set_y(&mut self, value: u8)
        ensures
            *final(self) == (CPURegisters {
                y: value,
                status: with_zn(old(self).status, value),
                ..*old(self)
            }),
    {
        self.y = value;
        self.set_flag_if(CPUFlags::Zero, value == 0);
        self.set_flag_if(CPUFlags::Sign, (value & 0b10000000) == 0b10000000);
    }

    pub fn set_pc(&mut self, value: AbsoluteAddress)
        ensures
            *final(self) == (CPURegisters { pc: value, ..*old(self) }),
    {
        self.pc = value;
    }

    /// Displace the PC by a branch offset; report whether the branch
    /// crossed a page boundary.
    pub fn offset_pc(&mut self, value: i8) -> (crossed: bool)
        ensures
            *final(self) == (CPURegisters {
                pc: AbsoluteAddress(wrap16(old(self).pc.0 + value)),
                ..*old(self)
            }),
            crossed == !same_page(old(self).pc.0, final(self).pc.0),
    {
        let from_page = self.pc.high();
        self.pc = self.pc.offset(value);
        let to_page = self.pc.high();
        from_page != to_page
    }

    /// As `offset_pc`, taking the wrapped relative-address operand.
    pub fn offset_pcx(&mut self, value: &RelativeAddress) -> (crossed: bool)
        ensures
            *final(self) == (CPURegisters {
                pc: AbsoluteAddress(wrap16(old(self).pc.0 + value.0)),
                ..*old(self)
            }),
            crossed == !same_page(old(self).pc.0, final(self).pc.0),
    {
        self.offset_pc(value.to_i8())
    }

    /// Load the stack pointer's low byte; the stack stays in page $01xx.
    pub fn set_stack(&mut self, value: u16)
        requires
            value <= 0xFF,
        ensures
            *final(self) == (CPURegisters { stack: (0x0100 + value) as u16, ..*old(self) }),
            final(self).wf(),
    {
        self.stack = 0x0100 + value;
    }

    pub fn set_status(&mut self, value: u8)
        ensures
            *final(self) == (CPURegisters { status: value, ..*old(self) }),
    {
        self.status = value;
    }

    /// The bit mask of a flag.
    pub fn flag_mask(flag: CPUFlags) -> (m: u8)
        ensures
            m == spec_flag_mask(flag),
    {
        match flag {
            CPUFlags::Carry => 0x01,
            CPUFlags::Zero => 0x02,
            CPUFlags::InterruptDisable => 0x04,
            CPUFlags::ClearDecimalMode => 0x08,
            CPUFlags::BreakCommand => 0x10,
            CPUFlags::Unused => 0x20,
            CPUFlags::Overflow => 0x40,
            CPUFlags::Sign => 0x80,
        }
    }

    /// Whether a flag is currently set.
    pub fn flag(&self, flag: CPUFlags) -> (r: bool)
        ensures
            r == flag_is_set(self.status, spec_flag_mask(flag)),
    {
        let f = CPURegisters::flag_mask(flag);
        (self.status & f) == f
    }

    pub fn set_flag(&mut self, flag: CPUFlags)
        ensures
            *final(self) == (CPURegisters {
                status: old(self).status | spec_flag_mask(flag),
                ..*old(self)
            }),
    {
        self.status = self.status | CPURegisters::flag_mask(flag);
    }

    pub fn clear_flag(&mut self, flag: CPUFlags)
        ensures
            *final(self) == (CPURegisters {
                status: old(self).status & !spec_flag_mask(flag),
                ..*old(self)
            }),
    {
        self.status = self.status & !CPURegisters::flag_mask(flag);
    }

    /// A well-formed register file keeps the architectural stack
    /// pointer (the stack address's low byte) within 0x00..=0xFF, and
    /// the PC is a 16-bit value by type. Every register operation and
    /// every executed instruction preserves `wf`, so these bounds hold
    /// after any instruction.
    pub proof fn lemma_state_bounds(self)
        requires
            self.wf(),
        ensures
            0x00 <= self.stack % 256 <= 0xFF,
            self.stack % 256 == self.stack - 0x0100,
            0x0000 <= self.pc.0 <= 0xFFFF,
    {
    }

    /// Force a flag on or off according to a computed condition.
    pub fn set_flag_if(&mut self, flag: CPUFlags, set: bool)
        ensures
            *final(self) == (CPURegisters {
                status: with_flag(old(self).status, spec_flag_mask(flag), set),
                ..*old(self)
            }),
    {
        if set {
            self.set_flag(flag);
        } else {
            self.clear_flag(flag);
        }
    }
}

} // verus!
