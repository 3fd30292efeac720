//! The picture processor's memory-mapped register file: the eight port
//! latches, the shared PPUSCROLL/PPUADDR write toggle, the VBlank flag,
//! and the power-up window during which configuration writes are ignored.

use vstd::prelude::*;
use crate::wrap16;

verus! {

/// The PPU register latches.
///
/// The whole file is a plain value type: the bus and the PPU core both
/// operate on it through `&mut`, serialized by the step loop.
#[derive(Clone, Copy, PartialEq, Eq, Structural, Debug)]
pub struct PPURegisters {
    pub ppuaddr: u16,
    pub ppuctrl: u8,
    pub ppumask: u8,
    pub oamaddr: u8,
    pub ppuscroll_x: u8,
    pub ppuscroll_y: u8,
    pub ppustatus: u8,
    pub ppuscroll_toggle: bool,
    pub ppuaddr_toggle: bool,
    /// Writes to PPUCTRL/PPUMASK/PPUSCROLL/PPUADDR are ignored for the
    /// first ~29,658 CPU cycles after power-up.
    pub in_powerup_state: bool,
}

/// Any register write latches its low five bits into PPUSTATUS's low
/// five bits, even during the power-up window.
pub open spec fn spec_set_last_written(r: PPURegisters, value: u8) -> PPURegisters {
    PPURegisters { ppustatus: (r.ppustatus & 0xE0) | (value & 0x1F), ..r }
}

/// Effect of a PPUCTRL ($2000) write.
pub open spec fn spec_set_ppuctrl(r: PPURegisters, value: u8) -> PPURegisters {
    let r2 = spec_set_last_written(r, value);
    if r.in_powerup_state {
        r2
    } else {
        PPURegisters { ppuctrl: value, ..r2 }
    }
}

/// Effect of a PPUMASK ($2001) write.
pub open spec fn spec_set_ppumask(r: PPURegisters, value: u8) -> PPURegisters {
    let r2 = spec_set_last_written(r, value);
    if r.in_powerup_state {
        r2
    } else {
        PPURegisters { ppumask: value, ..r2 }
    }
}

/// Effect of an OAMADDR ($2003) write.
pub open spec fn spec_set_oamaddr(r: PPURegisters, value: u8) -> PPURegisters {
    spec_set_last_written(PPURegisters { oamaddr: value, ..r }, value)
}

/// Effect of a PPUSCROLL ($2005) write: the shared toggle selects x
/// (first write) or y (second write).
pub open spec fn spec_set_ppuscroll(r: PPURegisters, value: u8) -> PPURegisters {
    let r2 = spec_set_last_written(r, value);
    if r.in_powerup_state {
        r2
    } else if r.ppuscroll_toggle {
        PPURegisters { ppuscroll_y: value, ppuscroll_toggle: false, ..r2 }
    } else {
        PPURegisters { ppuscroll_x: value, ppuscroll_toggle: true, ..r2 }
    }
}

/// Effect of a PPUADDR ($2006) write: the shared toggle selects the high
/// byte (first write) or the low byte (second write).
pub open spec fn spec_set_ppuaddr(r: PPURegisters, value: u8) -> PPURegisters {
    let r2 = spec_set_last_written(r, value);
    if r.in_powerup_state {
        r2
    } else if r.ppuaddr_toggle {
        PPURegisters {
            ppuaddr: (r.ppuaddr & 0xFF00) | value as u16,
            ppuaddr_toggle: false,
            ..r2
        }
    } else {
        PPURegisters {
            ppuaddr: (r.ppuaddr & 0x00FF) | ((value as u16) & 0xFF) << 8,
            ppuaddr_toggle: true,
            ..r2
        }
    }
}

/// The PPUDATA address step: 1, or 32 when PPUCTRL bit 2 is set.
pub open spec fn spec_ppuaddr_step(r: PPURegisters) -> int {
    if r.ppuctrl & 0x04 == 0x04 {
        32
    } else {
        1
    }
}

/// Effect of a PPUDATA access on the address latch.
pub open spec fn spec_increment_ppuaddr(r: PPURegisters) -> PPURegisters {
    PPURegisters { ppuaddr: wrap16(r.ppuaddr + spec_ppuaddr_step(r)), ..r }
}

/// Effect of a PPUSTATUS ($2002) read: VBlank is cleared and the shared
/// write toggle reset; the pre-read value is what the CPU sees.
pub open spec fn spec_status_read(r: PPURegisters) -> PPURegisters {
    PPURegisters {
        ppustatus: r.ppustatus & 0x7F,
        ppuscroll_toggle: false,
        ppuaddr_toggle: false,
        ..r
    }
}

/// Two PPUSCROLL writes then a PPUSTATUS read reset the shared toggle:
/// the read leaves the toggle clear, so the next PPUSCROLL write lands
/// in the x latch again.
pub proof fn lemma_ppuscroll_toggle_reset(r: PPURegisters, v1: u8, v2: u8, v3: u8)
    requires
        !r.in_powerup_state,
    ensures
        ({
            let after_writes = spec_set_ppuscroll(spec_set_ppuscroll(r, v1), v2);
            let after_read = spec_status_read(after_writes);
            &&& after_read.ppuscroll_toggle == false
            &&& spec_set_ppuscroll(after_read, v3).ppuscroll_x == v3
        }),
{
}

impl PPURegisters {
    /// The register file at power-up: everything clear, the power-up
    /// write-ignore window active.
    pub open spec fn spec_new_powerup() -> PPURegisters {
        PPURegisters {
            ppuaddr: 0u16,
            ppuctrl: 0u8,
            ppumask: 0u8,
            oamaddr: 0u8,
            ppuscroll_x: 0u8,
            ppuscroll_y: 0u8,
            ppustatus: 0u8,
            ppuscroll_toggle: false,
            ppuaddr_toggle: false,
            in_powerup_state: true,
        }
    }

    pub fn new() -> (r: PPURegisters)
        ensures
            r == PPURegisters::spec_new_powerup(),
    {
        PPURegisters {
            ppuaddr: 0,
            ppuctrl: 0,
            ppumask: 0,
            oamaddr: 0,
            ppuscroll_x: 0,
            ppuscroll_y: 0,
            ppustatus: 0,
            ppuscroll_toggle: false,
            ppuaddr_toggle: false,
            in_powerup_state: true,
        }
    }

    fn set_last_written_value(&mut self, value: u8)
        ensures
            *final(self) == spec_set_last_written(*old(self), value),
    {
        let least_significant_bits = value & 0b00011111;
        self.ppustatus = (self.ppustatus & 0b11100000) | least_significant_bits;
    }

    pub fn set_ppuctrl(&mut self, value: u8)
        ensures
            *final(self) == spec_set_ppuctrl(*old(self), value),
    {
        self.set_last_written_value(value);
        if self.in_powerup_state {
            return ;
        }
        self.ppuctrl = value;
    }

    pub fn set_ppumask(&mut self, value: u8)
        ensures
            *final(self) == spec_set_ppumask(*old(self), value),
    {
        self.set_last_written_value(value);
        if self.in_powerup_state {
            return ;
        }
        self.ppumask = value;
    }

    pub fn set_oamaddr(&mut self, value: u8)
        ensures
            *final(self) == spec_set_oamaddr(*old(self), value),
    {
        self.oamaddr = value;
        self.set_last_written_value(value);
    }

    pub fn set_ppuscroll(&mut self, value: u8)
        ensures
            *final(self) == spec_set_ppuscroll(*old(self), value),
    {
        self.set_last_written_value(value);
        if self.in_powerup_state {
            return ;
        }
        if self.ppuscroll_toggle {
            self.ppuscroll_y = value;
            self.ppuscroll_toggle = false;
        } else {
            self.ppuscroll_x = value;
            self.ppuscroll_toggle = true;
        }
    }

    pub fn set_ppuaddr(&mut self, value: u8)
        ensures
            *final(self) == spec_set_ppuaddr(*old(self), value),
    {
        self.set_last_written_value(value);
        if self.in_powerup_state {
            return ;
        }
        if self.ppuaddr_toggle {
            self.ppuaddr = (self.ppuaddr & 0xFF00) | value as u16;
            self.ppuaddr_toggle = false;
        } else {
            self.ppuaddr = (self.ppuaddr & 0x00FF) | ((value as u16) & 0xFF) << 8;
            self.ppuaddr_toggle = true;
        }
    }

    pub fn oamaddr(&self) -> (r: u8)
        ensures
            r == self.oamaddr,
    {
        self.oamaddr
    }

    pub fn ppuaddr(&self) -> (r: u16)
        ensures
            r == self.ppuaddr,
    {
        self.ppuaddr
    }

    /// Step the VRAM address after a PPUDATA access.
    pub fn increment_ppuaddr(&mut self)
        ensures
            *final(self) == spec_increment_ppuaddr(*old(self)),
    {
        if (self.ppuctrl & 0x4) == 0x4 {
            self.ppuaddr = self.ppuaddr.wrapping_add(0x20);
        } else {
            self.ppuaddr = self.ppuaddr.wrapping_add(1);
        }
    }

    pub fn set_vblank(&mut self)
        ensures
            *final(self) == (PPURegisters { ppustatus: old(self).ppustatus | 0x80, ..*old(self) }),
    {
        self.ppustatus = self.ppustatus | 0b10000000;
    }

    pub fn clear_vblank(&mut self)
        ensures
            *final(self) == (PPURegisters { ppustatus: old(self).ppustatus & 0x7F, ..*old(self) }),
    {
        self.ppustatus = self.ppustatus & 0b01111111;
    }

    /// Read PPUSTATUS: returns the latch and applies the read side effect.
    pub fn status(&mut self) -> (result: u8)
        ensures
            result == old(self).ppustatus,
            *final(self) == spec_status_read(*old(self)),
    {
        let result = self.ppustatus;
        self.clear_vblank();
        self.ppuscroll_toggle = false;
        self.ppuaddr_toggle = false;
        result
    }

    /// Whether PPUCTRL bit 7 (NMI on VBlank) is set.
    pub fn should_generate_nmi(&self) -> (r: bool)
        ensures
            r == (self.ppuctrl & 0x80 == 0x80),
    {
        (self.ppuctrl & 0b10000000) == 0b10000000
    }

    pub fn set_powerup_state(&mut self, state: bool)
        ensures
            *final(self) == (PPURegisters { in_powerup_state: state, ..*old(self) }),
    {
        self.in_powerup_state = state;
    }
}

} // verus!
