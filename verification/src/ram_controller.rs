//! The CPU bus: the 64 KiB address map with its mirroring, dispatch of
//! memory-mapped PPU register ports, PRG-ROM banks, and OAM DMA.
//!
//! Every bus access is specified against `BusView`, a mathematical view
//! of the whole externally visible machine state: main memory, the PPU
//! register file, VRAM and OAM.

use vstd::prelude::*;
use crate::cartridge::PrgRomBank;
use crate::opcodes::AbsoluteAddress;
use crate::ppu_registers::{
    PPURegisters, spec_set_ppuctrl, spec_set_ppumask, spec_set_oamaddr, spec_set_ppuscroll,
    spec_set_ppuaddr, spec_increment_ppuaddr, spec_status_read,
};
use crate::vram_controller::VRAMController;
use crate::{wrap8, zero_vec, copy_range};

verus! {

/// The bus state as mathematics: main memory, the PPU register latches,
/// VRAM and OAM.
pub ghost struct BusView {
    pub mem: Seq<u8>,
    pub ppu: PPURegisters,
    pub vram: Seq<u8>,
    pub oam: Seq<u8>,
}

/// The fixed sizes of the three byte stores.
pub open spec fn bus_wf(s: BusView) -> bool {
    &&& s.mem.len() == 0x10000
    &&& s.vram.len() == 0x4000
    &&& s.oam.len() == 256
}

/// Address translation: RAM below $2000 mirrors every 2 KiB; the PPU
/// ports at $2000-$3FFF mirror every 8 bytes; all else passes through.
pub open spec fn spec_translate(a: u16) -> u16 {
    if a < 0x2000 {
        (a % 0x800) as u16
    } else if a < 0x4000 {
        (0x2000 + (a % 8)) as u16
    } else {
        a
    }
}

/// The byte a raw (non-dispatching) fetch returns: main memory at the
/// translated address. Instruction and pointer fetches use this.
pub open spec fn raw_byte(s: BusView, a: u16) -> u8 {
    s.mem[spec_translate(a) as int]
}

/// A little-endian 16-bit raw fetch. The second byte comes from the slot
/// after the first's translated address.
pub open spec fn raw_word(s: BusView, a: u16) -> int {
    s.mem[spec_translate(a) as int] + s.mem[spec_translate(a) + 1] * 256
}

/// What a dispatching bus read returns: RAM, a readable PPU port
/// (PPUSTATUS, OAMDATA, PPUDATA), PRG-ROM, or 0 for every other port.
pub open spec fn bus_read_val(s: BusView, a: u16) -> u8 {
    let t = spec_translate(a);
    if t < 0x2000 {
        s.mem[t as int]
    } else if t == 0x2002 {
        s.ppu.ppustatus
    } else if t == 0x2004 {
        s.oam[s.ppu.oamaddr as int]
    } else if t == 0x2007 {
        s.vram[(s.ppu.ppuaddr % 0x4000) as int]
    } else if a >= 0x8000 {
        s.mem[a as int]
    } else {
        0
    }
}

/// A dispatching bus read's side effect: reading PPUSTATUS clears VBlank
/// and the write toggle; reading PPUDATA steps the VRAM address.
pub open spec fn bus_read_step(s: BusView, a: u16) -> BusView {
    let t = spec_translate(a);
    if t == 0x2002 {
        BusView { ppu: spec_status_read(s.ppu), ..s }
    } else if t == 0x2007 {
        BusView { ppu: spec_increment_ppuaddr(s.ppu), ..s }
    } else {
        s
    }
}

/// OAM after a DMA from CPU page `page_hi`: 256 bytes copied starting at
/// the current OAMADDR, wrapping modulo 256.
pub open spec fn dma_oam(s: BusView, page_hi: u8) -> Seq<u8> {
    Seq::new(256, |k: int| s.mem[page_hi * 256 + ((k - s.ppu.oamaddr) % 256)])
}

/// A bus write's effect: a RAM store, a PPU register port, OAM DMA, or
/// nothing (PRG-ROM and the inert APU/IO ports absorb writes).
pub open spec fn bus_write_step(s: BusView, a: u16, v: u8) -> BusView {
    let t = spec_translate(a);
    if t < 0x2000 {
        BusView { mem: s.mem.update(t as int, v), ..s }
    } else if t == 0x2000 {
        BusView { ppu: spec_set_ppuctrl(s.ppu, v), ..s }
    } else if t == 0x2001 {
        BusView { ppu: spec_set_ppumask(s.ppu, v), ..s }
    } else if t == 0x2003 {
        BusView { ppu: spec_set_oamaddr(s.ppu, v), ..s }
    } else if t == 0x2004 {
        BusView {
            oam: s.oam.update(s.ppu.oamaddr as int, v),
            ppu: PPURegisters { oamaddr: wrap8(s.ppu.oamaddr + 1), ..s.ppu },
            ..s
        }
    } else if t == 0x2005 {
        BusView { ppu: spec_set_ppuscroll(s.ppu, v), ..s }
    } else if t == 0x2006 {
        BusView { ppu: spec_set_ppuaddr(s.ppu, v), ..s }
    } else if t == 0x2007 {
        BusView {
            vram: s.vram.update((s.ppu.ppuaddr % 0x4000) as int, v),
            ppu: spec_increment_ppuaddr(s.ppu),
            ..s
        }
    } else if a == 0x4014 {
        BusView { oam: dma_oam(s, v), ..s }
    } else {
        s
    }
}

/// The cycle penalty a write incurs: OAM DMA stalls the CPU 513 cycles.
pub open spec fn bus_write_cost(a: u16) -> int {
    if a == 0x4014 {
        513
    } else {
        0
    }
}

/// The CPU bus. It owns main memory, the PPU register file and the
/// picture memory; the step loop serializes every access.
pub struct RamController {
    pub memory: Vec<u8>,
    pub ppu_regs: PPURegisters,
    pub vram: VRAMController,
}

impl View for RamController {
    type V = BusView;

    open spec fn view(&self) -> BusView {
        BusView {
            mem: self.memory@,
            ppu: self.ppu_regs,
            vram: self.vram.memory@,
            oam: self.vram.oam@,
        }
    }
}

impl RamController {
    pub open spec fn wf(&self) -> bool {
        bus_wf(self@)
    }

    pub fn new(ppu_regs: PPURegisters, vram: VRAMController) -> (r: RamController)
        requires
            vram.wf(),
        ensures
            r.wf(),
            r@.ppu == ppu_regs,
            r@.vram == vram.memory@,
            r@.oam == vram.oam@,
            forall|i: int| 0 <= i < 0x10000 ==> r@.mem[i] == 0u8,
    {
        RamController { memory: zero_vec(0x10000), ppu_regs, vram }
    }

    /// Whether the address falls in the mirrored 2 KiB RAM region.
    pub fn is_lower_ram_range(&self, address: u16) -> (r: bool)
        ensures
            r == (address < 0x2000),
    {
        address < 0x2000
    }

    /// Whether the address falls in the mirrored PPU port region.
    pub fn is_io_mirror_range(&self, address: u16) -> (r: bool)
        ensures
            r == (0x2000 <= address && address < 0x4000),
    {
        0x2000 <= address && address < 0x4000
    }

    /// Apply the bus's address mirroring.
    pub fn translate_address(&self, address: u16) -> (r: usize)
        ensures
            r == spec_translate(address),
    {
        if self.is_lower_ram_range(address) {
            // $0000-$07FF appears four times below $2000.
            (address % 0x800) as usize
        } else if self.is_io_mirror_range(address) {
            // The eight ports repeat through $3FFF.
            (0x2000 + (address % 8)) as usize
        } else {
            address as usize
        }
    }

    /// A raw fetch: main memory at the translated address, with no port
    /// dispatch. Opcode and pointer fetches read the bus this way.
    pub fn read8x(&self, address: &AbsoluteAddress) -> (r: u8)
        requires
            self.wf(),
        ensures
            r == raw_byte(self@, address.0),
    {
        let t = self.translate_address(address.to_u16());
        self.memory[t]
    }

    /// A dispatching bus read.
    pub fn read8(&mut self, address: u16) -> (r: u8)
        requires
            old(self).wf(),
        ensures
            final(self).wf(),
            r == bus_read_val(old(self)@, address),
            final(self)@ == bus_read_step(old(self)@, address),
    {
        let t = self.translate_address(address);
        if t < 0x2000 {
            self.memory[t]
        } else if t == 0x2002 {
            self.ppu_regs.status()
        } else if t == 0x2004 {
            self.vram.oam[self.ppu_regs.oamaddr() as usize]
        } else if t == 0x2007 {
            let ppuaddr = self.ppu_regs.ppuaddr();
            self.ppu_regs.increment_ppuaddr();
            self.vram.read8(ppuaddr)
        } else if address >= 0x8000 {
            self.memory[address as usize]
        } else {
            0
        }
    }

    /// A raw little-endian 16-bit fetch, used for the interrupt vectors.
    /// The two bytes are assumed not to straddle a mirror boundary: the
    /// second comes from the slot after the first's translated address.
    pub fn read16(&self, address: u16) -> (r: u16)
        requires
            self.wf(),
            address < 0xFFFF,
        ensures
            r == raw_word(self@, address),
    {
        let real_address = self.translate_address(address);
        let low = self.memory[real_address];
        let high = self.memory[real_address + 1];
        low as u16 + high as u16 * 256
    }

    /// A dispatching bus write; returns the cycle penalty (513 for DMA).
    pub fn write8(&mut self, address: u16, value: u8) -> (cycles: i32)
        requires
            old(self).wf(),
        ensures
            final(self).wf(),
            final(self)@ == bus_write_step(old(self)@, address, value),
            cycles == bus_write_cost(address),
    {
        let t = self.translate_address(address);
        if t < 0x2000 {
            self.memory.set(t, value);
            0
        } else if t == 0x2000 {
            self.ppu_regs.set_ppuctrl(value);
            0
        } else if t == 0x2001 {
            self.ppu_regs.set_ppumask(value);
            0
        } else if t == 0x2003 {
            self.ppu_regs.set_oamaddr(value);
            0
        } else if t == 0x2004 {
            let oamaddr = self.ppu_regs.oamaddr();
            self.vram.write_oam(oamaddr, value);
            self.ppu_regs.oamaddr = oamaddr.wrapping_add(1);
            0
        } else if t == 0x2005 {
            self.ppu_regs.set_ppuscroll(value);
            0
        } else if t == 0x2006 {
            self.ppu_regs.set_ppuaddr(value);
            0
        } else if t == 0x2007 {
            let ppuaddr = self.ppu_regs.ppuaddr();
            self.vram.write8(ppuaddr, value);
            self.ppu_regs.increment_ppuaddr();
            0
        } else if address == 0x4014 {
            // OAM DMA: copy one CPU page into OAM, wrapping at OAMADDR.
            let page: usize = (value as usize) * 256;
            let cpu_page = copy_range(&self.memory, page, 256);
            let oamaddr = self.ppu_regs.oamaddr();
            self.vram.write_oam_dma(oamaddr, &cpu_page);
            proof {
                let s = old(self)@;
                assert forall|k: int| 0 <= k < 256 implies self.vram.oam@[k] == dma_oam(s, value)[k]
                by {
                    let i = (k - s.ppu.oamaddr as int) % 256;
                    assert(0 <= i < 256);
                    assert((s.ppu.oamaddr + i) % 256 == k);
                    assert(self.vram.oam@[(s.ppu.oamaddr + i) % 256] == cpu_page@[i]);
                }
                assert(self.vram.oam@ =~= dma_oam(s, value));
            }
            513
        } else {
            0
        }
    }

    /// A dispatching bus write addressed by an `AbsoluteAddress`.
    pub fn write8x(&mut self, address: &AbsoluteAddress, value: u8) -> (cycles: i32)
        requires
            old(self).wf(),
        ensures
            final(self).wf(),
            final(self)@ == bus_write_step(old(self)@, address.0, value),
            cycles == bus_write_cost(address.0),
    {
        self.write8(address.to_u16(), value)
    }

    /// Map a PRG bank at $8000-$BFFF.
    pub fn load_prg_bank1(&mut self, rom: &PrgRomBank)
        requires
            old(self).wf(),
            rom.wf(),
        ensures
            final(self).wf(),
            final(self)@ == (BusView {
                mem: old(self)@.mem.subrange(0, 0x8000) + rom.data@ + old(self)@.mem.subrange(
                    0xC000,
                    0x10000,
                ),
                ..old(self)@
            }),
    {
        self.load_bank_at(rom, 0x8000);
        proof {
            assert(self@.mem =~= old(self)@.mem.subrange(0, 0x8000) + rom.data@
                + old(self)@.mem.subrange(0xC000, 0x10000));
        }
    }

    /// Map a PRG bank at $C000-$FFFF.
    pub fn load_prg_bank2(&mut self, rom: &PrgRomBank)
        requires
            old(self).wf(),
            rom.wf(),
        ensures
            final(self).wf(),
            final(self)@ == (BusView {
                mem: old(self)@.mem.subrange(0, 0xC000) + rom.data@,
                ..old(self)@
            }),
    {
        self.load_bank_at(rom, 0xC000);
        proof {
            assert(self@.mem =~= old(self)@.mem.subrange(0, 0xC000) + rom.data@);
        }
    }

    /// Address translation in its bitwise form: below $2000 the
    /// translated address is `a & 0x07FF`; in the port region
    /// $2000-$3FFF it is `0x2000 | (a & 7)`.
    pub proof fn lemma_translate_bitwise(address: u16)
        ensures
            address < 0x2000 ==> spec_translate(address) == address & 0x07FF,
            0x2000 <= address < 0x4000 ==> spec_translate(address) == 0x2000 | (address & 7),
    {
        assert(address < 0x2000 ==> address % 0x800 == address & 0x07FF) by (bit_vector);
        assert(0x2000 <= address < 0x4000 ==> (0x2000 + address % 8) as u16 == 0x2000 | (address
            & 7)) by (bit_vector);
    }

    /// A 16-bit raw read composes its bytes from two dispatching 8-bit
    /// reads, little-endian, whenever the two addresses stay within one
    /// mirror copy of RAM or lie in PRG-ROM: regions where a bus read
    /// is a plain memory read with no port side effect.
    pub proof fn lemma_read16_composes(s: BusView, address: u16)
        requires
            bus_wf(s),
            address < 0xFFFF,
            address + 1 < 0x2000 || address >= 0x8000,
            spec_translate((address + 1) as u16) == spec_translate(address) + 1,
        ensures
            raw_word(s, address) == bus_read_val(s, address) + bus_read_val(
                s,
                (address + 1) as u16,
            ) * 256,
    {
    }

    fn load_bank_at(&mut self, rom: &PrgRomBank, base: usize)
        requires
            old(self).wf(),
            rom.wf(),
            base + 0x4000 <= 0x10000,
        ensures
            final(self).wf(),
            final(self).ppu_regs == old(self).ppu_regs,
            final(self).vram == old(self).vram,
            forall|j: int|
                base <= j < base + 0x4000 ==> final(self).memory@[j] == rom.data@[j - base],
            forall|j: int|
                0 <= j < 0x10000 && !(base <= j < base + 0x4000) ==> final(self).memory@[j] == old(
                    self,
                ).memory@[j],
    {
        let mut i: usize = 0;
        while i < 0x4000
            invariant
                i <= 0x4000,
                self.wf(),
                rom.wf(),
                base + 0x4000 <= 0x10000,
                self.ppu_regs == old(self).ppu_regs,
                self.vram == old(self).vram,
                forall|j: int| base <= j < base + i ==> self.memory@[j] == rom.data@[j - base],
                forall|j: int|
                    0 <= j < 0x10000 && !(base <= j < base + i) ==> self.memory@[j] == old(
                        self,
                    ).memory@[j],
            decreases 0x4000 - i,
        {
            self.memory.set(base + i, rom.data[i]);
            i = i + 1;
        }
    }
}

} // verus!
