//! The picture address space: 16 KiB of VRAM (pattern tables, nametables,
//! palette) and the 256-byte object attribute memory, with the OAM DMA
//! bulk copy.

use vstd::prelude::*;
use crate::cartridge::ChrRomBank;
use crate::zero_vec;

verus! {

pub const VRAM_SIZE: usize = 0x4000;

pub const OAM_SIZE: usize = 256;

/// VRAM and OAM. Addresses into VRAM wrap at 16 KiB, mirroring the PPU's
/// 14-bit address bus.
pub struct VRAMController {
    pub memory: Vec<u8>,
    pub oam: Vec<u8>,
}

impl VRAMController {
    pub open spec fn wf(&self) -> bool {
        &&& self.memory@.len() == VRAM_SIZE
        &&& self.oam@.len() == OAM_SIZE
    }

    pub fn new() -> (r: VRAMController)
        ensures
            r.wf(),
            forall|i: int| 0 <= i < VRAM_SIZE ==> r.memory@[i] == 0u8,
            forall|i: int| 0 <= i < OAM_SIZE ==> r.oam@[i] == 0u8,
    {
        VRAMController { memory: zero_vec(VRAM_SIZE), oam: zero_vec(OAM_SIZE) }
    }

    pub fn write8(&mut self, address: u16, value: u8)
        requires
            old(self).wf(),
        ensures
            final(self).wf(),
            final(self).memory@ == old(self).memory@.update((address % 0x4000) as int, value),
            final(self).oam == old(self).oam,
    {
        let index: usize = (address % 0x4000) as usize;
        self.memory.set(index, value);
    }

    pub fn read8(&self, address: u16) -> (r: u8)
        requires
            self.wf(),
        ensures
            r == self.memory@[(address % 0x4000) as int],
    {
        self.memory[(address % 0x4000) as usize]
    }

    /// OAM DMA: copy 256 bytes into OAM starting at `oamaddr`, wrapping
    /// modulo 256.
    pub fn write_oam_dma(&mut self, oamaddr: u8, data: &Vec<u8>)
        requires
            old(self).wf(),
            data@.len() == OAM_SIZE,
        ensures
            final(self).wf(),
            final(self).memory == old(self).memory,
            forall|i: int|
                0 <= i < OAM_SIZE ==> final(self).oam@[(oamaddr + i) % 256] == data@[i],
    {
        let mut i: usize = 0;
        while i < OAM_SIZE
            invariant
                i <= OAM_SIZE,
                self.wf(),
                data@.len() == OAM_SIZE,
                self.memory == old(self).memory,
                forall|j: int| 0 <= j < i ==> self.oam@[(oamaddr + j) % 256] == data@[j],
            decreases OAM_SIZE - i,
        {
            let index: usize = (oamaddr as usize + i) % 256;
            self.oam.set(index, data[i]);
            proof {
                assert forall|j: int| 0 <= j < i + 1 implies self.oam@[(oamaddr + j) % 256]
                    == data@[j] by {
                    if j < i {
                        assert((oamaddr + j) % 256 != (oamaddr + i) % 256);
                    }
                }
            }
            i = i + 1;
        }
    }

    pub fn write_oam(&mut self, index: u8, value: u8)
        requires
            old(self).wf(),
        ensures
            final(self).wf(),
            final(self).oam@ == old(self).oam@.update(index as int, value),
            final(self).memory == old(self).memory,
    {
        self.oam.set(index as usize, value);
    }

    /// A copy of the first nametable ($2000-$23FF).
    pub fn nametable0(&self) -> (r: Vec<u8>)
        requires
            self.wf(),
        ensures
            r@ == self.memory@.subrange(0x2000, 0x2400),
    {
        crate::copy_range(&self.memory, 0x2000, 0x400)
    }

    /// Copy an 8 KiB CHR bank into the pattern tables at $0000-$1FFF.
    pub fn load_chr_rom(&mut self, rom: &ChrRomBank)
        requires
            old(self).wf(),
            rom.wf(),
        ensures
            final(self).wf(),
            final(self).memory@ == rom.data@ + old(self).memory@.subrange(0x2000, 0x4000),
            final(self).oam == old(self).oam,
    {
        let mut i: usize = 0;
        while i < 0x2000
            invariant
                i <= 0x2000,
                self.wf(),
                rom.wf(),
                self.oam == old(self).oam,
                forall|j: int| 0 <= j < i ==> self.memory@[j] == rom.data@[j],
                forall|j: int| i <= j < 0x4000 ==> self.memory@[j] == old(self).memory@[j],
            decreases 0x2000 - i,
        {
            self.memory.set(i, rom.data[i]);
            i = i + 1;
        }
        proof {
            assert(self.memory@ =~= rom.data@ + old(self).memory@.subrange(0x2000, 0x4000));
        }
    }
}

} // verus!
