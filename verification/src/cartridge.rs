//! The iNES cartridge image: a 16-byte header, an optional 512-byte
//! trainer, then the PRG-ROM banks (16 KiB each) and CHR-ROM banks
//! (8 KiB each). Only mapper 0 (NROM) is supported.

use vstd::prelude::*;
use crate::copy_range;

verus! {

pub const PRG_BANK_SIZE: usize = 0x4000;

pub const CHR_BANK_SIZE: usize = 0x2000;

/// Why a cartridge image was rejected.
#[derive(Clone, Copy, PartialEq, Eq, Structural, Debug)]
pub enum CartridgeError {
    /// The magic prefix "NES" $1A is missing.
    HeaderError,
    /// The image ends before the banks its header promises.
    TruncatedError,
    /// The cartridge names a mapper other than 0 (NROM).
    UnsupportedError,
}

/// One 16 KiB bank of program ROM.
pub struct PrgRomBank {
    pub data: Vec<u8>,
}

/// One 8 KiB bank of pattern-table ROM.
pub struct ChrRomBank {
    pub data: Vec<u8>,
}

/// A parsed cartridge: the ordered PRG and CHR banks, immutable after load.
pub struct Cartridge {
    pub prg_rom_banks: Vec<PrgRomBank>,
    pub chr_rom_banks: Vec<ChrRomBank>,
}

/// The image begins with "NES" followed by $1A.
pub open spec fn spec_has_magic(b: Seq<u8>) -> bool {
    b.len() >= 16 && b[0] == 0x4Eu8 && b[1] == 0x45u8 && b[2] == 0x53u8 && b[3] == 0x1Au8
}

/// Bytes taken by the optional trainer that precedes the PRG banks.
pub open spec fn spec_trainer_len(b: Seq<u8>) -> int {
    if b[6] & 0x04 == 0x04 {
        512
    } else {
        0
    }
}

/// The mapper number's low nibble, from flags byte 6.
pub open spec fn spec_mapper_low(b: Seq<u8>) -> int {
    b[6] as int / 16
}

/// Total bytes the header promises the image holds.
pub open spec fn spec_total_len(b: Seq<u8>) -> int {
    16 + spec_trainer_len(b) + b[4] * PRG_BANK_SIZE + b[5] * CHR_BANK_SIZE
}

/// Byte range of PRG bank `i` within the image.
pub open spec fn spec_prg_bank(b: Seq<u8>, i: int) -> Seq<u8> {
    b.subrange(
        16 + spec_trainer_len(b) + i * PRG_BANK_SIZE,
        16 + spec_trainer_len(b) + (i + 1) * PRG_BANK_SIZE,
    )
}

/// Byte range of CHR bank `i` within the image.
pub open spec fn spec_chr_bank(b: Seq<u8>, i: int) -> Seq<u8> {
    b.subrange(
        16 + spec_trainer_len(b) + b[4] * PRG_BANK_SIZE + i * CHR_BANK_SIZE,
        16 + spec_trainer_len(b) + b[4] * PRG_BANK_SIZE + (i + 1) * CHR_BANK_SIZE,
    )
}

impl PrgRomBank {
    pub open spec fn wf(&self) -> bool {
        self.data@.len() == PRG_BANK_SIZE
    }

    pub fn new(data: Vec<u8>) -> (r: PrgRomBank)
        requires
            data@.len() == PRG_BANK_SIZE,
        ensures
            r.data == data,
            r.wf(),
    {
        PrgRomBank { data }
    }

    pub fn get_data(&self) -> (r: &Vec<u8>)
        ensures
            r == &self.data,
    {
        &self.data
    }
}

impl ChrRomBank {
    pub open spec fn wf(&self) -> bool {
        self.data@.len() == CHR_BANK_SIZE
    }

    pub fn new(data: Vec<u8>) -> (r: ChrRomBank)
        requires
            data@.len() == CHR_BANK_SIZE,
        ensures
            r.data == data,
            r.wf(),
    {
        ChrRomBank { data }
    }

    pub fn get_data(&self) -> (r: &Vec<u8>)
        ensures
            r == &self.data,
    {
        &self.data
    }
}

impl Cartridge {
    pub open spec fn wf(&self) -> bool {
        &&& forall|i: int| 0 <= i < self.prg_rom_banks@.len() ==> self.prg_rom_banks@[i].wf()
        &&& forall|i: int| 0 <= i < self.chr_rom_banks@.len() ==> self.chr_rom_banks@[i].wf()
    }

    /// Parse an iNES image.
    ///
    /// Succeeds exactly on an image with the magic prefix, mapper 0, and
    /// as many bytes as the header promises; the banks are then the
    /// corresponding byte ranges of the image, in order.
    pub fn load(bytes: &Vec<u8>) -> (r: Result<Cartridge, CartridgeError>)
        ensures
            r is Ok <==> spec_has_magic(bytes@) && spec_mapper_low(bytes@) == 0
                && spec_total_len(bytes@) <= bytes@.len(),
            r is Ok ==> {
                let c = r->Ok_0;
                &&& c.wf()
                &&& c.prg_rom_banks@.len() == bytes@[4]
                &&& c.chr_rom_banks@.len() == bytes@[5]
                &&& forall|i: int|
                    0 <= i < bytes@[4] ==> c.prg_rom_banks@[i].data@ == spec_prg_bank(bytes@, i)
                &&& forall|i: int|
                    0 <= i < bytes@[5] ==> c.chr_rom_banks@[i].data@ == spec_chr_bank(bytes@, i)
            },
            r is Err ==> {
                let e = r->Err_0;
                &&& e == CartridgeError::TruncatedError <==> bytes@.len() < 16 || (spec_has_magic(
                    bytes@,
                ) && spec_mapper_low(bytes@) == 0 && spec_total_len(bytes@) > bytes@.len())
                &&& e == CartridgeError::HeaderError <==> bytes@.len() >= 16 && !spec_has_magic(
                    bytes@,
                )
                &&& e == CartridgeError::UnsupportedError <==> spec_has_magic(bytes@)
                    && spec_mapper_low(bytes@) != 0
            },
    {
        if bytes.len() < 16 {
            return Err(CartridgeError::TruncatedError);
        }
        if !(bytes[0] == 0x4E && bytes[1] == 0x45 && bytes[2] == 0x53 && bytes[3] == 0x1A) {
            return Err(CartridgeError::HeaderError);
        }
        let prg_rom_bank_count = bytes[4] as usize;
        let chr_rom_bank_count = bytes[5] as usize;
        let flags6 = bytes[6];
        if flags6 / 16 != 0 {
            return Err(CartridgeError::UnsupportedError);
        }
        let trainer_len: usize = if (flags6 & 0x04) == 0x04 {
            512
        } else {
            0
        };
        let total_len: usize = 16 + trainer_len + prg_rom_bank_count * PRG_BANK_SIZE
            + chr_rom_bank_count * CHR_BANK_SIZE;
        if total_len > bytes.len() {
            return Err(CartridgeError::TruncatedError);
        }

        let prg_base: usize = 16 + trainer_len;
        let mut prg_rom_banks: Vec<PrgRomBank> = Vec::new();
        let mut i: usize = 0;
        while i < prg_rom_bank_count
            invariant
                i <= prg_rom_bank_count,
                prg_rom_bank_count == bytes@[4],
                prg_base == 16 + spec_trainer_len(bytes@),
                prg_base + prg_rom_bank_count * PRG_BANK_SIZE <= bytes@.len(),
                prg_rom_banks@.len() == i,
                forall|j: int| 0 <= j < i ==> prg_rom_banks@[j].wf(),
                forall|j: int|
                    0 <= j < i ==> prg_rom_banks@[j].data@ == spec_prg_bank(bytes@, j),
            decreases prg_rom_bank_count - i,
        {
            proof {
                assert(i * PRG_BANK_SIZE + PRG_BANK_SIZE <= prg_rom_bank_count * PRG_BANK_SIZE)
                    by (nonlinear_arith)
                    requires
                        i < prg_rom_bank_count,
                ;
            }
            let bank = copy_range(bytes, prg_base + i * PRG_BANK_SIZE, PRG_BANK_SIZE);
            prg_rom_banks.push(PrgRomBank::new(bank));
            i = i + 1;
        }

        let chr_base: usize = prg_base + prg_rom_bank_count * PRG_BANK_SIZE;
        let mut chr_rom_banks: Vec<ChrRomBank> = Vec::new();
        let mut i: usize = 0;
        while i < chr_rom_bank_count
            invariant
                i <= chr_rom_bank_count,
                chr_rom_bank_count == bytes@[5],
                chr_base == 16 + spec_trainer_len(bytes@) + bytes@[4] * PRG_BANK_SIZE,
                chr_base + chr_rom_bank_count * CHR_BANK_SIZE <= bytes@.len(),
                chr_rom_banks@.len() == i,
                forall|j: int| 0 <= j < i ==> chr_rom_banks@[j].wf(),
                forall|j: int|
                    0 <= j < i ==> chr_rom_banks@[j].data@ == spec_chr_bank(bytes@, j),
            decreases chr_rom_bank_count - i,
        {
            proof {
                assert(i * CHR_BANK_SIZE + CHR_BANK_SIZE <= chr_rom_bank_count * CHR_BANK_SIZE)
                    by (nonlinear_arith)
                    requires
                        i < chr_rom_bank_count,
                ;
            }
            let bank = copy_range(bytes, chr_base + i * CHR_BANK_SIZE, CHR_BANK_SIZE);
            chr_rom_banks.push(ChrRomBank::new(bank));
            i = i + 1;
        }

        Ok(Cartridge { prg_rom_banks, chr_rom_banks })
    }

    pub fn prg_rom_banks(&self) -> (r: &Vec<PrgRomBank>)
        ensures
            r == &self.prg_rom_banks,
    {
        &self.prg_rom_banks
    }

    pub fn chr_rom_banks(&self) -> (r: &Vec<ChrRomBank>)
        ensures
            r == &self.chr_rom_banks,
    {
        &self.chr_rom_banks
    }
}

} // verus!
