//! An instruction-stepped emulator core for the Nintendo Entertainment
//! System: a 6502-variant CPU (the Ricoh 2A03, no decimal mode), its bus
//! and memory map, the picture processor's register file and dot/scanline
//! timing, and the iNES cartridge format for mapper 0 (NROM).
//!
//! Every state change is specified: instruction side effects on registers,
//! memory and flags, addressing-mode quirks (indirect-JMP page wrap, indexed
//! page-crossing penalties), cycle accounting, and the VBlank/NMI path.

pub mod cartridge;
pub mod cpu;
pub mod cpuregisters;
pub mod nes;
pub mod opcodes;
pub mod ppu;
pub mod ppu_registers;
pub mod ram_controller;
pub mod stack;
pub mod vram_controller;

use vstd::prelude::*;

verus! {

/// Truncate a mathematical integer to a byte, as 8-bit hardware registers do.
pub open spec fn wrap8(v: int) -> u8 {
    (v % 256) as u8
}

/// Truncate a mathematical integer to 16 bits, as the address bus does.
pub open spec fn wrap16(v: int) -> u16 {
    (v % 0x10000) as u16
}

/// Two addresses lie on the same 256-byte page.
pub open spec fn same_page(a: u16, b: u16) -> bool {
    a / 256 == b / 256
}

/// A zero-filled byte buffer, as RAM and VRAM power up in this model.
pub fn zero_vec(n: usize) -> (r: Vec<u8>)
    ensures
        r@.len() == n,
        forall|i: int| 0 <= i < n ==> r@[i] == 0u8,
{
    let mut v: Vec<u8> = Vec::new();
    let mut i: usize = 0;
    while i < n
        invariant
            i <= n,
            v@.len() == i,
            forall|j: int| 0 <= j < i ==> v@[j] == 0u8,
        decreases n - i,
    {
        v.push(0);
        i = i + 1;
    }
    v
}

/// A copy of `bytes[start .. start + len]`.
pub fn copy_range(bytes: &Vec<u8>, start: usize, len: usize) -> (r: Vec<u8>)
    requires
        start + len <= bytes@.len(),
    ensures
        r@ == bytes@.subrange(start as int, start + len),
{
    let n: usize = bytes.len();
    let mut v: Vec<u8> = Vec::new();
    let mut i: usize = 0;
    while i < len
        invariant
            i <= len,
            start + len <= n,
            n == bytes@.len(),
            v@.len() == i,
            forall|j: int| 0 <= j < i ==> v@[j] == bytes@[start + j],
        decreases len - i,
    {
        v.push(bytes[start + i]);
        i = i + 1;
    }
    proof {
        assert(v@ =~= bytes@.subrange(start as int, start + len));
    }
    v
}

} // verus!
