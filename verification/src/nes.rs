//! The orchestrator: builds the machine from a cartridge and runs the
//! interlocked step loop — one CPU instruction, then three PPU dots per
//! CPU cycle, then NMI delivery if VBlank began with NMI enabled.

use vstd::prelude::*;
use crate::cartridge::Cartridge;
use crate::cpu::{CPU, RESET_VECTOR};
use crate::cpuregisters::CPURegisters;
use crate::opcodes::InstructionType;
use crate::ppu::{PPU, PPUResult, FRAME_DOTS};
use crate::ppu_registers::PPURegisters;
use crate::ram_controller::{RamController, BusView, raw_word, raw_byte};
use crate::vram_controller::VRAMController;

verus! {

/// CPU cycles after power-up during which the PPU ignores configuration
/// writes.
pub const POWERUP_CYCLES: u64 = 29658;

/// A fatal condition the step loop reports to its host.
#[derive(Clone, Copy, PartialEq, Eq, Structural, Debug)]
pub enum EmuError {
    /// An undefined opcode byte was fetched; the machine has jammed.
    ExecutionError(u8),
}

/// The whole machine: CPU, bus (which owns the PPU register file, RAM,
/// VRAM and OAM) and the PPU timing core, with the running cycle count.
pub struct Nes {
    pub cpu: CPU,
    pub memory: RamController,
    pub ppu: PPU,
    pub total_cycles: u64,
}

impl Nes {
    pub open spec fn wf(&self) -> bool {
        &&& self.cpu.registers.wf()
        &&& self.memory.wf()
        &&& self.ppu.wf()
    }

    /// Assemble a machine from an NROM cartridge: PRG banks mapped at
    /// $8000 and $C000 (a single bank mirrored), the CHR bank in the
    /// pattern tables, the CPU reset through the vector at $FFFC, and
    /// the cycle counter at 7 (the cost of the reset sequence).
    pub fn new(cartridge: &Cartridge) -> (r: Nes)
        requires
            cartridge.wf(),
            1 <= cartridge.prg_rom_banks@.len() <= 2,
            cartridge.chr_rom_banks@.len() == 1,
        ensures
            r.wf(),
            r.ppu.pos() == 0,
            r.total_cycles == 7,
            r.memory@.ppu == PPURegisters::spec_new_powerup(),
            r.cpu.registers == (CPURegisters {
                pc: crate::opcodes::AbsoluteAddress(raw_word(r.memory@, RESET_VECTOR) as u16),
                ..CPURegisters::spec_new()
            }),
            ({
                let b1 = cartridge.prg_rom_banks@[0].data@;
                let b2 = if cartridge.prg_rom_banks@.len() == 2 {
                    cartridge.prg_rom_banks@[1].data@
                } else {
                    cartridge.prg_rom_banks@[0].data@
                };
                &&& r.memory@.mem.subrange(0x8000, 0xC000) == b1
                &&& r.memory@.mem.subrange(0xC000, 0x10000) == b2
                &&& forall|i: int| 0 <= i < 0x8000 ==> r.memory@.mem[i] == 0u8
                &&& r.memory@.vram.subrange(0, 0x2000) == cartridge.chr_rom_banks@[0].data@
            }),
    {
        let mut vram = VRAMController::new();
        vram.load_chr_rom(&cartridge.chr_rom_banks()[0]);

        let mut memory = RamController::new(PPURegisters::new(), vram);
        if cartridge.prg_rom_banks().len() > 1 {
            memory.load_prg_bank1(&cartridge.prg_rom_banks()[0]);
            memory.load_prg_bank2(&cartridge.prg_rom_banks()[1]);
        } else {
            memory.load_prg_bank1(&cartridge.prg_rom_banks()[0]);
            memory.load_prg_bank2(&cartridge.prg_rom_banks()[0]);
        }

        let mut cpu = CPU::new();
        cpu.reset(&memory);
        let ppu = PPU::new();

        proof {
            assert(memory@.mem.subrange(0x8000, 0xC000) =~= cartridge.prg_rom_banks@[0].data@);
            if cartridge.prg_rom_banks@.len() == 2 {
                assert(memory@.mem.subrange(0xC000, 0x10000)
                    =~= cartridge.prg_rom_banks@[1].data@);
            } else {
                assert(memory@.mem.subrange(0xC000, 0x10000)
                    =~= cartridge.prg_rom_banks@[0].data@);
            }
            assert(memory@.vram.subrange(0, 0x2000) =~= cartridge.chr_rom_banks@[0].data@);
        }

        Nes { cpu, memory, ppu, total_cycles: 7 }
    }

    /// The bus once the power-up check at the top of a step has run:
    /// past enough cycles, the PPU register file leaves its write-ignore
    /// window.
    pub open spec fn spec_powerup(s: BusView, total_cycles: u64) -> BusView {
        if total_cycles >= POWERUP_CYCLES {
            BusView { ppu: PPURegisters { in_powerup_state: false, ..s.ppu }, ..s }
        } else {
            s
        }
    }

    /// Run one iteration of the interlocked loop: end the PPU power-up
    /// window once enough cycles have passed, execute one instruction,
    /// advance the PPU three dots per CPU cycle, and deliver an NMI
    /// (7 more cycles, with its own PPU time) if VBlank began with NMI
    /// enabled.
    ///
    /// On success the machine state is exactly the composition: the
    /// decoded instruction's effect, then the PPU's VBlank bookkeeping
    /// over the instruction's dots, then — when that crossed the VBlank
    /// start with NMI enabled — the NMI entry and its own 7 cycles of
    /// PPU time. The cycle counter grows by exactly the returned count,
    /// and the PPU moves three dots per counted cycle. An undefined
    /// opcode jams: the error carries the opcode byte, PC rests past the
    /// fetched byte, and nothing else has changed but the power-up
    /// latch.
    #[verifier::rlimit(100)]
    pub fn step(&mut self) -> (r: Result<i32, EmuError>)
        requires
            old(self).wf(),
            old(self).total_cycles <= 0xFFFF_FFFF_0000_0000,
        ensures
            final(self).wf(),
            r is Ok ==> ({
                let c = r->Ok_0;
                let s0 = Nes::spec_powerup(old(self).memory@, old(self).total_cycles);
                let pc0 = old(self).cpu.registers.pc.0;
                let op = crate::cpu::spec_decoded_op(s0, pc0);
                let r1 = (CPURegisters {
                    pc: crate::opcodes::AbsoluteAddress(
                        crate::wrap16(
                            crate::wrap16(pc0 + 1) + crate::cpu::operand_len(
                                crate::cpu::opcode_row(raw_byte(s0, pc0)).kind,
                            ),
                        ),
                    ),
                    ..old(self).cpu.registers
                });
                let effect = crate::cpu::spec_instr_effect(op, r1, s0);
                let base_cycles = op.cycles + effect.2;
                let pos0 = old(self).ppu.pos();
                let s2 = effect.1;
                let s3 = (BusView {
                    ppu: crate::ppu::spec_vblank_update(s2.ppu, pos0, 3 * base_cycles),
                    ..s2
                });
                let nmi = crate::ppu::crosses(pos0, 3 * base_cycles, crate::ppu::vblank_set_pos())
                    && s2.ppu.ppuctrl & 0x80 == 0x80;
                &&& op.instruction != InstructionType::JAM
                &&& 2 <= c <= 521 + 7
                &&& c == base_cycles + if nmi {
                    7int
                } else {
                    0int
                }
                &&& final(self).cpu.registers == if nmi {
                    crate::cpu::spec_nmi_regs(effect.0, s3)
                } else {
                    effect.0
                }
                &&& final(self).memory@ == if nmi {
                    crate::cpu::spec_nmi_bus(effect.0, s3)
                } else {
                    s3
                }
                &&& final(self).total_cycles == old(self).total_cycles + c
                &&& final(self).ppu.pos() == (old(self).ppu.pos() + 3 * c) % (FRAME_DOTS as int)
            }),
            r is Err ==> ({
                let s0 = Nes::spec_powerup(old(self).memory@, old(self).total_cycles);
                let pc0 = old(self).cpu.registers.pc.0;
                &&& r->Err_0 == EmuError::ExecutionError(raw_byte(s0, pc0))
                &&& crate::cpu::opcode_row(raw_byte(s0, pc0)).instruction == InstructionType::JAM
                &&& final(self).cpu.registers == (CPURegisters {
                    pc: crate::opcodes::AbsoluteAddress(crate::wrap16(pc0 + 1)),
                    ..old(self).cpu.registers
                })
                &&& final(self).memory@ == s0
                &&& final(self).ppu == old(self).ppu
                &&& final(self).total_cycles == old(self).total_cycles
            }),
    {
        // The PPU accepts configuration writes once the power-up window
        // has elapsed.
        if self.total_cycles >= POWERUP_CYCLES {
            self.memory.ppu_regs.set_powerup_state(false);
        }

        let op = self.cpu.decode(&self.memory);
        if matches!(op.instruction, InstructionType::JAM) {
            proof {
                assert(crate::cpu::operand_len(crate::cpu::AddrKind::Implicit) == 0);
                assert(crate::wrap16(crate::wrap16(
                    old(self).cpu.registers.pc.0 + 1,
                ) + 0) == crate::wrap16(old(self).cpu.registers.pc.0 + 1)) by {
                    vstd::arithmetic::div_mod::lemma_small_mod(
                        crate::wrap16(old(self).cpu.registers.pc.0 + 1) as nat,
                        0x10000nat,
                    );
                };
            }
            return Err(EmuError::ExecutionError(op.code));
        }

        let ghost pos0 = self.ppu.pos();
        let cycles = self.cpu.process(&mut self.memory, op);
        let mut total: i32 = cycles;
        proof {
            reveal(crate::cpu::spec_instr);
        }

        let signal = self.ppu.process(cycles * 3, &mut self.memory.ppu_regs);
        if matches!(signal, PPUResult::VBlankNMI) {
            self.cpu.trigger_nmi(&mut self.memory);
            proof {
                crate::ppu::lemma_no_event_soon_after_set(pos0, (3 * cycles) as int);
            }
            // NMI entry costs 7 cycles; keep the PPU in lockstep.
            let _ = self.ppu.process(7 * 3, &mut self.memory.ppu_regs);
            total = total + 7;
            proof {
                vstd::arithmetic::div_mod::lemma_add_mod_noop_right(
                    pos0 + 3 * cycles,
                    21,
                    FRAME_DOTS as int,
                );
            }
        }

        self.total_cycles = self.total_cycles + total as u64;
        Ok(total)
    }
}

} // verus!
