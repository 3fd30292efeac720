use nes_core::cartridge::{Cartridge, CartridgeError};
use nes_core::nes::Nes;
use nes_core::ppu::{PPU, PPUResult};
use nes_core::ppu_registers::PPURegisters;
use nes_core::ram_controller::RamController;
use nes_core::vram_controller::VRAMController;

fn fresh_bus() -> RamController {
    RamController::new(PPURegisters::new(), VRAMController::new())
}

fn awake_bus() -> RamController {
    let mut regs = PPURegisters::new();
    regs.set_powerup_state(false);
    RamController::new(regs, VRAMController::new())
}

/// A minimal iNES image: one PRG bank filled with NOPs, one zeroed CHR
/// bank, reset vector $8000, NMI vector $9000.
fn nop_rom() -> Vec<u8> {
    let mut bytes = vec![0x4E, 0x45, 0x53, 0x1A, 1, 1, 0, 0, 0, 0, 0, 0, 0, 0, 0, 0];
    let mut prg = vec![0xEA; 0x4000];
    prg[0x3FFA] = 0x00; // NMI vector low
    prg[0x3FFB] = 0x90; // NMI vector high
    prg[0x3FFC] = 0x00; // reset vector low
    prg[0x3FFD] = 0x80; // reset vector high
    bytes.extend_from_slice(&prg);
    bytes.extend_from_slice(&vec![0u8; 0x2000]);
    bytes
}

/// As `nop_rom`, but the reset code spins on `JMP $8000` and the NMI
/// handler spins on `JMP $9000`, so the PC tells which one is running.
fn loop_rom() -> Vec<u8> {
    let mut bytes = vec![0x4E, 0x45, 0x53, 0x1A, 1, 1, 0, 0, 0, 0, 0, 0, 0, 0, 0, 0];
    let mut prg = vec![0xEA; 0x4000];
    prg[0x0000] = 0x4C; // JMP $8000
    prg[0x0001] = 0x00;
    prg[0x0002] = 0x80;
    prg[0x1000] = 0x4C; // JMP $9000
    prg[0x1001] = 0x00;
    prg[0x1002] = 0x90;
    prg[0x3FFA] = 0x00;
    prg[0x3FFB] = 0x90;
    prg[0x3FFC] = 0x00;
    prg[0x3FFD] = 0x80;
    bytes.extend_from_slice(&prg);
    bytes.extend_from_slice(&vec![0u8; 0x2000]);
    bytes
}

#[test]
fn translate_masks_ram_mirrors() {
    let mem = fresh_bus();
    assert_eq!(mem.translate_address(0x0000), 0x0000);
    assert_eq!(mem.translate_address(0x07FF), 0x07FF);
    assert_eq!(mem.translate_address(0x0800), 0x0000);
    assert_eq!(mem.translate_address(0x1805), 0x0005);
    assert_eq!(mem.translate_address(0x1FFF), 0x07FF);
}

#[test]
fn translate_masks_ppu_port_mirrors() {
    let mem = fresh_bus();
    assert_eq!(mem.translate_address(0x2000), 0x2000);
    assert_eq!(mem.translate_address(0x2008), 0x2000);
    assert_eq!(mem.translate_address(0x3456), 0x2006);
    assert_eq!(mem.translate_address(0x3FFF), 0x2007);
    assert_eq!(mem.translate_address(0x4014), 0x4014);
    assert_eq!(mem.translate_address(0x8000), 0x8000);
}

#[test]
fn ram_mirrors_alias_the_same_bytes() {
    let mut mem = fresh_bus();
    mem.write8(0x0042, 0xAB);
    assert_eq!(mem.read8(0x0842), 0xAB);
    assert_eq!(mem.read8(0x1042), 0xAB);
    assert_eq!(mem.read8(0x1842), 0xAB);
}

#[test]
fn read16_composes_two_read8_in_ram() {
    let mut mem = fresh_bus();
    mem.write8(0x0300, 0xCD);
    mem.write8(0x0301, 0xAB);
    let lo = mem.read8(0x0300) as u16;
    let hi = mem.read8(0x0301) as u16;
    assert_eq!(mem.read16(0x0300), lo | (hi << 8));
    assert_eq!(mem.read16(0x0300), 0xABCD);
}

#[test]
fn ppustatus_read_clears_vblank_and_toggle() {
    let mut mem = awake_bus();
    mem.ppu_regs.set_vblank();
    let first = mem.read8(0x2002);
    assert_eq!(first & 0x80, 0x80);
    let second = mem.read8(0x2002);
    assert_eq!(second & 0x80, 0x00);
}

#[test]
fn ppuscroll_toggle_resets_after_status_read() {
    let mut mem = awake_bus();
    mem.write8(0x2005, 0x11);
    mem.write8(0x2005, 0x22);
    assert_eq!(mem.ppu_regs.ppuscroll_x, 0x11);
    assert_eq!(mem.ppu_regs.ppuscroll_y, 0x22);
    // Two writes leave the toggle clear; a third lands in x. Read
    // PPUSTATUS mid-pair to force the toggle back to x.
    mem.write8(0x2005, 0x33);
    let _ = mem.read8(0x2002);
    mem.write8(0x2005, 0x44);
    assert_eq!(mem.ppu_regs.ppuscroll_x, 0x44);
    assert_eq!(mem.ppu_regs.ppuscroll_y, 0x22);
}

#[test]
fn ppuaddr_then_ppudata_writes_vram_with_increment_one() {
    let mut mem = awake_bus();
    // High byte first, then low: $0123.
    mem.write8(0x2006, 0x01);
    mem.write8(0x2006, 0x23);
    mem.write8(0x2007, 0xAA);
    mem.write8(0x2007, 0xBB);
    assert_eq!(mem.vram.read8(0x0123), 0xAA);
    assert_eq!(mem.vram.read8(0x0124), 0xBB);
}

#[test]
fn ppudata_increment_32_when_ctrl_bit2_set() {
    let mut mem = awake_bus();
    mem.write8(0x2000, 0x04);
    mem.write8(0x2006, 0x20);
    mem.write8(0x2006, 0x00);
    mem.write8(0x2007, 0x11);
    mem.write8(0x2007, 0x22);
    assert_eq!(mem.vram.read8(0x2000), 0x11);
    assert_eq!(mem.vram.read8(0x2020), 0x22);
}

#[test]
fn powerup_window_ignores_ctrl_but_latches_low_bits() {
    let mut mem = fresh_bus();
    mem.write8(0x2000, 0x9F);
    assert_eq!(mem.ppu_regs.ppuctrl, 0x00);
    assert_eq!(mem.ppu_regs.ppustatus & 0x1F, 0x1F);
}

#[test]
fn oamaddr_and_oamdata_ports() {
    let mut mem = awake_bus();
    mem.write8(0x2003, 0x10);
    mem.write8(0x2004, 0xDE);
    assert_eq!(mem.ppu_regs.oamaddr, 0x11);
    mem.write8(0x2003, 0x10);
    assert_eq!(mem.read8(0x2004), 0xDE);
}

#[test]
fn oam_dma_copies_a_page_with_wraparound() {
    let mut mem = awake_bus();
    for i in 0..256u32 {
        mem.write8(0x0200 + i as u16, i as u8);
    }
    mem.write8(0x2003, 0x10);
    let cycles = mem.write8(0x4014, 0x02);
    assert_eq!(cycles, 513);
    for i in 0..256u32 {
        let slot = ((0x10 + i) % 256) as u8;
        assert_eq!(mem.vram.oam[slot as usize], i as u8);
    }
}

#[test]
fn prg_rom_absorbs_writes() {
    let mut mem = fresh_bus();
    mem.write8(0x8000, 0x55);
    assert_eq!(mem.read8(0x8000), 0x00);
}

#[test]
fn ppu_sets_vblank_at_scanline_241_dot_1() {
    let mut ppu = PPU::new();
    let mut regs = PPURegisters::new();
    // Advance to one dot before (241, 1).
    let target = 241 * 341 + 1;
    let mut remaining = target - 1;
    while remaining > 0 {
        let chunk = remaining.min(6000);
        let r = ppu.process(chunk, &mut regs);
        assert_eq!(r, PPUResult::Normal);
        remaining -= chunk;
    }
    assert_eq!(regs.ppustatus & 0x80, 0x00);
    assert_eq!(ppu.scanline(), 241);
    assert_eq!(ppu.pixel(), 0);
    let r = ppu.process(1, &mut regs);
    // NMI is disabled, so the signal stays quiet, but VBlank is set.
    assert_eq!(r, PPUResult::Normal);
    assert_eq!(regs.ppustatus & 0x80, 0x80);
    assert_eq!(ppu.scanline(), 241);
    assert_eq!(ppu.pixel(), 1);
}

#[test]
fn ppu_raises_nmi_signal_when_enabled() {
    let mut ppu = PPU::new();
    let mut regs = PPURegisters::new();
    regs.set_powerup_state(false);
    regs.set_ppuctrl(0x80);
    let target = 241 * 341 + 1;
    let mut remaining = target - 1;
    while remaining > 0 {
        let chunk = remaining.min(6000);
        ppu.process(chunk, &mut regs);
        remaining -= chunk;
    }
    let r = ppu.process(1, &mut regs);
    assert_eq!(r, PPUResult::VBlankNMI);
}

#[test]
fn ppu_clears_vblank_at_prerender_and_wraps_the_frame() {
    let mut ppu = PPU::new();
    let mut regs = PPURegisters::new();
    let mut remaining = 241 * 341 + 1;
    while remaining > 0 {
        let chunk = remaining.min(6000);
        ppu.process(chunk, &mut regs);
        remaining -= chunk;
    }
    assert_eq!(regs.ppustatus & 0x80, 0x80);
    // On to (261, 1), where VBlank clears.
    let mut remaining = 20 * 341;
    while remaining > 0 {
        let chunk = remaining.min(6000);
        ppu.process(chunk, &mut regs);
        remaining -= chunk;
    }
    assert_eq!(ppu.scanline(), 261);
    assert_eq!(ppu.pixel(), 1);
    assert_eq!(regs.ppustatus & 0x80, 0x00);
    // The rest of the pre-render line wraps back to (0, 0).
    ppu.process(341 - 1, &mut regs);
    assert_eq!(ppu.scanline(), 0);
    assert_eq!(ppu.pixel(), 0);
}

#[test]
fn cartridge_load_parses_banks_in_order() {
    let mut bytes = vec![0x4E, 0x45, 0x53, 0x1A, 2, 1, 0, 0, 0, 0, 0, 0, 0, 0, 0, 0];
    bytes.extend_from_slice(&vec![0x11u8; 0x4000]);
    bytes.extend_from_slice(&vec![0x22u8; 0x4000]);
    bytes.extend_from_slice(&vec![0x33u8; 0x2000]);
    let c = Cartridge::load(&bytes).unwrap();
    assert_eq!(c.prg_rom_banks().len(), 2);
    assert_eq!(c.chr_rom_banks().len(), 1);
    assert_eq!(c.prg_rom_banks()[0].get_data()[0], 0x11);
    assert_eq!(c.prg_rom_banks()[1].get_data()[0x3FFF], 0x22);
    assert_eq!(c.chr_rom_banks()[0].get_data()[0x1000], 0x33);
}

#[test]
fn cartridge_load_skips_trainer() {
    let mut bytes = vec![0x4E, 0x45, 0x53, 0x1A, 1, 0, 0x04, 0, 0, 0, 0, 0, 0, 0, 0, 0];
    bytes.extend_from_slice(&vec![0xFFu8; 512]);
    bytes.extend_from_slice(&vec![0x77u8; 0x4000]);
    let c = Cartridge::load(&bytes).unwrap();
    assert_eq!(c.prg_rom_banks()[0].get_data()[0], 0x77);
    assert_eq!(c.chr_rom_banks().len(), 0);
}

#[test]
fn cartridge_load_rejects_bad_magic() {
    let bytes = vec![0x4E, 0x45, 0x54, 0x1A, 1, 1, 0, 0, 0, 0, 0, 0, 0, 0, 0, 0];
    assert!(matches!(Cartridge::load(&bytes), Err(CartridgeError::HeaderError)));
}

#[test]
fn cartridge_load_rejects_short_image() {
    let bytes = vec![0x4E, 0x45, 0x53, 0x1A, 1, 1, 0, 0, 0, 0, 0, 0, 0, 0, 0, 0];
    // Header promises a PRG and a CHR bank, but none follow.
    assert!(matches!(Cartridge::load(&bytes), Err(CartridgeError::TruncatedError)));
    assert!(matches!(Cartridge::load(&vec![0x4E]), Err(CartridgeError::TruncatedError)));
}

#[test]
fn cartridge_load_rejects_nonzero_mapper() {
    let mut bytes = vec![0x4E, 0x45, 0x53, 0x1A, 1, 0, 0x40, 0, 0, 0, 0, 0, 0, 0, 0, 0];
    bytes.extend_from_slice(&vec![0u8; 0x4000]);
    assert!(matches!(Cartridge::load(&bytes), Err(CartridgeError::UnsupportedError)));
}

#[test]
fn nes_maps_a_single_prg_bank_twice() {
    let rom = nop_rom();
    let c = Cartridge::load(&rom).unwrap();
    let mut nes = Nes::new(&c);
    assert_eq!(nes.cpu.registers.pc().to_u16(), 0x8000);
    assert_eq!(nes.memory.read8(0x8000), 0xEA);
    assert_eq!(nes.memory.read8(0xC000), 0xEA);
    assert_eq!(nes.memory.read8(0xFFFC), 0x00);
    assert_eq!(nes.memory.read8(0xFFFD), 0x80);
    assert_eq!(nes.total_cycles, 7);
}

#[test]
fn nes_steps_nops_and_advances_ppu_in_lockstep() {
    let rom = nop_rom();
    let c = Cartridge::load(&rom).unwrap();
    let mut nes = Nes::new(&c);
    let cycles = nes.step().unwrap();
    assert_eq!(cycles, 2);
    assert_eq!(nes.cpu.registers.pc().to_u16(), 0x8001);
    assert_eq!(nes.total_cycles, 9);
    assert_eq!(nes.ppu.frame_cycle, 6);
}

#[test]
fn ppudata_read_returns_vram_and_steps_the_address() {
    let mut mem = awake_bus();
    mem.vram.write8(0x0123, 0x5A);
    mem.vram.write8(0x0124, 0xC3);
    mem.write8(0x2006, 0x01);
    mem.write8(0x2006, 0x23);
    assert_eq!(mem.read8(0x2007), 0x5A);
    assert_eq!(mem.read8(0x2007), 0xC3);
}

#[test]
fn multiply_loop_program_runs_with_exact_cycle_count() {
    // LDA #$00; LDX #$05; then five rounds of CLC / ADC #$07 / DEX /
    // BNE back; STA $10. Computes 5 * 7 = 35.
    let program = [
        0xA9, 0x00, // 0200: LDA #$00
        0xA2, 0x05, // 0202: LDX #$05
        0x18, //       0204: CLC
        0x69, 0x07, // 0205: ADC #$07
        0xCA, //       0207: DEX
        0xD0, 0xFA, // 0208: BNE $0204
        0x85, 0x10, // 020A: STA $10
    ];
    let mut mem = fresh_bus();
    let mut cpu = nes_core::cpu::CPU::new();
    for (i, b) in program.iter().enumerate() {
        mem.write8(0x0200 + i as u16, *b);
    }
    cpu.registers.set_pc(nes_core::opcodes::AbsoluteAddress::from(0x0200));
    let mut cycles: i32 = 0;
    while cpu.registers.pc().to_u16() < 0x020C {
        let op = cpu.decode(&mem);
        cycles += cpu.process(&mut mem, op);
    }
    assert_eq!(mem.read8(0x0010), 35);
    assert_eq!(cpu.registers.x(), 0);
    // 2 + 2 + 5*(2 + 2 + 2) + 4*3 + 2 + 3, with each taken BNE on the
    // same page costing 3 and the final untaken one costing 2.
    assert_eq!(cycles, 51);
}

#[test]
fn lda_absolute_x_pays_the_page_cross_cycle() {
    let mut mem = fresh_bus();
    let mut cpu = nes_core::cpu::CPU::new();
    // LDA $02F0,X with X = $20 reads $0310, crossing a page: 4 + 1.
    for (i, b) in [0xBDu8, 0xF0, 0x02].iter().enumerate() {
        mem.write8(0x0200 + i as u16, *b);
    }
    cpu.registers.set_pc(nes_core::opcodes::AbsoluteAddress::from(0x0200));
    cpu.registers.set_x(0x20);
    let op = cpu.decode(&mem);
    assert_eq!(cpu.process(&mut mem, op), 5);
}

#[test]
fn sta_absolute_x_always_pays_the_worst_case() {
    let mut mem = fresh_bus();
    let mut cpu = nes_core::cpu::CPU::new();
    // STA $0210,X with X = 0: no crossing, still 5 cycles.
    for (i, b) in [0x9Du8, 0x10, 0x02].iter().enumerate() {
        mem.write8(0x0200 + i as u16, *b);
    }
    cpu.registers.set_pc(nes_core::opcodes::AbsoluteAddress::from(0x0200));
    let op = cpu.decode(&mem);
    assert_eq!(cpu.process(&mut mem, op), 5);
}

#[test]
fn unofficial_nop_absolute_x_pays_the_page_cross_cycle() {
    let mut mem = fresh_bus();
    let mut cpu = nes_core::cpu::CPU::new();
    for (i, b) in [0x1Cu8, 0xF0, 0x02].iter().enumerate() {
        mem.write8(0x0200 + i as u16, *b);
    }
    cpu.registers.set_pc(nes_core::opcodes::AbsoluteAddress::from(0x0200));
    cpu.registers.set_x(0x20);
    let op = cpu.decode(&mem);
    assert!(op.is_unofficial());
    assert_eq!(cpu.process(&mut mem, op), 5);
}

#[test]
fn ldx_txs_php_leaves_pushed_status_at_01ff() {
    // LDX #$FF; TXS; PHP at $0200. LDX #$FF also sets the N flag, so
    // the pushed byte is the post-LDX status with bits 4 and 5 set.
    let mut mem = fresh_bus();
    let mut cpu = nes_core::cpu::CPU::new();
    for (i, b) in [0xA2u8, 0xFF, 0x9A, 0x08].iter().enumerate() {
        mem.write8(0x0200 + i as u16, *b);
    }
    cpu.registers.set_pc(nes_core::opcodes::AbsoluteAddress::from(0x0200));
    let initial_p = cpu.registers.status();
    for _ in 0..3 {
        let op = cpu.decode(&mem);
        cpu.process(&mut mem, op);
    }
    assert_eq!(mem.read8(0x01FF), (initial_p | 0x80) | 0x30);
    assert_eq!(cpu.registers.stack(), 0x01FE);
}

#[test]
fn vblank_nmi_pushes_three_bytes_and_vectors_through_fffa() {
    let rom = loop_rom();
    let c = Cartridge::load(&rom).unwrap();
    let mut nes = Nes::new(&c);
    // Run past the power-up window, then enable NMI on VBlank.
    while nes.total_cycles < 29658 {
        nes.step().unwrap();
    }
    // One more step so the loop notices the window has elapsed.
    nes.step().unwrap();
    nes.memory.write8(0x2000, 0x80);
    assert_eq!(nes.memory.ppu_regs.ppuctrl, 0x80);
    let sp_before = nes.cpu.registers.stack();
    let mut entered = false;
    for _ in 0..20000 {
        nes.step().unwrap();
        if nes.cpu.registers.pc().to_u16() >= 0x9000 && nes.cpu.registers.pc().to_u16() < 0xA000 {
            entered = true;
            break;
        }
    }
    assert!(entered, "NMI never fired");
    // The entry pushed PC high, PC low and the status: three bytes.
    assert_eq!(nes.cpu.registers.stack(), sp_before - 3);
    // NMI enters through the vector at $FFFA.
    assert_eq!(nes.memory.read16(0xFFFA), 0x9000);
    // The VBlank after the power-up window arrives within two frames
    // (one frame is about 29,780 CPU cycles).
    assert!(nes.total_cycles >= 29658 && nes.total_cycles < 29658 + 2 * 29781);
}
