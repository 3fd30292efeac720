//! The picture processor's dot/scanline state machine: 341 dots per
//! scanline, 262 scanlines per frame. VBlank is set at dot 1 of scanline
//! 241 (raising NMI when enabled) and cleared at dot 1 of the pre-render
//! scanline 261. The background fetch pipeline advances through its four
//! two-dot phases on rendering scanlines; this core models its timing and
//! latches zeroed fetch results.

use vstd::prelude::*;
use crate::ppu_registers::PPURegisters;

verus! {

/// Dots in one frame: 262 scanlines of 341 dots.
pub const FRAME_DOTS: i32 = 89342;

/// What a PPU step reports to the orchestrator.
#[derive(Clone, Copy, PartialEq, Eq, Structural, Debug)]
pub enum PPUResult {
    Normal,
    /// VBlank began during the step with NMI enabled.
    VBlankNMI,
}

/// The four background fetch phases, each two dots long.
#[derive(Clone, Copy, PartialEq, Eq, Structural, Debug)]
pub enum FetchState {
    NameTable,
    AttributeTable,
    PatternTableTileLow,
    PatternTableTileHigh,
}

/// The PPU core's timing state and fetch latches.
pub struct PPU {
    pub frame_cycle: i32,
    pub scanline_cycle: i32,
    pub scanline: i32,
    pub name_table: u8,
    pub attribute_table: u8,
    pub pattern_table_tile_low: u8,
    pub pattern_table_tile_high: u8,
    pub fetch_state: FetchState,
}

/// The dot where VBlank is set: dot 1 of scanline 241.
pub open spec fn vblank_set_pos() -> int {
    241int * 341 + 1
}

/// The dot where VBlank (and the sprite flags) clear: dot 1 of scanline
/// 261.
pub open spec fn vblank_clear_pos() -> int {
    261int * 341 + 1
}

/// Whether stepping `k` dots from `pos0` passes through `target`
/// (arriving there counts; starting there does not).
pub open spec fn crosses(pos0: int, k: int, target: int) -> bool {
    let d = (target - pos0) % (FRAME_DOTS as int);
    1 <= d <= k
}

/// The register file after a PPU step of `k` dots from `pos0`: VBlank
/// set when the step passes (241, 1), VBlank and the sprite flags
/// cleared when it passes (261, 1), untouched otherwise.
pub open spec fn spec_vblank_update(p: PPURegisters, pos0: int, k: int) -> PPURegisters {
    if crosses(pos0, k, vblank_set_pos()) {
        PPURegisters { ppustatus: p.ppustatus | 0x80, ..p }
    } else if crosses(pos0, k, vblank_clear_pos()) {
        PPURegisters { ppustatus: p.ppustatus & 0x1F, ..p }
    } else {
        p
    }
}

impl PPU {
    /// The current dot within the frame.
    pub open spec fn pos(self) -> int {
        self.scanline * 341 + self.scanline_cycle
    }

    pub open spec fn wf(self) -> bool {
        &&& 0 <= self.scanline < 262
        &&& 0 <= self.scanline_cycle < 341
        &&& self.frame_cycle == self.pos()
    }

    /// The current dot within the scanline.
    pub fn pixel(&self) -> (r: i32)
        ensures
            r == self.scanline_cycle,
    {
        self.scanline_cycle
    }

    pub fn scanline(&self) -> (r: i32)
        ensures
            r == self.scanline,
    {
        self.scanline
    }

    pub fn new() -> (r: PPU)
        ensures
            r.wf(),
            r.pos() == 0,
            r.fetch_state == FetchState::NameTable,
    {
        PPU {
            frame_cycle: 0,
            scanline_cycle: 0,
            scanline: 0,
            name_table: 0,
            attribute_table: 0,
            pattern_table_tile_low: 0,
            pattern_table_tile_high: 0,
            fetch_state: FetchState::NameTable,
        }
    }

    /// What one dot of a rendering scanline does to the fetch pipeline.
    ///
    /// A fetch phase is two dots, so the pipeline moves on every even
    /// dot of a window. Dots 1-256 and 321-336 run the four tile-fetch
    /// phases in turn; 257-320 run them without latching the garbage
    /// nametable and attribute reads; 337-340 are the two dummy
    /// nametable fetches. The latched results of this minimum core are
    /// zeros.
    pub open spec fn spec_fetch_step(p: PPU) -> PPU {
        let dot = p.scanline_cycle;
        if dot < 1 || dot > 340 || dot % 2 == 1 {
            p
        } else if (1 <= dot <= 256) || (321 <= dot <= 336) {
            match p.fetch_state {
                FetchState::NameTable => PPU {
                    name_table: 0,
                    fetch_state: FetchState::AttributeTable,
                    ..p
                },
                FetchState::AttributeTable => PPU {
                    attribute_table: 0,
                    fetch_state: FetchState::PatternTableTileLow,
                    ..p
                },
                FetchState::PatternTableTileLow => PPU {
                    pattern_table_tile_low: 0,
                    fetch_state: FetchState::PatternTableTileHigh,
                    ..p
                },
                FetchState::PatternTableTileHigh => PPU {
                    pattern_table_tile_high: 0,
                    fetch_state: FetchState::NameTable,
                    ..p
                },
            }
        } else if 257 <= dot <= 320 {
            match p.fetch_state {
                FetchState::NameTable => PPU { fetch_state: FetchState::AttributeTable, ..p },
                FetchState::AttributeTable => PPU {
                    fetch_state: FetchState::PatternTableTileLow,
                    ..p
                },
                FetchState::PatternTableTileLow => PPU {
                    pattern_table_tile_low: 0,
                    fetch_state: FetchState::PatternTableTileHigh,
                    ..p
                },
                FetchState::PatternTableTileHigh => PPU {
                    pattern_table_tile_high: 0,
                    fetch_state: FetchState::NameTable,
                    ..p
                },
            }
        } else {
            match p.fetch_state {
                FetchState::NameTable => PPU { fetch_state: FetchState::AttributeTable, ..p },
                FetchState::AttributeTable => PPU { fetch_state: FetchState::NameTable, ..p },
                _ => p,
            }
        }
    }

    /// Advance the background fetch pipeline for the current dot of a
    /// rendering scanline. Timing state (scanline, dot, frame counter)
    /// is untouched.
    pub fn render_visible_scanlines(&mut self)
        ensures
            *final(self) == PPU::spec_fetch_step(*old(self)),
    {
        let dot = self.scanline_cycle;
        if dot < 1 || dot > 340 || dot % 2 == 1 {
            return ;
        }
        if (dot >= 1 && dot <= 256) || (dot >= 321 && dot <= 336) {
            // Tile fetches: nametable, attribute, pattern low, pattern
            // high, latched in turn.
            match self.fetch_state {
                FetchState::NameTable => {
                    self.name_table = 0;
                    self.fetch_state = FetchState::AttributeTable;
                },
                FetchState::AttributeTable => {
                    self.attribute_table = 0;
                    self.fetch_state = FetchState::PatternTableTileLow;
                },
                FetchState::PatternTableTileLow => {
                    self.pattern_table_tile_low = 0;
                    self.fetch_state = FetchState::PatternTableTileHigh;
                },
                FetchState::PatternTableTileHigh => {
                    self.pattern_table_tile_high = 0;
                    self.fetch_state = FetchState::NameTable;
                },
            }
        } else if dot >= 257 && dot <= 320 {
            // Sprite-fetch region: the nametable and attribute reads are
            // garbage and latch nothing, the pattern reads latch.
            match self.fetch_state {
                FetchState::NameTable => {
                    self.fetch_state = FetchState::AttributeTable;
                },
                FetchState::AttributeTable => {
                    self.fetch_state = FetchState::PatternTableTileLow;
                },
                FetchState::PatternTableTileLow => {
                    self.pattern_table_tile_low = 0;
                    self.fetch_state = FetchState::PatternTableTileHigh;
                },
                FetchState::PatternTableTileHigh => {
                    self.pattern_table_tile_high = 0;
                    self.fetch_state = FetchState::NameTable;
                },
            }
        } else {
            // Dots 337-340: two dummy nametable fetches close the line.
            match self.fetch_state {
                FetchState::NameTable => {
                    self.fetch_state = FetchState::AttributeTable;
                },
                FetchState::AttributeTable => {
                    self.fetch_state = FetchState::NameTable;
                },
                _ => {},
            }
        }
    }

    /// Advance the PPU by one dot: step the frame position, set VBlank
    /// on arriving at (241, 1) — reporting whether NMI is enabled —
    /// clear VBlank and the sprite flags on arriving at (261, 1), and
    /// run the fetch pipeline on rendering scanlines.
    fn process_internal(&mut self, regs: &mut PPURegisters) -> (r: PPUResult)
        requires
            old(self).wf(),
        ensures
            final(self).wf(),
            final(self).pos() == if old(self).pos() == FRAME_DOTS - 1 {
                0int
            } else {
                old(self).pos() + 1
            },
            *final(regs) == if final(self).pos() == vblank_set_pos() {
                (PPURegisters { ppustatus: old(regs).ppustatus | 0x80, ..*old(regs) })
            } else if final(self).pos() == vblank_clear_pos() {
                (PPURegisters { ppustatus: old(regs).ppustatus & 0x1F, ..*old(regs) })
            } else {
                *old(regs)
            },
            r == (if final(self).pos() == vblank_set_pos() && old(regs).ppuctrl & 0x80 == 0x80 {
                PPUResult::VBlankNMI
            } else {
                PPUResult::Normal
            }),
            *final(self) == ({
                let wrapped_line = old(self).scanline_cycle == 340;
                let wrapped_frame = wrapped_line && old(self).scanline == 261;
                let stepped = (PPU {
                    scanline_cycle: if wrapped_line {
                        0i32
                    } else {
                        (old(self).scanline_cycle + 1) as i32
                    },
                    scanline: if !wrapped_line {
                        old(self).scanline
                    } else if wrapped_frame {
                        0i32
                    } else {
                        (old(self).scanline + 1) as i32
                    },
                    frame_cycle: if wrapped_frame {
                        0i32
                    } else {
                        (old(self).frame_cycle + 1) as i32
                    },
                    ..*old(self)
                });
                if stepped.scanline < 240 || stepped.scanline == 261 {
                    PPU::spec_fetch_step(stepped)
                } else {
                    stepped
                }
            }),
    {
        let mut result = PPUResult::Normal;

        // One dot forward, wrapping the scanline and the frame.
        if self.scanline_cycle == 340 {
            self.scanline_cycle = 0;
            if self.scanline == 261 {
                self.scanline = 0;
                self.frame_cycle = 0;
            } else {
                self.scanline = self.scanline + 1;
                self.frame_cycle = self.frame_cycle + 1;
            }
        } else {
            self.scanline_cycle = self.scanline_cycle + 1;
            self.frame_cycle = self.frame_cycle + 1;
        }

        if self.scanline == 241 && self.scanline_cycle == 1 {
            regs.set_vblank();
            if regs.should_generate_nmi() {
                result = PPUResult::VBlankNMI;
            }
        }
        if self.scanline == 261 && self.scanline_cycle == 1 {
            // Pre-render: VBlank, sprite-0 hit and sprite overflow clear.
            let cleared = regs.ppustatus & 0x1F;
            regs.ppustatus = cleared;
        }

        if self.scanline < 240 || self.scanline == 261 {
            self.render_visible_scanlines();
        }

        result
    }

    /// Advance the PPU by `ppu_cycles` dots (three per CPU cycle).
    ///
    /// The frame position moves forward by exactly that many dots,
    /// modulo one frame. VBlank is set exactly when the step passes
    /// (241, 1) and cleared exactly when it passes (261, 1); the result
    /// reports VBlankNMI exactly when the step passes (241, 1) while
    /// PPUCTRL bit 7 is set.
    pub fn process(&mut self, ppu_cycles: i32, regs: &mut PPURegisters) -> (r: PPUResult)
        requires
            old(self).wf(),
            0 <= ppu_cycles <= 6820,
        ensures
            final(self).wf(),
            final(self).pos() == (old(self).pos() + ppu_cycles) % (FRAME_DOTS as int),
            *final(regs) == spec_vblank_update(*old(regs), old(self).pos(), ppu_cycles as int),
            r == (if crosses(old(self).pos(), ppu_cycles as int, vblank_set_pos()) && old(
                regs,
            ).ppuctrl & 0x80 == 0x80 {
                PPUResult::VBlankNMI
            } else {
                PPUResult::Normal
            }),
    {
        let ghost pos0 = self.pos();
        let ghost n = FRAME_DOTS as int;
        let mut result = PPUResult::Normal;
        proof {
            assert(0 <= pos0 < n);
        }
        let mut i: i32 = 0;
        while i < ppu_cycles
            invariant
                0 <= i <= ppu_cycles <= 6820,
                self.wf(),
                0 <= pos0 < n,
                self.pos() == (pos0 + i) % n,
                n == FRAME_DOTS as int,
                *regs == if crosses(pos0, i as int, vblank_set_pos()) {
                    (PPURegisters { ppustatus: old(regs).ppustatus | 0x80, ..*old(regs) })
                } else if crosses(pos0, i as int, vblank_clear_pos()) {
                    (PPURegisters { ppustatus: old(regs).ppustatus & 0x1F, ..*old(regs) })
                } else {
                    *old(regs)
                },
                result == (if crosses(pos0, i as int, vblank_set_pos()) && old(regs).ppuctrl
                    & 0x80 == 0x80 {
                    PPUResult::VBlankNMI
                } else {
                    PPUResult::Normal
                }),
            decreases ppu_cycles - i,
        {
            proof {
                lemma_step_crossing(pos0, i as int, vblank_set_pos());
                lemma_step_crossing(pos0, i as int, vblank_clear_pos());
            }
            if self.process_internal(regs) == PPUResult::VBlankNMI {
                result = PPUResult::VBlankNMI;
            }
            i = i + 1;
        }
        result
    }
}

/// Just after a step that crossed the VBlank-set dot, neither event dot
/// can be reached again within a short follow-up step: the set dot lies
/// almost a full frame ahead and the clear dot twenty scanlines ahead.
pub proof fn lemma_no_event_soon_after_set(pos0: int, k: int)
    requires
        0 <= pos0 < FRAME_DOTS as int,
        1 <= k <= 1600,
        crosses(pos0, k, vblank_set_pos()),
    ensures
        !crosses((pos0 + k) % (FRAME_DOTS as int), 21, vblank_set_pos()),
        !crosses((pos0 + k) % (FRAME_DOTS as int), 21, vblank_clear_pos()),
{
    let n = FRAME_DOTS as int;
    let set = vblank_set_pos();
    let clear = vblank_clear_pos();
    let d = (set - pos0) % n;
    let pos1 = (pos0 + k) % n;
    vstd::arithmetic::div_mod::lemma_mod_bound(set - pos0, n);
    vstd::arithmetic::div_mod::lemma_mod_bound(pos0 + k, n);
    vstd::arithmetic::div_mod::lemma_small_mod(0nat, n as nat);

    // pos1 and d are congruent to what they stand for.
    vstd::arithmetic::div_mod::lemma_small_mod(pos1 as nat, n as nat);
    vstd::arithmetic::div_mod::lemma_mod_twice(pos0 + k, n);
    vstd::arithmetic::div_mod::lemma_mod_equivalence(pos1, pos0 + k, n);
    assert((pos1 - (pos0 + k)) % n == 0);
    vstd::arithmetic::div_mod::lemma_small_mod(d as nat, n as nat);
    vstd::arithmetic::div_mod::lemma_mod_twice(set - pos0, n);
    vstd::arithmetic::div_mod::lemma_mod_equivalence(set - pos0, d, n);
    assert(((set - pos0) - d) % n == 0);

    // So set - pos1 is congruent to d - k.
    let a = (pos0 + k) - pos1;
    let b = (set - pos0) - d;
    vstd::arithmetic::div_mod::lemma_mod_equivalence(0, pos1 - (pos0 + k), n);
    assert(a % n == 0);
    vstd::arithmetic::div_mod::lemma_add_mod_noop(a, b, n);
    assert((a + b) % n == 0);
    assert(a + b == (set - pos1) - (d - k));
    vstd::arithmetic::div_mod::lemma_mod_equivalence(set - pos1, d - k, n);
    assert((set - pos1) % n == (d - k) % n);

    // The distance from pos1 to the set dot is 0 (just arrived) or
    // n - (k - d): in either case outside 1..=21.
    if d == k {
        assert((d - k) % n == 0);
    } else {
        vstd::arithmetic::div_mod::lemma_mod_add_multiples_vanish(d - k, n);
        vstd::arithmetic::div_mod::lemma_small_mod((n + d - k) as nat, n as nat);
        assert((d - k) % n == n + d - k);
    }

    // The clear dot sits twenty scanlines past the set dot, far beyond
    // a 21-dot follow-up step.
    assert((clear - pos1) - (6820 + d - k) == a + b);
    vstd::arithmetic::div_mod::lemma_mod_equivalence(clear - pos1, 6820 + d - k, n);
    assert((clear - pos1) % n == (6820 + d - k) % n);
    vstd::arithmetic::div_mod::lemma_small_mod((6820 + d - k) as nat, n as nat);
    assert((clear - pos1) % n == 6820 + d - k);
}

/// Stepping one more dot from `(pos0 + i) % FRAME_DOTS` lands on
/// `target` exactly when the distance from `pos0` to `target` is
/// `i + 1`; and a crossing within `i + 1` dots is a crossing within `i`
/// dots or that arrival.
proof fn lemma_step_crossing(pos0: int, i: int, target: int)
    requires
        0 <= pos0 < FRAME_DOTS as int,
        0 <= target < FRAME_DOTS as int,
        0 <= i,
        i + 1 < FRAME_DOTS as int,
    ensures
        ({
            let n = FRAME_DOTS as int;
            let next = if (pos0 + i) % n == n - 1 {
                0int
            } else {
                (pos0 + i) % n + 1
            };
            &&& next == (pos0 + i + 1) % n
            &&& (next == target <==> (target - pos0) % n == i + 1)
            &&& (crosses(pos0, i + 1, target) <==> crosses(pos0, i, target) || next == target)
        }),
{
    let n = FRAME_DOTS as int;
    let p = (pos0 + i) % n;
    vstd::arithmetic::div_mod::lemma_mod_bound(pos0 + i, n);
    vstd::arithmetic::div_mod::lemma_mod_bound(pos0 + i + 1, n);
    vstd::arithmetic::div_mod::lemma_mod_bound(target - pos0, n);
    // One more dot: the remainder steps by one, wrapping at n.
    vstd::arithmetic::div_mod::lemma_add_mod_noop(pos0 + i, 1, n);
    vstd::arithmetic::div_mod::lemma_small_mod(1nat, n as nat);
    if p == n - 1 {
        vstd::arithmetic::div_mod::lemma_mod_self_0(n);
    } else {
        vstd::arithmetic::div_mod::lemma_small_mod((p + 1) as nat, n as nat);
    }
    let d = (target - pos0) % n;
    // Arrival at the target is equivalent to the distance being i + 1.
    vstd::arithmetic::div_mod::lemma_mod_equivalence(pos0 + i + 1, target, n);
    vstd::arithmetic::div_mod::lemma_mod_equivalence(target - pos0, d, n);
    vstd::arithmetic::div_mod::lemma_small_mod(d as nat, n as nat);
    vstd::arithmetic::div_mod::lemma_mod_equivalence(pos0 + i + 1 - target, i + 1 - d, n);
    vstd::arithmetic::div_mod::lemma_small_mod(target as nat, n as nat);
    if (pos0 + i + 1) % n == target {
        assert((pos0 + i + 1 - target) % n == 0);
        assert((i + 1 - d) % n == 0);
        if i + 1 - d != 0 {
            vstd::arithmetic::div_mod::lemma_small_mod((i + 1 - d) as nat, n as nat);
            vstd::arithmetic::div_mod::lemma_mod_neg_neg(i + 1 - d, n);
            assert(false);
        }
    }
    if d == i + 1 {
        assert((pos0 + i + 1 - target) % n == (i + 1 - d) % n);
        vstd::arithmetic::div_mod::lemma_mod_self_0(n);
        vstd::arithmetic::div_mod::lemma_small_mod(0nat, n as nat);
    }
}

} // verus!
