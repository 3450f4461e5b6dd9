//! What holds of the PPU in every T-cycle.

use vstd::prelude::*;
use crate::ppu::{LcdStatus, Ppu, PpuMode};

verus! {

impl Ppu {
    /// Whether the PPU has the registers and the memory of `before`, the
    /// DMA engine in the state of `before`, and the interrupts of `before`
    /// waiting: what only the CPU, the DMA engine or the interrupt line
    /// changes.
    pub open spec fn keeps_registers(&self, before: &Ppu) -> bool {
        &&& self.lcdc == before.lcdc
        &&& self.scy == before.scy
        &&& self.scx == before.scx
        &&& self.lyc == before.lyc
        &&& self.dma == before.dma
        &&& self.bgp == before.bgp
        &&& self.obp0 == before.obp0
        &&& self.obp1 == before.obp1
        &&& self.wy == before.wy
        &&& self.wx == before.wx
        &&& self.vram == before.vram
        &&& self.oam == before.oam
        &&& self.oam_dma == before.oam_dma
        &&& self.dma_cycles == before.dma_cycles
        &&& self.stat_line == before.stat_line
        &&& self.stat_intr == before.stat_intr
        &&& self.stat & 0xF8 == before.stat & 0xF8
    }
}

impl Ppu {
    /// Whether the PPU has the registers that the CPU writes, the memory
    /// and the DMA engine of `before`.
    pub open spec fn keeps_memory(&self, before: &Ppu) -> bool {
        &&& self.lcdc == before.lcdc
        &&& self.scy == before.scy
        &&& self.scx == before.scx
        &&& self.lyc == before.lyc
        &&& self.dma == before.dma
        &&& self.bgp == before.bgp
        &&& self.obp0 == before.obp0
        &&& self.obp1 == before.obp1
        &&& self.wy == before.wy
        &&& self.wx == before.wx
        &&& self.vram == before.vram
        &&& self.oam == before.oam
        &&& self.oam_dma == before.oam_dma
        &&& self.dma_cycles == before.dma_cycles
    }
}

proof fn lemma_set_mode_bits(stat: u8, bits: u8)
    by (bit_vector)
    requires
        bits <= 3,
    ensures
        ((stat & !0x03) | bits) & 0xF8 == stat & 0xF8,
        ((stat & !0x03) | bits) & 0x03 == bits,
        (stat | 0x04) & 0xF8 == stat & 0xF8,
        (stat & !0x04) & 0xF8 == stat & 0xF8,
        (stat | 0x04) & 0x03 == stat & 0x03,
        (stat & !0x04) & 0x03 == stat & 0x03,
        (stat | 0x04) & 0x04 != 0,
        (stat & !0x04) & 0x04 == 0,
{
}

#[verifier::rlimit(40)]
proof fn lemma_draw_keeps_registers(p: Ppu)
    ensures
        p.spec_cycle_bg().keeps_registers(&p),
        p.spec_cycle_sp().keeps_registers(&p),
        p.spec_draw_pixel().keeps_registers(&p),
        p.spec_fetch_obj().keeps_registers(&p),
        p.spec_draw_pixel().vblank_intr == p.vblank_intr,
        p.spec_cycle_bg().vblank_intr == p.vblank_intr,
        p.spec_cycle_sp().vblank_intr == p.vblank_intr,
        p.spec_draw_pixel().stat == p.stat,
        p.spec_cycle_bg().stat == p.stat,
        p.spec_cycle_sp().stat == p.stat,
{
}

/// The modes leave alone the registers, the memory, the DMA engine and the
/// STAT interrupt line; of STAT they change the mode bits only; and only
/// VBLANK raises the VBLANK interrupt, in the fourth T-cycle of line 144.
#[verifier::rlimit(40)]
pub proof fn lemma_mode_step_keeps_registers(p: Ppu)
    ensures
        p.spec_mode_step().keeps_registers(&p),
        p.spec_mode_step().vblank_intr == (p.vblank_intr || (p.mode == PpuMode::VBLANK && p.ly
            == 144 && p.cycles == 3)),
{
    reveal(Ppu::spec_cycle_draw);
    let c = Ppu { cycles: p.next_cycles(), ..p };
    lemma_set_mode_bits(p.stat, 0);
    lemma_set_mode_bits(p.stat, 1);
    lemma_set_mode_bits(p.stat, 2);
    lemma_set_mode_bits(p.stat, 3);
    match p.mode {
        PpuMode::DRAW => {
            let r = if c.cycles % 2 == 0 {
                c.spec_cycle_bg().spec_cycle_sp()
            } else {
                c
            };
            lemma_draw_keeps_registers(c);
            lemma_draw_keeps_registers(c.spec_cycle_bg());
            lemma_draw_keeps_registers(r);
        },
        _ => {},
    }
}

/// The STAT interrupt is raised on a rising edge of the interrupt line
/// only: a T-cycle raises it exactly if the line was low before and is
/// high after. While the line stays high nothing is raised again. After a
/// T-cycle with the LCD on, the line is what the composite condition gives
/// and STAT bit 2 shows whether LY meets LYC.
#[verifier::rlimit(40)]
pub proof fn lemma_stat_rising_edge(p: Ppu)
    ensures
        p.spec_cycle().stat_intr == (p.stat_intr || (!p.stat_line && p.spec_cycle().stat_line)),
        p.stat_line && !p.stat_intr ==> !p.spec_cycle().stat_intr,
        p.lcd_status != LcdStatus::OFF ==> p.spec_cycle().stat_line
            == p.spec_cycle().spec_stat_line(),
        p.lcd_status != LcdStatus::OFF ==> (p.spec_cycle().stat & 0x04 != 0) == (
        p.spec_cycle().ly == p.spec_cycle().lyc),
{
    reveal(Ppu::spec_cycle);
    if p.lcd_status != LcdStatus::OFF {
        let r = p.spec_mode_step();
        lemma_mode_step_keeps_registers(p);
        let q = r.spec_update_stat();
        let s = r.stat;
        assert((s | 0x04) & 0x40 == s & 0x40 && (s | 0x04) & 0x08 == s & 0x08 && (s | 0x04) & 0x10
            == s & 0x10 && (s | 0x04) & 0x20 == s & 0x20 && (s & !0x04) & 0x40 == s & 0x40 && (s
            & !0x04) & 0x08 == s & 0x08 && (s & !0x04) & 0x10 == s & 0x10 && (s & !0x04) & 0x20
            == s & 0x20 && (s | 0x04) & 0x04 != 0 && (s & !0x04) & 0x04 == 0) by (bit_vector);
    }
}

/// The VBLANK interrupt is raised in the fourth T-cycle of line 144 and at
/// no other time.
pub proof fn lemma_vblank_raise(p: Ppu)
    ensures
        p.spec_cycle().vblank_intr == (p.vblank_intr || (p.lcd_status != LcdStatus::OFF && p.mode
            == PpuMode::VBLANK && p.ly == 144 && p.cycles == 3)),
{
    reveal(Ppu::spec_cycle);
    lemma_mode_step_keeps_registers(p);
}

/// A T-cycle of the PPU changes neither the registers that the CPU
/// writes, nor VRAM or OAM, nor the DMA engine.
pub proof fn lemma_cycle_keeps_memory(p: Ppu)
    ensures
        p.spec_cycle().keeps_memory(&p),
{
    reveal(Ppu::spec_cycle);
    lemma_mode_step_keeps_registers(p);
}

} // verus!
