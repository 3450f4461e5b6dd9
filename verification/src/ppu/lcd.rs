//! The PPU's registers as the CPU reads and writes them.

use vstd::prelude::*;
use vstd::array::spec_array_fill_for_copy_type;
use crate::ppu::sprites::Sprites;
use crate::ppu::{DmaStatus, LcdStatus, Ppu, PpuMode};

verus! {

impl Ppu {
    /// LCDC bit 0: the background is shown.
    pub fn lcdc_bg_enbl(&self) -> (b: bool)
        ensures
            b == (self.lcdc & 0x01 != 0),
    {
        self.lcdc & 0x01 != 0
    }

    /// LCDC bit 1: sprites are shown.
    pub fn lcdc_sp_enbl(&self) -> (b: bool)
        ensures
            b == (self.lcdc & 0x02 != 0),
    {
        self.lcdc & 0x02 != 0
    }

    /// LCDC bit 2: sprites are 16 lines high, not 8.
    pub fn lcdc_sp_size(&self) -> (b: bool)
        ensures
            b == (self.lcdc & 0x04 != 0),
    {
        self.lcdc & 0x04 != 0
    }

    /// LCDC bit 3: the background uses the tile map at 0x9C00.
    pub fn lcdc_bg_tm_sel(&self) -> (b: bool)
        ensures
            b == (self.lcdc & 0x08 != 0),
    {
        self.lcdc & 0x08 != 0
    }

    /// LCDC bit 4: tile data is addressed from 0x8000, unsigned.
    pub fn lcdc_td_sel(&self) -> (b: bool)
        ensures
            b == (self.lcdc & 0x10 != 0),
    {
        self.lcdc & 0x10 != 0
    }

    /// LCDC bit 5: the window is shown.
    pub fn lcdc_wn_enbl(&self) -> (b: bool)
        ensures
            b == (self.lcdc & 0x20 != 0),
    {
        self.lcdc & 0x20 != 0
    }

    /// LCDC bit 6: the window uses the tile map at 0x9C00.
    pub fn lcdc_wn_tm_sel(&self) -> (b: bool)
        ensures
            b == (self.lcdc & 0x40 != 0),
    {
        self.lcdc & 0x40 != 0
    }

    pub fn read_lcdc(&self) -> (v: u8)
        ensures
            v == self.lcdc,
    {
        self.lcdc
    }

    /// STAT reads back with its unused bit set.
    pub fn read_stat(&self) -> (v: u8)
        ensures
            v == self.stat | 0x80,
    {
        self.stat | 0x80
    }

    pub fn read_scy(&self) -> (v: u8)
        ensures
            v == self.scy,
    {
        self.scy
    }

    pub fn read_scx(&self) -> (v: u8)
        ensures
            v == self.scx,
    {
        self.scx
    }

    pub fn read_ly(&self) -> (v: u8)
        ensures
            v == self.ly,
    {
        self.ly
    }

    pub fn read_lyc(&self) -> (v: u8)
        ensures
            v == self.lyc,
    {
        self.lyc
    }

    pub fn read_dma(&self) -> (v: u8)
        ensures
            v == self.dma,
    {
        self.dma
    }

    pub fn read_bgp(&self) -> (v: u8)
        ensures
            v == self.bgp,
    {
        self.bgp
    }

    pub fn read_obp0(&self) -> (v: u8)
        ensures
            v == self.obp0,
    {
        self.obp0
    }

    pub fn read_obp1(&self) -> (v: u8)
        ensures
            v == self.obp1,
    {
        self.obp1
    }

    pub fn read_wy(&self) -> (v: u8)
        ensures
            v == self.wy,
    {
        self.wy
    }

    pub fn read_wx(&self) -> (v: u8)
        ensures
            v == self.wx,
    {
        self.wx
    }

    /// The sprite scan starts over with an empty buffer.
    pub open spec fn spec_clear_sp_fetcher(self) -> Self {
        Ppu { sp: Sprites { fetcher_idx: 0, obj_count: 0, ..self.sp }, ..self }
    }

    /// Bit 7 switches the LCD. Switching it off puts the PPU at the start
    /// of the first scanline, clears the mode bits of STAT and blanks the
    /// picture. Switching it on begins a frame that is not drawn.
    pub open spec fn spec_write_lcdc(self, val: u8) -> Self {
        let on = val & 0x80 != 0;
        if self.lcd_status == LcdStatus::OFF && on {
            Ppu { lcd_status: LcdStatus::STARTUP, lcdc: val, ..self }
        } else if self.lcd_status != LcdStatus::OFF && !on {
            let p = self.spec_clear_sp_fetcher();
            Ppu {
                lcd_status: LcdStatus::OFF,
                mode: PpuMode::OAMSCAN,
                cycles: 0,
                lx: 0,
                ly: 0,
                stat: self.stat & !0x03,
                framebuffer: spec_array_fill_for_copy_type::<u8, 23040>(0),
                lcdc: val,
                ..p
            }
        } else {
            Ppu { lcdc: val, ..self }
        }
    }

    /// Only STAT's bits 3 to 7 can be written.
    pub open spec fn spec_write_stat(self, val: u8) -> Self {
        Ppu { stat: (self.stat & !0xF8) | (val & 0xF8), ..self }
    }

    /// A write starts the DMA engine; if it is copying, it starts over and
    /// still writes the byte that it has read.
    pub open spec fn spec_write_dma(self, val: u8) -> Self {
        Ppu {
            dma: val,
            oam_dma: match self.oam_dma {
                DmaStatus::ACTIVE(byte) => DmaStatus::RESTARTING(byte),
                _ => DmaStatus::STARTING,
            },
            ..self
        }
    }

    pub fn clear_sp_fetcher(&mut self)
        ensures
            *final(self) == old(self).spec_clear_sp_fetcher(),
    {
        self.sp.fetcher_idx = 0;
        self.sp.obj_count = 0;
    }

    pub fn write_lcdc(&mut self, val: u8)
        requires
            old(self).wf(),
        ensures
            *final(self) == old(self).spec_write_lcdc(val),
            final(self).wf(),
    {
        match (self.lcd_status, val & 0x80 != 0) {
            (LcdStatus::OFF, true) => {
                self.lcd_status = LcdStatus::STARTUP;
            },
            (LcdStatus::ON | LcdStatus::STARTUP, false) => {
                self.lcd_status = LcdStatus::OFF;
                self.mode = PpuMode::OAMSCAN;
                self.clear_sp_fetcher();
                self.cycles = 0;
                self.lx = 0;
                self.ly = 0;
                self.stat = self.stat & !0x03;
                self.framebuffer = [0;23040];
            },
            _ => {},
        }
        self.lcdc = val;
    }

    pub fn write_stat(&mut self, val: u8)
        ensures
            *final(self) == old(self).spec_write_stat(val),
    {
        self.stat = (self.stat & !0xF8) | (val & 0xF8);
    }

    pub fn write_scy(&mut self, val: u8)
        ensures
            *final(self) == (Ppu { scy: val, ..*old(self) }),
    {
        self.scy = val;
    }

    pub fn write_scx(&mut self, val: u8)
        ensures
            *final(self) == (Ppu { scx: val, ..*old(self) }),
    {
        self.scx = val;
    }

    /// LY cannot be written.
    pub fn write_ly(&mut self, val: u8)
        ensures
            *final(self) == *old(self),
    {
    }

    pub fn write_lyc(&mut self, val: u8)
        ensures
            *final(self) == (Ppu { lyc: val, ..*old(self) }),
    {
        self.lyc = val;
    }

    pub fn write_dma(&mut self, val: u8)
        ensures
            *final(self) == old(self).spec_write_dma(val),
            old(self).wf() ==> final(self).wf(),
    {
        self.dma = val;
        match self.oam_dma {
            DmaStatus::ACTIVE(byte) => self.oam_dma = DmaStatus::RESTARTING(byte),
            _ => self.oam_dma = DmaStatus::STARTING,
        }
    }

    pub fn write_bgp(&mut self, val: u8)
        ensures
            *final(self) == (Ppu { bgp: val, ..*old(self) }),
    {
        self.bgp = val;
    }

    /// The sprite palettes have no colour for id 0: the low two bits stay
    /// clear.
    pub fn write_obp0(&mut self, val: u8)
        ensures
            *final(self) == (Ppu { obp0: val & 0xFC, ..*old(self) }),
    {
        self.obp0 = val & 0xFC;
    }

    pub fn write_obp1(&mut self, val: u8)
        ensures
            *final(self) == (Ppu { obp1: val & 0xFC, ..*old(self) }),
    {
        self.obp1 = val & 0xFC;
    }

    pub fn write_wy(&mut self, val: u8)
        ensures
            *final(self) == (Ppu { wy: val, ..*old(self) }),
    {
        self.wy = val;
    }

    pub fn write_wx(&mut self, val: u8)
        ensures
            *final(self) == (Ppu { wx: val, ..*old(self) }),
    {
        self.wx = val;
    }
}

} // verus!
