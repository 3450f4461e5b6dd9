//! The picture processing unit: its registers, the memory it owns, the
//! mode schedule of a scanline and the STAT interrupt line.

use vstd::prelude::*;
use vstd::array::spec_array_update;
use crate::mem::{Oam, VRam};
use crate::ppu::background::Background;
use crate::ppu::sprites::Sprites;

pub mod background;
pub mod fifo;
pub mod laws;
pub mod lcd;
pub mod sprites;
pub mod timing;

verus! {

/// The width of the screen in pixels.
pub const NCOL: usize = 160;

/// The height of the screen in pixels.
pub const NLIN: usize = 144;

/// The PPU's mode; STAT shows its number in the low two bits.
#[allow(non_camel_case_types)]
#[derive(Clone, Copy, Debug, PartialEq, Eq, Structural)]
pub enum PpuMode {
    HBLANK,
    VBLANK,
    OAMSCAN,
    DRAW,
}

impl PpuMode {
    pub open spec fn spec_bits(self) -> u8 {
        match self {
            PpuMode::HBLANK => 0,
            PpuMode::VBLANK => 1,
            PpuMode::OAMSCAN => 2,
            PpuMode::DRAW => 3,
        }
    }

    #[verifier::when_used_as_spec(spec_bits)]
    pub fn bits(self) -> (b: u8)
        ensures
            b == self.spec_bits(),
    {
        match self {
            PpuMode::HBLANK => 0,
            PpuMode::VBLANK => 1,
            PpuMode::OAMSCAN => 2,
            PpuMode::DRAW => 3,
        }
    }
}

/// Whether the LCD is on. `STARTUP` is the first frame after it was
/// switched on, which is not drawn.
#[allow(non_camel_case_types)]
#[derive(Clone, Copy, Debug, PartialEq, Eq, Structural)]
pub enum LcdStatus {
    ON,
    OFF,
    STARTUP,
}

/// The state of the OAM DMA engine. `ACTIVE` and `RESTARTING` hold the byte
/// that was read last and is written to OAM next.
#[allow(non_camel_case_types)]
#[derive(Clone, Copy, Debug, PartialEq, Eq, Structural)]
pub enum DmaStatus {
    INACTIVE,
    STARTING,
    RESTARTING(u8),
    FIRSTREAD,
    RESTARTFIRSTREAD,
    ACTIVE(u8),
}

pub struct Ppu {
    pub lcdc: u8,
    pub stat: u8,
    pub scy: u8,
    pub scx: u8,
    /// The column that is drawn next, 0..=160.
    pub lx: u8,
    pub ly: u8,
    pub lyc: u8,
    pub dma: u8,
    pub bgp: u8,
    pub obp0: u8,
    pub obp1: u8,
    pub wy: u8,
    pub wx: u8,
    /// The STAT interrupt line as it was after the last T-cycle.
    pub stat_line: bool,
    /// A STAT interrupt waits to be handed to the interrupt controller.
    pub stat_intr: bool,
    /// A VBLANK interrupt waits to be handed to the interrupt controller.
    pub vblank_intr: bool,
    pub vram: VRam,
    pub oam: Oam,
    pub oam_dma: DmaStatus,
    /// T-cycles since the DMA engine last started counting.
    pub dma_cycles: u16,
    pub bg: Background,
    pub sp: Sprites,
    pub mode: PpuMode,
    /// T-cycles since the current scanline began.
    pub cycles: u32,
    /// One colour id, 0..=3, for each pixel, line by line.
    pub framebuffer: [u8; 23040],
    pub lcd_status: LcdStatus,
}

/// The colour that a palette register gives to a colour id: the two bits
/// at twice the id's position.
pub open spec fn spec_apply_palette(color: u8, palette: u8) -> u8 {
    match color & 0x03 {
        0 => palette & 0x03,
        1 => (palette & 0x0C) >> 2,
        2 => (palette & 0x30) >> 4,
        _ => (palette & 0xC0) >> 6,
    }
}

#[verifier::when_used_as_spec(spec_apply_palette)]
pub fn apply_palette(color: u8, palette: u8) -> (c: u8)
    ensures
        c == spec_apply_palette(color, palette),
{
    match color & 0x03 {
        0 => palette & 0x03,
        1 => (palette & 0x0C) >> 2,
        2 => (palette & 0x30) >> 4,
        _ => (palette & 0xC0) >> 6,
    }
}

/// A palette gives one of the four colours 0..=3.
pub proof fn lemma_palette_range(color: u8, palette: u8)
    ensures
        spec_apply_palette(color, palette) <= 3,
{
    assert(palette & 0x03 <= 3 && (palette & 0x0C) >> 2 <= 3 && (palette & 0x30) >> 4 <= 3 && (
    palette & 0xC0) >> 6 <= 3) by (bit_vector);
}

impl Ppu {
    /// What the mode schedule keeps true of the counters: LY stays below
    /// 154 and is 144 or more exactly in VBLANK; LX stays within the line
    /// and below 160 while pixels are drawn; the OAM scan takes 80 T-cycles
    /// and looks at one entry every two; the sprite buffer holds at most
    /// ten sprites.
    pub open spec fn wf(&self) -> bool {
        &&& self.ly <= 153
        &&& (self.mode == PpuMode::VBLANK <==> self.ly >= 144)
        &&& self.lx <= 160
        &&& (self.mode == PpuMode::DRAW ==> self.lx < 160)
        &&& (self.mode == PpuMode::OAMSCAN ==> self.cycles < 80 && self.sp.fetcher_idx
            == self.cycles / 2)
        &&& self.sp.wf()
        &&& self.dma_wf()
    }

    /// What the DMA engine keeps true of its counter: it rests at zero, and
    /// while bytes are copied it counts the T-cycles of the copy, four for
    /// each of the 160 bytes.
    pub open spec fn dma_wf(&self) -> bool {
        &&& (self.oam_dma == DmaStatus::INACTIVE ==> self.dma_cycles == 0)
        &&& (self.oam_dma is ACTIVE || self.oam_dma is RESTARTING ==> self.dma_cycles < 640)
    }

    /// `wf` as it stands in the middle of a T-cycle, when the T-cycle has
    /// been counted and the mode has not yet acted on it.
    pub open spec fn counted(&self) -> bool {
        &&& self.ly <= 153
        &&& (self.mode == PpuMode::VBLANK <==> self.ly >= 144)
        &&& self.lx <= 160
        &&& (self.mode == PpuMode::DRAW ==> self.lx < 160)
        &&& (self.mode == PpuMode::OAMSCAN ==> 1 <= self.cycles <= 80 && self.sp.fetcher_idx == (
        self.cycles - 1) / 2)
        &&& self.sp.wf()
        &&& self.dma_wf()
    }

    /// Whether the PPU is where `before` was in the mode schedule: the same
    /// mode, line, T-cycle and LCD status, and as far in the OAM scan.
    pub open spec fn keeps_schedule(&self, before: &Ppu) -> bool {
        &&& self.mode == before.mode
        &&& self.ly == before.ly
        &&& self.cycles == before.cycles
        &&& self.lcd_status == before.lcd_status
        &&& self.sp.fetcher_idx == before.sp.fetcher_idx
        &&& self.sp.obj_count == before.sp.obj_count
        &&& self.oam_dma == before.oam_dma
        &&& self.dma_cycles == before.dma_cycles
    }

    /// Whether the PPU is where `before` was on the screen: what `wf`
    /// speaks of, the DMA engine apart, is the same.
    pub open spec fn keeps_clock(&self, before: &Ppu) -> bool {
        &&& self.mode == before.mode
        &&& self.ly == before.ly
        &&& self.lx == before.lx
        &&& self.cycles == before.cycles
        &&& self.lcd_status == before.lcd_status
        &&& self.sp.fetcher_idx == before.sp.fetcher_idx
        &&& self.sp.obj_count == before.sp.obj_count
    }

    pub open spec fn spec_stat_bit(&self, bit: u8) -> bool {
        self.stat & (1u8 << bit) != 0
    }

    /// The PPU in the given mode, with STAT's mode bits showing it.
    pub open spec fn spec_set_mode(self, mode: PpuMode) -> Self {
        Ppu { stat: (self.stat & !0x03) | mode.spec_bits(), mode, ..self }
    }

    /// Whether LY meets LYC.
    pub open spec fn coincidence(&self) -> bool {
        self.ly == self.lyc
    }

    /// The STAT interrupt line: LY meets LYC and STAT bit 6 is set, or the
    /// mode is HBLANK, VBLANK or OAMSCAN and STAT bit 3, 4 or 5 is set.
    pub open spec fn spec_stat_line(&self) -> bool {
        ||| (self.coincidence() && self.stat & 0x40 != 0)
        ||| (self.mode == PpuMode::HBLANK && self.stat & 0x08 != 0)
        ||| (self.mode == PpuMode::VBLANK && self.stat & 0x10 != 0)
        ||| (self.mode == PpuMode::OAMSCAN && self.stat & 0x20 != 0)
    }

    /// The interrupt line is computed anew; a STAT interrupt is raised if
    /// the line was low and is high now; STAT bit 2 shows whether LY meets
    /// LYC.
    pub open spec fn spec_update_stat(self) -> Self {
        Ppu {
            stat_line: self.spec_stat_line(),
            stat_intr: self.stat_intr || (!self.stat_line && self.spec_stat_line()),
            stat: if self.coincidence() {
                self.stat | 0x04
            } else {
                self.stat & !0x04
            },
            ..self
        }
    }

    /// While the LCD is on and pixels are drawn, VRAM is closed to the CPU.
    pub open spec fn vram_open(&self) -> bool {
        !(self.lcd_status == LcdStatus::ON && self.mode == PpuMode::DRAW)
    }

    /// OAM is closed to the CPU while the LCD is on and the PPU scans OAM
    /// or draws pixels, and while the DMA engine writes to it.
    pub open spec fn oam_open(&self) -> bool {
        &&& !(self.lcd_status == LcdStatus::ON && (self.mode == PpuMode::DRAW || self.mode
            == PpuMode::OAMSCAN))
        &&& !(self.oam_dma is ACTIVE || self.oam_dma is RESTARTING || self.oam_dma
            == DmaStatus::RESTARTFIRSTREAD)
    }

    pub open spec fn spec_vram_read(&self, addr: u16) -> u8 {
        if self.vram_open() {
            self.vram.peek(addr)
        } else {
            0xFF
        }
    }

    pub open spec fn spec_oam_read(&self, addr: u16) -> u8 {
        if self.oam_open() {
            self.oam.peek(addr)
        } else {
            0xFF
        }
    }

    pub open spec fn spec_vram_write(self, addr: u16, val: u8) -> Self {
        if self.vram_open() {
            Ppu { vram: self.vram.poke(addr, val), ..self }
        } else {
            self
        }
    }

    pub open spec fn spec_oam_write(self, addr: u16, val: u8) -> Self {
        if self.oam_open() {
            Ppu { oam: self.oam.poke(addr, val), ..self }
        } else {
            self
        }
    }

    /// The PPU after power-on: LCD on, at the start of the first scanline,
    /// the fetchers at rest, no sprite buffered, all memory zero.
    pub open spec fn fresh(&self) -> bool {
        &&& self.lcdc == 0x91
        &&& self.stat == 0
        &&& self.scy == 0 && self.scx == 0 && self.lx == 0 && self.ly == 0 && self.lyc == 0
            && self.dma == 0
        &&& self.bgp == 0xE4 && self.obp0 == 0xFF && self.obp1 == 0xFF
        &&& self.wy == 0 && self.wx == 0
        &&& !self.stat_line && !self.stat_intr && !self.vblank_intr
        &&& self.oam_dma == DmaStatus::INACTIVE
        &&& self.dma_cycles == 0
        &&& self.mode == PpuMode::OAMSCAN
        &&& self.cycles == 0
        &&& self.lcd_status == LcdStatus::ON
        &&& self.bg == (Background {
            tile_id: 0,
            tile_line: 0,
            tile_x: 0,
            num_scrolled: 0,
            win_mode: false,
            in_win_y: false,
            win_line: 0,
            data_lo: 0,
            data_hi: 0,
            fifo: fifo::BgFifo { len: 0, pixels_lo: 0, pixels_hi: 0 },
            state: background::State::INDEX,
        })
        &&& self.sp.state == sprites::State::SLEEP
        &&& self.sp.cur_obj == (sprites::Object { x: 0, y: 0, id: 0, flags: 0 })
        &&& self.sp.fetcher_idx == 0 && self.sp.obj_count == 0
        &&& self.sp.data_lo == 0 && self.sp.data_hi == 0
        &&& self.sp.fifo == (fifo::Fifo {
            pixels_lo: 0,
            pixels_hi: 0,
            bg_pri_flag: 0,
            palette_flag: 0,
        })
        &&& forall|i: int|
            0 <= i < 10 ==> !self.sp.obj_fetched[i] && self.sp.obj_buffer[i] == (sprites::Object {
                x: 0,
                y: 0,
                id: 0,
                flags: 0,
            })
        &&& forall|i: int| 0 <= i < 0x2000 ==> self.vram.bytes[i] == 0
        &&& forall|i: int| 0 <= i < 0xA0 ==> self.oam.bytes[i] == 0
        &&& forall|i: int| 0 <= i < 23040 ==> self.framebuffer[i] == 0
    }

    pub fn init() -> (p: Self)
        ensures
            p.fresh(),
            p.wf(),
    {
        Self {
            lcdc: 0x91,
            stat: 0,
            scy: 0,
            scx: 0,
            lx: 0,
            ly: 0,
            lyc: 0,
            dma: 0,
            bgp: 0b11100100,
            obp0: 0b11111111,
            obp1: 0b11111111,
            wy: 0,
            wx: 0,
            stat_line: false,
            stat_intr: false,
            vblank_intr: false,
            vram: VRam::init(),
            oam: Oam::init(),
            oam_dma: DmaStatus::INACTIVE,
            dma_cycles: 0,
            bg: Background::init(),
            sp: Sprites::init(),
            mode: PpuMode::OAMSCAN,
            cycles: 0,
            framebuffer: [0;23040],
            lcd_status: LcdStatus::ON,
        }
    }

    #[verifier::when_used_as_spec(spec_stat_bit)]
    pub fn stat_bit(&self, bit: u8) -> (b: bool)
        requires
            bit < 8,
        ensures
            b == self.spec_stat_bit(bit),
    {
        self.stat & (1u8 << bit) != 0
    }

    pub fn set_mode(&mut self, mode: PpuMode)
        ensures
            *final(self) == old(self).spec_set_mode(mode),
    {
        self.stat = (self.stat & !0x03) | mode.bits();
        self.mode = mode;
    }

    pub fn update_stat(&mut self)
        ensures
            *final(self) == old(self).spec_update_stat(),
            final(self).wf() == old(self).wf(),
    {
        let old_stat_line = self.stat_line;
        let coincidence = self.ly == self.lyc;
        let lyc_line = coincidence && self.stat & 0x40 != 0;
        let mode_line = match self.mode {
            PpuMode::HBLANK => self.stat & 0x08 != 0,
            PpuMode::VBLANK => self.stat & 0x10 != 0,
            PpuMode::OAMSCAN => self.stat & 0x20 != 0,
            PpuMode::DRAW => false,
        };
        self.stat_line = lyc_line || mode_line;
        if !old_stat_line && self.stat_line {
            self.stat_intr = true;
        }
        if coincidence {
            self.stat = self.stat | 0x04;
        } else {
            self.stat = self.stat & !0x04;
        }
    }

    pub fn vram_read(&self, addr: u16) -> (v: u8)
        ensures
            v == self.spec_vram_read(addr),
    {
        match (self.lcd_status, self.mode) {
            (LcdStatus::ON, PpuMode::DRAW) => 0xFF,
            _ => self.vram.read(addr),
        }
    }

    pub fn oam_read(&self, addr: u16) -> (v: u8)
        requires
            Oam::maps(addr),
        ensures
            v == self.spec_oam_read(addr),
    {
        match (self.lcd_status, self.mode, self.oam_dma) {
            (LcdStatus::ON, PpuMode::DRAW | PpuMode::OAMSCAN, _) => 0xFF,
            (_, _, DmaStatus::ACTIVE(_) | DmaStatus::RESTARTING(_) | DmaStatus::RESTARTFIRSTREAD) => 0xFF,
            _ => self.oam.read(addr),
        }
    }

    pub fn vram_write(&mut self, addr: u16, val: u8)
        ensures
            *final(self) == old(self).spec_vram_write(addr, val),
    {
        match (self.lcd_status, self.mode) {
            (LcdStatus::ON, PpuMode::DRAW) => (),
            _ => self.vram.write(addr, val),
        }
    }

    pub fn oam_write(&mut self, addr: u16, val: u8)
        requires
            Oam::maps(addr),
        ensures
            *final(self) == old(self).spec_oam_write(addr, val),
    {
        match (self.lcd_status, self.mode, self.oam_dma) {
            (LcdStatus::ON, PpuMode::DRAW | PpuMode::OAMSCAN, _) => (),
            (_, _, DmaStatus::ACTIVE(_) | DmaStatus::RESTARTING(_) | DmaStatus::RESTARTFIRSTREAD) => (),
            _ => self.oam.write(addr, val),
        }
    }
}

/// The pixel that is shown where a background pixel and a sprite pixel
/// meet. The sprite pixel shows unless it is transparent or yields to a
/// background pixel that is not of colour id 0; each goes through its
/// palette.
pub open spec fn spec_mix(bg_pixel: u8, sp_pixel: (u8, bool, u8), bgp: u8) -> u8 {
    if sp_pixel.0 == 0 || (sp_pixel.1 && bg_pixel != 0) {
        spec_apply_palette(bg_pixel, bgp)
    } else {
        spec_apply_palette(sp_pixel.0, sp_pixel.2)
    }
}

impl Ppu {
    /// The colour of the pixel at the column that is drawn next, if the
    /// background queue gives one.
    pub open spec fn spec_mixed(&self) -> Option<u8> {
        match self.spec_bg_pixel() {
            None => None,
            Some(bg_pixel) => Some(spec_mix(bg_pixel, self.spec_sp_pixel(), self.bgp)),
        }
    }

    /// The queues after the attempt to take a pixel: the background queue
    /// gives up a pixel if it has one, and the sprite queue moves along
    /// only with a background pixel that is shown.
    pub open spec fn spec_mix_pixel(self) -> Self {
        match self.spec_bg_pixel() {
            None => self.spec_bg_pop(),
            Some(_) => self.spec_bg_pop().spec_sp_pop(),
        }
    }

    /// The position in the framebuffer of the pixel that is drawn next.
    pub open spec fn spec_pixel_index(&self) -> int {
        self.ly * 160 + self.lx
    }

    /// One T-cycle of the pixel pump. Nothing is drawn while a sprite is
    /// fetched or in the T-cycle in which the window begins. Otherwise, if
    /// the queues give a pixel, it goes to the framebuffer, except in the
    /// first frame after the LCD was switched on; LX counts and the sprite
    /// that comes up at the new column is taken.
    pub open spec fn spec_draw_pixel(self) -> Self {
        if self.sp.spec_is_fetching() {
            self
        } else if self.spec_enters_win() {
            self.spec_check_in_win()
        } else {
            match self.spec_mixed() {
                None => self.spec_mix_pixel(),
                Some(pixel) => {
                    let p = self.spec_mix_pixel();
                    let q = Ppu {
                        framebuffer: if self.lcd_status == LcdStatus::ON {
                            spec_array_update(self.framebuffer, self.spec_pixel_index(), pixel)
                        } else {
                            self.framebuffer
                        },
                        lx: (self.lx + 1) as u8,
                        ..p
                    };
                    q.spec_fetch_obj()
                },
            }
        }
    }

    /// The T-cycle count of the scanline after one more T-cycle.
    pub open spec fn next_cycles(&self) -> u32 {
        if self.cycles == 0xFFFF_FFFF {
            0u32
        } else {
            (self.cycles + 1) as u32
        }
    }

    /// One T-cycle in HBLANK: after 456 T-cycles the next line begins, with
    /// the OAM scan or, from line 144 on, with VBLANK.
    pub open spec fn spec_cycle_hblank(self) -> Self {
        if self.cycles == 456 {
            let r = Ppu { cycles: 0, ly: (self.ly + 1) as u8, ..self };
            if r.ly == 144 {
                r.spec_init_frame_bg().spec_set_mode(PpuMode::VBLANK)
            } else {
                r.spec_clear_sp_fetcher().spec_set_mode(PpuMode::OAMSCAN)
            }
        } else {
            self
        }
    }

    /// One T-cycle in VBLANK: the interrupt is raised in the fourth T-cycle
    /// of line 144; after 456 T-cycles the next line begins, and after line
    /// 153 a new frame begins at line 0.
    pub open spec fn spec_cycle_vblank(self) -> Self {
        if self.ly == 144 && self.cycles == 4 {
            Ppu { vblank_intr: true, ..self }
        } else if self.cycles == 456 {
            let r = Ppu { cycles: 0, ly: (self.ly + 1) as u8, ..self };
            if r.ly == 154 {
                Ppu { ly: 0, lcd_status: LcdStatus::ON, ..r }.spec_clear_sp_fetcher().spec_set_mode(
                    PpuMode::OAMSCAN,
                )
            } else {
                r
            }
        } else {
            self
        }
    }

    /// One T-cycle of the OAM scan: an entry is looked at every second
    /// T-cycle; in the first the window's line is noted; after 80 the
    /// drawing begins at column 0.
    pub open spec fn spec_cycle_oamscan(self) -> Self {
        let r = if self.cycles % 2 == 0 {
            self.spec_fetch_object()
        } else {
            self
        };
        if self.cycles == 1 {
            r.spec_check_in_win_y()
        } else if self.cycles == 80 {
            Ppu { lx: 0, ..r }.spec_init_scanline_bg().spec_init_scanline_sp().spec_set_mode(
                PpuMode::DRAW,
            )
        } else {
            r
        }
    }

    /// One T-cycle of drawing: the two fetchers step every second T-cycle,
    /// the pixel pump every T-cycle; after column 159 HBLANK begins.
    #[verifier::opaque]
    pub open spec fn spec_cycle_draw(self) -> Self {
        let r = if self.cycles % 2 == 0 {
            self.spec_cycle_bg().spec_cycle_sp()
        } else {
            self
        };
        let s = r.spec_draw_pixel();
        if s.lx == 160 {
            s.spec_set_mode(PpuMode::HBLANK)
        } else {
            s
        }
    }

    /// The PPU after one T-cycle. With the LCD off nothing moves.
    #[verifier::opaque]
    pub open spec fn spec_cycle(self) -> Self {
        if self.lcd_status == LcdStatus::OFF {
            self
        } else {
            self.spec_mode_step().spec_update_stat()
        }
    }

    /// What the mode does in a T-cycle: the T-cycle is counted and the mode
    /// acts on it. The interrupt line is not yet looked at.
    pub open spec fn spec_mode_step(self) -> Self {
        let p = Ppu { cycles: self.next_cycles(), ..self };
        match self.mode {
            PpuMode::HBLANK => p.spec_cycle_hblank(),
            PpuMode::VBLANK => p.spec_cycle_vblank(),
            PpuMode::OAMSCAN => p.spec_cycle_oamscan(),
            PpuMode::DRAW => p.spec_cycle_draw(),
        }
    }

    /// The PPU after `n` T-cycles.
    pub open spec fn spec_run(self, n: nat) -> Self
        decreases n,
    {
        if n == 0 {
            self
        } else {
            self.spec_cycle().spec_run((n - 1) as nat)
        }
    }

    pub fn mix_pixel(&mut self) -> (p: Option<u8>)
        ensures
            p == old(self).spec_mixed(),
            *final(self) == old(self).spec_mix_pixel(),
            final(self).keeps_schedule(old(self)),
            final(self).lx == old(self).lx,
    {
        let bg_pixel = self.bg_pop()?;
        let (sp_pixel, bg_priority, sp_palette) = match self.sp_pop() {
            Some(t) => t,
            None => (0, false, 0),
        };
        if sp_pixel == 0 || (bg_priority && bg_pixel != 0) {
            return Some(apply_palette(bg_pixel, self.bgp));
        }
        Some(apply_palette(sp_pixel, sp_palette))
    }

    #[verifier::rlimit(40)]
    pub fn draw_pixel(&mut self)
        requires
            old(self).sp.wf(),
            old(self).lx < 160,
            old(self).ly < 144,
        ensures
            *final(self) == old(self).spec_draw_pixel(),
            final(self).keeps_schedule(old(self)),
            final(self).lx <= 160,
    {
        if self.sp.is_fetching() || self.check_in_win() {
            return ;
        }
        match self.mix_pixel() {
            Some(pixel) => {
                let idx = self.ly as usize * NCOL + self.lx as usize;
                if let LcdStatus::ON = self.lcd_status {
                    self.framebuffer[idx] = pixel;
                }
                self.lx += 1;
                self.fetch_obj();
            },
            None => {},
        }
    }

    #[verifier::rlimit(40)]
    fn cycle_hblank(&mut self)
        requires
            old(self).counted(),
            old(self).mode == PpuMode::HBLANK,
        ensures
            *final(self) == old(self).spec_cycle_hblank(),
            final(self).wf(),
    {
        if self.cycles == 456 {
            self.cycles = 0;
            self.ly += 1;
            if self.ly == 144 {
                self.init_frame_bg();
                self.set_mode(PpuMode::VBLANK);
            } else {
                self.clear_sp_fetcher();
                self.set_mode(PpuMode::OAMSCAN);
            }
        }
    }

    #[verifier::rlimit(40)]
    fn cycle_vblank(&mut self)
        requires
            old(self).counted(),
            old(self).mode == PpuMode::VBLANK,
        ensures
            *final(self) == old(self).spec_cycle_vblank(),
            final(self).wf(),
    {
        if self.ly == 144 && self.cycles == 4 {
            self.vblank_intr = true;
        } else if self.cycles == 456 {
            self.cycles = 0;
            self.ly += 1;
            if self.ly == 154 {
                self.ly = 0;
                self.clear_sp_fetcher();
                self.lcd_status = LcdStatus::ON;
                self.set_mode(PpuMode::OAMSCAN);
            }
        }
    }

    #[verifier::rlimit(40)]
    fn cycle_oamscan(&mut self)
        requires
            old(self).counted(),
            old(self).mode == PpuMode::OAMSCAN,
        ensures
            *final(self) == old(self).spec_cycle_oamscan(),
            final(self).wf(),
    {
        if self.cycles % 2 == 0 {
            self.fetch_object();
        }
        if self.cycles == 1 {
            self.check_in_win_y();
        } else if self.cycles == 80 {
            self.lx = 0;
            self.init_scanline_bg();
            self.init_scanline_sp();
            self.set_mode(PpuMode::DRAW);
        }
    }

    #[verifier::rlimit(40)]
    fn cycle_draw(&mut self)
        requires
            old(self).counted(),
            old(self).mode == PpuMode::DRAW,
        ensures
            *final(self) == old(self).spec_cycle_draw(),
            final(self).wf(),
    {
        reveal(Ppu::spec_cycle_draw);
        if self.cycles % 2 == 0 {
            self.cycle_bg();
            self.cycle_sp();
        }
        self.draw_pixel();
        if self.lx == 160 {
            self.set_mode(PpuMode::HBLANK);
        }
    }

    /// Runs the PPU for one T-cycle. A PPU whose line is in time stays so.
    #[verifier::rlimit(40)]
    pub fn cycle(&mut self)
        requires
            old(self).wf(),
        ensures
            *final(self) == old(self).spec_cycle(),
            final(self).wf(),
            old(self).timed() ==> final(self).timed(),
    {
        reveal(Ppu::spec_cycle);
        proof {
            if self.timed() && self.lcd_status != LcdStatus::OFF {
                crate::ppu::timing::lemma_timed_cycle(*self);
            }
        }
        if let LcdStatus::OFF = self.lcd_status {
            return ;
        }
        self.cycles = self.cycles.wrapping_add(1);
        match self.mode {
            PpuMode::HBLANK => self.cycle_hblank(),
            PpuMode::VBLANK => self.cycle_vblank(),
            PpuMode::OAMSCAN => self.cycle_oamscan(),
            PpuMode::DRAW => self.cycle_draw(),
        }
        self.update_stat();
    }
}

} // verus!
