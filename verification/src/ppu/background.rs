//! The background and window fetcher.

use vstd::prelude::*;
use crate::ppu::fifo::BgFifo;
use crate::ppu::Ppu;

verus! {

/// The fetcher's step. It sleeps while a sprite is fetched.
#[allow(non_camel_case_types)]
#[derive(Clone, Copy, Debug, PartialEq, Eq, Structural)]
pub enum State {
    INDEX,
    DATALOW,
    DATAHIGH,
    PUSH,
    SLEEP,
}

#[derive(Clone, Copy, Debug)]
pub struct Background {
    pub tile_id: u8,
    /// The row of the tile that is fetched, 0..8.
    pub tile_line: u16,
    /// The column of the tile map that is fetched next, 0..32.
    pub tile_x: u8,
    /// How many pixels of this line were dropped for the fine scroll.
    pub num_scrolled: u8,
    /// Whether the fetcher reads the window on this line.
    pub win_mode: bool,
    /// Whether LY has met WY in this frame.
    pub in_win_y: bool,
    /// How many lines of this frame have shown the window.
    pub win_line: u16,
    pub data_lo: u8,
    pub data_hi: u8,
    pub fifo: BgFifo,
    pub state: State,
}

impl Background {
    pub fn init() -> (b: Self)
        ensures
            b == (Background {
                tile_id: 0,
                tile_line: 0,
                tile_x: 0,
                num_scrolled: 0,
                win_mode: false,
                in_win_y: false,
                win_line: 0,
                data_lo: 0,
                data_hi: 0,
                fifo: BgFifo { len: 0, pixels_lo: 0, pixels_hi: 0 },
                state: State::INDEX,
            }),
    {
        Self {
            tile_id: 0,
            tile_line: 0,
            tile_x: 0,
            num_scrolled: 0,
            win_mode: false,
            in_win_y: false,
            win_line: 0,
            data_lo: 0,
            data_hi: 0,
            fifo: BgFifo::init(),
            state: State::INDEX,
        }
    }

    pub fn pause(&mut self)
        ensures
            *final(self) == (Background { state: State::SLEEP, ..*old(self) }),
    {
        self.state = State::SLEEP;
    }

    /// The fetcher starts over with the tile it was at.
    pub fn resume(&mut self)
        ensures
            *final(self) == (Background { state: State::INDEX, ..*old(self) }),
    {
        self.state = State::INDEX;
    }
}

impl Ppu {
    /// The fetcher at the start of a scanline: at the tile that SCX and SCY
    /// point to, outside the window, with an empty queue.
    pub open spec fn spec_init_scanline_bg(self) -> Self {
        Ppu {
            bg: Background {
                num_scrolled: 0,
                tile_x: ((self.scx / 8) % 32) as u8,
                tile_line: ((self.ly + self.scy) % 8) as u16,
                win_mode: false,
                fifo: BgFifo { len: 0, pixels_lo: 0, pixels_hi: 0 },
                state: State::INDEX,
                ..self.bg
            },
            ..self
        }
    }

    pub open spec fn spec_init_frame_bg(self) -> Self {
        Ppu { bg: Background { in_win_y: false, win_line: 0, ..self.bg }, ..self }
    }

    /// The address in the tile map of the tile that the fetcher is at. The
    /// background uses the map that LCDC bit 3 selects and the row of line
    /// `LY + SCY`; the window uses the map that LCDC bit 6 selects and the
    /// row of its own line counter. A map has 32 rows of 32 tiles.
    pub open spec fn spec_tilemap_addr(&self) -> u16 {
        let base: int = if self.bg.win_mode {
            if self.lcdc & 0x40 != 0 {
                0x9C00
            } else {
                0x9800
            }
        } else {
            if self.lcdc & 0x08 != 0 {
                0x9C00
            } else {
                0x9800
            }
        };
        let y: int = if self.bg.win_mode {
            if self.bg.win_line == 0 {
                0xFFFF
            } else {
                self.bg.win_line - 1
            }
        } else {
            (self.ly + self.scy) % 256
        };
        (base + ((y / 8) % 32) * 32 + self.bg.tile_x % 32) as u16
    }

    /// The address of the low byte of the tile row that the fetcher is at.
    /// With LCDC bit 4 set, tile ids count up from 0x8000; otherwise ids
    /// below 128 count up from 0x9000 and the others from 0x8800. A tile
    /// has 16 bytes, two for each row.
    pub open spec fn spec_tile_addr(&self) -> u16 {
        let id = self.bg.tile_id as int;
        let base: int = if self.lcdc & 0x10 != 0 {
            0x8000 + id * 16
        } else if id < 128 {
            0x9000 + id * 16
        } else {
            0x8800 + (id - 128) * 16
        };
        (base + (self.bg.tile_line % 8) * 2) as u16
    }

    /// One step of the fetcher: the tile id, the low byte of the row, the
    /// high byte, and then the push, which waits until the queue is empty.
    pub open spec fn spec_cycle_bg(self) -> Self {
        match self.bg.state {
            State::INDEX => Ppu {
                bg: Background {
                    tile_id: self.vram.peek(self.spec_tilemap_addr()),
                    state: State::DATALOW,
                    ..self.bg
                },
                ..self
            },
            State::DATALOW => Ppu {
                bg: Background {
                    data_lo: self.vram.peek(self.spec_tile_addr()),
                    state: State::DATAHIGH,
                    ..self.bg
                },
                ..self
            },
            State::DATAHIGH => Ppu {
                bg: Background {
                    data_hi: self.vram.peek((self.spec_tile_addr() + 1) as u16),
                    state: State::PUSH,
                    ..self.bg
                },
                ..self
            },
            State::PUSH => if self.bg.fifo.len == 0 {
                Ppu {
                    bg: Background {
                        fifo: self.bg.fifo.spec_push(self.bg.data_lo, self.bg.data_hi),
                        tile_x: ((self.bg.tile_x + 1) % 32) as u8,
                        state: State::INDEX,
                        ..self.bg
                    },
                    ..self
                }
            } else {
                self
            },
            State::SLEEP => self,
        }
    }

    /// Whether the column that is drawn next lies in the window: LX has
    /// reached WX - 7.
    pub open spec fn spec_in_win_x(&self) -> bool {
        self.lx >= (if self.wx >= 7 {
            self.wx - 7
        } else {
            0
        })
    }

    /// Whether the window begins at this pixel: it is enabled, not yet
    /// begun on this line, and both LX and LY have reached it.
    pub open spec fn spec_enters_win(&self) -> bool {
        !self.bg.win_mode && self.lcdc & 0x20 != 0 && self.spec_in_win_x() && self.bg.in_win_y
    }

    /// Where the window begins, the queue is emptied and the fetcher starts
    /// over at the window's first tile; the window's line counter counts.
    pub open spec fn spec_check_in_win(self) -> Self {
        if self.spec_enters_win() {
            Ppu {
                bg: Background {
                    win_mode: true,
                    tile_line: self.bg.win_line % 8,
                    tile_x: 0,
                    win_line: if self.bg.win_line == 0xFFFF {
                        0u16
                    } else {
                        (self.bg.win_line + 1) as u16
                    },
                    fifo: BgFifo { len: 0, pixels_lo: 0, pixels_hi: 0 },
                    state: State::INDEX,
                    ..self.bg
                },
                ..self
            }
        } else {
            self
        }
    }

    pub open spec fn spec_check_in_win_y(self) -> Self {
        if self.ly == self.wy {
            Ppu { bg: Background { in_win_y: true, ..self.bg }, ..self }
        } else {
            self
        }
    }

    /// Whether the pixel that leaves the queue is dropped for the fine
    /// scroll: outside the window, the first `SCX % 8` pixels of a line.
    pub open spec fn spec_scrolls(&self) -> bool {
        !(self.bg.win_mode || self.bg.num_scrolled >= self.scx % 8)
    }

    /// The background pixel for the column that is drawn next, if there is
    /// one: the colour id that leaves the queue, or 0 with the background
    /// switched off; none if the queue is empty or the pixel is dropped.
    pub open spec fn spec_bg_pixel(&self) -> Option<u8> {
        match self.bg.fifo.spec_front() {
            None => None,
            Some(pixel) => if self.lcdc & 0x01 == 0 {
                Some(0)
            } else if self.spec_scrolls() {
                None
            } else {
                Some(pixel)
            },
        }
    }

    pub open spec fn spec_bg_pop(self) -> Self {
        Ppu {
            bg: Background {
                fifo: self.bg.fifo.spec_rest(),
                num_scrolled: if self.bg.fifo.len != 0 && self.lcdc & 0x01 != 0
                    && self.spec_scrolls() {
                    (self.bg.num_scrolled + 1) as u8
                } else {
                    self.bg.num_scrolled
                },
                ..self.bg
            },
            ..self
        }
    }

    pub fn init_scanline_bg(&mut self)
        ensures
            *final(self) == old(self).spec_init_scanline_bg(),
    {
        self.bg.num_scrolled = 0;
        self.bg.tile_x = (self.scx / 8) % 32;
        self.bg.tile_line = (self.ly as u16 + self.scy as u16) % 8;
        self.bg.win_mode = false;
        self.bg.fifo.clear();
        self.bg.state = State::INDEX;
    }

    pub fn init_frame_bg(&mut self)
        ensures
            *final(self) == old(self).spec_init_frame_bg(),
    {
        self.bg.in_win_y = false;
        self.bg.win_line = 0;
    }

    pub fn cycle_bg(&mut self)
        ensures
            *final(self) == old(self).spec_cycle_bg(),
            final(self).keeps_schedule(old(self)),
            final(self).lx == old(self).lx,
            final(self).sp == old(self).sp,
    {
        match self.bg.state {
            State::INDEX => {
                let addr = self.tilemap_addr();
                self.bg.tile_id = self.vram.read(addr);
                self.bg.state = State::DATALOW;
            },
            State::DATALOW => {
                let addr = self.get_tile_addr();
                self.bg.data_lo = self.vram.read(addr);
                self.bg.state = State::DATAHIGH;
            },
            State::DATAHIGH => {
                let addr = self.get_tile_addr();
                self.bg.data_hi = self.vram.read(addr + 1);
                self.bg.state = State::PUSH;
            },
            State::PUSH => {
                if self.bg.fifo.empty() {
                    let lo = self.bg.data_lo;
                    let hi = self.bg.data_hi;
                    self.bg.fifo.push(lo, hi);
                    self.bg.tile_x = ((self.bg.tile_x as u16 + 1) % 32) as u8;
                    self.bg.state = State::INDEX;
                }
            },
            State::SLEEP => {},
        }
    }

    #[verifier::when_used_as_spec(spec_tilemap_addr)]
    pub fn tilemap_addr(&self) -> (a: u16)
        ensures
            a == self.spec_tilemap_addr(),
            0x9800 <= a <= 0x9FFF,
    {
        let (base, y): (u16, u16) = match (
            self.bg.win_mode,
            self.lcdc_bg_tm_sel(),
            self.lcdc_wn_tm_sel(),
        ) {
            (false, false, _) => (0x9800, (self.ly as u16 + self.scy as u16) % 256),
            (false, true, _) => (0x9C00, (self.ly as u16 + self.scy as u16) % 256),
            (true, _, false) => (0x9800, self.bg.win_line.wrapping_sub(1)),
            (true, _, true) => (0x9C00, self.bg.win_line.wrapping_sub(1)),
        };
        let offset = ((y / 8) % 32) * 32 + (self.bg.tile_x % 32) as u16;
        base + offset
    }

    #[verifier::when_used_as_spec(spec_tile_addr)]
    pub fn get_tile_addr(&self) -> (a: u16)
        ensures
            a == self.spec_tile_addr(),
            0x8000 <= a <= 0x97FE,
    {
        let mut index = self.bg.tile_id as u16;
        let base_addr: u16 = match (self.lcdc_td_sel(), self.bg.tile_id >= 128) {
            (true, _) => 0x8000,
            (false, false) => 0x9000,
            (false, true) => {
                index -= 128;
                0x8800
            },
        };
        let offset = index * 16 + (self.bg.tile_line % 8) * 2;
        base_addr + offset
    }

    /// Begins the window where it starts and says whether it did.
    pub fn check_in_win(&mut self) -> (entered: bool)
        ensures
            entered == old(self).spec_enters_win(),
            *final(self) == old(self).spec_check_in_win(),
            final(self).keeps_schedule(old(self)),
            final(self).lx == old(self).lx,
            final(self).sp == old(self).sp,
    {
        if !self.bg.win_mode && self.lcdc_wn_enbl() && self.in_win_x() && self.bg.in_win_y {
            self.bg.win_mode = true;
            self.bg.tile_line = self.bg.win_line % 8;
            self.bg.tile_x = 0;
            self.bg.win_line = self.bg.win_line.wrapping_add(1);
            self.bg.fifo.clear();
            self.bg.state = State::INDEX;
            return true;
        }
        false
    }

    #[verifier::when_used_as_spec(spec_in_win_x)]
    pub fn in_win_x(&self) -> (b: bool)
        ensures
            b == self.spec_in_win_x(),
    {
        self.lx >= self.wx.saturating_sub(7)
    }

    /// Notes that LY has met WY; this holds until the frame ends.
    pub fn check_in_win_y(&mut self)
        ensures
            *final(self) == old(self).spec_check_in_win_y(),
    {
        if self.ly == self.wy {
            self.bg.in_win_y = true;
        }
    }

    /// Takes a pixel from the background queue.
    pub fn bg_pop(&mut self) -> (p: Option<u8>)
        ensures
            p == old(self).spec_bg_pixel(),
            *final(self) == old(self).spec_bg_pop(),
            final(self).keeps_schedule(old(self)),
            final(self).lx == old(self).lx,
            final(self).sp == old(self).sp,
    {
        let scrolled = self.bg.win_mode || self.bg.num_scrolled >= self.scx % 8;
        match (self.bg.fifo.pop(), self.lcdc_bg_enbl(), scrolled) {
            (Some(pixel), true, true) => Some(pixel),
            (Some(_), true, false) => {
                self.bg.num_scrolled += 1;
                None
            },
            (Some(_), false, _) => Some(0),
            (None, _, _) => None,
        }
    }
}

} // verus!
