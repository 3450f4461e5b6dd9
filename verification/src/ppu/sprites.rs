//! The sprite fetcher and the buffer of the sprites on the current line.

use vstd::prelude::*;
use vstd::array::spec_array_update;
use crate::ppu::background::Background;
use crate::ppu::fifo::Fifo;
use crate::ppu::Ppu;

verus! {

/// The fetcher's step. It sleeps until a sprite comes up.
#[allow(non_camel_case_types)]
#[derive(Clone, Copy, Debug, PartialEq, Eq, Structural)]
pub enum State {
    DATALOW,
    DATAHIGH,
    PUSH,
    SLEEP,
}

/// A sprite as OAM holds it. `x` and `y` are the screen position plus 8 and
/// plus 16.
#[derive(Clone, Copy, Debug, PartialEq, Eq, Structural)]
pub struct Object {
    pub x: u8,
    pub y: u8,
    pub id: u8,
    pub flags: u8,
}

/// The bytes of one tile row, mirrored left to right.
pub open spec fn spec_mirror_byte(byte: u8) -> u8 {
    let a = (byte & 0xF0) >> 4 | (byte & 0x0F) << 4;
    let b = (a & 0xCC) >> 2 | (a & 0x33) << 2;
    (b & 0xAA) >> 1 | (b & 0x55) << 1
}

#[verifier::when_used_as_spec(spec_mirror_byte)]
pub fn mirror_byte(byte: u8) -> (m: u8)
    ensures
        m == spec_mirror_byte(byte),
{
    let a = (byte & 0xF0) >> 4 | (byte & 0x0F) << 4;
    let b = (a & 0xCC) >> 2 | (a & 0x33) << 2;
    (b & 0xAA) >> 1 | (b & 0x55) << 1
}

/// Mirroring reverses the order of the bits: bit `i` of the result is bit
/// `7 - i` of the byte. Mirroring twice gives the byte back.
pub proof fn lemma_mirror_byte(byte: u8, i: u8)
    by (bit_vector)
    requires
        i < 8,
    ensures
        (spec_mirror_byte(byte) >> i) & 1 == (byte >> (7 - i) as u8) & 1,
        spec_mirror_byte(spec_mirror_byte(byte)) == byte,
{
}

#[derive(Clone, Copy, Debug)]
pub struct Sprites {
    pub state: State,
    /// The sprite that is fetched.
    pub cur_obj: Object,
    /// The OAM entry that the scan looks at next, 0..40.
    pub fetcher_idx: u8,
    /// The sprites found on this line, in OAM order; the first `obj_count`
    /// entries count.
    pub obj_buffer: [Object; 10],
    pub obj_count: u8,
    /// Which of the buffered sprites have been fetched on this line.
    pub obj_fetched: [bool; 10],
    pub data_lo: u8,
    pub data_hi: u8,
    pub fifo: Fifo,
}

impl Sprites {
    pub open spec fn wf(&self) -> bool {
        self.obj_count <= 10
    }

    pub open spec fn spec_is_fetching(&self) -> bool {
        self.state != State::SLEEP
    }

    /// The buffer with one more sprite, unless it is full.
    pub open spec fn spec_buffer(self, obj: Object) -> Self {
        if self.obj_count < 10 {
            Sprites {
                obj_buffer: spec_array_update(self.obj_buffer, self.obj_count as int, obj),
                obj_fetched: spec_array_update(self.obj_fetched, self.obj_count as int, false),
                obj_count: (self.obj_count + 1) as u8,
                ..self
            }
        } else {
            self
        }
    }

    /// Whether the buffered sprite `i` is still to be fetched and starts
    /// within the next eight pixels from column `lx`.
    pub open spec fn comes_up(&self, i: int, lx: u8) -> bool {
        &&& !self.obj_fetched[i]
        &&& lx <= self.obj_buffer[i].x
        &&& self.obj_buffer[i].x <= lx + 8
    }

    /// The first buffered sprite from `from` on that comes up at `lx`.
    pub open spec fn spec_find(&self, from: int, lx: u8) -> Option<int>
        decreases self.obj_count - from,
    {
        if from >= self.obj_count || from < 0 {
            None
        } else if self.comes_up(from, lx) {
            Some(from)
        } else {
            self.spec_find(from + 1, lx)
        }
    }

    pub fn init() -> (s: Self)
        ensures
            s.state == State::SLEEP,
            s.cur_obj == (Object { x: 0, y: 0, id: 0, flags: 0 }),
            s.fetcher_idx == 0,
            s.obj_count == 0,
            s.data_lo == 0,
            s.data_hi == 0,
            s.fifo == (Fifo { pixels_lo: 0, pixels_hi: 0, bg_pri_flag: 0, palette_flag: 0 }),
            forall|i: int|
                0 <= i < 10 ==> !s.obj_fetched[i] && s.obj_buffer[i] == (Object {
                    x: 0,
                    y: 0,
                    id: 0,
                    flags: 0,
                }),
            s.wf(),
    {
        Self {
            state: State::SLEEP,
            cur_obj: Object { x: 0, y: 0, id: 0, flags: 0 },
            fetcher_idx: 0,
            obj_buffer: [Object { x: 0, y: 0, id: 0, flags: 0 };10],
            obj_count: 0,
            obj_fetched: [false;10],
            data_lo: 0,
            data_hi: 0,
            fifo: Fifo::init(),
        }
    }

    #[verifier::when_used_as_spec(spec_is_fetching)]
    pub fn is_fetching(&self) -> (b: bool)
        ensures
            b == self.spec_is_fetching(),
    {
        match self.state {
            State::SLEEP => false,
            _ => true,
        }
    }

    /// Appends a sprite to the buffer; the eleventh and later ones of a
    /// line are dropped.
    pub fn buffer(&mut self, obj: Object)
        requires
            old(self).wf(),
        ensures
            *final(self) == old(self).spec_buffer(obj),
            final(self).wf(),
    {
        if self.obj_count < 10 {
            self.obj_buffer[self.obj_count as usize] = obj;
            self.obj_fetched[self.obj_count as usize] = false;
            self.obj_count += 1;
        }
    }

    /// The first buffered sprite, in OAM order, that is still to be
    /// fetched and comes up at column `lx`.
    pub fn find(&self, lx: u8) -> (r: Option<usize>)
        requires
            self.wf(),
            lx <= 160,
        ensures
            r matches Some(i) ==> self.spec_find(0, lx) == Some(i as int) && i < self.obj_count,
            r is None ==> self.spec_find(0, lx) is None,
    {
        let mut i: usize = 0;
        while i < self.obj_count as usize
            invariant
                i <= self.obj_count <= 10,
                lx <= 160,
                self.spec_find(0, lx) == self.spec_find(i as int, lx),
            decreases self.obj_count - i,
        {
            let obj = self.obj_buffer[i];
            if !self.obj_fetched[i] && lx <= obj.x && obj.x <= lx + 8 {
                return Some(i);
            }
            i += 1;
        }
        None
    }
}

impl Ppu {
    /// The OAM entry that the scan looks at next.
    pub open spec fn spec_scanned(&self) -> Object {
        let base = (0xFE00 + self.sp.fetcher_idx * 4) as u16;
        Object {
            y: self.oam.peek(base),
            x: self.oam.peek((base + 1) as u16),
            id: self.oam.peek((base + 2) as u16),
            flags: self.oam.peek((base + 3) as u16),
        }
    }

    /// The height of a sprite in lines, by LCDC bit 2.
    pub open spec fn spec_obj_height(&self) -> int {
        if self.lcdc & 0x04 != 0 {
            16
        } else {
            8
        }
    }

    /// Whether a sprite is on the current line: its X is not zero and
    /// `Y <= LY + 16 < Y + height`.
    pub open spec fn spec_visible(&self, obj: Object) -> bool {
        obj.x != 0 && obj.y <= self.ly + 16 < obj.y + self.spec_obj_height()
    }

    /// One step of the OAM scan: the next entry is buffered if it is on the
    /// current line.
    pub open spec fn spec_fetch_object(self) -> Self {
        let sp = Sprites { fetcher_idx: (self.sp.fetcher_idx + 1) as u8, ..self.sp };
        Ppu {
            sp: if self.spec_visible(self.spec_scanned()) {
                sp.spec_buffer(self.spec_scanned())
            } else {
                sp
            },
            ..self
        }
    }

    pub open spec fn spec_init_scanline_sp(self) -> Self {
        Ppu {
            sp: Sprites {
                fifo: Fifo { pixels_lo: 0, pixels_hi: 0, bg_pri_flag: 0, palette_flag: 0 },
                state: State::SLEEP,
                ..self.sp
            },
            ..self
        }
    }

    /// The address of the low byte of the row of the fetched sprite that
    /// lies on the current line. Sprites take their tiles from 0x8000; a
    /// sprite of 16 lines takes two tiles and its id counts without its low
    /// bit. With attribute bit 6 the rows come bottom up.
    pub open spec fn spec_sprite_addr(&self) -> u16 {
        let height = self.spec_obj_height();
        let id: int = if self.lcdc & 0x04 != 0 {
            (self.sp.cur_obj.id & 0xFE) as int
        } else {
            self.sp.cur_obj.id as int
        };
        let down: int = if self.ly + 16 >= self.sp.cur_obj.y {
            self.ly + 16 - self.sp.cur_obj.y
        } else {
            0
        };
        let row = if self.sp.cur_obj.flags & 0x40 != 0 {
            height - 1 - down % height
        } else {
            down % height
        };
        (0x8000 + id * 16 + 2 * row) as u16
    }

    /// The sprite that comes up at the column drawn next is taken out of
    /// the buffer; its fetch begins and the background fetcher sleeps.
    pub open spec fn spec_fetch_obj(self) -> Self {
        match self.sp.spec_find(0, self.lx) {
            Some(i) => Ppu {
                sp: Sprites {
                    cur_obj: self.sp.obj_buffer[i],
                    obj_fetched: spec_array_update(self.sp.obj_fetched, i, true),
                    state: State::DATALOW,
                    ..self.sp
                },
                bg: Background { state: crate::ppu::background::State::SLEEP, ..self.bg },
                ..self
            },
            None => self,
        }
    }

    /// One step of the sprite fetcher: the low byte of the row, the high
    /// byte, and then the push, mirrored with attribute bit 5. After the
    /// push the background fetcher starts over and the next sprite, if one
    /// comes up at the same column, is taken.
    pub open spec fn spec_cycle_sp(self) -> Self {
        match self.sp.state {
            State::DATALOW => Ppu {
                sp: Sprites {
                    data_lo: self.vram.peek(self.spec_sprite_addr()),
                    state: State::DATAHIGH,
                    ..self.sp
                },
                ..self
            },
            State::DATAHIGH => Ppu {
                sp: Sprites {
                    data_hi: self.vram.peek((self.spec_sprite_addr() + 1) as u16),
                    state: State::PUSH,
                    ..self.sp
                },
                ..self
            },
            State::PUSH => {
                let flip = self.sp.cur_obj.flags & 0x20 != 0;
                let lo = if flip {
                    spec_mirror_byte(self.sp.data_lo)
                } else {
                    self.sp.data_lo
                };
                let hi = if flip {
                    spec_mirror_byte(self.sp.data_hi)
                } else {
                    self.sp.data_hi
                };
                let p = Ppu {
                    sp: Sprites {
                        data_lo: lo,
                        data_hi: hi,
                        fifo: self.sp.fifo.spec_push(lo, hi, self.sp.cur_obj.flags),
                        state: State::SLEEP,
                        ..self.sp
                    },
                    bg: Background { state: crate::ppu::background::State::INDEX, ..self.bg },
                    ..self
                };
                p.spec_fetch_obj()
            },
            State::SLEEP => self,
        }
    }

    /// The sprite pixel for the column that is drawn next: colour id,
    /// whether the background has priority, and the palette register to
    /// use. With sprites switched off the pixel is transparent.
    pub open spec fn spec_sp_pixel(&self) -> (u8, bool, u8) {
        let (pixel, bg_priority, palette_flag) = self.sp.fifo.spec_front();
        if self.lcdc & 0x02 == 0 {
            (0, false, 0)
        } else {
            (
                pixel,
                bg_priority,
                if palette_flag {
                    self.obp1
                } else {
                    self.obp0
                },
            )
        }
    }

    pub open spec fn spec_sp_pop(self) -> Self {
        Ppu { sp: Sprites { fifo: self.sp.fifo.spec_rest(), ..self.sp }, ..self }
    }

    pub fn fetch_object(&mut self)
        requires
            old(self).sp.wf(),
            old(self).sp.fetcher_idx < 40,
        ensures
            *final(self) == old(self).spec_fetch_object(),
            final(self).sp.wf(),
            final(self).sp.fetcher_idx == old(self).sp.fetcher_idx + 1,
            final(self).mode == old(self).mode && final(self).ly == old(self).ly && final(self).lx
                == old(self).lx && final(self).cycles == old(self).cycles,
            final(self).oam_dma == old(self).oam_dma && final(self).dma_cycles == old(
                self,
            ).dma_cycles,
    {
        let obj_addr: u16 = 0xFE00 + (self.sp.fetcher_idx as u16) * 4;
        self.sp.fetcher_idx += 1;
        let obj = Object {
            y: self.oam.read(obj_addr),
            x: self.oam.read(obj_addr + 1),
            id: self.oam.read(obj_addr + 2),
            flags: self.oam.read(obj_addr + 3),
        };
        let obj_height: u16 = if self.lcdc_sp_size() {
            16
        } else {
            8
        };
        let line = self.ly as u16 + 16;
        if obj.x == 0 || line < obj.y as u16 || line >= obj.y as u16 + obj_height {
            return ;
        }
        self.sp.buffer(obj);
    }

    pub fn init_scanline_sp(&mut self)
        ensures
            *final(self) == old(self).spec_init_scanline_sp(),
    {
        self.sp.fifo.clear();
        self.sp.state = State::SLEEP;
    }

    pub fn cycle_sp(&mut self)
        requires
            old(self).sp.wf(),
            old(self).lx <= 160,
        ensures
            *final(self) == old(self).spec_cycle_sp(),
            final(self).keeps_schedule(old(self)),
            final(self).lx == old(self).lx,
    {
        match self.sp.state {
            State::DATALOW => {
                let addr = self.get_sprite_addr();
                self.sp.data_lo = self.vram.read(addr);
                self.sp.state = State::DATAHIGH;
            },
            State::DATAHIGH => {
                let addr = self.get_sprite_addr();
                self.sp.data_hi = self.vram.read(addr + 1);
                self.sp.state = State::PUSH;
            },
            State::PUSH => {
                if self.sp.cur_obj.flags & 0x20 != 0 {
                    self.sp.data_lo = mirror_byte(self.sp.data_lo);
                    self.sp.data_hi = mirror_byte(self.sp.data_hi);
                }
                let lo = self.sp.data_lo;
                let hi = self.sp.data_hi;
                let flags = self.sp.cur_obj.flags;
                self.sp.fifo.push(lo, hi, flags);
                self.sp.state = State::SLEEP;
                self.bg.resume();
                self.fetch_obj();
            },
            State::SLEEP => {},
        }
    }

    pub fn fetch_obj(&mut self)
        requires
            old(self).sp.wf(),
            old(self).lx <= 160,
        ensures
            *final(self) == old(self).spec_fetch_obj(),
            final(self).keeps_schedule(old(self)),
            final(self).lx == old(self).lx,
    {
        match self.sp.find(self.lx) {
            Some(i) => {
                self.sp.cur_obj = self.sp.obj_buffer[i];
                self.sp.obj_fetched[i] = true;
                self.sp.state = State::DATALOW;
                self.bg.pause();
            },
            None => {},
        }
    }

    #[verifier::when_used_as_spec(spec_sprite_addr)]
    pub fn get_sprite_addr(&self) -> (a: u16)
        ensures
            a == self.spec_sprite_addr(),
            0x8000 <= a <= 0x900E,
    {
        let (obj_height, obj_id): (u16, u8) = match self.lcdc_sp_size() {
            false => (8, self.sp.cur_obj.id),
            true => (16, self.sp.cur_obj.id & 0xFE),
        };
        let tile_addr: u16 = 0x8000 + (obj_id as u16) * 16;
        let line = self.ly as u16 + 16;
        let down: u16 = if line >= self.sp.cur_obj.y as u16 {
            line - self.sp.cur_obj.y as u16
        } else {
            0
        };
        let mut offset = down % obj_height;
        if self.sp.cur_obj.flags & 0x40 != 0 {
            offset = obj_height - 1 - offset;
        }
        tile_addr + 2 * offset
    }

    /// Takes a pixel from the sprite queue.
    pub fn sp_pop(&mut self) -> (p: Option<(u8, bool, u8)>)
        ensures
            p == Some(old(self).spec_sp_pixel()),
            *final(self) == old(self).spec_sp_pop(),
            final(self).keeps_schedule(old(self)),
            final(self).lx == old(self).lx,
    {
        let (pixel, bg_priority, palette_flag) = self.sp.fifo.pop()?;
        if !self.lcdc_sp_enbl() {
            return Some((0, false, 0));
        }
        let palette = if palette_flag {
            self.obp1
        } else {
            self.obp0
        };
        Some((pixel, bg_priority, palette))
    }
}

} // verus!
