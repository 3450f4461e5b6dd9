//! The two pixel queues of the PPU. Each holds up to eight pixels as bit
//! planes; the pixel that leaves next sits in bit 7.

use vstd::prelude::*;

verus! {

/// The colour id in bit 7 of two bit planes.
pub open spec fn spec_top_pixel(lo: u8, hi: u8) -> u8 {
    ((lo & 0x80) >> 7) | ((hi & 0x80) >> 6)
}

#[verifier::when_used_as_spec(spec_top_pixel)]
pub fn top_pixel(lo: u8, hi: u8) -> (p: u8)
    ensures
        p == spec_top_pixel(lo, hi),
{
    ((lo & 0x80) >> 7) | ((hi & 0x80) >> 6)
}

/// The background queue: `len` pixels wait in the upper bits of the planes.
#[derive(Clone, Copy, Debug)]
pub struct BgFifo {
    pub len: u8,
    pub pixels_lo: u8,
    pub pixels_hi: u8,
}

impl BgFifo {
    pub open spec fn spec_push(self, data_lo: u8, data_hi: u8) -> Self {
        BgFifo { len: 8, pixels_lo: data_lo, pixels_hi: data_hi }
    }

    /// The colour id that leaves next, if the queue holds a pixel.
    pub open spec fn spec_front(self) -> Option<u8> {
        if self.len == 0 {
            None
        } else {
            Some(spec_top_pixel(self.pixels_lo, self.pixels_hi))
        }
    }

    /// The queue without the pixel that leaves next.
    pub open spec fn spec_rest(self) -> Self {
        if self.len == 0 {
            self
        } else {
            BgFifo {
                len: (self.len - 1) as u8,
                pixels_lo: self.pixels_lo << 1,
                pixels_hi: self.pixels_hi << 1,
            }
        }
    }

    pub open spec fn spec_empty(&self) -> bool {
        self.len == 0
    }

    pub fn init() -> (f: Self)
        ensures
            f == (BgFifo { len: 0, pixels_lo: 0, pixels_hi: 0 }),
    {
        Self { len: 0, pixels_lo: 0, pixels_hi: 0 }
    }

    /// Replaces what the queue holds by the eight pixels of a tile row.
    pub fn push(&mut self, data_lo: u8, data_hi: u8)
        ensures
            *final(self) == old(self).spec_push(data_lo, data_hi),
    {
        self.pixels_lo = data_lo;
        self.pixels_hi = data_hi;
        self.len = 8;
    }

    pub fn pop(&mut self) -> (p: Option<u8>)
        ensures
            p == old(self).spec_front(),
            *final(self) == old(self).spec_rest(),
    {
        if self.len == 0 {
            return None;
        }
        let pixel = top_pixel(self.pixels_lo, self.pixels_hi);
        self.pixels_lo = self.pixels_lo << 1;
        self.pixels_hi = self.pixels_hi << 1;
        self.len -= 1;
        Some(pixel)
    }

    #[verifier::when_used_as_spec(spec_empty)]
    pub fn empty(&self) -> (b: bool)
        ensures
            b == self.spec_empty(),
    {
        self.len == 0
    }

    pub fn clear(&mut self)
        ensures
            *final(self) == (BgFifo { len: 0, pixels_lo: 0, pixels_hi: 0 }),
    {
        self.pixels_lo = 0;
        self.pixels_hi = 0;
        self.len = 0;
    }
}

/// The sprite queue: always eight pixels deep, colour id 0 where no sprite
/// has put a pixel. Beside the two colour planes it has one plane for the
/// priority flag and one for the palette flag.
#[derive(Clone, Copy, Debug)]
pub struct Fifo {
    pub pixels_lo: u8,
    pub pixels_hi: u8,
    pub bg_pri_flag: u8,
    pub palette_flag: u8,
}

impl Fifo {
    /// The positions that hold no sprite pixel yet.
    pub open spec fn spec_free(self) -> u8 {
        !(self.pixels_lo | self.pixels_hi)
    }

    /// A sprite row enters the positions that are free; where an earlier
    /// sprite has a pixel, that pixel stays.
    pub open spec fn spec_push(self, data_lo: u8, data_hi: u8, flags: u8) -> Self {
        let mask = self.spec_free();
        Fifo {
            pixels_lo: self.pixels_lo | (data_lo & mask),
            pixels_hi: self.pixels_hi | (data_hi & mask),
            bg_pri_flag: if flags & 0x80 != 0 {
                self.bg_pri_flag | mask
            } else {
                self.bg_pri_flag & !mask
            },
            palette_flag: if flags & 0x10 != 0 {
                self.palette_flag | mask
            } else {
                self.palette_flag & !mask
            },
        }
    }

    /// The pixel that leaves next: its colour id, whether the background
    /// has priority over it, and whether it takes the second sprite palette.
    pub open spec fn spec_front(self) -> (u8, bool, bool) {
        (
            spec_top_pixel(self.pixels_lo, self.pixels_hi),
            self.bg_pri_flag & 0x80 != 0,
            self.palette_flag & 0x80 != 0,
        )
    }

    pub open spec fn spec_rest(self) -> Self {
        Fifo {
            pixels_lo: self.pixels_lo << 1,
            pixels_hi: self.pixels_hi << 1,
            bg_pri_flag: self.bg_pri_flag << 1,
            palette_flag: self.palette_flag << 1,
        }
    }

    pub fn init() -> (f: Self)
        ensures
            f == (Fifo { pixels_lo: 0, pixels_hi: 0, bg_pri_flag: 0, palette_flag: 0 }),
    {
        Self { pixels_lo: 0, pixels_hi: 0, bg_pri_flag: 0, palette_flag: 0 }
    }

    /// `flags` is the sprite's attribute byte: bit 7 gives the background
    /// priority, bit 4 selects the palette.
    pub fn push(&mut self, data_lo: u8, data_hi: u8, flags: u8)
        ensures
            *final(self) == old(self).spec_push(data_lo, data_hi, flags),
    {
        let mask = !(self.pixels_lo | self.pixels_hi);
        self.pixels_lo = self.pixels_lo | (data_lo & mask);
        self.pixels_hi = self.pixels_hi | (data_hi & mask);
        self.bg_pri_flag = if flags & 0x80 != 0 {
            self.bg_pri_flag | mask
        } else {
            self.bg_pri_flag & !mask
        };
        self.palette_flag = if flags & 0x10 != 0 {
            self.palette_flag | mask
        } else {
            self.palette_flag & !mask
        };
    }

    /// The queue always gives a pixel; one of colour id 0 is transparent.
    pub fn pop(&mut self) -> (p: Option<(u8, bool, bool)>)
        ensures
            p == Some(old(self).spec_front()),
            *final(self) == old(self).spec_rest(),
    {
        let pixel = top_pixel(self.pixels_lo, self.pixels_hi);
        let bg_priority = self.bg_pri_flag & 0x80 != 0;
        let palette = self.palette_flag & 0x80 != 0;
        self.pixels_lo = self.pixels_lo << 1;
        self.pixels_hi = self.pixels_hi << 1;
        self.bg_pri_flag = self.bg_pri_flag << 1;
        self.palette_flag = self.palette_flag << 1;
        Some((pixel, bg_priority, palette))
    }

    pub fn clear(&mut self)
        ensures
            *final(self) == (Fifo { pixels_lo: 0, pixels_hi: 0, bg_pri_flag: 0, palette_flag: 0 }),
    {
        self.pixels_lo = 0;
        self.pixels_hi = 0;
        self.bg_pri_flag = 0;
        self.palette_flag = 0;
    }
}

/// The colour id at position `i` of two bit planes, position 0 being the
/// leftmost pixel.
pub open spec fn spec_pixel_at(lo: u8, hi: u8, i: u8) -> u8 {
    ((lo >> (7 - i) as u8) & 1) | (((hi >> (7 - i) as u8) & 1) << 1)
}

impl View for BgFifo {
    type V = Seq<u8>;

    /// The colour ids that wait in the queue, the next to leave first.
    open spec fn view(&self) -> Seq<u8> {
        Seq::new(self.len as nat, |i: int| spec_pixel_at(self.pixels_lo, self.pixels_hi, i as u8))
    }
}

proof fn lemma_planes_shift(lo: u8, hi: u8, i: u8)
    by (bit_vector)
    requires
        i < 7,
    ensures
        spec_top_pixel(lo, hi) == spec_pixel_at(lo, hi, 0),
        spec_pixel_at(lo << 1, hi << 1, i) == spec_pixel_at(lo, hi, (i + 1) as u8),
        spec_pixel_at(lo, hi, i) <= 3,
{
}

/// The background queue is a queue: a push puts the eight pixels of a tile
/// row into it, left to right, and a pop takes the first of them and
/// leaves the others in their order.
pub proof fn lemma_bg_fifo_is_a_queue(f: BgFifo, data_lo: u8, data_hi: u8)
    requires
        f.len <= 8,
    ensures
        f.spec_push(data_lo, data_hi)@ == Seq::new(
            8,
            |i: int| spec_pixel_at(data_lo, data_hi, i as u8),
        ),
        f.len > 0 ==> f.spec_front() == Some(f@[0]) && f.spec_rest()@ == f@.drop_first(),
        f.len == 0 ==> f.spec_front() is None && f.spec_rest() == f && f@.len() == 0,
{
    if f.len > 0 {
        lemma_planes_shift(f.pixels_lo, f.pixels_hi, 0);
        let rest = f.spec_rest();
        assert forall|i: int| 0 <= i < rest@.len() implies rest@[i] == f@.drop_first()[i] by {
            lemma_planes_shift(f.pixels_lo, f.pixels_hi, i as u8);
        }
        assert(rest@ =~= f@.drop_first());
    }
}

} // verus!
