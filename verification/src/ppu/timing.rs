//! How long the PPU draws: every scanline takes 456 T-cycles whatever
//! the fetchers meet, so that a frame takes 70224 T-cycles and raises the
//! VBLANK interrupt once.

use vstd::prelude::*;
use vstd::array::spec_array_update;
use crate::ppu::background::State;
use crate::ppu::sprites::Sprites;
use crate::ppu::{LcdStatus, Ppu, PpuMode};

verus! {

impl Sprites {
    /// How many of the buffered sprites from `from` on are still to be
    /// fetched.
    pub open spec fn pending_from(&self, from: int) -> int
        decreases self.obj_count - from,
    {
        if from >= self.obj_count || from < 0 {
            0
        } else {
            (if self.obj_fetched[from] {
                0int
            } else {
                1int
            }) + self.pending_from(from + 1)
        }
    }

    /// How many of the buffered sprites are still to be fetched.
    pub open spec fn pending(&self) -> int {
        self.pending_from(0)
    }
}

proof fn lemma_pending_range(sp: Sprites, from: int)
    requires
        0 <= from,
    ensures
        0 <= sp.pending_from(from) <= sp.obj_count - from || (from >= sp.obj_count
            && sp.pending_from(from) == 0),
    decreases sp.obj_count - from,
{
    if from < sp.obj_count {
        lemma_pending_range(sp, from + 1);
    }
}

/// A sprite that is found is still to be fetched, and marking it fetched
/// leaves one less to be fetched.
proof fn lemma_found_is_pending(sp: Sprites, from: int, lx: u8, i: int)
    requires
        0 <= from,
        sp.obj_count <= 10,
        sp.spec_find(from, lx) == Some(i),
    ensures
        from <= i < sp.obj_count,
        !sp.obj_fetched[i],
        (Sprites { obj_fetched: spec_array_update(sp.obj_fetched, i, true), ..sp }).pending_from(
            from,
        ) == sp.pending_from(from) - 1,
    decreases sp.obj_count - from,
{
    broadcast use vstd::array::group_array_axioms;

    let marked = Sprites { obj_fetched: spec_array_update(sp.obj_fetched, i, true), ..sp };
    if from < sp.obj_count {
        if sp.comes_up(from, lx) {
            assert(i == from);
            lemma_marked_after(sp, from + 1, i);
        } else {
            lemma_found_is_pending(sp, from + 1, lx, i);
            assert(marked.obj_fetched[from] == sp.obj_fetched[from]);
        }
    }
}

proof fn lemma_marked_after(sp: Sprites, from: int, i: int)
    requires
        0 <= i < from,
        i < 10,
        sp.obj_count <= 10,
    ensures
        (Sprites { obj_fetched: spec_array_update(sp.obj_fetched, i, true), ..sp }).pending_from(
            from,
        ) == sp.pending_from(from),
    decreases sp.obj_count - from,
{
    broadcast use vstd::array::group_array_axioms;

    let marked = Sprites { obj_fetched: spec_array_update(sp.obj_fetched, i, true), ..sp };
    if from < sp.obj_count {
        lemma_marked_after(sp, from + 1, i);
        assert(marked.obj_fetched[from] == sp.obj_fetched[from]);
    }
}

/// The T-cycles until the background fetcher has pushed and the pixels
/// that are still to leave the queue have left it, if nothing gets in the
/// way. `te` is the number of T-cycles until the fetchers step next, 1 or
/// 2; `k` the number of steps until the push; `l` the pixels in the queue.
pub open spec fn main_time(te: int, k: int, l: int, pops: int) -> int {
    let b = te + 2 * (k - 1);
    let j = if b >= l + 1 {
        b
    } else if (l + 1 - te) % 2 == 0 {
        l + 1
    } else {
        l + 2
    };
    if pops <= l {
        pops
    } else {
        j - 1 + pops - l
    }
}

/// Where the fetchers stand while a line is drawn, in numbers.
pub struct Pace {
    /// T-cycles until the fetchers step next, 1 or 2.
    pub te: int,
    /// Steps until the background fetcher pushes, 1 to 4.
    pub k: int,
    /// Steps until the sprite fetcher sleeps again, 0 to 3.
    pub ks: int,
    /// Pixels in the background queue.
    pub l: int,
    /// Columns left to draw.
    pub r: int,
    /// Pixels dropped for the fine scroll.
    pub d: int,
    /// Whether the window has begun.
    pub win: bool,
    /// Sprites still to be fetched.
    pub n: int,
}

impl Pace {
    pub open spec fn valid(self) -> bool {
        &&& (self.te == 1 || self.te == 2)
        &&& 1 <= self.k <= 4
        &&& 0 <= self.ks <= 3
        &&& (self.ks > 0 ==> self.k == 4)
        &&& 0 <= self.l <= 8
        &&& 1 <= self.r <= 160
        &&& 0 <= self.d <= 7
        &&& 0 <= self.n
    }

    /// The pixels that are to leave the background queue at most until the
    /// line is drawn: one for each column left, and outside the window the
    /// pixels that the fine scroll may still drop.
    pub open spec fn pops(self) -> int {
        self.r + (if self.win {
            0
        } else {
            7 - self.d
        })
    }

    /// A bound on the T-cycles that drawing the line still takes. A sprite
    /// that is still to be fetched may cost 15 T-cycles and the start of
    /// the window 18.
    pub open spec fn time(self) -> int {
        let rest = 15 * self.n + (if self.win {
            0int
        } else {
            18int
        });
        if self.ks > 0 {
            self.te + 2 * (self.ks - 1) + self.pops() + 8 + rest
        } else {
            main_time(self.te, self.k, self.l, self.pops()) + rest
        }
    }

    /// What a step of the two fetchers makes of the numbers.
    pub open spec fn stepped(self, to: Pace) -> bool {
        &&& to.te == self.te
        &&& to.r == self.r
        &&& to.d == self.d
        &&& to.win == self.win
        &&& to.n >= 0
        &&& (to.ks > 0 ==> to.k == 4)
        &&& if self.ks == 0 {
            &&& to.ks == 0
            &&& to.n == self.n
            &&& if self.k == 1 {
                if self.l == 0 {
                    to.l == 8 && to.k == 4
                } else {
                    to.l == self.l && to.k == 1
                }
            } else {
                to.l == self.l && to.k == self.k - 1
            }
        } else {
            &&& to.l == self.l
            &&& if self.ks > 1 {
                to.ks == self.ks - 1 && to.n == self.n
            } else {
                (to.ks == 0 && to.k == 4 && to.n == self.n) || (to.ks == 3 && to.n == self.n - 1)
            }
        }
    }

    /// What a T-cycle of the pixel pump makes of the numbers.
    pub open spec fn pumped(self, to: Pace) -> bool {
        &&& to.te == self.te
        &&& 0 <= to.d <= 7
        &&& 0 <= to.l <= 8
        &&& 0 <= to.r
        &&& to.n >= 0
        &&& (to.ks > 0 ==> to.k == 4)
        &&& if self.ks > 0 {
            to == self
        } else if !self.win && to.win {
            to.l == 0 && to.k == 4 && to.r == self.r && to.ks == 0 && to.n == self.n
        } else if self.l == 0 {
            to == self
        } else {
            &&& to.win == self.win
            &&& to.l == self.l - 1
            &&& if to.r == self.r {
                &&& !self.win
                &&& to.d == self.d + 1
                &&& to.ks == self.ks
                &&& to.k == self.k
                &&& to.n == self.n
            } else {
                &&& to.r == self.r - 1
                &&& to.d == self.d
                &&& (to.k == self.k && to.ks == 0 && to.n == self.n || to.ks == 3 && to.n
                    == self.n - 1)
            }
        }
    }
}

/// A T-cycle of drawing, in numbers: the fetchers step if the T-cycle is
/// even, and the pixel pump works. The end of the line comes at least one
/// T-cycle nearer.
proof fn lemma_pace(a: Pace, r: Pace, s: Pace)
    requires
        a.valid(),
        if a.te == 1 {
            a.stepped(r)
        } else {
            r == a
        },
        r.pumped(s),
        s.r > 0,
    ensures
        (Pace { te: 3 - a.te, ..s }).valid(),
        (Pace { te: 3 - a.te, ..s }).time() <= a.time() - 1,
{
}

impl Ppu {
    /// The T-cycles until the fetchers step next: they step in the even
    /// T-cycles of a line.
    pub open spec fn until_step(&self) -> int {
        if self.cycles % 2 == 1 {
            1
        } else {
            2
        }
    }

    /// The steps that the background fetcher has to take until it pushes.
    pub open spec fn bg_steps(&self) -> int {
        match self.bg.state {
            State::DATALOW => 3,
            State::DATAHIGH => 2,
            State::PUSH => 1,
            _ => 4,
        }
    }

    /// The steps that the sprite fetcher has to take until it sleeps again.
    pub open spec fn sp_steps(&self) -> int {
        match self.sp.state {
            crate::ppu::sprites::State::DATALOW => 3,
            crate::ppu::sprites::State::DATAHIGH => 2,
            crate::ppu::sprites::State::PUSH => 1,
            crate::ppu::sprites::State::SLEEP => 0,
        }
    }

    /// Where the fetchers stand, in numbers.
    pub open spec fn pace(&self) -> Pace {
        Pace {
            te: self.until_step(),
            k: self.bg_steps(),
            ks: self.sp_steps(),
            l: self.bg.fifo.len as int,
            r: 160 - self.lx,
            d: self.bg.num_scrolled as int,
            win: self.bg.win_mode,
            n: self.sp.pending(),
        }
    }

    /// A bound on the T-cycles that drawing the line still takes.
    pub open spec fn draw_time(&self) -> int {
        self.pace().time()
    }

    /// What holds of the fetchers while a line is drawn.
    pub open spec fn draw_ok(&self) -> bool {
        &&& self.bg.fifo.len <= 8
        &&& self.bg.num_scrolled <= 7
        &&& (self.sp.spec_is_fetching() <==> self.bg.state == State::SLEEP)
        &&& self.sp.wf()
        &&& self.lx < 160
    }

    /// `wf`, and the line is in time: drawing ends, and HBLANK and VBLANK
    /// end, no later than in T-cycle 455 of the line.
    pub open spec fn timed(&self) -> bool {
        &&& self.wf()
        &&& match self.mode {
            PpuMode::DRAW => self.draw_ok() && self.cycles + self.draw_time() <= 455,
            PpuMode::OAMSCAN => true,
            _ => self.cycles <= 455,
        }
    }

    /// The T-cycle of the frame that the PPU is in.
    pub open spec fn frame_pos(&self) -> int {
        self.ly * 456 + self.cycles
    }
}

impl Ppu {
    /// Whether the PPU is at the column and in the T-cycle of `before`,
    /// with the same pixels in the background queue and as far in the fine
    /// scroll and in the window.
    pub open spec fn keeps_line(&self, before: &Ppu) -> bool {
        &&& self.keeps_schedule(before)
        &&& self.lx == before.lx
        &&& self.bg.fifo == before.bg.fifo
        &&& self.bg.num_scrolled == before.bg.num_scrolled
        &&& self.bg.win_mode == before.bg.win_mode
    }

    /// Whether the fetchers stand as in `before`, or a sprite fetch has
    /// begun since.
    pub open spec fn same_or_fetching(&self, before: &Ppu) -> bool {
        ||| (self.sp.state == before.sp.state && self.bg.state == before.bg.state
            && self.sp.pending() == before.sp.pending())
        ||| (self.sp.state == crate::ppu::sprites::State::DATALOW && self.bg.state == State::SLEEP
            && self.sp.pending() == before.sp.pending() - 1)
    }
}

#[verifier::rlimit(40)]
proof fn lemma_fetch_obj_pace(p: Ppu)
    requires
        p.sp.wf(),
    ensures
        p.spec_fetch_obj().keeps_line(&p),
        p.spec_fetch_obj().same_or_fetching(&p),
        p.spec_fetch_obj().sp.pending() >= 0,
        p.spec_fetch_obj().sp.wf(),
{
    lemma_pending_range(p.sp, 0);
    match p.sp.spec_find(0, p.lx) {
        Some(i) => {
            lemma_found_is_pending(p.sp, 0, p.lx, i);
            let marked = Sprites { obj_fetched: spec_array_update(p.sp.obj_fetched, i, true), ..p.sp };
            let q = p.spec_fetch_obj();
            assert(q.sp.pending_from(0) == marked.pending_from(0)) by {
                lemma_pending_same(q.sp, marked, 0);
            }
            lemma_pending_range(q.sp, 0);
        },
        None => {},
    }
}

/// The number of sprites to be fetched depends on the buffer's marks only.
proof fn lemma_pending_same(a: Sprites, b: Sprites, from: int)
    requires
        a.obj_count == b.obj_count,
        a.obj_fetched == b.obj_fetched,
    ensures
        a.pending_from(from) == b.pending_from(from),
    decreases a.obj_count - from,
{
    if 0 <= from < a.obj_count {
        lemma_pending_same(a, b, from + 1);
    }
}

/// What a step of the two fetchers does to their states.
#[verifier::rlimit(40)]
proof fn lemma_step_pace(p: Ppu)
    requires
        p.draw_ok(),
    ensures
        ({
            let r = p.spec_cycle_bg().spec_cycle_sp();
            &&& r.keeps_schedule(&p)
            &&& r.lx == p.lx
            &&& r.bg.num_scrolled == p.bg.num_scrolled
            &&& r.bg.win_mode == p.bg.win_mode
            &&& r.draw_ok()
            &&& r.sp.pending() >= 0
            &&& if !p.sp.spec_is_fetching() {
                &&& r.sp.state == p.sp.state
                &&& r.sp.pending() == p.sp.pending()
                &&& if p.bg.state == State::PUSH {
                    if p.bg.fifo.len == 0 {
                        r.bg.fifo.len == 8 && r.bg.state == State::INDEX
                    } else {
                        r.bg.fifo.len == p.bg.fifo.len && r.bg.state == State::PUSH
                    }
                } else {
                    r.bg.fifo.len == p.bg.fifo.len && r.bg_steps() == p.bg_steps() - 1
                }
            } else {
                &&& r.bg.fifo.len == p.bg.fifo.len
                &&& if p.sp_steps() > 1 {
                    r.sp_steps() == p.sp_steps() - 1 && r.sp.pending() == p.sp.pending()
                } else {
                    ||| (!r.sp.spec_is_fetching() && r.bg.state == State::INDEX && r.sp.pending()
                        == p.sp.pending())
                    ||| (r.sp_steps() == 3 && r.sp.pending() == p.sp.pending() - 1)
                }
            }
        }),
{
    let a = p.spec_cycle_bg();
    lemma_pending_same(a.sp, p.sp, 0);
    lemma_pending_range(p.sp, 0);
    let r = a.spec_cycle_sp();
    match a.sp.state {
        crate::ppu::sprites::State::PUSH => {
            let flip = a.sp.cur_obj.flags & 0x20 != 0;
            let lo = if flip {
                crate::ppu::sprites::spec_mirror_byte(a.sp.data_lo)
            } else {
                a.sp.data_lo
            };
            let hi = if flip {
                crate::ppu::sprites::spec_mirror_byte(a.sp.data_hi)
            } else {
                a.sp.data_hi
            };
            let pushed = Ppu {
                sp: Sprites {
                    data_lo: lo,
                    data_hi: hi,
                    fifo: a.sp.fifo.spec_push(lo, hi, a.sp.cur_obj.flags),
                    state: crate::ppu::sprites::State::SLEEP,
                    ..a.sp
                },
                bg: crate::ppu::background::Background { state: State::INDEX, ..a.bg },
                ..a
            };
            lemma_pending_same(pushed.sp, p.sp, 0);
            lemma_fetch_obj_pace(pushed);
        },
        _ => {
            lemma_pending_same(r.sp, p.sp, 0);
        },
    }
}

/// What a T-cycle of the pixel pump does to the column, the queue and the
/// fetchers.
#[verifier::rlimit(40)]
proof fn lemma_draw_pixel_pace(r: Ppu)
    requires
        r.draw_ok(),
        r.sp.pending() >= 0,
    ensures
        ({
            let s = r.spec_draw_pixel();
            &&& s.keeps_schedule(&r)
            &&& s.sp.wf()
            &&& s.bg.num_scrolled <= 7
            &&& s.bg.fifo.len <= 8
            &&& s.lx <= 160
            &&& s.sp.pending() >= 0
            &&& (s.sp.spec_is_fetching() <==> s.bg.state == State::SLEEP)
            &&& if r.sp.spec_is_fetching() {
                s.keeps_line(&r) && s.sp.state == r.sp.state && s.sp.pending() == r.sp.pending()
            } else if !r.bg.win_mode && s.bg.win_mode {
                &&& s.bg.fifo.len == 0
                &&& s.bg.state == State::INDEX
                &&& s.lx == r.lx
                &&& !s.sp.spec_is_fetching()
                &&& s.sp.pending() == r.sp.pending()
            } else if r.bg.fifo.len == 0 {
                s.keeps_line(&r) && s.sp.state == r.sp.state && s.bg.state == r.bg.state
                    && s.sp.pending() == r.sp.pending()
            } else {
                &&& s.bg.win_mode == r.bg.win_mode
                &&& s.bg.fifo.len == r.bg.fifo.len - 1
                &&& if s.lx == r.lx {
                    &&& !r.bg.win_mode
                    &&& s.bg.num_scrolled == r.bg.num_scrolled + 1
                    &&& s.sp.state == r.sp.state
                    &&& s.bg.state == r.bg.state
                    &&& s.sp.pending() == r.sp.pending()
                } else {
                    &&& s.lx == r.lx + 1
                    &&& s.bg.num_scrolled == r.bg.num_scrolled
                    &&& (s.bg.state == r.bg.state && !s.sp.spec_is_fetching() && s.sp.pending()
                        == r.sp.pending() || s.sp_steps() == 3 && s.sp.pending()
                        == r.sp.pending() - 1)
                }
            }
        }),
{
    if r.sp.spec_is_fetching() {
    } else if r.spec_enters_win() {
        lemma_pending_same(r.spec_check_in_win().sp, r.sp, 0);
    } else {
        let m = r.spec_mix_pixel();
        lemma_pending_same(m.sp, r.sp, 0);
        match r.spec_mixed() {
            None => {},
            Some(pixel) => {
                let q = Ppu {
                    framebuffer: if r.lcd_status == LcdStatus::ON {
                        spec_array_update(r.framebuffer, r.spec_pixel_index(), pixel)
                    } else {
                        r.framebuffer
                    },
                    lx: (r.lx + 1) as u8,
                    ..m
                };
                lemma_pending_same(q.sp, r.sp, 0);
                lemma_fetch_obj_pace(q);
            },
        }
    }
}

impl Ppu {
    /// What holds of the PPU after a part of a T-cycle of drawing that
    /// began as `before`.
    pub open spec fn drawing_on(&self, before: &Ppu) -> bool {
        &&& self.keeps_schedule(before)
        &&& self.sp.wf()
        &&& self.bg.num_scrolled <= 7
        &&& self.bg.fifo.len <= 8
        &&& self.lx <= 160
        &&& (self.sp.spec_is_fetching() <==> self.bg.state == State::SLEEP)
    }
}

proof fn lemma_step_numbers(p: Ppu)
    requires
        p.draw_ok(),
    ensures
        p.spec_cycle_bg().spec_cycle_sp().drawing_on(&p),
        p.spec_cycle_bg().spec_cycle_sp().lx == p.lx,
        p.pace().stepped(p.spec_cycle_bg().spec_cycle_sp().pace()),
{
    lemma_step_pace(p);
    lemma_pending_range(p.sp, 0);
}

proof fn lemma_pump_numbers(r: Ppu)
    requires
        r.draw_ok(),
        r.sp.pending() >= 0,
    ensures
        r.spec_draw_pixel().drawing_on(&r),
        r.pace().pumped(r.spec_draw_pixel().pace()),
{
    lemma_draw_pixel_pace(r);
}

/// A T-cycle of drawing brings the end of the line at least one T-cycle
/// nearer.
#[verifier::rlimit(80)]
proof fn lemma_draw_cycle(p: Ppu)
    requires
        p.mode == PpuMode::DRAW,
        p.draw_ok(),
        p.cycles < 0xFFFF_FFFF,
    ensures
        ({
            let q = (Ppu { cycles: p.next_cycles(), ..p }).spec_cycle_draw();
            &&& q.cycles == p.cycles + 1
            &&& q.ly == p.ly
            &&& q.lcd_status == p.lcd_status
            &&& q.sp.wf()
            &&& q.oam_dma == p.oam_dma
            &&& q.dma_cycles == p.dma_cycles
            &&& q.lx <= 160
            &&& (q.mode == PpuMode::DRAW || q.mode == PpuMode::HBLANK)
            &&& (q.mode == PpuMode::DRAW ==> q.draw_ok() && q.draw_time() <= p.draw_time() - 1)
            &&& (q.mode == PpuMode::HBLANK ==> q.lx == 160)
        }),
{
    let c = Ppu { cycles: p.next_cycles(), ..p };
    lemma_pending_range(p.sp, 0);
    lemma_pending_same(c.sp, p.sp, 0);
    let e = c.cycles % 2 == 0;
    let r = if e {
        c.spec_cycle_bg().spec_cycle_sp()
    } else {
        c
    };
    if e {
        lemma_step_numbers(c);
    }
    lemma_pump_numbers(r);
    let s = r.spec_draw_pixel();
    lemma_draw_end(c, s);
    let q = c.spec_cycle_draw();
    let pa = p.pace();
    let pr = Pace { te: pa.te, ..r.pace() };
    let ps = Pace { te: pa.te, ..s.pace() };
    assert(c.pace() == Pace { te: 3 - pa.te, ..pa });
    assert(r.pace().te == 3 - pa.te);
    assert(s.pace().te == 3 - pa.te);
    if s.lx < 160 {
        lemma_pace(pa, pr, ps);
    }
}

/// The end of a T-cycle of drawing: after column 159 HBLANK begins.
proof fn lemma_draw_end(c: Ppu, s: Ppu)
    requires
        s == (if c.cycles % 2 == 0 {
            c.spec_cycle_bg().spec_cycle_sp()
        } else {
            c
        }).spec_draw_pixel(),
    ensures
        c.spec_cycle_draw().sp == s.sp,
        c.spec_cycle_draw().bg == s.bg,
        c.spec_cycle_draw().lx == s.lx,
        c.spec_cycle_draw().ly == s.ly,
        c.spec_cycle_draw().cycles == s.cycles,
        c.spec_cycle_draw().lcd_status == s.lcd_status,
        c.spec_cycle_draw().oam_dma == s.oam_dma,
        c.spec_cycle_draw().dma_cycles == s.dma_cycles,
        c.spec_cycle_draw().mode == (if s.lx == 160 {
            PpuMode::HBLANK
        } else {
            s.mode
        }),
        c.spec_cycle_draw().pace() == s.pace(),
{
    reveal(Ppu::spec_cycle_draw);
    lemma_pending_same(c.spec_cycle_draw().sp, s.sp, 0);
}

proof fn lemma_time_positive(a: Pace)
    requires
        a.valid(),
    ensures
        a.time() >= 1,
{
}

impl Ppu {
    /// Whether the T-cycle that comes next raises the VBLANK interrupt.
    pub open spec fn raises_vblank(&self) -> bool {
        self.lcd_status != LcdStatus::OFF && self.mode == PpuMode::VBLANK && self.ly == 144
            && self.cycles == 3
    }

    /// How often the VBLANK interrupt is raised in the next `n` T-cycles.
    pub open spec fn vblank_raises(self, n: nat) -> nat
        decreases n,
    {
        if n == 0 {
            0
        } else {
            (if self.raises_vblank() {
                1nat
            } else {
                0nat
            }) + self.spec_cycle().vblank_raises((n - 1) as nat)
        }
    }
}

#[verifier::rlimit(40)]
proof fn lemma_timed_oamscan(p: Ppu)
    requires
        p.timed(),
        p.mode == PpuMode::OAMSCAN,
        p.lcd_status != LcdStatus::OFF,
    ensures
        p.spec_mode_step().timed(),
        p.spec_mode_step().lcd_status == p.lcd_status,
        p.spec_mode_step().frame_pos() == p.frame_pos() + 1,
{
    let c = Ppu { cycles: p.next_cycles(), ..p };
    let r = if c.cycles % 2 == 0 {
        c.spec_fetch_object()
    } else {
        c
    };
    let q = c.spec_cycle_oamscan();
    if c.cycles == 80 {
        lemma_pending_range(q.sp, 0);
        assert(q.pace().n <= 10);
        assert(q.pace().te == 2);
        assert(q.pace().k == 4);
        assert(q.pace().l == 0);
        assert(q.pace().ks == 0);
        assert(q.pace().r == 160);
        assert(q.pace().d == 0);
        assert(!q.pace().win);
        assert(main_time(2, 4, 0, 167) == 174);
    }
}

#[verifier::rlimit(40)]
proof fn lemma_timed_blank(p: Ppu)
    requires
        p.timed(),
        p.mode == PpuMode::HBLANK || p.mode == PpuMode::VBLANK,
        p.lcd_status != LcdStatus::OFF,
    ensures
        p.spec_mode_step().timed(),
        p.spec_mode_step().lcd_status != LcdStatus::OFF,
        p.spec_mode_step().frame_pos() == (p.frame_pos() + 1) % 70224,
{
}

#[verifier::rlimit(40)]
proof fn lemma_timed_draw(p: Ppu)
    requires
        p.timed(),
        p.mode == PpuMode::DRAW,
        p.lcd_status != LcdStatus::OFF,
    ensures
        p.spec_mode_step().timed(),
        p.spec_mode_step().lcd_status == p.lcd_status,
        p.spec_mode_step().frame_pos() == p.frame_pos() + 1,
{
    lemma_pending_range(p.sp, 0);
    lemma_time_positive(p.pace());
    lemma_draw_cycle(p);
}

/// While the LCD is on, every T-cycle takes the PPU to the next T-cycle
/// of the frame, which has 154 lines of 456 T-cycles each: drawing a line
/// never takes so long that the line would get longer.
#[verifier::rlimit(40)]
pub proof fn lemma_timed_cycle(p: Ppu)
    requires
        p.timed(),
        p.lcd_status != LcdStatus::OFF,
    ensures
        p.spec_cycle().timed(),
        p.spec_cycle().lcd_status != LcdStatus::OFF,
        p.spec_cycle().frame_pos() == (p.frame_pos() + 1) % 70224,
        0 <= p.frame_pos() < 70224,
{
    reveal(Ppu::spec_cycle);
    let r = p.spec_mode_step();
    match p.mode {
        PpuMode::OAMSCAN => {
            lemma_timed_oamscan(p);
            assert(p.frame_pos() + 1 < 70224);
        },
        PpuMode::DRAW => {
            lemma_pending_range(p.sp, 0);
            lemma_time_positive(p.pace());
            lemma_timed_draw(p);
            assert(p.frame_pos() + 1 < 70224);
        },
        _ => {
            lemma_timed_blank(p);
        },
    }
    assert(r.frame_pos() == (p.frame_pos() + 1) % 70224);
    let q = r.spec_update_stat();
    lemma_pending_same(q.sp, r.sp, 0);
    assert(q.pace() == r.pace());
    assert(q.frame_pos() == r.frame_pos());
}

/// In every mode the T-cycle of the line is 455 at most, so that the
/// T-cycle of the frame tells where the PPU is.
proof fn lemma_raise_position(p: Ppu)
    requires
        p.timed(),
        p.lcd_status != LcdStatus::OFF,
    ensures
        p.cycles <= 455,
        p.raises_vblank() <==> p.frame_pos() == 65667,
{
    if p.mode == PpuMode::DRAW {
        lemma_pending_range(p.sp, 0);
        lemma_time_positive(p.pace());
    }
}

/// Of two T-cycles of the frame that follow each other: how many times
/// `k` T-cycles from the first pass the T-cycle 65667, by how many times
/// `k - 1` T-cycles from the second do.
proof fn lemma_count_step(a: int, b: int, k: int)
    requires
        0 <= a < 70224,
        b == (a + 1) % 70224,
        k >= 1,
    ensures
        (a + 4556 + k) / 70224 - (a + 4556) / 70224 == (if a == 65667 {
            1int
        } else {
            0int
        }) + (b + 4556 + k - 1) / 70224 - (b + 4556) / 70224,
{
    if a == 70223 {
        assert(b == 0);
    } else {
        assert(b == a + 1);
    }
}

/// With the LCD on, the number of times that the VBLANK interrupt is
/// raised in `n` T-cycles is the number of times that the frame passes the
/// fourth T-cycle of line 144.
proof fn lemma_vblank_count(p: Ppu, n: nat)
    requires
        p.timed(),
        p.lcd_status != LcdStatus::OFF,
    ensures
        p.vblank_raises(n) == (p.frame_pos() + 4556 + n) / 70224 - (p.frame_pos() + 4556) / 70224,
    decreases n,
{
    if n > 0 {
        lemma_timed_cycle(p);
        lemma_raise_position(p);
        lemma_vblank_count(p.spec_cycle(), (n - 1) as nat);
        lemma_count_step(p.frame_pos(), p.spec_cycle().frame_pos(), n as int);
    }
}

/// With the LCD on throughout, the VBLANK interrupt is raised exactly once
/// in every 70224 T-cycles, wherever in the frame they begin.
pub proof fn lemma_vblank_once_per_frame(p: Ppu)
    requires
        p.timed(),
        p.lcd_status != LcdStatus::OFF,
    ensures
        p.vblank_raises(70224) == 1,
        p.spec_run(70224).frame_pos() == p.frame_pos(),
{
    lemma_timed_cycle(p);
    lemma_vblank_count(p, 70224);
    lemma_frame_pos(p, 70224);
}

/// `n` T-cycles take the PPU `n` T-cycles on in the frame.
proof fn lemma_frame_pos(p: Ppu, n: nat)
    requires
        p.timed(),
        p.lcd_status != LcdStatus::OFF,
    ensures
        p.spec_run(n).timed(),
        p.spec_run(n).frame_pos() == (p.frame_pos() + n) % 70224,
    decreases n,
{
    lemma_timed_cycle(p);
    if n > 0 {
        lemma_frame_pos(p.spec_cycle(), (n - 1) as nat);
    }
}

/// What the CPU writes to the PPU's registers and memory leaves the line
/// in time: no write can make a line longer.
#[verifier::rlimit(40)]
pub proof fn lemma_timed_writes(p: Ppu, addr: u16, val: u8)
    requires
        p.timed(),
    ensures
        p.spec_write_lcdc(val).timed(),
        p.spec_write_stat(val).timed(),
        p.spec_write_dma(val).timed(),
        p.spec_vram_write(addr, val).timed(),
        p.spec_oam_write(addr, val).timed(),
        (Ppu { scy: val, ..p }).timed(),
        (Ppu { scx: val, ..p }).timed(),
        (Ppu { lyc: val, ..p }).timed(),
        (Ppu { bgp: val, ..p }).timed(),
        (Ppu { obp0: val, ..p }).timed(),
        (Ppu { obp1: val, ..p }).timed(),
        (Ppu { wy: val, ..p }).timed(),
        (Ppu { wx: val, ..p }).timed(),
        (Ppu { stat_intr: false, vblank_intr: false, ..p }).timed(),
{
    if p.spec_write_lcdc(val).sp.obj_count == p.sp.obj_count {
        lemma_pending_same(p.spec_write_lcdc(val).sp, p.sp, 0);
    }
    lemma_pending_same(p.spec_write_stat(val).sp, p.sp, 0);
    lemma_pending_same(p.spec_write_dma(val).sp, p.sp, 0);
    lemma_pending_same(p.spec_vram_write(addr, val).sp, p.sp, 0);
    lemma_pending_same(p.spec_oam_write(addr, val).sp, p.sp, 0);
}

} // verus!
