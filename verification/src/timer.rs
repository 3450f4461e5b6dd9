//! Timer: the 16-bit divider, TIMA with its overflow and reload delay, and
//! the falling-edge detector that clocks TIMA.

use vstd::prelude::*;

verus! {

/// Where TIMA is in its overflow cycle. The counts run from 3 down to 0,
/// one per T-cycle.
#[allow(non_camel_case_types)]
#[derive(Clone, Copy, Debug, PartialEq, Eq, Structural)]
pub enum TimaState {
    RUNNING,
    OVERFLOW(u8),
    LOADING(u8),
}

#[derive(Clone, Copy, Debug)]
pub struct Timer {
    /// The internal divider; DIV is its upper byte.
    pub div: u16,
    pub tima: u8,
    pub tma: u8,
    pub tac: u8,
    pub tima_state: TimaState,
}

impl Timer {
    /// The divider bit that TAC's low two bits select.
    pub open spec fn spec_mask(&self) -> u16 {
        match self.tac & 0b11 {
            0 => 0x0200,
            1 => 0x0008,
            2 => 0x0020,
            _ => 0x0080,
        }
    }

    pub open spec fn spec_enabled(&self) -> bool {
        self.tac & 0b100 != 0
    }

    /// The signal whose falling edge clocks TIMA: the selected divider bit,
    /// gated by the enable bit.
    pub open spec fn line(&self) -> bool {
        self.spec_enabled() && self.div & self.spec_mask() != 0
    }

    /// TIMA counts up by one; on wrapping to zero the overflow delay starts.
    pub open spec fn spec_increment(self) -> Self {
        let tima = if self.tima == 0xFF {
            0u8
        } else {
            (self.tima + 1) as u8
        };
        Timer {
            tima,
            tima_state: if tima == 0 {
                TimaState::OVERFLOW(3)
            } else {
                self.tima_state
            },
            ..self
        }
    }

    /// One step of the overflow cycle.
    pub open spec fn spec_update_state(self) -> Self {
        match self.tima_state {
            TimaState::RUNNING => self,
            TimaState::OVERFLOW(n) => if n == 0 {
                Timer { tima_state: TimaState::LOADING(3), ..self }
            } else {
                Timer { tima_state: TimaState::OVERFLOW((n - 1) as u8), ..self }
            },
            TimaState::LOADING(n) => if n == 0 {
                Timer { tima_state: TimaState::RUNNING, tima: self.tma, ..self }
            } else {
                Timer { tima_state: TimaState::LOADING((n - 1) as u8), ..self }
            },
        }
    }

    pub open spec fn spec_int_occurred(&self) -> bool {
        self.tima_state == TimaState::LOADING(3)
    }

    /// The divider after one T-cycle.
    pub open spec fn next_div(&self) -> u16 {
        if self.div == 0xFFFF {
            0u16
        } else {
            (self.div + 1) as u16
        }
    }

    /// Whether the next T-cycle clocks TIMA: the line is high and the
    /// selected bit is low once the divider has counted.
    pub open spec fn falls(&self) -> bool {
        self.line() && self.next_div() & self.spec_mask() == 0
    }

    /// The timer after one T-cycle.
    pub open spec fn spec_tick(self) -> Self {
        let t = self.spec_update_state();
        let u = Timer { div: t.next_div(), ..t };
        if t.falls() {
            u.spec_increment()
        } else {
            u
        }
    }

    /// The timer after `n` T-cycles.
    pub open spec fn spec_cycle(self, n: nat) -> Self
        decreases n,
    {
        if n == 0 {
            self
        } else {
            self.spec_tick().spec_cycle((n - 1) as nat)
        }
    }

    /// Whether the timer interrupt is raised during the next `n` T-cycles.
    pub open spec fn spec_raised(self, n: nat) -> bool
        decreases n,
    {
        if n == 0 {
            false
        } else {
            self.spec_int_occurred() || self.spec_tick().spec_raised((n - 1) as nat)
        }
    }

    /// How often TIMA is clocked during the next `n` T-cycles.
    pub open spec fn increments(self, n: nat) -> nat
        decreases n,
    {
        if n == 0 {
            0
        } else {
            (if self.spec_update_state().falls() {
                1nat
            } else {
                0nat
            }) + self.spec_tick().increments((n - 1) as nat)
        }
    }

    pub open spec fn spec_write_div(self) -> Self {
        let t = Timer { div: 0, ..self };
        if self.line() {
            t.spec_increment()
        } else {
            t
        }
    }

    pub open spec fn spec_write_tima(self, val: u8) -> Self {
        match self.tima_state {
            TimaState::RUNNING => Timer { tima: val, ..self },
            TimaState::OVERFLOW(_) => Timer { tima: val, tima_state: TimaState::RUNNING, ..self },
            TimaState::LOADING(_) => self,
        }
    }

    pub open spec fn spec_write_tac(self, val: u8) -> Self {
        let t = Timer { tac: val, ..self };
        if self.line() && !t.line() {
            t.spec_increment()
        } else {
            t
        }
    }

    pub fn init() -> (t: Self)
        ensures
            t == (Timer { div: 0, tima: 0, tma: 0, tac: 0, tima_state: TimaState::RUNNING }),
    {
        Self { div: 0, tima: 0, tma: 0, tac: 0, tima_state: TimaState::RUNNING }
    }

    /// DIV is the upper byte of the divider.
    pub fn read_div(&self) -> (v: u8)
        ensures
            v == self.div / 256,
    {
        (self.div / 256) as u8
    }

    /// TIMA; while the reload is in progress the register already shows TMA.
    pub fn read_tima(&self) -> (v: u8)
        ensures
            v == (if self.tima_state is LOADING {
                self.tma
            } else {
                self.tima
            }),
    {
        match self.tima_state {
            TimaState::LOADING(_) => self.tma,
            _ => self.tima,
        }
    }

    pub fn read_tma(&self) -> (v: u8)
        ensures
            v == self.tma,
    {
        self.tma
    }

    /// TAC reads back with its five unused bits set.
    pub fn read_tac(&self) -> (v: u8)
        ensures
            v == self.tac | 0xF8,
    {
        self.tac | 0xF8
    }

    /// Any write clears the divider. If the line was high this is a falling
    /// edge, and TIMA counts.
    pub fn write_div(&mut self)
        ensures
            *final(self) == old(self).spec_write_div(),
    {
        let freq_bit = self.div & self.div_tima_mask() != 0;
        if self.is_enabled() && freq_bit {
            self.increment_tima();
        }
        self.div = 0;
    }

    /// A write while TIMA runs sets it; during the overflow delay it also
    /// cancels the reload and the interrupt; during the reload it is lost.
    pub fn write_tima(&mut self, val: u8)
        ensures
            *final(self) == old(self).spec_write_tima(val),
    {
        match self.tima_state {
            TimaState::RUNNING => self.tima = val,
            TimaState::OVERFLOW(_) => {
                self.tima = val;
                self.tima_state = TimaState::RUNNING;
            },
            TimaState::LOADING(_) => {},
        }
    }

    pub fn write_tma(&mut self, val: u8)
        ensures
            *final(self) == (Timer { tma: val, ..*old(self) }),
    {
        self.tma = val;
    }

    /// If the new TAC takes the line from high to low, by disabling the
    /// timer or by selecting a bit that is low, TIMA counts.
    pub fn write_tac(&mut self, val: u8)
        ensures
            *final(self) == old(self).spec_write_tac(val),
    {
        let old_freq_bit = self.is_enabled() && self.div & self.div_tima_mask() != 0;
        self.tac = val;
        let new_freq_bit = self.is_enabled() && self.div & self.div_tima_mask() != 0;
        if old_freq_bit && !new_freq_bit {
            self.increment_tima();
        }
    }

    #[verifier::when_used_as_spec(spec_mask)]
    pub fn div_tima_mask(&self) -> (m: u16)
        ensures
            m == self.spec_mask(),
    {
        match self.tac & 0b11 {
            0 => 0x0200,
            1 => 0x0008,
            2 => 0x0020,
            _ => 0x0080,
        }
    }

    pub fn increment_tima(&mut self)
        ensures
            *final(self) == old(self).spec_increment(),
    {
        self.tima = self.tima.wrapping_add(1);
        if self.tima == 0 {
            self.tima_state = TimaState::OVERFLOW(3);
        }
    }

    #[verifier::when_used_as_spec(spec_enabled)]
    pub fn is_enabled(&self) -> (b: bool)
        ensures
            b == self.spec_enabled(),
    {
        self.tac & 0b100 != 0
    }

    /// Whether this T-cycle raises the timer interrupt: the reload has just
    /// begun.
    #[verifier::when_used_as_spec(spec_int_occurred)]
    pub fn int_occurred(&self) -> (b: bool)
        ensures
            b == self.spec_int_occurred(),
    {
        match self.tima_state {
            TimaState::LOADING(3) => true,
            _ => false,
        }
    }

    pub fn update_tima_state(&mut self)
        ensures
            *final(self) == old(self).spec_update_state(),
    {
        match self.tima_state {
            TimaState::RUNNING => {},
            TimaState::OVERFLOW(count) => {
                if count == 0 {
                    self.tima_state = TimaState::LOADING(3);
                } else {
                    self.tima_state = TimaState::OVERFLOW(count - 1);
                }
            },
            TimaState::LOADING(count) => {
                if count == 0 {
                    self.tima_state = TimaState::RUNNING;
                    self.tima = self.tma;
                } else {
                    self.tima_state = TimaState::LOADING(count - 1);
                }
            },
        }
    }

    /// Runs the timer for `cycles` T-cycles, one at a time so that no edge
    /// is missed, and says whether the timer interrupt was raised.
    pub fn cycle(&mut self, cycles: u8) -> (raised: bool)
        ensures
            *final(self) == old(self).spec_cycle(cycles as nat),
            raised == old(self).spec_raised(cycles as nat),
    {
        let mut raised = false;
        let mut i: u8 = 0;
        while i < cycles
            invariant
                i <= cycles,
                self.spec_cycle((cycles - i) as nat) == old(self).spec_cycle(cycles as nat),
                (raised || self.spec_raised((cycles - i) as nat)) == old(self).spec_raised(
                    cycles as nat,
                ),
            decreases cycles - i,
        {
            if self.int_occurred() {
                raised = true;
            }
            self.update_tima_state();
            let mask = self.div_tima_mask();
            let enabled = self.is_enabled();
            let orig_bit = self.div & mask != 0;
            self.div = self.div.wrapping_add(1);
            if enabled && orig_bit && self.div & mask == 0 {
                self.increment_tima();
            }
            i += 1;
        }
        raised
    }
}

impl Timer {
    /// The number of T-cycles between two falling edges of the selected
    /// divider bit: twice the bit's weight.
    pub open spec fn period(&self) -> nat {
        match self.tac & 0b11 {
            0 => 1024,
            1 => 16,
            2 => 64,
            _ => 256,
        }
    }
}

/// Of a divider value `d` and its successor `n`: bit `b` falls from one to
/// zero exactly when the low `b + 1` bits of `d` are all ones.
proof fn lemma_bit_falls(d: u16, n: u16)
    by (bit_vector)
    requires
        n == if d == 0xFFFF {
            0u16
        } else {
            (d + 1) as u16
        },
    ensures
        (d & 0x0200 != 0 && n & 0x0200 == 0) <==> d % 1024 == 1023,
        (d & 0x0008 != 0 && n & 0x0008 == 0) <==> d % 16 == 15,
        (d & 0x0020 != 0 && n & 0x0020 == 0) <==> d % 64 == 63,
        (d & 0x0080 != 0 && n & 0x0080 == 0) <==> d % 256 == 255,
{
}

/// With the timer enabled, the number of times TIMA is clocked during `n`
/// T-cycles is the number of multiples of the period that the divider
/// passes.
pub proof fn lemma_increments(t: Timer, n: nat)
    requires
        t.spec_enabled(),
    ensures
        t.increments(n) == (t.div + n) / (t.period() as int) - (t.div as int) / (t.period() as int),
        t.spec_cycle(n).tac == t.tac,
    decreases n,
{
    if n > 0 {
        let u = t.spec_update_state();
        let v = t.spec_tick();
        assert(u.div == t.div && u.tac == t.tac);
        assert(v.tac == t.tac && v.div == u.next_div());
        lemma_bit_falls(u.div, u.next_div());
        lemma_increments(v, (n - 1) as nat);
        let p = t.period() as int;
        let d = t.div as int;
        let e = v.div as int;
        let k = n as int;
        assert(v.period() == t.period());
        assert(e == if d == 0xFFFF { 0 } else { d + 1 });
        assert(t.increments(n) == (if u.falls() { 1nat } else { 0nat }) + v.increments((n - 1) as nat));
        if p == 1024 {
            assert(u.falls() <==> d % 1024 == 1023);
            assert((d + k) / 1024 - d / 1024 == (if d % 1024 == 1023 { 1int } else { 0int }) + (e + k - 1) / 1024 - e / 1024);
        } else if p == 16 {
            assert(u.falls() <==> d % 16 == 15);
            assert((d + k) / 16 - d / 16 == (if d % 16 == 15 { 1int } else { 0int }) + (e + k - 1) / 16 - e / 16);
        } else if p == 64 {
            assert(u.falls() <==> d % 64 == 63);
            assert((d + k) / 64 - d / 64 == (if d % 64 == 63 { 1int } else { 0int }) + (e + k - 1) / 64 - e / 64);
        } else {
            assert(p == 256);
            assert(u.falls() <==> d % 256 == 255);
            assert((d + k) / 256 - d / 256 == (if d % 256 == 255 { 1int } else { 0int }) + (e + k - 1) / 256 - e / 256);
        }
    }
}

/// With the timer enabled throughout, TIMA is clocked exactly once in every
/// window of one period, whatever the divider holds at its start: 1024, 16,
/// 64 or 256 T-cycles, by TAC's low two bits.
pub proof fn lemma_one_increment_per_period(t: Timer)
    requires
        t.spec_enabled(),
    ensures
        t.increments(t.period()) == 1,
{
    lemma_increments(t, t.period());
}

/// A TIMA that runs and is not about to overflow holds one more after a
/// period.
pub proof fn lemma_tima_after_period(t: Timer)
    requires
        t.spec_enabled(),
        t.tima_state == TimaState::RUNNING,
        t.tima < 0xFF,
    ensures
        t.spec_cycle(t.period()).tima == t.tima + 1,
{
    lemma_increments(t, t.period());
    lemma_tima_counts(t, t.period());
}

/// While TIMA runs and does not overflow, it holds its old value plus the
/// number of times it was clocked.
proof fn lemma_tima_counts(t: Timer, n: nat)
    requires
        t.tima_state == TimaState::RUNNING,
        t.tima + t.increments(n) <= 0xFF,
    ensures
        t.spec_cycle(n).tima == t.tima + t.increments(n),
        t.spec_cycle(n).tima_state == TimaState::RUNNING,
    decreases n,
{
    if n > 0 {
        lemma_tima_counts(t.spec_tick(), (n - 1) as nat);
    }
}

} // verus!
