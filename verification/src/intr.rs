//! Interrupt controller: the IF and IE registers and the three-state master
//! enable latch.

use vstd::prelude::*;

verus! {

/// The five interrupt sources, in priority order.
#[allow(non_camel_case_types)]
#[derive(Clone, Copy, Debug, PartialEq, Eq, Structural)]
pub enum Interrupt {
    VBLANK,
    STAT,
    TIMER,
    SERIAL,
    JOYPAD,
}

/// The master enable latch. `ENABLING` is the one-instruction delay of EI.
#[allow(non_camel_case_types)]
#[derive(Clone, Copy, Debug, PartialEq, Eq, Structural)]
pub enum ImeState {
    DISABLED,
    ENABLING,
    ENABLED,
}

impl Interrupt {
    /// The source's number, which is also its bit position in IF and IE.
    pub open spec fn spec_index(self) -> u8 {
        match self {
            Interrupt::VBLANK => 0,
            Interrupt::STAT => 1,
            Interrupt::TIMER => 2,
            Interrupt::SERIAL => 3,
            Interrupt::JOYPAD => 4,
        }
    }

    /// The source's bit in IF and IE.
    pub open spec fn spec_mask(self) -> u8 {
        match self {
            Interrupt::VBLANK => 0x01,
            Interrupt::STAT => 0x02,
            Interrupt::TIMER => 0x04,
            Interrupt::SERIAL => 0x08,
            Interrupt::JOYPAD => 0x10,
        }
    }

    /// The address of the source's handler: `0x40 + 8 * index`.
    pub open spec fn spec_vector(self) -> u16 {
        (0x40 + 8 * self.spec_index()) as u16
    }

    #[verifier::when_used_as_spec(spec_index)]
    pub fn index(self) -> (i: u8)
        ensures
            i == self.spec_index(),
    {
        match self {
            Interrupt::VBLANK => 0,
            Interrupt::STAT => 1,
            Interrupt::TIMER => 2,
            Interrupt::SERIAL => 3,
            Interrupt::JOYPAD => 4,
        }
    }

    #[verifier::when_used_as_spec(spec_mask)]
    pub fn mask(self) -> (m: u8)
        ensures
            m == self.spec_mask(),
    {
        match self {
            Interrupt::VBLANK => 0x01,
            Interrupt::STAT => 0x02,
            Interrupt::TIMER => 0x04,
            Interrupt::SERIAL => 0x08,
            Interrupt::JOYPAD => 0x10,
        }
    }

    #[verifier::when_used_as_spec(spec_vector)]
    pub fn vector(self) -> (v: u16)
        ensures
            v == self.spec_vector(),
    {
        0x40 + 8 * (self.index() as u16)
    }

    /// The source with the given number, if there is one.
    pub fn from_index(n: u32) -> (r: Option<Interrupt>)
        ensures
            r matches Some(i) ==> i.spec_index() == n,
            r is Some <==> n <= 4,
    {
        match n {
            0 => Some(Interrupt::VBLANK),
            1 => Some(Interrupt::STAT),
            2 => Some(Interrupt::TIMER),
            3 => Some(Interrupt::SERIAL),
            4 => Some(Interrupt::JOYPAD),
            _ => None,
        }
    }
}

/// IF, IE and IME.
#[derive(Clone, Copy, Debug)]
pub struct InterruptHandler {
    pub ime: ImeState,
    pub iflags: u8,
    pub ienable: u8,
}

impl InterruptHandler {
    /// The sources that are both requested and enabled.
    pub open spec fn pending(&self) -> u8 {
        self.iflags & self.ienable & 0x1F
    }

    /// The pending source with the lowest number.
    pub open spec fn spec_fetch(&self) -> Option<Interrupt> {
        let p = self.pending();
        if p & 0x01 != 0 {
            Some(Interrupt::VBLANK)
        } else if p & 0x02 != 0 {
            Some(Interrupt::STAT)
        } else if p & 0x04 != 0 {
            Some(Interrupt::TIMER)
        } else if p & 0x08 != 0 {
            Some(Interrupt::SERIAL)
        } else if p & 0x10 != 0 {
            Some(Interrupt::JOYPAD)
        } else {
            None
        }
    }

    pub open spec fn spec_request(self, intr: Interrupt) -> Self {
        InterruptHandler { iflags: self.iflags | intr.spec_mask(), ..self }
    }

    pub open spec fn spec_reset(self, intr: Interrupt) -> Self {
        InterruptHandler { iflags: self.iflags & !intr.spec_mask(), ..self }
    }

    /// The latch after an instruction boundary: a pending EI takes effect.
    pub open spec fn spec_commit(self) -> Self {
        match self.ime {
            ImeState::ENABLING => InterruptHandler { ime: ImeState::ENABLED, ..self },
            _ => self,
        }
    }

    pub fn init() -> (h: Self)
        ensures
            h == (InterruptHandler { ime: ImeState::DISABLED, iflags: 0, ienable: 0 }),
    {
        Self { ime: ImeState::DISABLED, iflags: 0, ienable: 0 }
    }

    /// EI: from `DISABLED` the latch starts enabling; otherwise nothing changes.
    pub fn enable(&mut self)
        ensures
            final(self).ime == (match old(self).ime {
                ImeState::DISABLED => ImeState::ENABLING,
                s => s,
            }),
            final(self).iflags == old(self).iflags,
            final(self).ienable == old(self).ienable,
    {
        match self.ime {
            ImeState::DISABLED => self.ime = ImeState::ENABLING,
            _ => {},
        }
    }

    /// RETI: interrupts are enabled at once.
    pub fn enable_immediate(&mut self)
        ensures
            *final(self) == (InterruptHandler { ime: ImeState::ENABLED, ..*old(self) }),
    {
        self.ime = ImeState::ENABLED;
    }

    /// DI.
    pub fn disable(&mut self)
        ensures
            *final(self) == (InterruptHandler { ime: ImeState::DISABLED, ..*old(self) }),
    {
        self.ime = ImeState::DISABLED;
    }

    /// Whether interrupts were enabled before this call; a pending EI is
    /// committed, so the next call answers `true`.
    pub fn current_ime(&mut self) -> (enabled: bool)
        ensures
            enabled == (old(self).ime == ImeState::ENABLED),
            *final(self) == old(self).spec_commit(),
    {
        match self.ime {
            ImeState::DISABLED => false,
            ImeState::ENABLING => {
                self.ime = ImeState::ENABLED;
                false
            },
            ImeState::ENABLED => true,
        }
    }

    #[verifier::when_used_as_spec(spec_fetch)]
    pub fn fetch(&self) -> (r: Option<Interrupt>)
        ensures
            r == self.spec_fetch(),
    {
        let p = self.iflags & self.ienable & 0x1F;
        if p & 0x01 != 0 {
            Some(Interrupt::VBLANK)
        } else if p & 0x02 != 0 {
            Some(Interrupt::STAT)
        } else if p & 0x04 != 0 {
            Some(Interrupt::TIMER)
        } else if p & 0x08 != 0 {
            Some(Interrupt::SERIAL)
        } else if p & 0x10 != 0 {
            Some(Interrupt::JOYPAD)
        } else {
            None
        }
    }

    pub fn request(&mut self, intr: Interrupt)
        ensures
            *final(self) == old(self).spec_request(intr),
    {
        self.iflags = self.iflags | intr.mask();
    }

    pub fn reset(&mut self, intr: Interrupt)
        ensures
            *final(self) == old(self).spec_reset(intr),
    {
        self.iflags = self.iflags & !intr.mask();
    }

    /// IF reads back with its three unused bits set.
    pub fn read_if(&self) -> (v: u8)
        ensures
            v == self.iflags | 0xE0,
    {
        self.iflags | 0xE0
    }

    pub fn read_ie(&self) -> (v: u8)
        ensures
            v == self.ienable,
    {
        self.ienable
    }

    pub fn write_if(&mut self, val: u8)
        ensures
            *final(self) == (InterruptHandler { iflags: val, ..*old(self) }),
    {
        self.iflags = val;
    }

    pub fn write_ie(&mut self, val: u8)
        ensures
            *final(self) == (InterruptHandler { ienable: val, ..*old(self) }),
    {
        self.ienable = val;
    }
}

/// `fetch` answers with a source exactly when that source is requested and
/// enabled and no source of a lower number is; it answers `None` exactly
/// when nothing is pending.
pub proof fn lemma_fetch_lowest(h: InterruptHandler, s: Interrupt)
    ensures
        h.spec_fetch() == Some(s) <==> (h.pending() & s.spec_mask() != 0 && forall|t: Interrupt|
            t.spec_index() < s.spec_index() ==> h.pending() & t.spec_mask() == 0),
        h.spec_fetch() is None <==> h.pending() == 0,
{
    let p = h.pending();
    let f = h.iflags;
    let e = h.ienable;
    assert(f & e & 0x1F & 0x1F == f & e & 0x1F) by (bit_vector);
    assert((p & 0x01 == 0 && p & 0x02 == 0 && p & 0x04 == 0 && p & 0x08 == 0 && p & 0x10 == 0) <==> p
        == 0) by (bit_vector)
        requires
            p & 0x1F == p,
    ;
    if h.spec_fetch() == Some(s) {
        assert forall|t: Interrupt| t.spec_index() < s.spec_index() implies p & t.spec_mask()
            == 0 by {}
    }
    if p & s.spec_mask() != 0 && (forall|t: Interrupt|
        t.spec_index() < s.spec_index() ==> p & t.spec_mask() == 0) {
        assert(Interrupt::VBLANK.spec_index() == 0);
        assert(Interrupt::STAT.spec_index() == 1);
        assert(Interrupt::TIMER.spec_index() == 2);
        assert(Interrupt::SERIAL.spec_index() == 3);
    }
}

/// A requested source is flagged in IF, resetting it clears the flag again,
/// and neither touches the flag of another source.
pub proof fn lemma_request_reset(h: InterruptHandler, s: Interrupt, t: Interrupt)
    ensures
        h.spec_request(s).iflags & s.spec_mask() != 0,
        h.spec_reset(s).iflags & s.spec_mask() == 0,
        s != t ==> h.spec_request(s).iflags & t.spec_mask() == h.iflags & t.spec_mask(),
        s != t ==> h.spec_reset(s).iflags & t.spec_mask() == h.iflags & t.spec_mask(),
{
    let f = h.iflags;
    let a = s.spec_mask();
    let b = t.spec_mask();
    assert((f | a) & a != 0 && (f & !a) & a == 0 && (a != b ==> ((f | a) & b == f & b && (f & !a)
        & b == f & b))) by (bit_vector)
        requires
            a == 1 || a == 2 || a == 4 || a == 8 || a == 16,
            b == 1 || b == 2 || b == 4 || b == 8 || b == 16,
    ;
}

} // verus!
