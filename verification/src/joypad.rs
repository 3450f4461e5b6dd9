//! Joypad: the button matrix behind the JOYP register.

use vstd::prelude::*;

verus! {

/// The eight buttons. The action buttons sit in the low nibble of the
/// shadow byte, the directions in the high nibble.
#[allow(non_camel_case_types)]
#[derive(Clone, Copy, Debug, PartialEq, Eq, Structural)]
pub enum Button {
    A,
    B,
    SELECT,
    START,
    RIGHT,
    LEFT,
    UP,
    DOWN,
}

impl Button {
    /// The button's bit in the shadow byte.
    pub open spec fn spec_mask(self) -> u8 {
        match self {
            Button::A => 0x01,
            Button::B => 0x02,
            Button::SELECT => 0x04,
            Button::START => 0x08,
            Button::RIGHT => 0x10,
            Button::LEFT => 0x20,
            Button::UP => 0x40,
            Button::DOWN => 0x80,
        }
    }

    #[verifier::when_used_as_spec(spec_mask)]
    pub fn mask(self) -> (m: u8)
        ensures
            m == self.spec_mask(),
    {
        match self {
            Button::A => 0x01,
            Button::B => 0x02,
            Button::SELECT => 0x04,
            Button::START => 0x08,
            Button::RIGHT => 0x10,
            Button::LEFT => 0x20,
            Button::UP => 0x40,
            Button::DOWN => 0x80,
        }
    }
}

#[derive(Clone, Copy, Debug)]
pub struct Joypad {
    /// JOYP: bits 4 and 5 select a row, the low nibble shows its buttons.
    pub joyp: u8,
    /// One bit per button, 1 for released and 0 for pressed.
    pub buttons: u8,
}

impl Joypad {
    /// The low nibble that JOYP shows for the row selection in `joyp`: the
    /// action buttons for 01, the directions for 10, nothing pressed for 11
    /// and zero for 00.
    pub open spec fn selected(&self) -> u8 {
        match (self.joyp & 0x30) >> 4 {
            0 => 0,
            1 => self.buttons & 0x0F,
            2 => self.buttons >> 4,
            _ => 0x0F,
        }
    }

    /// JOYP with its low nibble brought up to date.
    pub open spec fn spec_update(self) -> Self {
        Joypad { joyp: (self.joyp & 0x30) | self.selected(), ..self }
    }

    /// Whether bringing JOYP up to date takes a bit of its low nibble from
    /// one to zero: a button of the selected row went down.
    pub open spec fn spec_pressed_edge(&self) -> bool {
        (self.joyp & 0x0F) & !(self.spec_update().joyp & 0x0F) != 0
    }

    pub open spec fn spec_set_button(self, button: Button, pressed: bool) -> Self {
        if pressed {
            Joypad { buttons: self.buttons & !button.spec_mask(), ..self }
        } else {
            Joypad { buttons: self.buttons | button.spec_mask(), ..self }
        }
    }

    pub fn init() -> (j: Self)
        ensures
            j == (Joypad { joyp: 0x0F, buttons: 0xFF }),
    {
        Self { joyp: 0x0F, buttons: 0xFF }
    }

    /// JOYP reads back with its two unused bits set.
    pub fn read(&self) -> (v: u8)
        ensures
            v == self.joyp | 0xC0,
    {
        self.joyp | 0xC0
    }

    /// Only the row selection can be written.
    pub fn write(&mut self, val: u8)
        ensures
            *final(self) == (Joypad { joyp: val & 0x30, ..*old(self) }),
    {
        self.joyp = val & 0x30;
    }

    pub fn update_joyp(&mut self)
        ensures
            *final(self) == old(self).spec_update(),
    {
        let sel = self.joyp & 0x30;
        let keys = match sel >> 4 {
            0 => 0,
            1 => self.buttons & 0x0F,
            2 => self.buttons >> 4,
            _ => 0x0F,
        };
        self.joyp = sel | keys;
    }

    /// Brings JOYP up to date and says whether the joypad interrupt is
    /// raised.
    pub fn cycle(&mut self) -> (raised: bool)
        ensures
            *final(self) == old(self).spec_update(),
            raised == old(self).spec_pressed_edge(),
    {
        let old_keys = self.joyp & 0x0F;
        self.update_joyp();
        let new_keys = self.joyp & 0x0F;
        old_keys & !new_keys != 0
    }

    /// Records that a button went down or came up.
    pub fn set_button(&mut self, button: Button, pressed: bool)
        ensures
            *final(self) == old(self).spec_set_button(button, pressed),
    {
        if pressed {
            self.buttons = self.buttons & !button.mask();
        } else {
            self.buttons = self.buttons | button.mask();
        }
    }
}

/// Pressing a button clears its bit in the shadow byte, releasing it sets
/// the bit, and the bits of the other buttons stay.
pub proof fn lemma_set_button(j: Joypad, b: Button, c: Button)
    ensures
        j.spec_set_button(b, true).buttons & b.spec_mask() == 0,
        j.spec_set_button(b, false).buttons & b.spec_mask() != 0,
        b != c ==> forall|p: bool|
            (#[trigger] j.spec_set_button(b, p)).buttons & c.spec_mask() == j.buttons
                & c.spec_mask(),
{
    let x = j.buttons;
    let m = b.spec_mask();
    let n = c.spec_mask();
    assert((x & !m) & m == 0 && (x | m) & m != 0 && (m != n ==> ((x & !m) & n == x & n && (x | m)
        & n == x & n))) by (bit_vector)
        requires
            m == 1 || m == 2 || m == 4 || m == 8 || m == 16 || m == 32 || m == 64 || m == 128,
            n == 1 || n == 2 || n == 4 || n == 8 || n == 16 || n == 32 || n == 64 || n == 128,
    ;
}

/// While a row is selected and a button of it goes from released to
/// pressed, the next update raises the interrupt; while nothing changes,
/// none is raised.
pub proof fn lemma_press_raises(j: Joypad, b: Button)
    requires
        j.joyp == j.spec_update().joyp,
    ensures
        !j.spec_pressed_edge(),
        (j.joyp & 0x30 == 0x10 && j.buttons & b.spec_mask() != 0 && b.spec_mask() < 0x10)
            ==> j.spec_set_button(b, true).spec_pressed_edge(),
        (j.joyp & 0x30 == 0x20 && j.buttons & b.spec_mask() != 0 && b.spec_mask() >= 0x10)
            ==> j.spec_set_button(b, true).spec_pressed_edge(),
{
    let p = j.joyp;
    let x = j.buttons;
    let m = b.spec_mask();
    assert((p & 0x0F) & !(p & 0x0F) == 0 && (p & 0x30 == 0x10 ==> (p & 0x30) >> 4 == 1) && (p & 0x30
        == 0x20 ==> (p & 0x30) >> 4 == 2)) by (bit_vector);
    assert((p & 0x30 == 0x10 && p == (p & 0x30) | (x & 0x0F) && x & m != 0 && m < 0x10) ==> (p
        & 0x0F) & !(((p & 0x30) | ((x & !m) & 0x0F)) & 0x0F) != 0) by (bit_vector)
        requires
            m == 1 || m == 2 || m == 4 || m == 8 || m == 16 || m == 32 || m == 64 || m == 128,
    ;
    assert((p & 0x30 == 0x20 && p == (p & 0x30) | (x >> 4) && x & m != 0 && m >= 0x10) ==> (p
        & 0x0F) & !(((p & 0x30) | ((x & !m) >> 4)) & 0x0F) != 0) by (bit_vector)
        requires
            m == 1 || m == 2 || m == 4 || m == 8 || m == 16 || m == 32 || m == 64 || m == 128,
    ;
}

} // verus!
