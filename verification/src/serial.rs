//! Serial link stub: stores the two registers and never shifts.

use vstd::prelude::*;

verus! {

/// The registers SB (0xFF01) and SC (0xFF02) of the serial link.
#[derive(Clone, Copy, Debug)]
pub struct SerialLink {
    pub sb: u8,
    pub sc: u8,
}

impl SerialLink {
    pub fn init() -> (s: Self)
        ensures
            s == (SerialLink { sb: 0, sc: 0 }),
    {
        Self { sb: 0, sc: 0 }
    }

    pub fn read_data(&self) -> (v: u8)
        ensures
            v == self.sb,
    {
        self.sb
    }

    /// SC reads back with bits 1 to 6 set.
    pub fn read_control(&self) -> (v: u8)
        ensures
            v == self.sc | 0x7E,
    {
        self.sc | 0x7E
    }

    pub fn write_data(&mut self, val: u8)
        ensures
            final(self).sb == val,
            final(self).sc == old(self).sc,
    {
        self.sb = val;
    }

    pub fn write_control(&mut self, val: u8)
        ensures
            final(self).sc == val,
            final(self).sb == old(self).sb,
    {
        self.sc = val;
    }
}

} // verus!
