//! Registers and conditions by their number in the opcode.

use vstd::prelude::*;
use crate::cpu::Cpu;

verus! {

/// The successor of a 16-bit value, wrapping.
pub open spec fn inc16(v: u16) -> u16 {
    if v == 0xFFFF {
        0
    } else {
        (v + 1) as u16
    }
}

/// The predecessor of a 16-bit value, wrapping.
pub open spec fn dec16(v: u16) -> u16 {
    if v == 0 {
        0xFFFF
    } else {
        (v - 1) as u16
    }
}

impl Cpu {
    /// The 8-bit register with number `i`: B, C, D, E, H, L, and A as
    /// number 7. Number 6 stands for the byte at (HL) and is no register.
    pub open spec fn spec_reg8(&self, i: u8) -> u8 {
        match i {
            0 => self.b,
            1 => self.c,
            2 => self.d,
            3 => self.e,
            4 => self.h,
            5 => self.l,
            _ => self.a,
        }
    }

    pub open spec fn spec_with_reg8(self, i: u8, v: u8) -> Self {
        match i {
            0 => Cpu { b: v, ..self },
            1 => Cpu { c: v, ..self },
            2 => Cpu { d: v, ..self },
            3 => Cpu { e: v, ..self },
            4 => Cpu { h: v, ..self },
            5 => Cpu { l: v, ..self },
            _ => Cpu { a: v, ..self },
        }
    }

    /// The 16-bit register with number `i`: BC, DE, HL, SP.
    pub open spec fn spec_reg16(&self, i: u8) -> u16 {
        match i {
            0 => self.spec_bc(),
            1 => self.spec_de(),
            2 => self.spec_hl(),
            _ => self.sp,
        }
    }

    pub open spec fn spec_with_reg16(self, i: u8, v: u16) -> Self {
        match i {
            0 => self.spec_wr_bc(v),
            1 => self.spec_wr_de(v),
            2 => self.spec_wr_hl(v),
            _ => Cpu { sp: v, ..self },
        }
    }

    /// The condition with number `i`: NZ, Z, NC, C.
    pub open spec fn spec_cond(&self, i: u8) -> bool {
        match i {
            0 => !self.spec_z(),
            1 => self.spec_z(),
            2 => !self.spec_c(),
            _ => self.spec_c(),
        }
    }

    #[verifier::when_used_as_spec(spec_reg8)]
    pub fn reg8(&self, i: u8) -> (v: u8)
        ensures
            v == self.spec_reg8(i),
    {
        match i {
            0 => self.b,
            1 => self.c,
            2 => self.d,
            3 => self.e,
            4 => self.h,
            5 => self.l,
            _ => self.a,
        }
    }

    pub fn set_reg8(&mut self, i: u8, v: u8)
        ensures
            *final(self) == old(self).spec_with_reg8(i, v),
    {
        match i {
            0 => self.b = v,
            1 => self.c = v,
            2 => self.d = v,
            3 => self.e = v,
            4 => self.h = v,
            5 => self.l = v,
            _ => self.a = v,
        }
    }

    #[verifier::when_used_as_spec(spec_reg16)]
    pub fn reg16(&self, i: u8) -> (v: u16)
        ensures
            v == self.spec_reg16(i),
    {
        match i {
            0 => self.rd_bc(),
            1 => self.rd_de(),
            2 => self.rd_hl(),
            _ => self.sp,
        }
    }

    pub fn set_reg16(&mut self, i: u8, v: u16)
        ensures
            *final(self) == old(self).spec_with_reg16(i, v),
    {
        match i {
            0 => self.wr_bc(v),
            1 => self.wr_de(v),
            2 => self.wr_hl(v),
            _ => self.sp = v,
        }
    }

    #[verifier::when_used_as_spec(spec_cond)]
    pub fn cond(&self, i: u8) -> (b: bool)
        ensures
            b == self.spec_cond(i),
    {
        match i {
            0 => self.nz_flag(),
            1 => self.z_flag(),
            2 => self.nc_flag(),
            _ => self.c_flag(),
        }
    }
}

} // verus!
