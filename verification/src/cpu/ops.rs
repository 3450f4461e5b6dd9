//! The instructions that work on the registers alone.

use vstd::prelude::*;
use crate::cpu::alu::{add16, add8, and8, daa, flags, or8, shift_a, spec_add16, spec_add8, spec_and8, spec_daa, spec_flags, spec_or8, spec_shift_a, spec_sub8, spec_xor8, sub8, xor8, Shift};
use crate::cpu::Cpu;

verus! {

impl Cpu {
    pub open spec fn with_af(self, a: u8, f: u8) -> Self {
        Cpu { a, f, ..self }
    }

    /// The eight operations on A and an operand, by their number in the
    /// opcode: ADD, ADC, SUB, SBC, AND, XOR, OR, CP. CP sets the flags of
    /// SUB and leaves A.
    pub open spec fn spec_alu(self, op: u8, v: u8) -> Self {
        match op {
            0 => self.with_af(spec_add8(self.a, v, false).0, spec_add8(self.a, v, false).1),
            1 => self.with_af(
                spec_add8(self.a, v, self.spec_c()).0,
                spec_add8(self.a, v, self.spec_c()).1,
            ),
            2 => self.with_af(spec_sub8(self.a, v, false).0, spec_sub8(self.a, v, false).1),
            3 => self.with_af(
                spec_sub8(self.a, v, self.spec_c()).0,
                spec_sub8(self.a, v, self.spec_c()).1,
            ),
            4 => self.with_af(spec_and8(self.a, v).0, spec_and8(self.a, v).1),
            5 => self.with_af(spec_xor8(self.a, v).0, spec_xor8(self.a, v).1),
            6 => self.with_af(spec_or8(self.a, v).0, spec_or8(self.a, v).1),
            _ => self.with_af(self.a, spec_sub8(self.a, v, false).1),
        }
    }

    /// RLCA, RRCA, RLA and RRA.
    pub open spec fn spec_rotate_a(self, op: Shift) -> Self {
        self.with_af(
            spec_shift_a(op, self.a, self.spec_c()).0,
            spec_shift_a(op, self.a, self.spec_c()).1,
        )
    }

    pub open spec fn spec_daa(self) -> Self {
        self.with_af(
            spec_daa(self.a, self.spec_n(), self.spec_h(), self.spec_c()).0,
            spec_daa(self.a, self.spec_n(), self.spec_h(), self.spec_c()).1,
        )
    }

    /// CPL: every bit of A is inverted; N and H are set, Z and C stay.
    pub open spec fn spec_cpl(self) -> Self {
        self.with_af(!self.a, spec_flags(self.spec_z(), true, true, self.spec_c()))
    }

    /// SCF: C is set, N and H are clear, Z stays.
    pub open spec fn spec_scf(self) -> Self {
        Cpu { f: spec_flags(self.spec_z(), false, false, true), ..self }
    }

    /// CCF: C is inverted, N and H are clear, Z stays.
    pub open spec fn spec_ccf(self) -> Self {
        Cpu { f: spec_flags(self.spec_z(), false, false, !self.spec_c()), ..self }
    }

    /// ADD HL with a 16-bit operand.
    pub open spec fn spec_add_hl(self, v: u16) -> Self {
        Cpu {
            f: spec_add16(self.spec_hl(), v, self.spec_z()).1,
            ..self.spec_wr_hl(spec_add16(self.spec_hl(), v, self.spec_z()).0)
        }
    }

    /// POP AF: the low nibble of F does not exist and stays clear.
    pub open spec fn spec_wr_af(self, v: u16) -> Self {
        self.with_af((v / 256) as u8, (v % 256) as u8 & 0xF0)
    }

    pub fn alu(&mut self, op: u8, v: u8)
        ensures
            *final(self) == old(self).spec_alu(op, v),
    {
        let carry = self.c_flag();
        let (a, f) = match op {
            0 => add8(self.a, v, false),
            1 => add8(self.a, v, carry),
            2 => sub8(self.a, v, false),
            3 => sub8(self.a, v, carry),
            4 => and8(self.a, v),
            5 => xor8(self.a, v),
            6 => or8(self.a, v),
            _ => (self.a, sub8(self.a, v, false).1),
        };
        self.a = a;
        self.f = f;
    }

    pub fn rotate_a(&mut self, op: Shift)
        ensures
            *final(self) == old(self).spec_rotate_a(op),
    {
        let (a, f) = shift_a(op, self.a, self.c_flag());
        self.a = a;
        self.f = f;
    }

    pub fn daa(&mut self)
        ensures
            *final(self) == old(self).spec_daa(),
    {
        let (a, f) = daa(self.a, self.n_flag(), self.h_flag(), self.c_flag());
        self.a = a;
        self.f = f;
    }

    pub fn cpl(&mut self)
        ensures
            *final(self) == old(self).spec_cpl(),
    {
        self.a = !self.a;
        self.f = flags(self.z_flag(), true, true, self.c_flag());
    }

    pub fn scf(&mut self)
        ensures
            *final(self) == old(self).spec_scf(),
    {
        self.f = flags(self.z_flag(), false, false, true);
    }

    pub fn ccf(&mut self)
        ensures
            *final(self) == old(self).spec_ccf(),
    {
        self.f = flags(self.z_flag(), false, false, !self.c_flag());
    }

    pub fn add_hl(&mut self, v: u16)
        ensures
            *final(self) == old(self).spec_add_hl(v),
    {
        let (res, f) = add16(self.rd_hl(), v, self.z_flag());
        self.wr_hl(res);
        self.f = f;
    }

    pub fn wr_af(&mut self, v: u16)
        ensures
            *final(self) == old(self).spec_wr_af(v),
    {
        self.a = (v / 256) as u8;
        self.f = (v % 256) as u8 & 0xF0;
    }
}

} // verus!
