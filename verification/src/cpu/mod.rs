//! The CPU: its registers and flags, and the instructions.

use vstd::prelude::*;

pub mod alu;
pub mod laws;
pub mod operand;
pub mod ops;

verus! {

pub const Z_FLAG: u8 = 0b10000000;

pub const N_FLAG: u8 = 0b01000000;

pub const H_FLAG: u8 = 0b00100000;

pub const C_FLAG: u8 = 0b00010000;

/// The register file. The 8-bit registers pair up as AF, BC, DE and HL,
/// the first of a pair being the upper byte.
#[derive(Clone, Copy, Debug, PartialEq, Eq, Structural)]
pub struct Cpu {
    pub a: u8,
    /// The flags: Z in bit 7, N in bit 6, H in bit 5, C in bit 4.
    pub f: u8,
    pub b: u8,
    pub c: u8,
    pub d: u8,
    pub e: u8,
    pub h: u8,
    pub l: u8,
    pub sp: u16,
    pub pc: u16,
}

/// The 16-bit value of a register pair.
pub open spec fn pair(hi: u8, lo: u8) -> u16 {
    (hi * 256 + lo) as u16
}

/// The upper byte of a 16-bit value.
pub open spec fn high(val: u16) -> u8 {
    (val / 256) as u8
}

/// The lower byte of a 16-bit value.
pub open spec fn low(val: u16) -> u8 {
    (val % 256) as u8
}

impl Cpu {
    pub open spec fn spec_af(&self) -> u16 {
        pair(self.a, self.f)
    }

    pub open spec fn spec_bc(&self) -> u16 {
        pair(self.b, self.c)
    }

    pub open spec fn spec_de(&self) -> u16 {
        pair(self.d, self.e)
    }

    pub open spec fn spec_hl(&self) -> u16 {
        pair(self.h, self.l)
    }

    pub open spec fn spec_wr_bc(self, val: u16) -> Self {
        Cpu { b: high(val), c: low(val), ..self }
    }

    pub open spec fn spec_wr_de(self, val: u16) -> Self {
        Cpu { d: high(val), e: low(val), ..self }
    }

    pub open spec fn spec_wr_hl(self, val: u16) -> Self {
        Cpu { h: high(val), l: low(val), ..self }
    }

    pub open spec fn spec_z(&self) -> bool {
        self.f & Z_FLAG != 0
    }

    pub open spec fn spec_n(&self) -> bool {
        self.f & N_FLAG != 0
    }

    pub open spec fn spec_h(&self) -> bool {
        self.f & H_FLAG != 0
    }

    pub open spec fn spec_c(&self) -> bool {
        self.f & C_FLAG != 0
    }

    /// The registers as the boot ROM leaves them.
    pub fn init() -> (c: Self)
        ensures
            c == (Cpu {
                a: 0x01,
                f: 0xB0,
                b: 0x00,
                c: 0x13,
                d: 0x00,
                e: 0xD8,
                h: 0x01,
                l: 0x4D,
                sp: 0xFFFE,
                pc: 0x0100,
            }),
    {
        Cpu {
            a: 0x01,
            f: 0xB0,
            b: 0x00,
            c: 0x13,
            d: 0x00,
            e: 0xD8,
            h: 0x01,
            l: 0x4D,
            sp: 0xFFFE,
            pc: 0x0100,
        }
    }

    #[verifier::when_used_as_spec(spec_af)]
    pub fn rd_af(&self) -> (v: u16)
        ensures
            v == self.spec_af(),
    {
        (self.a as u16) * 256 + self.f as u16
    }

    #[verifier::when_used_as_spec(spec_bc)]
    pub fn rd_bc(&self) -> (v: u16)
        ensures
            v == self.spec_bc(),
    {
        (self.b as u16) * 256 + self.c as u16
    }

    #[verifier::when_used_as_spec(spec_de)]
    pub fn rd_de(&self) -> (v: u16)
        ensures
            v == self.spec_de(),
    {
        (self.d as u16) * 256 + self.e as u16
    }

    #[verifier::when_used_as_spec(spec_hl)]
    pub fn rd_hl(&self) -> (v: u16)
        ensures
            v == self.spec_hl(),
    {
        (self.h as u16) * 256 + self.l as u16
    }

    pub fn wr_bc(&mut self, val: u16)
        ensures
            *final(self) == old(self).spec_wr_bc(val),
    {
        self.b = (val / 256) as u8;
        self.c = (val % 256) as u8;
    }

    pub fn wr_de(&mut self, val: u16)
        ensures
            *final(self) == old(self).spec_wr_de(val),
    {
        self.d = (val / 256) as u8;
        self.e = (val % 256) as u8;
    }

    pub fn wr_hl(&mut self, val: u16)
        ensures
            *final(self) == old(self).spec_wr_hl(val),
    {
        self.h = (val / 256) as u8;
        self.l = (val % 256) as u8;
    }

    #[verifier::when_used_as_spec(spec_z)]
    pub fn z_flag(&self) -> (b: bool)
        ensures
            b == self.spec_z(),
    {
        self.f & Z_FLAG != 0
    }

    #[verifier::when_used_as_spec(spec_n)]
    pub fn n_flag(&self) -> (b: bool)
        ensures
            b == self.spec_n(),
    {
        self.f & N_FLAG != 0
    }

    #[verifier::when_used_as_spec(spec_h)]
    pub fn h_flag(&self) -> (b: bool)
        ensures
            b == self.spec_h(),
    {
        self.f & H_FLAG != 0
    }

    #[verifier::when_used_as_spec(spec_c)]
    pub fn c_flag(&self) -> (b: bool)
        ensures
            b == self.spec_c(),
    {
        self.f & C_FLAG != 0
    }

    pub fn nz_flag(&self) -> (b: bool)
        ensures
            b == !self.spec_z(),
    {
        self.f & Z_FLAG == 0
    }

    pub fn nc_flag(&self) -> (b: bool)
        ensures
            b == !self.spec_c(),
    {
        self.f & C_FLAG == 0
    }
}

/// A register pair holds what was written to it, and writing a pair leaves
/// the other registers alone.
pub proof fn lemma_pair_round_trip(cpu: Cpu, val: u16)
    ensures
        cpu.spec_wr_bc(val).spec_bc() == val,
        cpu.spec_wr_de(val).spec_de() == val,
        cpu.spec_wr_hl(val).spec_hl() == val,
        cpu.spec_wr_bc(cpu.spec_bc()) == cpu,
        cpu.spec_wr_de(cpu.spec_de()) == cpu,
        cpu.spec_wr_hl(cpu.spec_hl()) == cpu,
{
}

} // verus!
