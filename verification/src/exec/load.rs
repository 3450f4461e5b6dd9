//! The loads through register pairs and addresses, the 16-bit arithmetic
//! and the stack.

use vstd::prelude::*;
use crate::cpu::alu::{add_sp, spec_add_sp};
use crate::cpu::operand::{dec16, inc16};
use crate::cpu::{high, low, Cpu};
use crate::gameboy::{GameBoy, Machine};

verus! {

/// The number of the register pair of an opcode: its bits 4 and 5.
pub open spec fn spec_pair_of(opcode: u8) -> u8 {
    (opcode / 16) % 4
}

#[verifier::when_used_as_spec(spec_pair_of)]
pub fn pair_of(opcode: u8) -> (i: u8)
    ensures
        i == spec_pair_of(opcode),
        i < 4,
{
    (opcode / 16) % 4
}

/// The address in the high page for an offset.
pub open spec fn spec_high_page(offset: u8) -> u16 {
    (0xFF00 + offset) as u16
}

#[verifier::when_used_as_spec(spec_high_page)]
pub fn high_page(offset: u8) -> (a: u16)
    ensures
        a == spec_high_page(offset),
{
    0xFF00 + offset as u16
}

impl Cpu {
    /// The address that the loads of A through a register pair use, by the
    /// pair's number: BC, DE, and HL for both 2 and 3.
    pub open spec fn spec_pointer(&self, i: u8) -> u16 {
        match i {
            0 => self.spec_bc(),
            1 => self.spec_de(),
            _ => self.spec_hl(),
        }
    }

    /// The registers after such a load: number 2 counts HL up, number 3
    /// counts it down.
    pub open spec fn spec_stepped(self, i: u8) -> Self {
        match i {
            2 => self.spec_wr_hl(inc16(self.spec_hl())),
            3 => self.spec_wr_hl(dec16(self.spec_hl())),
            _ => self,
        }
    }

    /// The value that PUSH takes, by the pair's number: BC, DE, HL, AF.
    pub open spec fn spec_pushed(&self, i: u8) -> u16 {
        match i {
            0 => self.spec_bc(),
            1 => self.spec_de(),
            2 => self.spec_hl(),
            _ => self.spec_af(),
        }
    }

    /// The registers after POP, by the pair's number: BC, DE, HL, AF.
    pub open spec fn spec_popped(self, i: u8, v: u16) -> Self {
        match i {
            0 => self.spec_wr_bc(v),
            1 => self.spec_wr_de(v),
            2 => self.spec_wr_hl(v),
            _ => self.spec_wr_af(v),
        }
    }

    #[verifier::when_used_as_spec(spec_pointer)]
    pub fn pointer(&self, i: u8) -> (a: u16)
        ensures
            a == self.spec_pointer(i),
    {
        match i {
            0 => self.rd_bc(),
            1 => self.rd_de(),
            _ => self.rd_hl(),
        }
    }

    pub fn step_pointer(&mut self, i: u8)
        ensures
            *final(self) == old(self).spec_stepped(i),
    {
        match i {
            2 => {
                let hl = self.rd_hl();
                self.wr_hl(hl.wrapping_add(1));
            },
            3 => {
                let hl = self.rd_hl();
                self.wr_hl(hl.wrapping_sub(1));
            },
            _ => {},
        }
    }

    #[verifier::when_used_as_spec(spec_pushed)]
    pub fn pushed(&self, i: u8) -> (v: u16)
        ensures
            v == self.spec_pushed(i),
    {
        match i {
            0 => self.rd_bc(),
            1 => self.rd_de(),
            2 => self.rd_hl(),
            _ => self.rd_af(),
        }
    }

    pub fn popped(&mut self, i: u8, v: u16)
        ensures
            *final(self) == old(self).spec_popped(i, v),
    {
        match i {
            0 => self.wr_bc(v),
            1 => self.wr_de(v),
            2 => self.wr_hl(v),
            _ => self.wr_af(v),
        }
    }
}

impl Machine {
    /// LD rr,nn.
    pub open spec fn spec_ld_r16_n16(self, opcode: u8) -> Machine {
        self.after_imm16().with_cpu(
            self.after_imm16().cpu.spec_with_reg16(spec_pair_of(opcode), self.imm16()),
        )
    }

    /// LD (BC),A, LD (DE),A, LD (HL+),A and LD (HL-),A.
    pub open spec fn spec_ld_ptr_a(self, opcode: u8) -> Machine {
        self.spec_cycle_write(self.cpu.spec_pointer(spec_pair_of(opcode)), self.cpu.a).with_cpu(
            self.cpu.spec_stepped(spec_pair_of(opcode)),
        )
    }

    /// LD A,(BC), LD A,(DE), LD A,(HL+) and LD A,(HL-).
    pub open spec fn spec_ld_a_ptr(self, opcode: u8) -> Machine {
        self.tick().with_cpu(
            Cpu {
                a: self.read(self.cpu.spec_pointer(spec_pair_of(opcode))),
                ..self.cpu
            }.spec_stepped(spec_pair_of(opcode)),
        )
    }

    /// INC rr: the pair counts up, in an internal machine cycle. No flag
    /// changes.
    pub open spec fn spec_inc_r16(self, opcode: u8) -> Machine {
        self.tick().with_cpu(
            self.cpu.spec_with_reg16(
                spec_pair_of(opcode),
                inc16(self.cpu.spec_reg16(spec_pair_of(opcode))),
            ),
        )
    }

    /// DEC rr.
    pub open spec fn spec_dec_r16(self, opcode: u8) -> Machine {
        self.tick().with_cpu(
            self.cpu.spec_with_reg16(
                spec_pair_of(opcode),
                dec16(self.cpu.spec_reg16(spec_pair_of(opcode))),
            ),
        )
    }

    /// ADD HL,rr, after an internal machine cycle.
    pub open spec fn spec_add_hl_r16(self, opcode: u8) -> Machine {
        self.tick().with_cpu(self.cpu.spec_add_hl(self.cpu.spec_reg16(spec_pair_of(opcode))))
    }

    /// LD (nn),SP: the low byte of SP goes to nn, the high byte to nn + 1.
    pub open spec fn spec_ld_n16_sp(self) -> Machine {
        self.after_imm16().spec_cycle_write(self.imm16(), low(self.cpu.sp)).spec_cycle_write(
            inc16(self.imm16()),
            high(self.cpu.sp),
        )
    }

    /// LD (nn),A.
    pub open spec fn spec_ld_n16_a(self) -> Machine {
        self.after_imm16().spec_cycle_write(self.imm16(), self.cpu.a)
    }

    /// LD A,(nn).
    pub open spec fn spec_ld_a_n16(self) -> Machine {
        self.after_imm16().tick().with_cpu(
            Cpu { a: self.after_imm16().read(self.imm16()), ..self.after_imm16().cpu },
        )
    }

    /// LDH (n),A: A goes to the high page at the offset after the opcode.
    pub open spec fn spec_ldh_n8_a(self) -> Machine {
        self.after_imm8().spec_cycle_write(spec_high_page(self.imm8()), self.cpu.a)
    }

    /// LDH A,(n).
    pub open spec fn spec_ldh_a_n8(self) -> Machine {
        self.after_imm8().tick().with_cpu(
            Cpu {
                a: self.after_imm8().read(spec_high_page(self.imm8())),
                ..self.after_imm8().cpu
            },
        )
    }

    /// LDH (C),A: A goes to the high page at the offset in C.
    pub open spec fn spec_ldh_c_a(self) -> Machine {
        self.spec_cycle_write(spec_high_page(self.cpu.c), self.cpu.a)
    }

    /// LDH A,(C).
    pub open spec fn spec_ldh_a_c(self) -> Machine {
        self.tick().with_cpu(Cpu { a: self.read(spec_high_page(self.cpu.c)), ..self.cpu })
    }

    /// ADD SP,e, after two internal machine cycles.
    pub open spec fn spec_add_sp_e8(self) -> Machine {
        self.after_imm8().spec_advance(8).with_cpu(
            Cpu {
                sp: spec_add_sp(self.cpu.sp, self.imm8()).0,
                f: spec_add_sp(self.cpu.sp, self.imm8()).1,
                ..self.after_imm8().cpu
            },
        )
    }

    /// LD HL,SP+e, after an internal machine cycle.
    pub open spec fn spec_ld_hl_sp_e8(self) -> Machine {
        self.after_imm8().tick().with_cpu(
            Cpu {
                f: spec_add_sp(self.cpu.sp, self.imm8()).1,
                ..self.after_imm8().cpu.spec_wr_hl(spec_add_sp(self.cpu.sp, self.imm8()).0)
            },
        )
    }

    /// LD SP,HL, with an internal machine cycle.
    pub open spec fn spec_ld_sp_hl(self) -> Machine {
        self.with_cpu(Cpu { sp: self.cpu.spec_hl(), ..self.cpu }).tick()
    }

    /// PUSH rr: an internal machine cycle, then the two writes.
    pub open spec fn spec_push(self, opcode: u8) -> Machine {
        self.tick().push16(self.cpu.spec_pushed(spec_pair_of(opcode)))
    }

    /// POP rr.
    pub open spec fn spec_pop(self, opcode: u8) -> Machine {
        self.after_pop16().with_cpu(
            self.after_pop16().cpu.spec_popped(spec_pair_of(opcode), self.top16()),
        )
    }
}

pub fn ld_r16_n16(gb: &mut GameBoy, opcode: u8)
    requires
        old(gb).wf(),
    ensures
        final(gb)@ == old(gb)@.spec_ld_r16_n16(opcode),
        final(gb).wf(),
        final(gb).clocked(old(gb), 8),
{
    let v = gb.fetch16();
    gb.cpu.set_reg16(pair_of(opcode), v);
}

pub fn ld_ptr_a(gb: &mut GameBoy, opcode: u8)
    requires
        old(gb).wf(),
    ensures
        final(gb)@ == old(gb)@.spec_ld_ptr_a(opcode),
        final(gb).wf(),
        final(gb).clocked(old(gb), 4),
{
    let i = pair_of(opcode);
    let addr = gb.cpu.pointer(i);
    let a = gb.cpu.a;
    gb.cycle_write(addr, a);
    gb.cpu.step_pointer(i);
}

pub fn ld_a_ptr(gb: &mut GameBoy, opcode: u8)
    requires
        old(gb).wf(),
    ensures
        final(gb)@ == old(gb)@.spec_ld_a_ptr(opcode),
        final(gb).wf(),
        final(gb).clocked(old(gb), 4),
{
    let i = pair_of(opcode);
    let addr = gb.cpu.pointer(i);
    gb.cpu.a = gb.cycle_read(addr);
    gb.cpu.step_pointer(i);
}

pub fn inc_r16(gb: &mut GameBoy, opcode: u8)
    requires
        old(gb).wf(),
    ensures
        final(gb)@ == old(gb)@.spec_inc_r16(opcode),
        final(gb).wf(),
        final(gb).clocked(old(gb), 4),
{
    let i = pair_of(opcode);
    gb.advance_cycles(4);
    let val = gb.cpu.reg16(i).wrapping_add(1);
    gb.cpu.set_reg16(i, val);
}

pub fn dec_r16(gb: &mut GameBoy, opcode: u8)
    requires
        old(gb).wf(),
    ensures
        final(gb)@ == old(gb)@.spec_dec_r16(opcode),
        final(gb).wf(),
        final(gb).clocked(old(gb), 4),
{
    let i = pair_of(opcode);
    gb.advance_cycles(4);
    let val = gb.cpu.reg16(i).wrapping_sub(1);
    gb.cpu.set_reg16(i, val);
}

pub fn add_hl_r16(gb: &mut GameBoy, opcode: u8)
    requires
        old(gb).wf(),
    ensures
        final(gb)@ == old(gb)@.spec_add_hl_r16(opcode),
        final(gb).wf(),
        final(gb).clocked(old(gb), 4),
{
    gb.advance_cycles(4);
    let val = gb.cpu.reg16(pair_of(opcode));
    gb.cpu.add_hl(val);
}

pub fn ld_n16_sp(gb: &mut GameBoy)
    requires
        old(gb).wf(),
    ensures
        final(gb)@ == old(gb)@.spec_ld_n16_sp(),
        final(gb).wf(),
        final(gb).clocked(old(gb), 16),
{
    let addr = gb.fetch16();
    let sp = gb.cpu.sp;
    gb.cycle_write(addr, (sp % 256) as u8);
    gb.cycle_write(addr.wrapping_add(1), (sp / 256) as u8);
}

pub fn ld_n16_a(gb: &mut GameBoy)
    requires
        old(gb).wf(),
    ensures
        final(gb)@ == old(gb)@.spec_ld_n16_a(),
        final(gb).wf(),
        final(gb).clocked(old(gb), 12),
{
    let addr = gb.fetch16();
    let a = gb.cpu.a;
    gb.cycle_write(addr, a);
}

pub fn ld_a_n16(gb: &mut GameBoy)
    requires
        old(gb).wf(),
    ensures
        final(gb)@ == old(gb)@.spec_ld_a_n16(),
        final(gb).wf(),
        final(gb).clocked(old(gb), 12),
{
    let addr = gb.fetch16();
    gb.cpu.a = gb.cycle_read(addr);
}

pub fn ldh_n8_a(gb: &mut GameBoy)
    requires
        old(gb).wf(),
    ensures
        final(gb)@ == old(gb)@.spec_ldh_n8_a(),
        final(gb).wf(),
        final(gb).clocked(old(gb), 8),
{
    let addr = high_page(gb.fetch8());
    let a = gb.cpu.a;
    gb.cycle_write(addr, a);
}

pub fn ldh_a_n8(gb: &mut GameBoy)
    requires
        old(gb).wf(),
    ensures
        final(gb)@ == old(gb)@.spec_ldh_a_n8(),
        final(gb).wf(),
        final(gb).clocked(old(gb), 8),
{
    let addr = high_page(gb.fetch8());
    gb.cpu.a = gb.cycle_read(addr);
}

pub fn ldh_c_a(gb: &mut GameBoy)
    requires
        old(gb).wf(),
    ensures
        final(gb)@ == old(gb)@.spec_ldh_c_a(),
        final(gb).wf(),
        final(gb).clocked(old(gb), 4),
{
    let addr = high_page(gb.cpu.c);
    let a = gb.cpu.a;
    gb.cycle_write(addr, a);
}

pub fn ldh_a_c(gb: &mut GameBoy)
    requires
        old(gb).wf(),
    ensures
        final(gb)@ == old(gb)@.spec_ldh_a_c(),
        final(gb).wf(),
        final(gb).clocked(old(gb), 4),
{
    let addr = high_page(gb.cpu.c);
    gb.cpu.a = gb.cycle_read(addr);
}

pub fn add_sp_e8(gb: &mut GameBoy)
    requires
        old(gb).wf(),
    ensures
        final(gb)@ == old(gb)@.spec_add_sp_e8(),
        final(gb).wf(),
        final(gb).clocked(old(gb), 12),
{
    let e = gb.fetch8();
    gb.advance_cycles(8);
    let (sp, f) = add_sp(gb.cpu.sp, e);
    gb.cpu.sp = sp;
    gb.cpu.f = f;
}

pub fn ld_hl_sp_e8(gb: &mut GameBoy)
    requires
        old(gb).wf(),
    ensures
        final(gb)@ == old(gb)@.spec_ld_hl_sp_e8(),
        final(gb).wf(),
        final(gb).clocked(old(gb), 8),
{
    let e = gb.fetch8();
    gb.advance_cycles(4);
    let (val, f) = add_sp(gb.cpu.sp, e);
    gb.cpu.wr_hl(val);
    gb.cpu.f = f;
}

pub fn ld_sp_hl(gb: &mut GameBoy)
    requires
        old(gb).wf(),
    ensures
        final(gb)@ == old(gb)@.spec_ld_sp_hl(),
        final(gb).wf(),
        final(gb).clocked(old(gb), 4),
{
    gb.cpu.sp = gb.cpu.rd_hl();
    gb.advance_cycles(4);
}

pub fn push(gb: &mut GameBoy, opcode: u8)
    requires
        old(gb).wf(),
    ensures
        final(gb)@ == old(gb)@.spec_push(opcode),
        final(gb).wf(),
        final(gb).clocked(old(gb), 12),
{
    gb.advance_cycles(4);
    let v = gb.cpu.pushed(pair_of(opcode));
    gb.push16(v);
}

pub fn pop(gb: &mut GameBoy, opcode: u8)
    requires
        old(gb).wf(),
    ensures
        final(gb)@ == old(gb)@.spec_pop(opcode),
        final(gb).wf(),
        final(gb).clocked(old(gb), 8),
{
    let v = gb.pop16();
    gb.cpu.popped(pair_of(opcode), v);
}

} // verus!
