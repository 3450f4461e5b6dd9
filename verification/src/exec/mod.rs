//! The execution of instructions on the machine: the decoding of an
//! opcode, the time that each instruction takes, and the step that
//! services an interrupt, fetches and executes.

use vstd::prelude::*;
use crate::cpu::alu::Shift;
use crate::exec::control::{call, ccf, cond_of, cpl, daa, di, ei, halt, jp, jp_hl, jr, nop, reti, ret, ret_cc, rla, rlca, rra, rrca, rst, scf, spec_cond_of, stop, undefined};
use crate::exec::load::{add_hl_r16, add_sp_e8, dec_r16, inc_r16, ld_a_n16, ld_a_ptr, ld_hl_sp_e8, ld_n16_a, ld_n16_sp, ld_ptr_a, ld_r16_n16, ld_sp_hl, ldh_a_c, ldh_a_n8, ldh_c_a, ldh_n8_a, pop, push};
use crate::exec::operate::{alu_n8, alu_r8, cb_cycles, cb_prefix, dec_r8, inc_r8, ld_r8_n8, ld_r8_r8, operand_cycles, spec_dst, spec_src};
use crate::gameboy::{GameBoy, Machine};

pub mod control;
pub mod load;
pub mod operand;
pub mod operate;
pub mod step;

verus! {

/// How many T-cycles each instruction takes, the opcode fetch included.
/// `taken` says whether a conditional jump, call or return is taken; `cb`
/// is the byte after a CB prefix.
#[verifier::opaque]
pub open spec fn instr_cycles(opcode: u8, taken: bool, cb: u8) -> int {
    if 0x40 <= opcode <= 0x7F {
        // LD r,r' and HALT
        if opcode == 0x76 {
            4
        } else {
            4 + operand_cycles(spec_src(opcode)) + operand_cycles(spec_dst(opcode))
        }
    } else if 0x80 <= opcode <= 0xBF {
        // the arithmetic on A with a register or (HL)
        4 + operand_cycles(spec_src(opcode))
    } else {
        match opcode {
            // LD rr,nn
            0x01 | 0x11 | 0x21 | 0x31 => 12,
            // LD (rr),A and LD A,(rr)
            0x02 | 0x12 | 0x22 | 0x32 | 0x0A | 0x1A | 0x2A | 0x3A => 8,
            // INC rr, DEC rr and ADD HL,rr
            0x03 | 0x13 | 0x23 | 0x33 | 0x0B | 0x1B | 0x2B | 0x3B => 8,
            0x09 | 0x19 | 0x29 | 0x39 => 8,
            // INC (HL), DEC (HL) and LD (HL),n
            0x34 | 0x35 | 0x36 => 12,
            // LD r,n
            0x06 | 0x0E | 0x16 | 0x1E | 0x26 | 0x2E | 0x3E => 8,
            // LD (nn),SP
            0x08 => 20,
            // JR and JR cc
            0x18 => 12,
            0x20 | 0x28 | 0x30 | 0x38 => if taken {
                12
            } else {
                8
            },
            // RET cc
            0xC0 | 0xC8 | 0xD0 | 0xD8 => if taken {
                20
            } else {
                8
            },
            // POP and PUSH
            0xC1 | 0xD1 | 0xE1 | 0xF1 => 12,
            0xC5 | 0xD5 | 0xE5 | 0xF5 => 16,
            // JP cc and JP
            0xC2 | 0xCA | 0xD2 | 0xDA => if taken {
                16
            } else {
                12
            },
            0xC3 => 16,
            // CALL cc and CALL
            0xC4 | 0xCC | 0xD4 | 0xDC => if taken {
                24
            } else {
                12
            },
            0xCD => 24,
            // the arithmetic on A with the byte after the opcode
            0xC6 | 0xCE | 0xD6 | 0xDE | 0xE6 | 0xEE | 0xF6 | 0xFE => 8,
            // RST
            0xC7 | 0xCF | 0xD7 | 0xDF | 0xE7 | 0xEF | 0xF7 | 0xFF => 16,
            // RET and RETI
            0xC9 | 0xD9 => 16,
            // the CB page
            0xCB => 8 + cb_cycles(cb),
            // LDH (n),A and LDH A,(n); LDH (C),A and LDH A,(C)
            0xE0 | 0xF0 => 12,
            0xE2 | 0xF2 => 8,
            // ADD SP,e and LD HL,SP+e
            0xE8 => 16,
            0xF8 => 12,
            // LD (nn),A and LD A,(nn)
            0xEA | 0xFA => 16,
            // LD SP,HL
            0xF9 => 8,
            // everything else: on registers only, or no instruction
            _ => 4,
        }
    }
}

impl Machine {
    /// What the opcodes 0x00..=0x3F do.
    #[verifier::opaque]
    pub open spec fn spec_execute_q0(self, opcode: u8) -> Machine {
        match opcode {
            0x00 => self,
            0x08 => self.spec_ld_n16_sp(),
            0x10 => self.spec_stop(),
            0x18 => self.spec_jr(true),
            0x20 | 0x28 | 0x30 | 0x38 => self.spec_jr(self.cpu.spec_cond(spec_cond_of(opcode))),
            0x01 | 0x11 | 0x21 | 0x31 => self.spec_ld_r16_n16(opcode),
            0x09 | 0x19 | 0x29 | 0x39 => self.spec_add_hl_r16(opcode),
            0x02 | 0x12 | 0x22 | 0x32 => self.spec_ld_ptr_a(opcode),
            0x0A | 0x1A | 0x2A | 0x3A => self.spec_ld_a_ptr(opcode),
            0x03 | 0x13 | 0x23 | 0x33 => self.spec_inc_r16(opcode),
            0x0B | 0x1B | 0x2B | 0x3B => self.spec_dec_r16(opcode),
            0x04 | 0x0C | 0x14 | 0x1C | 0x24 | 0x2C | 0x34 | 0x3C => self.spec_inc_r8(opcode),
            0x05 | 0x0D | 0x15 | 0x1D | 0x25 | 0x2D | 0x35 | 0x3D => self.spec_dec_r8(opcode),
            0x06 | 0x0E | 0x16 | 0x1E | 0x26 | 0x2E | 0x36 | 0x3E => self.spec_ld_r8_n8(opcode),
            0x07 => self.with_cpu(self.cpu.spec_rotate_a(Shift::RLC)),
            0x0F => self.with_cpu(self.cpu.spec_rotate_a(Shift::RRC)),
            0x17 => self.with_cpu(self.cpu.spec_rotate_a(Shift::RL)),
            0x1F => self.with_cpu(self.cpu.spec_rotate_a(Shift::RR)),
            0x27 => self.with_cpu(self.cpu.spec_daa()),
            0x2F => self.with_cpu(self.cpu.spec_cpl()),
            0x37 => self.with_cpu(self.cpu.spec_scf()),
            _ => self.with_cpu(self.cpu.spec_ccf()),
        }
    }

    /// What the opcodes 0xC0..=0xFF do. Eleven of them stand for no
    /// instruction and do nothing.
    #[verifier::opaque]
    pub open spec fn spec_execute_q3(self, opcode: u8) -> Machine {
        match opcode {
            0xC0 | 0xC8 | 0xD0 | 0xD8 => self.spec_ret_cc(self.cpu.spec_cond(spec_cond_of(opcode))),
            0xC1 | 0xD1 | 0xE1 | 0xF1 => self.spec_pop(opcode),
            0xC2 | 0xCA | 0xD2 | 0xDA => self.spec_jp(self.cpu.spec_cond(spec_cond_of(opcode))),
            0xC3 => self.spec_jp(true),
            0xC4 | 0xCC | 0xD4 | 0xDC => self.spec_call(self.cpu.spec_cond(spec_cond_of(opcode))),
            0xCD => self.spec_call(true),
            0xC5 | 0xD5 | 0xE5 | 0xF5 => self.spec_push(opcode),
            0xC6 | 0xCE | 0xD6 | 0xDE | 0xE6 | 0xEE | 0xF6 | 0xFE => self.spec_alu_n8(opcode),
            0xC7 | 0xCF | 0xD7 | 0xDF | 0xE7 | 0xEF | 0xF7 | 0xFF => self.spec_rst(opcode),
            0xC9 => self.spec_ret(),
            0xD9 => self.spec_reti(),
            0xCB => self.spec_cb_prefix(),
            0xE0 => self.spec_ldh_n8_a(),
            0xF0 => self.spec_ldh_a_n8(),
            0xE2 => self.spec_ldh_c_a(),
            0xF2 => self.spec_ldh_a_c(),
            0xE8 => self.spec_add_sp_e8(),
            0xF8 => self.spec_ld_hl_sp_e8(),
            0xE9 => self.spec_jp_hl(),
            0xF9 => self.spec_ld_sp_hl(),
            0xEA => self.spec_ld_n16_a(),
            0xFA => self.spec_ld_a_n16(),
            0xF3 => self.spec_di(),
            0xFB => self.spec_ei(),
            _ => self,
        }
    }

    /// The machine after the instruction with the given opcode, the opcode
    /// having been fetched.
    #[verifier::opaque]
    pub open spec fn spec_execute(self, opcode: u8) -> Machine {
        if opcode < 0x40 {
            self.spec_execute_q0(opcode)
        } else if opcode == 0x76 {
            self.spec_halt()
        } else if opcode < 0x80 {
            self.spec_ld_r8_r8(opcode)
        } else if opcode < 0xC0 {
            self.spec_alu_r8(opcode)
        } else {
            self.spec_execute_q3(opcode)
        }
    }

    /// The T-cycles that the instruction takes after its opcode was
    /// fetched.
    pub open spec fn spec_execute_cycles(&self, opcode: u8) -> int {
        instr_cycles(opcode, self.cpu.spec_cond(spec_cond_of(opcode)), self.imm8()) - 4
    }
}

#[verifier::rlimit(40)]
fn execute_q0(gb: &mut GameBoy, opcode: u8)
    requires
        old(gb).wf(),
        opcode < 0x40,
    ensures
        final(gb)@ == old(gb)@.spec_execute_q0(opcode),
        final(gb).wf(),
        final(gb).cycles == old(gb)@.cycles_after(old(gb)@.spec_execute_cycles(opcode)),
        final(gb).ahead_cycles == old(gb).ahead_cycles,
{
    reveal(instr_cycles);
    reveal(Machine::spec_execute_q0);
    match opcode {
        0x00 => nop(gb),
        0x08 => ld_n16_sp(gb),
        0x10 => stop(gb),
        0x18 => jr(gb, true),
        0x20 | 0x28 | 0x30 | 0x38 => {
            let taken = gb.cpu.cond(cond_of(opcode));
            jr(gb, taken)
        },
        0x01 | 0x11 | 0x21 | 0x31 => ld_r16_n16(gb, opcode),
        0x09 | 0x19 | 0x29 | 0x39 => add_hl_r16(gb, opcode),
        0x02 | 0x12 | 0x22 | 0x32 => ld_ptr_a(gb, opcode),
        0x0A | 0x1A | 0x2A | 0x3A => ld_a_ptr(gb, opcode),
        0x03 | 0x13 | 0x23 | 0x33 => inc_r16(gb, opcode),
        0x0B | 0x1B | 0x2B | 0x3B => dec_r16(gb, opcode),
        0x04 | 0x0C | 0x14 | 0x1C | 0x24 | 0x2C | 0x34 | 0x3C => inc_r8(gb, opcode),
        0x05 | 0x0D | 0x15 | 0x1D | 0x25 | 0x2D | 0x35 | 0x3D => dec_r8(gb, opcode),
        0x06 | 0x0E | 0x16 | 0x1E | 0x26 | 0x2E | 0x36 | 0x3E => ld_r8_n8(gb, opcode),
        0x07 => rlca(gb),
        0x0F => rrca(gb),
        0x17 => rla(gb),
        0x1F => rra(gb),
        0x27 => daa(gb),
        0x2F => cpl(gb),
        0x37 => scf(gb),
        _ => ccf(gb),
    }
}

#[verifier::rlimit(40)]
fn execute_q3(gb: &mut GameBoy, opcode: u8)
    requires
        old(gb).wf(),
        opcode >= 0xC0,
    ensures
        final(gb)@ == old(gb)@.spec_execute_q3(opcode),
        final(gb).wf(),
        final(gb).cycles == old(gb)@.cycles_after(old(gb)@.spec_execute_cycles(opcode)),
        final(gb).ahead_cycles == old(gb).ahead_cycles,
{
    reveal(instr_cycles);
    reveal(Machine::spec_execute_q3);
    match opcode {
        0xC0 | 0xC8 | 0xD0 | 0xD8 => {
            let taken = gb.cpu.cond(cond_of(opcode));
            ret_cc(gb, taken)
        },
        0xC1 | 0xD1 | 0xE1 | 0xF1 => pop(gb, opcode),
        0xC2 | 0xCA | 0xD2 | 0xDA => {
            let taken = gb.cpu.cond(cond_of(opcode));
            jp(gb, taken)
        },
        0xC3 => jp(gb, true),
        0xC4 | 0xCC | 0xD4 | 0xDC => {
            let taken = gb.cpu.cond(cond_of(opcode));
            call(gb, taken)
        },
        0xCD => call(gb, true),
        0xC5 | 0xD5 | 0xE5 | 0xF5 => push(gb, opcode),
        0xC6 | 0xCE | 0xD6 | 0xDE | 0xE6 | 0xEE | 0xF6 | 0xFE => alu_n8(gb, opcode),
        0xC7 | 0xCF | 0xD7 | 0xDF | 0xE7 | 0xEF | 0xF7 | 0xFF => rst(gb, opcode),
        0xC9 => ret(gb),
        0xD9 => reti(gb),
        0xCB => cb_prefix(gb),
        0xE0 => ldh_n8_a(gb),
        0xF0 => ldh_a_n8(gb),
        0xE2 => ldh_c_a(gb),
        0xF2 => ldh_a_c(gb),
        0xE8 => add_sp_e8(gb),
        0xF8 => ld_hl_sp_e8(gb),
        0xE9 => jp_hl(gb),
        0xF9 => ld_sp_hl(gb),
        0xEA => ld_n16_a(gb),
        0xFA => ld_a_n16(gb),
        0xF3 => di(gb),
        0xFB => ei(gb),
        _ => undefined(gb),
    }
}

/// Runs the instruction with the given opcode, the opcode having been
/// fetched. The instruction takes the time that `instr_cycles` gives for
/// it.
#[verifier::rlimit(40)]
pub fn execute(gb: &mut GameBoy, opcode: u8)
    requires
        old(gb).wf(),
    ensures
        final(gb)@ == old(gb)@.spec_execute(opcode),
        final(gb).wf(),
        final(gb).cycles == old(gb)@.cycles_after(old(gb)@.spec_execute_cycles(opcode)),
        final(gb).ahead_cycles == old(gb).ahead_cycles,
{
    reveal(instr_cycles);
    reveal(Machine::spec_execute);
    let ghost before = gb@;
    if opcode < 0x40 {
        execute_q0(gb, opcode);
    } else if opcode == 0x76 {
        assert(before.spec_execute_cycles(opcode) == 0);
        halt(gb);
    } else if opcode < 0x80 {
        assert(before.spec_execute_cycles(opcode) == operand_cycles(spec_src(opcode))
            + operand_cycles(spec_dst(opcode)));
        ld_r8_r8(gb, opcode);
    } else if opcode < 0xC0 {
        assert(before.spec_execute_cycles(opcode) == operand_cycles(spec_src(opcode)));
        alu_r8(gb, opcode);
    } else {
        execute_q3(gb, opcode);
    }
}

} // verus!
