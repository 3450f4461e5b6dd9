//! The instructions that take an operand by its number in the opcode: the
//! 8-bit loads, the arithmetic on A, INC and DEC, and the CB page.

use vstd::prelude::*;
use crate::cpu::alu::{bit_flags, dec8, inc8, res_bit, set_bit, shift, shift_of, spec_bit_flags, spec_dec8, spec_inc8, spec_res, spec_set, spec_shift, spec_shift_of};
use crate::cpu::Cpu;
use crate::gameboy::{GameBoy, Machine};

verus! {

/// The number of the destination operand of an opcode: its bits 3 to 5.
pub open spec fn spec_dst(opcode: u8) -> u8 {
    (opcode / 8) % 8
}

/// The number of the source operand of an opcode: its bits 0 to 2.
pub open spec fn spec_src(opcode: u8) -> u8 {
    opcode % 8
}

#[verifier::when_used_as_spec(spec_dst)]
pub fn dst(opcode: u8) -> (i: u8)
    ensures
        i == spec_dst(opcode),
        i < 8,
{
    (opcode / 8) % 8
}

#[verifier::when_used_as_spec(spec_src)]
pub fn src(opcode: u8) -> (i: u8)
    ensures
        i == spec_src(opcode),
        i < 8,
{
    opcode % 8
}

/// The T-cycles that an operand costs beyond the opcode fetch: a memory
/// cycle for the byte at (HL), nothing for a register.
pub open spec fn operand_cycles(i: u8) -> int {
    if i == 6 {
        4
    } else {
        0
    }
}

impl Machine {
    /// LD r,r': the source operand goes to the destination operand.
    pub open spec fn spec_ld_r8_r8(self, opcode: u8) -> Machine {
        self.after_operand(spec_src(opcode)).store(
            spec_dst(opcode),
            self.operand(spec_src(opcode)),
        )
    }

    /// LD r,n: the byte after the opcode goes to the destination operand.
    pub open spec fn spec_ld_r8_n8(self, opcode: u8) -> Machine {
        self.after_imm8().store(spec_dst(opcode), self.imm8())
    }

    /// ADD, ADC, SUB, SBC, AND, XOR, OR and CP with the source operand.
    pub open spec fn spec_alu_r8(self, opcode: u8) -> Machine {
        self.after_operand(spec_src(opcode)).with_cpu(
            self.cpu.spec_alu(spec_dst(opcode), self.operand(spec_src(opcode))),
        )
    }

    /// ADD, ADC, SUB, SBC, AND, XOR, OR and CP with the byte after the
    /// opcode.
    pub open spec fn spec_alu_n8(self, opcode: u8) -> Machine {
        self.after_imm8().with_cpu(self.after_imm8().cpu.spec_alu(spec_dst(opcode), self.imm8()))
    }

    /// INC of the destination operand.
    pub open spec fn spec_inc_r8(self, opcode: u8) -> Machine {
        let (value, f) = spec_inc8(self.operand(spec_dst(opcode)), self.cpu.spec_c());
        self.after_operand(spec_dst(opcode)).with_cpu(Cpu { f, ..self.cpu }).store(
            spec_dst(opcode),
            value,
        )
    }

    /// DEC of the destination operand.
    pub open spec fn spec_dec_r8(self, opcode: u8) -> Machine {
        let (value, f) = spec_dec8(self.operand(spec_dst(opcode)), self.cpu.spec_c());
        self.after_operand(spec_dst(opcode)).with_cpu(Cpu { f, ..self.cpu }).store(
            spec_dst(opcode),
            value,
        )
    }

    /// The CB opcodes below 0x40: a rotation or shift of the source
    /// operand.
    pub open spec fn spec_cb_shift(self, opcode: u8) -> Machine {
        let (value, f) = spec_shift(
            spec_shift_of(opcode),
            self.operand(spec_src(opcode)),
            self.cpu.spec_c(),
        );
        self.after_operand(spec_src(opcode)).with_cpu(Cpu { f, ..self.cpu }).store(
            spec_src(opcode),
            value,
        )
    }

    /// BIT n: the flags show bit n of the source operand.
    pub open spec fn spec_cb_bit(self, opcode: u8) -> Machine {
        self.after_operand(spec_src(opcode)).with_cpu(
            Cpu {
                f: spec_bit_flags(
                    self.operand(spec_src(opcode)),
                    spec_dst(opcode),
                    self.cpu.spec_c(),
                ),
                ..self.cpu
            },
        )
    }

    /// RES n: bit n of the source operand is cleared.
    pub open spec fn spec_cb_res(self, opcode: u8) -> Machine {
        self.after_operand(spec_src(opcode)).store(
            spec_src(opcode),
            spec_res(self.operand(spec_src(opcode)), spec_dst(opcode)),
        )
    }

    /// SET n: bit n of the source operand is set.
    pub open spec fn spec_cb_set(self, opcode: u8) -> Machine {
        self.after_operand(spec_src(opcode)).store(
            spec_src(opcode),
            spec_set(self.operand(spec_src(opcode)), spec_dst(opcode)),
        )
    }

    /// An opcode of the CB page.
    pub open spec fn spec_cb(self, opcode: u8) -> Machine {
        if opcode < 0x40 {
            self.spec_cb_shift(opcode)
        } else if opcode < 0x80 {
            self.spec_cb_bit(opcode)
        } else if opcode < 0xC0 {
            self.spec_cb_res(opcode)
        } else {
            self.spec_cb_set(opcode)
        }
    }

    /// The CB prefix: the next byte is an opcode of the CB page.
    pub open spec fn spec_cb_prefix(self) -> Machine {
        self.after_imm8().spec_cb(self.imm8())
    }
}

/// The T-cycles of a CB opcode beyond the fetch of the prefix and of the
/// opcode: on a register none; on the byte at (HL) a memory cycle for BIT
/// and two for the others, which write it back.
pub open spec fn cb_cycles(opcode: u8) -> int {
    if spec_src(opcode) != 6 {
        0
    } else if 0x40 <= opcode < 0x80 {
        4
    } else {
        8
    }
}

pub fn ld_r8_r8(gb: &mut GameBoy, opcode: u8)
    requires
        old(gb).wf(),
    ensures
        final(gb)@ == old(gb)@.spec_ld_r8_r8(opcode),
        final(gb).wf(),
        final(gb).clocked(old(gb), operand_cycles(spec_src(opcode)) + operand_cycles(spec_dst(opcode))),
{
    let v = gb.get_operand(src(opcode));
    gb.set_operand(dst(opcode), v);
}

pub fn ld_r8_n8(gb: &mut GameBoy, opcode: u8)
    requires
        old(gb).wf(),
    ensures
        final(gb)@ == old(gb)@.spec_ld_r8_n8(opcode),
        final(gb).wf(),
        final(gb).clocked(old(gb), 4 + operand_cycles(spec_dst(opcode))),
{
    let v = gb.fetch8();
    gb.set_operand(dst(opcode), v);
}

pub fn alu_r8(gb: &mut GameBoy, opcode: u8)
    requires
        old(gb).wf(),
    ensures
        final(gb)@ == old(gb)@.spec_alu_r8(opcode),
        final(gb).wf(),
        final(gb).clocked(old(gb), operand_cycles(spec_src(opcode))),
{
    let v = gb.get_operand(src(opcode));
    gb.cpu.alu(dst(opcode), v);
}

pub fn alu_n8(gb: &mut GameBoy, opcode: u8)
    requires
        old(gb).wf(),
    ensures
        final(gb)@ == old(gb)@.spec_alu_n8(opcode),
        final(gb).wf(),
        final(gb).clocked(old(gb), 4),
{
    let v = gb.fetch8();
    gb.cpu.alu(dst(opcode), v);
}

pub fn inc_r8(gb: &mut GameBoy, opcode: u8)
    requires
        old(gb).wf(),
    ensures
        final(gb)@ == old(gb)@.spec_inc_r8(opcode),
        final(gb).wf(),
        final(gb).clocked(old(gb), 2 * operand_cycles(spec_dst(opcode))),
{
    let i = dst(opcode);
    let v = gb.get_operand(i);
    let (value, f) = inc8(v, gb.cpu.c_flag());
    gb.cpu.f = f;
    gb.set_operand(i, value);
}

pub fn dec_r8(gb: &mut GameBoy, opcode: u8)
    requires
        old(gb).wf(),
    ensures
        final(gb)@ == old(gb)@.spec_dec_r8(opcode),
        final(gb).wf(),
        final(gb).clocked(old(gb), 2 * operand_cycles(spec_dst(opcode))),
{
    let i = dst(opcode);
    let v = gb.get_operand(i);
    let (value, f) = dec8(v, gb.cpu.c_flag());
    gb.cpu.f = f;
    gb.set_operand(i, value);
}

pub fn cb_shift(gb: &mut GameBoy, opcode: u8)
    requires
        old(gb).wf(),
    ensures
        final(gb)@ == old(gb)@.spec_cb_shift(opcode),
        final(gb).wf(),
        final(gb).clocked(old(gb), 2 * operand_cycles(spec_src(opcode))),
{
    let i = src(opcode);
    let v = gb.get_operand(i);
    let (value, f) = shift(shift_of(opcode), v, gb.cpu.c_flag());
    gb.cpu.f = f;
    gb.set_operand(i, value);
}

pub fn cb_bit(gb: &mut GameBoy, opcode: u8)
    requires
        old(gb).wf(),
    ensures
        final(gb)@ == old(gb)@.spec_cb_bit(opcode),
        final(gb).wf(),
        final(gb).clocked(old(gb), operand_cycles(spec_src(opcode))),
{
    let v = gb.get_operand(src(opcode));
    gb.cpu.f = bit_flags(v, dst(opcode), gb.cpu.c_flag());
}

pub fn cb_res(gb: &mut GameBoy, opcode: u8)
    requires
        old(gb).wf(),
    ensures
        final(gb)@ == old(gb)@.spec_cb_res(opcode),
        final(gb).wf(),
        final(gb).clocked(old(gb), 2 * operand_cycles(spec_src(opcode))),
{
    let i = src(opcode);
    let v = gb.get_operand(i);
    gb.set_operand(i, res_bit(v, dst(opcode)));
}

pub fn cb_set(gb: &mut GameBoy, opcode: u8)
    requires
        old(gb).wf(),
    ensures
        final(gb)@ == old(gb)@.spec_cb_set(opcode),
        final(gb).wf(),
        final(gb).clocked(old(gb), 2 * operand_cycles(spec_src(opcode))),
{
    let i = src(opcode);
    let v = gb.get_operand(i);
    gb.set_operand(i, set_bit(v, dst(opcode)));
}

/// Runs an opcode of the CB page.
pub fn cb(gb: &mut GameBoy, opcode: u8)
    requires
        old(gb).wf(),
    ensures
        final(gb)@ == old(gb)@.spec_cb(opcode),
        final(gb).wf(),
        final(gb).clocked(old(gb), cb_cycles(opcode)),
{
    if opcode < 0x40 {
        cb_shift(gb, opcode);
    } else if opcode < 0x80 {
        cb_bit(gb, opcode);
    } else if opcode < 0xC0 {
        cb_res(gb, opcode);
    } else {
        cb_set(gb, opcode);
    }
}

/// The CB prefix: fetches the opcode of the CB page and runs it.
pub fn cb_prefix(gb: &mut GameBoy)
    requires
        old(gb).wf(),
    ensures
        final(gb)@ == old(gb)@.spec_cb_prefix(),
        final(gb).wf(),
        final(gb).clocked(old(gb), 4 + cb_cycles(old(gb)@.imm8())),
{
    let opcode_cb = gb.fetch8();
    cb(gb, opcode_cb);
}

} // verus!
