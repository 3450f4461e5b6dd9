//! Jumps, calls and returns, and the instructions that steer the CPU
//! itself.

use vstd::prelude::*;
use crate::cpu::alu::{signed, Shift};
use crate::cpu::Cpu;
use crate::gameboy::{GameBoy, Machine};
use crate::intr::{ImeState, InterruptHandler};

verus! {

/// The number of the condition of an opcode: its bits 3 and 4.
pub open spec fn spec_cond_of(opcode: u8) -> u8 {
    (opcode / 8) % 4
}

#[verifier::when_used_as_spec(spec_cond_of)]
pub fn cond_of(opcode: u8) -> (i: u8)
    ensures
        i == spec_cond_of(opcode),
        i < 4,
{
    (opcode / 8) % 4
}

/// Where a relative jump from `pc` leads for the offset byte `e`.
pub open spec fn spec_rel_target(pc: u16, e: u8) -> u16 {
    ((pc + signed(e)) % 0x10000) as u16
}

#[verifier::when_used_as_spec(spec_rel_target)]
pub fn rel_target(pc: u16, e: u8) -> (t: u16)
    ensures
        t == spec_rel_target(pc, e),
{
    let offset: u16 = if e < 128 {
        e as u16
    } else {
        0xFF00 + e as u16
    };
    pc.wrapping_add(offset)
}

/// The vector of an RST opcode: its bits 3 to 5, times eight.
pub open spec fn spec_rst_vector(opcode: u8) -> u16 {
    (((opcode / 8) % 8) * 8) as u16
}

#[verifier::when_used_as_spec(spec_rst_vector)]
pub fn rst_vector(opcode: u8) -> (v: u16)
    ensures
        v == spec_rst_vector(opcode),
{
    (((opcode / 8) % 8) * 8) as u16
}

impl Machine {
    /// JR and JR cc: the offset is fetched; a jump that is taken costs an
    /// internal machine cycle.
    pub open spec fn spec_jr(self, taken: bool) -> Machine {
        if taken {
            self.after_imm8().with_cpu(
                Cpu {
                    pc: spec_rel_target(self.after_imm8().cpu.pc, self.imm8()),
                    ..self.after_imm8().cpu
                },
            ).tick()
        } else {
            self.after_imm8()
        }
    }

    /// JP and JP cc: the target is fetched; a jump that is taken costs an
    /// internal machine cycle.
    pub open spec fn spec_jp(self, taken: bool) -> Machine {
        if taken {
            self.after_imm16().tick().with_cpu(Cpu { pc: self.imm16(), ..self.after_imm16().cpu })
        } else {
            self.after_imm16()
        }
    }

    /// JP HL costs nothing beyond the opcode fetch.
    pub open spec fn spec_jp_hl(self) -> Machine {
        self.with_cpu(Cpu { pc: self.cpu.spec_hl(), ..self.cpu })
    }

    /// The machine after the address `ret` was pushed and PC set to
    /// `target`, with an internal machine cycle before the push.
    pub open spec fn spec_enter(self, ret: u16, target: u16) -> Machine {
        self.tick().push16(ret).with_cpu(Cpu { pc: target, ..self.tick().push16(ret).cpu })
    }

    /// CALL and CALL cc: the target is fetched; if the call is taken the
    /// address after the instruction is pushed.
    pub open spec fn spec_call(self, taken: bool) -> Machine {
        if taken {
            self.after_imm16().spec_enter(self.after_imm16().cpu.pc, self.imm16())
        } else {
            self.after_imm16()
        }
    }

    /// RST: a call to a fixed vector.
    pub open spec fn spec_rst(self, opcode: u8) -> Machine {
        self.spec_enter(self.cpu.pc, spec_rst_vector(opcode))
    }

    /// RET: PC is popped, with an internal machine cycle after.
    pub open spec fn spec_ret(self) -> Machine {
        self.after_pop16().with_cpu(Cpu { pc: self.top16(), ..self.after_pop16().cpu }).tick()
    }

    /// RET cc: an internal machine cycle to test the condition, then RET
    /// if it holds.
    pub open spec fn spec_ret_cc(self, taken: bool) -> Machine {
        if taken {
            self.tick().spec_ret()
        } else {
            self.tick()
        }
    }

    /// RETI: RET, and interrupts are enabled at once.
    pub open spec fn spec_reti(self) -> Machine {
        Machine {
            intr: InterruptHandler { ime: ImeState::ENABLED, ..self.spec_ret().intr },
            ..self.spec_ret()
        }
    }

    pub open spec fn spec_di(self) -> Machine {
        Machine { intr: InterruptHandler { ime: ImeState::DISABLED, ..self.intr }, ..self }
    }

    /// EI: interrupts are enabled after the next instruction.
    pub open spec fn spec_ei(self) -> Machine {
        Machine {
            intr: InterruptHandler {
                ime: if self.intr.ime == ImeState::DISABLED {
                    ImeState::ENABLING
                } else {
                    self.intr.ime
                },
                ..self.intr
            },
            ..self
        }
    }

    /// HALT: the CPU waits for an interrupt. With interrupts disabled and
    /// one pending it does not wait; instead the next opcode fetch leaves
    /// PC where it is. A pending EI takes effect.
    pub open spec fn spec_halt(self) -> Machine {
        let m = Machine { intr: self.intr.spec_commit(), ..self };
        if self.intr.ime != ImeState::ENABLED && self.intr.spec_fetch() is Some {
            Machine { halt_bug: true, ..m }
        } else {
            Machine { halt: true, ..m }
        }
    }

    /// STOP: nothing but a reset of the divider.
    pub open spec fn spec_stop(self) -> Machine {
        Machine { timer: self.timer.spec_write_div(), ..self }
    }
}

pub fn jr(gb: &mut GameBoy, taken: bool)
    requires
        old(gb).wf(),
    ensures
        final(gb)@ == old(gb)@.spec_jr(taken),
        final(gb).wf(),
        final(gb).clocked(
            old(gb),
            if taken {
                8
            } else {
                4
            },
        ),
{
    let e = gb.fetch8();
    if taken {
        gb.cpu.pc = rel_target(gb.cpu.pc, e);
        gb.advance_cycles(4);
    }
}

pub fn jp(gb: &mut GameBoy, taken: bool)
    requires
        old(gb).wf(),
    ensures
        final(gb)@ == old(gb)@.spec_jp(taken),
        final(gb).wf(),
        final(gb).clocked(
            old(gb),
            if taken {
                12
            } else {
                8
            },
        ),
{
    let addr = gb.fetch16();
    if taken {
        gb.advance_cycles(4);
        gb.cpu.pc = addr;
    }
}

pub fn jp_hl(gb: &mut GameBoy)
    ensures
        final(gb)@ == old(gb)@.spec_jp_hl(),
        final(gb).wf() == old(gb).wf(),
        final(gb).clocked(old(gb), 0),
{
    gb.cpu.pc = gb.cpu.rd_hl();
}

/// Pushes the address `ret` and sets PC to `target`.
pub fn enter(gb: &mut GameBoy, ret: u16, target: u16)
    requires
        old(gb).wf(),
    ensures
        final(gb)@ == old(gb)@.spec_enter(ret, target),
        final(gb).wf(),
        final(gb).clocked(old(gb), 12),
{
    gb.advance_cycles(4);
    gb.push16(ret);
    gb.cpu.pc = target;
}

pub fn call(gb: &mut GameBoy, taken: bool)
    requires
        old(gb).wf(),
    ensures
        final(gb)@ == old(gb)@.spec_call(taken),
        final(gb).wf(),
        final(gb).clocked(
            old(gb),
            if taken {
                20
            } else {
                8
            },
        ),
{
    let addr = gb.fetch16();
    if taken {
        let ret = gb.cpu.pc;
        enter(gb, ret, addr);
    }
}

pub fn rst(gb: &mut GameBoy, opcode: u8)
    requires
        old(gb).wf(),
    ensures
        final(gb)@ == old(gb)@.spec_rst(opcode),
        final(gb).wf(),
        final(gb).clocked(old(gb), 12),
{
    let ret = gb.cpu.pc;
    enter(gb, ret, rst_vector(opcode));
}

pub fn ret(gb: &mut GameBoy)
    requires
        old(gb).wf(),
    ensures
        final(gb)@ == old(gb)@.spec_ret(),
        final(gb).wf(),
        final(gb).clocked(old(gb), 12),
{
    gb.cpu.pc = gb.pop16();
    gb.advance_cycles(4);
}

pub fn ret_cc(gb: &mut GameBoy, taken: bool)
    requires
        old(gb).wf(),
    ensures
        final(gb)@ == old(gb)@.spec_ret_cc(taken),
        final(gb).wf(),
        final(gb).clocked(
            old(gb),
            if taken {
                16
            } else {
                4
            },
        ),
{
    gb.advance_cycles(4);
    if taken {
        ret(gb);
    }
}

pub fn reti(gb: &mut GameBoy)
    requires
        old(gb).wf(),
    ensures
        final(gb)@ == old(gb)@.spec_reti(),
        final(gb).wf(),
        final(gb).halt == old(gb).halt,
        final(gb).halt_bug == old(gb).halt_bug,
        final(gb).ahead_cycles == old(gb).ahead_cycles,
        final(gb).cycles == old(gb)@.cycles_after(12),
{
    ret(gb);
    gb.intr.enable_immediate();
}

pub fn di(gb: &mut GameBoy)
    ensures
        final(gb)@ == old(gb)@.spec_di(),
        final(gb).wf() == old(gb).wf(),
        final(gb).cycles == old(gb).cycles,
        final(gb).ahead_cycles == old(gb).ahead_cycles,
{
    gb.intr.disable();
}

pub fn ei(gb: &mut GameBoy)
    ensures
        final(gb)@ == old(gb)@.spec_ei(),
        final(gb).wf() == old(gb).wf(),
        final(gb).cycles == old(gb).cycles,
        final(gb).ahead_cycles == old(gb).ahead_cycles,
{
    gb.intr.enable();
}

pub fn halt(gb: &mut GameBoy)
    ensures
        final(gb)@ == old(gb)@.spec_halt(),
        final(gb).wf() == old(gb).wf(),
        final(gb).cycles == old(gb).cycles,
        final(gb).ahead_cycles == old(gb).ahead_cycles,
{
    match (gb.intr.current_ime(), gb.intr.fetch()) {
        (false, Some(_)) => gb.halt_bug = true,
        _ => gb.halt = true,
    }
}

pub fn nop(gb: &mut GameBoy)
    ensures
        *final(gb) == *old(gb),
{
}

pub fn stop(gb: &mut GameBoy)
    ensures
        final(gb)@ == old(gb)@.spec_stop(),
        final(gb).wf() == old(gb).wf(),
        final(gb).clocked(old(gb), 0),
{
    gb.timer.write_div();
}

/// The eleven opcodes that stand for no instruction do nothing.
pub fn undefined(gb: &mut GameBoy)
    ensures
        *final(gb) == *old(gb),
{
}

pub fn rlca(gb: &mut GameBoy)
    ensures
        final(gb)@ == old(gb)@.with_cpu(old(gb).cpu.spec_rotate_a(Shift::RLC)),
        final(gb).wf() == old(gb).wf(),
        final(gb).clocked(old(gb), 0),
{
    gb.cpu.rotate_a(Shift::RLC);
}

pub fn rrca(gb: &mut GameBoy)
    ensures
        final(gb)@ == old(gb)@.with_cpu(old(gb).cpu.spec_rotate_a(Shift::RRC)),
        final(gb).wf() == old(gb).wf(),
        final(gb).clocked(old(gb), 0),
{
    gb.cpu.rotate_a(Shift::RRC);
}

pub fn rla(gb: &mut GameBoy)
    ensures
        final(gb)@ == old(gb)@.with_cpu(old(gb).cpu.spec_rotate_a(Shift::RL)),
        final(gb).wf() == old(gb).wf(),
        final(gb).clocked(old(gb), 0),
{
    gb.cpu.rotate_a(Shift::RL);
}

pub fn rra(gb: &mut GameBoy)
    ensures
        final(gb)@ == old(gb)@.with_cpu(old(gb).cpu.spec_rotate_a(Shift::RR)),
        final(gb).wf() == old(gb).wf(),
        final(gb).clocked(old(gb), 0),
{
    gb.cpu.rotate_a(Shift::RR);
}

pub fn daa(gb: &mut GameBoy)
    ensures
        final(gb)@ == old(gb)@.with_cpu(old(gb).cpu.spec_daa()),
        final(gb).wf() == old(gb).wf(),
        final(gb).clocked(old(gb), 0),
{
    gb.cpu.daa();
}

pub fn cpl(gb: &mut GameBoy)
    ensures
        final(gb)@ == old(gb)@.with_cpu(old(gb).cpu.spec_cpl()),
        final(gb).wf() == old(gb).wf(),
        final(gb).clocked(old(gb), 0),
{
    gb.cpu.cpl();
}

pub fn scf(gb: &mut GameBoy)
    ensures
        final(gb)@ == old(gb)@.with_cpu(old(gb).cpu.spec_scf()),
        final(gb).wf() == old(gb).wf(),
        final(gb).clocked(old(gb), 0),
{
    gb.cpu.scf();
}

pub fn ccf(gb: &mut GameBoy)
    ensures
        final(gb)@ == old(gb)@.with_cpu(old(gb).cpu.spec_ccf()),
        final(gb).wf() == old(gb).wf(),
        final(gb).clocked(old(gb), 0),
{
    gb.cpu.ccf();
}

} // verus!
