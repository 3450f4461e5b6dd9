//! One step of the CPU: a pending EI takes effect, an interrupt is
//! serviced if one is due, and one instruction is fetched and executed.

use vstd::prelude::*;
use crate::cpu::operand::inc16;
use crate::cpu::Cpu;
use crate::exec::control::spec_cond_of;
use crate::exec::{execute, instr_cycles};
use crate::gameboy::{GameBoy, Machine};
use crate::intr::{ImeState, Interrupt, InterruptHandler};

verus! {

/// The T-cycles that the service of an interrupt takes: two idle machine
/// cycles, two to push PC, and one to load the vector.
pub const SERVICE_CYCLES: u64 = 20;

/// The T-cycles of the guest clock in a second.
pub const CLOCK_RATE: u64 = 4194304;

impl Machine {
    /// The service of an interrupt: after two idle machine cycles PC is
    /// pushed, upper byte first; PC becomes the source's vector, which
    /// takes one more machine cycle; the source's flag in IF is cleared and
    /// interrupts are disabled.
    pub open spec fn spec_service(self, intr: Interrupt) -> Machine {
        let pushed = self.tick().tick().push16(self.cpu.pc);
        let entered = pushed.with_cpu(Cpu { pc: intr.spec_vector(), ..pushed.cpu }).tick();
        Machine {
            intr: InterruptHandler { ime: ImeState::DISABLED, ..entered.intr.spec_reset(intr) },
            ..entered
        }
    }

    /// Whether the step finds the CPU halted with nothing to wake it.
    pub open spec fn sleeps(&self) -> bool {
        self.halt && self.intr.spec_fetch() is None
    }

    /// Whether the step services an interrupt: interrupts were enabled
    /// before the step, and a source is requested and enabled.
    pub open spec fn services(&self) -> bool {
        self.intr.ime == ImeState::ENABLED && self.intr.spec_fetch() is Some
    }

    /// The machine at the opcode fetch of a step in which the CPU does not
    /// sleep: awake, a pending EI committed, the interrupt serviced if one
    /// is due.
    pub open spec fn spec_before_fetch(self) -> Machine {
        let awake = Machine { halt: false, intr: self.intr.spec_commit(), ..self };
        if self.services() {
            awake.spec_service(self.intr.spec_fetch()->Some_0)
        } else {
            awake
        }
    }

    /// The machine after the opcode fetch: a memory cycle has passed and PC
    /// has moved on, unless the HALT bug holds it, which it does once.
    pub open spec fn spec_after_fetch(self) -> Machine {
        if self.halt_bug {
            Machine { halt_bug: false, ..self.tick() }
        } else {
            self.tick().with_cpu(Cpu { pc: inc16(self.cpu.pc), ..self.cpu })
        }
    }

    /// The machine after one step. A halted CPU that nothing wakes lets one
    /// machine cycle pass. Otherwise a due interrupt is serviced, and the
    /// instruction at PC is fetched and executed.
    pub open spec fn spec_step(self) -> Machine {
        if self.sleeps() {
            Machine { intr: self.intr.spec_commit(), ..self }.tick()
        } else {
            self.spec_before_fetch().spec_after_fetch().spec_execute(
                self.spec_before_fetch().imm8(),
            )
        }
    }

    /// The T-cycles that one step takes: four while the CPU sleeps; else
    /// what the reference table gives for the instruction, and twenty more
    /// if an interrupt is serviced first.
    pub open spec fn spec_step_cycles(&self) -> int {
        if self.sleeps() {
            4
        } else {
            (if self.services() {
                20int
            } else {
                0int
            }) + instr_cycles(
                self.spec_before_fetch().imm8(),
                self.spec_before_fetch().spec_after_fetch().cpu.spec_cond(
                    spec_cond_of(self.spec_before_fetch().imm8()),
                ),
                self.spec_before_fetch().spec_after_fetch().imm8(),
            )
        }
    }
}

/// Every instruction takes at least 4 and at most 24 T-cycles.
pub proof fn lemma_instr_cycles_range(opcode: u8, taken: bool, cb: u8)
    ensures
        4 <= instr_cycles(opcode, taken, cb) <= 24,
{
    reveal(instr_cycles);
}

/// Services an interrupt.
#[verifier::rlimit(40)]
pub fn service(gb: &mut GameBoy, intr: Interrupt)
    requires
        old(gb).wf(),
    ensures
        final(gb)@ == old(gb)@.spec_service(intr),
        final(gb).wf(),
        final(gb).halt == old(gb).halt,
        final(gb).halt_bug == old(gb).halt_bug,
        final(gb).ahead_cycles == old(gb).ahead_cycles,
        final(gb).cycles == old(gb)@.cycles_after(20),
{
    gb.advance_cycles(4);
    gb.advance_cycles(4);
    let pc = gb.cpu.pc;
    gb.push16(pc);
    gb.cpu.pc = intr.vector();
    gb.advance_cycles(4);
    gb.intr.reset(intr);
    gb.intr.disable();
}

/// Fetches the opcode at PC.
pub fn fetch_opcode(gb: &mut GameBoy) -> (opcode: u8)
    requires
        old(gb).wf(),
    ensures
        opcode == old(gb)@.imm8(),
        final(gb)@ == old(gb)@.spec_after_fetch(),
        final(gb).wf(),
        final(gb).halt == old(gb).halt,
        final(gb).ahead_cycles == old(gb).ahead_cycles,
        final(gb).cycles == old(gb)@.cycles_after(4),
{
    let opcode = gb.cycle_read(gb.cpu.pc);
    if gb.halt_bug {
        gb.halt_bug = false;
    } else {
        gb.cpu.pc = gb.cpu.pc.wrapping_add(1);
    }
    opcode
}

/// Brings the CPU to its opcode fetch: it wakes, a pending EI takes
/// effect, and an interrupt is serviced if one is due.
#[verifier::rlimit(40)]
pub fn prepare(gb: &mut GameBoy)
    requires
        old(gb).wf(),
    ensures
        final(gb)@ == old(gb)@.spec_before_fetch(),
        final(gb).wf(),
        final(gb).halt_bug == old(gb).halt_bug,
        final(gb).ahead_cycles == old(gb).ahead_cycles,
        final(gb).cycles == old(gb)@.cycles_after(
            if old(gb)@.services() {
                20
            } else {
                0
            },
        ),
{
    let enabled = gb.intr.current_ime();
    let pending = gb.intr.fetch();
    gb.halt = false;
    if enabled {
        match pending {
            Some(intr) => service(gb, intr),
            None => {},
        }
    }
}

impl GameBoy {
    /// Runs the CPU for one step: one whole instruction with all the
    /// T-cycles it takes, after the service of an interrupt if one is due.
    #[verifier::rlimit(40)]
    pub fn cpu_step(&mut self)
        requires
            old(self).wf(),
        ensures
            final(self)@ == old(self)@.spec_step(),
            final(self).wf(),
            final(self).cycles == old(self)@.cycles_after(old(self)@.spec_step_cycles()),
            final(self).ahead_cycles == old(self).ahead_cycles,
    {
        if self.halt && self.intr.fetch().is_none() {
            let _ = self.intr.current_ime();
            self.advance_cycles(4);
            return ;
        }
        let ghost start = self@;
        prepare(self);
        let ghost ready = self@;
        let opcode = fetch_opcode(self);
        let ghost fetched = self@;
        execute(self, opcode);
        assert(ready == start.spec_before_fetch());
        assert(fetched == ready.spec_after_fetch());
        assert(opcode == ready.imm8());
        assert(self@ == fetched.spec_execute(opcode));
        assert(start.spec_step_cycles() == (if start.services() {
            20int
        } else {
            0int
        }) + 4 + fetched.spec_execute_cycles(opcode));
    }
}

/// A step takes at least 4 and at most 44 T-cycles.
pub proof fn lemma_step_cycles_range(m: Machine)
    ensures
        4 <= m.spec_step_cycles() <= 44,
{
    if !m.sleeps() {
        lemma_instr_cycles_range(
            m.spec_before_fetch().imm8(),
            m.spec_before_fetch().spec_after_fetch().cpu.spec_cond(
                spec_cond_of(m.spec_before_fetch().imm8()),
            ),
            m.spec_before_fetch().spec_after_fetch().imm8(),
        );
    }
}

impl Machine {
    /// The T-cycles that a time slice of `time` milliseconds is to run: the
    /// T-cycles of the guest clock in that time, less what the slice before
    /// ran beyond its own budget.
    pub open spec fn budget(&self, time: u64) -> int {
        let total = (time * 4194304) / 1000;
        if total >= self.ahead_cycles {
            total - self.ahead_cycles
        } else {
            0
        }
    }

    /// The machine after steps were run until more than `budget` T-cycles
    /// have passed, `ran` having passed already; the excess is noted for
    /// the next slice.
    pub open spec fn spec_run_for(self, ran: int, budget: int) -> Machine
        decreases budget - ran + 44,
    {
        if ran > budget {
            Machine { ahead_cycles: (ran - budget) as u64, ..self }
        } else {
            proof {
                lemma_step_cycles_range(self);
            }
            self.spec_step().spec_run_for(ran + self.spec_step_cycles(), budget)
        }
    }

    /// The machine after a time slice of `time` milliseconds.
    pub open spec fn spec_step_ms(self, time: u64) -> Machine {
        self.spec_run_for(0, self.budget(time))
    }
}

impl GameBoy {
    /// Runs the machine for a time slice of `time` milliseconds of the
    /// guest clock: whole instructions, until the slice's budget of
    /// T-cycles is used up. What the last instruction runs beyond the
    /// budget comes off the next slice.
    #[verifier::rlimit(40)]
    pub fn step_ms(&mut self, time: u64)
        requires
            old(self).wf(),
            time < 0x400_0000_0000,
        ensures
            final(self)@ == old(self)@.spec_step_ms(time),
            final(self).wf(),
    {
        let total = (time * CLOCK_RATE) / 1000;
        let pending = if total >= self.ahead_cycles {
            total - self.ahead_cycles
        } else {
            0
        };
        let mut ran: u64 = 0;
        while ran <= pending
            invariant
                self.wf(),
                pending < 0x1000_0000_0000_0000,
                ran <= pending + 44,
                self@.spec_run_for(ran as int, pending as int) == old(self)@.spec_run_for(
                    0,
                    pending as int,
                ),
            decreases pending + 44 - ran,
        {
            let before = self.cycles;
            proof {
                lemma_step_cycles_range(self@);
            }
            self.cpu_step();
            ran = ran + self.cycles.wrapping_sub(before);
        }
        self.ahead_cycles = ran - pending;
    }
}

} // verus!
