//! How instructions reach their operands: immediates after the opcode,
//! registers by their number in the opcode, the byte at (HL), and the
//! stack.

use vstd::prelude::*;
use crate::cpu::operand::{dec16, inc16};
use crate::cpu::{high, low, pair, Cpu};
use crate::gameboy::{GameBoy, Machine};

verus! {

impl Machine {
    pub open spec fn with_cpu(self, cpu: Cpu) -> Machine {
        Machine { cpu, ..self }
    }

    /// The machine one machine cycle later, with nothing else done.
    pub open spec fn tick(self) -> Machine {
        self.spec_advance(4)
    }

    /// The byte at PC.
    pub open spec fn imm8(&self) -> u8 {
        self.read(self.cpu.pc)
    }

    /// The machine after the byte at PC was fetched: a memory cycle has
    /// passed and PC has moved on.
    pub open spec fn after_imm8(self) -> Machine {
        self.tick().with_cpu(Cpu { pc: inc16(self.cpu.pc), ..self.cpu })
    }

    /// The two bytes at PC as a 16-bit value, low byte first.
    pub open spec fn imm16(&self) -> u16 {
        pair(self.after_imm8().imm8(), self.imm8())
    }

    pub open spec fn after_imm16(self) -> Machine {
        self.after_imm8().after_imm8()
    }

    /// The operand with number `i`: a register, or for 6 the byte at (HL).
    pub open spec fn operand(&self, i: u8) -> u8 {
        if i == 6 {
            self.read(self.cpu.spec_hl())
        } else {
            self.cpu.spec_reg8(i)
        }
    }

    /// The machine after the operand was read; the byte at (HL) takes a
    /// memory cycle.
    pub open spec fn after_operand(self, i: u8) -> Machine {
        if i == 6 {
            self.tick()
        } else {
            self
        }
    }

    /// The machine after `v` was stored to the operand with number `i`.
    pub open spec fn store(self, i: u8, v: u8) -> Machine {
        if i == 6 {
            self.spec_cycle_write(self.cpu.spec_hl(), v)
        } else {
            self.with_cpu(self.cpu.spec_with_reg8(i, v))
        }
    }

    /// The machine after a 16-bit value was pushed: the upper byte goes to
    /// SP - 1, then the lower byte to SP - 2, each in a memory cycle.
    pub open spec fn push16(self, v: u16) -> Machine {
        let sp1 = dec16(self.cpu.sp);
        let sp2 = dec16(sp1);
        self.with_cpu(Cpu { sp: sp1, ..self.cpu }).spec_cycle_write(sp1, high(v)).with_cpu(
            Cpu { sp: sp2, ..self.cpu },
        ).spec_cycle_write(sp2, low(v))
    }

    /// The 16-bit value on top of the stack: the lower byte at SP, the
    /// upper byte at SP + 1, read one memory cycle later.
    pub open spec fn top16(&self) -> u16 {
        pair(self.after_pop8().read(inc16(self.cpu.sp)), self.read(self.cpu.sp))
    }

    /// The machine after one byte was popped.
    pub open spec fn after_pop8(self) -> Machine {
        self.tick().with_cpu(Cpu { sp: inc16(self.cpu.sp), ..self.cpu })
    }

    /// The machine after a 16-bit value was popped.
    pub open spec fn after_pop16(self) -> Machine {
        self.after_pop8().after_pop8()
    }
}

impl GameBoy {
    /// Fetches the byte at PC.
    pub fn fetch8(&mut self) -> (v: u8)
        requires
            old(self).wf(),
        ensures
            v == old(self)@.imm8(),
            final(self)@ == old(self)@.after_imm8(),
            final(self).wf(),
            final(self).cpu == (Cpu { pc: inc16(old(self).cpu.pc), ..old(self).cpu }),
            final(self).clocked(old(self), 4),
    {
        let v = self.cycle_read(self.cpu.pc);
        self.cpu.pc = self.cpu.pc.wrapping_add(1);
        v
    }

    /// Fetches the two bytes at PC as a 16-bit value, low byte first.
    pub fn fetch16(&mut self) -> (v: u16)
        requires
            old(self).wf(),
        ensures
            v == old(self)@.imm16(),
            final(self)@ == old(self)@.after_imm16(),
            final(self).wf(),
            final(self).cpu == (Cpu { pc: inc16(inc16(old(self).cpu.pc)), ..old(self).cpu }),
            final(self).clocked(old(self), 8),
    {
        let lsb = self.fetch8();
        let ghost mid = self@;
        assert(mid == old(self)@.after_imm8());
        let msb = self.fetch8();
        assert(msb == mid.imm8());
        assert(self@ == mid.after_imm8());
        (msb as u16) * 256 + lsb as u16
    }

    /// Reads the operand with number `i`.
    pub fn get_operand(&mut self, i: u8) -> (v: u8)
        requires
            old(self).wf(),
        ensures
            v == old(self)@.operand(i),
            final(self)@ == old(self)@.after_operand(i),
            final(self).wf(),
            final(self).cpu == old(self).cpu,
            final(self).clocked(
                old(self),
                if i == 6 {
                    4
                } else {
                    0
                },
            ),
    {
        if i == 6 {
            let addr = self.cpu.rd_hl();
            self.cycle_read(addr)
        } else {
            self.cpu.reg8(i)
        }
    }

    /// Stores a byte to the operand with number `i`.
    pub fn set_operand(&mut self, i: u8, v: u8)
        requires
            old(self).wf(),
        ensures
            final(self)@ == old(self)@.store(i, v),
            final(self).wf(),
            final(self).cpu == (if i == 6 {
                old(self).cpu
            } else {
                old(self).cpu.spec_with_reg8(i, v)
            }),
            final(self).clocked(
                old(self),
                if i == 6 {
                    4
                } else {
                    0
                },
            ),
    {
        if i == 6 {
            let addr = self.cpu.rd_hl();
            self.cycle_write(addr, v);
        } else {
            self.cpu.set_reg8(i, v);
        }
    }

    /// Pushes a 16-bit value.
    pub fn push16(&mut self, v: u16)
        requires
            old(self).wf(),
        ensures
            final(self)@ == old(self)@.push16(v),
            final(self).wf(),
            final(self).cpu == (Cpu { sp: dec16(dec16(old(self).cpu.sp)), ..old(self).cpu }),
            final(self).clocked(old(self), 8),
    {
        self.cpu.sp = self.cpu.sp.wrapping_sub(1);
        let sp1 = self.cpu.sp;
        self.cycle_write(sp1, (v / 256) as u8);
        self.cpu.sp = self.cpu.sp.wrapping_sub(1);
        let sp2 = self.cpu.sp;
        self.cycle_write(sp2, (v % 256) as u8);
    }

    /// Pops a 16-bit value.
    pub fn pop16(&mut self) -> (v: u16)
        requires
            old(self).wf(),
        ensures
            v == old(self)@.top16(),
            final(self)@ == old(self)@.after_pop16(),
            final(self).wf(),
            final(self).cpu == (Cpu { sp: inc16(inc16(old(self).cpu.sp)), ..old(self).cpu }),
            final(self).clocked(old(self), 8),
    {
        let lo = self.cycle_read(self.cpu.sp);
        self.cpu.sp = self.cpu.sp.wrapping_add(1);
        let ghost mid = self@;
        assert(mid == old(self)@.after_pop8());
        let hi = self.cycle_read(self.cpu.sp);
        self.cpu.sp = self.cpu.sp.wrapping_add(1);
        assert(self@ == mid.after_pop8());
        (hi as u16) * 256 + lo as u16
    }
}

} // verus!
