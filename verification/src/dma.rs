//! What holds of the OAM DMA engine and of the bus while it runs.

use vstd::prelude::*;
use crate::gameboy::Machine;
use crate::mem::MemoryUnit;
use crate::ppu::laws::lemma_cycle_keeps_memory;
use crate::ppu::{DmaStatus, Ppu};

verus! {

/// While the DMA engine occupies a bus, a read of the CPU on that bus gives
/// the byte that the engine reads, whatever the address holds, and a write
/// on that bus is dropped. High RAM is on no such bus: reads and writes of
/// 0xFF80..=0xFFFE reach it whatever the engine does.
#[verifier::rlimit(40)]
pub proof fn lemma_dma_conflict(m: Machine, addr: u16, val: u8)
    ensures
        m.dma_busy() && m.on_dma_bus(addr) ==> m.read(addr) == m.dma_byte() && m.write(addr, val)
            == m,
        0xFF80 <= addr <= 0xFFFE ==> m.read(addr) == m.hram.peek(addr) && m.write(addr, val) == (
        Machine { hram: m.hram.poke(addr, val), ..m }),
        !m.dma_busy() ==> m.read(addr) == m.pure_read(addr) && m.write(addr, val) == m.pure_write(
            addr,
            val,
        ),
{
    reveal(Machine::pure_read);
    reveal(Machine::io_read);
    reveal(Machine::pure_write);
    reveal(Machine::io_write);
}

impl Machine {
    /// Whether the page is one whose bytes the PPU cannot hide from the DMA
    /// engine: a page of the cartridge or of work RAM.
    pub open spec fn steady_page(page: u8) -> bool {
        page < 0x80 || 0xA0 <= page <= 0xDF
    }

    /// Whether the machine has the cartridge and the work RAM of `before`.
    pub open spec fn same_source(&self, before: &Machine) -> bool {
        self.cart == before.cart && self.wram0 == before.wram0 && self.wramx == before.wramx
    }

    /// Where a transfer from `page` stands `t` T-cycles after it was
    /// started on the machine `start`: the engine waits one machine cycle,
    /// reads the first byte in the next, and from then on writes a byte to
    /// OAM and reads the next every four T-cycles, until after 648 T-cycles
    /// all 160 bytes of the page are in OAM.
    pub open spec fn transfer_at(&self, start: &Machine, page: u8, t: int) -> bool {
        &&& self.same_source(start)
        &&& self.ppu.dma == page
        &&& if t < 4 {
            self.ppu.oam_dma == DmaStatus::STARTING && self.ppu.dma_cycles == t
        } else if t < 8 {
            self.ppu.oam_dma == DmaStatus::FIRSTREAD && self.ppu.dma_cycles == t
        } else if t < 648 {
            &&& self.ppu.oam_dma == DmaStatus::ACTIVE(
                start.pure_read((page * 256 + (t - 8) / 4) as u16),
            )
            &&& self.ppu.dma_cycles == t - 8
            &&& forall|i: int|
                0 <= i < (t - 8) / 4 ==> self.ppu.oam.bytes[i] == start.pure_read(
                    (page * 256 + i) as u16,
                )
        } else {
            &&& self.ppu.oam_dma == DmaStatus::INACTIVE
            &&& self.ppu.dma_cycles == 0
            &&& forall|i: int|
                0 <= i < 160 ==> self.ppu.oam.bytes[i] == start.pure_read((page * 256 + i) as u16)
        }
    }
}

/// What the cartridge and work RAM hold at an address does not depend on
/// the rest of the machine.
proof fn lemma_steady_read(a: Machine, b: Machine, addr: u16)
    requires
        a.same_source(&b),
        addr <= 0x7FFF || 0xA000 <= addr <= 0xDFFF,
    ensures
        a.pure_read(addr) == b.pure_read(addr),
{
    reveal(Machine::pure_read);
}

/// One T-cycle of the DMA engine takes a transfer one T-cycle on.
#[verifier::rlimit(40)]
proof fn lemma_transfer_dma(m: Machine, start: Machine, page: u8, t: int)
    requires
        Machine::steady_page(page),
        0 <= t < 648,
        m.transfer_at(&start, page, t),
    ensures
        m.spec_cycle_dma().transfer_at(&start, page, t + 1),
{
    reveal(Machine::spec_cycle_dma);
    broadcast use vstd::array::group_array_axioms;

    let d = m.spec_cycle_dma();
    assert(d.same_source(&start));
    assert(d.ppu.dma == page);
    if t >= 7 && (t + 1) % 4 == 0 {
        let j = (t + 1 - 8) / 4;
        if t == 7 {
            let z = Machine { ppu: Ppu { dma_cycles: 0, ..m.ppu }, ..m };
            lemma_steady_read(z, start, z.dma_source());
        } else {
            let at = (j - 1) as u16;
            let byte = start.pure_read((page * 256 + (j - 1)) as u16);
            let mm = Machine { ppu: Ppu { dma_cycles: (t - 8 + 1) as u16, ..m.ppu }, ..m };
            let w = Machine { ppu: Ppu { oam: mm.ppu.oam.poke(at, byte), ..mm.ppu }, ..mm };
            assert(w.ppu.oam.bytes[j - 1] == byte);
            assert forall|i: int| 0 <= i < j implies w.ppu.oam.bytes[i] == start.pure_read(
                (page * 256 + i) as u16,
            ) by {
                if i < j - 1 {
                    assert(w.ppu.oam.bytes[i] == m.ppu.oam.bytes[i]);
                }
            }
            if j < 160 {
                lemma_steady_read(w, start, w.dma_source());
            }
        }
    }
}

/// One T-cycle of the DMA engine and the PPU takes a transfer one T-cycle
/// on.
proof fn lemma_transfer_tick(m: Machine, start: Machine, page: u8, t: int)
    requires
        Machine::steady_page(page),
        0 <= t < 648,
        m.transfer_at(&start, page, t),
    ensures
        m.spec_tick_ppu().transfer_at(&start, page, t + 1),
{
    lemma_transfer_dma(m, start, page, t);
    lemma_cycle_keeps_memory(m.spec_cycle_dma().ppu);
}

/// `n` T-cycles take a transfer `n` T-cycles on.
proof fn lemma_transfer_run(m: Machine, start: Machine, page: u8, t: int, n: nat)
    requires
        Machine::steady_page(page),
        0 <= t,
        t + n <= 648,
        m.transfer_at(&start, page, t),
    ensures
        m.spec_run_ppu(n).transfer_at(&start, page, t + n),
    decreases n,
{
    if n > 0 {
        lemma_transfer_tick(m, start, page, t);
        lemma_transfer_run(m.spec_tick_ppu(), start, page, t + 1, (n - 1) as nat);
    }
}

/// A transfer from a page of the cartridge or of work RAM, started while
/// the DMA engine rests by a write of the page to the DMA register, has
/// after 648 T-cycles copied the 160 bytes of the page to OAM, and the
/// engine rests again: two machine cycles to start and four T-cycles for
/// each byte.
#[verifier::rlimit(40)]
pub proof fn lemma_oam_dma(m: Machine, page: u8)
    requires
        Machine::steady_page(page),
        m.ppu.oam_dma == DmaStatus::INACTIVE,
        m.ppu.dma_cycles == 0,
    ensures
        m.write(0xFF46, page) == (Machine { ppu: m.ppu.spec_write_dma(page), ..m }),
        ({
            let done = m.write(0xFF46, page).spec_run_ppu(648);
            &&& done.ppu.oam_dma == DmaStatus::INACTIVE
            &&& forall|i: int|
                0 <= i < 160 ==> done.ppu.oam.bytes[i] == m.pure_read((page * 256 + i) as u16)
        }),
{
    reveal(Machine::pure_write);
    reveal(Machine::io_write);
    let started = m.write(0xFF46, page);
    assert(started == Machine { ppu: m.ppu.spec_write_dma(page), ..m });
    assert(started.transfer_at(&m, page, 0));
    lemma_transfer_run(started, m, page, 0, 648);
}

} // verus!
