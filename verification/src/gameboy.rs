//! The whole machine: the components, the bus that decodes addresses to
//! them, and the clock that every memory access advances.

use vstd::prelude::*;
use crate::cart::model::{CartModel, CartridgeTrait};
use crate::cart::CartridgeEnum;
use crate::cpu::Cpu;
use crate::intr::{ImeState, Interrupt, InterruptHandler};
use crate::joypad::{Button, Joypad};
use crate::mem::{HRam, MemoryUnit, Unused, WRam0, WRamX};
use crate::ppu::{DmaStatus, Ppu};
use crate::serial::SerialLink;
use crate::timer::{TimaState, Timer};

verus! {

pub struct GameBoy {
    pub cpu: Cpu,
    /// The CPU waits for an interrupt.
    pub halt: bool,
    /// The next opcode fetch does not advance PC.
    pub halt_bug: bool,
    pub intr: InterruptHandler,
    pub cart: CartridgeEnum,
    pub wram0: WRam0,
    pub wramx: WRamX,
    pub unused: Unused,
    pub hram: HRam,
    pub ppu: Ppu,
    pub joypad: Joypad,
    pub serial: SerialLink,
    pub timer: Timer,
    /// T-cycles run so far, counted in 64 bits.
    pub cycles: u64,
    /// T-cycles that the last time slice ran beyond its budget.
    pub ahead_cycles: u64,
}

/// The machine as a value. It is the `GameBoy` with the cartridge taken as
/// a value too.
pub struct Machine {
    pub cpu: Cpu,
    pub halt: bool,
    pub halt_bug: bool,
    pub intr: InterruptHandler,
    pub cart: CartModel,
    pub wram0: WRam0,
    pub wramx: WRamX,
    pub hram: HRam,
    pub ppu: Ppu,
    pub joypad: Joypad,
    pub serial: SerialLink,
    pub timer: Timer,
    pub cycles: u64,
    pub ahead_cycles: u64,
}

impl View for GameBoy {
    type V = Machine;

    open spec fn view(&self) -> Machine {
        Machine {
            cpu: self.cpu,
            halt: self.halt,
            halt_bug: self.halt_bug,
            intr: self.intr,
            cart: self.cart.model(),
            wram0: self.wram0,
            wramx: self.wramx,
            hram: self.hram,
            ppu: self.ppu,
            joypad: self.joypad,
            serial: self.serial,
            timer: self.timer,
            cycles: self.cycles,
            ahead_cycles: self.ahead_cycles,
        }
    }
}

impl Machine {
    pub open spec fn wf(&self) -> bool {
        self.ppu.wf()
    }

    /// What a read of an I/O register gives. Registers that do not exist,
    /// the sound registers among them, read as 0xFF.
    #[verifier::opaque]
    pub open spec fn io_read(&self, addr: u16) -> u8 {
        match addr {
            0xFF00 => self.joypad.joyp | 0xC0,
            0xFF01 => self.serial.sb,
            0xFF02 => self.serial.sc | 0x7E,
            0xFF04 => (self.timer.div / 256) as u8,
            0xFF05 => if self.timer.tima_state is LOADING {
                self.timer.tma
            } else {
                self.timer.tima
            },
            0xFF06 => self.timer.tma,
            0xFF07 => self.timer.tac | 0xF8,
            0xFF0F => self.intr.iflags | 0xE0,
            0xFF40 => self.ppu.lcdc,
            0xFF41 => self.ppu.stat | 0x80,
            0xFF42 => self.ppu.scy,
            0xFF43 => self.ppu.scx,
            0xFF44 => self.ppu.ly,
            0xFF45 => self.ppu.lyc,
            0xFF46 => self.ppu.dma,
            0xFF47 => self.ppu.bgp,
            0xFF48 => self.ppu.obp0,
            0xFF49 => self.ppu.obp1,
            0xFF4A => self.ppu.wy,
            0xFF4B => self.ppu.wx,
            0xFFFF => self.intr.ienable,
            _ => if 0xFF80 <= addr <= 0xFFFE {
                self.hram.peek(addr)
            } else {
                0xFF
            },
        }
    }

    /// What the address decodes to, with no regard to the DMA engine.
    #[verifier::opaque]
    pub open spec fn pure_read(&self, addr: u16) -> u8 {
        if addr <= 0x3FFF {
            self.cart.rom0_read(addr)
        } else if addr <= 0x7FFF {
            self.cart.romx_read(addr)
        } else if addr <= 0x9FFF {
            self.ppu.spec_vram_read(addr)
        } else if addr <= 0xBFFF {
            self.cart.sram_read(addr)
        } else if addr <= 0xCFFF {
            self.wram0.peek(addr)
        } else if addr <= 0xDFFF {
            self.wramx.peek(addr)
        } else if addr <= 0xEFFF {
            self.wram0.peek(addr)
        } else if addr <= 0xFDFF {
            self.wramx.peek(addr)
        } else if addr <= 0xFE9F {
            self.ppu.spec_oam_read(addr)
        } else if addr <= 0xFEFF {
            0
        } else {
            self.io_read(addr)
        }
    }

    /// The machine after a write to an I/O register. Writes to registers
    /// that do not exist are dropped.
    #[verifier::opaque]
    pub open spec fn io_write(self, addr: u16, val: u8) -> Machine {
        match addr {
            0xFF00 => Machine { joypad: Joypad { joyp: val & 0x30, ..self.joypad }, ..self },
            0xFF01 => Machine { serial: SerialLink { sb: val, ..self.serial }, ..self },
            0xFF02 => Machine { serial: SerialLink { sc: val, ..self.serial }, ..self },
            0xFF04 => Machine { timer: self.timer.spec_write_div(), ..self },
            0xFF05 => Machine { timer: self.timer.spec_write_tima(val), ..self },
            0xFF06 => Machine { timer: Timer { tma: val, ..self.timer }, ..self },
            0xFF07 => Machine { timer: self.timer.spec_write_tac(val), ..self },
            0xFF0F => Machine { intr: InterruptHandler { iflags: val, ..self.intr }, ..self },
            0xFF40 => Machine { ppu: self.ppu.spec_write_lcdc(val), ..self },
            0xFF41 => Machine { ppu: self.ppu.spec_write_stat(val), ..self },
            0xFF42 => Machine { ppu: Ppu { scy: val, ..self.ppu }, ..self },
            0xFF43 => Machine { ppu: Ppu { scx: val, ..self.ppu }, ..self },
            0xFF45 => Machine { ppu: Ppu { lyc: val, ..self.ppu }, ..self },
            0xFF46 => Machine { ppu: self.ppu.spec_write_dma(val), ..self },
            0xFF47 => Machine { ppu: Ppu { bgp: val, ..self.ppu }, ..self },
            0xFF48 => Machine { ppu: Ppu { obp0: val & 0xFC, ..self.ppu }, ..self },
            0xFF49 => Machine { ppu: Ppu { obp1: val & 0xFC, ..self.ppu }, ..self },
            0xFF4A => Machine { ppu: Ppu { wy: val, ..self.ppu }, ..self },
            0xFF4B => Machine { ppu: Ppu { wx: val, ..self.ppu }, ..self },
            0xFFFF => Machine { intr: InterruptHandler { ienable: val, ..self.intr }, ..self },
            _ => if 0xFF80 <= addr <= 0xFFFE {
                Machine { hram: self.hram.poke(addr, val), ..self }
            } else {
                self
            },
        }
    }

    /// The machine after a write that the DMA engine does not interfere
    /// with.
    #[verifier::opaque]
    pub open spec fn pure_write(self, addr: u16, val: u8) -> Machine {
        if addr <= 0x3FFF {
            Machine { cart: self.cart.rom0_write(addr, val), ..self }
        } else if addr <= 0x7FFF {
            Machine { cart: self.cart.romx_write(addr, val), ..self }
        } else if addr <= 0x9FFF {
            Machine { ppu: self.ppu.spec_vram_write(addr, val), ..self }
        } else if addr <= 0xBFFF {
            Machine { cart: self.cart.sram_write(addr, val), ..self }
        } else if addr <= 0xCFFF {
            Machine { wram0: self.wram0.poke(addr, val), ..self }
        } else if addr <= 0xDFFF {
            Machine { wramx: self.wramx.poke(addr, val), ..self }
        } else if addr <= 0xEFFF {
            Machine { wram0: self.wram0.poke(addr, val), ..self }
        } else if addr <= 0xFDFF {
            Machine { wramx: self.wramx.poke(addr, val), ..self }
        } else if addr <= 0xFE9F {
            Machine { ppu: self.ppu.spec_oam_write(addr, val), ..self }
        } else if addr <= 0xFEFF {
            self
        } else {
            self.io_write(addr, val)
        }
    }

    /// The address that the DMA engine reads at: the source page in the
    /// DMA register, pages from 0xE0 on standing for the page 0x20 below,
    /// plus the number of bytes copied so far.
    pub open spec fn dma_source(&self) -> u16 {
        let at = self.ppu.dma * 256 + self.ppu.dma_cycles / 4;
        if self.ppu.dma <= 0xDF {
            (at % 0x10000) as u16
        } else {
            ((at - 0x2000) % 0x10000) as u16
        }
    }

    /// The byte that the DMA engine reads.
    pub open spec fn dma_byte(&self) -> u8 {
        self.pure_read(self.dma_source())
    }

    /// Whether the DMA engine occupies a bus.
    pub open spec fn dma_busy(&self) -> bool {
        self.ppu.oam_dma is ACTIVE || self.ppu.oam_dma == DmaStatus::FIRSTREAD || self.ppu.oam_dma
            == DmaStatus::RESTARTFIRSTREAD || self.ppu.oam_dma is RESTARTING
    }

    /// Whether an address lies on the bus that the DMA engine reads from:
    /// the VRAM bus for the source pages 0x80..=0x9F, else the bus of ROM,
    /// external RAM and work RAM.
    pub open spec fn on_dma_bus(&self, addr: u16) -> bool {
        if 0x80 <= self.ppu.dma <= 0x9F {
            0x8000 <= addr <= 0x9FFF
        } else {
            addr <= 0x7FFF || 0xA000 <= addr <= 0xDFFF
        }
    }

    /// What the CPU gets instead of the addressed byte while the DMA engine
    /// occupies the bus of the address: the byte that the engine reads.
    pub open spec fn dma_conflict(&self, addr: u16) -> Option<u8> {
        if self.dma_busy() && self.on_dma_bus(addr) {
            Some(self.dma_byte())
        } else {
            None
        }
    }

    /// What the CPU reads at an address.
    pub open spec fn read(&self, addr: u16) -> u8 {
        match self.dma_conflict(addr) {
            Some(byte) => byte,
            None => self.pure_read(addr),
        }
    }

    /// The machine after the CPU has written to an address. A write onto
    /// the bus that the DMA engine occupies is dropped.
    pub open spec fn write(self, addr: u16, val: u8) -> Machine {
        match self.dma_conflict(addr) {
            Some(_) => self,
            None => self.pure_write(addr, val),
        }
    }
}

impl GameBoy {
    pub open spec fn wf(&self) -> bool {
        self.ppu.wf()
    }

    /// Whether `cycles` T-cycles have passed since `before` and the CPU is
    /// as it was: the same registers, the same master enable, halted or not
    /// as before.
    pub open spec fn elapsed(&self, before: &GameBoy, cycles: int) -> bool {
        &&& self.cpu == before.cpu
        &&& self.clocked(before, cycles)
    }

    /// Whether `cycles` T-cycles have passed since `before` and the CPU
    /// is halted or not as before, with the same master enable.
    pub open spec fn clocked(&self, before: &GameBoy, cycles: int) -> bool {
        &&& self.halt == before.halt
        &&& self.halt_bug == before.halt_bug
        &&& self.intr.ime == before.intr.ime
        &&& self.ahead_cycles == before.ahead_cycles
        &&& self.cycles == before@.cycles_after(cycles)
    }

    /// A machine with the given cartridge, as the boot ROM leaves it.
    pub fn init(cart: CartridgeEnum) -> (gb: Self)
        ensures
            gb.wf(),
            gb@.cart == cart.model(),
            gb.cpu == (Cpu {
                a: 0x01,
                f: 0xB0,
                b: 0x00,
                c: 0x13,
                d: 0x00,
                e: 0xD8,
                h: 0x01,
                l: 0x4D,
                sp: 0xFFFE,
                pc: 0x0100,
            }),
            !gb.halt && !gb.halt_bug,
            gb.intr == (InterruptHandler { ime: ImeState::DISABLED, iflags: 0, ienable: 0 }),
            gb.joypad == (Joypad { joyp: 0x0F, buttons: 0xFF }),
            gb.serial == (SerialLink { sb: 0, sc: 0 }),
            gb.timer == (Timer { div: 0, tima: 0, tma: 0, tac: 0, tima_state: TimaState::RUNNING }),
            gb.cycles == 0 && gb.ahead_cycles == 0,
            forall|a: u16| #[trigger] gb.wram0.peek(a) == 0,
            forall|a: u16| #[trigger] gb.wramx.peek(a) == 0,
            forall|a: u16| 0xFF80 <= a <= 0xFFFE ==> #[trigger] gb.hram.peek(a) == 0,
            gb.ppu.fresh(),
            forall|i: int| 0 <= i < 0x60 ==> gb.unused.bytes[i] == 0,
    {
        let wram0 = WRam0::init();
        let wramx = WRamX::init();
        let hram = HRam::init();
        assert forall|a: u16| #[trigger] wram0.peek(a) == 0 by {
            assert(WRam0::maps(a));
        }
        assert forall|a: u16| #[trigger] wramx.peek(a) == 0 by {
            assert(WRamX::maps(a));
        }
        assert forall|a: u16| 0xFF80 <= a <= 0xFFFE implies #[trigger] hram.peek(a) == 0 by {
            assert(HRam::maps(a));
        }
        Self {
            cpu: Cpu::init(),
            halt: false,
            halt_bug: false,
            intr: InterruptHandler::init(),
            cart,
            wram0,
            wramx,
            unused: Unused::init(),
            hram,
            ppu: Ppu::init(),
            joypad: Joypad::init(),
            timer: Timer::init(),
            serial: SerialLink::init(),
            cycles: 0,
            ahead_cycles: 0,
        }
    }

    fn io_read(&self, addr: u16) -> (v: u8)
        requires
            addr >= 0xFF00,
        ensures
            v == self@.io_read(addr),
    {
        reveal(Machine::io_read);
        match addr {
            0xFF00 => self.joypad.read(),
            0xFF01 => self.serial.read_data(),
            0xFF02 => self.serial.read_control(),
            0xFF04 => self.timer.read_div(),
            0xFF05 => self.timer.read_tima(),
            0xFF06 => self.timer.read_tma(),
            0xFF07 => self.timer.read_tac(),
            0xFF0F => self.intr.read_if(),
            0xFF40 => self.ppu.read_lcdc(),
            0xFF41 => self.ppu.read_stat(),
            0xFF42 => self.ppu.read_scy(),
            0xFF43 => self.ppu.read_scx(),
            0xFF44 => self.ppu.read_ly(),
            0xFF45 => self.ppu.read_lyc(),
            0xFF46 => self.ppu.read_dma(),
            0xFF47 => self.ppu.read_bgp(),
            0xFF48 => self.ppu.read_obp0(),
            0xFF49 => self.ppu.read_obp1(),
            0xFF4A => self.ppu.read_wy(),
            0xFF4B => self.ppu.read_wx(),
            0xFF80..=0xFFFE => self.hram.read(addr),
            0xFFFF => self.intr.read_ie(),
            _ => 0xFF,
        }
    }

    /// Reads what the address decodes to, with no regard to the DMA engine
    /// and without advancing the clock.
    #[verifier::rlimit(40)]
    pub fn pure_read(&self, addr: u16) -> (v: u8)
        ensures
            v == self@.pure_read(addr),
    {
        reveal(Machine::pure_read);
        match addr {
            0x0000..=0x3FFF => self.cart.rom0_read(addr),
            0x4000..=0x7FFF => self.cart.romx_read(addr),
            0x8000..=0x9FFF => self.ppu.vram_read(addr),
            0xA000..=0xBFFF => self.cart.sram_read(addr),
            0xC000..=0xCFFF => self.wram0.read(addr),
            0xD000..=0xDFFF => self.wramx.read(addr),
            0xE000..=0xEFFF => self.wram0.read(addr),
            0xF000..=0xFDFF => self.wramx.read(addr),
            0xFE00..=0xFE9F => self.ppu.oam_read(addr),
            0xFEA0..=0xFEFF => self.unused.read(addr),
            _ => self.io_read(addr),
        }
    }

    #[verifier::rlimit(40)]
    fn ppu_write(&mut self, addr: u16, val: u8)
        requires
            0xFF40 <= addr <= 0xFF4B,
            old(self).wf(),
        ensures
            final(self)@ == old(self)@.io_write(addr, val),
            final(self).wf(),
            final(self).elapsed(old(self), 0),
    {
        reveal(Machine::io_write);
        match addr {
            0xFF40 => self.ppu.write_lcdc(val),
            0xFF41 => self.ppu.write_stat(val),
            0xFF42 => self.ppu.write_scy(val),
            0xFF43 => self.ppu.write_scx(val),
            0xFF44 => self.ppu.write_ly(val),
            0xFF45 => self.ppu.write_lyc(val),
            0xFF46 => self.ppu.write_dma(val),
            0xFF47 => self.ppu.write_bgp(val),
            0xFF48 => self.ppu.write_obp0(val),
            0xFF49 => self.ppu.write_obp1(val),
            0xFF4A => self.ppu.write_wy(val),
            _ => self.ppu.write_wx(val),
        }
    }

    #[verifier::rlimit(40)]
    fn io_write(&mut self, addr: u16, val: u8)
        requires
            addr >= 0xFF00,
            old(self).wf(),
        ensures
            final(self)@ == old(self)@.io_write(addr, val),
            final(self).wf(),
            final(self).elapsed(old(self), 0),
    {
        match addr {
            0xFF40..=0xFF4B => self.ppu_write(addr, val),
            _ => {
                reveal(Machine::io_write);
                match addr {
                    0xFF00 => self.joypad.write(val),
                    0xFF01 => self.serial.write_data(val),
                    0xFF02 => self.serial.write_control(val),
                    0xFF04 => self.timer.write_div(),
                    0xFF05 => self.timer.write_tima(val),
                    0xFF06 => self.timer.write_tma(val),
                    0xFF07 => self.timer.write_tac(val),
                    0xFF0F => self.intr.write_if(val),
                    0xFF80..=0xFFFE => self.hram.write(addr, val),
                    0xFFFF => self.intr.write_ie(val),
                    _ => {},
                }
            },
        }
    }

    /// Writes to what the address decodes to, with no regard to the DMA
    /// engine and without advancing the clock.
    #[verifier::rlimit(40)]
    pub fn pure_write(&mut self, addr: u16, val: u8)
        requires
            old(self).wf(),
        ensures
            final(self)@ == old(self)@.pure_write(addr, val),
            final(self).wf(),
            final(self).elapsed(old(self), 0),
    {
        reveal(Machine::pure_write);
        match addr {
            0x0000..=0x3FFF => self.cart.rom0_write(addr, val),
            0x4000..=0x7FFF => self.cart.romx_write(addr, val),
            0x8000..=0x9FFF => self.ppu.vram_write(addr, val),
            0xA000..=0xBFFF => self.cart.sram_write(addr, val),
            0xC000..=0xCFFF => self.wram0.write(addr, val),
            0xD000..=0xDFFF => self.wramx.write(addr, val),
            0xE000..=0xEFFF => self.wram0.write(addr, val),
            0xF000..=0xFDFF => self.wramx.write(addr, val),
            0xFE00..=0xFE9F => self.ppu.oam_write(addr, val),
            0xFEA0..=0xFEFF => self.unused.write(addr, val),
            _ => self.io_write(addr, val),
        }
    }

    /// The byte that the DMA engine reads.
    pub fn oam_dma_fetch(&self) -> (v: u8)
        ensures
            v == self@.dma_byte(),
    {
        let at = ((self.ppu.dma as u16) * 256).wrapping_add(self.ppu.dma_cycles / 4);
        if self.ppu.dma <= 0xDF {
            self.pure_read(at)
        } else {
            self.pure_read(at.wrapping_sub(0x2000))
        }
    }

    /// The byte that the CPU gets at an address instead of the addressed
    /// one, if the DMA engine occupies the bus of the address.
    pub fn dma_conflict(&self, addr: u16) -> (r: Option<u8>)
        ensures
            r == self@.dma_conflict(addr),
    {
        match (self.ppu.oam_dma, self.ppu.dma, addr) {
            (
                DmaStatus::ACTIVE(_) | DmaStatus::FIRSTREAD | DmaStatus::RESTARTFIRSTREAD | DmaStatus::RESTARTING(
                    _,
                ),
                0x00..=0x7F | 0xA0..=0xFF,
                0x0000..=0x7FFF | 0xA000..=0xDFFF,
            ) => Some(self.oam_dma_fetch()),
            (
                DmaStatus::ACTIVE(_) | DmaStatus::FIRSTREAD | DmaStatus::RESTARTFIRSTREAD | DmaStatus::RESTARTING(
                    _,
                ),
                0x80..=0x9F,
                0x8000..=0x9FFF,
            ) => Some(self.oam_dma_fetch()),
            _ => None,
        }
    }

    /// Reads a byte as the CPU does, without advancing the clock.
    pub fn read(&self, addr: u16) -> (v: u8)
        ensures
            v == self@.read(addr),
    {
        match self.dma_conflict(addr) {
            Some(byte) => byte,
            None => self.pure_read(addr),
        }
    }

    /// Writes a byte as the CPU does, without advancing the clock.
    pub fn write(&mut self, addr: u16, val: u8)
        requires
            old(self).wf(),
        ensures
            final(self)@ == old(self)@.write(addr, val),
            final(self).wf(),
            final(self).elapsed(old(self), 0),
    {
        match self.dma_conflict(addr) {
            Some(_) => {},
            _ => self.pure_write(addr, val),
        }
    }
}

impl Machine {
    /// The DMA engine after one T-cycle. Every fourth T-cycle it moves on:
    /// from `STARTING` it waits one step, then reads the first byte, and
    /// from then on writes the byte it has read to OAM and reads the next,
    /// until 160 bytes are written.
    #[verifier::opaque]
    pub open spec fn spec_cycle_dma(self) -> Machine {
        if self.ppu.oam_dma == DmaStatus::INACTIVE {
            self
        } else {
            let d: u16 = if self.ppu.dma_cycles == 0xFFFF {
                0
            } else {
                (self.ppu.dma_cycles + 1) as u16
            };
            let m = Machine { ppu: Ppu { dma_cycles: d, ..self.ppu }, ..self };
            if d % 4 != 0 {
                m
            } else {
                let at: u16 = if d == 0 {
                    0xFFFF
                } else {
                    (d / 4 - 1) as u16
                };
                match self.ppu.oam_dma {
                    DmaStatus::STARTING => Machine {
                        ppu: Ppu { oam_dma: DmaStatus::FIRSTREAD, ..m.ppu },
                        ..m
                    },
                    DmaStatus::RESTARTING(byte) => Machine {
                        ppu: Ppu {
                            oam: m.ppu.oam.poke(at, byte),
                            oam_dma: DmaStatus::RESTARTFIRSTREAD,
                            ..m.ppu
                        },
                        ..m
                    },
                    DmaStatus::ACTIVE(byte) => {
                        let w = Machine { ppu: Ppu { oam: m.ppu.oam.poke(at, byte), ..m.ppu }, ..m };
                        if d / 4 >= 0xA0 {
                            Machine {
                                ppu: Ppu { dma_cycles: 0, oam_dma: DmaStatus::INACTIVE, ..w.ppu },
                                ..w
                            }
                        } else {
                            Machine {
                                ppu: Ppu { oam_dma: DmaStatus::ACTIVE(w.dma_byte()), ..w.ppu },
                                ..w
                            }
                        }
                    },
                    _ => {
                        let z = Machine { ppu: Ppu { dma_cycles: 0, ..m.ppu }, ..m };
                        Machine { ppu: Ppu { oam_dma: DmaStatus::ACTIVE(z.dma_byte()), ..z.ppu }, ..z }
                    },
                }
            }
        }
    }

    /// One T-cycle of the DMA engine and the PPU.
    pub open spec fn spec_tick_ppu(self) -> Machine {
        let m = self.spec_cycle_dma();
        Machine { ppu: m.ppu.spec_cycle(), ..m }
    }

    /// `n` T-cycles of the DMA engine and the PPU.
    pub open spec fn spec_run_ppu(self, n: nat) -> Machine
        decreases n,
    {
        if n == 0 {
            self
        } else {
            self.spec_tick_ppu().spec_run_ppu((n - 1) as nat)
        }
    }

    /// The interrupts that the PPU has raised go to the interrupt
    /// controller.
    pub open spec fn spec_collect(self) -> Machine {
        let with_stat = if self.ppu.stat_intr {
            self.intr.spec_request(Interrupt::STAT)
        } else {
            self.intr
        };
        let with_vblank = if self.ppu.vblank_intr {
            with_stat.spec_request(Interrupt::VBLANK)
        } else {
            with_stat
        };
        Machine {
            intr: with_vblank,
            ppu: Ppu { stat_intr: false, vblank_intr: false, ..self.ppu },
            ..self
        }
    }

    pub open spec fn spec_cycle_ppu(self, cycles: u8) -> Machine {
        self.spec_run_ppu(cycles as nat).spec_collect()
    }

    pub open spec fn spec_cycle_timer(self, cycles: u8) -> Machine {
        Machine {
            timer: self.timer.spec_cycle(cycles as nat),
            intr: if self.timer.spec_raised(cycles as nat) {
                self.intr.spec_request(Interrupt::TIMER)
            } else {
                self.intr
            },
            ..self
        }
    }

    pub open spec fn spec_cycle_joypad(self) -> Machine {
        Machine {
            joypad: self.joypad.spec_update(),
            intr: if self.joypad.spec_pressed_edge() {
                self.intr.spec_request(Interrupt::JOYPAD)
            } else {
                self.intr
            },
            ..self
        }
    }

    /// The T-cycle count after `cycles` more, in 64 bits.
    pub open spec fn cycles_after(&self, cycles: int) -> u64 {
        ((self.cycles + cycles) % 0x1_0000_0000_0000_0000) as u64
    }

    /// The machine after `cycles` T-cycles have passed: the timer runs,
    /// then the joypad, then the DMA engine and the PPU.
    #[verifier::opaque]
    pub open spec fn spec_advance(self, cycles: u8) -> Machine {
        Machine { cycles: self.cycles_after(cycles as int), ..self }.spec_cycle_timer(
            cycles,
        ).spec_cycle_joypad().spec_cycle_ppu(cycles)
    }

    /// The machine after a memory cycle that writes.
    pub open spec fn spec_cycle_write(self, addr: u16, val: u8) -> Machine {
        self.write(addr, val).spec_advance(4)
    }

    /// The address at a signed offset from PC.
    pub open spec fn spec_pc_at(&self, offset: i8) -> u16 {
        ((self.cpu.pc + offset) % 0x10000) as u16
    }
}

impl GameBoy {
    /// Runs the DMA engine for one T-cycle.
    #[verifier::rlimit(40)]
    pub fn cycle_dma(&mut self)
        requires
            old(self).wf(),
        ensures
            final(self)@ == old(self)@.spec_cycle_dma(),
            final(self).wf(),
            final(self).ppu.keeps_clock(&old(self).ppu),
            final(self).elapsed(old(self), 0),
    {
        reveal(Machine::spec_cycle_dma);
        if let DmaStatus::INACTIVE = self.ppu.oam_dma {
            return ;
        }
        self.ppu.dma_cycles = self.ppu.dma_cycles.wrapping_add(1);
        if self.ppu.dma_cycles % 4 == 0 {
            let count = self.ppu.dma_cycles / 4;
            let at = count.wrapping_sub(1);
            match self.ppu.oam_dma {
                DmaStatus::STARTING => {
                    self.ppu.oam_dma = DmaStatus::FIRSTREAD;
                },
                DmaStatus::RESTARTING(byte) => {
                    self.ppu.oam.write(at, byte);
                    self.ppu.oam_dma = DmaStatus::RESTARTFIRSTREAD;
                },
                DmaStatus::ACTIVE(byte) => {
                    self.ppu.oam.write(at, byte);
                    if count >= 0xA0 {
                        self.ppu.dma_cycles = 0;
                        self.ppu.oam_dma = DmaStatus::INACTIVE;
                    } else {
                        let new_byte = self.oam_dma_fetch();
                        self.ppu.oam_dma = DmaStatus::ACTIVE(new_byte);
                    }
                },
                _ => {
                    self.ppu.dma_cycles = 0;
                    let byte = self.oam_dma_fetch();
                    self.ppu.oam_dma = DmaStatus::ACTIVE(byte);
                },
            }
        }
    }

    /// Runs the DMA engine and the PPU for `cycles` T-cycles and hands the
    /// interrupts that the PPU has raised to the interrupt controller.
    #[verifier::rlimit(40)]
    pub fn cycle_ppu(&mut self, cycles: u8)
        requires
            old(self).wf(),
        ensures
            final(self)@ == old(self)@.spec_cycle_ppu(cycles),
            final(self).wf(),
            final(self).elapsed(old(self), 0),
    {
        let mut i: u8 = 0;
        while i < cycles
            invariant
                i <= cycles,
                self.wf(),
                self@.spec_run_ppu((cycles - i) as nat) == old(self)@.spec_run_ppu(cycles as nat),
                self.elapsed(old(self), 0),
            decreases cycles - i,
        {
            self.cycle_dma();
            self.ppu.cycle();
            i += 1;
        }
        if self.ppu.stat_intr {
            self.intr.request(Interrupt::STAT);
            self.ppu.stat_intr = false;
        }
        if self.ppu.vblank_intr {
            self.intr.request(Interrupt::VBLANK);
            self.ppu.vblank_intr = false;
        }
    }

    /// Runs the timer for `cycles` T-cycles.
    pub fn cycle_timer(&mut self, cycles: u8)
        ensures
            final(self)@ == old(self)@.spec_cycle_timer(cycles),
            final(self).ppu == old(self).ppu,
            final(self).elapsed(old(self), 0),
    {
        if self.timer.cycle(cycles) {
            self.intr.request(Interrupt::TIMER);
        }
    }

    /// Brings JOYP up to date; a button of the selected row that went down
    /// raises the joypad interrupt.
    pub fn cycle_joypad(&mut self, cycles: u8)
        ensures
            final(self)@ == old(self)@.spec_cycle_joypad(),
            final(self).ppu == old(self).ppu,
            final(self).elapsed(old(self), 0),
    {
        if self.joypad.cycle() {
            self.intr.request(Interrupt::JOYPAD);
        }
    }

    /// Records that a button went down or came up.
    pub fn set_button(&mut self, button: Button, pressed: bool)
        ensures
            final(self)@ == (Machine {
                joypad: old(self).joypad.spec_set_button(button, pressed),
                ..old(self)@
            }),
            final(self).ppu == old(self).ppu,
    {
        self.joypad.set_button(button, pressed);
    }

    /// Lets `cycles` T-cycles pass. This is the one place where the
    /// peripherals move.
    #[verifier::rlimit(40)]
    pub fn advance_cycles(&mut self, cycles: u8)
        requires
            old(self).wf(),
        ensures
            final(self)@ == old(self)@.spec_advance(cycles),
            final(self).wf(),
            final(self).elapsed(old(self), cycles as int),
    {
        reveal(Machine::spec_advance);
        let ghost m0 = self@;
        self.cycles = self.cycles.wrapping_add(cycles as u64);
        let ghost m1 = self@;
        assert(m1 == Machine { cycles: m0.cycles_after(cycles as int), ..m0 });
        self.cycle_timer(cycles);
        let ghost m2 = self@;
        assert(m2 == m1.spec_cycle_timer(cycles));
        self.cycle_joypad(cycles);
        let ghost m3 = self@;
        assert(m3 == m2.spec_cycle_joypad());
        self.cycle_ppu(cycles);
        assert(self@ == m3.spec_cycle_ppu(cycles));
    }

    /// Reads the byte at a signed offset from PC, without advancing the
    /// clock.
    pub fn dpc(&self, offset: i8) -> (v: u8)
        ensures
            v == self@.read(self@.spec_pc_at(offset)),
    {
        self.read(self.cpu.pc.wrapping_add_signed(offset as i16))
    }

    /// A memory cycle that reads: four T-cycles pass after the read.
    pub fn cycle_read(&mut self, addr: u16) -> (v: u8)
        requires
            old(self).wf(),
        ensures
            v == old(self)@.read(addr),
            final(self)@ == old(self)@.spec_advance(4),
            final(self).wf(),
            final(self).elapsed(old(self), 4),
    {
        let val = self.read(addr);
        self.advance_cycles(4);
        val
    }

    /// A memory cycle that reads at a signed offset from PC.
    pub fn cycle_dpc(&mut self, offset: i8) -> (v: u8)
        requires
            old(self).wf(),
        ensures
            v == old(self)@.read(old(self)@.spec_pc_at(offset)),
            final(self)@ == old(self)@.spec_advance(4),
            final(self).wf(),
            final(self).elapsed(old(self), 4),
    {
        let addr = self.cpu.pc.wrapping_add_signed(offset as i16);
        self.cycle_read(addr)
    }

    /// A memory cycle that writes: four T-cycles pass after the write.
    pub fn cycle_write(&mut self, addr: u16, val: u8)
        requires
            old(self).wf(),
        ensures
            final(self)@ == old(self)@.spec_cycle_write(addr, val),
            final(self).wf(),
            final(self).elapsed(old(self), 4),
    {
        self.write(addr, val);
        self.advance_cycles(4);
    }

    /// The picture: one colour id for each pixel, line by line.
    pub fn borrow_framebuffer(&self) -> (fb: &[u8; 23040])
        ensures
            *fb == self.ppu.framebuffer,
    {
        &self.ppu.framebuffer
    }
}

/// The echo window 0xE000..=0xFDFF is work RAM once more: a read or write
/// there is the read or write 0x2000 below.
pub proof fn lemma_echo_ram(m: Machine, addr: u16, val: u8)
    requires
        0xE000 <= addr <= 0xFDFF,
    ensures
        m.pure_read(addr) == m.pure_read((addr - 0x2000) as u16),
        m.pure_write(addr, val) == m.pure_write((addr - 0x2000) as u16, val),
{
    reveal(Machine::pure_read);
    reveal(Machine::pure_write);
}

/// The window 0xFEA0..=0xFEFF holds nothing: reads give zero and writes
/// change nothing.
pub proof fn lemma_unused_window(m: Machine, addr: u16, val: u8)
    requires
        0xFEA0 <= addr <= 0xFEFF,
    ensures
        m.pure_read(addr) == 0,
        m.pure_write(addr, val) == m,
{
    reveal(Machine::pure_read);
    reveal(Machine::pure_write);
}

} // verus!
