//! MBC3: up to 128 ROM banks, up to 4 RAM banks and an optional real-time
//! clock whose registers are reached through the RAM window.

use vstd::prelude::*;
use crate::cart::banks::{fill, filled, load_banks, ram_byte, ram_store, read_ram, read_rom, rom_byte, write_ram, RAM_BANK_SIZE, ROM_BANK_SIZE};
use crate::cart::error::{CartridgeError, Controller, Feature};
use crate::cart::model::{CartModel, CartRegs, CartridgeTrait};

verus! {

/// The clock's five live registers, their latched copies, and the byte
/// last written to the latch address.
#[derive(Clone, Copy, Debug, PartialEq, Eq, Structural)]
pub struct Rtc {
    pub sec: u8,
    pub min: u8,
    pub hour: u8,
    pub day_lo: u8,
    pub day_hi: u8,
    pub latch_sec: u8,
    pub latch_min: u8,
    pub latch_hour: u8,
    pub latch_day_lo: u8,
    pub latch_day_hi: u8,
    pub last_latch_val: u8,
}

impl Rtc {
    /// A write to the latch address: a one that follows a zero copies the
    /// live registers to the latched ones.
    pub open spec fn spec_latch(self, val: u8) -> Self {
        let r = if self.last_latch_val == 0 && val == 1 {
            Rtc {
                latch_sec: self.sec,
                latch_min: self.min,
                latch_hour: self.hour,
                latch_day_lo: self.day_lo,
                latch_day_hi: self.day_hi,
                ..self
            }
        } else {
            self
        };
        Rtc { last_latch_val: val, ..r }
    }

    /// The latched register that `sel` names, for `sel` in 0x08..=0x0C.
    pub open spec fn spec_latched(self, sel: u8) -> u8 {
        match sel {
            0x08 => self.latch_sec,
            0x09 => self.latch_min,
            0x0A => self.latch_hour,
            0x0B => self.latch_day_lo,
            0x0C => self.latch_day_hi,
            _ => 0xFF,
        }
    }

    /// The clock after a write to the live register that `sel` names.
    pub open spec fn spec_set(self, sel: u8, val: u8) -> Self {
        match sel {
            0x08 => Rtc { sec: val, ..self },
            0x09 => Rtc { min: val, ..self },
            0x0A => Rtc { hour: val, ..self },
            0x0B => Rtc { day_lo: val, ..self },
            0x0C => Rtc { day_hi: val, ..self },
            _ => self,
        }
    }

    pub fn init() -> (r: Self)
        ensures
            r == (Rtc {
                sec: 0,
                min: 0,
                hour: 0,
                day_lo: 0,
                day_hi: 0,
                latch_sec: 0,
                latch_min: 0,
                latch_hour: 0,
                latch_day_lo: 0,
                latch_day_hi: 0,
                last_latch_val: 1,
            }),
    {
        Rtc {
            sec: 0,
            min: 0,
            hour: 0,
            day_lo: 0,
            day_hi: 0,
            latch_sec: 0,
            latch_min: 0,
            latch_hour: 0,
            latch_day_lo: 0,
            latch_day_hi: 0,
            last_latch_val: 1,
        }
    }

    pub fn latch(&mut self, val: u8)
        ensures
            *final(self) == old(self).spec_latch(val),
    {
        if self.last_latch_val == 0 && val == 1 {
            self.latch_sec = self.sec;
            self.latch_min = self.min;
            self.latch_hour = self.hour;
            self.latch_day_lo = self.day_lo;
            self.latch_day_hi = self.day_hi;
        }
        self.last_latch_val = val;
    }

    pub fn latched(&self, sel: u8) -> (v: u8)
        ensures
            v == self.spec_latched(sel),
    {
        match sel {
            0x08 => self.latch_sec,
            0x09 => self.latch_min,
            0x0A => self.latch_hour,
            0x0B => self.latch_day_lo,
            0x0C => self.latch_day_hi,
            _ => 0xFF,
        }
    }

    pub fn set(&mut self, sel: u8, val: u8)
        ensures
            *final(self) == old(self).spec_set(sel, val),
    {
        match sel {
            0x08 => self.sec = val,
            0x09 => self.min = val,
            0x0A => self.hour = val,
            0x0B => self.day_lo = val,
            0x0C => self.day_hi = val,
            _ => {},
        }
    }
}

/// What the RAM window reaches, by the select register.
#[derive(Clone, Copy, Debug, PartialEq, Eq, Structural)]
pub enum Mbc3Target {
    /// Nothing: reads give 0xFF and writes are dropped.
    Open,
    /// This bank of RAM.
    Ram(u8),
    /// The clock register that the select register names.
    Clock,
}

#[derive(Clone, Copy, Debug, PartialEq, Eq, Structural)]
pub struct Mbc3Regs {
    pub has_ram: bool,
    pub has_rtc: bool,
    /// The ROM bank in the switchable window; never written as zero.
    pub rom_bank: u8,
    /// 0x00..=0x03 for a RAM bank, 0x08..=0x0C for a clock register.
    pub ram_rtc_sel: u8,
    pub ram_enable: bool,
    pub rtc: Rtc,
}

impl Mbc3Regs {
    pub open spec fn accepts_rom(self, nbanks: u16) -> bool {
        nbanks <= 128
    }

    pub open spec fn accepts_ram(self, nbanks: u16) -> bool {
        if self.has_ram {
            nbanks <= 4
        } else {
            nbanks == 0
        }
    }

    pub open spec fn ram_for(self, ram: Seq<u8>, nbanks: u16) -> Seq<u8> {
        if self.has_ram {
            filled(nbanks * 0x2000, 0)
        } else {
            ram
        }
    }

    /// A write below 0x4000: the RAM latch, or the ROM bank of seven bits,
    /// zero becoming one.
    pub open spec fn spec_rom0_write(self, addr: u16, val: u8) -> Self {
        let r = if addr <= 0x1FFF {
            Mbc3Regs { ram_enable: val & 0x0F == 0x0A, ..self }
        } else {
            Mbc3Regs { rom_bank: val & 0x7F, ..self }
        };
        if r.rom_bank == 0 {
            Mbc3Regs { rom_bank: 1, ..r }
        } else {
            r
        }
    }

    /// A write in 0x4000..=0x7FFF: the select register, or the clock latch.
    pub open spec fn spec_romx_write(self, addr: u16, val: u8) -> Self {
        if addr <= 0x5FFF {
            Mbc3Regs { ram_rtc_sel: val & 0x0F, ..self }
        } else if self.has_rtc {
            Mbc3Regs { rtc: self.rtc.spec_latch(val), ..self }
        } else {
            self
        }
    }

    pub open spec fn spec_target(self) -> Mbc3Target {
        if !self.ram_enable {
            Mbc3Target::Open
        } else if self.has_rtc {
            if self.has_ram && self.ram_rtc_sel <= 0x03 {
                Mbc3Target::Ram(self.ram_rtc_sel)
            } else if 0x08 <= self.ram_rtc_sel <= 0x0C {
                Mbc3Target::Clock
            } else {
                Mbc3Target::Open
            }
        } else if self.has_ram {
            Mbc3Target::Ram(self.ram_rtc_sel & 0x03)
        } else {
            Mbc3Target::Open
        }
    }

    pub open spec fn rom0_read(self, rom: Seq<u8>, addr: u16) -> u8 {
        rom_byte(rom, 0, addr as int)
    }

    pub open spec fn romx_read(self, rom: Seq<u8>, addr: u16) -> u8 {
        rom_byte(rom, self.rom_bank as int, addr - 0x4000)
    }

    pub open spec fn sram_read(self, ram: Seq<u8>, addr: u16) -> u8 {
        match self.spec_target() {
            Mbc3Target::Open => 0xFF,
            Mbc3Target::Ram(bank) => ram_byte(ram, bank as int, addr - 0xA000),
            Mbc3Target::Clock => self.rtc.spec_latched(self.ram_rtc_sel),
        }
    }

    pub open spec fn sram_write_regs(self, addr: u16, val: u8) -> Self {
        match self.spec_target() {
            Mbc3Target::Clock => Mbc3Regs { rtc: self.rtc.spec_set(self.ram_rtc_sel, val), ..self },
            _ => self,
        }
    }

    pub open spec fn sram_write(self, ram: Seq<u8>, addr: u16, val: u8) -> Seq<u8> {
        match self.spec_target() {
            Mbc3Target::Ram(bank) => ram_store(ram, bank as int, addr - 0xA000, val),
            _ => ram,
        }
    }

    #[verifier::when_used_as_spec(spec_target)]
    pub fn target(self) -> (t: Mbc3Target)
        ensures
            t == self.spec_target(),
    {
        if !self.ram_enable {
            Mbc3Target::Open
        } else if self.has_rtc {
            if self.has_ram && self.ram_rtc_sel <= 0x03 {
                Mbc3Target::Ram(self.ram_rtc_sel)
            } else if 0x08 <= self.ram_rtc_sel && self.ram_rtc_sel <= 0x0C {
                Mbc3Target::Clock
            } else {
                Mbc3Target::Open
            }
        } else if self.has_ram {
            Mbc3Target::Ram(self.ram_rtc_sel & 0x03)
        } else {
            Mbc3Target::Open
        }
    }
}

pub struct Mbc3 {
    pub rom: Vec<u8>,
    pub ram: Vec<u8>,
    pub regs: Mbc3Regs,
}

impl Mbc3 {
    pub fn init(has_ram: bool, has_rtc: bool) -> (c: Self)
        ensures
            c.regs == (Mbc3Regs {
                has_ram,
                has_rtc,
                rom_bank: 1,
                ram_rtc_sel: 0,
                ram_enable: false,
                rtc: Rtc {
                    sec: 0,
                    min: 0,
                    hour: 0,
                    day_lo: 0,
                    day_hi: 0,
                    latch_sec: 0,
                    latch_min: 0,
                    latch_hour: 0,
                    latch_day_lo: 0,
                    latch_day_hi: 0,
                    last_latch_val: 1,
                },
            }),
            c.rom@ == Seq::<u8>::empty(),
            c.ram@ == Seq::<u8>::empty(),
    {
        Mbc3 {
            rom: Vec::new(),
            ram: Vec::new(),
            regs: Mbc3Regs {
                has_ram,
                has_rtc,
                rom_bank: 1,
                ram_rtc_sel: 0,
                ram_enable: false,
                rtc: Rtc::init(),
            },
        }
    }
}

impl CartridgeTrait for Mbc3 {
    open spec fn model(&self) -> CartModel {
        CartModel { regs: CartRegs::Mbc3(self.regs), rom: self.rom@, ram: self.ram@ }
    }

    fn init_rom_banks(&mut self, nbanks: u16, raw_rom: &Vec<u8>) -> (r: Result<(), CartridgeError>) {
        if nbanks > 128 {
            return Err(
                CartridgeError::InvalidCombination {
                    controller: Controller::Mbc3,
                    feat: Feature::RomBanks(nbanks),
                },
            );
        }
        if raw_rom.len() > (nbanks as usize) * ROM_BANK_SIZE {
            return Err(CartridgeError::OutOfRomBanks { nbanks, rom_size: raw_rom.len() / 1024 });
        }
        self.rom = load_banks(nbanks, raw_rom);
        Ok(())
    }

    fn init_ram_banks(&mut self, nbanks: u16) -> (r: Result<(), CartridgeError>) {
        if (self.regs.has_ram && nbanks > 4) || (!self.regs.has_ram && nbanks != 0) {
            return Err(
                CartridgeError::InvalidCombination {
                    controller: Controller::Mbc3,
                    feat: Feature::RamBanks(nbanks),
                },
            );
        }
        if self.regs.has_ram {
            self.ram = fill((nbanks as usize) * RAM_BANK_SIZE, 0);
        }
        Ok(())
    }

    fn rom0_read(&self, addr: u16) -> (v: u8) {
        read_rom(&self.rom, 0, addr as usize)
    }

    fn romx_read(&self, addr: u16) -> (v: u8) {
        read_rom(&self.rom, self.regs.rom_bank as usize, (addr - 0x4000) as usize)
    }

    fn sram_read(&self, addr: u16) -> (v: u8) {
        match self.regs.target() {
            Mbc3Target::Open => 0xFF,
            Mbc3Target::Ram(bank) => read_ram(&self.ram, bank as usize, (addr - 0xA000) as usize),
            Mbc3Target::Clock => self.regs.rtc.latched(self.regs.ram_rtc_sel),
        }
    }

    fn rom0_write(&mut self, addr: u16, val: u8) {
        if addr <= 0x1FFF {
            self.regs.ram_enable = (val & 0x0F) == 0x0A;
        } else {
            self.regs.rom_bank = val & 0x7F;
        }
        if self.regs.rom_bank == 0 {
            self.regs.rom_bank = 1;
        }
    }

    fn romx_write(&mut self, addr: u16, val: u8) {
        if addr <= 0x5FFF {
            self.regs.ram_rtc_sel = val & 0x0F;
        } else if self.regs.has_rtc {
            self.regs.rtc.latch(val);
        }
    }

    fn sram_write(&mut self, addr: u16, val: u8) {
        match self.regs.target() {
            Mbc3Target::Open => {},
            Mbc3Target::Ram(bank) => {
                write_ram(&mut self.ram, bank as usize, (addr - 0xA000) as usize, val);
            },
            Mbc3Target::Clock => {
                let sel = self.regs.ram_rtc_sel;
                self.regs.rtc.set(sel, val);
            },
        }
    }
}

} // verus!
