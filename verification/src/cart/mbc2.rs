//! MBC2: up to 16 ROM banks and a built-in RAM of 512 four-bit cells.

use vstd::prelude::*;
use crate::cart::banks::{fill, filled, load_banks, read_rom, rom_byte, ROM_BANK_SIZE};
use crate::cart::error::{CartridgeError, Controller, Feature};
use crate::cart::model::{CartModel, CartRegs, CartridgeTrait};

verus! {

#[derive(Clone, Copy, Debug, PartialEq, Eq, Structural)]
pub struct Mbc2Regs {
    pub ram_enable: bool,
    /// The ROM bank in the switchable window; never written as zero.
    pub bank: u8,
}

impl Mbc2Regs {
    pub open spec fn accepts_rom(self, nbanks: u16) -> bool {
        nbanks <= 16
    }

    pub open spec fn accepts_ram(self, nbanks: u16) -> bool {
        nbanks == 0
    }

    /// A write below 0x4000: with address bit 8 set it selects the ROM
    /// bank, zero becoming one; with the bit clear it sets the RAM latch.
    pub open spec fn spec_write(self, addr: u16, val: u8) -> Self {
        if addr & 0x0100 != 0 {
            Mbc2Regs {
                bank: if val & 0x0F == 0 {
                    1
                } else {
                    val & 0x0F
                },
                ..self
            }
        } else {
            Mbc2Regs { ram_enable: val & 0x0F == 0x0A, ..self }
        }
    }

    pub open spec fn rom0_read(self, rom: Seq<u8>, addr: u16) -> u8 {
        rom_byte(rom, 0, addr as int)
    }

    pub open spec fn romx_read(self, rom: Seq<u8>, addr: u16) -> u8 {
        rom_byte(rom, self.bank as int, addr - 0x4000)
    }

    /// The cell that an address of the RAM window reaches: the low nine
    /// address bits count.
    pub open spec fn cell(addr: u16) -> int {
        (addr % 0x200) as int
    }

    /// Only the low nibble of a cell exists; the high one reads as ones.
    pub open spec fn sram_read(self, ram: Seq<u8>, addr: u16) -> u8 {
        if self.ram_enable && Self::cell(addr) < ram.len() {
            ram[Self::cell(addr)] | 0xF0
        } else {
            0xFF
        }
    }

    pub open spec fn sram_write(self, ram: Seq<u8>, addr: u16, val: u8) -> Seq<u8> {
        if self.ram_enable && Self::cell(addr) < ram.len() {
            ram.update(Self::cell(addr), val)
        } else {
            ram
        }
    }
}

pub struct Mbc2 {
    pub rom: Vec<u8>,
    pub ram: Vec<u8>,
    pub regs: Mbc2Regs,
}

impl Mbc2 {
    pub fn init() -> (c: Self)
        ensures
            c.regs == (Mbc2Regs { ram_enable: false, bank: 1 }),
            c.rom@ == Seq::<u8>::empty(),
            c.ram@ == filled(512, 0xF0),
    {
        Mbc2 { rom: Vec::new(), ram: fill(512, 0xF0), regs: Mbc2Regs { ram_enable: false, bank: 1 } }
    }
}

impl CartridgeTrait for Mbc2 {
    open spec fn model(&self) -> CartModel {
        CartModel { regs: CartRegs::Mbc2(self.regs), rom: self.rom@, ram: self.ram@ }
    }

    fn init_rom_banks(&mut self, nbanks: u16, raw_rom: &Vec<u8>) -> (r: Result<(), CartridgeError>) {
        if nbanks > 16 {
            return Err(
                CartridgeError::InvalidCombination {
                    controller: Controller::Mbc2,
                    feat: Feature::RomBanks(nbanks),
                },
            );
        }
        if raw_rom.len() > (nbanks as usize) * ROM_BANK_SIZE {
            return Err(CartridgeError::OutOfRomBanks { nbanks, rom_size: raw_rom.len() / 1024 });
        }
        self.rom = load_banks(nbanks, raw_rom);
        Ok(())
    }

    fn init_ram_banks(&mut self, nbanks: u16) -> (r: Result<(), CartridgeError>) {
        if nbanks > 0 {
            return Err(
                CartridgeError::InvalidCombination {
                    controller: Controller::Mbc2,
                    feat: Feature::RamBanks(nbanks),
                },
            );
        }
        Ok(())
    }

    fn rom0_read(&self, addr: u16) -> (v: u8) {
        read_rom(&self.rom, 0, addr as usize)
    }

    fn romx_read(&self, addr: u16) -> (v: u8) {
        read_rom(&self.rom, self.regs.bank as usize, (addr - 0x4000) as usize)
    }

    fn sram_read(&self, addr: u16) -> (v: u8) {
        let i = (addr % 0x200) as usize;
        if self.regs.ram_enable && i < self.ram.len() {
            self.ram[i] | 0xF0
        } else {
            0xFF
        }
    }

    fn rom0_write(&mut self, addr: u16, val: u8) {
        if (addr & 0x0100) != 0 {
            self.regs.bank = val & 0x0F;
            if self.regs.bank == 0 {
                self.regs.bank = 1;
            }
        } else {
            self.regs.ram_enable = (val & 0x0F) == 0x0A;
        }
    }

    fn romx_write(&mut self, addr: u16, val: u8) {
    }

    fn sram_write(&mut self, addr: u16, val: u8) {
        let i = (addr % 0x200) as usize;
        if self.regs.ram_enable && i < self.ram.len() {
            self.ram.set(i, val);
        }
    }
}

} // verus!
