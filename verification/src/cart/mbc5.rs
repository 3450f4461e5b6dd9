//! MBC5: up to 512 ROM banks behind a nine-bit bank number, up to 16 RAM
//! banks, and an optional rumble motor.

use vstd::prelude::*;
use crate::cart::banks::{fill, filled, load_banks, ram_byte, ram_store, read_ram, read_rom, rom_byte, write_ram, RAM_BANK_SIZE, ROM_BANK_SIZE};
use crate::cart::error::{CartridgeError, Controller, Feature};
use crate::cart::model::{CartModel, CartRegs, CartridgeTrait};

verus! {

#[derive(Clone, Copy, Debug, PartialEq, Eq, Structural)]
pub struct Mbc5Regs {
    pub has_ram: bool,
    pub has_rumble: bool,
    /// The low eight bits of the ROM bank number. Zero selects bank 0.
    pub rom_bank_lo: u8,
    /// The ninth bit of the ROM bank number.
    pub rom_bank_hi: u8,
    pub ram_bank: u8,
    pub ram_enable: bool,
}

impl Mbc5Regs {
    pub open spec fn accepts_rom(self, nbanks: u16) -> bool {
        nbanks <= 512
    }

    pub open spec fn accepts_ram(self, nbanks: u16) -> bool {
        if self.has_ram {
            nbanks == 1 || nbanks == 4 || nbanks == 16
        } else {
            nbanks == 0
        }
    }

    pub open spec fn ram_for(self, ram: Seq<u8>, nbanks: u16) -> Seq<u8> {
        if self.has_ram {
            filled(nbanks * 0x2000, 0)
        } else {
            ram
        }
    }

    pub open spec fn spec_rom0_write(self, addr: u16, val: u8) -> Self {
        if addr <= 0x1FFF {
            Mbc5Regs { ram_enable: val & 0x0F == 0x0A, ..self }
        } else if addr <= 0x2FFF {
            Mbc5Regs { rom_bank_lo: val, ..self }
        } else {
            Mbc5Regs { rom_bank_hi: val & 0x01, ..self }
        }
    }

    /// A write in 0x4000..=0x5FFF selects the RAM bank; with a rumble motor
    /// bit 3 drives the motor and is no part of the bank number.
    pub open spec fn spec_romx_write(self, addr: u16, val: u8) -> Self {
        if addr <= 0x5FFF {
            Mbc5Regs {
                ram_bank: if self.has_rumble {
                    val & 0x07
                } else {
                    val & 0x0F
                },
                ..self
            }
        } else {
            self
        }
    }

    /// The nine-bit number of the bank in the switchable window.
    pub open spec fn romx_bank(self) -> int {
        self.rom_bank_hi * 256 + self.rom_bank_lo
    }

    pub open spec fn rom0_read(self, rom: Seq<u8>, addr: u16) -> u8 {
        rom_byte(rom, 0, addr as int)
    }

    pub open spec fn romx_read(self, rom: Seq<u8>, addr: u16) -> u8 {
        rom_byte(rom, self.romx_bank(), addr - 0x4000)
    }

    pub open spec fn sram_read(self, ram: Seq<u8>, addr: u16) -> u8 {
        if self.has_ram && self.ram_enable {
            ram_byte(ram, self.ram_bank as int, addr - 0xA000)
        } else {
            0xFF
        }
    }

    pub open spec fn sram_write(self, ram: Seq<u8>, addr: u16, val: u8) -> Seq<u8> {
        if self.has_ram && self.ram_enable {
            ram_store(ram, self.ram_bank as int, addr - 0xA000, val)
        } else {
            ram
        }
    }
}

pub struct Mbc5 {
    pub rom: Vec<u8>,
    pub ram: Vec<u8>,
    pub regs: Mbc5Regs,
}

impl Mbc5 {
    pub fn init(has_ram: bool, has_rumble: bool) -> (c: Self)
        ensures
            c.regs == (Mbc5Regs {
                has_ram,
                has_rumble,
                rom_bank_lo: 0,
                rom_bank_hi: 0,
                ram_bank: 0,
                ram_enable: false,
            }),
            c.rom@ == Seq::<u8>::empty(),
            c.ram@ == Seq::<u8>::empty(),
    {
        Mbc5 {
            rom: Vec::new(),
            ram: Vec::new(),
            regs: Mbc5Regs {
                has_ram,
                has_rumble,
                rom_bank_lo: 0,
                rom_bank_hi: 0,
                ram_bank: 0,
                ram_enable: false,
            },
        }
    }
}

impl CartridgeTrait for Mbc5 {
    open spec fn model(&self) -> CartModel {
        CartModel { regs: CartRegs::Mbc5(self.regs), rom: self.rom@, ram: self.ram@ }
    }

    fn init_rom_banks(&mut self, nbanks: u16, raw_rom: &Vec<u8>) -> (r: Result<(), CartridgeError>) {
        if nbanks > 512 {
            return Err(
                CartridgeError::InvalidCombination {
                    controller: Controller::Mbc5,
                    feat: Feature::RomBanks(nbanks),
                },
            );
        }
        if raw_rom.len() > (nbanks as usize) * ROM_BANK_SIZE {
            return Err(CartridgeError::OutOfRomBanks { nbanks, rom_size: raw_rom.len() / 1024 });
        }
        self.rom = load_banks(nbanks, raw_rom);
        Ok(())
    }

    fn init_ram_banks(&mut self, nbanks: u16) -> (r: Result<(), CartridgeError>) {
        if (self.regs.has_ram && nbanks != 1 && nbanks != 4 && nbanks != 16) || (!self.regs.has_ram
            && nbanks != 0) {
            return Err(
                CartridgeError::InvalidCombination {
                    controller: Controller::Mbc5,
                    feat: Feature::RamBanks(nbanks),
                },
            );
        }
        if self.regs.has_ram {
            self.ram = fill((nbanks as usize) * RAM_BANK_SIZE, 0);
        }
        Ok(())
    }

    fn rom0_read(&self, addr: u16) -> (v: u8) {
        read_rom(&self.rom, 0, addr as usize)
    }

    fn romx_read(&self, addr: u16) -> (v: u8) {
        let rom_bank = (self.regs.rom_bank_hi as usize) * 256 + (self.regs.rom_bank_lo as usize);
        read_rom(&self.rom, rom_bank, (addr - 0x4000) as usize)
    }

    fn sram_read(&self, addr: u16) -> (v: u8) {
        if self.regs.has_ram && self.regs.ram_enable {
            read_ram(&self.ram, self.regs.ram_bank as usize, (addr - 0xA000) as usize)
        } else {
            0xFF
        }
    }

    fn rom0_write(&mut self, addr: u16, val: u8) {
        if addr <= 0x1FFF {
            self.regs.ram_enable = (val & 0x0F) == 0x0A;
        } else if addr <= 0x2FFF {
            self.regs.rom_bank_lo = val;
        } else {
            self.regs.rom_bank_hi = val & 0x01;
        }
    }

    fn romx_write(&mut self, addr: u16, val: u8) {
        if addr <= 0x5FFF {
            if self.regs.has_rumble {
                self.regs.ram_bank = val & 0x07;
            } else {
                self.regs.ram_bank = val & 0x0F;
            }
        }
    }

    fn sram_write(&mut self, addr: u16, val: u8) {
        if self.regs.has_ram && self.regs.ram_enable {
            let bank = self.regs.ram_bank;
            write_ram(&mut self.ram, bank as usize, (addr - 0xA000) as usize, val);
        }
    }
}

} // verus!
