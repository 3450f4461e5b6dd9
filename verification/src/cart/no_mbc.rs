//! Cartridges without a controller: two fixed ROM banks and at most one
//! bank of RAM.

use vstd::prelude::*;
use crate::cart::banks::{fill, filled, load_banks, ram_byte, ram_store, read_ram, read_rom, rom_byte, write_ram, RAM_BANK_SIZE};
use crate::cart::error::{CartridgeError, Controller, Feature};
use crate::cart::model::{CartModel, CartRegs, CartridgeTrait};

verus! {

#[derive(Clone, Copy, Debug, PartialEq, Eq, Structural)]
pub struct NoMbcRegs {
    pub has_ram: bool,
}

impl NoMbcRegs {
    pub open spec fn accepts_rom(self, nbanks: u16) -> bool {
        nbanks == 2
    }

    pub open spec fn accepts_ram(self, nbanks: u16) -> bool {
        if self.has_ram {
            nbanks <= 1
        } else {
            nbanks == 0
        }
    }

    pub open spec fn rom0_read(self, rom: Seq<u8>, addr: u16) -> u8 {
        rom_byte(rom, 0, addr as int)
    }

    pub open spec fn romx_read(self, rom: Seq<u8>, addr: u16) -> u8 {
        rom_byte(rom, 1, addr - 0x4000)
    }

    pub open spec fn sram_read(self, ram: Seq<u8>, addr: u16) -> u8 {
        if self.has_ram {
            ram_byte(ram, 0, addr - 0xA000)
        } else {
            0xFF
        }
    }

    pub open spec fn sram_write(self, ram: Seq<u8>, addr: u16, val: u8) -> Seq<u8> {
        if self.has_ram {
            ram_store(ram, 0, addr - 0xA000, val)
        } else {
            ram
        }
    }
}

pub struct NoMbc {
    pub rom: Vec<u8>,
    pub ram: Vec<u8>,
    pub regs: NoMbcRegs,
}

impl NoMbc {
    /// A cartridge with no ROM loaded yet and, if it has RAM, one bank of
    /// zeros.
    pub fn init(ram: bool) -> (c: Self)
        ensures
            c.regs == (NoMbcRegs { has_ram: ram }),
            c.rom@ == Seq::<u8>::empty(),
            c.ram@ == (if ram {
                filled(0x2000, 0)
            } else {
                Seq::<u8>::empty()
            }),
    {
        let bytes = if ram {
            fill(RAM_BANK_SIZE, 0)
        } else {
            Vec::new()
        };
        NoMbc { rom: Vec::new(), ram: bytes, regs: NoMbcRegs { has_ram: ram } }
    }
}

impl CartridgeTrait for NoMbc {
    open spec fn model(&self) -> CartModel {
        CartModel { regs: CartRegs::NoMbc(self.regs), rom: self.rom@, ram: self.ram@ }
    }

    fn init_rom_banks(&mut self, nbanks: u16, raw_rom: &Vec<u8>) -> (r: Result<(), CartridgeError>) {
        if nbanks != 2 {
            return Err(
                CartridgeError::InvalidCombination {
                    controller: Controller::NoMbc,
                    feat: Feature::RomBanks(nbanks),
                },
            );
        }
        if raw_rom.len() > 0x8000 {
            return Err(CartridgeError::OutOfRomBanks { nbanks, rom_size: raw_rom.len() / 1024 });
        }
        self.rom = load_banks(nbanks, raw_rom);
        Ok(())
    }

    fn init_ram_banks(&mut self, nbanks: u16) -> (r: Result<(), CartridgeError>) {
        if (self.regs.has_ram && nbanks > 1) || (!self.regs.has_ram && nbanks != 0) {
            return Err(
                CartridgeError::InvalidCombination {
                    controller: Controller::NoMbc,
                    feat: Feature::RamBanks(nbanks),
                },
            );
        }
        Ok(())
    }

    fn rom0_read(&self, addr: u16) -> (v: u8) {
        read_rom(&self.rom, 0, addr as usize)
    }

    fn romx_read(&self, addr: u16) -> (v: u8) {
        read_rom(&self.rom, 1, (addr - 0x4000) as usize)
    }

    fn sram_read(&self, addr: u16) -> (v: u8) {
        if self.regs.has_ram {
            read_ram(&self.ram, 0, (addr - 0xA000) as usize)
        } else {
            0xFF
        }
    }

    fn rom0_write(&mut self, addr: u16, val: u8) {
    }

    fn romx_write(&mut self, addr: u16, val: u8) {
    }

    fn sram_write(&mut self, addr: u16, val: u8) {
        if self.regs.has_ram {
            write_ram(&mut self.ram, 0, (addr - 0xA000) as usize, val);
        }
    }
}

} // verus!
