//! Cartridge storage: the ROM image cut into 16 KiB banks and the external
//! RAM in 8 KiB banks, both held as flat byte vectors.

use vstd::prelude::*;

verus! {

pub const ROM_BANK_SIZE: usize = 0x4000;

pub const RAM_BANK_SIZE: usize = 0x2000;

/// The byte at `offset` of ROM bank `bank`; 0xFF where the cartridge has no
/// such bank.
pub open spec fn rom_byte(rom: Seq<u8>, bank: int, offset: int) -> u8 {
    let i = bank * 0x4000 + offset;
    if 0 <= i < rom.len() {
        rom[i]
    } else {
        0xFF
    }
}

/// Where in the RAM the byte at `offset` of bank `bank` lies, if the
/// cartridge has such a bank.
pub open spec fn ram_index(ram: Seq<u8>, bank: int, offset: int) -> Option<int> {
    let i = bank * 0x2000 + offset;
    if 0 <= i < ram.len() {
        Some(i)
    } else {
        None
    }
}

/// What a read of external RAM gives: the byte, or 0xFF where there is none.
pub open spec fn ram_byte(ram: Seq<u8>, bank: int, offset: int) -> u8 {
    match ram_index(ram, bank, offset) {
        Some(i) => ram[i],
        None => 0xFF,
    }
}

/// The RAM after a write: the byte is stored, or the write is dropped where
/// there is no such byte.
pub open spec fn ram_store(ram: Seq<u8>, bank: int, offset: int, val: u8) -> Seq<u8> {
    match ram_index(ram, bank, offset) {
        Some(i) => ram.update(i, val),
        None => ram,
    }
}

/// `nbanks` banks that hold the image from their start and zeros after its
/// end.
pub open spec fn rom_image(raw: Seq<u8>, nbanks: int) -> Seq<u8> {
    Seq::new(
        (nbanks * 0x4000) as nat,
        |i: int|
            if i < raw.len() {
                raw[i]
            } else {
                0u8
            },
    )
}

/// `len` bytes of the same value.
pub open spec fn filled(len: int, val: u8) -> Seq<u8> {
    Seq::new(len as nat, |i: int| val)
}

pub fn read_rom(rom: &Vec<u8>, bank: usize, offset: usize) -> (v: u8)
    requires
        bank <= 0xFFFF,
        offset < 0x4000,
    ensures
        v == rom_byte(rom@, bank as int, offset as int),
{
    let i = bank * ROM_BANK_SIZE + offset;
    if i < rom.len() {
        rom[i]
    } else {
        0xFF
    }
}

pub fn read_ram(ram: &Vec<u8>, bank: usize, offset: usize) -> (v: u8)
    requires
        bank <= 0xFFFF,
        offset < 0x2000,
    ensures
        v == ram_byte(ram@, bank as int, offset as int),
{
    let i = bank * RAM_BANK_SIZE + offset;
    if i < ram.len() {
        ram[i]
    } else {
        0xFF
    }
}

pub fn write_ram(ram: &mut Vec<u8>, bank: usize, offset: usize, val: u8)
    requires
        bank <= 0xFFFF,
        offset < 0x2000,
    ensures
        final(ram)@ == ram_store(old(ram)@, bank as int, offset as int, val),
{
    let i = bank * RAM_BANK_SIZE + offset;
    if i < ram.len() {
        ram.set(i, val);
    }
}

/// Copies the image into `nbanks` fresh banks.
pub fn load_banks(nbanks: u16, raw_rom: &Vec<u8>) -> (rom: Vec<u8>)
    ensures
        rom@ == rom_image(raw_rom@, nbanks as int),
{
    let total: usize = (nbanks as usize) * ROM_BANK_SIZE;
    let mut rom: Vec<u8> = Vec::with_capacity(total);
    let mut i: usize = 0;
    while i < total
        invariant
            i <= total,
            total == nbanks * 0x4000,
            rom@.len() == i,
            forall|k: int|
                0 <= k < i ==> rom@[k] == (if k < raw_rom@.len() {
                    raw_rom@[k]
                } else {
                    0u8
                }),
        decreases total - i,
    {
        let b = if i < raw_rom.len() {
            raw_rom[i]
        } else {
            0
        };
        rom.push(b);
        i += 1;
    }
    assert(rom@ =~= rom_image(raw_rom@, nbanks as int));
    rom
}

/// `len` bytes of the same value.
pub fn fill(len: usize, val: u8) -> (v: Vec<u8>)
    ensures
        v@ == filled(len as int, val),
{
    let mut v: Vec<u8> = Vec::with_capacity(len);
    let mut i: usize = 0;
    while i < len
        invariant
            i <= len,
            v@.len() == i,
            forall|k: int| 0 <= k < i ==> v@[k] == val,
        decreases len - i,
    {
        v.push(val);
        i += 1;
    }
    assert(v@ =~= filled(len as int, val));
    v
}

} // verus!
