use dmg_core::cart::boxed_cartridge;
use dmg_core::cart::error::{CartridgeError, Controller, Feature};
use dmg_core::cart::header::{header_checksum, load_rom, ram_banks, rom_banks};
use dmg_core::cart::mbc1::{bank_mask, Mbc1};
use dmg_core::cart::mbc2::Mbc2;
use dmg_core::cart::mbc3::Mbc3;
use dmg_core::cart::mbc5::Mbc5;
use dmg_core::cart::model::CartridgeTrait;
use dmg_core::cart::no_mbc::NoMbc;
use dmg_core::cart::CartridgeEnum;

/// An image of `banks` banks in which every byte of bank `n` is `n`, with
/// the header bytes given and a matching checksum.
fn image(banks: usize, cart_type: u8, rom_code: u8, ram_code: u8) -> Vec<u8> {
    let mut rom = vec![0u8; banks * 0x4000];
    for (i, byte) in rom.iter_mut().enumerate() {
        *byte = (i / 0x4000) as u8;
    }
    for i in 0x0134..=0x014F {
        rom[i] = 0;
    }
    rom[0x0147] = cart_type;
    rom[0x0148] = rom_code;
    rom[0x0149] = ram_code;
    let mut sum: u8 = 0;
    for i in 0x0134..=0x014C {
        sum = sum.wrapping_sub(rom[i]).wrapping_sub(1);
    }
    rom[0x014D] = sum;
    rom
}

fn loaded(banks: usize, cart_type: u8, rom_code: u8, ram_code: u8) -> CartridgeEnum {
    match load_rom(&image(banks, cart_type, rom_code, ram_code)) {
        Ok(cart) => cart,
        Err(e) => panic!("{:?}", e),
    }
}

fn refused(rom: &Vec<u8>) -> CartridgeError {
    match load_rom(rom) {
        Ok(_) => panic!("the image was taken"),
        Err(e) => e,
    }
}

#[test]
fn mbc1_bank_number_wraps_at_the_bank_count() {
    let mut cart = loaded(4, 0x01, 0x01, 0x00);
    cart.rom0_write(0x2100, 0x05);
    assert_eq!(cart.romx_read(0x4000), 1);
    assert_eq!(cart.romx_read(0x7FFF), 1);
    assert_eq!(cart.rom0_read(0x0000), 0);
}

#[test]
fn mbc1_selects_every_bank() {
    let mut cart = loaded(64, 0x01, 0x05, 0x00);
    for bank in 1..64u8 {
        cart.rom0_write(0x2000, bank & 0x1F);
        cart.romx_write(0x4000, bank >> 5);
        let expect = if bank & 0x1F == 0 { bank + 1 } else { bank };
        assert_eq!(cart.romx_read(0x4000), expect);
    }
}

#[test]
fn mbc1_bank_zero_becomes_one() {
    let mut cart = loaded(4, 0x01, 0x01, 0x00);
    cart.rom0_write(0x2000, 0x00);
    assert_eq!(cart.romx_read(0x4000), 1);
    cart.rom0_write(0x2000, 0x20);
    assert_eq!(cart.romx_read(0x4000), 1);
}

#[test]
fn mbc1_mode_one_remaps_the_fixed_window_and_the_ram() {
    let mut cart = loaded(64, 0x03, 0x05, 0x03);
    cart.rom0_write(0x0000, 0x0A);
    cart.romx_write(0x4000, 0x01);
    // mode 0: bank 0 in the fixed window, RAM bank 0
    assert_eq!(cart.rom0_read(0x0200), 0);
    cart.sram_write(0xA000, 0x11);
    cart.romx_write(0x6000, 0x01);
    // mode 1: bank 32 in the fixed window, RAM bank 1
    assert_eq!(cart.rom0_read(0x0200), 32);
    assert_eq!(cart.sram_read(0xA000), 0x00);
    cart.sram_write(0xA000, 0x22);
    assert_eq!(cart.sram_read(0xA000), 0x22);
    cart.romx_write(0x6000, 0x00);
    assert_eq!(cart.sram_read(0xA000), 0x11);
}

#[test]
fn bank_masks() {
    assert_eq!(bank_mask(0), 0x00);
    assert_eq!(bank_mask(1), 0x00);
    assert_eq!(bank_mask(2), 0x01);
    assert_eq!(bank_mask(3), 0x03);
    assert_eq!(bank_mask(4), 0x03);
    assert_eq!(bank_mask(5), 0x07);
    assert_eq!(bank_mask(32), 0x1F);
    assert_eq!(bank_mask(128), 0x7F);
    assert_eq!(bank_mask(129), 0xFF);
}

#[test]
fn ram_reads_ff_until_enabled() {
    for cart_type in [0x03u8, 0x13, 0x1B] {
        let mut cart = loaded(2, cart_type, 0x00, 0x02);
        cart.sram_write(0xA123, 0x42);
        assert_eq!(cart.sram_read(0xA123), 0xFF);
        cart.rom0_write(0x0000, 0x0A);
        assert_eq!(cart.sram_read(0xA123), 0x00);
        cart.sram_write(0xA123, 0x42);
        assert_eq!(cart.sram_read(0xA123), 0x42);
        cart.rom0_write(0x0000, 0x1A);
        assert_eq!(cart.sram_read(0xA123), 0x42);
        cart.rom0_write(0x0000, 0x00);
        assert_eq!(cart.sram_read(0xA123), 0xFF);
        cart.sram_write(0xA123, 0x99);
        cart.rom0_write(0x0000, 0x0A);
        assert_eq!(cart.sram_read(0xA123), 0x42);
    }
}

#[test]
fn cartridges_without_ram_read_ff() {
    for cart_type in [0x00u8, 0x01, 0x11, 0x19] {
        let mut cart = loaded(2, cart_type, 0x00, 0x00);
        cart.rom0_write(0x0000, 0x0A);
        cart.sram_write(0xA000, 0x42);
        assert_eq!(cart.sram_read(0xA000), 0xFF);
    }
}

#[test]
fn no_mbc_ram_needs_no_enable() {
    let mut cart = loaded(2, 0x08, 0x00, 0x02);
    cart.sram_write(0xBFFF, 0x42);
    assert_eq!(cart.sram_read(0xBFFF), 0x42);
    cart.rom0_write(0x2000, 0x01);
    cart.romx_write(0x4000, 0x01);
    assert_eq!(cart.rom0_read(0x0000), 0);
    assert_eq!(cart.romx_read(0x4000), 1);
}

#[test]
fn mbc2_ram_is_four_bits_wide() {
    let mut cart = loaded(4, 0x05, 0x01, 0x00);
    assert_eq!(cart.sram_read(0xA000), 0xFF);
    cart.rom0_write(0x0000, 0x0A);
    cart.sram_write(0xA000, 0x05);
    assert_eq!(cart.sram_read(0xA000), 0xF5);
    // the low nine address bits count
    assert_eq!(cart.sram_read(0xA200), 0xF5);
    // with address bit 8 set the write selects the ROM bank
    cart.rom0_write(0x0100, 0x03);
    assert_eq!(cart.romx_read(0x4000), 3);
    cart.rom0_write(0x2100, 0x00);
    assert_eq!(cart.romx_read(0x4000), 1);
    assert_eq!(cart.sram_read(0xA000), 0xF5);
}

#[test]
fn mbc3_switches_banks_and_latches_the_clock() {
    let mut cart = loaded(8, 0x10, 0x02, 0x03);
    cart.rom0_write(0x2000, 0x05);
    assert_eq!(cart.romx_read(0x4000), 5);
    cart.rom0_write(0x2000, 0x00);
    assert_eq!(cart.romx_read(0x4000), 1);
    cart.rom0_write(0x0000, 0x0A);
    // RAM bank 2
    cart.romx_write(0x4000, 0x02);
    cart.sram_write(0xA010, 0x77);
    assert_eq!(cart.sram_read(0xA010), 0x77);
    cart.romx_write(0x4000, 0x00);
    assert_eq!(cart.sram_read(0xA010), 0x00);
    // the seconds register
    cart.romx_write(0x4000, 0x08);
    cart.sram_write(0xA000, 0x3B);
    assert_eq!(cart.sram_read(0xA000), 0x00);
    cart.romx_write(0x6000, 0x00);
    cart.romx_write(0x6000, 0x01);
    assert_eq!(cart.sram_read(0xA000), 0x3B);
    cart.sram_write(0xA000, 0x01);
    cart.romx_write(0x6000, 0x01);
    assert_eq!(cart.sram_read(0xA000), 0x3B);
    // a select that names nothing
    cart.romx_write(0x4000, 0x05);
    assert_eq!(cart.sram_read(0xA000), 0xFF);
}

#[test]
fn mbc5_has_nine_bank_bits_and_allows_bank_zero() {
    let mut cart = match boxed_cartridge(0x19) {
        Ok(cart) => cart,
        Err(e) => panic!("{:?}", e),
    };
    let mut rom = vec![0u8; 512 * 0x4000];
    for (i, byte) in rom.iter_mut().enumerate() {
        *byte = ((i / 0x4000) % 251) as u8;
    }
    assert!(cart.init_rom_banks(512, &rom).is_ok());
    assert_eq!(cart.romx_read(0x4000), 0);
    cart.rom0_write(0x2000, 0x34);
    assert_eq!(cart.romx_read(0x4000), 0x34);
    cart.rom0_write(0x3000, 0x01);
    assert_eq!(cart.romx_read(0x4000), ((0x134 % 251) as u8));
    cart.rom0_write(0x2000, 0x00);
    cart.rom0_write(0x3000, 0x00);
    assert_eq!(cart.romx_read(0x4000), 0);
}

#[test]
fn mbc5_rumble_bit_is_no_bank_bit() {
    let mut cart = loaded(2, 0x1E, 0x00, 0x03);
    cart.rom0_write(0x0000, 0x0A);
    cart.romx_write(0x4000, 0x01);
    cart.sram_write(0xA000, 0x42);
    cart.romx_write(0x4000, 0x09);
    assert_eq!(cart.sram_read(0xA000), 0x42);
}

#[test]
fn a_bank_that_the_cartridge_lacks_reads_ff() {
    let mut cart = loaded(8, 0x11, 0x02, 0x00);
    cart.rom0_write(0x2000, 0x7F);
    assert_eq!(cart.romx_read(0x4000), 0xFF);
}

#[test]
fn controllers_take_their_bank_counts() {
    let raw = vec![0u8; 0x8000];
    for banks in [0u16, 1, 2, 3, 16, 17, 128, 129, 512, 513] {
        assert_eq!(NoMbc::init(false).init_rom_banks(banks, &raw).is_ok(), banks == 2);
        assert_eq!(Mbc1::init(false).init_rom_banks(banks, &raw).is_ok(), banks >= 2 && banks <= 128);
        assert_eq!(Mbc2::init().init_rom_banks(banks, &raw).is_ok(), banks >= 2 && banks <= 16);
        assert_eq!(Mbc3::init(false, false).init_rom_banks(banks, &raw).is_ok(), banks >= 2 && banks <= 128);
        assert_eq!(Mbc5::init(false, false).init_rom_banks(banks, &raw).is_ok(), banks >= 2 && banks <= 512);
    }
    for banks in [0u16, 1, 2, 4, 5, 8, 16, 17] {
        assert_eq!(NoMbc::init(false).init_ram_banks(banks).is_ok(), banks == 0);
        assert_eq!(NoMbc::init(true).init_ram_banks(banks).is_ok(), banks <= 1);
        assert_eq!(Mbc1::init(false).init_ram_banks(banks).is_ok(), banks == 0);
        assert_eq!(Mbc1::init(true).init_ram_banks(banks).is_ok(), banks <= 4);
        assert_eq!(Mbc2::init().init_ram_banks(banks).is_ok(), banks == 0);
        assert_eq!(Mbc3::init(false, true).init_ram_banks(banks).is_ok(), banks == 0);
        assert_eq!(Mbc3::init(true, false).init_ram_banks(banks).is_ok(), banks <= 4);
        assert_eq!(Mbc5::init(false, true).init_ram_banks(banks).is_ok(), banks == 0);
        assert_eq!(Mbc5::init(true, false).init_ram_banks(banks).is_ok(), banks == 1 || banks == 4 || banks == 16);
    }
}

#[test]
fn a_short_image_is_padded_with_zeros() {
    let mut cart = Mbc1::init(false);
    let raw = vec![0x55u8; 0x4100];
    assert!(cart.init_rom_banks(2, &raw).is_ok());
    assert_eq!(cart.rom0_read(0x3FFF), 0x55);
    assert_eq!(cart.romx_read(0x40FF), 0x55);
    assert_eq!(cart.romx_read(0x4100), 0x00);
}

#[test]
fn refusals_name_controller_and_count() {
    let raw = vec![0u8; 0x8000];
    assert_eq!(
        Mbc1::init(false).init_rom_banks(256, &raw),
        Err(CartridgeError::InvalidCombination { controller: Controller::Mbc1, feat: Feature::RomBanks(256) })
    );
    assert_eq!(
        Mbc2::init().init_ram_banks(1),
        Err(CartridgeError::InvalidCombination { controller: Controller::Mbc2, feat: Feature::RamBanks(1) })
    );
    assert_eq!(
        NoMbc::init(false).init_rom_banks(4, &raw),
        Err(CartridgeError::InvalidCombination { controller: Controller::NoMbc, feat: Feature::RomBanks(4) })
    );
    assert_eq!(
        Mbc3::init(true, true).init_ram_banks(8),
        Err(CartridgeError::InvalidCombination { controller: Controller::Mbc3, feat: Feature::RamBanks(8) })
    );
    assert_eq!(
        Mbc5::init(true, false).init_ram_banks(8),
        Err(CartridgeError::InvalidCombination { controller: Controller::Mbc5, feat: Feature::RamBanks(8) })
    );
    let long = vec![0u8; 0x8001];
    assert_eq!(
        NoMbc::init(false).init_rom_banks(2, &long),
        Err(CartridgeError::OutOfRomBanks { nbanks: 2, rom_size: 32 })
    );
}

#[test]
fn load_refuses_what_it_cannot_run() {
    assert_eq!(refused(&vec![0u8; 0x014F]), CartridgeError::TruncatedHeader { len: 0x014F });
    let mut rom = image(2, 0x00, 0x00, 0x00);
    rom[0x0143] = 0xC0;
    assert_eq!(refused(&rom), CartridgeError::CgbOnly);
    assert_eq!(refused(&image(2, 0x04, 0x00, 0x00)), CartridgeError::InvalidType { tp: 0x04 });
    assert_eq!(refused(&image(2, 0xFF, 0x00, 0x00)), CartridgeError::InvalidType { tp: 0xFF });
    assert_eq!(refused(&image(2, 0x00, 0x0F, 0x00)), CartridgeError::InvalidRomSize { code: 0x0F });
    assert_eq!(
        refused(&image(2, 0x00, 0x01, 0x00)),
        CartridgeError::InvalidCombination { controller: Controller::NoMbc, feat: Feature::RomBanks(4) }
    );
    assert_eq!(
        refused(&image(4, 0x01, 0x00, 0x00)),
        CartridgeError::OutOfRomBanks { nbanks: 2, rom_size: 64 }
    );
    assert_eq!(refused(&image(2, 0x01, 0x00, 0x06)), CartridgeError::InvalidRamSize { code: 0x06 });
    assert_eq!(
        refused(&image(2, 0x01, 0x00, 0x02)),
        CartridgeError::InvalidCombination { controller: Controller::Mbc1, feat: Feature::RamBanks(1) }
    );
    let mut rom = image(2, 0x00, 0x00, 0x00);
    let stored = rom[0x014D];
    rom[0x014D] = stored.wrapping_add(1);
    assert_eq!(
        refused(&rom),
        CartridgeError::ChecksumMismatch { computed: stored, stored: stored.wrapping_add(1) }
    );
}

#[test]
fn header_checksum_of_a_known_header() {
    let mut rom = vec![0u8; 0x0150];
    // 25 zero bytes: 0 - 25 in eight bits
    assert_eq!(header_checksum(&rom), 0xE7);
    rom[0x0134] = 0x01;
    rom[0x014C] = 0x02;
    assert_eq!(header_checksum(&rom), 0xE4);
    rom[0x014D] = 0x99;
    rom[0x0133] = 0x99;
    assert_eq!(header_checksum(&rom), 0xE4);
}

#[test]
fn size_codes() {
    assert_eq!(rom_banks(0), Some(2));
    assert_eq!(rom_banks(1), Some(4));
    assert_eq!(rom_banks(8), Some(512));
    assert_eq!(rom_banks(14), Some(32768));
    assert_eq!(rom_banks(15), None);
    assert_eq!(ram_banks(0), Some(0));
    assert_eq!(ram_banks(1), Some(1));
    assert_eq!(ram_banks(2), Some(1));
    assert_eq!(ram_banks(3), Some(4));
    assert_eq!(ram_banks(4), Some(16));
    assert_eq!(ram_banks(5), Some(8));
    assert_eq!(ram_banks(6), None);
}

#[test]
fn cartridge_types() {
    for code in 0..=255u8 {
        let known = matches!(code, 0x00 | 0x01 | 0x02 | 0x03 | 0x05 | 0x06 | 0x08 | 0x09 | 0x0F | 0x10 | 0x11 | 0x12 | 0x13 | 0x19 | 0x1A | 0x1B | 0x1C | 0x1D | 0x1E);
        match boxed_cartridge(code) {
            Ok(cart) => {
                assert!(known);
                let kind = match cart {
                    CartridgeEnum::NoMbc(_) => 0,
                    CartridgeEnum::Mbc1(_) => 1,
                    CartridgeEnum::Mbc2(_) => 2,
                    CartridgeEnum::Mbc3(_) => 3,
                    CartridgeEnum::Mbc5(_) => 5,
                };
                let expect = match code {
                    0x00 | 0x08 | 0x09 => 0,
                    0x01..=0x03 => 1,
                    0x05 | 0x06 => 2,
                    0x0F..=0x13 => 3,
                    _ => 5,
                };
                assert_eq!(kind, expect);
            }
            Err(e) => {
                assert!(!known);
                assert_eq!(e, CartridgeError::InvalidType { tp: code });
            }
        }
    }
    match boxed_cartridge(0x1D) {
        Ok(CartridgeEnum::Mbc5(c)) => assert!(c.regs.has_ram && c.regs.has_rumble),
        _ => panic!(),
    }
    match boxed_cartridge(0x0F) {
        Ok(CartridgeEnum::Mbc3(c)) => assert!(!c.regs.has_ram && c.regs.has_rtc),
        _ => panic!(),
    }
}
