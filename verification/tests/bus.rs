use dmg_core::cart::header::load_rom;
use dmg_core::gameboy::GameBoy;
use dmg_core::joypad::Button;
use dmg_core::mem::{HRam, MemoryUnit, Oam, Unused, VRam, WRam0, WRamX};
use dmg_core::ppu::DmaStatus;

fn machine() -> GameBoy {
    let mut rom = vec![0u8; 0x8000];
    for (i, byte) in rom.iter_mut().enumerate() {
        *byte = (i % 253) as u8;
    }
    for i in 0x0134..=0x014F {
        rom[i] = 0;
    }
    let mut sum: u8 = 0;
    for i in 0x0134..=0x014C {
        sum = sum.wrapping_sub(rom[i]).wrapping_sub(1);
    }
    rom[0x014D] = sum;
    match load_rom(&rom) {
        Ok(cart) => GameBoy::init(cart),
        Err(e) => panic!("{:?}", e),
    }
}

fn advance(gb: &mut GameBoy, cycles: u32) {
    for _ in 0..cycles / 4 {
        gb.advance_cycles(4);
    }
}

#[test]
fn the_machine_starts_as_the_boot_rom_leaves_it() {
    let gb = machine();
    assert_eq!(gb.cpu.rd_af(), 0x01B0);
    assert_eq!(gb.cpu.rd_bc(), 0x0013);
    assert_eq!(gb.cpu.rd_de(), 0x00D8);
    assert_eq!(gb.cpu.rd_hl(), 0x014D);
    assert_eq!(gb.cpu.sp, 0xFFFE);
    assert_eq!(gb.cpu.pc, 0x0100);
    assert_eq!(gb.cycles, 0);
    assert_eq!(gb.read(0xFF40), 0x91);
    assert_eq!(gb.read(0xFF47), 0xE4);
    assert_eq!(gb.borrow_framebuffer().len(), 160 * 144);
}

#[test]
fn rom_is_read_and_not_written() {
    let mut gb = machine();
    assert_eq!(gb.read(0x0000), 0);
    assert_eq!(gb.read(0x0100), (0x100 % 253) as u8);
    assert_eq!(gb.read(0x7FFF), (0x7FFF % 253) as u8);
    gb.write(0x0100, 0xAA);
    assert_eq!(gb.read(0x0100), (0x100 % 253) as u8);
}

#[test]
fn echo_ram_mirrors_work_ram() {
    let mut gb = machine();
    gb.write(0xC123, 0x11);
    gb.write(0xD456, 0x22);
    assert_eq!(gb.read(0xE123), 0x11);
    assert_eq!(gb.read(0xF456), 0x22);
    gb.write(0xE000, 0x33);
    gb.write(0xFDFF, 0x44);
    assert_eq!(gb.read(0xC000), 0x33);
    assert_eq!(gb.read(0xDDFF), 0x44);
}

#[test]
fn the_unused_window_reads_zero() {
    let mut gb = machine();
    gb.write(0xFEA0, 0x55);
    gb.write(0xFEFF, 0x55);
    assert_eq!(gb.read(0xFEA0), 0);
    assert_eq!(gb.read(0xFEFF), 0);
}

#[test]
fn registers_read_with_their_unused_bits_set() {
    let mut gb = machine();
    gb.write(0xFF00, 0x00);
    assert_eq!(gb.read(0xFF00) & 0xC0, 0xC0);
    gb.write(0xFF02, 0x00);
    assert_eq!(gb.read(0xFF02), 0x7E);
    gb.write(0xFF07, 0x00);
    assert_eq!(gb.read(0xFF07), 0xF8);
    gb.write(0xFF0F, 0x00);
    assert_eq!(gb.read(0xFF0F), 0xE0);
    gb.write(0xFF41, 0x00);
    assert_eq!(gb.read(0xFF41) & 0x80, 0x80);
    gb.write(0xFF01, 0x42);
    assert_eq!(gb.read(0xFF01), 0x42);
    gb.write(0xFFFF, 0xFF);
    assert_eq!(gb.read(0xFFFF), 0xFF);
    gb.write(0xFF06, 0x42);
    assert_eq!(gb.read(0xFF06), 0x42);
    gb.write(0xFF05, 0x43);
    assert_eq!(gb.read(0xFF05), 0x43);
}

#[test]
fn registers_that_do_not_exist_read_ff() {
    let mut gb = machine();
    for addr in [0xFF03u16, 0xFF08, 0xFF0E, 0xFF10, 0xFF26, 0xFF30, 0xFF3F, 0xFF4C, 0xFF4F, 0xFF50, 0xFF55, 0xFF68, 0xFF70, 0xFF7F] {
        gb.write(addr, 0x00);
        assert_eq!(gb.read(addr), 0xFF);
    }
}

#[test]
fn high_ram_holds_what_is_written() {
    let mut gb = machine();
    for addr in 0xFF80..=0xFFFEu16 {
        gb.write(addr, (addr & 0xFF) as u8);
    }
    for addr in 0xFF80..=0xFFFEu16 {
        assert_eq!(gb.read(addr), (addr & 0xFF) as u8);
    }
    assert_eq!(gb.read(0xFFFF), 0x00);
}

#[test]
fn a_memory_cycle_takes_four_t_cycles() {
    let mut gb = machine();
    gb.write(0xC000, 0x42);
    assert_eq!(gb.cycles, 0);
    assert_eq!(gb.cycle_read(0xC000), 0x42);
    assert_eq!(gb.cycles, 4);
    assert_eq!(gb.timer.div, 4);
    assert_eq!(gb.ppu.cycles, 4);
    gb.cycle_write(0xC001, 0x43);
    assert_eq!(gb.cycles, 8);
    assert_eq!(gb.read(0xC001), 0x43);
    gb.cpu.pc = 0xC001;
    assert_eq!(gb.dpc(-1), 0x42);
    assert_eq!(gb.cycle_dpc(0), 0x43);
    assert_eq!(gb.cycles, 12);
    assert_eq!(gb.timer.div, 12);
    assert_eq!(gb.ppu.cycles, 12);
}

#[test]
fn writing_div_through_the_bus_clocks_tima() {
    // LD A,5 ; LDH (07),A ; XOR A ; LDH (04),A
    let mut gb = machine();
    let program = [0x3E, 0x05, 0xE0, 0x07, 0xAF, 0xE0, 0x04];
    for (i, b) in program.iter().enumerate() {
        gb.write(0xC000 + i as u16, *b);
    }
    gb.cpu.pc = 0xC000;
    gb.cpu_step();
    gb.cpu_step();
    gb.cpu_step();
    // set the divider so that bit 3 is high when DIV is written
    gb.timer.div = 0x0008;
    let tima = gb.read(0xFF05);
    gb.cpu_step();
    assert_eq!(gb.read(0xFF05), tima.wrapping_add(1));
    assert_eq!(gb.read(0xFF04), 0);
}

#[test]
fn the_timer_interrupt_reaches_the_interrupt_controller() {
    let mut gb = machine();
    gb.write(0xFF06, 0xF0);
    gb.write(0xFF05, 0xFF);
    gb.write(0xFF07, 0x05);
    advance(&mut gb, 16);
    assert_eq!(gb.read(0xFF0F) & 0x04, 0);
    advance(&mut gb, 8);
    assert_eq!(gb.read(0xFF0F) & 0x04, 0x04);
    assert_eq!(gb.read(0xFF05), 0xF0);
}

#[test]
fn vblank_reaches_the_interrupt_controller_once_per_frame() {
    let mut gb = machine();
    let mut raised = 0;
    for _ in 0..2 * 70224 / 4 {
        gb.advance_cycles(4);
        if gb.read(0xFF0F) & 0x01 != 0 {
            raised += 1;
            gb.write(0xFF0F, 0);
        }
    }
    assert_eq!(raised, 2);
}

#[test]
fn a_button_press_raises_the_joypad_interrupt() {
    let mut gb = machine();
    gb.write(0xFF00, 0x10);
    gb.advance_cycles(4);
    assert_eq!(gb.read(0xFF00), 0xDF);
    assert_eq!(gb.read(0xFF0F) & 0x10, 0);
    gb.set_button(Button::B, true);
    gb.advance_cycles(4);
    assert_eq!(gb.read(0xFF00), 0xDD);
    assert_eq!(gb.read(0xFF0F) & 0x10, 0x10);
    gb.write(0xFF0F, 0);
    gb.advance_cycles(4);
    assert_eq!(gb.read(0xFF0F) & 0x10, 0);
    gb.set_button(Button::B, false);
    gb.advance_cycles(4);
    assert_eq!(gb.read(0xFF00), 0xDF);
    assert_eq!(gb.read(0xFF0F) & 0x10, 0);
}

#[test]
fn dma_copies_a_page_to_oam() {
    let mut gb = machine();
    for i in 0..0xA0u16 {
        gb.write(0xC100 + i, (i as u8) ^ 0x5A);
    }
    gb.write(0xFF46, 0xC1);
    assert_eq!(gb.read(0xFF46), 0xC1);
    assert!(matches!(gb.ppu.oam_dma, DmaStatus::STARTING));
    advance(&mut gb, 640);
    // two machine cycles to start: the last two bytes are still to come
    assert!(matches!(gb.ppu.oam_dma, DmaStatus::ACTIVE(_)));
    assert_eq!(gb.ppu.oam.read(0xFE9D), 0x9D ^ 0x5A);
    assert_eq!(gb.ppu.oam.read(0xFE9E), 0x00);
    advance(&mut gb, 8);
    assert!(matches!(gb.ppu.oam_dma, DmaStatus::INACTIVE));
    for i in 0..0xA0u16 {
        assert_eq!(gb.ppu.oam.read(0xFE00 + i), (i as u8) ^ 0x5A);
    }
}

#[test]
fn dma_from_a_high_page_reads_work_ram() {
    let mut gb = machine();
    for i in 0..0xA0u16 {
        gb.write(0xC000 + i, i as u8 + 1);
    }
    gb.write(0xFF46, 0xE0);
    advance(&mut gb, 648);
    for i in 0..0xA0u16 {
        assert_eq!(gb.ppu.oam.read(0xFE00 + i), i as u8 + 1);
    }
}

#[test]
fn the_cpu_reads_the_dma_byte_on_the_bus_of_the_source() {
    let mut gb = machine();
    gb.write(0x8000, 0x11);
    gb.write(0x8001, 0x22);
    gb.write(0xFF80, 0x33);
    gb.write(0xC000, 0x44);
    gb.write(0xFF46, 0x80);
    // the engine is not on the bus while it starts
    assert_eq!(gb.read(0x8000), 0x11);
    gb.advance_cycles(5);
    assert_eq!(gb.read(0x8000), 0x22);
    assert_eq!(gb.read(0x9FFF), 0x22);
    // a write on that bus is dropped
    gb.write(0x8000, 0x99);
    // the other bus and high RAM are not affected
    assert_eq!(gb.read(0xC000), 0x44);
    assert_eq!(gb.read(0xFF80), 0x33);
    gb.write(0xFF80, 0x34);
    assert_eq!(gb.read(0xFF80), 0x34);
    assert_eq!(gb.read(0x0100), (0x100 % 253) as u8);
    advance(&mut gb, 648);
    assert_eq!(gb.ppu.vram.read(0x8000), 0x11);
}

#[test]
fn the_cpu_reads_the_dma_byte_on_the_main_bus() {
    let mut gb = machine();
    gb.write(0xC000, 0x44);
    gb.write(0xC001, 0x45);
    gb.write(0x8000, 0x11);
    gb.write(0xFF46, 0xC0);
    gb.advance_cycles(8);
    // the first byte is read and waits
    assert!(matches!(gb.ppu.oam_dma, DmaStatus::ACTIVE(0x44)));
    assert_eq!(gb.read(0x0000), 0x44);
    assert_eq!(gb.read(0xD123), 0x44);
    assert_eq!(gb.read(0x8000), 0x11);
    gb.advance_cycles(4);
    assert_eq!(gb.read(0x0000), 0x45);
    // OAM is closed while the engine writes to it
    assert_eq!(gb.ppu.oam_read(0xFE00), 0xFF);
}

#[test]
fn writing_dma_again_restarts_the_transfer() {
    let mut gb = machine();
    gb.write(0xC000, 0x44);
    gb.write(0xFF80, 0xD0);
    gb.write(0xFF46, 0xC0);
    gb.advance_cycles(8);
    gb.ppu.write_dma(0xD0);
    assert!(matches!(gb.ppu.oam_dma, DmaStatus::RESTARTING(0x44)));
    gb.advance_cycles(4);
    assert!(matches!(gb.ppu.oam_dma, DmaStatus::RESTARTFIRSTREAD));
    assert_eq!(gb.ppu.oam.read(0xFE00), 0x44);
    gb.advance_cycles(4);
    assert!(matches!(gb.ppu.oam_dma, DmaStatus::ACTIVE(_)));
    assert_eq!(gb.ppu.dma_cycles, 0);
}

#[test]
fn memory_units_mask_their_addresses() {
    let mut w0 = WRam0::init();
    w0.write(0xC123, 1);
    assert_eq!(w0.read(0xE123), 1);
    assert_eq!(w0.read(0x0123), 1);
    let mut wx = WRamX::init();
    wx.write(0xDFFF, 2);
    assert_eq!(wx.read(0xFFFF), 2);
    let mut h = HRam::init();
    h.write(0xFF80, 3);
    h.write(0xFFFE, 4);
    assert_eq!(h.read(0xFF80), 3);
    assert_eq!(h.read(0xFFFE), 4);
    let mut u = Unused::init();
    assert!(u.bytes.iter().all(|b| *b == 0));
    u.write(0xFEA0, 5);
    assert_eq!(u.read(0xFEA0), 0);
    assert!(u.bytes.iter().all(|b| *b == 0));
    let mut o = Oam::init();
    o.write(0xFE9F, 6);
    assert_eq!(o.read(0x009F), 6);
    assert_eq!(o.read(0xFE00), 0);
    let mut v = VRam::init();
    v.write(0x9FFF, 7);
    assert_eq!(v.read(0x1FFF), 7);
    assert_eq!(v.read(0x8000), 0);
}
