use dmg_core::ppu::fifo::{top_pixel, BgFifo, Fifo};
use dmg_core::ppu::sprites::mirror_byte;
use dmg_core::ppu::{apply_palette, LcdStatus, Ppu, PpuMode};

fn run(ppu: &mut Ppu, cycles: u32) {
    for _ in 0..cycles {
        ppu.cycle();
    }
}

#[test]
fn a_scanline_goes_through_its_modes() {
    let mut ppu = Ppu::init();
    assert_eq!(ppu.ly, 0);
    for _ in 0..79 {
        ppu.cycle();
        assert!(matches!(ppu.mode, PpuMode::OAMSCAN));
    }
    ppu.cycle();
    assert!(matches!(ppu.mode, PpuMode::DRAW));
    assert_eq!(ppu.cycles, 80);
    let mut hblank_entries = 0;
    let mut last = ppu.mode;
    for _ in 80..455 {
        ppu.cycle();
        if matches!(ppu.mode, PpuMode::HBLANK) && !matches!(last, PpuMode::HBLANK) {
            hblank_entries += 1;
            // a pixel per T-cycle at most
            assert!(ppu.cycles >= 80 + 160);
        }
        last = ppu.mode;
        assert_eq!(ppu.ly, 0);
    }
    assert_eq!(hblank_entries, 1);
    assert!(matches!(ppu.mode, PpuMode::HBLANK));
    ppu.cycle();
    assert_eq!(ppu.ly, 1);
    assert_eq!(ppu.cycles, 0);
    assert!(matches!(ppu.mode, PpuMode::OAMSCAN));
}

#[test]
fn stat_shows_the_mode() {
    let mut ppu = Ppu::init();
    run(&mut ppu, 80);
    assert_eq!(ppu.read_stat() & 0x03, 3);
    run(&mut ppu, 300);
    assert_eq!(ppu.read_stat() & 0x03, 0);
    run(&mut ppu, 76);
    assert_eq!(ppu.read_stat() & 0x03, 2);
    run(&mut ppu, 456 * 143);
    assert_eq!(ppu.ly, 144);
    assert_eq!(ppu.read_stat() & 0x03, 1);
    assert_eq!(ppu.read_stat() & 0x80, 0x80);
}

#[test]
fn vblank_is_raised_once_per_frame() {
    let mut ppu = Ppu::init();
    for _frame in 0..3 {
        let mut raised = 0;
        for _ in 0..70224 {
            ppu.cycle();
            if ppu.vblank_intr {
                raised += 1;
                ppu.vblank_intr = false;
                assert_eq!(ppu.ly, 144);
                assert_eq!(ppu.cycles, 4);
            }
        }
        assert_eq!(raised, 1);
        assert_eq!(ppu.ly, 0);
        assert_eq!(ppu.cycles, 0);
    }
}

#[test]
fn every_line_takes_456_cycles_with_sprites_window_and_scroll() {
    let mut ppu = Ppu::init();
    // forty sprites on every line, sixteen lines high, all at the same column
    ppu.lcd_status = LcdStatus::OFF;
    for i in 0..40u16 {
        ppu.oam_write(0xFE00 + 4 * i, 16 + (i as u8 % 9) * 16);
        ppu.oam_write(0xFE00 + 4 * i + 1, 8 + (i as u8 % 10) * 3);
        ppu.oam_write(0xFE00 + 4 * i + 2, i as u8);
        ppu.oam_write(0xFE00 + 4 * i + 3, 0x60);
    }
    ppu.lcd_status = LcdStatus::ON;
    ppu.write_lcdc(0x80 | 0x20 | 0x04 | 0x02 | 0x01);
    ppu.write_scx(7);
    ppu.write_wx(90);
    ppu.write_wy(0);
    for line in 0..154u32 {
        assert_eq!(ppu.ly as u32, line);
        assert_eq!(ppu.cycles, 0);
        run(&mut ppu, 456);
    }
    assert_eq!(ppu.ly, 0);
}

#[test]
fn stat_interrupt_needs_a_rising_edge() {
    let mut ppu = Ppu::init();
    // HBLANK source and coincidence with line 5
    ppu.write_stat(0x48);
    ppu.write_lyc(5);
    let mut raised = 0;
    for _ in 0..70224 {
        let line_before = ppu.stat_line;
        ppu.cycle();
        if ppu.stat_intr {
            raised += 1;
            ppu.stat_intr = false;
            assert!(!line_before);
            assert!(ppu.stat_line);
        }
        let coincidence = ppu.ly == 5;
        assert_eq!(ppu.read_stat() & 0x04 != 0, coincidence);
        let expect = coincidence || matches!(ppu.mode, PpuMode::HBLANK);
        assert_eq!(ppu.stat_line, expect);
    }
    // one per HBLANK of the 144 lines, but the lines 4 and 5 share one
    // stretch of the line being high
    assert_eq!(raised, 143);
}

#[test]
fn enabling_a_source_while_the_line_is_high_raises_nothing() {
    let mut ppu = Ppu::init();
    ppu.write_stat(0x40);
    ppu.write_lyc(0);
    ppu.cycle();
    assert!(ppu.stat_line);
    assert!(ppu.stat_intr);
    ppu.stat_intr = false;
    // the OAM scan source joins while coincidence holds the line
    ppu.write_stat(0x60);
    run(&mut ppu, 10);
    assert!(ppu.stat_line);
    assert!(!ppu.stat_intr);
}

#[test]
fn a_frame_of_one_tile_fills_the_picture() {
    let mut ppu = Ppu::init();
    // tile 1: every pixel of colour id 2
    for row in 0..8u16 {
        ppu.vram.write(0x8010 + 2 * row, 0x00);
        ppu.vram.write(0x8010 + 2 * row + 1, 0xFF);
    }
    for i in 0..0x400u16 {
        ppu.vram.write(0x9800 + i, 1);
    }
    // the palette swaps the colours 1 and 2
    ppu.write_bgp(0b11_01_10_00);
    run(&mut ppu, 70224);
    assert!(ppu.framebuffer.iter().all(|p| *p == 1));
    ppu.write_bgp(0b11_10_01_00);
    run(&mut ppu, 70224);
    assert!(ppu.framebuffer.iter().all(|p| *p == 2));
}

#[test]
fn the_background_scrolls_by_pixels() {
    let mut ppu = Ppu::init();
    // tile 1: the leftmost pixel of every row has colour id 3
    for row in 0..8u16 {
        ppu.vram.write(0x8010 + 2 * row, 0x80);
        ppu.vram.write(0x8010 + 2 * row + 1, 0x80);
    }
    for i in 0..0x400u16 {
        ppu.vram.write(0x9800 + i, 1);
    }
    ppu.write_bgp(0xE4);
    run(&mut ppu, 70224);
    for x in 0..160 {
        assert_eq!(ppu.framebuffer[x], if x % 8 == 0 { 3 } else { 0 });
    }
    ppu.write_scx(3);
    run(&mut ppu, 70224);
    for x in 0..160 {
        assert_eq!(ppu.framebuffer[x], if x % 8 == 5 { 3 } else { 0 });
    }
}

#[test]
fn a_sprite_shows_over_the_background() {
    let mut ppu = Ppu::init();
    // tile 2: every pixel of colour id 1
    for row in 0..8u16 {
        ppu.vram.write(0x8020 + 2 * row, 0xFF);
        ppu.vram.write(0x8020 + 2 * row + 1, 0x00);
    }
    ppu.oam.write(0xFE00, 16 + 10);
    ppu.oam.write(0xFE01, 8 + 40);
    ppu.oam.write(0xFE02, 2);
    ppu.oam.write(0xFE03, 0x00);
    ppu.write_lcdc(0x93);
    ppu.write_obp0(0b1110_1100);
    run(&mut ppu, 70224);
    let mut lit = 0;
    for y in 0..144 {
        for x in 0..160 {
            let p = ppu.framebuffer[y * 160 + x];
            if p != 0 {
                lit += 1;
                assert_eq!(p, 3);
                assert!(y >= 10 && y < 18);
            }
        }
    }
    assert_eq!(lit, 64);
}

#[test]
fn switching_the_lcd_off_blanks_the_picture() {
    let mut ppu = Ppu::init();
    for i in 0..0x2000u16 {
        ppu.vram.write(0x8000 + i, 0xFF);
    }
    run(&mut ppu, 70224 + 500);
    assert!(ppu.framebuffer.iter().any(|p| *p != 0));
    ppu.write_lcdc(0x11);
    assert!(matches!(ppu.lcd_status, LcdStatus::OFF));
    assert!(ppu.framebuffer.iter().all(|p| *p == 0));
    assert_eq!(ppu.read_ly(), 0);
    assert_eq!(ppu.read_stat() & 0x03, 0);
    assert_eq!(ppu.cycles, 0);
    run(&mut ppu, 1000);
    assert_eq!(ppu.read_ly(), 0);
    assert_eq!(ppu.cycles, 0);
    // the first frame after switching on is not drawn
    ppu.write_lcdc(0x91);
    assert!(matches!(ppu.lcd_status, LcdStatus::STARTUP));
    run(&mut ppu, 40);
    assert_eq!(ppu.read_stat() & 0x03, 0);
    run(&mut ppu, 70224 - 40);
    assert!(ppu.framebuffer.iter().all(|p| *p == 0));
    assert!(matches!(ppu.lcd_status, LcdStatus::ON));
    run(&mut ppu, 70224);
    assert!(ppu.framebuffer.iter().all(|p| *p == 3));
}

#[test]
fn vram_and_oam_close_while_the_ppu_uses_them() {
    let mut ppu = Ppu::init();
    ppu.vram_write(0x8000, 0x12);
    assert_eq!(ppu.vram_read(0x8000), 0x12);
    // OAM scan: OAM is closed, VRAM open
    ppu.oam_write(0xFE00, 0x34);
    assert_eq!(ppu.oam_read(0xFE00), 0xFF);
    assert_eq!(ppu.oam.read(0xFE00), 0x00);
    run(&mut ppu, 80);
    // drawing: both closed
    ppu.vram_write(0x8000, 0x56);
    assert_eq!(ppu.vram_read(0x8000), 0xFF);
    assert_eq!(ppu.oam_read(0xFE00), 0xFF);
    run(&mut ppu, 300);
    // HBLANK: both open
    assert_eq!(ppu.vram_read(0x8000), 0x12);
    ppu.oam_write(0xFE00, 0x34);
    assert_eq!(ppu.oam_read(0xFE00), 0x34);
}

#[test]
fn registers_read_back() {
    let mut ppu = Ppu::init();
    assert_eq!(ppu.read_lcdc(), 0x91);
    assert_eq!(ppu.read_bgp(), 0xE4);
    ppu.write_scy(1);
    ppu.write_scx(2);
    ppu.write_lyc(3);
    ppu.write_wy(4);
    ppu.write_wx(5);
    ppu.write_obp0(0xFF);
    ppu.write_obp1(0x1B);
    ppu.write_ly(99);
    ppu.write_stat(0xFF);
    assert_eq!(ppu.read_scy(), 1);
    assert_eq!(ppu.read_scx(), 2);
    assert_eq!(ppu.read_lyc(), 3);
    assert_eq!(ppu.read_wy(), 4);
    assert_eq!(ppu.read_wx(), 5);
    assert_eq!(ppu.read_obp0(), 0xFC);
    assert_eq!(ppu.read_obp1(), 0x18);
    assert_eq!(ppu.read_ly(), 0);
    assert_eq!(ppu.read_stat(), 0xF8);
    assert!(ppu.stat_bit(6) && ppu.stat_bit(3) && !ppu.stat_bit(2));
}

#[test]
fn palettes_map_colour_ids() {
    assert_eq!(apply_palette(0, 0b11_10_01_00), 0);
    assert_eq!(apply_palette(1, 0b11_10_01_00), 1);
    assert_eq!(apply_palette(2, 0b11_10_01_00), 2);
    assert_eq!(apply_palette(3, 0b11_10_01_00), 3);
    assert_eq!(apply_palette(0, 0b00_01_10_11), 3);
    assert_eq!(apply_palette(1, 0b00_01_10_11), 2);
    assert_eq!(apply_palette(2, 0b00_01_10_11), 1);
    assert_eq!(apply_palette(3, 0b00_01_10_11), 0);
}

#[test]
fn the_background_queue_gives_eight_pixels_left_to_right() {
    let mut fifo = BgFifo::init();
    assert!(fifo.empty());
    assert_eq!(fifo.pop(), None);
    fifo.push(0b1010_0011, 0b1100_0101);
    assert!(!fifo.empty());
    let expect = [3, 2, 1, 0, 0, 2, 1, 3];
    for p in expect {
        assert_eq!(fifo.pop(), Some(p));
    }
    assert!(fifo.empty());
    assert_eq!(fifo.pop(), None);
    fifo.push(0xFF, 0xFF);
    fifo.clear();
    assert_eq!(fifo.pop(), None);
    assert_eq!(top_pixel(0x80, 0x00), 1);
    assert_eq!(top_pixel(0x00, 0x80), 2);
}

#[test]
fn the_sprite_queue_keeps_the_earlier_sprite() {
    let mut fifo = Fifo::init();
    assert_eq!(fifo.pop(), Some((0, false, false)));
    // the first sprite covers the left half
    fifo.push(0xF0, 0x00, 0x80);
    // the second covers everything, with the other palette
    fifo.push(0xFF, 0xFF, 0x10);
    for _ in 0..4 {
        assert_eq!(fifo.pop(), Some((1, true, false)));
    }
    for _ in 0..4 {
        assert_eq!(fifo.pop(), Some((3, false, true)));
    }
    assert_eq!(fifo.pop(), Some((0, false, false)));
    fifo.push(0xFF, 0x00, 0x00);
    fifo.clear();
    assert_eq!(fifo.pop(), Some((0, false, false)));
}

#[test]
fn mirroring_reverses_the_bits() {
    assert_eq!(mirror_byte(0x01), 0x80);
    assert_eq!(mirror_byte(0xF0), 0x0F);
    assert_eq!(mirror_byte(0b1011_0001), 0b1000_1101);
    for b in 0..=255u8 {
        assert_eq!(mirror_byte(b), b.reverse_bits());
    }
}

#[test]
fn at_most_ten_sprites_are_buffered() {
    let mut ppu = Ppu::init();
    for i in 0..40u16 {
        ppu.oam.write(0xFE00 + 4 * i, 16);
        ppu.oam.write(0xFE00 + 4 * i + 1, 8 + i as u8);
        ppu.oam.write(0xFE00 + 4 * i + 2, 0);
        ppu.oam.write(0xFE00 + 4 * i + 3, 0);
    }
    // a sprite with X of zero is never buffered
    ppu.oam.write(0xFE01, 0);
    run(&mut ppu, 79);
    assert_eq!(ppu.sp.obj_count, 10);
    assert_eq!(ppu.sp.fetcher_idx, 39);
    for k in 0..10 {
        assert_eq!(ppu.sp.obj_buffer[k].x, 8 + 1 + k as u8);
    }
    // on line 8 none of them shows
    run(&mut ppu, 456 * 8);
    assert_eq!(ppu.ly, 8);
    assert_eq!(ppu.sp.obj_count, 0);
}
