use dmg_core::timer::{TimaState, Timer};

#[test]
fn timer_starts_at_rest() {
    let t = Timer::init();
    assert_eq!(t.read_div(), 0);
    assert_eq!(t.read_tima(), 0);
    assert_eq!(t.read_tma(), 0);
    assert_eq!(t.read_tac(), 0xF8);
    assert!(matches!(t.tima_state, TimaState::RUNNING));
}

#[test]
fn div_is_the_upper_byte_of_the_divider() {
    let mut t = Timer::init();
    t.cycle(255);
    assert_eq!(t.read_div(), 0);
    t.cycle(1);
    assert_eq!(t.read_div(), 1);
    assert_eq!(t.div, 256);
}

#[test]
fn writing_div_with_the_selected_bit_high_clocks_tima() {
    let mut t = Timer::init();
    t.write_tac(0b101);
    t.div = 0x0008;
    t.tima = 0x10;
    t.write_div();
    assert_eq!(t.div, 0);
    assert_eq!(t.read_tima(), 0x11);
}

#[test]
fn writing_div_with_the_selected_bit_low_leaves_tima() {
    let mut t = Timer::init();
    t.write_tac(0b101);
    t.div = 0x0007;
    t.tima = 0x10;
    t.write_div();
    assert_eq!(t.div, 0);
    assert_eq!(t.read_tima(), 0x10);
}

#[test]
fn tima_counts_once_per_period_in_every_mode() {
    for (mode, period) in [(0u8, 1024u32), (1, 16), (2, 64), (3, 256)] {
        for start in [0u16, 1, 7, 8, 15, 0x1FF, 0x200, 0x3FF, 0xFFFF, 0xFFF0] {
            let mut t = Timer::init();
            t.write_tac(0b100 | mode);
            t.div = start;
            t.tima = 0x20;
            let mut left = period;
            while left > 0 {
                let n = if left > 200 { 200 } else { left };
                t.cycle(n as u8);
                left -= n;
            }
            assert_eq!(t.read_tima(), 0x21, "mode {} from {:04X}", mode, start);
        }
    }
}

#[test]
fn tima_stands_while_disabled() {
    let mut t = Timer::init();
    t.write_tac(0b001);
    t.cycle(200);
    t.cycle(200);
    assert_eq!(t.read_tima(), 0);
}

#[test]
fn overflow_reloads_from_tma_and_raises_the_interrupt() {
    let mut t = Timer::init();
    t.write_tma(0xAB);
    t.write_tac(0b101);
    t.tima = 0xFF;
    t.div = 0x000F;
    // the falling edge: TIMA wraps to zero and the delay begins
    assert!(!t.cycle(1));
    assert_eq!(t.read_tima(), 0);
    assert!(matches!(t.tima_state, TimaState::OVERFLOW(3)));
    assert!(!t.cycle(3));
    assert!(matches!(t.tima_state, TimaState::OVERFLOW(0)));
    assert!(!t.cycle(1));
    assert!(matches!(t.tima_state, TimaState::LOADING(3)));
    // while the reload is in progress the register shows TMA
    assert_eq!(t.read_tima(), 0xAB);
    assert!(t.cycle(1));
    assert!(!t.cycle(3));
    assert!(matches!(t.tima_state, TimaState::RUNNING));
    assert_eq!(t.tima, 0xAB);
}

#[test]
fn writing_tima_during_the_delay_cancels_the_reload() {
    let mut t = Timer::init();
    t.write_tma(0xAB);
    t.tima_state = TimaState::OVERFLOW(2);
    t.write_tima(0x55);
    assert!(matches!(t.tima_state, TimaState::RUNNING));
    assert_eq!(t.read_tima(), 0x55);
    assert!(!t.cycle(16));
}

#[test]
fn writing_tima_during_the_reload_is_lost() {
    let mut t = Timer::init();
    t.write_tma(0xAB);
    t.tima_state = TimaState::LOADING(2);
    t.write_tima(0x55);
    assert_eq!(t.read_tima(), 0xAB);
    t.cycle(3);
    assert_eq!(t.tima, 0xAB);
}

#[test]
fn disabling_the_timer_with_the_bit_high_clocks_tima() {
    let mut t = Timer::init();
    t.write_tac(0b101);
    t.div = 0x0008;
    t.write_tac(0b001);
    assert_eq!(t.read_tima(), 1);
    assert_eq!(t.read_tac(), 0xF9);
}

#[test]
fn changing_the_rate_to_a_low_bit_clocks_tima() {
    let mut t = Timer::init();
    t.write_tac(0b101);
    t.div = 0x0008;
    // bit 5 is low
    t.write_tac(0b110);
    assert_eq!(t.read_tima(), 1);
    // bit 3 is high again: no edge
    t.write_tac(0b101);
    assert_eq!(t.read_tima(), 1);
}

#[test]
fn masks_by_mode() {
    let mut t = Timer::init();
    for (mode, mask) in [(0u8, 0x0200u16), (1, 0x0008), (2, 0x0020), (3, 0x0080)] {
        t.write_tac(mode);
        assert_eq!(t.div_tima_mask(), mask);
        assert!(!t.is_enabled());
    }
    t.write_tac(0b100);
    assert!(t.is_enabled());
}
