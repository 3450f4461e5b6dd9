use dmg_core::intr::{ImeState, Interrupt, InterruptHandler};
use dmg_core::joypad::{Button, Joypad};
use dmg_core::serial::SerialLink;

#[test]
fn if_reads_with_its_upper_bits_set() {
    let mut h = InterruptHandler::init();
    assert_eq!(h.read_if(), 0xE0);
    h.write_if(0x05);
    assert_eq!(h.read_if(), 0xE5);
    h.write_ie(0xFF);
    assert_eq!(h.read_ie(), 0xFF);
}

#[test]
fn fetch_gives_the_lowest_pending_source() {
    let mut h = InterruptHandler::init();
    assert!(h.fetch().is_none());
    h.write_ie(0x1F);
    h.request(Interrupt::JOYPAD);
    assert!(matches!(h.fetch(), Some(Interrupt::JOYPAD)));
    h.request(Interrupt::TIMER);
    assert!(matches!(h.fetch(), Some(Interrupt::TIMER)));
    h.request(Interrupt::VBLANK);
    assert!(matches!(h.fetch(), Some(Interrupt::VBLANK)));
    h.reset(Interrupt::VBLANK);
    assert!(matches!(h.fetch(), Some(Interrupt::TIMER)));
    h.write_ie(0x10);
    assert!(matches!(h.fetch(), Some(Interrupt::JOYPAD)));
    h.write_ie(0xE0);
    assert!(h.fetch().is_none());
}

#[test]
fn request_and_reset_touch_one_bit() {
    let mut h = InterruptHandler::init();
    h.request(Interrupt::STAT);
    assert_eq!(h.read_if(), 0xE2);
    h.request(Interrupt::SERIAL);
    assert_eq!(h.read_if(), 0xEA);
    h.reset(Interrupt::STAT);
    assert_eq!(h.read_if(), 0xE8);
}

#[test]
fn sources_have_numbers_masks_and_vectors() {
    let all = [Interrupt::VBLANK, Interrupt::STAT, Interrupt::TIMER, Interrupt::SERIAL, Interrupt::JOYPAD];
    for (n, s) in all.iter().enumerate() {
        assert_eq!(s.index() as usize, n);
        assert_eq!(s.mask(), 1 << n);
        assert_eq!(s.vector() as usize, 0x40 + 8 * n);
        assert_eq!(Interrupt::from_index(n as u32), Some(*s));
    }
    assert!(Interrupt::from_index(5).is_none());
    assert!(Interrupt::from_index(8).is_none());
}

#[test]
fn ime_enables_with_a_delay() {
    let mut h = InterruptHandler::init();
    assert!(!h.current_ime());
    h.enable();
    assert!(matches!(h.ime, ImeState::ENABLING));
    assert!(!h.current_ime());
    assert!(h.current_ime());
    h.enable();
    assert!(matches!(h.ime, ImeState::ENABLED));
    h.disable();
    assert!(!h.current_ime());
    h.enable_immediate();
    assert!(h.current_ime());
}

#[test]
fn joypad_shows_the_selected_row() {
    let mut j = Joypad::init();
    assert_eq!(j.read(), 0xCF);
    j.set_button(Button::A, true);
    j.set_button(Button::LEFT, true);
    // action row
    j.write(0x10);
    assert_eq!(j.read(), 0xD0);
    assert!(!j.cycle());
    assert_eq!(j.read(), 0xC0 | 0x10 | 0x0E);
    // direction row
    j.write(0x20);
    j.cycle();
    assert_eq!(j.read(), 0xC0 | 0x20 | 0x0D);
    // no row
    j.write(0x30);
    j.cycle();
    assert_eq!(j.read(), 0xFF);
    // both
    j.write(0x00);
    j.cycle();
    assert_eq!(j.read(), 0xC0);
}

#[test]
fn joypad_raises_on_a_press_in_the_selected_row_only() {
    let mut j = Joypad::init();
    j.write(0x10);
    assert!(!j.cycle());
    assert!(!j.cycle());
    j.set_button(Button::UP, true);
    assert!(!j.cycle());
    j.set_button(Button::START, true);
    assert!(j.cycle());
    assert!(!j.cycle());
    j.set_button(Button::START, false);
    assert!(!j.cycle());
    assert_eq!(j.read() & 0x0F, 0x0F);
}

#[test]
fn buttons_have_their_bits() {
    let all = [Button::A, Button::B, Button::SELECT, Button::START, Button::RIGHT, Button::LEFT, Button::UP, Button::DOWN];
    for (n, b) in all.iter().enumerate() {
        assert_eq!(b.mask(), 1 << n);
        let mut j = Joypad::init();
        j.set_button(*b, true);
        assert_eq!(j.buttons, !(1u8 << n));
        j.set_button(*b, false);
        assert_eq!(j.buttons, 0xFF);
    }
}

#[test]
fn serial_stores_and_never_shifts() {
    let mut s = SerialLink::init();
    assert_eq!(s.read_data(), 0);
    assert_eq!(s.read_control(), 0x7E);
    s.write_data(0x42);
    s.write_control(0x81);
    assert_eq!(s.read_data(), 0x42);
    assert_eq!(s.read_control(), 0xFF);
}
