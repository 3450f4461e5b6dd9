use dmg_core::cart::header::load_rom;
use dmg_core::cpu::alu::{add8, daa, dec8, flags, inc8, shift, sub8, Shift};
use dmg_core::cpu::Cpu;
use dmg_core::exec::execute;
use dmg_core::gameboy::GameBoy;
use dmg_core::intr::{ImeState, Interrupt};

fn blank_rom() -> Vec<u8> {
    let mut rom = vec![0u8; 0x8000];
    let mut sum: u8 = 0;
    for i in 0x0134..=0x014C {
        sum = sum.wrapping_sub(rom[i]).wrapping_sub(1);
    }
    rom[0x014D] = sum;
    rom
}

/// A machine that runs `program` from the start of work RAM.
fn machine(program: &[u8]) -> GameBoy {
    let cart = match load_rom(&blank_rom()) {
        Ok(cart) => cart,
        Err(e) => panic!("{:?}", e),
    };
    let mut gb = GameBoy::init(cart);
    for (i, byte) in program.iter().enumerate() {
        gb.write(0xC000 + i as u16, *byte);
    }
    gb.cpu.pc = 0xC000;
    gb.cpu.sp = 0xDFF0;
    gb
}

fn cycles_of(program: &[u8], f: u8) -> u64 {
    let mut gb = machine(program);
    gb.cpu.f = f;
    gb.cpu_step();
    gb.cycles
}

#[test]
fn add_a_b_sets_zero_half_carry_and_carry() {
    let mut gb = machine(&[0x80]);
    gb.cpu.a = 0x3A;
    gb.cpu.b = 0xC6;
    gb.cpu.f = 0;
    gb.cpu_step();
    assert_eq!(gb.cpu.a, 0x00);
    assert_eq!(gb.cpu.f, 0b1011_0000);
    assert_eq!(gb.cpu.pc, 0xC001);
    assert_eq!(gb.cycles, 4);
}

#[test]
fn add_immediate_then_daa() {
    let mut gb = machine(&[0xC6, 0x38, 0x27]);
    gb.cpu.a = 0x7D;
    gb.cpu.f = 0;
    gb.cpu_step();
    assert_eq!(gb.cpu.a, 0xB5);
    assert_eq!(gb.cpu.f, 0b0010_0000);
    gb.cpu_step();
    assert_eq!(gb.cpu.a, 0x1B);
    assert_eq!(gb.cpu.f & 0x10, 0x10);
    assert_eq!(gb.cpu.f & 0x20, 0);
}

#[test]
fn daa_after_decimal_addition() {
    // 38 + 45 = 83
    let (sum, f) = add8(0x38, 0x45, false);
    assert_eq!(sum, 0x7D);
    let (a, f2) = daa(sum, f & 0x40 != 0, f & 0x20 != 0, f & 0x10 != 0);
    assert_eq!(a, 0x83);
    assert_eq!(f2 & 0x10, 0);
    // 99 + 01 = 100
    let (sum, f) = add8(0x99, 0x01, false);
    let (a, f2) = daa(sum, false, f & 0x20 != 0, f & 0x10 != 0);
    assert_eq!(a, 0x00);
    assert_eq!(f2, 0x90);
    // 42 - 13 = 29
    let (diff, f) = sub8(0x42, 0x13, false);
    let (a, _) = daa(diff, true, f & 0x20 != 0, f & 0x10 != 0);
    assert_eq!(a, 0x29);
}

#[test]
fn flags_are_packed_in_the_high_nibble() {
    assert_eq!(flags(true, false, false, false), 0x80);
    assert_eq!(flags(false, true, false, false), 0x40);
    assert_eq!(flags(false, false, true, false), 0x20);
    assert_eq!(flags(false, false, false, true), 0x10);
    assert_eq!(flags(true, true, true, true), 0xF0);
}

#[test]
fn adc_then_sbc_with_the_same_carry_restores_a() {
    for a in 0..=255u8 {
        for b in 0..=255u8 {
            for carry in [false, true] {
                let (sum, f) = add8(a, b, carry);
                let total = a as u16 + b as u16 + carry as u16;
                assert_eq!(sum, (total & 0xFF) as u8);
                assert_eq!(f & 0x80 != 0, sum == 0);
                assert_eq!(f & 0x40, 0);
                assert_eq!(f & 0x20 != 0, (a & 0x0F) + (b & 0x0F) + carry as u8 > 0x0F);
                assert_eq!(f & 0x10 != 0, total > 0xFF);
                let (back, g) = sub8(sum, b, carry);
                assert_eq!(back, a);
                assert_eq!(g & 0x40, 0x40);
                assert_eq!(g & 0x80 != 0, back == 0);
                assert_eq!(g & 0x20 != 0, (sum & 0x0F) < (b & 0x0F) + carry as u8);
                assert_eq!(g & 0x10 != 0, (sum as u16) < b as u16 + carry as u16);
            }
        }
    }
}

#[test]
fn adc_then_sbc_as_instructions() {
    // ADC A,B ; SBC A,B with a carry that ADC keeps
    let mut gb = machine(&[0x88, 0x98]);
    gb.cpu.a = 0xF0;
    gb.cpu.b = 0x20;
    gb.cpu.f = 0x10;
    gb.cpu_step();
    assert_eq!(gb.cpu.a, 0x11);
    assert_eq!(gb.cpu.f, 0x10);
    gb.cpu_step();
    assert_eq!(gb.cpu.a, 0xF0);
    // with a carry that ADC does not keep, A is off by one
    let mut gb = machine(&[0x88, 0x98]);
    gb.cpu.a = 0x00;
    gb.cpu.b = 0x00;
    gb.cpu.f = 0x10;
    gb.cpu_step();
    assert_eq!(gb.cpu.a, 0x01);
    assert_eq!(gb.cpu.f, 0x00);
    gb.cpu_step();
    assert_eq!(gb.cpu.a, 0x01);
}

#[test]
fn inc_and_dec_keep_carry() {
    assert_eq!(inc8(0xFF, true), (0x00, 0xB0));
    assert_eq!(inc8(0x0F, false), (0x10, 0x20));
    assert_eq!(dec8(0x01, true), (0x00, 0xD0));
    assert_eq!(dec8(0x10, false), (0x0F, 0x60));
    assert_eq!(dec8(0x00, false), (0xFF, 0x60));
}

#[test]
fn rotations_and_shifts() {
    assert_eq!(shift(Shift::RLC, 0x85, false), (0x0B, 0x10));
    assert_eq!(shift(Shift::RRC, 0x01, false), (0x80, 0x10));
    assert_eq!(shift(Shift::RL, 0x80, false), (0x00, 0x90));
    assert_eq!(shift(Shift::RL, 0x80, true), (0x01, 0x10));
    assert_eq!(shift(Shift::RR, 0x01, true), (0x80, 0x10));
    assert_eq!(shift(Shift::SLA, 0xC0, false), (0x80, 0x10));
    assert_eq!(shift(Shift::SRA, 0x81, false), (0xC0, 0x10));
    assert_eq!(shift(Shift::SWAP, 0xA5, true), (0x5A, 0x00));
    assert_eq!(shift(Shift::SRL, 0x01, false), (0x00, 0x90));
}

#[test]
fn accumulator_rotations_clear_zero() {
    let mut gb = machine(&[0x17]);
    gb.cpu.a = 0x80;
    gb.cpu.f = 0x00;
    gb.cpu_step();
    assert_eq!(gb.cpu.a, 0x00);
    assert_eq!(gb.cpu.f, 0x10);
}

#[test]
fn register_pairs_are_big_endian() {
    let mut cpu = Cpu::init();
    cpu.wr_bc(0x1234);
    assert_eq!((cpu.b, cpu.c), (0x12, 0x34));
    assert_eq!(cpu.rd_bc(), 0x1234);
    cpu.wr_de(0xABCD);
    assert_eq!(cpu.rd_de(), 0xABCD);
    cpu.wr_hl(0xFFFF);
    assert_eq!(cpu.rd_hl(), 0xFFFF);
    cpu.a = 0x12;
    cpu.f = 0xB0;
    assert_eq!(cpu.rd_af(), 0x12B0);
    assert!(cpu.z_flag() && !cpu.n_flag() && cpu.h_flag() && cpu.c_flag());
    assert!(!cpu.nz_flag() && !cpu.nc_flag());
}

#[test]
fn pop_af_then_push_af_clears_the_low_nibble_of_f() {
    // POP AF ; PUSH AF
    let mut gb = machine(&[0xF1, 0xF5]);
    gb.write(0xDFF0, 0xFF);
    gb.write(0xDFF1, 0x12);
    gb.cpu_step();
    assert_eq!(gb.cpu.a, 0x12);
    assert_eq!(gb.cpu.f, 0xF0);
    assert_eq!(gb.cpu.sp, 0xDFF2);
    gb.cpu_step();
    assert_eq!(gb.cpu.sp, 0xDFF0);
    assert_eq!(gb.read(0xDFF0), 0xF0);
    assert_eq!(gb.read(0xDFF1), 0x12);
}

#[test]
fn instructions_take_their_published_time() {
    assert_eq!(cycles_of(&[0x00], 0), 4); // NOP
    assert_eq!(cycles_of(&[0x01, 0, 0], 0), 12); // LD BC,nn
    assert_eq!(cycles_of(&[0x02], 0), 8); // LD (BC),A
    assert_eq!(cycles_of(&[0x03], 0), 8); // INC BC
    assert_eq!(cycles_of(&[0x04], 0), 4); // INC B
    assert_eq!(cycles_of(&[0x34], 0), 12); // INC (HL)
    assert_eq!(cycles_of(&[0x36, 0], 0), 12); // LD (HL),n
    assert_eq!(cycles_of(&[0x06, 0], 0), 8); // LD B,n
    assert_eq!(cycles_of(&[0x08, 0x00, 0xC1], 0), 20); // LD (nn),SP
    assert_eq!(cycles_of(&[0x09], 0), 8); // ADD HL,BC
    assert_eq!(cycles_of(&[0x18, 0], 0), 12); // JR
    assert_eq!(cycles_of(&[0x20, 0], 0x00), 12); // JR NZ taken
    assert_eq!(cycles_of(&[0x20, 0], 0x80), 8); // JR NZ not taken
    assert_eq!(cycles_of(&[0x41], 0), 4); // LD B,C
    assert_eq!(cycles_of(&[0x46], 0), 8); // LD B,(HL)
    assert_eq!(cycles_of(&[0x70], 0), 8); // LD (HL),B
    assert_eq!(cycles_of(&[0x80], 0), 4); // ADD A,B
    assert_eq!(cycles_of(&[0x86], 0), 8); // ADD A,(HL)
    assert_eq!(cycles_of(&[0xC6, 0], 0), 8); // ADD A,n
    assert_eq!(cycles_of(&[0xC0], 0x00), 20); // RET NZ taken
    assert_eq!(cycles_of(&[0xC0], 0x80), 8); // RET NZ not taken
    assert_eq!(cycles_of(&[0xC1], 0), 12); // POP BC
    assert_eq!(cycles_of(&[0xC2, 0, 0xC1], 0x00), 16); // JP NZ taken
    assert_eq!(cycles_of(&[0xC2, 0, 0xC1], 0x80), 12); // JP NZ not taken
    assert_eq!(cycles_of(&[0xC3, 0, 0xC1], 0), 16); // JP
    assert_eq!(cycles_of(&[0xC4, 0, 0xC1], 0x00), 24); // CALL NZ taken
    assert_eq!(cycles_of(&[0xC4, 0, 0xC1], 0x80), 12); // CALL NZ not taken
    assert_eq!(cycles_of(&[0xCD, 0, 0xC1], 0), 24); // CALL
    assert_eq!(cycles_of(&[0xC5], 0), 16); // PUSH BC
    assert_eq!(cycles_of(&[0xC7], 0), 16); // RST 00
    assert_eq!(cycles_of(&[0xC9], 0), 16); // RET
    assert_eq!(cycles_of(&[0xD9], 0), 16); // RETI
    assert_eq!(cycles_of(&[0xCB, 0x00], 0), 8); // RLC B
    assert_eq!(cycles_of(&[0xCB, 0x06], 0), 16); // RLC (HL)
    assert_eq!(cycles_of(&[0xCB, 0x46], 0), 12); // BIT 0,(HL)
    assert_eq!(cycles_of(&[0xCB, 0x86], 0), 16); // RES 0,(HL)
    assert_eq!(cycles_of(&[0xE0, 0x80], 0), 12); // LDH (n),A
    assert_eq!(cycles_of(&[0xE2], 0), 8); // LDH (C),A
    assert_eq!(cycles_of(&[0xE8, 1], 0), 16); // ADD SP,e
    assert_eq!(cycles_of(&[0xE9], 0), 4); // JP HL
    assert_eq!(cycles_of(&[0xEA, 0, 0xC1], 0), 16); // LD (nn),A
    assert_eq!(cycles_of(&[0xF8, 1], 0), 12); // LD HL,SP+e
    assert_eq!(cycles_of(&[0xF9], 0), 8); // LD SP,HL
    assert_eq!(cycles_of(&[0x76], 0), 4); // HALT
    assert_eq!(cycles_of(&[0xD3], 0), 4); // no instruction
}

#[test]
fn every_opcode_takes_between_4_and_24_cycles() {
    for opcode in 0..=255u8 {
        for f in [0x00u8, 0xF0] {
            let mut gb = machine(&[opcode, 0x00, 0xC1]);
            gb.cpu.f = f;
            gb.cpu.wr_hl(0xC100);
            gb.cpu_step();
            assert!(gb.cycles >= 4 && gb.cycles <= 24 && gb.cycles % 4 == 0, "{:02X}", opcode);
        }
    }
}

#[test]
fn loads_through_hl_step_the_pointer() {
    // LD (HL+),A ; LD A,(HL-)
    let mut gb = machine(&[0x22, 0x3A]);
    gb.cpu.a = 0x5A;
    gb.cpu.wr_hl(0xC100);
    gb.cpu_step();
    assert_eq!(gb.read(0xC100), 0x5A);
    assert_eq!(gb.cpu.rd_hl(), 0xC101);
    gb.write(0xC101, 0x77);
    gb.cpu_step();
    assert_eq!(gb.cpu.a, 0x77);
    assert_eq!(gb.cpu.rd_hl(), 0xC100);
}

#[test]
fn ld_n16_sp_stores_little_endian() {
    let mut gb = machine(&[0x08, 0x00, 0xC1]);
    gb.cpu.sp = 0xABCD;
    gb.cpu_step();
    assert_eq!(gb.read(0xC100), 0xCD);
    assert_eq!(gb.read(0xC101), 0xAB);
}

#[test]
fn add_sp_takes_flags_from_the_low_byte() {
    let mut gb = machine(&[0xE8, 0xFF]);
    gb.cpu.sp = 0x0001;
    gb.cpu_step();
    assert_eq!(gb.cpu.sp, 0x0000);
    assert_eq!(gb.cpu.f, 0x30);
    let mut gb = machine(&[0xF8, 0x02]);
    gb.cpu.sp = 0xFFFE;
    gb.cpu_step();
    assert_eq!(gb.cpu.rd_hl(), 0x0000);
    assert_eq!(gb.cpu.f, 0x30);
    assert_eq!(gb.cpu.sp, 0xFFFE);
}

#[test]
fn add_hl_sets_half_carry_from_bit_11() {
    let mut gb = machine(&[0x09]);
    gb.cpu.wr_hl(0x0FFF);
    gb.cpu.wr_bc(0x0001);
    gb.cpu.f = 0x80;
    gb.cpu_step();
    assert_eq!(gb.cpu.rd_hl(), 0x1000);
    assert_eq!(gb.cpu.f, 0xA0);
}

#[test]
fn bit_res_set_and_swap() {
    // BIT 7,A ; RES 7,A ; SET 0,A ; SWAP A
    let mut gb = machine(&[0xCB, 0x7F, 0xCB, 0xBF, 0xCB, 0xC7, 0xCB, 0x37]);
    gb.cpu.a = 0x80;
    gb.cpu.f = 0x10;
    gb.cpu_step();
    assert_eq!(gb.cpu.f, 0x30);
    gb.cpu_step();
    assert_eq!(gb.cpu.a, 0x00);
    gb.cpu_step();
    assert_eq!(gb.cpu.a, 0x01);
    gb.cpu_step();
    assert_eq!(gb.cpu.a, 0x10);
    assert_eq!(gb.cpu.f, 0x00);
}

#[test]
fn call_and_ret() {
    // CALL 0xC100 ; at 0xC100: RET
    let mut gb = machine(&[0xCD, 0x00, 0xC1]);
    gb.write(0xC100, 0xC9);
    gb.cpu_step();
    assert_eq!(gb.cpu.pc, 0xC100);
    assert_eq!(gb.cpu.sp, 0xDFEE);
    assert_eq!(gb.read(0xDFEF), 0xC0);
    assert_eq!(gb.read(0xDFEE), 0x03);
    gb.cpu_step();
    assert_eq!(gb.cpu.pc, 0xC003);
    assert_eq!(gb.cpu.sp, 0xDFF0);
}

#[test]
fn rst_jumps_to_its_vector() {
    for (opcode, vector) in [(0xC7u8, 0x00u16), (0xCF, 0x08), (0xD7, 0x10), (0xDF, 0x18), (0xE7, 0x20), (0xEF, 0x28), (0xF7, 0x30), (0xFF, 0x38)] {
        let mut gb = machine(&[opcode]);
        gb.cpu_step();
        assert_eq!(gb.cpu.pc, vector);
        assert_eq!(gb.read(gb.cpu.sp), 0x01);
    }
}

#[test]
fn jr_is_signed() {
    let mut gb = machine(&[0x18, 0xFE]);
    gb.cpu_step();
    assert_eq!(gb.cpu.pc, 0xC000);
    let mut gb = machine(&[0x18, 0x05]);
    gb.cpu_step();
    assert_eq!(gb.cpu.pc, 0xC007);
}

#[test]
fn undefined_opcodes_do_nothing() {
    for opcode in [0xD3u8, 0xDB, 0xDD, 0xE3, 0xE4, 0xEB, 0xEC, 0xED, 0xF4, 0xFC, 0xFD] {
        let mut gb = machine(&[opcode]);
        let before = gb.cpu;
        gb.cpu_step();
        assert_eq!(gb.cpu.pc, 0xC001);
        assert_eq!(gb.cpu.a, before.a);
        assert_eq!(gb.cpu.f, before.f);
        assert_eq!(gb.cpu.sp, before.sp);
        assert_eq!(gb.cycles, 4);
    }
}

#[test]
fn ei_takes_effect_after_the_next_instruction() {
    // EI ; NOP ; NOP
    let mut gb = machine(&[0xFB, 0x00, 0x00]);
    gb.intr.write_ie(0x04);
    gb.intr.request(Interrupt::TIMER);
    gb.cpu_step();
    assert!(matches!(gb.intr.ime, ImeState::ENABLING));
    gb.cpu_step();
    assert!(matches!(gb.intr.ime, ImeState::ENABLED));
    assert_eq!(gb.cpu.pc, 0xC002);
    let before = gb.cycles;
    gb.cpu_step();
    // the interrupt is serviced, then the instruction at the vector runs
    assert!(matches!(gb.intr.ime, ImeState::DISABLED));
    assert_eq!(gb.intr.read_if() & 0x04, 0);
    assert_eq!(gb.cycles - before, 20 + 4);
    assert_eq!(gb.read(gb.cpu.sp), 0x02);
    assert_eq!(gb.read(gb.cpu.sp + 1), 0xC0);
}

#[test]
fn interrupt_vectors_follow_priority() {
    for (bit, vector) in [(0x01u8, 0x40u16), (0x02, 0x48), (0x04, 0x50), (0x08, 0x58), (0x10, 0x60)] {
        let mut gb = machine(&[0x00]);
        gb.intr.enable_immediate();
        gb.intr.write_ie(0x1F);
        gb.intr.write_if(bit | 0x10);
        gb.cpu_step();
        // the blank ROM holds NOP at the vector
        assert_eq!(gb.cpu.pc, vector + 1);
        assert_eq!(gb.intr.read_if() & bit, 0);
    }
}

#[test]
fn reti_enables_at_once() {
    let mut gb = machine(&[0xD9]);
    gb.write(0xDFF0, 0x00);
    gb.write(0xDFF1, 0xC1);
    gb.cpu_step();
    assert!(matches!(gb.intr.ime, ImeState::ENABLED));
    assert_eq!(gb.cpu.pc, 0xC100);
}

#[test]
fn halt_waits_for_an_interrupt() {
    // HALT ; INC A
    let mut gb = machine(&[0x76, 0x3C]);
    gb.cpu.a = 0;
    gb.intr.write_ie(0x04);
    gb.cpu_step();
    assert!(gb.halt);
    let pc = gb.cpu.pc;
    gb.cpu_step();
    gb.cpu_step();
    assert!(gb.halt);
    assert_eq!(gb.cpu.pc, pc);
    assert_eq!(gb.cycles, 12);
    gb.intr.request(Interrupt::TIMER);
    gb.cpu_step();
    assert!(!gb.halt);
    assert_eq!(gb.cpu.a, 1);
}

#[test]
fn halt_bug_replays_a_byte() {
    // HALT ; INC A with interrupts disabled and one pending
    let mut gb = machine(&[0x76, 0x3C]);
    gb.cpu.a = 0;
    gb.intr.write_ie(0x04);
    gb.intr.request(Interrupt::TIMER);
    gb.cpu_step();
    assert!(!gb.halt);
    assert!(gb.halt_bug);
    gb.cpu_step();
    assert_eq!(gb.cpu.a, 1);
    assert_eq!(gb.cpu.pc, 0xC001);
    assert!(!gb.halt_bug);
    gb.cpu_step();
    assert_eq!(gb.cpu.a, 2);
    assert_eq!(gb.cpu.pc, 0xC002);
}

#[test]
fn stop_resets_the_divider() {
    let mut gb = machine(&[0x00, 0x00, 0x10]);
    gb.cpu_step();
    gb.cpu_step();
    assert_eq!(gb.timer.div, 8);
    gb.cpu_step();
    assert_eq!(gb.timer.div, 0);
}

#[test]
fn execute_runs_an_opcode_that_was_fetched() {
    let mut gb = machine(&[0x42]);
    gb.cpu.a = 0x0F;
    execute(&mut gb, 0x3C);
    assert_eq!(gb.cpu.a, 0x10);
    assert_eq!(gb.cpu.f & 0x20, 0x20);
    assert_eq!(gb.cycles, 0);
    execute(&mut gb, 0x06);
    assert_eq!(gb.cpu.b, 0x42);
    assert_eq!(gb.cycles, 4);
}

#[test]
fn step_ms_runs_its_budget_and_carries_the_excess() {
    // JR -2: a loop of 12 T-cycles
    let mut gb = machine(&[0x18, 0xFE]);
    gb.step_ms(1);
    // 4194 T-cycles are due; 350 loops are 4200
    assert_eq!(gb.cycles, 4200);
    assert_eq!(gb.ahead_cycles, 6);
    gb.step_ms(1);
    // 4188 are due now; 349 loops are 4188, and one more runs
    assert_eq!(gb.cycles, 4200 + 4200);
    assert_eq!(gb.ahead_cycles, 12);
}
