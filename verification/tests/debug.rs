use dmg_core::cart::header::load_rom;
use dmg_core::debug::{call_depth, eval_arg, eval_modif, instr_len, is_word, parse_number, same_bytes, search, Arg, Debugger, InvalidModifier};
use dmg_core::gameboy::GameBoy;

fn machine() -> GameBoy {
    let mut rom = vec![0u8; 0x8000];
    let mut sum: u8 = 0;
    for i in 0x0134..=0x014C {
        sum = sum.wrapping_sub(rom[i]).wrapping_sub(1);
    }
    rom[0x014D] = sum;
    match load_rom(&rom) {
        Ok(cart) => GameBoy::init(cart),
        Err(e) => panic!("{:?}", e),
    }
}

#[test]
fn numbers_are_decimal_or_hexadecimal() {
    assert_eq!(parse_number(b"0"), Some(0));
    assert_eq!(parse_number(b"42"), Some(42));
    assert_eq!(parse_number(b"+42"), Some(42));
    assert_eq!(parse_number(b"00042"), Some(42));
    assert_eq!(parse_number(b"65535"), Some(65535));
    assert_eq!(parse_number(b"65536"), None);
    assert_eq!(parse_number(b"99999999999999999999"), None);
    assert_eq!(parse_number(b"$FF"), Some(0xFF));
    assert_eq!(parse_number(b"$ff"), Some(0xFF));
    assert_eq!(parse_number(b"$c000"), Some(0xC000));
    assert_eq!(parse_number(b"$FFFF"), Some(0xFFFF));
    assert_eq!(parse_number(b"$10000"), None);
    assert_eq!(parse_number(b"$+1A"), Some(0x1A));
    assert_eq!(parse_number(b""), None);
    assert_eq!(parse_number(b"$"), None);
    assert_eq!(parse_number(b"+"), None);
    assert_eq!(parse_number(b"-1"), None);
    assert_eq!(parse_number(b"1A"), None);
    assert_eq!(parse_number(b"$G"), None);
    assert_eq!(parse_number(b"12 "), None);
    assert_eq!(parse_number(b"++1"), None);
}

#[test]
fn numbers_agree_with_the_standard_parsers() {
    for n in 0..=65535u32 {
        let dec = format!("{}", n);
        let hex = format!("${:X}", n);
        assert_eq!(parse_number(dec.as_bytes()), dec.parse::<u16>().ok());
        assert_eq!(parse_number(hex.as_bytes()), u16::from_str_radix(&hex[1..], 16).ok());
    }
    for text in ["65536", "70000", "", "+", "+5", "x", "1_0", "0x10"] {
        assert_eq!(parse_number(text.as_bytes()), text.parse::<u16>().ok());
    }
}

#[test]
fn a_modifier_may_be_absent() {
    assert_eq!(eval_modif(""), Ok(None));
    assert_eq!(eval_modif("16"), Ok(Some(16)));
    assert_eq!(eval_modif("$10"), Ok(Some(16)));
    assert_eq!(eval_modif("x"), Err(InvalidModifier));
    assert_eq!(eval_modif("70000"), Err(InvalidModifier));
}

#[test]
fn instruction_lengths() {
    assert_eq!(instr_len(0x00), 1);
    assert_eq!(instr_len(0x01), 3);
    assert_eq!(instr_len(0x06), 2);
    assert_eq!(instr_len(0x08), 3);
    assert_eq!(instr_len(0x18), 2);
    assert_eq!(instr_len(0x76), 1);
    assert_eq!(instr_len(0xC3), 3);
    assert_eq!(instr_len(0xCB), 2);
    assert_eq!(instr_len(0xCD), 3);
    assert_eq!(instr_len(0xE0), 2);
    assert_eq!(instr_len(0xE8), 2);
    assert_eq!(instr_len(0xEA), 3);
    assert_eq!(instr_len(0xFE), 2);
    assert_eq!(instr_len(0xFF), 1);
}

#[test]
fn an_instruction_that_does_not_jump_moves_pc_by_its_length() {
    for opcode in 0..=255u8 {
        let jumps = matches!(opcode, 0x18 | 0x20 | 0x28 | 0x30 | 0x38 | 0xC0..=0xC4 | 0xC7..=0xCD | 0xCF | 0xD0 | 0xD2 | 0xD4 | 0xD7..=0xDA | 0xDC | 0xDF | 0xE7 | 0xE9 | 0xEF | 0xF7 | 0xFF | 0x76);
        if jumps {
            continue;
        }
        let mut gb = machine();
        gb.write(0xC000, opcode);
        gb.cpu.pc = 0xC000;
        gb.cpu.sp = 0xD000;
        gb.cpu.wr_hl(0xC800);
        gb.cpu_step();
        assert_eq!(gb.cpu.pc, 0xC000 + instr_len(opcode) as u16, "{:02X}", opcode);
    }
}

#[test]
fn calls_and_returns_change_the_depth() {
    for opcode in [0xC4u8, 0xCC, 0xD4, 0xDC, 0xCD] {
        assert_eq!(call_depth(opcode), 1);
    }
    for opcode in [0xC0u8, 0xC8, 0xC9, 0xD0, 0xD8, 0xD9] {
        assert_eq!(call_depth(opcode), -1);
    }
    assert_eq!(call_depth(0x00), 0);
    assert_eq!(call_depth(0xC3), 0);
    assert_eq!(call_depth(0xC7), 0);
}

#[test]
fn breakpoints_are_a_sorted_set() {
    let mut dbg = Debugger::init();
    assert!(!dbg.at_breakpoint(0x0100));
    assert!(dbg.breakpoint_cmd(0x0150));
    assert!(dbg.breakpoint_cmd(0x0100));
    assert!(dbg.breakpoint_cmd(0xC000));
    assert!(!dbg.breakpoint_cmd(0x0150));
    assert_eq!(dbg.breakpoints, vec![0x0100, 0x0150, 0xC000]);
    assert!(dbg.at_breakpoint(0x0100));
    assert!(dbg.at_breakpoint(0xC000));
    assert!(!dbg.at_breakpoint(0x0101));
    assert_eq!(search(&dbg.breakpoints, 0x0150), Ok(1));
    assert_eq!(search(&dbg.breakpoints, 0x0000), Err(0));
    assert_eq!(search(&dbg.breakpoints, 0x0101), Err(1));
    assert_eq!(search(&dbg.breakpoints, 0xFFFF), Err(3));
    assert!(dbg.delete_cmd(0x0150));
    assert!(!dbg.delete_cmd(0x0150));
    assert_eq!(dbg.breakpoints, vec![0x0100, 0xC000]);
}

#[test]
fn watchpoints_see_a_change() {
    let mut gb = machine();
    let mut dbg = Debugger::init();
    gb.write(0xC001, 0x11);
    assert!(dbg.watchpoint_cmd(&gb, 0xC001));
    assert!(dbg.watchpoint_cmd(&gb, 0xC000));
    assert!(!dbg.watchpoint_cmd(&gb, 0xC001));
    assert_eq!(dbg.watchpoints.len(), 2);
    assert_eq!(dbg.watchpoints[0].addr, 0xC000);
    assert_eq!(dbg.watchpoints[1].last_val, 0x11);
    assert_eq!(dbg.changed_watchpoint(&gb), None);
    gb.write(0xC001, 0x22);
    assert_eq!(dbg.changed_watchpoint(&gb), Some((2, 0x22, 0xC001)));
    gb.write(0xC000, 0x33);
    assert_eq!(dbg.changed_watchpoint(&gb), Some((1, 0x33, 0xC000)));
    dbg.sync_watchpoints(&gb);
    assert_eq!(dbg.changed_watchpoint(&gb), None);
    assert!(dbg.delwatch_cmd(0xC000));
    assert!(!dbg.delwatch_cmd(0xC000));
    assert_eq!(dbg.watchpoints.len(), 1);
}

#[test]
fn step_runs_a_count_of_instructions() {
    let mut gb = machine();
    let dbg = Debugger::init();
    gb.cpu.pc = 0xC000;
    dbg.step_cmd(&mut gb, None);
    assert_eq!(gb.cpu.pc, 0xC001);
    dbg.step_cmd(&mut gb, Some(5));
    assert_eq!(gb.cpu.pc, 0xC006);
    dbg.step_cmd(&mut gb, Some(0));
    assert_eq!(gb.cpu.pc, 0xC006);
    assert_eq!(gb.cycles, 24);
}

#[test]
fn arguments_are_switches_words_registers_or_numbers() {
    let mut gb = machine();
    gb.cpu.wr_bc(0x1234);
    gb.cpu.pc = 0xC123;
    assert!(matches!(eval_arg(&gb, "on"), Ok(Arg::Bool(true))));
    assert!(matches!(eval_arg(&gb, "off"), Ok(Arg::Bool(false))));
    match eval_arg(&gb, "disasm") {
        Ok(Arg::Str(word)) => assert_eq!(word, "disasm"),
        _ => panic!(),
    }
    match eval_arg(&gb, "watch") {
        Ok(Arg::Str(word)) => assert_eq!(word, "watch"),
        _ => panic!(),
    }
    assert!(matches!(eval_arg(&gb, "af"), Ok(Arg::Numeric(0x01B0))));
    assert!(matches!(eval_arg(&gb, "bc"), Ok(Arg::Numeric(0x1234))));
    assert!(matches!(eval_arg(&gb, "de"), Ok(Arg::Numeric(0x00D8))));
    assert!(matches!(eval_arg(&gb, "hl"), Ok(Arg::Numeric(0x014D))));
    assert!(matches!(eval_arg(&gb, "pc"), Ok(Arg::Numeric(0xC123))));
    assert!(matches!(eval_arg(&gb, "sp"), Ok(Arg::Numeric(0xFFFE))));
    assert!(matches!(eval_arg(&gb, "$C000"), Ok(Arg::Numeric(0xC000))));
    assert!(matches!(eval_arg(&gb, "100"), Ok(Arg::Numeric(100))));
    assert!(eval_arg(&gb, "ON").is_err());
    assert!(eval_arg(&gb, "").is_err());
    assert!(eval_arg(&gb, "hlx").is_err());
    assert!(eval_arg(&gb, "$10000").is_err());
}

#[test]
fn words_are_compared_byte_for_byte() {
    assert!(same_bytes(b"", b""));
    assert!(same_bytes(b"abc", b"abc"));
    assert!(!same_bytes(b"abc", b"abd"));
    assert!(!same_bytes(b"abc", b"ab"));
    for word in ["help", "continue", "step", "disassemble", "break", "delete", "watch", "delwatch", "list", "examine", "registers", "set", "clear", "disasm", "regs"] {
        assert!(is_word(word.as_bytes()));
    }
    for word in ["", "on", "off", "hel", "helpp", "Help", "af", "next"] {
        assert!(!is_word(word.as_bytes()));
    }
}
