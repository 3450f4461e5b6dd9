//! What a debugger needs of the core: breakpoints on PC, watchpoints on
//! memory, counted steps, the length of an instruction and the numbers of
//! its command line.

use vstd::prelude::*;
use vstd::string::StringSliceAdditionalSpecFns;
use crate::cpu::Cpu;
use crate::gameboy::{GameBoy, Machine};

verus! {

/// An argument of a debugger command.
pub enum Arg {
    Numeric(u16),
    Bool(bool),
    Str(String),
    Absent,
}

/// A watched address and the byte that was last seen there.
#[derive(Clone, Copy, Debug, PartialEq, Eq, Structural)]
pub struct WatchPoint {
    pub addr: u16,
    pub last_val: u8,
}

#[derive(Clone, Copy, Debug, PartialEq, Eq, Structural)]
pub struct DbgConfig {
    /// The instruction at PC is shown after every command.
    pub disasm: bool,
    /// The registers are shown after every command.
    pub regs: bool,
}

pub struct Debugger {
    /// The breakpoints, in rising order.
    pub breakpoints: Vec<u16>,
    /// The watchpoints, in rising order of their addresses.
    pub watchpoints: Vec<WatchPoint>,
    pub config: DbgConfig,
}

/// Whether addresses rise strictly.
pub open spec fn rising(s: Seq<u16>) -> bool {
    forall|i: int, j: int| 0 <= i < j < s.len() ==> s[i] < s[j]
}

/// The addresses of watchpoints.
pub open spec fn watched(s: Seq<WatchPoint>) -> Seq<u16> {
    Seq::new(s.len(), |i: int| s[i].addr)
}

/// Where in rising addresses an address is, or where it belongs.
pub fn search(v: &Vec<u16>, addr: u16) -> (r: Result<usize, usize>)
    requires
        rising(v@),
    ensures
        match r {
            Ok(i) => i < v@.len() && v@[i as int] == addr,
            Err(i) => i <= v@.len() && (forall|j: int| 0 <= j < i ==> v@[j] < addr) && (forall|
                j: int,
            | i <= j < v@.len() ==> v@[j] > addr),
        },
{
    let mut lo: usize = 0;
    let mut hi: usize = v.len();
    while lo < hi
        invariant
            lo <= hi <= v@.len(),
            rising(v@),
            forall|j: int| 0 <= j < lo ==> v@[j] < addr,
            forall|j: int| hi <= j < v@.len() ==> v@[j] > addr,
        decreases hi - lo,
    {
        let mid = lo + (hi - lo) / 2;
        let x = v[mid];
        if x == addr {
            return Ok(mid);
        } else if x < addr {
            lo = mid + 1;
        } else {
            hi = mid;
        }
    }
    Err(lo)
}

/// Where among watchpoints an address is, or where it belongs.
pub fn search_watch(v: &Vec<WatchPoint>, addr: u16) -> (r: Result<usize, usize>)
    requires
        rising(watched(v@)),
    ensures
        match r {
            Ok(i) => i < v@.len() && v@[i as int].addr == addr,
            Err(i) => i <= v@.len() && (forall|j: int| 0 <= j < i ==> v@[j].addr < addr) && (forall|
                j: int,
            | i <= j < v@.len() ==> v@[j].addr > addr),
        },
{
    let mut lo: usize = 0;
    let mut hi: usize = v.len();
    while lo < hi
        invariant
            lo <= hi <= v@.len(),
            rising(watched(v@)),
            forall|j: int| 0 <= j < lo ==> v@[j].addr < addr,
            forall|j: int| hi <= j < v@.len() ==> v@[j].addr > addr,
        decreases hi - lo,
    {
        let mid = lo + (hi - lo) / 2;
        let x = v[mid].addr;
        assert(watched(v@)[mid as int] == x);
        if x == addr {
            return Ok(mid);
        } else if x < addr {
            assert forall|j: int| 0 <= j < mid + 1 implies v@[j].addr < addr by {
                assert(watched(v@)[j] == v@[j].addr);
            }
            lo = mid + 1;
        } else {
            assert forall|j: int| mid <= j < v@.len() implies v@[j].addr > addr by {
                assert(watched(v@)[j] == v@[j].addr);
            }
            hi = mid;
        }
    }
    Err(lo)
}

/// The length in bytes of the instruction with the given opcode: the
/// opcode, and one or two bytes of operand for the instructions that take
/// one. The CB prefix counts with its opcode as two.
pub open spec fn spec_instr_len(opcode: u8) -> u8 {
    match opcode {
        0x01 | 0x11 | 0x21 | 0x31 | 0x08 | 0xC2 | 0xC3 | 0xC4 | 0xCA | 0xCC | 0xCD | 0xD2 | 0xD4
        | 0xDA | 0xDC | 0xEA | 0xFA => 3,
        0x06 | 0x0E | 0x16 | 0x1E | 0x26 | 0x2E | 0x36 | 0x3E | 0x18 | 0x20 | 0x28 | 0x30 | 0x38
        | 0xC6 | 0xCE | 0xD6 | 0xDE | 0xE6 | 0xEE | 0xF6 | 0xFE | 0xE0 | 0xF0 | 0xE8 | 0xF8
        | 0xCB => 2,
        _ => 1,
    }
}

#[verifier::when_used_as_spec(spec_instr_len)]
pub fn instr_len(opcode: u8) -> (n: u8)
    ensures
        n == spec_instr_len(opcode),
{
    match opcode {
        0x01 | 0x11 | 0x21 | 0x31 | 0x08 | 0xC2 | 0xC3 | 0xC4 | 0xCA | 0xCC | 0xCD | 0xD2 | 0xD4
        | 0xDA | 0xDC | 0xEA | 0xFA => 3,
        0x06 | 0x0E | 0x16 | 0x1E | 0x26 | 0x2E | 0x36 | 0x3E | 0x18 | 0x20 | 0x28 | 0x30 | 0x38
        | 0xC6 | 0xCE | 0xD6 | 0xDE | 0xE6 | 0xEE | 0xF6 | 0xFE | 0xE0 | 0xF0 | 0xE8 | 0xF8
        | 0xCB => 2,
        _ => 1,
    }
}

/// What an instruction does to the depth of calls: a call goes one down, a
/// return comes one up. Stepping over a call runs until the depth is back
/// where it was.
pub open spec fn spec_call_depth(opcode: u8) -> int {
    match opcode {
        0xC4 | 0xCC | 0xD4 | 0xDC | 0xCD => 1,
        0xC0 | 0xC8 | 0xC9 | 0xD0 | 0xD8 | 0xD9 => -1,
        _ => 0,
    }
}

pub fn call_depth(opcode: u8) -> (d: i8)
    ensures
        d == spec_call_depth(opcode),
{
    match opcode {
        0xC4 | 0xCC | 0xD4 | 0xDC | 0xCD => 1,
        0xC0 | 0xC8 | 0xC9 | 0xD0 | 0xD8 | 0xD9 => -1,
        _ => 0,
    }
}

/// The value of a digit in the given base, 10 or 16.
pub open spec fn spec_digit(byte: u8, base: u8) -> Option<u8> {
    if 0x30 <= byte <= 0x39 {
        Some((byte - 0x30) as u8)
    } else if base == 16 && 0x41 <= byte <= 0x46 {
        Some((byte - 0x41 + 10) as u8)
    } else if base == 16 && 0x61 <= byte <= 0x66 {
        Some((byte - 0x61 + 10) as u8)
    } else {
        None
    }
}

/// The number that digits stand for, if they are digits all; else `None`.
/// The number may be large.
pub open spec fn spec_digits(digits: Seq<u8>, base: u8) -> Option<int>
    decreases digits.len(),
{
    if digits.len() == 0 {
        Some(0)
    } else {
        match (spec_digits(digits.drop_last(), base), spec_digit(digits.last(), base)) {
            (Some(upper), Some(d)) => Some(upper * base + d),
            _ => None,
        }
    }
}

/// Whether a text begins with `$` and so is hexadecimal.
pub open spec fn spec_is_hex(text: Seq<u8>) -> bool {
    text.len() > 0 && text[0] == 0x24
}

/// The digits of a text: what follows the `$`, if there is one, and the
/// `+`, if there is one.
pub open spec fn spec_digit_part(text: Seq<u8>) -> Seq<u8> {
    let body = if spec_is_hex(text) {
        text.subrange(1, text.len() as int)
    } else {
        text
    };
    if body.len() > 0 && body[0] == 0x2B {
        body.subrange(1, body.len() as int)
    } else {
        body
    }
}

/// The 16-bit number that a text stands for: decimal, or hexadecimal after
/// a `$`; a `+` may come first. There is at least one digit, and the number
/// is 65535 at most.
pub open spec fn spec_number(text: Seq<u8>) -> Option<u16> {
    let digits = spec_digit_part(text);
    if digits.len() == 0 {
        None
    } else {
        match spec_digits(
            digits,
            if spec_is_hex(text) {
                16
            } else {
                10
            },
        ) {
            Some(n) => if n <= 0xFFFF {
                Some(n as u16)
            } else {
                None
            },
            None => None,
        }
    }
}

#[verifier::when_used_as_spec(spec_digit)]
pub fn digit(byte: u8, base: u8) -> (d: Option<u8>)
    ensures
        d == spec_digit(byte, base),
{
    if 0x30 <= byte && byte <= 0x39 {
        Some(byte - 0x30)
    } else if base == 16 && 0x41 <= byte && byte <= 0x46 {
        Some(byte - 0x41 + 10)
    } else if base == 16 && 0x61 <= byte && byte <= 0x66 {
        Some(byte - 0x61 + 10)
    } else {
        None
    }
}

/// A number never gets smaller by a further digit.
proof fn lemma_digits_grow(digits: Seq<u8>, base: u8, n: int)
    requires
        base == 10 || base == 16,
        0 <= n <= digits.len(),
        spec_digits(digits, base) is Some,
    ensures
        spec_digits(digits.subrange(0, n), base) is Some,
        0 <= spec_digits(digits.subrange(0, n), base)->Some_0 <= spec_digits(digits, base)->Some_0,
    decreases digits.len() - n,
{
    if n == digits.len() {
        assert(digits.subrange(0, n) =~= digits);
        lemma_digits_nonneg(digits, base);
    } else {
        lemma_digits_grow(digits.drop_last(), base, n);
        assert(digits.drop_last().subrange(0, n) =~= digits.subrange(0, n));
        lemma_digits_nonneg(digits.drop_last(), base);
        assert(spec_digits(digits, base)->Some_0 >= spec_digits(digits.drop_last(), base)->Some_0)
            by (nonlinear_arith)
            requires
                spec_digits(digits, base)->Some_0 == spec_digits(
                    digits.drop_last(),
                    base,
                )->Some_0 * base + spec_digit(digits.last(), base)->Some_0,
                spec_digits(digits.drop_last(), base)->Some_0 >= 0,
                base >= 1,
                spec_digit(digits.last(), base)->Some_0 >= 0,
        ;
    }
}

proof fn lemma_digits_nonneg(digits: Seq<u8>, base: u8)
    requires
        spec_digits(digits, base) is Some,
    ensures
        spec_digits(digits, base)->Some_0 >= 0,
    decreases digits.len(),
{
    if digits.len() > 0 {
        lemma_digits_nonneg(digits.drop_last(), base);
        assert(spec_digits(digits.drop_last(), base)->Some_0 * base >= 0) by (nonlinear_arith)
            requires
                spec_digits(digits.drop_last(), base)->Some_0 >= 0,
                base >= 0,
        ;
    }
}

/// If some leading digits are no number, the whole is none.
proof fn lemma_digits_prefix(digits: Seq<u8>, base: u8, n: int)
    requires
        0 <= n <= digits.len(),
        spec_digits(digits.subrange(0, n), base) is None,
    ensures
        spec_digits(digits, base) is None,
    decreases digits.len() - n,
{
    if n == digits.len() {
        assert(digits.subrange(0, n) =~= digits);
    } else {
        assert(digits.drop_last().subrange(0, n) =~= digits.subrange(0, n));
        lemma_digits_prefix(digits.drop_last(), base, n);
    }
}

/// Reads a 16-bit number from the bytes of a text.
pub fn parse_number(text: &[u8]) -> (r: Option<u16>)
    ensures
        r == spec_number(text@),
{
    let hex = text.len() > 0 && text[0] == 0x24;
    let base: u8 = if hex {
        16
    } else {
        10
    };
    let mut start: usize = if hex {
        1
    } else {
        0
    };
    if start < text.len() && text[start] == 0x2B {
        start += 1;
    }
    let ghost digits = text@.subrange(start as int, text@.len() as int);
    proof {
        let body = if hex {
            text@.subrange(1, text@.len() as int)
        } else {
            text@
        };
        if body.len() > 0 && body[0] == 0x2B {
            assert(body.subrange(1, body.len() as int) =~= digits);
        } else {
            assert(body =~= digits);
        }
        assert(spec_digit_part(text@) == digits);
    }
    if start == text.len() {
        return None;
    }
    proof {
        assert(digits.subrange(0, 0) =~= Seq::<u8>::empty());
    }
    let mut value: u32 = 0;
    let mut i: usize = start;
    while i < text.len()
        invariant
            start <= i <= text@.len(),
            base == 10 || base == 16,
            digits == text@.subrange(start as int, text@.len() as int),
            digits == spec_digit_part(text@),
            digits.len() > 0,
            hex == spec_is_hex(text@),
            base == (if hex {
                16u8
            } else {
                10u8
            }),
            spec_digits(digits.subrange(0, i - start), base) == Some(value as int),
            value <= 0xFFFF,
        decreases text@.len() - i,
    {
        let ghost seen = digits.subrange(0, i - start);
        let ghost more = digits.subrange(0, i + 1 - start);
        proof {
            assert(more.drop_last() =~= seen);
            assert(more.last() == text@[i as int]);
        }
        match digit(text[i], base) {
            None => {
                proof {
                    lemma_digits_prefix(digits, base, i + 1 - start);
                }
                return None;
            },
            Some(d) => {
                let next = value * (base as u32) + d as u32;
                assert(spec_digits(more, base) == Some(next as int));
                if next > 0xFFFF {
                    proof {
                        if spec_digits(digits, base) is Some {
                            lemma_digits_grow(digits, base, i + 1 - start);
                        }
                    }
                    return None;
                }
                value = next;
            },
        }
        i += 1;
    }
    proof {
        assert(digits.subrange(0, i - start) =~= digits);
    }
    Some(value as u16)
}

/// A modifier that is no number.
#[derive(Clone, Copy, Debug, PartialEq, Eq, Structural)]
pub struct InvalidModifier;

/// The count that follows the `/` of a command: none if nothing follows,
/// else a number.
pub fn eval_modif(mod_str: &str) -> (r: Result<Option<u16>, InvalidModifier>)
    ensures
        r == (if mod_str.spec_bytes().len() == 0 {
            Ok::<Option<u16>, InvalidModifier>(None)
        } else {
            match spec_number(mod_str.spec_bytes()) {
                Some(n) => Ok(Some(n)),
                None => Err(InvalidModifier),
            }
        }),
{
    let bytes = mod_str.as_bytes();
    if bytes.len() == 0 {
        return Ok(None);
    }
    match parse_number(bytes) {
        Some(n) => Ok(Some(n)),
        None => Err(InvalidModifier),
    }
}

/// An argument that is neither a word that the debugger knows nor a
/// number.
#[derive(Clone, Copy, Debug, PartialEq, Eq, Structural)]
pub struct InvalidArgument;

/// Whether two texts are the same, byte for byte.
pub fn same_bytes(a: &[u8], b: &[u8]) -> (same: bool)
    ensures
        same == (a@ == b@),
{
    if a.len() != b.len() {
        return false;
    }
    let mut i: usize = 0;
    while i < a.len()
        invariant
            i <= a@.len(),
            a@.len() == b@.len(),
            forall|k: int| 0 <= k < i ==> a@[k] == b@[k],
        decreases a@.len() - i,
    {
        if a[i] != b[i] {
            return false;
        }
        i += 1;
    }
    assert(a@ =~= b@);
    true
}

/// Whether a text is the name of a command or of a flag, which stand for
/// themselves as arguments.
pub open spec fn spec_is_word(text: Seq<u8>) -> bool {
    ||| text == "help".spec_bytes()
    ||| text == "continue".spec_bytes()
    ||| text == "step".spec_bytes()
    ||| text == "disassemble".spec_bytes()
    ||| text == "break".spec_bytes()
    ||| text == "delete".spec_bytes()
    ||| text == "watch".spec_bytes()
    ||| text == "delwatch".spec_bytes()
    ||| text == "list".spec_bytes()
    ||| text == "examine".spec_bytes()
    ||| text == "registers".spec_bytes()
    ||| text == "set".spec_bytes()
    ||| text == "clear".spec_bytes()
    ||| text == "disasm".spec_bytes()
    ||| text == "regs".spec_bytes()
}

pub fn is_word(text: &[u8]) -> (b: bool)
    ensures
        b == spec_is_word(text@),
{
    same_bytes(text, "help".as_bytes()) || same_bytes(text, "continue".as_bytes()) || same_bytes(
        text,
        "step".as_bytes(),
    ) || same_bytes(text, "disassemble".as_bytes()) || same_bytes(text, "break".as_bytes())
        || same_bytes(text, "delete".as_bytes()) || same_bytes(text, "watch".as_bytes())
        || same_bytes(text, "delwatch".as_bytes()) || same_bytes(text, "list".as_bytes())
        || same_bytes(text, "examine".as_bytes()) || same_bytes(text, "registers".as_bytes())
        || same_bytes(text, "set".as_bytes()) || same_bytes(text, "clear".as_bytes())
        || same_bytes(text, "disasm".as_bytes()) || same_bytes(text, "regs".as_bytes())
}

/// The 16-bit register that a text names, if it names one.
pub open spec fn spec_register(cpu: Cpu, text: Seq<u8>) -> Option<u16> {
    if text == "af".spec_bytes() {
        Some(cpu.spec_af())
    } else if text == "bc".spec_bytes() {
        Some(cpu.spec_bc())
    } else if text == "de".spec_bytes() {
        Some(cpu.spec_de())
    } else if text == "hl".spec_bytes() {
        Some(cpu.spec_hl())
    } else if text == "pc".spec_bytes() {
        Some(cpu.pc)
    } else if text == "sp".spec_bytes() {
        Some(cpu.sp)
    } else {
        None
    }
}

pub fn register(cpu: &Cpu, text: &[u8]) -> (r: Option<u16>)
    ensures
        r == spec_register(*cpu, text@),
{
    if same_bytes(text, "af".as_bytes()) {
        Some(cpu.rd_af())
    } else if same_bytes(text, "bc".as_bytes()) {
        Some(cpu.rd_bc())
    } else if same_bytes(text, "de".as_bytes()) {
        Some(cpu.rd_de())
    } else if same_bytes(text, "hl".as_bytes()) {
        Some(cpu.rd_hl())
    } else if same_bytes(text, "pc".as_bytes()) {
        Some(cpu.pc)
    } else if same_bytes(text, "sp".as_bytes()) {
        Some(cpu.sp)
    } else {
        None
    }
}

/// What an argument of a command stands for: `on` and `off` for a switch,
/// the name of a command or flag for itself, the name of a register pair
/// for what the pair holds, and anything else for a number, if it is one.
pub fn eval_arg(gb: &GameBoy, arg_str: &str) -> (r: Result<Arg, InvalidArgument>)
    ensures
        ({
            let text = arg_str.spec_bytes();
            if text == "on".spec_bytes() {
                r matches Ok(Arg::Bool(b)) && b
            } else if text == "off".spec_bytes() {
                r matches Ok(Arg::Bool(b)) && !b
            } else if spec_is_word(text) {
                r matches Ok(Arg::Str(word)) && word@ == arg_str@
            } else if spec_register(gb.cpu, text) is Some {
                r matches Ok(Arg::Numeric(n)) && Some(n) == spec_register(gb.cpu, text)
            } else if spec_number(text) is Some {
                r matches Ok(Arg::Numeric(n)) && Some(n) == spec_number(text)
            } else {
                r is Err
            }
        }),
{
    let text = arg_str.as_bytes();
    if same_bytes(text, "on".as_bytes()) {
        return Ok(Arg::Bool(true));
    }
    if same_bytes(text, "off".as_bytes()) {
        return Ok(Arg::Bool(false));
    }
    if is_word(text) {
        return Ok(Arg::Str(arg_str.to_owned()));
    }
    match register(&gb.cpu, text) {
        Some(n) => return Ok(Arg::Numeric(n)),
        None => {},
    }
    match parse_number(text) {
        Some(n) => Ok(Arg::Numeric(n)),
        None => Err(InvalidArgument),
    }
}

impl Machine {
    /// The machine after `n` steps of the CPU.
    pub open spec fn spec_steps(self, n: nat) -> Machine
        decreases n,
    {
        if n == 0 {
            self
        } else {
            self.spec_step().spec_steps((n - 1) as nat)
        }
    }
}

impl Debugger {
    pub open spec fn wf(&self) -> bool {
        rising(self.breakpoints@) && rising(watched(self.watchpoints@))
    }

    /// Whether there is a breakpoint at an address.
    pub open spec fn has_breakpoint(&self, addr: u16) -> bool {
        self.breakpoints@.contains(addr)
    }

    /// Whether an address is watched.
    pub open spec fn has_watchpoint(&self, addr: u16) -> bool {
        watched(self.watchpoints@).contains(addr)
    }

    /// A debugger without breakpoints and watchpoints that shows the
    /// registers and the instruction at PC after every command.
    pub fn init() -> (d: Self)
        ensures
            d.wf(),
            d.breakpoints@.len() == 0,
            d.watchpoints@.len() == 0,
            d.config == (DbgConfig { disasm: true, regs: true }),
    {
        Self {
            breakpoints: Vec::new(),
            watchpoints: Vec::new(),
            config: DbgConfig { disasm: true, regs: true },
        }
    }

    /// Whether execution stops at `pc`.
    pub fn at_breakpoint(&self, pc: u16) -> (b: bool)
        requires
            self.wf(),
        ensures
            b == self.has_breakpoint(pc),
    {
        match search(&self.breakpoints, pc) {
            Ok(i) => true,
            Err(_) => false,
        }
    }

    /// Sets a breakpoint and says whether there was none at the address.
    pub fn breakpoint_cmd(&mut self, addr: u16) -> (added: bool)
        requires
            old(self).wf(),
        ensures
            final(self).wf(),
            added == !old(self).has_breakpoint(addr),
            final(self).has_breakpoint(addr),
            forall|a: u16| a != addr ==> final(self).has_breakpoint(a) == old(self).has_breakpoint(a),
            final(self).breakpoints@.len() == old(self).breakpoints@.len() + (if added {
                1int
            } else {
                0int
            }),
            final(self).watchpoints == old(self).watchpoints,
            final(self).config == old(self).config,
    {
        match search(&self.breakpoints, addr) {
            Ok(i) => false,
            Err(pos) => {
                let ghost before = self.breakpoints@;
                self.breakpoints.insert(pos, addr);
                proof {
                    let after = self.breakpoints@;
                    assert(after == before.insert(pos as int, addr));
                    assert(after[pos as int] == addr);
                    assert forall|a: u16| a != addr implies after.contains(a) == before.contains(
                        a,
                    ) by {
                        if before.contains(a) {
                            let i = choose|i: int| 0 <= i < before.len() && before[i] == a;
                            if i < pos {
                                assert(after[i] == a);
                            } else {
                                assert(after[i + 1] == a);
                            }
                        }
                        if after.contains(a) {
                            let i = choose|i: int| 0 <= i < after.len() && after[i] == a;
                            if i < pos {
                                assert(before[i] == a);
                            } else {
                                assert(before[i - 1] == a);
                            }
                        }
                    }
                    assert(!before.contains(addr));
                }
                true
            },
        }
    }

    /// Deletes a breakpoint and says whether there was one at the address.
    pub fn delete_cmd(&mut self, addr: u16) -> (deleted: bool)
        requires
            old(self).wf(),
        ensures
            final(self).wf(),
            deleted == old(self).has_breakpoint(addr),
            !final(self).has_breakpoint(addr),
            forall|a: u16| a != addr ==> final(self).has_breakpoint(a) == old(self).has_breakpoint(a),
            final(self).watchpoints == old(self).watchpoints,
            final(self).config == old(self).config,
    {
        match search(&self.breakpoints, addr) {
            Ok(pos) => {
                let ghost before = self.breakpoints@;
                let _ = self.breakpoints.remove(pos);
                proof {
                    let after = self.breakpoints@;
                    assert(after == before.remove(pos as int));
                    assert forall|a: u16| a != addr implies after.contains(a) == before.contains(
                        a,
                    ) by {
                        if before.contains(a) {
                            let i = choose|i: int| 0 <= i < before.len() && before[i] == a;
                            if i < pos {
                                assert(after[i] == a);
                            } else {
                                assert(after[i - 1] == a);
                            }
                        }
                        if after.contains(a) {
                            let i = choose|i: int| 0 <= i < after.len() && after[i] == a;
                            if i < pos {
                                assert(before[i] == a);
                            } else {
                                assert(before[i + 1] == a);
                            }
                        }
                    }
                    if after.contains(addr) {
                        let i = choose|i: int| 0 <= i < after.len() && after[i] == addr;
                        if i < pos {
                            assert(before[i] == addr);
                        } else {
                            assert(before[i + 1] == addr);
                        }
                    }
                }
                true
            },
            Err(_) => false,
        }
    }

    /// Watches an address, noting the byte that it holds, and says whether
    /// the address was not watched before.
    pub fn watchpoint_cmd(&mut self, gb: &GameBoy, addr: u16) -> (added: bool)
        requires
            old(self).wf(),
        ensures
            final(self).wf(),
            added == !old(self).has_watchpoint(addr),
            final(self).has_watchpoint(addr),
            added ==> exists|i: int|
                0 <= i < final(self).watchpoints@.len() && final(self).watchpoints@[i] == (
                WatchPoint { addr, last_val: gb@.read(addr) }),
            !added ==> final(self).watchpoints == old(self).watchpoints,
            final(self).watchpoints@.len() == old(self).watchpoints@.len() + (if added {
                1int
            } else {
                0int
            }),
            forall|k: int|
                0 <= k < old(self).watchpoints@.len() ==> final(self).watchpoints@.contains(
                    old(self).watchpoints@[k],
                ),
            final(self).breakpoints == old(self).breakpoints,
            final(self).config == old(self).config,
    {
        match search_watch(&self.watchpoints, addr) {
            Ok(i) => {
                proof {
                    assert(watched(self.watchpoints@)[i as int] == addr);
                }
                false
            },
            Err(pos) => {
                let ghost before = self.watchpoints@;
                let wp = WatchPoint { addr, last_val: gb.read(addr) };
                self.watchpoints.insert(pos, wp);
                proof {
                    let after = self.watchpoints@;
                    assert(after == before.insert(pos as int, wp));
                    assert(after[pos as int] == wp);
                    assert(watched(after)[pos as int] == addr);
                    assert forall|k: int| 0 <= k < before.len() implies after.contains(
                        before[k],
                    ) by {
                        if k < pos {
                            assert(after[k] == before[k]);
                        } else {
                            assert(after[k + 1] == before[k]);
                        }
                    }
                    assert forall|i: int, j: int| 0 <= i < j < after.len() implies watched(
                        after,
                    )[i] < watched(after)[j] by {
                        let bi = if i < pos {
                            i
                        } else {
                            i - 1
                        };
                        let bj = if j < pos {
                            j
                        } else {
                            j - 1
                        };
                        if i != pos && j != pos {
                            assert(watched(before)[bi] < watched(before)[bj]);
                        }
                    }
                    if watched(before).contains(addr) {
                        let i = choose|i: int|
                            0 <= i < watched(before).len() && watched(before)[i] == addr;
                        assert(before[i].addr == addr);
                    }
                }
                true
            },
        }
    }

    /// Stops watching an address and says whether it was watched.
    pub fn delwatch_cmd(&mut self, addr: u16) -> (deleted: bool)
        requires
            old(self).wf(),
        ensures
            final(self).wf(),
            deleted == old(self).has_watchpoint(addr),
            !final(self).has_watchpoint(addr),
            forall|k: int|
                0 <= k < old(self).watchpoints@.len() && old(self).watchpoints@[k].addr != addr
                    ==> final(self).watchpoints@.contains(old(self).watchpoints@[k]),
            final(self).watchpoints@.len() == old(self).watchpoints@.len() - (if deleted {
                1int
            } else {
                0int
            }),
            final(self).breakpoints == old(self).breakpoints,
            final(self).config == old(self).config,
    {
        match search_watch(&self.watchpoints, addr) {
            Ok(pos) => {
                let ghost before = self.watchpoints@;
                let _ = self.watchpoints.remove(pos);
                proof {
                    let after = self.watchpoints@;
                    assert(after == before.remove(pos as int));
                    assert(watched(before)[pos as int] == addr);
                    assert forall|k: int|
                        0 <= k < before.len() && before[k].addr != addr implies after.contains(
                        before[k],
                    ) by {
                        if k < pos {
                            assert(after[k] == before[k]);
                        } else {
                            assert(after[k - 1] == before[k]);
                        }
                    }
                    assert forall|i: int, j: int| 0 <= i < j < after.len() implies watched(
                        after,
                    )[i] < watched(after)[j] by {
                        let bi = if i < pos {
                            i
                        } else {
                            i + 1
                        };
                        let bj = if j < pos {
                            j
                        } else {
                            j + 1
                        };
                        assert(watched(before)[bi] < watched(before)[bj]);
                    }
                    if watched(after).contains(addr) {
                        let i = choose|i: int|
                            0 <= i < watched(after).len() && watched(after)[i] == addr;
                        let bi = if i < pos {
                            i
                        } else {
                            i + 1
                        };
                        assert(watched(before)[bi] == addr);
                        if bi < pos {
                            assert(watched(before)[bi] < watched(before)[pos as int]);
                        } else {
                            assert(watched(before)[pos as int] < watched(before)[bi]);
                        }
                    }
                }
                true
            },
            Err(_) => {
                proof {
                    if watched(self.watchpoints@).contains(addr) {
                        let i = choose|i: int|
                            0 <= i < watched(self.watchpoints@).len() && watched(
                                self.watchpoints@,
                            )[i] == addr;
                        assert(self.watchpoints@[i].addr == addr);
                    }
                }
                false
            },
        }
    }

    /// Notes for every watchpoint the byte that its address holds now.
    pub fn sync_watchpoints(&mut self, gb: &GameBoy)
        ensures
            final(self).watchpoints@.len() == old(self).watchpoints@.len(),
            forall|i: int|
                0 <= i < final(self).watchpoints@.len() ==> final(self).watchpoints@[i] == (
                WatchPoint {
                    addr: old(self).watchpoints@[i].addr,
                    last_val: gb@.read(old(self).watchpoints@[i].addr),
                }),
            final(self).breakpoints == old(self).breakpoints,
            final(self).config == old(self).config,
    {
        let mut i: usize = 0;
        while i < self.watchpoints.len()
            invariant
                i <= self.watchpoints@.len(),
                self.watchpoints@.len() == old(self).watchpoints@.len(),
                self.breakpoints == old(self).breakpoints,
                self.config == old(self).config,
                forall|k: int|
                    0 <= k < i ==> self.watchpoints@[k] == (WatchPoint {
                        addr: old(self).watchpoints@[k].addr,
                        last_val: gb@.read(old(self).watchpoints@[k].addr),
                    }),
                forall|k: int|
                    i <= k < self.watchpoints@.len() ==> self.watchpoints@[k] == old(
                        self,
                    ).watchpoints@[k],
            decreases self.watchpoints@.len() - i,
        {
            let addr = self.watchpoints[i].addr;
            self.watchpoints.set(i, WatchPoint { addr, last_val: gb.read(addr) });
            i += 1;
        }
    }

    /// The first watchpoint whose address does not hold the byte that was
    /// last seen there: its number, counted from 1, the byte it holds now
    /// and its address.
    pub fn changed_watchpoint(&self, gb: &GameBoy) -> (r: Option<(usize, u8, u16)>)
        ensures
            match r {
                Some((n, val, addr)) => {
                    &&& 1 <= n <= self.watchpoints@.len()
                    &&& addr == self.watchpoints@[n - 1].addr
                    &&& val == gb@.read(addr)
                    &&& val != self.watchpoints@[n - 1].last_val
                    &&& forall|k: int|
                        0 <= k < n - 1 ==> gb@.read(self.watchpoints@[k].addr)
                            == self.watchpoints@[k].last_val
                },
                None => forall|k: int|
                    0 <= k < self.watchpoints@.len() ==> gb@.read(self.watchpoints@[k].addr)
                        == self.watchpoints@[k].last_val,
            },
    {
        let mut i: usize = 0;
        while i < self.watchpoints.len()
            invariant
                i <= self.watchpoints@.len(),
                forall|k: int|
                    0 <= k < i ==> gb@.read(self.watchpoints@[k].addr)
                        == self.watchpoints@[k].last_val,
            decreases self.watchpoints@.len() - i,
        {
            let wp = self.watchpoints[i];
            let val = gb.read(wp.addr);
            if val != wp.last_val {
                return Some((i + 1, val, wp.addr));
            }
            i += 1;
        }
        None
    }

    /// Runs the CPU for a count of steps: one if no count is given.
    pub fn step_cmd(&self, gb: &mut GameBoy, modif: Option<u16>)
        requires
            old(gb).wf(),
        ensures
            final(gb)@ == old(gb)@.spec_steps(
                match modif {
                    Some(n) => n as nat,
                    None => 1nat,
                },
            ),
            final(gb).wf(),
    {
        let steps = match modif {
            None => 1,
            Some(n) => n,
        };
        let mut i: u16 = 0;
        while i < steps
            invariant
                i <= steps,
                gb.wf(),
                gb@.spec_steps((steps - i) as nat) == old(gb)@.spec_steps(steps as nat),
            decreases steps - i,
        {
            gb.cpu_step();
            i += 1;
        }
    }
}

} // verus!
