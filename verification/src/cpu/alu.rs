//! The arithmetic and logic unit: what each operation gives for its
//! operands, as a result and the four flags.

use vstd::prelude::*;

verus! {

/// The flag register for the four flags.
pub open spec fn spec_flags(z: bool, n: bool, h: bool, c: bool) -> u8 {
    ((if z {
        0x80int
    } else {
        0
    }) + (if n {
        0x40int
    } else {
        0
    }) + (if h {
        0x20int
    } else {
        0
    }) + (if c {
        0x10int
    } else {
        0
    })) as u8
}

#[verifier::when_used_as_spec(spec_flags)]
pub fn flags(z: bool, n: bool, h: bool, c: bool) -> (f: u8)
    ensures
        f == spec_flags(z, n, h, c),
{
    let fz: u8 = if z {
        0x80
    } else {
        0
    };
    let fn_: u8 = if n {
        0x40
    } else {
        0
    };
    let fh: u8 = if h {
        0x20
    } else {
        0
    };
    let fc: u8 = if c {
        0x10
    } else {
        0
    };
    fz + fn_ + fh + fc
}

/// A flag register made of four flags shows each of them in its bit, and
/// nothing in its low nibble.
pub proof fn lemma_flags(z: bool, n: bool, h: bool, c: bool)
    ensures
        (spec_flags(z, n, h, c) & 0x80 != 0) == z,
        (spec_flags(z, n, h, c) & 0x40 != 0) == n,
        (spec_flags(z, n, h, c) & 0x20 != 0) == h,
        (spec_flags(z, n, h, c) & 0x10 != 0) == c,
        spec_flags(z, n, h, c) & 0x0F == 0,
        spec_flags(z, n, h, c) & 0xF0 == spec_flags(z, n, h, c),
{
    let f = spec_flags(z, n, h, c);
    assert(f & 0x0F == 0 && f & 0xF0 == f && (f & 0x80 != 0) == (f >= 0x80) && (f & 0x40 != 0) == (f
        % 0x80 >= 0x40) && (f & 0x20 != 0) == (f % 0x40 >= 0x20) && (f & 0x10 != 0) == (f % 0x20
        >= 0x10)) by (bit_vector)
        requires
            f % 16 == 0,
    ;
}

/// The carry as a number.
pub open spec fn bit(c: bool) -> int {
    if c {
        1
    } else {
        0
    }
}

/// ADD and ADC: the sum in eight bits. Z if it is zero, H on a carry out of
/// bit 3, C on a carry out of bit 7.
pub open spec fn spec_add8(a: u8, b: u8, carry: bool) -> (u8, u8) {
    let sum = a + b + bit(carry);
    (
        (sum % 256) as u8,
        spec_flags(sum % 256 == 0, false, a % 16 + b % 16 + bit(carry) > 15, sum > 255),
    )
}

/// SUB, SBC and CP: the difference in eight bits. Z if it is zero, N always,
/// H on a borrow from bit 4, C on a borrow from bit 8.
pub open spec fn spec_sub8(a: u8, b: u8, carry: bool) -> (u8, u8) {
    let diff = a - b - bit(carry);
    (
        (diff % 256) as u8,
        spec_flags(diff % 256 == 0, true, a % 16 < b % 16 + bit(carry), diff < 0),
    )
}

pub open spec fn spec_and8(a: u8, b: u8) -> (u8, u8) {
    (a & b, spec_flags(a & b == 0, false, true, false))
}

pub open spec fn spec_or8(a: u8, b: u8) -> (u8, u8) {
    (a | b, spec_flags(a | b == 0, false, false, false))
}

pub open spec fn spec_xor8(a: u8, b: u8) -> (u8, u8) {
    (a ^ b, spec_flags(a ^ b == 0, false, false, false))
}

/// INC: one more, in eight bits. Z, N and H are set for it; C stays.
pub open spec fn spec_inc8(v: u8, c: bool) -> (u8, u8) {
    (((v + 1) % 256) as u8, spec_flags(v == 255, false, v % 16 == 15, c))
}

/// DEC: one less, in eight bits. Z, N and H are set for it; C stays.
pub open spec fn spec_dec8(v: u8, c: bool) -> (u8, u8) {
    (((v - 1) % 256) as u8, spec_flags(v == 1, true, v % 16 == 0, c))
}

/// ADD HL: the sum in sixteen bits. Z stays, H on a carry out of bit 11, C
/// on a carry out of bit 15.
pub open spec fn spec_add16(hl: u16, v: u16, z: bool) -> (u16, u8) {
    (((hl + v) % 0x10000) as u16, spec_flags(z, false, hl % 0x1000 + v % 0x1000 > 0x0FFF, hl + v > 0xFFFF))
}

/// A byte taken as a signed number.
pub open spec fn signed(e: u8) -> int {
    if e < 128 {
        e as int
    } else {
        e - 256
    }
}

/// ADD SP and LD HL,SP+e: SP plus a signed byte, in sixteen bits. H and C
/// are those of adding the byte, unsigned, to the low byte of SP.
pub open spec fn spec_add_sp(sp: u16, e: u8) -> (u16, u8) {
    (
        ((sp + signed(e)) % 0x10000) as u16,
        spec_flags(false, false, sp % 16 + e % 16 > 15, sp % 256 + e > 255),
    )
}

/// The eight rotations and shifts of the CB page, by their number in the
/// opcode.
#[allow(non_camel_case_types)]
#[derive(Clone, Copy, Debug, PartialEq, Eq, Structural)]
pub enum Shift {
    RLC,
    RRC,
    RL,
    RR,
    SLA,
    SRA,
    SWAP,
    SRL,
}

/// What a rotation or shift makes of a byte; `carry` is the C flag before.
pub open spec fn spec_shifted(op: Shift, v: u8, carry: bool) -> u8 {
    (match op {
        Shift::RLC => (v * 2) % 256 + v / 128,
        Shift::RRC => v / 2 + (v % 2) * 128,
        Shift::RL => (v * 2) % 256 + bit(carry),
        Shift::RR => v / 2 + bit(carry) * 128,
        Shift::SLA => (v * 2) % 256,
        Shift::SRA => v / 2 + (v / 128) * 128,
        Shift::SWAP => (v % 16) * 16 + v / 16,
        Shift::SRL => (v / 2) as int,
    }) as u8
}

/// The bit that a rotation or shift moves out, which becomes the C flag.
pub open spec fn spec_shifted_out(op: Shift, v: u8) -> bool {
    match op {
        Shift::RLC | Shift::RL | Shift::SLA => v >= 128,
        Shift::RRC | Shift::RR | Shift::SRA | Shift::SRL => v % 2 == 1,
        Shift::SWAP => false,
    }
}

/// A rotation or shift of the CB page: Z if the result is zero, C the bit
/// moved out.
pub open spec fn spec_shift(op: Shift, v: u8, carry: bool) -> (u8, u8) {
    (
        spec_shifted(op, v, carry),
        spec_flags(spec_shifted(op, v, carry) == 0, false, false, spec_shifted_out(op, v)),
    )
}

/// RLCA, RRCA, RLA and RRA: as on the CB page, but Z is always clear.
pub open spec fn spec_shift_a(op: Shift, v: u8, carry: bool) -> (u8, u8) {
    (spec_shifted(op, v, carry), spec_flags(false, false, false, spec_shifted_out(op, v)))
}

/// Whether bit `n` of a byte is set.
pub open spec fn spec_test_bit(v: u8, n: u8) -> bool {
    (v >> n) & 1 != 0
}

/// BIT: Z if the bit is clear, N clear, H set; C stays.
pub open spec fn spec_bit_flags(v: u8, n: u8, c: bool) -> u8 {
    spec_flags(!spec_test_bit(v, n), false, true, c)
}

pub open spec fn spec_res(v: u8, n: u8) -> u8 {
    v & !(1u8 << n)
}

pub open spec fn spec_set(v: u8, n: u8) -> u8 {
    v | (1u8 << n)
}

/// DAA: the correction that makes A a packed decimal number after an
/// addition or subtraction of two such numbers. After an addition 0x06 is
/// added if H is set or the low digit is above 9, and 0x60 if C is set or
/// the value is above 0x9F by then; after a subtraction 0x06 is taken off
/// if H is set and 0x60 if C is set. C is set if the addition went beyond
/// eight bits, and else stays; Z is set for the result, H is clear, N
/// stays.
pub open spec fn spec_daa(a: u8, n: bool, h: bool, c: bool) -> (u8, u8) {
    let res: int = if n {
        let r1: int = if h {
            (a - 6) % 256
        } else {
            a as int
        };
        if c {
            r1 - 0x60
        } else {
            r1
        }
    } else {
        let r1: int = if h || a % 16 > 9 {
            a + 6
        } else {
            a as int
        };
        if c || r1 > 0x9F {
            r1 + 0x60
        } else {
            r1
        }
    };
    ((res % 256) as u8, spec_flags(res % 256 == 0, n, false, c || (res >= 0x100 && res < 0x200)))
}

pub fn add8(a: u8, b: u8, carry: bool) -> (r: (u8, u8))
    ensures
        r == spec_add8(a, b, carry),
{
    let c: u8 = if carry {
        1
    } else {
        0
    };
    let sum = a.wrapping_add(b).wrapping_add(c);
    (sum, flags(sum == 0, false, (a % 16) + (b % 16) + c > 0x0F, sum < a || (sum == a && carry)))
}

pub fn sub8(a: u8, b: u8, carry: bool) -> (r: (u8, u8))
    ensures
        r == spec_sub8(a, b, carry),
{
    let c: u8 = if carry {
        1
    } else {
        0
    };
    let diff = a.wrapping_sub(b).wrapping_sub(c);
    (
        diff,
        flags(diff == 0, true, (a % 16) < (b % 16) + c, a < b.wrapping_add(c) || (b == 0xFF && carry)),
    )
}

pub fn and8(a: u8, b: u8) -> (r: (u8, u8))
    ensures
        r == spec_and8(a, b),
{
    (a & b, flags(a & b == 0, false, true, false))
}

pub fn or8(a: u8, b: u8) -> (r: (u8, u8))
    ensures
        r == spec_or8(a, b),
{
    (a | b, flags(a | b == 0, false, false, false))
}

pub fn xor8(a: u8, b: u8) -> (r: (u8, u8))
    ensures
        r == spec_xor8(a, b),
{
    (a ^ b, flags(a ^ b == 0, false, false, false))
}

pub fn inc8(v: u8, c: bool) -> (r: (u8, u8))
    ensures
        r == spec_inc8(v, c),
{
    let res = v.wrapping_add(1);
    (res, flags(res == 0, false, (v % 16) + 1 > 0x0F, c))
}

pub fn dec8(v: u8, c: bool) -> (r: (u8, u8))
    ensures
        r == spec_dec8(v, c),
{
    let res = v.wrapping_sub(1);
    (res, flags(res == 0, true, v % 16 == 0, c))
}

pub fn add16(hl: u16, v: u16, z: bool) -> (r: (u16, u8))
    ensures
        r == spec_add16(hl, v, z),
{
    let res = hl.wrapping_add(v);
    (res, flags(z, false, (hl % 0x1000) + (v % 0x1000) > 0x0FFF, res < hl))
}

pub fn add_sp(sp: u16, e: u8) -> (r: (u16, u8))
    ensures
        r == spec_add_sp(sp, e),
{
    let offset: u16 = if e < 128 {
        e as u16
    } else {
        0xFF00 + e as u16
    };
    let res = sp.wrapping_add(offset);
    (res, flags(false, false, (sp % 16) + (e as u16 % 16) > 0x0F, (sp % 256) + e as u16 > 0xFF))
}

pub fn shifted(op: Shift, v: u8, carry: bool) -> (r: u8)
    ensures
        r == spec_shifted(op, v, carry),
{
    let c: u8 = if carry {
        1
    } else {
        0
    };
    match op {
        Shift::RLC => ((v % 128) * 2) + v / 128,
        Shift::RRC => v / 2 + (v % 2) * 128,
        Shift::RL => ((v % 128) * 2) + c,
        Shift::RR => v / 2 + c * 128,
        Shift::SLA => (v % 128) * 2,
        Shift::SRA => v / 2 + (v / 128) * 128,
        Shift::SWAP => (v % 16) * 16 + v / 16,
        Shift::SRL => v / 2,
    }
}

pub fn shifted_out(op: Shift, v: u8) -> (c: bool)
    ensures
        c == spec_shifted_out(op, v),
{
    match op {
        Shift::RLC | Shift::RL | Shift::SLA => v >= 128,
        Shift::RRC | Shift::RR | Shift::SRA | Shift::SRL => v % 2 == 1,
        Shift::SWAP => false,
    }
}

pub fn shift(op: Shift, v: u8, carry: bool) -> (r: (u8, u8))
    ensures
        r == spec_shift(op, v, carry),
{
    let res = shifted(op, v, carry);
    (res, flags(res == 0, false, false, shifted_out(op, v)))
}

pub fn shift_a(op: Shift, v: u8, carry: bool) -> (r: (u8, u8))
    ensures
        r == spec_shift_a(op, v, carry),
{
    (shifted(op, v, carry), flags(false, false, false, shifted_out(op, v)))
}

/// The rotation or shift that a CB opcode below 0x40 stands for.
pub fn shift_of(opcode: u8) -> (op: Shift)
    ensures
        op == spec_shift_of(opcode),
{
    match (opcode / 8) % 8 {
        0 => Shift::RLC,
        1 => Shift::RRC,
        2 => Shift::RL,
        3 => Shift::RR,
        4 => Shift::SLA,
        5 => Shift::SRA,
        6 => Shift::SWAP,
        _ => Shift::SRL,
    }
}

pub open spec fn spec_shift_of(opcode: u8) -> Shift {
    match (opcode / 8) % 8 {
        0 => Shift::RLC,
        1 => Shift::RRC,
        2 => Shift::RL,
        3 => Shift::RR,
        4 => Shift::SLA,
        5 => Shift::SRA,
        6 => Shift::SWAP,
        _ => Shift::SRL,
    }
}

#[verifier::when_used_as_spec(spec_test_bit)]
pub fn test_bit(v: u8, n: u8) -> (b: bool)
    requires
        n < 8,
    ensures
        b == spec_test_bit(v, n),
{
    (v >> n) & 1 != 0
}

pub fn bit_flags(v: u8, n: u8, c: bool) -> (f: u8)
    requires
        n < 8,
    ensures
        f == spec_bit_flags(v, n, c),
{
    flags(!test_bit(v, n), false, true, c)
}

pub fn res_bit(v: u8, n: u8) -> (r: u8)
    requires
        n < 8,
    ensures
        r == spec_res(v, n),
{
    v & !(1u8 << n)
}

pub fn set_bit(v: u8, n: u8) -> (r: u8)
    requires
        n < 8,
    ensures
        r == spec_set(v, n),
{
    v | (1u8 << n)
}

pub fn daa(a: u8, n: bool, h: bool, c: bool) -> (r: (u8, u8))
    ensures
        r == spec_daa(a, n, h, c),
{
    let mut res: i16 = a as i16;
    if n {
        if h {
            res = (res - 0x06) % 256;
            if res < 0 {
                res = res + 256;
            }
        }
        if c {
            res -= 0x60;
        }
    } else {
        if h || res % 16 > 0x09 {
            res += 0x06;
        }
        if c || res > 0x9F {
            res += 0x60;
        }
    }
    let carry = c || (res >= 0x100 && res < 0x200);
    let mut low = res % 256;
    if low < 0 {
        low = low + 256;
    }
    let value = low as u8;
    (value, flags(value == 0, n, false, carry))
}

} // verus!
