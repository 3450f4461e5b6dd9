//! What holds of the arithmetic and of the register file.

use vstd::prelude::*;
use crate::cpu::alu::{bit, lemma_flags, spec_add8, spec_flags, spec_sub8};
use crate::cpu::Cpu;

verus! {

/// ADC and then SBC of the same operand with the same carry gives A back.
/// The flags of each are those of its own rule: after ADC, Z for a zero
/// sum, N clear, H for a carry out of bit 3, C for a carry out of bit 7;
/// after SBC, Z for a zero difference, N set, H for a borrow from bit 4,
/// C for a borrow from bit 8.
pub proof fn lemma_adc_sbc(a: u8, b: u8, carry: bool)
    ensures
        spec_sub8(spec_add8(a, b, carry).0, b, carry).0 == a,
        spec_add8(a, b, carry).1 == spec_flags(
            (a + b + bit(carry)) % 256 == 0,
            false,
            a % 16 + b % 16 + bit(carry) > 15,
            a + b + bit(carry) > 255,
        ),
        spec_sub8(a, b, carry).1 == spec_flags(
            (a - b - bit(carry)) % 256 == 0,
            true,
            a % 16 < b % 16 + bit(carry),
            a < b + bit(carry),
        ),
{
}

/// ADC A,B followed by SBC A,B, the second taking the carry that the first
/// has left in C, gives A back exactly when ADC leaves the carry that it
/// took.
pub proof fn lemma_adc_then_sbc(a: u8, b: u8, carry: bool)
    ensures
        ({
            let first = spec_add8(a, b, carry);
            let left = first.1 & 0x10 != 0;
            &&& left == (a + b + bit(carry) > 255)
            &&& (spec_sub8(first.0, b, left).0 == a <==> left == carry)
        }),
{
    let sum = a + b + bit(carry);
    lemma_flags(sum % 256 == 0, false, a % 16 + b % 16 + bit(carry) > 15, sum > 255);
    let left = sum > 255;
    let s: int = sum % 256;
    let back: int = (s - b - bit(left)) % 256;
    if left {
        assert(s == sum - 256);
    } else {
        assert(s == sum);
    }
    assert(back == (a + bit(carry) - bit(left)) % 256);
}

/// What POP AF loads and PUSH AF then stores is the popped value with the
/// low nibble of F cleared; popping that again changes nothing.
pub proof fn lemma_pop_push_af(cpu: Cpu, v: u16)
    ensures
        cpu.spec_popped(3, v).spec_pushed(3) == (v / 16) * 16,
        cpu.spec_popped(3, v).spec_pushed(3) == v & 0xFFF0,
        cpu.spec_popped(3, cpu.spec_popped(3, v).spec_pushed(3)) == cpu.spec_popped(3, v),
{
    let lo = (v % 256) as u8;
    assert(lo & 0xF0 == (lo / 16) * 16) by (bit_vector);
    assert(v & 0xFFF0 == (v / 16) * 16) by (bit_vector);
    let f = lo & 0xF0;
    assert(f & 0xF0 == f) by (bit_vector)
        requires
            f == lo & 0xF0,
    ;
}

} // verus!
