//! Arithmetic of the processor: 8-bit and 16-bit wrapping helpers, the
//! add-with-carry / subtract-with-borrow core, shifts and rotates, and the
//! packing of the status flags into a byte.

use vstd::prelude::*;

verus! {

/// `n` reduced into the 16-bit address space (for non-negative `n`).
pub open spec fn wrap16(n: int) -> u16
    recommends
        n >= 0,
{
    (n % 0x10000) as u16
}

/// `n` reduced into one byte (for non-negative `n`).
pub open spec fn wrap8(n: int) -> u8
    recommends
        n >= 0,
{
    (n % 0x100) as u8
}

/// The 16-bit word with low byte `lo` and high byte `hi` (little-endian
/// order as the bytes sit in memory).
pub open spec fn word(lo: u8, hi: u8) -> u16 {
    (hi * 0x100 + lo) as u16
}

/// The stack pointer after a push: decrement with 8-bit wraparound.
pub open spec fn dec8(v: u8) -> u8 {
    if v == 0 {
        255u8
    } else {
        (v - 1) as u8
    }
}

/// The stack pointer after a pop: increment with 8-bit wraparound.
pub open spec fn inc8(v: u8) -> u8 {
    if v == 255 {
        0u8
    } else {
        (v + 1) as u8
    }
}

/// A flag read as an integer contribution.
pub open spec fn bit(b: bool) -> int {
    if b {
        1
    } else {
        0
    }
}

/// The two's-complement reading of a byte, in -128..=127.
pub open spec fn signed8(v: u8) -> int {
    if v < 128 {
        v as int
    } else {
        v - 256
    }
}

/// The full (unreduced) sum of an add-with-carry.
pub open spec fn adc_sum(a: u8, b: u8, c: bool) -> int {
    a + b + bit(c)
}

/// Accumulator after `ADC`: 8-bit wrapping sum of both operands and the
/// carry-in.
pub open spec fn adc_result(a: u8, b: u8, c: bool) -> u8 {
    wrap8(adc_sum(a, b, c))
}

/// Carry flag after `ADC`: unsigned overflow of the sum.
pub open spec fn adc_carry(a: u8, b: u8, c: bool) -> bool {
    adc_sum(a, b, c) >= 256
}

/// Overflow flag after `ADC`: the signed reading of the sum does not fit
/// in -128..=127.
pub open spec fn adc_overflow(a: u8, b: u8, c: bool) -> bool {
    signed8(a) + signed8(b) + bit(c) > 127 || signed8(a) + signed8(b) + bit(c) < -128
}

/// Accumulator after `SBC`: `a - b - (1 - carry)`, which the hardware
/// computes as `ADC` of the one's complement of `b`.
pub open spec fn sbc_result(a: u8, b: u8, c: bool) -> u8 {
    adc_result(a, (255 - b) as u8, c)
}

/// Carry flag after `SBC`: set exactly when no borrow was needed.
pub open spec fn sbc_carry(a: u8, b: u8, c: bool) -> bool {
    adc_carry(a, (255 - b) as u8, c)
}

/// Overflow flag after `SBC`.
pub open spec fn sbc_overflow(a: u8, b: u8, c: bool) -> bool {
    adc_overflow(a, (255 - b) as u8, c)
}

/// The difference `a - b` with 8-bit wraparound, as the compare
/// instructions produce it for the Negative flag.
pub open spec fn sub8(a: u8, b: u8) -> u8 {
    wrap8(a + 256 - b)
}

/// Result of an arithmetic shift left.
pub open spec fn asl_result(v: u8) -> u8 {
    wrap8(v * 2)
}

/// Result of a logical shift right.
pub open spec fn lsr_result(v: u8) -> u8 {
    v / 2
}

/// Result of a rotate left through the carry flag.
pub open spec fn rol_result(v: u8, c: bool) -> u8 {
    wrap8(v * 2 + bit(c))
}

/// Result of a rotate right through the carry flag.
pub open spec fn ror_result(v: u8, c: bool) -> u8 {
    (v / 2 + if c {
        128int
    } else {
        0int
    }) as u8
}

/// 16-bit wrapping add of two address-sized values.
pub fn wadd16(a: u16, b: u16) -> (r: u16)
    ensures
        r == wrap16(a + b),
{
    ((a as u32 + b as u32) % 0x10000) as u16
}

/// 8-bit wrapping add of an address byte and an index register.
pub fn wadd8(a: u8, b: u8) -> (r: u8)
    ensures
        r == wrap8(a + b),
{
    ((a as u16 + b as u16) % 0x100) as u8
}

/// Assemble a 16-bit word from its low and high bytes.
pub fn make_word(lo: u8, hi: u8) -> (r: u16)
    ensures
        r == word(lo, hi),
{
    (hi as u16) * 0x100 + (lo as u16)
}

/// Add-with-carry: the result byte, the carry-out and the signed-overflow
/// flag, exactly as `ADC` computes them.
pub fn adc(a: u8, b: u8, c: bool) -> (r: (u8, bool, bool))
    ensures
        r.0 == adc_result(a, b, c),
        r.1 == adc_carry(a, b, c),
        r.2 == adc_overflow(a, b, c),
{
    let cin: u16 = if c {
        1
    } else {
        0
    };
    let sum: u16 = a as u16 + b as u16 + cin;
    let result: u8 = (sum % 0x100) as u8;
    let carry: bool = sum >= 0x100;
    let sa: i32 = if a >= 128 {
        a as i32 - 256
    } else {
        a as i32
    };
    let sb: i32 = if b >= 128 {
        b as i32 - 256
    } else {
        b as i32
    };
    let ssum: i32 = sa + sb + cin as i32;
    let overflow: bool = ssum > 127 || ssum < -128;
    (result, carry, overflow)
}

/// Subtract-with-borrow, computed as add-with-carry of the complement.
pub fn sbc(a: u8, b: u8, c: bool) -> (r: (u8, bool, bool))
    ensures
        r.0 == sbc_result(a, b, c),
        r.1 == sbc_carry(a, b, c),
        r.2 == sbc_overflow(a, b, c),
{
    adc(a, 255 - b, c)
}

/// The carry/borrow duality of the processor: an `ADC` whose carry-out is
/// the complement of its carry-in is undone by an `SBC` of the same operand
/// that takes that carry-out as its carry-in (binary mode). When the
/// carry-out instead repeats the carry-in, the round trip is off by one,
/// so those inputs are excluded here.
pub proof fn lemma_adc_sbc_round_trip(a: u8, b: u8, c: bool)
    requires
        adc_carry(a, b, c) == !c,
    ensures
        sbc_result(adc_result(a, b, c), b, adc_carry(a, b, c)) == a,
{
    let r = adc_result(a, b, c);
    assert(r == (a + b + bit(c)) % 256);
    assert(sbc_result(r, b, !c) == (r + (255 - b) + bit(!c)) % 256);
}

} // verus!
