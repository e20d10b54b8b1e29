//! Byte arithmetic of the processor, stated over mathematical integers,
//! together with the algebra of the status byte.
use crate::cpu::{
    BREAK, BREAK2, CARRY, DECIMAL_MODE, INTERRUPT_DISABLE, NEGATIVE, OVERFLOW, ZERO,
};
use vstd::prelude::*;

verus! {

/// `n` reduced to a byte.
pub open spec fn wrap8(n: int) -> u8 {
    (n % 0x100) as u8
}

/// `n` reduced to a 16-bit address.
pub open spec fn wrap16(n: int) -> u16 {
    (n % 0x1_0000) as u16
}

/// Bit 7 of a byte, its sign in two's complement.
pub open spec fn negative(v: u8) -> bool {
    v >= 0x80
}

/// A byte read as a two's-complement number in `-128..=127`.
pub open spec fn signed(v: u8) -> int {
    if v < 0x80 {
        v as int
    } else {
        v - 0x100
    }
}

/// The 16-bit quantity whose low byte is `low` and whose high byte is `high`.
pub open spec fn word(low: u8, high: u8) -> u16 {
    (low + 0x100 * high) as u16
}

pub open spec fn low_byte(w: u16) -> u8 {
    (w % 0x100) as u8
}

pub open spec fn high_byte(w: u16) -> u8 {
    (w / 0x100) as u8
}

/// Whether some bit of `flag` is set in the status byte `p`.
pub open spec fn has_flag(p: u8, flag: u8) -> bool {
    p & flag != 0
}

/// The status byte `p` with the bits of `flag` set or cleared.
pub open spec fn put_flag(p: u8, flag: u8, on: bool) -> u8 {
    if on {
        p | flag
    } else {
        p & !flag
    }
}

/// The status byte `p` with Z and N describing the byte `v`.
pub open spec fn put_zn(p: u8, v: u8) -> u8 {
    put_flag(put_flag(p, ZERO, v == 0), NEGATIVE, negative(v))
}

/// The carry flag of `p` as the number added by ADC, SBC and the rotates.
pub open spec fn carry_of(p: u8) -> int {
    if has_flag(p, CARRY) {
        1
    } else {
        0
    }
}

/// The bitwise complement of a byte.
pub open spec fn complement(v: u8) -> u8 {
    (0xFF - v) as u8
}

/// Accumulator after adding `m` and the carry `c` (0 or 1) to `a`.
pub open spec fn add_value(a: u8, m: u8, c: int) -> u8 {
    wrap8(a + m + c)
}

/// Carry out of that addition: the unsigned sum does not fit a byte.
pub open spec fn add_carry(a: u8, m: u8, c: int) -> bool {
    a + m + c > 0xFF
}

/// Signed overflow of that addition: the operands agree in sign and the
/// result does not.
pub open spec fn add_overflow(a: u8, m: u8, c: int) -> bool {
    negative(a) == negative(m) && negative(a) != negative(add_value(a, m, c))
}

/// ASL: the byte shifted left by one, bit 7 lost.
pub open spec fn shl_value(v: u8) -> u8 {
    wrap8(2 * v)
}

/// LSR: the byte shifted right by one, bit 0 lost.
pub open spec fn shr_value(v: u8) -> u8 {
    (v / 2) as u8
}

/// Bit 0 of a byte.
pub open spec fn odd(v: u8) -> bool {
    v % 2 == 1
}

/// Bit 6 of a byte.
pub open spec fn bit6(v: u8) -> bool {
    v % 0x80 >= 0x40
}

/// ROL: the byte rotated left through the carry `c` (0 or 1); the new
/// carry is the old bit 7.
pub open spec fn rol_value(v: u8, c: int) -> u8 {
    wrap8(2 * v + c)
}

/// ROR: the byte rotated right through the carry `c` (0 or 1); the new
/// carry is the old bit 0.
pub open spec fn ror_value(v: u8, c: int) -> u8 {
    (v / 2 + 0x80 * c) as u8
}

/// A flag just written reads back as written.
pub proof fn lemma_put_flag_same(p: u8, flag: u8, on: bool)
    requires
        flag != 0,
    ensures
        has_flag(put_flag(p, flag, on), flag) == on,
{
    assert((p | flag) & flag != 0) by (bit_vector)
        requires
            flag != 0,
    ;
    assert((p & !flag) & flag == 0) by (bit_vector);
}

/// Writing a flag leaves every disjoint flag as it was.
pub proof fn lemma_put_flag_other(p: u8, flag: u8, on: bool, other: u8)
    requires
        flag & other == 0,
    ensures
        has_flag(put_flag(p, flag, on), other) == has_flag(p, other),
{
    assert((p | flag) & other == p & other) by (bit_vector)
        requires
            flag & other == 0,
    ;
    assert((p & !flag) & other == p & other) by (bit_vector)
        requires
            flag & other == 0,
    ;
}

/// Assembling a word by shift and or.
pub proof fn lemma_word_bits(low: u8, high: u8)
    ensures
        ((high as u16) << 8 | (low as u16)) == word(low, high),
{
    assert(((high as u16) << 8 | (low as u16)) == (low + 0x100 * high) as u16) by (bit_vector);
}

/// Splitting a word by mask and shift.
pub proof fn lemma_split_bits(w: u16)
    ensures
        (w & 0xFF) as u8 == low_byte(w),
        (w >> 8) as u8 == high_byte(w),
        w & 0xFF <= 0xFF,
        w >> 8 <= 0xFF,
{
    assert((w & 0xFF) == w % 0x100 && (w >> 8) == w / 0x100) by (bit_vector);
}

/// The sign of a byte is its bit 7, and bit 6 is the next one down.
pub proof fn lemma_sign_bit(v: u8)
    ensures
        (v & 0x80 != 0) == negative(v),
        (v & 0x40 != 0) == bit6(v),
{
    assert((v & 0x80 != 0) == (v >= 0x80)) by (bit_vector);
    assert((v & 0x40 != 0) == (v % 0x80 >= 0x40)) by (bit_vector);
}

/// The carry flag is bit 0 of the status byte.
pub proof fn lemma_carry_bit(p: u8)
    ensures
        (p & CARRY) as int == carry_of(p),
{
    assert(p & 1 == 0 || p & 1 == 1) by (bit_vector);
}

/// Exclusive or with `0xFF` complements a byte.
pub proof fn lemma_complement_bits(v: u8)
    ensures
        v ^ 0xFF == complement(v),
{
    assert(v ^ 0xFF == 0xFF - v) by (bit_vector);
}

/// The overflow test on sign bits: both operands differ in sign from the
/// result exactly if they agree with each other and not with the result.
pub proof fn lemma_overflow_bits(a: u8, m: u8, r: u8)
    ensures
        ((m ^ r) & (a ^ r) & 0x80 != 0) == (negative(a) == negative(m) && negative(a)
            != negative(r)),
{
    assert(((m ^ r) & (a ^ r) & 0x80 != 0) == ((a >= 0x80) == (m >= 0x80) && (a >= 0x80) != (r
        >= 0x80))) by (bit_vector);
}

/// Shifts by one as doubling and halving.
pub proof fn lemma_shift_bits(v: u8)
    ensures
        v << 1 == shl_value(v),
        v >> 1 == shr_value(v),
        (v & 1 != 0) == odd(v),
{
    assert(v << 1 == (2 * v) % 0x100) by (bit_vector);
    assert(v >> 1 == v / 2) by (bit_vector);
    assert((v & 1 != 0) == (v % 2 == 1)) by (bit_vector);
}

/// Rotation through a carry bit `c`.
pub proof fn lemma_rotate_bits(v: u8, c: u8)
    requires
        c <= 1,
    ensures
        (v << 1) | c == rol_value(v, c as int),
        (v >> 1) | (c << 7) == ror_value(v, c as int),
{
    assert((v << 1) | c == (2 * v + c) % 0x100) by (bit_vector)
        requires
            c <= 1,
    ;
    assert((v >> 1) | (c << 7) == v / 2 + 0x80 * c) by (bit_vector)
        requires
            c <= 1,
    ;
}

/// The page of an address and its offset within the page.
pub proof fn lemma_page_bits(w: u16)
    ensures
        w & 0xFF == low_byte(w),
        w & 0xFF00 == w - low_byte(w),
{
    assert(w & 0xFF == w % 0x100) by (bit_vector);
    assert(w & 0xFF00 == w - w % 0x100) by (bit_vector);
}

/// Sign extension of a byte to 16 bits.
pub proof fn lemma_sign_extend(v: u8)
    ensures
        (v as i8) as u16 == wrap16(signed(v)),
{
    assert((v as i8) as u16 == if v < 0x80 {
        v as u16
    } else {
        (v + 0xFF00) as u16
    }) by (bit_vector);
}

/// The eight flags are eight different bits.
pub proof fn lemma_flags_disjoint()
    by (bit_vector)
    ensures
        CARRY & ZERO == 0,
        ZERO & CARRY == 0,
        CARRY & INTERRUPT_DISABLE == 0,
        INTERRUPT_DISABLE & CARRY == 0,
        CARRY & DECIMAL_MODE == 0,
        DECIMAL_MODE & CARRY == 0,
        CARRY & BREAK == 0,
        BREAK & CARRY == 0,
        CARRY & BREAK2 == 0,
        BREAK2 & CARRY == 0,
        CARRY & OVERFLOW == 0,
        OVERFLOW & CARRY == 0,
        CARRY & NEGATIVE == 0,
        NEGATIVE & CARRY == 0,
        ZERO & INTERRUPT_DISABLE == 0,
        INTERRUPT_DISABLE & ZERO == 0,
        ZERO & DECIMAL_MODE == 0,
        DECIMAL_MODE & ZERO == 0,
        ZERO & BREAK == 0,
        BREAK & ZERO == 0,
        ZERO & BREAK2 == 0,
        BREAK2 & ZERO == 0,
        ZERO & OVERFLOW == 0,
        OVERFLOW & ZERO == 0,
        ZERO & NEGATIVE == 0,
        NEGATIVE & ZERO == 0,
        INTERRUPT_DISABLE & DECIMAL_MODE == 0,
        DECIMAL_MODE & INTERRUPT_DISABLE == 0,
        INTERRUPT_DISABLE & BREAK == 0,
        BREAK & INTERRUPT_DISABLE == 0,
        INTERRUPT_DISABLE & BREAK2 == 0,
        BREAK2 & INTERRUPT_DISABLE == 0,
        INTERRUPT_DISABLE & OVERFLOW == 0,
        OVERFLOW & INTERRUPT_DISABLE == 0,
        INTERRUPT_DISABLE & NEGATIVE == 0,
        NEGATIVE & INTERRUPT_DISABLE == 0,
        DECIMAL_MODE & BREAK == 0,
        BREAK & DECIMAL_MODE == 0,
        DECIMAL_MODE & BREAK2 == 0,
        BREAK2 & DECIMAL_MODE == 0,
        DECIMAL_MODE & OVERFLOW == 0,
        OVERFLOW & DECIMAL_MODE == 0,
        DECIMAL_MODE & NEGATIVE == 0,
        NEGATIVE & DECIMAL_MODE == 0,
        BREAK & BREAK2 == 0,
        BREAK2 & BREAK == 0,
        BREAK & OVERFLOW == 0,
        OVERFLOW & BREAK == 0,
        BREAK & NEGATIVE == 0,
        NEGATIVE & BREAK == 0,
        BREAK2 & OVERFLOW == 0,
        OVERFLOW & BREAK2 == 0,
        BREAK2 & NEGATIVE == 0,
        NEGATIVE & BREAK2 == 0,
        OVERFLOW & NEGATIVE == 0,
        NEGATIVE & OVERFLOW == 0,
{
}

/// What `put_zn` writes, and what it keeps.
pub proof fn lemma_put_zn(p: u8, v: u8)
    ensures
        has_flag(put_zn(p, v), ZERO) == (v == 0),
        has_flag(put_zn(p, v), NEGATIVE) == negative(v),
        has_flag(put_zn(p, v), CARRY) == has_flag(p, CARRY),
        has_flag(put_zn(p, v), INTERRUPT_DISABLE) == has_flag(p, INTERRUPT_DISABLE),
        has_flag(put_zn(p, v), DECIMAL_MODE) == has_flag(p, DECIMAL_MODE),
        has_flag(put_zn(p, v), BREAK) == has_flag(p, BREAK),
        has_flag(put_zn(p, v), BREAK2) == has_flag(p, BREAK2),
        has_flag(put_zn(p, v), OVERFLOW) == has_flag(p, OVERFLOW),
{
    lemma_flags_disjoint();
    let q = put_flag(p, ZERO, v == 0);
    lemma_put_flag_same(p, ZERO, v == 0);
    lemma_put_flag_same(q, NEGATIVE, negative(v));
    lemma_put_flag_other(q, NEGATIVE, negative(v), ZERO);
    lemma_put_flag_other(p, ZERO, v == 0, CARRY);
    lemma_put_flag_other(q, NEGATIVE, negative(v), CARRY);
    lemma_put_flag_other(p, ZERO, v == 0, INTERRUPT_DISABLE);
    lemma_put_flag_other(q, NEGATIVE, negative(v), INTERRUPT_DISABLE);
    lemma_put_flag_other(p, ZERO, v == 0, DECIMAL_MODE);
    lemma_put_flag_other(q, NEGATIVE, negative(v), DECIMAL_MODE);
    lemma_put_flag_other(p, ZERO, v == 0, BREAK);
    lemma_put_flag_other(q, NEGATIVE, negative(v), BREAK);
    lemma_put_flag_other(p, ZERO, v == 0, BREAK2);
    lemma_put_flag_other(q, NEGATIVE, negative(v), BREAK2);
    lemma_put_flag_other(p, ZERO, v == 0, OVERFLOW);
    lemma_put_flag_other(q, NEGATIVE, negative(v), OVERFLOW);
}

/// Rotating left and then right through the carry gives back the byte
/// and the carry.
pub proof fn lemma_rol_ror(v: u8, c: int)
    requires
        c == 0 || c == 1,
    ensures
        ror_value(rol_value(v, c), if negative(v) { 1 } else { 0 }) == v,
        odd(rol_value(v, c)) == (c == 1),
{
}

/// Rotating right and then left through the carry gives back the byte
/// and the carry.
pub proof fn lemma_ror_rol(v: u8, c: int)
    requires
        c == 0 || c == 1,
    ensures
        rol_value(ror_value(v, c), if odd(v) { 1 } else { 0 }) == v,
        negative(ror_value(v, c)) == (c == 1),
{
}

} // verus!
