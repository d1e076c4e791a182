//! The 6502 arithmetic/logic unit as pure functions from
//! `(register, operand, status)` to `(result, status)`, with exact
//! contracts over the packed status byte.

use vstd::prelude::*;
use crate::flags::{
    flag_b, flag_c, flag_d, flag_i, flag_n, flag_u, flag_v, flag_z, get_flag,
    set_flag, spec_set_flag, spec_with_nz, with_nz, FLAG_C, FLAG_N, FLAG_V, FLAG_Z,
};

verus! {

/// The unbounded sum an ADC computes: A + operand + carry-in.
pub open spec fn adc_sum(a: u8, m: u8, c: bool) -> int {
    a + m + (if c { 1int } else { 0int })
}

/// The result byte of ADC: the sum truncated to 8 bits.
pub open spec fn adc_value(a: u8, m: u8, c: bool) -> u8 {
    (adc_sum(a, m, c) % 256) as u8
}

/// The carry flag of ADC: the unsigned 9th bit of the sum.
pub open spec fn adc_carry(a: u8, m: u8, c: bool) -> bool {
    adc_sum(a, m, c) >= 256
}

/// Signed overflow of an 8-bit add: set when both operands share a sign
/// and the result's sign differs, `(~(A^op) & (A^result)) & 0x80`.
pub open spec fn overflow_bit(a: u8, m: u8, r: u8) -> bool {
    (!(a ^ m) & (a ^ r)) & 0x80 != 0
}

/// SBC is ADC of the operand's bitwise complement: result byte.
pub open spec fn sbc_value(a: u8, m: u8, c: bool) -> u8 {
    adc_value(a, m ^ 0xff, c)
}

/// SBC carry (the inverse of borrow), via the complement identity.
pub open spec fn sbc_carry(a: u8, m: u8, c: bool) -> bool {
    adc_carry(a, m ^ 0xff, c)
}

/// SBC signed overflow, via the complement identity.
pub open spec fn sbc_overflow(a: u8, m: u8, c: bool) -> bool {
    overflow_bit(a, m ^ 0xff, sbc_value(a, m, c))
}

pub open spec fn wrap_inc8(v: u8) -> u8 {
    if v == 255 { 0 } else { (v + 1) as u8 }
}

pub open spec fn wrap_dec8(v: u8) -> u8 {
    if v == 0 { 255 } else { (v - 1) as u8 }
}

/// The low byte of a 16-bit value is the value modulo 256.
pub proof fn lemma_low_byte(x: u16)
    by (bit_vector)
    ensures
        x & 0xff == x % 256,
        x & 0xff < 256,
{
}

/// Flag bookkeeping of ADC/SBC: after writing N and Z from the result
/// and then forcing C and V, each of the four is exactly as dictated
/// and the remaining flags of P are untouched.
pub proof fn lemma_nzcv(p: u8, v: u8, c: bool, o: bool)
    by (bit_vector)
    ensures
        ({
            let q = spec_set_flag(spec_set_flag(spec_with_nz(p, v), FLAG_C, c), FLAG_V, o);
            flag_c(q) == c && flag_v(q) == o && flag_z(q) == (v == 0) && flag_n(q) == (
            v & 0x80 != 0) && flag_i(q) == flag_i(p) && flag_d(q) == flag_d(p) && flag_b(q)
                == flag_b(p) && flag_u(q) == flag_u(p)
        }),
{
}

/// Flag bookkeeping of shifts and compares: N and Z from the result,
/// C forced, everything else untouched.
pub proof fn lemma_nzc(p: u8, v: u8, c: bool)
    by (bit_vector)
    ensures
        ({
            let q = spec_set_flag(spec_with_nz(p, v), FLAG_C, c);
            flag_c(q) == c && flag_z(q) == (v == 0) && flag_n(q) == (v & 0x80 != 0) && flag_v(
            q) == flag_v(p) && flag_i(q) == flag_i(p) && flag_d(q) == flag_d(p) && flag_b(q)
                == flag_b(p) && flag_u(q) == flag_u(p)
        }),
{
}

/// Flag bookkeeping of BIT: Z from `A & operand`, N and V copied from
/// bits 7 and 6 of the operand, everything else untouched.
pub proof fn lemma_bit_flags(p: u8, z: bool, n: bool, o: bool)
    by (bit_vector)
    ensures
        ({
            let q = spec_set_flag(spec_set_flag(spec_set_flag(p, FLAG_Z, z), FLAG_N, n), FLAG_V, o);
            flag_z(q) == z && flag_n(q) == n && flag_v(q) == o && flag_c(q) == flag_c(p)
                && flag_i(q) == flag_i(p) && flag_d(q) == flag_d(p) && flag_b(q) == flag_b(p)
                && flag_u(q) == flag_u(p)
        }),
{
}

/// Signed overflow is symmetric in the two operands, whatever the
/// result byte is.
pub proof fn lemma_overflow_symmetric(a: u8, m: u8, r: u8)
    by (bit_vector)
    ensures
        overflow_bit(a, m, r) == overflow_bit(m, a, r),
{
}

/// ADC is commutative in A and the operand: result byte, carry, and the
/// Z and N flags (functions of the result) all agree, and the V flag is
/// symmetric in the operands.
pub proof fn lemma_adc_commutative(a: u8, m: u8, c: bool)
    ensures
        adc_value(a, m, c) == adc_value(m, a, c),
        adc_carry(a, m, c) == adc_carry(m, a, c),
        overflow_bit(a, m, adc_value(a, m, c)) == overflow_bit(m, a, adc_value(m, a, c)),
{
    lemma_overflow_symmetric(a, m, adc_value(a, m, c));
}

/// SBC(A, m, C) equals ADC(A, m ^ 0xFF, C): the result byte, carry and
/// overflow all come from the complemented operand, so Z and N (being
/// functions of the result byte) agree as well.
pub proof fn lemma_sbc_is_adc_of_complement(a: u8, m: u8, c: bool)
    ensures
        sbc_value(a, m, c) == adc_value(a, m ^ 0xff, c),
        sbc_carry(a, m, c) == adc_carry(a, m ^ 0xff, c),
        sbc_overflow(a, m, c) == overflow_bit(a, m ^ 0xff, adc_value(a, m ^ 0xff, c)),
{
}

/// Add with carry. Returns the new accumulator and the new status byte;
/// sets N, Z from the result, C to the 9th bit, V to signed overflow.
pub fn adc(a: u8, m: u8, p: u8) -> (r: (u8, u8))
    ensures
        r.0 == adc_value(a, m, flag_c(p)),
        flag_c(r.1) == adc_carry(a, m, flag_c(p)),
        flag_v(r.1) == overflow_bit(a, m, r.0),
        flag_z(r.1) == (r.0 == 0),
        flag_n(r.1) == (r.0 & 0x80 != 0),
        flag_i(r.1) == flag_i(p),
        flag_d(r.1) == flag_d(p),
        flag_b(r.1) == flag_b(p),
        flag_u(r.1) == flag_u(p),
{
    let c: u16 = if get_flag(p, FLAG_C) { 1 } else { 0 };
    let sum: u16 = a as u16 + m as u16 + c;
    proof {
        lemma_low_byte(sum);
    }
    let result: u8 = (sum & 0xff) as u8;
    let vflag: bool = (!(a ^ m) & (a ^ result)) & 0x80 != 0;
    let q = set_flag(set_flag(with_nz(p, result), FLAG_C, sum > 0xff), FLAG_V, vflag);
    proof {
        lemma_nzcv(p, result, sum > 0xff, vflag);
    }
    (result, q)
}

/// Subtract with carry: ADC of the operand's bitwise complement.
pub fn sbc(a: u8, m: u8, p: u8) -> (r: (u8, u8))
    ensures
        r.0 == sbc_value(a, m, flag_c(p)),
        flag_c(r.1) == sbc_carry(a, m, flag_c(p)),
        flag_v(r.1) == overflow_bit(a, m ^ 0xff, r.0),
        flag_z(r.1) == (r.0 == 0),
        flag_n(r.1) == (r.0 & 0x80 != 0),
        flag_i(r.1) == flag_i(p),
        flag_d(r.1) == flag_d(p),
        flag_b(r.1) == flag_b(p),
        flag_u(r.1) == flag_u(p),
{
    adc(a, m ^ 0xff, p)
}

/// Compare: sets C to `reg >= operand`, and N, Z from `reg - operand`.
pub fn compare(reg: u8, m: u8, p: u8) -> (q: u8)
    ensures
        flag_c(q) == (reg >= m),
        flag_z(q) == (reg == m),
        flag_n(q) == (vstd::wrapping::u8_specs::wrapping_sub(reg, m) & 0x80 != 0),
        flag_v(q) == flag_v(p),
        flag_i(q) == flag_i(p),
        flag_d(q) == flag_d(p),
        flag_b(q) == flag_b(p),
        flag_u(q) == flag_u(p),
{
    let diff = reg.wrapping_sub(m);
    let q = set_flag(with_nz(p, diff), FLAG_C, reg >= m);
    proof {
        lemma_nzc(p, diff, reg >= m);
    }
    q
}

/// BIT: Z from `A & operand`, N and V copied from operand bits 7 and 6.
pub fn bit_test(a: u8, m: u8, p: u8) -> (q: u8)
    ensures
        flag_z(q) == (a & m == 0),
        flag_n(q) == (m & 0x80 != 0),
        flag_v(q) == (m & 0x40 != 0),
        flag_c(q) == flag_c(p),
        flag_i(q) == flag_i(p),
        flag_d(q) == flag_d(p),
        flag_b(q) == flag_b(p),
        flag_u(q) == flag_u(p),
{
    let z = a & m == 0;
    let n = m & 0x80 != 0;
    let o = m & 0x40 != 0;
    let q = set_flag(set_flag(set_flag(p, FLAG_Z, z), FLAG_N, n), FLAG_V, o);
    proof {
        lemma_bit_flags(p, z, n, o);
    }
    q
}

/// Arithmetic shift left: C takes bit 7, the byte shifts up one place.
pub fn asl(v: u8, p: u8) -> (r: (u8, u8))
    ensures
        r.0 == v << 1,
        flag_c(r.1) == (v & 0x80 != 0),
        flag_z(r.1) == (r.0 == 0),
        flag_n(r.1) == (r.0 & 0x80 != 0),
        flag_v(r.1) == flag_v(p),
        flag_i(r.1) == flag_i(p),
        flag_d(r.1) == flag_d(p),
        flag_b(r.1) == flag_b(p),
        flag_u(r.1) == flag_u(p),
{
    let result = v << 1;
    let c = v & 0x80 != 0;
    let q = set_flag(with_nz(p, result), FLAG_C, c);
    proof {
        lemma_nzc(p, result, c);
    }
    (result, q)
}

/// Logical shift right: C takes bit 0, the byte shifts down one place.
pub fn lsr(v: u8, p: u8) -> (r: (u8, u8))
    ensures
        r.0 == v >> 1,
        flag_c(r.1) == (v & 0x01 != 0),
        flag_z(r.1) == (r.0 == 0),
        flag_n(r.1) == (r.0 & 0x80 != 0),
        flag_v(r.1) == flag_v(p),
        flag_i(r.1) == flag_i(p),
        flag_d(r.1) == flag_d(p),
        flag_b(r.1) == flag_b(p),
        flag_u(r.1) == flag_u(p),
{
    let result = v >> 1;
    let c = v & 0x01 != 0;
    let q = set_flag(with_nz(p, result), FLAG_C, c);
    proof {
        lemma_nzc(p, result, c);
    }
    (result, q)
}

/// Rotate left through carry.
pub fn rol(v: u8, p: u8) -> (r: (u8, u8))
    ensures
        r.0 == (v << 1) | (if flag_c(p) { 1u8 } else { 0u8 }),
        flag_c(r.1) == (v & 0x80 != 0),
        flag_z(r.1) == (r.0 == 0),
        flag_n(r.1) == (r.0 & 0x80 != 0),
        flag_v(r.1) == flag_v(p),
        flag_i(r.1) == flag_i(p),
        flag_d(r.1) == flag_d(p),
        flag_b(r.1) == flag_b(p),
        flag_u(r.1) == flag_u(p),
{
    let cin: u8 = if get_flag(p, FLAG_C) { 1 } else { 0 };
    let result = (v << 1) | cin;
    let c = v & 0x80 != 0;
    let q = set_flag(with_nz(p, result), FLAG_C, c);
    proof {
        lemma_nzc(p, result, c);
    }
    (result, q)
}

/// Rotate right through carry.
pub fn ror(v: u8, p: u8) -> (r: (u8, u8))
    ensures
        r.0 == (v >> 1) | (if flag_c(p) { 0x80u8 } else { 0u8 }),
        flag_c(r.1) == (v & 0x01 != 0),
        flag_z(r.1) == (r.0 == 0),
        flag_n(r.1) == (r.0 & 0x80 != 0),
        flag_v(r.1) == flag_v(p),
        flag_i(r.1) == flag_i(p),
        flag_d(r.1) == flag_d(p),
        flag_b(r.1) == flag_b(p),
        flag_u(r.1) == flag_u(p),
{
    let cin: u8 = if get_flag(p, FLAG_C) { 0x80 } else { 0 };
    let result = (v >> 1) | cin;
    let c = v & 0x01 != 0;
    let q = set_flag(with_nz(p, result), FLAG_C, c);
    proof {
        lemma_nzc(p, result, c);
    }
    (result, q)
}

/// Increment by one, wrapping, with N and Z from the result.
pub fn inc8(v: u8, p: u8) -> (r: (u8, u8))
    ensures
        r.0 == wrap_inc8(v),
        flag_z(r.1) == (r.0 == 0),
        flag_n(r.1) == (r.0 & 0x80 != 0),
        flag_c(r.1) == flag_c(p),
        flag_v(r.1) == flag_v(p),
        flag_i(r.1) == flag_i(p),
        flag_d(r.1) == flag_d(p),
        flag_b(r.1) == flag_b(p),
        flag_u(r.1) == flag_u(p),
{
    let result = v.wrapping_add(1);
    (result, with_nz(p, result))
}

/// Decrement by one, wrapping, with N and Z from the result.
pub fn dec8(v: u8, p: u8) -> (r: (u8, u8))
    ensures
        r.0 == wrap_dec8(v),
        flag_z(r.1) == (r.0 == 0),
        flag_n(r.1) == (r.0 & 0x80 != 0),
        flag_c(r.1) == flag_c(p),
        flag_v(r.1) == flag_v(p),
        flag_i(r.1) == flag_i(p),
        flag_d(r.1) == flag_d(p),
        flag_b(r.1) == flag_b(p),
        flag_u(r.1) == flag_u(p),
{
    let result = v.wrapping_sub(1);
    (result, with_nz(p, result))
}

} // verus!
