//! The 6502 status register P: one packed byte holding the flags
//! N, V, B, D, I, Z, C (bit 5 is unused and forced to 1 when pushed).

use vstd::prelude::*;

verus! {

pub const FLAG_C: u8 = 0x01;
pub const FLAG_Z: u8 = 0x02;
pub const FLAG_I: u8 = 0x04;
pub const FLAG_D: u8 = 0x08;
pub const FLAG_B: u8 = 0x10;
pub const FLAG_U: u8 = 0x20;
pub const FLAG_V: u8 = 0x40;
pub const FLAG_N: u8 = 0x80;

pub open spec fn flag_c(p: u8) -> bool {
    p & FLAG_C != 0
}

pub open spec fn flag_z(p: u8) -> bool {
    p & FLAG_Z != 0
}

pub open spec fn flag_i(p: u8) -> bool {
    p & FLAG_I != 0
}

pub open spec fn flag_d(p: u8) -> bool {
    p & FLAG_D != 0
}

pub open spec fn flag_b(p: u8) -> bool {
    p & FLAG_B != 0
}

pub open spec fn flag_u(p: u8) -> bool {
    p & FLAG_U != 0
}

pub open spec fn flag_v(p: u8) -> bool {
    p & FLAG_V != 0
}

pub open spec fn flag_n(p: u8) -> bool {
    p & FLAG_N != 0
}

/// P with Z and N replaced by what the result byte `v` dictates:
/// Z iff `v == 0`, N iff bit 7 of `v` is set; all other flags kept.
pub open spec fn spec_with_nz(p: u8, v: u8) -> u8 {
    ((p & 0x7d) | (if v == 0 { 0x02u8 } else { 0u8 })) | (v & 0x80)
}

/// P with the single-bit `mask` forced to `on`; all other bits kept.
pub open spec fn spec_set_flag(p: u8, mask: u8, on: bool) -> u8 {
    if on {
        p | mask
    } else {
        p & !mask
    }
}

/// Z tracks "result is zero" and N tracks bit 7 of the result, while
/// every other flag of P is untouched.
pub proof fn lemma_with_nz(p: u8, v: u8)
    by (bit_vector)
    ensures
        flag_z(spec_with_nz(p, v)) == (v == 0),
        flag_n(spec_with_nz(p, v)) == (v & 0x80 != 0),
        flag_c(spec_with_nz(p, v)) == flag_c(p),
        flag_v(spec_with_nz(p, v)) == flag_v(p),
        flag_i(spec_with_nz(p, v)) == flag_i(p),
        flag_d(spec_with_nz(p, v)) == flag_d(p),
        flag_b(spec_with_nz(p, v)) == flag_b(p),
        flag_u(spec_with_nz(p, v)) == flag_u(p),
{
}

/// Setting or clearing one flag bit touches no bit outside the mask.
pub proof fn lemma_set_flag(p: u8, mask: u8, on: bool)
    by (bit_vector)
    ensures
        on && mask != 0 ==> spec_set_flag(p, mask, on) & mask != 0,
        !on ==> spec_set_flag(p, mask, on) & mask == 0,
        forall|o: u8| o & mask == 0 ==> #[trigger] (spec_set_flag(p, mask, on) & o) == (p & o),
{
}

pub fn get_flag(p: u8, mask: u8) -> (r: bool)
    ensures
        r == (p & mask != 0),
{
    p & mask != 0
}

pub fn set_flag(p: u8, mask: u8, on: bool) -> (r: u8)
    ensures
        r == spec_set_flag(p, mask, on),
{
    if on {
        p | mask
    } else {
        p & !mask
    }
}

pub fn with_nz(p: u8, v: u8) -> (r: u8)
    ensures
        r == spec_with_nz(p, v),
        flag_z(r) == (v == 0),
        flag_n(r) == (v & 0x80 != 0),
        flag_c(r) == flag_c(p),
        flag_v(r) == flag_v(p),
        flag_i(r) == flag_i(p),
        flag_d(r) == flag_d(p),
        flag_b(r) == flag_b(p),
        flag_u(r) == flag_u(p),
{
    proof {
        lemma_with_nz(p, v);
    }
    ((p & 0x7d) | (if v == 0 { 0x02u8 } else { 0u8 })) | (v & 0x80)
}

} // verus!
