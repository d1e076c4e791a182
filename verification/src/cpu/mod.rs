//! The 6502 interpreter: registers, the opcode decode table, the
//! thirteen addressing modes, and `step`, which executes exactly one
//! instruction (or services a pending interrupt) and reports the cycles
//! it consumed.

pub mod sub;

use vstd::prelude::*;
use crate::alu::{
    adc, adc_carry, adc_value, asl, bit_test, compare, dec8, inc8, lsr, overflow_bit, rol, ror,
    sbc, sbc_carry, sbc_value, wrap_dec8, wrap_inc8,
};
use crate::flags::{
    flag_c, flag_i, flag_n, flag_v, flag_z, get_flag, set_flag, with_nz, FLAG_B, FLAG_C, FLAG_I,
    FLAG_N, FLAG_U, FLAG_V, FLAG_Z,
};
use crate::flags::{lemma_set_flag, spec_with_nz};
use crate::memory::{
    hi8, le16, lo8, spec_cpu_read, spec_cpu_read_model, spec_read16, spec_read16_wrap,
    wrap_inc16, MemModel, RAM,
};

verus! {

/// Wrapping 16-bit addition, the arithmetic of the program counter and
/// of effective addresses.
pub open spec fn u16_wadd(a: u16, b: u16) -> u16 {
    vstd::wrapping::u16_specs::wrapping_add(a, b)
}

/// Wrapping 8-bit addition, the arithmetic of zero-page indexing.
pub open spec fn u8_wadd(a: u8, b: u8) -> u8 {
    vstd::wrapping::u8_specs::wrapping_add(a, b)
}

pub open spec fn same_page(a: u16, b: u16) -> bool {
    a & 0xff00 == b & 0xff00
}

/// The 6502 operations (official opcodes only; an unassigned opcode
/// byte decodes as a two-cycle NOP).
#[derive(Clone, Copy)]
pub enum Op {
    Adc,
    And,
    Asl,
    Bcc,
    Bcs,
    Beq,
    Bit,
    Bmi,
    Bne,
    Bpl,
    Brk,
    Bvc,
    Bvs,
    Clc,
    Cld,
    Cli,
    Clv,
    Cmp,
    Cpx,
    Cpy,
    Dec,
    Dex,
    Dey,
    Eor,
    Inc,
    Inx,
    Iny,
    Jmp,
    Jsr,
    Lda,
    Ldx,
    Ldy,
    Lsr,
    Nop,
    Ora,
    Pha,
    Php,
    Pla,
    Plp,
    Rol,
    Ror,
    Rti,
    Rts,
    Sbc,
    Sec,
    Sed,
    Sei,
    Sta,
    Stx,
    Sty,
    Tax,
    Tay,
    Tsx,
    Txa,
    Txs,
    Tya,
}

/// The thirteen addressing modes.
#[derive(Clone, Copy)]
pub enum Mode {
    Implied,
    Accumulator,
    Immediate,
    ZeroPage,
    ZeroPageX,
    ZeroPageY,
    Absolute,
    AbsoluteX,
    AbsoluteY,
    Indirect,
    IndexedIndirect,
    IndirectIndexed,
    Relative,
}

/// Instruction length in bytes, a function of the addressing mode.
pub open spec fn spec_mode_len(m: Mode) -> u16 {
    match m {
        Mode::Implied | Mode::Accumulator => 1,
        Mode::Absolute | Mode::AbsoluteX | Mode::AbsoluteY | Mode::Indirect => 3,
        _ => 2,
    }
}

pub open spec fn spec_is_branch(op: Op) -> bool {
    match op {
        Op::Bcc | Op::Bcs | Op::Beq | Op::Bmi | Op::Bne | Op::Bpl | Op::Bvc | Op::Bvs => true,
        _ => false,
    }
}

/// Whether a branch is taken, from the flag it tests.
pub open spec fn spec_branch_taken(op: Op, p: u8) -> bool {
    match op {
        Op::Bcc => !flag_c(p),
        Op::Bcs => flag_c(p),
        Op::Beq => flag_z(p),
        Op::Bne => !flag_z(p),
        Op::Bmi => flag_n(p),
        Op::Bpl => !flag_n(p),
        Op::Bvs => flag_v(p),
        Op::Bvc => !flag_v(p),
        _ => false,
    }
}

/// Operations that read one operand byte (and pay the page-cross cycle
/// in the indexed modes).
pub open spec fn spec_is_read_op(op: Op) -> bool {
    match op {
        Op::Lda | Op::Ldx | Op::Ldy | Op::Adc | Op::Sbc | Op::And | Op::Ora | Op::Eor | Op::Cmp
            | Op::Cpx | Op::Cpy | Op::Bit => true,
        _ => false,
    }
}

pub open spec fn spec_is_store_op(op: Op) -> bool {
    match op {
        Op::Sta | Op::Stx | Op::Sty => true,
        _ => false,
    }
}

pub open spec fn spec_is_rmw_op(op: Op) -> bool {
    match op {
        Op::Asl | Op::Lsr | Op::Rol | Op::Ror | Op::Inc | Op::Dec => true,
        _ => false,
    }
}

/// Modes that name a memory operand.
pub open spec fn spec_has_addr_mode(m: Mode) -> bool {
    match m {
        Mode::ZeroPage | Mode::ZeroPageX | Mode::ZeroPageY | Mode::Absolute | Mode::AbsoluteX
            | Mode::AbsoluteY | Mode::IndexedIndirect | Mode::IndirectIndexed => true,
        _ => false,
    }
}

/// Operations that set PC explicitly, so the "PC advances by the
/// instruction length" law does not constrain them: jumps, subroutine
/// and interrupt returns, BRK, and a taken branch.
pub open spec fn spec_pc_explicit(op: Op, p: u8) -> bool {
    match op {
        Op::Jmp | Op::Jsr | Op::Rts | Op::Rti | Op::Brk => true,
        _ => spec_is_branch(op) && spec_branch_taken(op, p),
    }
}

/// The decode table: opcode byte to (operation, addressing mode, base
/// cycles). Unassigned bytes act as a two-cycle NOP rather than
/// faulting.
pub open spec fn spec_decode(opcode: u8) -> (Op, Mode, u8) {
    match opcode {
        0x00 => (Op::Brk, Mode::Implied, 7),
        0x01 => (Op::Ora, Mode::IndexedIndirect, 6),
        0x05 => (Op::Ora, Mode::ZeroPage, 3),
        0x06 => (Op::Asl, Mode::ZeroPage, 5),
        0x08 => (Op::Php, Mode::Implied, 3),
        0x09 => (Op::Ora, Mode::Immediate, 2),
        0x0a => (Op::Asl, Mode::Accumulator, 2),
        0x0d => (Op::Ora, Mode::Absolute, 4),
        0x0e => (Op::Asl, Mode::Absolute, 6),
        0x10 => (Op::Bpl, Mode::Relative, 2),
        0x11 => (Op::Ora, Mode::IndirectIndexed, 5),
        0x15 => (Op::Ora, Mode::ZeroPageX, 4),
        0x16 => (Op::Asl, Mode::ZeroPageX, 6),
        0x18 => (Op::Clc, Mode::Implied, 2),
        0x19 => (Op::Ora, Mode::AbsoluteY, 4),
        0x1d => (Op::Ora, Mode::AbsoluteX, 4),
        0x1e => (Op::Asl, Mode::AbsoluteX, 7),
        0x20 => (Op::Jsr, Mode::Absolute, 6),
        0x21 => (Op::And, Mode::IndexedIndirect, 6),
        0x24 => (Op::Bit, Mode::ZeroPage, 3),
        0x25 => (Op::And, Mode::ZeroPage, 3),
        0x26 => (Op::Rol, Mode::ZeroPage, 5),
        0x28 => (Op::Plp, Mode::Implied, 4),
        0x29 => (Op::And, Mode::Immediate, 2),
        0x2a => (Op::Rol, Mode::Accumulator, 2),
        0x2c => (Op::Bit, Mode::Absolute, 4),
        0x2d => (Op::And, Mode::Absolute, 4),
        0x2e => (Op::Rol, Mode::Absolute, 6),
        0x30 => (Op::Bmi, Mode::Relative, 2),
        0x31 => (Op::And, Mode::IndirectIndexed, 5),
        0x35 => (Op::And, Mode::ZeroPageX, 4),
        0x36 => (Op::Rol, Mode::ZeroPageX, 6),
        0x38 => (Op::Sec, Mode::Implied, 2),
        0x39 => (Op::And, Mode::AbsoluteY, 4),
        0x3d => (Op::And, Mode::AbsoluteX, 4),
        0x3e => (Op::Rol, Mode::AbsoluteX, 7),
        0x40 => (Op::Rti, Mode::Implied, 6),
        0x41 => (Op::Eor, Mode::IndexedIndirect, 6),
        0x45 => (Op::Eor, Mode::ZeroPage, 3),
        0x46 => (Op::Lsr, Mode::ZeroPage, 5),
        0x48 => (Op::Pha, Mode::Implied, 3),
        0x49 => (Op::Eor, Mode::Immediate, 2),
        0x4a => (Op::Lsr, Mode::Accumulator, 2),
        0x4c => (Op::Jmp, Mode::Absolute, 3),
        0x4d => (Op::Eor, Mode::Absolute, 4),
        0x4e => (Op::Lsr, Mode::Absolute, 6),
        0x50 => (Op::Bvc, Mode::Relative, 2),
        0x51 => (Op::Eor, Mode::IndirectIndexed, 5),
        0x55 => (Op::Eor, Mode::ZeroPageX, 4),
        0x56 => (Op::Lsr, Mode::ZeroPageX, 6),
        0x58 => (Op::Cli, Mode::Implied, 2),
        0x59 => (Op::Eor, Mode::AbsoluteY, 4),
        0x5d => (Op::Eor, Mode::AbsoluteX, 4),
        0x5e => (Op::Lsr, Mode::AbsoluteX, 7),
        0x60 => (Op::Rts, Mode::Implied, 6),
        0x61 => (Op::Adc, Mode::IndexedIndirect, 6),
        0x65 => (Op::Adc, Mode::ZeroPage, 3),
        0x66 => (Op::Ror, Mode::ZeroPage, 5),
        0x68 => (Op::Pla, Mode::Implied, 4),
        0x69 => (Op::Adc, Mode::Immediate, 2),
        0x6a => (Op::Ror, Mode::Accumulator, 2),
        0x6c => (Op::Jmp, Mode::Indirect, 5),
        0x6d => (Op::Adc, Mode::Absolute, 4),
        0x6e => (Op::Ror, Mode::Absolute, 6),
        0x70 => (Op::Bvs, Mode::Relative, 2),
        0x71 => (Op::Adc, Mode::IndirectIndexed, 5),
        0x75 => (Op::Adc, Mode::ZeroPageX, 4),
        0x76 => (Op::Ror, Mode::ZeroPageX, 6),
        0x78 => (Op::Sei, Mode::Implied, 2),
        0x79 => (Op::Adc, Mode::AbsoluteY, 4),
        0x7d => (Op::Adc, Mode::AbsoluteX, 4),
        0x7e => (Op::Ror, Mode::AbsoluteX, 7),
        0x81 => (Op::Sta, Mode::IndexedIndirect, 6),
        0x84 => (Op::Sty, Mode::ZeroPage, 3),
        0x85 => (Op::Sta, Mode::ZeroPage, 3),
        0x86 => (Op::Stx, Mode::ZeroPage, 3),
        0x88 => (Op::Dey, Mode::Implied, 2),
        0x8a => (Op::Txa, Mode::Implied, 2),
        0x8c => (Op::Sty, Mode::Absolute, 4),
        0x8d => (Op::Sta, Mode::Absolute, 4),
        0x8e => (Op::Stx, Mode::Absolute, 4),
        0x90 => (Op::Bcc, Mode::Relative, 2),
        0x91 => (Op::Sta, Mode::IndirectIndexed, 6),
        0x94 => (Op::Sty, Mode::ZeroPageX, 4),
        0x95 => (Op::Sta, Mode::ZeroPageX, 4),
        0x96 => (Op::Stx, Mode::ZeroPageY, 4),
        0x98 => (Op::Tya, Mode::Implied, 2),
        0x99 => (Op::Sta, Mode::AbsoluteY, 5),
        0x9a => (Op::Txs, Mode::Implied, 2),
        0x9d => (Op::Sta, Mode::AbsoluteX, 5),
        0xa0 => (Op::Ldy, Mode::Immediate, 2),
        0xa1 => (Op::Lda, Mode::IndexedIndirect, 6),
        0xa2 => (Op::Ldx, Mode::Immediate, 2),
        0xa4 => (Op::Ldy, Mode::ZeroPage, 3),
        0xa5 => (Op::Lda, Mode::ZeroPage, 3),
        0xa6 => (Op::Ldx, Mode::ZeroPage, 3),
        0xa8 => (Op::Tay, Mode::Implied, 2),
        0xa9 => (Op::Lda, Mode::Immediate, 2),
        0xaa => (Op::Tax, Mode::Implied, 2),
        0xac => (Op::Ldy, Mode::Absolute, 4),
        0xad => (Op::Lda, Mode::Absolute, 4),
        0xae => (Op::Ldx, Mode::Absolute, 4),
        0xb0 => (Op::Bcs, Mode::Relative, 2),
        0xb1 => (Op::Lda, Mode::IndirectIndexed, 5),
        0xb4 => (Op::Ldy, Mode::ZeroPageX, 4),
        0xb5 => (Op::Lda, Mode::ZeroPageX, 4),
        0xb6 => (Op::Ldx, Mode::ZeroPageY, 4),
        0xb8 => (Op::Clv, Mode::Implied, 2),
        0xb9 => (Op::Lda, Mode::AbsoluteY, 4),
        0xba => (Op::Tsx, Mode::Implied, 2),
        0xbc => (Op::Ldy, Mode::AbsoluteX, 4),
        0xbd => (Op::Lda, Mode::AbsoluteX, 4),
        0xbe => (Op::Ldx, Mode::AbsoluteY, 4),
        0xc0 => (Op::Cpy, Mode::Immediate, 2),
        0xc1 => (Op::Cmp, Mode::IndexedIndirect, 6),
        0xc4 => (Op::Cpy, Mode::ZeroPage, 3),
        0xc5 => (Op::Cmp, Mode::ZeroPage, 3),
        0xc6 => (Op::Dec, Mode::ZeroPage, 5),
        0xc8 => (Op::Iny, Mode::Implied, 2),
        0xc9 => (Op::Cmp, Mode::Immediate, 2),
        0xca => (Op::Dex, Mode::Implied, 2),
        0xcc => (Op::Cpy, Mode::Absolute, 4),
        0xcd => (Op::Cmp, Mode::Absolute, 4),
        0xce => (Op::Dec, Mode::Absolute, 6),
        0xd0 => (Op::Bne, Mode::Relative, 2),
        0xd1 => (Op::Cmp, Mode::IndirectIndexed, 5),
        0xd5 => (Op::Cmp, Mode::ZeroPageX, 4),
        0xd6 => (Op::Dec, Mode::ZeroPageX, 6),
        0xd8 => (Op::Cld, Mode::Implied, 2),
        0xd9 => (Op::Cmp, Mode::AbsoluteY, 4),
        0xdd => (Op::Cmp, Mode::AbsoluteX, 4),
        0xde => (Op::Dec, Mode::AbsoluteX, 7),
        0xe0 => (Op::Cpx, Mode::Immediate, 2),
        0xe1 => (Op::Sbc, Mode::IndexedIndirect, 6),
        0xe4 => (Op::Cpx, Mode::ZeroPage, 3),
        0xe5 => (Op::Sbc, Mode::ZeroPage, 3),
        0xe6 => (Op::Inc, Mode::ZeroPage, 5),
        0xe8 => (Op::Inx, Mode::Implied, 2),
        0xe9 => (Op::Sbc, Mode::Immediate, 2),
        0xea => (Op::Nop, Mode::Implied, 2),
        0xec => (Op::Cpx, Mode::Absolute, 4),
        0xed => (Op::Sbc, Mode::Absolute, 4),
        0xee => (Op::Inc, Mode::Absolute, 6),
        0xf0 => (Op::Beq, Mode::Relative, 2),
        0xf1 => (Op::Sbc, Mode::IndirectIndexed, 5),
        0xf5 => (Op::Sbc, Mode::ZeroPageX, 4),
        0xf6 => (Op::Inc, Mode::ZeroPageX, 6),
        0xf8 => (Op::Sed, Mode::Implied, 2),
        0xf9 => (Op::Sbc, Mode::AbsoluteY, 4),
        0xfd => (Op::Sbc, Mode::AbsoluteX, 4),
        0xfe => (Op::Inc, Mode::AbsoluteX, 7),
        _ => (Op::Nop, Mode::Implied, 2),
    }
}

/// Executable decode, pinned to the table above, with the cycle-count
/// and mode facts the interpreter needs.
#[verifier::rlimit(100)]
pub fn decode(opcode: u8) -> (r: (Op, Mode, u8))
    ensures
        r == spec_decode(opcode),
        2 <= r.2 <= 7,
        spec_is_read_op(r.0) && (r.1 == Mode::AbsoluteX || r.1 == Mode::AbsoluteY || r.1
            == Mode::IndirectIndexed) ==> r.2 <= 5,
        spec_is_read_op(r.0) ==> (r.1 == Mode::Immediate || spec_has_addr_mode(r.1)),
        spec_is_store_op(r.0) ==> spec_has_addr_mode(r.1),
        spec_is_rmw_op(r.0) ==> (r.1 == Mode::Accumulator || spec_has_addr_mode(r.1)),
        spec_is_branch(r.0) ==> (r.1 == Mode::Relative && r.2 == 2),
{
    match opcode {
        0x00 => (Op::Brk, Mode::Implied, 7),
        0x01 => (Op::Ora, Mode::IndexedIndirect, 6),
        0x05 => (Op::Ora, Mode::ZeroPage, 3),
        0x06 => (Op::Asl, Mode::ZeroPage, 5),
        0x08 => (Op::Php, Mode::Implied, 3),
        0x09 => (Op::Ora, Mode::Immediate, 2),
        0x0a => (Op::Asl, Mode::Accumulator, 2),
        0x0d => (Op::Ora, Mode::Absolute, 4),
        0x0e => (Op::Asl, Mode::Absolute, 6),
        0x10 => (Op::Bpl, Mode::Relative, 2),
        0x11 => (Op::Ora, Mode::IndirectIndexed, 5),
        0x15 => (Op::Ora, Mode::ZeroPageX, 4),
        0x16 => (Op::Asl, Mode::ZeroPageX, 6),
        0x18 => (Op::Clc, Mode::Implied, 2),
        0x19 => (Op::Ora, Mode::AbsoluteY, 4),
        0x1d => (Op::Ora, Mode::AbsoluteX, 4),
        0x1e => (Op::Asl, Mode::AbsoluteX, 7),
        0x20 => (Op::Jsr, Mode::Absolute, 6),
        0x21 => (Op::And, Mode::IndexedIndirect, 6),
        0x24 => (Op::Bit, Mode::ZeroPage, 3),
        0x25 => (Op::And, Mode::ZeroPage, 3),
        0x26 => (Op::Rol, Mode::ZeroPage, 5),
        0x28 => (Op::Plp, Mode::Implied, 4),
        0x29 => (Op::And, Mode::Immediate, 2),
        0x2a => (Op::Rol, Mode::Accumulator, 2),
        0x2c => (Op::Bit, Mode::Absolute, 4),
        0x2d => (Op::And, Mode::Absolute, 4),
        0x2e => (Op::Rol, Mode::Absolute, 6),
        0x30 => (Op::Bmi, Mode::Relative, 2),
        0x31 => (Op::And, Mode::IndirectIndexed, 5),
        0x35 => (Op::And, Mode::ZeroPageX, 4),
        0x36 => (Op::Rol, Mode::ZeroPageX, 6),
        0x38 => (Op::Sec, Mode::Implied, 2),
        0x39 => (Op::And, Mode::AbsoluteY, 4),
        0x3d => (Op::And, Mode::AbsoluteX, 4),
        0x3e => (Op::Rol, Mode::AbsoluteX, 7),
        0x40 => (Op::Rti, Mode::Implied, 6),
        0x41 => (Op::Eor, Mode::IndexedIndirect, 6),
        0x45 => (Op::Eor, Mode::ZeroPage, 3),
        0x46 => (Op::Lsr, Mode::ZeroPage, 5),
        0x48 => (Op::Pha, Mode::Implied, 3),
        0x49 => (Op::Eor, Mode::Immediate, 2),
        0x4a => (Op::Lsr, Mode::Accumulator, 2),
        0x4c => (Op::Jmp, Mode::Absolute, 3),
        0x4d => (Op::Eor, Mode::Absolute, 4),
        0x4e => (Op::Lsr, Mode::Absolute, 6),
        0x50 => (Op::Bvc, Mode::Relative, 2),
        0x51 => (Op::Eor, Mode::IndirectIndexed, 5),
        0x55 => (Op::Eor, Mode::ZeroPageX, 4),
        0x56 => (Op::Lsr, Mode::ZeroPageX, 6),
        0x58 => (Op::Cli, Mode::Implied, 2),
        0x59 => (Op::Eor, Mode::AbsoluteY, 4),
        0x5d => (Op::Eor, Mode::AbsoluteX, 4),
        0x5e => (Op::Lsr, Mode::AbsoluteX, 7),
        0x60 => (Op::Rts, Mode::Implied, 6),
        0x61 => (Op::Adc, Mode::IndexedIndirect, 6),
        0x65 => (Op::Adc, Mode::ZeroPage, 3),
        0x66 => (Op::Ror, Mode::ZeroPage, 5),
        0x68 => (Op::Pla, Mode::Implied, 4),
        0x69 => (Op::Adc, Mode::Immediate, 2),
        0x6a => (Op::Ror, Mode::Accumulator, 2),
        0x6c => (Op::Jmp, Mode::Indirect, 5),
        0x6d => (Op::Adc, Mode::Absolute, 4),
        0x6e => (Op::Ror, Mode::Absolute, 6),
        0x70 => (Op::Bvs, Mode::Relative, 2),
        0x71 => (Op::Adc, Mode::IndirectIndexed, 5),
        0x75 => (Op::Adc, Mode::ZeroPageX, 4),
        0x76 => (Op::Ror, Mode::ZeroPageX, 6),
        0x78 => (Op::Sei, Mode::Implied, 2),
        0x79 => (Op::Adc, Mode::AbsoluteY, 4),
        0x7d => (Op::Adc, Mode::AbsoluteX, 4),
        0x7e => (Op::Ror, Mode::AbsoluteX, 7),
        0x81 => (Op::Sta, Mode::IndexedIndirect, 6),
        0x84 => (Op::Sty, Mode::ZeroPage, 3),
        0x85 => (Op::Sta, Mode::ZeroPage, 3),
        0x86 => (Op::Stx, Mode::ZeroPage, 3),
        0x88 => (Op::Dey, Mode::Implied, 2),
        0x8a => (Op::Txa, Mode::Implied, 2),
        0x8c => (Op::Sty, Mode::Absolute, 4),
        0x8d => (Op::Sta, Mode::Absolute, 4),
        0x8e => (Op::Stx, Mode::Absolute, 4),
        0x90 => (Op::Bcc, Mode::Relative, 2),
        0x91 => (Op::Sta, Mode::IndirectIndexed, 6),
        0x94 => (Op::Sty, Mode::ZeroPageX, 4),
        0x95 => (Op::Sta, Mode::ZeroPageX, 4),
        0x96 => (Op::Stx, Mode::ZeroPageY, 4),
        0x98 => (Op::Tya, Mode::Implied, 2),
        0x99 => (Op::Sta, Mode::AbsoluteY, 5),
        0x9a => (Op::Txs, Mode::Implied, 2),
        0x9d => (Op::Sta, Mode::AbsoluteX, 5),
        0xa0 => (Op::Ldy, Mode::Immediate, 2),
        0xa1 => (Op::Lda, Mode::IndexedIndirect, 6),
        0xa2 => (Op::Ldx, Mode::Immediate, 2),
        0xa4 => (Op::Ldy, Mode::ZeroPage, 3),
        0xa5 => (Op::Lda, Mode::ZeroPage, 3),
        0xa6 => (Op::Ldx, Mode::ZeroPage, 3),
        0xa8 => (Op::Tay, Mode::Implied, 2),
        0xa9 => (Op::Lda, Mode::Immediate, 2),
        0xaa => (Op::Tax, Mode::Implied, 2),
        0xac => (Op::Ldy, Mode::Absolute, 4),
        0xad => (Op::Lda, Mode::Absolute, 4),
        0xae => (Op::Ldx, Mode::Absolute, 4),
        0xb0 => (Op::Bcs, Mode::Relative, 2),
        0xb1 => (Op::Lda, Mode::IndirectIndexed, 5),
        0xb4 => (Op::Ldy, Mode::ZeroPageX, 4),
        0xb5 => (Op::Lda, Mode::ZeroPageX, 4),
        0xb6 => (Op::Ldx, Mode::ZeroPageY, 4),
        0xb8 => (Op::Clv, Mode::Implied, 2),
        0xb9 => (Op::Lda, Mode::AbsoluteY, 4),
        0xba => (Op::Tsx, Mode::Implied, 2),
        0xbc => (Op::Ldy, Mode::AbsoluteX, 4),
        0xbd => (Op::Lda, Mode::AbsoluteX, 4),
        0xbe => (Op::Ldx, Mode::AbsoluteY, 4),
        0xc0 => (Op::Cpy, Mode::Immediate, 2),
        0xc1 => (Op::Cmp, Mode::IndexedIndirect, 6),
        0xc4 => (Op::Cpy, Mode::ZeroPage, 3),
        0xc5 => (Op::Cmp, Mode::ZeroPage, 3),
        0xc6 => (Op::Dec, Mode::ZeroPage, 5),
        0xc8 => (Op::Iny, Mode::Implied, 2),
        0xc9 => (Op::Cmp, Mode::Immediate, 2),
        0xca => (Op::Dex, Mode::Implied, 2),
        0xcc => (Op::Cpy, Mode::Absolute, 4),
        0xcd => (Op::Cmp, Mode::Absolute, 4),
        0xce => (Op::Dec, Mode::Absolute, 6),
        0xd0 => (Op::Bne, Mode::Relative, 2),
        0xd1 => (Op::Cmp, Mode::IndirectIndexed, 5),
        0xd5 => (Op::Cmp, Mode::ZeroPageX, 4),
        0xd6 => (Op::Dec, Mode::ZeroPageX, 6),
        0xd8 => (Op::Cld, Mode::Implied, 2),
        0xd9 => (Op::Cmp, Mode::AbsoluteY, 4),
        0xdd => (Op::Cmp, Mode::AbsoluteX, 4),
        0xde => (Op::Dec, Mode::AbsoluteX, 7),
        0xe0 => (Op::Cpx, Mode::Immediate, 2),
        0xe1 => (Op::Sbc, Mode::IndexedIndirect, 6),
        0xe4 => (Op::Cpx, Mode::ZeroPage, 3),
        0xe5 => (Op::Sbc, Mode::ZeroPage, 3),
        0xe6 => (Op::Inc, Mode::ZeroPage, 5),
        0xe8 => (Op::Inx, Mode::Implied, 2),
        0xe9 => (Op::Sbc, Mode::Immediate, 2),
        0xea => (Op::Nop, Mode::Implied, 2),
        0xec => (Op::Cpx, Mode::Absolute, 4),
        0xed => (Op::Sbc, Mode::Absolute, 4),
        0xee => (Op::Inc, Mode::Absolute, 6),
        0xf0 => (Op::Beq, Mode::Relative, 2),
        0xf1 => (Op::Sbc, Mode::IndirectIndexed, 5),
        0xf5 => (Op::Sbc, Mode::ZeroPageX, 4),
        0xf6 => (Op::Inc, Mode::ZeroPageX, 6),
        0xf8 => (Op::Sed, Mode::Implied, 2),
        0xf9 => (Op::Sbc, Mode::AbsoluteY, 4),
        0xfd => (Op::Sbc, Mode::AbsoluteX, 4),
        0xfe => (Op::Inc, Mode::AbsoluteX, 7),
        _ => (Op::Nop, Mode::Implied, 2),
    }
}

fn mode_len(m: Mode) -> (r: u16)
    ensures
        r == spec_mode_len(m),
{
    match m {
        Mode::Implied | Mode::Accumulator => 1,
        Mode::Absolute | Mode::AbsoluteX | Mode::AbsoluteY | Mode::Indirect => 3,
        _ => 2,
    }
}

/// Nothing the CPU ever observes through the bus has changed: all byte
/// storage and configuration is intact (only the open-bus value and
/// the PPU read-touch records may differ). This is the footprint of a
/// pure read.
pub open spec fn mem_contents_unchanged(m0: MemModel, m1: MemModel) -> bool {
    &&& m1.ram == m0.ram
    &&& m1.rom == m0.rom
    &&& m1.vram == m0.vram
    &&& m1.chr == m0.chr
    &&& m1.regs == m0.regs
    &&& m1.reg_write == m0.reg_write
    &&& m1.oam == m0.oam
    &&& m1.palette == m0.palette
    &&& m1.dma_pending == m0.dma_pending
    &&& m1.prg_blocks == m0.prg_blocks
    &&& m1.chr_blocks == m0.chr_blocks
    &&& m1.mapper == m0.mapper
    &&& m1.mirror == m0.mirror
}

/// The effective address an addressed mode names: zero-page indexing
/// wraps within the
/// zero page, the indirect modes read their pointer with the page-wrap
/// bug, and the indexed modes add the register with 16-bit wrap.
pub open spec fn spec_operand_addr(c: Cpu, m: MemModel, mode: Mode) -> u16 {
    let o1 = spec_cpu_read(m, u16_wadd(c.pc, 1));
    let m1 = spec_cpu_read_model(m, u16_wadd(c.pc, 1));
    let w = spec_read16(m, u16_wadd(c.pc, 1));
    match mode {
        Mode::ZeroPage => o1 as u16,
        Mode::ZeroPageX => u8_wadd(o1, c.x) as u16,
        Mode::ZeroPageY => u8_wadd(o1, c.y) as u16,
        Mode::Absolute => w,
        Mode::AbsoluteX => u16_wadd(w, c.x as u16),
        Mode::AbsoluteY => u16_wadd(w, c.y as u16),
        Mode::IndexedIndirect => spec_read16_wrap(m1, u8_wadd(o1, c.x) as u16),
        Mode::IndirectIndexed => u16_wadd(spec_read16_wrap(m1, o1 as u16), c.y as u16),
        _ => 0,
    }
}

/// Whether the indexed addressing crossed a page boundary (the +1
/// cycle of read operations).
pub open spec fn spec_page_crossed(c: Cpu, m: MemModel, mode: Mode) -> bool {
    let o1 = spec_cpu_read(m, u16_wadd(c.pc, 1));
    let m1 = spec_cpu_read_model(m, u16_wadd(c.pc, 1));
    let w = spec_read16(m, u16_wadd(c.pc, 1));
    match mode {
        Mode::AbsoluteX => !same_page(w, u16_wadd(w, c.x as u16)),
        Mode::AbsoluteY => !same_page(w, u16_wadd(w, c.y as u16)),
        Mode::IndirectIndexed => !same_page(
            spec_read16_wrap(m1, o1 as u16),
            u16_wadd(spec_read16_wrap(m1, o1 as u16), c.y as u16),
        ),
        _ => false,
    }
}

/// The byte a read-modify-write operation leaves in place of `v`,
/// with `c` the carry-in of the rotates.
pub open spec fn spec_rmw_value(op: Op, v: u8, c: bool) -> u8 {
    match op {
        Op::Asl => v << 1,
        Op::Lsr => v >> 1,
        Op::Rol => (v << 1) | (if c { 1u8 } else { 0u8 }),
        Op::Ror => (v >> 1) | (if c { 0x80u8 } else { 0u8 }),
        Op::Inc => wrap_inc8(v),
        _ => wrap_dec8(v),
    }
}

/// The register a store operation writes.
pub open spec fn spec_store_value(op: Op, c: Cpu) -> u8 {
    match op {
        Op::Sta => c.a,
        Op::Stx => c.x,
        _ => c.y,
    }
}

/// The 6502 register file and the three interrupt latches.
pub struct Cpu {
    pub a: u8,
    pub x: u8,
    pub y: u8,
    pub s: u8,
    pub pc: u16,
    pub p: u8,
    pub nmi_pending: bool,
    pub irq_pending: bool,
    pub reset_pending: bool,
}

impl Cpu {
    /// Power-up state: registers cleared, stack pointer at $FD,
    /// interrupts disabled, and a RESET pending so the first step
    /// vectors through $FFFC/D.
    pub fn new() -> (c: Cpu)
        ensures
            c.a == 0 && c.x == 0 && c.y == 0,
            c.s == 0xfd,
            c.pc == 0,
            c.p == 0x24,
            c.reset_pending,
            !c.nmi_pending,
            !c.irq_pending,
    {
        Cpu {
            a: 0,
            x: 0,
            y: 0,
            s: 0xfd,
            pc: 0,
            p: 0x24,
            nmi_pending: false,
            irq_pending: false,
            reset_pending: true,
        }
    }

    /// Latch a non-maskable interrupt; it is serviced before the next
    /// fetch.
    pub fn request_nmi(&mut self)
        ensures
            *final(self) == (Cpu { nmi_pending: true, ..*old(self) }),
    {
        self.nmi_pending = true;
    }

    /// Latch a maskable interrupt; it is serviced before the next
    /// fetch if I is clear.
    pub fn request_irq(&mut self)
        ensures
            *final(self) == (Cpu { irq_pending: true, ..*old(self) }),
    {
        self.irq_pending = true;
    }

    /// Latch a RESET; it is serviced before the next fetch.
    pub fn reset(&mut self)
        ensures
            *final(self) == (Cpu { reset_pending: true, ..*old(self) }),
    {
        self.reset_pending = true;
    }

    fn branch_taken_exec(&self, op: Op) -> (r: bool)
        ensures
            r == spec_branch_taken(op, self.p),
    {
        match op {
            Op::Bcc => !get_flag(self.p, FLAG_C),
            Op::Bcs => get_flag(self.p, FLAG_C),
            Op::Beq => get_flag(self.p, FLAG_Z),
            Op::Bne => !get_flag(self.p, FLAG_Z),
            Op::Bmi => get_flag(self.p, FLAG_N),
            Op::Bpl => !get_flag(self.p, FLAG_N),
            Op::Bvs => get_flag(self.p, FLAG_V),
            Op::Bvc => !get_flag(self.p, FLAG_V),
            _ => false,
        }
    }

    /// Compute the effective address of an addressed mode, fetching
    /// the operand bytes after the opcode. Returns the address and the
    /// page-cross flag.
    fn operand_addr(&self, mem: &mut RAM, mode: Mode) -> (r: (u16, bool))
        requires
            old(mem).wf(),
            spec_has_addr_mode(mode),
        ensures
            final(mem).wf(),
            mem_contents_unchanged(old(mem)@, final(mem)@),
            r.0 == spec_operand_addr(*self, old(mem)@, mode),
            r.1 == spec_page_crossed(*self, old(mem)@, mode),
    {
        let opaddr = self.pc.wrapping_add(1);
        match mode {
            Mode::ZeroPage => {
                let o = mem.read_mem_value(opaddr);
                (o as u16, false)
            },
            Mode::ZeroPageX => {
                let o = mem.read_mem_value(opaddr);
                (o.wrapping_add(self.x) as u16, false)
            },
            Mode::ZeroPageY => {
                let o = mem.read_mem_value(opaddr);
                (o.wrapping_add(self.y) as u16, false)
            },
            Mode::Absolute => {
                let w = mem.read_mem_address(opaddr);
                (w, false)
            },
            Mode::AbsoluteX => {
                let w = mem.read_mem_address(opaddr);
                let a = w.wrapping_add(self.x as u16);
                (a, (w & 0xff00) != (a & 0xff00))
            },
            Mode::AbsoluteY => {
                let w = mem.read_mem_address(opaddr);
                let a = w.wrapping_add(self.y as u16);
                (a, (w & 0xff00) != (a & 0xff00))
            },
            Mode::IndexedIndirect => {
                let o = mem.read_mem_value(opaddr);
                let ptr = o.wrapping_add(self.x);
                let a = mem.read_mem_address_wrap(ptr as u16);
                (a, false)
            },
            Mode::IndirectIndexed => {
                let o = mem.read_mem_value(opaddr);
                let base = mem.read_mem_address_wrap(o as u16);
                let a = base.wrapping_add(self.y as u16);
                (a, (base & 0xff00) != (a & 0xff00))
            },
            _ => (0, false),
        }
    }

    /// Fetch the operand byte of a read operation: the immediate byte,
    /// or the byte at the mode's effective address.
    fn fetch_operand(&self, mem: &mut RAM, mode: Mode) -> (r: (u8, bool))
        requires
            old(mem).wf(),
            mode == Mode::Immediate || spec_has_addr_mode(mode),
        ensures
            final(mem).wf(),
            mem_contents_unchanged(old(mem)@, final(mem)@),
            r.1 == spec_page_crossed(*self, old(mem)@, mode),
            mode == Mode::Immediate ==> r.0 == spec_cpu_read(old(mem)@, u16_wadd(self.pc, 1)),
            spec_has_addr_mode(mode) ==> ({
                let addr = spec_operand_addr(*self, old(mem)@, mode);
                (addr < 0x4000 || 0x8000 <= addr) ==> r.0 == spec_cpu_read(old(mem)@, addr)
            }),
    {
        match mode {
            Mode::Immediate => {
                let v = mem.read_mem_value(self.pc.wrapping_add(1));
                (v, false)
            },
            _ => {
                let (addr, crossed) = self.operand_addr(mem, mode);
                let v = mem.read_mem_value(addr);
                (v, crossed)
            },
        }
    }

    /// Execute one instruction, or service a pending interrupt, and
    /// report the cycles consumed. Cycles are always within 2..=7, and
    /// unless the instruction sets PC explicitly (jumps, BRK, returns,
    /// a taken branch) PC advances by exactly the instruction length.
    #[verifier::spinoff_prover]
    #[verifier::rlimit(100)]
    pub fn step(&mut self, mem: &mut RAM) -> (cycles: u8)
        requires
            old(mem).wf(),
        ensures
            final(mem).wf(),
            2 <= cycles <= 7,
            old(self).reset_pending || old(self).nmi_pending || (old(self).irq_pending && !flag_i(
                old(self).p,
            )) ==> cycles == 7,
            !(old(self).reset_pending || old(self).nmi_pending || (old(self).irq_pending
                && !flag_i(old(self).p))) ==> ({
                let d = spec_decode(spec_cpu_read(old(mem)@, old(self).pc));
                !spec_pc_explicit(d.0, old(self).p) ==> final(self).pc == u16_wadd(
                    old(self).pc,
                    spec_mode_len(d.1),
                )
            }),
            !(old(self).reset_pending || old(self).nmi_pending || (old(self).irq_pending
                && !flag_i(old(self).p))) ==> ({
                let c0 = *old(self);
                let d = spec_decode(spec_cpu_read(old(mem)@, c0.pc));
                let imm = spec_cpu_read(
                    spec_cpu_read_model(old(mem)@, c0.pc),
                    u16_wadd(c0.pc, 1),
                );
                d.1 == Mode::Immediate ==> {
                    &&& d.0 == Op::Lda ==> final(self).a == imm && final(self).p
                        == crate::flags::spec_with_nz(c0.p, imm)
                    &&& d.0 == Op::Adc ==> final(self).a == adc_value(c0.a, imm, flag_c(c0.p))
                    &&& d.0 == Op::Sbc ==> final(self).a == sbc_value(c0.a, imm, flag_c(c0.p))
                }
            }),
            !(old(self).reset_pending || old(self).nmi_pending || (old(self).irq_pending
                && !flag_i(old(self).p))) ==> ({
                let c0 = *old(self);
                let d = spec_decode(spec_cpu_read(old(mem)@, c0.pc));
                spec_is_store_op(d.0) ==> {
                    let addr = spec_operand_addr(c0, spec_cpu_read_model(old(mem)@, c0.pc), d.1);
                    &&& final(self).a == c0.a && final(self).x == c0.x && final(self).y == c0.y
                        && final(self).s == c0.s && final(self).p == c0.p
                    &&& (addr < 0x2000 ==> final(mem)@.ram == old(mem)@.ram.update(
                        addr as int % 0x800,
                        spec_store_value(d.0, c0),
                    ))
                }
            }),
            !(old(self).reset_pending || old(self).nmi_pending || (old(self).irq_pending
                && !flag_i(old(self).p))) ==> ({
                let c0 = *old(self);
                let m1 = spec_cpu_read_model(old(mem)@, c0.pc);
                let d = spec_decode(spec_cpu_read(old(mem)@, c0.pc));
                let imm = spec_cpu_read(m1, u16_wadd(c0.pc, 1));
                &&& (d.1 == Mode::Immediate && d.0 == Op::Adc ==> flag_c(final(self).p)
                    == adc_carry(c0.a, imm, flag_c(c0.p)) && flag_v(final(self).p) == overflow_bit(
                    c0.a,
                    imm,
                    final(self).a,
                ) && flag_z(final(self).p) == (final(self).a == 0) && flag_n(final(self).p) == (
                final(self).a & 0x80 != 0))
                &&& (d.1 == Mode::Immediate && d.0 == Op::Sbc ==> flag_c(final(self).p)
                    == sbc_carry(c0.a, imm, flag_c(c0.p)) && flag_v(final(self).p) == overflow_bit(
                    c0.a,
                    imm ^ 0xff,
                    final(self).a,
                ) && flag_z(final(self).p) == (final(self).a == 0) && flag_n(final(self).p) == (
                final(self).a & 0x80 != 0))
                &&& (spec_is_branch(d.0) && spec_branch_taken(d.0, c0.p) ==> ({
                    let target = u16_wadd(u16_wadd(c0.pc, 2), ((imm as i8) as u16));
                    final(self).pc == target && cycles == (if same_page(
                        u16_wadd(c0.pc, 2),
                        target,
                    ) {
                        3u8
                    } else {
                        4u8
                    })
                }))
                &&& (d.0 == Op::Jmp && d.1 == Mode::Absolute ==> final(self).pc == spec_read16(
                    m1,
                    u16_wadd(c0.pc, 1),
                ) && cycles == 3)
                &&& (d.0 == Op::Jmp && d.1 == Mode::Indirect ==> ({
                    let ptr = spec_read16(m1, u16_wadd(c0.pc, 1));
                    let m2 = spec_cpu_read_model(
                        spec_cpu_read_model(m1, u16_wadd(c0.pc, 1)),
                        wrap_inc16(u16_wadd(c0.pc, 1)),
                    );
                    final(self).pc == spec_read16_wrap(m2, ptr) && cycles == 5
                }))
                &&& (d.0 == Op::Jsr ==> final(self).pc == spec_read16(m1, u16_wadd(c0.pc, 1))
                    && final(self).s == wrap_dec8(wrap_dec8(c0.s)) && final(mem)@.ram == old(
                    mem,
                )@.ram.update(0x100 + c0.s, hi8(u16_wadd(c0.pc, 2))).update(
                    0x100 + wrap_dec8(c0.s),
                    lo8(u16_wadd(c0.pc, 2)),
                ) && cycles == 6)
                &&& (d.0 == Op::Rts ==> final(self).pc == u16_wadd(
                    le16(
                        old(mem)@.ram[0x100 + wrap_inc8(c0.s)],
                        old(mem)@.ram[0x100 + wrap_inc8(wrap_inc8(c0.s))],
                    ),
                    1,
                ) && final(self).s == wrap_inc8(wrap_inc8(c0.s)) && cycles == 6)
                &&& (d.0 == Op::Rti ==> final(self).p == (((old(mem)@.ram[0x100 + wrap_inc8(c0.s)]
                    & !FLAG_B) | (c0.p & FLAG_B)) | FLAG_U) && final(self).pc == le16(
                    old(mem)@.ram[0x100 + wrap_inc8(wrap_inc8(c0.s))],
                    old(mem)@.ram[0x100 + wrap_inc8(wrap_inc8(wrap_inc8(c0.s)))],
                ) && final(self).s == wrap_inc8(wrap_inc8(wrap_inc8(c0.s))) && cycles == 6)
                &&& (spec_is_rmw_op(d.0) && d.1 == Mode::Accumulator ==> final(self).a
                    == spec_rmw_value(d.0, c0.a, flag_c(c0.p)))
                &&& (spec_is_rmw_op(d.0) && spec_has_addr_mode(d.1) ==> ({
                    let addr = spec_operand_addr(c0, m1, d.1);
                    final(self).a == c0.a && final(self).x == c0.x && final(self).y == c0.y
                        && final(self).s == c0.s && (addr < 0x2000 ==> final(mem)@.ram == old(
                        mem,
                    )@.ram.update(
                        addr as int % 0x800,
                        spec_rmw_value(d.0, old(mem)@.ram[addr as int % 0x800], flag_c(c0.p)),
                    ))
                }))
                &&& ((d.0 == Op::Lda || d.0 == Op::Ldx || d.0 == Op::Ldy) && spec_has_addr_mode(
                    d.1,
                ) ==> ({
                    let addr = spec_operand_addr(c0, m1, d.1);
                    (addr < 0x4000 || 0x8000 <= addr) ==> ({
                        let v = spec_cpu_read(m1, addr);
                        &&& (d.0 == Op::Lda ==> final(self).a == v)
                        &&& (d.0 == Op::Ldx ==> final(self).x == v)
                        &&& (d.0 == Op::Ldy ==> final(self).y == v)
                        &&& final(self).p == spec_with_nz(c0.p, v)
                    })
                }))
            }),
            old(self).reset_pending ==> ({
                &&& final(self).pc == spec_read16(old(mem)@, 0xfffc)
                &&& final(self).s == vstd::wrapping::u8_specs::wrapping_sub(old(self).s, 3)
                &&& flag_i(final(self).p)
                &&& !final(self).reset_pending
                &&& final(self).a == old(self).a && final(self).x == old(self).x && final(self).y
                    == old(self).y
            }),
            !old(self).reset_pending && old(self).nmi_pending ==> ({
                &&& final(mem)@.ram == old(mem)@.ram.update(
                    0x100 + old(self).s,
                    hi8(old(self).pc),
                ).update(0x100 + wrap_dec8(old(self).s), lo8(old(self).pc)).update(
                    0x100 + wrap_dec8(wrap_dec8(old(self).s)),
                    ((old(self).p & !FLAG_B) | FLAG_U),
                )
                &&& final(self).s == wrap_dec8(wrap_dec8(wrap_dec8(old(self).s)))
                &&& flag_i(final(self).p)
                &&& final(self).pc == spec_read16(old(mem)@, 0xfffa)
                &&& !final(self).nmi_pending
            }),
            !old(self).reset_pending && !old(self).nmi_pending && old(self).irq_pending && !flag_i(
                old(self).p,
            ) ==> ({
                &&& final(mem)@.ram == old(mem)@.ram.update(
                    0x100 + old(self).s,
                    hi8(old(self).pc),
                ).update(0x100 + wrap_dec8(old(self).s), lo8(old(self).pc)).update(
                    0x100 + wrap_dec8(wrap_dec8(old(self).s)),
                    ((old(self).p & !FLAG_B) | FLAG_U),
                )
                &&& final(self).s == wrap_dec8(wrap_dec8(wrap_dec8(old(self).s)))
                &&& flag_i(final(self).p)
                &&& final(self).pc == spec_read16(old(mem)@, 0xfffe)
                &&& !final(self).irq_pending
            }),
    {
        if self.reset_pending {
            self.reset_pending = false;
            self.s = self.s.wrapping_sub(3);
            proof {
                lemma_set_flag(self.p, FLAG_I, true);
            }
            self.p = set_flag(self.p, FLAG_I, true);
            self.pc = mem.read_mem_address(0xfffc);
            return 7;
        }
        if self.nmi_pending {
            self.nmi_pending = false;
            mem.push_address_on_stack(&mut self.s, self.pc);
            mem.push_value_on_stack(&mut self.s, (self.p & !FLAG_B) | FLAG_U);
            proof {
                lemma_set_flag(self.p, FLAG_I, true);
            }
            self.p = set_flag(self.p, FLAG_I, true);
            self.pc = mem.read_mem_address(0xfffa);
            return 7;
        }
        if self.irq_pending && !get_flag(self.p, FLAG_I) {
            self.irq_pending = false;
            mem.push_address_on_stack(&mut self.s, self.pc);
            mem.push_value_on_stack(&mut self.s, (self.p & !FLAG_B) | FLAG_U);
            proof {
                lemma_set_flag(self.p, FLAG_I, true);
            }
            self.p = set_flag(self.p, FLAG_I, true);
            self.pc = mem.read_mem_address(0xfffe);
            return 7;
        }
        let pc0 = self.pc;
        let opcode = mem.read_mem_value(pc0);
        let d = decode(opcode);
        let op = d.0;
        let mode = d.1;
        let base = d.2;
        let len = mode_len(mode);
        let cycles: u8;
        match op {
            Op::Brk => {
                mem.push_address_on_stack(&mut self.s, pc0.wrapping_add(2));
                mem.push_value_on_stack(&mut self.s, (self.p | FLAG_B) | FLAG_U);
                self.p = set_flag(self.p, FLAG_I, true);
                self.pc = mem.read_mem_address(0xfffe);
                cycles = 7;
            },
            Op::Jmp => {
                match mode {
                    Mode::Absolute => {
                        self.pc = mem.read_mem_address(pc0.wrapping_add(1));
                    },
                    _ => {
                        let ptr = mem.read_mem_address(pc0.wrapping_add(1));
                        self.pc = mem.read_mem_address_wrap(ptr);
                    },
                }
                cycles = base;
            },
            Op::Jsr => {
                let target = mem.read_mem_address(pc0.wrapping_add(1));
                mem.push_address_on_stack(&mut self.s, pc0.wrapping_add(2));
                self.pc = target;
                cycles = 6;
            },
            Op::Rts => {
                let ret = mem.pop_address_off_stack(&mut self.s);
                self.pc = ret.wrapping_add(1);
                cycles = 6;
            },
            Op::Rti => {
                let pv = mem.pop_value_off_stack(&mut self.s);
                self.p = ((pv & !FLAG_B) | (self.p & FLAG_B)) | FLAG_U;
                self.pc = mem.pop_address_off_stack(&mut self.s);
                cycles = 6;
            },
            Op::Bcc | Op::Bcs | Op::Beq | Op::Bmi | Op::Bne | Op::Bpl | Op::Bvc | Op::Bvs => {
                let offset = mem.read_mem_value(pc0.wrapping_add(1));
                let next = pc0.wrapping_add(2);
                if self.branch_taken_exec(op) {
                    let target = next.wrapping_add((offset as i8) as u16);
                    cycles = if (next & 0xff00) != (target & 0xff00) {
                        4
                    } else {
                        3
                    };
                    self.pc = target;
                } else {
                    self.pc = next;
                    cycles = 2;
                }
            },
            Op::Clc => {
                self.p = set_flag(self.p, FLAG_C, false);
                self.pc = pc0.wrapping_add(1);
                cycles = 2;
            },
            Op::Sec => {
                self.p = set_flag(self.p, FLAG_C, true);
                self.pc = pc0.wrapping_add(1);
                cycles = 2;
            },
            Op::Cli => {
                self.p = set_flag(self.p, FLAG_I, false);
                self.pc = pc0.wrapping_add(1);
                cycles = 2;
            },
            Op::Sei => {
                self.p = set_flag(self.p, FLAG_I, true);
                self.pc = pc0.wrapping_add(1);
                cycles = 2;
            },
            Op::Cld => {
                self.p = self.p & 0xf7;
                self.pc = pc0.wrapping_add(1);
                cycles = 2;
            },
            Op::Sed => {
                self.p = self.p | 0x08;
                self.pc = pc0.wrapping_add(1);
                cycles = 2;
            },
            Op::Clv => {
                self.p = set_flag(self.p, FLAG_V, false);
                self.pc = pc0.wrapping_add(1);
                cycles = 2;
            },
            Op::Tax => {
                self.x = self.a;
                self.p = with_nz(self.p, self.x);
                self.pc = pc0.wrapping_add(1);
                cycles = 2;
            },
            Op::Tay => {
                self.y = self.a;
                self.p = with_nz(self.p, self.y);
                self.pc = pc0.wrapping_add(1);
                cycles = 2;
            },
            Op::Tsx => {
                self.x = self.s;
                self.p = with_nz(self.p, self.x);
                self.pc = pc0.wrapping_add(1);
                cycles = 2;
            },
            Op::Txa => {
                self.a = self.x;
                self.p = with_nz(self.p, self.a);
                self.pc = pc0.wrapping_add(1);
                cycles = 2;
            },
            Op::Txs => {
                self.s = self.x;
                self.pc = pc0.wrapping_add(1);
                cycles = 2;
            },
            Op::Tya => {
                self.a = self.y;
                self.p = with_nz(self.p, self.a);
                self.pc = pc0.wrapping_add(1);
                cycles = 2;
            },
            Op::Inx => {
                let r = inc8(self.x, self.p);
                self.x = r.0;
                self.p = r.1;
                self.pc = pc0.wrapping_add(1);
                cycles = 2;
            },
            Op::Iny => {
                let r = inc8(self.y, self.p);
                self.y = r.0;
                self.p = r.1;
                self.pc = pc0.wrapping_add(1);
                cycles = 2;
            },
            Op::Dex => {
                let r = dec8(self.x, self.p);
                self.x = r.0;
                self.p = r.1;
                self.pc = pc0.wrapping_add(1);
                cycles = 2;
            },
            Op::Dey => {
                let r = dec8(self.y, self.p);
                self.y = r.0;
                self.p = r.1;
                self.pc = pc0.wrapping_add(1);
                cycles = 2;
            },
            Op::Nop => {
                self.pc = pc0.wrapping_add(1);
                cycles = 2;
            },
            Op::Pha => {
                mem.push_value_on_stack(&mut self.s, self.a);
                self.pc = pc0.wrapping_add(1);
                cycles = 3;
            },
            Op::Php => {
                mem.push_value_on_stack(&mut self.s, (self.p | FLAG_B) | FLAG_U);
                self.pc = pc0.wrapping_add(1);
                cycles = 3;
            },
            Op::Pla => {
                let v = mem.pop_value_off_stack(&mut self.s);
                self.a = v;
                self.p = with_nz(self.p, v);
                self.pc = pc0.wrapping_add(1);
                cycles = 4;
            },
            Op::Plp => {
                let pv = mem.pop_value_off_stack(&mut self.s);
                self.p = ((pv & !FLAG_B) | (self.p & FLAG_B)) | FLAG_U;
                self.pc = pc0.wrapping_add(1);
                cycles = 4;
            },
            Op::Lda | Op::Ldx | Op::Ldy | Op::Adc | Op::Sbc | Op::And | Op::Ora | Op::Eor
                | Op::Cmp | Op::Cpx | Op::Cpy | Op::Bit => {
                let fetched = self.fetch_operand(mem, mode);
                let value = fetched.0;
                let crossed = fetched.1;
                match op {
                    Op::Lda => {
                        self.a = value;
                        self.p = with_nz(self.p, value);
                    },
                    Op::Ldx => {
                        self.x = value;
                        self.p = with_nz(self.p, value);
                    },
                    Op::Ldy => {
                        self.y = value;
                        self.p = with_nz(self.p, value);
                    },
                    Op::Adc => {
                        let r = adc(self.a, value, self.p);
                        self.a = r.0;
                        self.p = r.1;
                    },
                    Op::Sbc => {
                        let r = sbc(self.a, value, self.p);
                        self.a = r.0;
                        self.p = r.1;
                    },
                    Op::And => {
                        self.a = self.a & value;
                        self.p = with_nz(self.p, self.a);
                    },
                    Op::Ora => {
                        self.a = self.a | value;
                        self.p = with_nz(self.p, self.a);
                    },
                    Op::Eor => {
                        self.a = self.a ^ value;
                        self.p = with_nz(self.p, self.a);
                    },
                    Op::Cmp => {
                        self.p = compare(self.a, value, self.p);
                    },
                    Op::Cpx => {
                        self.p = compare(self.x, value, self.p);
                    },
                    Op::Cpy => {
                        self.p = compare(self.y, value, self.p);
                    },
                    _ => {
                        self.p = bit_test(self.a, value, self.p);
                    },
                }
                self.pc = pc0.wrapping_add(len);
                cycles = if crossed {
                    base + 1
                } else {
                    base
                };
            },
            Op::Sta | Op::Stx | Op::Sty => {
                let r = self.operand_addr(mem, mode);
                let v = match op {
                    Op::Sta => self.a,
                    Op::Stx => self.x,
                    _ => self.y,
                };
                mem.write_mem_value(r.0, v);
                self.pc = pc0.wrapping_add(len);
                cycles = base;
            },
            Op::Asl | Op::Lsr | Op::Rol | Op::Ror | Op::Inc | Op::Dec => {
                match mode {
                    Mode::Accumulator => {
                        let r = match op {
                            Op::Asl => asl(self.a, self.p),
                            Op::Lsr => lsr(self.a, self.p),
                            Op::Rol => rol(self.a, self.p),
                            _ => ror(self.a, self.p),
                        };
                        self.a = r.0;
                        self.p = r.1;
                    },
                    _ => {
                        let ra = self.operand_addr(mem, mode);
                        let v = mem.read_mem_value(ra.0);
                        let r = match op {
                            Op::Asl => asl(v, self.p),
                            Op::Lsr => lsr(v, self.p),
                            Op::Rol => rol(v, self.p),
                            Op::Ror => ror(v, self.p),
                            Op::Inc => inc8(v, self.p),
                            _ => dec8(v, self.p),
                        };
                        mem.write_mem_value(ra.0, r.0);
                        self.p = r.1;
                    },
                }
                self.pc = pc0.wrapping_add(len);
                cycles = base;
            },
        }
        cycles
    }
}

} // verus!
