//! Subtract-with-carry entry points, one per addressing mode. Each
//! applies the ALU's SBC to the accumulator, advances PC past the
//! instruction, and reports the cycles consumed.

use vstd::prelude::*;
use crate::alu::{overflow_bit, sbc, sbc_carry, sbc_value};
use crate::cpu::{same_page, u16_wadd, u8_wadd};
use crate::flags::{flag_b, flag_c, flag_d, flag_i, flag_n, flag_u, flag_v, flag_z};
use crate::memory::{
    spec_cpu_read, spec_cpu_read_model, spec_page_wrap_next, spec_read16_wrap, RAM,
};

verus! {

/// The full SBC register outcome: accumulator and status after, from
/// accumulator, operand byte and status before.
pub open spec fn sbc_outcome(p0: u8, p1: u8, a0: u8, m: u8, a1: u8) -> bool {
    let c = flag_c(p0);
    &&& a1 == sbc_value(a0, m, c)
    &&& flag_c(p1) == sbc_carry(a0, m, c)
    &&& flag_v(p1) == overflow_bit(a0, m ^ 0xff, a1)
    &&& flag_z(p1) == (a1 == 0)
    &&& flag_n(p1) == (a1 & 0x80 != 0)
    &&& flag_i(p1) == flag_i(p0)
    &&& flag_d(p1) == flag_d(p0)
    &&& flag_b(p1) == flag_b(p0)
    &&& flag_u(p1) == flag_u(p0)
}

/// SBC #imm: 2 bytes, 2 cycles.
pub fn sbc_immediate(
    operand: u8,
    pc_reg: &mut u16,
    accumulator: &mut u8,
    status_flags: &mut u8,
    cycles_until_next: &mut u8,
)
    ensures
        sbc_outcome(
            *old(status_flags),
            *final(status_flags),
            *old(accumulator),
            operand,
            *final(accumulator),
        ),
        *final(pc_reg) == u16_wadd(*old(pc_reg), 2),
        *final(cycles_until_next) == 2,
{
    let r = sbc(*accumulator, operand, *status_flags);
    *accumulator = r.0;
    *status_flags = r.1;
    *pc_reg = pc_reg.wrapping_add(2);
    *cycles_until_next = 2;
}

/// SBC zp: the operand byte names a zero-page address; 2 bytes, 3
/// cycles.
pub fn sbc_zero_page(
    operand: u8,
    pc_reg: &mut u16,
    accumulator: &mut u8,
    status_flags: &mut u8,
    memory: &mut RAM,
    cycles_until_next: &mut u8,
)
    requires
        old(memory).wf(),
    ensures
        final(memory).wf(),
        sbc_outcome(
            *old(status_flags),
            *final(status_flags),
            *old(accumulator),
            spec_cpu_read(old(memory)@, operand as u16),
            *final(accumulator),
        ),
        final(memory)@ == spec_cpu_read_model(old(memory)@, operand as u16),
        *final(pc_reg) == u16_wadd(*old(pc_reg), 2),
        *final(cycles_until_next) == 3,
{
    let value = memory.read_mem_value(operand as u16);
    let r = sbc(*accumulator, value, *status_flags);
    *accumulator = r.0;
    *status_flags = r.1;
    *pc_reg = pc_reg.wrapping_add(2);
    *cycles_until_next = 3;
}

/// SBC zp,X: zero-page address plus X, wrapping within the zero page;
/// 2 bytes, 4 cycles.
pub fn sbc_zero_page_x(
    operand: u8,
    x_reg: u8,
    pc_reg: &mut u16,
    accumulator: &mut u8,
    status_flags: &mut u8,
    memory: &mut RAM,
    cycles_until_next: &mut u8,
)
    requires
        old(memory).wf(),
    ensures
        final(memory).wf(),
        sbc_outcome(
            *old(status_flags),
            *final(status_flags),
            *old(accumulator),
            spec_cpu_read(old(memory)@, u8_wadd(operand, x_reg) as u16),
            *final(accumulator),
        ),
        final(memory)@ == spec_cpu_read_model(old(memory)@, u8_wadd(operand, x_reg) as u16),
        *final(pc_reg) == u16_wadd(*old(pc_reg), 2),
        *final(cycles_until_next) == 4,
{
    let addr = operand.wrapping_add(x_reg) as u16;
    let value = memory.read_mem_value(addr);
    let r = sbc(*accumulator, value, *status_flags);
    *accumulator = r.0;
    *status_flags = r.1;
    *pc_reg = pc_reg.wrapping_add(2);
    *cycles_until_next = 4;
}

/// SBC abs: 3 bytes, 4 cycles.
pub fn sbc_absolute(
    operand: u16,
    pc_reg: &mut u16,
    accumulator: &mut u8,
    status_flags: &mut u8,
    memory: &mut RAM,
    cycles_until_next: &mut u8,
)
    requires
        old(memory).wf(),
    ensures
        final(memory).wf(),
        sbc_outcome(
            *old(status_flags),
            *final(status_flags),
            *old(accumulator),
            spec_cpu_read(old(memory)@, operand),
            *final(accumulator),
        ),
        final(memory)@ == spec_cpu_read_model(old(memory)@, operand),
        *final(pc_reg) == u16_wadd(*old(pc_reg), 3),
        *final(cycles_until_next) == 4,
{
    let value = memory.read_mem_value(operand);
    let r = sbc(*accumulator, value, *status_flags);
    *accumulator = r.0;
    *status_flags = r.1;
    *pc_reg = pc_reg.wrapping_add(3);
    *cycles_until_next = 4;
}

/// SBC abs,X / abs,Y: 3 bytes, 4 cycles plus one when the indexed
/// address crosses a page.
pub fn sbc_absolute_reg(
    operand: u16,
    reg: u8,
    pc_reg: &mut u16,
    accumulator: &mut u8,
    status_flags: &mut u8,
    memory: &mut RAM,
    cycles_until_next: &mut u8,
)
    requires
        old(memory).wf(),
    ensures
        final(memory).wf(),
        sbc_outcome(
            *old(status_flags),
            *final(status_flags),
            *old(accumulator),
            spec_cpu_read(old(memory)@, u16_wadd(operand, reg as u16)),
            *final(accumulator),
        ),
        final(memory)@ == spec_cpu_read_model(old(memory)@, u16_wadd(operand, reg as u16)),
        *final(pc_reg) == u16_wadd(*old(pc_reg), 3),
        *final(cycles_until_next) == (if same_page(operand, u16_wadd(operand, reg as u16)) {
            4u8
        } else {
            5u8
        }),
{
    let addr = operand.wrapping_add(reg as u16);
    let value = memory.read_mem_value(addr);
    let r = sbc(*accumulator, value, *status_flags);
    *accumulator = r.0;
    *status_flags = r.1;
    *pc_reg = pc_reg.wrapping_add(3);
    *cycles_until_next = if (operand & 0xff00) != (addr & 0xff00) {
        5
    } else {
        4
    };
}

/// SBC (zp,X): the pointer is the zero-page byte plus X (wrapping in
/// the zero page) and is read with the page-wrap rule; 2 bytes, 6
/// cycles.
pub fn sbc_indexed_indirect(
    operand: u8,
    x_val: u8,
    pc_reg: &mut u16,
    accumulator: &mut u8,
    status_flags: &mut u8,
    memory: &mut RAM,
    cycles_until_next: &mut u8,
)
    requires
        old(memory).wf(),
    ensures
        final(memory).wf(),
        ({
            let ptr = u8_wadd(operand, x_val) as u16;
            let addr = spec_read16_wrap(old(memory)@, ptr);
            let m2 = spec_cpu_read_model(
                spec_cpu_read_model(old(memory)@, ptr),
                spec_page_wrap_next(ptr),
            );
            sbc_outcome(
                *old(status_flags),
                *final(status_flags),
                *old(accumulator),
                spec_cpu_read(m2, addr),
                *final(accumulator),
            ) && final(memory)@ == spec_cpu_read_model(m2, addr)
        }),
        *final(pc_reg) == u16_wadd(*old(pc_reg), 2),
        *final(cycles_until_next) == 6,
{
    let ptr = operand.wrapping_add(x_val) as u16;
    let addr = memory.read_mem_address_wrap(ptr);
    let value = memory.read_mem_value(addr);
    let r = sbc(*accumulator, value, *status_flags);
    *accumulator = r.0;
    *status_flags = r.1;
    *pc_reg = pc_reg.wrapping_add(2);
    *cycles_until_next = 6;
}

/// SBC (zp),Y: the zero-page byte names a pointer read with the
/// page-wrap rule, and Y indexes the result; 2 bytes, 5 cycles plus
/// one on a page cross.
pub fn sbc_indirect_indexed(
    operand: u8,
    y_val: u8,
    pc_reg: &mut u16,
    accumulator: &mut u8,
    status_flags: &mut u8,
    memory: &mut RAM,
    cycles_until_next: &mut u8,
)
    requires
        old(memory).wf(),
    ensures
        final(memory).wf(),
        ({
            let ptr = operand as u16;
            let base = spec_read16_wrap(old(memory)@, ptr);
            let addr = u16_wadd(base, y_val as u16);
            let m2 = spec_cpu_read_model(
                spec_cpu_read_model(old(memory)@, ptr),
                spec_page_wrap_next(ptr),
            );
            sbc_outcome(
                *old(status_flags),
                *final(status_flags),
                *old(accumulator),
                spec_cpu_read(m2, addr),
                *final(accumulator),
            ) && final(memory)@ == spec_cpu_read_model(m2, addr) && *final(cycles_until_next) == (
            if same_page(base, addr) {
                5u8
            } else {
                6u8
            })
        }),
        *final(pc_reg) == u16_wadd(*old(pc_reg), 2),
{
    let base = memory.read_mem_address_wrap(operand as u16);
    let addr = base.wrapping_add(y_val as u16);
    let value = memory.read_mem_value(addr);
    let r = sbc(*accumulator, value, *status_flags);
    *accumulator = r.0;
    *status_flags = r.1;
    *pc_reg = pc_reg.wrapping_add(2);
    *cycles_until_next = if (base & 0xff00) != (addr & 0xff00) {
        6
    } else {
        5
    };
}

} // verus!
