use nes_core::cpu::sub::{
    sbc_absolute, sbc_absolute_reg, sbc_immediate, sbc_indexed_indirect, sbc_indirect_indexed,
    sbc_zero_page, sbc_zero_page_x,
};
use nes_core::cpu::Cpu;
use nes_core::memory::RAM;

fn fresh_cpu() -> Cpu {
    let mut cpu = Cpu::new();
    cpu.reset_pending = false;
    cpu
}

#[test]
fn sub_tests() {
    let mut pc_reg: u16 = 0;
    let mut accumulator: u8 = 12;
    let mut status: u8 = 0;
    let mut test_memory: RAM = RAM::new(1, 1, 0, 0);
    let mut cycles: u8 = 0;

    for i in 0..2048u16 {
        test_memory.write_mem_value(i, (i * 2) as u8);
    }

    sbc_immediate(2, &mut pc_reg, &mut accumulator, &mut status, &mut cycles);

    assert_eq!(pc_reg, 2);
    assert_eq!(accumulator, 9);
    // 12 - 2 - 1 = 9 leaves no borrow, so the carry flag is set.
    assert_eq!(status, 1);

    status = 1;
    accumulator = 12;
    sbc_immediate(2, &mut pc_reg, &mut accumulator, &mut status, &mut cycles);

    assert_eq!(pc_reg, 4);
    assert_eq!(accumulator, 10);
}

#[test]
fn sbc_memory_modes() {
    let mut mem = RAM::new(1, 1, 0, 0);
    // ram[i] = i for the first page
    for i in 0..256u16 {
        mem.write_mem_value(i, i as u8);
    }
    let mut pc: u16 = 0;
    let mut a: u8 = 100;
    let mut p: u8 = 1; // carry set: plain subtraction
    let mut cycles: u8 = 0;

    // zero page: the operand byte names the address, so ram[30] = 30
    sbc_zero_page(30, &mut pc, &mut a, &mut p, &mut mem, &mut cycles);
    assert_eq!(a, 70);
    assert_eq!(cycles, 3);
    assert_eq!(pc, 2);

    // zero page,X: address (20 + 5) & 0xFF = 25
    a = 100;
    p = 1;
    sbc_zero_page_x(20, 5, &mut pc, &mut a, &mut p, &mut mem, &mut cycles);
    assert_eq!(a, 75);
    assert_eq!(cycles, 4);

    // absolute
    a = 100;
    p = 1;
    sbc_absolute(40, &mut pc, &mut a, &mut p, &mut mem, &mut cycles);
    assert_eq!(a, 60);
    assert_eq!(cycles, 4);

    // absolute indexed, no page cross
    a = 100;
    p = 1;
    sbc_absolute_reg(40, 2, &mut pc, &mut a, &mut p, &mut mem, &mut cycles);
    assert_eq!(a, 58);
    assert_eq!(cycles, 4);

    // absolute indexed with a page cross costs one more cycle
    a = 100;
    p = 1;
    mem.write_mem_value(0x0105, 1);
    sbc_absolute_reg(0x00FF, 6, &mut pc, &mut a, &mut p, &mut mem, &mut cycles);
    assert_eq!(a, 99);
    assert_eq!(cycles, 5);

    // (zp,X): the pointer lives at (0x10 + 0x10) = 0x20; plant $0030
    // there and the operand value at $0030
    mem.write_mem_value(0x20, 0x30);
    mem.write_mem_value(0x21, 0x00);
    mem.write_mem_value(0x30, 7);
    a = 100;
    p = 1;
    sbc_indexed_indirect(0x10, 0x10, &mut pc, &mut a, &mut p, &mut mem, &mut cycles);
    assert_eq!(a, 93);
    assert_eq!(cycles, 6);

    // (zp),Y: pointer at 0x20 -> $0030, plus Y=4 -> $0034
    mem.write_mem_value(0x34, 9);
    a = 100;
    p = 1;
    sbc_indirect_indexed(0x20, 4, &mut pc, &mut a, &mut p, &mut mem, &mut cycles);
    assert_eq!(a, 91);
    assert_eq!(cycles, 5);
}

#[test]
fn lda_immediate_zero_flag() {
    let mut mem = RAM::new(1, 1, 0, 0);
    mem.write_mem_value(0x0000, 0xA9);
    mem.write_mem_value(0x0001, 0x00);
    let mut cpu = fresh_cpu();
    cpu.a = 0x55;
    let cycles = cpu.step(&mut mem);
    assert_eq!(cpu.a, 0);
    assert_ne!(cpu.p & 0x02, 0); // Z set
    assert_eq!(cpu.p & 0x80, 0); // N clear
    assert_eq!(cpu.pc, 0x0002);
    assert_eq!(cycles, 2);
}

#[test]
fn adc_with_overflow() {
    let mut mem = RAM::new(1, 1, 0, 0);
    mem.write_mem_value(0x0000, 0x69); // ADC #$50
    mem.write_mem_value(0x0001, 0x50);
    let mut cpu = fresh_cpu();
    cpu.a = 0x50;
    cpu.p = 0; // C clear
    let cycles = cpu.step(&mut mem);
    assert_eq!(cpu.a, 0xA0);
    assert_ne!(cpu.p & 0x80, 0); // N
    assert_ne!(cpu.p & 0x40, 0); // V
    assert_eq!(cpu.p & 0x01, 0); // C
    assert_eq!(cpu.p & 0x02, 0); // Z
    assert_eq!(cycles, 2);
}

#[test]
fn sbc_borrow() {
    let mut mem = RAM::new(1, 1, 0, 0);
    mem.write_mem_value(0x0000, 0xE9); // SBC #$F0
    mem.write_mem_value(0x0001, 0xF0);
    let mut cpu = fresh_cpu();
    cpu.a = 0x50;
    cpu.p = 0x01; // C set
    let cycles = cpu.step(&mut mem);
    assert_eq!(cpu.a, 0x60);
    assert_eq!(cpu.p & 0x01, 0); // C clear: a borrow happened
    assert_eq!(cpu.p & 0x80, 0); // N clear
    // By V = (~(A^op) & (A^result)) & 0x80 with op = $F0 ^ $FF = $0F:
    // +80 - (-16) = +96 fits in a signed byte, so V is clear.
    assert_eq!(cpu.p & 0x40, 0);
    assert_eq!(cycles, 2);
}

#[test]
fn jsr_rts_roundtrip() {
    let mut mem = RAM::new(1, 1, 0, 0);
    mem.write_mem_value(0x0600, 0x20); // JSR $1234
    mem.write_mem_value(0x0601, 0x34);
    mem.write_mem_value(0x0602, 0x12);
    mem.write_mem_value(0x1234, 0x60); // RTS
    let mut cpu = fresh_cpu();
    cpu.pc = 0x0600;
    cpu.s = 0xFD;
    let c1 = cpu.step(&mut mem);
    assert_eq!(cpu.pc, 0x1234);
    assert_eq!(c1, 6);
    // stack top two bytes: high $06 then low $02 (PC+2)
    assert_eq!(mem.read_mem_value(0x01FD), 0x06);
    assert_eq!(mem.read_mem_value(0x01FC), 0x02);
    assert_eq!(cpu.s, 0xFB);
    let c2 = cpu.step(&mut mem);
    assert_eq!(cpu.pc, 0x0603);
    assert_eq!(c2, 6);
    assert_eq!(cpu.s, 0xFD);
}

#[test]
fn branch_page_cross() {
    let mut mem = RAM::new(1, 1, 0, 0);
    mem.write_mem_value(0x00FD, 0xD0); // BNE +2
    mem.write_mem_value(0x00FE, 0x02);
    let mut cpu = fresh_cpu();
    cpu.pc = 0x00FD;
    cpu.p = 0; // Z clear: taken
    let cycles = cpu.step(&mut mem);
    assert_eq!(cpu.pc, 0x0101);
    assert_eq!(cycles, 4); // 2 base + 1 taken + 1 page cross
}

#[test]
fn branch_not_taken_two_cycles() {
    let mut mem = RAM::new(1, 1, 0, 0);
    mem.write_mem_value(0x0000, 0xD0); // BNE +2 with Z set
    mem.write_mem_value(0x0001, 0x02);
    let mut cpu = fresh_cpu();
    cpu.p = 0x02;
    let cycles = cpu.step(&mut mem);
    assert_eq!(cpu.pc, 0x0002);
    assert_eq!(cycles, 2);
}

#[test]
fn jmp_indirect_page_wrap() {
    // The literal scenario: $30FF=$40, $3000=$80; JMP ($30FF) lands at
    // $8040 because the high pointer byte is fetched from $3000.
    let mut mem = RAM::new(1, 1, 0, 0);
    mem.write_mem_value(0x30FF, 0x40);
    mem.write_mem_value(0x3000, 0x80);
    mem.write_mem_value(0x0000, 0x6C); // JMP ($30FF)
    mem.write_mem_value(0x0001, 0xFF);
    mem.write_mem_value(0x0002, 0x30);
    let mut cpu = fresh_cpu();
    let cycles = cpu.step(&mut mem);
    assert_eq!(cpu.pc, 0x8040);
    assert_eq!(cycles, 5);

    // A RAM-backed variant where the wrap is observable: without the
    // bug the high byte would come from $0300 instead of $0200.
    let mut mem2 = RAM::new(1, 1, 0, 0);
    mem2.write_mem_value(0x02FF, 0x40);
    mem2.write_mem_value(0x0200, 0x80);
    mem2.write_mem_value(0x0300, 0x55);
    mem2.write_mem_value(0x0000, 0x6C); // JMP ($02FF)
    mem2.write_mem_value(0x0001, 0xFF);
    mem2.write_mem_value(0x0002, 0x02);
    let mut cpu2 = fresh_cpu();
    cpu2.step(&mut mem2);
    assert_eq!(cpu2.pc, 0x8040);
}

#[test]
fn adc_commutes_concrete() {
    for &(a, m, c) in &[(0x12u8, 0x34u8, false), (0x80, 0x80, true), (0xFF, 0x01, true)] {
        let p0 = if c { 1u8 } else { 0u8 };
        let r1 = nes_core::alu::adc(a, m, p0);
        let r2 = nes_core::alu::adc(m, a, p0);
        assert_eq!(r1.0, r2.0);
        assert_eq!(r1.1, r2.1);
    }
}

#[test]
fn sbc_equals_adc_of_complement_concrete() {
    for &(a, m, c) in &[(0x50u8, 0xF0u8, true), (0x00, 0x01, false), (0xC9, 0x40, true)] {
        let p0 = if c { 1u8 } else { 0u8 };
        let r1 = nes_core::alu::sbc(a, m, p0);
        let r2 = nes_core::alu::adc(a, m ^ 0xFF, p0);
        assert_eq!(r1.0, r2.0);
        assert_eq!(r1.1, r2.1);
    }
}

#[test]
fn zero_and_negative_track_results() {
    // Z iff the result byte is zero, N iff its bit 7 is set, after a
    // load, an arithmetic and a logic instruction.
    let mut mem = RAM::new(1, 1, 0, 0);
    mem.write_mem_value(0x0000, 0xA2); // LDX #$80
    mem.write_mem_value(0x0001, 0x80);
    mem.write_mem_value(0x0002, 0x29); // AND #$00
    mem.write_mem_value(0x0003, 0x00);
    let mut cpu = fresh_cpu();
    cpu.a = 0xFF;
    cpu.step(&mut mem);
    assert_ne!(cpu.p & 0x80, 0);
    assert_eq!(cpu.p & 0x02, 0);
    cpu.step(&mut mem);
    assert_eq!(cpu.a, 0);
    assert_ne!(cpu.p & 0x02, 0);
    assert_eq!(cpu.p & 0x80, 0);
}

#[test]
fn illegal_opcode_is_nop() {
    let mut mem = RAM::new(1, 1, 0, 0);
    mem.write_mem_value(0x0000, 0x02); // unassigned opcode byte
    let mut cpu = fresh_cpu();
    let cycles = cpu.step(&mut mem);
    assert_eq!(cycles, 2);
    assert_eq!(cpu.pc, 1);
}

#[test]
fn interrupt_service_order_and_vectors() {
    let mut mem = RAM::new(1, 1, 0, 0);
    let mut cpu = Cpu::new();
    // RESET is pending at power-up and vectors through $FFFC/D (ROM,
    // zero here), taking 7 cycles and decrementing S by 3.
    let cycles = cpu.step(&mut mem);
    assert_eq!(cycles, 7);
    assert_eq!(cpu.s, 0xFA);
    assert_ne!(cpu.p & 0x04, 0); // I set
    // An NMI pushes PC and P and loads $FFFA/B.
    cpu.pc = 0x0400;
    cpu.request_nmi();
    let cycles = cpu.step(&mut mem);
    assert_eq!(cycles, 7);
    assert_eq!(mem.read_mem_value(0x01FA), 0x04); // pushed PC high
    assert_eq!(mem.read_mem_value(0x01F9), 0x00); // pushed PC low
}

#[test]
fn asl_memory_read_modify_write() {
    let mut mem = RAM::new(1, 1, 0, 0);
    mem.write_mem_value(0x0000, 0x0E); // ASL $0040
    mem.write_mem_value(0x0001, 0x40);
    mem.write_mem_value(0x0002, 0x00);
    mem.write_mem_value(0x0040, 0b1100_0001);
    let mut cpu = fresh_cpu();
    let cycles = cpu.step(&mut mem);
    assert_eq!(mem.read_mem_value(0x0040), 0b1000_0010);
    assert_ne!(cpu.p & 0x01, 0); // carry took bit 7
    assert_ne!(cpu.p & 0x80, 0); // N from the result
    assert_eq!(cycles, 6);
    assert_eq!(cpu.pc, 3);
}

#[test]
fn php_plp_keep_the_stored_b_flag() {
    let mut mem = RAM::new(1, 1, 0, 0);
    mem.write_mem_value(0x0000, 0x08); // PHP
    mem.write_mem_value(0x0001, 0x28); // PLP
    let mut cpu = fresh_cpu();
    cpu.s = 0xFD;
    cpu.p = 0b1100_0001; // N, V, C; B clear in the register
    cpu.step(&mut mem);
    // the pushed copy carries B and bit 5 set
    assert_eq!(mem.read_mem_value(0x01FD), 0b1111_0001);
    cpu.step(&mut mem);
    // the pull forces bit 5 and leaves the stored B alone
    assert_eq!(cpu.p, 0b1110_0001);
    assert_eq!(cpu.s, 0xFD);
}

#[test]
fn compare_sets_carry_on_greater_or_equal() {
    let mut mem = RAM::new(1, 1, 0, 0);
    mem.write_mem_value(0x0000, 0xC9); // CMP #$30
    mem.write_mem_value(0x0001, 0x30);
    let mut cpu = fresh_cpu();
    cpu.a = 0x30;
    cpu.step(&mut mem);
    assert_ne!(cpu.p & 0x01, 0); // C: a >= operand
    assert_ne!(cpu.p & 0x02, 0); // Z: equal
    let mut cpu2 = fresh_cpu();
    cpu2.pc = 0;
    cpu2.a = 0x10;
    cpu2.step(&mut mem);
    assert_eq!(cpu2.p & 0x01, 0); // C clear: a < operand
    assert_ne!(cpu2.p & 0x80, 0); // N from $10 - $30 = $E0
}

#[test]
fn bit_copies_operand_high_bits() {
    let mut mem = RAM::new(1, 1, 0, 0);
    mem.write_mem_value(0x0000, 0x24); // BIT $40
    mem.write_mem_value(0x0001, 0x40);
    mem.write_mem_value(0x0040, 0b1100_0000);
    let mut cpu = fresh_cpu();
    cpu.a = 0b0011_1111;
    cpu.step(&mut mem);
    assert_ne!(cpu.p & 0x80, 0); // N from operand bit 7
    assert_ne!(cpu.p & 0x40, 0); // V from operand bit 6
    assert_ne!(cpu.p & 0x02, 0); // Z: A & operand == 0
}

#[test]
fn rti_restores_flags_and_pc() {
    let mut mem = RAM::new(1, 1, 0, 0);
    let mut cpu = fresh_cpu();
    cpu.s = 0xFD;
    // hand-build an interrupt frame: PC $1234, P with C and Z
    mem.push_address_on_stack(&mut cpu.s, 0x1234);
    mem.push_value_on_stack(&mut cpu.s, 0b0000_0011);
    mem.write_mem_value(0x0000, 0x40); // RTI
    let cycles = cpu.step(&mut mem);
    assert_eq!(cpu.pc, 0x1234);
    assert_ne!(cpu.p & 0x01, 0);
    assert_ne!(cpu.p & 0x02, 0);
    assert_ne!(cpu.p & 0x20, 0); // bit 5 forced on any pull
    assert_eq!(cycles, 6);
    assert_eq!(cpu.s, 0xFD);
}

#[test]
fn transfers_and_increments() {
    let mut mem = RAM::new(1, 1, 0, 0);
    mem.write_mem_value(0x0000, 0xAA); // TAX
    mem.write_mem_value(0x0001, 0xE8); // INX
    mem.write_mem_value(0x0002, 0xCA); // DEX
    let mut cpu = fresh_cpu();
    cpu.a = 0xFF;
    cpu.step(&mut mem);
    assert_eq!(cpu.x, 0xFF);
    assert_ne!(cpu.p & 0x80, 0);
    cpu.step(&mut mem);
    assert_eq!(cpu.x, 0x00); // wraps
    assert_ne!(cpu.p & 0x02, 0);
    cpu.step(&mut mem);
    assert_eq!(cpu.x, 0xFF);
}
