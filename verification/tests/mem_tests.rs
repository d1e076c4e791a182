use nes_core::memory::{swap_bytes, RAM};

#[test]
fn mem_tests() {
    let mut test_memory: RAM = RAM::new(1, 1, 0, 0);
    let mut stack_ptr: u8 = 0xFD;

    for i in 0..2048u16 {
        test_memory.write_mem_value(i, i as u8);
    }

    let new_bytes = swap_bytes(0x1FF1);
    assert_eq!(new_bytes, 0xF11F);

    let value = test_memory.read_mem_value(18);
    assert_eq!(value, 18);

    test_memory.write_mem_value(0x10, 128);
    let value = test_memory.read_mem_value(0x10);
    assert_eq!(value, 128);

    let address = test_memory.read_mem_address(0x4);
    assert_eq!(address, 0x504);

    test_memory.write_mem_address(0x20, 0x3FFF);
    let new_address = test_memory.read_mem_address(0x20);
    assert_eq!(new_address, 0x3FFF);

    test_memory.push_address_on_stack(&mut stack_ptr, 0x286);
    assert_eq!(stack_ptr, 0xFB);

    let stack_addr = test_memory.pop_address_off_stack(&mut stack_ptr);
    assert_eq!(stack_ptr, 0xFD);
    assert_eq!(stack_addr, 0x286);

    test_memory.push_value_on_stack(&mut stack_ptr, 0x86);
    assert_eq!(stack_ptr, 0xFC);

    let stack_val = test_memory.pop_value_off_stack(&mut stack_ptr);
    assert_eq!(stack_val, 0x86);
    assert_eq!(stack_ptr, 0xFD);
}

#[test]
fn ram_mirrors() {
    // read8(a) == read8(a + k*0x800) for k in 1..=3
    let mut mem = RAM::new(1, 1, 0, 0);
    mem.write_mem_value(0x0010, 128);
    assert_eq!(mem.read_mem_value(0x0810), 128);
    assert_eq!(mem.read_mem_value(0x1010), 128);
    assert_eq!(mem.read_mem_value(0x1810), 128);
    // and a write through a mirror lands in the same cell
    mem.write_mem_value(0x1FF1, 77);
    assert_eq!(mem.read_mem_value(0x07F1), 77);
}

#[test]
fn ppu_register_mirrors() {
    // read/write($2000 + 8k + r) acts as read/write($2000 + r)
    let mut mem = RAM::new(1, 1, 0, 0);
    mem.write_mem_value(0x2000 + 8 * 5 + 3, 0xAB);
    assert_eq!(mem.read_mem_value(0x2003), 0xAB);
    mem.write_mem_value(0x2006, 0xCD);
    assert_eq!(mem.read_mem_value(0x2000 + 8 * 100 + 6), 0xCD);
}

#[test]
fn stack_wraps_silently() {
    let mut mem = RAM::new(1, 1, 0, 0);
    let mut sp: u8 = 0x00;
    mem.push_value_on_stack(&mut sp, 0x42);
    assert_eq!(sp, 0xFF);
    let v = mem.pop_value_off_stack(&mut sp);
    assert_eq!(v, 0x42);
    assert_eq!(sp, 0x00);
}

#[test]
fn oam_dma_copies_a_translated_page() {
    let mut mem = RAM::new(1, 1, 0, 0);
    for i in 0..256u16 {
        mem.write_mem_value(0x0200 + i, (i as u8).wrapping_mul(3));
    }
    // the DMA source address goes through full CPU translation, so a
    // mirrored page works too: $0A00 mirrors $0200
    mem.write_mem_value(0x4014, 0x0A);
    for i in 0..256usize {
        assert_eq!(mem.read_oam_byte(i), (i as u8).wrapping_mul(3));
    }
    // the write left a stall of 513 (even) or 514 (odd) CPU cycles
    let stall = mem.take_dma_stall(true);
    assert_eq!(stall, 513);
    assert_eq!(mem.take_dma_stall(true), 0);
}

#[test]
fn rom_banks_and_ignored_writes() {
    let mut mem = RAM::new(1, 1, 0, 0);
    let mut prg = vec![0u8; 0x4000];
    prg[0] = 0x11;
    prg[0x3FFF] = 0x22;
    let chr = vec![0u8; 0x2000];
    mem.load_images(&prg, &chr);
    assert_eq!(mem.read_mem_value(0x8000), 0x11);
    assert_eq!(mem.read_mem_value(0xBFFF), 0x22);
    // one PRG block: the upper bank mirrors the lower
    assert_eq!(mem.read_mem_value(0xC000), 0x11);
    assert_eq!(mem.read_mem_value(0xFFFF), 0x22);
    // writes to ROM are ignored
    mem.write_mem_value(0x8000, 0x99);
    assert_eq!(mem.read_mem_value(0x8000), 0x11);
}

#[test]
fn open_bus_returns_last_byte() {
    let mut mem = RAM::new(1, 1, 0, 0);
    mem.write_mem_value(0x0000, 0x5A);
    let v = mem.read_mem_value(0x0000);
    assert_eq!(v, 0x5A);
    // $4018-$7FFF is unmapped: the read returns the last bus byte
    assert_eq!(mem.read_mem_value(0x5000), 0x5A);
}

#[test]
fn read16_wrap_stays_in_page() {
    let mut mem = RAM::new(1, 1, 0, 0);
    mem.write_mem_value(0x02FF, 0x40);
    mem.write_mem_value(0x0200, 0x80);
    mem.write_mem_value(0x0300, 0x55);
    assert_eq!(mem.read_mem_address_wrap(0x02FF), 0x8040);
    assert_eq!(mem.read_mem_address(0x02FF), 0x5540);
}

#[test]
fn vram_nametable_mirroring() {
    // horizontal (mirror 0): {0,1} share a bank, {2,3} share the other
    let mut h = RAM::new(1, 1, 0, 0);
    h.write_vram_value(0x2005, 0xAA);
    assert_eq!(h.read_vram_value(0x2405), 0xAA);
    assert_eq!(h.read_vram_value(0x2805), 0x00);
    h.write_vram_value(0x2C07, 0xBB);
    assert_eq!(h.read_vram_value(0x2807), 0xBB);
    // vertical (mirror 1): {0,2} share, {1,3} share
    let mut v = RAM::new(1, 1, 0, 1);
    v.write_vram_value(0x2005, 0xCC);
    assert_eq!(v.read_vram_value(0x2805), 0xCC);
    assert_eq!(v.read_vram_value(0x2405), 0x00);
    // $3000-$3EFF mirrors $2000-$2EFF
    assert_eq!(v.read_vram_value(0x3005), 0xCC);
}

#[test]
fn palette_mirrors_and_aliases() {
    let mut mem = RAM::new(1, 1, 0, 0);
    mem.write_vram_value(0x3F00, 0x21);
    // $3F20 mirrors $3F00 (mod $20)
    assert_eq!(mem.read_vram_value(0x3F20), 0x21);
    // $3F10 aliases the universal background at $3F00
    assert_eq!(mem.read_vram_value(0x3F10), 0x21);
    mem.write_vram_value(0x3F14, 0x17);
    assert_eq!(mem.read_vram_value(0x3F04), 0x17);
}
