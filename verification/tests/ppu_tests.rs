use nes_core::memory::{PPUADDR, PPUCTRL, PPUDATA, PPUSTATUS, RAM};
use nes_core::ppu::PPU;

#[test]
fn ppu_tests() {
    let mut test_memory: RAM = RAM::new(1, 1, 0, 0);
    let mut ppu: PPU = PPU::default();

    // two PPUADDR writes latch $0102 as the VRAM address
    test_memory.write_mem_value(PPUADDR as u16, 0x01);
    ppu.run(&mut test_memory);
    test_memory.write_mem_value(PPUADDR as u16, 0x02);
    ppu.run(&mut test_memory);

    test_memory.write_mem_value(PPUDATA as u16, 255);
    ppu.run(&mut test_memory);
    let test_val = test_memory.read_vram_value(0x0102);
    ppu.run(&mut test_memory);
    assert_eq!(test_val, 255);

    test_memory.write_mem_value(PPUDATA as u16, 255);
    ppu.run(&mut test_memory);
    let test_val = test_memory.read_vram_value(0x0103);
    ppu.run(&mut test_memory);
    assert_eq!(test_val, 255);

    // the y increment mode: PPUCTRL bit 2 switches the step to 32
    let status = 0b00000100;
    test_memory.write_mem_value(PPUCTRL as u16, status);
    ppu.run(&mut test_memory);

    test_memory.write_mem_value(PPUDATA as u16, 255);
    ppu.run(&mut test_memory);
    let test_val = test_memory.read_vram_value(0x0104);
    ppu.run(&mut test_memory);
    assert_eq!(test_val, 255);
    test_memory.write_mem_value(PPUDATA as u16, 255);
    ppu.run(&mut test_memory);
    let test_val = test_memory.read_vram_value(0x0124);

    assert_eq!(test_val, 255);
}

#[test]
fn status_read_clears_address_latch() {
    let mut mem = RAM::new(1, 1, 0, 0);
    let mut ppu = PPU::default();
    // a first PPUADDR write arms the high-byte half of the latch
    mem.write_mem_value(PPUADDR as u16, 0x3F);
    ppu.run(&mut mem);
    // reading PPUSTATUS resets the shared write toggle
    mem.read_mem_value(PPUSTATUS as u16);
    ppu.run(&mut mem);
    // so the next write is a high byte again, and the one after it
    // completes the address
    mem.write_mem_value(PPUADDR as u16, 0x01);
    ppu.run(&mut mem);
    mem.write_mem_value(PPUADDR as u16, 0x05);
    ppu.run(&mut mem);
    mem.write_mem_value(PPUDATA as u16, 0x99);
    ppu.run(&mut mem);
    assert_eq!(mem.read_vram_value(0x0105), 0x99);
}

#[test]
fn scroll_writes_fill_the_loopy_temp() {
    let mut ppu = PPU::default();
    // first write: coarse-X and fine-X
    ppu.updatePpuScroll(0b10101_101);
    assert_eq!(ppu.t_addr & 0x1F, 0b10101);
    assert_eq!(ppu.fine_x, 0b101);
    assert!(ppu.write_toggle);
    // second write: coarse-Y and fine-Y
    ppu.updatePpuScroll(0b01101_011);
    assert_eq!((ppu.t_addr >> 5) & 0x1F, 0b01101);
    assert_eq!((ppu.t_addr >> 12) & 0x7, 0b011);
    assert!(!ppu.write_toggle);
    // PPUCTRL's nametable select lands in bits 10-11
    ppu.updatePpuCtrl(0b0000_0010);
    assert_eq!((ppu.t_addr >> 10) & 0x3, 2);
}

#[test]
fn vblank_timing() {
    let mut mem = RAM::new(1, 1, 0, 0);
    let mut ppu = PPU::default();
    ppu.updatePpuCtrl(0x80); // NMI enable
    // run from reset to scanline 241 dot 1 inclusive
    let mut nmi_count: u32 = 0;
    while !(ppu.scanline == 241 && ppu.dot == 2) {
        ppu.run(&mut mem);
        if ppu.take_nmi() {
            nmi_count += 1;
        }
    }
    assert!(ppu.can_scan_out());
    assert_eq!(nmi_count, 1);
    // the status byte the CPU reads has bit 7 set
    assert_ne!(mem.read_mem_value(PPUSTATUS as u16) & 0x80, 0);
    // consuming that read clears vblank and the latch
    ppu.run(&mut mem);
    assert!(!ppu.can_scan_out());
    assert_eq!(mem.read_mem_value(PPUSTATUS as u16) & 0x80, 0);
    // exactly one NMI per frame: none more until the next vblank raise
    let start_line = ppu.scanline;
    while !(ppu.scanline == 0 && ppu.dot == 0) {
        ppu.run(&mut mem);
        assert!(!ppu.take_nmi());
    }
    assert!(start_line >= 241);
    // vblank is clear at frame start
    assert!(!ppu.can_scan_out());
}

#[test]
fn frame_advances_and_wraps() {
    let mut mem = RAM::new(1, 1, 0, 0);
    let mut ppu = PPU::default();
    for _ in 0..(341 * 262) {
        ppu.run(&mut mem);
    }
    assert_eq!(ppu.scanline, 0);
    assert_eq!(ppu.dot, 0);
    assert!(ppu.take_frame_complete());
}

#[test]
fn framebuffer_is_always_full_size() {
    let ppu = PPU::default();
    assert_eq!(
        ppu.get_output_image().len(),
        nes_core::ppu::FRAME_WIDTH * nes_core::ppu::FRAME_HEIGHT
    );
}

#[test]
fn background_pixel_reaches_the_frame() {
    let mut mem = RAM::new(1, 1, 0, 0);
    let mut ppu = PPU::default();
    // tile 1, all-set low plane: pattern $0010..$0017 = $FF
    for row in 0..8usize {
        mem.write_vram_value(0x0010 + row, 0xFF);
    }
    // nametable entry (0,0) selects tile 1
    mem.write_vram_value(0x2000, 0x01);
    // palette: universal background dark, palette 0 colour 1 bright
    mem.write_vram_value(0x3F00, 0x00);
    mem.write_vram_value(0x3F01, 0x30);
    ppu.updatePpuMask(0x0A); // show background, left column included
    // run the first visible scanline
    while !(ppu.scanline == 0 && ppu.dot == 9) {
        ppu.run(&mut mem);
    }
    let frame = ppu.get_output_image();
    // pixel (0,0) is colour 1 of palette 0: palette byte $30, full grey
    assert_eq!(frame[0], (0xF0, 0xF0, 0xF0));
}

#[test]
fn left_column_mask_blanks_background() {
    let mut mem = RAM::new(1, 1, 0, 0);
    let mut ppu = PPU::default();
    for row in 0..8usize {
        mem.write_vram_value(0x0010 + row, 0xFF);
    }
    mem.write_vram_value(0x2000, 0x01);
    mem.write_vram_value(0x3F00, 0x00);
    mem.write_vram_value(0x3F01, 0x30);
    ppu.updatePpuMask(0x08); // show background, left 8 pixels masked
    while !(ppu.scanline == 0 && ppu.dot == 9) {
        ppu.run(&mut mem);
    }
    let frame = ppu.get_output_image();
    // the masked pixel falls back to the universal background colour
    assert_eq!(frame[0], (0x30, 0x30, 0x30));
}

#[test]
fn ppudata_palette_reads_bypass_the_buffer() {
    let mut mem = RAM::new(1, 1, 0, 0);
    let mut ppu = PPU::default();
    mem.write_vram_value(0x3F00, 0x17);
    mem.write_vram_value(0x3F01, 0x21);
    // latch $3F00 as the VRAM address
    mem.write_mem_value(PPUADDR as u16, 0x3F);
    ppu.run(&mut mem);
    mem.write_mem_value(PPUADDR as u16, 0x00);
    ppu.run(&mut mem);
    // the first read primes; the address steps to $3F01, still palette,
    // so the next read sees $3F01's byte with no one-read lag
    mem.read_mem_value(PPUDATA as u16);
    ppu.run(&mut mem);
    assert_eq!(mem.read_mem_value(PPUDATA as u16), 0x21);
}

#[test]
fn odd_frames_skip_one_pre_render_dot() {
    let mut mem = RAM::new(1, 1, 0, 0);
    let mut ppu = PPU::default();
    ppu.updatePpuMask(0x08); // rendering enabled
    // the first frame (even) is the full 89342 dots
    for _ in 0..89342 {
        ppu.run(&mut mem);
    }
    assert_eq!((ppu.scanline, ppu.dot), (0, 0));
    assert!(ppu.odd_frame);
    // the odd frame skips the last pre-render dot: 89341 dots
    for _ in 0..89341 {
        ppu.run(&mut mem);
    }
    assert_eq!((ppu.scanline, ppu.dot), (0, 0));
    assert!(!ppu.odd_frame);
}

#[test]
fn sprite_pixel_overlays_the_frame() {
    let mut mem = RAM::new(1, 1, 0, 0);
    let mut ppu = PPU::default();
    // sprite 0: y=0, tile 1, no flips, x=10
    mem.write_oam_byte(0, 0);
    mem.write_oam_byte(1, 0x01);
    mem.write_oam_byte(2, 0x00);
    mem.write_oam_byte(3, 10);
    for row in 0..8usize {
        mem.write_vram_value(0x0010 + row, 0xFF);
    }
    // sprite palette 0, colour 1
    mem.write_vram_value(0x3F11, 0x30);
    ppu.updatePpuMask(0x10); // show sprites only
    while !(ppu.scanline == 0 && ppu.dot == 20) {
        ppu.run(&mut mem);
    }
    let frame = ppu.get_output_image();
    assert_eq!(frame[10], (0xF0, 0xF0, 0xF0));
    // no background pixel, so no sprite-0 hit
    assert!(!ppu.sprite0_hit);
}
