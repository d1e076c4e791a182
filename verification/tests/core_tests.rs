use nes_core::nes::{Cartridge, Core, Mirroring, NesError};

fn flat_cart() -> Cartridge {
    Cartridge {
        prg_rom: vec![0u8; 0x4000],
        chr_rom: vec![0u8; 0x2000],
        mapper_id: 0,
        mirroring: Mirroring::Vertical,
    }
}

#[test]
fn unsupported_mapper_is_rejected() {
    let mut cart = flat_cart();
    cart.mapper_id = 4;
    match Core::new(cart) {
        Err(NesError::UnsupportedMapper) => {},
        _ => panic!("a non-zero mapper id must be rejected"),
    }
    let mut cart = flat_cart();
    cart.mirroring = Mirroring::FourScreen;
    match Core::new(cart) {
        Err(NesError::UnsupportedMapper) => {},
        _ => panic!("four-screen mirroring must be rejected"),
    }
}

#[test]
fn bad_cartridge_is_rejected() {
    let mut cart = flat_cart();
    cart.prg_rom = vec![0u8; 0x4000 + 1];
    match Core::new(cart) {
        Err(NesError::BadCartridge) => {},
        _ => panic!("a ragged PRG image must be rejected"),
    }
    let mut cart = flat_cart();
    cart.chr_rom = vec![0u8; 0x1000];
    match Core::new(cart) {
        Err(NesError::BadCartridge) => {},
        _ => panic!("a short CHR image must be rejected"),
    }
}

#[test]
fn step_frame_yields_a_full_frame() {
    // An all-zero PRG image: the reset vector points at $0000 and the
    // CPU grinds BRK loops while the PPU paints a frame.
    let core = Core::new(flat_cart());
    let mut core = match core {
        Ok(c) => c,
        Err(_) => panic!("a flat mapper-0 cartridge must construct"),
    };
    let frame = core.step_frame();
    assert_eq!(frame.len(), 256 * 240);
    // vblank is clear at the frame boundary
    assert!(!core.ppu.can_scan_out());
    // a second frame works the same way
    let frame2 = core.step_frame();
    assert_eq!(frame2.len(), 256 * 240);
}

#[test]
fn reset_latches_for_the_next_fetch() {
    let mut core = match Core::new(flat_cart()) {
        Ok(c) => c,
        Err(_) => panic!("a flat mapper-0 cartridge must construct"),
    };
    core.cpu.reset_pending = false;
    core.reset();
    assert!(core.cpu.reset_pending);
    let cycles = core.cpu.step(&mut core.mem);
    assert_eq!(cycles, 7);
    assert!(!core.cpu.reset_pending);
}

#[test]
fn two_prg_blocks_map_both_banks() {
    let mut prg = vec![0u8; 0x8000];
    prg[0] = 0x11;
    prg[0x4000] = 0x22;
    let cart = Cartridge {
        prg_rom: prg,
        chr_rom: vec![0u8; 0x2000],
        mapper_id: 0,
        mirroring: Mirroring::Horizontal,
    };
    let mut core = match Core::new(cart) {
        Ok(c) => c,
        Err(_) => panic!("a 32 KiB PRG image must construct"),
    };
    assert_eq!(core.mem.read_mem_value(0x8000), 0x11);
    assert_eq!(core.mem.read_mem_value(0xC000), 0x22);
}
