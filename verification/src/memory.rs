//! The memory bus: 2 KiB internal RAM with three mirrors, PRG-ROM under
//! the fixed mapper, the eight PPU registers with their mirrors, OAM and
//! its DMA port, and the PPU-side 14-bit VRAM space with nametable and
//! palette mirroring. Reads of unmapped addresses return the open-bus
//! value; writes to ROM are ignored.

use vstd::prelude::*;
use crate::alu::{wrap_dec8, wrap_inc8};

verus! {

pub const RAM_SIZE: usize = 0x800;
pub const VRAM_SIZE: usize = 0x800;
pub const ROM_BLOCK_SIZE: usize = 0x4000;
pub const CHR_BLOCK_SIZE: usize = 0x2000;
pub const STACK_START: u16 = 0x100;

pub const PPUCTRL: usize = 0x2000;
pub const PPUMASK: usize = 0x2001;
pub const PPUSTATUS: usize = 0x2002;
pub const OAMADDR: usize = 0x2003;
pub const OAMDATA: usize = 0x2004;
pub const PPUSCROLL: usize = 0x2005;
pub const PPUADDR: usize = 0x2006;
pub const PPUDATA: usize = 0x2007;
pub const OAM_DMA: usize = 0x4014;

/// Mathematical model of everything the bus owns.
#[verifier::ext_equal]
pub ghost struct MemModel {
    pub ram: Seq<u8>,
    pub rom: Seq<u8>,
    pub vram: Seq<u8>,
    pub chr: Seq<u8>,
    pub regs: Seq<u8>,
    pub reg_read: Seq<u8>,
    pub reg_write: Seq<u8>,
    pub oam: Seq<u8>,
    pub palette: Seq<u8>,
    pub open_bus: u8,
    pub dma_pending: bool,
    pub prg_blocks: int,
    pub chr_blocks: int,
    pub mapper: u8,
    pub mirror: u8,
}

impl MemModel {
    pub open spec fn inv(self) -> bool {
        &&& self.ram.len() == 0x800
        &&& self.vram.len() == 0x800
        &&& self.regs.len() == 8
        &&& self.reg_read.len() == 8
        &&& self.reg_write.len() == 8
        &&& self.oam.len() == 256
        &&& self.palette.len() == 32
        &&& (self.prg_blocks == 1 || self.prg_blocks == 2)
        &&& self.rom.len() == self.prg_blocks * 0x4000
        &&& 1 <= self.chr_blocks <= 255
        &&& self.chr.len() == self.chr_blocks * 0x2000
        &&& self.mapper == 0
    }
}

/// Index into PRG-ROM for a CPU address in $8000-$FFFF under mapper 0:
/// with one 16 KiB block the upper bank mirrors the lower.
pub open spec fn spec_rom_index(m: MemModel, addr: u16) -> int {
    if m.prg_blocks == 2 {
        addr - 0x8000
    } else if addr < 0xc000 {
        addr - 0x8000
    } else {
        addr - 0xc000
    }
}

/// The byte a CPU-space read returns: RAM under mirroring, a PPU
/// register under mod-8 mirroring, open bus for the APU/unmapped hole,
/// PRG-ROM above $8000.
pub open spec fn spec_cpu_read(m: MemModel, addr: u16) -> u8 {
    if addr < 0x2000 {
        m.ram[addr as int % 0x800]
    } else if addr < 0x4000 {
        m.regs[(addr - 0x2000) as int % 8]
    } else if addr < 0x8000 {
        m.open_bus
    } else {
        m.rom[spec_rom_index(m, addr)]
    }
}

/// The whole-bus effect of a CPU-space read: the byte crosses the bus
/// (open bus), and a touched PPU register is recorded for the PPU.
pub open spec fn spec_cpu_read_model(m: MemModel, addr: u16) -> MemModel {
    let m1 = MemModel { open_bus: spec_cpu_read(m, addr), ..m };
    if 0x2000 <= addr && addr < 0x4000 {
        MemModel { reg_read: m.reg_read.update((addr - 0x2000) as int % 8, 1u8), ..m1 }
    } else {
        m1
    }
}

/// One byte of the 256-byte OAM DMA copy: the source goes through the
/// full CPU address map, so a mirrored page works as a source too.
pub open spec fn spec_dma_byte(m: MemModel, page: u8, i: int) -> u8 {
    spec_cpu_read(m, (page * 256 + i) as u16)
}

/// The whole-bus effect of a CPU-space write: RAM under mirroring, a
/// PPU register (recorded for the PPU), the OAM DMA page copy at $4014;
/// writes to ROM and to the APU/unmapped hole are ignored. Every write
/// drives the bus, so the open-bus value becomes the written byte.
pub open spec fn spec_cpu_write_model(m: MemModel, addr: u16, v: u8) -> MemModel {
    let m0 = MemModel { open_bus: v, ..m };
    if addr < 0x2000 {
        MemModel { ram: m.ram.update(addr as int % 0x800, v), ..m0 }
    } else if addr < 0x4000 {
        MemModel {
            regs: m.regs.update((addr - 0x2000) as int % 8, v),
            reg_write: m.reg_write.update((addr - 0x2000) as int % 8, 1u8),
            ..m0
        }
    } else if addr == 0x4014 {
        MemModel {
            oam: Seq::new(256, |i: int| spec_dma_byte(m, v, i)),
            dma_pending: true,
            ..m0
        }
    } else {
        m0
    }
}

/// Which of the two physical nametable banks a logical nametable maps
/// to: horizontal mirroring (`mirror == 0`) pairs {0,1} and {2,3},
/// vertical pairs {0,2} and {1,3}.
pub open spec fn nt_bank(mirror: u8, nt: int) -> int {
    if mirror == 0 {
        if nt < 2 {
            0
        } else {
            1
        }
    } else {
        nt % 2
    }
}

/// Index into the 2 KiB of physical nametable RAM for a VRAM address in
/// $2000-$3EFF (the $3000 mirror included).
pub open spec fn spec_nt_index(m: MemModel, a: int) -> int {
    let na = (a - 0x2000) % 0x1000;
    nt_bank(m.mirror, na / 0x400) * 0x400 + na % 0x400
}

/// Palette index under the $20-byte mirror and the universal-background
/// aliases $3F10/$3F14/$3F18/$3F1C -> $3F00/$3F04/$3F08/$3F0C.
pub open spec fn spec_pal_index(a: int) -> int {
    let i = (a - 0x3f00) % 0x20;
    if i == 0x10 || i == 0x14 || i == 0x18 || i == 0x1c {
        i - 0x10
    } else {
        i
    }
}

/// The byte a PPU-space (14-bit) read returns, for `a` already reduced
/// modulo $4000.
pub open spec fn spec_vram_read(m: MemModel, a: int) -> u8 {
    if a < 0x2000 {
        m.chr[a]
    } else if a < 0x3f00 {
        m.vram[spec_nt_index(m, a)]
    } else {
        m.palette[spec_pal_index(a)]
    }
}

/// The effect of a PPU-space write, for `a` already reduced modulo
/// $4000. Pattern-table writes go to CHR storage (CHR-RAM boards).
pub open spec fn spec_vram_write_model(m: MemModel, a: int, v: u8) -> MemModel {
    if a < 0x2000 {
        MemModel { chr: m.chr.update(a, v), ..m }
    } else if a < 0x3f00 {
        MemModel { vram: m.vram.update(spec_nt_index(m, a), v), ..m }
    } else {
        MemModel { palette: m.palette.update(spec_pal_index(a), v), ..m }
    }
}

/// Little-endian assembly of two bytes.
pub open spec fn le16(lo: u8, hi: u8) -> u16 {
    (hi * 256 + lo) as u16
}

pub open spec fn lo8(w: u16) -> u8 {
    (w & 0xff) as u8
}

pub open spec fn hi8(w: u16) -> u8 {
    (w >> 8) as u8
}

pub open spec fn wrap_inc16(a: u16) -> u16 {
    if a == 0xffff { 0 } else { (a + 1) as u16 }
}

/// The 6502 page-wrap companion of `a`: same page, low byte
/// incremented modulo 256.
pub open spec fn spec_page_wrap_next(a: u16) -> u16 {
    (a & 0xff00) | ((wrap_inc16(a)) & 0x00ff)
}

/// The value a plain 16-bit read returns: low byte at `addr`, high byte
/// at `addr + 1` (wrapping at the top of the address space).
pub open spec fn spec_read16(m: MemModel, addr: u16) -> u16 {
    le16(spec_cpu_read(m, addr), spec_cpu_read(spec_cpu_read_model(m, addr), wrap_inc16(addr)))
}

/// The value the page-wrapping 16-bit read returns: the high byte comes
/// from `(addr & $FF00) | ((addr + 1) & $FF)`, reproducing the 6502
/// indirect-JMP page-wrap bug.
pub open spec fn spec_read16_wrap(m: MemModel, addr: u16) -> u16 {
    le16(
        spec_cpu_read(m, addr),
        spec_cpu_read(spec_cpu_read_model(m, addr), spec_page_wrap_next(addr)),
    )
}

pub proof fn lemma_le16_shift(lo: u8, hi: u8)
    by (bit_vector)
    ensures
        ((hi as u16) << 8) | (lo as u16) == (hi as u16) * 256 + (lo as u16),
        (hi as u16) * 256 + (lo as u16) < 0x10000,
{
}

/// Splitting a word into bytes and reassembling them is the identity.
pub proof fn lemma_split16(w: u16)
    by (bit_vector)
    ensures
        (w >> 8) < 256,
        (w & 0xff) < 256,
        ((w >> 8) as u16) * 256 + ((w & 0xff) as u16) == w,
        w & 0xff == w % 256,
{
}

/// RAM mirror law: any address in $0800-$1FFF reads the same byte as
/// its image under masking with $07FF.
pub proof fn lemma_ram_mirror(m: MemModel, a: u16, k: u16)
    requires
        m.inv(),
        a < 0x800,
        1 <= k <= 3,
    ensures
        spec_cpu_read(m, (a + k * 0x800) as u16) == spec_cpu_read(m, a),
{
    if k == 1 {
        assert((a + 0x800) % 0x800 == a as int % 0x800);
    } else if k == 2 {
        assert((a + 2 * 0x800) % 0x800 == a as int % 0x800);
    } else {
        assert((a + 3 * 0x800) % 0x800 == a as int % 0x800);
    }
    assert(a as int % 0x800 == a);
}

/// PPU register mirror law: reads of and writes to $2000 + 8k + r act
/// exactly as reads of and writes to $2000 + r.
pub proof fn lemma_ppu_reg_mirror(m: MemModel, k: u16, r: u16, v: u8)
    requires
        m.inv(),
        r < 8,
        0x2000 + 8 * k + r < 0x4000,
    ensures
        spec_cpu_read(m, (0x2000 + 8 * k + r) as u16) == spec_cpu_read(m, (0x2000 + r) as u16),
        spec_cpu_write_model(m, (0x2000 + 8 * k + r) as u16, v) == spec_cpu_write_model(
            m,
            (0x2000 + r) as u16,
            v,
        ),
        spec_cpu_read_model(m, (0x2000 + 8 * k + r) as u16) == spec_cpu_read_model(
            m,
            (0x2000 + r) as u16,
        ),
{
    assert((8 * k + r) % 8 == r) by (nonlinear_arith)
        requires
            r < 8,
    ;
}

/// Stack round trip for one byte: a push followed by a pop returns the
/// pushed value and restores the stack pointer.
pub proof fn lemma_stack_roundtrip8(m: MemModel, sp: u8, v: u8)
    requires
        m.inv(),
    ensures
        wrap_inc8(wrap_dec8(sp)) == sp,
        m.ram.update(0x100 + sp, v)[0x100 + wrap_inc8(wrap_dec8(sp))] == v,
{
}

/// Stack round trip for an address: pushing high then low and popping
/// low then high returns the pushed word and restores the stack
/// pointer.
pub proof fn lemma_stack_roundtrip16(m: MemModel, sp: u8, w: u16)
    requires
        m.inv(),
    ensures
        ({
            let sp1 = wrap_dec8(sp);
            let sp2 = wrap_dec8(sp1);
            let ram2 = m.ram.update(0x100 + sp, hi8(w)).update(0x100 + sp1, lo8(w));
            wrap_inc8(wrap_inc8(sp2)) == sp && le16(
                ram2[0x100 + wrap_inc8(sp2)],
                ram2[0x100 + wrap_inc8(wrap_inc8(sp2))],
            ) == w
        }),
{
    let sp1 = wrap_dec8(sp);
    let sp2 = wrap_dec8(sp1);
    let ram2 = m.ram.update(0x100 + sp, hi8(w)).update(0x100 + sp1, lo8(w));
    assert(wrap_inc8(sp2) == sp1);
    assert(wrap_inc8(sp1) == sp);
    assert(sp1 != sp);
    assert(ram2[0x100 + sp1] == lo8(w));
    assert(ram2[0x100 + sp] == hi8(w));
    lemma_split16(w);
}

/// The bus and all the byte storage it owns.
pub struct RAM {
    ram: Vec<u8>,
    rom: Vec<u8>,
    ppu_ram: Vec<u8>,
    chr_ram: Vec<u8>,
    ppu_regs: Vec<u8>,
    ppu_reg_write: Vec<u8>,
    ppu_reg_read: Vec<u8>,
    oam: Vec<u8>,
    palette_colors: Vec<u8>,
    open_bus: u8,
    dma_pending: bool,
    num_prg_blocks: usize,
    num_chr_blocks: usize,
    mapper: u8,
    mirror: u8,
}

impl View for RAM {
    type V = MemModel;

    closed spec fn view(&self) -> MemModel {
        MemModel {
            ram: self.ram@,
            rom: self.rom@,
            vram: self.ppu_ram@,
            chr: self.chr_ram@,
            regs: self.ppu_regs@,
            reg_read: self.ppu_reg_read@,
            reg_write: self.ppu_reg_write@,
            oam: self.oam@,
            palette: self.palette_colors@,
            open_bus: self.open_bus,
            dma_pending: self.dma_pending,
            prg_blocks: self.num_prg_blocks as int,
            chr_blocks: self.num_chr_blocks as int,
            mapper: self.mapper,
            mirror: self.mirror,
        }
    }
}

fn zero_vec(n: usize) -> (v: Vec<u8>)
    ensures
        v@ == Seq::new(n as nat, |j: int| 0u8),
{
    let mut v: Vec<u8> = Vec::new();
    let mut i: usize = 0;
    while i < n
        invariant
            i == v.len(),
            i <= n,
            forall|j: int| 0 <= j < i ==> v@[j] == 0u8,
        decreases n - i,
    {
        v.push(0);
        i += 1;
    }
    proof {
        assert(v@ =~= Seq::new(n as nat, |j: int| 0u8));
    }
    v
}

impl RAM {
    pub open spec fn wf(&self) -> bool {
        self@.inv()
    }

    /// A fresh, zeroed bus for a mapper-0 cartridge shape.
    pub fn new(num_prg_blocks: usize, num_chr_blocks: usize, mapper: u8, mirror: u8) -> (r: RAM)
        requires
            1 <= num_prg_blocks <= 2,
            1 <= num_chr_blocks <= 255,
            mapper == 0,
        ensures
            r.wf(),
            r@.ram == Seq::new(0x800, |j: int| 0u8),
            r@.vram == Seq::new(0x800, |j: int| 0u8),
            r@.rom == Seq::new((num_prg_blocks * 0x4000) as nat, |j: int| 0u8),
            r@.chr == Seq::new((num_chr_blocks * 0x2000) as nat, |j: int| 0u8),
            r@.regs == Seq::new(8, |j: int| 0u8),
            r@.reg_read == Seq::new(8, |j: int| 0u8),
            r@.reg_write == Seq::new(8, |j: int| 0u8),
            r@.oam == Seq::new(256, |j: int| 0u8),
            r@.palette == Seq::new(32, |j: int| 0u8),
            r@.open_bus == 0,
            !r@.dma_pending,
            r@.prg_blocks == num_prg_blocks,
            r@.chr_blocks == num_chr_blocks,
            r@.mapper == mapper,
            r@.mirror == mirror,
    {
        RAM {
            ram: zero_vec(RAM_SIZE),
            rom: zero_vec(ROM_BLOCK_SIZE * num_prg_blocks),
            ppu_ram: zero_vec(VRAM_SIZE),
            chr_ram: zero_vec(CHR_BLOCK_SIZE * num_chr_blocks),
            ppu_regs: zero_vec(8),
            ppu_reg_write: zero_vec(8),
            ppu_reg_read: zero_vec(8),
            oam: zero_vec(256),
            palette_colors: zero_vec(32),
            open_bus: 0,
            dma_pending: false,
            num_prg_blocks,
            num_chr_blocks,
            mapper,
            mirror,
        }
    }

    /// Forget which PPU registers the CPU touched since the last tick.
    pub fn clear_read_write_regs(&mut self)
        requires
            old(self).wf(),
        ensures
            final(self).wf(),
            final(self)@ == (MemModel {
                reg_read: Seq::new(8, |j: int| 0u8),
                reg_write: Seq::new(8, |j: int| 0u8),
                ..old(self)@
            }),
    {
        self.ppu_reg_read = zero_vec(8);
        self.ppu_reg_write = zero_vec(8);
    }

    /// Copy PRG and CHR images out of a raw cartridge blob (16-byte
    /// header skipped) into the bus' ROM and CHR storage.
    pub fn load_rom(&mut self, rom_data: &Vec<u8>)
        requires
            old(self).wf(),
            rom_data@.len() >= 16 + old(self)@.prg_blocks * 0x4000 + old(self)@.chr_blocks
                * 0x2000,
        ensures
            final(self).wf(),
            final(self)@ == (MemModel {
                rom: rom_data@.subrange(16, 16 + old(self)@.prg_blocks * 0x4000),
                chr: rom_data@.subrange(
                    16 + old(self)@.prg_blocks * 0x4000,
                    16 + old(self)@.prg_blocks * 0x4000 + old(self)@.chr_blocks * 0x2000,
                ),
                ..old(self)@
            }),
    {
        let prg_len: usize = self.num_prg_blocks * ROM_BLOCK_SIZE;
        let chr_len: usize = self.num_chr_blocks * CHR_BLOCK_SIZE;
        let ghost m0 = self@;
        let mut i: usize = 0;
        while i < prg_len
            invariant
                i <= prg_len,
                m0.inv(),
                prg_len == m0.prg_blocks * 0x4000,
                chr_len == m0.chr_blocks * 0x2000,
                rom_data@.len() >= 16 + prg_len + chr_len,
                self.rom@.len() == prg_len,
                forall|j: int| 0 <= j < i ==> self.rom@[j] == rom_data@[16 + j],
                self@ == (MemModel { rom: self.rom@, ..m0 }),
            decreases prg_len - i,
        {
            let b = rom_data[16 + i];
            self.rom[i] = b;
            i += 1;
        }
        let mut i: usize = 0;
        while i < chr_len
            invariant
                i <= chr_len,
                m0.inv(),
                prg_len == m0.prg_blocks * 0x4000,
                chr_len == m0.chr_blocks * 0x2000,
                rom_data@.len() >= 16 + prg_len + chr_len,
                self.chr_ram@.len() == chr_len,
                forall|j: int| 0 <= j < i ==> self.chr_ram@[j] == rom_data@[16 + prg_len + j],
                forall|j: int| 0 <= j < prg_len ==> self.rom@[j] == rom_data@[16 + j],
                self.rom@.len() == prg_len,
                self@ == (MemModel { rom: self.rom@, chr: self.chr_ram@, ..m0 }),
            decreases chr_len - i,
        {
            let b = rom_data[16 + prg_len + i];
            self.chr_ram[i] = b;
            i += 1;
        }
        proof {
            assert(self.rom@ =~= rom_data@.subrange(16, 16 + m0.prg_blocks * 0x4000));
            assert(self.chr_ram@ =~= rom_data@.subrange(
                16 + m0.prg_blocks * 0x4000,
                16 + m0.prg_blocks * 0x4000 + m0.chr_blocks * 0x2000,
            ));
            assert(self@ =~= (MemModel { rom: self.rom@, chr: self.chr_ram@, ..m0 }));
        }
    }

    /// Copy already-split PRG and CHR images into the bus' ROM and CHR
    /// storage.
    pub fn load_images(&mut self, prg: &Vec<u8>, chr: &Vec<u8>)
        requires
            old(self).wf(),
            prg@.len() == old(self)@.prg_blocks * 0x4000,
            chr@.len() == old(self)@.chr_blocks * 0x2000,
        ensures
            final(self).wf(),
            final(self)@ == (MemModel { rom: prg@, chr: chr@, ..old(self)@ }),
    {
        let ghost m0 = self@;
        let prg_len: usize = prg.len();
        let mut i: usize = 0;
        while i < prg_len
            invariant
                i <= prg_len,
                m0.inv(),
                prg@.len() == prg_len,
                prg_len == m0.prg_blocks * 0x4000,
                self.rom@.len() == prg_len,
                forall|j: int| 0 <= j < i ==> self.rom@[j] == prg@[j],
                self@ == (MemModel { rom: self.rom@, ..m0 }),
            decreases prg_len - i,
        {
            let b = prg[i];
            self.rom[i] = b;
            i += 1;
        }
        let chr_len: usize = chr.len();
        let mut i: usize = 0;
        while i < chr_len
            invariant
                i <= chr_len,
                m0.inv(),
                chr@.len() == chr_len,
                chr_len == m0.chr_blocks * 0x2000,
                self.chr_ram@.len() == chr_len,
                self.rom@.len() == m0.prg_blocks * 0x4000,
                forall|j: int| 0 <= j < self.rom@.len() ==> self.rom@[j] == prg@[j],
                forall|j: int| 0 <= j < i ==> self.chr_ram@[j] == chr@[j],
                self@ == (MemModel { rom: self.rom@, chr: self.chr_ram@, ..m0 }),
            decreases chr_len - i,
        {
            let b = chr[i];
            self.chr_ram[i] = b;
            i += 1;
        }
        proof {
            assert(self.rom@ =~= prg@);
            assert(self.chr_ram@ =~= chr@);
        }
    }

    /// Read a byte through CPU-address translation without any bus side
    /// effect (used by the DMA engine).
    fn peek(&self, addr: u16) -> (r: u8)
        requires
            self.wf(),
        ensures
            r == spec_cpu_read(self@, addr),
    {
        if addr < 0x2000 {
            self.ram[(addr % 0x800) as usize]
        } else if addr < 0x4000 {
            self.ppu_regs[((addr - 0x2000) % 8) as usize]
        } else if addr < 0x8000 {
            self.open_bus
        } else if self.num_prg_blocks == 2 {
            self.rom[(addr - 0x8000) as usize]
        } else if addr < 0xc000 {
            self.rom[(addr - 0x8000) as usize]
        } else {
            self.rom[(addr - 0xc000) as usize]
        }
    }

    /// Read a byte over the CPU space. The byte crosses the bus, and a
    /// touched PPU register is recorded for the PPU to consume.
    pub fn read_mem_value(&mut self, addr: u16) -> (r: u8)
        requires
            old(self).wf(),
        ensures
            final(self).wf(),
            r == spec_cpu_read(old(self)@, addr),
            final(self)@ == spec_cpu_read_model(old(self)@, addr),
    {
        let r: u8;
        if addr < 0x2000 {
            r = self.ram[(addr % 0x800) as usize];
        } else if addr < 0x4000 {
            let idx = ((addr - 0x2000) % 8) as usize;
            self.ppu_reg_read[idx] = 1;
            r = self.ppu_regs[idx];
        } else if addr < 0x8000 {
            r = self.open_bus;
        } else if self.num_prg_blocks == 2 {
            r = self.rom[(addr - 0x8000) as usize];
        } else if addr < 0xc000 {
            r = self.rom[(addr - 0x8000) as usize];
        } else {
            r = self.rom[(addr - 0xc000) as usize];
        }
        self.open_bus = r;
        r
    }

    /// Write a byte over the CPU space; see `spec_cpu_write_model` for
    /// the full effect, including the OAM DMA page copy at $4014.
    pub fn write_mem_value(&mut self, addr: u16, value: u8)
        requires
            old(self).wf(),
        ensures
            final(self).wf(),
            final(self)@ == spec_cpu_write_model(old(self)@, addr, value),
    {
        if addr < 0x2000 {
            self.ram[(addr % 0x800) as usize] = value;
        } else if addr < 0x4000 {
            let idx = ((addr - 0x2000) % 8) as usize;
            self.ppu_regs[idx] = value;
            self.ppu_reg_write[idx] = 1;
        } else if addr == 0x4014 {
            let ghost m0 = self@;
            let base: u16 = (value as u16) << 8;
            proof {
                assert((value as u16) << 8 == value * 256) by (bit_vector);
            }
            let mut i: usize = 0;
            while i < 256
                invariant
                    i <= 256,
                    self.wf(),
                    base == value * 256,
                    self@ == (MemModel { oam: self.oam@, ..m0 }),
                    self.oam@.len() == 256,
                    forall|j: int| 0 <= j < i ==> self.oam@[j] == spec_dma_byte(m0, value, j),
                decreases 256 - i,
            {
                let b = self.peek(base + i as u16);
                self.oam[i] = b;
                i += 1;
            }
            self.dma_pending = true;
            proof {
                assert(self.oam@ =~= Seq::new(256, |j: int| spec_dma_byte(m0, value, j)));
            }
        }
        self.open_bus = value;
        proof {
            assert(final(self)@ =~= spec_cpu_write_model(old(self)@, addr, value));
        }
    }

    /// Read a little-endian 16-bit value: low byte at `addr`, high byte
    /// at `addr + 1`.
    pub fn read_mem_address(&mut self, addr: u16) -> (r: u16)
        requires
            old(self).wf(),
        ensures
            final(self).wf(),
            r == spec_read16(old(self)@, addr),
            final(self)@ == spec_cpu_read_model(
                spec_cpu_read_model(old(self)@, addr),
                wrap_inc16(addr),
            ),
    {
        let lo = self.read_mem_value(addr);
        let hi = self.read_mem_value(addr.wrapping_add(1));
        proof {
            lemma_le16_shift(lo, hi);
        }
        ((hi as u16) << 8) | (lo as u16)
    }

    /// Read a 16-bit value with the 6502 page-wrap bug: the high byte
    /// comes from the same page, `(addr & $FF00) | ((addr + 1) & $FF)`.
    /// Indirect JMP and the zero-page indirect modes use this.
    pub fn read_mem_address_wrap(&mut self, addr: u16) -> (r: u16)
        requires
            old(self).wf(),
        ensures
            final(self).wf(),
            r == spec_read16_wrap(old(self)@, addr),
            final(self)@ == spec_cpu_read_model(
                spec_cpu_read_model(old(self)@, addr),
                spec_page_wrap_next(addr),
            ),
    {
        let lo = self.read_mem_value(addr);
        let hi_addr = (addr & 0xff00) | (addr.wrapping_add(1) & 0x00ff);
        let hi = self.read_mem_value(hi_addr);
        proof {
            lemma_le16_shift(lo, hi);
        }
        ((hi as u16) << 8) | (lo as u16)
    }

    /// Write a little-endian 16-bit value: low byte at `addr`, high
    /// byte at `addr + 1`.
    pub fn write_mem_address(&mut self, addr: u16, new_addr: u16)
        requires
            old(self).wf(),
        ensures
            final(self).wf(),
            final(self)@ == spec_cpu_write_model(
                spec_cpu_write_model(old(self)@, addr, lo8(new_addr)),
                wrap_inc16(addr),
                hi8(new_addr),
            ),
    {
        let lo = (new_addr & 0xff) as u8;
        let hi = (new_addr >> 8) as u8;
        proof {
            lemma_split16(new_addr);
        }
        self.write_mem_value(addr, lo);
        self.write_mem_value(addr.wrapping_add(1), hi);
    }

    /// Push one byte onto the page-1 stack; the stack pointer wraps
    /// modulo 256, as the hardware does.
    pub fn push_value_on_stack(&mut self, stack_ptr: &mut u8, push_value: u8)
        requires
            old(self).wf(),
        ensures
            final(self).wf(),
            *final(stack_ptr) == wrap_dec8(*old(stack_ptr)),
            final(self)@ == (MemModel {
                ram: old(self)@.ram.update(0x100 + *old(stack_ptr), push_value),
                ..old(self)@
            }),
    {
        let a = (STACK_START + *stack_ptr as u16) as usize;
        self.ram[a] = push_value;
        *stack_ptr = stack_ptr.wrapping_sub(1);
    }

    /// Pop one byte off the page-1 stack; the stack pointer wraps
    /// modulo 256.
    pub fn pop_value_off_stack(&mut self, stack_ptr: &mut u8) -> (r: u8)
        requires
            old(self).wf(),
        ensures
            final(self).wf(),
            *final(stack_ptr) == wrap_inc8(*old(stack_ptr)),
            r == old(self)@.ram[0x100 + wrap_inc8(*old(stack_ptr))],
            final(self)@ == old(self)@,
    {
        *stack_ptr = stack_ptr.wrapping_add(1);
        let a = (STACK_START + *stack_ptr as u16) as usize;
        self.ram[a]
    }

    /// Push an address onto the page-1 stack, high byte first, as JSR
    /// and the interrupt sequences do.
    pub fn push_address_on_stack(&mut self, stack_ptr: &mut u8, push_address: u16)
        requires
            old(self).wf(),
        ensures
            final(self).wf(),
            *final(stack_ptr) == wrap_dec8(wrap_dec8(*old(stack_ptr))),
            final(self)@ == (MemModel {
                ram: old(self)@.ram.update(0x100 + *old(stack_ptr), hi8(push_address)).update(
                    0x100 + wrap_dec8(*old(stack_ptr)),
                    lo8(push_address),
                ),
                ..old(self)@
            }),
    {
        let hi = (push_address >> 8) as u8;
        let lo = (push_address & 0xff) as u8;
        proof {
            lemma_split16(push_address);
        }
        self.push_value_on_stack(stack_ptr, hi);
        self.push_value_on_stack(stack_ptr, lo);
    }

    /// Pop an address off the page-1 stack, low byte first, as RTS and
    /// RTI do.
    pub fn pop_address_off_stack(&mut self, stack_ptr: &mut u8) -> (r: u16)
        requires
            old(self).wf(),
        ensures
            final(self).wf(),
            *final(stack_ptr) == wrap_inc8(wrap_inc8(*old(stack_ptr))),
            r == le16(
                old(self)@.ram[0x100 + wrap_inc8(*old(stack_ptr))],
                old(self)@.ram[0x100 + wrap_inc8(wrap_inc8(*old(stack_ptr)))],
            ),
            final(self)@ == old(self)@,
    {
        let lo = self.pop_value_off_stack(stack_ptr);
        let hi = self.pop_value_off_stack(stack_ptr);
        proof {
            lemma_le16_shift(lo, hi);
        }
        ((hi as u16) << 8) | (lo as u16)
    }

    /// Read one PPU register silently: no bus traffic, no touch record.
    /// The PPU itself uses this to consume and to publish values.
    pub fn peek_ppu_reg(&self, idx: usize) -> (r: u8)
        requires
            self.wf(),
            idx < 8,
        ensures
            r == self@.regs[idx as int],
    {
        self.ppu_regs[idx]
    }

    /// Write one PPU register silently: no bus traffic, no touch
    /// record.
    pub fn poke_ppu_reg(&mut self, idx: usize, value: u8)
        requires
            old(self).wf(),
            idx < 8,
        ensures
            final(self).wf(),
            final(self)@ == (MemModel { regs: old(self)@.regs.update(idx as int, value), ..old(
                self,
            )@ }),
    {
        self.ppu_regs[idx] = value;
    }

    /// Publish a byte in PPUDATA without touching the VRAM address.
    pub fn write_ppu_data_no_incr(&mut self, value: u8)
        requires
            old(self).wf(),
        ensures
            final(self).wf(),
            final(self)@ == (MemModel { regs: old(self)@.regs.update(7, value), ..old(self)@ }),
    {
        self.poke_ppu_reg(7, value);
    }

    /// Read the byte currently latched in PPUDATA.
    pub fn read_ppu_data_no_incr(&mut self) -> (r: u8)
        requires
            old(self).wf(),
        ensures
            final(self).wf(),
            r == old(self)@.regs[7],
            final(self)@ == old(self)@,
    {
        self.ppu_regs[7]
    }

    /// Read a byte over the 14-bit PPU space, honoring pattern-table,
    /// nametable and palette mirroring.
    pub fn read_vram_value(&mut self, address: usize) -> (r: u8)
        requires
            old(self).wf(),
        ensures
            final(self).wf(),
            r == spec_vram_read(old(self)@, address as int % 0x4000),
            final(self)@ == old(self)@,
    {
        let a = address % 0x4000;
        if a < 0x2000 {
            proof {
                assert(self@.chr.len() >= 0x2000);
            }
            self.chr_ram[a]
        } else if a < 0x3f00 {
            let na = (a - 0x2000) % 0x1000;
            let nt = na / 0x400;
            let off = na % 0x400;
            let bank: usize = if self.mirror == 0 {
                if nt < 2 {
                    0
                } else {
                    1
                }
            } else {
                nt % 2
            };
            self.ppu_ram[bank * 0x400 + off]
        } else {
            let i = (a - 0x3f00) % 0x20;
            let pi = if i == 0x10 || i == 0x14 || i == 0x18 || i == 0x1c {
                i - 0x10
            } else {
                i
            };
            self.palette_colors[pi]
        }
    }

    /// Write a byte over the 14-bit PPU space, honoring the same
    /// mirroring rules as reads.
    pub fn write_vram_value(&mut self, address: usize, value: u8)
        requires
            old(self).wf(),
        ensures
            final(self).wf(),
            final(self)@ == spec_vram_write_model(old(self)@, address as int % 0x4000, value),
    {
        let a = address % 0x4000;
        if a < 0x2000 {
            proof {
                assert(self@.chr.len() >= 0x2000);
            }
            self.chr_ram[a] = value;
        } else if a < 0x3f00 {
            let na = (a - 0x2000) % 0x1000;
            let nt = na / 0x400;
            let off = na % 0x400;
            let bank: usize = if self.mirror == 0 {
                if nt < 2 {
                    0
                } else {
                    1
                }
            } else {
                nt % 2
            };
            self.ppu_ram[bank * 0x400 + off] = value;
        } else {
            let i = (a - 0x3f00) % 0x20;
            let pi = if i == 0x10 || i == 0x14 || i == 0x18 || i == 0x1c {
                i - 0x10
            } else {
                i
            };
            self.palette_colors[pi] = value;
        }
    }

    /// Read one byte of sprite attribute memory.
    pub fn read_oam_byte(&self, idx: usize) -> (r: u8)
        requires
            self.wf(),
            idx < 256,
        ensures
            r == self@.oam[idx as int],
    {
        self.oam[idx]
    }

    /// Write one byte of sprite attribute memory (the OAMDATA path).
    pub fn write_oam_byte(&mut self, idx: usize, value: u8)
        requires
            old(self).wf(),
            idx < 256,
        ensures
            final(self).wf(),
            final(self)@ == (MemModel { oam: old(self)@.oam.update(idx as int, value), ..old(
                self,
            )@ }),
    {
        self.oam[idx] = value;
    }

    /// Did the CPU read PPU register `idx` since the last tick?
    pub fn was_read(&self, idx: usize) -> (r: bool)
        requires
            self.wf(),
            idx < 8,
        ensures
            r == (self@.reg_read[idx as int] == 1),
    {
        self.ppu_reg_read[idx] == 1
    }

    /// Did the CPU write PPU register `idx` since the last tick?
    pub fn was_written(&self, idx: usize) -> (r: bool)
        requires
            self.wf(),
            idx < 8,
        ensures
            r == (self@.reg_write[idx as int] == 1),
    {
        self.ppu_reg_write[idx] == 1
    }

    /// Collect the CPU stall a pending OAM DMA causes: 513 cycles, one
    /// more when the write landed on an odd CPU cycle.
    pub fn take_dma_stall(&mut self, even_cycle: bool) -> (r: u32)
        requires
            old(self).wf(),
        ensures
            final(self).wf(),
            final(self)@ == (MemModel { dma_pending: false, ..old(self)@ }),
            old(self)@.dma_pending ==> r == if even_cycle { 513u32 } else { 514u32 },
            !old(self)@.dma_pending ==> r == 0,
    {
        if self.dma_pending {
            self.dma_pending = false;
            if even_cycle {
                513
            } else {
                514
            }
        } else {
            0
        }
    }
}

/// Exchange the two bytes of a 16-bit value.
pub fn swap_bytes(in_val: u16) -> (r: u16)
    ensures
        r == le16(hi8(in_val), lo8(in_val)),
{
    proof {
        lemma_split16(in_val);
        lemma_le16_shift(hi8(in_val), lo8(in_val));
        assert((in_val << 8) | (in_val >> 8) == (((in_val & 0xff) as u8 as u16) << 8) | ((
        in_val >> 8) as u8 as u16)) by (bit_vector);
    }
    (in_val << 8) | (in_val >> 8)
}

} // verus!
