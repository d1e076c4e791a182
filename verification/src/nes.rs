//! The assembled core: a pre-parsed cartridge image goes in, frames of
//! RGB pixels come out. One CPU instruction is followed by three PPU
//! dots per CPU cycle, NMI is carried from the PPU to the CPU at
//! instruction boundaries, and `step_frame` runs until the PPU marks a
//! frame complete.

use vstd::prelude::*;
use crate::cpu::Cpu;
use crate::memory::{MemModel, RAM};
use crate::ppu::{lemma_frame_dist_step, spec_consume, spec_frame_dist, FRAME_PIXELS, PPU};

verus! {

/// Nametable arrangement the cartridge selects.
pub enum Mirroring {
    Horizontal,
    Vertical,
    FourScreen,
}

/// Construction-time failures; within `step_frame` the core cannot
/// fail.
pub enum NesError {
    /// The mapper id (or the four-screen arrangement) is outside the
    /// fixed-mapping variant this core provides.
    UnsupportedMapper,
    /// PRG or CHR image length is not a whole number of blocks of the
    /// supported shape.
    BadCartridge,
}

/// A pre-parsed cartridge image: the iNES header has already been
/// consumed by the loader.
pub struct Cartridge {
    pub prg_rom: Vec<u8>,
    pub chr_rom: Vec<u8>,
    pub mapper_id: u8,
    pub mirroring: Mirroring,
}

impl Cartridge {
    /// The shape mapper 0 supports: one or two 16 KiB PRG blocks and a
    /// whole number (1..=255) of 8 KiB CHR blocks.
    pub open spec fn spec_shape_ok(&self) -> bool {
        &&& (self.prg_rom@.len() == 0x4000 || self.prg_rom@.len() == 0x8000)
        &&& self.chr_rom@.len() % 0x2000 == 0
        &&& 0x2000 <= self.chr_rom@.len() <= 255 * 0x2000
    }

    pub open spec fn spec_supported(&self) -> bool {
        &&& self.mapper_id == 0
        &&& !(self.mirroring is FourScreen)
    }
}

/// The whole machine: CPU, PPU, and the bus they share.
pub struct Core {
    pub cpu: Cpu,
    pub ppu: PPU,
    pub mem: RAM,
    pub even_cycle: bool,
}

impl Core {
    pub open spec fn wf(&self) -> bool {
        &&& self.mem.wf()
        &&& self.ppu.wf()
    }

    /// Build a core around a cartridge. Fails with `UnsupportedMapper`
    /// for any mapper other than 0 or for four-screen mirroring, and
    /// with `BadCartridge` when the PRG/CHR images are not whole
    /// blocks of the supported shape; succeeds exactly otherwise, with
    /// the images loaded and a RESET pending.
    pub fn new(cart: Cartridge) -> (r: Result<Core, NesError>)
        ensures
            r is Ok <==> (cart.spec_supported() && cart.spec_shape_ok()),
            !cart.spec_supported() ==> (r matches Err(e) && e is UnsupportedMapper),
            cart.spec_supported() && !cart.spec_shape_ok() ==> (r matches Err(e)
                && e is BadCartridge),
            r matches Ok(c) ==> c.wf() && c.mem@.rom == cart.prg_rom@ && c.mem@.chr
                == cart.chr_rom@ && c.cpu.reset_pending && c.mem@.mirror == (
            match cart.mirroring {
                Mirroring::Vertical => 1u8,
                _ => 0u8,
            }),
    {
        if cart.mapper_id != 0 {
            return Err(NesError::UnsupportedMapper);
        }
        let mirror: u8 = match cart.mirroring {
            Mirroring::Horizontal => 0,
            Mirroring::Vertical => 1,
            Mirroring::FourScreen => {
                return Err(NesError::UnsupportedMapper);
            },
        };
        let prg_blocks: usize = if cart.prg_rom.len() == 0x4000 {
            1
        } else if cart.prg_rom.len() == 0x8000 {
            2
        } else {
            return Err(NesError::BadCartridge);
        };
        let chr_len = cart.chr_rom.len();
        if chr_len % 0x2000 != 0 || chr_len < 0x2000 || chr_len > 255 * 0x2000 {
            return Err(NesError::BadCartridge);
        }
        let chr_blocks: usize = chr_len / 0x2000;
        let mut mem = RAM::new(prg_blocks, chr_blocks, 0, mirror);
        mem.load_images(&cart.prg_rom, &cart.chr_rom);
        Ok(
            Core {
                cpu: Cpu::new(),
                ppu: PPU::default(),
                mem,
                even_cycle: true,
            },
        )
    }

    /// Latch a RESET in the CPU; it is serviced before the next fetch.
    pub fn reset(&mut self)
        requires
            old(self).wf(),
        ensures
            final(self).wf(),
            final(self).cpu.reset_pending,
    {
        self.cpu.reset();
    }

    /// Run whole instructions, ticking the PPU three dots per CPU
    /// cycle (OAM DMA stalls included) and latching NMI at instruction
    /// boundaries, until the PPU's frame-complete mark is consumed;
    /// then borrow the finished 256 x 240 frame. Every PPU dot
    /// strictly shortens the distance to the frame mark, so the loop
    /// terminates and — unless a stale mark was pending — the frame
    /// counter has advanced.
    #[verifier::spinoff_prover]
    #[verifier::rlimit(100)]
    pub fn step_frame(&mut self) -> (r: &Vec<(u8, u8, u8)>)
        requires
            old(self).wf(),
        ensures
            final(self).wf(),
            r@.len() == FRAME_PIXELS,
            r@ == final(self).ppu.output.mem@,
            !final(self).ppu.frame_complete,
            final(self).ppu.frames >= old(self).ppu.frames,
            !old(self).ppu.frame_complete ==> (final(self).ppu.frames > old(self).ppu.frames || old(
                self,
            ).ppu.frames == u64::MAX),
    {
        let ghost fc0 = self.ppu.frame_complete;
        let ghost f0 = self.ppu.frames;
        let mut done = false;
        while !done
            invariant
                self.mem.wf(),
                self.ppu.wf(),
                self.ppu.frames >= f0,
                self.ppu.frame_complete && !fc0 ==> (self.ppu.frames > f0 || f0 == u64::MAX),
                done ==> !self.ppu.frame_complete,
                done && !fc0 ==> (self.ppu.frames > f0 || f0 == u64::MAX),
            decreases (if done {
                0int
            } else if self.ppu.frame_complete {
                1int
            } else {
                spec_frame_dist(self.ppu) + 2
            }),
        {
            if self.ppu.take_frame_complete() {
                done = true;
            } else {
                let ghost dist_start = spec_frame_dist(self.ppu);
                let ghost f_iter = self.ppu.frames;
                let cycles = self.cpu.step(&mut self.mem);
                let stall = self.mem.take_dma_stall(self.even_cycle);
                let total: u32 = cycles as u32 + stall;
                if total % 2 == 1 {
                    self.even_cycle = !self.even_cycle;
                }
                let dots: u32 = 3 * total;
                let mut i: u32 = 0;
                while i < dots
                    invariant
                        self.mem.wf(),
                        self.ppu.wf(),
                        i <= dots,
                        self.ppu.frames >= f_iter,
                        !self.ppu.frame_complete ==> self.ppu.frames == f_iter && spec_frame_dist(
                            self.ppu,
                        ) + i <= dist_start,
                        self.ppu.frame_complete ==> (self.ppu.frames > f_iter || f_iter
                            == u64::MAX),
                    decreases dots - i,
                {
                    let ghost p_b = self.ppu;
                    let ghost m_b = self.mem@;
                    self.ppu.run(&mut self.mem);
                    proof {
                        let skip = p_b.scanline == 261 && p_b.dot == 339 && p_b.odd_frame
                            && spec_consume(p_b, m_b).0.mask & 0x18 != 0;
                        if !p_b.frame_complete && !(p_b.scanline == 240 && p_b.dot == 0) {
                            lemma_frame_dist_step(p_b, self.ppu, skip);
                        }
                    }
                    i += 1;
                }
                if self.ppu.take_nmi() {
                    self.cpu.request_nmi();
                }
            }
        }
        self.ppu.get_output_image()
    }
}

} // verus!
