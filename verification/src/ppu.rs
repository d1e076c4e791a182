//! The picture processing unit: the eight register behaviours over the
//! loopy v/t address pair, a 341-dot by 262-scanline clock that raises
//! vblank (and NMI) at scanline 241 dot 1 and clears it on the
//! pre-render line, and the background/sprite pixel pipeline that fills
//! a 256 by 240 RGB framebuffer.

use vstd::prelude::*;
use crate::alu::{wrap_inc8};
use crate::cpu::u16_wadd;
use crate::memory::{spec_vram_read, spec_vram_write_model, MemModel, RAM};

verus! {

pub const FRAME_WIDTH: usize = 256;
pub const FRAME_HEIGHT: usize = 240;
pub const FRAME_PIXELS: usize = 61440;

/// The composited frame: one RGB triple per pixel, row-major,
/// 256 by 240.
#[allow(non_camel_case_types)]
pub struct output_image {
    pub mem: Vec<(u8, u8, u8)>,
}

impl output_image {
    /// A black frame of exactly 256 x 240 pixels.
    pub fn new() -> (r: output_image)
        ensures
            r.mem@.len() == FRAME_PIXELS,
            forall|j: int| 0 <= j < FRAME_PIXELS ==> r.mem@[j] == (0u8, 0u8, 0u8),
    {
        let mut v: Vec<(u8, u8, u8)> = Vec::new();
        let mut i: usize = 0;
        while i < FRAME_PIXELS
            invariant
                i == v.len(),
                i <= FRAME_PIXELS,
                forall|j: int| 0 <= j < i ==> v@[j] == (0u8, 0u8, 0u8),
            decreases FRAME_PIXELS - i,
        {
            v.push((0, 0, 0));
            i += 1;
        }
        output_image { mem: v }
    }
}

/// Coarse-X increment of the loopy v register: wrap at 31 flips the
/// horizontal nametable bit.
pub open spec fn spec_inc_coarse_x(v: u16) -> u16 {
    if v & 0x001f == 31 {
        (v & 0xffe0) ^ 0x0400
    } else {
        u16_wadd(v, 1)
    }
}

/// Fine-Y increment of the loopy v register, carrying into coarse-Y;
/// coarse-Y wraps at 29 flipping the vertical nametable bit, and at 31
/// without the flip.
pub open spec fn spec_inc_y(v: u16) -> u16 {
    if v & 0x7000 != 0x7000 {
        u16_wadd(v, 0x1000)
    } else {
        let v2 = v & 0x8fff;
        let y = (v2 & 0x03e0) >> 5;
        if y == 29 {
            (v2 & 0xfc1f) ^ 0x0800
        } else if y == 31 {
            v2 & 0xfc1f
        } else {
            (v2 & 0xfc1f) | (u16_wadd(y, 1) << 5)
        }
    }
}

/// Copy the horizontal bits (coarse-X and the horizontal nametable
/// bit) from t to v.
pub open spec fn spec_copy_horizontal(v: u16, t: u16) -> u16 {
    (v & 0xfbe0) | (t & 0x041f)
}

/// Copy the vertical bits (fine-Y, coarse-Y and the vertical nametable
/// bit) from t to v.
pub open spec fn spec_copy_vertical(v: u16, t: u16) -> u16 {
    (v & 0x841f) | (t & 0x7be0)
}

/// The PPUSTATUS byte: vblank, sprite-0 hit, sprite overflow in bits
/// 7..5.
pub open spec fn spec_status_byte(vblank: bool, hit: bool, overflow: bool) -> u8 {
    ((if vblank { 0x80u8 } else { 0u8 }) | (if hit { 0x40u8 } else { 0u8 })) | (if overflow {
        0x20u8
    } else {
        0u8
    })
}

/// A compact deterministic approximation of the NTSC palette: the
/// 6-bit colour index splits into four brightness levels and sixteen
/// hues; hues 0 and 13..15 are greys.
pub open spec fn spec_nes_rgb(c: u8) -> (u8, u8, u8) {
    let idx = c & 0x3f;
    let l = ((idx >> 4) << 6) | 0x30;
    let hue = idx & 0x0f;
    if hue == 0 || hue >= 13 {
        (l, l, l)
    } else {
        (
            if hue < 5 { l } else { l >> 2 },
            if 3 <= hue && hue < 9 { l } else { l >> 2 },
            if hue >= 7 { l } else { l >> 2 },
        )
    }
}

fn nes_rgb(c: u8) -> (rgb: (u8, u8, u8))
    ensures
        rgb == spec_nes_rgb(c),
{
    let idx = c & 0x3f;
    let l: u8 = ((idx >> 4) << 6) | 0x30;
    let hue = idx & 0x0f;
    if hue == 0 || hue >= 13 {
        (l, l, l)
    } else {
        (
            if hue < 5 { l } else { l >> 2 },
            if 3 <= hue && hue < 9 { l } else { l >> 2 },
            if hue >= 7 { l } else { l >> 2 },
        )
    }
}

/// The PPU's register shadow state, the loopy scroll machinery, the
/// two-tile background pipeline, the dot/scanline clock and the output
/// frame.
pub struct PPU {
    pub ctrl: u8,
    pub mask: u8,
    pub oam_addr: u8,
    pub v_addr: u16,
    pub t_addr: u16,
    pub fine_x: u8,
    pub write_toggle: bool,
    pub scanline: u16,
    pub dot: u16,
    pub odd_frame: bool,
    pub vblank: bool,
    pub sprite0_hit: bool,
    pub sprite_overflow: bool,
    pub nmi_request: bool,
    pub frame_complete: bool,
    pub frames: u64,
    pub tile_lo: u8,
    pub tile_hi: u8,
    pub attrib: u8,
    pub next_lo: u8,
    pub next_hi: u8,
    pub next_attrib: u8,
    pub last_bg_pix: u8,
    pub output: output_image,
}

impl PPU {
    pub open spec fn wf(&self) -> bool {
        &&& self.output.mem@.len() == FRAME_PIXELS
        &&& self.scanline < 262
        &&& self.dot < 341
        &&& self.fine_x < 8
    }
}

/// PPUCTRL write: store the byte and copy the nametable select into
/// bits 10-11 of the temp VRAM address.
pub open spec fn spec_ctrl_write(p: PPU, b: u8) -> PPU {
    PPU { ctrl: b, t_addr: (p.t_addr & 0xf3ff) | (((b & 3) as u16) << 10), ..p }
}

/// PPUMASK write: store the rendering-enable and emphasis bits.
pub open spec fn spec_mask_write(p: PPU, b: u8) -> PPU {
    PPU { mask: b, ..p }
}

/// The effect of the CPU having read PPUSTATUS: vblank and the shared
/// write toggle are cleared.
pub open spec fn spec_status_read(p: PPU) -> PPU {
    PPU { vblank: false, write_toggle: false, ..p }
}

/// OAMADDR write: latch the OAM address.
pub open spec fn spec_oamaddr_write(p: PPU, b: u8) -> PPU {
    PPU { oam_addr: b, ..p }
}

/// PPUSCROLL write. First write: coarse-X into t, fine-X latched.
/// Second write: coarse-Y and fine-Y into t. The toggle is shared with
/// PPUADDR.
pub open spec fn spec_scroll_write(p: PPU, b: u8) -> PPU {
    if !p.write_toggle {
        PPU {
            t_addr: (p.t_addr & 0x7fe0) | ((b >> 3) as u16),
            fine_x: b & 7,
            write_toggle: true,
            ..p
        }
    } else {
        PPU {
            t_addr: ((p.t_addr & 0x0c1f) | (((b & 0xf8) as u16) << 2)) | (((b & 0x07) as u16)
                << 12),
            write_toggle: false,
            ..p
        }
    }
}

/// PPUADDR write. First write: the high six bits into t, bit 14
/// cleared. Second write: the low byte into t, and t becomes the
/// current VRAM address. The toggle is shared with PPUSCROLL.
pub open spec fn spec_addr_write(p: PPU, b: u8) -> PPU {
    if !p.write_toggle {
        PPU { t_addr: (p.t_addr & 0x00ff) | (((b & 0x3f) as u16) << 8), write_toggle: true, ..p }
    } else {
        PPU {
            t_addr: (p.t_addr & 0x7f00) | (b as u16),
            v_addr: (p.t_addr & 0x7f00) | (b as u16),
            write_toggle: false,
            ..p
        }
    }
}

/// The PPUDATA address step: 32 in down mode (PPUCTRL bit 2), 1
/// otherwise.
pub open spec fn spec_vram_incr(ctrl: u8) -> u16 {
    if ctrl & 0x04 != 0 {
        32
    } else {
        1
    }
}

/// The whole register-consumption stage of one PPU step: every
/// register the bus recorded as touched since the last step is applied
/// in register order — PPUCTRL, PPUMASK, the PPUSTATUS-read clears,
/// OAMADDR, OAMDATA (an OAM write plus address step), PPUSCROLL,
/// PPUADDR, a PPUDATA write (VRAM store at the latched address, then
/// the 1/32 step), and a PPUDATA read (the internal buffer refills
/// from the latched address and is published in the register; when the
/// stepped address sits in the palette the published byte bypasses the
/// buffer and is the palette entry itself) — and the touch records are
/// cleared.
pub open spec fn spec_consume_regs_a(p: PPU, m: MemModel) -> PPU {
    let p0 = if m.reg_write[0] == 1 { spec_ctrl_write(p, m.regs[0]) } else { p };
    let p1 = if m.reg_write[1] == 1 { spec_mask_write(p0, m.regs[1]) } else { p0 };
    let p2 = if m.reg_read[2] == 1 { spec_status_read(p1) } else { p1 };
    if m.reg_write[3] == 1 { spec_oamaddr_write(p2, m.regs[3]) } else { p2 }
}

pub open spec fn spec_consume_regs_b(p3: PPU, m: MemModel) -> (PPU, MemModel) {
    let p4 = if m.reg_write[4] == 1 { PPU { oam_addr: wrap_inc8(p3.oam_addr), ..p3 } } else { p3 };
    let m4 = if m.reg_write[4] == 1 {
        MemModel { oam: m.oam.update(p3.oam_addr as int, m.regs[4]), ..m }
    } else {
        m
    };
    let p5 = if m.reg_write[5] == 1 { spec_scroll_write(p4, m.regs[5]) } else { p4 };
    let p6 = if m.reg_write[6] == 1 { spec_addr_write(p5, m.regs[6]) } else { p5 };
    (p6, m4)
}

pub open spec fn spec_consume_control(p: PPU, m: MemModel) -> (PPU, MemModel) {
    spec_consume_regs_b(spec_consume_regs_a(p, m), m)
}

pub open spec fn spec_consume_data(p6: PPU, m4: MemModel) -> (PPU, MemModel) {
    let p7 = if m4.reg_write[7] == 1 {
        PPU { v_addr: u16_wadd(p6.v_addr, spec_vram_incr(p6.ctrl)), ..p6 }
    } else {
        p6
    };
    let m7 = if m4.reg_write[7] == 1 {
        spec_vram_write_model(m4, (p6.v_addr & 0x3fff) as int, m4.regs[7])
    } else {
        m4
    };
    let p8 = if m4.reg_read[7] == 1 {
        PPU { v_addr: u16_wadd(p7.v_addr, spec_vram_incr(p7.ctrl)), ..p7 }
    } else {
        p7
    };
    let m8 = if m4.reg_read[7] == 1 {
        let nxt = u16_wadd(p7.v_addr, spec_vram_incr(p7.ctrl)) & 0x3fff;
        let publish = if nxt >= 0x3f00 {
            spec_vram_read(m7, nxt as int)
        } else {
            spec_vram_read(m7, (p7.v_addr & 0x3fff) as int)
        };
        MemModel { regs: m7.regs.update(7, publish), ..m7 }
    } else {
        m7
    };
    (
        p8,
        MemModel {
            reg_read: Seq::new(8, |j: int| 0u8),
            reg_write: Seq::new(8, |j: int| 0u8),
            ..m8
        },
    )
}

pub open spec fn spec_consume(p: PPU, m: MemModel) -> (PPU, MemModel) {
    let c = spec_consume_control(p, m);
    spec_consume_data(c.0, c.1)
}

/// The background fetch for the tile under VRAM address `v`: the
/// nametable byte selects the pattern, fine-Y the row, and the
/// attribute table quadrant gives the two palette bits.
pub open spec fn spec_tile_fetch(m: MemModel, v: u16, ctrl: u8) -> (u8, u8, u8) {
    let index = spec_vram_read(m, 0x2000 + (v & 0x0fff));
    let base: int = if ctrl & 0x10 != 0 { 0x1000 } else { 0 };
    let pat = base + index * 16 + (v >> 12) % 8;
    let at = spec_vram_read(m, 0x23c0 + (v & 0x0c00) + ((v >> 4) & 0x38) + ((v >> 2) & 0x07));
    let s = (((if (v >> 4) & 4 != 0 { 4int } else { 0int }) + (if v & 2 != 0 { 2int } else { 0int })) as u8);
    (spec_vram_read(m, pat), spec_vram_read(m, pat + 8), (at >> s) % 4)
}

/// Prime the two-tile pipeline at the start of a scanline: the current
/// tile comes from v, coarse-X steps, and the next tile follows.
pub open spec fn spec_fill_tiles(p: PPU, m: MemModel) -> PPU {
    let f0 = spec_tile_fetch(m, p.v_addr, p.ctrl);
    let v2 = spec_inc_coarse_x(p.v_addr);
    let f1 = spec_tile_fetch(m, v2, p.ctrl);
    PPU {
        tile_lo: f0.0,
        tile_hi: f0.1,
        attrib: f0.2,
        v_addr: v2,
        next_lo: f1.0,
        next_hi: f1.1,
        next_attrib: f1.2,
        ..p
    }
}

/// Shift the pipeline one tile: the next tile becomes current,
/// coarse-X steps, and a fresh next tile is fetched.
pub open spec fn spec_advance_tiles(p: PPU, m: MemModel) -> PPU {
    let v2 = spec_inc_coarse_x(p.v_addr);
    let f = spec_tile_fetch(m, v2, p.ctrl);
    PPU {
        tile_lo: p.next_lo,
        tile_hi: p.next_hi,
        attrib: p.next_attrib,
        v_addr: v2,
        next_lo: f.0,
        next_hi: f.1,
        next_attrib: f.2,
        ..p
    }
}

/// The 2-bit background pattern of dot `d`: fine-X selects the bit,
/// borrowing from the next tile past the seam.
pub open spec fn spec_bg_pattern(p: PPU, d: u16) -> u8 {
    let sel = (d - 1) % 8 + p.fine_x;
    let lo_b = if sel < 8 { p.tile_lo } else { p.next_lo };
    let hi_b = if sel < 8 { p.tile_hi } else { p.next_hi };
    let bitpos = if sel < 8 { (7 - sel) as u8 } else { (15 - sel) as u8 };
    if (hi_b >> bitpos) & 1 != 0 {
        if (lo_b >> bitpos) & 1 != 0 { 3u8 } else { 2u8 }
    } else {
        if (lo_b >> bitpos) & 1 != 0 { 1u8 } else { 0u8 }
    }
}

/// The background pattern with the left-column mask applied: the first
/// eight pixels are blank unless PPUMASK bit 1 shows them.
pub open spec fn spec_bg_pattern_masked(p: PPU, d: u16) -> u8 {
    if d - 1 < 8 && p.mask & 0x02 == 0 {
        0u8
    } else {
        spec_bg_pattern(p, d)
    }
}

/// The 4-bit background palette index of dot `d`; a transparent
/// pattern aliases the universal background at index 0.
pub open spec fn spec_bg_pal_index(p: PPU, d: u16) -> int {
    let pat = spec_bg_pattern_masked(p, d);
    if pat == 0 {
        0
    } else {
        let att = if (d - 1) % 8 + p.fine_x < 8 { p.attrib } else { p.next_attrib };
        (att % 4) * 4 + pat
    }
}

/// The RGB colour the background writes at dot `d`.
pub open spec fn spec_bg_colour(p: PPU, m: MemModel, d: u16) -> (u8, u8, u8) {
    spec_nes_rgb(spec_vram_read(m, 0x3f00 + spec_bg_pal_index(p, d)))
}

/// Sprite height: 8, or 16 under PPUCTRL bit 5.
pub open spec fn spec_sprite_h(ctrl: u8) -> u16 {
    if ctrl & 0x20 != 0 { 16 } else { 8 }
}

/// Pattern address of a sprite row: 8x16 sprites take their table from
/// the tile byte's bit 0 and their second half from rows 8..15.
pub open spec fn spec_sprite_pat_addr(ctrl: u8, tile: u8, row: u16) -> int {
    if ctrl & 0x20 != 0 {
        (if tile & 1 != 0 { 0x1000int } else { 0int }) + (tile & 0xfe) * 16 + row % 8 + (
        if row >= 8 { 16int } else { 0int })
    } else {
        (if ctrl & 0x08 != 0 { 0x1000int } else { 0int }) + tile * 16 + row
    }
}

/// The 2-bit pixel sprite `i` contributes at (x, y): 0 when the sprite
/// does not cover the dot or its pattern is transparent there; flips
/// come from the attribute byte.
pub open spec fn spec_sprite_pix(m: MemModel, ctrl: u8, i: int, x: u16, y: u16) -> u8 {
    let sy = m.oam[4 * i];
    let tile = m.oam[4 * i + 1];
    let attr = m.oam[4 * i + 2];
    let sx = m.oam[4 * i + 3];
    let h = spec_sprite_h(ctrl);
    if sy <= y && y < sy + h && sx <= x && x < sx + 8 {
        let row = if attr & 0x80 != 0 { ((h - 1) - (y - sy)) as u16 } else { (y - sy) as u16 };
        let bitpos = (if attr & 0x40 != 0 { x - sx } else { 7 - (x - sx) }) as u8;
        let pa = spec_sprite_pat_addr(ctrl, tile, row);
        let lo = spec_vram_read(m, pa);
        let hi = spec_vram_read(m, pa + 8);
        if (hi >> bitpos) & 1 != 0 {
            if (lo >> bitpos) & 1 != 0 { 3u8 } else { 2u8 }
        } else {
            if (lo >> bitpos) & 1 != 0 { 1u8 } else { 0u8 }
        }
    } else {
        0u8
    }
}

/// The first sprite in OAM order, from index `i` on, with an opaque
/// pixel at (x, y); 64 when none has one.
pub open spec fn spec_first_opaque_from(m: MemModel, ctrl: u8, x: u16, y: u16, i: int) -> int
    decreases 64 - i,
{
    if i >= 64 {
        64
    } else if spec_sprite_pix(m, ctrl, i, x, y) != 0 {
        i
    } else {
        spec_first_opaque_from(m, ctrl, x, y, i + 1)
    }
}

/// A prefix of transparent sprites does not change which sprite wins.
pub proof fn lemma_first_opaque_prefix(m: MemModel, ctrl: u8, x: u16, y: u16, i: int)
    requires
        0 <= i <= 64,
        forall|j: int| 0 <= j < i ==> spec_sprite_pix(m, ctrl, j, x, y) == 0,
    ensures
        spec_first_opaque_from(m, ctrl, x, y, 0) == spec_first_opaque_from(m, ctrl, x, y, i),
    decreases i,
{
    if i > 0 {
        lemma_first_opaque_prefix(m, ctrl, x, y, i - 1);
    }
}

/// One frame counted, saturating at the top so the count is monotone.
pub open spec fn spec_inc_frames(f: u64) -> u64 {
    if f == u64::MAX { f } else { (f + 1) as u64 }
}

/// The clock position after one dot: normally the dot steps, at dot
/// 340 the scanline steps (wrapping 261 to 0), and the odd-frame skip
/// jumps from pre-render dot 339 straight to (0, 0).
pub open spec fn spec_clock_adv(sl: u16, d: u16, skip: bool) -> (u16, u16) {
    if skip {
        (0u16, 0u16)
    } else if d < 340 {
        (sl, (d + 1) as u16)
    } else if sl == 261 {
        (0u16, 0u16)
    } else {
        ((sl + 1) as u16, 0u16)
    }
}

pub open spec fn spec_clock_pos(p: PPU) -> int {
    p.scanline * 341 + p.dot
}

/// Dots until the clock next reaches (240, 0), where the frame is
/// marked complete; 240 * 341 == 81840 and a frame is 89342 dots.
pub open spec fn spec_frame_dist(p: PPU) -> int {
    if spec_clock_pos(p) <= 81840 {
        81840 - spec_clock_pos(p)
    } else {
        171182 - spec_clock_pos(p)
    }
}

/// Every dot strictly shortens the distance to the frame mark (the
/// pre-render skip shortens it by two), so the mark is always reached.
pub proof fn lemma_frame_dist_step(p0: PPU, p1: PPU, skip: bool)
    requires
        p0.wf(),
        p1.wf(),
        (p1.scanline, p1.dot) == spec_clock_adv(p0.scanline, p0.dot, skip),
        skip ==> p0.scanline == 261 && p0.dot == 339,
        !(p0.scanline == 240 && p0.dot == 0),
    ensures
        spec_frame_dist(p1) < spec_frame_dist(p0),
{
}

/// Mask bounds the tile fetch and the PPUDATA path rely on.
proof fn lemma_vram_masks(v: u16)
    by (bit_vector)
    ensures
        v & 0x0fff < 0x1000,
        v & 0x0c00 <= 0x0c00,
        (v >> 4) & 0x38 <= 0x38,
        (v >> 2) & 0x07 <= 7,
        v & 0x3fff < 0x4000,
{
}

fn fetch_tile(mem: &mut RAM, v: u16, ctrl: u8) -> (r: (u8, u8, u8))
    requires
        old(mem).wf(),
    ensures
        final(mem).wf(),
        final(mem)@ == old(mem)@,
        r == spec_tile_fetch(old(mem)@, v, ctrl),
{
    proof {
        lemma_vram_masks(v);
    }
    let index = mem.read_vram_value(0x2000 + (v & 0x0fff) as usize);
    let base: u16 = if ctrl & 0x10 != 0 {
        0x1000
    } else {
        0
    };
    let pat: u16 = base + (index as u16) * 16 + (v >> 12) % 8;
    let lo = mem.read_vram_value(pat as usize);
    let hi = mem.read_vram_value(pat as usize + 8);
    let at = mem.read_vram_value(
        0x23c0 + ((v & 0x0c00) as usize) + (((v >> 4) & 0x38) as usize) + (((v >> 2)
            & 0x07) as usize),
    );
    let s1: u8 = if (v >> 4) & 4 != 0 {
        4
    } else {
        0
    };
    let s2: u8 = if v & 2 != 0 {
        2
    } else {
        0
    };
    (lo, hi, (at >> (s1 + s2)) % 4)
}

/// The pixel sprite `i` contributes at (x, y), computed exactly as
/// `spec_sprite_pix` states it.
fn sprite_pix_at(mem: &mut RAM, ctrl: u8, i: usize, x: u16, y: u16) -> (r: u8)
    requires
        old(mem).wf(),
        i < 64,
    ensures
        final(mem).wf(),
        final(mem)@ == old(mem)@,
        r == spec_sprite_pix(old(mem)@, ctrl, i as int, x, y),
{
    let sy = mem.read_oam_byte(i * 4) as u16;
    let tile = mem.read_oam_byte(i * 4 + 1);
    let attr = mem.read_oam_byte(i * 4 + 2);
    let sx = mem.read_oam_byte(i * 4 + 3) as u16;
    let height: u16 = if ctrl & 0x20 != 0 {
        16
    } else {
        8
    };
    if sy <= y && y < sy + height && sx <= x && x < sx + 8 {
        let row: u16 = if attr & 0x80 != 0 {
            (height - 1) - (y - sy)
        } else {
            y - sy
        };
        let bitpos: u8 = if attr & 0x40 != 0 {
            (x - sx) as u8
        } else {
            (7 - (x - sx)) as u8
        };
        let pa: u16 = if ctrl & 0x20 != 0 {
            (if tile & 1 != 0 { 0x1000u16 } else { 0u16 }) + ((tile & 0xfe) as u16) * 16 + row % 8
                + (if row >= 8 { 16u16 } else { 0u16 })
        } else {
            (if ctrl & 0x08 != 0 { 0x1000u16 } else { 0u16 }) + (tile as u16) * 16 + row
        };
        let lo_b = mem.read_vram_value(pa as usize);
        let hi_b = mem.read_vram_value(pa as usize + 8);
        let hi_set = (hi_b >> bitpos) & 1 != 0;
        let lo_set = (lo_b >> bitpos) & 1 != 0;
        if hi_set {
            if lo_set { 3 } else { 2 }
        } else {
            if lo_set { 1 } else { 0 }
        }
    } else {
        0
    }
}

impl Default for PPU {
    /// Reset state: all registers clear, the clock at scanline 0 dot 0,
    /// a black frame.
    fn default() -> (d: PPU)
        ensures
            d.wf(),
            d.ctrl == 0 && d.mask == 0 && d.oam_addr == 0,
            d.v_addr == 0 && d.t_addr == 0 && d.fine_x == 0 && !d.write_toggle,
            d.scanline == 0 && d.dot == 0 && !d.odd_frame,
            !d.vblank && !d.sprite0_hit && !d.sprite_overflow,
            !d.nmi_request && !d.frame_complete,
            d.frames == 0,
    {
        PPU {
            ctrl: 0,
            mask: 0,
            oam_addr: 0,
            v_addr: 0,
            t_addr: 0,
            fine_x: 0,
            write_toggle: false,
            scanline: 0,
            dot: 0,
            odd_frame: false,
            vblank: false,
            sprite0_hit: false,
            sprite_overflow: false,
            nmi_request: false,
            frame_complete: false,
            frames: 0,
            tile_lo: 0,
            tile_hi: 0,
            attrib: 0,
            next_lo: 0,
            next_hi: 0,
            next_attrib: 0,
            last_bg_pix: 0,
            output: output_image::new(),
        }
    }
}

#[allow(non_snake_case)]
impl PPU {
    /// PPUCTRL write; see `spec_ctrl_write`.
    pub fn updatePpuCtrl(&mut self, byte_val: u8)
        ensures
            *final(self) == spec_ctrl_write(*old(self), byte_val),
    {
        self.ctrl = byte_val;
        self.t_addr = (self.t_addr & 0xf3ff) | (((byte_val & 3) as u16) << 10);
    }

    /// PPUMASK write; see `spec_mask_write`.
    pub fn updatePpuMask(&mut self, byte_val: u8)
        ensures
            *final(self) == spec_mask_write(*old(self), byte_val),
    {
        self.mask = byte_val;
    }

    /// The PPUSTATUS-read clears; see `spec_status_read`.
    pub fn readPpuStatus(&mut self)
        ensures
            *final(self) == spec_status_read(*old(self)),
    {
        self.vblank = false;
        self.write_toggle = false;
    }

    /// PPUSCROLL write; see `spec_scroll_write`.
    pub fn updatePpuScroll(&mut self, byte_val: u8)
        ensures
            *final(self) == spec_scroll_write(*old(self), byte_val),
            final(self).fine_x < 8 || final(self).fine_x == old(self).fine_x,
    {
        proof {
            assert(byte_val & 7 < 8) by (bit_vector);
        }
        if !self.write_toggle {
            self.t_addr = (self.t_addr & 0x7fe0) | ((byte_val >> 3) as u16);
            self.fine_x = byte_val & 7;
            self.write_toggle = true;
        } else {
            self.t_addr = ((self.t_addr & 0x0c1f) | (((byte_val & 0xf8) as u16) << 2)) | (((
            byte_val & 0x07) as u16) << 12);
            self.write_toggle = false;
        }
    }

    /// PPUADDR write; see `spec_addr_write`.
    pub fn updatePpuAddr(&mut self, byte_val: u8)
        ensures
            *final(self) == spec_addr_write(*old(self), byte_val),
    {
        if !self.write_toggle {
            self.t_addr = (self.t_addr & 0x00ff) | (((byte_val & 0x3f) as u16) << 8);
            self.write_toggle = true;
        } else {
            self.t_addr = (self.t_addr & 0x7f00) | (byte_val as u16);
            self.v_addr = self.t_addr;
            self.write_toggle = false;
        }
    }

    /// OAMADDR write; see `spec_oamaddr_write`.
    pub fn updateOAMAddr(&mut self, byte_val: u8)
        ensures
            *final(self) == spec_oamaddr_write(*old(self), byte_val),
    {
        self.oam_addr = byte_val;
    }

    /// OAMDATA write: store the byte at OAMADDR and advance OAMADDR.
    pub fn updateOAMData(&mut self, mem: &mut RAM, byte_val: u8)
        requires
            old(mem).wf(),
        ensures
            final(mem).wf(),
            final(mem)@ == (MemModel {
                oam: old(mem)@.oam.update(old(self).oam_addr as int, byte_val),
                ..old(mem)@
            }),
            *final(self) == (PPU { oam_addr: wrap_inc8(old(self).oam_addr), ..*old(self) }),
    {
        mem.write_oam_byte(self.oam_addr as usize, byte_val);
        self.oam_addr = self.oam_addr.wrapping_add(1);
    }

    fn inc_coarse_x(&mut self)
        ensures
            *final(self) == (PPU { v_addr: spec_inc_coarse_x(old(self).v_addr), ..*old(self) }),
    {
        if self.v_addr & 0x001f == 31 {
            self.v_addr = (self.v_addr & 0xffe0) ^ 0x0400;
        } else {
            self.v_addr = self.v_addr.wrapping_add(1);
        }
    }

    fn inc_y(&mut self)
        ensures
            *final(self) == (PPU { v_addr: spec_inc_y(old(self).v_addr), ..*old(self) }),
    {
        if self.v_addr & 0x7000 != 0x7000 {
            self.v_addr = self.v_addr.wrapping_add(0x1000);
        } else {
            let v2 = self.v_addr & 0x8fff;
            let y = (v2 & 0x03e0) >> 5;
            if y == 29 {
                self.v_addr = (v2 & 0xfc1f) ^ 0x0800;
            } else if y == 31 {
                self.v_addr = v2 & 0xfc1f;
            } else {
                self.v_addr = (v2 & 0xfc1f) | (y.wrapping_add(1) << 5);
            }
        }
    }

    fn copy_horizontal(&mut self)
        ensures
            *final(self) == (PPU {
                v_addr: spec_copy_horizontal(old(self).v_addr, old(self).t_addr),
                ..*old(self)
            }),
    {
        self.v_addr = (self.v_addr & 0xfbe0) | (self.t_addr & 0x041f);
    }

    fn copy_vertical(&mut self)
        ensures
            *final(self) == (PPU {
                v_addr: spec_copy_vertical(old(self).v_addr, old(self).t_addr),
                ..*old(self)
            }),
    {
        self.v_addr = (self.v_addr & 0x841f) | (self.t_addr & 0x7be0);
    }

    fn fill_tiles(&mut self, mem: &mut RAM)
        requires
            old(mem).wf(),
        ensures
            final(mem).wf(),
            final(mem)@ == old(mem)@,
            *final(self) == spec_fill_tiles(*old(self), old(mem)@),
    {
        let f0 = fetch_tile(mem, self.v_addr, self.ctrl);
        self.tile_lo = f0.0;
        self.tile_hi = f0.1;
        self.attrib = f0.2;
        self.inc_coarse_x();
        let f1 = fetch_tile(mem, self.v_addr, self.ctrl);
        self.next_lo = f1.0;
        self.next_hi = f1.1;
        self.next_attrib = f1.2;
    }

    fn advance_tiles(&mut self, mem: &mut RAM)
        requires
            old(mem).wf(),
        ensures
            final(mem).wf(),
            final(mem)@ == old(mem)@,
            *final(self) == spec_advance_tiles(*old(self), old(mem)@),
    {
        self.tile_lo = self.next_lo;
        self.tile_hi = self.next_hi;
        self.attrib = self.next_attrib;
        self.inc_coarse_x();
        let f = fetch_tile(mem, self.v_addr, self.ctrl);
        self.next_lo = f.0;
        self.next_hi = f.1;
        self.next_attrib = f.2;
    }

    /// Emit the background pixel of the current dot into the frame:
    /// fine-X selects the pattern bit (borrowing from the next tile at
    /// a seam), the left-column mask blanks the first eight pixels,
    /// and the 4-bit palette index resolves through palette RAM (index
    /// 0 aliasing the universal background).
    pub fn draw_bg(&mut self, mem: &mut RAM)
        requires
            old(self).wf(),
            old(mem).wf(),
            old(self).scanline < 240,
            1 <= old(self).dot <= 256,
        ensures
            final(self).wf(),
            final(mem).wf(),
            final(mem)@ == old(mem)@,
            *final(self) == (PPU {
                last_bg_pix: spec_bg_pattern_masked(*old(self), old(self).dot),
                output: final(self).output,
                ..*old(self)
            }),
            final(self).output.mem@ == old(self).output.mem@.update(
                old(self).scanline as int * 256 + old(self).dot - 1,
                spec_bg_colour(*old(self), old(mem)@, old(self).dot),
            ),
    {
        let d = self.dot;
        let px: u16 = d - 1;
        let sel: u16 = px % 8 + self.fine_x as u16;
        let lo_b = if sel < 8 {
            self.tile_lo
        } else {
            self.next_lo
        };
        let hi_b = if sel < 8 {
            self.tile_hi
        } else {
            self.next_hi
        };
        let att = if sel < 8 {
            self.attrib
        } else {
            self.next_attrib
        };
        let bitpos: u8 = if sel < 8 {
            (7 - sel) as u8
        } else {
            (15 - sel) as u8
        };
        let hi_set = (hi_b >> bitpos) & 1 != 0;
        let lo_set = (lo_b >> bitpos) & 1 != 0;
        let pat: u8 = if hi_set {
            if lo_set { 3 } else { 2 }
        } else {
            if lo_set { 1 } else { 0 }
        };
        let masked: u8 = if px < 8 && self.mask & 0x02 == 0 {
            0
        } else {
            pat
        };
        self.last_bg_pix = masked;
        let pal: usize = if masked == 0 {
            0
        } else {
            (att % 4) as usize * 4 + masked as usize
        };
        let color = mem.read_vram_value(0x3f00 + pal);
        let rgb = nes_rgb(color);
        let idx: usize = self.scanline as usize * FRAME_WIDTH + px as usize;
        self.output.mem[idx] = rgb;
    }

    /// Overlay the sprite pixel of the current dot, if any: the first
    /// of the 64 OAM sprites with an opaque pixel here wins; the
    /// priority bit sends it behind an opaque background; sprite 0
    /// overlapping an opaque background at x in [1, 254] sets the
    /// sprite-0 hit flag; the left-column mask blanks the first eight
    /// pixels; sprites are 8 or 16 rows per PPUCTRL bit 5.
    /// Overlay the sprite pixel of the current dot, if any: the first
    /// of the 64 OAM sprites with an opaque pixel here wins; the
    /// priority bit sends it behind an opaque background; sprite 0
    /// overlapping an opaque background at x in [1, 254] sets the
    /// sprite-0 hit flag; the left-column mask blanks the first eight
    /// pixels; sprites are 8 or 16 rows per PPUCTRL bit 5.
    #[verifier::spinoff_prover]
    #[verifier::rlimit(100)]
    pub fn draw_fg(&mut self, mem: &mut RAM)
        requires
            old(self).wf(),
            old(mem).wf(),
            old(self).scanline < 240,
            1 <= old(self).dot <= 256,
        ensures
            final(self).wf(),
            final(mem).wf(),
            final(mem)@ == old(mem)@,
            *final(self) == (PPU {
                sprite0_hit: final(self).sprite0_hit,
                output: final(self).output,
                ..*old(self)
            }),
            ({
                let x = (old(self).dot - 1) as u16;
                let y = old(self).scanline;
                let m = old(mem)@;
                let w = spec_first_opaque_from(m, old(self).ctrl, x, y, 0);
                if x < 8 && old(self).mask & 0x04 == 0 {
                    *final(self) == *old(self)
                } else if w == 64 {
                    *final(self) == *old(self)
                } else {
                    let pix = spec_sprite_pix(m, old(self).ctrl, w, x, y);
                    let attr = m.oam[4 * w + 2];
                    &&& final(self).sprite0_hit == (old(self).sprite0_hit || (w == 0 && old(
                        self,
                    ).last_bg_pix != 0 && 1 <= x && x < 255))
                    &&& ((attr & 0x20 == 0 || old(self).last_bg_pix == 0)
                        ==> final(self).output.mem@ == old(self).output.mem@.update(
                        y as int * 256 + x,
                        spec_nes_rgb(spec_vram_read(m, 0x3f00 + 0x10 + (attr % 4) * 4 + pix)),
                    ))
                    &&& (!(attr & 0x20 == 0 || old(self).last_bg_pix == 0)
                        ==> final(self).output.mem@ == old(self).output.mem@)
                }
            }),
    {
        let x_pix: u16 = self.dot - 1;
        let y_pix: u16 = self.scanline;
        if x_pix < 8 && self.mask & 0x04 == 0 {
            return ;
        }
        let ghost m0 = mem@;
        let ghost p0 = *self;
        let ctrl = self.ctrl;
        let mut i: usize = 0;
        let mut hit: bool = false;
        while i < 64 && !hit
            invariant
                mem.wf(),
                mem@ == m0,
                i <= 64,
                p0.wf(),
                p0.scanline < 240,
                1 <= p0.dot <= 256,
                x_pix == p0.dot - 1,
                y_pix == p0.scanline,
                ctrl == p0.ctrl,
                self.wf(),
                !hit ==> *self == p0,
                !hit ==> forall|j: int| 0 <= j < i ==> spec_sprite_pix(m0, p0.ctrl, j, x_pix, y_pix)
                    == 0,
                hit ==> ({
                    let w = i as int;
                    let pix = spec_sprite_pix(m0, p0.ctrl, w, x_pix, y_pix);
                    let attr = m0.oam[4 * w + 2];
                    &&& i < 64
                    &&& w == spec_first_opaque_from(m0, p0.ctrl, x_pix, y_pix, 0)
                    &&& pix != 0
                    &&& *self == (PPU {
                        sprite0_hit: self.sprite0_hit,
                        output: self.output,
                        ..p0
                    })
                    &&& self.sprite0_hit == (p0.sprite0_hit || (w == 0 && p0.last_bg_pix != 0 && 1
                        <= x_pix && x_pix < 255))
                    &&& ((attr & 0x20 == 0 || p0.last_bg_pix == 0) ==> self.output.mem@
                        == p0.output.mem@.update(
                        y_pix as int * 256 + x_pix,
                        spec_nes_rgb(spec_vram_read(m0, 0x3f00 + 0x10 + (attr % 4) * 4 + pix)),
                    ))
                    &&& (!(attr & 0x20 == 0 || p0.last_bg_pix == 0) ==> self.output.mem@
                        == p0.output.mem@)
                }),
            decreases 64 - i, (if hit { 0int } else { 1int }),
        {
            let pix = sprite_pix_at(mem, ctrl, i, x_pix, y_pix);
            if pix != 0 {
                let attr = mem.read_oam_byte(i * 4 + 2);
                proof {
                    lemma_first_opaque_prefix(m0, p0.ctrl, x_pix, y_pix, i as int);
                }
                if i == 0 && self.last_bg_pix != 0 && 1 <= x_pix && x_pix < 255 {
                    self.sprite0_hit = true;
                }
                if attr & 0x20 == 0 || self.last_bg_pix == 0 {
                    let pal: usize = 0x10 + (attr % 4) as usize * 4 + pix as usize;
                    let color = mem.read_vram_value(0x3f00 + pal);
                    let idx: usize = y_pix as usize * FRAME_WIDTH + x_pix as usize;
                    self.output.mem[idx] = nes_rgb(color);
                }
                hit = true;
            } else {
                i = i + 1;
            }
        }
        proof {
            if !hit {
                lemma_first_opaque_prefix(m0, p0.ctrl, x_pix, y_pix, 64);
            }
        }
    }
}

impl PPU {
    /// Advance the clock by one dot, doing the work of the current
    /// position first: on visible scanlines with rendering enabled,
    /// the pipeline priming at dot 1, the background and sprite pixel
    /// of dots 1-256, the per-8-dot tile advance, the Y increment at
    /// dot 256 and the horizontal copy at 257; the frame-complete mark
    /// on entering the post-render line; the vblank raise (and NMI
    /// request when enabled) at scanline 241 dot 1; the flag clears
    /// and vertical copies of the pre-render line; and the odd-frame
    /// skip of the last pre-render dot.
    #[verifier::spinoff_prover]
    #[verifier::rlimit(100)]
    pub fn tick(&mut self, mem: &mut RAM)
        requires
            old(self).wf(),
            old(mem).wf(),
        ensures
            final(self).wf(),
            final(mem).wf(),
            final(mem)@ == old(mem)@,
            final(self).ctrl == old(self).ctrl,
            final(self).mask == old(self).mask,
            final(self).oam_addr == old(self).oam_addr,
            final(self).fine_x == old(self).fine_x,
            final(self).t_addr == old(self).t_addr,
            final(self).write_toggle == old(self).write_toggle,
            ({
                let skip = old(self).scanline == 261 && old(self).dot == 339 && old(
                    self,
                ).odd_frame && old(self).mask & 0x18 != 0;
                &&& (final(self).scanline, final(self).dot) == spec_clock_adv(
                    old(self).scanline,
                    old(self).dot,
                    skip,
                )
                &&& final(self).odd_frame == (if skip || (old(self).scanline == 261 && old(
                    self,
                ).dot == 340) {
                    !old(self).odd_frame
                } else {
                    old(self).odd_frame
                })
            }),
            old(self).scanline == 241 && old(self).dot == 1 ==> final(self).vblank
                && final(self).nmi_request == (old(self).nmi_request || old(self).ctrl & 0x80
                != 0),
            old(self).scanline == 261 && old(self).dot == 1 ==> !final(self).vblank
                && !final(self).sprite0_hit && !final(self).sprite_overflow,
            !(old(self).scanline == 241 && old(self).dot == 1) && !(old(self).scanline == 261
                && old(self).dot == 1) ==> final(self).vblank == old(self).vblank,
            !(old(self).scanline == 241 && old(self).dot == 1) ==> final(self).nmi_request
                == old(self).nmi_request,
            final(self).frame_complete == (old(self).frame_complete || (old(self).scanline == 240
                && old(self).dot == 0)),
            final(self).frames == (if old(self).scanline == 240 && old(self).dot == 0 {
                spec_inc_frames(old(self).frames)
            } else {
                old(self).frames
            }),
            ({
                let rend = old(self).mask & 0x18 != 0;
                let sl = old(self).scanline;
                let d = old(self).dot;
                let vis = sl < 240;
                &&& (!rend ==> final(self).v_addr == old(self).v_addr)
                &&& (rend && !vis && !(sl == 261 && 280 <= d <= 304) ==> final(self).v_addr == old(
                    self,
                ).v_addr)
                &&& (rend && sl == 261 && 280 <= d <= 304 ==> final(self).v_addr
                    == spec_copy_vertical(old(self).v_addr, old(self).t_addr))
                &&& (rend && vis && d == 1 ==> final(self).v_addr == spec_inc_coarse_x(
                    old(self).v_addr,
                ))
                &&& (rend && vis && (d == 0 || (2 <= d <= 255 && d % 8 != 0) || d >= 258)
                    ==> final(self).v_addr == old(self).v_addr)
                &&& (rend && vis && 8 <= d <= 248 && d % 8 == 0 ==> final(self).v_addr
                    == spec_inc_coarse_x(old(self).v_addr))
                &&& (rend && vis && d == 256 ==> final(self).v_addr == spec_inc_y(
                    spec_inc_coarse_x(old(self).v_addr),
                ))
                &&& (rend && vis && d == 257 ==> final(self).v_addr == spec_copy_horizontal(
                    old(self).v_addr,
                    old(self).t_addr,
                ))
            }),
            ({
                let rend = old(self).mask & 0x18 != 0;
                let sl = old(self).scanline;
                let d = old(self).dot;
                let pf = spec_fill_tiles(*old(self), old(mem)@);
                let pa = spec_advance_tiles(*old(self), old(mem)@);
                &&& (rend && sl < 240 && d == 1 ==> final(self).tile_lo == pf.tile_lo && final(self).tile_hi == pf.tile_hi && final(self).attrib == pf.attrib && final(self).next_lo
                    == pf.next_lo && final(self).next_hi == pf.next_hi && final(self).next_attrib
                    == pf.next_attrib)
                &&& (rend && sl < 240 && 8 <= d <= 256 && d % 8 == 0 ==> final(self).tile_lo
                    == pa.tile_lo && final(self).tile_hi == pa.tile_hi && final(self).attrib
                    == pa.attrib && final(self).next_lo == pa.next_lo && final(self).next_hi
                    == pa.next_hi && final(self).next_attrib == pa.next_attrib)
            }),
            ({
                let rend = old(self).mask & 0x18 != 0;
                let sl = old(self).scanline;
                let d = old(self).dot;
                let drawing = rend && sl < 240 && 1 <= d && d <= 256;
                let idx = sl as int * 256 + d - 1;
                let pd = if d == 1 {
                    spec_fill_tiles(*old(self), old(mem)@)
                } else {
                    *old(self)
                };
                &&& (!drawing ==> final(self).output.mem@ == old(self).output.mem@ && final(self).last_bg_pix == old(self).last_bg_pix)
                &&& (drawing ==> forall|j: int|
                    0 <= j < FRAME_PIXELS && j != idx ==> final(self).output.mem@[j] == old(
                        self,
                    ).output.mem@[j])
                &&& (drawing && old(self).mask & 0x08 != 0 && old(self).mask & 0x10 == 0
                    ==> final(self).output.mem@[idx] == spec_bg_colour(pd, old(mem)@, d))
                &&& (drawing ==> final(self).last_bg_pix == (if old(self).mask & 0x08 != 0 {
                    spec_bg_pattern_masked(pd, d)
                } else {
                    0u8
                }))
            }),
    {
        let rendering = self.mask & 0x18 != 0;
        let sl = self.scanline;
        let d = self.dot;
        let skip = sl == 261 && d == 339 && self.odd_frame && rendering;
        if rendering && sl < 240 {
            if 1 <= d && d <= 256 {
                if d == 1 {
                    self.fill_tiles(mem);
                }
                if self.mask & 0x08 != 0 {
                    self.draw_bg(mem);
                } else {
                    self.last_bg_pix = 0;
                }
                if self.mask & 0x10 != 0 {
                    self.draw_fg(mem);
                }
                if d % 8 == 0 {
                    self.advance_tiles(mem);
                }
            }
            if d == 256 {
                self.inc_y();
            }
            if d == 257 {
                self.copy_horizontal();
            }
        }
        if sl == 240 && d == 0 {
            self.frame_complete = true;
            if self.frames < u64::MAX {
                self.frames = self.frames + 1;
            }
        }
        if sl == 241 && d == 1 {
            self.vblank = true;
            if self.ctrl & 0x80 != 0 {
                self.nmi_request = true;
            }
        }
        if sl == 261 {
            if d == 1 {
                self.vblank = false;
                self.sprite0_hit = false;
                self.sprite_overflow = false;
            }
            if rendering && 280 <= d && d <= 304 {
                self.copy_vertical();
            }
        }
        if skip {
            self.dot = 0;
            self.scanline = 0;
            self.odd_frame = !self.odd_frame;
        } else if self.dot == 340 {
            self.dot = 0;
            if self.scanline == 261 {
                self.scanline = 0;
                self.odd_frame = !self.odd_frame;
            } else {
                self.scanline = self.scanline + 1;
            }
        } else {
            self.dot = self.dot + 1;
        }
    }

    /// One PPU step: apply the register traffic the bus recorded since
    /// the last step exactly as `spec_consume` states it, clear the
    /// records, advance one dot, and publish the status byte for the
    /// CPU's next read.
    #[verifier::spinoff_prover]
    #[verifier::rlimit(100)]
    /// Apply the recorded PPUCTRL/PPUMASK/PPUSTATUS-read/OAMADDR
    /// traffic exactly as `spec_consume_regs_a` states it.
    #[verifier::spinoff_prover]
    #[verifier::rlimit(100)]
    fn consume_regs_a(&mut self, mem: &RAM)
        requires
            old(self).wf(),
            mem.wf(),
        ensures
            final(self).wf(),
            *final(self) == spec_consume_regs_a(*old(self), mem@),
            final(self).scanline == old(self).scanline,
            final(self).dot == old(self).dot,
            final(self).odd_frame == old(self).odd_frame,
            final(self).frames == old(self).frames,
            final(self).frame_complete == old(self).frame_complete,
            final(self).nmi_request == old(self).nmi_request,
            final(self).sprite0_hit == old(self).sprite0_hit,
            final(self).sprite_overflow == old(self).sprite_overflow,
    {
        let ghost m_in = mem@;
        let ghost p_in = *old(self);
        if mem.was_written(0) {
            let v = mem.peek_ppu_reg(0);
            self.updatePpuCtrl(v);
        }
        let ghost p0 = if m_in.reg_write[0] == 1 { spec_ctrl_write(p_in, m_in.regs[0]) } else { p_in };
        proof {
            assert(*self == p0);
        }
        if mem.was_written(1) {
            let v = mem.peek_ppu_reg(1);
            self.updatePpuMask(v);
        }
        let ghost p1 = if m_in.reg_write[1] == 1 { spec_mask_write(p0, m_in.regs[1]) } else { p0 };
        proof {
            assert(*self == p1);
        }
        if mem.was_read(2) {
            self.readPpuStatus();
        }
        let ghost p2 = if m_in.reg_read[2] == 1 { spec_status_read(p1) } else { p1 };
        proof {
            assert(*self == p2);
        }
        if mem.was_written(3) {
            let v = mem.peek_ppu_reg(3);
            self.updateOAMAddr(v);
        }
    }

    /// Apply the recorded OAMDATA/PPUSCROLL/PPUADDR traffic exactly as
    /// `spec_consume_regs_b` states it.
    #[verifier::spinoff_prover]
    #[verifier::rlimit(100)]
    fn consume_regs_b(&mut self, mem: &mut RAM)
        requires
            old(self).wf(),
            old(mem).wf(),
        ensures
            final(self).wf(),
            final(mem).wf(),
            *final(self) == spec_consume_regs_b(*old(self), old(mem)@).0,
            final(mem)@ == spec_consume_regs_b(*old(self), old(mem)@).1,
            final(self).scanline == old(self).scanline,
            final(self).dot == old(self).dot,
            final(self).odd_frame == old(self).odd_frame,
            final(self).frames == old(self).frames,
            final(self).frame_complete == old(self).frame_complete,
            final(self).nmi_request == old(self).nmi_request,
            final(self).sprite0_hit == old(self).sprite0_hit,
            final(self).sprite_overflow == old(self).sprite_overflow,
            final(self).vblank == old(self).vblank,
    {
        let ghost m_in = old(mem)@;
        let ghost p3 = *old(self);
        if mem.was_written(4) {
            let v = mem.peek_ppu_reg(4);
            self.updateOAMData(mem, v);
        }
        let ghost p4 = if m_in.reg_write[4] == 1 { PPU { oam_addr: wrap_inc8(p3.oam_addr), ..p3 } } else { p3 };
        let ghost m4 = if m_in.reg_write[4] == 1 { MemModel { oam: m_in.oam.update(p3.oam_addr as int, m_in.regs[4]), ..m_in } } else { m_in };
        proof {
            assert(*self == p4);
            assert(mem@ == m4);
        }
        if mem.was_written(5) {
            let v = mem.peek_ppu_reg(5);
            self.updatePpuScroll(v);
        }
        let ghost p5 = if m_in.reg_write[5] == 1 { spec_scroll_write(p4, m_in.regs[5]) } else { p4 };
        proof {
            assert(*self == p5);
        }
        if mem.was_written(6) {
            let v = mem.peek_ppu_reg(6);
            self.updatePpuAddr(v);
        }
    }

    /// Apply the recorded PPUDATA traffic (a write through the latched
    /// address, a buffered read with the palette bypass) exactly as
    /// `spec_consume_data` states it, and clear the records.
    #[verifier::spinoff_prover]
    #[verifier::rlimit(100)]
    fn consume_data(&mut self, mem: &mut RAM)
        requires
            old(self).wf(),
            old(mem).wf(),
        ensures
            final(self).wf(),
            final(mem).wf(),
            *final(self) == spec_consume_data(*old(self), old(mem)@).0,
            final(mem)@ == spec_consume_data(*old(self), old(mem)@).1,
            final(self).scanline == old(self).scanline,
            final(self).dot == old(self).dot,
            final(self).odd_frame == old(self).odd_frame,
            final(self).frames == old(self).frames,
            final(self).frame_complete == old(self).frame_complete,
            final(self).nmi_request == old(self).nmi_request,
            final(self).sprite0_hit == old(self).sprite0_hit,
            final(self).sprite_overflow == old(self).sprite_overflow,
            final(self).ctrl == old(self).ctrl,
            final(self).mask == old(self).mask,
            final(self).oam_addr == old(self).oam_addr,
            final(self).fine_x == old(self).fine_x,
            final(self).t_addr == old(self).t_addr,
            final(self).write_toggle == old(self).write_toggle,
            final(self).vblank == old(self).vblank,
    {
        let ghost m4 = old(mem)@;
        let ghost p6 = *old(self);
        if mem.was_written(7) {
            proof {
                lemma_vram_masks(self.v_addr);
            }
            let v = mem.read_ppu_data_no_incr();
            mem.write_vram_value((self.v_addr & 0x3fff) as usize, v);
            self.v_addr = self.v_addr.wrapping_add(self.vram_increment());
        }
        let ghost p7 = if m4.reg_write[7] == 1 { PPU { v_addr: u16_wadd(p6.v_addr, spec_vram_incr(p6.ctrl)), ..p6 } } else { p6 };
        let ghost m7 = if m4.reg_write[7] == 1 { spec_vram_write_model(m4, (p6.v_addr & 0x3fff) as int, m4.regs[7]) } else { m4 };
        proof {
            assert(*self == p7);
            assert(mem@ == m7);
        }
        if mem.was_read(7) {
            proof {
                lemma_vram_masks(self.v_addr);
            }
            let buffered = mem.read_vram_value((self.v_addr & 0x3fff) as usize);
            self.v_addr = self.v_addr.wrapping_add(self.vram_increment());
            proof {
                lemma_vram_masks(self.v_addr);
            }
            let nxt = (self.v_addr & 0x3fff) as usize;
            let publish = if nxt >= 0x3f00 {
                mem.read_vram_value(nxt)
            } else {
                buffered
            };
            mem.write_ppu_data_no_incr(publish);
        }
        let ghost p8 = if m4.reg_read[7] == 1 { PPU { v_addr: u16_wadd(p7.v_addr, spec_vram_incr(p7.ctrl)), ..p7 } } else { p7 };
        let ghost m8 = if m4.reg_read[7] == 1 { ({
            let nxt = u16_wadd(p7.v_addr, spec_vram_incr(p7.ctrl)) & 0x3fff;
            let publish = if nxt >= 0x3f00 {
                spec_vram_read(m7, nxt as int)
            } else {
                spec_vram_read(m7, (p7.v_addr & 0x3fff) as int)
            };
            MemModel { regs: m7.regs.update(7, publish), ..m7 }
        }) } else { m7 };
        proof {
            assert(*self == p8);
            assert(mem@ == m8);
        }
        mem.clear_read_write_regs();
    }

    pub fn run(&mut self, mem: &mut RAM)
        requires
            old(self).wf(),
            old(mem).wf(),
        ensures
            final(self).wf(),
            final(mem).wf(),
            ({
                let pm = spec_consume(*old(self), old(mem)@);
                let p1 = pm.0;
                let m1 = pm.1;
                &&& p1.scanline == old(self).scanline && p1.dot == old(self).dot
                &&& p1.frames == old(self).frames && p1.frame_complete == old(self).frame_complete
                &&& p1.odd_frame == old(self).odd_frame && p1.nmi_request == old(self).nmi_request
                &&& final(self).ctrl == p1.ctrl && final(self).mask == p1.mask
                &&& final(self).oam_addr == p1.oam_addr && final(self).fine_x == p1.fine_x
                &&& final(self).t_addr == p1.t_addr && final(self).write_toggle == p1.write_toggle
                &&& (p1.mask & 0x18 == 0 ==> final(self).v_addr == p1.v_addr)
                &&& (!(old(self).scanline == 241 && old(self).dot == 1) && !(old(self).scanline
                    == 261 && old(self).dot == 1) ==> final(self).vblank == p1.vblank)
                &&& (old(self).scanline == 241 && old(self).dot == 1 ==> final(self).vblank
                    && final(self).nmi_request == (old(self).nmi_request || p1.ctrl & 0x80 != 0))
                &&& (old(self).scanline == 261 && old(self).dot == 1 ==> !final(self).vblank
                    && !final(self).sprite0_hit && !final(self).sprite_overflow)
                &&& (!(old(self).scanline == 241 && old(self).dot == 1) ==> final(self).nmi_request == old(self).nmi_request)
                &&& ({
                    let skip = old(self).scanline == 261 && old(self).dot == 339 && old(
                        self,
                    ).odd_frame && p1.mask & 0x18 != 0;
                    (final(self).scanline, final(self).dot) == spec_clock_adv(
                        old(self).scanline,
                        old(self).dot,
                        skip,
                    )
                })
                &&& final(self).frame_complete == (old(self).frame_complete || (old(self).scanline
                    == 240 && old(self).dot == 0))
                &&& final(self).frames == (if old(self).scanline == 240 && old(self).dot == 0 {
                    spec_inc_frames(old(self).frames)
                } else {
                    old(self).frames
                })
                &&& final(mem)@ == (MemModel {
                    regs: m1.regs.update(
                        2,
                        spec_status_byte(
                            final(self).vblank,
                            final(self).sprite0_hit,
                            final(self).sprite_overflow,
                        ),
                    ),
                    ..m1
                })
            }),
    {
        self.consume_regs_a(mem);
        self.consume_regs_b(mem);
        self.consume_data(mem);
        self.tick(mem);
        let status = self.status_byte();
        mem.poke_ppu_reg(2, status);
    }

    /// The PPUDATA address step of this PPU's configuration.
    fn vram_increment(&self) -> (r: u16)
        ensures
            r == spec_vram_incr(self.ctrl),
    {
        if self.ctrl & 0x04 != 0 {
            32
        } else {
            1
        }
    }

    fn status_byte(&self) -> (r: u8)
        ensures
            r == spec_status_byte(self.vblank, self.sprite0_hit, self.sprite_overflow),
    {
        ((if self.vblank { 0x80u8 } else { 0u8 }) | (if self.sprite0_hit { 0x40u8 } else { 0u8 }))
            | (if self.sprite_overflow { 0x20u8 } else { 0u8 })
    }

    /// Borrow the composited frame: exactly 256 x 240 RGB triples.
    pub fn get_output_image(&self) -> (r: &Vec<(u8, u8, u8)>)
        requires
            self.wf(),
        ensures
            r@ == self.output.mem@,
            r@.len() == FRAME_PIXELS,
    {
        &self.output.mem
    }

    /// Is the PPU inside vertical blank (the frame safe to scan out)?
    pub fn can_scan_out(&self) -> (r: bool)
        ensures
            r == self.vblank,
    {
        self.vblank
    }

    /// Consume the NMI request the vblank raise latched, if any.
    pub fn take_nmi(&mut self) -> (r: bool)
        ensures
            r == old(self).nmi_request,
            *final(self) == (PPU { nmi_request: false, ..*old(self) }),
    {
        let r = self.nmi_request;
        self.nmi_request = false;
        r
    }

    /// Consume the frame-complete mark set on entering the post-render
    /// scanline, if any.
    pub fn take_frame_complete(&mut self) -> (r: bool)
        ensures
            r == old(self).frame_complete,
            *final(self) == (PPU { frame_complete: false, ..*old(self) }),
    {
        let r = self.frame_complete;
        self.frame_complete = false;
        r
    }
}

} // verus!
