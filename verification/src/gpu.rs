//! LCD controller: the per-scanline state machine (OAM scan, pixel transfer,
//! H-blank, V-blank), VRAM/OAM ownership with mode gating, scanline
//! composition from background, window and sprites, and the STAT/LY
//! interrupt sources.
//!
//! A scanline lasts 456 dots; LY runs 0..=153, lines 144..=153 being
//! V-blank. `step` advances the dot clock and its contract pins the new
//! (LY, dot) position exactly: the pair, read as `LY * 456 + dot`, advances
//! by the dots consumed, modulo one frame of 70224 dots.

use vstd::prelude::*;
use crate::ic::{INT_VBLANK, INT_LCD};

verus! {

/// Dots in one scanline.
pub const LINE_DOTS: u32 = 456;

/// Dots in one whole frame (154 lines).
pub const FRAME_DOTS: u32 = 70224;

pub struct Gpu {
    /// `FF40`.
    pub lcdc: u8,
    /// Writable STAT bits (3-6); the low three are derived.
    pub stat_en: u8,
    /// `FF42` / `FF43`.
    pub scy: u8,
    pub scx: u8,
    /// `FF44`: current scanline.
    pub ly: u8,
    /// `FF45`.
    pub lyc: u8,
    /// `FF47`-`FF49`: monochrome palettes.
    pub bgp: u8,
    pub obp0: u8,
    pub obp1: u8,
    /// `FF4A` / `FF4B`.
    pub wy: u8,
    pub wx: u8,
    /// CGB palette index/data ports (`FF68`-`FF6B`), stored only.
    pub bgpi: u8,
    pub bgpd: u8,
    pub obpi: u8,
    pub obpd: u8,
    /// Dot counter within the current line.
    pub clk: u32,
    /// 8 KiB of video RAM.
    pub vram: Vec<u8>,
    /// 160 bytes of object attribute memory.
    pub oam: Vec<u8>,
    /// The scanline most recently composed, one packed RGB word per pixel.
    pub line: Vec<u32>,
}

impl Gpu {
    pub open spec fn wf(self) -> bool {
        &&& self.ly < 154
        &&& self.stat_en % 8 == 0 && self.stat_en <= 120
        &&& self.clk < LINE_DOTS
        &&& self.vram@.len() == 0x2000
        &&& self.oam@.len() == 160
        &&& self.line@.len() == 160
    }

    pub open spec fn lcd_on(self) -> bool {
        self.lcdc / 128 % 2 == 1
    }

    /// The mode the state machine is in, derived from the position: V-blank
    /// exactly on lines 144..=153, otherwise OAM scan for the first 80 dots,
    /// pixel transfer for the next 172, H-blank for the rest of the line.
    pub open spec fn mode_s(self) -> u8 {
        if !self.lcd_on() {
            0
        } else if self.ly >= 144 {
            1
        } else if self.clk < 80 {
            2
        } else if self.clk < 252 {
            3
        } else {
            0
        }
    }

    pub fn new() -> (r: Gpu)
        ensures
            r.wf(),
            r.ly == 0 && r.clk == 0,
            !r.lcd_on() || r.mode_s() == 2,
            r.lcdc == 0x91,
    {
        Gpu {
            lcdc: 0x91,
            stat_en: 0,
            scy: 0,
            scx: 0,
            ly: 0,
            lyc: 0,
            bgp: 0xfc,
            obp0: 0xff,
            obp1: 0xff,
            wy: 0,
            wx: 0,
            bgpi: 0,
            bgpd: 0,
            obpi: 0,
            obpd: 0,
            clk: 0,
            vram: vec![0u8; 0x2000],
            oam: vec![0u8; 160],
            line: vec![0u32; 160],
        }
    }

    pub fn mode(&self) -> (r: u8)
        ensures
            r == self.mode_s(),
    {
        if self.lcdc / 128 % 2 == 0 {
            0
        } else if self.ly >= 144 {
            1
        } else if self.clk < 80 {
            2
        } else if self.clk < 252 {
            3
        } else {
            0
        }
    }

    /// VRAM as the CPU sees it: `FF` during pixel transfer.
    pub open spec fn spec_read_vram(self, addr: u16) -> u8
        recommends
            self.wf(),
            0x8000 <= addr < 0xa000,
    {
        if self.mode_s() == 3 {
            0xff
        } else {
            self.vram@[addr - 0x8000]
        }
    }

    /// OAM as the CPU sees it: `FF` during OAM scan and pixel transfer.
    pub open spec fn spec_read_oam(self, addr: u16) -> u8
        recommends
            self.wf(),
            0xfe00 <= addr < 0xfea0,
    {
        if self.mode_s() == 2 || self.mode_s() == 3 {
            0xff
        } else {
            self.oam@[addr - 0xfe00]
        }
    }

    pub fn read_vram(&self, addr: u16) -> (r: u8)
        requires
            self.wf(),
            0x8000 <= addr < 0xa000,
        ensures
            r == self.spec_read_vram(addr),
    {
        if self.mode() == 3 {
            0xff
        } else {
            self.vram[(addr - 0x8000) as usize]
        }
    }

    pub fn read_oam(&self, addr: u16) -> (r: u8)
        requires
            self.wf(),
            0xfe00 <= addr < 0xfea0,
        ensures
            r == self.spec_read_oam(addr),
    {
        let m: u8 = self.mode();
        if m == 2 || m == 3 {
            0xff
        } else {
            self.oam[(addr - 0xfe00) as usize]
        }
    }

    /// A VRAM write lands unless the pixel pipeline owns VRAM (mode 3).
    pub open spec fn vram_write_view(self, addr: u16, v: u8) -> Seq<u8>
        recommends
            self.wf(),
            0x8000 <= addr < 0xa000,
    {
        if self.mode_s() == 3 {
            self.vram@
        } else {
            self.vram@.update(addr - 0x8000, v)
        }
    }

    pub fn write_vram(&mut self, addr: u16, v: u8)
        requires
            old(self).wf(),
            0x8000 <= addr < 0xa000,
        ensures
            final(self).wf(),
            *final(self) == (Gpu { vram: final(self).vram, ..*old(self) }),
            final(self).vram@ == old(self).vram_write_view(addr, v),
    {
        if self.mode() != 3 {
            self.vram.set((addr - 0x8000) as usize, v);
        }
    }

    /// An OAM write lands in H-blank and V-blank only.
    pub open spec fn oam_write_view(self, addr: u16, v: u8) -> Seq<u8>
        recommends
            self.wf(),
            0xfe00 <= addr < 0xfea0,
    {
        if self.mode_s() == 2 || self.mode_s() == 3 {
            self.oam@
        } else {
            self.oam@.update(addr - 0xfe00, v)
        }
    }

    pub fn write_oam(&mut self, addr: u16, v: u8)
        requires
            old(self).wf(),
            0xfe00 <= addr < 0xfea0,
        ensures
            final(self).wf(),
            *final(self) == (Gpu { oam: final(self).oam, ..*old(self) }),
            final(self).oam@ == old(self).oam_write_view(addr, v),
    {
        let m: u8 = self.mode();
        if m != 2 && m != 3 {
            self.oam.set((addr - 0xfe00) as usize, v);
        }
    }

    /// OAM write that ignores mode gating; only the DMA sequencer uses it.
    pub fn oam_force_set(&mut self, idx: u8, v: u8)
        requires
            old(self).wf(),
            idx < 160,
        ensures
            final(self).wf(),
            *final(self) == (Gpu { oam: final(self).oam, ..*old(self) }),
            final(self).oam@ == old(self).oam@.update(idx as int, v),
    {
        self.oam.set(idx as usize, v);
    }

    /// The LCD register bank (`FF40`-`FF4B`, `FF68`-`FF6B`).
    pub open spec fn spec_read_reg(self, addr: u16) -> u8 {
        if addr == 0xff40 {
            self.lcdc
        } else if addr == 0xff41 {
            (self.stat_en + (if self.ly == self.lyc { 4int } else { 0int })
                + self.mode_s()) as u8
        } else if addr == 0xff42 {
            self.scy
        } else if addr == 0xff43 {
            self.scx
        } else if addr == 0xff44 {
            self.ly
        } else if addr == 0xff45 {
            self.lyc
        } else if addr == 0xff47 {
            self.bgp
        } else if addr == 0xff48 {
            self.obp0
        } else if addr == 0xff49 {
            self.obp1
        } else if addr == 0xff4a {
            self.wy
        } else if addr == 0xff4b {
            self.wx
        } else if addr == 0xff68 {
            self.bgpi
        } else if addr == 0xff69 {
            self.bgpd
        } else if addr == 0xff6a {
            self.obpi
        } else if addr == 0xff6b {
            self.obpd
        } else {
            0xff
        }
    }

    pub fn read_reg(&self, addr: u16) -> (r: u8)
        requires
            self.wf(),
        ensures
            r == self.spec_read_reg(addr),
    {
        if addr == 0xff40 {
            self.lcdc
        } else if addr == 0xff41 {
            self.stat_en + (if self.ly == self.lyc { 4 } else { 0 }) + self.mode()
        } else if addr == 0xff42 {
            self.scy
        } else if addr == 0xff43 {
            self.scx
        } else if addr == 0xff44 {
            self.ly
        } else if addr == 0xff45 {
            self.lyc
        } else if addr == 0xff47 {
            self.bgp
        } else if addr == 0xff48 {
            self.obp0
        } else if addr == 0xff49 {
            self.obp1
        } else if addr == 0xff4a {
            self.wy
        } else if addr == 0xff4b {
            self.wx
        } else if addr == 0xff68 {
            self.bgpi
        } else if addr == 0xff69 {
            self.bgpd
        } else if addr == 0xff6a {
            self.obpi
        } else if addr == 0xff6b {
            self.obpd
        } else {
            0xff
        }
    }

    /// Register writes: LY is read-only; only STAT bits 3-6 are writable;
    /// switching the LCD off rewinds the position to line 0, dot 0.
    pub open spec fn spec_write_reg(self, addr: u16, v: u8) -> Gpu {
        if addr == 0xff40 {
            if v / 128 % 2 == 0 {
                Gpu { lcdc: v, ly: 0, clk: 0, ..self }
            } else {
                Gpu { lcdc: v, ..self }
            }
        } else if addr == 0xff41 {
            Gpu { stat_en: (v / 8 % 16 * 8) as u8, ..self }
        } else if addr == 0xff42 {
            Gpu { scy: v, ..self }
        } else if addr == 0xff43 {
            Gpu { scx: v, ..self }
        } else if addr == 0xff45 {
            Gpu { lyc: v, ..self }
        } else if addr == 0xff47 {
            Gpu { bgp: v, ..self }
        } else if addr == 0xff48 {
            Gpu { obp0: v, ..self }
        } else if addr == 0xff49 {
            Gpu { obp1: v, ..self }
        } else if addr == 0xff4a {
            Gpu { wy: v, ..self }
        } else if addr == 0xff4b {
            Gpu { wx: v, ..self }
        } else if addr == 0xff68 {
            Gpu { bgpi: v, ..self }
        } else if addr == 0xff69 {
            Gpu { bgpd: v, ..self }
        } else if addr == 0xff6a {
            Gpu { obpi: v, ..self }
        } else if addr == 0xff6b {
            Gpu { obpd: v, ..self }
        } else {
            self
        }
    }

    pub fn write_reg(&mut self, addr: u16, v: u8)
        requires
            old(self).wf(),
        ensures
            final(self).wf(),
            *final(self) == old(self).spec_write_reg(addr, v),
    {
        if addr == 0xff40 {
            self.lcdc = v;
            if v / 128 % 2 == 0 {
                self.ly = 0;
                self.clk = 0;
            }
        } else if addr == 0xff41 {
            self.stat_en = v / 8 % 16 * 8;
        } else if addr == 0xff42 {
            self.scy = v;
        } else if addr == 0xff43 {
            self.scx = v;
        } else if addr == 0xff45 {
            self.lyc = v;
        } else if addr == 0xff47 {
            self.bgp = v;
        } else if addr == 0xff48 {
            self.obp0 = v;
        } else if addr == 0xff49 {
            self.obp1 = v;
        } else if addr == 0xff4a {
            self.wy = v;
        } else if addr == 0xff4b {
            self.wx = v;
        } else if addr == 0xff68 {
            self.bgpi = v;
        } else if addr == 0xff69 {
            self.bgpd = v;
        } else if addr == 0xff6a {
            self.obpi = v;
        } else if addr == 0xff6b {
            self.obpd = v;
        }
    }

    /// One of the four grey shades a two-bit palette entry selects, packed
    /// as RGB.
    fn shade(pal: u8, pix: u8) -> (r: u32)
        requires
            pix < 4,
    {
        let two: u8 = pal / crate::alu::pow2(pix * 2) % 4;
        let v: u32 = if two == 0 { 255 } else if two == 1 { 170 } else if two == 2 { 85 }
            else { 0 };
        v * 65536 + v * 256 + v
    }

    /// Palette index (0..=3) of the background or window pixel at tile-space
    /// coordinates (`px`, `py`), using the tile map selected by `map_hi`.
    fn tile_pixel(&self, map_hi: bool, px: u8, py: u8) -> (r: u8)
        requires
            self.wf(),
        ensures
            r < 4,
    {
        let base: usize = if map_hi { 0x1c00 } else { 0x1800 };
        let t: u8 = self.vram[base + (py as usize / 8) * 32 + px as usize / 8];
        let taddr: usize = if self.lcdc / 16 % 2 == 1 {
            t as usize * 16
        } else {
            if t < 128 {
                0x1000 + t as usize * 16
            } else {
                0x1000 - (256 - t as usize) * 16
            }
        };
        let row: usize = py as usize % 8;
        let lo: u8 = self.vram[taddr + row * 2];
        let hi: u8 = self.vram[taddr + row * 2 + 1];
        let bit: u8 = 7 - px % 8;
        let lo_b: u8 = lo / crate::alu::pow2(bit) % 2;
        let hi_b: u8 = hi / crate::alu::pow2(bit) % 2;
        hi_b * 2 + lo_b
    }

    /// Compose scanline `ly` into the line buffer from background, window
    /// and up to ten sprites, in that order of priority.
    fn render_line(&mut self)
        requires
            old(self).wf(),
            old(self).ly < 144,
        ensures
            final(self).wf(),
            *final(self) == (Gpu { line: final(self).line, ..*old(self) }),
    {
        let y: u8 = self.ly;
        // Sprites visible on this line, first ten in OAM order.
        let height: u8 = if self.lcdc / 4 % 2 == 1 { 16 } else { 8 };
        let mut vis: Vec<u8> = Vec::new();
        if self.lcdc / 2 % 2 == 1 {
            let mut i: u8 = 0;
            while i < 40
                invariant
                    self.wf(),
                    vis@.len() <= 10,
                    forall|k: int| 0 <= k < vis@.len() ==> vis@[k] < 40,
                decreases 40 - i,
            {
                let sy: u8 = self.oam[i as usize * 4];
                // A sprite covers lines [sy-16, sy-16+height).
                if vis.len() < 10 && y as u16 + 16 >= sy as u16
                    && (y as u16 + 16) < sy as u16 + height as u16 {
                    vis.push(i);
                }
                i = i + 1;
            }
        }
        let mut x: u8 = 0;
        while x < 160
            invariant
                self.wf(),
                self.ly == old(self).ly,
                height == 8 || height == 16,
                *self == (Gpu { line: self.line, ..*old(self) }),
                vis@.len() <= 10,
                forall|k: int| 0 <= k < vis@.len() ==> vis@[k] < 40,
            decreases 160 - x,
        {
            let mut bg_pix: u8 = 0;
            if self.lcdc % 2 == 1 {
                let sy: u8 = ((y as u16 + self.scy as u16) % 256) as u8;
                let sx: u8 = ((x as u16 + self.scx as u16) % 256) as u8;
                bg_pix = self.tile_pixel(self.lcdc / 8 % 2 == 1, sx, sy);
            }
            // The window overlays the background from (WX-7, WY).
            if self.lcdc / 32 % 2 == 1 && y >= self.wy && x as u16 + 7 >= self.wx as u16
                && self.wx <= 166 {
                let wxp: u16 = x as u16 + 7 - self.wx as u16;
                if wxp < 160 {
                    bg_pix = self.tile_pixel(self.lcdc / 64 % 2 == 1, wxp as u8, y - self.wy);
                }
            }
            let mut color: u32 = Gpu::shade(self.bgp, bg_pix);
            // Lowest-X sprite covering this pixel wins; OAM order breaks ties.
            let mut best_x: u16 = 0xffff;
            let mut j: usize = 0;
            while j < vis.len()
                invariant
                    self.wf(),
                    self.ly == old(self).ly,
                    height == 8 || height == 16,
                    vis@.len() <= 10,
                    forall|k: int| 0 <= k < vis@.len() ==> vis@[k] < 40,
                    j <= vis@.len(),
                decreases vis@.len() - j,
            {
                let i: usize = vis[j] as usize;
                let sy: u8 = self.oam[i * 4];
                let sx: u8 = self.oam[i * 4 + 1];
                // Covers columns [sx-8, sx).
                if x as u16 + 8 >= sx as u16 && (x as u16) < sx as u16 && (sx as u16) < best_x {
                    let attr: u8 = self.oam[i * 4 + 3];
                    let rowv: u16 = if y as u16 + 16 >= sy as u16 { y as u16 + 16 - sy as u16 } else { 0 };
                    let mut row: u8 = (rowv % 16) as u8;
                    if attr / 64 % 2 == 1 {
                        row = height - 1 - row % height;
                    }
                    let mut col: u8 = (x as u16 + 8 - sx as u16) as u8 % 8;
                    if attr / 32 % 2 == 1 {
                        col = 7 - col;
                    }
                    let tile: u8 = if height == 16 {
                        self.oam[i * 4 + 2] / 2 * 2
                    } else {
                        self.oam[i * 4 + 2]
                    };
                    let taddr: usize = tile as usize * 16 + (row as usize % 16) * 2;
                    let lo: u8 = self.vram[taddr];
                    let hi: u8 = self.vram[taddr + 1];
                    let bit: u8 = 7 - col % 8;
                    let pix: u8 = (hi / crate::alu::pow2(bit) % 2) * 2
                        + lo / crate::alu::pow2(bit) % 2;
                    // Colour 0 is transparent; the priority attribute hides
                    // the sprite behind non-zero background.
                    if pix != 0 && !(attr / 128 == 1 && bg_pix != 0) {
                        let pal: u8 = if attr / 16 % 2 == 1 { self.obp1 } else { self.obp0 };
                        color = Gpu::shade(pal, pix);
                        best_x = sx as u16;
                    }
                }
                j = j + 1;
            }
            self.line.set(x as usize, color);
            x = x + 1;
        }
    }

    /// Advance the dot clock by `dots`. Returns the interrupt lines to
    /// raise (V-blank and/or STAT) and the line composed on entering
    /// H-blank, if any.
    ///
    /// The clock advances at instruction granularity — the step loop hands
    /// in at most a few dozen dots — so one call never spans more than a
    /// line; the bound keeps every boundary crossing within a single frame
    /// wrap. A caller with more dots to spend advances line by line.
    pub fn step(&mut self, dots: u32) -> (r: (u8, Option<u8>))
        requires
            old(self).wf(),
            dots <= LINE_DOTS,
        ensures
            final(self).wf(),
            *final(self) == (Gpu {
                ly: final(self).ly,
                clk: final(self).clk,
                line: final(self).line,
                ..*old(self)
            }),
            !old(self).lcd_on() ==> *final(self) == *old(self) && r.0 == 0,
            old(self).lcd_on() ==> final(self).ly * 456 + final(self).clk
                == (old(self).ly * 456 + old(self).clk + dots) % (FRAME_DOTS as int),
            r.0 & !(INT_VBLANK | INT_LCD) == 0,
            // The V-blank line is raised exactly when this step carries the
            // position across the start of line 144.
            old(self).lcd_on() ==> ((r.0 & 1 == 1) <==> (old(self).ly * 456 + old(self).clk
                < 65664 && old(self).ly * 456 + old(self).clk + dots >= 65664)),
            // A composed line is always a visible one, and entering
            // H-blank within the current visible line composes exactly it.
            r.1 matches Some(l) ==> l < 144,
            old(self).lcd_on() && old(self).ly < 144 && old(self).clk < 252
                && old(self).clk + dots >= 252 ==> r.1 == Some(old(self).ly),
            // With every STAT source switched off, no STAT line is raised.
            old(self).stat_en == 0 ==> r.0 & 2 == 0,
    {
        if self.lcdc / 128 % 2 == 0 {
            proof {
                assert(0u8 & !(1u8 | 2u8) == 0 && 0u8 & 2 == 0) by (bit_vector);
            }
            return (0, None);
        }
        let ghost total: int = old(self).ly * 456 + old(self).clk + dots;
        let mut rem: u32 = dots;
        let mut irq: u8 = 0;
        let mut rendered: Option<u8> = None;
        proof {
            assert(0u8 & !(INT_VBLANK | INT_LCD) == 0) by (bit_vector);
            assert(0u8 & 1 == 0 && 0u8 & 2 == 0) by (bit_vector);
        }
        while rem > 0
            invariant
                self.wf(),
                self.ly * 456 + self.clk + rem <= total,
                rem <= dots,
                dots <= 456,
                old(self).wf(),
                total == old(self).ly * 456 + old(self).clk + dots,
                (self.ly * 456 + self.clk + rem) % (FRAME_DOTS as int)
                    == total % (FRAME_DOTS as int),
                self.ly * 456 + self.clk + rem == total
                    || self.ly * 456 + self.clk + rem == total - 70224,
                *self == (Gpu { ly: self.ly, clk: self.clk, line: self.line, ..*old(self) }),
                self.lcdc == old(self).lcdc,
                irq & !(INT_VBLANK | INT_LCD) == 0,
                (irq & 1 == 1) <==> (total - dots < 65664 && total - rem >= 65664),
                rendered matches Some(l) ==> l < 144,
                old(self).ly < 144 && old(self).clk < 252 && old(self).clk + dots >= 252
                    && dots - rem >= 252 - old(self).clk
                    ==> rendered == Some(old(self).ly),
                old(self).stat_en == 0 ==> irq & 2 == 0,
            decreases rem,
        {
            let ghost ly0: int = self.ly as int;
            let ghost clk0: int = self.clk as int;
            let ghost rem0: int = rem as int;
            let bound: u32 = if self.ly >= 144 {
                456
            } else if self.clk < 80 {
                80
            } else if self.clk < 252 {
                252
            } else {
                456
            };
            let dist: u32 = bound - self.clk;
            if rem < dist {
                self.clk = self.clk + rem;
                rem = 0;
                proof {
                    assert(self.ly * 456 + self.clk + rem == total
                        || self.ly * 456 + self.clk + rem == total - 70224);
                    // Within a line no position reaches the next line start,
                    // so the crossing status of line 144 cannot change here.
                    if ly0 * 456 + clk0 + rem0 == total {
                        if total >= 65664 && total - dots < 65664 {
                            assert(self.ly * 456 + self.clk == total);
                            assert(self.ly >= 144);
                            assert(total - rem0 == ly0 * 456 + clk0);
                            assert(total - rem0 >= 65664);
                        }
                    } else {
                        assert(total - rem0 == ly0 * 456 + clk0 + 70224);
                        assert(total - rem0 >= 65664);
                    }
                }
            } else {
                rem = rem - dist;
                if bound == 456 {
                    proof {
                        if self.ly == 153 {
                            vstd::arithmetic::div_mod::lemma_mod_multiples_vanish(
                                1, self.ly * 456 + self.clk + dist + rem - 70224,
                                FRAME_DOTS as int);
                        }
                    }
                    self.clk = 0;
                    self.ly = if self.ly == 153 { 0 } else { self.ly + 1 };
                    proof {
                        if ly0 * 456 + clk0 + rem0 == total {
                            if ly0 == 153 {
                                assert(self.ly * 456 + self.clk + rem == total - 70224);
                                assert(total - rem >= 65664);
                            } else {
                                assert(self.ly * 456 + self.clk + rem == total);
                                assert(total - rem == self.ly * 456);
                            }
                        } else {
                            // A wrapped position sits in the first line:
                            // no further line boundary fits in this step.
                            assert(old(self).ly < 154 && old(self).clk < 456
                                && dots <= 456);
                            assert(total <= 70679);
                            assert(ly0 * 456 + clk0 + rem0 == total - 70224);
                            assert(ly0 * 456 + clk0 + rem0 <= 455);
                            assert(rem0 >= dist && dist == 456 - clk0);
                            assert(false);
                        }
                        assert(self.ly * 456 + self.clk + rem == total
                            || self.ly * 456 + self.clk + rem == total - 70224);
                        assert(rem < dots);
                    }
                    if self.stat_en / 64 % 2 == 1 && self.ly == self.lyc {
                        irq = set_lcd(irq);
                    }
                    if self.ly == 144 {
                        irq = set_vblank(irq);
                        if self.stat_en / 16 % 2 == 1 {
                            irq = set_lcd(irq);
                        }
                    } else if self.ly < 144 {
                        if self.stat_en / 32 % 2 == 1 {
                            irq = set_lcd(irq);
                        }
                    }
                } else {
                    self.clk = bound;
                    proof {
                        // Still inside a visible line: the position stays
                        // below the start of line 144.
                        assert(self.ly * 456 + self.clk < 65664);
                        if ly0 * 456 + clk0 + rem0 != total {
                            assert(total - rem0 == ly0 * 456 + clk0 + 70224);
                            assert(total - rem0 >= 65664);
                        }
                        assert(self.ly * 456 + self.clk + rem == total
                            || self.ly * 456 + self.clk + rem == total - 70224);
                    }
                    if bound == 252 {
                        self.render_line();
                        rendered = Some(self.ly);
                        if self.stat_en / 8 % 2 == 1 {
                            irq = set_lcd(irq);
                        }
                    }
                }
            }
        }
        proof {
            vstd::arithmetic::div_mod::lemma_small_mod(
                (self.ly * 456 + self.clk) as nat, FRAME_DOTS as nat);
        }
        (irq, rendered)
    }
}

/// A whole number of lines advances the frame position by whole lines.
proof fn lemma_line_mod(a: nat)
    ensures
        (a % 154) * 456 == (a * 456) % 70224,
{
    let q: nat = a / 154;
    let r: nat = a % 154;
    vstd::arithmetic::div_mod::lemma_fundamental_div_mod(a as int, 154);
    assert(a * 456 == 70224 * q + r * 456) by (nonlinear_arith)
        requires
            a == 154 * q + r,
    ;
    vstd::arithmetic::div_mod::lemma_mod_multiples_vanish(q as int, (r * 456) as int, 70224);
    vstd::arithmetic::div_mod::lemma_small_mod(r * 456, 70224);
}

/// LY cadence: from the start of a line, every further 456 dots move LY on
/// by one, and the sequence 0, 1, ..., 153, 0, ... repeats: `n` whole lines
/// from line `ly` land on line `(ly + n) % 154`, at dot 0, in the position
/// arithmetic that `Gpu::step` guarantees.
pub proof fn lemma_ly_cadence(ly: u8, n: nat)
    requires
        ly < 154,
    ensures
        (ly * 456 + n * 456) % (FRAME_DOTS as int) == ((ly + n) % 154) * 456,
{
    lemma_line_mod((ly + n) as nat);
}

/// `irq` with the V-blank line added.
fn set_vblank(irq: u8) -> (r: u8)
    ensures
        r == (irq | INT_VBLANK),
        irq & !(INT_VBLANK | INT_LCD) == 0 ==> r & !(INT_VBLANK | INT_LCD) == 0,
        r & 1 == 1,
        r & 2 == irq & 2,
{
    proof {
        assert(irq & !(1u8 | 2u8) == 0 ==> (irq | 1u8) & !(1u8 | 2u8) == 0) by (bit_vector);
        assert((irq | 1u8) & 1 == 1 && (irq | 1u8) & 2 == irq & 2) by (bit_vector);
    }
    irq | INT_VBLANK
}

/// `irq` with the STAT line added.
fn set_lcd(irq: u8) -> (r: u8)
    ensures
        r == (irq | INT_LCD),
        irq & !(INT_VBLANK | INT_LCD) == 0 ==> r & !(INT_VBLANK | INT_LCD) == 0,
        r & 1 == irq & 1,
{
    proof {
        assert(irq & !(1u8 | 2u8) == 0 ==> (irq | 2u8) & !(1u8 | 2u8) == 0) by (bit_vector);
        assert((irq | 2u8) & 1 == irq & 1) by (bit_vector);
    }
    irq | INT_LCD
}

} // verus!
