//! The scanline graphics unit: video RAM, the derived tile cache,
//! object attribute memory, mode timing, and scanline rendering into
//! the indexed framebuffer.
use vstd::prelude::*;

use crate::cpu::{INT_LCD_STAT, INT_VBLANK};

verus! {

/// LCD-control register bits.
pub const LCDC_BG_WINDOW_ENABLE: u8 = 0x01;

pub const LCDC_OBJ_ENABLE: u8 = 0x02;

pub const LCDC_OBJ_SIZE: u8 = 0x04;

pub const LCDC_BG_TILEMAP_AREA: u8 = 0x08;

pub const LCDC_BG_WINDOW_TILEDATA_AREA: u8 = 0x10;

pub const LCDC_WINDOW_ENABLE: u8 = 0x20;

pub const LCDC_WINDOW_TILEMAP_AREA: u8 = 0x40;

pub const LCDC_LCD_ENABLE: u8 = 0x80;

/// STAT interrupt-source bits, stored at their register positions.
pub const STAT_SOURCE_HBLANK: u8 = 0x08;

pub const STAT_SOURCE_VBLANK: u8 = 0x10;

pub const STAT_SOURCE_OAM: u8 = 0x20;

pub const STAT_SOURCE_LYC_LY: u8 = 0x40;

/// Pixels on one scanline, scanlines on the screen, and the size of
/// the indexed framebuffer.
pub const SCREEN_WIDTH: usize = 160;

pub const SCREEN_HEIGHT: usize = 144;

pub const FRAMEBUFFER_SIZE: usize = 23040;

/// The rendering mode the unit is in, as exposed in STAT bits 0-1.
#[derive(Clone, Copy, PartialEq, Eq, Structural, Debug)]
pub enum GpuMode {
    HBlank,
    VBlank,
    OamRead,
    VramRead,
}

impl GpuMode {
    /// The two-bit code the mode shows in STAT.
    pub open spec fn spec_bits(self) -> u8 {
        match self {
            GpuMode::HBlank => 0,
            GpuMode::VBlank => 1,
            GpuMode::OamRead => 2,
            GpuMode::VramRead => 3,
        }
    }

    pub fn bits(&self) -> (r: u8)
        ensures
            r == self.spec_bits(),
    {
        match self {
            GpuMode::HBlank => 0,
            GpuMode::VBlank => 1,
            GpuMode::OamRead => 2,
            GpuMode::VramRead => 3,
        }
    }

    /// How many T-cycles the unit dwells in this mode before moving on.
    pub open spec fn spec_dwell(self) -> nat {
        match self {
            GpuMode::HBlank => 204,
            GpuMode::VBlank => 456,
            GpuMode::OamRead => 80,
            GpuMode::VramRead => 172,
        }
    }
}

/// One cached tile: an 8x8 matrix of 2-bit pixel values, derived from
/// a 16-byte slice of video RAM.
pub struct Tile {
    pub pixels: Vec<u8>,
}

impl Tile {
    /// 64 pixels, each a value 0..=3.
    pub open spec fn wf(self) -> bool {
        &&& self.pixels@.len() == 64
        &&& forall|i: int| 0 <= i < 64 ==> self.pixels@[i] < 4
    }

    pub fn new() -> (r: Tile)
        ensures
            r.wf(),
            forall|i: int| 0 <= i < 64 ==> r.pixels@[i] == 0,
    {
        let mut pixels: Vec<u8> = Vec::new();
        let mut i: usize = 0;
        while i < 64
            invariant
                i <= 64,
                pixels@.len() == i,
                forall|j: int| 0 <= j < i ==> pixels@[j] == 0,
            decreases 64 - i,
        {
            pixels.push(0);
            i = i + 1;
        }
        Tile { pixels }
    }

    pub fn set(&mut self, x: usize, y: usize, value: u8)
        requires
            old(self).wf(),
            x < 8,
            y < 8,
            value < 4,
        ensures
            final(self).pixels@ == old(self).pixels@.update(x + y * 8, value),
            final(self).wf(),
    {
        self.pixels[x + y * 8] = value;
    }

    pub fn get(&self, x: usize, y: usize) -> (r: u8)
        requires
            self.wf(),
            x < 8,
            y < 8,
        ensures
            r == self.pixels@[x + y * 8],
            r < 4,
    {
        self.pixels[x + y * 8]
    }
}

/// The 2-bit pixel value that bit `7 - x` of a tile row's low and high
/// bytes encode.
pub open spec fn spec_tile_pixel(lo: u8, hi: u8, x: int) -> u8 {
    ((if lo & (1u8 << ((7 - x) as u8)) != 0 {
        1u8
    } else {
        0u8
    }) + (if hi & (1u8 << ((7 - x) as u8)) != 0 {
        2u8
    } else {
        0u8
    })) as u8
}

/// The graphics unit.
pub struct Gpu {
    pub vram: Vec<u8>,
    pub oam: Vec<u8>,
    pub mode_cycles: usize,
    pub line: u8,
    pub lyc: u8,
    pub mode: GpuMode,
    pub scroll_x: u8,
    pub scroll_y: u8,
    pub tiles: Vec<Tile>,
    pub framebuffer: Vec<u8>,
    pub lcd_control: u8,
    pub stat_interrupt_source: u8,
    pub bg_palette: Vec<u8>,
    pub obj_palette0: Vec<u8>,
    pub obj_palette1: Vec<u8>,
    pub window_coords: (u8, u8),
    pub window_drawing: bool,
    pub window_line: usize,
}

/// A palette: four 2-bit entries.
pub open spec fn spec_palette_wf(p: Seq<u8>) -> bool {
    &&& p.len() == 4
    &&& forall|i: int| 0 <= i < 4 ==> p[i] < 4
}

impl Gpu {
    /// Buffer sizes, 2-bit pixel ranges, and the timing invariants: the
    /// line is on-screen outside VBlank, in 144..=153 inside it, and the
    /// cycle accumulator never reaches the current mode's dwell time.
    /// The size and range invariants of the buffers alone.
    pub open spec fn buffers_wf(self) -> bool {
        &&& self.vram@.len() == 0x2000
        &&& self.oam@.len() == 0xa0
        &&& self.tiles@.len() == 384
        &&& (forall|i: int| 0 <= i < 384 ==> (#[trigger] self.tiles@[i]).wf())
        &&& self.framebuffer@.len() == FRAMEBUFFER_SIZE
        &&& (forall|i: int|
            0 <= i < FRAMEBUFFER_SIZE ==> (#[trigger] self.framebuffer@[i]) < 4)
        &&& spec_palette_wf(self.bg_palette@)
        &&& spec_palette_wf(self.obj_palette0@)
        &&& spec_palette_wf(self.obj_palette1@)
    }

    pub open spec fn wf(self) -> bool {
        &&& self.buffers_wf()
        &&& self.stat_interrupt_source & !0x78 == 0
        &&& self.mode_cycles < self.mode.spec_dwell()
        &&& (self.mode is VBlank ==> 144 <= self.line <= 153)
        &&& (!(self.mode is VBlank) ==> self.line < 144)
        &&& (self.window_drawing ==> !(self.mode is VBlank) && self.window_line + (
            if self.mode is HBlank {
                0int
            } else {
                1int
            }) <= self.line + 1)
    }

    pub fn new() -> (r: Gpu)
        ensures
            r.wf(),
            r.mode == GpuMode::HBlank && r.line == 0 && r.mode_cycles == 0,
            r.lcd_control == 0 && r.stat_interrupt_source == 0,
            r.scroll_x == 0 && r.scroll_y == 0 && r.lyc == 0,
            r.window_coords == (0u8, 0u8) && !r.window_drawing && r.window_line == 0,
            forall|i: int| 0 <= i < 0x2000 ==> r.vram@[i] == 0,
            forall|i: int| 0 <= i < 0xa0 ==> r.oam@[i] == 0,
            forall|i: int| 0 <= i < FRAMEBUFFER_SIZE ==> r.framebuffer@[i] == 0,
            forall|i: int| 0 <= i < 4 ==> r.bg_palette@[i] == 0,
    {
        proof {
            lemma_stat_source_mask(0);
        }
        let mut tiles: Vec<Tile> = Vec::new();
        let mut i: usize = 0;
        while i < 384
            invariant
                i <= 384,
                tiles@.len() == i,
                forall|j: int| 0 <= j < i ==> (#[trigger] tiles@[j]).wf(),
            decreases 384 - i,
        {
            tiles.push(Tile::new());
            i = i + 1;
        }
        Gpu {
            vram: zero_bytes(0x2000),
            oam: zero_bytes(0xa0),
            mode: GpuMode::HBlank,
            mode_cycles: 0,
            line: 0,
            lyc: 0,
            scroll_x: 0,
            scroll_y: 0,
            tiles,
            framebuffer: zero_bytes(FRAMEBUFFER_SIZE),
            lcd_control: 0,
            stat_interrupt_source: 0,
            bg_palette: zero_bytes(4),
            obj_palette0: zero_bytes(4),
            obj_palette1: zero_bytes(4),
            window_coords: (0, 0),
            window_drawing: false,
            window_line: 0,
        }
    }

    /// Returns scroll, line and mode to their power-on values.
    pub fn reset(&mut self)
        requires
            old(self).wf(),
        ensures
            *final(self) == (Gpu {
                scroll_x: 0,
                scroll_y: 0,
                line: 0,
                mode: GpuMode::HBlank,
                mode_cycles: 0,
                window_drawing: false,
                window_line: 0,
                ..*old(self)
            }),
            final(self).wf(),
    {
        self.scroll_x = 0;
        self.scroll_y = 0;
        self.line = 0;
        self.mode = GpuMode::HBlank;
        self.mode_cycles = 0;
        self.window_drawing = false;
        self.window_line = 0;
    }

    /// The STAT byte: the stored interrupt-source bits, the mode code,
    /// and the LYC=LY coincidence bit.
    pub open spec fn spec_stat(self) -> u8 {
        self.stat_interrupt_source | self.mode.spec_bits() | if self.line == self.lyc {
            4u8
        } else {
            0u8
        }
    }

    pub fn stat(&self) -> (r: u8)
        ensures
            r == self.spec_stat(),
    {
        let mut value = self.stat_interrupt_source | self.mode.bits();

        if self.line == self.lyc {
            value |= 4u8;
        } else {
            proof {
                lemma_or_zero(self.stat_interrupt_source | self.mode.spec_bits());
            }
        }

        value
    }

    /// A STAT write stores only the four interrupt-source bits.
    pub fn set_stat(&mut self, value: u8)
        ensures
            *final(self) == (Gpu { stat_interrupt_source: value & 0x78, ..*old(self) }),
            old(self).wf() ==> final(self).wf(),
    {
        self.stat_interrupt_source = value & 0x78;
        proof {
            lemma_stat_source_mask(value);
        }
    }

    pub fn scanline(&self) -> (r: u8)
        ensures
            r == self.line,
    {
        self.line
    }

    /// Rebuilds the cached tile row that covers a written video-RAM
    /// byte. Addresses beyond the tile-data region leave the cache
    /// untouched.
    pub fn update_tile(&mut self, vram_address: u16)
        requires
            old(self).wf(),
            vram_address < 0x2000,
        ensures
            final(self).wf(),
            *final(self) == (Gpu { tiles: final(self).tiles, ..*old(self) }),
            final(self).tiles@.len() == 384,
            ({
                let a = (vram_address & 0xfffe) as int;
                let tile = a / 16;
                let y = a % 16 / 2;
                if tile >= 384 {
                    final(self).tiles@ == old(self).tiles@
                } else {
                    &&& (forall|k: int|
                        0 <= k < 384 && k != tile ==> final(self).tiles@[k] == old(self).tiles@[k])
                    &&& (forall|x: int|
                        0 <= x < 8 ==> final(self).tiles@[tile].pixels@[x + y * 8]
                            == #[trigger] spec_tile_pixel(
                            old(self).vram@[a],
                            old(self).vram@[a + 1],
                            x,
                        ))
                    &&& (forall|i: int|
                        0 <= i < 64 && !(y * 8 <= i < y * 8 + 8)
                            ==> final(self).tiles@[tile].pixels@[i] == old(
                            self,
                        ).tiles@[tile].pixels@[i])
                }
            }),
    {
        proof {
            lemma_even_mask(vram_address);
        }
        let vram_address: usize = (vram_address & 0xfffe) as usize;

        let tile: usize = vram_address / 16;

        if tile >= 384 {
            return ;
        }

        let y: usize = vram_address % 16 / 2;

        let lo = self.vram[vram_address];
        let hi = self.vram[vram_address + 1];

        let mut x: usize = 0;
        while x < 8
            invariant
                x <= 8,
                tile < 384,
                y < 8,
                self.wf(),
                *self == (Gpu { tiles: self.tiles, ..*old(self) }),
                self.tiles@.len() == 384,
                lo == old(self).vram@[vram_address as int],
                hi == old(self).vram@[vram_address as int + 1],
                forall|k: int| 0 <= k < 384 && k != tile ==> self.tiles@[k] == old(self).tiles@[k],
                forall|j: int|
                    0 <= j < x ==> self.tiles@[tile as int].pixels@[j + y * 8] == spec_tile_pixel(
                        lo,
                        hi,
                        j,
                    ),
                forall|i: int|
                    0 <= i < 64 && !(y * 8 <= i < y * 8 + x) ==> self.tiles@[tile as int].pixels@[i]
                        == old(self).tiles@[tile as int].pixels@[i],
            decreases 8 - x,
        {
            let shift: u8 = (7 - x) as u8;
            let bit: u8 = 1u8 << shift;

            let mut value: u8 = if lo & bit != 0 {
                1
            } else {
                0
            };

            if hi & bit != 0 {
                value += 2;
            }

            self.tiles[tile].set(x, y, value);
            x = x + 1;
        }
    }
}

impl Gpu {
    /// Fills the whole framebuffer with the backdrop colour.
    fn clear_framebuffer(&mut self)
        requires
            old(self).buffers_wf(),
        ensures
            *final(self) == (Gpu { framebuffer: final(self).framebuffer, ..*old(self) }),
            final(self).framebuffer@ == spec_blank_fb(old(self).framebuffer@.len()),
            final(self).buffers_wf(),
    {
        let n = self.framebuffer.len();
        let mut i: usize = 0;
        while i < n
            invariant
                i <= n,
                n == FRAMEBUFFER_SIZE,
                self.framebuffer@.len() == n,
                *self == (Gpu { framebuffer: self.framebuffer, ..*old(self) }),
                self.buffers_wf(),
                forall|j: int| 0 <= j < i ==> self.framebuffer@[j] == 0,
            decreases n - i,
        {
            self.framebuffer[i] = 0;
            i = i + 1;
        }
        proof {
            assert(self.framebuffer@ =~= spec_blank_fb(old(self).framebuffer@.len()));
        }
    }

    /// Fills the current line with the backdrop colour, palette
    /// entry zero.
    fn fill_backdrop_line(&mut self)
        requires
            old(self).buffers_wf(),
            old(self).line < 144,
        ensures
            *final(self) == (Gpu { framebuffer: final(self).framebuffer, ..*old(self) }),
            final(self).framebuffer@ == spec_backdrop_line_fb(
                old(self).line,
                old(self).bg_palette@,
                old(self).framebuffer@,
            ),
            final(self).buffers_wf(),
    {
        let rs: usize = 160 * (self.line as usize);
        let backdrop = self.bg_palette[0];
        let mut x: usize = 0;
        while x < 160
            invariant
                x <= 160,
                self.buffers_wf(),
                old(self).line < 144,
                rs == 160 * (old(self).line as int),
                rs + 160 <= FRAMEBUFFER_SIZE,
                backdrop == old(self).bg_palette@[0],
                backdrop < 4,
                *self == (Gpu { framebuffer: self.framebuffer, ..*old(self) }),
                self.framebuffer@.len() == FRAMEBUFFER_SIZE,
                forall|i: int|
                    0 <= i < FRAMEBUFFER_SIZE && !(rs <= i < rs + x) ==> self.framebuffer@[i] == old(
                        self,
                    ).framebuffer@[i],
                forall|i: int|
                    rs <= i < rs + x ==> #[trigger] self.framebuffer@[i] == backdrop,
            decreases 160 - x,
        {
            self.framebuffer[rs + x] = backdrop;
            x = x + 1;
        }
        proof {
            assert(self.framebuffer@ =~= spec_backdrop_line_fb(
                old(self).line,
                old(self).bg_palette@,
                old(self).framebuffer@,
            ));
        }
    }

    /// Draws the background tiles of the current line into the
    /// framebuffer.
    fn render_background_scanline(&mut self)
        requires
            old(self).buffers_wf(),
            old(self).line < 144,
        ensures
            *final(self) == (Gpu { framebuffer: final(self).framebuffer, ..*old(self) }),
            final(self).framebuffer@ == spec_bg_fb(
                old(self).lcd_control,
                old(self).line,
                old(self).scroll_x,
                old(self).scroll_y,
                old(self).vram@,
                old(self).tiles@,
                old(self).bg_palette@,
                old(self).framebuffer@,
            ),
            final(self).buffers_wf(),
    {
        let base: usize = if self.lcd_control & LCDC_BG_TILEMAP_AREA != 0 {
            0x1c00
        } else {
            0x1800
        };
        let yy: u8 = self.line.wrapping_add(self.scroll_y);
        let row: usize = (yy as usize) / 8 * 32;
        let ty: usize = (yy as usize) % 8;
        let rs: usize = 160 * (self.line as usize);

        let mut x: usize = 0;
        while x < 160
            invariant
                x <= 160,
                self.buffers_wf(),
                self.line == old(self).line,
                old(self).line < 144,
                rs == 160 * (self.line as int),
                rs + 160 <= FRAMEBUFFER_SIZE,
                base == (if self.lcd_control & LCDC_BG_TILEMAP_AREA != 0 {
                    0x1c00int
                } else {
                    0x1800int
                }),
                yy == spec_wrap_add8(old(self).line, old(self).scroll_y),
                row == (yy as int) / 8 * 32,
                ty == (yy as int) % 8,
                *self == (Gpu { framebuffer: self.framebuffer, ..*old(self) }),
                self.framebuffer@.len() == FRAMEBUFFER_SIZE,
                forall|i: int|
                    0 <= i < FRAMEBUFFER_SIZE && !(rs <= i < rs + x) ==> self.framebuffer@[i] == old(
                        self,
                    ).framebuffer@[i],
                forall|j: int|
                    0 <= j < x ==> self.framebuffer@[rs + j] == spec_bg_pixel(
                        old(self).lcd_control,
                        old(self).line,
                        old(self).scroll_x,
                        old(self).scroll_y,
                        old(self).vram@,
                        old(self).tiles@,
                        old(self).bg_palette@,
                        j,
                    ),
            decreases 160 - x,
        {
            let col: usize = ((self.scroll_x as usize) + x) / 8 % 32;
            let tx: usize = ((self.scroll_x as usize) + x) % 8;

            let t: usize = self.vram[base + row + col] as usize;
            let tid: usize = if self.lcd_control & LCDC_BG_WINDOW_TILEDATA_AREA == 0 && t < 128 {
                t + 256
            } else {
                t
            };

            let p = self.tiles[tid].get(tx, ty);
            self.framebuffer[rs + x] = self.bg_palette[p as usize];
            x = x + 1;
        }
        proof {
            assert(self.framebuffer@ =~= spec_bg_fb(
                old(self).lcd_control,
                old(self).line,
                old(self).scroll_x,
                old(self).scroll_y,
                old(self).vram@,
                old(self).tiles@,
                old(self).bg_palette@,
                old(self).framebuffer@,
            ));
        }
    }

    /// Draws the window over the current line, when it is active, and
    /// counts the drawn line.
    fn render_window_scanline(&mut self)
        requires
            old(self).buffers_wf(),
            old(self).line < 144,
            old(self).window_drawing ==> old(self).window_line <= 143,
        ensures
            *final(self) == (Gpu {
                framebuffer: final(self).framebuffer,
                window_line: final(self).window_line,
                ..*old(self)
            }),
            ({
                let pair = spec_window_apply(
                    old(self).lcd_control,
                    old(self).line,
                    old(self).window_coords.0,
                    old(self).window_coords.1,
                    old(self).window_drawing,
                    old(self).window_line as nat,
                    old(self).vram@,
                    old(self).tiles@,
                    old(self).bg_palette@,
                    old(self).framebuffer@,
                );
                final(self).framebuffer@ == pair.0 && final(self).window_line == pair.1
            }),
            final(self).buffers_wf(),
    {
        if self.line < self.window_coords.1 {
            return ;
        }
        if !self.window_drawing {
            return ;
        }
        if self.window_coords.0 > 166 || self.window_coords.1 > 143 {
            return ;
        }

        let base: usize = if self.lcd_control & LCDC_WINDOW_TILEMAP_AREA != 0 {
            0x1c00
        } else {
            0x1800
        };
        let wl: usize = self.window_line;
        let row: usize = wl / 8 * 32;
        let wly: usize = wl % 8;
        let rs: usize = 160 * (self.line as usize);
        let real_x: usize = if self.window_coords.0 >= 7 {
            (self.window_coords.0 - 7) as usize
        } else {
            0
        };

        let mut x: usize = 0;
        while x < 160 - real_x
            invariant
                old(self).window_drawing,
                old(self).line >= old(self).window_coords.1,
                old(self).window_coords.0 <= 166,
                old(self).window_coords.1 <= 143,
                x <= 160 - real_x,
                old(self).line < 144,
                real_x == spec_window_left(old(self).window_coords.0),
                real_x <= 159,
                rs + 160 <= FRAMEBUFFER_SIZE,
                self.buffers_wf(),
                wl == old(self).window_line,
                wl <= 143,
                base == (if self.lcd_control & LCDC_WINDOW_TILEMAP_AREA != 0 {
                    0x1c00int
                } else {
                    0x1800int
                }),
                row == wl / 8 * 32,
                wly == wl % 8,
                rs == 160 * (old(self).line as int),
                *self == (Gpu { framebuffer: self.framebuffer, ..*old(self) }),
                self.framebuffer@.len() == FRAMEBUFFER_SIZE,
                forall|i: int|
                    0 <= i < FRAMEBUFFER_SIZE && !(rs + real_x <= i < rs + real_x + x)
                        ==> self.framebuffer@[i] == old(self).framebuffer@[i],
                forall|j: int|
                    0 <= j < x ==> self.framebuffer@[rs + real_x + j] == spec_window_pixel(
                        old(self).lcd_control,
                        wl as int,
                        old(self).vram@,
                        old(self).tiles@,
                        old(self).bg_palette@,
                        j,
                    ),
            decreases 160 - real_x - x,
        {
            let col: usize = x / 8;
            let tx: usize = x % 8;

            let t: usize = self.vram[base + row + col] as usize;
            let tid: usize = if self.lcd_control & LCDC_BG_WINDOW_TILEDATA_AREA == 0 && t < 128 {
                t + 256
            } else {
                t
            };

            let p = self.tiles[tid].get(tx, wly);
            self.framebuffer[rs + real_x + x] = self.bg_palette[p as usize];
            x = x + 1;
        }

        self.window_line = self.window_line + 1;
        proof {
            let pair = spec_window_apply(
                old(self).lcd_control,
                old(self).line,
                old(self).window_coords.0,
                old(self).window_coords.1,
                old(self).window_drawing,
                old(self).window_line as nat,
                old(self).vram@,
                old(self).tiles@,
                old(self).bg_palette@,
                old(self).framebuffer@,
            );
            assert(self.framebuffer@ =~= pair.0);
        }
    }
}

/// 8-bit wrap-around addition, as a spec value.
pub open spec fn spec_wrap_add8(a: u8, b: u8) -> u8 {
    if a + b > 255 {
        (a + b - 256) as u8
    } else {
        (a + b) as u8
    }
}

/// Tile number for background pixel `x` of the current line: fetched
/// from the selected 32x32 map, shifted into the signed-index bank when
/// LCDC bit 4 is clear.
pub open spec fn spec_bg_tile_id(lcd: u8, line: u8, sx: u8, sy: u8, vram: Seq<u8>, x: int) -> int {
    let base: int = if lcd & LCDC_BG_TILEMAP_AREA != 0 {
        0x1c00
    } else {
        0x1800
    };
    let yy = spec_wrap_add8(line, sy) as int;
    let row: int = yy / 8 * 32;
    let col: int = ((sx as int + x) / 8) % 32;
    let t: int = vram[base + row + col] as int;
    if lcd & LCDC_BG_WINDOW_TILEDATA_AREA == 0 && t < 128 {
        t + 256
    } else {
        t
    }
}

/// Palette-mapped background pixel `x` of the current line.
pub open spec fn spec_bg_pixel(
    lcd: u8,
    line: u8,
    sx: u8,
    sy: u8,
    vram: Seq<u8>,
    tiles: Seq<Tile>,
    pal: Seq<u8>,
    x: int,
) -> u8 {
    let yy = spec_wrap_add8(line, sy) as int;
    let ty: int = yy % 8;
    let tx: int = (sx as int + x) % 8;
    pal[tiles[spec_bg_tile_id(lcd, line, sx, sy, vram, x)].pixels@[tx + ty * 8] as int]
}

/// The framebuffer after drawing the background of the current line.
pub open spec fn spec_bg_fb(
    lcd: u8,
    line: u8,
    sx: u8,
    sy: u8,
    vram: Seq<u8>,
    tiles: Seq<Tile>,
    pal: Seq<u8>,
    fb: Seq<u8>,
) -> Seq<u8> {
    Seq::new(
        fb.len(),
        |i: int|
            if 160 * (line as int) <= i < 160 * (line as int) + 160 {
                spec_bg_pixel(lcd, line, sx, sy, vram, tiles, pal, i - 160 * (line as int))
            } else {
                fb[i]
            },
    )
}

/// Whether the window overlays the current line at all.
pub open spec fn spec_window_active(wx: u8, wy: u8, drawing: bool, line: u8) -> bool {
    &&& line >= wy
    &&& drawing
    &&& wx <= 166
    &&& wy <= 143
}

/// Tile number for the window pixel `wxo` columns right of the
/// window's left edge, on internal window line `wl`.
pub open spec fn spec_window_tile_id(lcd: u8, wl: int, vram: Seq<u8>, wxo: int) -> int {
    let base: int = if lcd & LCDC_WINDOW_TILEMAP_AREA != 0 {
        0x1c00
    } else {
        0x1800
    };
    let row: int = wl / 8 * 32;
    let col: int = wxo / 8;
    let t: int = vram[base + row + col] as int;
    if lcd & LCDC_BG_WINDOW_TILEDATA_AREA == 0 && t < 128 {
        t + 256
    } else {
        t
    }
}

/// Palette-mapped window pixel.
pub open spec fn spec_window_pixel(
    lcd: u8,
    wl: int,
    vram: Seq<u8>,
    tiles: Seq<Tile>,
    pal: Seq<u8>,
    wxo: int,
) -> u8 {
    pal[tiles[spec_window_tile_id(lcd, wl, vram, wxo)].pixels@[(wxo % 8) + (wl % 8) * 8] as int]
}

/// Leftmost screen column the window covers.
pub open spec fn spec_window_left(wx: u8) -> int {
    if wx >= 7 {
        wx - 7
    } else {
        0
    }
}

/// The framebuffer and internal window-line counter after the window
/// pass: inactive windows change nothing, an active one overwrites the
/// line from its left edge and counts one more drawn line.
pub open spec fn spec_window_apply(
    lcd: u8,
    line: u8,
    wx: u8,
    wy: u8,
    drawing: bool,
    wl: nat,
    vram: Seq<u8>,
    tiles: Seq<Tile>,
    pal: Seq<u8>,
    fb: Seq<u8>,
) -> (Seq<u8>, nat) {
    if !spec_window_active(wx, wy, drawing, line) {
        (fb, wl)
    } else {
        (
            Seq::new(
                fb.len(),
                |i: int|
                    if 160 * (line as int) + spec_window_left(wx) <= i < 160 * (line as int)
                        + 160 {
                        spec_window_pixel(
                            lcd,
                            wl as int,
                            vram,
                            tiles,
                            pal,
                            i - 160 * (line as int) - spec_window_left(wx),
                        )
                    } else {
                        fb[i]
                    },
            ),
            (wl + 1) as nat,
        )
    }
}

/// Sprite height under the current LCD control.
pub open spec fn spec_sprite_height(lcd: u8) -> int {
    if lcd & LCDC_OBJ_SIZE != 0 {
        16
    } else {
        8
    }
}

/// Whether OAM entry `i` covers the current line.
pub open spec fn spec_sprite_match(oam: Seq<u8>, line: u8, h: int, i: int) -> bool {
    &&& line + 16 >= oam[4 * i]
    &&& line + 16 < oam[4 * i] + h
}

/// The first `room` OAM entries at or after `i` that cover the line,
/// in OAM order.
pub open spec fn spec_selected_from(oam: Seq<u8>, line: u8, h: int, i: int, room: int) -> Seq<
    usize,
>
    decreases 40 - i,
    when i <= 40
{
    if i >= 40 || room <= 0 {
        Seq::empty()
    } else if spec_sprite_match(oam, line, h, i) {
        seq![i as usize] + spec_selected_from(oam, line, h, i + 1, room - 1)
    } else {
        spec_selected_from(oam, line, h, i + 1, room)
    }
}

/// Inserts `i` into `s` after every element whose X coordinate is at
/// most its own: the step of a stable insertion sort by X.
pub open spec fn spec_insert_by_x(oam: Seq<u8>, s: Seq<usize>, i: usize) -> Seq<usize>
    decreases s.len(),
{
    if s.len() == 0 {
        seq![i]
    } else if oam[4 * (s.last() as int) + 1] <= oam[4 * (i as int) + 1] {
        s.push(i)
    } else {
        spec_insert_by_x(oam, s.drop_last(), i).push(s.last())
    }
}

/// Stable sort by sprite X coordinate: insertion sort, left to right.
pub open spec fn spec_sort_by_x(oam: Seq<u8>, s: Seq<usize>) -> Seq<usize>
    decreases s.len(),
{
    if s.len() == 0 {
        Seq::empty()
    } else {
        spec_insert_by_x(oam, spec_sort_by_x(oam, s.drop_last()), s.last())
    }
}

/// The cached-tile row a sprite shows on the current line: the tile
/// index (with the low bit forced for tall sprites) and the row within
/// it.
pub open spec fn spec_sprite_tile(oam: Seq<u8>, line: u8, lcd: u8, i: int) -> (int, int) {
    let y: int = line + 16 - oam[4 * i];
    let t: u8 = oam[4 * i + 2];
    if spec_sprite_height(lcd) == 16 {
        if y >= 8 {
            (((t & 0xfe) as int) + 1, y - 8)
        } else {
            ((t & 0xfe) as int, y)
        }
    } else {
        (t as int, y)
    }
}

/// The framebuffer after drawing one sprite: each of its eight columns
/// lands on the current line unless it falls off-screen, is colour 0,
/// or the sprite sits behind a background pixel that is not the
/// backdrop colour.
pub open spec fn spec_draw_sprite(
    oam: Seq<u8>,
    line: u8,
    lcd: u8,
    tiles: Seq<Tile>,
    pal: Seq<u8>,
    fb: Seq<u8>,
    i: int,
) -> Seq<u8> {
    let rs: int = 160 * (line as int);
    let sx: int = oam[4 * i + 1] - 8;
    let tid = spec_sprite_tile(oam, line, lcd, i);
    let behind = oam[4 * i + 3] & 0x80 != 0;
    Seq::new(
        fb.len(),
        |idx: int|
            if rs <= idx < rs + 160 {
                let xo = (idx - rs) - sx;
                if 0 <= xo < 8 {
                    let p = tiles[tid.0].pixels@[xo + tid.1 * 8];
                    if p != 0 && (!behind || fb[idx] == pal[0]) {
                        p
                    } else {
                        fb[idx]
                    }
                } else {
                    fb[idx]
                }
            } else {
                fb[idx]
            },
    )
}

/// Drawing the sprites of `order` from position `k` on, in order.
pub open spec fn spec_draw_list(
    oam: Seq<u8>,
    line: u8,
    lcd: u8,
    tiles: Seq<Tile>,
    pal: Seq<u8>,
    fb: Seq<u8>,
    order: Seq<usize>,
    k: int,
) -> Seq<u8>
    decreases order.len() - k,
{
    if k < 0 || k >= order.len() {
        fb
    } else {
        spec_draw_list(
            oam,
            line,
            lcd,
            tiles,
            pal,
            spec_draw_sprite(oam, line, lcd, tiles, pal, fb, order[k] as int),
            order,
            k + 1,
        )
    }
}

/// The full sprite pass: the first ten OAM entries covering the line,
/// sorted stably by X, drawn in order.
pub open spec fn spec_sprites_fb(
    oam: Seq<u8>,
    line: u8,
    lcd: u8,
    tiles: Seq<Tile>,
    pal: Seq<u8>,
    fb: Seq<u8>,
) -> Seq<u8> {
    spec_draw_list(
        oam,
        line,
        lcd,
        tiles,
        pal,
        fb,
        spec_sort_by_x(oam, spec_selected_from(oam, line, spec_sprite_height(lcd), 0, 10)),
        0,
    )
}

/// A framebuffer of backdrop colour zero.
pub open spec fn spec_blank_fb(len: nat) -> Seq<u8> {
    Seq::new(len, |i: int| 0u8)
}

/// The framebuffer with one line filled with the backdrop colour,
/// palette entry zero.
pub open spec fn spec_backdrop_line_fb(line: u8, pal: Seq<u8>, fb: Seq<u8>) -> Seq<u8> {
    Seq::new(
        fb.len(),
        |i: int|
            if 160 * (line as int) <= i < 160 * (line as int) + 160 {
                pal[0]
            } else {
                fb[i]
            },
    )
}

/// What one scanline render leaves in the framebuffer and the window
/// line counter: nothing but zeroes with the LCD off; otherwise the
/// background (or the backdrop colour over the line), the window
/// pass, then the sprite pass.
pub open spec fn spec_render_output(g: Gpu) -> (Seq<u8>, nat) {
    if g.lcd_control & LCDC_LCD_ENABLE == 0 {
        (spec_blank_fb(g.framebuffer@.len()), g.window_line as nat)
    } else {
        let fb1 = if g.lcd_control & LCDC_BG_WINDOW_ENABLE == 0 {
            spec_backdrop_line_fb(g.line, g.bg_palette@, g.framebuffer@)
        } else {
            spec_bg_fb(
                g.lcd_control,
                g.line,
                g.scroll_x,
                g.scroll_y,
                g.vram@,
                g.tiles@,
                g.bg_palette@,
                g.framebuffer@,
            )
        };
        let pair = if g.lcd_control & LCDC_WINDOW_ENABLE != 0 {
            spec_window_apply(
                g.lcd_control,
                g.line,
                g.window_coords.0,
                g.window_coords.1,
                g.window_drawing,
                g.window_line as nat,
                g.vram@,
                g.tiles@,
                g.bg_palette@,
                fb1,
            )
        } else {
            (fb1, g.window_line as nat)
        };
        let fb3 = if g.lcd_control & LCDC_OBJ_ENABLE != 0 {
            spec_sprites_fb(g.oam@, g.line, g.lcd_control, g.tiles@, g.bg_palette@, pair.0)
        } else {
            pair.0
        };
        (fb3, pair.1)
    }
}

/// Every index the selection yields is an OAM slot at or after `i`
/// that covers the line.
proof fn lemma_selected_members(oam: Seq<u8>, line: u8, h: int, i: int, room: int)
    requires
        0 <= i <= 40,
    ensures
        forall|k: int|
            0 <= k < spec_selected_from(oam, line, h, i, room).len() ==> {
                let e = #[trigger] spec_selected_from(oam, line, h, i, room)[k];
                &&& i <= e < 40
                &&& spec_sprite_match(oam, line, h, e as int)
            },
    decreases 40 - i,
{
    if i >= 40 || room <= 0 {
    } else if spec_sprite_match(oam, line, h, i) {
        lemma_selected_members(oam, line, h, i + 1, room - 1);
        let s = spec_selected_from(oam, line, h, i, room);
        let rest = spec_selected_from(oam, line, h, i + 1, room - 1);
        assert forall|k: int| 0 <= k < s.len() implies {
            let e = #[trigger] s[k];
            &&& i <= e < 40
            &&& spec_sprite_match(oam, line, h, e as int)
        } by {
            if k == 0 {
                assert(s[0] == i as usize);
            } else {
                assert(s[k] == rest[k - 1]);
            }
        }
    } else {
        lemma_selected_members(oam, line, h, i + 1, room);
        let s = spec_selected_from(oam, line, h, i, room);
        let rest = spec_selected_from(oam, line, h, i + 1, room);
        assert forall|k: int| 0 <= k < s.len() implies {
            let e = #[trigger] s[k];
            &&& i <= e < 40
            &&& spec_sprite_match(oam, line, h, e as int)
        } by {
            assert(s[k] == rest[k]);
        }
    }
}

/// Insertion keeps exactly the members of `s` plus `i`.
proof fn lemma_insert_members(oam: Seq<u8>, s: Seq<usize>, i: usize)
    ensures
        forall|k: int|
            0 <= k < spec_insert_by_x(oam, s, i).len() ==> (s.contains(
                #[trigger] spec_insert_by_x(oam, s, i)[k],
            ) || spec_insert_by_x(oam, s, i)[k] == i),
        spec_insert_by_x(oam, s, i).len() == s.len() + 1,
    decreases s.len(),
{
    if s.len() == 0 {
    } else if oam[4 * (s.last() as int) + 1] <= oam[4 * (i as int) + 1] {
    } else {
        lemma_insert_members(oam, s.drop_last(), i);
        assert forall|k: int|
            0 <= k < spec_insert_by_x(oam, s, i).len() implies (s.contains(
            #[trigger] spec_insert_by_x(oam, s, i)[k],
        ) || spec_insert_by_x(oam, s, i)[k] == i) by {
            let r = spec_insert_by_x(oam, s, i);
            let rd = spec_insert_by_x(oam, s.drop_last(), i);
            if k < rd.len() {
                if s.drop_last().contains(rd[k]) {
                    let j = choose|j: int| 0 <= j < s.drop_last().len() && s.drop_last()[j] == rd[k];
                    assert(s[j] == rd[k]);
                }
            } else {
                assert(r[k] == s.last());
                assert(s[s.len() - 1] == s.last());
            }
        }
    }
}

/// Sorting keeps exactly the members of `s`.
proof fn lemma_sort_members(oam: Seq<u8>, s: Seq<usize>)
    ensures
        forall|k: int|
            0 <= k < spec_sort_by_x(oam, s).len() ==> s.contains(
                #[trigger] spec_sort_by_x(oam, s)[k],
            ),
        spec_sort_by_x(oam, s).len() == s.len(),
    decreases s.len(),
{
    if s.len() == 0 {
    } else {
        lemma_sort_members(oam, s.drop_last());
        lemma_insert_members(oam, spec_sort_by_x(oam, s.drop_last()), s.last());
        assert forall|k: int|
            0 <= k < spec_sort_by_x(oam, s).len() implies s.contains(
            #[trigger] spec_sort_by_x(oam, s)[k],
        ) by {
            let e = spec_sort_by_x(oam, s)[k];
            if e == s.last() {
                assert(s[s.len() - 1] == e);
            } else {
                assert(spec_sort_by_x(oam, s.drop_last()).contains(e));
                let j = choose|j: int|
                    0 <= j < spec_sort_by_x(oam, s.drop_last()).len() && spec_sort_by_x(
                        oam,
                        s.drop_last(),
                    )[j] == e;
                let m = choose|m: int|
                    0 <= m < s.drop_last().len() && s.drop_last()[m] == spec_sort_by_x(
                        oam,
                        s.drop_last(),
                    )[j];
                assert(s[m] == e);
            }
        }
    }
}

/// Inserting at the position an insertion sort's inner scan finds
/// matches the recursive insertion.
proof fn lemma_insert_position(oam: Seq<u8>, s: Seq<usize>, i: usize, p: int)
    requires
        0 <= p <= s.len(),
        forall|j: int| p <= j < s.len() ==> oam[4 * ((#[trigger] s[j]) as int) + 1] > oam[4 * (
        i as int) + 1],
        p > 0 ==> oam[4 * ((s[p - 1]) as int) + 1] <= oam[4 * (i as int) + 1],
    ensures
        spec_insert_by_x(oam, s, i) == s.insert(p, i),
    decreases s.len(),
{
    if s.len() == 0 {
        assert(s.insert(0, i) =~= seq![i]);
    } else if oam[4 * (s.last() as int) + 1] <= oam[4 * (i as int) + 1] {
        assert(p == s.len());
        assert(s.insert(p, i) =~= s.push(i));
    } else {
        assert(p < s.len());
        lemma_insert_position(oam, s.drop_last(), i, p);
        assert(spec_insert_by_x(oam, s, i) == spec_insert_by_x(oam, s.drop_last(), i).push(
            s.last(),
        ));
        assert(s.drop_last().insert(p, i).push(s.last()) =~= s.insert(p, i));
    }
}

impl Gpu {
    /// The sprites to draw on the current line: the first ten OAM
    /// entries that cover it, sorted stably by X coordinate.
    fn sprite_draw_order(&self) -> (r: Vec<usize>)
        requires
            self.buffers_wf(),
            self.line < 144,
        ensures
            r@ == spec_sort_by_x(
                self.oam@,
                spec_selected_from(
                    self.oam@,
                    self.line,
                    spec_sprite_height(self.lcd_control),
                    0,
                    10,
                ),
            ),
            forall|k: int|
                0 <= k < r@.len() ==> (#[trigger] r@[k]) < 40 && spec_sprite_match(
                    self.oam@,
                    self.line,
                    spec_sprite_height(self.lcd_control),
                    r@[k] as int,
                ),
    {
        let h: usize = if self.lcd_control & LCDC_OBJ_SIZE != 0 {
            16
        } else {
            8
        };
        let ghost hh = spec_sprite_height(self.lcd_control);

        let mut picked: Vec<usize> = Vec::new();
        let mut i: usize = 0;
        while i < 40 && picked.len() < 10
            invariant
                i <= 40,
                self.buffers_wf(),
                h == hh,
                h <= 16,
                picked@.len() <= 10,
                spec_selected_from(self.oam@, self.line, hh, 0, 10) == picked@
                    + spec_selected_from(self.oam@, self.line, hh, i as int, 10 - picked@.len()),
            decreases 40 - i,
        {
            let y = self.oam[4 * i] as usize;
            let covered = (self.line as usize) + 16 >= y && (self.line as usize) + 16 < y + h;
            proof {
                assert(covered == spec_sprite_match(self.oam@, self.line, hh, i as int));
            }
            if covered {
                let ghost before = picked@;
                picked.push(i);
                proof {
                    assert(before + (seq![i] + spec_selected_from(
                        self.oam@,
                        self.line,
                        hh,
                        i as int + 1,
                        10 - before.len() - 1,
                    )) =~= picked@ + spec_selected_from(
                        self.oam@,
                        self.line,
                        hh,
                        i as int + 1,
                        10 - picked@.len(),
                    ));
                }
            }
            i = i + 1;
        }
        proof {
            assert(spec_selected_from(self.oam@, self.line, hh, i as int, 10 - picked@.len())
                =~= Seq::<usize>::empty());
            assert(picked@ + Seq::<usize>::empty() =~= picked@);
            assert(picked@ == spec_selected_from(self.oam@, self.line, hh, 0, 10));
            lemma_selected_members(self.oam@, self.line, hh, 0, 10);
        }

        proof {
            assert(picked@.subrange(0, 0) =~= Seq::<usize>::empty());
            assert forall|m: int| 0 <= m < picked@.len() implies (#[trigger] picked@[m]) < 40 by {
                assert(picked@[m] == spec_selected_from(self.oam@, self.line, hh, 0, 10)[m]);
            }
        }
        let mut out: Vec<usize> = Vec::new();
        let mut k: usize = 0;
        while k < picked.len()
            invariant
                k <= picked@.len(),
                self.buffers_wf(),
                picked@ == spec_selected_from(self.oam@, self.line, hh, 0, 10),
                out@ == spec_sort_by_x(self.oam@, picked@.subrange(0, k as int)),
                out@.len() == k,
                forall|m: int| 0 <= m < picked@.len() ==> (#[trigger] picked@[m]) < 40,
                forall|m: int| 0 <= m < out@.len() ==> (#[trigger] out@[m]) < 40,
            decreases picked@.len() - k,
        {
            let item = picked[k];
            let mut pos: usize = out.len();
            while pos > 0 && self.oam[4 * out[pos - 1] + 1] > self.oam[4 * item + 1]
                invariant
                    pos <= out@.len(),
                    self.buffers_wf(),
                    item < 40,
                    forall|m: int| 0 <= m < out@.len() ==> (#[trigger] out@[m]) < 40,
                    forall|j: int|
                        pos <= j < out@.len() ==> self.oam@[4 * ((#[trigger] out@[j]) as int) + 1]
                            > self.oam@[4 * (item as int) + 1],
                decreases pos,
            {
                pos = pos - 1;
            }
            proof {
                lemma_insert_position(self.oam@, out@, item, pos as int);
                lemma_sort_members(self.oam@, picked@.subrange(0, k as int));
                lemma_insert_members(self.oam@, out@, item);
                assert(picked@.subrange(0, k as int + 1).drop_last() =~= picked@.subrange(
                    0,
                    k as int,
                ));
                assert(picked@.subrange(0, k as int + 1).last() == picked@[k as int]);
            }
            out.insert(pos, item);
            k = k + 1;
            proof {
                assert forall|m: int| 0 <= m < out@.len() implies (#[trigger] out@[m]) < 40 by {
                    lemma_sort_members(self.oam@, picked@.subrange(0, k as int));
                    let sub = picked@.subrange(0, k as int);
                    assert(sub.contains(out@[m]));
                    let j = choose|j: int| 0 <= j < sub.len() && sub[j] == out@[m];
                    assert(picked@[j] == out@[m]);
                }
            }
        }
        proof {
            assert(picked@.subrange(0, picked@.len() as int) =~= picked@);
            lemma_sort_members(self.oam@, picked@);
            assert forall|k2: int| 0 <= k2 < out@.len() implies (#[trigger] out@[k2]) < 40
                && spec_sprite_match(self.oam@, self.line, hh, out@[k2] as int) by {
                assert(picked@.contains(out@[k2]));
                let j = choose|j: int| 0 <= j < picked@.len() && picked@[j] == out@[k2];
                lemma_selected_members(self.oam@, self.line, hh, 0, 10);
                assert(picked@[j] < 40 && spec_sprite_match(
                    self.oam@,
                    self.line,
                    hh,
                    picked@[j] as int,
                ));
            }
        }
        out
    }

    /// Draws one sprite's eight columns onto the current line.
    fn draw_sprite(&mut self, i: usize)
        requires
            old(self).buffers_wf(),
            old(self).line < 144,
            i < 40,
            spec_sprite_match(
                old(self).oam@,
                old(self).line,
                spec_sprite_height(old(self).lcd_control),
                i as int,
            ),
        ensures
            *final(self) == (Gpu { framebuffer: final(self).framebuffer, ..*old(self) }),
            final(self).framebuffer@ == spec_draw_sprite(
                old(self).oam@,
                old(self).line,
                old(self).lcd_control,
                old(self).tiles@,
                old(self).bg_palette@,
                old(self).framebuffer@,
                i as int,
            ),
            final(self).buffers_wf(),
    {
        let ghost target = spec_draw_sprite(
            old(self).oam@,
            old(self).line,
            old(self).lcd_control,
            old(self).tiles@,
            old(self).bg_palette@,
            old(self).framebuffer@,
            i as int,
        );
        let large = self.lcd_control & LCDC_OBJ_SIZE != 0;

        let sprite_y = self.oam[4 * i] as usize;
        let sprite_x_raw = self.oam[4 * i + 1] as usize;
        let tile_index: u8 = self.oam[4 * i + 2];
        let attributes = self.oam[4 * i + 3];

        let y: usize = (self.line as usize) + 16 - sprite_y;
        let masked: u8 = tile_index & 0xfe;
        let (tid, ty): (usize, usize) = if large {
            if y >= 8 {
                ((masked as usize) + 1, y - 8)
            } else {
                (masked as usize, y)
            }
        } else {
            (tile_index as usize, y)
        };
        proof {
            assert((tid as int, ty as int) == spec_sprite_tile(
                self.oam@,
                self.line,
                self.lcd_control,
                i as int,
            ));
        }

        let behind = attributes & 0x80 != 0;
        let rs: usize = 160 * (self.line as usize);

        let mut x: usize = 0;
        while x < 8
            invariant
                x <= 8,
                self.buffers_wf(),
                i < 40,
                tid < 384,
                ty < 8,
                rs == 160 * (old(self).line as int),
                rs + 160 <= FRAMEBUFFER_SIZE,
                sprite_x_raw == old(self).oam@[4 * i + 1],
                behind == (old(self).oam@[4 * i + 3] & 0x80 != 0),
                (tid as int, ty as int) == spec_sprite_tile(
                    old(self).oam@,
                    old(self).line,
                    old(self).lcd_control,
                    i as int,
                ),
                target == spec_draw_sprite(
                    old(self).oam@,
                    old(self).line,
                    old(self).lcd_control,
                    old(self).tiles@,
                    old(self).bg_palette@,
                    old(self).framebuffer@,
                    i as int,
                ),
                *self == (Gpu { framebuffer: self.framebuffer, ..*old(self) }),
                self.framebuffer@.len() == FRAMEBUFFER_SIZE,
                old(self).framebuffer@.len() == FRAMEBUFFER_SIZE,
                old(self).buffers_wf(),
                forall|idx: int|
                    0 <= idx < FRAMEBUFFER_SIZE && !(rs <= idx < rs + 160) ==> self.framebuffer@[idx]
                        == old(self).framebuffer@[idx],
                forall|idx: int|
                    rs <= idx < rs + 160 && !(0 <= (idx - rs) - (sprite_x_raw - 8) < x)
                        ==> #[trigger] self.framebuffer@[idx] == old(self).framebuffer@[idx],
                forall|idx: int|
                    rs <= idx < rs + 160 && 0 <= (idx - rs) - (sprite_x_raw - 8) < x
                        ==> #[trigger] self.framebuffer@[idx] == target[idx],
            decreases 8 - x,
        {
            let p = self.tiles[tid].get(x, ty);

            let col_plus_8: usize = sprite_x_raw + x;
            if p != 0 && col_plus_8 >= 8 && col_plus_8 < 168 {
                let col: usize = col_plus_8 - 8;
                let idx: usize = rs + col;
                if !behind || self.framebuffer[idx] == self.bg_palette[0] {
                    self.framebuffer[idx] = p;
                }
            }
            proof {
                let sxi = sprite_x_raw - 8;
                let st = spec_sprite_tile(
                    old(self).oam@,
                    old(self).line,
                    old(self).lcd_control,
                    i as int,
                );
                assert(target.len() == FRAMEBUFFER_SIZE);
                assert forall|idx: int|
                    rs <= idx < rs + 160 && 0 <= (idx - rs) - sxi < x + 1
                        implies self.framebuffer@[idx] == target[idx] by {
                    let xo = (idx - rs) - sxi;
                    if xo == x {
                        assert(idx == rs + sxi + x);
                        assert(p == old(self).tiles@[st.0].pixels@[xo + st.1 * 8]);
                        if p != 0 && (!behind || old(self).framebuffer@[idx] == old(
                            self,
                        ).bg_palette@[0]) {
                            assert(self.framebuffer@[idx] == p);
                            assert(target[idx] == p);
                        } else {
                            assert(self.framebuffer@[idx] == old(self).framebuffer@[idx]);
                            assert(target[idx] == old(self).framebuffer@[idx]);
                        }
                    }
                }
            }
            x = x + 1;
        }
        proof {
            assert(self.framebuffer@ =~= target);
        }
    }

    /// The sprite pass: draws the selected sprites in X order.
    fn render_sprite_scanline(&mut self)
        requires
            old(self).buffers_wf(),
            old(self).line < 144,
        ensures
            *final(self) == (Gpu { framebuffer: final(self).framebuffer, ..*old(self) }),
            final(self).framebuffer@ == spec_sprites_fb(
                old(self).oam@,
                old(self).line,
                old(self).lcd_control,
                old(self).tiles@,
                old(self).bg_palette@,
                old(self).framebuffer@,
            ),
            final(self).buffers_wf(),
    {
        let order = self.sprite_draw_order();
        let ghost ord = order@;

        let mut k: usize = 0;
        while k < order.len()
            invariant
                k <= ord.len(),
                order@ == ord,
                self.buffers_wf(),
                self.line == old(self).line,
                old(self).line < 144,
                *self == (Gpu { framebuffer: self.framebuffer, ..*old(self) }),
                forall|m: int|
                    0 <= m < ord.len() ==> (#[trigger] ord[m]) < 40 && spec_sprite_match(
                        old(self).oam@,
                        old(self).line,
                        spec_sprite_height(old(self).lcd_control),
                        ord[m] as int,
                    ),
                spec_draw_list(
                    old(self).oam@,
                    old(self).line,
                    old(self).lcd_control,
                    old(self).tiles@,
                    old(self).bg_palette@,
                    old(self).framebuffer@,
                    ord,
                    0,
                ) == spec_draw_list(
                    old(self).oam@,
                    old(self).line,
                    old(self).lcd_control,
                    old(self).tiles@,
                    old(self).bg_palette@,
                    self.framebuffer@,
                    ord,
                    k as int,
                ),
            decreases ord.len() - k,
        {
            let i = order[k];
            self.draw_sprite(i);
            k = k + 1;
        }
    }
}

/// One timing step of the mode machine: accumulate `t` T-cycles, then
/// take at most one mode transition. Yields the new mode, line and
/// accumulator, and whether the step finished a frame (the transition
/// into VBlank).
pub open spec fn spec_mode_step(mode: GpuMode, line: u8, mc: nat, t: nat) -> (GpuMode, u8, nat, bool) {
    let m = mc + t;
    match mode {
        GpuMode::HBlank => {
            if m >= 204 {
                let l2 = (line + 1) as u8;
                if l2 > 143 {
                    (GpuMode::VBlank, l2, (m - 204) as nat, true)
                } else {
                    (GpuMode::OamRead, l2, (m - 204) as nat, false)
                }
            } else {
                (mode, line, m, false)
            }
        },
        GpuMode::VBlank => {
            if m >= 456 {
                let l2 = (line + 1) as u8;
                if l2 > 153 {
                    (GpuMode::OamRead, 0, (m - 456) as nat, false)
                } else {
                    (GpuMode::VBlank, l2, (m - 456) as nat, false)
                }
            } else {
                (mode, line, m, false)
            }
        },
        GpuMode::OamRead => {
            if m >= 80 {
                (GpuMode::VramRead, line, (m - 80) as nat, false)
            } else {
                (mode, line, m, false)
            }
        },
        GpuMode::VramRead => {
            if m >= 172 {
                (GpuMode::HBlank, line, (m - 172) as nat, false)
            } else {
                (mode, line, m, false)
            }
        },
    }
}

/// The interrupt bits one timing step raises: LCD-STAT on enabled mode
/// or LYC coincidence transitions, plus VBlank on entering VBlank.
pub open spec fn spec_cycle_interrupts(
    mode: GpuMode,
    line: u8,
    mc: nat,
    t: nat,
    stat_src: u8,
    lyc: u8,
) -> u8 {
    let m = mc + t;
    match mode {
        GpuMode::HBlank => {
            if m >= 204 {
                let l2 = (line + 1) as u8;
                let lyc_bit: u8 = if stat_src & STAT_SOURCE_LYC_LY != 0 && lyc == l2 {
                    INT_LCD_STAT
                } else {
                    0
                };
                if l2 > 143 {
                    lyc_bit | (if stat_src & STAT_SOURCE_VBLANK != 0 {
                        INT_LCD_STAT
                    } else {
                        0
                    }) | INT_VBLANK
                } else {
                    lyc_bit | (if stat_src & STAT_SOURCE_OAM != 0 {
                        INT_LCD_STAT
                    } else {
                        0
                    })
                }
            } else {
                0
            }
        },
        GpuMode::VBlank => {
            if m >= 456 && line + 1 > 153 {
                if (stat_src & STAT_SOURCE_LYC_LY != 0 && lyc == 0) || stat_src & STAT_SOURCE_OAM
                    != 0 {
                    INT_LCD_STAT
                } else {
                    0
                }
            } else {
                0
            }
        },
        GpuMode::OamRead => 0,
        GpuMode::VramRead => {
            if m >= 172 {
                if stat_src & STAT_SOURCE_HBLANK != 0 {
                    INT_LCD_STAT
                } else {
                    0
                }
            } else {
                0
            }
        },
    }
}

/// Everything one timing call changes and returns, as a relation
/// between the unit before and after: the mode machine steps by `t`
/// T-cycles, the raised interrupt bits are exactly the transition's,
/// the register surface is untouched, and a VRAM-to-HBlank transition
/// renders the scanline (after starting the window at its first
/// line).
pub open spec fn spec_cycle_rel(pre: Gpu, post: Gpu, t_cycles: nat, frame: bool, ints: u8) -> bool {
    &&& ({
        let st = spec_mode_step(pre.mode, pre.line, pre.mode_cycles as nat, t_cycles);
        &&& post.mode == st.0
        &&& post.line == st.1
        &&& post.mode_cycles == st.2
        &&& frame == st.3
    })
    &&& ints == spec_cycle_interrupts(
        pre.mode,
        pre.line,
        pre.mode_cycles as nat,
        t_cycles,
        pre.stat_interrupt_source,
        pre.lyc,
    )
    &&& ints & !0x1fu8 == 0
    &&& post.vram@ == pre.vram@
    &&& post.oam@ == pre.oam@
    &&& post.tiles@ == pre.tiles@
    &&& post.lyc == pre.lyc
    &&& post.scroll_x == pre.scroll_x
    &&& post.scroll_y == pre.scroll_y
    &&& post.lcd_control == pre.lcd_control
    &&& post.stat_interrupt_source == pre.stat_interrupt_source
    &&& post.bg_palette@ == pre.bg_palette@
    &&& post.obj_palette0@ == pre.obj_palette0@
    &&& post.obj_palette1@ == pre.obj_palette1@
    &&& post.window_coords == pre.window_coords
    &&& ({
        let render = pre.mode is VramRead && pre.mode_cycles + t_cycles >= 172;
        let entered_vblank = pre.mode is HBlank && pre.mode_cycles + t_cycles >= 204 && pre.line
            + 1 > 143;
        if render {
            let wd = pre.window_coords.1 == pre.line || pre.window_drawing;
            let wl0: usize = if pre.window_coords.1 == pre.line {
                0
            } else {
                pre.window_line
            };
            let g = Gpu {
                mode: GpuMode::HBlank,
                mode_cycles: post.mode_cycles,
                window_drawing: wd,
                window_line: wl0,
                ..pre
            };
            &&& post.window_drawing == wd
            &&& post.framebuffer@ == spec_render_output(g).0
            &&& post.window_line == spec_render_output(g).1
        } else if entered_vblank {
            &&& !post.window_drawing
            &&& post.framebuffer@ == pre.framebuffer@
            &&& post.window_line == pre.window_line
        } else {
            &&& post.window_drawing == pre.window_drawing
            &&& post.framebuffer@ == pre.framebuffer@
            &&& post.window_line == pre.window_line
        }
    })
}

impl Gpu {
    /// Stores one byte of video RAM and rebuilds the cached tile row it
    /// belongs to.
    pub fn write_vram(&mut self, offset: u16, value: u8)
        requires
            old(self).wf(),
            offset < 0x2000,
        ensures
            final(self).wf(),
            *final(self) == (Gpu {
                vram: final(self).vram,
                tiles: final(self).tiles,
                ..*old(self)
            }),
            final(self).vram@ == old(self).vram@.update(offset as int, value),
            final(self).tiles@.len() == 384,
            ({
                let a = (offset & 0xfffe) as int;
                let tile = a / 16;
                let y = a % 16 / 2;
                if tile >= 384 {
                    final(self).tiles@ == old(self).tiles@
                } else {
                    &&& (forall|k: int|
                        0 <= k < 384 && k != tile ==> final(self).tiles@[k] == old(self).tiles@[k])
                    &&& (forall|x: int|
                        0 <= x < 8 ==> final(self).tiles@[tile].pixels@[x + y * 8]
                            == #[trigger] spec_tile_pixel(
                            final(self).vram@[a],
                            final(self).vram@[a + 1],
                            x,
                        ))
                    &&& (forall|i: int|
                        0 <= i < 64 && !(y * 8 <= i < y * 8 + 8)
                            ==> final(self).tiles@[tile].pixels@[i] == old(
                            self,
                        ).tiles@[tile].pixels@[i])
                }
            }),
    {
        self.vram[offset as usize] = value;
        self.update_tile(offset);
    }

    /// Renders one scanline: the background (or, with the background
    /// disabled, the backdrop colour over the line), then the window,
    /// then sprites, as the LCD-control bits enable them. With the LCD
    /// off the whole framebuffer is blanked instead.
    pub fn render_scanline(&mut self)
        requires
            old(self).buffers_wf(),
            old(self).line < 144,
            old(self).window_drawing ==> old(self).window_line <= 143,
        ensures
            *final(self) == (Gpu {
                framebuffer: final(self).framebuffer,
                window_line: final(self).window_line,
                ..*old(self)
            }),
            final(self).framebuffer@ == spec_render_output(*old(self)).0,
            final(self).window_line == spec_render_output(*old(self)).1,
            final(self).window_line <= old(self).window_line + 1,
            final(self).buffers_wf(),
    {
        if self.lcd_control & LCDC_LCD_ENABLE == 0 {
            self.clear_framebuffer();
            return ;
        }

        if self.lcd_control & LCDC_BG_WINDOW_ENABLE == 0 {
            self.fill_backdrop_line();
        } else {
            self.render_background_scanline();
        }

        if self.lcd_control & LCDC_WINDOW_ENABLE != 0 {
            self.render_window_scanline();
        }

        if self.lcd_control & LCDC_OBJ_ENABLE != 0 {
            self.render_sprite_scanline();
        }
    }

    /// Advances the mode machine by `t_cycles` T-cycles. At most one
    /// transition is taken, which fits every caller: instructions never
    /// span more T-cycles than the shortest dwell time. Returns whether
    /// a frame just completed and the raised interrupt bits. A
    /// VRAM-to-HBlank transition renders the scanline into the
    /// framebuffer, after starting the window at its first line.
    pub fn cycle(&mut self, t_cycles: usize) -> (r: (bool, u8))
        requires
            old(self).wf(),
            t_cycles <= 80,
        ensures
            final(self).wf(),
            spec_cycle_rel(*old(self), *final(self), t_cycles as nat, r.0, r.1),

    {
        self.mode_cycles = self.mode_cycles + t_cycles;

        let mut frame = false;
        let mut raised: u8 = 0;

        match self.mode {
            GpuMode::HBlank => {
                if self.mode_cycles >= 204 {
                    self.mode_cycles = self.mode_cycles - 204;
                    self.line = self.line + 1;

                    let lyc_bit: u8 = if self.stat_interrupt_source & STAT_SOURCE_LYC_LY != 0
                        && self.lyc == self.line {
                        INT_LCD_STAT
                    } else {
                        0
                    };

                    if self.line > 143 {
                        self.mode = GpuMode::VBlank;
                        let stat_bit: u8 = if self.stat_interrupt_source & STAT_SOURCE_VBLANK != 0 {
                            INT_LCD_STAT
                        } else {
                            0
                        };
                        proof {
                            lemma_small_or_mask(lyc_bit, stat_bit);
                            lemma_small_or_mask(lyc_bit | stat_bit, INT_VBLANK);
                            lemma_small_or_mask((lyc_bit | stat_bit) | INT_VBLANK, 0);
                        }
                        raised = lyc_bit | stat_bit | INT_VBLANK;
                        self.window_drawing = false;
                        frame = true;
                    } else {
                        self.mode = GpuMode::OamRead;
                        let stat_bit: u8 = if self.stat_interrupt_source & STAT_SOURCE_OAM != 0 {
                            INT_LCD_STAT
                        } else {
                            0
                        };
                        proof {
                            lemma_small_or_mask(lyc_bit, stat_bit);
                            lemma_small_or_mask(lyc_bit | stat_bit, 0);
                        }
                        raised = lyc_bit | stat_bit;
                    }
                }
            },
            GpuMode::VBlank => {
                if self.mode_cycles >= 456 {
                    self.mode_cycles = self.mode_cycles - 456;
                    self.line = self.line + 1;

                    if self.line > 153 {
                        self.mode = GpuMode::OamRead;
                        self.line = 0;

                        raised = if (self.stat_interrupt_source & STAT_SOURCE_LYC_LY != 0
                            && self.lyc == 0) || self.stat_interrupt_source & STAT_SOURCE_OAM
                            != 0 {
                            INT_LCD_STAT
                        } else {
                            0
                        };
                    }
                }
            },
            GpuMode::OamRead => {
                if self.mode_cycles >= 80 {
                    self.mode_cycles = self.mode_cycles - 80;
                    self.mode = GpuMode::VramRead;
                }
            },
            GpuMode::VramRead => {
                if self.mode_cycles >= 172 {
                    self.mode_cycles = self.mode_cycles - 172;
                    self.mode = GpuMode::HBlank;

                    if self.window_coords.1 == self.line {
                        self.window_drawing = true;
                        self.window_line = 0;
                    }

                    self.render_scanline();

                    raised = if self.stat_interrupt_source & STAT_SOURCE_HBLANK != 0 {
                        INT_LCD_STAT
                    } else {
                        0
                    };
                }
            },
        }

        proof {
            lemma_small_or_mask(raised, 0);
        }
        (frame, raised)
    }
}


/// The timing machine's canonical position `tt` T-cycles into a frame
/// (taken modulo the 70224-T frame): the line is `tt / 456`, and the
/// 456 T of a visible line split into 80 OAM, 172 VRAM and 204
/// HBlank; lines 144..=153 dwell in VBlank.
pub open spec fn spec_frame_state(tt: nat) -> (GpuMode, u8, nat) {
    let ttm = tt % 70224;
    let line = ttm / 456;
    let pos = ttm % 456;
    if line < 144 {
        if pos < 80 {
            (GpuMode::OamRead, line as u8, pos)
        } else if pos < 252 {
            (GpuMode::VramRead, line as u8, (pos - 80) as nat)
        } else {
            (GpuMode::HBlank, line as u8, (pos - 252) as nat)
        }
    } else {
        (GpuMode::VBlank, line as u8, pos)
    }
}

/// One call of the mode machine, from any canonical position and with
/// any in-range budget, lands on the canonical position of the new
/// total - and completes a frame exactly when the call crosses the
/// HBlank-to-VBlank boundary at 65664 T.
proof fn lemma_frame_state_step(tt: nat, t: nat)
    requires
        t <= 80,
        tt < 70224,
        tt + t <= 70224,
    ensures
        ({
            let s = spec_frame_state(tt);
            let s2 = spec_mode_step(s.0, s.1, s.2, t);
            &&& (s2.0, s2.1, s2.2) == spec_frame_state(tt + t)
            &&& s2.3 == (tt < 65664 && tt + t >= 65664)
        }),
{
    let l = tt / 456;
    let pos = tt % 456;
    assert(456 * l + pos == tt && pos < 456 && l < 154) by (nonlinear_arith)
        requires
            l == tt / 456,
            pos == tt % 456,
            tt < 70224,
    ;
    assert(tt % 70224 == tt) by (nonlinear_arith)
        requires
            tt < 70224,
    ;
    if pos + t < 456 {
        assert((tt + t) / 456 == l && (tt + t) % 456 == pos + t) by (nonlinear_arith)
            requires
                456 * l + pos == tt,
                pos + t < 456,
                0 <= pos,
        ;
        if tt + t < 70224 {
            assert((tt + t) % 70224 == tt + t) by (nonlinear_arith)
                requires
                    tt + t < 70224,
            ;
        } else {
            assert(tt + t == 70224 && 70224nat % 70224 == 0 && 0nat / 456 == 0 && 0nat % 456
                == 0) by (nonlinear_arith)
                requires
                    tt + t <= 70224,
                    tt + t >= 70224,
            ;
            assert(false) by (nonlinear_arith)
                requires
                    456 * l + pos == tt,
                    pos + t < 456,
                    tt + t == 70224,
                    l < 154,
            ;
        }
    } else {
        assert((tt + t) / 456 == l + 1 && (tt + t) % 456 == pos + t - 456) by (nonlinear_arith)
            requires
                456 * l + pos == tt,
                456 <= pos + t,
                pos + t < 912,
                0 <= pos,
        ;
        if tt + t < 70224 {
            assert((tt + t) % 70224 == tt + t) by (nonlinear_arith)
                requires
                    tt + t < 70224,
            ;
        } else {
            assert(tt + t == 70224);
            assert(70224nat % 70224 == 0 && 0nat / 456 == 0 && 0nat % 456 == 0) by (
            nonlinear_arith);
            assert(l == 153 && pos + t - 456 == 0) by (nonlinear_arith)
                requires
                    456 * l + pos == tt,
                    tt + t == 70224,
                    456 <= pos + t,
                    pos < 456,
                    t <= 80,
                    l < 154,
            ;
        }
    }
    if l < 143 {
        assert(tt + t < 65664) by (nonlinear_arith)
            requires
                456 * l + pos == tt,
                pos < 456,
                t <= 80,
                l < 143,
        ;
    } else if l == 143 {
        assert(tt < 65664 && tt + 456 - pos == 65664) by (nonlinear_arith)
            requires
                456 * l + pos == tt,
                pos < 456,
                l == 143,
        ;
    } else {
        assert(tt >= 65664) by (nonlinear_arith)
            requires
                456 * l + pos == tt,
                0 <= pos,
                l >= 144,
        ;
    }
}

/// The budgets of a sequence of calls, from position `i` on.
pub open spec fn spec_chunk_sum(ts: Seq<nat>, i: int) -> nat
    decreases ts.len() - i,
{
    if i < 0 || i >= ts.len() {
        0
    } else {
        ts[i] + spec_chunk_sum(ts, i + 1)
    }
}

/// The timing machine driven by a whole sequence of calls, from
/// position `i` on: the final state and how many frames completed.
pub open spec fn spec_mode_steps(mode: GpuMode, line: u8, mc: nat, ts: Seq<nat>, i: int) -> (
    GpuMode,
    u8,
    nat,
    nat,
)
    decreases ts.len() - i,
{
    if i < 0 || i >= ts.len() {
        (mode, line, mc, 0)
    } else {
        let s = spec_mode_step(mode, line, mc, ts[i]);
        let rest = spec_mode_steps(s.0, s.1, s.2, ts, i + 1);
        (
            rest.0,
            rest.1,
            rest.2,
            rest.3 + if s.3 {
                1nat
            } else {
                0nat
            },
        )
    }
}

/// Driving the machine from canonical position `tt` with any tail of
/// in-range calls lands on the canonical position of the new total,
/// completing one frame exactly when the 65664-T boundary is crossed.
proof fn lemma_frame_state_steps(ts: Seq<nat>, i: int, tt: nat)
    requires
        0 <= i <= ts.len(),
        forall|j: int| 0 <= j < ts.len() ==> ts[j] <= 80,
        tt < 70224,
        tt + spec_chunk_sum(ts, i) <= 70224,
    ensures
        ({
            let s = spec_frame_state(tt);
            let total = (tt + spec_chunk_sum(ts, i)) as nat;
            spec_mode_steps(s.0, s.1, s.2, ts, i) == (
                spec_frame_state(total).0,
                spec_frame_state(total).1,
                spec_frame_state(total).2,
                if tt < 65664 && total >= 65664 {
                    1nat
                } else {
                    0nat
                },
            )
        }),
    decreases ts.len() - i,
{
    if i >= ts.len() {
    } else {
        assert(spec_chunk_sum(ts, i) == ts[i] + spec_chunk_sum(ts, i + 1));
        lemma_chunk_sum_nonneg(ts, i + 1);
        lemma_frame_state_step(tt, ts[i]);
        if tt + ts[i] < 70224 {
            lemma_frame_state_steps(ts, i + 1, (tt + ts[i]) as nat);
        } else {
            lemma_chunk_sum_zero(ts, i + 1, (tt + ts[i]) as nat);
            lemma_frame_state_steps(ts, i + 1, 0);
        }
    }
}

proof fn lemma_chunk_sum_nonneg(ts: Seq<nat>, i: int)
    ensures
        spec_chunk_sum(ts, i) >= 0,
    decreases ts.len() - i,
{
}

/// A tail whose budget is exhausted adds nothing more.
proof fn lemma_chunk_sum_zero(ts: Seq<nat>, i: int, tt: nat)
    requires
        0 <= i <= ts.len(),
        tt + spec_chunk_sum(ts, i) <= 70224,
        tt >= 70224,
    ensures
        spec_chunk_sum(ts, i) == 0,
        spec_mode_steps(GpuMode::OamRead, 0, 0, ts, i) == (GpuMode::OamRead, 0u8, 0nat, 0nat),
    decreases ts.len() - i,
{
    lemma_chunk_sum_nonneg(ts, i);
    if i < ts.len() {
        assert(spec_chunk_sum(ts, i) == ts[i] + spec_chunk_sum(ts, i + 1));
        lemma_chunk_sum_nonneg(ts, i + 1);
        lemma_chunk_sum_zero(ts, i + 1, tt);
        assert(ts[i] == 0);
        assert(spec_mode_step(GpuMode::OamRead, 0, 0, 0) == (GpuMode::OamRead, 0u8, 0nat, false));
    }
}

/// However the 70224 T-cycles of one frame are split over calls of at
/// most 80 T each, driving the machine from the top of line 0's OAM
/// scan completes exactly one frame and returns to the very same
/// state.
pub proof fn lemma_frame_period_any_chunking(ts: Seq<nat>)
    requires
        forall|j: int| 0 <= j < ts.len() ==> ts[j] <= 80,
        spec_chunk_sum(ts, 0) == 70224,
    ensures
        spec_mode_steps(GpuMode::OamRead, 0, 0, ts, 0) == (GpuMode::OamRead, 0u8, 0nat, 1nat),
{
    assert(0nat % 70224 == 0 && 0nat / 456 == 0 && 0nat % 456 == 0) by (nonlinear_arith);
    assert(70224nat % 70224 == 0) by (nonlinear_arith);
    assert(spec_frame_state(0) == (GpuMode::OamRead, 0u8, 0nat));
    assert(spec_frame_state(70224) == (GpuMode::OamRead, 0u8, 0nat));
    lemma_frame_state_steps(ts, 0, 0);
}

/// However one visible line's 456 T-cycles are split over calls of at
/// most 80 T each, the machine moves from the top of line `line`'s
/// OAM scan to the top of the next line's - entering VBlank, with the
/// frame signalled, after line 143.
pub proof fn lemma_line_period_any_chunking(ts: Seq<nat>, line: u8)
    requires
        forall|j: int| 0 <= j < ts.len() ==> ts[j] <= 80,
        spec_chunk_sum(ts, 0) == 456,
        line < 144,
    ensures
        line < 143 ==> spec_mode_steps(GpuMode::OamRead, line, 0, ts, 0) == (
            GpuMode::OamRead,
            (line + 1) as u8,
            0nat,
            0nat,
        ),
        line == 143 ==> spec_mode_steps(GpuMode::OamRead, line, 0, ts, 0) == (
            GpuMode::VBlank,
            144u8,
            0nat,
            1nat,
        ),
{
    let tt = (456 * (line as nat)) as nat;
    assert(tt % 70224 == tt && tt / 456 == line as nat && tt % 456 == 0 && tt < 65664) by (
    nonlinear_arith)
        requires
            tt == 456 * (line as nat),
            line < 144,
    ;
    assert(spec_frame_state(tt) == (GpuMode::OamRead, line, 0nat));
    let total = (tt + 456) as nat;
    assert(total % 70224 == total && total / 456 == line as nat + 1 && total % 456 == 0) by (
    nonlinear_arith)
        requires
            total == 456 * (line as nat) + 456,
            line < 144,
    ;
    assert(total >= 65664 <==> line == 143) by (nonlinear_arith)
        requires
            total == 456 * (line as nat) + 456,
            line < 144,
    ;
    lemma_frame_state_steps(ts, 0, tt);
}

/// The timing machine driven in steps of four T-cycles (one machine
/// cycle): the state after `n` such steps, and how many frames were
/// completed on the way.
pub open spec fn spec_step4_iter(mode: GpuMode, line: u8, mc: nat, n: nat) -> (
    GpuMode,
    u8,
    nat,
    nat,
)
    decreases n,
{
    if n == 0 {
        (mode, line, mc, 0)
    } else {
        let s = spec_mode_step(mode, line, mc, 4);
        let rest = spec_step4_iter(s.0, s.1, s.2, (n - 1) as nat);
        (
            rest.0,
            rest.1,
            rest.2,
            rest.3 + if s.3 {
                1nat
            } else {
                0nat
            },
        )
    }
}

/// Running `a + b` steps is running `a`, then `b`, with the completed
/// frames added up.
proof fn lemma_step4_split(mode: GpuMode, line: u8, mc: nat, a: nat, b: nat)
    ensures
        ({
            let s1 = spec_step4_iter(mode, line, mc, a);
            let s2 = spec_step4_iter(s1.0, s1.1, s1.2, b);
            spec_step4_iter(mode, line, mc, a + b) == (s2.0, s2.1, s2.2, (s1.3 + s2.3) as nat)
        }),
    decreases a,
{
    if a == 0 {
    } else {
        let s = spec_mode_step(mode, line, mc, 4);
        lemma_step4_split(s.0, s.1, s.2, (a - 1) as nat, b);
    }
}

/// While the accumulator stays below the dwell time, steps only add
/// four T-cycles each.
proof fn lemma_step4_stay(mode: GpuMode, line: u8, mc: nat, k: nat)
    requires
        mc + 4 * k < mode.spec_dwell(),
    ensures
        spec_step4_iter(mode, line, mc, k) == (mode, line, (mc + 4 * k) as nat, 0nat),
    decreases k,
{
    if k == 0 {
    } else {
        lemma_step4_stay(mode, line, (mc + 4) as nat, (k - 1) as nat);
    }
}

/// A single machine-cycle step of the iterated machine.
proof fn lemma_step4_one(mode: GpuMode, line: u8, mc: nat)
    ensures
        spec_step4_iter(mode, line, mc, 1) == ({
            let s = spec_mode_step(mode, line, mc, 4);
            (
                s.0,
                s.1,
                s.2,
                if s.3 {
                    1nat
                } else {
                    0nat
                },
            )
        }),
{
    let s = spec_mode_step(mode, line, mc, 4);
    assert(spec_step4_iter(s.0, s.1, s.2, 0) == (s.0, s.1, s.2, 0nat));
}

/// One full pass through a mode from an empty accumulator: after
/// `dwell / 4` machine-cycle steps the machine stands at the next
/// transition's result with an empty accumulator again.
proof fn lemma_step4_mode(mode: GpuMode, line: u8)
    ensures
        spec_step4_iter(mode, line, 0, mode.spec_dwell() / 4) == ({
            let s = spec_mode_step(mode, line, ((mode.spec_dwell() / 4 - 1) * 4) as nat, 4);
            (
                s.0,
                s.1,
                s.2,
                if s.3 {
                    1nat
                } else {
                    0nat
                },
            )
        }),
{
    match mode {
        GpuMode::HBlank => {
            lemma_step4_stay(mode, line, 0, 50);
            lemma_step4_one(mode, line, 200);
            lemma_step4_split(mode, line, 0, 50, 1);
        },
        GpuMode::VBlank => {
            lemma_step4_stay(mode, line, 0, 113);
            lemma_step4_one(mode, line, 452);
            lemma_step4_split(mode, line, 0, 113, 1);
        },
        GpuMode::OamRead => {
            lemma_step4_stay(mode, line, 0, 19);
            lemma_step4_one(mode, line, 76);
            lemma_step4_split(mode, line, 0, 19, 1);
        },
        GpuMode::VramRead => {
            lemma_step4_stay(mode, line, 0, 42);
            lemma_step4_one(mode, line, 168);
            lemma_step4_split(mode, line, 0, 42, 1);
        },
    }
}

/// One visible scanline takes 80 + 172 + 204 = 456 T-cycles, i.e. 114
/// machine-cycle steps, and moves the machine from the start of one
/// line's OAM scan to the next; line 143 ends in VBlank and finishes
/// the frame.
proof fn lemma_step4_scanline(line: u8)
    requires
        line < 144,
    ensures
        line < 143 ==> spec_step4_iter(GpuMode::OamRead, line, 0, 114) == (
            GpuMode::OamRead,
            (line + 1) as u8,
            0nat,
            0nat,
        ),
        line == 143 ==> spec_step4_iter(GpuMode::OamRead, line, 0, 114) == (
            GpuMode::VBlank,
            144u8,
            0nat,
            1nat,
        ),
{
    lemma_step4_mode(GpuMode::OamRead, line);
    lemma_step4_mode(GpuMode::VramRead, line);
    lemma_step4_mode(GpuMode::HBlank, line);
    lemma_step4_split(GpuMode::OamRead, line, 0, 20, 43);
    lemma_step4_split(GpuMode::OamRead, line, 0, 63, 51);
}

/// One VBlank line takes another 114 machine-cycle steps; after line
/// 153 the machine returns to line 0's OAM scan.
proof fn lemma_step4_vblank_line(line: u8)
    requires
        144 <= line <= 153,
    ensures
        line < 153 ==> spec_step4_iter(GpuMode::VBlank, line, 0, 114) == (
            GpuMode::VBlank,
            (line + 1) as u8,
            0nat,
            0nat,
        ),
        line == 153 ==> spec_step4_iter(GpuMode::VBlank, line, 0, 114) == (
            GpuMode::OamRead,
            0u8,
            0nat,
            0nat,
        ),
{
    lemma_step4_mode(GpuMode::VBlank, line);
}

/// The visible part of the frame, from scanline `line` on: the
/// remaining lines each take 114 steps and end in VBlank with exactly
/// one completed frame signalled.
proof fn lemma_step4_visible(line: u8)
    requires
        line < 144,
    ensures
        spec_step4_iter(GpuMode::OamRead, line, 0, (114 * (144 - line)) as nat) == (
            GpuMode::VBlank,
            144u8,
            0nat,
            1nat,
        ),
    decreases 144 - line,
{
    lemma_step4_scanline(line);
    if line == 143 {
    } else {
        lemma_step4_visible((line + 1) as u8);
        lemma_step4_split(GpuMode::OamRead, line, 0, 114, (114 * (143 - line)) as nat);
    }
}

/// The VBlank period, from line `line` on: each remaining line takes
/// 114 steps and the machine returns to line 0's OAM scan.
proof fn lemma_step4_vblank(line: u8)
    requires
        144 <= line <= 153,
    ensures
        spec_step4_iter(GpuMode::VBlank, line, 0, (114 * (154 - line)) as nat) == (
            GpuMode::OamRead,
            0u8,
            0nat,
            0nat,
        ),
    decreases 154 - line,
{
    lemma_step4_vblank_line(line);
    if line == 153 {
    } else {
        lemma_step4_vblank((line + 1) as u8);
        lemma_step4_split(GpuMode::VBlank, line, 0, 114, (114 * (153 - line)) as nat);
    }
}

/// The mode dwell times add up as the hardware's line and frame
/// periods demand: one visible line spends 80 + 172 + 204 = 456
/// T-cycles, VBlank spans 10 x 456, and a whole frame is
/// 144 x 456 + 10 x 456 = 70224 T-cycles.
pub proof fn lemma_line_budget()
    ensures
        GpuMode::OamRead.spec_dwell() + GpuMode::VramRead.spec_dwell()
            + GpuMode::HBlank.spec_dwell() == 456,
        GpuMode::VBlank.spec_dwell() == 456,
        10 * GpuMode::VBlank.spec_dwell() == 4560,
        144 * 456 + 10 * 456 == 70224,
{
}

/// Driven four T-cycles at a time from line 0 at the start of its OAM
/// scan, the timing machine completes exactly one frame in 70224
/// T-cycles (17556 machine cycles) and returns to the very same state.
pub proof fn lemma_frame_period()
    ensures
        spec_step4_iter(GpuMode::OamRead, 0, 0, 17556) == (GpuMode::OamRead, 0u8, 0nat, 1nat),
{
    lemma_step4_visible(0);
    lemma_step4_vblank(144);
    lemma_step4_split(GpuMode::OamRead, 0, 0, 16416, 1140);
}

/// A vector of `n` zero bytes.
pub(crate) fn zero_bytes(n: usize) -> (r: Vec<u8>)
    ensures
        r@.len() == n,
        forall|i: int| 0 <= i < n ==> r@[i] == 0,
{
    let mut v: Vec<u8> = Vec::new();
    let mut i: usize = 0;
    while i < n
        invariant
            i <= n,
            v@.len() == i,
            forall|j: int| 0 <= j < i ==> v@[j] == 0,
        decreases n - i,
    {
        v.push(0);
        i = i + 1;
    }
    v
}

proof fn lemma_small_or_mask(a: u8, b: u8)
    by (bit_vector)
    ensures
        a < 4 && b < 4 ==> (a | b) < 4,
        a < 32 ==> a & !0x1fu8 == 0,
{
}

proof fn lemma_stat_source_mask(value: u8)
    by (bit_vector)
    ensures
        (value & 0x78) & !0x78u8 == 0,
        0u8 & !0x78u8 == 0,
{
}

proof fn lemma_or_zero(x: u8)
    by (bit_vector)
    ensures
        x | 0 == x,
{
}

proof fn lemma_even_mask(addr: u16)
    by (bit_vector)
    requires
        addr < 0x2000,
    ensures
        addr & 0xfffe <= 0x1ffe,
        (addr & 0xfffe) % 2 == 0,
        (addr & 0xfffe) % 16 / 2 < 8,
{
}

} // verus!
