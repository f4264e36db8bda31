//! The picture processing unit: a scanline state machine over four modes
//! (OAM scan, drawing, HBlank, VBlank), background/window/sprite composition
//! into an RGB framebuffer, the LY=LYC coincidence flag, and the VBlank and
//! STAT interrupt latches.  A scanline is 456 T-cycles; lines 0-143 are
//! visible and lines 144-153 are VBlank.

use vstd::prelude::*;

verus! {

pub struct Ppu {
    /// 8 KiB of video RAM: tile patterns and the two 32x32 tile maps.
    pub vram: Vec<u8>,
    /// 160 bytes of object attribute memory: 40 sprites of 4 bytes each.
    pub oam: Vec<u8>,
    pub lcdc: u8,
    pub stat: u8,
    pub scy: u8,
    pub scx: u8,
    pub ly: u8,
    pub lyc: u8,
    pub bgp: u8,
    pub obp0: u8,
    pub obp1: u8,
    pub wy: u8,
    pub wx: u8,
    /// 160x144 RGB24 framebuffer, row-major from the top-left corner.
    pub framebuffer: Vec<u8>,
    /// The raw 2-bit background/window colour index of each pixel, used for
    /// sprite-behind-background priority.
    pub bg_indices: Vec<u8>,
    /// T-cycles accumulated inside the current mode.
    pub mode_cycles: u32,
    /// The window's internal line counter: advances only on lines that drew
    /// window pixels, and resets when VBlank begins.
    pub window_line: u8,
    /// Raised when LY reaches 144; cleared by interrupt dispatch.
    pub vblank_interrupt: bool,
    /// Raised by enabled mode transitions and LY=LYC coincidence; cleared by
    /// interrupt dispatch.
    pub stat_interrupt: bool,
    /// Whether the LCD enable bit was set before the latest LCDC write.
    pub lcd_was_enabled: bool,
}

/// The PPU's structural invariant: buffer sizes are fixed, LY stays on a
/// real scanline, and the in-mode cycle accumulator stays below one
/// scanline's budget plus the largest per-call advance.
pub open spec fn ppu_wf(p: Ppu) -> bool {
    &&& p.vram@.len() == 0x2000
    &&& p.oam@.len() == 0xA0
    &&& p.framebuffer@.len() == 69120
    &&& p.bg_indices@.len() == 23040
    &&& p.ly <= 153
    &&& (spec_mode(p.stat) != 1 ==> p.ly <= 143)
    &&& p.mode_cycles < 480
}

/// The reset state `Ppu::new` builds: the documented post-boot register
/// values over zeroed VRAM, OAM and pixel buffers, at the start of OAM
/// scan with every latch down.
pub open spec fn spec_fresh_ppu(p: Ppu) -> bool {
    &&& p.lcdc == 0x91
    &&& p.stat == 0x02
    &&& p.scy == 0
    &&& p.scx == 0
    &&& p.ly == 0
    &&& p.lyc == 0
    &&& p.bgp == 0xFC
    &&& p.obp0 == 0xFF
    &&& p.obp1 == 0xFF
    &&& p.wy == 0
    &&& p.wx == 0
    &&& p.mode_cycles == 0
    &&& p.window_line == 0
    &&& !p.vblank_interrupt
    &&& !p.stat_interrupt
    &&& p.lcd_was_enabled
    &&& p.vram@.len() == 0x2000
    &&& (forall|i: int| 0 <= i < 0x2000 ==> p.vram@[i] == 0)
    &&& p.oam@.len() == 0xA0
    &&& (forall|i: int| 0 <= i < 0xA0 ==> p.oam@[i] == 0)
    &&& p.framebuffer@.len() == 69120
    &&& (forall|i: int| 0 <= i < 69120 ==> p.framebuffer@[i] == 0)
    &&& p.bg_indices@.len() == 23040
    &&& (forall|i: int| 0 <= i < 23040 ==> p.bg_indices@[i] == 0)
}

/// Powers of two up to 128, for selecting a bit of a byte.
pub open spec fn spec_pow2(n: u8) -> u8 {
    if n == 0 {
        1
    } else if n == 1 {
        2
    } else if n == 2 {
        4
    } else if n == 3 {
        8
    } else if n == 4 {
        16
    } else if n == 5 {
        32
    } else if n == 6 {
        64
    } else {
        128
    }
}

/// Bit `n` of a byte, as 0 or 1.
pub open spec fn spec_bit(v: u8, n: u8) -> u8 {
    ((v / spec_pow2(n)) % 2) as u8
}

pub open spec fn spec_lcd_enabled(lcdc: u8) -> bool {
    spec_bit(lcdc, 7) == 1
}

pub open spec fn spec_bg_enabled(lcdc: u8) -> bool {
    spec_bit(lcdc, 0) == 1
}

pub open spec fn spec_obj_enabled(lcdc: u8) -> bool {
    spec_bit(lcdc, 1) == 1
}

/// Sprite height: 16 when LCDC bit 2 is set, else 8.
pub open spec fn spec_obj_height(lcdc: u8) -> int {
    if spec_bit(lcdc, 2) == 1 {
        16
    } else {
        8
    }
}

pub open spec fn spec_win_enabled(lcdc: u8) -> bool {
    spec_bit(lcdc, 5) == 1
}

/// The PPU mode held in STAT's low two bits.
pub open spec fn spec_mode(stat: u8) -> u8 {
    stat % 4
}

/// The shade (0 lightest .. 3 darkest) a monochrome palette byte assigns to
/// a 2-bit colour index.
pub open spec fn spec_palette_shade(palette: u8, index: u8) -> u8 {
    if index == 0 {
        palette % 4
    } else if index == 1 {
        (palette / 4) % 4
    } else if index == 2 {
        (palette / 16) % 4
    } else {
        (palette / 64) % 4
    }
}

/// The base offset into VRAM of the background tile map (LCDC bit 3).
pub open spec fn spec_bg_map_base(lcdc: u8) -> int {
    if spec_bit(lcdc, 3) == 1 {
        0x1C00
    } else {
        0x1800
    }
}

/// The base offset into VRAM of the window tile map (LCDC bit 6).
pub open spec fn spec_win_map_base(lcdc: u8) -> int {
    if spec_bit(lcdc, 6) == 1 {
        0x1C00
    } else {
        0x1800
    }
}

/// The VRAM offset of a tile's pattern: unsigned from 0x0000 when LCDC bit 4
/// is set, else signed around 0x1000.
pub open spec fn spec_tile_base(lcdc: u8, tile: u8) -> int {
    if spec_bit(lcdc, 4) == 1 {
        tile * 16
    } else {
        0x800 + ((tile + 128) % 256) * 16
    }
}

/// The 2-bit colour index of pixel column `xbit` (7 = leftmost) in a tile
/// row held as two bytes.
pub open spec fn spec_tile_pixel(b1: u8, b2: u8, xbit: u8) -> u8 {
    (spec_bit(b2, xbit) * 2 + spec_bit(b1, xbit)) as u8
}

/// The background colour index of screen pixel (sx, ly): scrolled through
/// SCX/SCY with wraparound, then fetched from the tile map and pattern.
pub open spec fn spec_bg_index(p: Ppu, sx: int) -> u8 {
    let y = (p.ly + p.scy) % 256;
    let x = (sx + p.scx) % 256;
    let tile = p.vram@[spec_bg_map_base(p.lcdc) + (y / 8) * 32 + x / 8];
    let b1 = p.vram@[spec_tile_base(p.lcdc, tile) + (y % 8) * 2];
    let b2 = p.vram@[spec_tile_base(p.lcdc, tile) + (y % 8) * 2 + 1];
    spec_tile_pixel(b1, b2, (7 - x % 8) as u8)
}

/// The window colour index of screen pixel (sx, ly): column measured from
/// the window origin WX-7, row taken from the internal window line counter.
pub open spec fn spec_win_index(p: Ppu, sx: int) -> u8 {
    let wcol = sx + 7 - p.wx;
    let wrow = p.window_line as int;
    let tile = p.vram@[spec_win_map_base(p.lcdc) + ((wrow / 8) % 32) * 32 + wcol / 8];
    let b1 = p.vram@[spec_tile_base(p.lcdc, tile) + (wrow % 8) * 2];
    let b2 = p.vram@[spec_tile_base(p.lcdc, tile) + (wrow % 8) * 2 + 1];
    spec_tile_pixel(b1, b2, (7 - wcol % 8) as u8)
}

/// Whether the window covers screen pixel (sx, ly): window and background
/// enabled, the line at or below WY, and the column at or right of WX-7.
pub open spec fn spec_win_covers(p: Ppu, sx: int) -> bool {
    spec_win_enabled(p.lcdc) && spec_bg_enabled(p.lcdc) && p.ly >= p.wy && sx + 7 >= p.wx
}

/// Whether rendering line LY draws at least one window pixel.
pub open spec fn spec_win_drawn(p: Ppu) -> bool {
    spec_win_enabled(p.lcdc) && spec_bg_enabled(p.lcdc) && p.ly >= p.wy && p.wx <= 166
}

/// The background/window colour index recorded for screen pixel (sx, ly):
/// window over background; 0 where the background layer is disabled.
pub open spec fn spec_line_index(p: Ppu, sx: int) -> u8 {
    if spec_win_covers(p, sx) {
        spec_win_index(p, sx)
    } else if spec_bg_enabled(p.lcdc) {
        spec_bg_index(p, sx)
    } else {
        0
    }
}

/// The background/window RGB triple of screen pixel (sx, ly): its colour
/// index through BGP, or shade 0 where the background layer is disabled.
pub open spec fn spec_line_rgb(p: Ppu, sx: int) -> (u8, u8, u8) {
    if spec_win_covers(p, sx) || spec_bg_enabled(p.lcdc) {
        crate::spec_shade_rgb(spec_palette_shade(p.bgp, spec_line_index(p, sx)))
    } else {
        crate::spec_shade_rgb(0)
    }
}

/// Whether sprite `i` (0..40) covers scanline `ly`: OAM byte 0 holds the
/// sprite's Y position plus 16.
pub open spec fn spec_sprite_covers(p: Ppu, i: int, ly: u8) -> bool {
    p.oam@[i * 4] <= ly + 16 < p.oam@[i * 4] + spec_obj_height(p.lcdc)
}

/// The sprites rendered on scanline `ly`: the first (in OAM order) up to
/// ten whose Y range contains the line.
pub open spec fn spec_selected_sprites(p: Ppu, ly: u8, i: int, taken: int) -> Seq<u8>
    decreases 40 - i,
{
    if i >= 40 || taken >= 10 {
        Seq::empty()
    } else if spec_sprite_covers(p, i, ly) {
        seq![i as u8] + spec_selected_sprites(p, ly, i + 1, taken + 1)
    } else {
        spec_selected_sprites(p, ly, i + 1, taken)
    }
}

/// The 2-bit colour index sprite `i` produces at screen column `sx` on
/// scanline `ly`, honouring X/Y flips and the 8x16 tile-pair rule.
pub open spec fn spec_sprite_pixel(p: Ppu, i: int, ly: u8, sx: int) -> u8 {
    let y = p.oam@[i * 4];
    let x = p.oam@[i * 4 + 1];
    let tile0 = p.oam@[i * 4 + 2];
    let attr = p.oam@[i * 4 + 3];
    let h = spec_obj_height(p.lcdc);
    let row0 = ly + 16 - y;
    let row = if spec_bit(attr, 6) == 1 {
        h - 1 - row0
    } else {
        row0
    };
    let tile = if h == 16 {
        (tile0 - tile0 % 2) as u8
    } else {
        tile0
    };
    let col = sx + 8 - x;
    let xbit = if spec_bit(attr, 5) == 1 {
        col
    } else {
        7 - col
    };
    let b1 = p.vram@[tile * 16 + row * 2];
    let b2 = p.vram@[tile * 16 + row * 2 + 1];
    spec_tile_pixel(b1, b2, xbit as u8)
}

/// Whether sprite `i` has a column covering screen pixel `sx`.
pub open spec fn spec_sprite_covers_x(p: Ppu, i: int, sx: int) -> bool {
    p.oam@[i * 4 + 1] <= sx + 8 < p.oam@[i * 4 + 1] + 8
}

/// The object palette sprite `i` uses (OBP1 when attribute bit 4 is set).
pub open spec fn spec_sprite_palette(p: Ppu, i: int) -> u8 {
    if spec_bit(p.oam@[i * 4 + 3], 4) == 1 {
        p.obp1
    } else {
        p.obp0
    }
}

/// The justification a sprite pixel write must carry: some selected sprite
/// covers the column, its colour index is non-zero (colour 0 is
/// transparent), a behind-background sprite only paints over background
/// index 0, and the painted RGB is the sprite's colour through its palette.
pub open spec fn spec_sprite_justifies(p: Ppu, fb: Seq<u8>, bgx: Seq<u8>, sx: int, k: int) -> bool {
    let sel = spec_selected_sprites(p, p.ly, 0, 0);
    let row = p.ly * 160;
    &&& 0 <= k < sel.len()
    &&& spec_sprite_covers_x(p, sel[k] as int, sx)
    &&& spec_sprite_pixel(p, sel[k] as int, p.ly, sx) != 0
    &&& (spec_bit(p.oam@[sel[k] * 4 + 3], 7) == 1 ==> bgx[row + sx] == 0)
    &&& {
        let rgb = crate::spec_shade_rgb(
            spec_palette_shade(
                spec_sprite_palette(p, sel[k] as int),
                spec_sprite_pixel(p, sel[k] as int, p.ly, sx),
            ),
        );
        &&& fb[(row + sx) * 3] == rgb.0
        &&& fb[(row + sx) * 3 + 1] == rgb.1
        &&& fb[(row + sx) * 3 + 2] == rgb.2
    }
}

pub open spec fn spec_sprite_wrote(p: Ppu, fb: Seq<u8>, bgx: Seq<u8>, sx: int) -> bool {
    exists|k: int| #[trigger] spec_sprite_justifies(p, fb, bgx, sx, k)
}

/// What rendering scanline LY (< 144) leaves in the framebuffer and the
/// background-index buffer, with `p` the PPU state when drawing ended:
/// other lines keep their pixels; on the line itself the index buffer
/// records the background/window index exactly, and each pixel either shows
/// the background/window colour or carries a sprite write justification
/// (with sprites disabled, always the former).
pub open spec fn spec_render_line_post(p: Ppu, fb: Seq<u8>, bgx: Seq<u8>) -> bool {
    let row = p.ly * 160;
    &&& fb.len() == 69120
    &&& bgx.len() == 23040
    &&& (forall|i: int|
        0 <= i < 69120 && !(row * 3 <= i < row * 3 + 480) ==> fb[i] == p.framebuffer@[i])
    &&& (forall|i: int| 0 <= i < 23040 && !(row <= i < row + 160) ==> bgx[i] == p.bg_indices@[i])
    &&& (forall|sx: int| 0 <= sx < 160 ==> bgx[row + sx] == #[trigger] spec_line_index(p, sx))
    &&& (forall|sx: int| 0 <= sx < 160 ==> #[trigger] spec_pixel_shown(p, fb, bgx, sx))
}

/// What one pixel of a rendered line shows: the background/window colour,
/// or (with sprites enabled) a justified sprite write over it.
pub open spec fn spec_pixel_shown(p: Ppu, fb: Seq<u8>, bgx: Seq<u8>, sx: int) -> bool {
    let base = spec_px(fb, p.ly * 160 + sx) == spec_line_rgb(p, sx);
    if spec_obj_enabled(p.lcdc) {
        base || spec_sprite_wrote(p, fb, bgx, sx)
    } else {
        base
    }
}

/// STAT after entering the given mode.
pub open spec fn spec_stat_with_mode(stat: u8, mode: u8) -> u8 {
    ((stat - stat % 4) + mode) as u8
}

/// Whether entering `mode` from a different mode raises the STAT latch:
/// STAT bit 3 enables the HBlank interrupt, bit 4 VBlank, bit 5 OAM scan.
pub open spec fn spec_mode_raises_stat(stat: u8, mode: u8) -> bool {
    spec_mode(stat) != mode && ((mode == 0 && spec_bit(stat, 3) == 1) || (mode == 1 && spec_bit(
        stat,
        4,
    ) == 1) || (mode == 2 && spec_bit(stat, 5) == 1))
}

/// The scalar state after entering the given mode.
pub open spec fn spec_set_mode(p: Ppu, mode: u8) -> Ppu {
    Ppu {
        stat: spec_stat_with_mode(p.stat, mode),
        stat_interrupt: p.stat_interrupt || spec_mode_raises_stat(p.stat, mode),
        ..p
    }
}

/// STAT with the coincidence flag (bit 2) forced to the given value.
pub open spec fn spec_stat_with_coincidence(stat: u8, eq: bool) -> u8 {
    ((stat - ((stat / 4) % 2) * 4) + if eq {
        4int
    } else {
        0int
    }) as u8
}

/// The scalar state after an LY update: STAT bit 2 becomes LY == LYC, and
/// with STAT bit 6 set a coincidence raises the STAT latch.
pub open spec fn spec_set_ly(p: Ppu, v: u8) -> Ppu {
    let eq = v == p.lyc;
    Ppu {
        ly: v,
        stat: spec_stat_with_coincidence(p.stat, eq),
        stat_interrupt: p.stat_interrupt || (eq && spec_bit(p.stat, 6) == 1),
        ..p
    }
}

/// Whether a step beginning in the given state finishes the drawing mode
/// and so renders a visible scanline.
pub open spec fn spec_step_renders(p: Ppu, cycles: u32) -> bool {
    spec_lcd_enabled(p.lcdc) && spec_mode(p.stat) == 3 && p.mode_cycles + cycles >= 172 && p.ly
        < 144
}

/// The scalar fields (everything but the pixel buffers) after one `step`
/// call: accumulate cycles, then take at most one mode transition.
pub open spec fn spec_step_regs(p: Ppu, cycles: u32) -> Ppu {
    if !spec_lcd_enabled(p.lcdc) {
        p
    } else {
        let mc = (p.mode_cycles + cycles) as u32;
        let mode = spec_mode(p.stat);
        if mode == 2 {
            if mc >= 80 {
                spec_set_mode(Ppu { mode_cycles: (mc - 80) as u32, ..p }, 3)
            } else {
                Ppu { mode_cycles: mc, ..p }
            }
        } else if mode == 3 {
            if mc >= 172 {
                let p1 = spec_set_mode(Ppu { mode_cycles: (mc - 172) as u32, ..p }, 0);
                if p.ly < 144 && spec_win_drawn(p) && p.window_line < 255 {
                    Ppu { window_line: (p.window_line + 1) as u8, ..p1 }
                } else {
                    p1
                }
            } else {
                Ppu { mode_cycles: mc, ..p }
            }
        } else if mode == 0 {
            if mc >= 204 {
                let p1 = spec_set_ly(Ppu { mode_cycles: (mc - 204) as u32, ..p }, (p.ly + 1) as u8);
                if p.ly + 1 == 144 {
                    Ppu {
                        vblank_interrupt: true,
                        window_line: 0,
                        ..spec_set_mode(p1, 1)
                    }
                } else {
                    spec_set_mode(p1, 2)
                }
            } else {
                Ppu { mode_cycles: mc, ..p }
            }
        } else {
            if mc >= 456 {
                if p.ly + 1 > 153 {
                    spec_set_mode(
                        spec_set_ly(Ppu { mode_cycles: (mc - 456) as u32, ..p }, 0),
                        2,
                    )
                } else {
                    spec_set_ly(Ppu { mode_cycles: (mc - 456) as u32, ..p }, (p.ly + 1) as u8)
                }
            } else {
                Ppu { mode_cycles: mc, ..p }
            }
        }
    }
}

/// Whether one `step` call reports that VBlank just began.
pub open spec fn spec_step_vblank(p: Ppu, cycles: u32) -> bool {
    spec_lcd_enabled(p.lcdc) && spec_mode(p.stat) == 0 && p.mode_cycles + cycles >= 204 && p.ly + 1
        == 144
}

/// What a read of a PPU register returns; unmapped addresses in the PPU
/// range read 0xFF.
pub open spec fn spec_ppu_read(p: Ppu, address: u16) -> u8 {
    if address == 0xFF40 {
        p.lcdc
    } else if address == 0xFF41 {
        p.stat
    } else if address == 0xFF42 {
        p.scy
    } else if address == 0xFF43 {
        p.scx
    } else if address == 0xFF44 {
        p.ly
    } else if address == 0xFF45 {
        p.lyc
    } else if address == 0xFF47 {
        p.bgp
    } else if address == 0xFF48 {
        p.obp0
    } else if address == 0xFF49 {
        p.obp1
    } else if address == 0xFF4A {
        p.wy
    } else if address == 0xFF4B {
        p.wx
    } else {
        0xFF
    }
}

/// The scalar state after a PPU register write.  An LCDC write that turns
/// the LCD off forces LY to 0 (updating the coincidence flag) and clears the
/// mode accumulator; one that turns it on additionally restarts OAM scan.
/// STAT keeps its low three read-only bits; LY is read-only.
pub open spec fn spec_ppu_write(p: Ppu, address: u16, value: u8) -> Ppu {
    if address == 0xFF40 {
        let p1 = Ppu { lcdc: value, lcd_was_enabled: spec_lcd_enabled(value), ..p };
        if spec_lcd_enabled(p.lcdc) && !spec_lcd_enabled(value) {
            spec_set_ly(Ppu { mode_cycles: 0, ..p1 }, 0)
        } else if !spec_lcd_enabled(p.lcdc) && spec_lcd_enabled(value) {
            spec_set_mode(spec_set_ly(Ppu { mode_cycles: 0, ..p1 }, 0), 2)
        } else {
            p1
        }
    } else if address == 0xFF41 {
        Ppu { stat: ((value / 8) * 8 + p.stat % 8) as u8, ..p }
    } else if address == 0xFF42 {
        Ppu { scy: value, ..p }
    } else if address == 0xFF43 {
        Ppu { scx: value, ..p }
    } else if address == 0xFF45 {
        Ppu { lyc: value, ..p }
    } else if address == 0xFF47 {
        Ppu { bgp: value, ..p }
    } else if address == 0xFF48 {
        Ppu { obp0: value, ..p }
    } else if address == 0xFF49 {
        Ppu { obp1: value, ..p }
    } else if address == 0xFF4A {
        Ppu { wy: value, ..p }
    } else if address == 0xFF4B {
        Ppu { wx: value, ..p }
    } else {
        p
    }
}

/// The PPU after a raw register load from the post-boot reset table: the
/// value is adopted without mode transitions, latches or LY/mode resets.
/// LY stays read-only, 0xFF46 stays the bus's DMA trigger, and STAT's two
/// mode bits remain the machine's own and survive the load.
pub open spec fn spec_ppu_raw_load(p: Ppu, address: u16, value: u8) -> Ppu {
    if address == 0xFF40 {
        Ppu { lcdc: value, lcd_was_enabled: spec_lcd_enabled(value), ..p }
    } else if address == 0xFF41 {
        Ppu { stat: ((value - value % 4) + p.stat % 4) as u8, ..p }
    } else if address == 0xFF42 {
        Ppu { scy: value, ..p }
    } else if address == 0xFF43 {
        Ppu { scx: value, ..p }
    } else if address == 0xFF45 {
        Ppu { lyc: value, ..p }
    } else if address == 0xFF47 {
        Ppu { bgp: value, ..p }
    } else if address == 0xFF48 {
        Ppu { obp0: value, ..p }
    } else if address == 0xFF49 {
        Ppu { obp1: value, ..p }
    } else if address == 0xFF4A {
        Ppu { wy: value, ..p }
    } else if address == 0xFF4B {
        Ppu { wx: value, ..p }
    } else {
        p
    }
}

/// Equality of everything but the two pixel buffers: rendering never
/// touches these fields.
pub open spec fn ppu_same_but_pixels(a: Ppu, b: Ppu) -> bool {
    &&& a.vram == b.vram
    &&& a.oam == b.oam
    &&& a.lcdc == b.lcdc
    &&& a.stat == b.stat
    &&& a.scy == b.scy
    &&& a.scx == b.scx
    &&& a.ly == b.ly
    &&& a.lyc == b.lyc
    &&& a.bgp == b.bgp
    &&& a.obp0 == b.obp0
    &&& a.obp1 == b.obp1
    &&& a.wy == b.wy
    &&& a.wx == b.wx
    &&& a.mode_cycles == b.mode_cycles
    &&& a.window_line == b.window_line
    &&& a.vblank_interrupt == b.vblank_interrupt
    &&& a.stat_interrupt == b.stat_interrupt
    &&& a.lcd_was_enabled == b.lcd_was_enabled
}

/// Sprite selection only reads OAM and LCDC, so it agrees between any two
/// states that share them.
pub proof fn lemma_selected_sprites_agree(p1: Ppu, p2: Ppu, ly: u8, i: int, taken: int)
    requires
        p1.oam == p2.oam,
        p1.lcdc == p2.lcdc,
    ensures
        spec_selected_sprites(p1, ly, i, taken) == spec_selected_sprites(p2, ly, i, taken),
    decreases 40 - i,
{
    if i < 40 && taken < 10 {
        lemma_selected_sprites_agree(p1, p2, ly, i + 1, taken + 1);
        lemma_selected_sprites_agree(p1, p2, ly, i + 1, taken);
    }
}

/// Bit `n` of a byte, as 0 or 1.
fn bit_of(v: u8, n: u8) -> (r: u8)
    requires
        n < 8,
    ensures
        r == spec_bit(v, n),
{
    let d: u8 = if n == 0 {
        1
    } else if n == 1 {
        2
    } else if n == 2 {
        4
    } else if n == 3 {
        8
    } else if n == 4 {
        16
    } else if n == 5 {
        32
    } else if n == 6 {
        64
    } else {
        128
    };
    (v / d) % 2
}

impl Ppu {
    pub fn new() -> (p: Ppu)
        ensures
            ppu_wf(p),
            spec_fresh_ppu(p),
            p.lcdc == 0x91,
            p.stat == 0x02,
            p.scy == 0 && p.scx == 0 && p.ly == 0 && p.lyc == 0,
            p.bgp == 0xFC,
            p.obp0 == 0xFF && p.obp1 == 0xFF,
            p.wy == 0 && p.wx == 0,
            p.mode_cycles == 0 && p.window_line == 0,
            !p.vblank_interrupt && !p.stat_interrupt,
            p.lcd_was_enabled,
            forall|i: int| 0 <= i < 0x2000 ==> p.vram@[i] == 0,
            forall|i: int| 0 <= i < 0xA0 ==> p.oam@[i] == 0,
            forall|i: int| 0 <= i < 69120 ==> p.framebuffer@[i] == 0,
            forall|i: int| 0 <= i < 23040 ==> p.bg_indices@[i] == 0,
    {
        Ppu {
            vram: make_zero_vec(0x2000),
            oam: make_zero_vec(0xA0),
            lcdc: 0x91,
            stat: 0x02,
            scy: 0,
            scx: 0,
            ly: 0,
            lyc: 0,
            bgp: 0xFC,
            obp0: 0xFF,
            obp1: 0xFF,
            wy: 0,
            wx: 0,
            framebuffer: make_zero_vec(69120),
            bg_indices: make_zero_vec(23040),
            mode_cycles: 0,
            window_line: 0,
            vblank_interrupt: false,
            stat_interrupt: false,
            lcd_was_enabled: true,
        }
    }

    /// Enter a PPU mode: store it in STAT's low bits and raise the STAT
    /// latch when the mode changed and its interrupt enable bit is set.
    fn set_mode(&mut self, mode: u8)
        requires
            mode < 4,
        ensures
            *final(self) == spec_set_mode(*old(self), mode),
    {
        let old_mode = self.stat % 4;
        let raises = old_mode != mode && ((mode == 0 && bit_of(self.stat, 3) == 1) || (mode == 1
            && bit_of(self.stat, 4) == 1) || (mode == 2 && bit_of(self.stat, 5) == 1));
        self.stat = (self.stat - old_mode) + mode;
        if raises {
            self.stat_interrupt = true;
        }
    }

    /// Update LY: set STAT's coincidence bit to LY == LYC and raise the
    /// STAT latch on coincidence when STAT bit 6 enables it.
    fn set_ly(&mut self, v: u8)
        ensures
            *final(self) == spec_set_ly(*old(self), v),
    {
        let eq = v == self.lyc;
        let enabled = bit_of(self.stat, 6) == 1;
        let stat_now = self.stat;
        let cleared = self.stat - ((self.stat / 4) % 2) * 4;
        proof {
            assert(cleared + 4 <= 255) by (nonlinear_arith)
                requires
                    cleared == stat_now - ((stat_now / 4) % 2) * 4,
            ;
        }
        self.stat = if eq {
            cleared + 4
        } else {
            cleared
        };
        self.ly = v;
        if eq && enabled {
            self.stat_interrupt = true;
        }
    }

    /// The four RGB shades a monochrome palette byte assigns to colour
    /// indices 0-3.
    fn get_palette(&self, palette_byte: u8) -> (r: [(u8, u8, u8); 4])
        ensures
            forall|i: int|
                0 <= i < 4 ==> r@[i] == crate::spec_shade_rgb(
                    spec_palette_shade(palette_byte, i as u8),
                ),
    {
        [
            crate::shade_rgb(palette_byte % 4),
            crate::shade_rgb((palette_byte / 4) % 4),
            crate::shade_rgb((palette_byte / 16) % 4),
            crate::shade_rgb((palette_byte / 64) % 4),
        ]
    }

    /// Whether a frame has completed (VBlank latch is up).
    pub fn frame_ready(&self) -> (r: bool)
        ensures
            r == self.vblank_interrupt,
    {
        self.vblank_interrupt
    }

    /// The 160x144 RGB24 framebuffer, row-major from the top-left corner.
    pub fn get_framebuffer(&self) -> (r: &Vec<u8>)
        ensures
            r@ == self.framebuffer@,
    {
        &self.framebuffer
    }

    /// Load a register value raw, without write side effects, as the
    /// post-boot reset table is applied.
    pub fn raw_load(&mut self, address: u16, value: u8)
        requires
            ppu_wf(*old(self)),
        ensures
            *final(self) == spec_ppu_raw_load(*old(self), address, value),
            ppu_wf(*final(self)),
    {
        if address == 0xFF40 {
            self.lcdc = value;
            self.lcd_was_enabled = bit_of(value, 7) == 1;
        } else if address == 0xFF41 {
            self.stat = (value - value % 4) + self.stat % 4;
        } else if address == 0xFF42 {
            self.scy = value;
        } else if address == 0xFF43 {
            self.scx = value;
        } else if address == 0xFF45 {
            self.lyc = value;
        } else if address == 0xFF47 {
            self.bgp = value;
        } else if address == 0xFF48 {
            self.obp0 = value;
        } else if address == 0xFF49 {
            self.obp1 = value;
        } else if address == 0xFF4A {
            self.wy = value;
        } else if address == 0xFF4B {
            self.wx = value;
        }
    }

    /// Read a PPU register.
    pub fn read(&self, address: u16) -> (r: u8)
        ensures
            r == spec_ppu_read(*self, address),
    {
        if address == 0xFF40 {
            self.lcdc
        } else if address == 0xFF41 {
            self.stat
        } else if address == 0xFF42 {
            self.scy
        } else if address == 0xFF43 {
            self.scx
        } else if address == 0xFF44 {
            self.ly
        } else if address == 0xFF45 {
            self.lyc
        } else if address == 0xFF47 {
            self.bgp
        } else if address == 0xFF48 {
            self.obp0
        } else if address == 0xFF49 {
            self.obp1
        } else if address == 0xFF4A {
            self.wy
        } else if address == 0xFF4B {
            self.wx
        } else {
            0xFF
        }
    }

    /// Write a PPU register.
    pub fn write(&mut self, address: u16, value: u8)
        requires
            ppu_wf(*old(self)),
        ensures
            *final(self) == spec_ppu_write(*old(self), address, value),
            ppu_wf(*final(self)),
    {
        if address == 0xFF40 {
            let was_on = bit_of(self.lcdc, 7) == 1;
            let now_on = bit_of(value, 7) == 1;
            self.lcdc = value;
            self.lcd_was_enabled = now_on;
            if was_on && !now_on {
                self.mode_cycles = 0;
                self.set_ly(0);
            } else if !was_on && now_on {
                self.mode_cycles = 0;
                self.set_ly(0);
                self.set_mode(2);
            }
        } else if address == 0xFF41 {
            self.stat = (value / 8) * 8 + self.stat % 8;
        } else if address == 0xFF42 {
            self.scy = value;
        } else if address == 0xFF43 {
            self.scx = value;
        } else if address == 0xFF45 {
            self.lyc = value;
        } else if address == 0xFF47 {
            self.bgp = value;
        } else if address == 0xFF48 {
            self.obp0 = value;
        } else if address == 0xFF49 {
            self.obp1 = value;
        } else if address == 0xFF4A {
            self.wy = value;
        } else if address == 0xFF4B {
            self.wx = value;
        }
    }
}

/// The RGB triple of pixel `pi` (row-major) in a framebuffer sequence.
pub open spec fn spec_px(fb: Seq<u8>, pi: int) -> (u8, u8, u8) {
    (fb[pi * 3], fb[pi * 3 + 1], fb[pi * 3 + 2])
}

impl Ppu {
    /// Write one pixel's RGB triple and record its raw colour index.
    fn set_pixel(&mut self, pi: usize, rgb: (u8, u8, u8), c: u8)
        requires
            old(self).framebuffer@.len() == 69120,
            old(self).bg_indices@.len() == 23040,
            pi < 23040,
        ensures
            ppu_same_but_pixels(*final(self), *old(self)),
            final(self).framebuffer@.len() == 69120,
            final(self).bg_indices@.len() == 23040,
            forall|i: int|
                0 <= i < 69120 && !(pi * 3 <= i < pi * 3 + 3) ==> final(self).framebuffer@[i]
                    == old(self).framebuffer@[i],
            forall|q: int|
                0 <= q < 23040 && q != pi ==> #[trigger] spec_px(final(self).framebuffer@, q)
                    == spec_px(old(self).framebuffer@, q),
            spec_px(final(self).framebuffer@, pi as int) == rgb,
            forall|q: int|
                0 <= q < 23040 && q != pi ==> final(self).bg_indices@[q] == old(
                    self,
                ).bg_indices@[q],
            final(self).bg_indices@[pi as int] == c,
    {
        self.framebuffer[pi * 3] = rgb.0;
        self.framebuffer[pi * 3 + 1] = rgb.1;
        self.framebuffer[pi * 3 + 2] = rgb.2;
        self.bg_indices[pi] = c;
    }

    /// Read one pixel's RGB triple from the framebuffer.
    fn get_pixel(&self, pi: usize) -> (rgb: (u8, u8, u8))
        requires
            self.framebuffer@.len() == 69120,
            pi < 23040,
        ensures
            rgb == spec_px(self.framebuffer@, pi as int),
    {
        (self.framebuffer[pi * 3], self.framebuffer[pi * 3 + 1], self.framebuffer[pi * 3 + 2])
    }

    /// The background colour index of screen pixel (sx, LY).
    #[verifier::rlimit(50)]
    fn bg_pixel_index(&self, sx: usize) -> (c: u8)
        requires
            self.vram@.len() == 0x2000,
            sx < 160,
        ensures
            c == spec_bg_index(*self, sx as int),
            c < 4,
    {
        let y: u8 = self.ly.wrapping_add(self.scy);
        let x: u8 = (sx as u8).wrapping_add(self.scx);
        let ty: usize = (y / 8) as usize;
        let yoff: usize = (y % 8) as usize;
        let tx: usize = (x / 8) as usize;
        let xbit: u8 = 7 - x % 8;
        let map_base: usize = if bit_of(self.lcdc, 3) == 1 {
            0x1C00
        } else {
            0x1800
        };
        let tile: u8 = self.vram[map_base + ty * 32 + tx];
        let tile_base: usize = if bit_of(self.lcdc, 4) == 1 {
            (tile as usize) * 16
        } else {
            0x800 + ((tile as usize + 128) % 256) * 16
        };
        let b1: u8 = self.vram[tile_base + yoff * 2];
        let b2: u8 = self.vram[tile_base + yoff * 2 + 1];
        bit_of(b2, xbit) * 2 + bit_of(b1, xbit)
    }

    /// The window colour index of screen pixel (sx, LY), with the row taken
    /// from the internal window line counter.
    #[verifier::rlimit(50)]
    fn win_pixel_index(&self, sx: usize) -> (c: u8)
        requires
            self.vram@.len() == 0x2000,
            sx < 160,
            sx + 7 >= self.wx,
        ensures
            c == spec_win_index(*self, sx as int),
            c < 4,
    {
        let wcol: usize = sx + 7 - self.wx as usize;
        let wrow: usize = self.window_line as usize;
        let ty: usize = (wrow / 8) % 32;
        let yoff: usize = wrow % 8;
        let tx: usize = wcol / 8;
        let xbit: u8 = 7 - (wcol % 8) as u8;
        let map_base: usize = if bit_of(self.lcdc, 6) == 1 {
            0x1C00
        } else {
            0x1800
        };
        let tile: u8 = self.vram[map_base + ty * 32 + tx];
        let tile_base: usize = if bit_of(self.lcdc, 4) == 1 {
            (tile as usize) * 16
        } else {
            0x800 + ((tile as usize + 128) % 256) * 16
        };
        let b1: u8 = self.vram[tile_base + yoff * 2];
        let b2: u8 = self.vram[tile_base + yoff * 2 + 1];
        bit_of(b2, xbit) * 2 + bit_of(b1, xbit)
    }

    /// Draw the background layer of scanline `ly` into the framebuffer and
    /// record each pixel's raw colour index.
    fn render_background_line(&mut self, ly: usize, palette: &[(u8, u8, u8); 4])
        requires
            ppu_wf(*old(self)),
            ly == old(self).ly as int,
            ly < 144,
            forall|i: int|
                0 <= i < 4 ==> palette@[i] == crate::spec_shade_rgb(
                    spec_palette_shade(old(self).bgp, i as u8),
                ),
        ensures
            ppu_same_but_pixels(*final(self), *old(self)),
            final(self).framebuffer@.len() == 69120,
            final(self).bg_indices@.len() == 23040,
            forall|i: int|
                0 <= i < 69120 && !(ly * 480 <= i < ly * 480 + 480) ==> final(self).framebuffer@[i] == old(self).framebuffer@[i],
            forall|i: int|
                0 <= i < 23040 && !(ly * 160 <= i < ly * 160 + 160) ==> final(self).bg_indices@[i] == old(self).bg_indices@[i],
            forall|sx: int|
                0 <= sx < 160 ==> final(self).bg_indices@[ly * 160 + sx] == #[trigger] spec_bg_index(
                    *old(self),
                    sx,
                ),
            forall|sx: int|
                0 <= sx < 160 ==> #[trigger] spec_px(final(self).framebuffer@, ly * 160 + sx)
                    == crate::spec_shade_rgb(
                    spec_palette_shade(old(self).bgp, spec_bg_index(*old(self), sx)),
                ),
    {
        let mut sx: usize = 0;
        while sx < 160
            invariant
                ppu_wf(*old(self)),
                ly == old(self).ly as int,
                ly < 144,
                sx <= 160,
                forall|i: int|
                    0 <= i < 4 ==> palette@[i] == crate::spec_shade_rgb(
                        spec_palette_shade(old(self).bgp, i as u8),
                    ),
                ppu_same_but_pixels(*self, *old(self)),
                self.framebuffer@.len() == 69120,
                self.bg_indices@.len() == 23040,
                forall|i: int|
                    0 <= i < 69120 && !(ly * 480 <= i < ly * 480 + sx * 3)
                        ==> self.framebuffer@[i] == old(self).framebuffer@[i],
                forall|i: int|
                    0 <= i < 23040 && !(ly * 160 <= i < ly * 160 + sx) ==> self.bg_indices@[i]
                        == old(self).bg_indices@[i],
                forall|j: int|
                    0 <= j < sx ==> self.bg_indices@[ly * 160 + j] == #[trigger] spec_bg_index(
                        *old(self),
                        j,
                    ),
                forall|j: int|
                    0 <= j < sx ==> #[trigger] spec_px(self.framebuffer@, ly * 160 + j)
                        == crate::spec_shade_rgb(
                        spec_palette_shade(old(self).bgp, spec_bg_index(*old(self), j)),
                    ),
            decreases 160 - sx,
        {
            let c: u8 = self.bg_pixel_index(sx);
            let rgb: (u8, u8, u8) = palette[c as usize];
            let pi: usize = ly * 160 + sx;
            proof {
                assert(c == spec_bg_index(*old(self), sx as int));
            }
            self.set_pixel(pi, rgb, c);
            sx = sx + 1;
        }
    }

    /// Fill scanline `ly` with shade 0 and zero colour indices, for frames
    /// with the background layer disabled.
    fn fill_line_blank(&mut self, ly: usize)
        requires
            ppu_wf(*old(self)),
            ly == old(self).ly as int,
            ly < 144,
        ensures
            ppu_same_but_pixels(*final(self), *old(self)),
            final(self).framebuffer@.len() == 69120,
            final(self).bg_indices@.len() == 23040,
            forall|i: int|
                0 <= i < 69120 && !(ly * 480 <= i < ly * 480 + 480) ==> final(self).framebuffer@[i] == old(self).framebuffer@[i],
            forall|i: int|
                0 <= i < 23040 && !(ly * 160 <= i < ly * 160 + 160) ==> final(self).bg_indices@[i] == old(self).bg_indices@[i],
            forall|i: int| ly * 160 <= i < ly * 160 + 160 ==> final(self).bg_indices@[i] == 0,
            forall|pi: int|
                ly * 160 <= pi < ly * 160 + 160 ==> #[trigger] spec_px(
                    final(self).framebuffer@,
                    pi,
                ) == crate::spec_shade_rgb(0),
    {
        let mut sx: usize = 0;
        while sx < 160
            invariant
                ppu_wf(*old(self)),
                ly == old(self).ly as int,
                ly < 144,
                sx <= 160,
                ppu_same_but_pixels(*self, *old(self)),
                self.framebuffer@.len() == 69120,
                self.bg_indices@.len() == 23040,
                forall|i: int|
                    0 <= i < 69120 && !(ly * 480 <= i < ly * 480 + sx * 3)
                        ==> self.framebuffer@[i] == old(self).framebuffer@[i],
                forall|i: int|
                    0 <= i < 23040 && !(ly * 160 <= i < ly * 160 + sx) ==> self.bg_indices@[i]
                        == old(self).bg_indices@[i],
                forall|i: int| ly * 160 <= i < ly * 160 + sx ==> self.bg_indices@[i] == 0,
                forall|pi: int|
                    ly * 160 <= pi < ly * 160 + sx ==> #[trigger] spec_px(self.framebuffer@, pi)
                        == crate::spec_shade_rgb(0),
            decreases 160 - sx,
        {
            let pi: usize = ly * 160 + sx;
            self.set_pixel(pi, (0x9B, 0xBC, 0x0F), 0);
            sx = sx + 1;
        }
    }

    /// Draw the window layer of scanline `ly` over the pixels it covers,
    /// reading its row from the internal window line counter.
    fn render_window_line(&mut self, ly: usize, palette: &[(u8, u8, u8); 4])
        requires
            ppu_wf(*old(self)),
            ly == old(self).ly as int,
            ly < 144,
            spec_win_enabled(old(self).lcdc),
            spec_bg_enabled(old(self).lcdc),
            old(self).ly >= old(self).wy,
            forall|i: int|
                0 <= i < 4 ==> palette@[i] == crate::spec_shade_rgb(
                    spec_palette_shade(old(self).bgp, i as u8),
                ),
        ensures
            ppu_same_but_pixels(*final(self), *old(self)),
            final(self).framebuffer@.len() == 69120,
            final(self).bg_indices@.len() == 23040,
            forall|i: int|
                0 <= i < 69120 && !(ly * 480 <= i < ly * 480 + 480) ==> final(self).framebuffer@[i] == old(self).framebuffer@[i],
            forall|i: int|
                0 <= i < 23040 && !(ly * 160 <= i < ly * 160 + 160) ==> final(self).bg_indices@[i] == old(self).bg_indices@[i],
            forall|sx: int|
                0 <= sx < 160 && !spec_win_covers(*old(self), sx) ==> final(self).bg_indices@[ly * 160 + sx] == old(self).bg_indices@[ly * 160 + sx]
                    && #[trigger] spec_px(final(self).framebuffer@, ly * 160 + sx) == spec_px(
                    old(self).framebuffer@,
                    ly * 160 + sx,
                ),
            forall|sx: int|
                0 <= sx < 160 && spec_win_covers(*old(self), sx) ==> final(self).bg_indices@[ly * 160 + sx] == spec_win_index(*old(self), sx)
                    && #[trigger] spec_px(final(self).framebuffer@, ly * 160 + sx)
                    == crate::spec_shade_rgb(
                    spec_palette_shade(old(self).bgp, spec_win_index(*old(self), sx)),
                ),
    {
        let start: usize = if self.wx >= 7 {
            (self.wx - 7) as usize
        } else {
            0
        };
        if start >= 160 {
            return ;
        }
        let mut sx: usize = start;
        while sx < 160
            invariant
                ppu_wf(*old(self)),
                ly == old(self).ly as int,
                ly < 144,
                start <= sx <= 160,
                start == if old(self).wx >= 7 {
                    old(self).wx - 7
                } else {
                    0
                },
                start < 160,
                forall|i: int|
                    0 <= i < 4 ==> palette@[i] == crate::spec_shade_rgb(
                        spec_palette_shade(old(self).bgp, i as u8),
                    ),
                ppu_same_but_pixels(*self, *old(self)),
                self.framebuffer@.len() == 69120,
                self.bg_indices@.len() == 23040,
                forall|i: int|
                    0 <= i < 69120 && !(ly * 480 + start * 3 <= i < ly * 480 + sx * 3)
                        ==> self.framebuffer@[i] == old(self).framebuffer@[i],
                forall|i: int|
                    0 <= i < 23040 && !(ly * 160 + start <= i < ly * 160 + sx)
                        ==> self.bg_indices@[i] == old(self).bg_indices@[i],
                forall|j: int|
                    start <= j < sx ==> self.bg_indices@[ly * 160 + j] == #[trigger] spec_win_index(
                        *old(self),
                        j,
                    ),
                forall|j: int|
                    start <= j < sx ==> #[trigger] spec_px(self.framebuffer@, ly * 160 + j)
                        == crate::spec_shade_rgb(
                        spec_palette_shade(old(self).bgp, spec_win_index(*old(self), j)),
                    ),
            decreases 160 - sx,
        {
            let c: u8 = self.win_pixel_index(sx);
            let rgb: (u8, u8, u8) = palette[c as usize];
            let pi: usize = ly * 160 + sx;
            proof {
                assert(c == spec_win_index(*old(self), sx as int));
            }
            self.set_pixel(pi, rgb, c);
            sx = sx + 1;
        }
    }
}

/// Every index the sprite selection returns lies in the scanned range and
/// covers the scanline.
pub proof fn lemma_selected_sprites_elem(p: Ppu, ly: u8, i: int, taken: int, k: int)
    requires
        0 <= i,
        0 <= k < spec_selected_sprites(p, ly, i, taken).len(),
    ensures
        i <= spec_selected_sprites(p, ly, i, taken)[k] < 40,
        spec_sprite_covers(p, spec_selected_sprites(p, ly, i, taken)[k] as int, ly),
    decreases 40 - i,
{
    let sel = spec_selected_sprites(p, ly, i, taken);
    if i >= 40 || taken >= 10 {
    } else if spec_sprite_covers(p, i, ly) {
        let tail = spec_selected_sprites(p, ly, i + 1, taken + 1);
        assert(sel == seq![i as u8] + tail);
        if k == 0 {
            assert(sel[0] == i as u8);
        } else {
            assert(sel[k] == tail[k - 1]);
            lemma_selected_sprites_elem(p, ly, i + 1, taken + 1, k - 1);
        }
    } else {
        assert(sel == spec_selected_sprites(p, ly, i + 1, taken));
        lemma_selected_sprites_elem(p, ly, i + 1, taken, k);
    }
}

impl Ppu {
    /// The 2-bit colour index sprite `si` produces at screen column `px` of
    /// the current scanline.
    fn sprite_pixel_at(&self, si: usize, px: usize) -> (c: u8)
        requires
            self.vram@.len() == 0x2000,
            self.oam@.len() == 0xA0,
            si < 40,
            px < 160,
            self.ly < 144,
            spec_sprite_covers(*self, si as int, self.ly),
            spec_sprite_covers_x(*self, si as int, px as int),
        ensures
            c == spec_sprite_pixel(*self, si as int, self.ly, px as int),
            c < 4,
    {
        let height: u8 = if bit_of(self.lcdc, 2) == 1 {
            16
        } else {
            8
        };
        let sy: u8 = self.oam[si * 4];
        let sxpos: u8 = self.oam[si * 4 + 1];
        let tile0: u8 = self.oam[si * 4 + 2];
        let attr: u8 = self.oam[si * 4 + 3];
        let row0: u8 = self.ly + 16 - sy;
        let row_in: u8 = if bit_of(attr, 6) == 1 {
            height - 1 - row0
        } else {
            row0
        };
        let tile: u8 = if height == 16 {
            tile0 - tile0 % 2
        } else {
            tile0
        };
        let col: u8 = (px + 8 - sxpos as usize) as u8;
        let xbit: u8 = if bit_of(attr, 5) == 1 {
            col
        } else {
            7 - col
        };
        let b1: u8 = self.vram[tile as usize * 16 + row_in as usize * 2];
        let b2: u8 = self.vram[tile as usize * 16 + row_in as usize * 2 + 1];
        bit_of(b2, xbit) * 2 + bit_of(b1, xbit)
    }

    /// Write one pixel's RGB triple without touching the background index
    /// buffer, as sprite composition does.
    fn set_sprite_pixel(&mut self, pi: usize, rgb: (u8, u8, u8))
        requires
            old(self).framebuffer@.len() == 69120,
            pi < 23040,
        ensures
            ppu_same_but_pixels(*final(self), *old(self)),
            final(self).framebuffer@.len() == 69120,
            final(self).bg_indices@ == old(self).bg_indices@,
            forall|i: int|
                0 <= i < 69120 && !(pi * 3 <= i < pi * 3 + 3) ==> final(self).framebuffer@[i]
                    == old(self).framebuffer@[i],
            forall|q: int|
                0 <= q < 23040 && q != pi ==> #[trigger] spec_px(final(self).framebuffer@, q)
                    == spec_px(old(self).framebuffer@, q),
            spec_px(final(self).framebuffer@, pi as int) == rgb,
    {
        self.framebuffer[pi * 3] = rgb.0;
        self.framebuffer[pi * 3 + 1] = rgb.1;
        self.framebuffer[pi * 3 + 2] = rgb.2;
    }

    /// The shade a monochrome palette byte assigns to a colour index.
    fn palette_shade_of(&self, palette: u8, index: u8) -> (r: u8)
        requires
            index < 4,
        ensures
            r == spec_palette_shade(palette, index),
            r < 4,
    {
        if index == 0 {
            palette % 4
        } else if index == 1 {
            (palette / 4) % 4
        } else if index == 2 {
            (palette / 16) % 4
        } else {
            (palette / 64) % 4
        }
    }

    /// Compose up to ten sprites onto scanline `ly`.  Colour 0 is
    /// transparent; earlier sprites in OAM order win overlaps; a sprite with
    /// attribute bit 7 stays behind non-zero background pixels.
    fn render_sprites_line(&mut self, ly: usize)
        requires
            ppu_wf(*old(self)),
            ly == old(self).ly as int,
            ly < 144,
        ensures
            ppu_same_but_pixels(*final(self), *old(self)),
            final(self).framebuffer@.len() == 69120,
            final(self).bg_indices@ == old(self).bg_indices@,
            forall|i: int|
                0 <= i < 69120 && !(ly * 480 <= i < ly * 480 + 480) ==> final(self).framebuffer@[i] == old(self).framebuffer@[i],
            forall|sx: int|
                0 <= sx < 160 ==> #[trigger] spec_px(final(self).framebuffer@, ly * 160 + sx)
                    == spec_px(old(self).framebuffer@, ly * 160 + sx) || spec_sprite_wrote(
                    *old(self),
                    final(self).framebuffer@,
                    old(self).bg_indices@,
                    sx,
                ),
    {
        let height: u8 = if bit_of(self.lcdc, 2) == 1 {
            16
        } else {
            8
        };
        let mut selected: Vec<u8> = Vec::new();
        let mut i: usize = 0;
        while i < 40
            invariant
                ppu_wf(*old(self)),
                ly == old(self).ly as int,
                ly < 144,
                *self == *old(self),
                height as int == spec_obj_height(old(self).lcdc),
                i <= 40,
                selected@.len() <= 10,
                selected@ + spec_selected_sprites(
                    *old(self),
                    old(self).ly,
                    i as int,
                    selected@.len() as int,
                ) == spec_selected_sprites(*old(self), old(self).ly, 0, 0),
            decreases 40 - i,
        {
            if selected.len() < 10 {
                let sy: u8 = self.oam[i * 4];
                let lyp16: u16 = ly as u16 + 16;
                if sy as u16 <= lyp16 && lyp16 < sy as u16 + height as u16 {
                    proof {
                        let p = *old(self);
                        let tail = spec_selected_sprites(
                            p,
                            p.ly,
                            i as int + 1,
                            selected@.len() as int + 1,
                        );
                        assert(spec_selected_sprites(p, p.ly, i as int, selected@.len() as int)
                            == seq![i as u8] + tail);
                        assert(selected@.push(i as u8) + tail =~= selected@ + (seq![i as u8]
                            + tail));
                    }
                    selected.push(i as u8);
                } else {
                    proof {
                        let p = *old(self);
                        assert(spec_selected_sprites(p, p.ly, i as int, selected@.len() as int)
                            == spec_selected_sprites(p, p.ly, i as int + 1, selected@.len() as int));
                    }
                }
            } else {
                proof {
                    let p = *old(self);
                    assert(spec_selected_sprites(p, p.ly, i as int, selected@.len() as int)
                        == spec_selected_sprites(p, p.ly, i as int + 1, selected@.len() as int));
                }
            }
            i = i + 1;
        }
        proof {
            assert(selected@ + Seq::<u8>::empty() =~= selected@);
        }
        let mut covered: Vec<bool> = Vec::new();
        let mut ci: usize = 0;
        while ci < 160
            invariant
                ci <= 160,
                covered@.len() == ci,
                *self == *old(self),
            decreases 160 - ci,
        {
            covered.push(false);
            ci = ci + 1;
        }
        let mut k: usize = 0;
        while k < selected.len()
            invariant
                ppu_wf(*old(self)),
                ly == old(self).ly as int,
                ly < 144,
                k <= selected@.len(),
                covered@.len() == 160,
                height as int == spec_obj_height(old(self).lcdc),
                selected@ == spec_selected_sprites(*old(self), old(self).ly, 0, 0),
                ppu_same_but_pixels(*self, *old(self)),
                self.framebuffer@.len() == 69120,
                self.bg_indices@ == old(self).bg_indices@,
                forall|i2: int|
                    0 <= i2 < 69120 && !(ly * 480 <= i2 < ly * 480 + 480) ==> self.framebuffer@[i2]
                        == old(self).framebuffer@[i2],
                forall|sx: int|
                    0 <= sx < 160 ==> #[trigger] spec_px(self.framebuffer@, ly * 160 + sx)
                        == spec_px(old(self).framebuffer@, ly * 160 + sx) || spec_sprite_wrote(
                        *old(self),
                        self.framebuffer@,
                        old(self).bg_indices@,
                        sx,
                    ),
            decreases selected@.len() - k,
        {
            proof {
                lemma_selected_sprites_elem(*old(self), old(self).ly, 0, 0, k as int);
            }
            let si: usize = selected[k] as usize;
            let sxpos: u8 = self.oam[si * 4 + 1];
            let attr: u8 = self.oam[si * 4 + 3];
            let pal: u8 = if bit_of(attr, 4) == 1 {
                self.obp1
            } else {
                self.obp0
            };
            let mut col: usize = 0;
            while col < 8
                invariant
                    ppu_wf(*old(self)),
                    ly == old(self).ly as int,
                    ly < 144,
                    k < selected@.len(),
                    covered@.len() == 160,
                    selected@ == spec_selected_sprites(*old(self), old(self).ly, 0, 0),
                    col <= 8,
                    si == selected@[k as int] as int,
                    si < 40,
                    spec_sprite_covers(*old(self), si as int, old(self).ly),
                    sxpos == old(self).oam@[si * 4 + 1],
                    attr == old(self).oam@[si * 4 + 3],
                    pal == spec_sprite_palette(*old(self), si as int),
                    ppu_same_but_pixels(*self, *old(self)),
                    self.framebuffer@.len() == 69120,
                    self.bg_indices@ == old(self).bg_indices@,
                    forall|i2: int|
                        0 <= i2 < 69120 && !(ly * 480 <= i2 < ly * 480 + 480)
                            ==> self.framebuffer@[i2] == old(self).framebuffer@[i2],
                    forall|sx: int|
                        0 <= sx < 160 ==> #[trigger] spec_px(self.framebuffer@, ly * 160 + sx)
                            == spec_px(old(self).framebuffer@, ly * 160 + sx) || spec_sprite_wrote(
                            *old(self),
                            self.framebuffer@,
                            old(self).bg_indices@,
                            sx,
                        ),
                decreases 8 - col,
            {
                let px_plus8: usize = sxpos as usize + col;
                if px_plus8 >= 8 && px_plus8 < 168 {
                    let px: usize = px_plus8 - 8;
                    if !covered[px] {
                        proof {
                            assert(spec_sprite_covers(*self, si as int, self.ly));
                            assert(spec_sprite_covers_x(*self, si as int, px as int));
                        }
                        let c: u8 = self.sprite_pixel_at(si, px);
                        if c != 0 {
                            covered[px] = true;
                            let behind = bit_of(attr, 7) == 1;
                            let bg_here: u8 = self.bg_indices[ly * 160 + px];
                            if !(behind && bg_here != 0) {
                                proof {
                                    assert(c == spec_sprite_pixel(
                                        *old(self),
                                        si as int,
                                        old(self).ly,
                                        px as int,
                                    ));
                                }
                                let shade: u8 = self.palette_shade_of(pal, c);
                                let rgb: (u8, u8, u8) = crate::shade_rgb(shade);
                                let ghost fb_prev = self.framebuffer@;
                                self.set_sprite_pixel(ly * 160 + px, rgb);
                                proof {
                                    assert(spec_sprite_justifies(
                                        *old(self),
                                        self.framebuffer@,
                                        old(self).bg_indices@,
                                        px as int,
                                        k as int,
                                    ));
                                    assert(spec_sprite_wrote(
                                        *old(self),
                                        self.framebuffer@,
                                        old(self).bg_indices@,
                                        px as int,
                                    ));
                                    assert forall|sx2: int|
                                        0 <= sx2 < 160 && sx2 != px && spec_sprite_wrote(
                                            *old(self),
                                            fb_prev,
                                            old(self).bg_indices@,
                                            sx2,
                                        ) implies spec_sprite_wrote(
                                        *old(self),
                                        self.framebuffer@,
                                        old(self).bg_indices@,
                                        sx2,
                                    ) by {
                                        let kk = choose|kk: int|
                                            spec_sprite_justifies(
                                                *old(self),
                                                fb_prev,
                                                old(self).bg_indices@,
                                                sx2,
                                                kk,
                                            );
                                        assert(spec_sprite_justifies(
                                            *old(self),
                                            self.framebuffer@,
                                            old(self).bg_indices@,
                                            sx2,
                                            kk,
                                        ));
                                    }
                                }
                            }
                        }
                    }
                }
                col = col + 1;
            }
            k = k + 1;
        }
    }
}

impl Ppu {
    /// Render scanline LY: the background layer (or blank shade 0), the
    /// window over it, then up to ten sprites.
    fn render_scanline(&mut self)
        requires
            ppu_wf(*old(self)),
            old(self).ly < 144,
        ensures
            ppu_same_but_pixels(*final(self), *old(self)),
            spec_render_line_post(*old(self), final(self).framebuffer@, final(self).bg_indices@),
    {
        let ly: usize = self.ly as usize;
        let palette: [(u8, u8, u8); 4] = self.get_palette(self.bgp);
        let bg_on: bool = bit_of(self.lcdc, 0) == 1;
        if bg_on {
            self.render_background_line(ly, &palette);
        } else {
            self.fill_line_blank(ly);
        }
        let ghost p1 = *self;
        let window_ran: bool = bit_of(self.lcdc, 5) == 1 && bit_of(self.lcdc, 0) == 1 && self.ly
            >= self.wy;
        if window_ran {
            self.render_window_line(ly, &palette);
        }
        let ghost p2 = *self;
        proof {
            assert forall|sx: int| 0 <= sx < 160 implies self.bg_indices@[ly * 160 + sx]
                == #[trigger] spec_line_index(*old(self), sx) && spec_px(
                self.framebuffer@,
                ly * 160 + sx,
            ) == spec_line_rgb(*old(self), sx) by {
                if spec_win_covers(*old(self), sx) {
                    assert(window_ran);
                    assert(spec_win_covers(p1, sx));
                    assert(spec_px(self.framebuffer@, ly * 160 + sx) == crate::spec_shade_rgb(
                        spec_palette_shade(p1.bgp, spec_win_index(p1, sx)),
                    ));
                    assert(self.bg_indices@[ly * 160 + sx] == spec_win_index(p1, sx));
                    assert(spec_win_index(p1, sx) == spec_win_index(*old(self), sx));
                } else {
                    if window_ran {
                        assert(!spec_win_covers(p1, sx));
                        assert(spec_px(self.framebuffer@, ly * 160 + sx) == spec_px(
                            p1.framebuffer@,
                            ly * 160 + sx,
                        ));
                        assert(self.bg_indices@[ly * 160 + sx] == p1.bg_indices@[ly * 160 + sx]);
                    }
                    if bg_on {
                        assert(p1.bg_indices@[ly * 160 + sx] == spec_bg_index(*old(self), sx));
                        assert(spec_px(p1.framebuffer@, ly * 160 + sx) == crate::spec_shade_rgb(
                            spec_palette_shade(old(self).bgp, spec_bg_index(*old(self), sx)),
                        ));
                    } else {
                        assert(p1.bg_indices@[ly * 160 + sx] == 0);
                        assert(spec_px(p1.framebuffer@, ly * 160 + sx) == crate::spec_shade_rgb(0));
                    }
                }
            }
        }
        if bit_of(self.lcdc, 1) == 1 {
            self.render_sprites_line(ly);
            proof {
                lemma_selected_sprites_agree(p2, *old(self), old(self).ly, 0, 0);
                assert forall|sx: int| 0 <= sx < 160 && spec_sprite_wrote(
                    p2,
                    self.framebuffer@,
                    p2.bg_indices@,
                    sx,
                ) implies spec_sprite_wrote(
                    *old(self),
                    self.framebuffer@,
                    self.bg_indices@,
                    sx,
                ) by {
                    let kk = choose|kk: int|
                        spec_sprite_justifies(p2, self.framebuffer@, p2.bg_indices@, sx, kk);
                    assert(spec_sprite_justifies(
                        *old(self),
                        self.framebuffer@,
                        self.bg_indices@,
                        sx,
                        kk,
                    ));
                }
                assert forall|sx: int| 0 <= sx < 160 implies #[trigger] spec_pixel_shown(
                    *old(self),
                    self.framebuffer@,
                    self.bg_indices@,
                    sx,
                ) by {
                    if spec_px(self.framebuffer@, ly * 160 + sx) == spec_px(
                        p2.framebuffer@,
                        ly * 160 + sx,
                    ) {
                        assert(spec_px(p2.framebuffer@, ly * 160 + sx) == spec_line_rgb(
                            *old(self),
                            sx,
                        ));
                    } else {
                        assert(spec_sprite_wrote(
                            p2,
                            self.framebuffer@,
                            p2.bg_indices@,
                            sx,
                        ));
                        assert(spec_sprite_wrote(
                            *old(self),
                            self.framebuffer@,
                            self.bg_indices@,
                            sx,
                        ));
                    }
                }
            }
        } else {
            proof {
                assert forall|sx: int| 0 <= sx < 160 implies #[trigger] spec_pixel_shown(
                    *old(self),
                    self.framebuffer@,
                    self.bg_indices@,
                    sx,
                ) by {
                }
            }
        }
    }

    /// Advance the PPU by the cycles one CPU step consumed, taking at most
    /// one mode transition; rendering happens when drawing ends.  Returns
    /// whether VBlank just began.
    pub fn step(&mut self, cycles: u32) -> (vblank: bool)
        requires
            ppu_wf(*old(self)),
            cycles <= 24,
        ensures
            ppu_wf(*final(self)),
            *final(self) == (Ppu {
                framebuffer: final(self).framebuffer,
                bg_indices: final(self).bg_indices,
                ..spec_step_regs(*old(self), cycles)
            }),
            spec_step_renders(*old(self), cycles) ==> spec_render_line_post(
                *old(self),
                final(self).framebuffer@,
                final(self).bg_indices@,
            ),
            !spec_step_renders(*old(self), cycles) ==> final(self).framebuffer@ == old(
                self,
            ).framebuffer@ && final(self).bg_indices@ == old(self).bg_indices@,
            vblank == spec_step_vblank(*old(self), cycles),
    {
        if bit_of(self.lcdc, 7) == 0 {
            return false;
        }
        let mc: u32 = self.mode_cycles + cycles;
        let mode: u8 = self.stat % 4;
        let mut vblank: bool = false;
        if mode == 2 {
            if mc >= 80 {
                self.mode_cycles = mc - 80;
                self.set_mode(3);
            } else {
                self.mode_cycles = mc;
            }
        } else if mode == 3 {
            if mc >= 172 {
                if self.ly < 144 {
                    self.render_scanline();
                    if bit_of(self.lcdc, 5) == 1 && bit_of(self.lcdc, 0) == 1 && self.ly >= self.wy
                        && self.wx <= 166 && self.window_line < 255 {
                        self.window_line = self.window_line + 1;
                    }
                }
                self.mode_cycles = mc - 172;
                self.set_mode(0);
            } else {
                self.mode_cycles = mc;
            }
        } else if mode == 0 {
            if mc >= 204 {
                self.mode_cycles = mc - 204;
                let new_ly: u8 = self.ly + 1;
                self.set_ly(new_ly);
                if new_ly == 144 {
                    self.set_mode(1);
                    self.vblank_interrupt = true;
                    self.window_line = 0;
                    vblank = true;
                } else {
                    self.set_mode(2);
                }
            } else {
                self.mode_cycles = mc;
            }
        } else {
            if mc >= 456 {
                self.mode_cycles = mc - 456;
                if self.ly >= 153 {
                    self.set_ly(0);
                    self.set_mode(2);
                } else {
                    let new_ly: u8 = self.ly + 1;
                    self.set_ly(new_ly);
                }
            } else {
                self.mode_cycles = mc;
            }
        }
        vblank
    }
}

/// A vector of `n` zero bytes.
fn make_zero_vec(n: usize) -> (r: Vec<u8>)
    ensures
        r@.len() == n,
        forall|i: int| 0 <= i < n ==> r@[i] == 0,
{
    let mut v: Vec<u8> = Vec::new();
    let mut i: usize = 0;
    while i < n
        invariant
            i <= n,
            v@.len() == i,
            forall|k: int| 0 <= k < i ==> v@[k] == 0,
        decreases n - i,
    {
        v.push(0);
        i = i + 1;
    }
    v
}

} // verus!
