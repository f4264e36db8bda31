use gbemu::emulator::Emulator;
use gbemu::ppu::Ppu;

#[test]
fn test_checkerboard_frame() {
    // With LCDC=0x91, SCY=SCX=0, BGP=0xE4 and a tile pattern that
    // alternates a blank tile and a solid tile along the top row, one
    // frame leaves pixel (0,0) at shade 0 and pixel (8,0) at shade 3.
    let mut em = Emulator::new(vec![0u8; 0x8000]);
    em.init_post_boot();
    em.mem.write_8(0xFF47, 0xE4); // BGP: identity shade map
    for i in 0..16u16 {
        em.mem.write_8(0x8010 + i, 0xFF); // tile 1: solid colour 3
    }
    for x in 0..32u16 {
        em.mem.write_8(0x9800 + x, (x % 2) as u8); // tilemap row 0: 0,1,0,1...
    }
    em.step_frame();
    let fb = em.framebuffer();
    assert_eq!((fb[0], fb[1], fb[2]), (0x9B, 0xBC, 0x0F));
    let p = 8 * 3;
    assert_eq!((fb[p], fb[p + 1], fb[p + 2]), (0x0F, 0x38, 0x0F));
}

#[test]
fn test_ly_lyc_coincidence_flag() {
    // Any LY update sets STAT bit 2 exactly when LY == LYC.
    let mut p = Ppu::new();
    p.write(0xFF45, 0x00); // LYC = 0
    p.write(0xFF40, 0x11); // LCD off: forces LY = 0, a coincidence
    assert_eq!(p.read(0xFF41) & 0x04, 0x04);
    p.write(0xFF45, 0x05);
    p.write(0xFF40, 0x91); // LCD back on: LY = 0 != LYC
    assert_eq!(p.read(0xFF41) & 0x04, 0x00);
}

#[test]
fn test_mode_progression_and_line_budget() {
    // One scanline is 80 + 172 + 204 = 456 T-cycles through modes 2, 3, 0.
    let mut p = Ppu::new();
    assert_eq!(p.read(0xFF41) & 0x03, 2);
    for _ in 0..20 {
        p.step(4); // 80 cycles of OAM scan
    }
    assert_eq!(p.read(0xFF41) & 0x03, 3);
    for _ in 0..43 {
        p.step(4); // 172 cycles of drawing
    }
    assert_eq!(p.read(0xFF41) & 0x03, 0);
    for _ in 0..51 {
        p.step(4); // 204 cycles of HBlank
    }
    assert_eq!(p.read(0xFF44), 1);
    assert_eq!(p.read(0xFF41) & 0x03, 2);
}

#[test]
fn test_vblank_at_line_144() {
    let mut p = Ppu::new();
    let mut vblank_seen = false;
    for _ in 0..(144 * 456 / 4) {
        if p.step(4) {
            vblank_seen = true;
        }
    }
    assert!(vblank_seen);
    assert_eq!(p.read(0xFF44), 144);
    assert_eq!(p.read(0xFF41) & 0x03, 1);
    assert!(p.frame_ready());
}

#[test]
fn test_sprite_pixels_respect_transparency_and_priority() {
    // A solid sprite paints over background colour 0, but a behind-flag
    // sprite never paints over a non-zero background index, and colour 0
    // sprite pixels never paint at all.
    let mut em = Emulator::new(vec![0u8; 0x8000]);
    em.init_post_boot();
    em.mem.write_8(0xFF40, 0x93); // LCD + BG + OBJ, 8x8 sprites
    em.mem.write_8(0xFF47, 0xE4);
    em.mem.write_8(0xFF48, 0xE4); // OBP0: identity shades
    for i in 0..16u16 {
        em.mem.write_8(0x8010 + i, 0xFF); // tile 1: solid colour 3
    }
    // Background: tile 0 (blank) everywhere except column 2, which shows
    // tile 1 (index 3).
    em.mem.write_8(0x9802, 1);
    // Sprite 0: solid tile 1 at screen (0,0).
    em.mem.write_8(0xFE00, 16);
    em.mem.write_8(0xFE01, 8);
    em.mem.write_8(0xFE02, 1);
    em.mem.write_8(0xFE03, 0);
    // Sprite 1: solid tile 1 at screen (16,0) with the behind flag; the
    // background there is non-zero, so it must not paint.
    em.mem.write_8(0xFE04, 16);
    em.mem.write_8(0xFE05, 24);
    em.mem.write_8(0xFE06, 1);
    em.mem.write_8(0xFE07, 0x80);
    em.step_frame();
    let fb = em.framebuffer();
    // Sprite over blank background: darkest shade.
    assert_eq!((fb[0], fb[1], fb[2]), (0x0F, 0x38, 0x0F));
    // Blank background shows shade 0 where no sprite covers.
    let p9 = 9 * 3;
    assert_eq!((fb[p9], fb[p9 + 1], fb[p9 + 2]), (0x9B, 0xBC, 0x0F));
    // Behind-flagged sprite: the background tile's darkest shade stays,
    // written by the background, not the sprite (index was non-zero).
    let p16 = 16 * 3;
    assert_eq!((fb[p16], fb[p16 + 1], fb[p16 + 2]), (0x0F, 0x38, 0x0F));
}

#[test]
fn test_lcd_disable_resets_ly() {
    let mut p = Ppu::new();
    for _ in 0..500 {
        p.step(4);
    }
    assert!(p.read(0xFF44) > 0);
    p.write(0xFF40, 0x11); // bit 7 off
    assert_eq!(p.read(0xFF44), 0);
    let before = p.read(0xFF44);
    p.step(4); // disabled: nothing advances
    assert_eq!(p.read(0xFF44), before);
}

#[test]
fn test_window_overlays_background() {
    // The window (tilemap at 0x9C00) paints over the background from
    // WX-7 onward on lines at or below WY.
    let mut em = Emulator::new(vec![0u8; 0x8000]);
    em.init_post_boot();
    em.mem.write_8(0xFF40, 0xF1); // LCD + BG + window, window map 0x9C00
    em.mem.write_8(0xFF47, 0xE4);
    em.mem.write_8(0xFF4A, 0x00); // WY
    em.mem.write_8(0xFF4B, 97); // WX: window starts at screen x = 90
    for i in 0..16u16 {
        em.mem.write_8(0x8010 + i, 0xFF); // tile 1: solid colour 3
    }
    em.mem.write_8(0x9C00, 1); // window shows the solid tile
    em.step_frame();
    let fb = em.framebuffer();
    // Left of the window: blank background, shade 0.
    assert_eq!((fb[0], fb[1], fb[2]), (0x9B, 0xBC, 0x0F));
    // Inside the window: the solid tile's shade 3.
    let p = 90 * 3;
    assert_eq!((fb[p], fb[p + 1], fb[p + 2]), (0x0F, 0x38, 0x0F));
}
