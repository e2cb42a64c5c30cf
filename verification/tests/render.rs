//! Rendering paths exercised directly: background, window and sprite
//! composition, plus MBC3 banking.
use gameboy::cartridge::{Cartridge, MBC};
use gameboy::gpu::Gpu;

#[test]
fn background_renders_through_palette() {
    let mut gpu = Gpu::new();
    gpu.lcd_control = 0x91;  // LCD on, background on, 0x8000 tile data
    gpu.bg_palette = vec![0, 1, 2, 3];
    gpu.write_vram(0x0010, 0xff);  // tile 1, row 0: all colour 1
    gpu.write_vram(0x1800, 0x01);  // map (0, 0) -> tile 1
    gpu.line = 0;
    gpu.render_scanline();
    for x in 0..8 {
        assert_eq!(gpu.framebuffer[x], 1);
    }
    assert_eq!(gpu.framebuffer[8], 0, "the next tile is still blank");
}

#[test]
fn sprite_draws_over_background() {
    let mut gpu = Gpu::new();
    gpu.lcd_control = 0x93;  // LCD, background and sprites on
    gpu.bg_palette = vec![0, 1, 2, 3];
    gpu.write_vram(0x0020, 0x00);
    gpu.write_vram(0x0021, 0xff);  // tile 2, row 0: all colour 2
    // OAM entry 0: a sprite whose top-left lands at screen (4, 0).
    gpu.oam[0] = 16;
    gpu.oam[1] = 12;
    gpu.oam[2] = 2;
    gpu.oam[3] = 0;
    gpu.line = 0;
    gpu.render_scanline();
    assert_eq!(gpu.framebuffer[3], 0, "left of the sprite stays background");
    for x in 4..12 {
        assert_eq!(gpu.framebuffer[x], 2, "sprite pixels carry the tile colour");
    }
    assert_eq!(gpu.framebuffer[12], 0);
}

#[test]
fn behind_background_sprite_respects_backdrop() {
    let mut gpu = Gpu::new();
    gpu.lcd_control = 0x93;
    gpu.bg_palette = vec![1, 0, 2, 3];  // backdrop colour is 1
    gpu.write_vram(0x0020, 0x00);
    gpu.write_vram(0x0021, 0xff);  // tile 2: colour 2
    gpu.oam[0] = 16;
    gpu.oam[1] = 8;
    gpu.oam[2] = 2;
    gpu.oam[3] = 0x80;  // behind the background
    gpu.line = 0;
    gpu.render_scanline();
    // The whole line shows backdrop colour 1, which is what the
    // behind-background rule compares against - so the sprite shows.
    for x in 0..8 {
        assert_eq!(gpu.framebuffer[x], 2);
    }
}

#[test]
fn window_overlays_from_its_left_edge() {
    let mut gpu = Gpu::new();
    gpu.lcd_control = 0xf1;  // LCD, background and window on; window map high
    gpu.bg_palette = vec![0, 1, 2, 3];
    gpu.write_vram(0x0030, 0xff);  // tile 3, row 0: colour 1
    gpu.write_vram(0x1c00, 0x03);  // window map (0, 0) -> tile 3
    gpu.window_coords = (7 + 4, 0);  // left edge at screen column 4
    gpu.window_drawing = true;
    gpu.window_line = 0;
    gpu.line = 0;
    gpu.render_scanline();
    assert_eq!(gpu.framebuffer[3], 0, "left of the window shows background");
    for x in 4..12 {
        assert_eq!(gpu.framebuffer[x], 1, "window pixels from its own line 0");
    }
    assert_eq!(gpu.window_line, 1, "the window counted one drawn line");
}

#[test]
fn background_disabled_fills_line_with_backdrop() {
    let mut gpu = Gpu::new();
    gpu.lcd_control = 0x80;  // LCD on, background disabled
    gpu.bg_palette = vec![3, 0, 1, 2];  // backdrop colour 3
    gpu.framebuffer[5] = 1;
    gpu.framebuffer[300] = 2;
    gpu.line = 0;
    gpu.render_scanline();
    for x in 0..160 {
        assert_eq!(gpu.framebuffer[x], 3, "the line shows the backdrop colour");
    }
    assert_eq!(gpu.framebuffer[300], 2, "other lines are left alone");
}

#[test]
fn lcd_off_blanks_the_frame() {
    let mut gpu = Gpu::new();
    gpu.lcd_control = 0x00;
    gpu.bg_palette = vec![3, 3, 3, 3];
    gpu.framebuffer[100] = 3;
    gpu.line = 0;
    gpu.render_scanline();
    assert!(gpu.framebuffer.iter().all(|p| *p == 0));
}

#[test]
fn mbc3_banking_and_ram() {
    let mut rom = vec![0u8; 0x8000];
    rom[0x147] = 0x13;
    rom[0x149] = 0x03;  // 32 KiB of RAM
    rom[0x4321] = 0x77;
    let mut cart = Cartridge::from_bytes(rom).unwrap();

    assert_eq!(cart.read(0x4321), 0x77, "bank 1 after reset");
    cart.write(0x2000, 0x00);
    match cart.mbc {
        MBC::MBC3(s) => assert_eq!(s.bank, 1, "bank 0 remaps to 1"),
        _ => panic!("expected an MBC3 cartridge"),
    }

    cart.write(0x4000, 0x01);  // RAM bank 1
    cart.write(0xa010, 0xab);
    assert_eq!(cart.read(0xa010), 0xab);
    assert_eq!(cart.ram[0x2010], 0xab, "stored through RAM bank 1");

    cart.write(0x4000, 0x0a);  // selector above 3: RAM unmapped
    assert_eq!(cart.read(0xa010), 0xff);
    cart.write(0xa010, 0x11);
    assert_eq!(cart.ram[0x2010], 0xab, "writes are swallowed while unmapped");
}
