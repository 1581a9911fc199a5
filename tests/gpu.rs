use gbemu::gpu::{Coordinate, GPU};
use gbemu::lcd_registers::PpuMode;

#[test]
fn viewport_coordinates_are_wrapped() {
    let mut gpu = GPU::new();

    gpu.viewport = Coordinate::new(200, 200);
    assert_eq!(gpu.get_tile_addr(100), Coordinate::new(44, 200));

    let _ = gpu.lcd_status.set_line(100);
    assert_eq!(gpu.get_tile_addr(100), Coordinate::new(44, 44));
}

#[test]
fn ly_counts_lines_of_456_dots() {
    let mut gpu = GPU::new();
    let _ = gpu.set_lcd_control(0x91);
    assert_eq!(gpu.cycles, 4);
    let _ = gpu.step(452);
    assert_eq!((gpu.lcd_status.ly(), gpu.cycles), (1, 0));
    for k in 1..(2 * 154 + 3) {
        assert_eq!(gpu.lcd_status.ly() as usize, k % 154);
        let _ = gpu.step(455);
        assert_eq!(gpu.lcd_status.ly() as usize, k % 154);
        let _ = gpu.step(1);
    }
}

#[test]
fn modes_follow_the_dot_position() {
    let mut gpu = GPU::new();
    let _ = gpu.set_lcd_control(0x91);
    let _ = gpu.step(452); // start of line 1
    let _ = gpu.step(40);
    assert!(gpu.lcd_status.ppu_mode == PpuMode::OAMScan);
    let _ = gpu.step(60);
    assert!(gpu.lcd_status.ppu_mode == PpuMode::DrawingPixels);
    let _ = gpu.step(200);
    assert!(gpu.lcd_status.ppu_mode == PpuMode::HBlank);
    let _ = gpu.step(456 * 143);
    assert_eq!(gpu.lcd_status.ly(), 144);
    assert!(gpu.lcd_status.ppu_mode == PpuMode::VBlank);
}

#[test]
fn entering_vblank_raises_the_interrupt() {
    let mut gpu = GPU::new();
    let _ = gpu.set_lcd_control(0x91);
    let mut vblanks = 0;
    for _ in 0..(70224 / 24) {
        if gpu.step(24).vblank {
            vblanks += 1;
        }
    }
    assert_eq!(vblanks, 1);
}

#[test]
fn lcd_off_resets_ly_and_whitens() {
    let mut gpu = GPU::new();
    let _ = gpu.set_lcd_control(0x91);
    let _ = gpu.step(456 * 10);
    gpu.buffer[0] = 0;
    let _ = gpu.set_lcd_control(0x11);
    assert_eq!(gpu.lcd_status.ly(), 0);
    assert!(gpu.lcd_status.ppu_mode == PpuMode::HBlank);
    assert!(gpu.buffer.iter().all(|&p| p == 255));
    let before = gpu.lcd_status.ly();
    let _ = gpu.step(10000);
    assert_eq!(gpu.lcd_status.ly(), before);
}

fn put_sprite(gpu: &mut GPU, i: usize, y: u8, x: u8) {
    gpu.oam[4 * i] = y;
    gpu.oam[4 * i + 1] = x;
    gpu.oam[4 * i + 2] = 0;
    gpu.oam[4 * i + 3] = 0;
}

#[test]
fn oam_scan_keeps_ten_sorted_by_x_then_index() {
    let mut gpu = GPU::new();
    let _ = gpu.lcd_status.set_line(20);
    // Twelve objects covering line 20; objects 3 and 5 share X.
    for i in 0..12 {
        put_sprite(&mut gpu, i, 20 + 16 - 2, (100 - i * 5) as u8);
    }
    put_sprite(&mut gpu, 5, 20 + 16 - 2, 85);
    // One that does not cover the line.
    put_sprite(&mut gpu, 0, 0, 50);
    let objs = gpu.select_sprites();
    assert_eq!(objs.len(), 10);
    let idx: Vec<usize> = objs.iter().map(|o| o.oam_idx).collect();
    assert!(!idx.contains(&0));
    assert!(!idx.contains(&11));
    for w in objs.windows(2) {
        assert!(w[0].pos.x < w[1].pos.x || (w[0].pos.x == w[1].pos.x && w[0].oam_idx < w[1].oam_idx));
    }
    let p3 = idx.iter().position(|&i| i == 3).unwrap();
    let p5 = idx.iter().position(|&i| i == 5).unwrap();
    assert!(p3 < p5);
}

#[test]
fn lower_oam_index_wins_on_equal_x() {
    let mut gpu = GPU::new();
    let _ = gpu.set_lcd_control(0x93); // LCD, objects, background on
    // Tile 1: row 0 colour 1 everywhere; tile 2: row 0 colour 2 everywhere.
    gpu.vram[16] = 0xFF;
    gpu.vram[17] = 0x00;
    gpu.vram[32] = 0x00;
    gpu.vram[33] = 0xFF;
    for (i, tile) in [(0usize, 1u8), (1, 2)] {
        gpu.oam[4 * i] = 16;
        gpu.oam[4 * i + 1] = 8 + 10;
        gpu.oam[4 * i + 2] = tile;
        gpu.oam[4 * i + 3] = 0;
    }
    gpu.obj0_colors = gbemu::gpu::BackgroundColors::from(0b11100100);
    // Run line 0 up to HBlank so that it is drawn.
    let _ = gpu.step(300);
    assert_eq!(gpu.lcd_status.ly(), 0);
    // Object 0 (colour 1, light grey) is on top of object 1 (colour 2).
    assert_eq!(gpu.buffer[10], 211);
}

#[test]
fn background_pixel_from_tile_data() {
    let mut gpu = GPU::new();
    let _ = gpu.set_lcd_control(0x91); // unsigned tile data at $8000, map $9800
    gpu.vram[0x1800] = 1; // map entry (0,0) -> tile 1
    gpu.vram[16] = 0b1000_0000; // tile 1 row 0 low bits
    gpu.vram[17] = 0b1000_0000; // tile 1 row 0 high bits
    gpu.bg_colors = gbemu::gpu::BackgroundColors::from(0b11100100);
    let _ = gpu.step(300);
    assert_eq!(gpu.buffer[0], 0); // colour 3: black
    assert_eq!(gpu.buffer[1], 255); // colour 0: white
    let rgb = gpu.to_rgb8();
    assert_eq!(rgb.len(), 160 * 144 * 3);
    assert_eq!(&rgb[0..6], &[0, 0, 0, 255, 255, 255]);
    assert_eq!(gpu.to_rgb32()[1], 0x00FF_FFFF);
}

#[test]
fn palette_byte_round_trip() {
    let p = gbemu::gpu::BackgroundColors::from(0b00_01_10_11);
    assert_eq!(u8::from(p), 0b00_01_10_11);
    assert_eq!(p.get()[0].rgb(), 0);
    assert_eq!(p.get()[3].rgb(), 255);
}
