use nes_core::cartridge::Mirroring;
use nes_core::ppu::{Ppu, NES_PALETTE};

fn set_addr(p: &mut Ppu, addr: u16) {
    p.write_register(0x2006, (addr >> 8) as u8);
    p.write_register(0x2006, addr as u8);
}

#[test]
fn power_on_state() {
    let p = Ppu::new();
    assert_eq!(p.status, 0);
    assert_eq!(p.scanline, 0);
    assert_eq!(p.cycle, 0);
    assert_eq!(p.frame, 0);
    assert!(!p.nmi_triggered);
    assert_eq!(p.mirroring, Mirroring::Horizontal);
    assert_eq!(p.framebuffer.len(), 256 * 240 * 3);
    assert!(p.framebuffer.iter().all(|&b| b == 0));
}

#[test]
fn one_frame_is_341_by_262_dots() {
    let mut p = Ppu::new();
    for i in 0..(341 * 262 - 1) {
        assert!(!p.tick(), "frame reported early at dot {}", i);
    }
    assert_eq!(p.scanline, 261);
    assert_eq!(p.cycle, 340);
    assert!(p.tick());
    assert_eq!(p.frame, 1);
    assert_eq!(p.scanline, 0);
    assert_eq!(p.cycle, 0);
}

#[test]
fn vblank_starts_at_241_and_ends_at_261() {
    let mut p = Ppu::new();
    p.write_register(0x2000, 0x80);
    for _ in 0..(241 * 341 + 1) {
        p.tick();
    }
    assert_eq!(p.status & 0x80, 0);
    assert!(!p.nmi_triggered);
    p.tick();
    assert_eq!(p.status & 0x80, 0x80);
    assert!(p.nmi_triggered);
    p.status |= 0x60;
    for _ in 0..(20 * 341) {
        p.tick();
    }
    assert_eq!(p.scanline, 261);
    assert_eq!(p.status & 0xE0, 0);
}

#[test]
fn no_nmi_when_disabled() {
    let mut p = Ppu::new();
    for _ in 0..(241 * 341 + 2) {
        p.tick();
    }
    assert_eq!(p.status & 0x80, 0x80);
    assert!(!p.nmi_triggered);
}

#[test]
fn status_read_clears_vblank_and_latches() {
    let mut p = Ppu::new();
    p.status = 0xE0;
    p.vram_read_buf = 0x3A;
    p.write_register(0x2006, 0x21);
    p.write_register(0x2005, 0x10);
    assert!(p.vram_addr_latch);
    assert!(p.scroll_latch);
    assert_eq!(p.read_register(0x2002), 0xE0 | 0x1A);
    assert_eq!(p.status, 0x60);
    assert!(!p.vram_addr_latch);
    assert!(!p.scroll_latch);
    assert_eq!(p.read_register(0x2002), 0x60 | 0x1A);
}

#[test]
fn ppuaddr_takes_high_then_low() {
    let mut p = Ppu::new();
    set_addr(&mut p, 0x2345);
    assert_eq!(p.vram_addr, 0x2345);
    assert!(!p.vram_addr_latch);
}

#[test]
fn palette_reads_back_without_buffer() {
    let mut p = Ppu::new();
    set_addr(&mut p, 0x3F01);
    p.write_register(0x2007, 0x2A);
    assert_eq!(p.palette[1], 0x2A);
    assert_eq!(p.vram_addr, 0x3F02);
    set_addr(&mut p, 0x3F01);
    assert_eq!(p.read_register(0x2007), 0x2A);
}

#[test]
fn palette_mirrors() {
    let mut p = Ppu::new();
    set_addr(&mut p, 0x3F10);
    p.write_register(0x2007, 0x0D);
    assert_eq!(p.palette[0], 0x0D);
    set_addr(&mut p, 0x3F25);
    p.write_register(0x2007, 0x31);
    assert_eq!(p.palette[5], 0x31);
    set_addr(&mut p, 0x3F15);
    assert_eq!(p.read_register(0x2007), 0);
    p.write_register(0x2007, 0x07);
    assert_eq!(p.palette[0x16], 0x07);
}

#[test]
fn vram_read_is_buffered() {
    let mut p = Ppu::new();
    set_addr(&mut p, 0x2005);
    p.write_register(0x2007, 0x99);
    set_addr(&mut p, 0x2005);
    assert_eq!(p.read_register(0x2007), 0);
    assert_eq!(p.read_register(0x2007), 0x99);
}

#[test]
fn increment_32_when_ctrl_bit_2() {
    let mut p = Ppu::new();
    p.write_register(0x2000, 0x04);
    set_addr(&mut p, 0x2000);
    p.write_register(0x2007, 1);
    assert_eq!(p.vram_addr, 0x2020);
    p.read_register(0x2007);
    assert_eq!(p.vram_addr, 0x2040);
}

#[test]
fn horizontal_and_vertical_mirroring() {
    let mut p = Ppu::new();
    set_addr(&mut p, 0x2410);
    p.write_register(0x2007, 0x44);
    assert_eq!(p.vram[0x010], 0x44);
    set_addr(&mut p, 0x2C10);
    p.write_register(0x2007, 0x55);
    assert_eq!(p.vram[0x410], 0x55);
    let mut v = Ppu::new();
    v.mirroring = Mirroring::Vertical;
    set_addr(&mut v, 0x2810);
    v.write_register(0x2007, 0x66);
    assert_eq!(v.vram[0x010], 0x66);
    set_addr(&mut v, 0x2C10);
    v.write_register(0x2007, 0x77);
    assert_eq!(v.vram[0x410], 0x77);
    // $3000-$3EFF mirrors $2000-$2EFF.
    set_addr(&mut v, 0x3010);
    v.write_register(0x2007, 0x88);
    assert_eq!(v.vram[0x010], 0x88);
}

#[test]
fn oam_data_reads_back() {
    let mut p = Ppu::new();
    p.write_register(0x2003, 0x10);
    p.write_register(0x2004, 0x55);
    assert_eq!(p.oam[0x10], 0x55);
    assert_eq!(p.oam_addr, 0x11);
    p.write_register(0x2003, 0x10);
    assert_eq!(p.read_register(0x2004), 0x55);
    p.write_register(0x2003, 0xFF);
    p.write_register(0x2004, 0x01);
    assert_eq!(p.oam_addr, 0x00);
}

#[test]
fn scroll_takes_x_then_y() {
    let mut p = Ppu::new();
    p.write_register(0x2005, 12);
    p.write_register(0x2005, 34);
    assert_eq!(p.scroll_x, 12);
    assert_eq!(p.scroll_y, 34);
    assert!(!p.scroll_latch);
}

#[test]
fn registers_repeat_every_8_bytes() {
    let mut p = Ppu::new();
    p.write_register(0x3FF8, 0x90);
    assert_eq!(p.ctrl, 0x90);
    p.write_register(0x2009, 0x1E);
    assert_eq!(p.mask, 0x1E);
    assert_eq!(p.read_register(0x2000), 0);
}

#[test]
fn renders_background_row() {
    let mut p = Ppu::new();
    let mut chr = vec![0u8; 0x2000];
    chr[0] = 0x80;
    chr[8] = 0xC0;
    p.chr_rom = chr;
    p.palette[0] = 0x0F;
    p.palette[2] = 0x2A;
    p.palette[3] = 0x16;
    p.write_register(0x2001, 0x08);
    for _ in 0..257 {
        p.tick();
    }
    assert!(p.framebuffer.iter().all(|&b| b == 0));
    p.tick();
    let px = |i: usize| (p.framebuffer[3 * i], p.framebuffer[3 * i + 1], p.framebuffer[3 * i + 2]);
    assert_eq!(px(0), NES_PALETTE[0x16]);
    assert_eq!(px(1), NES_PALETTE[0x2A]);
    assert_eq!(px(2), NES_PALETTE[0x0F]);
    assert_eq!(px(8), NES_PALETTE[0x16]);
    assert_eq!(px(255), NES_PALETTE[0x0F]);
    assert_eq!(px(256), (0, 0, 0));
}

#[test]
fn rendering_off_leaves_framebuffer() {
    let mut p = Ppu::new();
    p.palette[0] = 0x30;
    for _ in 0..(341 * 262) {
        p.tick();
    }
    assert!(p.framebuffer.iter().all(|&b| b == 0));
}

/// A PPU with CHR-ROM whose tile 0 row 0 is opaque (colour 1) everywhere and
/// tile 1 fully opaque (colour 3); palettes set for background and sprites.
fn sprite_ppu() -> Ppu {
    let mut p = Ppu::new();
    let mut chr = vec![0u8; 0x2000];
    chr[0] = 0xFF;
    for r in 0..8 {
        chr[16 + r] = 0xFF;
        chr[16 + 8 + r] = 0xFF;
    }
    // Tile 2: only its leftmost column, colour 1.
    for r in 0..8 {
        chr[32 + r] = 0x80;
    }
    p.chr_rom = chr;
    p.palette[0] = 0x0F;
    p.palette[1] = 0x21;
    p.palette[0x13] = 0x16;
    p.palette[0x15] = 0x2A;
    p
}

fn run_to_end_of_line0(p: &mut Ppu) {
    for _ in 0..258 {
        p.tick();
    }
}

fn pixel(p: &Ppu, y: usize, x: usize) -> (u8, u8, u8) {
    let i = (y * 256 + x) * 3;
    (p.framebuffer[i], p.framebuffer[i + 1], p.framebuffer[i + 2])
}

#[test]
fn draws_sprites_over_background() {
    let mut p = sprite_ppu();
    // Sprite 0 at (10, 0), tile 1, palette 0.
    p.oam[0..4].copy_from_slice(&[0, 1, 0x00, 10]);
    p.write_register(0x2001, 0x10);
    run_to_end_of_line0(&mut p);
    assert_eq!(pixel(&p, 0, 9), (0, 0, 0));
    assert_eq!(pixel(&p, 0, 10), NES_PALETTE[0x16]);
    assert_eq!(pixel(&p, 0, 17), NES_PALETTE[0x16]);
    assert_eq!(pixel(&p, 0, 18), (0, 0, 0));
    // Sprites only: no Sprite 0 Hit without the background.
    assert_eq!(p.status & 0x40, 0);
}

#[test]
fn first_sprite_wins_and_flips() {
    let mut p = sprite_ppu();
    // Sprite 0: tile 2 flipped horizontally at x = 0 shows only at x = 7.
    p.oam[0..4].copy_from_slice(&[0, 2, 0x40, 0]);
    // Sprite 1: tile 1 with palette 1 under it.
    p.oam[4..8].copy_from_slice(&[0, 1, 0x01, 0]);
    p.palette[0x17] = 0x30;
    p.palette[0x11] = 0x05;
    p.write_register(0x2001, 0x10);
    run_to_end_of_line0(&mut p);
    assert_eq!(pixel(&p, 0, 7), NES_PALETTE[0x05]);
    assert_eq!(pixel(&p, 0, 0), NES_PALETTE[0x30]);
    assert_eq!(pixel(&p, 0, 6), NES_PALETTE[0x30]);
}

#[test]
fn sprite_zero_hit_over_opaque_background() {
    let mut p = sprite_ppu();
    p.oam[0..4].copy_from_slice(&[0, 1, 0x00, 40]);
    p.write_register(0x2001, 0x18);
    run_to_end_of_line0(&mut p);
    assert_eq!(p.status & 0x40, 0x40);
    assert_eq!(pixel(&p, 0, 40), NES_PALETTE[0x16]);
    assert_eq!(pixel(&p, 0, 39), NES_PALETTE[0x21]);
    // Cleared on the pre-render line.
    for _ in 0..(261 * 341 - 256) {
        p.tick();
    }
    assert_eq!(p.status & 0x40, 0);
}

#[test]
fn behind_background_priority() {
    let mut p = sprite_ppu();
    p.oam[0..4].copy_from_slice(&[0, 1, 0x20, 40]);
    p.write_register(0x2001, 0x18);
    run_to_end_of_line0(&mut p);
    assert_eq!(pixel(&p, 0, 40), NES_PALETTE[0x21]);
    // Still a hit: priority does not affect it.
    assert_eq!(p.status & 0x40, 0x40);
    // On row 1 the background is transparent, so the sprite shows.
    for _ in 0..341 {
        p.tick();
    }
    assert_eq!(pixel(&p, 1, 40), NES_PALETTE[0x16]);
}

#[test]
fn no_hit_in_last_column() {
    let mut p = sprite_ppu();
    p.oam[0..4].copy_from_slice(&[0, 2, 0x40, 248]);
    p.write_register(0x2001, 0x18);
    run_to_end_of_line0(&mut p);
    assert_eq!(p.status & 0x40, 0);
}

#[test]
fn single_screen_mirroring() {
    let mut p = Ppu::new();
    p.mirroring = Mirroring::SingleScreenHigh;
    set_addr(&mut p, 0x2810);
    p.write_register(0x2007, 0x42);
    assert_eq!(p.vram[0x410], 0x42);
    p.mirroring = Mirroring::SingleScreenLow;
    set_addr(&mut p, 0x2C20);
    p.write_register(0x2007, 0x43);
    assert_eq!(p.vram[0x020], 0x43);
}

#[test]
fn chr_ram_feeds_rendering() {
    let mut p = Ppu::new();
    p.chr_ram = vec![0u8; 0x2000];
    p.palette[0] = 0x0F;
    p.palette[1] = 0x21;
    set_addr(&mut p, 0x0000);
    p.write_register(0x2007, 0x80);
    assert_eq!(p.chr_ram[0], 0x80);
    p.write_register(0x2001, 0x08);
    run_to_end_of_line0(&mut p);
    assert_eq!(pixel(&p, 0, 0), NES_PALETTE[0x21]);
    assert_eq!(pixel(&p, 0, 1), NES_PALETTE[0x0F]);
}

#[test]
fn mmc1_chr_banks_select_patterns() {
    let mut p = Ppu::new();
    let mut chr = vec![0u8; 0x4000];
    chr[0x3000] = 0x80;
    p.chr_rom = chr;
    p.chr_mapper = 1;
    p.chr_control = 0x10;
    p.chr_bank0 = 3;
    p.palette[1] = 0x21;
    p.write_register(0x2001, 0x08);
    run_to_end_of_line0(&mut p);
    assert_eq!(pixel(&p, 0, 0), NES_PALETTE[0x21]);
}

#[test]
fn fine_horizontal_scroll() {
    let mut p = Ppu::new();
    let mut chr = vec![0u8; 0x2000];
    chr[0] = 0x10;
    p.chr_rom = chr;
    p.palette[0] = 0x0F;
    p.palette[1] = 0x21;
    p.write_register(0x2005, 3);
    p.write_register(0x2005, 0);
    p.write_register(0x2001, 0x08);
    run_to_end_of_line0(&mut p);
    assert_eq!(pixel(&p, 0, 0), NES_PALETTE[0x21]);
    assert_eq!(pixel(&p, 0, 1), NES_PALETTE[0x0F]);
    assert_eq!(pixel(&p, 0, 8), NES_PALETTE[0x21]);
    // Scrolling wraps around the 256-pixel row.
    assert_eq!(pixel(&p, 0, 253), NES_PALETTE[0x0F]);
}
