use vstd::prelude::*;

use crate::bits::{lemma_byte_bits, lemma_word_bits};
use crate::cartridge::Mirroring;
use vstd::arithmetic::power2::pow2;
use vstd::bits::lemma_u8_shr_is_div;

verus! {

/// The console's 64 master colours, as RGB.
pub const NES_PALETTE: [(u8, u8, u8); 64] = [
    (84,84,84),(0,30,116),(8,16,144),(48,0,136),(68,0,100),(92,0,48),(84,4,0),(60,24,0),
    (32,42,0),(8,58,0),(0,64,0),(0,60,0),(0,50,60),(0,0,0),(0,0,0),(0,0,0),
    (152,150,152),(8,76,196),(48,50,236),(92,30,228),(136,20,176),(160,20,100),(152,34,32),(120,60,0),
    (84,90,0),(40,114,0),(8,124,0),(0,118,40),(0,102,120),(0,0,0),(0,0,0),(0,0,0),
    (236,238,236),(76,154,236),(120,124,236),(176,98,236),(228,84,236),(236,88,180),(236,106,100),(212,136,32),
    (160,170,0),(116,196,0),(76,208,32),(56,204,108),(56,180,204),(60,60,60),(0,0,0),(0,0,0),
    (236,238,236),(168,204,236),(188,188,236),(212,178,236),(236,174,236),(236,174,212),(236,180,176),(228,196,144),
    (204,210,120),(180,222,120),(168,226,144),(152,226,180),(160,214,228),(160,162,160),(0,0,0),(0,0,0),
];

/// Visible picture width in pixels.
pub const SCREEN_WIDTH: usize = 256;

/// Visible picture height in scanlines.
pub const SCREEN_HEIGHT: usize = 240;

/// Bytes in the RGB framebuffer.
pub const FRAMEBUFFER_LEN: usize = 184320;

/// Dots per scanline.
pub const DOTS_PER_LINE: u16 = 341;

/// Scanlines per frame, the pre-render line included.
pub const LINES_PER_FRAME: i16 = 262;

/// The picture processing unit.
pub struct Ppu {
    pub vram: [u8; 2048],
    pub palette: [u8; 32],
    pub oam: [u8; 256],
    /// Pattern memory: the cartridge's CHR-ROM, or its CHR-RAM when it has none.
    pub chr_rom: Vec<u8>,
    pub chr_ram: Vec<u8>,
    /// The cartridge's mapper and, for MMC1, its control and CHR bank registers,
    /// which select the 4 KiB pattern banks.
    pub chr_mapper: u8,
    pub chr_control: u8,
    pub chr_bank0: u8,
    pub chr_bank1: u8,
    pub mirroring: Mirroring,
    pub ctrl: u8,
    pub mask: u8,
    pub status: u8,
    pub oam_addr: u8,
    pub scroll_x: u8,
    pub scroll_y: u8,
    pub vram_addr: u16,
    pub vram_addr_latch: bool,
    pub scroll_latch: bool,
    pub vram_read_buf: u8,
    pub scanline: i16,
    pub cycle: u16,
    pub frame: u64,
    pub nmi_triggered: bool,
    pub framebuffer: Vec<u8>,
}

/// The PPU's state as a mathematical value.
#[verifier::ext_equal]
pub struct PpuView {
    pub vram: Seq<u8>,
    pub palette: Seq<u8>,
    pub oam: Seq<u8>,
    pub chr_rom: Seq<u8>,
    pub chr_ram: Seq<u8>,
    pub chr_mapper: u8,
    pub chr_control: u8,
    pub chr_bank0: u8,
    pub chr_bank1: u8,
    pub mirroring: Mirroring,
    pub ctrl: u8,
    pub mask: u8,
    pub status: u8,
    pub oam_addr: u8,
    pub scroll_x: u8,
    pub scroll_y: u8,
    pub vram_addr: u16,
    pub vram_addr_latch: bool,
    pub scroll_latch: bool,
    pub vram_read_buf: u8,
    pub scanline: i16,
    pub cycle: u16,
    pub frame: u64,
    pub nmi_triggered: bool,
    pub framebuffer: Seq<u8>,
}

impl View for Ppu {
    type V = PpuView;

    open spec fn view(&self) -> PpuView {
        PpuView {
            vram: self.vram@,
            palette: self.palette@,
            oam: self.oam@,
            chr_rom: self.chr_rom@,
            chr_ram: self.chr_ram@,
            chr_mapper: self.chr_mapper,
            chr_control: self.chr_control,
            chr_bank0: self.chr_bank0,
            chr_bank1: self.chr_bank1,
            mirroring: self.mirroring,
            ctrl: self.ctrl,
            mask: self.mask,
            status: self.status,
            oam_addr: self.oam_addr,
            scroll_x: self.scroll_x,
            scroll_y: self.scroll_y,
            vram_addr: self.vram_addr,
            vram_addr_latch: self.vram_addr_latch,
            scroll_latch: self.scroll_latch,
            vram_read_buf: self.vram_read_buf,
            scanline: self.scanline,
            cycle: self.cycle,
            frame: self.frame,
            nmi_triggered: self.nmi_triggered,
            framebuffer: self.framebuffer@,
        }
    }
}

// ---------------------------------------------------------------------------
// The PPU address space
// ---------------------------------------------------------------------------

/// Index in the 2 KiB VRAM of nametable address `addr` ($2000-$3EFF and mirrors):
/// vertical mirroring keeps tables 0/1 apart and folds 2/3 onto them,
/// horizontal folds 0/1 together and 2/3 together; single-screen arrangements use
/// the first (low) or second (high) kilobyte for all four; four-screen, which would
/// need cartridge VRAM, uses the first.
pub open spec fn vram_index(addr: u16, mirroring: Mirroring) -> int {
    let rel = (addr & 0x0FFF) as int;
    let table = rel / 0x400;
    let offset = rel % 0x400;
    let physical = match mirroring {
        Mirroring::Vertical => table % 2,
        Mirroring::Horizontal => table / 2,
        Mirroring::SingleScreenHigh => 1,
        _ => 0,
    };
    physical * 0x400 + offset
}

/// Index in palette RAM of palette address `addr` (>= $3F00): 32 entries mirrored,
/// and the backdrop entries of the sprite palettes alias those of the background.
pub open spec fn palette_slot(addr: u16) -> int {
    let idx = (addr as int - 0x3F00) % 32;
    if idx == 0x10 || idx == 0x14 || idx == 0x18 || idx == 0x1C {
        idx - 0x10
    } else {
        idx
    }
}

/// Pattern byte at `a` ($0000-$1FFF): CHR-RAM when there is no CHR-ROM (0 past
/// its end); with MMC1, the 8 KiB bank (bit 0 ignored) or the two 4 KiB banks that
/// its registers select; otherwise CHR-ROM itself. ROM offsets wrap at its size.
pub open spec fn pattern_byte(p: PpuView, a: int) -> u8 {
    let len = p.chr_rom.len() as int;
    if len == 0 {
        if a < p.chr_ram.len() {
            p.chr_ram[a]
        } else {
            0
        }
    } else if p.chr_mapper == 1 {
        if (p.chr_control / 16) % 2 == 0 {
            p.chr_rom[((p.chr_bank0 / 2) * 2 * 0x2000 + a) % len]
        } else if a < 0x1000 {
            p.chr_rom[(p.chr_bank0 * 0x1000 + a) % len]
        } else {
            p.chr_rom[(p.chr_bank1 * 0x1000 + a - 0x1000) % len]
        }
    } else {
        p.chr_rom[a % len]
    }
}

/// Byte of the PPU address space at `addr` (pattern tables, nametables, palette).
pub open spec fn ppu_byte(p: PpuView, addr: u16) -> u8 {
    let a = addr & 0x3FFF;
    if a <= 0x1FFF {
        pattern_byte(p, a as int)
    } else if a <= 0x3EFF {
        p.vram[vram_index(a, p.mirroring)]
    } else {
        p.palette[palette_slot(a)]
    }
}

/// Step of PPUADDR after a PPUDATA access: 32 (down a row) when PPUCTRL bit 2 is set, else 1.
pub open spec fn vram_increment(ctrl: u8) -> u16 {
    if ctrl & 0x04 != 0 {
        32
    } else {
        1
    }
}

pub open spec fn wrapping_add_u16(a: u16, b: u16) -> u16 {
    ((a as int + b as int) % 0x10000) as u16
}

// ---------------------------------------------------------------------------
// Registers
// ---------------------------------------------------------------------------

/// A CPU read of PPU register `addr` (only its low three bits select the register):
/// the new PPU state and the value read.
pub open spec fn register_read(p: PpuView, addr: u16) -> (PpuView, u8) {
    let reg = addr & 0x0007;
    if reg == 2 {
        // PPUSTATUS: top three bits of status over stale bus bits; clears VBlank and both latches.
        let val = (p.status & 0xE0) | (p.vram_read_buf & 0x1F);
        (PpuView { status: p.status & !0x80u8, vram_addr_latch: false, scroll_latch: false, ..p }, val)
    } else if reg == 4 {
        (p, p.oam[p.oam_addr as int])
    } else if reg == 7 {
        // PPUDATA: palette reads are immediate, other reads return the buffer,
        // which nametable reads refill.
        let a = p.vram_addr & 0x3FFF;
        let next_addr = wrapping_add_u16(p.vram_addr, vram_increment(p.ctrl));
        if a >= 0x3F00 {
            (PpuView { vram_addr: next_addr, ..p }, p.palette[palette_slot(a)])
        } else {
            let buf = if 0x2000 <= a <= 0x3EFF {
                p.vram[vram_index(a, p.mirroring)]
            } else {
                p.vram_read_buf
            };
            (PpuView { vram_addr: next_addr, vram_read_buf: buf, ..p }, p.vram_read_buf)
        }
    } else {
        (p, 0)
    }
}

/// A CPU write of `value` to PPU register `addr` (low three bits select the register).
pub open spec fn register_write(p: PpuView, addr: u16, value: u8) -> PpuView {
    let reg = addr & 0x0007;
    if reg == 0 {
        PpuView { ctrl: value, ..p }
    } else if reg == 1 {
        PpuView { mask: value, ..p }
    } else if reg == 3 {
        PpuView { oam_addr: value, ..p }
    } else if reg == 4 {
        PpuView {
            oam: p.oam.update(p.oam_addr as int, value),
            oam_addr: ((p.oam_addr as int + 1) % 256) as u8,
            ..p
        }
    } else if reg == 5 {
        // PPUSCROLL: X first, then Y.
        if !p.scroll_latch {
            PpuView { scroll_x: value, scroll_latch: true, ..p }
        } else {
            PpuView { scroll_y: value, scroll_latch: false, ..p }
        }
    } else if reg == 6 {
        // PPUADDR: high byte first, then low byte.
        if !p.vram_addr_latch {
            PpuView {
                vram_addr: ((p.vram_addr & 0x00FF) as int + value as int * 256) as u16,
                vram_addr_latch: true,
                ..p
            }
        } else {
            PpuView {
                vram_addr: ((p.vram_addr & 0xFF00) as int + value as int) as u16,
                vram_addr_latch: false,
                ..p
            }
        }
    } else if reg == 7 {
        let a = p.vram_addr & 0x3FFF;
        let next_addr = wrapping_add_u16(p.vram_addr, vram_increment(p.ctrl));
        if a >= 0x3F00 {
            PpuView { palette: p.palette.update(palette_slot(a), value), vram_addr: next_addr, ..p }
        } else if a >= 0x2000 {
            PpuView {
                vram: p.vram.update(vram_index(a, p.mirroring), value),
                vram_addr: next_addr,
                ..p
            }
        } else if p.chr_rom.len() == 0 && (a as int) < p.chr_ram.len() {
            // Pattern space: CHR-RAM takes the write; CHR-ROM ignores it.
            PpuView { chr_ram: p.chr_ram.update(a as int, value), vram_addr: next_addr, ..p }
        } else {
            PpuView { vram_addr: next_addr, ..p }
        }
    } else {
        p
    }
}

// ---------------------------------------------------------------------------
// Background rendering
// ---------------------------------------------------------------------------

/// Nametable chosen by PPUCTRL bits 0-1.
pub open spec fn nametable_base(ctrl: u8) -> u16 {
    let n = ctrl & 0x03;
    if n == 0 {
        0x2000
    } else if n == 1 {
        0x2400
    } else if n == 2 {
        0x2800
    } else {
        0x2C00
    }
}

/// Background pattern table chosen by PPUCTRL bit 4.
pub open spec fn pattern_base(ctrl: u8) -> u16 {
    if ctrl & 0x10 != 0 {
        0x1000
    } else {
        0
    }
}

/// Palette address of background pixel `px` (0-255) on scanline `y` (0-239):
/// the tile under the position scrolled by PPUSCROLL to the pixel (horizontally
/// and vertically), its attribute palette and the two pattern bits. The scrolled
/// position wraps within the nametable PPUCTRL selects.
pub open spec fn background_palette_addr(p: PpuView, y: int, px: int) -> u16 {
    let scrolled_y = (y + p.scroll_y as int) % 240;
    let tile_row = scrolled_y / 8;
    let fine_y = scrolled_y % 8;
    let scrolled_x = (px + p.scroll_x as int) % 256;
    let col = scrolled_x / 8;
    let nt = nametable_base(p.ctrl) as int;
    let tile = ppu_byte(p, (nt + tile_row * 32 + col) as u16) as int;
    let attr = ppu_byte(p, (nt + 0x03C0 + (tile_row / 4) * 8 + col / 4) as u16);
    let shift = (((tile_row % 4 / 2) * 2 + (col % 4 / 2)) * 2) as u8;
    let pal = (attr >> shift) & 0x03;
    let row_addr = pattern_base(p.ctrl) as int + tile * 16 + fine_y;
    let lo = ppu_byte(p, row_addr as u16);
    let hi = ppu_byte(p, (row_addr + 8) as u16);
    let bit = (7 - scrolled_x % 8) as u8;
    let color = ((hi >> bit) & 1) * 2 + ((lo >> bit) & 1);
    if color == 0 {
        0x3F00
    } else {
        (0x3F00 + pal as int * 4 + color as int) as u16
    }
}

/// Master colour (0-63) of background pixel `px` on scanline `y`.
pub open spec fn background_color(p: PpuView, y: int, px: int) -> int {
    (ppu_byte(p, background_palette_addr(p, y, px)) & 0x3F) as int
}

/// Component `k` (0 red, 1 green, 2 blue) of master colour `c`.
pub open spec fn rgb_component(c: int, k: int) -> u8 {
    let (r, g, b) = NES_PALETTE[c];
    if k == 0 {
        r
    } else if k == 1 {
        g
    } else {
        b
    }
}

/// The framebuffer after drawing the background of scanline `y`:
/// that row holds the RGB of each pixel, the rest is unchanged.
pub open spec fn render_row(p: PpuView, y: int) -> Seq<u8> {
    Seq::new(
        p.framebuffer.len(),
        |i: int|
            if y * 768 <= i < (y + 1) * 768 {
                rgb_component(background_color(p, y, (i - y * 768) / 3), (i - y * 768) % 3)
            } else {
                p.framebuffer[i]
            },
    )
}

// ---------------------------------------------------------------------------
// Sprites
// ---------------------------------------------------------------------------

/// Sprite pattern table chosen by PPUCTRL bit 3.
pub open spec fn sprite_pattern_base(ctrl: u8) -> int {
    if (ctrl / 8) % 2 == 1 {
        0x1000
    } else {
        0
    }
}

/// Colour index (0 transparent, 1-3) of 8x8 sprite `i` at pixel `x` of scanline
/// `y`. OAM holds four bytes per sprite: top line, tile, attributes (bit 7
/// vertical flip, bit 6 horizontal flip, bit 5 behind the background, bits 0-1
/// palette) and left column.
pub open spec fn sprite_pixel(p: PpuView, i: int, y: int, x: int) -> int {
    let sy = p.oam[4 * i] as int;
    let tile = p.oam[4 * i + 1] as int;
    let attr = p.oam[4 * i + 2];
    let sx = p.oam[4 * i + 3] as int;
    if sy <= y < sy + 8 && sx <= x < sx + 8 {
        let row = if attr >= 0x80 {
            7 - (y - sy)
        } else {
            y - sy
        };
        let bit = (if (attr / 64) % 2 == 1 {
            x - sx
        } else {
            7 - (x - sx)
        }) as u8;
        let addr = sprite_pattern_base(p.ctrl) + tile * 16 + row;
        let lo = ppu_byte(p, addr as u16);
        let hi = ppu_byte(p, (addr + 8) as u16);
        ((hi >> bit) & 1) * 2 + ((lo >> bit) & 1)
    } else {
        0
    }
}

/// The first sprite, from `i` on, with an opaque pixel at (`x`, `y`); 64 if none.
pub open spec fn first_sprite(p: PpuView, y: int, x: int, i: int) -> int
    decreases 64 - i,
{
    if i >= 64 {
        64
    } else if sprite_pixel(p, i, y, x) != 0 {
        i
    } else {
        first_sprite(p, y, x, i + 1)
    }
}

/// The background is drawn and opaque at pixel `x` of scanline `y`.
pub open spec fn bg_opaque(p: PpuView, y: int, x: int) -> bool {
    p.mask & 0x08 != 0 && background_palette_addr(p, y, x) != 0x3F00
}

/// A sprite shows at (`x`, `y`): the first sprite with an opaque pixel there,
/// unless it lies behind an opaque background.
pub open spec fn sprite_shown(p: PpuView, y: int, x: int) -> bool {
    let j = first_sprite(p, y, x, 0);
    j < 64 && !((p.oam[4 * j + 2] / 32) % 2 == 1 && bg_opaque(p, y, x))
}

/// Master colour (0-63) of the first opaque sprite at (`x`, `y`), from the
/// sprite palettes at $3F10.
pub open spec fn sprite_color(p: PpuView, y: int, x: int) -> int {
    let j = first_sprite(p, y, x, 0);
    (ppu_byte(p, (0x3F10 + (p.oam[4 * j + 2] % 4) * 4 + sprite_pixel(p, j, y, x)) as u16) & 0x3F) as int
}

/// The framebuffer after drawing the sprites of scanline `y` over it.
pub open spec fn render_sprite_row(p: PpuView, y: int) -> Seq<u8> {
    Seq::new(
        p.framebuffer.len(),
        |i: int|
            if y * 768 <= i < (y + 1) * 768 && sprite_shown(p, y, (i - y * 768) / 3) {
                rgb_component(sprite_color(p, y, (i - y * 768) / 3), (i - y * 768) % 3)
            } else {
                p.framebuffer[i]
            },
    )
}

/// Sprite 0 has an opaque pixel over an opaque background at one of the first `n`
/// pixels of scanline `y`.
pub open spec fn sprite0_hit_before(p: PpuView, y: int, n: int) -> bool
    decreases n,
{
    if n <= 0 {
        false
    } else {
        sprite0_hit_before(p, y, n - 1) || (sprite_pixel(p, 0, y, n - 1) != 0 && bg_opaque(
            p,
            y,
            n - 1,
        ))
    }
}

// ---------------------------------------------------------------------------
// Timing
// ---------------------------------------------------------------------------

/// Position of the beam within the frame, counted in dots.
pub open spec fn beam_position(p: PpuView) -> int {
    p.scanline as int * DOTS_PER_LINE as int + p.cycle as int
}

/// Dots per frame.
pub open spec fn dots_per_frame() -> int {
    DOTS_PER_LINE as int * LINES_PER_FRAME as int
}

/// One PPU dot: VBlank starts at (241, 1) and may raise NMI, the pre-render line
/// clears the status flags at (261, 1), a visible line is drawn at dot 257 (its
/// background when enabled, then its sprites when enabled, with Sprite 0 Hit),
/// then the beam advances. Also whether a frame completed.
pub open spec fn tick_result(p: PpuView) -> (PpuView, bool) {
    let p1 = if p.scanline == 241 && p.cycle == 1 {
        PpuView {
            status: p.status | 0x80,
            nmi_triggered: p.nmi_triggered || p.ctrl & 0x80 != 0,
            ..p
        }
    } else {
        p
    };
    let p2 = if p1.scanline == 261 && p1.cycle == 1 {
        PpuView { status: p1.status & 0x1F, ..p1 }
    } else {
        p1
    };
    let p3 = if p2.scanline < 240 && p2.cycle == 257 && p2.mask & 0x08 != 0 {
        PpuView { framebuffer: render_row(p2, p2.scanline as int), ..p2 }
    } else {
        p2
    };
    // Sprites over the background; sprite 0 over an opaque background pixel
    // (other than the last column) sets the Sprite 0 Hit flag.
    let p4 = if p3.scanline < 240 && p3.cycle == 257 && p3.mask & 0x10 != 0 {
        PpuView {
            framebuffer: render_sprite_row(p3, p3.scanline as int),
            status: if sprite0_hit_before(p3, p3.scanline as int, 255) {
                p3.status | 0x40
            } else {
                p3.status
            },
            ..p3
        }
    } else {
        p3
    };
    if p4.cycle + 1 > 340 {
        if p4.scanline + 1 > 261 {
            (PpuView { cycle: 0, scanline: 0, frame: ((p4.frame + 1) % 0x1_0000_0000_0000_0000) as u64, ..p4 }, true)
        } else {
            (PpuView { cycle: 0, scanline: (p4.scanline + 1) as i16, ..p4 }, false)
        }
    } else {
        (PpuView { cycle: (p4.cycle + 1) as u16, ..p4 }, false)
    }
}

/// The PPU at power-on: memories cleared, registers zero, beam at the top left.
pub open spec fn power_on() -> PpuView {
    PpuView {
        vram: Seq::new(2048, |i: int| 0u8),
        palette: Seq::new(32, |i: int| 0u8),
        oam: Seq::new(256, |i: int| 0u8),
        chr_rom: Seq::empty(),
        chr_ram: Seq::empty(),
        chr_mapper: 0,
        chr_control: 0,
        chr_bank0: 0,
        chr_bank1: 0,
        mirroring: Mirroring::Horizontal,
        ctrl: 0,
        mask: 0,
        status: 0,
        oam_addr: 0,
        scroll_x: 0,
        scroll_y: 0,
        vram_addr: 0,
        vram_addr_latch: false,
        scroll_latch: false,
        vram_read_buf: 0,
        scanline: 0,
        cycle: 0,
        frame: 0,
        nmi_triggered: false,
        framebuffer: Seq::new(FRAMEBUFFER_LEN as nat, |i: int| 0u8),
    }
}

impl PpuView {
    /// Same beam position, frame count and framebuffer size: what register
    /// accesses leave alone.
    pub open spec fn same_beam(self, other: PpuView) -> bool {
        &&& self.scanline == other.scanline
        &&& self.cycle == other.cycle
        &&& self.frame == other.frame
        &&& self.framebuffer.len() == other.framebuffer.len()
    }

    /// Whether this dot draws a scanline of background or sprites.
    pub open spec fn renders_now(self) -> bool {
        self.scanline < 240 && self.cycle == 257 && (self.mask & 0x08 != 0 || self.mask & 0x10 != 0)
    }

    /// Inputs on which a dot neither overflows a counter nor draws outside the framebuffer.
    pub open spec fn can_tick(self) -> bool {
        &&& self.cycle < 0xFFFF
        &&& self.cycle >= 340 ==> self.scanline < 0x7FFF
        &&& self.renders_now() ==> self.scanline >= 0 && self.framebuffer.len()
            == FRAMEBUFFER_LEN
    }

    /// The beam is inside the frame and the framebuffer has its full size.
    pub open spec fn wf(self) -> bool {
        &&& 0 <= self.scanline < LINES_PER_FRAME
        &&& self.cycle < DOTS_PER_LINE
        &&& self.framebuffer.len() == FRAMEBUFFER_LEN
    }
}

/// A well-formed PPU can always run a dot.
pub proof fn lemma_wf_can_tick(p: PpuView)
    requires
        p.wf(),
    ensures
        p.can_tick(),
{
}

/// Dot timing: every dot moves the beam one position forward in the frame of
/// 341 x 262 dots, wrapping at its end; the frame counter advances (and `tick`
/// reports a complete frame) exactly on that wrap. Well-formedness is kept.
pub proof fn lemma_tick_timing(p: PpuView)
    requires
        p.wf(),
    ensures
        tick_result(p).0.wf(),
        beam_position(tick_result(p).0) == (beam_position(p) + 1) % dots_per_frame(),
        tick_result(p).1 == (beam_position(p) == dots_per_frame() - 1),
        tick_result(p).0.frame == if tick_result(p).1 {
            ((p.frame + 1) % 0x1_0000_0000_0000_0000) as u64
        } else {
            p.frame
        },
{
    let s = p.scanline as int;
    let c = p.cycle as int;
    let pos = beam_position(p);
    assert(pos == s * 341 + c);
    assert(s * 341 <= 260 * 341 || s == 261) by (nonlinear_arith)
        requires
            0 <= s <= 261,
    ;
    assert((s + 1) * 341 == s * 341 + 341) by (nonlinear_arith);
    assert(0 <= s * 341) by (nonlinear_arith)
        requires
            0 <= s,
    ;
    let q = tick_result(p).0;
    if c + 1 > 340 && s + 1 > 261 {
        assert(pos == dots_per_frame() - 1);
        assert(beam_position(q) == 0);
        vstd::arithmetic::div_mod::lemma_mod_self_0(dots_per_frame());
    } else {
        assert(pos + 1 < dots_per_frame());
        if c + 1 > 340 {
            assert(beam_position(q) == (s + 1) * 341);
        } else {
            assert(beam_position(q) == s * 341 + c + 1);
        }
        assert(beam_position(q) == pos + 1);
        vstd::arithmetic::div_mod::lemma_small_mod((pos + 1) as nat, dots_per_frame() as nat);
    }
}

/// The register that each CPU address $2000-$2007 selects.
pub proof fn lemma_register_select()
    ensures
        0x2000u16 & 0x0007 == 0,
        0x2001u16 & 0x0007 == 1,
        0x2002u16 & 0x0007 == 2,
        0x2003u16 & 0x0007 == 3,
        0x2004u16 & 0x0007 == 4,
        0x2005u16 & 0x0007 == 5,
        0x2006u16 & 0x0007 == 6,
        0x2007u16 & 0x0007 == 7,
{
    assert(0x2000u16 & 0x0007 == 0) by { lemma_word_bits(); }
    assert(0x2001u16 & 0x0007 == 1) by { lemma_word_bits(); }
    assert(0x2002u16 & 0x0007 == 2) by { lemma_word_bits(); }
    assert(0x2003u16 & 0x0007 == 3) by { lemma_word_bits(); }
    assert(0x2004u16 & 0x0007 == 4) by { lemma_word_bits(); }
    assert(0x2005u16 & 0x0007 == 5) by { lemma_word_bits(); }
    assert(0x2006u16 & 0x0007 == 6) by { lemma_word_bits(); }
    assert(0x2007u16 & 0x0007 == 7) by { lemma_word_bits(); }
}

/// Reading PPUSTATUS reports VBlank in bit 7, then clears it and both write latches.
pub proof fn lemma_status_read(p: PpuView)
    ensures
        ({
            let (q, v) = register_read(p, 0x2002);
            &&& v & 0x80 == p.status & 0x80
            &&& q.status & 0x80 == 0
            &&& !q.vram_addr_latch
            &&& !q.scroll_latch
        }),
{
    lemma_register_select();
    let s = p.status;
    let b = p.vram_read_buf;
    assert(((s & 0xE0) | (b & 0x1F)) & 0x80 == s & 0x80 && (s & !0x80u8) & 0x80 == 0) by (bit_vector);
}

/// Two PPUADDR writes, high byte then low byte, set the VRAM address and leave
/// the latch ready for the next pair.
pub proof fn lemma_ppuaddr_pair(p: PpuView, hi: u8, lo: u8)
    requires
        !p.vram_addr_latch,
    ensures
        register_write(register_write(p, 0x2006, hi), 0x2006, lo).vram_addr == hi as int * 256
            + lo as int,
        !register_write(register_write(p, 0x2006, hi), 0x2006, lo).vram_addr_latch,
        register_write(register_write(p, 0x2006, hi), 0x2006, lo) == (PpuView {
            vram_addr: (hi as int * 256 + lo as int) as u16,
            ..p
        }),
{
    lemma_register_select();
    let a = p.vram_addr;
    let h = hi as u16;
    assert(a & 0x00FF <= 0xFF) by { lemma_word_bits(); }
    let a1 = ((a & 0x00FF) as int + hi as int * 256) as u16;
    assert(a1 & 0xFF00 == h * 256) by { lemma_word_bits(); }
}

/// A palette entry written through PPUDATA reads back through PPUDATA once the
/// address is set again (palette reads are not buffered).
pub proof fn lemma_palette_round_trip(p: PpuView, hi: u8, lo: u8, value: u8)
    requires
        !p.vram_addr_latch,
        p.palette.len() == 32,
        (hi as int * 256 + lo as int) % 0x4000 >= 0x3F00,
    ensures
        ({
            let p1 = register_write(register_write(p, 0x2006, hi), 0x2006, lo);
            let p2 = register_write(p1, 0x2007, value);
            let p3 = register_write(register_write(p2, 0x2006, hi), 0x2006, lo);
            register_read(p3, 0x2007).1 == value
        }),
{
    lemma_register_select();
    let p1 = register_write(register_write(p, 0x2006, hi), 0x2006, lo);
    lemma_ppuaddr_pair(p, hi, lo);
    let p2 = register_write(p1, 0x2007, value);
    lemma_ppuaddr_pair(p2, hi, lo);
    let a = p1.vram_addr;
    assert(a & 0x3FFF == a % 0x4000) by { lemma_word_bits(); }
    let pa = a & 0x3FFF;
    assert(0 <= palette_slot(pa) < 32);
}

/// A nametable byte written through PPUDATA reads back through PPUDATA one read
/// late: once the address is set again, the first read returns the stale buffer
/// and refills it, and the second returns the byte written. (Excluded: an
/// address whose successor lands in palette space, where reads are not buffered.)
#[verifier::spinoff_prover]
pub proof fn lemma_vram_round_trip(p: PpuView, hi: u8, lo: u8, value: u8)
    requires
        !p.vram_addr_latch,
        p.vram.len() == 2048,
        0x2000 <= (hi as int * 256 + lo as int) % 0x4000,
        (hi as int * 256 + lo as int) % 0x4000 + vram_increment(p.ctrl) < 0x3F00,
    ensures
        ({
            let p1 = register_write(register_write(p, 0x2006, hi), 0x2006, lo);
            let p2 = register_write(p1, 0x2007, value);
            let p3 = register_write(register_write(p2, 0x2006, hi), 0x2006, lo);
            let p4 = register_read(p3, 0x2007).0;
            register_read(p4, 0x2007).1 == value
        }),
{
    lemma_register_select();
    let v = (hi as int * 256 + lo as int) as u16;
    let inc = vram_increment(p.ctrl);
    lemma_ppuaddr_pair(p, hi, lo);
    let p1 = register_write(register_write(p, 0x2006, hi), 0x2006, lo);
    assert(p1 == PpuView { vram_addr: v, ..p });
    lemma_bus_address(v);
    let a = v & 0x3FFF;
    let slot = vram_index(a, p.mirroring);
    let p2 = register_write(p1, 0x2007, value);
    assert(p2.vram == p.vram.update(slot, value));
    assert(!p2.vram_addr_latch && p2.ctrl == p.ctrl && p2.mirroring == p.mirroring);
    lemma_ppuaddr_pair(p2, hi, lo);
    let p3 = register_write(register_write(p2, 0x2006, hi), 0x2006, lo);
    assert(p3 == PpuView { vram_addr: v, ..p2 });
    let p4 = register_read(p3, 0x2007).0;
    assert(p4.vram_read_buf == value);
    lemma_ppudata_step(v, inc);
}

/// The 14-bit PPU bus address of `v`, and the VRAM slot it selects.
proof fn lemma_bus_address(v: u16)
    ensures
        v & 0x3FFF == v % 0x4000,
        forall|m: Mirroring| 0 <= #[trigger] vram_index(v & 0x3FFF, m) < 2048,
{
    let a = v & 0x3FFF;
    assert(v & 0x3FFF == v % 0x4000 && a & 0x0FFF == a % 0x1000) by { lemma_word_bits(); }
}

/// PPUDATA's address step seen through the 14-bit PPU bus, when it stays below
/// palette space.
proof fn lemma_ppudata_step(v: u16, inc: u16)
    requires
        (v as int % 0x4000) + inc < 0x3F00,
    ensures
        wrapping_add_u16(v, inc) & 0x3FFF == (v & 0x3FFF) + inc,
{
    let next = wrapping_add_u16(v, inc);
    assert(next & 0x3FFF == next % 0x4000 && v & 0x3FFF == v % 0x4000) by { lemma_word_bits(); }
    vstd::arithmetic::div_mod::lemma_mod_mod(v as int + inc as int, 0x4000, 4);
    vstd::arithmetic::div_mod::lemma_add_mod_noop(v as int, inc as int, 0x4000);
    vstd::arithmetic::div_mod::lemma_mod_twice(v as int, 0x4000);
}

/// A background pixel takes its palette from the attribute byte of its 32x32
/// area, two bits per 16x16 quadrant: bits 0-1 top-left, 2-3 top-right, 4-5
/// bottom-left, 6-7 bottom-right. An opaque pixel's palette address is
/// $3F00 + 4 * palette + colour, colour 1-3; a transparent one shows $3F00.
pub proof fn lemma_attribute_quadrants(p: PpuView, y: int, px: int)
    requires
        0 <= y < 240,
        0 <= px < 256,
    ensures
        ({
            let row = ((y + p.scroll_y as int) % 240) / 8;
            let col = ((px + p.scroll_x as int) % 256) / 8;
            let attr = ppu_byte(
                p,
                (nametable_base(p.ctrl) as int + 0x3C0 + (row / 4) * 8 + col / 4) as u16,
            );
            let top = row % 4 < 2;
            let left = col % 4 < 2;
            let pal = if top && left {
                attr % 4
            } else if top {
                (attr / 4) % 4
            } else if left {
                (attr / 16) % 4
            } else {
                attr / 64
            };
            let a = background_palette_addr(p, y, px);
            a == 0x3F00 || (a - 0x3F00 == pal * 4 + (a - 0x3F00) % 4 && 1 <= (a - 0x3F00) % 4)
        }),
{
    lemma_byte_bits();
    let row = ((y + p.scroll_y as int) % 240) / 8;
    let col = ((px + p.scroll_x as int) % 256) / 8;
    let attr = ppu_byte(p, (nametable_base(p.ctrl) as int + 0x3C0 + (row / 4) * 8 + col / 4) as u16);
    let shift = (((row % 4 / 2) * 2 + (col % 4 / 2)) * 2) as u8;
    let pal = (attr >> shift) & 0x03;
    if row % 4 < 2 && col % 4 < 2 {
        assert(shift == 0);
        assert(pal == attr % 4);
    } else if row % 4 < 2 {
        assert(shift == 2);
        assert(pal == (attr / 4) % 4);
    } else if col % 4 < 2 {
        assert(shift == 4);
        assert(pal == (attr / 16) % 4);
    } else {
        assert(shift == 6);
        assert(pal == attr / 64);
    }
}

/// Bit `k` (0 = least significant) of a byte.
pub open spec fn bit_of(b: u8, k: int) -> int {
    (b as int / pow2(k as nat) as int) % 2
}

/// A background pixel's colour number comes from its tile's two pattern planes:
/// the tile number is read from the nametable at the scrolled tile position, the
/// row `fine_y` of its pattern gives a low-plane byte and, 8 bytes on, a high-plane
/// byte, and pixel `j` of the row (0 = leftmost) takes bit `7 - j` of the low plane
/// plus twice that bit of the high plane. Colour 0 shows the backdrop entry $3F00;
/// any other colour `c` picks entry `c` of the tile's palette.
pub proof fn lemma_pattern_pixel(p: PpuView, y: int, px: int)
    requires
        0 <= y < 240,
        0 <= px < 256,
    ensures
        ({
            let sy = (y + p.scroll_y as int) % 240;
            let sx = (px + p.scroll_x as int) % 256;
            let nt = nametable_base(p.ctrl) as int;
            let tile = ppu_byte(p, (nt + (sy / 8) * 32 + sx / 8) as u16) as int;
            let row_addr = pattern_base(p.ctrl) as int + tile * 16 + sy % 8;
            let lo = ppu_byte(p, row_addr as u16);
            let hi = ppu_byte(p, (row_addr + 8) as u16);
            let k = 7 - sx % 8;
            let color = 2 * bit_of(hi, k) + bit_of(lo, k);
            let a = background_palette_addr(p, y, px) as int;
            &&& color == 0 ==> a == 0x3F00
            &&& color != 0 ==> a != 0x3F00 && a % 4 == color && 0x3F01 <= a <= 0x3F0F
        }),
{
    lemma_byte_bits();
    let sy = (y + p.scroll_y as int) % 240;
    let sx = (px + p.scroll_x as int) % 256;
    let nt = nametable_base(p.ctrl) as int;
    let tile = ppu_byte(p, (nt + (sy / 8) * 32 + sx / 8) as u16) as int;
    let row_addr = pattern_base(p.ctrl) as int + tile * 16 + sy % 8;
    let lo = ppu_byte(p, row_addr as u16);
    let hi = ppu_byte(p, (row_addr + 8) as u16);
    let bit = (7 - sx % 8) as u8;
    lemma_u8_shr_is_div(lo, bit);
    lemma_u8_shr_is_div(hi, bit);
    let attr = ppu_byte(p, (nt + 0x03C0 + (sy / 8 / 4) * 8 + (sx / 8) / 4) as u16);
    let shift = ((((sy / 8) % 4 / 2) * 2 + ((sx / 8) % 4 / 2)) * 2) as u8;
    let pal = (attr >> shift) & 0x03;
    assert(pal < 4);
}

/// OAMADDR selects the sprite byte that OAMDATA writes and reads.
pub proof fn lemma_oam_round_trip(p: PpuView, addr: u8, value: u8)
    requires
        p.oam.len() == 256,
    ensures
        ({
            let p1 = register_write(register_write(p, 0x2003, addr), 0x2004, value);
            register_read(register_write(p1, 0x2003, addr), 0x2004).1 == value
        }),
{
    lemma_register_select();
}

/// Palette RAM repeats every 32 bytes, and the backdrop entries of the sprite
/// palettes ($3F10/$3F14/$3F18/$3F1C) are those of the background palettes.
pub proof fn lemma_palette_mirrors(addr: u16, k: u16)
    requires
        0x3F00 <= addr <= 0xFFDF,
        k < 4,
    ensures
        palette_slot((addr + 32) as u16) == palette_slot(addr),
        palette_slot((0x3F10 + 4 * k) as u16) == palette_slot((0x3F00 + 4 * k) as u16),
        0 <= palette_slot(addr) < 32,
{
    vstd::arithmetic::div_mod::lemma_mod_add_multiples_vanish(addr as int - 0x3F00, 32);
}

/// Nametable mirroring: horizontal arrangement folds $2400 onto $2000 (and $2C00
/// onto $2800), vertical folds $2800 onto $2000 (and $2C00 onto $2400), and the
/// region $3000-$3EFF repeats $2000-$2EFF. Single-screen arrangements show one
/// kilobyte everywhere: the first (low) or the second (high). Every nametable
/// address lands in the 2 KiB.
pub proof fn lemma_nametable_mirrors(offset: u16, addr: u16, m: Mirroring)
    requires
        offset < 0x400,
        0x2000 <= addr < 0x2F00,
    ensures
        vram_index((0x2400 + offset) as u16, Mirroring::Horizontal) == vram_index(
            (0x2000 + offset) as u16,
            Mirroring::Horizontal,
        ),
        vram_index((0x2C00 + offset) as u16, Mirroring::Horizontal) == vram_index(
            (0x2800 + offset) as u16,
            Mirroring::Horizontal,
        ),
        vram_index((0x2800 + offset) as u16, Mirroring::Vertical) == vram_index(
            (0x2000 + offset) as u16,
            Mirroring::Vertical,
        ),
        vram_index((0x2C00 + offset) as u16, Mirroring::Vertical) == vram_index(
            (0x2400 + offset) as u16,
            Mirroring::Vertical,
        ),
        vram_index((addr + 0x1000) as u16, m) == vram_index(addr, m),
        0 <= vram_index(addr, m) < 2048,
        vram_index(addr, Mirroring::SingleScreenLow) == (addr - 0x2000) % 0x400,
        vram_index(addr, Mirroring::SingleScreenHigh) == 0x400 + (addr - 0x2000) % 0x400,
{
    let o = offset;
    let x0 = (0x2000 + o) as u16;
    let x1 = (0x2400 + o) as u16;
    let x2 = (0x2800 + o) as u16;
    let x3 = (0x2C00 + o) as u16;
    let y = (addr + 0x1000) as u16;
    assert(x0 & 0x0FFF == o && x1 & 0x0FFF == 0x400 + o && x2 & 0x0FFF == 0x800 + o && x3 & 0x0FFF
        == 0xC00 + o) by { lemma_word_bits(); }
    assert(y & 0x0FFF == addr & 0x0FFF) by { lemma_word_bits(); }
    assert(addr & 0x0FFF <= 0x0FFF) by { lemma_word_bits(); }
    assert(addr & 0x0FFF == addr % 0x1000) by { lemma_word_bits(); }
    assert(addr % 0x1000 == addr - 0x2000);
}

impl Ppu {
    pub fn new() -> (p: Self)
        ensures
            p@ == power_on(),
            p@.wf(),
    {
        let p = Ppu {
            vram: [0u8; 2048],
            palette: [0u8; 32],
            oam: [0u8; 256],
            chr_rom: Vec::new(),
            chr_ram: Vec::new(),
            chr_mapper: 0,
            chr_control: 0,
            chr_bank0: 0,
            chr_bank1: 0,
            mirroring: Mirroring::Horizontal,
            ctrl: 0,
            mask: 0,
            status: 0,
            oam_addr: 0,
            scroll_x: 0,
            scroll_y: 0,
            vram_addr: 0,
            vram_addr_latch: false,
            scroll_latch: false,
            vram_read_buf: 0,
            scanline: 0,
            cycle: 0,
            frame: 0,
            nmi_triggered: false,
            framebuffer: zeroed_framebuffer(),
        };
        assert(p@ =~= power_on());
        p
    }

    /// Runs one PPU dot. Returns true when the dot completed a frame.
    pub fn tick(&mut self) -> (frame_complete: bool)
        requires
            old(self)@.can_tick(),
        ensures
            (final(self)@, frame_complete) === tick_result(old(self)@),
    {
        let mut frame_complete = false;
        if self.scanline == 241 && self.cycle == 1 {
            self.status = self.status | 0x80;
            if self.ctrl & 0x80 != 0 {
                self.nmi_triggered = true;
            }
        }
        if self.scanline == 261 && self.cycle == 1 {
            self.status = self.status & !0x80;
            self.status = self.status & !0x40;
            self.status = self.status & !0x20;
            proof {
                let s = old(self).status;
                assert(s & !0x80u8 & !0x40u8 & !0x20u8 == s & 0x1F) by (bit_vector);
            }
        }
        if self.scanline < 240 && self.cycle == 257 {
            let bg = if self.mask & 0x08 != 0 {
                self.render_background()
            } else {
                no_background()
            };
            if self.mask & 0x10 != 0 {
                self.render_sprites(&bg);
            }
        }
        self.cycle = self.cycle + 1;
        if self.cycle > 340 {
            self.cycle = 0;
            self.scanline = self.scanline + 1;
            if self.scanline > 261 {
                self.scanline = 0;
                self.frame = self.frame.wrapping_add(1);
                frame_complete = true;
            }
        }
        proof {
            assert(self@ =~= tick_result(old(self)@).0);
        }
        frame_complete
    }

    /// A CPU read of a PPU register (`addr` already folded to $2000-$2007).
    pub fn read_register(&mut self, addr: u16) -> (r: u8)
        ensures
            (final(self)@, r) === register_read(old(self)@, addr),
    {
        let reg = addr & 0x0007;
        if reg == 2 {
            let val = (self.status & 0xE0) | (self.vram_read_buf & 0x1F);
            self.status = self.status & !0x80;
            self.vram_addr_latch = false;
            self.scroll_latch = false;
            val
        } else if reg == 4 {
            self.oam[self.oam_addr as usize]
        } else if reg == 7 {
            let a = self.vram_addr & 0x3FFF;
            let val = if a >= 0x3F00 {
                let idx = self.palette_index(a);
                self.palette[idx]
            } else {
                let ret = self.vram_read_buf;
                if 0x2000 <= a && a <= 0x3EFF {
                    let mirrored = mirror_vram_addr(a, self.mirroring) as usize;
                    self.vram_read_buf = self.vram[mirrored];
                }
                ret
            };
            let inc: u16 = if self.ctrl & 0x04 != 0 { 32 } else { 1 };
            self.vram_addr = self.vram_addr.wrapping_add(inc);
            proof {
                assert(self@ =~= register_read(old(self)@, addr).0);
            }
            val
        } else {
            0
        }
    }

    /// A CPU write to a PPU register (`addr` already folded to $2000-$2007).
    pub fn write_register(&mut self, addr: u16, value: u8)
        ensures
            final(self)@ === register_write(old(self)@, addr, value),
    {
        let reg = addr & 0x0007;
        if reg == 0 {
            self.ctrl = value;
        } else if reg == 1 {
            self.mask = value;
        } else if reg == 3 {
            self.oam_addr = value;
        } else if reg == 4 {
            self.oam[self.oam_addr as usize] = value;
            self.oam_addr = self.oam_addr.wrapping_add(1);
        } else if reg == 5 {
            if !self.scroll_latch {
                self.scroll_x = value;
            } else {
                self.scroll_y = value;
            }
            self.scroll_latch = !self.scroll_latch;
        } else if reg == 6 {
            let old_addr = self.vram_addr;
            if !self.vram_addr_latch {
                self.vram_addr = (self.vram_addr & 0x00FF) | ((value as u16) << 8);
                proof {
                    assert((old_addr & 0x00FF) | ((value as u16) << 8) == ((old_addr & 0x00FF)
                        + value as u16 * 256)) by { lemma_word_bits(); }
                }
            } else {
                self.vram_addr = (self.vram_addr & 0xFF00) | value as u16;
                proof {
                    assert((old_addr & 0xFF00) | (value as u16) == (old_addr & 0xFF00) + value as u16)
                        by { lemma_word_bits(); }
                }
            }
            self.vram_addr_latch = !self.vram_addr_latch;
        } else if reg == 7 {
            let a = self.vram_addr & 0x3FFF;
            if a >= 0x3F00 {
                let idx = self.palette_index(a);
                self.palette[idx] = value;
            } else if 0x2000 <= a && a <= 0x3EFF {
                let mirrored = mirror_vram_addr(a, self.mirroring) as usize;
                self.vram[mirrored] = value;
            } else if a < 0x2000 && self.chr_rom.len() == 0 && (a as usize) < self.chr_ram.len() {
                self.chr_ram.set(a as usize, value);
            }
            let inc: u16 = if self.ctrl & 0x04 != 0 { 32 } else { 1 };
            self.vram_addr = self.vram_addr.wrapping_add(inc);
        }
        proof {
            assert(self@ =~= register_write(old(self)@, addr, value));
        }
    }

    /// Draws the background of the current scanline into the framebuffer.
    /// Also returns, per pixel, whether the background there is opaque.
    #[verifier::rlimit(30)]
    fn render_background(&mut self) -> (opaque: Vec<bool>)
        requires
            0 <= old(self).scanline < 240,
            old(self).framebuffer@.len() == FRAMEBUFFER_LEN,
        ensures
            final(self)@ == (PpuView {
                framebuffer: render_row(old(self)@, old(self).scanline as int),
                ..old(self)@
            }),
            opaque@.len() == 256,
            forall|x: int|
                0 <= x < 256 ==> #[trigger] opaque@[x] == (background_palette_addr(
                    old(self)@,
                    old(self).scanline as int,
                    x,
                ) != 0x3F00),
    {
        let mut opaque: Vec<bool> = Vec::new();
        let y = self.scanline as usize;
        let scrolled_y = (y + self.scroll_y as usize) % 240;
        let tile_row = scrolled_y / 8;
        let fine_y = (scrolled_y % 8) as u16;
        let nt_base: u16 = match self.ctrl & 0x03 {
            0 => 0x2000,
            1 => 0x2400,
            2 => 0x2800,
            _ => 0x2C00,
        };
        let pt_base: u16 = if self.ctrl & 0x10 != 0 { 0x1000 } else { 0x0000 };
        let ghost p0 = self@;
        let ghost yy = y as int;
        assert(nt_base == nametable_base(p0.ctrl));
        for pixel_x in 0..256usize
            invariant
                y == p0.scanline,
                0 <= yy < 240,
                yy == y,
                scrolled_y == (yy + p0.scroll_y as int) % 240,
                tile_row == scrolled_y / 8,
                fine_y == scrolled_y % 8,
                nt_base == nametable_base(p0.ctrl),
                pt_base == pattern_base(p0.ctrl),
                self@ == (PpuView { framebuffer: self@.framebuffer, ..p0 }),
                self@.framebuffer.len() == FRAMEBUFFER_LEN,
                p0.framebuffer.len() == FRAMEBUFFER_LEN,
                opaque@.len() == pixel_x,
                forall|k: int|
                    0 <= k < opaque@.len() ==> #[trigger] opaque@[k] == (background_palette_addr(
                        p0,
                        yy,
                        k,
                    ) != 0x3F00),
                forall|i: int|
                    0 <= i < self@.framebuffer.len() ==> #[trigger] self@.framebuffer[i] == if yy
                        * 768 <= i < yy * 768 + pixel_x * 3 {
                        render_row(p0, yy)[i]
                    } else {
                        p0.framebuffer[i]
                    },
        {
            let scrolled_x = (pixel_x + self.scroll_x as usize) % 256;
            let scrolled_col = scrolled_x / 8;
            let nt_addr = nt_base + (tile_row as u16 * 32) + scrolled_col as u16;
            let tile_idx = self.ppu_read(nt_addr) as u16;
            let attr_x = scrolled_col / 4;
            let attr_y = tile_row / 4;
            let attr_addr = nt_base + 0x03C0 + (attr_y as u16 * 8) + attr_x as u16;
            let attr_byte = self.ppu_read(attr_addr);
            let shift = (((tile_row % 4 / 2) * 2 + (scrolled_col % 4 / 2)) * 2) as u8;
            let palette_idx = (attr_byte >> shift) & 0x03;
            let pattern_lo = self.ppu_read(pt_base + tile_idx * 16 + fine_y);
            let pattern_hi = self.ppu_read(pt_base + tile_idx * 16 + fine_y + 8);
            let col_bit = (7 - scrolled_x % 8) as u8;
            let lo = (pattern_lo >> col_bit) & 1;
            let hi = (pattern_hi >> col_bit) & 1;
            proof {
                assert(lo <= 1 && hi <= 1) by { lemma_byte_bits(); }
            }
            let color_idx = hi * 2 + lo;
            let palette_addr: u16 = if color_idx == 0 {
                0x3F00
            } else {
                0x3F00 + palette_idx as u16 * 4 + color_idx as u16
            };
            opaque.push(palette_addr != 0x3F00);
            let nes_color = (self.ppu_read(palette_addr) & 0x3F) as usize;
            proof {
                lemma_six_bits(ppu_byte(p0, palette_addr));
                assert(palette_addr == background_palette_addr(p0, yy, pixel_x as int));
                assert(nes_color == background_color(p0, yy, pixel_x as int));
            }
            let (r, g, b) = NES_PALETTE[nes_color];
            let offset = (y * 256 + pixel_x) * 3;
            self.framebuffer.set(offset, r);
            self.framebuffer.set(offset + 1, g);
            self.framebuffer.set(offset + 2, b);
            proof {
                assert forall|i: int| 0 <= i < self@.framebuffer.len() implies #[trigger] self@.framebuffer[i]
                    == if yy * 768 <= i < yy * 768 + (pixel_x + 1) * 3 {
                    render_row(p0, yy)[i]
                } else {
                    p0.framebuffer[i]
                } by {
                    if offset <= i < offset + 3 {
                        assert((i - yy * 768) / 3 == pixel_x);
                        assert((i - yy * 768) % 3 == i - offset);
                    }
                }
            }
        }
        opaque
    }

    /// Colour index (0 transparent, 1-3) of sprite `i` at pixel `x` of scanline `y`.
    fn sprite_pixel_at(&self, i: usize, y: usize, x: usize) -> (r: u8)
        requires
            i < 64,
            y < 240,
            x < 256,
        ensures
            r as int == sprite_pixel(self@, i as int, y as int, x as int),
            r <= 3,
    {
        let sy = self.oam[4 * i] as usize;
        let tile = self.oam[4 * i + 1] as u16;
        let attr = self.oam[4 * i + 2];
        let sx = self.oam[4 * i + 3] as usize;
        if y < sy || y >= sy + 8 || x < sx || x >= sx + 8 {
            return 0;
        }
        let row = if attr >= 0x80 {
            7 - (y - sy)
        } else {
            y - sy
        };
        let bit = (if (attr / 64) % 2 == 1 {
            x - sx
        } else {
            7 - (x - sx)
        }) as u8;
        let base: u16 = if (self.ctrl / 8) % 2 == 1 {
            0x1000
        } else {
            0
        };
        let addr = base + tile * 16 + row as u16;
        let lo = self.ppu_read(addr);
        let hi = self.ppu_read(addr + 8);
        proof {
            assert((lo >> bit) & 1 <= 1 && (hi >> bit) & 1 <= 1) by { lemma_byte_bits(); }
        }
        ((hi >> bit) & 1) * 2 + ((lo >> bit) & 1)
    }

    /// Draws the sprites of the current scanline over it, given where the
    /// background is opaque, and sets Sprite 0 Hit when sprite 0 covers an opaque
    /// background pixel left of the last column.
    fn render_sprites(&mut self, bg: &Vec<bool>)
        requires
            0 <= old(self).scanline < 240,
            old(self).framebuffer@.len() == FRAMEBUFFER_LEN,
            bg@.len() == 256,
            forall|x: int|
                0 <= x < 256 ==> #[trigger] bg@[x] == bg_opaque(old(self)@, old(self).scanline as int, x),
        ensures
            final(self)@ == (PpuView {
                framebuffer: render_sprite_row(old(self)@, old(self).scanline as int),
                status: if sprite0_hit_before(old(self)@, old(self).scanline as int, 255) {
                    old(self).status | 0x40
                } else {
                    old(self).status
                },
                ..old(self)@
            }),
    {
        let y = self.scanline as usize;
        let ghost p0 = self@;
        let ghost yy = y as int;
        let mut hit = false;
        let mut x: usize = 0;
        while x < 256
            invariant
                0 <= yy < 240,
                yy == y,
                y == p0.scanline,
                x <= 256,
                bg@.len() == 256,
                forall|x: int| 0 <= x < 256 ==> #[trigger] bg@[x] == bg_opaque(p0, yy, x),
                self@ == (PpuView { framebuffer: self@.framebuffer, ..p0 }),
                self@.framebuffer.len() == FRAMEBUFFER_LEN,
                p0.framebuffer.len() == FRAMEBUFFER_LEN,
                hit == sprite0_hit_before(p0, yy, if x < 255 { x as int } else { 255 }),
                forall|i: int|
                    0 <= i < self@.framebuffer.len() ==> #[trigger] self@.framebuffer[i] == if yy
                        * 768 <= i < yy * 768 + x * 3 {
                        render_sprite_row(p0, yy)[i]
                    } else {
                        p0.framebuffer[i]
                    },
            decreases 256 - x,
        {
            let mut j: usize = 0;
            let mut found = false;
            let mut pix: u8 = 0;
            while j < 64 && !found
                invariant
                    0 <= yy < 240,
                    yy == y,
                    x < 256,
                    j <= 64,
                    self@ == (PpuView { framebuffer: self@.framebuffer, ..p0 }),
                    found ==> j < 64 && pix as int == sprite_pixel(p0, j as int, yy, x as int) && pix
                        != 0 && first_sprite(p0, yy, x as int, 0) == j,
                    !found ==> first_sprite(p0, yy, x as int, 0) == first_sprite(
                        p0,
                        yy,
                        x as int,
                        j as int,
                    ),
                    pix <= 3,
                decreases 64 - j + (if found { 0int } else { 1int }),
            {
                let px = self.sprite_pixel_at(j, y, x);
                if px != 0 {
                    found = true;
                    pix = px;
                } else {
                    j = j + 1;
                }
            }
            proof {
                if !found {
                    assert(first_sprite(p0, yy, x as int, 0) == 64);
                }
                assert((sprite_pixel(p0, 0, yy, x as int) != 0) == (first_sprite(p0, yy, x as int, 0)
                    == 0));
            }
            if x < 255 && found && j == 0 && bg[x] {
                hit = true;
            }
            let attr = if found {
                self.oam[4 * j + 2]
            } else {
                0
            };
            if found && !((attr / 32) % 2 == 1 && bg[x]) {
                let addr: u16 = 0x3F10 + (attr % 4) as u16 * 4 + pix as u16;
                let colour = (self.ppu_read(addr) & 0x3F) as usize;
                proof {
                    lemma_six_bits(ppu_byte(p0, addr));
                    assert(sprite_shown(p0, yy, x as int));
                    assert(colour == sprite_color(p0, yy, x as int));
                }
                let (r, g, b) = NES_PALETTE[colour];
                let offset = (y * 256 + x) * 3;
                self.framebuffer.set(offset, r);
                self.framebuffer.set(offset + 1, g);
                self.framebuffer.set(offset + 2, b);
                proof {
                    assert forall|i: int| 0 <= i < self@.framebuffer.len() implies #[trigger] self@.framebuffer[i]
                        == if yy * 768 <= i < yy * 768 + (x + 1) * 3 {
                        render_sprite_row(p0, yy)[i]
                    } else {
                        p0.framebuffer[i]
                    } by {
                        if offset <= i < offset + 3 {
                            assert((i - yy * 768) / 3 == x);
                            assert((i - yy * 768) % 3 == i - offset);
                        }
                    }
                }
            } else {
                proof {
                    assert(!sprite_shown(p0, yy, x as int));
                    assert forall|i: int| 0 <= i < self@.framebuffer.len() implies #[trigger] self@.framebuffer[i]
                        == if yy * 768 <= i < yy * 768 + (x + 1) * 3 {
                        render_sprite_row(p0, yy)[i]
                    } else {
                        p0.framebuffer[i]
                    } by {
                        if yy * 768 + x * 3 <= i < yy * 768 + (x + 1) * 3 {
                            assert((i - yy * 768) / 3 == x);
                        }
                    }
                }
            }
            x = x + 1;
        }
        if hit {
            self.status = self.status | 0x40;
        }
        proof {
            assert(self@.framebuffer =~= render_sprite_row(p0, yy));
        }
    }

    /// Reads pattern memory at `a` ($0000-$1FFF).
    fn pattern_read(&self, a: usize) -> (r: u8)
        requires
            a < 0x2000,
        ensures
            r == pattern_byte(self@, a as int),
    {
        let len = self.chr_rom.len();
        if len == 0 {
            if a < self.chr_ram.len() {
                self.chr_ram[a]
            } else {
                0
            }
        } else if self.chr_mapper == 1 {
            if (self.chr_control / 16) % 2 == 0 {
                let bank = (self.chr_bank0 / 2) as usize * 2;
                self.chr_rom[(bank * 0x2000 + a) % len]
            } else if a < 0x1000 {
                self.chr_rom[(self.chr_bank0 as usize * 0x1000 + a) % len]
            } else {
                self.chr_rom[(self.chr_bank1 as usize * 0x1000 + a - 0x1000) % len]
            }
        } else {
            self.chr_rom[a % len]
        }
    }

    /// Reads the PPU address space (pattern tables, nametables, palette).
    fn ppu_read(&self, addr: u16) -> (r: u8)
        ensures
            r == ppu_byte(self@, addr),
    {
        let a = addr & 0x3FFF;
        if a <= 0x1FFF {
            self.pattern_read(a as usize)
        } else if a <= 0x3EFF {
            let mirrored = mirror_vram_addr(a, self.mirroring) as usize;
            self.vram[mirrored]
        } else {
            let idx = self.palette_index(a);
            self.palette[idx]
        }
    }

    /// Index in palette RAM of a palette address ($3F00-$3FFF).
    fn palette_index(&self, addr: u16) -> (r: usize)
        requires
            addr >= 0x3F00,
        ensures
            r == palette_slot(addr),
            r < 32,
    {
        let idx = (addr - 0x3F00) as usize % 32;
        if idx == 0x10 || idx == 0x14 || idx == 0x18 || idx == 0x1C {
            idx - 0x10
        } else {
            idx
        }
    }
}

/// Index in VRAM of a nametable address ($2000-$3EFF).
fn mirror_vram_addr(addr: u16, mirroring: Mirroring) -> (r: u16)
    ensures
        r == vram_index(addr, mirroring),
        r < 2048,
{
    let rel = (addr & 0x0FFF) as usize;
    proof {
        assert(addr & 0x0FFF <= 0x0FFF) by { lemma_word_bits(); }
    }
    let table = rel / 0x0400;
    let offset = rel % 0x0400;
    let index: usize = match mirroring {
        Mirroring::Vertical => {
            if table == 0 || table == 2 { 0 } else { 1 }
        },
        Mirroring::Horizontal => {
            if table == 0 || table == 1 { 0 } else { 1 }
        },
        Mirroring::SingleScreenHigh => 1,
        _ => 0,
    };
    (index * 0x0400 + offset) as u16
}

proof fn lemma_six_bits(v: u8)
    ensures
        (v & 0x3F) < 64,
{
    assert((v & 0x3F) < 64) by { lemma_byte_bits(); }
}

/// Background opacity of a scanline whose background is not drawn.
fn no_background() -> (v: Vec<bool>)
    ensures
        v@.len() == 256,
        forall|x: int| 0 <= x < 256 ==> !#[trigger] v@[x],
{
    let mut v: Vec<bool> = Vec::new();
    while v.len() < 256
        invariant
            v.len() <= 256,
            forall|x: int| 0 <= x < v.len() ==> !#[trigger] v@[x],
        decreases 256 - v.len(),
    {
        v.push(false);
    }
    v
}

/// A framebuffer of zero bytes.
fn zeroed_framebuffer() -> (v: Vec<u8>)
    ensures
        v@ == Seq::new(FRAMEBUFFER_LEN as nat, |i: int| 0u8),
{
    let mut v: Vec<u8> = Vec::new();
    while v.len() < FRAMEBUFFER_LEN
        invariant
            v.len() <= FRAMEBUFFER_LEN,
            forall|i: int| 0 <= i < v.len() ==> v@[i] == 0u8,
        decreases FRAMEBUFFER_LEN - v.len(),
    {
        v.push(0);
    }
    assert(v@ =~= Seq::new(FRAMEBUFFER_LEN as nat, |i: int| 0u8));
    v
}

} // verus!
