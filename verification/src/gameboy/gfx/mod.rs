pub mod color;
pub mod frame;
pub mod gpu;
pub mod laws;
pub mod mode;
pub mod sprite;
pub mod stat;
pub mod tile_render_options;

pub use self::color::Color;
pub use self::frame::Frame;
pub use self::gpu::Gpu;
pub use self::mode::GpuMode;
pub use self::sprite::SpriteShape;
pub use self::stat::GpuStat;
pub use self::tile_render_options::{TileRenderOptions, TileRenderType};

use vstd::prelude::*;

use crate::gameboy::irq::Irq;
use self::color::theme_color;
use self::gpu::{palette_shade, pixel_value, GpuView};

verus! {

/// Bytes of video RAM.
pub const VRAM_SIZE: usize = 0x4000;

/// Bytes of sprite attribute memory (40 sprites of 4 bytes).
pub const SPRITE_DATA_SIZE: usize = 0xA0;

/// A step keeps the line counter in range (below 0x8F outside the vertical
/// blank, at most 0x99 in it), and leaving the vertical blank starts line 0
/// in the OAM search.
pub proof fn lemma_step_lines(g: GpuView, irq: Irq, cycles: usize)
    requires
        g.wf(),
        cycles <= usize::MAX - 0x1C8,
    ensures
        ({
            let (g2, _) = g.step(irq, cycles);
            &&& g2.ly <= 0x99
            &&& g2.mode != GpuMode::VBlank ==> g2.ly < 0x8F
            &&& g2.mode == GpuMode::VBlank ==> 0x8F <= g2.ly
            &&& (g.mode == GpuMode::VBlank && g2.mode != GpuMode::VBlank) ==> (g2.mode == GpuMode::OAM
                && g2.ly == 0)
        }),
{
}

/// A write of `v` to LCDC (0xFF40) sets the LCD controls from its bits: bit 7
/// turns the display on, bit 6 puts the window's tile map at 0x9C00 (else
/// 0x9800), bit 5 shows the window, bit 4 takes tile data from 0x8000 with
/// unsigned tile numbers (else from around 0x9000 with signed ones), bit 3
/// puts the background's tile map at 0x9C00 (else 0x9800), bit 2 makes
/// sprites 16 lines high (else 8), bit 1 shows the sprites and bit 0 the
/// background. Video RAM offsets are counted from 0x8000.
pub proof fn lemma_control_bits(g: GpuView, v: u8)
    ensures
        ({
            let g2 = g.write_u8(0x40, v);
            &&& g2.control_register == v
            &&& g2.enabled == (v & 0x80 != 0)
            &&& g2.window_tilemap_addr == (if v & 0x40 != 0 { 0x1C00usize } else { 0x1800usize })
            &&& g2.window_enabled == (v & 0x20 != 0)
            &&& g2.tile_data_addr == (if v & 0x10 != 0 { 0x0000usize } else { 0x0800usize })
            &&& g2.background_tilemap_addr == (if v & 0x08 != 0 { 0x1C00usize } else { 0x1800usize })
            &&& g2.sprite_height() == (if v & 0x04 != 0 { 16int } else { 8int })
            &&& g2.sprites_enabled == (v & 0x02 != 0)
            &&& g2.background_enabled == (v & 0x01 != 0)
            &&& forall|map_addr: int, y: int, x: int|
                {
                    let n = g2.ram[map_addr + (y / 8) * 32 + x / 8];
                    let base = if v & 0x10 != 0 {
                        n * 16
                    } else {
                        0x1000 + (if n < 0x80 { n as int } else { n - 0x100 }) * 16
                    };
                    let t = base + (y % 8) * 2;
                    #[trigger] g2.tile_pixel(map_addr, y, x) == theme_color(
                        palette_shade(g2.bg_palette, pixel_value(g2.ram[t], g2.ram[t + 1], (7 - x % 8) as u8)),
                        g2.theme,
                    )
                }
        }),
{
    assert((v & 0x80 == 0x80) == (v & 0x80 != 0) && (v & 0x40 == 0x40) == (v & 0x40 != 0) && (v & 0x20
        == 0x20) == (v & 0x20 != 0) && (v & 0x10 == 0x10) == (v & 0x10 != 0) && (v & 0x08 == 0x08) == (v
        & 0x08 != 0) && (v & 0x04 == 0x04) == (v & 0x04 != 0) && (v & 0x02 == 0x02) == (v & 0x02 != 0)
        && (v & 0x01 == 0x01) == (v & 0x01 != 0)) by (bit_vector);
}

} // verus!
