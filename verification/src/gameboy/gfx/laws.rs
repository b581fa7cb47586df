use vstd::prelude::*;

use crate::gameboy::gfx::color::theme_color;
use crate::gameboy::gfx::gpu::{mode_length, palette_shade, pixel_value, GpuView};
use crate::gameboy::gfx::mode::GpuMode;
use crate::gameboy::irq::Irq;
use crate::gameboy::ui::theme::Theme;

verus! {

/// STAT (0xFF41) reads back the interrupt selection bits 3 to 6 last written
/// to it, sets bit 2 exactly when LY equals LYC, keeps bit 7 clear, and gives
/// the mode in bits 0 and 1: 0 in horizontal blank, 1 in vertical blank, 2
/// in pixel transfer and 3 in the OAM search.
pub proof fn lemma_status_bits(g: GpuView, v: u8)
    ensures
        ({
            let s = g.write_u8(0x41, v).read_u8(0x41);
            &&& s & 0x78 == v & 0x78
            &&& (s & 0x04 != 0) == (g.ly == g.lyc)
            &&& s & 0x80 == 0
            &&& s & 0x03 == (match g.mode {
                GpuMode::HBlank => 0u8,
                GpuMode::VBlank => 1u8,
                GpuMode::VRAM => 2u8,
                GpuMode::OAM => 3u8,
            })
        }),
{
    let c = v & 0x40 == 0x40;
    let o = v & 0x20 == 0x20;
    let b = v & 0x10 == 0x10;
    let h = v & 0x08 == 0x08;
    let cb: u8 = if c { 0x40 } else { 0 };
    let ob: u8 = if o { 0x20 } else { 0 };
    let bb: u8 = if b { 0x10 } else { 0 };
    let hb: u8 = if h { 0x08 } else { 0 };
    let lb: u8 = if g.ly == g.lyc { 0x04 } else { 0 };
    let mb: u8 = g.mode.spec_to_u8();
    assert(mb <= 3);
    assert((cb == 0x40 || cb == 0) && (ob == 0x20 || ob == 0) && (bb == 0x10 || bb == 0) && (hb == 0x08
        || hb == 0) && (lb == 0x04 || lb == 0) && mb <= 3 && (cb == 0x40) == (v & 0x40 == 0x40) && (ob
        == 0x20) == (v & 0x20 == 0x20) && (bb == 0x10) == (v & 0x10 == 0x10) && (hb == 0x08) == (v
        & 0x08 == 0x08) ==> {
        let s = cb | ob | bb | hb | lb | mb;
        &&& s & 0x78 == v & 0x78
        &&& (s & 0x04 != 0) == (lb == 0x04)
        &&& s & 0x80 == 0
        &&& s & 0x03 == mb
    }) by (bit_vector);
}

/// A line of the display takes 456 cycles: 80 of OAM search, 172 of pixel
/// transfer and 204 of horizontal blank; a line of the vertical blank takes
/// 456 too.
pub proof fn lemma_line_timing()
    ensures
        mode_length(GpuMode::OAM) == 80,
        mode_length(GpuMode::VRAM) == 172,
        mode_length(GpuMode::HBlank) == 204,
        mode_length(GpuMode::VBlank) == 456,
        mode_length(GpuMode::OAM) + mode_length(GpuMode::VRAM) + mode_length(GpuMode::HBlank) == mode_length(
            GpuMode::VBlank,
        ),
{
}

/// A step requests the vertical blank interrupt (IF bit 0) exactly when it
/// enters the vertical blank, and the LCD interrupt (IF bit 1) when LY
/// equals LYC afterwards and STAT selects the coincidence interrupt; it
/// touches no other bit and neither IE nor the master enable. A switched
/// off unit does nothing.
pub proof fn lemma_step_interrupts(g: GpuView, irq: Irq, cycles: usize)
    ensures
        ({
            let (g2, irq2) = g.step(irq, cycles);
            let vblank = g.enabled && g.mode != GpuMode::VBlank && g2.mode == GpuMode::VBlank;
            let lcd = g.enabled && g2.ly == g2.lyc && g2.stat.coincidence_interrupt_enabled;
            &&& !g.enabled ==> g2 == g && irq2 == irq
            &&& irq2 == (Irq {
                request_flag: irq.request_flag | (if vblank { 0x01u8 } else { 0 }) | (if lcd {
                    0x02u8
                } else {
                    0
                }),
                ..irq
            })
        }),
{
    let r = irq.request_flag;
    assert(r | 0u8 == r && r | 0x01u8 | 0u8 == r | 0x01u8) by (bit_vector);
}

/// A pixel's colour number takes its high bit from bit `shift` of the second
/// byte of the tile row and its low bit from bit `shift` of the first; a
/// palette gives colour number `v` the shade in its bits 2v and 2v + 1.
pub proof fn lemma_pixel_decoding(lo: u8, hi: u8, shift: u8, palette: u8)
    requires
        shift < 8,
    ensures
        pixel_value(lo, hi, shift) == (if hi & (1u8 << shift) != 0 { 2u8 } else { 0u8 }) + (if lo & (1u8
            << shift) != 0 { 1u8 } else { 0u8 }),
        palette_shade(palette, 0) == palette % 4,
        palette_shade(palette, 1) == (palette / 4) % 4,
        palette_shade(palette, 2) == (palette / 16) % 4,
        palette_shade(palette, 3) == palette / 64,
{
    assert((shift < 8 ==> (((hi >> shift) & 0x01) << 1u8) | ((lo >> shift) & 0x01) == (if hi & (1u8
        << shift) != 0 { 2u8 } else { 0u8 }) + (if lo & (1u8 << shift) != 0 { 1u8 } else { 0u8 })) && (
    palette >> 0u8) & 0x03 == palette % 4 && (palette >> 2u8) & 0x03 == (palette / 4) % 4 && (palette
        >> 4u8) & 0x03 == (palette / 16) % 4 && (palette >> 6u8) & 0x03 == palette / 64) by (bit_vector);
}

/// Attribute bit 5 mirrors a sprite: column `x` of a mirrored sprite has the
/// colour number of column 7 - x of the same sprite unmirrored. Attribute
/// bit 4 picks the palette: OBP1 when set, OBP0 when clear.
pub proof fn lemma_sprite_attributes(g: GpuView, s: int, x: int, v: u8)
    requires
        0 <= s < 40,
        0 <= x < 8,
        g.sprite_data.len() == 0xA0,
    ensures
        ({
            let a = g.sprite_attributes(s);
            let plain = GpuView { sprite_data: g.sprite_data.update(4 * s + 3, a & 0xDF), ..g };
            &&& a & 0x20 != 0 ==> g.sprite_value(s, x) == plain.sprite_value(s, 7 - x)
            &&& a & 0x20 == 0 ==> g.sprite_value(s, x) == plain.sprite_value(s, x)
            &&& g.sprite_color(s, v) == theme_color(
                palette_shade(if a & 0x10 != 0 { g.palette1 } else { g.palette0 }, v),
                g.theme,
            )
        }),
{
    let a = g.sprite_attributes(s);
    let plain = GpuView { sprite_data: g.sprite_data.update(4 * s + 3, a & 0xDF), ..g };
    assert(plain.sprite_attributes(s) == a & 0xDF);
    assert(plain.sprite_data[4 * s + 2] == g.sprite_data[4 * s + 2]);
    assert(plain.sprite_data[4 * s] == g.sprite_data[4 * s]);
    assert((a & 0xDF) & 0x20 != 0x20 && ((a & 0x20 == 0x20) == (a & 0x20 != 0)) && (((a & 0x10) >> 4u8
        == 0) == (a & 0x10 == 0))) by (bit_vector);
}

/// In both themes the shades go from light to dark: the green channel falls
/// strictly from shade 0 to shade 3, and every shade is opaque.
pub proof fn lemma_shades_darken(theme: Theme, b: u8)
    requires
        b < 3,
    ensures
        theme_color(b, theme).g > theme_color((b + 1) as u8, theme).g,
        theme_color(b, theme).a == 0xFF,
        theme_color(3, theme).a == 0xFF,
{
}

} // verus!
