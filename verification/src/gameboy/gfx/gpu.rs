use vstd::prelude::*;

use crate::gameboy::gfx::color::{theme_color, Color};
use crate::gameboy::gfx::frame::{blank_frame, Frame, FRAME_PIXELS};
use crate::gameboy::gfx::mode::GpuMode;
use crate::gameboy::gfx::sprite::SpriteShape;
use crate::gameboy::gfx::stat::GpuStat;
use crate::gameboy::gfx::tile_render_options::{TileRenderOptions, TileRenderType};
use crate::gameboy::gfx::{SPRITE_DATA_SIZE, VRAM_SIZE};
use crate::gameboy::irq::{Interrupt, Irq};
use crate::gameboy::memory::Memory;
use crate::gameboy::ui::theme::Theme;

verus! {

/// The picture processing unit: video RAM, sprite attributes, the LCD
/// registers, the frame being drawn and the last finished frame.
pub struct Gpu {
    pub enabled: bool,
    pub ram: Memory,
    pub sprite_data: Memory,
    pub ly: u8,
    pub lyc: u8,
    pub frame: Frame,
    pub backbuffer: Frame,
    pub mode: GpuMode,
    pub control_register: u8,
    pub stat: GpuStat,
    pub scroll_y: u8,
    pub scroll_x: u8,
    pub window_y: u8,
    pub window_x: u8,
    pub bg_palette: u8,
    pub palette0: u8,
    pub palette1: u8,
    pub cycles: usize,
    pub counter: u8,
    pub tile_data_addr: usize,
    pub background_tilemap_addr: usize,
    pub window_tilemap_addr: usize,
    pub sprite_shape: SpriteShape,
    pub sprites_enabled: bool,
    pub background_enabled: bool,
    pub window_enabled: bool,
    pub theme: Theme,
}

/// The state of the picture processing unit, with memories and frames as sequences.
pub struct GpuView {
    pub enabled: bool,
    pub ram: Seq<u8>,
    pub sprite_data: Seq<u8>,
    pub ly: u8,
    pub lyc: u8,
    pub frame: Seq<Color>,
    pub backbuffer: Seq<Color>,
    pub mode: GpuMode,
    pub control_register: u8,
    pub stat: GpuStat,
    pub scroll_y: u8,
    pub scroll_x: u8,
    pub window_y: u8,
    pub window_x: u8,
    pub bg_palette: u8,
    pub palette0: u8,
    pub palette1: u8,
    pub cycles: usize,
    pub counter: u8,
    pub tile_data_addr: usize,
    pub background_tilemap_addr: usize,
    pub window_tilemap_addr: usize,
    pub sprite_shape: SpriteShape,
    pub sprites_enabled: bool,
    pub background_enabled: bool,
    pub window_enabled: bool,
    pub theme: Theme,
}

impl View for Gpu {
    type V = GpuView;

    open spec fn view(&self) -> GpuView {
        GpuView {
            enabled: self.enabled,
            ram: self.ram@,
            sprite_data: self.sprite_data@,
            ly: self.ly,
            lyc: self.lyc,
            frame: self.frame.pixels@,
            backbuffer: self.backbuffer.pixels@,
            mode: self.mode,
            control_register: self.control_register,
            stat: self.stat,
            scroll_y: self.scroll_y,
            scroll_x: self.scroll_x,
            window_y: self.window_y,
            window_x: self.window_x,
            bg_palette: self.bg_palette,
            palette0: self.palette0,
            palette1: self.palette1,
            cycles: self.cycles,
            counter: self.counter,
            tile_data_addr: self.tile_data_addr,
            background_tilemap_addr: self.background_tilemap_addr,
            window_tilemap_addr: self.window_tilemap_addr,
            sprite_shape: self.sprite_shape,
            sprites_enabled: self.sprites_enabled,
            background_enabled: self.background_enabled,
            window_enabled: self.window_enabled,
            theme: self.theme,
        }
    }
}

/// The two-bit shade that `palette` gives colour number `b` (bits 2b and 2b+1).
pub open spec fn palette_shade(palette: u8, b: u8) -> u8 {
    (palette >> (2 * b) as u8) & 0x03
}

/// The colour number of a pixel from the two bytes of a tile row: bit `shift`
/// of `hi` is the high bit and bit `shift` of `lo` the low bit.
pub open spec fn pixel_value(lo: u8, hi: u8, shift: u8) -> u8 {
    (((hi >> shift) & 0x01) << 1u8) | ((lo >> shift) & 0x01)
}

/// Cycles spent in each mode before moving to the next.
pub open spec fn mode_length(mode: GpuMode) -> usize {
    match mode {
        GpuMode::OAM => 0x50,
        GpuMode::VRAM => 0xAC,
        GpuMode::HBlank => 0xCC,
        GpuMode::VBlank => 0x1C8,
    }
}

impl GpuView {
    /// Memories and frames have their sizes, the line counter matches the mode
    /// (below 0x8F outside the vertical blank, 0x8F-0x99 in it), fewer cycles
    /// than the longest mode are pending and the tile addresses point into video RAM.
    pub open spec fn wf(self) -> bool {
        &&& self.ram.len() == VRAM_SIZE
        &&& self.sprite_data.len() == SPRITE_DATA_SIZE
        &&& self.frame.len() == FRAME_PIXELS
        &&& self.backbuffer.len() == FRAME_PIXELS
        &&& self.cycles < 0x1C8
        &&& self.mode != GpuMode::VBlank ==> self.ly < 0x8F
        &&& self.mode == GpuMode::VBlank ==> 0x8F <= self.ly <= 0x99
        &&& self.tile_data_addr <= 0x800
        &&& self.background_tilemap_addr <= 0x1C00
        &&& self.window_tilemap_addr <= 0x1C00
    }

    /// The LCD registers that can be read: 0x40-0x45 and 0x47-0x4B.
    pub open spec fn register_ok(addr: u16) -> bool {
        (0x40 <= addr <= 0x45) || (0x47 <= addr <= 0x4B)
    }

    pub open spec fn read_u8(self, addr: u16) -> u8 {
        if addr == 0x40 {
            self.control_register
        } else if addr == 0x41 {
            self.stat.spec_to_u8(self.ly, self.lyc, self.mode)
        } else if addr == 0x42 {
            self.scroll_y
        } else if addr == 0x43 {
            self.scroll_x
        } else if addr == 0x4A {
            self.window_y
        } else if addr == 0x4B {
            self.window_x
        } else if addr == 0x44 {
            self.ly
        } else if addr == 0x45 {
            self.lyc
        } else if addr == 0x47 {
            self.bg_palette
        } else if addr == 0x48 {
            self.palette0
        } else {
            self.palette1
        }
    }

    /// A write to the LCD control register (0x40): bit 7 turns the display on,
    /// bit 4 picks the tile data at 0x0000 (else 0x0800), bits 6 and 3 the window
    /// and background maps at 0x1C00 (else 0x1800), bit 2 tall sprites, and bits
    /// 5, 1 and 0 enable the window, the sprites and the background. Turning the
    /// display off restarts the line in horizontal blank with a blank frame.
    pub open spec fn write_control(self, val: u8) -> GpuView {
        let on = val & 0x80 == 0x80;
        let g = GpuView {
            control_register: val,
            enabled: on,
            tile_data_addr: if val & 0x10 == 0x10 { 0x00 } else { 0x800 },
            window_tilemap_addr: if val & 0x40 == 0x40 { 0x1C00 } else { 0x1800 },
            background_tilemap_addr: if val & 0x08 == 0x08 { 0x1C00 } else { 0x1800 },
            sprite_shape: if val & 0x04 == 0x04 { SpriteShape::Rectangle } else { SpriteShape::Square },
            window_enabled: val & 0x20 == 0x20,
            sprites_enabled: val & 0x02 == 0x02,
            background_enabled: val & 0x01 == 0x01,
            ..self
        };
        if self.enabled && !on {
            GpuView { cycles: 0, ly: 0, mode: GpuMode::HBlank, frame: blank_frame(), ..g }
        } else {
            g
        }
    }

    /// A write to an LCD register; writes to LY (0x44) are ignored.
    pub open spec fn write_u8(self, addr: u16, val: u8) -> GpuView {
        if addr == 0x40 {
            self.write_control(val)
        } else if addr == 0x41 {
            GpuView { stat: GpuStat::spec_from_u8(val), ..self }
        } else if addr == 0x42 {
            GpuView { scroll_y: val, ..self }
        } else if addr == 0x43 {
            GpuView { scroll_x: val, ..self }
        } else if addr == 0x44 {
            self
        } else if addr == 0x45 {
            GpuView { lyc: val, ..self }
        } else if addr == 0x47 {
            GpuView { bg_palette: val, ..self }
        } else if addr == 0x48 {
            GpuView { palette0: val, ..self }
        } else if addr == 0x49 {
            GpuView { palette1: val, ..self }
        } else if addr == 0x4A {
            GpuView { window_y: val, ..self }
        } else {
            GpuView { window_x: val, ..self }
        }
    }

    /// A 16-bit write to video RAM, low byte first.
    pub open spec fn write_u16(self, addr: u16, val: u16) -> GpuView {
        GpuView {
            ram: self.ram.update(addr as int, (val % 256) as u8).update(addr + 1, (val / 256) as u8),
            ..self
        }
    }

    /// The first pixel of the current line in the frame.
    pub open spec fn row_start(self) -> int {
        self.ly * 160
    }

    /// The colour of pixel `i` of the current line of the background: the map
    /// is scrolled by SCY and SCX, tile numbers are signed around tile 0x80
    /// when the tile data starts at 0x0800, and the shade comes from BGP.
    pub open spec fn bg_pixel(self, i: int) -> Color {
        self.tile_pixel(
            self.background_tilemap_addr as int,
            (self.ly + self.scroll_y) % 256,
            (i + self.scroll_x) % 256,
        )
    }

    /// The colour of the pixel at column `x` and row `y` of the 256 by 256
    /// picture that the tile map at `map_addr` makes.
    pub open spec fn tile_pixel(self, map_addr: int, y: int, x: int) -> Color {
        let raw = self.ram[map_addr + (y / 8) * 32 + x / 8];
        let tile = if self.tile_data_addr == 0 { raw as int } else { (raw + 0x80) % 0x100 };
        let t = self.tile_data_addr + tile * 16 + (y % 8) * 2;
        let v = pixel_value(self.ram[t], self.ram[t + 1], (7 - x % 8) as u8);
        theme_color(palette_shade(self.bg_palette, v), self.theme)
    }

    /// The frame after drawing the background of the current line over `bb`.
    pub open spec fn with_background(self, bb: Seq<Color>) -> Seq<Color> {
        Seq::new(
            bb.len(),
            |j: int|
                if self.row_start() <= j < self.row_start() + 160 {
                    self.bg_pixel(j - self.row_start())
                } else {
                    bb[j]
                },
        )
    }

    pub open spec fn sprite_height(self) -> int {
        if self.sprite_shape == SpriteShape::Rectangle {
            16
        } else {
            8
        }
    }

    /// The top line of sprite `s` on the display.
    pub open spec fn sprite_y(self, s: int) -> int {
        self.sprite_data[4 * s] - 16
    }

    /// The left column of sprite `s` on the display.
    pub open spec fn sprite_x(self, s: int) -> int {
        self.sprite_data[4 * s + 1] - 8
    }

    pub open spec fn sprite_attributes(self, s: int) -> u8 {
        self.sprite_data[4 * s + 3]
    }

    pub open spec fn sprite_on_line(self, s: int) -> bool {
        self.sprite_y(s) <= self.ly && self.sprite_y(s) + self.sprite_height() > self.ly
    }

    /// The colour number of column `x` of sprite `s` on the current line;
    /// attribute bit 5 mirrors the sprite horizontally.
    pub open spec fn sprite_value(self, s: int, x: int) -> u8 {
        let t = self.sprite_data[4 * s + 2] * 16 + (self.ly - self.sprite_y(s)) * 2;
        let shift = if self.sprite_attributes(s) & 0x20 == 0x20 { x } else { 7 - x };
        pixel_value(self.ram[t], self.ram[t + 1], shift as u8)
    }

    /// The colour of colour number `v` of sprite `s`, from OBP0 or, when
    /// attribute bit 4 is set, OBP1.
    pub open spec fn sprite_color(self, s: int, v: u8) -> Color {
        let palette = if (self.sprite_attributes(s) & 0x10) >> 4u8 == 0 {
            self.palette0
        } else {
            self.palette1
        };
        theme_color(palette_shade(palette, v), self.theme)
    }

    /// Whether column `x` of sprite `s` lands on the display on the current
    /// line with a colour other than number 0, which is transparent.
    pub open spec fn sprite_draws(self, s: int, x: int) -> bool {
        &&& self.sprite_on_line(s)
        &&& 0 <= self.sprite_x(s) + x < 160
        &&& self.sprite_value(s, x) != 0
    }

    /// `bb` with the first `k` columns of sprite `s` drawn.
    pub open spec fn with_sprite_columns(self, bb: Seq<Color>, s: int, k: int) -> Seq<Color> {
        Seq::new(
            bb.len(),
            |j: int|
                {
                    let col = j - self.row_start() - self.sprite_x(s);
                    if 0 <= col < k && self.sprite_draws(s, col) {
                        self.sprite_color(s, self.sprite_value(s, col))
                    } else {
                        bb[j]
                    }
                },
        )
    }

    /// `bb` with sprites 0 to `n - 1` drawn in order, later ones over earlier ones.
    pub open spec fn with_sprites(self, bb: Seq<Color>, n: int) -> Seq<Color>
        decreases n,
    {
        if n <= 0 {
            bb
        } else {
            self.with_sprite_columns(self.with_sprites(bb, n - 1), n - 1, 8)
        }
    }

    /// Drawing a sprite column left of the display's edge takes the column
    /// index below zero, which the drawing code cannot hold.
    pub open spec fn sprites_drawable(self) -> bool {
        forall|s: int, x: int|
            0 <= s < 40 && 0 <= x < 8 && #[trigger] self.sprite_draws(s, x) ==> self.sprite_x(s) >= 0
    }

    /// The window's first column, WX - 7, cannot be drawn: the column index
    /// would drop below zero. Only WX below 7 or above 166 leave nothing to draw.
    pub open spec fn window_drawable(self) -> bool {
        !(self.window_enabled && self.ly >= self.window_y && 7 <= self.window_x <= 166)
    }

    /// Whether the current line can be drawn.
    pub open spec fn render_ok(self) -> bool {
        self.window_drawable() && (self.sprites_enabled ==> self.sprites_drawable())
    }

    /// The frame being drawn after drawing the current line: background, then
    /// window (of which nothing is drawn when drawing is possible), then sprites.
    pub open spec fn rendered_backbuffer(self) -> Seq<Color> {
        let bb1 = if self.background_enabled {
            self.with_background(self.backbuffer)
        } else {
            self.backbuffer
        };
        if self.sprites_enabled {
            self.with_sprites(bb1, 40)
        } else {
            bb1
        }
    }

    /// Requests the LCD interrupt when LY equals LYC and the coincidence
    /// interrupt is selected.
    pub open spec fn coincidence(self, irq: Irq) -> Irq {
        if self.lyc == self.ly && self.stat.coincidence_interrupt_enabled {
            irq.spec_request(Interrupt::Lcd)
        } else {
            irq
        }
    }

    /// The unit after `cycles` more cycles, before the coincidence check: when
    /// the cycles of the current mode are used up it moves on, OAM search to
    /// pixel transfer, pixel transfer to horizontal blank (drawing the line),
    /// horizontal blank to the next line (to vertical blank after line 0x8E,
    /// publishing the frame and requesting the vertical blank interrupt), and
    /// vertical blank lines until line 0x99, then to line 0.
    pub open spec fn advance(self, irq: Irq, cycles: usize) -> (GpuView, Irq) {
        let c = self.cycles + cycles;
        if c < mode_length(self.mode) {
            (GpuView { cycles: c as usize, ..self }, irq)
        } else {
            match self.mode {
                GpuMode::OAM => (GpuView { cycles: 0, mode: GpuMode::VRAM, ..self }, irq),
                GpuMode::VRAM => (
                    GpuView {
                        cycles: 0,
                        mode: GpuMode::HBlank,
                        backbuffer: self.rendered_backbuffer(),
                        ..self
                    },
                    irq,
                ),
                GpuMode::HBlank => {
                    let ly = (self.ly + 1) as u8;
                    if ly == 0x8F {
                        (
                            GpuView {
                                cycles: 0,
                                ly,
                                mode: GpuMode::VBlank,
                                frame: self.backbuffer,
                                ..self
                            },
                            irq.spec_request(Interrupt::Vblank),
                        )
                    } else {
                        (GpuView { cycles: 0, ly, mode: GpuMode::OAM, ..self }, irq)
                    }
                },
                GpuMode::VBlank => {
                    let ly = (self.ly + 1) as u8;
                    if ly > 0x99 {
                        (GpuView { cycles: 0, ly: 0, mode: GpuMode::OAM, ..self }, irq)
                    } else {
                        (GpuView { cycles: 0, ly, ..self }, irq)
                    }
                },
            }
        }
    }

    /// A disabled unit does nothing; an enabled one advances, then checks coincidence.
    pub open spec fn step(self, irq: Irq, cycles: usize) -> (GpuView, Irq) {
        if !self.enabled {
            (self, irq)
        } else {
            let (g, i) = self.advance(irq, cycles);
            (g, g.coincidence(i))
        }
    }

    /// Whether a step of `cycles` cycles can run: the cycle count must not
    /// overflow and a line that is drawn must be drawable.
    pub open spec fn step_ok(self, cycles: usize) -> bool {
        &&& cycles <= usize::MAX - 0x1C8
        &&& (self.enabled && self.mode == GpuMode::VRAM && self.cycles + cycles >= 0xAC)
            ==> self.render_ok()
    }
}

/// The fields that drawing a line reads are the same in `g` and `h`.
pub open spec fn same_picture_inputs(g: GpuView, h: GpuView) -> bool {
    &&& g.ram == h.ram
    &&& g.sprite_data == h.sprite_data
    &&& g.ly == h.ly
    &&& g.scroll_y == h.scroll_y
    &&& g.scroll_x == h.scroll_x
    &&& g.window_y == h.window_y
    &&& g.window_x == h.window_x
    &&& g.bg_palette == h.bg_palette
    &&& g.palette0 == h.palette0
    &&& g.palette1 == h.palette1
    &&& g.tile_data_addr == h.tile_data_addr
    &&& g.background_tilemap_addr == h.background_tilemap_addr
    &&& g.window_tilemap_addr == h.window_tilemap_addr
    &&& g.sprite_shape == h.sprite_shape
    &&& g.sprites_enabled == h.sprites_enabled
    &&& g.background_enabled == h.background_enabled
    &&& g.window_enabled == h.window_enabled
    &&& g.theme == h.theme
}

proof fn lemma_picture_inputs(g: GpuView, h: GpuView, bb: Seq<Color>, n: int)
    requires
        same_picture_inputs(g, h),
    ensures
        g.with_sprites(bb, n) == h.with_sprites(bb, n),
        g.with_background(bb) == h.with_background(bb),
        g.sprites_drawable() == h.sprites_drawable(),
        g.render_ok() == h.render_ok(),
    decreases n,
{
    if n > 0 {
        lemma_picture_inputs(g, h, bb, n - 1);
        assert(g.with_sprite_columns(g.with_sprites(bb, n - 1), n - 1, 8) =~= h.with_sprite_columns(
            h.with_sprites(bb, n - 1),
            n - 1,
            8,
        ));
    }
    assert(g.with_background(bb) =~= h.with_background(bb));
    assert forall|s: int, x: int| g.sprite_draws(s, x) == h.sprite_draws(s, x) by {}
    assert(g.sprites_drawable() == h.sprites_drawable());
}

proof fn lemma_rendered_same(g: GpuView, h: GpuView)
    requires
        same_picture_inputs(g, h),
        g.backbuffer == h.backbuffer,
    ensures
        g.rendered_backbuffer() == h.rendered_backbuffer(),
{
    lemma_picture_inputs(g, h, g.backbuffer, 40);
    let bb1 = if g.background_enabled { g.with_background(g.backbuffer) } else { g.backbuffer };
    lemma_picture_inputs(g, h, bb1, 40);
}

proof fn lemma_palette_shade(p: u8, b: u8)
    requires
        b <= 3,
    ensures
        b == 0 ==> p & 0x03 == palette_shade(p, b),
        b == 1 ==> (p & 0x0C) >> 0x02u8 == palette_shade(p, b),
        b == 2 ==> (p & 0x30) >> 0x04u8 == palette_shade(p, b),
        b == 3 ==> (p & 0xC0) >> 0x06u8 == palette_shade(p, b),
        palette_shade(p, b) <= 3,
{
    let s = (2 * b) as u8;
    assert(p & 0x03 == (p >> 0u8) & 0x03 && (p & 0x0C) >> 0x02u8 == (p >> 2u8) & 0x03 && (p & 0x30)
        >> 0x04u8 == (p >> 4u8) & 0x03 && (p & 0xC0) >> 0x06u8 == (p >> 6u8) & 0x03 && (p >> s) & 0x03
        <= 3) by (bit_vector);
}

proof fn lemma_pixel_value_bound(lo: u8, hi: u8, shift: u8)
    ensures
        pixel_value(lo, hi, shift) <= 3,
{
    assert((((hi >> shift) & 0x01) << 1u8) | ((lo >> shift) & 0x01) <= 3) by (bit_vector);
}

impl Gpu {
    pub open spec fn spec_new() -> GpuView {
        GpuView {
            enabled: true,
            ram: Seq::new(VRAM_SIZE as nat, |i: int| 0u8),
            sprite_data: Seq::new(SPRITE_DATA_SIZE as nat, |i: int| 0u8),
            ly: 0x00,
            lyc: 0x00,
            frame: blank_frame(),
            backbuffer: blank_frame(),
            mode: GpuMode::HBlank,
            control_register: 0x00,
            stat: GpuStat {
                coincidence_interrupt_enabled: false,
                OAM_interrupt_enabled: false,
                VBlank_interrupt_enabled: false,
                HBlank_interrupt_enabled: false,
            },
            scroll_y: 0x00,
            scroll_x: 0x00,
            window_y: 0x00,
            window_x: 0x00,
            bg_palette: 0x00,
            palette0: 0x00,
            palette1: 0x00,
            cycles: 0x00,
            counter: 0,
            tile_data_addr: 0x00,
            background_tilemap_addr: 0xC00,
            window_tilemap_addr: 0x00,
            sprite_shape: SpriteShape::Square,
            sprites_enabled: true,
            background_enabled: true,
            window_enabled: true,
            theme: Theme::Default,
        }
    }

    pub fn new() -> (g: Gpu)
        ensures
            g@ == Gpu::spec_new(),
            g@.wf(),
    {
        Gpu {
            enabled: true,
            ram: Memory::new(VRAM_SIZE),
            sprite_data: Memory::new(SPRITE_DATA_SIZE),
            control_register: 0x00,
            stat: GpuStat::new(),
            scroll_y: 0x00,
            scroll_x: 0x00,
            window_y: 0x00,
            window_x: 0x00,
            ly: 0x00,
            lyc: 0x00,
            bg_palette: 0x00,
            palette0: 0x00,
            palette1: 0x00,
            cycles: 0x00,
            frame: Frame::new(),
            backbuffer: Frame::new(),
            mode: GpuMode::HBlank,
            counter: 0,
            tile_data_addr: 0x00,
            background_tilemap_addr: 0xC00,
            window_tilemap_addr: 0x00,
            sprite_shape: SpriteShape::Square,
            sprites_enabled: true,
            background_enabled: true,
            window_enabled: true,
            theme: Theme::Default,
        }
    }

    pub fn reset(&mut self)
        ensures
            final(self)@ == Gpu::spec_new(),
            final(self)@.wf(),
    {
        *self = Gpu::new();
    }

    /// Runs the unit for `cycles` cycles.
    #[verifier::rlimit(40)]
    pub fn step(&mut self, irq: &mut Irq, cycles: usize) -> (r: Result<(), String>)
        requires
            old(self)@.wf(),
            old(self)@.step_ok(cycles),
        ensures
            r is Ok,
            final(self)@.wf(),
            (final(self)@, *final(irq)) == old(self)@.step(*old(irq), cycles),
    {
        if !self.enabled {
            return Ok(());
        }
        self.cycles += cycles;

        match self.mode {
            GpuMode::OAM => {
                if self.cycles >= 0x50 {
                    self.cycles = 0x00;
                    self.mode = GpuMode::VRAM;
                }
            },
            GpuMode::VRAM => {
                if self.cycles >= 0xAC {
                    self.cycles = 0x00;
                    self.mode = GpuMode::HBlank;
                    proof {
                        lemma_rendered_same(self@, old(self)@);
                        lemma_picture_inputs(self@, old(self)@, self@.backbuffer, 40);
                    }
                    if self.enabled {
                        self.render_scanline();
                    }
                }
            },
            GpuMode::HBlank => {
                if self.cycles >= 0xCC {
                    self.cycles = 0x00;
                    self.ly += 0x01;

                    if self.ly == 0x8F {
                        self.mode = GpuMode::VBlank;
                        self.frame = self.backbuffer.copy();
                        irq.request(Interrupt::Vblank);
                    } else {
                        self.mode = GpuMode::OAM;
                    }
                }
            },
            GpuMode::VBlank => {
                if self.cycles >= 0x1C8 {
                    self.cycles = 0x00;
                    self.ly += 0x01;

                    if self.ly > 0x99 {
                        self.mode = GpuMode::OAM;
                        self.ly = 0x00;
                    }
                }
            },
        }
        self.check_coincidence(irq);
        Ok(())
    }

    fn render_scanline(&mut self)
        requires
            old(self)@.wf(),
            old(self)@.ly < 0x8F,
            old(self)@.render_ok(),
        ensures
            final(self)@ == (GpuView { backbuffer: old(self)@.rendered_backbuffer(), ..old(self)@ }),
            final(self)@.backbuffer.len() == FRAME_PIXELS,
    {
        let ghost g0 = self@;
        self.render_background();
        proof {
            lemma_picture_inputs(g0, self@, self@.backbuffer, 40);
        }
        self.render_window();
        self.render_sprites();
        proof {
            let bb1 = if g0.background_enabled { g0.with_background(g0.backbuffer) } else { g0.backbuffer };
            lemma_picture_inputs(g0, self@, bb1, 40);
        }
    }

    fn render_background(&mut self)
        requires
            old(self)@.wf(),
            old(self)@.ly < 0x8F,
        ensures
            final(self)@ == (GpuView {
                backbuffer: if old(self)@.background_enabled {
                    old(self)@.with_background(old(self)@.backbuffer)
                } else {
                    old(self)@.backbuffer
                },
                ..old(self)@
            }),
    {
        if !self.background_enabled {
            return;
        }
        let options = TileRenderOptions::new(
            TileRenderType::Background,
            self.ly as usize,
            self.background_tilemap_addr,
            self.tile_data_addr,
        );
        self.render_tile(&options);
    }

    fn render_window(&mut self)
        requires
            old(self)@.wf(),
            old(self)@.ly < 0x8F,
            old(self)@.window_drawable(),
        ensures
            final(self)@ == old(self)@,
    {
        if !self.window_enabled {
            return;
        }
        if !(self.ly as usize >= self.window_y as usize) {
            return;
        }
        let options = TileRenderOptions::new(
            TileRenderType::Window,
            self.ly as usize,
            self.window_tilemap_addr,
            self.tile_data_addr,
        );
        self.render_tile(&options);
    }

    fn render_tile(&mut self, options: &TileRenderOptions)
        requires
            old(self)@.wf(),
            old(self)@.ly < 0x8F,
            options.line == old(self)@.ly,
            options.tile_base_addr == old(self)@.tile_data_addr,
            options.render_type == TileRenderType::Background ==> options.map_addr
                == old(self)@.background_tilemap_addr,
            options.render_type == TileRenderType::Window ==> {
                &&& options.map_addr == old(self)@.window_tilemap_addr
                &&& old(self)@.ly >= old(self)@.window_y
                &&& !(7 <= old(self)@.window_x <= 166)
            },
        ensures
            final(self)@ == (GpuView {
                backbuffer: if options.render_type == TileRenderType::Background {
                    old(self)@.with_background(old(self)@.backbuffer)
                } else {
                    old(self)@.backbuffer
                },
                ..old(self)@
            }),
    {
        let ghost g0 = self@;
        let window = options.render_type == TileRenderType::Window;
        let y: usize = if window {
            options.line
        } else {
            (options.line as u8).wrapping_add(self.scroll_y) as usize
        };
        let window_offset: usize = if window { self.window_y as usize } else { 0x00 };
        let map_row: usize = (y - window_offset) / 0x08;
        let start: usize = if window { self.window_x.wrapping_sub(0x07) as usize } else { 0 };
        let mut i: usize = start;
        while i < 160
            invariant
                self@ == (GpuView { backbuffer: self@.backbuffer, ..g0 }),
                g0.wf(),
                start <= i <= 160 || (start > 160 && i == start),
                window ==> start >= 160,
                !window ==> start == 0,
                !window ==> y == (g0.ly + g0.scroll_y) % 256,
                !window ==> options.map_addr == g0.background_tilemap_addr,
                options.tile_base_addr == g0.tile_data_addr,
                !window ==> map_row == y / 8,
                y < 256,
                g0.ly < 0x8F,
                self@.backbuffer.len() == FRAME_PIXELS,
                window ==> self@.backbuffer == g0.backbuffer,
                !window ==> forall|j: int|
                    #![trigger self@.backbuffer[j]]
                    0 <= j < FRAME_PIXELS ==> self@.backbuffer[j] == (if g0.row_start() <= j
                        < g0.row_start() + i {
                        g0.bg_pixel(j - g0.row_start())
                    } else {
                        g0.backbuffer[j]
                    }),
            decreases 160 - i,
        {
            let x: u8 = if window {
                i as u8 - self.window_x
            } else {
                (i as u8).wrapping_add(self.scroll_x)
            };
            let c = self.tile_color(options.map_addr, y, map_row, x);
            let idx: usize = self.ly as usize * 160 + i;
            self.backbuffer.pixels.set(idx, c);
            proof {
                assert(c == g0.bg_pixel(i as int));
            }
            i = i + 1;
        }
        proof {
            assert(self@.backbuffer =~= (if options.render_type == TileRenderType::Background {
                g0.with_background(g0.backbuffer)
            } else {
                g0.backbuffer
            }));
        }
    }

    fn render_sprites(&mut self)
        requires
            old(self)@.wf(),
            old(self)@.ly < 0x8F,
            old(self)@.sprites_enabled ==> old(self)@.sprites_drawable(),
        ensures
            final(self)@.backbuffer.len() == FRAME_PIXELS,
            final(self)@ == (GpuView {
                backbuffer: if old(self)@.sprites_enabled {
                    old(self)@.with_sprites(old(self)@.backbuffer, 40)
                } else {
                    old(self)@.backbuffer
                },
                ..old(self)@
            }),
    {
        if !self.sprites_enabled {
            return;
        }
        let ghost g0 = self@;
        let mut i: usize = 0;
        while i < 40
            invariant
                self@ == (GpuView { backbuffer: self@.backbuffer, ..g0 }),
                g0.wf(),
                g0.sprites_drawable(),
                i <= 40,
                g0.ly < 0x8F,
                self@.backbuffer.len() == FRAME_PIXELS,
                self@.backbuffer == g0.with_sprites(g0.backbuffer, i as int),
            decreases 40 - i,
        {
            let sprite_table_entry_base: usize = i * 0x04;
            let s_y = self.sprite_data.read_u8(sprite_table_entry_base as u16) as i16 - 0x10;
            let s_x = self.sprite_data.read_u8((sprite_table_entry_base + 0x01) as u16) as i16 - 0x08;
            let sprite_height: i16 = if let SpriteShape::Rectangle = self.sprite_shape {
                0x10
            } else {
                0x08
            };
            let ghost bb_i = self@.backbuffer;
            if s_y <= self.ly as i16 && (s_y + sprite_height as i16) > self.ly as i16 {
                let tile_number = self.sprite_data.read_u8((sprite_table_entry_base + 0x02) as u16) as i16;
                let attributes = self.sprite_data.read_u8((sprite_table_entry_base + 0x03) as u16);
                let flip_x = attributes & 0x20 == 0x20;
                let line_in_sprite: i16 = self.ly as i16 - s_y;
                let sprite_line = line_in_sprite << 0x01;
                proof {
                    assert(sprite_line == line_in_sprite * 2) by (bit_vector)
                        requires
                            sprite_line == line_in_sprite << 0x01,
                            0 <= line_in_sprite < 16,
                    ;
                }
                let tile_data_start = (tile_number * 0x10) + sprite_line;
                let mut x: i16 = 0;
                while x < 8
                    invariant
                        self@ == (GpuView { backbuffer: self@.backbuffer, ..g0 }),
                        g0.wf(),
                        g0.sprites_drawable(),
                        i < 40,
                        g0.ly < 0x8F,
                        0 <= x <= 8,
                        s_x == g0.sprite_x(i as int),
                        s_y == g0.sprite_y(i as int),
                        g0.sprite_on_line(i as int),
                        attributes == g0.sprite_attributes(i as int),
                        flip_x == (attributes & 0x20 == 0x20),
                        tile_data_start == g0.sprite_data[4 * i + 2] * 16 + (g0.ly - s_y) * 2,
                        bb_i.len() == FRAME_PIXELS,
                        self@.backbuffer == g0.with_sprite_columns(bb_i, i as int, x as int),
                    decreases 8 - x,
                {
                    if s_x + x < 0 || s_x + x >= 160 {
                        proof {
                            assert(g0.with_sprite_columns(bb_i, i as int, x as int)
                                =~= g0.with_sprite_columns(bb_i, i as int, x + 1));
                        }
                        x = x + 1;
                        continue;
                    }
                    let shift = if flip_x { x } else { 0x07 - x };
                    let lo = self.ram.byte_at(tile_data_start as usize);
                    let hi = self.ram.byte_at(tile_data_start as usize + 1);
                    let color_value = Self::build_palette_index(lo, hi, shift as u8);
                    if color_value == 0x00 {
                        proof {
                            assert(g0.with_sprite_columns(bb_i, i as int, x as int)
                                =~= g0.with_sprite_columns(bb_i, i as int, x + 1));
                        }
                        x = x + 1;
                        continue;
                    }
                    let c = self.get_sprite_color_for_byte(color_value, (attributes & 0x10) >> 0x04);
                    proof {
                        assert(g0.sprite_draws(i as int, x as int));
                        assert(s_x >= 0);
                    }
                    let idx = self.ly as usize * 160 + (s_x as usize + x as usize);
                    self.backbuffer.pixels.set(idx, c);
                    proof {
                        assert(self@.backbuffer =~= g0.with_sprite_columns(bb_i, i as int, x + 1));
                    }
                    x = x + 1;
                }
            } else {
                proof {
                    assert(g0.with_sprite_columns(bb_i, i as int, 8) =~= bb_i);
                }
            }
            i = i + 1;
        }
    }

    fn tile_color(&self, map_addr: usize, y: usize, map_row: usize, x: u8) -> (c: Color)
        requires
            self@.wf(),
            map_addr <= 0x1C00,
            y < 256,
            map_row == y / 8,
        ensures
            c == self@.tile_pixel(map_addr as int, y as int, x as int),
    {
        let map_col: usize = (x / 0x08) as usize;
        let raw_tile_number = self.ram.byte_at(map_addr + (map_row * 0x20 + map_col)) as usize;
        let line_offset: usize = (y % 0x08) << 0x01;
        proof {
            assert(line_offset == (y % 8) * 2) by (bit_vector)
                requires
                    line_offset == (y % 0x08) << 0x01,
            ;
        }
        let tile: usize = if self.tile_data_addr == 0x00 {
            raw_tile_number
        } else {
            (raw_tile_number + 0x80) % 0x100
        };
        let tile_data_start: usize = self.tile_data_addr + tile * 0x10 + line_offset;
        let x_shift: u8 = 0x07 - (x % 8);
        let lo = self.ram.byte_at(tile_data_start);
        let hi = self.ram.byte_at(tile_data_start + 1);
        let color_value = Self::build_palette_index(lo, hi, x_shift);
        self.get_background_color_for_byte(color_value)
    }

    fn get_background_color_for_byte(&self, b: u8) -> (c: Color)
        requires
            b <= 3,
        ensures
            c == theme_color(palette_shade(self.bg_palette, b), self.theme),
    {
        proof {
            lemma_palette_shade(self.bg_palette, b);
        }
        let palette_index = match b {
            0x00 => self.bg_palette & 0x0003,
            0x01 => (self.bg_palette & 0x000C) >> 0x02,
            0x02 => (self.bg_palette & 0x0030) >> 0x04,
            _ => (self.bg_palette & 0x00C0) >> 0x06,
        };
        Color::from(palette_index, &self.theme)
    }

    fn get_sprite_color_for_byte(&self, b: u8, palette_entry: u8) -> (c: Color)
        requires
            b <= 3,
        ensures
            c == theme_color(
                palette_shade(if palette_entry == 0 { self.palette0 } else { self.palette1 }, b),
                self.theme,
            ),
    {
        let palette = if palette_entry == 0x00 {
            self.palette0
        } else {
            self.palette1
        };
        proof {
            lemma_palette_shade(palette, b);
        }
        let palette_index = match b {
            0x00 => palette & 0x0003,
            0x01 => (palette & 0x000C) >> 0x02,
            0x02 => (palette & 0x0030) >> 0x04,
            _ => (palette & 0x00C0) >> 0x06,
        };
        Color::from(palette_index, &self.theme)
    }

    /// The LCD register at `addr`.
    pub fn read_u8(&self, addr: u16) -> (b: u8)
        requires
            GpuView::register_ok(addr),
        ensures
            b == self@.read_u8(addr),
    {
        match addr {
            0x40 => self.control_register,
            0x41 => self.stat.to_u8(self),
            0x42 => self.scroll_y,
            0x43 => self.scroll_x,
            0x4A => self.window_y,
            0x4B => self.window_x,
            0x44 => self.ly,
            0x45 => self.lyc,
            0x47 => self.bg_palette,
            0x48 => self.palette0,
            _ => self.palette1,
        }
    }

    /// Writes the LCD register at `addr`.
    pub fn write_u8(&mut self, addr: u16, val: u8)
        requires
            old(self)@.wf(),
            GpuView::register_ok(addr),
        ensures
            final(self)@ == old(self)@.write_u8(addr, val),
            final(self)@.wf(),
    {
        match addr {
            0x40 => self.write_control(val),
            0x41 => self.stat = GpuStat::from_u8(val),
            0x42 => self.scroll_y = val,
            0x43 => self.scroll_x = val,
            0x44 => (),
            0x45 => {
                self.lyc = val;
            },
            0x47 => self.bg_palette = val,
            0x48 => self.palette0 = val,
            0x49 => self.palette1 = val,
            0x4A => self.window_y = val,
            _ => self.window_x = val,
        }
    }

    fn write_control(&mut self, val: u8)
        requires
            old(self)@.wf(),
        ensures
            final(self)@ == old(self)@.write_control(val),
            final(self)@.wf(),
    {
        let was_enabled = self.enabled;
        self.control_register = val;
        self.enabled = self.control_register & 0x80 == 0x80;
        self.tile_data_addr = if self.control_register & 0x10 == 0x10 {
            0x00
        } else {
            0x800
        };
        self.window_tilemap_addr = if self.control_register & 0x40 == 0x40 {
            0x1C00
        } else {
            0x1800
        };
        self.background_tilemap_addr = if self.control_register & 0x08 == 0x08 {
            0x1C00
        } else {
            0x1800
        };
        self.sprite_shape = if self.control_register & 0x04 == 0x04 {
            SpriteShape::Rectangle
        } else {
            SpriteShape::Square
        };
        self.window_enabled = self.control_register & 0x20 == 0x20;
        self.sprites_enabled = self.control_register & 0x02 == 0x02;
        self.background_enabled = self.control_register & 0x01 == 0x01;

        if was_enabled && !self.enabled {
            self.cycles = 0x00;
            self.ly = 0x00;
            self.mode = GpuMode::HBlank;
            self.frame = Frame::new();
        }
    }

    /// Writes `val` to video RAM at `addr`, low byte first.
    pub fn write_u16(&mut self, addr: u16, val: u16)
        requires
            addr + 2 <= old(self)@.ram.len(),
        ensures
            final(self)@ == old(self)@.write_u16(addr, val),
    {
        self.ram.write_u16(addr, val)
    }

    fn check_coincidence(&mut self, irq: &mut Irq)
        ensures
            *final(self) == *old(self),
            *final(irq) == old(self)@.coincidence(*old(irq)),
    {
        if self.lyc == self.ly && self.stat.coincidence_interrupt_enabled {
            irq.request(Interrupt::Lcd);
        }
    }

    /// Whether no sprite column that lands on the display on the current line
    /// lies left of its sprite's first column on the display.
    fn sprites_can_draw(&self) -> (b: bool)
        requires
            self@.wf(),
        ensures
            b == self@.sprites_drawable(),
    {
        let ghost g = self@;
        let mut i: usize = 0;
        while i < 40
            invariant
                self@ == g,
                g.wf(),
                i <= 40,
                forall|s: int, x: int|
                    0 <= s < i && 0 <= x < 8 && #[trigger] g.sprite_draws(s, x) ==> g.sprite_x(s) >= 0,
            decreases 40 - i,
        {
            let base: usize = i * 0x04;
            let s_y = self.sprite_data.read_u8(base as u16) as i16 - 0x10;
            let s_x = self.sprite_data.read_u8((base + 0x01) as u16) as i16 - 0x08;
            let sprite_height: i16 = if let SpriteShape::Rectangle = self.sprite_shape {
                0x10
            } else {
                0x08
            };
            if s_y <= self.ly as i16 && (s_y + sprite_height) > self.ly as i16 && s_x < 0 {
                let tile_number = self.sprite_data.read_u8((base + 0x02) as u16) as i16;
                let attributes = self.sprite_data.read_u8((base + 0x03) as u16);
                let flip_x = attributes & 0x20 == 0x20;
                let tile_data_start = tile_number * 0x10 + (self.ly as i16 - s_y) * 2;
                let mut x: i16 = 0;
                while x < 8
                    invariant
                        self@ == g,
                        g.wf(),
                        i < 40,
                        0 <= x <= 8,
                        s_x == g.sprite_x(i as int),
                        s_x < 0,
                        g.sprite_on_line(i as int),
                        attributes == g.sprite_attributes(i as int),
                        flip_x == (attributes & 0x20 == 0x20),
                        tile_data_start == g.sprite_data[4 * i + 2] * 16 + (g.ly - g.sprite_y(i as int)) * 2,
                        forall|xx: int| 0 <= xx < x ==> !#[trigger] g.sprite_draws(i as int, xx),
                    decreases 8 - x,
                {
                    if s_x + x >= 0 && s_x + x < 160 {
                        let shift = if flip_x {
                            x
                        } else {
                            0x07 - x
                        };
                        let lo = self.ram.byte_at(tile_data_start as usize);
                        let hi = self.ram.byte_at(tile_data_start as usize + 1);
                        if Self::build_palette_index(lo, hi, shift as u8) != 0 {
                            assert(g.sprite_draws(i as int, x as int));
                            return false;
                        }
                    }
                    x = x + 1;
                }
            }
            i = i + 1;
        }
        true
    }

    /// Whether `cycles` more cycles can be run: the count leaves room for the
    /// longest mode, and a line that is drawn can be drawn.
    pub fn can_step(&self, cycles: usize) -> (b: bool)
        requires
            self@.wf(),
        ensures
            b == self@.step_ok(cycles),
    {
        if cycles > usize::MAX - 0x1C8 {
            return false;
        }
        if self.enabled && self.mode == GpuMode::VRAM && self.cycles + cycles >= 0xAC {
            let window_ok = !(self.window_enabled && self.ly >= self.window_y && 7 <= self.window_x
                && self.window_x <= 166);
            window_ok && (!self.sprites_enabled || self.sprites_can_draw())
        } else {
            true
        }
    }

    /// The colour number of a tile pixel: bit `x_shift` of `hi`, then of `lo`.
    fn build_palette_index(lo: u8, hi: u8, x_shift: u8) -> (v: u8)
        requires
            x_shift < 8,
        ensures
            v == pixel_value(lo, hi, x_shift),
            v <= 3,
    {
        let tile_data1 = (lo >> x_shift) & 0x01;
        let tile_data2 = (hi >> x_shift) & 0x01;
        proof {
            lemma_pixel_value_bound(lo, hi, x_shift);
        }
        (tile_data2 << 1) | tile_data1
    }
}

} // verus!
