use vstd::prelude::*;

use crate::gameboy::gfx::color::Color;

verus! {

/// Number of pixels of a frame (160 by 144).
pub const FRAME_PIXELS: usize = 23040;

/// The colour every pixel of a new frame has.
pub open spec fn white() -> Color {
    Color { r: 0xFF, g: 0xFF, b: 0xFF, a: 0xFF }
}

/// A blank frame.
pub open spec fn blank_frame() -> Seq<Color> {
    Seq::new(FRAME_PIXELS as nat, |i: int| white())
}

/// A picture of the display, row by row.
#[derive(Clone)]
pub struct Frame {
    pub pixels: Vec<Color>,
}

impl Frame {
    /// A white frame of 160 by 144 pixels.
    pub fn new() -> (f: Frame)
        ensures
            f.pixels@ == blank_frame(),
    {
        Frame { pixels: blank_pixels() }
    }

    /// Makes every pixel white.
    pub fn clear(&mut self)
        ensures
            final(self).pixels@ == blank_frame(),
    {
        self.pixels = blank_pixels();
    }

    /// A frame with the same pixels.
    pub fn copy(&self) -> (f: Frame)
        ensures
            f.pixels@ == self.pixels@,
    {
        let mut pixels: Vec<Color> = Vec::new();
        let mut i: usize = 0;
        while i < self.pixels.len()
            invariant
                i <= self.pixels@.len(),
                pixels@ == self.pixels@.subrange(0, i as int),
            decreases self.pixels@.len() - i,
        {
            pixels.push(self.pixels[i]);
            i = i + 1;
            assert(pixels@ =~= self.pixels@.subrange(0, i as int));
        }
        assert(pixels@ =~= self.pixels@);
        Frame { pixels }
    }
}

fn blank_pixels() -> (v: Vec<Color>)
    ensures
        v@ == blank_frame(),
{
    let mut v: Vec<Color> = Vec::new();
    let mut i: usize = 0;
    while i < FRAME_PIXELS
        invariant
            i <= FRAME_PIXELS,
            v@ == Seq::new(i as nat, |j: int| white()),
        decreases FRAME_PIXELS - i,
    {
        v.push(Color::new(0xFF, 0xFF, 0xFF, 0xFF));
        i = i + 1;
        assert(v@ =~= Seq::new(i as nat, |j: int| white()));
    }
    v
}

} // verus!
