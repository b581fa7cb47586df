use vstd::prelude::*;

use crate::gameboy::ui::theme::Theme;

verus! {

/// A pixel colour.
#[derive(Clone, Copy, Debug, PartialEq, Eq, Structural)]
pub struct Color {
    pub r: u8,
    pub g: u8,
    pub b: u8,
    pub a: u8,
}

/// The colour that `theme` gives the shade `b` (0 lightest, 3 darkest).
pub open spec fn theme_color(b: u8, theme: Theme) -> Color {
    match theme {
        Theme::Default => if b == 0x00 {
            Color { r: 0xFF, g: 0xFF, b: 0xFF, a: 0xFF }
        } else if b == 0x01 {
            Color { r: 0xC0, g: 0xC0, b: 0xC0, a: 0xFF }
        } else if b == 0x02 {
            Color { r: 0x60, g: 0x60, b: 0x60, a: 0xFF }
        } else {
            Color { r: 0x00, g: 0x00, b: 0x00, a: 0xFF }
        },
        Theme::ClassicDMG => if b == 0x00 {
            Color { r: 0x9B, g: 0xBC, b: 0x0F, a: 0xFF }
        } else if b == 0x01 {
            Color { r: 0x8B, g: 0xAC, b: 0x0F, a: 0xFF }
        } else if b == 0x02 {
            Color { r: 0x30, g: 0x62, b: 0x30, a: 0xFF }
        } else {
            Color { r: 0x0F, g: 0x38, b: 0x0F, a: 0xFF }
        },
    }
}

impl Color {
    pub fn new(r: u8, g: u8, b: u8, a: u8) -> (c: Color)
        ensures
            c == (Color { r, g, b, a }),
    {
        Color { r: r, g: g, b: b, a: a }
    }

    /// The colour of shade `b` in `theme`.
    pub fn from(b: u8, theme: &Theme) -> (c: Color)
        requires
            b <= 0x03,
        ensures
            c == theme_color(b, *theme),
    {
        match *theme {
            Theme::Default => {
                match b {
                    0x00 => Color::new(0xFF, 0xFF, 0xFF, 0xFF),
                    0x01 => Color::new(0xC0, 0xC0, 0xC0, 0xFF),
                    0x02 => Color::new(0x60, 0x60, 0x60, 0xFF),
                    _ => Color::new(0x00, 0x00, 0x00, 0xFF),
                }
            },
            Theme::ClassicDMG => {
                match b {
                    0x00 => Color::new(0x9B, 0xBC, 0x0F, 0xFF),
                    0x01 => Color::new(0x8B, 0xAC, 0x0F, 0xFF),
                    0x02 => Color::new(0x30, 0x62, 0x30, 0xFF),
                    _ => Color::new(0x0F, 0x38, 0x0F, 0xFF),
                }
            },
        }
    }
}

} // verus!
