use vstd::prelude::*;

verus! {

/// Sprites are 8 by 8 (square) or 8 by 16 (rectangle) pixels.
#[derive(Eq, PartialEq, Clone, Copy, Structural)]
pub enum SpriteShape {
    Square,
    Rectangle,
}

} // verus!
