use vstd::prelude::*;

verus! {

/// The palette that the four shades of the display are drawn in.
#[derive(Clone, Copy, Debug, PartialEq, Eq, Structural)]
pub enum Theme {
    /// Greys from white to black.
    Default,
    /// The greens of the first handheld's screen.
    ClassicDMG,
}

} // verus!
