//! Color theming for drawing: which color a surface is cleared to and which
//! color text is drawn with.

use vstd::prelude::*;

verus! {

/// A pairing of drawing colors for a display. Implemented by users of a
/// display driver to pick its background and text colors.
pub trait Theme {
    /// The display's color type.
    type Color;

    /// The color the surface is cleared to before drawing.
    fn background(&self) -> Self::Color;

    /// The color text is drawn with.
    fn text(&self) -> Self::Color;
}

} // verus!
