use vstd::prelude::*;

use crate::document::Color;
use crate::scalar::ONE;

verus! {

/// Size of the drawing surface and its background colour.
#[derive(Clone, Copy, Debug)]
pub struct Canvas {
    pub width: u32,
    pub height: u32,
    pub background: Color,
}

impl Canvas {
    /// A canvas of the given size on a white background.
    pub fn new(width: u32, height: u32) -> (r: Canvas)
        ensures
            r == (Canvas { width, height, background: Color::white() }),
    {
        Canvas { width, height, background: Color::new(ONE, ONE, ONE, ONE) }
    }
}

} // verus!
