use vstd::prelude::*;

use crate::scalar::ZERO;

verus! {

/// Position, size and rotation of an element's bounding frame. Each field is
/// the bit pattern of a single-precision number.
#[derive(Clone, Copy, Debug, PartialEq, Eq, Structural)]
pub struct Transform2D {
    pub x: u32,
    pub y: u32,
    pub width: u32,
    pub height: u32,
    pub rotation: u32,
}

impl Transform2D {
    /// A frame with no rotation. Width and height are stored as given.
    pub fn new(x: u32, y: u32, width: u32, height: u32) -> (r: Transform2D)
        ensures
            r == (Transform2D { x, y, width, height, rotation: ZERO }),
    {
        Transform2D { x, y, width, height, rotation: ZERO }
    }
}

} // verus!
