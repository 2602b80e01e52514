use vstd::prelude::*;

use crate::document::Color;
use crate::scalar::ONE;

verus! {

/// The geometric kind of a shape element.
#[derive(Clone, Copy, Debug, PartialEq, Eq, Structural)]
pub enum ShapeType {
    Rect,
    Ellipse,
    Line,
    Polygon,
}

/// Interior paint of a shape.
#[derive(Clone, Copy, Debug)]
pub struct Fill {
    pub color: Color,
}

/// Outline of a shape; `width` is a single-precision bit pattern.
#[derive(Clone, Copy, Debug)]
pub struct Stroke {
    pub color: Color,
    pub width: u32,
}

/// A vector shape with optional fill and stroke.
#[derive(Clone, Copy, Debug)]
pub struct ShapeElement {
    pub shape_type: ShapeType,
    pub fill: Option<Fill>,
    pub stroke: Option<Stroke>,
}

/// The fill colour of a new rectangle: (0.86, 0.42, 0.25, 1.0).
pub open spec fn default_shape_color() -> Color {
    Color { r: 0x3F5C_28F6, g: 0x3ED7_0A3D, b: 0x3E80_0000, a: ONE }
}

impl ShapeElement {
    /// The shape a new element starts from: a filled rectangle without stroke.
    pub open spec fn rectangle_spec() -> ShapeElement {
        ShapeElement {
            shape_type: ShapeType::Rect,
            fill: Some(Fill { color: default_shape_color() }),
            stroke: None,
        }
    }

    pub fn rectangle() -> (r: ShapeElement)
        ensures
            r == ShapeElement::rectangle_spec(),
    {
        ShapeElement {
            shape_type: ShapeType::Rect,
            fill: Some(Fill { color: Color::new(0x3F5C_28F6, 0x3ED7_0A3D, 0x3E80_0000, ONE) }),
            stroke: None,
        }
    }
}

} // verus!
