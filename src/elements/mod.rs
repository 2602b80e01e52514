pub mod image;
pub mod shape;
pub mod text;

use vstd::prelude::*;

pub use image::{ImageElement, ImageFilters};
pub use shape::{Fill, ShapeElement, ShapeType, Stroke};
pub use text::TextElement;

verus! {

/// What an element draws: a closed set of kinds.
#[derive(Debug)]
pub enum ElementData {
    Shape(ShapeElement),
    Text(TextElement),
    Image(ImageElement),
}

impl Clone for ElementData {
    fn clone(&self) -> (r: ElementData)
        ensures
            r == *self,
    {
        match self {
            ElementData::Shape(shape) => ElementData::Shape(*shape),
            ElementData::Text(text) => ElementData::Text(text.clone()),
            ElementData::Image(image) => ElementData::Image(image.clone()),
        }
    }
}

} // verus!
