use vstd::prelude::*;

use crate::document::{Color, Transform2D};
use crate::elements::{ElementData, ImageElement, ShapeElement, TextElement};
use crate::scalar::{clamp_extent, clamp_extent_spec};

verus! {

/// One drawable object: identity, display name, frame and kind-specific data.
#[derive(Debug)]
pub struct Element {
    pub id: u32,
    pub name: String,
    pub transform: Transform2D,
    pub data: ElementData,
}

impl Clone for Element {
    fn clone(&self) -> (r: Element)
        ensures
            r == *self,
    {
        Element {
            id: self.id,
            name: self.name.clone(),
            transform: self.transform,
            data: self.data.clone(),
        }
    }
}

impl Element {
    pub fn new(id: u32, name: String, transform: Transform2D, data: ElementData) -> (r: Element)
        ensures
            r == (Element { id, name, transform, data }),
    {
        Element { id, name, transform, data }
    }

    pub fn shape(id: u32, name: String, shape: ShapeElement, transform: Transform2D) -> (r:
        Element)
        ensures
            r == (Element { id, name, transform, data: ElementData::Shape(shape) }),
    {
        Element::new(id, name, transform, ElementData::Shape(shape))
    }

    pub fn text(id: u32, name: String, text: TextElement, transform: Transform2D) -> (r: Element)
        ensures
            r == (Element { id, name, transform, data: ElementData::Text(text) }),
    {
        Element::new(id, name, transform, ElementData::Text(text))
    }

    pub fn image(id: u32, name: String, image: ImageElement, transform: Transform2D) -> (r:
        Element)
        ensures
            r == (Element { id, name, transform, data: ElementData::Image(image) }),
    {
        Element::new(id, name, transform, ElementData::Image(image))
    }

    /// Whether the element is a shape.
    pub open spec fn is_shape(self) -> bool {
        self.data is Shape
    }
}

/// The value an optional field leaves behind: the new one if present.
pub open spec fn or_keep<T>(update: Option<T>, current: T) -> T {
    match update {
        Some(v) => v,
        None => current,
    }
}

/// Like `or_keep`, with a present value clamped to at least 1.0.
pub open spec fn or_keep_extent(update: Option<u32>, current: u32) -> u32 {
    match update {
        Some(v) => clamp_extent_spec(v),
        None => current,
    }
}

/// A sparse edit of an element: only the fields that are present change.
/// Numbers are single-precision bit patterns. The text fields apply to text
/// elements only and are ignored on the other kinds.
#[derive(Debug, Default)]
pub struct ElementUpdate {
    pub name: Option<String>,
    pub x: Option<u32>,
    pub y: Option<u32>,
    pub width: Option<u32>,
    pub height: Option<u32>,
    pub rotation: Option<u32>,
    pub content: Option<String>,
    pub font_family: Option<String>,
    pub font_size: Option<u32>,
    pub fill: Option<Color>,
}

impl ElementUpdate {
    /// The element after this update: identity kept, present fields written,
    /// extents clamped to at least 1.0, text fields only on text.
    pub open spec fn apply_spec(&self, e: Element) -> Element {
        Element {
            id: e.id,
            name: or_keep(self.name, e.name),
            transform: Transform2D {
                x: or_keep(self.x, e.transform.x),
                y: or_keep(self.y, e.transform.y),
                width: or_keep_extent(self.width, e.transform.width),
                height: or_keep_extent(self.height, e.transform.height),
                rotation: or_keep(self.rotation, e.transform.rotation),
            },
            data: match e.data {
                ElementData::Text(t) => ElementData::Text(
                    TextElement {
                        content: or_keep(self.content, t.content),
                        font_family: or_keep(self.font_family, t.font_family),
                        font_size: or_keep_extent(self.font_size, t.font_size),
                        fill: or_keep(self.fill, t.fill),
                    },
                ),
                other => other,
            },
        }
    }

    pub fn apply_to(&self, element: &mut Element)
        ensures
            *final(element) == self.apply_spec(*old(element)),
    {
        if let Some(name) = &self.name {
            element.name = name.clone();
        }
        if let Some(x) = self.x {
            element.transform.x = x;
        }
        if let Some(y) = self.y {
            element.transform.y = y;
        }
        if let Some(width) = self.width {
            element.transform.width = clamp_extent(width);
        }
        if let Some(height) = self.height {
            element.transform.height = clamp_extent(height);
        }
        if let Some(rotation) = self.rotation {
            element.transform.rotation = rotation;
        }
        if let ElementData::Text(text) = &mut element.data {
            if let Some(content) = &self.content {
                text.content = content.clone();
            }
            if let Some(font_family) = &self.font_family {
                text.font_family = font_family.clone();
            }
            if let Some(font_size) = self.font_size {
                text.font_size = clamp_extent(font_size);
            }
            if let Some(fill) = self.fill {
                text.fill = fill;
            }
        }
    }
}

} // verus!
