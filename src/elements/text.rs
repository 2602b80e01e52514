use vstd::prelude::*;

use crate::document::Color;
use crate::scalar::ONE;

verus! {

/// A run of text; `font_size` is a single-precision bit pattern.
#[derive(Debug)]
pub struct TextElement {
    pub content: String,
    pub font_family: String,
    pub font_size: u32,
    pub fill: Color,
}

impl Clone for TextElement {
    fn clone(&self) -> (r: TextElement)
        ensures
            r == *self,
    {
        TextElement {
            content: self.content.clone(),
            font_family: self.font_family.clone(),
            font_size: self.font_size,
            fill: self.fill,
        }
    }
}

/// Font size of new text: 24.0.
pub const DEFAULT_FONT_SIZE: u32 = 0x41C0_0000;

/// Bit pattern of 0.1, the grey of new text.
pub const TEXT_GREY: u32 = 0x3DCC_CCCD;

impl TextElement {
    /// New text in the system font, size 24, near-black.
    pub fn new(content: String) -> (r: TextElement)
        ensures
            r.content == content,
            r.font_family@ == "system-ui"@,
            r.font_size == DEFAULT_FONT_SIZE,
            r.fill == (Color { r: TEXT_GREY, g: TEXT_GREY, b: TEXT_GREY, a: ONE }),
    {
        TextElement {
            content,
            font_family: "system-ui".to_owned(),
            font_size: DEFAULT_FONT_SIZE,
            fill: Color::new(TEXT_GREY, TEXT_GREY, TEXT_GREY, ONE),
        }
    }
}

} // verus!
