use vstd::prelude::*;

use crate::scalar::ONE;

verus! {

/// Colour adjustments of an image; each a single-precision bit pattern.
#[derive(Clone, Copy, Debug)]
pub struct ImageFilters {
    pub brightness: u32,
    pub contrast: u32,
    pub saturation: u32,
}

impl Default for ImageFilters {
    /// Neutral filters: every factor 1.0.
    fn default() -> (r: ImageFilters)
        ensures
            r == (ImageFilters { brightness: ONE, contrast: ONE, saturation: ONE }),
    {
        ImageFilters { brightness: ONE, contrast: ONE, saturation: ONE }
    }
}

/// A raster image, referenced by its source text.
#[derive(Debug)]
pub struct ImageElement {
    pub source: String,
    pub filters: ImageFilters,
}

impl Clone for ImageElement {
    fn clone(&self) -> (r: ImageElement)
        ensures
            r == *self,
    {
        ImageElement { source: self.source.clone(), filters: self.filters }
    }
}

impl ImageElement {
    /// An image with neutral filters.
    pub fn new(source: String) -> (r: ImageElement)
        ensures
            r == (ImageElement {
                source,
                filters: ImageFilters { brightness: ONE, contrast: ONE, saturation: ONE },
            }),
    {
        ImageElement { source, filters: ImageFilters::default() }
    }
}

} // verus!
