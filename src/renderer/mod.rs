//! The renderer-agnostic side of drawing: projecting the document into
//! rectangles with a shape kind, and deciding what a frame draws. The
//! graphics backend that turns a frame into pixels sits outside the library.
use vstd::prelude::*;

use crate::document::{Element, Layer, LayerView, Transform2D};
use crate::elements::{ElementData, ShapeType};
use crate::scalar::{is_positive, is_positive_spec};

verus! {

/// An axis-aligned rectangle; each field a single-precision bit pattern.
#[derive(Clone, Copy, Debug, PartialEq, Eq, Structural)]
pub struct Rect {
    pub x: u32,
    pub y: u32,
    pub width: u32,
    pub height: u32,
}

impl Rect {
    pub open spec fn is_valid_spec(self) -> bool {
        is_positive_spec(self.width) && is_positive_spec(self.height)
    }

    /// A rectangle is drawn only with a positive width and height.
    pub fn is_valid(&self) -> (r: bool)
        ensures
            r == self.is_valid_spec(),
    {
        is_positive(self.width) && is_positive(self.height)
    }
}

/// The outline a renderer draws for a primitive.
#[derive(Clone, Copy, Debug, PartialEq, Eq, Structural)]
pub enum ShapeKind {
    Rect,
    Ellipse,
    Diamond,
}

/// One primitive of the projected scene.
#[derive(Clone, Copy, Debug, PartialEq, Eq, Structural)]
pub struct RenderShape {
    pub rect: Rect,
    pub shape: ShapeKind,
}

/// The bounding rectangle of a frame; rotation is not applied.
pub open spec fn rect_of(t: Transform2D) -> Rect {
    Rect { x: t.x, y: t.y, width: t.width, height: t.height }
}

/// How an element is drawn: shapes by their kind (a line as a rectangle,
/// a polygon as a diamond), images as rectangles, text not at all.
pub open spec fn render_kind(d: ElementData) -> Option<ShapeKind> {
    match d {
        ElementData::Shape(s) => Some(
            match s.shape_type {
                ShapeType::Rect => ShapeKind::Rect,
                ShapeType::Ellipse => ShapeKind::Ellipse,
                ShapeType::Polygon => ShapeKind::Diamond,
                ShapeType::Line => ShapeKind::Rect,
            },
        ),
        ElementData::Text(_) => None,
        ElementData::Image(_) => Some(ShapeKind::Rect),
    }
}

/// The primitives of a sequence of elements, in order.
pub open spec fn element_prims(es: Seq<Element>) -> Seq<RenderShape>
    decreases es.len(),
{
    if es.len() == 0 {
        Seq::empty()
    } else {
        let e = es.last();
        element_prims(es.drop_last()) + match render_kind(e.data) {
            Some(k) => seq![RenderShape { rect: rect_of(e.transform), shape: k }],
            None => Seq::empty(),
        }
    }
}

/// The primitives of the scene: layers in order, hidden ones skipped.
pub open spec fn scene_prims(ls: Seq<LayerView>) -> Seq<RenderShape>
    decreases ls.len(),
{
    if ls.len() == 0 {
        Seq::empty()
    } else {
        scene_prims(ls.drop_last()) + if ls.last().visible {
            element_prims(ls.last().elements)
        } else {
            Seq::empty()
        }
    }
}

/// Frame of the last element with the id among the first `m` elements.
pub open spec fn selected_in_layer(es: Seq<Element>, id: u32, m: int) -> Option<Rect>
    decreases m,
{
    if m <= 0 {
        None
    } else if es[m - 1].id == id {
        Some(rect_of(es[m - 1].transform))
    } else {
        selected_in_layer(es, id, m - 1)
    }
}

/// Frame of the last element with the id in the first `n` visible layers.
pub open spec fn selected_in_layers(ls: Seq<LayerView>, id: u32, n: int) -> Option<Rect>
    decreases n,
{
    if n <= 0 {
        None
    } else {
        let l = ls[n - 1];
        let here = if l.visible {
            selected_in_layer(l.elements, id, l.elements.len() as int)
        } else {
            None
        };
        if here is Some {
            here
        } else {
            selected_in_layers(ls, id, n - 1)
        }
    }
}

/// Frame to outline for the selection, if the selected element is drawn.
pub open spec fn selected_rect(ls: Seq<LayerView>, selected: Option<u32>) -> Option<Rect> {
    match selected {
        Some(id) => selected_in_layers(ls, id, ls.len() as int),
        None => None,
    }
}

fn element_prim(e: &Element) -> (r: Option<RenderShape>)
    ensures
        r == match render_kind(e.data) {
            Some(k) => Some(RenderShape { rect: rect_of(e.transform), shape: k }),
            None => None,
        },
{
    let t = e.transform;
    let rect = Rect { x: t.x, y: t.y, width: t.width, height: t.height };
    match &e.data {
        ElementData::Shape(shape) => {
            let kind = match shape.shape_type {
                ShapeType::Rect => ShapeKind::Rect,
                ShapeType::Ellipse => ShapeKind::Ellipse,
                ShapeType::Polygon => ShapeKind::Diamond,
                ShapeType::Line => ShapeKind::Rect,
            };
            Some(RenderShape { rect, shape: kind })
        },
        ElementData::Text(_) => None,
        ElementData::Image(_) => Some(RenderShape { rect, shape: ShapeKind::Rect }),
    }
}

/// Projects layers into draw primitives, and finds the frame of the
/// selected element among the visible layers.
pub fn project_scene(layers: &Vec<Layer>, selected: Option<u32>) -> (r: (
    Vec<RenderShape>,
    Option<Rect>,
))
    ensures
        r.0@ == scene_prims(layers@.map_values(|l: Layer| l@)),
        r.1 == selected_rect(layers@.map_values(|l: Layer| l@), selected),
{
    let ghost ls = layers@.map_values(|l: Layer| l@);
    let mut rects: Vec<RenderShape> = Vec::new();
    let mut selected_frame: Option<Rect> = None;
    let mut i: usize = 0;
    while i < layers.len()
        invariant
            ls == layers@.map_values(|l: Layer| l@),
            0 <= i <= layers.len(),
            rects@ == scene_prims(ls.take(i as int)),
            selected_frame == match selected {
                Some(id) => selected_in_layers(ls, id, i as int),
                None => None,
            },
        decreases layers.len() - i,
    {
        let ghost before = rects@;
        let ghost sel_before = selected_frame;
        proof {
            assert(ls.take(i + 1).drop_last() =~= ls.take(i as int));
        }
        if layers[i].visible {
            let es = &layers[i].elements;
            let mut j: usize = 0;
            while j < es.len()
                invariant
                    ls == layers@.map_values(|l: Layer| l@),
                    0 <= i < layers.len(),
                    es@ == ls[i as int].elements,
                    0 <= j <= es.len(),
                    rects@ == before + element_prims(es@.take(j as int)),
                    selected_frame == match selected {
                        Some(id) => if selected_in_layer(es@, id, j as int) is Some {
                            selected_in_layer(es@, id, j as int)
                        } else {
                            sel_before
                        },
                        None => None,
                    },
                decreases es.len() - j,
            {
                proof {
                    assert(es@.take(j + 1).drop_last() =~= es@.take(j as int));
                }
                match element_prim(&es[j]) {
                    Some(p) => {
                        rects.push(p);
                    },
                    None => {},
                }
                if let Some(id) = selected {
                    if es[j].id == id {
                        let t = es[j].transform;
                        selected_frame = Some(
                            Rect { x: t.x, y: t.y, width: t.width, height: t.height },
                        );
                    }
                }
                proof {
                    assert(rects@ =~= before + element_prims(es@.take(j + 1)));
                }
                j += 1;
            }
            proof {
                assert(es@.take(es@.len() as int) =~= es@);
                assert(rects@ =~= scene_prims(ls.take(i + 1)));
            }
        } else {
            proof {
                assert(rects@ =~= scene_prims(ls.take(i + 1)));
            }
        }
        i += 1;
    }
    proof {
        assert(ls.take(ls.len() as int) =~= ls);
    }
    (rects, selected_frame)
}

/// Indices of the drawable rectangles among the first `n`, in order.
pub open spec fn drawable_indices(rects: Seq<RenderShape>, n: int) -> Seq<usize>
    decreases n,
{
    if n <= 0 {
        Seq::empty()
    } else {
        drawable_indices(rects, n - 1) + if rects[n - 1].rect.is_valid_spec() {
            seq![(n - 1) as usize]
        } else {
            Seq::empty()
        }
    }
}

/// What one frame draws: the viewport, the indices of the primitives to
/// fill (positions in the projected list, which also pick their tint), and
/// the selection outline.
#[derive(Debug)]
pub struct Frame {
    pub width: u32,
    pub height: u32,
    pub draw: Vec<usize>,
    pub outline: Option<Rect>,
}

/// The viewport size; the drawing surface itself is held by the host.
#[derive(Debug)]
pub struct Renderer {
    width: u32,
    height: u32,
}

impl Renderer {
    pub closed spec fn size(&self) -> (u32, u32) {
        (self.width, self.height)
    }

    /// A renderer with an empty viewport.
    pub fn new() -> (r: Renderer)
        ensures
            r.size() == (0u32, 0u32),
    {
        Renderer { width: 0, height: 0 }
    }

    pub fn resize(&mut self, width: u32, height: u32)
        ensures
            final(self).size() == (width, height),
    {
        self.width = width;
        self.height = height;
    }

    /// The frame to draw: nothing for an empty viewport; otherwise the valid
    /// rectangles in order and the selection outline when it is valid.
    pub fn render(&self, rects: &Vec<RenderShape>, selected: Option<Rect>) -> (r: Option<Frame>)
        ensures
            (self.size().0 == 0 || self.size().1 == 0) ==> r is None,
            (self.size().0 != 0 && self.size().1 != 0) ==> r is Some && {
                let f = r->Some_0;
                &&& f.width == self.size().0
                &&& f.height == self.size().1
                &&& f.draw@ == drawable_indices(rects@, rects@.len() as int)
                &&& f.outline == match selected {
                    Some(s) => if s.is_valid_spec() {
                        Some(s)
                    } else {
                        None
                    },
                    None => None,
                }
            },
    {
        if self.width == 0 || self.height == 0 {
            return None;
        }
        let mut draw: Vec<usize> = Vec::new();
        let mut i: usize = 0;
        while i < rects.len()
            invariant
                0 <= i <= rects.len(),
                draw@ == drawable_indices(rects@, i as int),
            decreases rects.len() - i,
        {
            if rects[i].rect.is_valid() {
                draw.push(i);
            }
            proof {
                assert(draw@ =~= drawable_indices(rects@, i + 1));
            }
            i += 1;
        }
        let outline = match selected {
            Some(s) => if s.is_valid() {
                Some(s)
            } else {
                None
            },
            None => None,
        };
        Some(Frame { width: self.width, height: self.height, draw, outline })
    }
}

} // verus!
