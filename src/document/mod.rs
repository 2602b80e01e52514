mod canvas;
mod element;
mod history;
mod layer;
mod transform;

use vstd::prelude::*;

use crate::elements::{ElementData, ShapeElement};
use crate::scalar::ONE;

pub use canvas::Canvas;
pub use element::{or_keep, or_keep_extent, Element, ElementUpdate};
pub use history::{record_post, redo_post, undo_post, Command, History, HistoryView};
pub use layer::{Layer, LayerView};
pub use transform::Transform2D;

verus! {

/// A colour; each channel is the bit pattern of a single-precision number in 0..=1.
#[derive(Clone, Copy, Debug, PartialEq, Eq, Structural)]
pub struct Color {
    pub r: u32,
    pub g: u32,
    pub b: u32,
    pub a: u32,
}

impl Color {
    pub open spec fn white() -> Color {
        Color { r: ONE, g: ONE, b: ONE, a: ONE }
    }

    pub fn new(r: u32, g: u32, b: u32, a: u32) -> (c: Color)
        ensures
            c == (Color { r, g, b, a }),
    {
        Color { r, g, b, a }
    }
}

impl Default for Color {
    /// Opaque white.
    fn default() -> (c: Color)
        ensures
            c == Color::white(),
    {
        Color::new(ONE, ONE, ONE, ONE)
    }
}

// ---------------------------------------------------------------------------
// Lookups over a sequence of layers
// ---------------------------------------------------------------------------

/// Layer `i` is the first one with the given id.
pub open spec fn is_first_layer(ls: Seq<LayerView>, id: u32, i: int) -> bool {
    &&& 0 <= i < ls.len()
    &&& ls[i].id == id
    &&& forall|j: int| 0 <= j < i ==> ls[j].id != id
}

pub open spec fn has_layer(ls: Seq<LayerView>, id: u32) -> bool {
    exists|i: int| is_first_layer(ls, id, i)
}

/// Position of the first layer with the given id (meaningful under `has_layer`).
pub open spec fn layer_index(ls: Seq<LayerView>, id: u32) -> int {
    choose|i: int| is_first_layer(ls, id, i)
}

/// Element `ei` of layer `li` is the first element with the given id, in
/// layer order and then element order.
pub open spec fn is_first_location(ls: Seq<LayerView>, id: u32, li: int, ei: int) -> bool {
    &&& 0 <= li < ls.len()
    &&& 0 <= ei < ls[li].elements.len()
    &&& ls[li].elements[ei].id == id
    &&& forall|j: int, k: int|
        0 <= j < li && 0 <= k < ls[j].elements.len() ==> #[trigger] ls[j].elements[k].id != id
    &&& forall|k: int| 0 <= k < ei ==> #[trigger] ls[li].elements[k].id != id
}

pub open spec fn has_element(ls: Seq<LayerView>, id: u32) -> bool {
    exists|p: (int, int)| is_first_location(ls, id, p.0, p.1)
}

/// Where the first element with the given id stands (meaningful under `has_element`).
pub open spec fn element_location(ls: Seq<LayerView>, id: u32) -> (int, int) {
    choose|p: (int, int)| is_first_location(ls, id, p.0, p.1)
}

/// Some element, anywhere, carries the id.
pub open spec fn occurs(ls: Seq<LayerView>, id: u32) -> bool {
    exists|li: int, ei: int|
        0 <= li < ls.len() && 0 <= ei < ls[li].elements.len() && #[trigger] ls[li].elements[ei].id
            == id
}

/// Element `ei` of layer `li` is the first shape in layer order, then element order.
pub open spec fn is_first_shape(ls: Seq<LayerView>, li: int, ei: int) -> bool {
    &&& 0 <= li < ls.len()
    &&& 0 <= ei < ls[li].elements.len()
    &&& ls[li].elements[ei].is_shape()
    &&& forall|j: int, k: int|
        0 <= j < li && 0 <= k < ls[j].elements.len() ==> !(#[trigger] ls[j].elements[k]).is_shape()
    &&& forall|k: int| 0 <= k < ei ==> !(#[trigger] ls[li].elements[k]).is_shape()
}

/// Id of the first shape of the document, if there is one.
pub open spec fn first_shape(ls: Seq<LayerView>) -> Option<u32> {
    if exists|p: (int, int)| is_first_shape(ls, p.0, p.1) {
        let p = choose|p: (int, int)| is_first_shape(ls, p.0, p.1);
        Some(ls[p.0].elements[p.1].id)
    } else {
        None
    }
}

pub open spec fn max_u32(a: u32, b: u32) -> u32 {
    if a >= b {
        a
    } else {
        b
    }
}

/// Largest element id of a sequence of elements, 0 when it is empty.
pub open spec fn max_element_id(es: Seq<Element>) -> u32
    decreases es.len(),
{
    if es.len() == 0 {
        0
    } else {
        max_u32(max_element_id(es.drop_last()), es.last().id)
    }
}

/// Largest layer or element id of a sequence of layers, 0 when there is none.
pub open spec fn max_id(ls: Seq<LayerView>) -> u32
    decreases ls.len(),
{
    if ls.len() == 0 {
        0
    } else {
        max_u32(max_u32(max_id(ls.drop_last()), ls.last().id), max_element_id(ls.last().elements))
    }
}

/// Number of elements over all layers.
pub open spec fn element_count(ls: Seq<LayerView>) -> nat
    decreases ls.len(),
{
    if ls.len() == 0 {
        0
    } else {
        element_count(ls.drop_last()) + ls.last().elements.len()
    }
}

/// The layer with its element sequence replaced.
pub open spec fn with_elements(l: LayerView, elements: Seq<Element>) -> LayerView {
    LayerView { id: l.id, name: l.name, visible: l.visible, locked: l.locked, elements }
}

/// A document as a value.
pub struct DocumentView {
    pub canvas: Canvas,
    pub layers: Seq<LayerView>,
    pub active_layer_id: u32,
    pub next_id: u32,
}

impl DocumentView {
    pub open spec fn with_layers(self, layers: Seq<LayerView>) -> DocumentView {
        DocumentView { layers, ..self }
    }

    /// The document with element `ei` of layer `li` replaced by `e`.
    pub open spec fn with_element_at(self, li: int, ei: int, e: Element) -> DocumentView {
        self.with_layers(
            self.layers.update(li, with_elements(self.layers[li], self.layers[li].elements.update(ei, e))),
        )
    }

    /// Layer ids are unique: what lets a layer id name one layer.
    pub open spec fn wf(self) -> bool {
        forall|i: int, j: int|
            0 <= i < self.layers.len() && 0 <= j < self.layers.len() && i != j
                ==> #[trigger] self.layers[i].id != #[trigger] self.layers[j].id
    }

    /// `insert_element_at`: `e` goes into the first layer with `layer_id`, at
    /// `index` clamped to that layer's length.
    pub open spec fn insert_spec(self, layer_id: u32, index: int, e: Element) -> DocumentView {
        if has_layer(self.layers, layer_id) {
            let li = layer_index(self.layers, layer_id);
            let es = self.layers[li].elements;
            let at = if index < es.len() { index } else { es.len() as int };
            self.with_layers(self.layers.update(li, with_elements(self.layers[li], es.insert(at, e))))
        } else {
            self
        }
    }

    /// `remove_element_by_id`: the first element with `id` leaves its layer.
    pub open spec fn remove_spec(self, id: u32) -> DocumentView {
        if has_element(self.layers, id) {
            let (li, ei) = element_location(self.layers, id);
            self.with_layers(
                self.layers.update(li, with_elements(self.layers[li], self.layers[li].elements.remove(ei))),
            )
        } else {
            self
        }
    }

    /// `replace_element_by_id`: the first element with `id` becomes `e`.
    pub open spec fn replace_by_id_spec(self, id: u32, e: Element) -> DocumentView {
        if has_element(self.layers, id) {
            let (li, ei) = element_location(self.layers, id);
            self.with_element_at(li, ei, e)
        } else {
            self
        }
    }

    /// The slot `index` of the first layer with `layer_id` holds an element
    /// with id `id`.
    pub open spec fn slot_matches(self, layer_id: u32, index: int, id: u32) -> bool {
        &&& has_layer(self.layers, layer_id)
        &&& 0 <= index < self.layers[layer_index(self.layers, layer_id)].elements.len()
        &&& self.layers[layer_index(self.layers, layer_id)].elements[index].id == id
    }

    /// `replace_element_at`: the exact slot when it still holds `e.id`, else
    /// the first element with `e.id`.
    pub open spec fn replace_at_spec(self, layer_id: u32, index: int, e: Element) -> DocumentView {
        if self.slot_matches(layer_id, index, e.id) {
            self.with_element_at(layer_index(self.layers, layer_id), index, e)
        } else {
            self.replace_by_id_spec(e.id, e)
        }
    }

    /// Whether `replace_element_at` finds an element to replace.
    pub open spec fn replace_at_succeeds(self, layer_id: u32, index: int, e: Element) -> bool {
        self.slot_matches(layer_id, index, e.id) || has_element(self.layers, e.id)
    }

    /// The element the first location of `id` holds.
    pub open spec fn element_of(self, id: u32) -> Element {
        let (li, ei) = element_location(self.layers, id);
        self.layers[li].elements[ei]
    }

    pub open spec fn element_count(self) -> nat {
        element_count(self.layers)
    }

    /// `push_element`: `e` goes at the end of the first layer with `layer_id`.
    pub open spec fn push_spec(self, layer_id: u32, e: Element) -> DocumentView {
        self.insert_spec(
            layer_id,
            self.layers[layer_index(self.layers, layer_id)].elements.len() as int,
            e,
        )
    }

    /// The allocator has room for what `ensure_primary_shape` may take: one
    /// id for the shape and, when the active layer is gone, one for a new layer.
    pub open spec fn primary_shape_fits(self) -> bool {
        first_shape(self.layers) is None ==> if has_layer(self.layers, self.active_layer_id) {
            self.next_id < u32::MAX
        } else {
            self.next_id < u32::MAX - 1
        }
    }
}

/// A default rectangle named "Rectangle" with the given id and frame.
pub open spec fn is_new_rectangle(e: Element, id: u32, t: Transform2D) -> bool {
    &&& e.id == id
    &&& e.name@ == "Rectangle"@
    &&& e.transform == t
    &&& e.data == ElementData::Shape(ShapeElement::rectangle_spec())
}

/// What `ensure_primary_shape(t)` does to `old`, giving `new` and returning `r`:
/// the first shape is moved to `t`; without one, a default rectangle is
/// pushed onto the active layer, or onto a new active layer when that is gone.
pub open spec fn ensure_primary_shape_post(
    old: DocumentView,
    new: DocumentView,
    t: Transform2D,
    r: u32,
) -> bool {
    match first_shape(old.layers) {
        Some(id) => r == id && new == old.replace_by_id_spec(
            id,
            Element { transform: t, ..old.element_of(id) },
        ),
        None => {
            &&& r == old.next_id
            &&& exists|e: Element|
                {
                    &&& is_new_rectangle(e, r, t)
                    &&& if has_layer(old.layers, old.active_layer_id) {
                        new == (DocumentView { next_id: (r + 1) as u32, ..old }).push_spec(
                            old.active_layer_id,
                            e,
                        )
                    } else {
                        exists|name: String| #[trigger] name@ == "Layer 1"@ && new == (DocumentView {
                            layers: old.layers.push(
                                LayerView {
                                    id: (r + 1) as u32,
                                    name,
                                    visible: true,
                                    locked: false,
                                    elements: Seq::empty(),
                                },
                            ),
                            active_layer_id: (r + 1) as u32,
                            next_id: (r + 2) as u32,
                            ..old
                        }).push_spec((r + 1) as u32, e)
                    }
                }
        },
    }
}

/// `next_element_id` took `old` to `new` and returned `id`.
pub open spec fn next_id_post(old: DocumentView, new: DocumentView, id: u32) -> bool {
    id == old.next_id && id < u32::MAX && new == (DocumentView { next_id: (id + 1) as u32, ..old })
}

/// `recalculate_next_id` took `old` to `new`: the allocator stands past the
/// largest id present; a document without layers gets "Layer 1" with id 1.
pub open spec fn recalculate_post(old: DocumentView, new: DocumentView) -> bool {
    &&& old.layers.len() > 0 ==> new == (DocumentView { next_id: id_after(max_id(old.layers)), ..old })
    &&& old.layers.len() == 0 ==> exists|name: String|
        #[trigger] name@ == "Layer 1"@ && new == (DocumentView {
            layers: seq![
                LayerView { id: 1, name, visible: true, locked: false, elements: Seq::empty() },
            ],
            active_layer_id: 1,
            next_id: 2,
            ..old
        })
}

/// `max_id + 1`, saturating at the largest id.
pub open spec fn id_after(m: u32) -> u32 {
    if m < u32::MAX {
        (m + 1) as u32
    } else {
        u32::MAX
    }
}

/// Whether the point lies in element `ei` of layer `li`, as `inside` says;
/// entries missing from `inside` count as outside.
pub open spec fn flag(inside: Seq<Vec<bool>>, li: int, ei: int) -> bool {
    &&& 0 <= li < inside.len()
    &&& 0 <= ei < inside[li]@.len()
    &&& inside[li]@[ei]
}

/// Topmost hit among the first `n` elements of layer `li`: the one with the
/// greatest index.
pub open spec fn hit_in_layer(es: Seq<Element>, inside: Seq<Vec<bool>>, li: int, n: int) -> Option<u32>
    decreases n,
{
    if n <= 0 {
        None
    } else if flag(inside, li, n - 1) {
        Some(es[n - 1].id)
    } else {
        hit_in_layer(es, inside, li, n - 1)
    }
}

/// Topmost hit among the first `n` layers, skipping hidden and locked ones.
pub open spec fn hit_layers(ls: Seq<LayerView>, inside: Seq<Vec<bool>>, n: int) -> Option<u32>
    decreases n,
{
    if n <= 0 {
        None
    } else {
        let l = ls[n - 1];
        let here = if l.visible && !l.locked {
            hit_in_layer(l.elements, inside, n - 1, l.elements.len() as int)
        } else {
            None
        };
        if here is Some {
            here
        } else {
            hit_layers(ls, inside, n - 1)
        }
    }
}

/// The whole editable scene: canvas, ordered layers, the layer that receives
/// new elements, and the id allocator.
#[derive(Debug)]
pub struct Document {
    pub canvas: Canvas,
    pub layers: Vec<Layer>,
    pub active_layer_id: u32,
    next_id: u32,
}

impl View for Document {
    type V = DocumentView;

    closed spec fn view(&self) -> DocumentView {
        DocumentView {
            canvas: self.canvas,
            layers: self.layers@.map_values(|l: Layer| l@),
            active_layer_id: self.active_layer_id,
            next_id: self.next_id,
        }
    }
}


impl Clone for Document {
    fn clone(&self) -> (r: Document)
        ensures
            r@ == self@,
    {
        let layers = self.layers.clone();
        proof {
            assert(layers@.map_values(|l: Layer| l@) =~= self.layers@.map_values(|l: Layer| l@));
        }
        Document {
            canvas: self.canvas,
            layers,
            active_layer_id: self.active_layer_id,
            next_id: self.next_id,
        }
    }
}

/// The first layer with an id is unique.
pub proof fn lemma_first_layer_unique(ls: Seq<LayerView>, id: u32, i: int)
    requires
        is_first_layer(ls, id, i),
    ensures
        has_layer(ls, id),
        layer_index(ls, id) == i,
{
    let k = layer_index(ls, id);
    if k < i {
        assert(ls[k].id != id);
    } else if k > i {
        assert(ls[i].id != id);
    }
}

/// The first location of an id is unique.
pub proof fn lemma_first_location_unique(ls: Seq<LayerView>, id: u32, li: int, ei: int)
    requires
        is_first_location(ls, id, li, ei),
    ensures
        has_element(ls, id),
        element_location(ls, id) == (li, ei),
{
    let w = (li, ei);
    assert(is_first_location(ls, id, w.0, w.1));
    let p = element_location(ls, id);
    assert(is_first_location(ls, id, p.0, p.1));
    if p.0 < li {
        assert(ls[p.0].elements[p.1].id == id);
    } else if p.0 > li {
        assert(ls[li].elements[ei].id == id);
    } else if p.1 < ei {
        assert(ls[li].elements[p.1].id == id);
    } else if p.1 > ei {
        assert(ls[li].elements[ei].id == id);
    }
}

/// An id that occurs anywhere has a first location.
pub proof fn lemma_occurs_has_first(ls: Seq<LayerView>, id: u32, li: int, ei: int)
    requires
        0 <= li < ls.len(),
        0 <= ei < ls[li].elements.len(),
        ls[li].elements[ei].id == id,
    ensures
        has_element(ls, id),
    decreases li, ei,
{
    if is_first_location(ls, id, li, ei) {
        lemma_first_location_unique(ls, id, li, ei);
    } else if exists|j: int, k: int|
        0 <= j < li && 0 <= k < ls[j].elements.len() && #[trigger] ls[j].elements[k].id == id {
        let (j, k) = choose|j: int, k: int|
            0 <= j < li && 0 <= k < ls[j].elements.len() && #[trigger] ls[j].elements[k].id == id;
        lemma_occurs_has_first(ls, id, j, k);
    } else {
        let k = choose|k: int| 0 <= k < ei && #[trigger] ls[li].elements[k].id == id;
        lemma_occurs_has_first(ls, id, li, k);
    }
}

/// The first shape is unique.
pub proof fn lemma_first_shape_unique(ls: Seq<LayerView>, li: int, ei: int)
    requires
        is_first_shape(ls, li, ei),
    ensures
        first_shape(ls) == Some(ls[li].elements[ei].id),
{
    let w = (li, ei);
    assert(is_first_shape(ls, w.0, w.1));
    let p = choose|p: (int, int)| is_first_shape(ls, p.0, p.1);
    assert(is_first_shape(ls, p.0, p.1));
    if p.0 < li {
        assert(ls[p.0].elements[p.1].is_shape());
    } else if p.0 > li {
        assert(ls[li].elements[ei].is_shape());
    } else if p.1 < ei {
        assert(ls[li].elements[p.1].is_shape());
    } else if p.1 > ei {
        assert(ls[li].elements[ei].is_shape());
    }
}

impl Document {
    /// A document with one empty layer, "Layer 1", with id 1, active; the next id is 2.
    pub fn new(width: u32, height: u32) -> (d: Document)
        ensures
            d@.canvas == (Canvas { width, height, background: Color::white() }),
            d@.layers.len() == 1,
            d@.layers[0].id == 1,
            d@.layers[0].name@ == "Layer 1"@,
            d@.layers[0].visible,
            !d@.layers[0].locked,
            d@.layers[0].elements.len() == 0,
            d@.active_layer_id == 1,
            d@.next_id == 2,
    {
        let base_layer = Layer::new(1, "Layer 1".to_owned());
        let mut layers: Vec<Layer> = Vec::new();
        layers.push(base_layer);
        Document { canvas: Canvas::new(width, height), layers, active_layer_id: 1, next_id: 2 }
    }

    /// A document rebuilt from its parts, as a stored snapshot gives them.
    pub fn from_parts(canvas: Canvas, layers: Vec<Layer>, active_layer_id: u32, next_id: u32) -> (d:
        Document)
        ensures
            d@ == (DocumentView {
                canvas,
                layers: layers@.map_values(|l: Layer| l@),
                active_layer_id,
                next_id,
            }),
    {
        Document { canvas, layers, active_layer_id, next_id }
    }

    /// The layers, in order.
    pub fn layers(&self) -> (r: &Vec<Layer>)
        ensures
            r@.map_values(|l: Layer| l@) == self@.layers,
    {
        &self.layers
    }

    /// The layer that receives new elements.
    pub fn active_layer(&self) -> (r: u32)
        ensures
            r == self@.active_layer_id,
    {
        self.active_layer_id
    }

    /// The id the allocator hands out next.
    pub fn peek_next_id(&self) -> (r: u32)
        ensures
            r == self@.next_id,
    {
        self.next_id
    }

    pub fn set_canvas_size(&mut self, width: u32, height: u32)
        ensures
            final(self)@ == (DocumentView {
                canvas: Canvas { width, height, background: old(self)@.canvas.background },
                ..old(self)@
            }),
    {
        self.canvas.width = width;
        self.canvas.height = height;
    }

    /// Hands out the current counter and advances it; ids are never reused.
    pub fn next_element_id(&mut self) -> (id: u32)
        requires
            old(self)@.next_id < u32::MAX,
        ensures
            next_id_post(old(self)@, final(self)@, id),
    {
        let id = self.next_id;
        self.next_id = self.next_id + 1;
        id
    }

    fn find_layer(&self, layer_id: u32) -> (r: Option<usize>)
        ensures
            match r {
                Some(i) => is_first_layer(self@.layers, layer_id, i as int) && layer_index(
                    self@.layers,
                    layer_id,
                ) == i,
                None => !has_layer(self@.layers, layer_id),
            },
    {
        let mut i: usize = 0;
        while i < self.layers.len()
            invariant
                0 <= i <= self.layers.len(),
                forall|j: int| 0 <= j < i ==> self@.layers[j].id != layer_id,
            decreases self.layers.len() - i,
        {
            if self.layers[i].id == layer_id {
                proof {
                    lemma_first_layer_unique(self@.layers, layer_id, i as int);
                }
                return Some(i);
            }
            i += 1;
        }
        None
    }

    fn find_location(&self, id: u32) -> (r: Option<(usize, usize)>)
        ensures
            match r {
                Some((li, ei)) => is_first_location(self@.layers, id, li as int, ei as int)
                    && element_location(self@.layers, id) == (li as int, ei as int),
                None => !has_element(self@.layers, id) && !occurs(self@.layers, id),
            },
    {
        let mut li: usize = 0;
        while li < self.layers.len()
            invariant
                0 <= li <= self.layers.len(),
                forall|j: int, k: int|
                    0 <= j < li && 0 <= k < self@.layers[j].elements.len()
                        ==> #[trigger] self@.layers[j].elements[k].id != id,
            decreases self.layers.len() - li,
        {
            let mut ei: usize = 0;
            while ei < self.layers[li].elements.len()
                invariant
                    0 <= li < self.layers.len(),
                    0 <= ei <= self.layers[li as int].elements.len(),
                    forall|j: int, k: int|
                        0 <= j < li && 0 <= k < self@.layers[j].elements.len()
                            ==> #[trigger] self@.layers[j].elements[k].id != id,
                    forall|k: int| 0 <= k < ei ==> #[trigger] self@.layers[li as int].elements[k].id != id,
                decreases self.layers[li as int].elements.len() - ei,
            {
                if self.layers[li].elements[ei].id == id {
                    proof {
                        lemma_first_location_unique(self@.layers, id, li as int, ei as int);
                    }
                    return Some((li, ei));
                }
                ei += 1;
            }
            li += 1;
        }
        None
    }

    /// Inserts into the first layer with `layer_id`, at `index` clamped to
    /// the layer's length; `false` (and no change) when no layer has the id.
    pub fn insert_element_at(&mut self, layer_id: u32, index: usize, element: Element) -> (ok: bool)
        ensures
            ok == has_layer(old(self)@.layers, layer_id),
            final(self)@ == old(self)@.insert_spec(layer_id, index as int, element),
    {
        match self.find_layer(layer_id) {
            Some(li) => {
                let ghost e = element;
                let len = self.layers[li].elements.len();
                let at = if index < len { index } else { len };
                self.layers[li].elements.insert(at, element);
                proof {
                    let ov = old(self)@;
                    assert(self@.layers =~= ov.layers.update(
                        li as int,
                        with_elements(ov.layers[li as int], ov.layers[li as int].elements.insert(at as int, e)),
                    ));
                }
                true
            },
            None => false,
        }
    }

    /// Appends to the layer with `layer_id`; the index it got, or `None`
    /// (and no change) when no layer has the id.
    pub fn push_element(&mut self, layer_id: u32, element: Element) -> (r: Option<usize>)
        ensures
            has_layer(old(self)@.layers, layer_id) ==> r == Some(
                old(self)@.layers[layer_index(old(self)@.layers, layer_id)].elements.len() as usize,
            ),
            !has_layer(old(self)@.layers, layer_id) ==> r is None,
            r is Some ==> r->Some_0 as int == old(self)@.layers[layer_index(
                old(self)@.layers,
                layer_id,
            )].elements.len(),
            final(self)@ == old(self)@.push_spec(layer_id, element),
    {
        match self.find_layer(layer_id) {
            Some(li) => {
                let ghost e = element;
                let index = self.layers[li].elements.len();
                self.layers[li].elements.push(element);
                proof {
                    let ov = old(self)@;
                    assert(ov.layers[li as int].elements.insert(index as int, e) =~= ov.layers[li as int].elements.push(e));
                    assert(self@.layers =~= ov.layers.update(
                        li as int,
                        with_elements(ov.layers[li as int], ov.layers[li as int].elements.insert(index as int, e)),
                    ));
                }
                Some(index)
            },
            None => None,
        }
    }

    /// Removes the first element with `id`, giving back its layer id, its
    /// index and the element; `None` when no element has the id.
    pub fn remove_element_by_id(&mut self, element_id: u32) -> (r: Option<(u32, usize, Element)>)
        ensures
            final(self)@ == old(self)@.remove_spec(element_id),
            match r {
                Some((layer_id, index, element)) => {
                    let (li, ei) = element_location(old(self)@.layers, element_id);
                    &&& has_element(old(self)@.layers, element_id)
                    &&& layer_id == old(self)@.layers[li].id
                    &&& index == ei
                    &&& element == old(self)@.layers[li].elements[ei]
                },
                None => !has_element(old(self)@.layers, element_id) && !occurs(
                    old(self)@.layers,
                    element_id,
                ),
            },
    {
        match self.find_location(element_id) {
            Some((li, ei)) => {
                let element = self.layers[li].elements.remove(ei);
                proof {
                    let ov = old(self)@;
                    assert(self@.layers =~= ov.layers.update(
                        li as int,
                        with_elements(ov.layers[li as int], ov.layers[li as int].elements.remove(ei as int)),
                    ));
                }
                Some((self.layers[li].id, ei, element))
            },
            None => None,
        }
    }

    /// Replaces the first element with `element_id` by `element`.
    pub fn replace_element_by_id(&mut self, element_id: u32, element: Element) -> (ok: bool)
        ensures
            ok == has_element(old(self)@.layers, element_id),
            final(self)@ == old(self)@.replace_by_id_spec(element_id, element),
    {
        match self.find_location(element_id) {
            Some((li, ei)) => {
                let ghost e = element;
                self.layers[li].elements.set(ei, element);
                proof {
                    let ov = old(self)@;
                    assert(self@.layers =~= ov.with_element_at(li as int, ei as int, e).layers);
                }
                true
            },
            None => false,
        }
    }

    /// Replaces at the exact slot when it still holds an element with the
    /// same id; otherwise falls back to the first element with that id.
    pub fn replace_element_at(&mut self, layer_id: u32, index: usize, element: Element) -> (ok: bool)
        ensures
            ok == old(self)@.replace_at_succeeds(layer_id, index as int, element),
            final(self)@ == old(self)@.replace_at_spec(layer_id, index as int, element),
    {
        if let Some(li) = self.find_layer(layer_id) {
            if index < self.layers[li].elements.len() && self.layers[li].elements[index].id
                == element.id {
                let ghost e = element;
                self.layers[li].elements.set(index, element);
                proof {
                    let ov = old(self)@;
                    assert(self@.layers =~= ov.with_element_at(li as int, index as int, e).layers);
                }
                return true;
            }
        }
        let id = element.id;
        self.replace_element_by_id(id, element)
    }

    /// Applies a sparse update to the first element with `element_id` and
    /// gives back its layer id, index, and the element before and after.
    pub fn apply_update(&mut self, element_id: u32, update: &ElementUpdate) -> (r: Option<
        (u32, usize, Element, Element),
    >)
        ensures
            match r {
                Some((layer_id, index, before, after)) => {
                    let (li, ei) = element_location(old(self)@.layers, element_id);
                    &&& has_element(old(self)@.layers, element_id)
                    &&& layer_id == old(self)@.layers[li].id
                    &&& index == ei
                    &&& before == old(self)@.layers[li].elements[ei]
                    &&& after == update.apply_spec(before)
                    &&& final(self)@ == old(self)@.with_element_at(li, ei, after)
                },
                None => !has_element(old(self)@.layers, element_id) && final(self)@ == old(self)@,
            },
    {
        match self.find_location(element_id) {
            Some((li, ei)) => {
                let before = self.layers[li].elements[ei].clone();
                let mut after = before.clone();
                update.apply_to(&mut after);
                let stored = after.clone();
                self.layers[li].elements.set(ei, stored);
                proof {
                    let ov = old(self)@;
                    assert(self@.layers =~= ov.with_element_at(li as int, ei as int, after).layers);
                }
                Some((self.layers[li].id, ei, before, after))
            },
            None => None,
        }
    }

    /// Moves the first element with `element_id` to `transform`.
    pub fn set_element_transform(&mut self, element_id: u32, transform: Transform2D) -> (ok: bool)
        ensures
            ok == has_element(old(self)@.layers, element_id),
            final(self)@ == old(self)@.replace_by_id_spec(
                element_id,
                Element { transform, ..old(self)@.element_of(element_id) },
            ),
    {
        match self.find_location(element_id) {
            Some((li, ei)) => {
                let ghost e = Element { transform, ..self@.element_of(element_id) };
                self.layers[li].elements[ei].transform = transform;
                proof {
                    let ov = old(self)@;
                    assert(self@.layers[li as int].elements =~= ov.layers[li as int].elements.update(ei as int, e));
                    assert(self@.layers =~= ov.with_element_at(li as int, ei as int, e).layers);
                }
                true
            },
            None => false,
        }
    }

    pub fn get_element_transform(&self, element_id: u32) -> (r: Option<Transform2D>)
        ensures
            r == if has_element(self@.layers, element_id) {
                Some(self@.element_of(element_id).transform)
            } else {
                None
            },
    {
        match self.find_location(element_id) {
            Some((li, ei)) => Some(self.layers[li].elements[ei].transform),
            None => None,
        }
    }

    /// The first element with `element_id`, in layer order.
    pub fn get_element_by_id(&self, element_id: u32) -> (r: Option<&Element>)
        ensures
            r == if has_element(self@.layers, element_id) {
                Some(&self@.element_of(element_id))
            } else {
                None
            },
    {
        match self.find_location(element_id) {
            Some((li, ei)) => Some(&self.layers[li].elements[ei]),
            None => None,
        }
    }

    /// Mutable access to the first element with `element_id`; writing
    /// through it replaces that element in place.
    pub fn get_element_by_id_mut(&mut self, element_id: u32) -> (r: Option<&mut Element>)
        ensures
            r is Some == has_element(old(self)@.layers, element_id),
            r is Some ==> *(r->Some_0) == old(self)@.element_of(element_id)
                && final(self)@.layers =~~= old(self)@.replace_by_id_spec(element_id, *final(r->Some_0)).layers
                && final(self)@.canvas == old(self)@.canvas
                && final(self)@.active_layer_id == old(self)@.active_layer_id
                && final(self)@.next_id == old(self)@.next_id,
            r is None ==> final(self)@ == old(self)@,
    {
        match self.find_location(element_id) {
            Some((li, ei)) => Some(&mut self.layers[li].elements[ei]),
            None => None,
        }
    }

    /// The owning layer id and current index of the first element with `element_id`.
    pub fn find_element_location(&self, element_id: u32) -> (r: Option<(u32, usize)>)
        ensures
            r == if has_element(self@.layers, element_id) {
                let (li, ei) = element_location(self@.layers, element_id);
                Some((self@.layers[li].id, ei as usize))
            } else {
                None
            },
    {
        match self.find_location(element_id) {
            Some((li, ei)) => Some((self.layers[li].id, ei)),
            None => None,
        }
    }

    /// Id of the first shape element, in layer order then element order.
    pub fn find_first_shape(&self) -> (r: Option<u32>)
        ensures
            r == first_shape(self@.layers),
    {
        let mut li: usize = 0;
        while li < self.layers.len()
            invariant
                0 <= li <= self.layers.len(),
                forall|j: int, k: int|
                    0 <= j < li && 0 <= k < self@.layers[j].elements.len()
                        ==> !(#[trigger] self@.layers[j].elements[k]).is_shape(),
            decreases self.layers.len() - li,
        {
            let mut ei: usize = 0;
            while ei < self.layers[li].elements.len()
                invariant
                    0 <= li < self.layers.len(),
                    0 <= ei <= self.layers[li as int].elements.len(),
                    forall|j: int, k: int|
                        0 <= j < li && 0 <= k < self@.layers[j].elements.len()
                            ==> !(#[trigger] self@.layers[j].elements[k]).is_shape(),
                    forall|k: int| 0 <= k < ei ==> !(#[trigger] self@.layers[li as int].elements[k]).is_shape(),
                decreases self.layers[li as int].elements.len() - ei,
            {
                if let ElementData::Shape(_) = &self.layers[li].elements[ei].data {
                    proof {
                        lemma_first_shape_unique(self@.layers, li as int, ei as int);
                    }
                    return Some(self.layers[li].elements[ei].id);
                }
                ei += 1;
            }
            li += 1;
        }
        None
    }

    /// Allocates an id and appends a new empty layer with it.
    pub fn add_layer(&mut self, name: String) -> (id: u32)
        requires
            old(self)@.next_id < u32::MAX,
        ensures
            id == old(self)@.next_id,
            final(self)@ == (DocumentView {
                layers: old(self)@.layers.push(
                    LayerView { id, name, visible: true, locked: false, elements: Seq::empty() },
                ),
                next_id: (id + 1) as u32,
                ..old(self)@
            }),
    {
        let id = self.next_element_id();
        let layer = Layer::new(id, name);
        self.layers.push(layer);
        proof {
            assert(self@.layers =~= old(self)@.layers.push(
                LayerView { id, name, visible: true, locked: false, elements: Seq::empty() },
            ));
        }
        id
    }

    /// Gives back a shape to manipulate: the first shape, moved to
    /// `transform`, or else a new default rectangle on the active layer (on a
    /// new active layer when the active one is gone).
    pub fn ensure_primary_shape(&mut self, transform: Transform2D) -> (r: u32)
        requires
            old(self)@.primary_shape_fits(),
        ensures
            ensure_primary_shape_post(old(self)@, final(self)@, transform, r),
    {
        if let Some(element_id) = self.find_first_shape() {
            self.set_element_transform(element_id, transform);
            return element_id;
        }
        let element_id = self.next_element_id();
        let element = Element::shape(
            element_id,
            "Rectangle".to_owned(),
            ShapeElement::rectangle(),
            transform,
        );
        let ghost e = element;
        let ghost old_layers = old(self)@.layers;
        let layer_id = self.active_layer_id;
        if self.push_element(layer_id, element).is_none() {
            let name = "Layer 1".to_owned();
            let ghost n = name;
            let layer_id = self.add_layer(name);
            self.active_layer_id = layer_id;
            let fallback = Element::shape(
                element_id,
                "Rectangle".to_owned(),
                ShapeElement::rectangle(),
                transform,
            );
            let ghost f = fallback;
            self.push_element(layer_id, fallback);
            proof {
                assert(is_new_rectangle(f, element_id, transform) && n@ == "Layer 1"@);
            }
        } else {
            proof {
                assert(is_new_rectangle(e, element_id, transform));
            }
        }
        element_id
    }

    /// Sets the allocator past every layer and element id present; a
    /// document without layers gets a new "Layer 1", made active.
    pub fn recalculate_next_id(&mut self)
        ensures
            recalculate_post(old(self)@, final(self)@),
    {
        let ghost ls = self@.layers;
        let mut highest: u32 = 0;
        let mut i: usize = 0;
        while i < self.layers.len()
            invariant
                ls == self@.layers,
                0 <= i <= self.layers.len(),
                highest == max_id(ls.take(i as int)),
            decreases self.layers.len() - i,
        {
            let ghost base = max_u32(highest, ls[i as int].id);
            if self.layers[i].id > highest {
                highest = self.layers[i].id;
            }
            let mut j: usize = 0;
            while j < self.layers[i].elements.len()
                invariant
                    ls == self@.layers,
                    0 <= i < self.layers.len(),
                    0 <= j <= self.layers[i as int].elements.len(),
                    highest == max_u32(base, max_element_id(ls[i as int].elements.take(j as int))),
                decreases self.layers[i as int].elements.len() - j,
            {
                if self.layers[i].elements[j].id > highest {
                    highest = self.layers[i].elements[j].id;
                }
                proof {
                    let es = ls[i as int].elements;
                    assert(es.take(j + 1).drop_last() =~= es.take(j as int));
                }
                j += 1;
            }
            proof {
                assert(ls.take(i + 1).drop_last() =~= ls.take(i as int));
                assert(ls[i as int].elements.take(ls[i as int].elements.len() as int) =~= ls[i as int].elements);
            }
            i += 1;
        }
        proof {
            assert(ls.take(ls.len() as int) =~= ls);
        }
        self.next_id = if highest < u32::MAX { highest + 1 } else { u32::MAX };
        if self.layers.len() == 0 {
            let name = "Layer 1".to_owned();
            let ghost n = name;
            let id = self.next_element_id();
            self.layers.push(Layer::new(id, name));
            self.active_layer_id = id;
            proof {
                assert(self@.layers =~= seq![
                    LayerView { id: 1, name: n, visible: true, locked: false, elements: Seq::empty() },
                ]);
            }
        }
    }

    /// The element under a point: the topmost one of the topmost visible,
    /// unlocked layer. `inside[l][i]` says whether the point lies in the frame
    /// of element `i` of layer `l`.
    pub fn hit_test(&self, inside: &Vec<Vec<bool>>) -> (r: Option<u32>)
        ensures
            r == hit_layers(self@.layers, inside@, self@.layers.len() as int),
    {
        let ghost ls = self@.layers;
        let mut n: usize = self.layers.len();
        while n > 0
            invariant
                ls == self@.layers,
                n <= self.layers.len(),
                hit_layers(ls, inside@, ls.len() as int) == hit_layers(ls, inside@, n as int),
            decreases n,
        {
            let li = n - 1;
            if self.layers[li].visible && !self.layers[li].locked {
                let ghost es = ls[li as int].elements;
                let mut m: usize = self.layers[li].elements.len();
                while m > 0
                    invariant
                        ls == self@.layers,
                        li < self.layers.len(),
                        li == n - 1,
                        m <= es.len(),
                        es == ls[li as int].elements,
                        ls[li as int].visible && !ls[li as int].locked,
                        hit_layers(ls, inside@, ls.len() as int) == hit_layers(ls, inside@, n as int),
                        hit_in_layer(es, inside@, li as int, es.len() as int) == hit_in_layer(
                            es,
                            inside@,
                            li as int,
                            m as int,
                        ),
                    decreases m,
                {
                    let ei = m - 1;
                    if li < inside.len() && ei < inside[li].len() && inside[li][ei] {
                        proof {
                            assert(flag(inside@, li as int, ei as int));
                            assert(hit_in_layer(es, inside@, li as int, m as int) == Some(es[ei as int].id));
                            assert(hit_layers(ls, inside@, n as int) == Some(es[ei as int].id));
                        }
                        return Some(self.layers[li].elements[ei].id);
                    }
                    m -= 1;
                }
            }
            n -= 1;
        }
        None
    }

    /// Whether `ensure_primary_shape` has the ids it may need.
    pub fn primary_shape_fits(&self) -> (r: bool)
        ensures
            r == self@.primary_shape_fits(),
    {
        if self.find_first_shape().is_some() {
            return true;
        }
        match self.find_layer(self.active_layer_id) {
            Some(_) => self.next_id < u32::MAX,
            None => self.next_id < u32::MAX - 1,
        }
    }
}

} // verus!
