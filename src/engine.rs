//! The editing controller: selection, active tool, drag transactions and the
//! structural edits that go through the history.
use vstd::prelude::*;

use crate::document::{
    element_location, first_shape, has_element, has_layer, layer_index, recalculate_post,
    record_post, redo_post, undo_post, Color, Command, Document, DocumentView, Element, ElementUpdate, History,
    HistoryView, Transform2D,
};
use crate::elements::text::TEXT_GREY;
use crate::elements::{ElementData, ImageElement, ImageFilters, ShapeElement, ShapeType, TextElement};
use crate::renderer::{project_scene, scene_prims, selected_rect, Frame, RenderShape, Renderer};
use crate::scalar::{clamp_extent_spec, ONE};

verus! {

/// The tool the host has picked.
#[derive(Clone, Copy, Debug, PartialEq, Eq, Structural)]
pub enum Tool {
    Select,
    Shape,
    Text,
    Image,
}

/// Failures the controller reports to its host.
#[derive(Clone, Copy, Debug, PartialEq, Eq, Structural)]
pub enum EditorError {
    UnknownShapeType,
    UnknownTool,
    LayerNotFound,
}

impl EditorError {
    /// A human-readable message.
    pub fn message(&self) -> (r: String)
        ensures
            r@ == match self {
                EditorError::UnknownShapeType => "Unknown shape type"@,
                EditorError::UnknownTool => "Unknown tool"@,
                EditorError::LayerNotFound => "Layer not found"@,
            },
    {
        match self {
            EditorError::UnknownShapeType => "Unknown shape type".to_owned(),
            EditorError::UnknownTool => "Unknown tool".to_owned(),
            EditorError::LayerNotFound => "Layer not found".to_owned(),
        }
    }
}

/// The shape kind a name stands for.
pub open spec fn shape_type_of(s: Seq<char>) -> Option<ShapeType> {
    if s == "rect"@ || s == "rectangle"@ {
        Some(ShapeType::Rect)
    } else if s == "ellipse"@ {
        Some(ShapeType::Ellipse)
    } else if s == "line"@ {
        Some(ShapeType::Line)
    } else if s == "polygon"@ {
        Some(ShapeType::Polygon)
    } else {
        None
    }
}

/// The tool a name stands for.
pub open spec fn tool_of(s: Seq<char>) -> Option<Tool> {
    if s == "select"@ {
        Some(Tool::Select)
    } else if s == "shape"@ {
        Some(Tool::Shape)
    } else if s == "text"@ {
        Some(Tool::Text)
    } else if s == "image"@ {
        Some(Tool::Image)
    } else {
        None
    }
}

/// Parses "rect" or "rectangle", "ellipse", "line", "polygon".
pub fn parse_shape_type(shape_type: &str) -> (r: Result<ShapeType, EditorError>)
    ensures
        r == match shape_type_of(shape_type@) {
            Some(t) => Ok(t),
            None => Err(EditorError::UnknownShapeType),
        },
{
    let s = shape_type.to_owned();
    if s == "rect".to_owned() || s == "rectangle".to_owned() {
        Ok(ShapeType::Rect)
    } else if s == "ellipse".to_owned() {
        Ok(ShapeType::Ellipse)
    } else if s == "line".to_owned() {
        Ok(ShapeType::Line)
    } else if s == "polygon".to_owned() {
        Ok(ShapeType::Polygon)
    } else {
        Err(EditorError::UnknownShapeType)
    }
}

/// The state of an element when a drag began.
#[derive(Debug)]
pub struct TransformSnapshot {
    pub element_id: u32,
    pub before: Element,
}

/// The selection after it is re-derived: a selected id that no longer
/// resolves falls back to the first shape.
pub open spec fn synced(d: DocumentView, selected: Option<u32>) -> Option<u32> {
    match selected {
        Some(id) => if has_element(d.layers, id) {
            selected
        } else {
            first_shape(d.layers)
        },
        None => None,
    }
}

/// A new element as the controller builds it: the given id, name and
/// frame, and data.
pub open spec fn is_new_element(
    e: Element,
    id: u32,
    name: Seq<char>,
    t: Transform2D,
    data: ElementData,
) -> bool {
    &&& e.id == id
    &&& e.name@ == name
    &&& e.transform == t
    &&& e.data == data
}

/// The default shape data of the given kind.
pub open spec fn shape_data(kind: ShapeType) -> ElementData {
    ElementData::Shape(ShapeElement { shape_type: kind, ..ShapeElement::rectangle_spec() })
}

/// The element of the newest recorded addition.
pub open spec fn last_added(h: HistoryView) -> Element {
    h.undo.last()->AddElement_element
}

/// An add took `o` to `n`, returning `r`, where `base` is `o`'s document
/// after the id was allocated: the new element is pushed onto the active
/// layer, recorded and selected; or, when the active layer is gone, "layer
/// not found" with nothing else changed.
pub open spec fn add_post(
    o: &PigmoraEngine,
    n: &PigmoraEngine,
    r: Result<u32, EditorError>,
    base: DocumentView,
) -> bool {
    let active = base.active_layer_id;
    let e = last_added(n.hist());
    &&& n.snapshot() == o.snapshot()
    &&& n.settings() == o.settings()
    &&& if has_layer(base.layers, active) {
        &&& r == Ok::<u32, EditorError>(e.id)
        &&& n.doc() == base.push_spec(active, e)
        &&& record_post(
            o.hist(),
            Command::AddElement {
                layer_id: active,
                index: base.layers[layer_index(base.layers, active)].elements.len() as usize,
                element: e,
            },
            n.hist(),
        )
        &&& n.selected() == Some(e.id)
    } else {
        &&& r == Err::<u32, EditorError>(EditorError::LayerNotFound)
        &&& n.doc() == base
        &&& n.hist() == o.hist()
        &&& n.selected() == o.selected()
    }
}

/// Size of a new shape: 160 x 120.
pub const SHAPE_WIDTH: u32 = 0x4320_0000;
pub const SHAPE_HEIGHT: u32 = 0x42F0_0000;

/// Size of new text: 240 x 80.
pub const TEXT_WIDTH: u32 = 0x4370_0000;
pub const TEXT_HEIGHT: u32 = 0x42A0_0000;

/// Size of a new image: 320 x 200.
pub const IMAGE_WIDTH: u32 = 0x43A0_0000;
pub const IMAGE_HEIGHT: u32 = 0x4348_0000;

/// The editing session: document, history, selection, tool and the open
/// drag transaction, plus the viewport the scene is drawn into.
#[derive(Debug)]
pub struct PigmoraEngine {
    renderer: Renderer,
    document: Document,
    history: History,
    selected_element_id: Option<u32>,
    active_tool: Tool,
    active_shape_type: ShapeType,
    transform_snapshot: Option<TransformSnapshot>,
}

impl PigmoraEngine {
    pub closed spec fn doc(&self) -> DocumentView {
        self.document@
    }

    pub closed spec fn hist(&self) -> HistoryView {
        self.history@
    }

    pub closed spec fn selected(&self) -> Option<u32> {
        self.selected_element_id
    }

    pub closed spec fn snapshot(&self) -> Option<TransformSnapshot> {
        self.transform_snapshot
    }

    pub closed spec fn tool(&self) -> Tool {
        self.active_tool
    }

    pub closed spec fn shape_type(&self) -> ShapeType {
        self.active_shape_type
    }

    pub closed spec fn viewport(&self) -> (u32, u32) {
        self.renderer.size()
    }

    /// A session on an empty 0x0 document with one layer.
    pub fn new() -> (e: PigmoraEngine)
        ensures
            e.doc().canvas.width == 0 && e.doc().canvas.height == 0,
            e.doc().layers.len() == 1,
            e.doc().layers[0].id == 1,
            e.doc().layers[0].elements.len() == 0,
            e.doc().active_layer_id == 1,
            e.doc().next_id == 2,
            e.hist().undo.len() == 0 && e.hist().redo.len() == 0,
            e.selected() is None,
            e.snapshot() is None,
            e.tool() == Tool::Select,
            e.shape_type() == ShapeType::Rect,
            e.viewport() == (0u32, 0u32),
    {
        PigmoraEngine {
            renderer: Renderer::new(),
            document: Document::new(0, 0),
            history: History::new(),
            selected_element_id: None,
            active_tool: Tool::Select,
            active_shape_type: ShapeType::Rect,
            transform_snapshot: None,
        }
    }

    /// Tool, shape kind and viewport: what edits of the document leave alone.
    pub closed spec fn settings(&self) -> (Tool, ShapeType, (u32, u32)) {
        (self.active_tool, self.active_shape_type, self.renderer.size())
    }

    fn sync_selection(&mut self)
        ensures
            final(self).selected() == synced(old(self).doc(), old(self).selected()),
            final(self).doc() == old(self).doc(),
            final(self).hist() == old(self).hist(),
            final(self).snapshot() == old(self).snapshot(),
            final(self).settings() == old(self).settings(),
    {
        let element_id = match self.selected_element_id {
            Some(element_id) => element_id,
            None => return ,
        };
        if self.document.get_element_transform(element_id).is_none() {
            self.selected_element_id = self.document.find_first_shape();
        }
    }

    /// Pushes a freshly allocated element onto the active layer, records it
    /// and selects it.
    fn push_new(&mut self, element: Element) -> (r: Result<u32, EditorError>)
        ensures
            add_post(old(self), final(self), r, old(self).doc()),
            r is Ok ==> last_added(final(self).hist()) == element,
    {
        let ghost e = element;
        let element_id = element.id;
        let layer_id = self.document.active_layer();
        let stored = element.clone();
        match self.document.push_element(layer_id, stored) {
            Some(index) => {
                proof {
                    let d = self.document@;
                    let ol = old(self).doc().layers;
                    let li = layer_index(ol, layer_id);
                    assert(has_layer(ol, layer_id));
                    assert(crate::document::is_first_layer(ol, layer_id, li));
                    assert(index as int == ol[li].elements.len());
                    assert(d.layers[li].elements == ol[li].elements.insert(index as int, e));
                    assert(d.layers[li].elements[index as int] == e);
                    crate::document::lemma_occurs_has_first(d.layers, element_id, li, index as int);
                }
                self.history.record(Command::AddElement { layer_id, index, element });
                self.selected_element_id = Some(element_id);
                self.sync_selection();
                Ok(element_id)
            },
            None => Err(EditorError::LayerNotFound),
        }
    }

    /// Resizes the viewport and the canvas.
    pub fn resize(&mut self, width: u32, height: u32)
        ensures
            final(self).viewport() == (width, height),
            final(self).doc() == (DocumentView {
                canvas: crate::document::Canvas {
                    width,
                    height,
                    background: old(self).doc().canvas.background,
                },
                ..old(self).doc()
            }),
            final(self).hist() == old(self).hist(),
            final(self).selected() == old(self).selected(),
            final(self).snapshot() == old(self).snapshot(),
            final(self).tool() == old(self).tool(),
            final(self).shape_type() == old(self).shape_type(),
    {
        self.renderer.resize(width, height);
        self.document.set_canvas_size(width, height);
    }

    /// Places the selected element at the given frame; without a selection,
    /// places the primary shape there (creating it if needed) and selects it.
    /// `false`, with nothing changed, when a new shape would need an id the
    /// allocator no longer has.
    pub fn set_rect(&mut self, x: u32, y: u32, width: u32, height: u32) -> (ok: bool)
        ensures
            final(self).hist() == old(self).hist(),
            final(self).snapshot() == old(self).snapshot(),
            final(self).settings() == old(self).settings(),
            ({
                let t = Transform2D { x, y, width, height, rotation: 0 };
                match old(self).selected() {
                    Some(id) => ok && final(self).selected() == Some(id) && final(self).doc()
                        == old(self).doc().replace_by_id_spec(
                        id,
                        Element { transform: t, ..old(self).doc().element_of(id) },
                    ),
                    None => if old(self).doc().primary_shape_fits() {
                        &&& ok
                        &&& final(self).selected() is Some
                        &&& crate::document::ensure_primary_shape_post(
                            old(self).doc(),
                            final(self).doc(),
                            t,
                            final(self).selected()->Some_0,
                        )
                    } else {
                        !ok && final(self).selected() is None && final(self).doc() == old(
                            self,
                        ).doc()
                    },
                }
            }),
    {
        let transform = Transform2D::new(x, y, width, height);
        match self.selected_element_id {
            Some(element_id) => {
                self.document.set_element_transform(element_id, transform);
                true
            },
            None => {
                if !self.document.primary_shape_fits() {
                    return false;
                }
                let element_id = self.document.ensure_primary_shape(transform);
                self.selected_element_id = Some(element_id);
                true
            },
        }
    }

    /// The projected scene and the selection frame, layers in order.
    pub fn collect_rects(&self) -> (r: (Vec<RenderShape>, Option<crate::renderer::Rect>))
        ensures
            r.0@ == scene_prims(self.doc().layers),
            r.1 == selected_rect(self.doc().layers, self.selected()),
    {
        project_scene(self.document.layers(), self.selected_element_id)
    }

    /// The frame to draw, with the primitives it indexes; nothing for an
    /// empty viewport.
    pub fn render(&self) -> (r: Option<(Vec<RenderShape>, Frame)>)
        ensures
            (self.viewport().0 == 0 || self.viewport().1 == 0) ==> r is None,
            (self.viewport().0 != 0 && self.viewport().1 != 0) ==> r is Some && {
                let (rects, f) = r->Some_0;
                &&& rects@ == scene_prims(self.doc().layers)
                &&& f.width == self.viewport().0
                &&& f.height == self.viewport().1
                &&& f.draw@ == crate::renderer::drawable_indices(rects@, rects@.len() as int)
                &&& f.outline == match selected_rect(self.doc().layers, self.selected()) {
                    Some(s) => if s.is_valid_spec() {
                        Some(s)
                    } else {
                        None
                    },
                    None => None,
                }
            },
    {
        let (rects, selected) = self.collect_rects();
        match self.renderer.render(&rects, selected) {
            Some(frame) => Some((rects, frame)),
            None => None,
        }
    }

    pub fn get_document(&self) -> (r: &Document)
        ensures
            r@ == self.doc(),
    {
        &self.document
    }

    pub fn history(&self) -> (r: &History)
        ensures
            r@ == self.hist(),
    {
        &self.history
    }

    /// Replaces the document wholesale: the allocator is recalculated, the
    /// history cleared, and the first shape selected.
    pub fn load_document(&mut self, document: Document)
        ensures
            recalculate_post(document@, final(self).doc()),
            final(self).hist().undo.len() == 0 && final(self).hist().redo.len() == 0,
            final(self).selected() == synced(final(self).doc(), first_shape(final(self).doc().layers)),
            final(self).snapshot() == old(self).snapshot(),
            final(self).settings() == old(self).settings(),
    {
        self.document = document;
        self.document.recalculate_next_id();
        self.history.clear();
        self.selected_element_id = self.document.find_first_shape();
        self.sync_selection();
    }

    /// Undoes the newest edit; whether the document changed.
    pub fn undo(&mut self) -> (changed: bool)
        ensures
            undo_post(old(self).hist(), old(self).doc(), final(self).hist(), final(self).doc(), changed),
            final(self).selected() == if changed {
                synced(final(self).doc(), old(self).selected())
            } else {
                old(self).selected()
            },
            final(self).snapshot() == old(self).snapshot(),
            final(self).settings() == old(self).settings(),
    {
        let changed = self.history.undo(&mut self.document);
        if changed {
            self.sync_selection();
        }
        changed
    }

    /// Redoes the newest undone edit; whether the document changed.
    pub fn redo(&mut self) -> (changed: bool)
        ensures
            redo_post(old(self).hist(), old(self).doc(), final(self).hist(), final(self).doc(), changed),
            final(self).selected() == if changed {
                synced(final(self).doc(), old(self).selected())
            } else {
                old(self).selected()
            },
            final(self).snapshot() == old(self).snapshot(),
            final(self).settings() == old(self).settings(),
    {
        let changed = self.history.redo(&mut self.document);
        if changed {
            self.sync_selection();
        }
        changed
    }

    /// Adds a 160x120 shape of the named kind at (x, y) on the active layer.
    pub fn add_shape(&mut self, shape_type: &str, x: u32, y: u32) -> (r: Result<u32, EditorError>)
        requires
            shape_type_of(shape_type@) is Some ==> old(self).doc().next_id < u32::MAX,
        ensures
            match shape_type_of(shape_type@) {
                Some(kind) => {
                    &&& add_post(
                        old(self),
                        final(self),
                        r,
                        DocumentView { next_id: (old(self).doc().next_id + 1) as u32, ..old(self).doc() },
                    )
                    &&& r is Ok ==> is_new_element(
                        last_added(final(self).hist()),
                        old(self).doc().next_id,
                        "Shape"@,
                        Transform2D { x, y, width: SHAPE_WIDTH, height: SHAPE_HEIGHT, rotation: 0 },
                        shape_data(kind),
                    )
                },
                None => {
                    &&& r == Err::<u32, EditorError>(EditorError::UnknownShapeType)
                    &&& final(self).doc() == old(self).doc()
                    &&& final(self).hist() == old(self).hist()
                    &&& final(self).selected() == old(self).selected()
                    &&& final(self).snapshot() == old(self).snapshot()
                    &&& final(self).settings() == old(self).settings()
                },
            },
    {
        let shape_type = match parse_shape_type(shape_type) {
            Ok(t) => t,
            Err(e) => return Err(e),
        };
        let transform = Transform2D::new(x, y, SHAPE_WIDTH, SHAPE_HEIGHT);
        let element_id = self.document.next_element_id();
        let shape = ShapeElement { shape_type, ..ShapeElement::rectangle() };
        let element = Element::shape(element_id, "Shape".to_owned(), shape, transform);
        self.push_new(element)
    }

    /// Adds a 240x80 text element at (x, y) on the active layer.
    pub fn add_text(&mut self, content: &str, x: u32, y: u32) -> (r: Result<u32, EditorError>)
        requires
            old(self).doc().next_id < u32::MAX,
        ensures
            add_post(
                old(self),
                final(self),
                r,
                DocumentView { next_id: (old(self).doc().next_id + 1) as u32, ..old(self).doc() },
            ),
            r is Ok ==> ({
                        let e = last_added(final(self).hist());
                        &&& e.id == old(self).doc().next_id
                        &&& e.name@ == "Text"@
                        &&& e.transform == Transform2D {
                            x,
                            y,
                            width: TEXT_WIDTH,
                            height: TEXT_HEIGHT,
                            rotation: 0,
                        }
                        &&& e.data is Text
                        &&& e.data->Text_0.content@ == content@
                        &&& e.data->Text_0.font_family@ == "system-ui"@
                        &&& e.data->Text_0.font_size == crate::elements::text::DEFAULT_FONT_SIZE
                        &&& e.data->Text_0.fill == (Color { r: TEXT_GREY, g: TEXT_GREY, b: TEXT_GREY, a: ONE })
                    }),
    {
        let transform = Transform2D::new(x, y, TEXT_WIDTH, TEXT_HEIGHT);
        let element_id = self.document.next_element_id();
        let text = TextElement::new(content.to_owned());
        let element = Element::text(element_id, "Text".to_owned(), text, transform);
        self.push_new(element)
    }

    /// Adds a 320x200 image element at (x, y) on the active layer. The
    /// image bytes are not kept.
    pub fn add_image(&mut self, data: &[u8], x: u32, y: u32) -> (r: Result<u32, EditorError>)
        requires
            old(self).doc().next_id < u32::MAX,
        ensures
            add_post(
                old(self),
                final(self),
                r,
                DocumentView { next_id: (old(self).doc().next_id + 1) as u32, ..old(self).doc() },
            ),
            r is Ok ==> ({
                        let e = last_added(final(self).hist());
                        &&& e.id == old(self).doc().next_id
                        &&& e.name@ == "Image"@
                        &&& e.transform == Transform2D {
                            x,
                            y,
                            width: IMAGE_WIDTH,
                            height: IMAGE_HEIGHT,
                            rotation: 0,
                        }
                        &&& e.data is Image
                        &&& e.data->Image_0.source@ == Seq::<char>::empty()
                        &&& e.data->Image_0.filters == (ImageFilters { brightness: ONE, contrast: ONE, saturation: ONE })
                    }),
    {
        let transform = Transform2D::new(x, y, IMAGE_WIDTH, IMAGE_HEIGHT);
        let element_id = self.document.next_element_id();
        let image = ImageElement::new(String::new());
        let element = Element::image(element_id, "Image".to_owned(), image, transform);
        self.push_new(element)
    }

    /// Deletes the element with the id and records it; a deleted selection
    /// falls back to the first remaining shape. `false` when no element has
    /// the id.
    pub fn delete_element(&mut self, element_id: u32) -> (ok: bool)
        ensures
            ok == has_element(old(self).doc().layers, element_id),
            final(self).snapshot() == old(self).snapshot(),
            final(self).settings() == old(self).settings(),
            !ok ==> final(self).doc() == old(self).doc() && final(self).hist() == old(self).hist()
                && final(self).selected() == old(self).selected(),
            ok ==> {
                let d = old(self).doc();
                let (li, ei) = element_location(d.layers, element_id);
                &&& final(self).doc() == d.remove_spec(element_id)
                &&& record_post(
                    old(self).hist(),
                    Command::DeleteElement {
                        layer_id: d.layers[li].id,
                        index: ei as usize,
                        element: d.element_of(element_id),
                    },
                    final(self).hist(),
                )
                &&& final(self).selected() == synced(
                    final(self).doc(),
                    if old(self).selected() == Some(element_id) {
                        first_shape(final(self).doc().layers)
                    } else {
                        old(self).selected()
                    },
                )
            },
    {
        if let Some((layer_id, index, element)) = self.document.remove_element_by_id(element_id) {
            self.history.record(Command::DeleteElement { layer_id, index, element });
            if self.selected_element_id == Some(element_id) {
                self.selected_element_id = self.document.find_first_shape();
            }
            self.sync_selection();
            return true;
        }
        false
    }

    /// Applies a sparse update to the element with the id and records it.
    /// `false` when no element has the id.
    pub fn update_element(&mut self, element_id: u32, update: &ElementUpdate) -> (ok: bool)
        ensures
            ok == has_element(old(self).doc().layers, element_id),
            final(self).snapshot() == old(self).snapshot(),
            final(self).settings() == old(self).settings(),
            !ok ==> final(self).doc() == old(self).doc() && final(self).hist() == old(self).hist()
                && final(self).selected() == old(self).selected(),
            ok ==> {
                let d = old(self).doc();
                let (li, ei) = element_location(d.layers, element_id);
                let before = d.element_of(element_id);
                let after = update.apply_spec(before);
                &&& final(self).doc() == d.with_element_at(li, ei, after)
                &&& record_post(
                    old(self).hist(),
                    Command::UpdateElement {
                        layer_id: d.layers[li].id,
                        index: ei as usize,
                        before,
                        after,
                    },
                    final(self).hist(),
                )
                &&& final(self).selected() == if old(self).selected() == Some(element_id) {
                    synced(final(self).doc(), old(self).selected())
                } else {
                    old(self).selected()
                }
            },
    {
        if let Some((layer_id, index, before, after)) = self.document.apply_update(
            element_id,
            update,
        ) {
            self.history.record(Command::UpdateElement { layer_id, index, before, after });
            if self.selected_element_id == Some(element_id) {
                self.sync_selection();
            }
            return true;
        }
        false
    }

    pub fn get_selected_id(&self) -> (r: Option<u32>)
        ensures
            r == self.selected(),
    {
        self.selected_element_id
    }

    /// Picks the tool: "select", "shape", "text" or "image".
    pub fn set_active_tool(&mut self, tool: &str) -> (r: Result<(), EditorError>)
        ensures
            final(self).doc() == old(self).doc(),
            final(self).hist() == old(self).hist(),
            final(self).selected() == old(self).selected(),
            final(self).snapshot() == old(self).snapshot(),
            final(self).shape_type() == old(self).shape_type(),
            final(self).viewport() == old(self).viewport(),
            match tool_of(tool@) {
                Some(t) => r is Ok && final(self).tool() == t,
                None => r == Err::<(), EditorError>(EditorError::UnknownTool) && final(self).tool()
                    == old(self).tool(),
            },
    {
        let s = tool.to_owned();
        self.active_tool = if s == "select".to_owned() {
            Tool::Select
        } else if s == "shape".to_owned() {
            Tool::Shape
        } else if s == "text".to_owned() {
            Tool::Text
        } else if s == "image".to_owned() {
            Tool::Image
        } else {
            return Err(EditorError::UnknownTool);
        };
        Ok(())
    }

    /// Picks the kind of shape that shape creation defaults to.
    pub fn set_active_shape(&mut self, shape_type: &str) -> (r: Result<(), EditorError>)
        ensures
            final(self).doc() == old(self).doc(),
            final(self).hist() == old(self).hist(),
            final(self).selected() == old(self).selected(),
            final(self).snapshot() == old(self).snapshot(),
            final(self).tool() == old(self).tool(),
            final(self).viewport() == old(self).viewport(),
            match shape_type_of(shape_type@) {
                Some(t) => r is Ok && final(self).shape_type() == t,
                None => r == Err::<(), EditorError>(EditorError::UnknownShapeType)
                    && final(self).shape_type() == old(self).shape_type(),
            },
    {
        match parse_shape_type(shape_type) {
            Ok(t) => {
                self.active_shape_type = t;
                Ok(())
            },
            Err(e) => Err(e),
        }
    }

    /// Selects the element under a point, or clears the selection.
    /// `inside[l][i]` says whether the point lies in the frame of element
    /// `i` of layer `l`.
    pub fn select_at(&mut self, inside: &Vec<Vec<bool>>) -> (r: Option<u32>)
        ensures
            r == crate::document::hit_layers(
                old(self).doc().layers,
                inside@,
                old(self).doc().layers.len() as int,
            ),
            final(self).selected() == r,
            final(self).doc() == old(self).doc(),
            final(self).hist() == old(self).hist(),
            final(self).snapshot() == old(self).snapshot(),
            final(self).settings() == old(self).settings(),
    {
        let hit = self.document.hit_test(inside);
        self.selected_element_id = hit;
        hit
    }

    /// Selects the element with the id; `false`, with the selection kept,
    /// when no element has it.
    pub fn select_element(&mut self, element_id: u32) -> (ok: bool)
        ensures
            ok == has_element(old(self).doc().layers, element_id),
            final(self).selected() == if ok {
                Some(element_id)
            } else {
                old(self).selected()
            },
            final(self).doc() == old(self).doc(),
            final(self).hist() == old(self).hist(),
            final(self).snapshot() == old(self).snapshot(),
            final(self).settings() == old(self).settings(),
    {
        if self.document.get_element_by_id(element_id).is_some() {
            self.selected_element_id = Some(element_id);
            return true;
        }
        false
    }

    /// Opens a drag transaction on the selected element, replacing any open
    /// one. `false`, with nothing changed, without a resolvable selection.
    pub fn begin_transform(&mut self) -> (ok: bool)
        ensures
            ok == (old(self).selected() is Some && has_element(
                old(self).doc().layers,
                old(self).selected()->Some_0,
            )),
            final(self).snapshot() == if ok {
                Some(
                    TransformSnapshot {
                        element_id: old(self).selected()->Some_0,
                        before: old(self).doc().element_of(old(self).selected()->Some_0),
                    },
                )
            } else {
                old(self).snapshot()
            },
            final(self).doc() == old(self).doc(),
            final(self).hist() == old(self).hist(),
            final(self).selected() == old(self).selected(),
            final(self).settings() == old(self).settings(),
    {
        let element_id = match self.selected_element_id {
            Some(element_id) => element_id,
            None => return false,
        };
        let element = match self.document.get_element_by_id(element_id) {
            Some(element) => element.clone(),
            None => return false,
        };
        self.transform_snapshot = Some(TransformSnapshot { element_id, before: element });
        true
    }

    /// Moves and resizes the selected element live, without recording;
    /// width and height are clamped to at least 1.0.
    pub fn update_selected_transform(&mut self, x: u32, y: u32, width: u32, height: u32) -> (ok:
        bool)
        ensures
            ok == (old(self).selected() is Some && has_element(
                old(self).doc().layers,
                old(self).selected()->Some_0,
            )),
            ok ==> {
                let id = old(self).selected()->Some_0;
                let e = old(self).doc().element_of(id);
                final(self).doc() == old(self).doc().replace_by_id_spec(
                    id,
                    Element {
                        transform: Transform2D {
                            x,
                            y,
                            width: clamp_extent_spec(width),
                            height: clamp_extent_spec(height),
                            rotation: e.transform.rotation,
                        },
                        ..e
                    },
                )
            },
            !ok ==> final(self).doc() == old(self).doc(),
            final(self).hist() == old(self).hist(),
            final(self).selected() == old(self).selected(),
            final(self).snapshot() == old(self).snapshot(),
            final(self).settings() == old(self).settings(),
    {
        let element_id = match self.selected_element_id {
            Some(element_id) => element_id,
            None => return false,
        };
        match self.document.get_element_transform(element_id) {
            Some(current) => {
                let transform = Transform2D {
                    x,
                    y,
                    width: crate::scalar::clamp_extent(width),
                    height: crate::scalar::clamp_extent(height),
                    rotation: current.rotation,
                };
                self.document.set_element_transform(element_id, transform);
                true
            },
            None => false,
        }
    }

    /// Sets the font size of the selected element, clamped to at least 1.0,
    /// when it is text; without recording.
    pub fn update_selected_text_size(&mut self, font_size: u32) -> (ok: bool)
        ensures
            ok == (old(self).selected() is Some && has_element(
                old(self).doc().layers,
                old(self).selected()->Some_0,
            ) && old(self).doc().element_of(old(self).selected()->Some_0).data is Text),
            ok ==> {
                let id = old(self).selected()->Some_0;
                let e = old(self).doc().element_of(id);
                let t = e.data->Text_0;
                final(self).doc() == old(self).doc().replace_by_id_spec(
                    id,
                    Element {
                        data: ElementData::Text(
                            TextElement { font_size: clamp_extent_spec(font_size), ..t },
                        ),
                        ..e
                    },
                )
            },
            !ok ==> final(self).doc() == old(self).doc(),
            final(self).hist() == old(self).hist(),
            final(self).selected() == old(self).selected(),
            final(self).snapshot() == old(self).snapshot(),
            final(self).settings() == old(self).settings(),
    {
        let element_id = match self.selected_element_id {
            Some(element_id) => element_id,
            None => return false,
        };
        let is_text = match self.document.get_element_by_id(element_id) {
            Some(element) => matches!(element.data, ElementData::Text(_)),
            None => false,
        };
        if !is_text {
            return false;
        }
        let update = ElementUpdate {
            name: None,
            x: None,
            y: None,
            width: None,
            height: None,
            rotation: None,
            content: None,
            font_family: None,
            font_size: Some(font_size),
            fill: None,
        };
        let ghost u = update;
        self.document.apply_update(element_id, &update);
        proof {
            let d = old(self).doc();
            let e = d.element_of(element_id);
            assert(u.apply_spec(e) == Element {
                data: ElementData::Text(
                    TextElement { font_size: clamp_extent_spec(font_size), ..e.data->Text_0 },
                ),
                ..e
            });
        }
        true
    }

    /// Closes the drag transaction. When the element's frame differs from
    /// the one it had when the drag began, records one update from the
    /// snapshot to the current state; otherwise records nothing.
    pub fn commit_transform(&mut self) -> (recorded: bool)
        ensures
            final(self).snapshot() is None,
            final(self).doc() == old(self).doc(),
            final(self).selected() == old(self).selected(),
            final(self).settings() == old(self).settings(),
            recorded == match old(self).snapshot() {
                Some(s) => has_element(old(self).doc().layers, s.element_id)
                    && s.before.transform != old(self).doc().element_of(s.element_id).transform,
                None => false,
            },
            !recorded ==> final(self).hist() == old(self).hist(),
            recorded ==> {
                let s = old(self).snapshot()->Some_0;
                let d = old(self).doc();
                let (li, ei) = element_location(d.layers, s.element_id);
                record_post(
                    old(self).hist(),
                    Command::UpdateElement {
                        layer_id: d.layers[li].id,
                        index: ei as usize,
                        before: s.before,
                        after: d.element_of(s.element_id),
                    },
                    final(self).hist(),
                )
            },
    {
        let snapshot = match self.transform_snapshot.take() {
            Some(snapshot) => snapshot,
            None => return false,
        };
        let after = match self.document.get_element_by_id(snapshot.element_id) {
            Some(element) => element.clone(),
            None => return false,
        };
        if snapshot.before.transform == after.transform {
            return false;
        }
        if let Some((layer_id, index)) = self.document.find_element_location(snapshot.element_id) {
            self.history.record(
                Command::UpdateElement { layer_id, index, before: snapshot.before, after },
            );
            return true;
        }
        false
    }
}

} // verus!
