//! The editing core of a 2D vector-design canvas: a document of layers and
//! elements, structural edits with exact undo and redo, sparse element
//! updates, a drag-transform transaction, and a projection of the scene
//! for drawing.

pub mod document;
pub mod elements;
pub mod engine;
pub mod renderer;
pub mod scalar;
pub mod laws;

pub use document::{Canvas, Color, Command, Document, Element, ElementUpdate, History, Layer, Transform2D};
pub use elements::{ElementData, Fill, ImageElement, ImageFilters, ShapeElement, ShapeType, Stroke, TextElement};
pub use engine::{parse_shape_type, EditorError, PigmoraEngine, Tool, TransformSnapshot};
pub use renderer::{project_scene, Frame, Rect, RenderShape, Renderer, ShapeKind};
