use pigmora::document::History;
use pigmora::scalar::{clamp_extent, is_positive, ONE};
use pigmora::{
    Command, Document, Element, ElementData, ElementUpdate, ImageElement, Layer, Rect, Renderer,
    RenderShape, ShapeElement, ShapeKind, TextElement, Transform2D,
};

fn bits(v: f32) -> u32 {
    v.to_bits()
}

fn frame(x: f32, y: f32) -> Transform2D {
    Transform2D::new(bits(x), bits(y), bits(10.0), bits(10.0))
}

fn shape(id: u32) -> Element {
    Element::shape(id, "Shape".to_string(), ShapeElement::rectangle(), frame(0.0, 0.0))
}

fn text(id: u32) -> Element {
    Element::text(id, "Text".to_string(), TextElement::new("hi".to_string()), frame(0.0, 0.0))
}

fn width_update(w: u32) -> ElementUpdate {
    ElementUpdate {
        name: None,
        x: None,
        y: None,
        width: Some(w),
        height: None,
        rotation: None,
        content: None,
        font_family: None,
        font_size: None,
        fill: None,
    }
}

fn ids(doc: &Document) -> Vec<Vec<u32>> {
    doc.layers.iter().map(|l| l.elements.iter().map(|e| e.id).collect()).collect()
}

#[test]
fn new_document_has_one_layer() {
    let doc = Document::new(800, 600);
    assert_eq!(doc.layers.len(), 1);
    assert_eq!(doc.layers[0].id, 1);
    assert_eq!(doc.layers[0].name, "Layer 1");
    assert_eq!(doc.active_layer_id, 1);
    assert_eq!(doc.peek_next_id(), 2);
    assert_eq!(doc.canvas.width, 800);
    assert_eq!(doc.canvas.background.r, ONE);
}

#[test]
fn next_element_id_strictly_increases() {
    let mut doc = Document::new(1, 1);
    let a = doc.next_element_id();
    let b = doc.next_element_id();
    let c = doc.add_layer("L".to_string());
    let d = doc.next_element_id();
    assert!(a < b && b < c && c < d);
    assert_eq!((a, b, c, d), (2, 3, 4, 5));
}

#[test]
fn recalculated_ids_are_fresh() {
    let mut layer = Layer::new(7, "A".to_string());
    layer.elements.push(shape(40));
    layer.elements.push(text(12));
    let canvas = pigmora::Canvas::new(10, 10);
    let mut doc = Document::from_parts(canvas, vec![layer, Layer::new(3, "B".to_string())], 7, 0);
    doc.recalculate_next_id();
    assert_eq!(doc.peek_next_id(), 41);
    assert_eq!(doc.next_element_id(), 41);
}

#[test]
fn recalculate_without_layers_creates_one() {
    let mut doc = Document::from_parts(pigmora::Canvas::new(1, 1), vec![], 9, 0);
    doc.recalculate_next_id();
    assert_eq!(doc.layers.len(), 1);
    assert_eq!(doc.layers[0].id, 1);
    assert_eq!(doc.layers[0].name, "Layer 1");
    assert_eq!(doc.active_layer_id, 1);
    assert_eq!(doc.peek_next_id(), 2);
}

#[test]
fn recalculate_saturates_at_max_id() {
    let mut layer = Layer::new(1, "A".to_string());
    layer.elements.push(shape(u32::MAX));
    let mut doc = Document::from_parts(pigmora::Canvas::new(1, 1), vec![layer], 1, 0);
    doc.recalculate_next_id();
    assert_eq!(doc.peek_next_id(), u32::MAX);
}

#[test]
fn zero_width_update_clamps_to_one() {
    let mut doc = Document::new(1, 1);
    doc.push_element(1, shape(2)).unwrap();
    let (layer_id, index, before, after) = doc.apply_update(2, &width_update(0)).unwrap();
    assert_eq!((layer_id, index), (1, 0));
    assert_eq!(before.transform.width, bits(10.0));
    assert_eq!(after.transform.width, bits(1.0));
    assert_eq!(doc.get_element_transform(2).unwrap().width, bits(1.0));
    assert!(doc.apply_update(99, &width_update(0)).is_none());
}

#[test]
fn clamp_extent_values() {
    assert_eq!(clamp_extent(bits(0.0)), bits(1.0));
    assert_eq!(clamp_extent(bits(-5.0)), bits(1.0));
    assert_eq!(clamp_extent(bits(0.5)), bits(1.0));
    assert_eq!(clamp_extent(bits(1.0)), bits(1.0));
    assert_eq!(clamp_extent(bits(2.5)), bits(2.5));
    assert_eq!(clamp_extent(f32::NAN.to_bits()), bits(1.0));
    assert_eq!(clamp_extent(f32::INFINITY.to_bits()), f32::INFINITY.to_bits());
    assert!(is_positive(bits(0.1)));
    assert!(!is_positive(bits(0.0)));
    assert!(!is_positive(bits(-1.0)));
    assert!(!is_positive(f32::NAN.to_bits()));
}

#[test]
fn primary_shape_created_once() {
    let mut doc = Document::new(1, 1);
    doc.push_element(1, text(5)).unwrap();
    doc.recalculate_next_id();
    let first = doc.ensure_primary_shape(frame(1.0, 1.0));
    assert_eq!(first, 6);
    assert_eq!(doc.layers[0].elements.len(), 2);
    let second = doc.ensure_primary_shape(frame(9.0, 9.0));
    assert_eq!(second, first);
    assert_eq!(doc.layers[0].elements.len(), 2);
    assert_eq!(doc.get_element_transform(first).unwrap().x, bits(9.0));
    assert_eq!(doc.find_first_shape(), Some(first));
}

#[test]
fn primary_shape_heals_missing_active_layer() {
    let mut doc = Document::new(1, 1);
    doc.active_layer_id = 50;
    let id = doc.ensure_primary_shape(frame(0.0, 0.0));
    assert_eq!(id, 2);
    assert_eq!(doc.layers.len(), 2);
    assert_eq!(doc.layers[1].id, 3);
    assert_eq!(doc.active_layer_id, 3);
    assert_eq!(doc.layers[1].elements[0].id, 2);
    assert_eq!(doc.layers[1].elements[0].name, "Rectangle");
}

#[test]
fn insert_clamps_index_and_needs_layer() {
    let mut doc = Document::new(1, 1);
    assert!(doc.insert_element_at(1, 10, shape(2)));
    assert!(doc.insert_element_at(1, 0, shape(3)));
    assert!(doc.insert_element_at(1, 1, shape(4)));
    assert_eq!(ids(&doc), vec![vec![3, 4, 2]]);
    assert!(!doc.insert_element_at(9, 0, shape(5)));
    assert_eq!(doc.push_element(9, shape(5)), None);
    assert_eq!(doc.push_element(1, shape(5)), Some(3));
}

#[test]
fn remove_and_replace_by_id() {
    let mut doc = Document::new(1, 1);
    let second = doc.add_layer("L2".to_string());
    doc.push_element(1, shape(10)).unwrap();
    doc.push_element(second, shape(11)).unwrap();
    doc.push_element(second, text(12)).unwrap();
    let (layer_id, index, element) = doc.remove_element_by_id(12).unwrap();
    assert_eq!((layer_id, index, element.id), (second, 1, 12));
    assert!(doc.remove_element_by_id(12).is_none());
    let mut renamed = shape(11);
    renamed.name = "Renamed".to_string();
    assert!(doc.replace_element_by_id(11, renamed));
    assert_eq!(doc.get_element_by_id(11).unwrap().name, "Renamed");
    assert!(!doc.replace_element_by_id(99, shape(99)));
}

#[test]
fn replace_at_falls_back_when_index_moved() {
    let mut doc = Document::new(1, 1);
    doc.push_element(1, shape(2)).unwrap();
    doc.push_element(1, shape(3)).unwrap();
    let mut moved = shape(3);
    moved.name = "Moved".to_string();
    assert!(doc.replace_element_at(1, 0, moved));
    assert_eq!(doc.layers[0].elements[0].id, 2);
    assert_eq!(doc.layers[0].elements[1].name, "Moved");
    assert!(!doc.replace_element_at(1, 0, shape(42)));
}

#[test]
fn undo_restores_exact_positions() {
    let mut doc = Document::new(1, 1);
    doc.push_element(1, shape(2)).unwrap();
    doc.push_element(1, shape(3)).unwrap();
    doc.push_element(1, shape(4)).unwrap();
    let mut history = History::new();

    let (layer_id, index, element) = doc.remove_element_by_id(3).unwrap();
    history.record(Command::DeleteElement { layer_id, index, element });
    assert_eq!(ids(&doc), vec![vec![2, 4]]);
    assert!(history.undo(&mut doc));
    assert_eq!(ids(&doc), vec![vec![2, 3, 4]]);
    assert!(history.redo(&mut doc));
    assert_eq!(ids(&doc), vec![vec![2, 4]]);

    let (layer_id, index, before, after) = doc.apply_update(4, &width_update(bits(70.0))).unwrap();
    history.record(Command::UpdateElement { layer_id, index, before, after });
    assert!(history.undo(&mut doc));
    assert_eq!(doc.get_element_transform(4).unwrap().width, bits(10.0));
    assert!(history.redo(&mut doc));
    assert_eq!(doc.get_element_transform(4).unwrap().width, bits(70.0));

    let element = shape(9);
    let index = doc.push_element(1, element.clone()).unwrap();
    history.record(Command::AddElement { layer_id: 1, index, element });
    assert!(history.undo(&mut doc));
    assert_eq!(ids(&doc), vec![vec![2, 4]]);
    assert_eq!(history.redo_len(), 1);
}

#[test]
fn diverged_undo_drops_the_command() {
    let mut doc = Document::new(1, 1);
    let element = shape(2);
    let index = doc.push_element(1, element.clone()).unwrap();
    let mut history = History::new();
    history.record(Command::AddElement { layer_id: 1, index, element });
    doc.remove_element_by_id(2).unwrap();
    assert!(!history.undo(&mut doc));
    assert_eq!(history.undo_len(), 0);
    assert_eq!(history.redo_len(), 0);
    assert!(!history.undo(&mut doc));
    history.clear();
    assert_eq!(history.undo_len(), 0);
}

#[test]
fn hit_test_skips_hidden_and_locked_layers() {
    let mut doc = Document::new(1, 1);
    let top = doc.add_layer("top".to_string());
    doc.push_element(1, shape(10)).unwrap();
    doc.push_element(top, shape(11)).unwrap();
    let inside = vec![vec![true], vec![true]];
    assert_eq!(doc.hit_test(&inside), Some(11));
    doc.layers[1].locked = true;
    assert_eq!(doc.hit_test(&inside), Some(10));
    doc.layers[1].locked = false;
    doc.layers[1].visible = false;
    assert_eq!(doc.hit_test(&inside), Some(10));
    assert_eq!(doc.hit_test(&vec![vec![false], vec![true]]), None);
}

#[test]
fn projection_skips_hidden_layers_and_maps_kinds() {
    let mut doc = Document::new(1, 1);
    let hidden = doc.add_layer("hidden".to_string());
    let mut line = ShapeElement::rectangle();
    line.shape_type = pigmora::ShapeType::Line;
    doc.push_element(1, Element::shape(5, "L".to_string(), line, frame(1.0, 1.0))).unwrap();
    doc.push_element(1, text(6)).unwrap();
    doc.push_element(hidden, shape(7)).unwrap();
    doc.push_element(
        1,
        Element::image(8, "I".to_string(), ImageElement::new(String::new()), frame(2.0, 2.0)),
    )
    .unwrap();
    doc.layers[1].visible = false;
    let (rects, selected) = pigmora::project_scene(&doc.layers, Some(6));
    assert_eq!(rects.len(), 2);
    assert_eq!(rects[0].shape, ShapeKind::Rect);
    assert_eq!(rects[1].rect.x, bits(2.0));
    assert_eq!(selected.unwrap().x, bits(0.0));
    let (_, hidden_sel) = pigmora::project_scene(&doc.layers, Some(7));
    assert!(hidden_sel.is_none());
    assert!(matches!(doc.layers[0].elements[1].data, ElementData::Text(_)));
}

#[test]
fn renderer_skips_invalid_rectangles() {
    let mut renderer = Renderer::new();
    let good = Rect { x: 0, y: 0, width: bits(5.0), height: bits(5.0) };
    let flat = Rect { x: 0, y: 0, width: bits(0.0), height: bits(5.0) };
    let rects = vec![
        RenderShape { rect: flat, shape: ShapeKind::Rect },
        RenderShape { rect: good, shape: ShapeKind::Ellipse },
    ];
    assert!(renderer.render(&rects, Some(good)).is_none());
    renderer.resize(10, 0);
    assert!(renderer.render(&rects, Some(good)).is_none());
    renderer.resize(10, 20);
    let frame = renderer.render(&rects, Some(flat)).unwrap();
    assert_eq!(frame.draw, vec![1]);
    assert_eq!((frame.width, frame.height), (10, 20));
    assert!(frame.outline.is_none());
    assert!(good.is_valid());
    assert!(!flat.is_valid());
}

#[test]
fn mutable_lookup_writes_in_place() {
    let mut doc = Document::new(1, 1);
    doc.push_element(1, shape(2)).unwrap();
    doc.push_element(1, shape(3)).unwrap();
    doc.get_element_by_id_mut(3).unwrap().name = "Edited".to_string();
    assert_eq!(doc.layers[0].elements[1].name, "Edited");
    assert_eq!(doc.layers[0].elements[0].name, "Shape");
    assert!(doc.get_element_by_id_mut(9).is_none());
}

#[test]
fn command_apply_then_undo_restores_document() {
    let mut doc = Document::new(1, 1);
    doc.push_element(1, shape(2)).unwrap();
    doc.push_element(1, shape(3)).unwrap();
    let cmd = Command::DeleteElement { layer_id: 1, index: 0, element: shape(2) };
    assert!(cmd.apply(&mut doc));
    assert_eq!(ids(&doc), vec![vec![3]]);
    assert!(cmd.undo(&mut doc));
    assert_eq!(ids(&doc), vec![vec![2, 3]]);
    let add = Command::AddElement { layer_id: 1, index: 1, element: text(4) };
    assert!(add.apply(&mut doc));
    assert_eq!(ids(&doc), vec![vec![2, 4, 3]]);
    assert!(add.undo(&mut doc));
    assert_eq!(ids(&doc), vec![vec![2, 3]]);
}
