use pigmora::{
    Color, EditorError, ElementData, ElementUpdate, PigmoraEngine, ShapeKind, ShapeType,
};

fn bits(v: f32) -> u32 {
    v.to_bits()
}

fn empty_update() -> ElementUpdate {
    ElementUpdate {
        name: None,
        x: None,
        y: None,
        width: None,
        height: None,
        rotation: None,
        content: None,
        font_family: None,
        font_size: None,
        fill: None,
    }
}

#[test]
fn add_delete_undo_redo_scenario() {
    let mut engine = PigmoraEngine::new();
    engine.resize(800, 600);
    assert_eq!(engine.get_document().layers[0].id, 1);
    let id = engine.add_shape("rect", bits(10.0), bits(10.0)).unwrap();
    assert_eq!(id, 2);
    assert_eq!(engine.history().undo_len(), 1);
    assert!(engine.delete_element(2));
    assert_eq!(engine.history().undo_len(), 2);
    assert!(engine.get_document().get_element_by_id(2).is_none());
    assert!(engine.undo());
    assert_eq!(engine.get_document().find_element_location(2), Some((1, 0)));
    assert_eq!(engine.history().undo_len(), 1);
    assert_eq!(engine.history().redo_len(), 1);
    assert!(engine.redo());
    assert!(engine.get_document().get_element_by_id(2).is_none());
}

#[test]
fn fill_update_applies_to_text_only() {
    let mut engine = PigmoraEngine::new();
    let text_id = engine.add_text("hello", bits(0.0), bits(0.0)).unwrap();
    let shape_id = engine.add_shape("ellipse", bits(5.0), bits(5.0)).unwrap();
    let black = Color::new(bits(0.0), bits(0.0), bits(0.0), bits(1.0));

    let mut update = empty_update();
    update.fill = Some(black);
    assert!(engine.update_element(text_id, &update));
    match &engine.get_document().get_element_by_id(text_id).unwrap().data {
        ElementData::Text(t) => assert_eq!(t.fill, black),
        _ => panic!("expected text"),
    }

    let before = engine.get_document().get_element_by_id(shape_id).unwrap().clone();
    assert!(engine.update_element(shape_id, &update));
    let after = engine.get_document().get_element_by_id(shape_id).unwrap();
    assert_eq!(after.transform, before.transform);
    assert_eq!(after.name, before.name);
    match (&before.data, &after.data) {
        (ElementData::Shape(a), ElementData::Shape(b)) => {
            assert_eq!(a.shape_type, b.shape_type);
            assert_eq!(a.fill.unwrap().color, b.fill.unwrap().color);
        }
        _ => panic!("expected shapes"),
    }
}

#[test]
fn record_after_undo_clears_redo() {
    let mut engine = PigmoraEngine::new();
    engine.add_shape("rect", bits(0.0), bits(0.0)).unwrap();
    engine.add_shape("line", bits(1.0), bits(1.0)).unwrap();
    assert!(engine.undo());
    assert!(engine.undo());
    assert!(engine.redo());
    assert_eq!(engine.history().redo_len(), 1);
    engine.add_text("c", bits(2.0), bits(2.0)).unwrap();
    assert_eq!(engine.history().redo_len(), 0);
    assert!(!engine.redo());
}

#[test]
fn unchanged_commit_records_nothing() {
    let mut engine = PigmoraEngine::new();
    let id = engine.add_shape("rect", bits(0.0), bits(0.0)).unwrap();
    assert!(engine.select_element(id));
    assert!(engine.begin_transform());
    let before = engine.history().undo_len();
    assert!(!engine.commit_transform());
    assert_eq!(engine.history().undo_len(), before);
}

#[test]
fn drag_collapses_into_one_update() {
    let mut engine = PigmoraEngine::new();
    let id = engine.add_shape("rect", bits(0.0), bits(0.0)).unwrap();
    assert!(engine.begin_transform());
    for i in 1..5u32 {
        assert!(engine.update_selected_transform(bits(i as f32), bits(0.0), bits(0.0), bits(50.0)));
    }
    assert_eq!(engine.history().undo_len(), 1);
    let t = engine.get_document().get_element_transform(id).unwrap();
    assert_eq!(t.x, bits(4.0));
    assert_eq!(t.width, bits(1.0));
    assert!(engine.commit_transform());
    assert_eq!(engine.history().undo_len(), 2);
    assert!(engine.undo());
    let t = engine.get_document().get_element_transform(id).unwrap();
    assert_eq!(t.x, bits(0.0));
    assert_eq!(t.width, bits(160.0));
    assert!(!engine.commit_transform());
}

#[test]
fn unknown_names_are_rejected() {
    let mut engine = PigmoraEngine::new();
    assert_eq!(engine.add_shape("star", bits(0.0), bits(0.0)), Err(EditorError::UnknownShapeType));
    assert_eq!(engine.history().undo_len(), 0);
    assert_eq!(engine.set_active_tool("brush"), Err(EditorError::UnknownTool));
    assert_eq!(engine.set_active_tool("text"), Ok(()));
    assert_eq!(engine.set_active_shape("polygon"), Ok(()));
    assert_eq!(engine.set_active_shape("hexagon"), Err(EditorError::UnknownShapeType));
    assert_eq!(EditorError::UnknownTool.message(), "Unknown tool");
}

#[test]
fn rectangle_alias_parses() {
    assert_eq!(pigmora::parse_shape_type("rectangle"), Ok(ShapeType::Rect));
    assert_eq!(pigmora::parse_shape_type("rect"), Ok(ShapeType::Rect));
    assert_eq!(pigmora::parse_shape_type("line"), Ok(ShapeType::Line));
    assert_eq!(pigmora::parse_shape_type("Rect"), Err(EditorError::UnknownShapeType));
}

#[test]
fn missing_active_layer_reports_layer_not_found() {
    let mut engine = PigmoraEngine::new();
    let mut doc = engine.get_document().clone();
    doc.active_layer_id = 99;
    engine.load_document(doc);
    assert_eq!(engine.add_text("x", bits(0.0), bits(0.0)), Err(EditorError::LayerNotFound));
    assert_eq!(engine.history().undo_len(), 0);
}

#[test]
fn set_rect_creates_then_moves_primary_shape() {
    let mut engine = PigmoraEngine::new();
    assert!(engine.set_rect(bits(1.0), bits(2.0), bits(30.0), bits(40.0)));
    let id = engine.get_selected_id().unwrap();
    assert_eq!(id, 2);
    assert!(engine.set_rect(bits(5.0), bits(6.0), bits(30.0), bits(40.0)));
    assert_eq!(engine.get_selected_id(), Some(2));
    assert_eq!(engine.get_document().layers[0].elements.len(), 1);
    assert_eq!(engine.get_document().get_element_transform(2).unwrap().x, bits(5.0));
}

#[test]
fn deleting_selection_falls_back_to_first_shape() {
    let mut engine = PigmoraEngine::new();
    let first = engine.add_shape("rect", bits(0.0), bits(0.0)).unwrap();
    let second = engine.add_shape("ellipse", bits(0.0), bits(0.0)).unwrap();
    assert_eq!(engine.get_selected_id(), Some(second));
    assert!(engine.delete_element(second));
    assert_eq!(engine.get_selected_id(), Some(first));
    assert!(!engine.delete_element(second));
}

#[test]
fn select_at_picks_topmost() {
    let mut engine = PigmoraEngine::new();
    let a = engine.add_shape("rect", bits(0.0), bits(0.0)).unwrap();
    let b = engine.add_shape("rect", bits(0.0), bits(0.0)).unwrap();
    assert_eq!(engine.select_at(&vec![vec![true, true]]), Some(b));
    assert_eq!(engine.select_at(&vec![vec![true, false]]), Some(a));
    assert_eq!(engine.select_at(&vec![vec![false, false]]), None);
    assert_eq!(engine.get_selected_id(), None);
    assert_eq!(engine.select_at(&vec![]), None);
}

#[test]
fn render_projects_visible_elements() {
    let mut engine = PigmoraEngine::new();
    assert!(engine.render().is_none());
    engine.resize(100, 100);
    engine.add_shape("polygon", bits(1.0), bits(2.0)).unwrap();
    engine.add_text("t", bits(0.0), bits(0.0)).unwrap();
    engine.add_image(&[1, 2, 3], bits(3.0), bits(4.0)).unwrap();
    let (rects, frame) = engine.render().unwrap();
    assert_eq!(rects.len(), 2);
    assert_eq!(rects[0].shape, ShapeKind::Diamond);
    assert_eq!(rects[0].rect.x, bits(1.0));
    assert_eq!(rects[1].shape, ShapeKind::Rect);
    assert_eq!(rects[1].rect.width, bits(320.0));
    assert_eq!(frame.draw, vec![0, 1]);
    assert_eq!(frame.width, 100);
    let outline = frame.outline.unwrap();
    assert_eq!(outline.x, bits(3.0));
}

#[test]
fn update_selected_text_size_only_on_text() {
    let mut engine = PigmoraEngine::new();
    let t = engine.add_text("abc", bits(0.0), bits(0.0)).unwrap();
    assert!(engine.update_selected_text_size(bits(0.25)));
    match &engine.get_document().get_element_by_id(t).unwrap().data {
        ElementData::Text(text) => assert_eq!(text.font_size, bits(1.0)),
        _ => panic!("expected text"),
    }
    engine.add_shape("rect", bits(0.0), bits(0.0)).unwrap();
    assert!(!engine.update_selected_text_size(bits(12.0)));
}

#[test]
fn new_text_and_image_defaults() {
    let mut engine = PigmoraEngine::new();
    let t = engine.add_text("hi", bits(0.0), bits(0.0)).unwrap();
    let i = engine.add_image(&[], bits(0.0), bits(0.0)).unwrap();
    match &engine.get_document().get_element_by_id(t).unwrap().data {
        ElementData::Text(text) => {
            assert_eq!(text.fill, Color::new(bits(0.1), bits(0.1), bits(0.1), bits(1.0)));
            assert_eq!(text.font_family, "system-ui");
            assert_eq!(text.font_size, bits(24.0));
        }
        _ => panic!("expected text"),
    }
    match &engine.get_document().get_element_by_id(i).unwrap().data {
        ElementData::Image(image) => {
            assert_eq!(image.filters.brightness, bits(1.0));
            assert_eq!(image.filters.contrast, bits(1.0));
            assert_eq!(image.filters.saturation, bits(1.0));
            assert_eq!(image.source, "");
        }
        _ => panic!("expected image"),
    }
}
