//! Lines end to end: creation from the palette, selection, hover and
//! endpoint drags.

use shapecanvas::select::SelectLine;
use shapecanvas::shapes::{Color, DrawLine, LineVertex, Shape};
use shapecanvas::state::{DragMode, HoverItem, KeyboardMode, PointerEventKind, ShapeBarShape};
use shapecanvas::{AppState, CursorIcon, Point};

fn fresh_canvas() -> AppState {
    AppState::new(&Point::new(1100, 700))
}

fn place_line(a: &mut AppState, x1: i64, y1: i64, x2: i64, y2: i64) -> u32 {
    a.draw_list
        .add(Shape::Line(DrawLine::new(
            Point::new(x1, y1),
            Point::new(x2, y2),
            3,
            Color::new(255, 0, 0),
        )))
        .unwrap()
}

#[test]
fn palette_line_tool_draws_between_two_clicks() {
    let mut a = fresh_canvas();
    // The line icon sits fifth on the palette bar: x = 385 + 4 * 66.
    let cur = a.handle_pointer_event(PointerEventKind::Down, 649, 29, false);
    assert_eq!(cur, CursorIcon::Crosshair);
    match a.hover_item {
        HoverItem::HoverShape(kind, _) => assert_eq!(kind, ShapeBarShape::Line),
        _ => panic!("expected a line preview"),
    }
    // First click anchors the line start.
    a.handle_pointer_event(PointerEventKind::Down, 300, 300, false);
    assert!(matches!(a.hover_item, HoverItem::HoverCreateLine { .. }));
    a.handle_pointer_event(PointerEventKind::Up, 300, 300, false);
    // Moving stretches the pending line; the second click commits it.
    a.handle_pointer_event(PointerEventKind::Move, 420, 360, false);
    a.handle_pointer_event(PointerEventKind::Down, 420, 360, false);
    assert!(matches!(a.hover_item, HoverItem::HoverNone));
    assert_eq!(a.draw_list.shapes.len(), 1);
    match a.draw_list.shapes[0].1 {
        Shape::Line(l) => {
            assert_eq!(l.p1, Point::new(300, 300));
            assert_eq!(l.p2, Point::new(420, 360));
        },
        _ => panic!("expected a line"),
    }
    // The fresh line is selected, with its endpoint handles live.
    assert_eq!(a.line_select.len(), 1);
}

#[test]
fn clicking_a_line_selects_it() {
    let mut a = fresh_canvas();
    let id = place_line(&mut a, 200, 200, 400, 200);
    let cur = a.handle_pointer_event(PointerEventKind::Down, 300, 200, false);
    assert_eq!(cur, CursorIcon::Hand);
    assert_eq!(a.line_select.len(), 1);
    assert_eq!(a.line_select[0].0, id);
    assert!(a.selection.is_empty());
}

#[test]
fn hovering_a_selected_line_finds_its_endpoints() {
    let mut a = fresh_canvas();
    let id = place_line(&mut a, 200, 200, 400, 200);
    a.line_select.push((id, SelectLine::new(Point::new(200, 200), Point::new(400, 200))));
    // Near an endpoint: the endpoint handle wins.
    let cur = a.handle_pointer_event(PointerEventKind::Move, 405, 205, false);
    assert_eq!(cur, CursorIcon::Hand);
    assert!(matches!(a.hover_item, HoverItem::HoverLineVertex(_, LineVertex::P2)));
    // On the stroke, away from the endpoints: the line itself.
    let cur = a.handle_pointer_event(PointerEventKind::Move, 300, 200, false);
    assert_eq!(cur, CursorIcon::Hand);
    assert!(matches!(a.hover_item, HoverItem::HoverLine(_)));
}

#[test]
fn dragging_an_endpoint_moves_overlay_and_shape_together() {
    let mut a = fresh_canvas();
    let id = place_line(&mut a, 200, 200, 400, 200);
    a.line_select.push((id, SelectLine::new(Point::new(200, 200), Point::new(400, 200))));
    a.handle_pointer_event(PointerEventKind::Move, 405, 205, false);
    a.handle_pointer_event(PointerEventKind::Down, 405, 205, false);
    assert!(matches!(a.drag_mode, DragMode::DragLineVertex { .. }));
    a.handle_pointer_event(PointerEventKind::Move, 500, 320, false);
    assert_eq!(a.line_select[0].1.line.p2, Point::new(500, 320));
    match a.draw_list.get(id).unwrap() {
        Shape::Line(l) => {
            assert_eq!(l.p2, Point::new(500, 320));
            assert_eq!(l.p1, Point::new(200, 200));
        },
        _ => panic!("expected the line"),
    }
    a.handle_pointer_event(PointerEventKind::Up, 500, 320, false);
    assert!(matches!(a.drag_mode, DragMode::DragNone));
}

#[test]
fn color_picker_clicks_fall_through_to_the_canvas() {
    let mut a = fresh_canvas();
    // The color picker is the last palette icon: x = 385 + 5 * 66.
    a.handle_pointer_event(PointerEventKind::Down, 715, 29, false);
    assert!(matches!(a.hover_item, HoverItem::HoverNone));
    // Nothing sits under the picker, so the click starts a select box.
    assert!(matches!(a.drag_mode, DragMode::SelectBox { .. }));
    assert!(matches!(a.key_mode, KeyboardMode::KeyboardNone));
}

#[test]
fn deleting_a_selected_line_removes_it() {
    let mut a = fresh_canvas();
    let id = place_line(&mut a, 200, 200, 400, 200);
    a.handle_pointer_event(PointerEventKind::Down, 300, 200, false);
    a.handle_pointer_event(PointerEventKind::Up, 300, 200, false);
    a.handle_key_event(shapecanvas::Key::Delete, true);
    assert!(a.draw_list.get(id).is_none());
    assert!(a.line_select.is_empty());
}
