//! The hover/drag state machine end to end: palette, creation,
//! selection, dragging, rotation delta accumulation, deletion, and
//! keyboard routing.

use shapecanvas::drawlist::DrawList;
use shapecanvas::select::{DragVertex, Selection};
use shapecanvas::shapes::{Color, DrawCmd, DrawPolygon, PrimType};
use shapecanvas::state::{
    AppState, DragMode, HoverItem, Key, KeyboardMode, PointerEventKind, TextAction,
    TextCursorDirection,
};
use shapecanvas::{CursorIcon, Point, RotateRect, Shape};

fn fresh() -> AppState {
    AppState::new(&Point::new(1100, 700))
}

fn place_rect(a: &mut AppState, x: i64, y: i64, w: i64, h: i64) -> u32 {
    a.draw_list
        .add(Shape::Polygon(DrawPolygon {
            prim: PrimType::Rect,
            fill: true,
            rect: RotateRect::new(Point::new(x, y), Point::new(w, h), 0),
            color: Color::new(255, 0, 0),
        }))
        .unwrap()
}

#[test]
fn clicking_a_shape_selects_it_and_starts_a_drag() {
    let mut a = fresh();
    let id = place_rect(&mut a, 300, 300, 100, 80);
    let cur = a.handle_pointer_event(PointerEventKind::Down, 350, 340, false);
    assert_eq!(cur, CursorIcon::Hand);
    assert_eq!(a.selection.len(), 1);
    assert_eq!(a.selection[0].0, id);
    assert!(matches!(a.drag_mode, DragMode::DragShapes { .. }));
    let cur = a.handle_pointer_event(PointerEventKind::Up, 350, 340, false);
    assert_eq!(cur, CursorIcon::Arrow);
    assert!(matches!(a.drag_mode, DragMode::DragNone));
}

#[test]
fn empty_click_clears_the_selection() {
    let mut a = fresh();
    let _ = place_rect(&mut a, 300, 300, 100, 80);
    a.handle_pointer_event(PointerEventKind::Down, 350, 340, false);
    a.handle_pointer_event(PointerEventKind::Up, 350, 340, false);
    assert_eq!(a.selection.len(), 1);
    // A click on empty canvas space with no modifier held clears all
    // selection maps and starts a select box.
    a.handle_pointer_event(PointerEventKind::Down, 900, 600, false);
    assert!(a.selection.is_empty());
    assert!(a.line_select.is_empty());
    assert!(matches!(a.drag_mode, DragMode::SelectBox { .. }));
    assert!(matches!(a.key_mode, KeyboardMode::KeyboardNone));
}

#[test]
fn empty_click_with_modifier_keeps_the_selection() {
    let mut a = fresh();
    let _ = place_rect(&mut a, 300, 300, 100, 80);
    a.handle_pointer_event(PointerEventKind::Down, 350, 340, false);
    a.handle_pointer_event(PointerEventKind::Up, 350, 340, false);
    a.handle_pointer_event(PointerEventKind::Down, 900, 600, true);
    assert_eq!(a.selection.len(), 1);
}

#[test]
fn dragging_moves_shape_and_box_together() {
    let mut a = fresh();
    let id = place_rect(&mut a, 300, 300, 100, 80);
    a.handle_pointer_event(PointerEventKind::Down, 350, 340, false);
    a.handle_pointer_event(PointerEventKind::Move, 370, 335, false);
    a.handle_pointer_event(PointerEventKind::Up, 370, 335, false);
    let s = a.draw_list.get(id).unwrap();
    match s {
        Shape::Polygon(dp) => assert_eq!(dp.rect.offset, Point::new(320, 295)),
        _ => panic!("expected the rectangle"),
    }
    assert_eq!(a.selection[0].1.rect.offset, Point::new(320, 295));
}

#[test]
fn select_box_drag_picks_corner_touching_shapes() {
    let mut a = fresh();
    let near = place_rect(&mut a, 300, 300, 100, 80);
    let far = place_rect(&mut a, 700, 500, 50, 50);
    a.handle_pointer_event(PointerEventKind::Down, 280, 280, false);
    assert!(matches!(a.drag_mode, DragMode::SelectBox { .. }));
    // The box reaches only the top-left corner of the first shape.
    a.handle_pointer_event(PointerEventKind::Move, 310, 310, false);
    assert_eq!(a.selection.len(), 1);
    assert_eq!(a.selection[0].0, near);
    // Growing it over the far shape's corner brings that one in too.
    a.handle_pointer_event(PointerEventKind::Move, 710, 510, false);
    assert_eq!(a.selection.len(), 2);
    assert_eq!(a.selection[1].0, far);
    a.handle_pointer_event(PointerEventKind::Up, 710, 510, false);
    assert!(matches!(a.drag_mode, DragMode::DragNone));
}

#[test]
fn palette_click_previews_then_creates_a_shape() {
    let mut a = fresh();
    // The circle icon of the palette bar sits at (385, 29) for an
    // 1100 by 700 viewport.
    let cur = a.handle_pointer_event(PointerEventKind::Down, 385, 29, false);
    assert_eq!(cur, CursorIcon::Crosshair);
    assert!(matches!(a.hover_item, HoverItem::HoverShape(_, _)));
    // The preview follows the pointer.
    let cur = a.handle_pointer_event(PointerEventKind::Move, 400, 300, false);
    assert_eq!(cur, CursorIcon::Crosshair);
    // Pressing starts the creation drag, moving sizes it, releasing
    // commits it into the draw list.
    a.handle_pointer_event(PointerEventKind::Down, 400, 300, false);
    assert!(matches!(a.drag_mode, DragMode::CreateShape { .. }));
    a.handle_pointer_event(PointerEventKind::Move, 500, 380, false);
    a.handle_pointer_event(PointerEventKind::Up, 500, 380, false);
    assert_eq!(a.draw_list.shapes.len(), 1);
    match a.draw_list.shapes[0].1 {
        Shape::Polygon(dp) => {
            assert_eq!(dp.prim, PrimType::Circle);
            assert_eq!(dp.rect.offset, Point::new(400, 300));
            assert_eq!(dp.rect.size, Point::new(100, 80));
            assert!(dp.fill);
        },
        _ => panic!("expected a circle"),
    }
}

#[test]
fn degenerate_creation_drag_gets_the_default_size() {
    let mut a = fresh();
    a.handle_pointer_event(PointerEventKind::Down, 385, 29, false);
    a.handle_pointer_event(PointerEventKind::Down, 400, 300, false);
    // No movement at all: the committed shape takes the default size.
    a.handle_pointer_event(PointerEventKind::Up, 400, 300, false);
    match a.draw_list.shapes[0].1 {
        Shape::Polygon(dp) => assert_eq!(dp.rect.size, Point::new(30, 30)),
        _ => panic!("expected a polygon"),
    }
}

#[test]
fn rotation_accumulates_deltas_across_the_wrap() {
    let mut a = fresh();
    let id = place_rect(&mut a, 300, 300, 100, 80);
    a.selection.push((
        id,
        Selection::new(RotateRect::new(Point::new(300, 300), Point::new(100, 80), 0)),
    ));
    let center = a.selection[0].1.rect.center();
    // Pointer positions at exact diagonal angles around the center:
    // 45 degrees, then 315 (crossing the wrap), then 45 again.
    let at = |deg: i64| -> Point {
        match deg {
            45 => Point::new(center.x + 100, center.y + 100),
            315 => Point::new(center.x + 100, center.y - 100),
            _ => unreachable!(),
        }
    };
    a.drag_mode = DragMode::DragRotate { click_box: id, last_angle: 45 };
    let p = at(315);
    a.handle_pointer_event(PointerEventKind::Move, p.x, p.y, false);
    // The delta is applied, not the absolute angle: 0 + (315 - 45).
    assert_eq!(a.selection[0].1.rect.rot, 270);
    let p = at(45);
    a.handle_pointer_event(PointerEventKind::Move, p.x, p.y, false);
    // Going back cancels the delta exactly; no discontinuity was
    // introduced at the wrap boundary.
    assert_eq!(a.selection[0].1.rect.rot, 0);
}

#[test]
fn resize_drag_updates_shape_and_box_in_one_tick() {
    let mut a = fresh();
    let id = place_rect(&mut a, 50, 50, 100, 50);
    a.selection.push((
        id,
        Selection::new(RotateRect::new(Point::new(50, 50), Point::new(100, 50), 0)),
    ));
    a.drag_mode = DragMode::DragResize { click_box: id, drag_vertex: DragVertex::Right };
    let cur = a.handle_pointer_event(PointerEventKind::Move, 180, 75, false);
    assert_eq!(cur, CursorIcon::ResizeWE);
    assert_eq!(a.selection[0].1.rect.size, Point::new(130, 50));
    match a.draw_list.get(id).unwrap() {
        Shape::Polygon(dp) => assert_eq!(dp.rect.size, Point::new(130, 50)),
        _ => panic!("expected the rectangle"),
    }
    // The handle identity is tracked in the drag mode.
    match a.drag_mode {
        DragMode::DragResize { drag_vertex, .. } => assert_eq!(drag_vertex, DragVertex::Right),
        _ => panic!("resize drag should continue"),
    }
}

#[test]
fn delete_key_removes_the_selection() {
    let mut a = fresh();
    let id = place_rect(&mut a, 300, 300, 100, 80);
    let other = place_rect(&mut a, 600, 300, 100, 80);
    a.handle_pointer_event(PointerEventKind::Down, 350, 340, false);
    a.handle_pointer_event(PointerEventKind::Up, 350, 340, false);
    let act = a.handle_key_event(Key::Delete, true);
    assert!(act.is_none());
    assert!(a.draw_list.get(id).is_none());
    assert!(a.draw_list.get(other).is_some());
    assert!(a.selection.is_empty());
}

#[test]
fn key_events_route_to_the_text_target() {
    let mut a = fresh();
    a.key_mode = KeyboardMode::TextEdit(7);
    assert_eq!(a.handle_key_event(Key::Char('x'), true), Some(TextAction::Insert(7, 'x')));
    assert_eq!(
        a.handle_key_event(Key::Left, true),
        Some(TextAction::MoveCursor(7, TextCursorDirection::Left))
    );
    assert_eq!(a.handle_key_event(Key::Backspace, true), Some(TextAction::Backspace(7)));
    // Releases are ignored.
    assert_eq!(a.handle_key_event(Key::Char('x'), false), None);
    // Outside text mode nothing is routed.
    a.key_mode = KeyboardMode::KeyboardNone;
    assert_eq!(a.handle_key_event(Key::Char('x'), true), None);
}

#[test]
fn release_collapses_a_multi_selection_to_the_clicked_shape() {
    let mut a = fresh();
    let one = place_rect(&mut a, 100, 100, 50, 50);
    let two = place_rect(&mut a, 300, 300, 50, 50);
    a.selection.push((
        one,
        Selection::new(RotateRect::new(Point::new(100, 100), Point::new(50, 50), 0)),
    ));
    a.selection.push((
        two,
        Selection::new(RotateRect::new(Point::new(300, 300), Point::new(50, 50), 0)),
    ));
    // A click (no movement) on one shape of a multi-selection keeps
    // only that shape selected on release.
    a.drag_mode = DragMode::DragShapes { last_pt: Point::new(120, 120), click_shape: one, clear_select: true };
    a.handle_pointer_event(PointerEventKind::Up, 120, 120, false);
    assert_eq!(a.selection.len(), 1);
    assert_eq!(a.selection[0].0, one);
    // Movement clears the collapse flag, so a moved drag keeps the
    // whole selection.
    let mut b = fresh();
    let one = place_rect(&mut b, 100, 100, 50, 50);
    let two = place_rect(&mut b, 300, 300, 50, 50);
    b.selection.push((
        one,
        Selection::new(RotateRect::new(Point::new(100, 100), Point::new(50, 50), 0)),
    ));
    b.selection.push((
        two,
        Selection::new(RotateRect::new(Point::new(300, 300), Point::new(50, 50), 0)),
    ));
    b.drag_mode = DragMode::DragShapes { last_pt: Point::new(120, 120), click_shape: one, clear_select: true };
    b.handle_pointer_event(PointerEventKind::Move, 130, 130, false);
    b.handle_pointer_event(PointerEventKind::Up, 130, 130, false);
    assert_eq!(b.selection.len(), 2);
}

#[test]
fn hovering_a_handle_requests_the_matching_cursor() {
    let mut a = fresh();
    let id = place_rect(&mut a, 300, 300, 100, 80);
    a.selection.push((
        id,
        Selection::new(RotateRect::new(Point::new(300, 300), Point::new(100, 80), 0)),
    ));
    // Over the box itself: a hand.
    let cur = a.handle_pointer_event(PointerEventKind::Move, 350, 340, false);
    assert_eq!(cur, CursorIcon::Hand);
    assert!(matches!(a.hover_item, HoverItem::HoverRect(_)));
    // Near the top-left corner but outside the box: the diagonal
    // resize cursor.
    let cur = a.handle_pointer_event(PointerEventKind::Move, 297, 296, false);
    assert_eq!(cur, CursorIcon::ResizeNWSE);
    assert!(matches!(a.hover_item, HoverItem::HoverVertex(_, DragVertex::TopLeft)));
    // The precise handle test runs before the body test, so the same
    // handle is reachable from just inside the box too.
    let cur = a.handle_pointer_event(PointerEventKind::Move, 303, 303, false);
    assert_eq!(cur, CursorIcon::ResizeNWSE);
    assert!(matches!(a.hover_item, HoverItem::HoverVertex(_, DragVertex::TopLeft)));
    // Far away: nothing.
    let cur = a.handle_pointer_event(PointerEventKind::Move, 900, 600, false);
    assert_eq!(cur, CursorIcon::Arrow);
    assert!(matches!(a.hover_item, HoverItem::HoverNone));
}

#[test]
fn ids_survive_an_empty_draw_list() {
    let mut dl = DrawList::new();
    assert_eq!(dl.click_shape(&Point::new(0, 0)), None);
    assert!(dl.get(0).is_none());
    dl.remove(0);
    assert_eq!(dl.next_id, 0);
}

#[test]
fn rotation_gesture_through_the_pointer_flow() {
    let mut a = fresh();
    let id = place_rect(&mut a, 300, 300, 100, 80);
    a.selection.push((
        id,
        Selection::new(RotateRect::new(Point::new(300, 300), Point::new(100, 80), 0)),
    ));
    // A rotation handle sits at the top-left corner of the box scaled
    // by six fifths about its center: (290, 292) for this placement.
    let cur = a.handle_pointer_event(PointerEventKind::Move, 290, 292, false);
    assert_eq!(cur, CursorIcon::Hand);
    assert!(matches!(a.hover_item, HoverItem::HoverRotate(_)));
    a.handle_pointer_event(PointerEventKind::Down, 290, 292, false);
    assert!(matches!(a.drag_mode, DragMode::DragRotate { .. }));
    // Swing to the 45-degree diagonal of the box center (350, 340):
    // the rotation takes the delta from the grab angle, 216 degrees.
    a.handle_pointer_event(PointerEventKind::Move, 450, 440, false);
    assert_eq!(a.selection[0].1.rect.rot, 189);
    match a.draw_list.get(id).unwrap() {
        Shape::Polygon(dp) => assert_eq!(dp.rect.rot, 189),
        _ => panic!("expected the rectangle"),
    }
    a.handle_pointer_event(PointerEventKind::Up, 450, 440, false);
    assert!(matches!(a.drag_mode, DragMode::DragNone));
}

#[test]
fn escape_cancels_a_gesture_in_progress() {
    let mut a = fresh();
    let _ = place_rect(&mut a, 300, 300, 100, 80);
    a.handle_pointer_event(PointerEventKind::Down, 350, 340, false);
    assert!(matches!(a.drag_mode, DragMode::DragShapes { .. }));
    assert_eq!(a.handle_key_event(Key::Escape, true), None);
    assert!(matches!(a.drag_mode, DragMode::DragNone));
    // The selection itself survives the cancellation.
    assert_eq!(a.selection.len(), 1);
}

#[test]
fn overlays_cover_boxes_handles_and_previews() {
    let mut a = fresh();
    let id = place_rect(&mut a, 50, 50, 100, 50);
    a.selection.push((
        id,
        Selection::new(RotateRect::new(Point::new(50, 50), Point::new(100, 50), 0)),
    ));
    let cmds = a.render_overlays();
    // One outline, eight handle markers, four rotation markers.
    assert_eq!(cmds.len(), 13);
    match cmds[0] {
        DrawCmd::Polygon { prim, key, fill, .. } => {
            assert_eq!(prim, PrimType::Rect);
            assert_eq!(key.offset, Point::new(50, 50));
            assert_eq!(key.size, Point::new(100, 50));
            assert!(!fill);
        },
        _ => panic!("expected the box outline first"),
    }
    match cmds[1] {
        DrawCmd::CircleMarker { center, radius, fill, .. } => {
            assert_eq!(center, Point::new(50, 50));
            assert_eq!(radius, 5);
            assert!(fill);
        },
        _ => panic!("expected the first handle marker"),
    }
    match cmds[9] {
        DrawCmd::CircleMarker { center, fill, .. } => {
            // First rotation handle: the box scaled by six fifths.
            assert_eq!(center, Point::new(40, 45));
            assert!(!fill);
        },
        _ => panic!("expected the first rotation marker"),
    }
    // A select-box drag adds its outline at the end.
    a.drag_mode = DragMode::SelectBox { start_pt: Point::new(10, 10), last_pt: Point::new(30, 40) };
    let cmds = a.render_overlays();
    assert_eq!(cmds.len(), 14);
    match cmds[13] {
        DrawCmd::Polygon { prim, key, fill, .. } => {
            assert_eq!(prim, PrimType::Rect);
            assert_eq!(key.offset, Point::new(10, 10));
            assert_eq!(key.size, Point::new(20, 30));
            assert!(!fill);
        },
        _ => panic!("expected the select-box outline"),
    }
}

#[test]
fn deletion_keeps_the_survivors_in_draw_order() {
    let mut a = fresh();
    let first = place_rect(&mut a, 0, 0, 20, 20);
    let middle = place_rect(&mut a, 100, 0, 20, 20);
    let last = place_rect(&mut a, 200, 0, 20, 20);
    // Select the middle shape and delete it.
    a.handle_pointer_event(PointerEventKind::Down, 110, 10, false);
    a.handle_pointer_event(PointerEventKind::Up, 110, 10, false);
    a.handle_key_event(Key::Delete, true);
    assert!(a.draw_list.get(middle).is_none());
    assert_eq!(a.draw_list.shapes.len(), 2);
    // The survivors keep their relative draw order.
    assert_eq!(a.draw_list.shapes[0].0, first);
    assert_eq!(a.draw_list.shapes[1].0, last);
}

#[test]
fn stale_hover_targets_click_as_a_no_op() {
    let mut a = fresh();
    let shapes_before = a.draw_list.shapes.len();
    // A hover target whose id is on no selection map: the press
    // changes nothing.
    a.hover_item = HoverItem::HoverRect(42);
    let cur = a.handle_pointer_event(PointerEventKind::Down, 500, 300, false);
    assert_eq!(cur, CursorIcon::Arrow);
    assert!(matches!(a.drag_mode, DragMode::DragNone));
    assert_eq!(a.draw_list.shapes.len(), shapes_before);
}

#[test]
fn promoting_a_hover_target_clears_it() {
    let mut a = fresh();
    let id = place_rect(&mut a, 300, 300, 100, 80);
    a.selection.push((
        id,
        Selection::new(RotateRect::new(Point::new(300, 300), Point::new(100, 80), 0)),
    ));
    // Hover the top-left handle, press: the target promotes into a
    // resize drag and the hover item clears.
    a.handle_pointer_event(PointerEventKind::Move, 297, 296, false);
    assert!(matches!(a.hover_item, HoverItem::HoverVertex(_, _)));
    a.handle_pointer_event(PointerEventKind::Down, 297, 296, false);
    assert!(matches!(a.drag_mode, DragMode::DragResize { .. }));
    assert!(matches!(a.hover_item, HoverItem::HoverNone));
    // Promotion alone changes no geometry: the shape, its placement
    // and the selection maps are exactly as before the press.
    assert_eq!(a.draw_list.shapes.len(), 1);
    match a.draw_list.get(id).unwrap() {
        Shape::Polygon(dp) => {
            assert_eq!(dp.rect.offset, Point::new(300, 300));
            assert_eq!(dp.rect.size, Point::new(100, 80));
        },
        _ => panic!("expected the rectangle"),
    }
    assert_eq!(a.selection.len(), 1);
    assert_eq!(a.selection[0].1.rect.offset, Point::new(300, 300));
}

#[test]
fn modifier_click_grows_a_multi_selection() {
    let mut a = fresh();
    let one = place_rect(&mut a, 100, 100, 50, 50);
    let two = place_rect(&mut a, 300, 300, 50, 50);
    a.handle_pointer_event(PointerEventKind::Down, 120, 120, false);
    a.handle_pointer_event(PointerEventKind::Up, 120, 120, false);
    assert_eq!(a.selection.len(), 1);
    // With the keep-selection modifier held, clicking the second shape
    // adds it instead of replacing the first.
    a.handle_pointer_event(PointerEventKind::Down, 320, 320, true);
    a.handle_pointer_event(PointerEventKind::Up, 320, 320, true);
    assert_eq!(a.selection.len(), 2);
    assert_eq!(a.selection[0].0, one);
    assert_eq!(a.selection[1].0, two);
}
