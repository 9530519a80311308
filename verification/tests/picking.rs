//! Hit tests, the draw list's picking order and box selection.

use shapecanvas::drawlist::DrawList;
use shapecanvas::shapes::{Color, DrawLine, DrawPolygon, PrimType, Shape};
use shapecanvas::transform::MODEL_ONE;
use shapecanvas::{Point, Rect, RotateRect};

fn red() -> Color {
    Color::new(255, 0, 0)
}

fn poly(kind: PrimType, x: i64, y: i64, w: i64, h: i64) -> Shape {
    Shape::Polygon(DrawPolygon {
        prim: kind,
        fill: true,
        rect: RotateRect::new(Point::new(x, y), Point::new(w, h), 0),
        color: red(),
    })
}

#[test]
fn primitive_footprints() {
    let rect = PrimType::Rect;
    assert!(rect.in_bounds(&Point::new(0, 0)));
    assert!(rect.in_bounds(&Point::new(MODEL_ONE, MODEL_ONE)));
    assert!(!rect.in_bounds(&Point::new(-1, 0)));

    let circle = PrimType::Circle;
    let c = MODEL_ONE / 2;
    assert!(circle.in_bounds(&Point::new(c, c)));
    assert!(circle.in_bounds(&Point::new(c, 0)));
    // The unit square's corner lies outside the inscribed circle.
    assert!(!circle.in_bounds(&Point::new(0, 0)));

    let tri = PrimType::Triangle;
    // Apex at the top center, base along the bottom edge.
    assert!(tri.in_bounds(&Point::new(c, 0)));
    assert!(tri.in_bounds(&Point::new(0, MODEL_ONE)));
    assert!(tri.in_bounds(&Point::new(c, c)));
    assert!(!tri.in_bounds(&Point::new(0, 0)));
    assert!(!tri.in_bounds(&Point::new(MODEL_ONE, 0)));
}

#[test]
fn line_hit_respects_width_and_endpoints() {
    let l = DrawLine::new(Point::new(0, 0), Point::new(100, 0), 6, red());
    assert!(l.in_bounds(&Point::new(50, 0)));
    assert!(l.in_bounds(&Point::new(50, 3)));
    assert!(!l.in_bounds(&Point::new(50, 4)));
    // Beyond the expanded bounding box the point is rejected even
    // though the carrying line passes nearby.
    assert!(!l.in_bounds(&Point::new(110, 0)));
    assert!(l.in_bounds(&Point::new(102, 0)));
}

#[test]
fn picking_favors_the_most_recent_shape() {
    let mut dl = DrawList::new();
    let a = dl.add(poly(PrimType::Rect, 50, 50, 100, 100)).unwrap();
    let b = dl.add(poly(PrimType::Rect, 50, 50, 100, 100)).unwrap();
    // Both shapes cover the click point; the later one wins.
    let first = dl.click_shape(&Point::new(100, 100));
    assert_eq!(first, Some(b));
    // The clicked shape moved to the end of the draw order, so it
    // stays on top and wins the next pick too.
    assert_eq!(dl.shapes.last().unwrap().0, b);
    let second = dl.click_shape(&Point::new(100, 100));
    assert_eq!(second, Some(b));
    assert_eq!(dl.shapes[0].0, a);
}

#[test]
fn clicking_raises_a_buried_shape() {
    let mut dl = DrawList::new();
    let a = dl.add(poly(PrimType::Rect, 0, 0, 50, 50)).unwrap();
    let _b = dl.add(poly(PrimType::Rect, 200, 200, 50, 50)).unwrap();
    // Only the buried shape covers this point.
    assert_eq!(dl.click_shape(&Point::new(25, 25)), Some(a));
    assert_eq!(dl.shapes.last().unwrap().0, a);
}

#[test]
fn click_misses_empty_space() {
    let mut dl = DrawList::new();
    let _ = dl.add(poly(PrimType::Rect, 0, 0, 50, 50)).unwrap();
    assert_eq!(dl.click_shape(&Point::new(500, 500)), None);
}

#[test]
fn box_selection_is_vertex_touch() {
    let mut dl = DrawList::new();
    let a = dl.add(poly(PrimType::Rect, 100, 100, 80, 60)).unwrap();
    let b = dl.add(poly(PrimType::Rect, 400, 400, 80, 60)).unwrap();
    // The query box holds only the top-left corner of the first shape.
    let query = Rect::new(Point::new(90, 90), Point::new(110, 110));
    let (polys, lines) = dl.get_box_selection(&query);
    assert_eq!(polys.len(), 1);
    assert_eq!(polys[0].0, a);
    assert!(lines.is_empty());
    // A box around everything selects both.
    let all = Rect::new(Point::new(0, 0), Point::new(600, 600));
    let (polys, _) = dl.get_box_selection(&all);
    assert_eq!(polys.len(), 2);
    assert_eq!(polys[0].0, a);
    assert_eq!(polys[1].0, b);
    // A box over empty space selects nothing.
    let none = Rect::new(Point::new(250, 0), Point::new(350, 50));
    let (polys, lines) = dl.get_box_selection(&none);
    assert!(polys.is_empty() && lines.is_empty());
}

#[test]
fn box_selection_keeps_lines_apart() {
    let mut dl = DrawList::new();
    let l = dl
        .add(Shape::Line(DrawLine::new(Point::new(10, 10), Point::new(90, 10), 3, red())))
        .unwrap();
    let query = Rect::new(Point::new(0, 0), Point::new(20, 20));
    let (polys, lines) = dl.get_box_selection(&query);
    assert!(polys.is_empty());
    assert_eq!(lines.len(), 1);
    assert_eq!(lines[0].0, l);
}

#[test]
fn removal_and_lookup() {
    let mut dl = DrawList::new();
    let a = dl.add(poly(PrimType::Rect, 0, 0, 10, 10)).unwrap();
    let b = dl.add(poly(PrimType::Circle, 20, 20, 10, 10)).unwrap();
    assert!(dl.get(a).is_some());
    dl.remove(a);
    assert!(dl.get(a).is_none());
    assert!(dl.get(b).is_some());
    dl.remove(a);
    assert_eq!(dl.shapes.len(), 1);
}

#[test]
fn render_commands_follow_draw_order() {
    let mut dl = DrawList::new();
    let _ = dl.add(poly(PrimType::Rect, 0, 0, 10, 10)).unwrap();
    let _ = dl
        .add(Shape::Line(DrawLine::new(Point::new(1, 2), Point::new(3, 4), 3, red())))
        .unwrap();
    let cmds = dl.render_commands();
    assert_eq!(cmds.len(), 2);
    match cmds[0] {
        shapecanvas::shapes::DrawCmd::Polygon { prim, .. } => {
            assert_eq!(prim, PrimType::Rect)
        },
        _ => panic!("first command should be the rectangle"),
    }
    match cmds[1] {
        shapecanvas::shapes::DrawCmd::Line { p1, p2, .. } => {
            assert_eq!(p1, Point::new(1, 2));
            assert_eq!(p2, Point::new(3, 4));
        },
        _ => panic!("second command should be the line"),
    }
}
