//! The resize algorithm: the anchor/moving-edge swap, the handle
//! identity after a crossing, and the non-degeneracy of the result.

use shapecanvas::select::{drag_side_swap_vertex, DragVertex, Selection};
use shapecanvas::transform::MODEL_ONE;
use shapecanvas::{Point, RotateRect};

fn selection_100x50_at_50_50() -> Selection {
    Selection::new(RotateRect::new(Point::new(50, 50), Point::new(100, 50), 0))
}

#[test]
fn swap_keeps_the_pair_ordered() {
    // Ascending pair, no crossing: the dragged scalar moves.
    let mut start: i64 = 0;
    let mut min_max: i64 = 100;
    let v = drag_side_swap_vertex(&DragVertex::Left, &DragVertex::Right, &mut start, &mut min_max, 40);
    assert_eq!(v, DragVertex::Left);
    assert_eq!((start, min_max), (40, 100));
    // Ascending pair, crossing: the scalars swap and the opposite
    // handle takes over.
    let mut start: i64 = 0;
    let mut min_max: i64 = 100;
    let v = drag_side_swap_vertex(&DragVertex::Left, &DragVertex::Right, &mut start, &mut min_max, 140);
    assert_eq!(v, DragVertex::Right);
    assert_eq!((start, min_max), (100, 140));
    assert!(start <= min_max);
    // Descending pair, crossing the other way.
    let mut start: i64 = 100;
    let mut min_max: i64 = 0;
    let v = drag_side_swap_vertex(&DragVertex::Right, &DragVertex::Left, &mut start, &mut min_max, -30);
    assert_eq!(v, DragVertex::Left);
    assert_eq!((start, min_max), (0, -30));
    assert!(start >= min_max);
}

#[test]
fn right_edge_drag_grows_the_width() {
    // A 100 by 50 rectangle at (50, 50); drag the right-center handle
    // 30 pixels right.
    let mut sel = selection_100x50_at_50_50();
    let v = sel.drag_side(&DragVertex::Right, &Point::new(180, 75));
    assert_eq!(v, DragVertex::Right);
    assert_eq!(sel.rect.size, Point::new(130, 50));
    assert_eq!(sel.rect.offset, Point::new(50, 50));
}

#[test]
fn dragging_past_the_left_edge_flips_the_handle() {
    let mut sel = selection_100x50_at_50_50();
    let v = sel.drag_side(&DragVertex::Right, &Point::new(180, 75));
    assert_eq!(v, DragVertex::Right);
    // Continue left past the left edge: 150 pixels left of the first
    // stop.  The handle identity flips to Left, the width stays
    // positive and the offset becomes the new, smaller x.
    let v = sel.drag_side(&DragVertex::Right, &Point::new(30, 75));
    assert_eq!(v, DragVertex::Left);
    assert_eq!(sel.rect.size.y, 50);
    assert_eq!(sel.rect.size.x, 20);
    assert!(sel.rect.size.x >= 1 && sel.rect.size.y >= 1);
    // The committed left edge lands on the dragged-to pixel.
    assert_eq!(sel.rect.offset.x, 30);
    assert_eq!(sel.rect.offset.y, 50);
}

#[test]
fn every_handle_keeps_the_size_positive() {
    let handles = [
        DragVertex::TopLeft,
        DragVertex::TopRight,
        DragVertex::BottomRight,
        DragVertex::BottomLeft,
        DragVertex::TopCenter,
        DragVertex::Right,
        DragVertex::BottomCenter,
        DragVertex::Left,
    ];
    let targets = [
        Point::new(50, 50),
        Point::new(150, 100),
        Point::new(-500, -500),
        Point::new(1000, 1000),
        Point::new(100, 75),
    ];
    for h in handles.iter() {
        for t in targets.iter() {
            let mut sel = selection_100x50_at_50_50();
            let v = sel.drag_side(h, t);
            assert!(sel.rect.size.x >= 1, "width after {:?} to {:?}", h, t);
            assert!(sel.rect.size.y >= 1, "height after {:?} to {:?}", h, t);
            // The active handle is the dragged one or its opposite.
            let flipped = match h {
                DragVertex::TopLeft => DragVertex::BottomRight,
                DragVertex::TopRight => DragVertex::BottomLeft,
                DragVertex::BottomRight => DragVertex::TopLeft,
                DragVertex::BottomLeft => DragVertex::TopRight,
                DragVertex::TopCenter => DragVertex::BottomCenter,
                DragVertex::Right => DragVertex::Left,
                DragVertex::BottomCenter => DragVertex::TopCenter,
                DragVertex::Left => DragVertex::Right,
            };
            assert!(v == *h || v == flipped);
        }
    }
}

#[test]
fn corner_drag_reflows_both_axes() {
    let mut sel = selection_100x50_at_50_50();
    // Drag the bottom-right corner outward along the diagonal: the
    // unit model box is square, so both axes scale alike.
    let v = sel.drag_side(&DragVertex::BottomRight, &Point::new(250, 200));
    assert_eq!(v, DragVertex::BottomRight);
    assert_eq!(sel.rect.size, Point::new(200, 100));
    assert_eq!(sel.rect.offset, Point::new(50, 50));
}

#[test]
fn handle_positions_surround_the_box() {
    let sel = selection_100x50_at_50_50();
    let pts = sel.get_drag_points();
    assert_eq!(pts.len(), 8);
    assert_eq!(pts[0], Point::new(50, 50));
    assert_eq!(pts[2], Point::new(150, 100));
    // Edge midpoints follow the four corners.
    assert_eq!(pts[4], Point::new(100, 50));
    assert_eq!(pts[5], Point::new(150, 75));
    assert_eq!(pts[6], Point::new(100, 100));
    assert_eq!(pts[7], Point::new(50, 75));
    // The pointer near a corner finds that handle.
    assert_eq!(sel.get_drag_vertex(&Point::new(52, 52)), Some(DragVertex::TopLeft));
    assert_eq!(sel.get_drag_vertex(&Point::new(150, 73)), Some(DragVertex::Right));
    assert_eq!(sel.get_drag_vertex(&Point::new(500, 500)), None);
}

#[test]
fn rotate_handles_sit_outside_the_box() {
    let sel = selection_100x50_at_50_50();
    let pts = sel.get_rotate_points();
    assert_eq!(pts.len(), 4);
    // The rotate box is the selection scaled by six fifths about its
    // center: 120 by 60 around (100, 75).
    assert_eq!(pts[0], Point::new(40, 45));
    assert_eq!(pts[2], Point::new(160, 105));
    assert!(sel.is_hover_rotate(&Point::new(41, 44)));
    assert!(!sel.is_hover_rotate(&Point::new(100, 75)));
}
