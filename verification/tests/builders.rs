//! The shape and line builders.

use shapecanvas::shapes::{Color, LineBuilder, PrimType, ShapeBuilder};
use shapecanvas::{Point, Shape};

#[test]
fn polygon_builder_assembles_the_fields() {
    let s = ShapeBuilder::new().rect(120, 40).offset(10, 20).rot(450).color(1, 2, 3).get();
    match s {
        Shape::Polygon(dp) => {
            assert_eq!(dp.prim, PrimType::Rect);
            assert_eq!(dp.rect.offset, Point::new(10, 20));
            assert_eq!(dp.rect.size, Point::new(120, 40));
            assert_eq!(dp.rect.rot, 90);
            assert_eq!(dp.color, Color::new(1, 2, 3));
            assert!(dp.fill);
        },
        _ => panic!("expected a polygon"),
    }
}

#[test]
fn unfilled_circle_becomes_a_ring() {
    let s = ShapeBuilder::new().circle(25).fill(false).get();
    match s {
        Shape::Polygon(dp) => {
            assert_eq!(dp.prim, PrimType::Ring);
            assert_eq!(dp.rect.size, Point::new(25, 25));
        },
        _ => panic!("expected a polygon"),
    }
    let s = ShapeBuilder::new().tri(30, 40).get();
    match s {
        Shape::Polygon(dp) => assert_eq!(dp.prim, PrimType::Triangle),
        _ => panic!("expected a polygon"),
    }
}

#[test]
fn degenerate_sizes_are_clamped() {
    let s = ShapeBuilder::new().rect(0, -5).get();
    match s {
        Shape::Polygon(dp) => assert_eq!(dp.rect.size, Point::new(1, 1)),
        _ => panic!("expected a polygon"),
    }
}

#[test]
fn line_builder_assembles_the_fields() {
    let s = LineBuilder::new().points(1, 2, 30, 40).color(9, 8, 7).line_width(5).get();
    match s {
        Shape::Line(l) => {
            assert_eq!(l.p1, Point::new(1, 2));
            assert_eq!(l.p2, Point::new(30, 40));
            assert_eq!(l.line_width, 5);
            assert_eq!(l.color, Color::new(9, 8, 7));
        },
        _ => panic!("expected a line"),
    }
    let s = LineBuilder::new().points2(&Point::new(5, 5), &Point::new(6, 6)).get();
    match s {
        Shape::Line(l) => {
            assert_eq!(l.p1, Point::new(5, 5));
            assert_eq!(l.line_width, 3);
        },
        _ => panic!("expected a line"),
    }
}
