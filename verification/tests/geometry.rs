//! Points, rectangles, angles and fixed-point trigonometry.

use shapecanvas::angle::{angle_of, canon_deg, cos_lookup, sin_lookup};
use shapecanvas::geom::{fdiv, sat64, COORD_MAX};
use shapecanvas::{Point, Rect};

#[test]
fn point_arithmetic() {
    let a = Point::new(3, 4);
    let b = Point::new(-1, 10);
    assert_eq!(a.plus(&b), Point::new(2, 14));
    assert_eq!(a.minus(&b), Point::new(4, -6));
    assert_eq!(a.midpoint(&b), Point::new(1, 7));
    assert_eq!(a.dist_sq(&b), 16 + 36);
}

#[test]
fn saturation_clamps_at_the_coordinate_bound() {
    assert_eq!(sat64(i128::from(COORD_MAX) + 5), COORD_MAX);
    assert_eq!(sat64(-i128::from(COORD_MAX) - 5), -COORD_MAX);
    assert_eq!(sat64(123), 123);
    let big = Point::new(COORD_MAX, 0);
    assert_eq!(big.plus(&Point::new(1, 1)), Point::new(COORD_MAX, 1));
}

#[test]
fn floor_division_rounds_down() {
    assert_eq!(fdiv(7, 2), 3);
    assert_eq!(fdiv(-7, 2), -4);
    assert_eq!(fdiv(-8, 2), -4);
    assert_eq!(fdiv(0, 5), 0);
}

#[test]
fn rect_bounds_normalize_corner_order() {
    let r = Rect::new(Point::new(10, 20), Point::new(5, 2));
    assert!(r.in_bounds(&Point::new(7, 10)));
    assert!(r.in_bounds(&Point::new(5, 2)));
    assert!(r.in_bounds(&Point::new(10, 20)));
    assert!(!r.in_bounds(&Point::new(4, 10)));
    assert!(!r.in_bounds(&Point::new(7, 21)));
    assert_eq!(r.width(), 5);
    assert_eq!(r.height(), 18);
    assert_eq!(r.center(), Point::new(7, 11));
}

#[test]
fn canonical_angles() {
    assert_eq!(canon_deg(0), 0);
    assert_eq!(canon_deg(360), 0);
    assert_eq!(canon_deg(725), 5);
    assert_eq!(canon_deg(-10), 350);
    assert_eq!(canon_deg(-360), 0);
}

#[test]
fn sine_is_exact_on_axes_and_familiar_points() {
    assert_eq!(sin_lookup(0), 0);
    assert_eq!(sin_lookup(90), 10000);
    assert_eq!(sin_lookup(180), 0);
    assert_eq!(sin_lookup(270), -10000);
    assert_eq!(cos_lookup(0), 10000);
    assert_eq!(cos_lookup(90), 0);
    assert_eq!(cos_lookup(180), -10000);
    assert_eq!(cos_lookup(270), 0);
    // Bhaskara's approximation is exact at 30 degrees as well.
    assert_eq!(sin_lookup(30), 5000);
    assert_eq!(cos_lookup(60), 5000);
}

#[test]
fn pointer_angles_on_axes_and_diagonals() {
    assert_eq!(angle_of(100, 0), 0);
    assert_eq!(angle_of(0, 100), 90);
    assert_eq!(angle_of(-100, 0), 180);
    assert_eq!(angle_of(0, -100), 270);
    assert_eq!(angle_of(70, 70), 45);
    assert_eq!(angle_of(-70, 70), 135);
    assert_eq!(angle_of(-70, -70), 225);
    assert_eq!(angle_of(70, -70), 315);
    assert_eq!(angle_of(0, 0), 0);
}
