//! The model-to-pixel mapping, its inverse, the memoized transform
//! and the resize algorithm on placements.

use shapecanvas::transform::{RectKey, RectTransform, TransformCache, MODEL_ONE};
use shapecanvas::{Point, Rect, RotateRect};

fn key(ox: i64, oy: i64, w: i64, h: i64, rot: i64) -> RectKey {
    RectKey { offset: Point::new(ox, oy), size: Point::new(w, h), rot }
}

#[test]
fn unrotated_corners_map_to_pixel_corners() {
    let t = RectTransform::from_key(&key(50, 50, 100, 50, 0));
    assert_eq!(t.model_to_pixel(&Point::new(0, 0)), Point::new(50, 50));
    assert_eq!(t.model_to_pixel(&Point::new(MODEL_ONE, 0)), Point::new(150, 50));
    assert_eq!(t.model_to_pixel(&Point::new(MODEL_ONE, MODEL_ONE)), Point::new(150, 100));
    assert_eq!(t.model_to_pixel(&Point::new(0, MODEL_ONE)), Point::new(50, 100));
}

#[test]
fn pixel_to_model_inverts_the_corners() {
    let t = RectTransform::from_key(&key(50, 50, 100, 50, 0));
    assert_eq!(t.pixel_to_model(&Point::new(50, 50)), Point::new(0, 0));
    assert_eq!(t.pixel_to_model(&Point::new(100, 75)), Point::new(MODEL_ONE / 2, MODEL_ONE / 2));
    assert_eq!(t.pixel_to_model(&Point::new(150, 100)), Point::new(MODEL_ONE, MODEL_ONE));
    // Outside points land outside the unit square.
    assert!(t.pixel_to_model(&Point::new(40, 75)).x < 0);
    assert!(t.pixel_to_model(&Point::new(160, 75)).x > MODEL_ONE);
}

#[test]
fn round_trip_is_tight_without_rotation() {
    let t = RectTransform::from_key(&key(12, 34, 100, 50, 0));
    for &(mx, my) in &[(0i64, 0i64), (12345, 54321), (MODEL_ONE, MODEL_ONE), (700, 65000)] {
        let m = Point::new(mx, my);
        let p = t.model_to_pixel(&m);
        let m2 = t.pixel_to_model(&p);
        // Never overshoots, loses less than one pixel's worth of model
        // units per axis.
        assert!(0 <= m.x - m2.x && (m.x - m2.x) * 100 < MODEL_ONE + 100);
        assert!(0 <= m.y - m2.y && (m.y - m2.y) * 50 < MODEL_ONE + 50);
    }
}

#[test]
fn round_trip_stays_close_under_rotation() {
    // The proven bound for arbitrary rotations: per axis, the drift
    // times size times 10^8 stays within
    // M * (450000 * size + 3 * 10^8) + (M + size) * 10^8.
    let bound = |size: i64, drift: i64| -> bool {
        let t2: i128 = 100_000_000;
        let m = i128::from(MODEL_ONE);
        let w = i128::from(size);
        let b = m * (450_000 * w + 3 * t2) + (m + w) * t2;
        i128::from(drift.abs()) * w * t2 <= b
    };
    let t = RectTransform::from_key(&key(300, 200, 120, 80, 37));
    for &(mx, my) in &[(0i64, 0i64), (MODEL_ONE, MODEL_ONE), (20000, 40000)] {
        let m = Point::new(mx, my);
        let p = t.model_to_pixel(&m);
        let m2 = t.pixel_to_model(&p);
        assert!(bound(120, m.x - m2.x), "x drift {}", m.x - m2.x);
        assert!(bound(80, m.y - m2.y), "y drift {}", m.y - m2.y);
        // And the drift is small in absolute terms too: under half a
        // percent of the unit square plus a few pixels' worth.
        assert!((m.x - m2.x).abs() < 2500, "x drift {}", m.x - m2.x);
        assert!((m.y - m2.y).abs() < 2500, "y drift {}", m.y - m2.y);
    }
}

#[test]
fn cache_rebuilds_only_on_a_changed_key() {
    let mut cache = TransformCache::new();
    let k1 = key(10, 10, 40, 40, 90);
    let t1 = cache.get(&k1);
    let t2 = cache.get(&k1);
    let fresh = RectTransform::from_key(&k1);
    assert_eq!(t1.off, fresh.off);
    assert_eq!(t1.c, fresh.c);
    assert_eq!(t1.s, fresh.s);
    assert_eq!(t2.c, t1.c);
    // A changed key must not serve a stale transform.
    let k2 = key(10, 10, 40, 40, 180);
    let t3 = cache.get(&k2);
    let fresh2 = RectTransform::from_key(&k2);
    assert_eq!(t3.c, fresh2.c);
    assert_eq!(t3.s, fresh2.s);
    assert_ne!(t3.c, t1.c);
}

#[test]
fn placement_mutators() {
    let mut r = RotateRect::new(Point::new(50, 50), Point::new(100, 50), 0);
    r.drag(&Point::new(10, -5));
    assert_eq!(r.offset, Point::new(60, 45));
    r.set_center(&Point::new(200, 200));
    assert_eq!(r.offset, Point::new(150, 175));
    r.set_rotation(370);
    assert_eq!(r.rot, 10);
    r.set_rotation(-90);
    assert_eq!(r.rot, 270);
    let v = RotateRect::new(Point::new(0, 0), Point::new(10, 10), 0).verts();
    assert_eq!(v.len(), 4);
    assert_eq!(v[0], Point::new(0, 0));
    assert_eq!(v[2], Point::new(10, 10));
}

#[test]
fn rotation_by_half_turn_flips_the_corners() {
    let r = RotateRect::new(Point::new(0, 0), Point::new(100, 50), 180);
    let v = r.verts();
    // The model origin now lands at the opposite pixel corner.
    assert_eq!(v[0], Point::new(100, 50));
    assert_eq!(v[2], Point::new(0, 0));
    assert!(r.in_bounds(&Point::new(50, 25)));
    assert!(!r.in_bounds(&Point::new(150, 25)));
}

#[test]
fn resize_scales_by_the_model_extent() {
    let mut r = RotateRect::new(Point::new(50, 50), Point::new(100, 50), 0);
    // The model box grew to 1.3 of the unit width.
    let grown = Rect::new(Point::new(0, 0), Point::new(85196, MODEL_ONE));
    r.resize(&grown);
    assert_eq!(r.size, Point::new(130, 50));
    assert_eq!(r.offset, Point::new(50, 50));
}
