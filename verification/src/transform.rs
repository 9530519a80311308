//! The placement of a shape (`RotateRect`) and the bidirectional
//! mapping between pixel coordinates and the shape's local unit
//! square, with a memoized transform keyed on the placement triple.
//!
//! Model space is the unit square scaled by `MODEL_ONE`.  The forward
//! map scales a model point by the size, rotates it about the
//! half-size pivot and translates by the offset; the inverse map
//! undoes the three steps.  Every division rounds toward negative
//! infinity, so both maps are total, exact integer functions.  The
//! inverse map inverts the forward map up to rounding: exactly to
//! within a pixel at the axis-aligned rotations
//! (`lemma_axis_aligned_roundtrip`), and to within the fixed-point
//! trigonometry's defect everywhere else
//! (`lemma_rotated_roundtrip_bound`).

use vstd::prelude::*;
use vstd::arithmetic::div_mod::*;
use crate::geom::{clip, fdiv, lemma_div_bound_by, lemma_div_mag, lemma_mul_bound, max_i, min_i,
    pt_ok, sat64, Point, Rect};
use crate::angle::{canon_deg, cos_deg, cos_lookup, deg_ok, sin_deg, sin_lookup, TRIG_ONE};

verus! {

/// One side of the local unit square, in model units.
pub const MODEL_ONE: i64 = 65536;

/// The placement triple that determines a transform.
#[derive(Clone, Copy, Debug, PartialEq, Eq, Structural)]
pub struct RectKey {
    pub offset: Point,
    pub size: Point,
    pub rot: i64,
}

/// The data of a placement's transform: offset, half-size pivot, size,
/// and the fixed-point cosine and sine of the rotation.
#[derive(Clone, Copy, Debug)]
pub struct RectTransform {
    pub off: Point,
    pub half: Point,
    pub size: Point,
    pub c: i64,
    pub s: i64,
}

/// The transform a placement triple determines.
pub open spec fn transform_of(k: RectKey) -> RectTransform {
    RectTransform {
        off: k.offset,
        half: Point { x: (k.size.x as int / 2) as i64, y: (k.size.y as int / 2) as i64 },
        size: k.size,
        c: cos_deg(k.rot as int) as i64,
        s: sin_deg(k.rot as int) as i64,
    }
}

/// A valid placement: positive size on both axes, canonical rotation.
pub open spec fn key_ok(k: RectKey) -> bool {
    1 <= k.size.x && 1 <= k.size.y && deg_ok(k.rot as int)
}

/// What a transform of a valid placement looks like.
pub open spec fn transform_ok(t: RectTransform) -> bool {
    &&& 1 <= t.size.x
    &&& 1 <= t.size.y
    &&& t.half.x == t.size.x as int / 2
    &&& t.half.y == t.size.y as int / 2
    &&& -(TRIG_ONE as int) <= t.c <= TRIG_ONE as int
    &&& -(TRIG_ONE as int) <= t.s <= TRIG_ONE as int
}

/// Forward map: model point to pixel point.
pub open spec fn m2p_spec(t: RectTransform, m: Point) -> Point {
    let sx = t.size.x * m.x / (MODEL_ONE as int);
    let sy = t.size.y * m.y / (MODEL_ONE as int);
    let vx = sx - t.half.x;
    let vy = sy - t.half.y;
    let rx = (t.c * vx - t.s * vy) / (TRIG_ONE as int);
    let ry = (t.s * vx + t.c * vy) / (TRIG_ONE as int);
    Point {
        x: clip(t.off.x + t.half.x + rx) as i64,
        y: clip(t.off.y + t.half.y + ry) as i64,
    }
}

/// Division by a positive even divisor, rounded to the nearest
/// integer (halves toward positive infinity).
pub open spec fn div_round(a: int, b: int) -> int {
    (a + b / 2) / b
}

/// Forward map rounded to the nearest pixel at every scaling step.
/// Committing a resize uses this map for the fixed corner, so the
/// committed edge lands on the dragged-to pixel instead of one short
/// of it.
pub open spec fn m2p_round_spec(t: RectTransform, m: Point) -> Point {
    let sx = div_round(t.size.x * m.x, MODEL_ONE as int);
    let sy = div_round(t.size.y * m.y, MODEL_ONE as int);
    let vx = sx - t.half.x;
    let vy = sy - t.half.y;
    let rx = div_round(t.c * vx - t.s * vy, TRIG_ONE as int);
    let ry = div_round(t.s * vx + t.c * vy, TRIG_ONE as int);
    Point {
        x: clip(t.off.x + t.half.x + rx) as i64,
        y: clip(t.off.y + t.half.y + ry) as i64,
    }
}

/// Inverse map: pixel point to model point.
pub open spec fn p2m_spec(t: RectTransform, p: Point) -> Point {
    let ux = p.x - t.off.x - t.half.x;
    let uy = p.y - t.off.y - t.half.y;
    let wx = (t.c * ux + t.s * uy) / (TRIG_ONE as int);
    let wy = (t.c * uy - t.s * ux) / (TRIG_ONE as int);
    Point {
        x: clip((wx + t.half.x) * (MODEL_ONE as int) / (t.size.x as int)) as i64,
        y: clip((wy + t.half.y) * (MODEL_ONE as int) / (t.size.y as int)) as i64,
    }
}

impl RectTransform {
    /// Build the transform of a placement.
    pub fn from_key(k: &RectKey) -> (t: RectTransform)
        requires
            key_ok(*k),
        ensures
            t == transform_of(*k),
            transform_ok(t),
    {
        let hx = k.size.x / 2;
        let hy = k.size.y / 2;
        RectTransform {
            off: k.offset,
            half: Point { x: hx, y: hy },
            size: k.size,
            c: cos_lookup(k.rot),
            s: sin_lookup(k.rot),
        }
    }

    /// Map a model-space point to pixel space.
    pub fn model_to_pixel(&self, m: &Point) -> (r: Point)
        requires
            transform_ok(*self),
        ensures
            r == m2p_spec(*self, *m),
            pt_ok(r),
    {
        proof {
            lemma_mul_bound(
                self.size.x as int,
                m.x as int,
                0x8000_0000_0000_0000,
                0x8000_0000_0000_0000,
            );
            lemma_mul_bound(
                self.size.y as int,
                m.y as int,
                0x8000_0000_0000_0000,
                0x8000_0000_0000_0000,
            );
        }
        let sx = fdiv(self.size.x as i128 * m.x as i128, MODEL_ONE as i128);
        let sy = fdiv(self.size.y as i128 * m.y as i128, MODEL_ONE as i128);
        proof {
            let n = 0x4000000000000000000000000000int;
            lemma_div_bound_by(self.size.x as int * m.x as int, MODEL_ONE as int, n);
            lemma_div_bound_by(self.size.y as int * m.y as int, MODEL_ONE as int, n);
        }
        let vx = sx - self.half.x as i128;
        let vy = sy - self.half.y as i128;
        proof {
            let vb = 0x8000000000000000000000000000int;
            lemma_mul_bound(self.c as int, vx as int, TRIG_ONE as int, vb);
            lemma_mul_bound(self.s as int, vy as int, TRIG_ONE as int, vb);
            lemma_mul_bound(self.s as int, vx as int, TRIG_ONE as int, vb);
            lemma_mul_bound(self.c as int, vy as int, TRIG_ONE as int, vb);
        }
        let rx = fdiv(self.c as i128 * vx - self.s as i128 * vy, TRIG_ONE as i128);
        let ry = fdiv(self.s as i128 * vx + self.c as i128 * vy, TRIG_ONE as i128);
        proof {
            lemma_div_mag(self.c as int * vx - self.s as int * vy, TRIG_ONE as int);
            lemma_div_mag(self.s as int * vx + self.c as int * vy, TRIG_ONE as int);
        }
        Point {
            x: sat64(self.off.x as i128 + self.half.x as i128 + rx),
            y: sat64(self.off.y as i128 + self.half.y as i128 + ry),
        }
    }

    /// Map a model-space point to pixel space, rounding every scaling
    /// step to the nearest pixel.
    pub fn model_to_pixel_round(&self, m: &Point) -> (r: Point)
        requires
            transform_ok(*self),
        ensures
            r == m2p_round_spec(*self, *m),
            pt_ok(r),
    {
        proof {
            lemma_mul_bound(
                self.size.x as int,
                m.x as int,
                0x8000_0000_0000_0000,
                0x8000_0000_0000_0000,
            );
            lemma_mul_bound(
                self.size.y as int,
                m.y as int,
                0x8000_0000_0000_0000,
                0x8000_0000_0000_0000,
            );
        }
        let sx = fdiv(
            self.size.x as i128 * m.x as i128 + (MODEL_ONE / 2) as i128,
            MODEL_ONE as i128,
        );
        let sy = fdiv(
            self.size.y as i128 * m.y as i128 + (MODEL_ONE / 2) as i128,
            MODEL_ONE as i128,
        );
        proof {
            let n = 0x8000000000000000000000000000int;
            lemma_div_bound_by(
                self.size.x as int * m.x as int + MODEL_ONE as int / 2,
                MODEL_ONE as int,
                n,
            );
            lemma_div_bound_by(
                self.size.y as int * m.y as int + MODEL_ONE as int / 2,
                MODEL_ONE as int,
                n,
            );
        }
        let vx = sx - self.half.x as i128;
        let vy = sy - self.half.y as i128;
        proof {
            let vb = 0x10000000000000000000000000000int;
            lemma_mul_bound(self.c as int, vx as int, TRIG_ONE as int, vb);
            lemma_mul_bound(self.s as int, vy as int, TRIG_ONE as int, vb);
            lemma_mul_bound(self.s as int, vx as int, TRIG_ONE as int, vb);
            lemma_mul_bound(self.c as int, vy as int, TRIG_ONE as int, vb);
        }
        let rx = fdiv(
            self.c as i128 * vx - self.s as i128 * vy + (TRIG_ONE / 2) as i128,
            TRIG_ONE as i128,
        );
        let ry = fdiv(
            self.s as i128 * vx + self.c as i128 * vy + (TRIG_ONE / 2) as i128,
            TRIG_ONE as i128,
        );
        proof {
            lemma_div_mag(
                self.c as int * vx - self.s as int * vy + TRIG_ONE as int / 2,
                TRIG_ONE as int,
            );
            lemma_div_mag(
                self.s as int * vx + self.c as int * vy + TRIG_ONE as int / 2,
                TRIG_ONE as int,
            );
        }
        Point {
            x: sat64(self.off.x as i128 + self.half.x as i128 + rx),
            y: sat64(self.off.y as i128 + self.half.y as i128 + ry),
        }
    }

    /// Map a pixel-space point to model space.
    pub fn pixel_to_model(&self, p: &Point) -> (r: Point)
        requires
            transform_ok(*self),
        ensures
            r == p2m_spec(*self, *p),
            pt_ok(r),
    {
        let ux = p.x as i128 - self.off.x as i128 - self.half.x as i128;
        let uy = p.y as i128 - self.off.y as i128 - self.half.y as i128;
        proof {
            let ub = 0x2_0000_0000_0000_0000_0000int;
            lemma_mul_bound(self.c as int, ux as int, TRIG_ONE as int, ub);
            lemma_mul_bound(self.s as int, uy as int, TRIG_ONE as int, ub);
            lemma_mul_bound(self.c as int, uy as int, TRIG_ONE as int, ub);
            lemma_mul_bound(self.s as int, ux as int, TRIG_ONE as int, ub);
        }
        let wx = fdiv(self.c as i128 * ux + self.s as i128 * uy, TRIG_ONE as i128);
        let wy = fdiv(self.c as i128 * uy - self.s as i128 * ux, TRIG_ONE as i128);
        proof {
            lemma_div_mag(self.c as int * ux + self.s as int * uy, TRIG_ONE as int);
            lemma_div_mag(self.c as int * uy - self.s as int * ux, TRIG_ONE as int);
            let wb = 0x8_0000_0000_0000_0000_0000_0000int;
            lemma_mul_bound((wx + self.half.x as i128) as int, MODEL_ONE as int, wb, MODEL_ONE as int);
            lemma_mul_bound((wy + self.half.y as i128) as int, MODEL_ONE as int, wb, MODEL_ONE as int);
            lemma_div_mag((wx + self.half.x as i128) * MODEL_ONE as int, self.size.x as int);
            lemma_div_mag((wy + self.half.y as i128) * MODEL_ONE as int, self.size.y as int);
        }
        Point {
            x: sat64(
                fdiv((wx + self.half.x as i128) * MODEL_ONE as i128, self.size.x as i128),
            ),
            y: sat64(
                fdiv((wy + self.half.y as i128) * MODEL_ONE as i128, self.size.y as i128),
            ),
        }
    }
}

/// Memoized transform: holds the last placement asked for and its
/// transform, and rebuilds only when the placement differs.
#[derive(Clone, Copy, Debug)]
pub struct TransformCache {
    pub entry: Option<(RectKey, RectTransform)>,
}

/// A cache never holds anything but the transform of its stored key.
pub open spec fn cache_ok(c: TransformCache) -> bool {
    match c.entry {
        Some(e) => key_ok(e.0) && e.1 == transform_of(e.0),
        None => true,
    }
}

impl TransformCache {
    pub fn new() -> (r: TransformCache)
        ensures
            r.entry is None,
            cache_ok(r),
    {
        TransformCache { entry: None }
    }

    /// The transform of `k`, rebuilt only when `k` differs from the
    /// key of the previous call.
    pub fn get(&mut self, k: &RectKey) -> (t: RectTransform)
        requires
            cache_ok(*old(self)),
            key_ok(*k),
        ensures
            t == transform_of(*k),
            transform_ok(t),
            final(self).entry == Some((*k, t)),
            cache_ok(*final(self)),
    {
        match &self.entry {
            Some(e) => {
                if e.0.offset.x == k.offset.x && e.0.offset.y == k.offset.y && e.0.size.x
                    == k.size.x && e.0.size.y == k.size.y && e.0.rot == k.rot {
                    let t = e.1;
                    proof {
                        assert(e.0 == *k);
                        crate::angle::lemma_trig_bounds(k.rot as int);
                    }
                    return t;
                }
            },
            None => {},
        }
        let t = RectTransform::from_key(k);
        self.entry = Some((*k, t));
        t
    }
}

/// The center of a placement: the average of its four transformed
/// corners.
pub open spec fn rr_center(k: RectKey) -> Point {
    let t = transform_of(k);
    let v0 = m2p_spec(t, unit_corner(0));
    let v1 = m2p_spec(t, unit_corner(1));
    let v2 = m2p_spec(t, unit_corner(2));
    let v3 = m2p_spec(t, unit_corner(3));
    Point {
        x: clip((v0.x + v1.x + v2.x + v3.x) / 4) as i64,
        y: clip((v0.y + v1.y + v2.y + v3.y) / 4) as i64,
    }
}

/// Model-space corners of the unit square, clockwise from the origin.
pub open spec fn unit_corner(i: int) -> Point {
    if i == 0 {
        Point { x: 0, y: 0 }
    } else if i == 1 {
        Point { x: MODEL_ONE, y: 0 }
    } else if i == 2 {
        Point { x: MODEL_ONE, y: MODEL_ONE }
    } else {
        Point { x: 0, y: MODEL_ONE }
    }
}

/// Whether a model-space point lies in the unit square.
pub open spec fn in_unit_square(m: Point) -> bool {
    0 <= m.x <= MODEL_ONE && 0 <= m.y <= MODEL_ONE
}

/// The authoritative placement of a shape: offset of its top-left
/// corner in unrotated space, size in pixels (at least 1 on each
/// axis), rotation in canonical degrees, and the memoized transform.
#[derive(Clone, Copy, Debug)]
pub struct RotateRect {
    pub offset: Point,
    pub size: Point,
    pub rot: i64,
    pub trans: TransformCache,
}

/// The placement triple of a `RotateRect`.
pub open spec fn key_of(r: RotateRect) -> RectKey {
    RectKey { offset: r.offset, size: r.size, rot: r.rot }
}

/// Well-formed placement: valid triple, coherent cache.
pub open spec fn rr_ok(r: RotateRect) -> bool {
    key_ok(key_of(r)) && cache_ok(r.trans)
}

/// Whether pixel point `p` lies inside the rotated rectangle: its
/// model image lies in the unit square.
pub open spec fn rr_contains(k: RectKey, p: Point) -> bool {
    in_unit_square(p2m_spec(transform_of(k), p))
}

/// Where `set_corner` puts the offset so that the transformed origin
/// lands on `c`.
pub open spec fn set_corner_spec(k: RectKey, c: Point) -> Point {
    let zeroed = RectKey { offset: Point { x: 0, y: 0 }, ..k };
    let c0 = m2p_spec(transform_of(zeroed), Point { x: 0, y: 0 });
    Point { x: clip(c.x - c0.x) as i64, y: clip(c.y - c0.y) as i64 }
}

/// The placement after resizing by a model-space rectangle: the new
/// size is the model extent scaled by the old size, rounded to the
/// nearest pixel (at least 1), and the offset moves so the transformed
/// image of the model corner `c1` stays fixed.  The corner uses the
/// rounded forward map, so the committed edge lands on the nearest
/// pixel of the dragged-to position.
pub open spec fn resize_spec(k: RectKey, mr: Rect) -> RectKey {
    let corner = m2p_round_spec(transform_of(k), mr.c1);
    let w = clip(
        (clip(max_i(mr.c1.x as int, mr.c2.x as int) - min_i(mr.c1.x as int, mr.c2.x as int))
            * k.size.x + MODEL_ONE as int / 2) / (MODEL_ONE as int),
    );
    let h = clip(
        (clip(max_i(mr.c1.y as int, mr.c2.y as int) - min_i(mr.c1.y as int, mr.c2.y as int))
            * k.size.y + MODEL_ONE as int / 2) / (MODEL_ONE as int),
    );
    let size = Point { x: max_i(w, 1) as i64, y: max_i(h, 1) as i64 };
    let resized = RectKey { size, ..k };
    RectKey { offset: set_corner_spec(resized, corner), ..resized }
}

impl RotateRect {
    pub fn new(offset: Point, size: Point, rot: i64) -> (r: RotateRect)
        requires
            1 <= size.x,
            1 <= size.y,
            -(i64::MAX as int) <= rot as int,
        ensures
            r.offset == offset,
            r.size == size,
            r.rot as int == rot as int % 360,
            r.trans.entry is None,
            rr_ok(r),
    {
        RotateRect { offset, size, rot: canon_deg(rot), trans: TransformCache::new() }
    }

    /// Placement of an unrotated pixel rectangle: offset at the
    /// normalized minimum corner, size clamped to at least 1.
    pub fn from_rect(rect: &Rect, rot: i64) -> (r: RotateRect)
        requires
            -(i64::MAX as int) <= rot as int,
        ensures
            r.offset.x as int == min_i(rect.c1.x as int, rect.c2.x as int),
            r.offset.y as int == min_i(rect.c1.y as int, rect.c2.y as int),
            r.size.x as int == max_i(
                1,
                clip(
                    max_i(rect.c1.x as int, rect.c2.x as int) - min_i(
                        rect.c1.x as int,
                        rect.c2.x as int,
                    ),
                ),
            ),
            r.size.y as int == max_i(
                1,
                clip(
                    max_i(rect.c1.y as int, rect.c2.y as int) - min_i(
                        rect.c1.y as int,
                        rect.c2.y as int,
                    ),
                ),
            ),
            r.rot as int == rot as int % 360,
            r.trans.entry is None,
            rr_ok(r),
    {
        let min_x = if rect.c1.x < rect.c2.x {
            rect.c1.x
        } else {
            rect.c2.x
        };
        let min_y = if rect.c1.y < rect.c2.y {
            rect.c1.y
        } else {
            rect.c2.y
        };
        let w = rect.width();
        let h = rect.height();
        let size = Point { x: if w < 1 { 1 } else { w }, y: if h < 1 { 1 } else { h } };
        RotateRect::new(Point { x: min_x, y: min_y }, size, rot)
    }

    /// Translate the placement by `off`.
    pub fn drag(&mut self, off: &Point)
        requires
            rr_ok(*old(self)),
        ensures
            final(self).offset.x as int == clip(old(self).offset.x + off.x),
            final(self).offset.y as int == clip(old(self).offset.y + off.y),
            final(self).size == old(self).size,
            final(self).rot == old(self).rot,
            final(self).trans == old(self).trans,
            rr_ok(*final(self)),
    {
        self.offset = self.offset.plus(off);
    }

    /// Set the rotation, canonicalizing into `[0, 360)`.
    pub fn set_rotation(&mut self, deg: i64)
        requires
            rr_ok(*old(self)),
            -(i64::MAX as int) <= deg as int,
        ensures
            final(self).rot as int == deg as int % 360,
            final(self).offset == old(self).offset,
            final(self).size == old(self).size,
            final(self).trans == old(self).trans,
            rr_ok(*final(self)),
    {
        self.rot = canon_deg(deg);
    }

    /// Move the placement so its unrotated center is `pt`.
    pub fn set_center(&mut self, pt: &Point)
        requires
            rr_ok(*old(self)),
        ensures
            final(self).offset.x as int == clip(pt.x - old(self).size.x as int / 2),
            final(self).offset.y as int == clip(pt.y - old(self).size.y as int / 2),
            final(self).size == old(self).size,
            final(self).rot == old(self).rot,
            final(self).trans == old(self).trans,
            rr_ok(*final(self)),
    {
        let half = Point { x: self.size.x / 2, y: self.size.y / 2 };
        self.offset = pt.minus(&half);
    }

    pub fn set_size(&mut self, size: &Point)
        requires
            rr_ok(*old(self)),
            1 <= size.x,
            1 <= size.y,
        ensures
            final(self).size == *size,
            final(self).offset == old(self).offset,
            final(self).rot == old(self).rot,
            final(self).trans == old(self).trans,
            rr_ok(*final(self)),
    {
        self.size = *size;
    }

    /// The memoized transform of the current placement.
    pub fn transform(&mut self) -> (t: RectTransform)
        requires
            rr_ok(*old(self)),
        ensures
            t == transform_of(key_of(*old(self))),
            transform_ok(t),
            final(self).offset == old(self).offset,
            final(self).size == old(self).size,
            final(self).rot == old(self).rot,
            rr_ok(*final(self)),
    {
        let k = RectKey { offset: self.offset, size: self.size, rot: self.rot };
        self.trans.get(&k)
    }

    /// A transform built afresh, for read-only callers.
    pub fn transform_fresh(&self) -> (t: RectTransform)
        requires
            rr_ok(*self),
        ensures
            t == transform_of(key_of(*self)),
            transform_ok(t),
    {
        let k = RectKey { offset: self.offset, size: self.size, rot: self.rot };
        RectTransform::from_key(&k)
    }

    /// The four transformed corners of the placement, clockwise from
    /// the model origin.
    pub fn verts(&self) -> (r: Vec<Point>)
        requires
            rr_ok(*self),
        ensures
            r@.len() == 4,
            forall|i: int|
                0 <= i < 4 ==> r@[i] == m2p_spec(transform_of(key_of(*self)), unit_corner(i))
                    && pt_ok(r@[i]),
    {
        let t = self.transform_fresh();
        let mut v: Vec<Point> = Vec::new();
        v.push(t.model_to_pixel(&Point { x: 0, y: 0 }));
        v.push(t.model_to_pixel(&Point { x: MODEL_ONE, y: 0 }));
        v.push(t.model_to_pixel(&Point { x: MODEL_ONE, y: MODEL_ONE }));
        v.push(t.model_to_pixel(&Point { x: 0, y: MODEL_ONE }));
        v
    }

    /// Center of the placement: the average of the four transformed
    /// corners.
    pub fn center(&self) -> (r: Point)
        requires
            rr_ok(*self),
        ensures
            r == rr_center(key_of(*self)),
            pt_ok(r),
    {
        let v = self.verts();
        let sx = v[0].x as i128 + v[1].x as i128 + v[2].x as i128 + v[3].x as i128;
        let sy = v[0].y as i128 + v[1].y as i128 + v[2].y as i128 + v[3].y as i128;
        Point { x: sat64(fdiv(sx, 4)), y: sat64(fdiv(sy, 4)) }
    }

    /// Whether pixel point `p` lies inside the placement.
    pub fn in_bounds(&self, p: &Point) -> (r: bool)
        requires
            rr_ok(*self),
        ensures
            r == rr_contains(key_of(*self), *p),
    {
        let t = self.transform_fresh();
        let m = t.pixel_to_model(p);
        0 <= m.x && m.x <= MODEL_ONE && 0 <= m.y && m.y <= MODEL_ONE
    }

    /// Move the placement so the image of the model origin is `c`.
    pub fn set_corner(&mut self, c: &Point)
        requires
            rr_ok(*old(self)),
        ensures
            final(self).offset == set_corner_spec(key_of(*old(self)), *c),
            final(self).size == old(self).size,
            final(self).rot == old(self).rot,
            final(self).trans == old(self).trans,
            rr_ok(*final(self)),
    {
        let zeroed = RectKey {
            offset: Point { x: 0, y: 0 },
            size: self.size,
            rot: self.rot,
        };
        let t0 = RectTransform::from_key(&zeroed);
        let c0 = t0.model_to_pixel(&Point { x: 0, y: 0 });
        self.offset = c.minus(&c0);
    }

    /// Apply a resize expressed as a model-space rectangle: scale the
    /// size by the model extent and keep the image of the model corner
    /// `c1` fixed.  The size never drops below 1.
    pub fn resize(&mut self, mr: &Rect)
        requires
            rr_ok(*old(self)),
        ensures
            key_of(*final(self)) == resize_spec(key_of(*old(self)), *mr),
            rr_ok(*final(self)),
    {
        let t = self.transform();
        let corner = t.model_to_pixel_round(&mr.c1);
        let w = mr.width();
        let h = mr.height();
        proof {
            lemma_mul_bound(w as int, self.size.x as int, 0x8000_0000_0000_0000, 0x8000_0000_0000_0000);
            lemma_mul_bound(h as int, self.size.y as int, 0x8000_0000_0000_0000, 0x8000_0000_0000_0000);
        }
        let nw = sat64(
            fdiv(w as i128 * self.size.x as i128 + (MODEL_ONE / 2) as i128, MODEL_ONE as i128),
        );
        let nh = sat64(
            fdiv(h as i128 * self.size.y as i128 + (MODEL_ONE / 2) as i128, MODEL_ONE as i128),
        );
        let size = Point { x: if nw < 1 { 1 } else { nw }, y: if nh < 1 { 1 } else { nh } };
        self.set_size(&size);
        self.set_corner(&corner);
    }
}

/// Round-trip accuracy of the two maps for every axis-aligned
/// placement (rotation 0, 90, 180 or 270 degrees, where the
/// fixed-point trigonometry is exact): mapping a model point of the
/// local unit square to pixels and back never overshoots, and
/// undershoots by less than one pixel's worth of model units on each
/// axis.  The placement must sit well inside the coordinate range so
/// no saturation engages.
pub proof fn lemma_axis_aligned_roundtrip(k: RectKey, m: Point)
    requires
        key_ok(k),
        k.rot == 0 || k.rot == 90 || k.rot == 180 || k.rot == 270,
        0 <= m.x <= MODEL_ONE,
        0 <= m.y <= MODEL_ONE,
        -0x800_0000 <= k.offset.x <= 0x800_0000,
        -0x800_0000 <= k.offset.y <= 0x800_0000,
        1 <= k.size.x <= 0x800_0000,
        1 <= k.size.y <= 0x800_0000,
    ensures
        ({
            let t = transform_of(k);
            let p = m2p_spec(t, m);
            let m2 = p2m_spec(t, p);
            &&& 0 <= m.x - m2.x
            &&& 0 <= m.y - m2.y
            &&& (m.x - m2.x) * k.size.x < MODEL_ONE + k.size.x
            &&& (m.y - m2.y) * k.size.y < MODEL_ONE + k.size.y
        }),
{
    crate::angle::lemma_bhaskara_bounds(90);
    crate::angle::lemma_bhaskara_bounds(0);
    crate::angle::lemma_bhaskara_bounds(180);
    let t = transform_of(k);
    let c = t.c as int;
    let sn = t.s as int;
    let mo = MODEL_ONE as int;
    let t1 = TRIG_ONE as int;
    assert(sin_deg(90) == t1 && sin_deg(0) == 0 && sin_deg(180) == 0);
    assert(cos_deg(0) == t1 && cos_deg(90) == 0 && cos_deg(180) == -t1 && cos_deg(270) == 0);
    assert(sin_deg(270) == -t1);
    let w = k.size.x as int;
    let g = k.size.y as int;
    let hx = w / 2;
    let hy = g / 2;
    assert(t.half.x as int == hx && t.half.y as int == hy);
    let sx = w * m.x / mo;
    let sy = g * m.y / mo;
    lemma_scaled_range(w, m.x as int);
    lemma_scaled_range(g, m.y as int);
    let vx = sx - hx;
    let vy = sy - hy;
    let rx = (c * vx - sn * vy) / t1;
    let ry = (sn * vx + c * vy) / t1;
    lemma_rot_exact(c, sn, t1, vx, vy, rx, ry);
    let p = m2p_spec(t, m);
    assert(p.x as int == clip(k.offset.x + hx + rx));
    assert(p.x as int == k.offset.x + hx + rx);
    assert(p.y as int == k.offset.y + hy + ry);
    let ux = p.x - t.off.x - t.half.x;
    let uy = p.y - t.off.y - t.half.y;
    assert(ux == rx && uy == ry);
    let wx = (c * ux + sn * uy) / t1;
    let wy = (c * uy - sn * ux) / t1;
    lemma_unrot_exact(c, sn, t1, vx, vy, ux, uy, wx, wy);
    assert(wx == vx && wy == vy);
    let m2 = p2m_spec(t, p);
    lemma_back_range(w, sx);
    lemma_back_range(g, sy);
    assert(m2.x as int == sx * mo / w);
    assert(m2.y as int == sy * mo / g);
    lemma_floor_pair(w, m.x as int, sx, sx * mo / w);
    lemma_floor_pair(g, m.y as int, sy, sy * mo / g);
}

/// For the four exact axis rotations, applying the fixed-point
/// rotation divides out exactly: the rotated vector is a signed
/// permutation of the input.
proof fn lemma_rot_exact(c: int, sn: int, t1: int, vx: int, vy: int, rx: int, ry: int)
    requires
        t1 >= 1,
        (c == t1 && sn == 0) || (c == 0 && sn == t1) || (c == -t1 && sn == 0) || (c == 0 && sn
            == -t1),
        rx == (c * vx - sn * vy) / t1,
        ry == (sn * vx + c * vy) / t1,
    ensures
        c == t1 && sn == 0 ==> rx == vx && ry == vy,
        c == 0 && sn == t1 ==> rx == -vy && ry == vx,
        c == -t1 && sn == 0 ==> rx == -vx && ry == -vy,
        c == 0 && sn == -t1 ==> rx == vy && ry == -vx,
{
    if c == t1 && sn == 0 {
        assert(c * vx - sn * vy == t1 * vx && sn * vx + c * vy == t1 * vy) by (nonlinear_arith)
            requires
                c == t1,
                sn == 0,
        ;
        lemma_div_multiples_vanish(vx, t1);
        lemma_div_multiples_vanish(vy, t1);
    } else if c == 0 && sn == t1 {
        assert(c * vx - sn * vy == t1 * (-vy) && sn * vx + c * vy == t1 * vx) by (nonlinear_arith)
            requires
                c == 0,
                sn == t1,
        ;
        lemma_div_multiples_vanish(-vy, t1);
        lemma_div_multiples_vanish(vx, t1);
    } else if c == -t1 && sn == 0 {
        assert(c * vx - sn * vy == t1 * (-vx) && sn * vx + c * vy == t1 * (-vy))
            by (nonlinear_arith)
            requires
                c == -t1,
                sn == 0,
        ;
        lemma_div_multiples_vanish(-vx, t1);
        lemma_div_multiples_vanish(-vy, t1);
    } else {
        assert(c * vx - sn * vy == t1 * vy && sn * vx + c * vy == t1 * (-vx)) by (nonlinear_arith)
            requires
                c == 0,
                sn == -t1,
        ;
        lemma_div_multiples_vanish(vy, t1);
        lemma_div_multiples_vanish(-vx, t1);
    }
}

/// Undoing one of the four exact axis rotations recovers the vector
/// exactly.
proof fn lemma_unrot_exact(
    c: int,
    sn: int,
    t1: int,
    vx: int,
    vy: int,
    ux: int,
    uy: int,
    wx: int,
    wy: int,
)
    requires
        t1 >= 1,
        (c == t1 && sn == 0) || (c == 0 && sn == t1) || (c == -t1 && sn == 0) || (c == 0 && sn
            == -t1),
        c == t1 && sn == 0 ==> ux == vx && uy == vy,
        c == 0 && sn == t1 ==> ux == -vy && uy == vx,
        c == -t1 && sn == 0 ==> ux == -vx && uy == -vy,
        c == 0 && sn == -t1 ==> ux == vy && uy == -vx,
        wx == (c * ux + sn * uy) / t1,
        wy == (c * uy - sn * ux) / t1,
    ensures
        wx == vx,
        wy == vy,
{
    if c == t1 && sn == 0 {
        assert(c * ux + sn * uy == t1 * vx && c * uy - sn * ux == t1 * vy) by (nonlinear_arith)
            requires
                c == t1,
                sn == 0,
                ux == vx,
                uy == vy,
        ;
    } else if c == 0 && sn == t1 {
        assert(c * ux + sn * uy == t1 * vx && c * uy - sn * ux == t1 * vy) by (nonlinear_arith)
            requires
                c == 0,
                sn == t1,
                ux == -vy,
                uy == vx,
        ;
    } else if c == -t1 && sn == 0 {
        assert(c * ux + sn * uy == t1 * vx && c * uy - sn * ux == t1 * vy) by (nonlinear_arith)
            requires
                c == -t1,
                sn == 0,
                ux == -vx,
                uy == -vy,
        ;
    } else {
        assert(c * ux + sn * uy == t1 * vx && c * uy - sn * ux == t1 * vy) by (nonlinear_arith)
            requires
                c == 0,
                sn == -t1,
                ux == vy,
                uy == -vx,
        ;
    }
    lemma_div_multiples_vanish(vx, t1);
    lemma_div_multiples_vanish(vy, t1);
}


/// Round-trip accuracy of the two maps at every rotation: mapping a
/// model point of the local unit square to pixels and back moves it,
/// per axis, by at most the trigonometric defect (0.45 percent of the
/// unit square) plus four pixels' worth of model units.  The exact
/// axis-aligned bound is `lemma_axis_aligned_roundtrip`; this one
/// covers the angles where the fixed-point trigonometry is inexact.
#[verifier::spinoff_prover]
pub proof fn lemma_rotated_roundtrip_bound(k: RectKey, m: Point)
    requires
        key_ok(k),
        0 <= m.x <= MODEL_ONE,
        0 <= m.y <= MODEL_ONE,
        -0x800_0000 <= k.offset.x <= 0x800_0000,
        -0x800_0000 <= k.offset.y <= 0x800_0000,
        1 <= k.size.x <= 0x800_0000,
        1 <= k.size.y <= 0x800_0000,
    ensures
        ({
            let t = transform_of(k);
            let p = m2p_spec(t, m);
            let m2 = p2m_spec(t, p);
            let t2 = 100000000int;
            let bx = MODEL_ONE * (450000 * k.size.x + 3 * t2) + (MODEL_ONE + k.size.x) * t2;
            let by = MODEL_ONE * (450000 * k.size.y + 3 * t2) + (MODEL_ONE + k.size.y) * t2;
            &&& -bx <= k.size.x * (m.x - m2.x) * t2 <= bx
            &&& -by <= k.size.y * (m.y - m2.y) * t2 <= by
        }),
{
    let t = transform_of(k);
    let mo = MODEL_ONE as int;
    let t1 = TRIG_ONE as int;
    let t2 = 100000000int;
    let w = k.size.x as int;
    let g = k.size.y as int;
    let hx = w / 2;
    let hy = g / 2;
    crate::angle::lemma_trig_bounds(k.rot as int);
    crate::angle::lemma_trig_defect(k.rot as int);
    let c = t.c as int;
    let sn = t.s as int;
    let nn = c * c + sn * sn;
    assert(t2 - 450000 <= nn <= t2 + 450000);
    // Forward map: the scaling divisions with their remainders.
    lemma_fundamental_div_mod(w * m.x, mo);
    lemma_mod_bound(w * m.x, mo);
    let sx = w * m.x / mo;
    let sig1 = (w * m.x) % mo;
    lemma_scaled_range(w, m.x as int);
    lemma_fundamental_div_mod(g * m.y, mo);
    lemma_mod_bound(g * m.y, mo);
    let sy = g * m.y / mo;
    let sig1y = (g * m.y) % mo;
    lemma_scaled_range(g, m.y as int);
    let vx = sx - hx;
    let vy = sy - hy;
    assert(-w <= vx <= w && -g <= vy <= g);
    // Forward map: the rotation divisions with their remainders.
    lemma_fundamental_div_mod(c * vx - sn * vy, t1);
    lemma_mod_bound(c * vx - sn * vy, t1);
    let rx = (c * vx - sn * vy) / t1;
    let rho1 = (c * vx - sn * vy) % t1;
    lemma_fundamental_div_mod(sn * vx + c * vy, t1);
    lemma_mod_bound(sn * vx + c * vy, t1);
    let ry = (sn * vx + c * vy) / t1;
    let rho2 = (sn * vx + c * vy) % t1;
    lemma_mul_bound(c, vx, t1, 0x800_0000);
    lemma_mul_bound(sn, vy, t1, 0x800_0000);
    lemma_mul_bound(sn, vx, t1, 0x800_0000);
    lemma_mul_bound(c, vy, t1, 0x800_0000);
    lemma_div_bound_by(c * vx - sn * vy, t1, 0x1000_0000);
    lemma_div_bound_by(sn * vx + c * vy, t1, 0x1000_0000);
    let p = m2p_spec(t, m);
    assert(p.x as int == k.offset.x + hx + rx);
    assert(p.y as int == k.offset.y + hy + ry);
    // Inverse map: the unrotation divisions with their remainders.
    let ux = p.x - t.off.x - t.half.x;
    let uy = p.y - t.off.y - t.half.y;
    assert(ux == rx && uy == ry);
    lemma_fundamental_div_mod(c * rx + sn * ry, t1);
    lemma_mod_bound(c * rx + sn * ry, t1);
    let wx = (c * rx + sn * ry) / t1;
    let rho3 = (c * rx + sn * ry) % t1;
    lemma_fundamental_div_mod(c * ry - sn * rx, t1);
    lemma_mod_bound(c * ry - sn * rx, t1);
    let wy = (c * ry - sn * rx) / t1;
    let rho4 = (c * ry - sn * rx) % t1;
    // Rotating and unrotating scales by the squared norm, up to the
    // four rounding remainders.
    lemma_rot_unrot_x(c, sn, t1, vx, vy, rx, ry, wx, rho1, rho2, rho3);
    lemma_rot_unrot_y(c, sn, t1, vx, vy, rx, ry, wy, rho1, rho2, rho4);
    let bdx = 450000 * w + 3 * t2;
    let bdy = 450000 * g + 3 * t2;
    lemma_defect_spread(c, sn, t1, t2, nn, vx, w, wx, rho1, rho2, rho3, bdx);
    assert((-sn) * rho1 == -(sn * rho1)) by (nonlinear_arith);
    lemma_defect_spread(c, -sn, t1, t2, nn, vy, g, wy, rho2, rho1, rho4, bdy);
    // Inverse map: the back-scaling divisions with their remainders.
    assert(-(2 * w + 3) <= wx <= 2 * w + 3) by (nonlinear_arith)
        requires
            -bdx <= t1 * t1 * (wx - vx) <= bdx,
            -w <= vx <= w,
            1 <= w,
            t1 == 10000,
            bdx == 450000 * w + 300000000,
    ;
    assert(-(2 * g + 3) <= wy <= 2 * g + 3) by (nonlinear_arith)
        requires
            -bdy <= t1 * t1 * (wy - vy) <= bdy,
            -g <= vy <= g,
            1 <= g,
            t1 == 10000,
            bdy == 450000 * g + 300000000,
    ;
    lemma_mul_bound(wx + hx, mo, 3 * w + 3, mo);
    lemma_mul_bound(wy + hy, mo, 3 * g + 3, mo);
    assert((3 * w + 3) * mo <= 6 * mo * w && (3 * g + 3) * mo <= 6 * mo * g)
        by (nonlinear_arith)
        requires
            w >= 1,
            g >= 1,
            mo >= 1,
    ;
    lemma_fundamental_div_mod((wx + hx) * mo, w);
    lemma_mod_bound((wx + hx) * mo, w);
    let mx2 = (wx + hx) * mo / w;
    let sig2 = ((wx + hx) * mo) % w;
    lemma_fundamental_div_mod((wy + hy) * mo, g);
    lemma_mod_bound((wy + hy) * mo, g);
    let my2 = (wy + hy) * mo / g;
    let sig2y = ((wy + hy) * mo) % g;
    lemma_div_bound_by((wx + hx) * mo, w, 6 * mo);
    lemma_div_bound_by((wy + hy) * mo, g, 6 * mo);
    let m2 = p2m_spec(t, p);
    assert(m2.x as int == mx2);
    assert(m2.y as int == my2);
    // Combine the scaling remainders with the rotation defect.
    lemma_combine_axis(mo, t1, t2, w, m.x as int, sx, hx, vx, wx, mx2, sig1, sig2, bdx);
    lemma_combine_axis(mo, t1, t2, g, m.y as int, sy, hy, vy, wy, my2, sig1y, sig2y, bdy);
}

/// Composing the fixed-point rotation with its inverse on the first
/// coordinate: the result is the squared norm times the input, minus
/// the three rounding remainders involved.
proof fn lemma_rot_unrot_x(
    c: int,
    sn: int,
    t1: int,
    vx: int,
    vy: int,
    rx: int,
    ry: int,
    wx: int,
    rho1: int,
    rho2: int,
    rho3: int,
)
    requires
        t1 >= 1,
        c * vx - sn * vy == t1 * rx + rho1,
        sn * vx + c * vy == t1 * ry + rho2,
        c * rx + sn * ry == t1 * wx + rho3,
    ensures
        t1 * t1 * wx == (c * c + sn * sn) * vx - c * rho1 - sn * rho2 - t1 * rho3,
{
    let a = t1 * rx;
    let b = t1 * ry;
    assert(a == c * vx - sn * vy - rho1);
    assert(b == sn * vx + c * vy - rho2);
    assert(t1 * (t1 * wx) == t1 * (c * rx) + t1 * (sn * ry) - t1 * rho3) by (nonlinear_arith)
        requires
            c * rx + sn * ry == t1 * wx + rho3,
    ;
    assert(t1 * (c * rx) == c * a && t1 * (sn * ry) == sn * b) by (nonlinear_arith)
        requires
            a == t1 * rx,
            b == t1 * ry,
    ;
    assert(c * a == c * (c * vx) - c * (sn * vy) - c * rho1) by (nonlinear_arith)
        requires
            a == c * vx - sn * vy - rho1,
    ;
    assert(sn * b == sn * (sn * vx) + sn * (c * vy) - sn * rho2) by (nonlinear_arith)
        requires
            b == sn * vx + c * vy - rho2,
    ;
    assert(c * (sn * vy) == sn * (c * vy)) by (nonlinear_arith);
    assert(c * (c * vx) == (c * c) * vx && sn * (sn * vx) == (sn * sn) * vx) by (nonlinear_arith);
    assert((c * c + sn * sn) * vx == (c * c) * vx + (sn * sn) * vx) by (nonlinear_arith);
    assert(t1 * (t1 * wx) == (t1 * t1) * wx) by (nonlinear_arith);
}

/// The same composition on the second coordinate.
proof fn lemma_rot_unrot_y(
    c: int,
    sn: int,
    t1: int,
    vx: int,
    vy: int,
    rx: int,
    ry: int,
    wy: int,
    rho1: int,
    rho2: int,
    rho4: int,
)
    requires
        t1 >= 1,
        c * vx - sn * vy == t1 * rx + rho1,
        sn * vx + c * vy == t1 * ry + rho2,
        c * ry - sn * rx == t1 * wy + rho4,
    ensures
        t1 * t1 * wy == (c * c + sn * sn) * vy - c * rho2 + sn * rho1 - t1 * rho4,
{
    let a = t1 * rx;
    let b = t1 * ry;
    assert(a == c * vx - sn * vy - rho1);
    assert(b == sn * vx + c * vy - rho2);
    assert(t1 * (t1 * wy) == t1 * (c * ry) - t1 * (sn * rx) - t1 * rho4) by (nonlinear_arith)
        requires
            c * ry - sn * rx == t1 * wy + rho4,
    ;
    assert(t1 * (c * ry) == c * b && t1 * (sn * rx) == sn * a) by (nonlinear_arith)
        requires
            a == t1 * rx,
            b == t1 * ry,
    ;
    assert(c * b == c * (sn * vx) + c * (c * vy) - c * rho2) by (nonlinear_arith)
        requires
            b == sn * vx + c * vy - rho2,
    ;
    assert(sn * a == sn * (c * vx) - sn * (sn * vy) - sn * rho1) by (nonlinear_arith)
        requires
            a == c * vx - sn * vy - rho1,
    ;
    assert(c * (sn * vx) == sn * (c * vx)) by (nonlinear_arith);
    assert(c * (c * vy) == (c * c) * vy && sn * (sn * vy) == (sn * sn) * vy) by (nonlinear_arith);
    assert((c * c + sn * sn) * vy == (c * c) * vy + (sn * sn) * vy) by (nonlinear_arith);
    assert(t1 * (t1 * wy) == (t1 * t1) * wy) by (nonlinear_arith);
}

/// Bound the defect spread over one axis: the squared-norm error
/// scales with the coordinate, the three remainders each cost at most
/// one unit.
proof fn lemma_defect_spread(
    c: int,
    sn: int,
    t1: int,
    t2: int,
    nn: int,
    v: int,
    bound: int,
    wv: int,
    rhoa: int,
    rhob: int,
    rhoc: int,
    bd: int,
)
    requires
        t1 == 10000,
        t2 == t1 * t1,
        t1 * t1 * wv == nn * v - c * rhoa - sn * rhob - t1 * rhoc,
        t2 - 450000 <= nn <= t2 + 450000,
        -bound <= v <= bound,
        1 <= bound,
        -t1 <= c <= t1,
        -t1 <= sn <= t1,
        0 <= rhoa < t1,
        0 <= rhob < t1,
        0 <= rhoc < t1,
        bd == 450000 * bound + 3 * t2,
    ensures
        -bd <= t1 * t1 * (wv - v) <= bd,
{
    let e = nn - t2;
    assert(t1 * t1 * (wv - v) == e * v - c * rhoa - sn * rhob - t1 * rhoc) by (nonlinear_arith)
        requires
            t1 * t1 * wv == nn * v - c * rhoa - sn * rhob - t1 * rhoc,
            e == nn - t2,
            t2 == t1 * t1,
    ;
    lemma_mul_bound(e, v, 450000, bound);
    lemma_mul_bound(c, rhoa, t1, t1);
    lemma_mul_bound(sn, rhob, t1, t1);
    lemma_mul_bound(t1, rhoc, t1, t1);
}

/// Combine one axis' scaling remainders with its rotation defect into
/// the final round-trip bound.
proof fn lemma_combine_axis(
    mo: int,
    t1: int,
    t2: int,
    w: int,
    mx: int,
    sx: int,
    hx: int,
    vx: int,
    wx: int,
    mx2: int,
    sig1: int,
    sig2: int,
    bd: int,
)
    requires
        mo >= 1,
        w >= 1,
        t1 == 10000,
        t2 == t1 * t1,
        w * mx == mo * sx + sig1,
        (wx + hx) * mo == w * mx2 + sig2,
        vx == sx - hx,
        0 <= sig1 < mo,
        0 <= sig2 < w,
        -bd <= t1 * t1 * (wx - vx) <= bd,
        0 <= bd,
    ensures
        -(mo * bd + (mo + w) * t2) <= w * (mx - mx2) * t2 <= mo * bd + (mo + w) * t2,
{
    let d = w * (mx - mx2);
    assert(d == mo * (vx - wx) + sig1 + sig2) by (nonlinear_arith)
        requires
            d == w * (mx - mx2),
            w * mx == mo * sx + sig1,
            (wx + hx) * mo == w * mx2 + sig2,
            vx == sx - hx,
    ;
    let y = (vx - wx) * t2;
    assert(y == -(t1 * t1 * (wx - vx))) by (nonlinear_arith)
        requires
            y == (vx - wx) * t2,
            t2 == t1 * t1,
    ;
    assert(-bd <= y <= bd);
    assert(d * t2 == mo * y + (sig1 + sig2) * t2) by (nonlinear_arith)
        requires
            d == mo * (vx - wx) + sig1 + sig2,
            y == (vx - wx) * t2,
    ;
    lemma_mul_bound(mo, y, mo, bd);
    lemma_mul_bound(sig1 + sig2, t2, mo + w, t2);
    assert(w * (mx - mx2) * t2 == d * t2) by (nonlinear_arith)
        requires
            d == w * (mx - mx2),
    ;
}

/// `w * mx / M` lies between 0 and `w` when `mx` lies in the unit
/// square.
proof fn lemma_scaled_range(w: int, mx: int)
    requires
        1 <= w,
        0 <= mx <= MODEL_ONE,
    ensures
        0 <= w * mx / (MODEL_ONE as int) <= w,
{
    let mo = MODEL_ONE as int;
    assert(0 <= w * mx <= w * mo) by (nonlinear_arith)
        requires
            1 <= w,
            0 <= mx <= mo,
    ;
    lemma_div_pos_is_pos(w * mx, mo);
    assert(w * mx <= mo * w) by (nonlinear_arith)
        requires
            w * mx <= w * mo,
    ;
    lemma_div_bound_by(w * mx, mo, w);
}

/// `sx * M / w` lies in the unit square when `0 <= sx <= w`.
proof fn lemma_back_range(w: int, sx: int)
    requires
        1 <= w,
        0 <= sx <= w,
    ensures
        0 <= sx * (MODEL_ONE as int) / w <= MODEL_ONE,
{
    let mo = MODEL_ONE as int;
    lemma_div_pos_is_pos(sx * mo, w);
    assert(sx * mo <= w * mo) by (nonlinear_arith)
        requires
            0 <= sx <= w,
            mo >= 1,
    ;
    lemma_div_bound_by(sx * mo, w, mo);
}

/// The two floors of one axis of the round trip: scaling down and back
/// up loses `r1 + r2 < M + w`, spread over the divisor `w`.
proof fn lemma_floor_pair(w: int, mx: int, sx: int, mx2: int)
    requires
        1 <= w,
        0 <= mx <= MODEL_ONE,
        sx == w * mx / (MODEL_ONE as int),
        mx2 == sx * (MODEL_ONE as int) / w,
    ensures
        0 <= mx - mx2,
        (mx - mx2) * w < MODEL_ONE + w,
{
    let mo = MODEL_ONE as int;
    lemma_fundamental_div_mod(w * mx, mo);
    lemma_mod_bound(w * mx, mo);
    let r1 = (w * mx) % mo;
    lemma_fundamental_div_mod(sx * mo, w);
    lemma_mod_bound(sx * mo, w);
    let r2 = (sx * mo) % w;
    assert(w * (mx - mx2) == r1 + r2) by (nonlinear_arith)
        requires
            w * mx == mo * sx + r1,
            sx * mo == w * mx2 + r2,
    ;
    assert(0 <= mx - mx2) by (nonlinear_arith)
        requires
            w * (mx - mx2) == r1 + r2,
            r1 >= 0,
            r2 >= 0,
            w >= 1,
    ;
    assert((mx - mx2) * w == w * (mx - mx2)) by (nonlinear_arith);
}

} // verus!
