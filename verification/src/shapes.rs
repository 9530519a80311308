//! The shapes that can be placed on the canvas: primitive kinds with
//! their hit tests in model space, lines, placed polygons, and the
//! tagged union over both.

use vstd::prelude::*;
use crate::geom::{fdiv, lemma_div_bound_by, lemma_mul_bound, max_i, min_i, pt_ok, pt_plus,
    Point};
use crate::angle::{cos_deg, cos_lookup, sin_deg, sin_lookup, TRIG_ONE};
use crate::transform::{key_of, m2p_spec, p2m_spec, rr_ok, transform_of, unit_corner,
    in_unit_square, RotateRect, MODEL_ONE};

verus! {

/// An opaque RGB color.
#[derive(Clone, Copy, Debug, PartialEq, Eq, Structural, Hash)]
pub struct Color {
    pub r: u8,
    pub g: u8,
    pub b: u8,
}

impl Color {
    pub fn new(r: u8, g: u8, b: u8) -> (c: Color)
        ensures
            c == (Color { r, g, b }),
    {
        Color { r, g, b }
    }
}

/// The primitive kinds a polygon shape can render as.
#[derive(Clone, Copy, Debug, PartialEq, Eq, Structural, Hash)]
pub enum PrimType {
    Triangle,
    Circle,
    Ring,
    Rect,
    Line,
    HexColor,
}

/// Number of outline vertices a circle is approximated by.
pub const NCIRCLE_VERTS: usize = 12;

/// Whether a model-space point is inside a primitive drawn over the
/// unit square.  The triangle is isosceles with its apex at the top
/// center; the exact inequalities follow the rendered vertex winding
/// of `prim_vert`.
pub open spec fn prim_hit(pt: PrimType, m: Point) -> bool {
    let hm = MODEL_ONE as int / 2;
    match pt {
        PrimType::Triangle => {
            0 <= m.x <= MODEL_ONE && m.y <= MODEL_ONE && m.y >= 2 * (m.x - hm) && m.y >= 2 * (hm
                - m.x)
        },
        PrimType::Circle | PrimType::Ring | PrimType::HexColor => {
            (m.x - hm) * (m.x - hm) + (m.y - hm) * (m.y - hm) <= hm * hm
        },
        PrimType::Rect => in_unit_square(m),
        PrimType::Line => false,
    }
}

/// The `i`-th vertex of the isosceles triangle: base corners, then the
/// apex at the top center.
pub open spec fn tri_vert(i: int) -> Point {
    if i == 0 {
        Point { x: 0, y: MODEL_ONE }
    } else if i == 1 {
        Point { x: MODEL_ONE, y: MODEL_ONE }
    } else {
        Point { x: (MODEL_ONE as int / 2) as i64, y: 0 }
    }
}

/// The `i`-th vertex of the circle outline: on the inscribed circle at
/// 30-degree steps.
pub open spec fn circle_vert(i: int) -> Point {
    let hm = MODEL_ONE as int / 2;
    let d = 30 * i;
    Point {
        x: (hm + hm * cos_deg(d) / (TRIG_ONE as int)) as i64,
        y: (hm + hm * sin_deg(d) / (TRIG_ONE as int)) as i64,
    }
}

/// The `i`-th model-space vertex of a primitive's outline.
pub open spec fn prim_vert(pt: PrimType, i: int) -> Point {
    match pt {
        PrimType::Triangle => tri_vert(i),
        PrimType::HexColor => tri_vert(i),
        PrimType::Circle => circle_vert(i),
        PrimType::Ring => circle_vert(i),
        PrimType::Rect => unit_corner(i),
        PrimType::Line => Point { x: 0, y: 0 },
    }
}

impl PrimType {
    /// How many outline vertices the primitive has.
    pub fn size(&self) -> (n: usize)
        ensures
            n == prim_size(*self),
            1 <= n <= NCIRCLE_VERTS,
    {
        match self {
            PrimType::Triangle => 3,
            PrimType::Rect => 4,
            PrimType::Circle => NCIRCLE_VERTS,
            PrimType::Ring => NCIRCLE_VERTS,
            PrimType::Line => 1,
            PrimType::HexColor => 3,
        }
    }

    /// Model-space hit test against the primitive's footprint.
    pub fn in_bounds(&self, m: &Point) -> (r: bool)
        requires
            pt_ok(*m),
        ensures
            r == prim_hit(*self, *m),
    {
        let hm: i64 = MODEL_ONE / 2;
        match self {
            PrimType::Triangle => {
                m.x >= 0 && m.x <= MODEL_ONE && m.y <= MODEL_ONE && m.y as i128 >= 2 * (m.x as i128
                    - hm as i128) && m.y as i128 >= 2 * (hm as i128 - m.x as i128)
            },
            PrimType::Circle | PrimType::Ring | PrimType::HexColor => {
                let dx = m.x as i128 - hm as i128;
                let dy = m.y as i128 - hm as i128;
                proof {
                    lemma_mul_bound(dx as int, dx as int, 0x4000_0000, 0x4000_0000);
                    lemma_mul_bound(dy as int, dy as int, 0x4000_0000, 0x4000_0000);
                }
                dx * dx + dy * dy <= hm as i128 * hm as i128
            },
            PrimType::Rect => m.x >= 0 && m.x <= MODEL_ONE && m.y >= 0 && m.y <= MODEL_ONE,
            PrimType::Line => false,
        }
    }

    /// The model-space outline vertices, in rendering order.
    pub fn verts_model(&self) -> (v: Vec<Point>)
        ensures
            v@.len() == prim_size(*self),
            forall|i: int|
                #![trigger v@[i]]
                0 <= i < v@.len() ==> v@[i] == prim_vert(*self, i) && pt_ok(v@[i]),
    {
        match self {
            PrimType::Triangle => triangle_verts(),
            PrimType::HexColor => triangle_verts(),
            PrimType::Circle => circle_verts(),
            PrimType::Ring => circle_verts(),
            PrimType::Rect => {
                let mut v: Vec<Point> = Vec::new();
                v.push(Point { x: 0, y: 0 });
                v.push(Point { x: MODEL_ONE, y: 0 });
                v.push(Point { x: MODEL_ONE, y: MODEL_ONE });
                v.push(Point { x: 0, y: MODEL_ONE });
                v
            },
            PrimType::Line => {
                let mut v: Vec<Point> = Vec::new();
                v.push(Point { x: 0, y: 0 });
                v
            },
        }
    }
}

/// The three triangle vertices.
fn triangle_verts() -> (v: Vec<Point>)
    ensures
        v@.len() == 3,
        forall|i: int|
            #![trigger v@[i]]
            0 <= i < 3 ==> v@[i] == tri_vert(i) && pt_ok(v@[i]),
{
    let mut v: Vec<Point> = Vec::new();
    v.push(Point { x: 0, y: MODEL_ONE });
    v.push(Point { x: MODEL_ONE, y: MODEL_ONE });
    v.push(Point { x: MODEL_ONE / 2, y: 0 });
    v
}

/// The circle outline vertices at 30-degree steps.
fn circle_verts() -> (v: Vec<Point>)
    ensures
        v@.len() == NCIRCLE_VERTS,
        forall|i: int|
            #![trigger v@[i]]
            0 <= i < NCIRCLE_VERTS ==> v@[i] == circle_vert(i) && pt_ok(v@[i]),
{
    let hm: i64 = MODEL_ONE / 2;
    let mut v: Vec<Point> = Vec::new();
    let mut i: usize = 0;
    while i < NCIRCLE_VERTS
        invariant
            0 <= i <= NCIRCLE_VERTS,
            hm == 32768,
            v@.len() == i,
            forall|j: int| #![trigger v@[j]] 0 <= j < i ==> v@[j] == circle_vert(j) && pt_ok(v@[j]),
        decreases NCIRCLE_VERTS - i,
    {
        let d: i64 = 30 * (i as i64);
        let c = cos_lookup(d);
        let s = sin_lookup(d);
        proof {
            lemma_mul_bound(hm as int, c as int, hm as int, TRIG_ONE as int);
            lemma_mul_bound(hm as int, s as int, hm as int, TRIG_ONE as int);
            lemma_div_bound_by(hm as int * c as int, TRIG_ONE as int, hm as int);
            lemma_div_bound_by(hm as int * s as int, TRIG_ONE as int, hm as int);
        }
        let px = hm + sat_trig(hm as i128 * c as i128);
        let py = hm + sat_trig(hm as i128 * s as i128);
        proof {
            assert(circle_vert(i as int) == (Point { x: px, y: py }));
        }
        v.push(Point { x: px, y: py });
        i = i + 1;
    }
    v
}

/// Number of outline vertices of a primitive.
pub open spec fn prim_size(pt: PrimType) -> int {
    match pt {
        PrimType::Triangle => 3,
        PrimType::Rect => 4,
        PrimType::Circle => NCIRCLE_VERTS as int,
        PrimType::Ring => NCIRCLE_VERTS as int,
        PrimType::Line => 1,
        PrimType::HexColor => 3,
    }
}

/// Scaled trig product divided back by the trig unit; magnitude stays
/// within half the model unit.
fn sat_trig(v: i128) -> (r: i64)
    requires
        -(0x8000_0000_0000 as int) <= v as int <= 0x8000_0000_0000 as int,
    ensures
        r as int == v as int / (TRIG_ONE as int),
{
    let q = fdiv(v, TRIG_ONE as i128);
    proof {
        crate::geom::lemma_div_mag(v as int, TRIG_ONE as int);
    }
    q as i64
}

/// One of a line's two draggable endpoints.
#[derive(Clone, Copy, Debug, PartialEq, Eq, Structural)]
pub enum LineVertex {
    P1,
    P2,
}

/// A straight line segment with a stroke width and color.
#[derive(Clone, Copy, Debug, PartialEq, Eq, Structural)]
pub struct DrawLine {
    pub p1: Point,
    pub p2: Point,
    pub line_width: i64,
    pub color: Color,
}

/// Well-formed line: endpoints in coordinate range, positive width no
/// wider than the coordinate range.
pub open spec fn line_ok(l: DrawLine) -> bool {
    pt_ok(l.p1) && pt_ok(l.p2) && 1 <= l.line_width <= crate::geom::COORD_MAX as int
}

/// Whether pixel point `p` lies on the segment: inside the segment's
/// bounding box expanded by half the stroke width on every side, and
/// no farther from the carrying line than half the stroke width
/// (compared with squares, so the test is exact).
pub open spec fn line_hit(l: DrawLine, p: Point) -> bool {
    let hw = l.line_width as int / 2;
    let dx = l.p2.x - l.p1.x;
    let dy = l.p2.y - l.p1.y;
    let cross = dx * (p.y - l.p1.y) - dy * (p.x - l.p1.x);
    &&& min_i(l.p1.x as int, l.p2.x as int) - hw <= p.x <= max_i(l.p1.x as int, l.p2.x as int)
        + hw
    &&& min_i(l.p1.y as int, l.p2.y as int) - hw <= p.y <= max_i(l.p1.y as int, l.p2.y as int)
        + hw
    &&& 4 * cross * cross <= l.line_width * l.line_width * (dx * dx + dy * dy)
}

impl DrawLine {
    pub fn new(p1: Point, p2: Point, line_width: i64, color: Color) -> (l: DrawLine)
        requires
            pt_ok(p1),
            pt_ok(p2),
            1 <= line_width <= crate::geom::COORD_MAX as int,
        ensures
            l == (DrawLine { p1, p2, line_width, color }),
            line_ok(l),
    {
        DrawLine { p1, p2, line_width, color }
    }

    /// Move one endpoint to `pt`.
    pub fn drag_vertex(&mut self, v: &LineVertex, pt: &Point)
        requires
            line_ok(*old(self)),
            pt_ok(*pt),
        ensures
            *v is P1 ==> *final(self) == (DrawLine { p1: *pt, ..*old(self) }),
            *v is P2 ==> *final(self) == (DrawLine { p2: *pt, ..*old(self) }),
            line_ok(*final(self)),
    {
        match v {
            LineVertex::P1 => {
                self.p1 = *pt;
            },
            LineVertex::P2 => {
                self.p2 = *pt;
            },
        }
    }

    /// Translate both endpoints by `off`.
    pub fn drag(&mut self, off: &Point)
        requires
            line_ok(*old(self)),
        ensures
            *final(self) == (DrawLine {
                p1: pt_plus(old(self).p1, *off),
                p2: pt_plus(old(self).p2, *off),
                ..*old(self)
            }),
            line_ok(*final(self)),
    {
        self.p1 = self.p1.plus(off);
        self.p2 = self.p2.plus(off);
    }

    /// Hit test against the stroked segment.
    pub fn in_bounds(&self, p: &Point) -> (r: bool)
        requires
            line_ok(*self),
            pt_ok(*p),
        ensures
            r == line_hit(*self, *p),
    {
        let hw = self.line_width / 2;
        let min_x = if self.p1.x < self.p2.x { self.p1.x } else { self.p2.x };
        let max_x = if self.p1.x < self.p2.x { self.p2.x } else { self.p1.x };
        let min_y = if self.p1.y < self.p2.y { self.p1.y } else { self.p2.y };
        let max_y = if self.p1.y < self.p2.y { self.p2.y } else { self.p1.y };
        if !(p.x >= min_x - hw && p.x <= max_x + hw && p.y >= min_y - hw && p.y <= max_y + hw) {
            return false;
        }
        let dx = self.p2.x as i128 - self.p1.x as i128;
        let dy = self.p2.y as i128 - self.p1.y as i128;
        let ex = p.x as i128 - self.p1.x as i128;
        let ey = p.y as i128 - self.p1.y as i128;
        proof {
            lemma_mul_bound(dx as int, ey as int, 0x4000_0000, 0x4000_0000);
            lemma_mul_bound(dy as int, ex as int, 0x4000_0000, 0x4000_0000);
            lemma_mul_bound(dx as int, dx as int, 0x4000_0000, 0x4000_0000);
            lemma_mul_bound(dy as int, dy as int, 0x4000_0000, 0x4000_0000);
        }
        let cross = dx * ey - dy * ex;
        let len2 = dx * dx + dy * dy;
        proof {
            lemma_mul_bound(cross as int, cross as int, 0x2000_0000_0000_0000, 0x2000_0000_0000_0000);
            lemma_mul_bound(self.line_width as int, self.line_width as int, 0x2000_0000, 0x2000_0000);
            lemma_mul_bound(
                self.line_width as int * self.line_width as int,
                len2 as int,
                0x400_0000_0000_0000,
                0x4000_0000_0000_0000,
            );
            assert(4 * (cross as int * cross as int) == 4 * cross as int * cross as int)
                by (nonlinear_arith);
        }
        let c2 = cross * cross;
        let w2 = self.line_width as i128 * self.line_width as i128;
        4 * c2 <= w2 * len2
    }
}

/// A primitive placed on the canvas by a rotated rectangle, with fill
/// flag and color.
#[derive(Clone, Copy, Debug)]
pub struct DrawPolygon {
    pub prim: PrimType,
    pub fill: bool,
    pub rect: RotateRect,
    pub color: Color,
}

/// Whether pixel point `p` hits a primitive placed by `k`.
pub open spec fn poly_hit(prim: PrimType, k: crate::transform::RectKey, p: Point) -> bool {
    prim_hit(prim, p2m_spec(transform_of(k), p))
}

impl DrawPolygon {
    /// Hit test: map the pixel point to model space, test the
    /// primitive's footprint.
    pub fn in_bounds(&self, p: &Point) -> (r: bool)
        requires
            rr_ok(self.rect),
        ensures
            r == poly_hit(self.prim, key_of(self.rect), *p),
    {
        let t = self.rect.transform_fresh();
        let m = t.pixel_to_model(p);
        self.prim.in_bounds(&m)
    }

    /// The primitive's outline vertices mapped to pixel space.
    pub fn verts(&self) -> (v: Vec<Point>)
        requires
            rr_ok(self.rect),
        ensures
            v@.len() == prim_size(self.prim),
            forall|i: int|
                #![trigger v@[i]]
                0 <= i < v@.len() ==> v@[i] == m2p_spec(
                    transform_of(key_of(self.rect)),
                    prim_vert(self.prim, i),
                ) && pt_ok(v@[i]),
    {
        let t = self.rect.transform_fresh();
        let model = self.prim.verts_model();
        let mut v: Vec<Point> = Vec::new();
        let mut i: usize = 0;
        while i < model.len()
            invariant
                0 <= i <= model@.len(),
                v@.len() == i,
                crate::transform::transform_ok(t),
                t == transform_of(key_of(self.rect)),
                model@.len() == prim_size(self.prim),
                forall|j: int|
                    #![trigger model@[j]]
                    0 <= j < model@.len() ==> model@[j] == prim_vert(self.prim, j),
                forall|j: int|
                    #![trigger v@[j]]
                    0 <= j < i ==> v@[j] == m2p_spec(
                        transform_of(key_of(self.rect)),
                        prim_vert(self.prim, j),
                    ) && pt_ok(v@[j]),
            decreases model@.len() - i,
        {
            let p = t.model_to_pixel(&model[i]);
            v.push(p);
            i = i + 1;
        }
        v
    }
}

/// A shape on the canvas: a stroked line or a placed polygon.
#[derive(Clone, Copy, Debug)]
pub enum Shape {
    Line(DrawLine),
    Polygon(DrawPolygon),
}

/// Well-formed shape.
pub open spec fn shape_ok(s: Shape) -> bool {
    match s {
        Shape::Line(l) => line_ok(l),
        Shape::Polygon(dp) => rr_ok(dp.rect),
    }
}

/// Whether pixel point `p` hits the shape.
pub open spec fn shape_hit(s: Shape, p: Point) -> bool {
    match s {
        Shape::Line(l) => line_hit(l, p),
        Shape::Polygon(dp) => poly_hit(dp.prim, key_of(dp.rect), p),
    }
}

/// How many pick vertices the shape exposes: a line its two endpoints,
/// a polygon its outline.
pub open spec fn shape_nverts(s: Shape) -> int {
    match s {
        Shape::Line(_) => 2,
        Shape::Polygon(dp) => prim_size(dp.prim),
    }
}

/// The `i`-th pick vertex of the shape, in pixel space.
pub open spec fn shape_vert(s: Shape, i: int) -> Point {
    match s {
        Shape::Line(l) => if i == 0 {
            l.p1
        } else {
            l.p2
        },
        Shape::Polygon(dp) => m2p_spec(transform_of(key_of(dp.rect)), prim_vert(dp.prim, i)),
    }
}

/// The shape translated by `off`.
pub open spec fn shape_dragged(s: Shape, off: Point) -> Shape {
    match s {
        Shape::Line(l) => Shape::Line(
            DrawLine { p1: pt_plus(l.p1, off), p2: pt_plus(l.p2, off), ..l },
        ),
        Shape::Polygon(dp) => Shape::Polygon(
            DrawPolygon {
                rect: RotateRect { offset: pt_plus(dp.rect.offset, off), ..dp.rect },
                ..dp
            },
        ),
    }
}

impl Shape {
    /// Hit test against the shape.
    pub fn in_bounds(&self, p: &Point) -> (r: bool)
        requires
            shape_ok(*self),
            pt_ok(*p),
        ensures
            r == shape_hit(*self, *p),
    {
        match self {
            Shape::Line(l) => l.in_bounds(p),
            Shape::Polygon(dp) => dp.in_bounds(p),
        }
    }

    /// The shape's pick vertices in pixel space.
    pub fn verts(&self) -> (v: Vec<Point>)
        requires
            shape_ok(*self),
        ensures
            v@.len() == shape_nverts(*self),
            forall|i: int|
                #![trigger v@[i]]
                0 <= i < v@.len() ==> v@[i] == shape_vert(*self, i) && pt_ok(v@[i]),
    {
        match self {
            Shape::Line(l) => {
                let mut v: Vec<Point> = Vec::new();
                v.push(l.p1);
                v.push(l.p2);
                v
            },
            Shape::Polygon(dp) => dp.verts(),
        }
    }

    /// Translate the shape by `off`.
    pub fn drag(&mut self, off: &Point)
        requires
            shape_ok(*old(self)),
        ensures
            *final(self) == shape_dragged(*old(self), *off),
            shape_ok(*final(self)),
    {
        match self {
            Shape::Line(l) => {
                l.drag(off);
            },
            Shape::Polygon(dp) => {
                dp.rect.drag(off);
            },
        }
    }

    /// Replace a polygon's placement; lines are unaffected.
    pub fn set_rect(&mut self, r: &RotateRect)
        requires
            shape_ok(*old(self)),
            rr_ok(*r),
        ensures
            *old(self) is Polygon ==> (*final(self) matches Shape::Polygon(dp) && dp.rect == *r
                && dp.prim == (*old(self))->Polygon_0.prim && dp.fill == (*old(self))->Polygon_0.fill
                && dp.color == (*old(self))->Polygon_0.color),
            *old(self) is Line ==> *final(self) == *old(self),
            shape_ok(*final(self)),
    {
        match self {
            Shape::Polygon(dp) => {
                dp.rect = *r;
            },
            Shape::Line(_) => {},
        }
    }

    /// Move one endpoint of a line; polygons are unaffected.
    pub fn drag_vertex(&mut self, v: &LineVertex, pt: &Point)
        requires
            shape_ok(*old(self)),
            pt_ok(*pt),
        ensures
            *old(self) matches Shape::Line(l) ==> (*v is P1 ==> *final(self) == Shape::Line(
                DrawLine { p1: *pt, ..l },
            )) && (*v is P2 ==> *final(self) == Shape::Line(DrawLine { p2: *pt, ..l })),
            *old(self) is Polygon ==> *final(self) == *old(self),
            shape_ok(*final(self)),
    {
        match self {
            Shape::Line(l) => {
                l.drag_vertex(v, pt);
            },
            Shape::Polygon(_) => {},
        }
    }

    /// The placement of a polygon; a line reports a default placement
    /// as the caller-facing stand-in.
    pub fn rect(&self) -> (r: RotateRect)
        requires
            shape_ok(*self),
        ensures
            *self is Polygon ==> key_of(r) == key_of((*self)->Polygon_0.rect),
            *self is Line ==> key_of(r) == (crate::transform::RectKey {
                offset: Point { x: 0, y: 0 },
                size: Point { x: 5, y: 5 },
                rot: 0,
            }),
            rr_ok(r),
    {
        match self {
            Shape::Polygon(dp) => dp.rect,
            Shape::Line(_) => RotateRect::new(
                Point { x: 0, y: 0 },
                Point { x: 5, y: 5 },
                0,
            ),
        }
    }

    /// The shape's color.
    pub fn rgb(&self) -> (c: Color)
        ensures
            *self matches Shape::Line(l) ==> c == l.color,
            *self matches Shape::Polygon(dp) ==> c == dp.color,
    {
        match self {
            Shape::Line(l) => l.color,
            Shape::Polygon(dp) => dp.color,
        }
    }
}

/// Whether any pick vertex of the shape lies inside the query box:
/// box selection is vertex-touch, not full containment.
pub open spec fn shape_touches(s: Shape, r: crate::geom::Rect) -> bool {
    exists|i: int| 0 <= i < shape_nverts(s) && crate::geom::rect_contains(r, #[trigger] shape_vert(s, i))
}

impl Shape {
    /// Whether any pick vertex of the shape lies inside `r`.
    pub fn in_select_box(&self, r: &crate::geom::Rect) -> (hit: bool)
        requires
            shape_ok(*self),
        ensures
            hit == shape_touches(*self, *r),
    {
        let v = self.verts();
        let mut i: usize = 0;
        while i < v.len()
            invariant
                0 <= i <= v@.len(),
                v@.len() == shape_nverts(*self),
                forall|j: int|
                    #![trigger v@[j]]
                    0 <= j < v@.len() ==> v@[j] == shape_vert(*self, j) && pt_ok(v@[j]),
                forall|j: int|
                    0 <= j < i ==> !crate::geom::rect_contains(*r, #[trigger] shape_vert(*self, j)),
            decreases v@.len() - i,
        {
            if r.in_bounds(&v[i]) {
                return true;
            }
            i = i + 1;
        }
        false
    }
}

/// One drawing request for the rendering collaborator: final placement
/// data only, never how it was derived.
#[derive(Clone, Copy, Debug)]
pub enum DrawCmd {
    Polygon { prim: PrimType, key: crate::transform::RectKey, fill: bool, color: Color },
    Line { p1: Point, p2: Point, line_width: i64, color: Color },
    CircleMarker { center: Point, radius: i64, color: Color, fill: bool },
}

/// The drawing request a shape produces.
pub open spec fn cmd_of(s: Shape) -> DrawCmd {
    match s {
        Shape::Polygon(dp) => DrawCmd::Polygon {
            prim: dp.prim,
            key: key_of(dp.rect),
            fill: dp.fill,
            color: dp.color,
        },
        Shape::Line(l) => DrawCmd::Line {
            p1: l.p1,
            p2: l.p2,
            line_width: l.line_width,
            color: l.color,
        },
    }
}

impl Shape {
    /// The drawing request for this shape.
    pub fn to_cmd(&self) -> (c: DrawCmd)
        ensures
            c == cmd_of(*self),
    {
        match self {
            Shape::Polygon(dp) => DrawCmd::Polygon {
                prim: dp.prim,
                key: crate::transform::RectKey {
                    offset: dp.rect.offset,
                    size: dp.rect.size,
                    rot: dp.rect.rot,
                },
                fill: dp.fill,
                color: dp.color,
            },
            Shape::Line(l) => DrawCmd::Line {
                p1: l.p1,
                p2: l.p2,
                line_width: l.line_width,
                color: l.color,
            },
        }
    }
}

/// Step-by-step construction of a polygon shape.
pub struct ShapeBuilder {
    pub p: DrawPolygon,
}

impl ShapeBuilder {
    /// A filled black triangle of default size at the origin.
    pub fn new() -> (b: ShapeBuilder)
        ensures
            b.p.prim is Triangle,
            b.p.fill,
            b.p.color == (Color { r: 0, g: 0, b: 0 }),
            key_of(b.p.rect) == (crate::transform::RectKey {
                offset: Point { x: 0, y: 0 },
                size: Point { x: 5, y: 5 },
                rot: 0,
            }),
            rr_ok(b.p.rect),
    {
        ShapeBuilder {
            p: DrawPolygon {
                prim: PrimType::Triangle,
                fill: true,
                rect: RotateRect::new(Point { x: 0, y: 0 }, Point { x: 5, y: 5 }, 0),
                color: Color { r: 0, g: 0, b: 0 },
            },
        }
    }

    /// Place the shape's unrotated top-left corner, saturating into
    /// the coordinate range.
    pub fn offset(self, x: i64, y: i64) -> (b: ShapeBuilder)
        requires
            rr_ok(self.p.rect),
        ensures
            b.p.rect.offset == (Point {
                x: crate::geom::clip(x as int) as i64,
                y: crate::geom::clip(y as int) as i64,
            }),
            b.p.rect.size == self.p.rect.size,
            b.p.rect.rot == self.p.rect.rot,
            b.p.prim == self.p.prim,
            b.p.fill == self.p.fill,
            b.p.color == self.p.color,
            rr_ok(b.p.rect),
    {
        let mut p = self.p;
        p.rect.offset = Point {
            x: crate::geom::sat64(x as i128),
            y: crate::geom::sat64(y as i128),
        };
        ShapeBuilder { p }
    }

    /// Set the rotation in degrees, canonicalized.
    pub fn rot(self, deg: i64) -> (b: ShapeBuilder)
        requires
            rr_ok(self.p.rect),
            -(i64::MAX as int) <= deg as int,
        ensures
            b.p.rect.rot as int == deg as int % 360,
            b.p.rect.offset == self.p.rect.offset,
            b.p.rect.size == self.p.rect.size,
            b.p.prim == self.p.prim,
            b.p.fill == self.p.fill,
            b.p.color == self.p.color,
            rr_ok(b.p.rect),
    {
        let mut p = self.p;
        p.rect.set_rotation(deg);
        ShapeBuilder { p }
    }

    pub fn color(self, r: u8, g: u8, b: u8) -> (out: ShapeBuilder)
        ensures
            out.p.color == (Color { r, g, b }),
            out.p.rect == self.p.rect,
            out.p.prim == self.p.prim,
            out.p.fill == self.p.fill,
    {
        let mut p = self.p;
        p.color = Color { r, g, b };
        ShapeBuilder { p }
    }

    /// A circle of the given radius (at least one pixel).
    pub fn circle(self, rad: i64) -> (b: ShapeBuilder)
        ensures
            b.p.prim is Circle,
            b.p.rect.size == size_clamped(rad, rad),
            b.p.rect.offset == self.p.rect.offset,
            b.p.rect.rot == self.p.rect.rot,
            b.p.fill == self.p.fill,
            b.p.color == self.p.color,
    {
        self.sized(PrimType::Circle, rad, rad)
    }

    /// An ellipse with the given radii.
    pub fn ellipse(self, rad_x: i64, rad_y: i64) -> (b: ShapeBuilder)
        ensures
            b.p.prim is Circle,
            b.p.rect.size == size_clamped(rad_x, rad_y),
            b.p.rect.offset == self.p.rect.offset,
            b.p.rect.rot == self.p.rect.rot,
            b.p.fill == self.p.fill,
            b.p.color == self.p.color,
    {
        self.sized(PrimType::Circle, rad_x, rad_y)
    }

    /// A rectangle of the given width and height.
    pub fn rect(self, width: i64, height: i64) -> (b: ShapeBuilder)
        ensures
            b.p.prim is Rect,
            b.p.rect.size == size_clamped(width, height),
            b.p.rect.offset == self.p.rect.offset,
            b.p.rect.rot == self.p.rect.rot,
            b.p.fill == self.p.fill,
            b.p.color == self.p.color,
    {
        self.sized(PrimType::Rect, width, height)
    }

    /// A square with the given side.
    pub fn square(self, side: i64) -> (b: ShapeBuilder)
        ensures
            b.p.prim is Rect,
            b.p.rect.size == size_clamped(side, side),
            b.p.rect.offset == self.p.rect.offset,
            b.p.rect.rot == self.p.rect.rot,
            b.p.fill == self.p.fill,
            b.p.color == self.p.color,
    {
        self.sized(PrimType::Rect, side, side)
    }

    /// A triangle over the given base and height.
    pub fn tri(self, base: i64, height: i64) -> (b: ShapeBuilder)
        ensures
            b.p.prim is Triangle,
            b.p.rect.size == size_clamped(base, height),
            b.p.rect.offset == self.p.rect.offset,
            b.p.rect.rot == self.p.rect.rot,
            b.p.fill == self.p.fill,
            b.p.color == self.p.color,
    {
        self.sized(PrimType::Triangle, base, height)
    }

    pub fn fill(self, fill: bool) -> (b: ShapeBuilder)
        ensures
            b.p.fill == fill,
            b.p.rect == self.p.rect,
            b.p.prim == self.p.prim,
            b.p.color == self.p.color,
    {
        let mut p = self.p;
        p.fill = fill;
        ShapeBuilder { p }
    }

    fn sized(self, prim: PrimType, w: i64, h: i64) -> (b: ShapeBuilder)
        ensures
            b.p.prim == prim,
            b.p.rect.size == size_clamped(w, h),
            b.p.rect.offset == self.p.rect.offset,
            b.p.rect.rot == self.p.rect.rot,
            b.p.fill == self.p.fill,
            b.p.color == self.p.color,
    {
        let mut p = self.p;
        p.prim = prim;
        let sw = crate::geom::sat64(w as i128);
        let sh = crate::geom::sat64(h as i128);
        p.rect.size = Point { x: if sw < 1 { 1 } else { sw }, y: if sh < 1 { 1 } else { sh } };
        ShapeBuilder { p }
    }

    /// The finished shape.  An unfilled circle becomes a ring and a
    /// filled ring becomes a circle, so the footprint matches the
    /// fill mode.
    pub fn get(self) -> (s: Shape)
        requires
            rr_ok(self.p.rect),
        ensures
            s matches Shape::Polygon(dp) && dp.rect == self.p.rect && dp.fill == self.p.fill
                && dp.color == self.p.color && dp.prim == (if self.p.prim is Circle
                && !self.p.fill {
                PrimType::Ring
            } else if self.p.prim is Ring && self.p.fill {
                PrimType::Circle
            } else {
                self.p.prim
            }),
            shape_ok(s),
    {
        let mut p = self.p;
        if matches!(p.prim, PrimType::Circle) && !p.fill {
            p.prim = PrimType::Ring;
        } else if matches!(p.prim, PrimType::Ring) && p.fill {
            p.prim = PrimType::Circle;
        }
        Shape::Polygon(p)
    }
}

/// A requested size with each side saturated and at least one pixel.
pub open spec fn size_clamped(w: i64, h: i64) -> Point {
    Point {
        x: crate::select::max_of(1, crate::geom::clip(w as int)) as i64,
        y: crate::select::max_of(1, crate::geom::clip(h as int)) as i64,
    }
}

/// Step-by-step construction of a line shape.
pub struct LineBuilder {
    pub l: DrawLine,
}

impl LineBuilder {
    /// A black line of default width between coincident endpoints at
    /// the origin.
    pub fn new() -> (b: LineBuilder)
        ensures
            b.l == (DrawLine {
                p1: Point { x: 0, y: 0 },
                p2: Point { x: 0, y: 0 },
                line_width: 3,
                color: Color { r: 0, g: 0, b: 0 },
            }),
            line_ok(b.l),
    {
        LineBuilder {
            l: DrawLine {
                p1: Point { x: 0, y: 0 },
                p2: Point { x: 0, y: 0 },
                line_width: 3,
                color: Color { r: 0, g: 0, b: 0 },
            },
        }
    }

    /// Set both endpoints.
    pub fn points2(self, p1: &Point, p2: &Point) -> (b: LineBuilder)
        requires
            pt_ok(*p1),
            pt_ok(*p2),
        ensures
            b.l == (DrawLine { p1: *p1, p2: *p2, ..self.l }),
    {
        let mut l = self.l;
        l.p1 = *p1;
        l.p2 = *p2;
        LineBuilder { l }
    }

    /// Set both endpoints from coordinates, saturating into the
    /// coordinate range.
    pub fn points(self, x1: i64, y1: i64, x2: i64, y2: i64) -> (b: LineBuilder)
        ensures
            b.l == (DrawLine {
                p1: Point {
                    x: crate::geom::clip(x1 as int) as i64,
                    y: crate::geom::clip(y1 as int) as i64,
                },
                p2: Point {
                    x: crate::geom::clip(x2 as int) as i64,
                    y: crate::geom::clip(y2 as int) as i64,
                },
                ..self.l
            }),
    {
        let mut l = self.l;
        l.p1 = Point { x: crate::geom::sat64(x1 as i128), y: crate::geom::sat64(y1 as i128) };
        l.p2 = Point { x: crate::geom::sat64(x2 as i128), y: crate::geom::sat64(y2 as i128) };
        LineBuilder { l }
    }

    pub fn color(self, r: u8, g: u8, b: u8) -> (out: LineBuilder)
        ensures
            out.l == (DrawLine { color: Color { r, g, b }, ..self.l }),
    {
        let mut l = self.l;
        l.color = Color { r, g, b };
        LineBuilder { l }
    }

    /// Set the stroke width, saturated and at least one pixel.
    pub fn line_width(self, width: i64) -> (b: LineBuilder)
        ensures
            b.l == (DrawLine {
                line_width: crate::select::max_of(1, crate::geom::clip(width as int)) as i64,
                ..self.l
            }),
    {
        let mut l = self.l;
        let w = crate::geom::sat64(width as i128);
        l.line_width = if w < 1 {
            1
        } else {
            w
        };
        LineBuilder { l }
    }

    /// The finished line shape.
    pub fn get(self) -> (s: Shape)
        requires
            line_ok(self.l),
        ensures
            s == Shape::Line(self.l),
            shape_ok(s),
    {
        Shape::Line(self.l)
    }
}

} // verus!
