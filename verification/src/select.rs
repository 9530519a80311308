//! Selection geometry: the selection box around a shape with its
//! eight resize handles and rotation handles, the resize algorithm
//! with its anchor/moving-edge swap, and the selected-line overlay.
//!
//! The resize algorithm works in the shape's model space.  Each drag
//! move compares the dragged coordinate with the un-dragged edge; when
//! it crosses, the two stored scalars swap so the rectangle stays
//! non-degenerate, and the opposite handle becomes the active one.

use vstd::prelude::*;
use crate::geom::{clip, fdiv, pt_mid, pt_ok, sat64, Point, Rect};
use crate::angle::{angle_of, angle_of_spec};
use crate::shapes::{line_ok, DrawLine, LineVertex};
use crate::transform::{key_of, m2p_spec, p2m_spec, resize_spec, rr_center, rr_contains, rr_ok,
    transform_of, unit_corner, RectKey, RotateRect, MODEL_ONE};

verus! {

/// Pixel radius within which a resize handle catches the pointer.
pub const MIN_CORNER_DIST: i64 = 10;

/// Pixel radius within which a rotation handle catches the pointer.
pub const ROTATE_HANDLE_DIST: i64 = 12;

/// Pixel radius within which a line endpoint catches the pointer.
pub const MIN_VERT_DIST: i64 = 20;

/// The draggable handles of a selection box: four corners and four
/// edge midpoints.
#[derive(Clone, Copy, Debug, PartialEq, Eq, Structural)]
pub enum DragVertex {
    TopLeft,
    TopRight,
    BottomRight,
    BottomLeft,
    TopCenter,
    Right,
    BottomCenter,
    Left,
}

/// What part of a selection box the pointer is over.
#[derive(Clone, Copy, Debug, PartialEq, Eq, Structural)]
pub enum BoxHover {
    RotateVert,
    Rect,
    Drag(DragVertex),
}

/// What part of a selected line the pointer is over.
#[derive(Clone, Copy, Debug, PartialEq, Eq, Structural)]
pub enum LineHover {
    Line,
    Vertex(LineVertex),
}

/// The geometrically opposite handle.
pub open spec fn opposite(v: DragVertex) -> DragVertex {
    match v {
        DragVertex::TopLeft => DragVertex::BottomRight,
        DragVertex::TopRight => DragVertex::BottomLeft,
        DragVertex::BottomRight => DragVertex::TopLeft,
        DragVertex::BottomLeft => DragVertex::TopRight,
        DragVertex::TopCenter => DragVertex::BottomCenter,
        DragVertex::Right => DragVertex::Left,
        DragVertex::BottomCenter => DragVertex::TopCenter,
        DragVertex::Left => DragVertex::Right,
    }
}

/// The handle at position `i` of the handle list: the four corners,
/// then the four edge midpoints.
pub open spec fn handle_of_index(i: int) -> DragVertex {
    if i == 0 {
        DragVertex::TopLeft
    } else if i == 1 {
        DragVertex::TopRight
    } else if i == 2 {
        DragVertex::BottomRight
    } else if i == 3 {
        DragVertex::BottomLeft
    } else if i == 4 {
        DragVertex::TopCenter
    } else if i == 5 {
        DragVertex::Right
    } else if i == 6 {
        DragVertex::BottomCenter
    } else {
        DragVertex::Left
    }
}

/// Whether a drag move past the un-dragged edge crosses it: the
/// stored pair swaps exactly then.
pub open spec fn swap_crossed(start: int, mm: int, new: int) -> bool {
    if start < mm {
        new > mm
    } else {
        new < mm
    }
}

/// The pair `(start, min_max)` after one drag move.
pub open spec fn swap_result(start: int, mm: int, new: int) -> (int, int) {
    if swap_crossed(start, mm, new) {
        (mm, new)
    } else {
        (new, mm)
    }
}

/// One drag move of a single axis: write the new coordinate into
/// `start`, and when it crosses past `min_max`, swap the two and hand
/// back `vertex2` (the opposite handle) as the active handle.
pub fn drag_side_swap_vertex(
    vertex1: &DragVertex,
    vertex2: &DragVertex,
    start: &mut i64,
    min_max: &mut i64,
    new: i64,
) -> (r: DragVertex)
    ensures
        r == if swap_crossed(*old(start) as int, *old(min_max) as int, new as int) {
            *vertex2
        } else {
            *vertex1
        },
        *final(start) as int == swap_result(
            *old(start) as int,
            *old(min_max) as int,
            new as int,
        ).0,
        *final(min_max) as int == swap_result(
            *old(start) as int,
            *old(min_max) as int,
            new as int,
        ).1,
        *old(start) < *old(min_max) ==> *final(start) <= *final(min_max),
        *old(start) >= *old(min_max) ==> *final(start) >= *final(min_max),
{
    if *start < *min_max {
        *start = new;
        if new > *min_max {
            let tmp = *start;
            *start = *min_max;
            *min_max = tmp;
            *vertex2
        } else {
            *vertex1
        }
    } else {
        *start = new;
        if new < *min_max {
            let tmp = *start;
            *start = *min_max;
            *min_max = tmp;
            *vertex2
        } else {
            *vertex1
        }
    }
}

/// Whether dragging handle `dv` to model point `m` crosses past the
/// opposite edge.
pub open spec fn drag_crossed(dv: DragVertex, m: Point) -> bool {
    match dv {
        DragVertex::TopCenter => m.y > MODEL_ONE,
        DragVertex::BottomCenter => m.y < 0,
        DragVertex::Left => m.x > MODEL_ONE,
        DragVertex::Right => m.x < 0,
        DragVertex::TopLeft => m.x > MODEL_ONE,
        DragVertex::BottomRight => m.x < 0,
        DragVertex::TopRight => m.x < 0,
        DragVertex::BottomLeft => m.x > MODEL_ONE,
    }
}

/// The proportional second coordinate a corner drag derives from its
/// model x coordinate (the unit box has equal width and height, so the
/// slope is one).
pub open spec fn corner_py(dv: DragVertex, m: Point) -> int {
    let mo = MODEL_ONE as int;
    match dv {
        DragVertex::TopLeft => clip(0 + clip((m.x - 0) * mo / mo)),
        DragVertex::BottomRight => clip(mo + clip((m.x - mo) * mo / mo)),
        DragVertex::TopRight => clip(0 + clip((mo - m.x) * mo / mo)),
        DragVertex::BottomLeft => clip(mo + clip((0 - m.x) * mo / mo)),
        _ => 0,
    }
}

/// The model-space rectangle a drag of handle `dv` to model point `m`
/// produces, starting from the unit box.
pub open spec fn drag_model_rect(dv: DragVertex, m: Point) -> Rect {
    let mo = MODEL_ONE as int;
    match dv {
        DragVertex::TopCenter => {
            let p = swap_result(0, mo, m.y as int);
            Rect {
                c1: Point { x: 0, y: p.0 as i64 },
                c2: Point { x: mo as i64, y: p.1 as i64 },
            }
        },
        DragVertex::BottomCenter => {
            let p = swap_result(mo, 0, m.y as int);
            Rect {
                c1: Point { x: 0, y: p.1 as i64 },
                c2: Point { x: mo as i64, y: p.0 as i64 },
            }
        },
        DragVertex::Left => {
            let p = swap_result(0, mo, m.x as int);
            Rect {
                c1: Point { x: p.0 as i64, y: 0 },
                c2: Point { x: p.1 as i64, y: mo as i64 },
            }
        },
        DragVertex::Right => {
            let p = swap_result(mo, 0, m.x as int);
            Rect {
                c1: Point { x: p.1 as i64, y: 0 },
                c2: Point { x: p.0 as i64, y: mo as i64 },
            }
        },
        DragVertex::TopLeft => {
            let px = swap_result(0, mo, m.x as int);
            let py = swap_result(0, mo, corner_py(dv, m));
            Rect {
                c1: Point { x: px.0 as i64, y: py.0 as i64 },
                c2: Point { x: px.1 as i64, y: py.1 as i64 },
            }
        },
        DragVertex::BottomRight => {
            let px = swap_result(mo, 0, m.x as int);
            let py = swap_result(mo, 0, corner_py(dv, m));
            Rect {
                c1: Point { x: px.1 as i64, y: py.1 as i64 },
                c2: Point { x: px.0 as i64, y: py.0 as i64 },
            }
        },
        DragVertex::TopRight => {
            let px = swap_result(mo, 0, m.x as int);
            let py = swap_result(0, mo, corner_py(dv, m));
            Rect {
                c1: Point { x: px.1 as i64, y: py.0 as i64 },
                c2: Point { x: px.0 as i64, y: py.1 as i64 },
            }
        },
        DragVertex::BottomLeft => {
            let px = swap_result(0, mo, m.x as int);
            let py = swap_result(mo, 0, corner_py(dv, m));
            Rect {
                c1: Point { x: px.0 as i64, y: py.1 as i64 },
                c2: Point { x: px.1 as i64, y: py.0 as i64 },
            }
        },
    }
}

/// The active handle after dragging `dv` to model point `m`: the same
/// handle, or its opposite after a crossing.
pub open spec fn drag_result_vertex(dv: DragVertex, m: Point) -> DragVertex {
    if drag_crossed(dv, m) {
        opposite(dv)
    } else {
        dv
    }
}

/// The `i`-th drag-handle position of placement `k`: the four
/// transformed corners, then the four edge midpoints.
pub open spec fn handle_point(k: RectKey, i: int) -> Point {
    let t = transform_of(k);
    if i < 4 {
        m2p_spec(t, unit_corner(i))
    } else {
        pt_mid(m2p_spec(t, unit_corner(i - 4)), m2p_spec(t, unit_corner((i - 3) % 4)))
    }
}

/// Whether the pointer at `p` catches handle `i` of placement `k`.
pub open spec fn handle_hit(k: RectKey, i: int, p: Point) -> bool {
    let h = handle_point(k, i);
    (h.x - p.x) * (h.x - p.x) + (h.y - p.y) * (h.y - p.y) < MIN_CORNER_DIST as int
        * MIN_CORNER_DIST as int
}

/// The placement of the rotation-handle box: the selection box scaled
/// by six fifths about its center.
pub open spec fn rotate_key(k: RectKey) -> RectKey {
    let sx = max_of(1, clip(k.size.x * 6 / 5));
    let sy = max_of(1, clip(k.size.y * 6 / 5));
    let c = rr_center(k);
    RectKey {
        offset: Point { x: clip(c.x - sx / 2) as i64, y: clip(c.y - sy / 2) as i64 },
        size: Point { x: sx as i64, y: sy as i64 },
        rot: k.rot,
    }
}

/// Larger of two ints (local shorthand).
pub open spec fn max_of(a: int, b: int) -> int {
    if a < b {
        b
    } else {
        a
    }
}

/// Whether the pointer at `p` catches one of the four rotation
/// handles of placement `k`.
pub open spec fn rotate_hit(k: RectKey, p: Point) -> bool {
    exists|i: int|
        0 <= i < 4 && {
            let h = m2p_spec(transform_of(rotate_key(k)), #[trigger] unit_corner(i));
            (h.x - p.x) * (h.x - p.x) + (h.y - p.y) * (h.y - p.y) < ROTATE_HANDLE_DIST as int
                * ROTATE_HANDLE_DIST as int
        }
}

/// A selection box: a transient snapshot of a selected shape's
/// placement, carrying the resize and rotation handle geometry.
#[derive(Clone, Copy, Debug)]
pub struct Selection {
    pub rect: RotateRect,
}

/// Well-formed selection box.
pub open spec fn sel_ok(s: Selection) -> bool {
    rr_ok(s.rect)
}

impl Selection {
    pub fn new(rect: RotateRect) -> (s: Selection)
        requires
            rr_ok(rect),
        ensures
            s.rect == rect,
            sel_ok(s),
    {
        Selection { rect }
    }

    /// Translate the box by `off`.
    pub fn drag(&mut self, off: &Point)
        requires
            sel_ok(*old(self)),
        ensures
            key_of(final(self).rect) == (RectKey {
                offset: crate::geom::pt_plus(old(self).rect.offset, *off),
                ..key_of(old(self).rect)
            }),
            sel_ok(*final(self)),
    {
        self.rect.drag(off);
    }

    /// Whether the pointer is inside the box.
    pub fn in_bounds(&self, p: &Point) -> (r: bool)
        requires
            sel_ok(*self),
        ensures
            r == crate::transform::rr_contains(key_of(self.rect), *p),
    {
        self.rect.in_bounds(p)
    }

    /// One move of a resize drag: map the pointer to model space,
    /// apply the single-axis (or proportional corner) swap logic, and
    /// resize the box to the resulting model rectangle.  Returns the
    /// handle that stays active: the dragged one, or its opposite
    /// after a crossing.
    pub fn drag_side(&mut self, drag_vertex: &DragVertex, new_pt: &Point) -> (r: DragVertex)
        requires
            sel_ok(*old(self)),
        ensures
            ({
                let m = p2m_spec(transform_of(key_of(old(self).rect)), *new_pt);
                r == drag_result_vertex(*drag_vertex, m) && key_of(final(self).rect)
                    == resize_spec(key_of(old(self).rect), drag_model_rect(*drag_vertex, m))
            }),
            r == *drag_vertex || r == opposite(*drag_vertex),
            final(self).rect.size.x >= 1 && final(self).rect.size.y >= 1,
            sel_ok(*final(self)),
    {
        let t = self.rect.transform();
        let model_pt = t.pixel_to_model(new_pt);
        let mut r = Rect::new(Point { x: 0, y: 0 }, Point { x: MODEL_ONE, y: MODEL_ONE });
        let new_vtx = match *drag_vertex {
            DragVertex::TopCenter => {
                drag_side_swap_vertex(
                    drag_vertex,
                    &DragVertex::BottomCenter,
                    &mut r.c1.y,
                    &mut r.c2.y,
                    model_pt.y,
                )
            },
            DragVertex::BottomCenter => {
                drag_side_swap_vertex(
                    drag_vertex,
                    &DragVertex::TopCenter,
                    &mut r.c2.y,
                    &mut r.c1.y,
                    model_pt.y,
                )
            },
            DragVertex::Left => {
                drag_side_swap_vertex(
                    drag_vertex,
                    &DragVertex::Right,
                    &mut r.c1.x,
                    &mut r.c2.x,
                    model_pt.x,
                )
            },
            DragVertex::Right => {
                drag_side_swap_vertex(
                    drag_vertex,
                    &DragVertex::Left,
                    &mut r.c2.x,
                    &mut r.c1.x,
                    model_pt.x,
                )
            },
            DragVertex::TopLeft => {
                let dxm = model_pt.x as i128 - r.c1.x as i128;
                let hg = r.height();
                let wd = r.width();
                proof {
                    crate::geom::lemma_mul_bound(
                        dxm as int,
                        hg as int,
                        0x4000_0000_0000_0000,
                        0x4000_0000_0000_0000,
                    );
                }
                let h = sat64(fdiv(dxm * hg as i128, wd as i128));
                let py = sat64(r.c1.y as i128 + h as i128);
                drag_side_swap_vertex(
                    drag_vertex,
                    &DragVertex::BottomRight,
                    &mut r.c1.x,
                    &mut r.c2.x,
                    model_pt.x,
                );
                drag_side_swap_vertex(
                    drag_vertex,
                    &DragVertex::BottomRight,
                    &mut r.c1.y,
                    &mut r.c2.y,
                    py,
                )
            },
            DragVertex::BottomRight => {
                let dxm = model_pt.x as i128 - r.c2.x as i128;
                let hg = r.height();
                let wd = r.width();
                proof {
                    crate::geom::lemma_mul_bound(
                        dxm as int,
                        hg as int,
                        0x4000_0000_0000_0000,
                        0x4000_0000_0000_0000,
                    );
                }
                let h = sat64(fdiv(dxm * hg as i128, wd as i128));
                let py = sat64(r.c2.y as i128 + h as i128);
                drag_side_swap_vertex(
                    drag_vertex,
                    &DragVertex::TopLeft,
                    &mut r.c2.x,
                    &mut r.c1.x,
                    model_pt.x,
                );
                drag_side_swap_vertex(
                    drag_vertex,
                    &DragVertex::TopLeft,
                    &mut r.c2.y,
                    &mut r.c1.y,
                    py,
                )
            },
            DragVertex::TopRight => {
                let dxm = r.c2.x as i128 - model_pt.x as i128;
                let hg = r.height();
                let wd = r.width();
                proof {
                    crate::geom::lemma_mul_bound(
                        dxm as int,
                        hg as int,
                        0x4000_0000_0000_0000,
                        0x4000_0000_0000_0000,
                    );
                }
                let h = sat64(fdiv(dxm * hg as i128, wd as i128));
                let py = sat64(r.c1.y as i128 + h as i128);
                drag_side_swap_vertex(
                    drag_vertex,
                    &DragVertex::BottomLeft,
                    &mut r.c2.x,
                    &mut r.c1.x,
                    model_pt.x,
                );
                drag_side_swap_vertex(
                    drag_vertex,
                    &DragVertex::BottomLeft,
                    &mut r.c1.y,
                    &mut r.c2.y,
                    py,
                )
            },
            DragVertex::BottomLeft => {
                let dxm = r.c1.x as i128 - model_pt.x as i128;
                let hg = r.height();
                let wd = r.width();
                proof {
                    crate::geom::lemma_mul_bound(
                        dxm as int,
                        hg as int,
                        0x4000_0000_0000_0000,
                        0x4000_0000_0000_0000,
                    );
                }
                let h = sat64(fdiv(dxm * hg as i128, wd as i128));
                let py = sat64(r.c2.y as i128 + h as i128);
                drag_side_swap_vertex(
                    drag_vertex,
                    &DragVertex::TopRight,
                    &mut r.c1.x,
                    &mut r.c2.x,
                    model_pt.x,
                );
                drag_side_swap_vertex(
                    drag_vertex,
                    &DragVertex::TopRight,
                    &mut r.c2.y,
                    &mut r.c1.y,
                    py,
                )
            },
        };
        self.rect.resize(&r);
        new_vtx
    }
}

/// The index of the first handle the pointer catches, scanning the
/// handle list from `i` up.
pub open spec fn first_handle_hit(k: RectKey, p: Point, i: int) -> Option<int>
    decreases 8 - i,
{
    if i < 0 || i >= 8 {
        None
    } else if handle_hit(k, i, p) {
        Some(i)
    } else {
        first_handle_hit(k, p, i + 1)
    }
}

/// What part of a selection box the pointer at `p` is over: the
/// precise handle tests first — resize handles, then rotation
/// handles — and the box body only after them.
pub open spec fn box_hover_spec(k: RectKey, p: Point) -> Option<BoxHover> {
    if first_handle_hit(k, p, 0) is Some {
        Some(BoxHover::Drag(handle_of_index(first_handle_hit(k, p, 0)->0)))
    } else if rotate_hit(k, p) {
        Some(BoxHover::RotateVert)
    } else if rr_contains(k, p) {
        Some(BoxHover::Rect)
    } else {
        None
    }
}

/// The angle, in canonical degrees, from the box center of placement
/// `k` to the pointer at `p`.
pub open spec fn rotate_angle_spec(k: RectKey, p: Point) -> int {
    let c = rr_center(k);
    angle_of_spec(crate::geom::pt_minus(p, c).x as int, crate::geom::pt_minus(p, c).y as int)
}

impl Selection {
    /// The eight drag-handle positions: the four transformed corners,
    /// then the four edge midpoints.
    pub fn get_drag_points(&self) -> (v: Vec<Point>)
        requires
            sel_ok(*self),
        ensures
            v@.len() == 8,
            forall|i: int|
                #![trigger v@[i]]
                0 <= i < 8 ==> v@[i] == handle_point(key_of(self.rect), i) && pt_ok(v@[i]),
    {
        let c = self.rect.verts();
        let mut v: Vec<Point> = Vec::new();
        v.push(c[0]);
        v.push(c[1]);
        v.push(c[2]);
        v.push(c[3]);
        v.push(c[0].midpoint(&c[1]));
        v.push(c[1].midpoint(&c[2]));
        v.push(c[2].midpoint(&c[3]));
        v.push(c[3].midpoint(&c[0]));
        v
    }

    /// The first resize handle the pointer catches, if any.
    pub fn get_drag_vertex(&self, pt: &Point) -> (r: Option<DragVertex>)
        requires
            sel_ok(*self),
            pt_ok(*pt),
        ensures
            r == match first_handle_hit(key_of(self.rect), *pt, 0) {
                Option::Some(i) => Option::Some(handle_of_index(i)),
                Option::None => Option::<DragVertex>::None,
            },
    {
        let points = self.get_drag_points();
        let ghost k = key_of(self.rect);
        let mut i: usize = 0;
        while i < 8
            invariant
                0 <= i <= 8,
                sel_ok(*self),
                pt_ok(*pt),
                k == key_of(self.rect),
                points@.len() == 8,
                forall|j: int|
                    #![trigger points@[j]]
                    0 <= j < 8 ==> points@[j] == handle_point(k, j) && pt_ok(points@[j]),
                first_handle_hit(k, *pt, 0) == first_handle_hit(k, *pt, i as int),
            decreases 8 - i,
        {
            let d2 = points[i].dist_sq(pt);
            if d2 < (MIN_CORNER_DIST * MIN_CORNER_DIST) as i128 {
                return Some(handle_of_index_x(i));
            }
            i = i + 1;
        }
        None
    }

    /// The four rotation-handle positions: the corners of the box
    /// scaled by six fifths about its center.
    pub fn get_rotate_points(&self) -> (v: Vec<Point>)
        requires
            sel_ok(*self),
        ensures
            v@.len() == 4,
            forall|i: int|
                #![trigger v@[i]]
                0 <= i < 4 ==> v@[i] == m2p_spec(
                    transform_of(rotate_key(key_of(self.rect))),
                    unit_corner(i),
                ) && pt_ok(v@[i]),
    {
        let c = self.rect.center();
        let sx = sat64(fdiv(self.rect.size.x as i128 * 6, 5));
        let sy = sat64(fdiv(self.rect.size.y as i128 * 6, 5));
        let size2 = Point { x: if sx < 1 { 1 } else { sx }, y: if sy < 1 { 1 } else { sy } };
        let mut r2 = self.rect;
        r2.set_size(&size2);
        r2.set_center(&c);
        proof {
            assert(key_of(r2) == rotate_key(key_of(self.rect)));
        }
        r2.verts()
    }

    /// Whether the pointer catches one of the rotation handles.
    pub fn is_hover_rotate(&self, pt: &Point) -> (r: bool)
        requires
            sel_ok(*self),
            pt_ok(*pt),
        ensures
            r == rotate_hit(key_of(self.rect), *pt),
    {
        let points = self.get_rotate_points();
        let ghost k = key_of(self.rect);
        let mut i: usize = 0;
        while i < 4
            invariant
                0 <= i <= 4,
                sel_ok(*self),
                pt_ok(*pt),
                k == key_of(self.rect),
                points@.len() == 4,
                forall|j: int|
                    #![trigger points@[j]]
                    0 <= j < 4 ==> points@[j] == m2p_spec(
                        transform_of(rotate_key(k)),
                        unit_corner(j),
                    ) && pt_ok(points@[j]),
                forall|j: int|
                    0 <= j < i ==> {
                        let h = m2p_spec(transform_of(rotate_key(k)), #[trigger] unit_corner(j));
                        (h.x - pt.x) * (h.x - pt.x) + (h.y - pt.y) * (h.y - pt.y)
                            >= ROTATE_HANDLE_DIST as int * ROTATE_HANDLE_DIST as int
                    },
            decreases 4 - i,
        {
            let d2 = points[i].dist_sq(pt);
            if d2 < (ROTATE_HANDLE_DIST * ROTATE_HANDLE_DIST) as i128 {
                return true;
            }
            i = i + 1;
        }
        false
    }

    /// The angle, in canonical degrees, from the box center to the
    /// pointer: the rotation gesture applies differences of this.
    pub fn get_rotate_angle(&self, pt: &Point) -> (r: i64)
        requires
            sel_ok(*self),
            pt_ok(*pt),
        ensures
            r as int == rotate_angle_spec(key_of(self.rect), *pt),
            0 <= r < 360,
    {
        let c = self.rect.center();
        let d = pt.minus(&c);
        angle_of(d.x, d.y)
    }

    /// What part of the selection box the pointer is over, if any.
    /// The precise handle tests run first, so a handle can be grabbed
    /// from inside the box body too.
    pub fn get_hover(&self, p: &Point) -> (r: Option<BoxHover>)
        requires
            sel_ok(*self),
            pt_ok(*p),
        ensures
            r == box_hover_spec(key_of(self.rect), *p),
    {
        if let Some(v) = self.get_drag_vertex(p) {
            Some(BoxHover::Drag(v))
        } else if self.is_hover_rotate(p) {
            Some(BoxHover::RotateVert)
        } else if self.in_bounds(p) {
            Some(BoxHover::Rect)
        } else {
            None
        }
    }
}

/// The handle at position `i` of the handle list.
pub fn handle_of_index_x(i: usize) -> (r: DragVertex)
    requires
        i < 8,
    ensures
        r == handle_of_index(i as int),
{
    match i {
        0 => DragVertex::TopLeft,
        1 => DragVertex::TopRight,
        2 => DragVertex::BottomRight,
        3 => DragVertex::BottomLeft,
        4 => DragVertex::TopCenter,
        5 => DragVertex::Right,
        6 => DragVertex::BottomCenter,
        _ => DragVertex::Left,
    }
}

/// What part of a selected line the pointer at `p` is over: the
/// endpoints first, then the stroked segment.
pub open spec fn line_hover_spec(l: DrawLine, p: Point) -> Option<LineHover> {
    let d1 = (l.p1.x - p.x) * (l.p1.x - p.x) + (l.p1.y - p.y) * (l.p1.y - p.y);
    let d2 = (l.p2.x - p.x) * (l.p2.x - p.x) + (l.p2.y - p.y) * (l.p2.y - p.y);
    if d1 <= MIN_VERT_DIST as int * MIN_VERT_DIST as int {
        Some(LineHover::Vertex(LineVertex::P1))
    } else if d2 <= MIN_VERT_DIST as int * MIN_VERT_DIST as int {
        Some(LineHover::Vertex(LineVertex::P2))
    } else if crate::shapes::line_hit(l, p) {
        Some(LineHover::Line)
    } else {
        None
    }
}

/// The selection overlay of a line shape: a snapshot of the line with
/// its two endpoint handles.
#[derive(Clone, Copy, Debug, PartialEq, Eq, Structural)]
pub struct SelectLine {
    pub line: DrawLine,
}

impl SelectLine {
    pub fn new(p1: Point, p2: Point) -> (s: SelectLine)
        requires
            pt_ok(p1),
            pt_ok(p2),
        ensures
            s.line == (DrawLine {
                p1,
                p2,
                line_width: 3,
                color: crate::shapes::Color { r: 0, g: 0, b: 0 },
            }),
            line_ok(s.line),
    {
        SelectLine {
            line: DrawLine::new(p1, p2, 3, crate::shapes::Color { r: 0, g: 0, b: 0 }),
        }
    }

    /// Snapshot of an existing line shape.
    pub fn from_line(l: &DrawLine) -> (s: SelectLine)
        requires
            line_ok(*l),
        ensures
            s.line == *l,
    {
        SelectLine { line: *l }
    }

    /// Translate the overlay by `off`.
    pub fn drag(&mut self, off: &Point)
        requires
            line_ok(old(self).line),
        ensures
            final(self).line == (DrawLine {
                p1: crate::geom::pt_plus(old(self).line.p1, *off),
                p2: crate::geom::pt_plus(old(self).line.p2, *off),
                ..old(self).line
            }),
            line_ok(final(self).line),
    {
        self.line.drag(off);
    }

    /// Move one endpoint to `pt`.
    pub fn drag_vertex(&mut self, v: &LineVertex, pt: &Point)
        requires
            line_ok(old(self).line),
            pt_ok(*pt),
        ensures
            *v is P1 ==> final(self).line == (DrawLine { p1: *pt, ..old(self).line }),
            *v is P2 ==> final(self).line == (DrawLine { p2: *pt, ..old(self).line }),
            line_ok(final(self).line),
    {
        self.line.drag_vertex(v, pt);
    }

    /// Whether the pointer is on the stroked segment.
    pub fn in_bounds(&self, p: &Point) -> (r: bool)
        requires
            line_ok(self.line),
            pt_ok(*p),
        ensures
            r == crate::shapes::line_hit(self.line, *p),
    {
        self.line.in_bounds(p)
    }

    /// What part of the overlay the pointer is over, if any.
    pub fn get_hover(&self, pt: &Point) -> (r: Option<LineHover>)
        requires
            line_ok(self.line),
            pt_ok(*pt),
        ensures
            r == line_hover_spec(self.line, *pt),
    {
        if self.line.p1.dist_sq(pt) <= (MIN_VERT_DIST * MIN_VERT_DIST) as i128 {
            Some(LineHover::Vertex(LineVertex::P1))
        } else if self.line.p2.dist_sq(pt) <= (MIN_VERT_DIST * MIN_VERT_DIST) as i128 {
            Some(LineHover::Vertex(LineVertex::P2))
        } else if self.line.in_bounds(pt) {
            Some(LineHover::Line)
        } else {
            None
        }
    }
}

/// Resizing never produces a degenerate placement: whatever model
/// rectangle a drag yields, both sides of the new size stay at least
/// one pixel.
pub proof fn lemma_resize_never_degenerate(k: RectKey, mr: Rect)
    ensures
        resize_spec(k, mr).size.x >= 1,
        resize_spec(k, mr).size.y >= 1,
{
}

/// The active handle after a drag move is the dragged handle, or its
/// geometric opposite exactly when the move crossed past the opposite
/// edge; the opposite of the opposite is the handle itself.
pub proof fn lemma_crossing_flips_handle(dv: DragVertex, m: Point)
    ensures
        drag_result_vertex(dv, m) == if drag_crossed(dv, m) {
            opposite(dv)
        } else {
            dv
        },
        opposite(opposite(dv)) == dv,
{
}

} // verus!
