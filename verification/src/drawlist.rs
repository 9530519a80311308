//! The draw list: every placed shape keyed by a generated id, held in
//! an explicit back-to-front draw order.  The last entry renders on
//! top and wins picking; clicking a shape moves it to the end of the
//! order, so it renders on top from then on.

use vstd::prelude::*;
use vstd::pervasive::VecAdditionalExecFns;
use crate::geom::{pt_ok, Point, Rect};
use crate::assoc::assoc_has;
use crate::shapes::{shape_hit, shape_ok, shape_touches, DrawLine, DrawPolygon, Shape};

verus! {

/// Identifier of a placed shape.
pub type ShapeID = u32;

/// The shapes on the canvas, in back-to-front draw order.
pub struct DrawList {
    pub shapes: Vec<(ShapeID, Shape)>,
    pub next_id: ShapeID,
}

/// Well-formed draw list: every shape valid, every id unique and
/// below the generator.
pub open spec fn dl_ok(d: DrawList) -> bool {
    &&& forall|i: int|
        #![trigger d.shapes@[i]]
        0 <= i < d.shapes@.len() ==> shape_ok(d.shapes@[i].1) && d.shapes@[i].0 < d.next_id
    &&& forall|i: int, j: int|
        0 <= i < j < d.shapes@.len() ==> (#[trigger] d.shapes@[i].0) != (#[trigger] d.shapes@[j].0)
}

/// Whether `id` is on the list.
pub open spec fn dl_has(d: DrawList, id: ShapeID) -> bool {
    exists|i: int| 0 <= i < d.shapes@.len() && (#[trigger] d.shapes@[i].0) == id
}

/// The index of `id` on the list (unique when `dl_ok` holds).
pub open spec fn dl_index_of(d: DrawList, id: ShapeID) -> int {
    choose|i: int| 0 <= i < d.shapes@.len() && (#[trigger] d.shapes@[i].0) == id
}

/// The shape under `id`, if any.
pub open spec fn dl_get(d: DrawList, id: ShapeID) -> Option<Shape> {
    if dl_has(d, id) {
        Some(d.shapes@[dl_index_of(d, id)].1)
    } else {
        None
    }
}

/// The topmost entry at or below position `i` whose shape is hit by
/// the pointer at `p`, scanning front to back.
pub open spec fn top_hit_from(s: Seq<(ShapeID, Shape)>, p: Point, i: int) -> Option<int>
    decreases i,
{
    if i <= 0 || i > s.len() {
        None
    } else if shape_hit(s[i - 1].1, p) {
        Some(i - 1)
    } else {
        top_hit_from(s, p, i - 1)
    }
}

/// A front-to-back scan that finds a hit always lands inside the
/// list.
pub proof fn lemma_top_hit_bounds(s: Seq<(ShapeID, Shape)>, p: Point, n: int)
    ensures
        top_hit_from(s, p, n) matches Some(i) ==> 0 <= i < s.len() && i < n,
    decreases n,
{
    if n <= 0 || n > s.len() {
    } else if shape_hit(s[n - 1].1, p) {
    } else {
        lemma_top_hit_bounds(s, p, n - 1);
    }
}

/// The polygons of `s` with a pick vertex inside `r`, with their ids,
/// in list order.
pub open spec fn box_polys(s: Seq<(ShapeID, Shape)>, r: Rect) -> Seq<(ShapeID, DrawPolygon)> {
    s.filter(|e: (ShapeID, Shape)| e.1 is Polygon && shape_touches(e.1, r)).map_values(
        |e: (ShapeID, Shape)| (e.0, e.1->Polygon_0),
    )
}

/// The lines of `s` with an endpoint inside `r`, with their ids, in
/// list order.
pub open spec fn box_lines(s: Seq<(ShapeID, Shape)>, r: Rect) -> Seq<(ShapeID, DrawLine)> {
    s.filter(|e: (ShapeID, Shape)| e.1 is Line && shape_touches(e.1, r)).map_values(
        |e: (ShapeID, Shape)| (e.0, e.1->Line_0),
    )
}

impl DrawList {
    pub fn new() -> (d: DrawList)
        ensures
            d.shapes@.len() == 0,
            d.next_id == 0,
            dl_ok(d),
    {
        DrawList { shapes: Vec::new(), next_id: 0 }
    }

    /// Place a shape at the front of the draw order under a fresh id.
    /// Fails only when the id space is exhausted, leaving the list
    /// unchanged.
    pub fn add(&mut self, s: Shape) -> (r: Option<ShapeID>)
        requires
            dl_ok(*old(self)),
            shape_ok(s),
        ensures
            dl_ok(*final(self)),
            old(self).next_id < ShapeID::MAX ==> r == Some(old(self).next_id)
                && final(self).shapes@ == old(self).shapes@.push((old(self).next_id, s))
                && final(self).next_id == old(self).next_id + 1,
            old(self).next_id == ShapeID::MAX ==> r is None && *final(self) == *old(self),
    {
        if self.next_id == ShapeID::MAX {
            return None;
        }
        let id = self.next_id;
        self.shapes.push((id, s));
        self.next_id = self.next_id + 1;
        proof {
            assert forall|i: int, j: int|
                0 <= i < j < self.shapes@.len() implies (#[trigger] self.shapes@[i].0) != (
            #[trigger] self.shapes@[j].0) by {
                if j < self.shapes@.len() - 1 {
                    assert(self.shapes@[i] == old(self).shapes@[i]);
                    assert(self.shapes@[j] == old(self).shapes@[j]);
                } else {
                    assert(self.shapes@[i] == old(self).shapes@[i]);
                    assert(self.shapes@[i].0 < id);
                }
            }
        }
        Some(id)
    }

    /// The shape under `id`, if it is on the list.
    pub fn get(&self, id: ShapeID) -> (r: Option<Shape>)
        requires
            dl_ok(*self),
        ensures
            r == dl_get(*self, id),
    {
        let mut i: usize = 0;
        while i < self.shapes.len()
            invariant
                0 <= i <= self.shapes@.len(),
                dl_ok(*self),
                forall|j: int| 0 <= j < i ==> (#[trigger] self.shapes@[j].0) != id,
            decreases self.shapes@.len() - i,
        {
            let e = self.shapes[i];
            if e.0 == id {
                proof {
                    assert(dl_index_of(*self, id) == i);
                }
                return Some(e.1);
            }
            i = i + 1;
        }
        None
    }

    /// Translate the shape under `id` by `off`; no-op when the id is
    /// absent.
    pub fn drag_shape(&mut self, id: ShapeID, off: &Point)
        requires
            dl_ok(*old(self)),
        ensures
            dl_ok(*final(self)),
            final(self).next_id == old(self).next_id,
            dl_has(*old(self), id) ==> final(self).shapes@ == old(self).shapes@.update(
                dl_index_of(*old(self), id),
                (
                    id,
                    crate::shapes::shape_dragged(
                        old(self).shapes@[dl_index_of(*old(self), id)].1,
                        *off,
                    ),
                ),
            ),
            !dl_has(*old(self), id) ==> *final(self) == *old(self),
    {
        let n = self.shapes.len();
        let mut i: usize = 0;
        while i < n
            invariant
                0 <= i <= n,
                n == self.shapes@.len(),
                dl_ok(*self),
                *self == *old(self),
                forall|j: int| 0 <= j < i ==> (#[trigger] self.shapes@[j].0) != id,
            decreases n - i,
        {
            if self.shapes[i].0 == id {
                let mut e = self.shapes[i];
                e.1.drag(off);
                self.shapes.set(i, e);
                proof {
                    assert(dl_index_of(*old(self), id) == i);
                }
                return ;
            }
            i = i + 1;
        }
    }

    /// Replace the placement of the polygon under `id`; no-op when the
    /// id is absent or the shape is a line.
    pub fn set_shape_rect(&mut self, id: ShapeID, r: &crate::transform::RotateRect)
        requires
            dl_ok(*old(self)),
            crate::transform::rr_ok(*r),
        ensures
            dl_ok(*final(self)),
            final(self).next_id == old(self).next_id,
            final(self).shapes@.len() == old(self).shapes@.len(),
            forall|j: int|
                0 <= j < old(self).shapes@.len() && (#[trigger] old(self).shapes@[j].0) != id
                    ==> final(self).shapes@[j] == old(self).shapes@[j],
            forall|j: int|
                0 <= j < old(self).shapes@.len() && (#[trigger] old(self).shapes@[j].0) == id ==> {
                    &&& final(self).shapes@[j].0 == id
                    &&& (old(self).shapes@[j].1 is Polygon ==> (final(self).shapes@[j].1
                        matches Shape::Polygon(dp) && dp.rect == *r && dp.prim == old(self).shapes@[j].1->Polygon_0.prim && dp.fill == old(self).shapes@[j].1->Polygon_0.fill && dp.color == old(self).shapes@[j].1->Polygon_0.color))
                    &&& (old(self).shapes@[j].1 is Line ==> final(self).shapes@[j] == old(self).shapes@[j])
                },
    {
        let n = self.shapes.len();
        let mut i: usize = 0;
        while i < n
            invariant
                0 <= i <= n,
                n == self.shapes@.len(),
                dl_ok(*self),
                crate::transform::rr_ok(*r),
                *self == *old(self),
                forall|j: int| 0 <= j < i ==> (#[trigger] self.shapes@[j].0) != id,
            decreases n - i,
        {
            if self.shapes[i].0 == id {
                let mut e = self.shapes[i];
                e.1.set_rect(r);
                self.shapes.set(i, e);
                return ;
            }
            i = i + 1;
        }
    }

    /// Move one endpoint of the line under `id`; no-op when the id is
    /// absent or the shape is a polygon.
    pub fn drag_shape_vertex(
        &mut self,
        id: ShapeID,
        v: &crate::shapes::LineVertex,
        pt: &Point,
    )
        requires
            dl_ok(*old(self)),
            pt_ok(*pt),
        ensures
            dl_ok(*final(self)),
            final(self).next_id == old(self).next_id,
            final(self).shapes@.len() == old(self).shapes@.len(),
            forall|j: int|
                0 <= j < old(self).shapes@.len() && (#[trigger] old(self).shapes@[j].0) != id
                    ==> final(self).shapes@[j] == old(self).shapes@[j],
            forall|j: int|
                0 <= j < old(self).shapes@.len() && (#[trigger] old(self).shapes@[j].0) == id ==> {
                    &&& final(self).shapes@[j].0 == id
                    &&& (old(self).shapes@[j].1 matches Shape::Line(l) ==> ((*v is P1 ==> final(self).shapes@[j].1 == Shape::Line(DrawLine { p1: *pt, ..l })) && (*v is P2
                        ==> final(self).shapes@[j].1 == Shape::Line(DrawLine { p2: *pt, ..l }))))
                    &&& (old(self).shapes@[j].1 is Polygon ==> final(self).shapes@[j] == old(self).shapes@[j])
                },
    {
        let n = self.shapes.len();
        let mut i: usize = 0;
        while i < n
            invariant
                0 <= i <= n,
                n == self.shapes@.len(),
                dl_ok(*self),
                pt_ok(*pt),
                *self == *old(self),
                forall|j: int| 0 <= j < i ==> (#[trigger] self.shapes@[j].0) != id,
            decreases n - i,
        {
            if self.shapes[i].0 == id {
                let mut e = self.shapes[i];
                e.1.drag_vertex(v, pt);
                self.shapes.set(i, e);
                return ;
            }
            i = i + 1;
        }
    }

    /// Remove the shape under `id`; no-op when the id is absent.
    pub fn remove(&mut self, id: ShapeID)
        requires
            dl_ok(*old(self)),
        ensures
            dl_ok(*final(self)),
            final(self).next_id == old(self).next_id,
            dl_has(*old(self), id) ==> final(self).shapes@ == old(self).shapes@.remove(
                dl_index_of(*old(self), id),
            ),
            !dl_has(*old(self), id) ==> *final(self) == *old(self),
            !dl_has(*final(self), id),
            forall|o: ShapeID|
                #![trigger dl_has(*final(self), o)]
                #![trigger dl_get(*final(self), o)]
                o != id ==> dl_has(*final(self), o) == dl_has(*old(self), o) && dl_get(
                    *final(self),
                    o,
                ) == dl_get(*old(self), o),
    {
        let n = self.shapes.len();
        let mut i: usize = 0;
        while i < n
            invariant
                0 <= i <= n,
                n == self.shapes@.len(),
                dl_ok(*self),
                *self == *old(self),
                forall|j: int| 0 <= j < i ==> (#[trigger] self.shapes@[j].0) != id,
            decreases n - i,
        {
            if self.shapes[i].0 == id {
                proof {
                    assert(dl_index_of(*old(self), id) == i);
                }
                self.shapes.remove(i);
                proof {
                    assert forall|k: int|
                        0 <= k < self.shapes@.len() implies (#[trigger] self.shapes@[k].0) != id
                        && shape_ok(self.shapes@[k].1) && self.shapes@[k].0 < self.next_id by {
                        if k < i {
                            assert(self.shapes@[k] == old(self).shapes@[k]);
                        } else {
                            assert(self.shapes@[k] == old(self).shapes@[k + 1]);
                        }
                    }
                    assert forall|a: int, b: int|
                        0 <= a < b < self.shapes@.len() implies (#[trigger] self.shapes@[a].0) != (
                    #[trigger] self.shapes@[b].0) by {
                        if b < i {
                            assert(self.shapes@[a] == old(self).shapes@[a]);
                            assert(self.shapes@[b] == old(self).shapes@[b]);
                        } else if a < i {
                            assert(self.shapes@[a] == old(self).shapes@[a]);
                            assert(self.shapes@[b] == old(self).shapes@[b + 1]);
                        } else {
                            assert(self.shapes@[a] == old(self).shapes@[a + 1]);
                            assert(self.shapes@[b] == old(self).shapes@[b + 1]);
                        }
                    }
                    assert forall|o: ShapeID|
                        #![trigger dl_has(*self, o)]
                        #![trigger dl_get(*self, o)]
                        o != id implies dl_has(*self, o) == dl_has(*old(self), o) && dl_get(
                            *self,
                            o,
                        ) == dl_get(*old(self), o) by {
                        if dl_has(*old(self), o) {
                            let j = dl_index_of(*old(self), o);
                            assert(old(self).shapes@[j].0 == o);
                            if j < i {
                                assert(self.shapes@[j] == old(self).shapes@[j]);
                                assert(dl_has(*self, o));
                                assert(dl_index_of(*self, o) == j);
                            } else {
                                assert(self.shapes@[j - 1] == old(self).shapes@[j]);
                                assert(dl_has(*self, o));
                                assert(dl_index_of(*self, o) == j - 1);
                            }
                        }
                        if dl_has(*self, o) {
                            let k = dl_index_of(*self, o);
                            if k < i {
                                assert(self.shapes@[k] == old(self).shapes@[k]);
                            } else {
                                assert(self.shapes@[k] == old(self).shapes@[k + 1]);
                            }
                            assert(dl_has(*old(self), o));
                        }
                    }
                }
                return ;
            }
            i = i + 1;
        }
    }

    /// Pick the topmost shape under the pointer, scanning the draw
    /// order front to back; on a hit, move that shape to the end of
    /// the order so it renders on top and keeps picking priority.
    pub fn click_shape(&mut self, p: &Point) -> (r: Option<ShapeID>)
        requires
            dl_ok(*old(self)),
            pt_ok(*p),
        ensures
            dl_ok(*final(self)),
            final(self).next_id == old(self).next_id,
            ({
                let hit = top_hit_from(old(self).shapes@, *p, old(self).shapes@.len() as int);
                match hit {
                    Some(i) => r == Some(old(self).shapes@[i].0) && final(self).shapes@ == old(self).shapes@.remove(i).push(old(self).shapes@[i]),
                    None => r is None && *final(self) == *old(self),
                }
            }),
    {
        let n = self.shapes.len();
        let mut i: usize = n;
        while i > 0
            invariant
                0 <= i <= n,
                n == self.shapes@.len(),
                dl_ok(*self),
                pt_ok(*p),
                *self == *old(self),
                top_hit_from(self.shapes@, *p, n as int) == top_hit_from(
                    self.shapes@,
                    *p,
                    i as int,
                ),
            decreases i,
        {
            let e = self.shapes[i - 1];
            if e.1.in_bounds(p) {
                self.shapes.remove(i - 1);
                self.shapes.push(e);
                proof {
                    let s0 = old(self).shapes@;
                    assert(top_hit_from(s0, *p, i as int) == Some(i - 1));
                    assert forall|k: int|
                        0 <= k < self.shapes@.len() implies shape_ok(
                        #[trigger] self.shapes@[k].1,
                    ) && self.shapes@[k].0 < self.next_id by {
                        if k < i - 1 {
                            assert(self.shapes@[k] == s0[k]);
                        } else if k < self.shapes@.len() - 1 {
                            assert(self.shapes@[k] == s0[k + 1]);
                        } else {
                            assert(self.shapes@[k] == s0[i - 1]);
                        }
                    }
                    assert forall|a: int, b: int|
                        0 <= a < b < self.shapes@.len() implies (#[trigger] self.shapes@[a].0) != (
                    #[trigger] self.shapes@[b].0) by {
                        let m = s0.remove(i - 1);
                        if b < self.shapes@.len() - 1 {
                            if a < i - 1 && b < i - 1 {
                                assert(s0[a].0 != s0[b].0);
                            } else if a < i - 1 {
                                assert(m[b] == s0[b + 1]);
                            } else {
                                assert(m[a] == s0[a + 1] && m[b] == s0[b + 1]);
                            }
                        } else {
                            assert(self.shapes@[b] == s0[i - 1]);
                            if a < i - 1 {
                                assert(self.shapes@[a] == s0[a]);
                            } else {
                                assert(self.shapes@[a] == s0[a + 1]);
                            }
                        }
                    }
                }
                return Some(e.0);
            }
            i = i - 1;
        }
        None
    }

    /// The polygons and lines with a pick vertex inside the query box:
    /// touching one corner is enough for box selection.
    pub fn get_box_selection(&self, r: &Rect) -> (res: (
        Vec<(ShapeID, DrawPolygon)>,
        Vec<(ShapeID, DrawLine)>,
    ))
        requires
            dl_ok(*self),
        ensures
            res.0@ == box_polys(self.shapes@, *r),
            res.1@ == box_lines(self.shapes@, *r),
    {
        let mut v0: Vec<(ShapeID, DrawPolygon)> = Vec::new();
        let mut v1: Vec<(ShapeID, DrawLine)> = Vec::new();
        let n = self.shapes.len();
        let mut i: usize = 0;
        proof {
            
            assert(self.shapes@.subrange(0, 0) =~= Seq::<(ShapeID, Shape)>::empty());
            reveal_with_fuel(vstd::seq::Seq::<_>::filter, 2);
        }
        while i < n
            invariant
                0 <= i <= n,
                n == self.shapes@.len(),
                dl_ok(*self),
                v0@ == box_polys(self.shapes@.subrange(0, i as int), *r),
                v1@ == box_lines(self.shapes@.subrange(0, i as int), *r),
            decreases n - i,
        {
            let e = self.shapes[i];
            let ghost pre = self.shapes@.subrange(0, i as int);
            let ghost post = self.shapes@.subrange(0, i as int + 1);
            let touches = e.1.in_select_box(r);
            match e.1 {
                Shape::Polygon(dp) => {
                    if touches {
                        v0.push((e.0, dp));
                    }
                },
                Shape::Line(l) => {
                    if touches {
                        v1.push((e.0, l));
                    }
                },
            }
            proof {
                assert(post.drop_last() =~= pre);
                assert(post.last() == self.shapes@[i as int]);
                reveal_with_fuel(vstd::seq::Seq::<_>::filter, 2);
                assert(v0@ =~= box_polys(post, *r));
                assert(v1@ =~= box_lines(post, *r));
            }
            i = i + 1;
        }
        proof {
            assert(self.shapes@.subrange(0, n as int) =~= self.shapes@);
        }
        (v0, v1)
    }
}

/// Picking favors the most recently drawn shape: the entry a front-to-
/// back scan finds is hit, and every entry drawn later (closer to the
/// front) is not; when the scan finds nothing, no entry is hit.
pub proof fn lemma_pick_topmost(s: Seq<(ShapeID, Shape)>, p: Point, n: int)
    requires
        n <= s.len(),
    ensures
        top_hit_from(s, p, n) matches Some(i) ==> shape_hit(s[i].1, p) && forall|j: int|
            i < j < n ==> !shape_hit(#[trigger] s[j].1, p),
        top_hit_from(s, p, n) is None ==> forall|j: int|
            0 <= j < n ==> !shape_hit(#[trigger] s[j].1, p),
    decreases n,
{
    if n <= 0 {
    } else if shape_hit(s[n - 1].1, p) {
        lemma_top_hit_bounds(s, p, n);
    } else {
        lemma_pick_topmost(s, p, n - 1);
    }
}

impl DrawList {
    /// The drawing requests of every shape, in back-to-front draw
    /// order: the render pass hands these to the rendering
    /// collaborator one by one.
    pub fn render_commands(&self) -> (v: Vec<crate::shapes::DrawCmd>)
        ensures
            v@.len() == self.shapes@.len(),
            forall|i: int|
                #![trigger v@[i]]
                0 <= i < v@.len() ==> v@[i] == crate::shapes::cmd_of(self.shapes@[i].1),
    {
        let n = self.shapes.len();
        let mut v: Vec<crate::shapes::DrawCmd> = Vec::new();
        let mut i: usize = 0;
        while i < n
            invariant
                0 <= i <= n,
                n == self.shapes@.len(),
                v@.len() == i,
                forall|j: int|
                    #![trigger v@[j]]
                    0 <= j < i ==> v@[j] == crate::shapes::cmd_of(self.shapes@[j].1),
            decreases n - i,
        {
            let c = self.shapes[i].1.to_cmd();
            v.push(c);
            i = i + 1;
        }
        v
    }
}

/// Whether a draw-list entry survives a deletion of the current
/// selection: its id is on neither selection map.
pub open spec fn survives<A, B>(
    sel: Seq<(u32, A)>,
    lines: Seq<(u32, B)>,
    e: (ShapeID, Shape),
) -> bool {
    !assoc_has(sel, e.0) && !assoc_has(lines, e.0)
}

/// The draw-list entries that survive a deletion of the current
/// selection, in their old order.
pub open spec fn surviving_shapes<A, B>(
    sel: Seq<(u32, A)>,
    lines: Seq<(u32, B)>,
    s: Seq<(ShapeID, Shape)>,
) -> Seq<(ShapeID, Shape)> {
    s.filter(|e: (ShapeID, Shape)| survives(sel, lines, e))
}

/// Extending the scanned prefix by one entry extends the survivors by
/// that entry exactly when it survives.
pub proof fn lemma_surviving_step<A, B>(
    sel: Seq<(u32, A)>,
    lines: Seq<(u32, B)>,
    s: Seq<(ShapeID, Shape)>,
    i: int,
)
    requires
        0 <= i < s.len(),
    ensures
        surviving_shapes(sel, lines, s.subrange(0, i + 1)) == if survives(sel, lines, s[i]) {
            surviving_shapes(sel, lines, s.subrange(0, i)).push(s[i])
        } else {
            surviving_shapes(sel, lines, s.subrange(0, i))
        },
{
    let pre = s.subrange(0, i);
    let post = s.subrange(0, i + 1);
    assert(post.drop_last() =~= pre);
    assert(post.last() == s[i]);
    reveal_with_fuel(vstd::seq::Seq::<_>::filter, 2);
    if survives(sel, lines, s[i]) {
        assert(surviving_shapes(sel, lines, post) =~= surviving_shapes(sel, lines, pre).push(
            s[i],
        ));
    } else {
        assert(surviving_shapes(sel, lines, post) =~= surviving_shapes(sel, lines, pre));
    }
}

/// Whether `e` occurs somewhere on `kept`.
pub open spec fn appears(kept: Seq<(ShapeID, Shape)>, e: (ShapeID, Shape)) -> bool {
    exists|k: int| 0 <= k < kept.len() && (#[trigger] kept[k]) == e
}

/// Whether entry `k` of `kept` comes from the first `n` entries of
/// `s`.
pub open spec fn from_prefix(
    kept: Seq<(ShapeID, Shape)>,
    s: Seq<(ShapeID, Shape)>,
    k: int,
    n: int,
) -> bool {
    exists|jj: int| 0 <= jj < n && kept[k] == (#[trigger] s[jj])
}

/// One step of collecting the survivors keeps every collected entry a
/// member of the scanned prefix, with ids pairwise distinct.
pub proof fn lemma_keep_step(
    s: Seq<(ShapeID, Shape)>,
    i: int,
    kept0: Seq<(ShapeID, Shape)>,
    kept1: Seq<(ShapeID, Shape)>,
    pushed: bool,
)
    requires
        0 <= i < s.len(),
        forall|a: int, b: int| 0 <= a < b < s.len() ==> (#[trigger] s[a].0) != (#[trigger] s[b].0),
        pushed ==> kept1 == kept0.push(s[i]),
        !pushed ==> kept1 == kept0,
        forall|k: int|
            #![trigger from_prefix(kept0, s, k, i)]
            0 <= k < kept0.len() ==> from_prefix(kept0, s, k, i),
        forall|a: int, b: int|
            0 <= a < b < kept0.len() ==> (#[trigger] kept0[a].0) != (#[trigger] kept0[b].0),
    ensures
        forall|k: int|
            #![trigger from_prefix(kept1, s, k, i + 1)]
            0 <= k < kept1.len() ==> from_prefix(kept1, s, k, i + 1),
        forall|a: int, b: int|
            0 <= a < b < kept1.len() ==> (#[trigger] kept1[a].0) != (#[trigger] kept1[b].0),
{
    assert forall|k: int|
        #![trigger from_prefix(kept1, s, k, i + 1)]
        0 <= k < kept1.len() implies from_prefix(kept1, s, k, i + 1) by {
        if k < kept0.len() {
            assert(from_prefix(kept0, s, k, i));
            let jj = choose|jj: int| 0 <= jj < i && kept0[k] == (#[trigger] s[jj]);
            assert(kept1[k] == kept0[k]);
            assert(0 <= jj < i + 1 && kept1[k] == s[jj]);
        } else {
            assert(0 <= i < i + 1 && kept1[k] == s[i]);
        }
    }
    assert forall|a: int, b: int|
        0 <= a < b < kept1.len() implies (#[trigger] kept1[a].0) != (#[trigger] kept1[b].0) by {
        if b < kept0.len() {
            assert(kept1[a] == kept0[a] && kept1[b] == kept0[b]);
        } else {
            assert(kept1[a] == kept0[a]);
            assert(from_prefix(kept0, s, a, i));
            let jj = choose|jj: int| 0 <= jj < i && kept0[a] == (#[trigger] s[jj]);
            assert(s[jj].0 != s[i].0);
        }
    }
}

/// One step of collecting the survivors keeps every surviving prefix
/// entry collected.
pub proof fn lemma_complete_step<A, B>(
    sel: Seq<(u32, A)>,
    lines: Seq<(u32, B)>,
    s: Seq<(ShapeID, Shape)>,
    i: int,
    kept0: Seq<(ShapeID, Shape)>,
    kept1: Seq<(ShapeID, Shape)>,
    pushed: bool,
)
    requires
        0 <= i < s.len(),
        pushed == survives(sel, lines, s[i]),
        pushed ==> kept1 == kept0.push(s[i]),
        !pushed ==> kept1 == kept0,
        forall|jj: int|
            #![trigger survives(sel, lines, s[jj])]
            0 <= jj < i && survives(sel, lines, s[jj]) ==> appears(kept0, s[jj]),
    ensures
        forall|jj: int|
            #![trigger survives(sel, lines, s[jj])]
            0 <= jj < i + 1 && survives(sel, lines, s[jj]) ==> appears(kept1, s[jj]),
{
    assert forall|jj: int|
        #![trigger survives(sel, lines, s[jj])]
        0 <= jj < i + 1 && survives(sel, lines, s[jj]) implies appears(kept1, s[jj]) by {
        if jj < i {
            assert(appears(kept0, s[jj]));
            let k = choose|k: int| 0 <= k < kept0.len() && (#[trigger] kept0[k]) == s[jj];
            assert(kept1[k] == kept0[k]);
            assert(0 <= k < kept1.len() && kept1[k] == s[jj]);
        } else {
            assert(kept1[kept1.len() - 1] == s[i]);
        }
    }
}

/// A collected survivor list answers every id lookup: selected ids
/// are gone, every other id answers as before.
pub proof fn lemma_retained_lookup<A, B>(
    sel: Seq<(u32, A)>,
    lines: Seq<(u32, B)>,
    d0: DrawList,
    d1: DrawList,
)
    requires
        dl_ok(d0),
        d1.next_id == d0.next_id,
        forall|k: int|
            #![trigger from_prefix(d1.shapes@, d0.shapes@, k, d0.shapes@.len() as int)]
            0 <= k < d1.shapes@.len() ==> from_prefix(
                d1.shapes@,
                d0.shapes@,
                k,
                d0.shapes@.len() as int,
            ),
        forall|jj: int|
            #![trigger survives(sel, lines, d0.shapes@[jj])]
            0 <= jj < d0.shapes@.len() && survives(sel, lines, d0.shapes@[jj]) ==> appears(
                d1.shapes@,
                d0.shapes@[jj],
            ),
        forall|a: int, b: int|
            0 <= a < b < d1.shapes@.len() ==> (#[trigger] d1.shapes@[a].0) != (
            #[trigger] d1.shapes@[b].0),
        forall|k: int|
            #![trigger d1.shapes@[k]]
            0 <= k < d1.shapes@.len() ==> survives(sel, lines, d1.shapes@[k]),
    ensures
        forall|o: ShapeID|
            #![trigger dl_get(d1, o)]
            dl_get(d1, o) == if assoc_has(sel, o) || assoc_has(lines, o) {
                None::<Shape>
            } else {
                dl_get(d0, o)
            },
{
    assert forall|o: ShapeID|
        #![trigger dl_get(d1, o)]
        dl_get(d1, o) == (if assoc_has(sel, o) || assoc_has(lines, o) {
            None::<Shape>
        } else {
            dl_get(d0, o)
        }) by {
        if assoc_has(sel, o) || assoc_has(lines, o) {
            if dl_has(d1, o) {
                let k = dl_index_of(d1, o);
                assert(d1.shapes@[k].0 == o);
            }
        } else {
            if dl_has(d0, o) {
                let j = dl_index_of(d0, o);
                assert(d0.shapes@[j].0 == o);
                assert(survives(sel, lines, d0.shapes@[j]));
                assert(appears(d1.shapes@, d0.shapes@[j]));
                let k = choose|k: int|
                    0 <= k < d1.shapes@.len() && (#[trigger] d1.shapes@[k]) == d0.shapes@[j];
                assert(dl_has(d1, o));
                assert(dl_index_of(d1, o) == k);
            } else {
                if dl_has(d1, o) {
                    let k = dl_index_of(d1, o);
                    assert(d1.shapes@[k].0 == o);
                    assert(from_prefix(d1.shapes@, d0.shapes@, k, d0.shapes@.len() as int));
                    let jj = choose|jj: int|
                        0 <= jj < d0.shapes@.len() && d1.shapes@[k] == (#[trigger] d0.shapes@[jj]);
                    assert(dl_has(d0, o));
                }
            }
        }
    }
}

} // verus!
