//! Geometry primitives: saturating fixed-point scalars, points and
//! axis-aligned rectangles.
//!
//! Every coordinate is an `i64` confined to `[-COORD_MAX, COORD_MAX]`
//! by saturation, so that any product of two coordinates, and any sum
//! of a few such products, still fits an `i128` intermediate.

use vstd::prelude::*;
use vstd::arithmetic::div_mod::*;

verus! {

/// Largest magnitude a coordinate can take; every narrowing operation
/// saturates into `[-COORD_MAX, COORD_MAX]`.  The bound is small
/// enough that any fourth-degree term in two coordinates still fits an
/// `i128` intermediate.
pub const COORD_MAX: i64 = 0x1fff_ffff;

/// What `sat64` computes: `v` clipped into `[-COORD_MAX, COORD_MAX]`.
pub open spec fn clip(v: int) -> int {
    if v > COORD_MAX as int {
        COORD_MAX as int
    } else if v < -(COORD_MAX as int) {
        -(COORD_MAX as int)
    } else {
        v
    }
}

/// Narrow an `i128` intermediate to a coordinate, saturating.
pub fn sat64(v: i128) -> (r: i64)
    ensures
        r as int == clip(v as int),
{
    if v > COORD_MAX as i128 {
        COORD_MAX
    } else if v < -(COORD_MAX as i128) {
        -COORD_MAX
    } else {
        v as i64
    }
}

proof fn lemma_div_unique(a: int, b: int, q: int, r: int)
    by (nonlinear_arith)
    requires
        b > 0,
        a == b * q + r,
        0 <= r < b,
    ensures
        q == a / b,
        r == a % b,
{
    lemma_fundamental_div_mod(a, b);
    let q2 = a / b;
    let r2 = a % b;
    assert(b * q + r == b * q2 + r2);
}

/// Magnitude bound of a product from magnitude bounds of the factors.
pub proof fn lemma_mul_bound(a: int, b: int, ab: int, bb: int)
    by (nonlinear_arith)
    requires
        -ab <= a <= ab,
        -bb <= b <= bb,
        0 <= ab,
        0 <= bb,
    ensures
        -(ab * bb) <= a * b <= ab * bb,
{
}

/// Dividing by a positive divisor never grows a value's magnitude.
pub proof fn lemma_div_mag(a: int, b: int)
    requires
        b >= 1,
    ensures
        0 <= a ==> 0 <= a / b <= a,
        a < 0 ==> a <= a / b <= 0,
{
    lemma_fundamental_div_mod(a, b);
    lemma_mod_bound(a, b);
    let q = a / b;
    let r = a % b;
    assert((0 <= a ==> 0 <= q <= a) && (a < 0 ==> a <= q <= 0)) by (nonlinear_arith)
        requires
            a == b * q + r,
            0 <= r < b,
            b >= 1,
    ;
}

/// A quotient bound from a scaled bound on the dividend.
pub proof fn lemma_div_bound_by(a: int, b: int, n: int)
    requires
        b >= 1,
        n >= 0,
        -(n * b) <= a <= n * b,
    ensures
        -n <= a / b <= n,
{
    assert(b * n == n * b) by (nonlinear_arith);
    assert(b * (-n) == -(n * b)) by (nonlinear_arith);
    lemma_div_multiples_vanish(n, b);
    lemma_div_multiples_vanish(-n, b);
    lemma_div_is_ordered(a, n * b, b);
    lemma_div_is_ordered(-(n * b), a, b);
}

/// Floor division of an `i128` by a positive divisor: rounds toward
/// negative infinity, matching `/` on `int`.
pub fn fdiv(a: i128, b: i128) -> (r: i128)
    requires
        b > 0,
        -(i128::MAX as int) <= a as int,
    ensures
        r as int == a as int / b as int,
{
    let q = a / b;
    let m = a % b;
    if m != 0 && a < 0 {
        proof {
            let n = -(a as int);
            lemma_fundamental_div_mod(n, b as int);
            assert(q as int == -(n / (b as int)));
            assert(m as int == -(n % (b as int)));
            let bq = n / (b as int);
            let br = n % (b as int);
            lemma_mod_bound(n, b as int);
            assert(a as int == (b as int) * (-bq - 1) + ((b as int) - br)) by (nonlinear_arith)
                requires
                    n == (b as int) * bq + br,
                    a as int == -n,
            ;
            lemma_div_unique(a as int, b as int, -bq - 1, (b as int) - br);
        }
        q - 1
    } else {
        proof {
            if a >= 0 {
                assert(q as int == a as int / b as int);
            } else {
                let n = -(a as int);
                lemma_fundamental_div_mod(n, b as int);
                assert(q as int == -(n / (b as int)));
                assert(n % (b as int) == 0);
                let bq = n / (b as int);
                assert(a as int == (b as int) * (-bq) + 0) by (nonlinear_arith)
                    requires
                        n == (b as int) * bq,
                        a as int == -n,
                ;
                lemma_div_unique(a as int, b as int, -bq, 0);
            }
        }
        q
    }
}

/// A 2D point or vector in pixel or model coordinates.
#[derive(Clone, Copy, Debug, PartialEq, Eq, Structural)]
pub struct Point {
    pub x: i64,
    pub y: i64,
}

/// Both coordinates within the saturation range.  Every point built by
/// the saturating operations satisfies this.
pub open spec fn pt_ok(p: Point) -> bool {
    -(COORD_MAX as int) <= p.x <= COORD_MAX as int && -(COORD_MAX as int) <= p.y <= COORD_MAX
        as int
}

/// Saturating componentwise sum.
pub open spec fn pt_plus(a: Point, b: Point) -> Point {
    Point { x: clip(a.x + b.x) as i64, y: clip(a.y + b.y) as i64 }
}

/// Saturating componentwise difference.
pub open spec fn pt_minus(a: Point, b: Point) -> Point {
    Point { x: clip(a.x - b.x) as i64, y: clip(a.y - b.y) as i64 }
}

/// Midpoint, rounded toward negative infinity on each axis.
pub open spec fn pt_mid(a: Point, b: Point) -> Point {
    Point { x: clip((a.x + b.x) / 2) as i64, y: clip((a.y + b.y) / 2) as i64 }
}

impl Point {
    pub fn new(x: i64, y: i64) -> (r: Point)
        ensures
            r == (Point { x, y }),
    {
        Point { x, y }
    }

    pub fn origin() -> (r: Point)
        ensures
            r == (Point { x: 0, y: 0 }),
    {
        Point { x: 0, y: 0 }
    }

    /// Componentwise sum, saturating.
    pub fn plus(&self, o: &Point) -> (r: Point)
        ensures
            r == pt_plus(*self, *o),
            pt_ok(r),
    {
        Point { x: sat64(self.x as i128 + o.x as i128), y: sat64(self.y as i128 + o.y as i128) }
    }

    /// Componentwise difference, saturating.
    pub fn minus(&self, o: &Point) -> (r: Point)
        ensures
            r == pt_minus(*self, *o),
            pt_ok(r),
    {
        Point { x: sat64(self.x as i128 - o.x as i128), y: sat64(self.y as i128 - o.y as i128) }
    }

    /// Midpoint of two points, each coordinate rounded toward negative
    /// infinity.
    pub fn midpoint(&self, o: &Point) -> (r: Point)
        ensures
            r == pt_mid(*self, *o),
            pt_ok(r),
    {
        let mx = fdiv(self.x as i128 + o.x as i128, 2);
        let my = fdiv(self.y as i128 + o.y as i128, 2);
        Point { x: sat64(mx), y: sat64(my) }
    }

    /// Squared Euclidean distance, exact.
    pub fn dist_sq(&self, o: &Point) -> (r: i128)
        requires
            pt_ok(*self),
            pt_ok(*o),
        ensures
            r as int == (self.x - o.x) * (self.x - o.x) + (self.y - o.y) * (self.y - o.y),
    {
        let dx = self.x as i128 - o.x as i128;
        let dy = self.y as i128 - o.y as i128;
        proof {
            assert(0 <= dx * dx < 0x4000_0000_0000_0000_0000_0000_0000_0000 as int)
                by (nonlinear_arith)
                requires
                    -(0x8000_0000_0000_0000 as int) < dx < 0x8000_0000_0000_0000 as int,
            ;
            assert(0 <= dy * dy < 0x4000_0000_0000_0000_0000_0000_0000_0000 as int)
                by (nonlinear_arith)
                requires
                    -(0x8000_0000_0000_0000 as int) < dy < 0x8000_0000_0000_0000 as int,
            ;
        }
        dx * dx + dy * dy
    }
}

/// An axis-aligned box stored as two corner points.  The corners are
/// not kept in min/max order: every bounds query normalizes locally.
#[derive(Clone, Copy, Debug, PartialEq, Eq, Structural)]
pub struct Rect {
    pub c1: Point,
    pub c2: Point,
}

/// Smaller of two ints.
pub open spec fn min_i(a: int, b: int) -> int {
    if a < b {
        a
    } else {
        b
    }
}

/// Larger of two ints.
pub open spec fn max_i(a: int, b: int) -> int {
    if a < b {
        b
    } else {
        a
    }
}

/// Whether `p` lies in the normalized bounds of `r`.
pub open spec fn rect_contains(r: Rect, p: Point) -> bool {
    min_i(r.c1.x as int, r.c2.x as int) <= p.x <= max_i(r.c1.x as int, r.c2.x as int)
        && min_i(r.c1.y as int, r.c2.y as int) <= p.y <= max_i(r.c1.y as int, r.c2.y as int)
}

impl Rect {
    pub fn new(c1: Point, c2: Point) -> (r: Rect)
        ensures
            r == (Rect { c1, c2 }),
    {
        Rect { c1, c2 }
    }

    /// Width: absolute difference of the stored x coordinates.
    pub fn width(&self) -> (r: i64)
        ensures
            r as int == clip(max_i(self.c1.x as int, self.c2.x as int) - min_i(
                self.c1.x as int,
                self.c2.x as int,
            )),
    {
        if self.c1.x < self.c2.x {
            sat64(self.c2.x as i128 - self.c1.x as i128)
        } else {
            sat64(self.c1.x as i128 - self.c2.x as i128)
        }
    }

    /// Height: absolute difference of the stored y coordinates.
    pub fn height(&self) -> (r: i64)
        ensures
            r as int == clip(max_i(self.c1.y as int, self.c2.y as int) - min_i(
                self.c1.y as int,
                self.c2.y as int,
            )),
    {
        if self.c1.y < self.c2.y {
            sat64(self.c2.y as i128 - self.c1.y as i128)
        } else {
            sat64(self.c1.y as i128 - self.c2.y as i128)
        }
    }

    /// Center, rounded toward negative infinity on each axis.
    pub fn center(&self) -> (r: Point)
        ensures
            r.x as int == clip((self.c1.x + self.c2.x) / 2),
            r.y as int == clip((self.c1.y + self.c2.y) / 2),
    {
        self.c1.midpoint(&self.c2)
    }

    /// Whether `p` lies inside the box, after normalizing corner order.
    pub fn in_bounds(&self, p: &Point) -> (r: bool)
        ensures
            r == rect_contains(*self, *p),
    {
        let min_x = if self.c1.x < self.c2.x {
            self.c1.x
        } else {
            self.c2.x
        };
        let max_x = if self.c1.x < self.c2.x {
            self.c2.x
        } else {
            self.c1.x
        };
        let min_y = if self.c1.y < self.c2.y {
            self.c1.y
        } else {
            self.c2.y
        };
        let max_y = if self.c1.y < self.c2.y {
            self.c2.y
        } else {
            self.c1.y
        };
        p.x >= min_x && p.x <= max_x && p.y >= min_y && p.y <= max_y
    }
}

} // verus!
