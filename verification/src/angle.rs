//! Rotation angles in whole degrees, canonicalized into `[0, 360)`,
//! with fixed-point trigonometry.
//!
//! Sine is Bhaskara's rational approximation scaled by `TRIG_ONE`; it
//! is exact at every multiple of 90 degrees, which makes axis-aligned
//! transforms exact.  `angle_of` is an integer octant interpolation
//! standing in for `atan2`; the rotation gesture only ever uses
//! differences of its results, so only its continuity around the
//! circle matters, and it is exact on the axes and diagonals.

use vstd::prelude::*;
use vstd::arithmetic::div_mod::*;
use crate::geom::fdiv;

verus! {

/// Fixed-point scale of sine and cosine values.
pub const TRIG_ONE: i64 = 10000;

/// Bhaskara's sine approximation for `0 <= d <= 180`, scaled by
/// `TRIG_ONE`.
pub open spec fn bhaskara(d: int) -> int {
    let k = d * (180 - d);
    40000 * k / (40500 - k)
}

/// Sine of `d` degrees for `0 <= d < 360`, scaled by `TRIG_ONE`.
pub open spec fn sin_deg(d: int) -> int {
    if d <= 180 {
        bhaskara(d)
    } else {
        -bhaskara(d - 180)
    }
}

/// Cosine of `d` degrees for `0 <= d < 360`, scaled by `TRIG_ONE`.
pub open spec fn cos_deg(d: int) -> int {
    sin_deg((d + 90) % 360)
}

/// An angle canonicalized into `[0, 360)`.
pub open spec fn deg_ok(d: int) -> bool {
    0 <= d < 360
}

pub proof fn lemma_bhaskara_bounds(d: int)
    requires
        0 <= d <= 180,
    ensures
        0 <= bhaskara(d) <= TRIG_ONE as int,
        d == 0 ==> bhaskara(d) == 0,
        d == 90 ==> bhaskara(d) == TRIG_ONE as int,
        d == 180 ==> bhaskara(d) == 0,
{
    let k = d * (180 - d);
    assert(0 <= k <= 8100) by (nonlinear_arith)
        requires
            0 <= d <= 180,
            k == d * (180 - d),
    ;
    let den = 40500 - k;
    assert(32400 <= den <= 40500);
    assert(40000 * k >= 0);
    lemma_div_is_ordered(0, 40000 * k, den);
    assert(40000 * k <= 10000 * den);
    lemma_div_multiples_vanish(10000, den);
    lemma_div_is_ordered(40000 * k, 10000 * den, den);
    if d == 90 {
        assert(k == 8100);
        assert(bhaskara(d) == 324000000int / 32400);
    }
    if d == 0 || d == 180 {
        assert(k == 0);
    }
}

/// Sine and cosine of a canonical angle stay within the fixed-point
/// unit.
pub proof fn lemma_trig_bounds(d: int)
    requires
        deg_ok(d),
    ensures
        -(TRIG_ONE as int) <= sin_deg(d) <= TRIG_ONE as int,
        -(TRIG_ONE as int) <= cos_deg(d) <= TRIG_ONE as int,
{
    if d <= 180 {
        lemma_bhaskara_bounds(d);
    } else {
        lemma_bhaskara_bounds(d - 180);
    }
    let sh = (d + 90) % 360;
    lemma_mod_bound(d + 90, 360);
    if sh <= 180 {
        lemma_bhaskara_bounds(sh);
    } else {
        lemma_bhaskara_bounds(sh - 180);
    }
}

/// Sine for a canonical angle, with the values on the axes exact.
pub fn sin_lookup(d: i64) -> (r: i64)
    requires
        deg_ok(d as int),
    ensures
        r as int == sin_deg(d as int),
        -(TRIG_ONE as int) <= r as int <= TRIG_ONE as int,
{
    let (neg, dd): (bool, i64) = if d <= 180 {
        (false, d)
    } else {
        (true, d - 180)
    };
    proof {
        lemma_bhaskara_bounds(dd as int);
        assert(0 <= (dd as int) * (180 - dd as int) <= 8100) by (nonlinear_arith)
            requires
                0 <= dd as int <= 180,
        ;
    }
    let k: i64 = dd * (180 - dd);
    let num: i64 = 40000 * k;
    let den: i64 = 40500 - k;
    let q = num / den;
    if neg {
        -q
    } else {
        q
    }
}

/// Cosine for a canonical angle, with the values on the axes exact.
pub fn cos_lookup(d: i64) -> (r: i64)
    requires
        deg_ok(d as int),
    ensures
        r as int == cos_deg(d as int),
        -(TRIG_ONE as int) <= r as int <= TRIG_ONE as int,
{
    let shifted = if d + 90 < 360 {
        d + 90
    } else {
        d + 90 - 360
    };
    proof {
        lemma_small_mod((shifted) as nat, 360);
        if d + 90 >= 360 {
            lemma_mod_sub_multiples_vanish((d + 90) as int, 360);
        }
        assert(shifted as int == (d + 90) % 360);
    }
    sin_lookup(shifted)
}

/// Canonicalize any angle into `[0, 360)`; this is the remainder of
/// Euclidean division by 360.
pub fn canon_deg(d: i64) -> (r: i64)
    requires
        -(i64::MAX as int) <= d as int,
    ensures
        r as int == (d as int) % 360,
        deg_ok(r as int),
{
    let q = fdiv(d as i128, 360);
    proof {
        lemma_fundamental_div_mod(d as int, 360);
        lemma_mod_bound(d as int, 360);
    }
    (d as i128 - 360 * q) as i64
}

/// Canonicalizing after each step of a running sum equals
/// canonicalizing the whole sum once: applying rotation deltas one at
/// a time never jumps at the wrap boundary.
pub proof fn lemma_delta_accumulation(r: int, d: int)
    ensures
        (r % 360 + d) % 360 == (r + d) % 360,
{
    lemma_add_mod_noop(r % 360, d, 360);
    lemma_mod_twice(r, 360);
    lemma_add_mod_noop(r, d, 360);
}

/// The angle, in canonical degrees, of the vector `(dx, dy)`: an
/// integer octant interpolation in place of `atan2`.  Zero for the
/// zero vector.
pub open spec fn angle_of_spec(dx: int, dy: int) -> int {
    if dx == 0 && dy == 0 {
        0
    } else {
        let ax = if dx < 0 {
            -dx
        } else {
            dx
        };
        let ay = if dy < 0 {
            -dy
        } else {
            dy
        };
        let a = if ax >= ay {
            45 * ay / ax
        } else {
            90 - 45 * ax / ay
        };
        if dx >= 0 && dy >= 0 {
            a
        } else if dx < 0 && dy >= 0 {
            180 - a
        } else if dx < 0 {
            180 + a
        } else if a == 0 {
            0
        } else {
            360 - a
        }
    }
}

proof fn lemma_octant_bounds(ax: int, ay: int)
    requires
        ax >= 0,
        ay >= 0,
        ax > 0 || ay > 0,
    ensures
        ax >= ay ==> 0 <= 45 * ay / ax <= 45,
        ax < ay ==> 0 <= 45 * ax / ay <= 45,
{
    if ax >= ay {
        lemma_div_is_ordered(0, 45 * ay, ax);
        assert(45 * ay <= 45 * ax) by (nonlinear_arith)
            requires
                ay <= ax,
        ;
        lemma_div_multiples_vanish(45, ax);
        lemma_div_is_ordered(45 * ay, 45 * ax, ax);
    } else {
        lemma_div_is_ordered(0, 45 * ax, ay);
        assert(45 * ax <= 45 * ay) by (nonlinear_arith)
            requires
                ax <= ay,
        ;
        lemma_div_multiples_vanish(45, ay);
        lemma_div_is_ordered(45 * ax, 45 * ay, ay);
    }
}

/// Angle of the vector `(dx, dy)` in canonical degrees.  Exact on the
/// axes: right is 0, down is 90, left is 180, up is 270 (screen
/// coordinates, y growing downward).
pub fn angle_of(dx: i64, dy: i64) -> (r: i64)
    requires
        -(i64::MAX as int) <= dx as int,
        -(i64::MAX as int) <= dy as int,
    ensures
        r as int == angle_of_spec(dx as int, dy as int),
        deg_ok(r as int) || (dx == 0 && dy == 0 && r == 0),
        dy == 0 && dx > 0 ==> r == 0,
        dy == 0 && dx < 0 ==> r == 180,
        dx == 0 && dy > 0 ==> r == 90,
        dx == 0 && dy < 0 ==> r == 270,
{
    if dx == 0 && dy == 0 {
        return 0;
    }
    let ax: i128 = if dx < 0 {
        -(dx as i128)
    } else {
        dx as i128
    };
    let ay: i128 = if dy < 0 {
        -(dy as i128)
    } else {
        dy as i128
    };
    proof {
        lemma_octant_bounds(ax as int, ay as int);
        if ay == 0 {
            lemma_div_multiples_vanish(0, ax as int);
        }
        if ax == 0 {
            lemma_div_multiples_vanish(0, ay as int);
        }
    }
    let a: i64 = if ax >= ay {
        fdiv(45 * ay, ax) as i64
    } else {
        90 - fdiv(45 * ax, ay) as i64
    };
    if dx >= 0 && dy >= 0 {
        a
    } else if dx < 0 && dy >= 0 {
        180 - a
    } else if dx < 0 {
        180 + a
    } else if a == 0 {
        0
    } else {
        360 - a
    }
}

/// The sum of a sequence of angle deltas.
pub open spec fn delta_sum(ds: Seq<int>) -> int
    decreases ds.len(),
{
    if ds.len() == 0 {
        0
    } else {
        delta_sum(ds.drop_last()) + ds.last()
    }
}

/// A starting rotation with a sequence of deltas applied one at a
/// time, canonicalizing after each step.
pub open spec fn apply_deltas(r0: int, ds: Seq<int>) -> int
    decreases ds.len(),
{
    if ds.len() == 0 {
        r0 % 360
    } else {
        (apply_deltas(r0, ds.drop_last()) + ds.last()) % 360
    }
}

/// Applying rotation deltas one at a time, canonicalizing after each,
/// lands exactly where canonicalizing the plain signed sum would: the
/// gesture accumulates deltas without a jump at the wrap boundary.
pub proof fn lemma_rotation_sum(r0: int, ds: Seq<int>)
    ensures
        apply_deltas(r0, ds) == (r0 + delta_sum(ds)) % 360,
    decreases ds.len(),
{
    if ds.len() == 0 {
        lemma_mod_twice(r0, 360);
        assert(r0 % 360 == (r0 + 0) % 360);
    } else {
        lemma_rotation_sum(r0, ds.drop_last());
        lemma_delta_accumulation(r0 + delta_sum(ds.drop_last()), ds.last());
    }
}

/// The division facts behind one Bhaskara value: quotient, remainder
/// and their ranges.
proof fn lemma_bhaskara_div(x: int)
    requires
        0 <= x <= 180,
    ensures
        ({
            let k = x * (180 - x);
            let den = 40500 - k;
            let q = bhaskara(x);
            let r = (40000 * k) % den;
            &&& 40000 * k == den * q + r
            &&& 0 <= r < den
            &&& 32400 <= den <= 40500
            &&& 0 <= q <= 10000
        }),
{
    let k = x * (180 - x);
    assert(0 <= k <= 8100) by (nonlinear_arith)
        requires
            0 <= x <= 180,
            k == x * (180 - x),
    ;
    let den = 40500 - k;
    lemma_fundamental_div_mod(40000 * k, den);
    lemma_mod_bound(40000 * k, den);
    lemma_bhaskara_bounds(x);
}

/// The heart of the defect bound, for a first-quadrant angle and its
/// complement: the two fixed-point values, given by their division
/// equations, have a squared norm within 0.45 percent of the unit.
proof fn lemma_defect_core(x: int, s0: int, c0: int, r1: int, r2: int)
    requires
        0 <= x <= 90,
        40000 * (x * (180 - x)) == (40500 - x * (180 - x)) * s0 + r1,
        0 <= r1 < 40500 - x * (180 - x),
        40000 * ((x + 90) * (90 - x)) == (40500 - (x + 90) * (90 - x)) * c0 + r2,
        0 <= r2 < 40500 - (x + 90) * (90 - x),
        0 <= s0 <= 10000,
        0 <= c0 <= 10000,
    ensures
        99550000 <= s0 * s0 + c0 * c0 <= 100450000,
{
    assert(99550000 <= s0 * s0 + c0 * c0 <= 100450000) by (nonlinear_arith)
        requires
            0 <= x <= 90,
            40000 * (x * (180 - x)) == (40500 - x * (180 - x)) * s0 + r1,
            0 <= r1 < 40500 - x * (180 - x),
            40000 * ((x + 90) * (90 - x)) == (40500 - (x + 90) * (90 - x)) * c0 + r2,
            0 <= r2 < 40500 - (x + 90) * (90 - x),
            0 <= s0 <= 10000,
            0 <= c0 <= 10000,
    ;
}

/// The defect bound for a first-quadrant angle: the squared norm of
/// the Bhaskara pair stays within 0.45 percent of the unit.
proof fn lemma_defect_q1(x: int)
    requires
        0 <= x <= 90,
    ensures
        99550000 <= bhaskara(x) * bhaskara(x) + bhaskara(x + 90) * bhaskara(x + 90)
            <= 100450000,
{
    lemma_bhaskara_div(x);
    lemma_bhaskara_div(x + 90);
    assert((x + 90) * (180 - (x + 90)) == (x + 90) * (90 - x)) by (nonlinear_arith);
    let k2 = (x + 90) * (90 - x);
    lemma_defect_core(
        x,
        bhaskara(x),
        bhaskara(x + 90),
        (40000 * (x * (180 - x))) % (40500 - x * (180 - x)),
        (40000 * k2) % (40500 - k2),
    );
}

/// The fixed-point rotation pair has a squared norm within 0.45
/// percent of the exact unit, at every canonical angle: rotating and
/// unrotating a vector scales it by at most that factor beyond the
/// rounding of each step.
pub proof fn lemma_trig_defect(d: int)
    requires
        deg_ok(d),
    ensures
        99550000 <= sin_deg(d) * sin_deg(d) + cos_deg(d) * cos_deg(d) <= 100450000,
{
    let s = sin_deg(d);
    let c = cos_deg(d);
    lemma_mod_bound(d + 90, 360);
    if d <= 90 {
        lemma_small_mod((d + 90) as nat, 360);
        lemma_defect_q1(d);
        assert(s == bhaskara(d) && c == bhaskara(d + 90));
    } else if d <= 180 {
        let x = d - 90;
        lemma_small_mod((d + 90) as nat, 360);
        lemma_defect_q1(x);
        assert(s == bhaskara(x + 90));
        assert(c == -bhaskara(x));
        assert(s * s + c * c == bhaskara(x) * bhaskara(x) + bhaskara(x + 90) * bhaskara(x + 90))
            by (nonlinear_arith)
            requires
                s == bhaskara(x + 90),
                c == -bhaskara(x),
        ;
    } else if d < 270 {
        let x = d - 180;
        lemma_small_mod((d + 90) as nat, 360);
        lemma_defect_q1(x);
        assert(s == -bhaskara(x));
        assert(c == -bhaskara(x + 90));
        assert(s * s + c * c == bhaskara(x) * bhaskara(x) + bhaskara(x + 90) * bhaskara(x + 90))
            by (nonlinear_arith)
            requires
                s == -bhaskara(x),
                c == -bhaskara(x + 90),
        ;
    } else {
        let x = d - 270;
        lemma_mod_sub_multiples_vanish(d + 90, 360);
        lemma_small_mod((d - 270) as nat, 360);
        lemma_defect_q1(x);
        assert((d + 90) % 360 == x);
        assert(c == bhaskara(x));
        assert(s == -bhaskara(x + 90));
        assert(s * s + c * c == bhaskara(x) * bhaskara(x) + bhaskara(x + 90) * bhaskara(x + 90))
            by (nonlinear_arith)
            requires
                s == -bhaskara(x + 90),
                c == bhaskara(x),
        ;
    }
}

} // verus!
