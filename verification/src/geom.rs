//! Fixed-point 2-D vectors and rectangles, with their mathematical models.

use vstd::prelude::*;

verus! {

use crate::num::{
    absi, tdiv, sqrt, abs64, mul_div, isqrt, lemma_sqrt_bounds, lemma_sq_monotone,
    lemma_mul_signs, lemma_mul_abs_bound, lemma_tdiv_bound, UNIT, MICROS_PER_SEC, VEC_LIMIT,
    VEL_LIMIT, DT_LIMIT,
};

/// Mathematical model of a 2-D vector.
pub ghost struct GV2 {
    pub x: int,
    pub y: int,
}

/// Mathematical model of an axis-aligned rectangle.
pub ghost struct GRect {
    pub x: int,
    pub y: int,
    pub w: int,
    pub h: int,
}

pub open spec fn vadd(a: GV2, b: GV2) -> GV2 {
    GV2 { x: a.x + b.x, y: a.y + b.y }
}

pub open spec fn vsub(a: GV2, b: GV2) -> GV2 {
    GV2 { x: a.x - b.x, y: a.y - b.y }
}

pub open spec fn vmag_sq(v: GV2) -> int {
    v.x * v.x + v.y * v.y
}

/// Length of a vector, rounded down to whole ticks.
pub open spec fn vmag(v: GV2) -> int {
    sqrt(vmag_sq(v) as nat) as int
}

/// Unit vector in fixed point: each component is `x * UNIT / |v|`, truncated
/// toward zero.  The zero vector normalizes to zero.
pub open spec fn vnorm(v: GV2) -> GV2 {
    if v.x == 0 && v.y == 0 {
        GV2 { x: 0, y: 0 }
    } else {
        GV2 { x: tdiv(v.x * UNIT, vmag(v)), y: tdiv(v.y * UNIT, vmag(v)) }
    }
}

/// Multiply by a fixed-point scalar `k` (so `k == UNIT` is the identity up
/// to truncation).
pub open spec fn vscale(v: GV2, k: int) -> GV2 {
    GV2 { x: tdiv(v.x * k, UNIT as int), y: tdiv(v.y * k, UNIT as int) }
}

/// Displacement of a velocity (ticks per second) over `dt` microseconds.
pub open spec fn vdisp(v: GV2, dt: int) -> GV2 {
    GV2 {
        x: tdiv(v.x * dt, MICROS_PER_SEC as int),
        y: tdiv(v.y * dt, MICROS_PER_SEC as int),
    }
}

/// Dot product of two fixed-point unit vectors, scaled back into ticks.
pub open spec fn vdot_unit(a: GV2, b: GV2) -> int {
    tdiv(a.x * b.x + a.y * b.y, UNIT as int)
}

/// Both components lie in `[-b, b]`.
pub open spec fn in_box(v: GV2, b: int) -> bool {
    &&& -b <= v.x <= b
    &&& -b <= v.y <= b
}

pub open spec fn grect_right(r: GRect) -> int {
    r.x + r.w
}

pub open spec fn grect_bot(r: GRect) -> int {
    r.y + r.h
}

pub open spec fn gcentroid(r: GRect) -> GV2 {
    GV2 { x: r.x + tdiv(r.w, 2), y: r.y + tdiv(r.h, 2) }
}

/// The screen rectangle shrunk by five percent of its size on each side:
/// the inset play field.
pub open spec fn gplay_area(r: GRect) -> GRect {
    GRect {
        x: r.x + tdiv(r.w * 5, 100),
        y: r.y + tdiv(r.h * 5, 100),
        w: tdiv(r.w * 90, 100),
        h: tdiv(r.h * 90, 100),
    }
}

/// No component of a vector exceeds its length.
pub proof fn lemma_comp_le_mag(v: GV2)
    ensures
        0 <= vmag(v),
        absi(v.x) <= vmag(v),
        absi(v.y) <= vmag(v),
{
    lemma_mul_signs(v.x, v.x);
    lemma_mul_signs(v.y, v.y);
    lemma_sqrt_bounds(vmag_sq(v) as nat);
    let m = vmag(v);
    let ax = absi(v.x);
    let ay = absi(v.y);
    assert(ax * ax == v.x * v.x && ay * ay == v.y * v.y) by (nonlinear_arith)
        requires
            ax == v.x || ax == -v.x,
            ay == v.y || ay == -v.y,
            ax >= 0,
            ay >= 0,
    ;
    if ax > m {
        lemma_sq_monotone(m + 1, ax);
        assert(false);
    }
    if ay > m {
        lemma_sq_monotone(m + 1, ay);
        assert(false);
    }
}

/// A nonzero vector has length at least one tick.
pub proof fn lemma_mag_pos(v: GV2)
    requires
        v.x != 0 || v.y != 0,
    ensures
        1 <= vmag(v),
{
    lemma_mul_signs(v.x, v.x);
    lemma_mul_signs(v.y, v.y);
    assert(v.x != 0 ==> v.x * v.x >= 1) by (nonlinear_arith);
    assert(v.y != 0 ==> v.y * v.y >= 1) by (nonlinear_arith);
    lemma_sqrt_bounds(vmag_sq(v) as nat);
    let m = vmag(v);
    if m < 1 {
        assert((m + 1) * (m + 1) <= 1) by (nonlinear_arith)
            requires
                0 <= m < 1,
        ;
        assert(false);
    }
}

/// A normalized vector stays inside the unit box.
pub proof fn lemma_vnorm_unit(v: GV2)
    ensures
        in_box(vnorm(v), UNIT as int),
{
    if v.x != 0 || v.y != 0 {
        lemma_mag_pos(v);
        lemma_comp_le_mag(v);
        let m = vmag(v);
        lemma_tdiv_bound(v.x, m, UNIT as int);
        lemma_tdiv_bound(v.y, m, UNIT as int);
    }
}

/// Executable 2-D vector in fixed-point ticks.
#[derive(Clone, Copy, PartialEq, Eq, Structural, Debug)]
pub struct V2 {
    pub x: i64,
    pub y: i64,
}

impl View for V2 {
    type V = GV2;

    open spec fn view(&self) -> GV2 {
        GV2 { x: self.x as int, y: self.y as int }
    }
}

impl V2 {
    pub fn new(x: i64, y: i64) -> (r: V2)
        ensures
            r@ == (GV2 { x: x as int, y: y as int }),
    {
        V2 { x, y }
    }

    pub fn plus(self, o: V2) -> (r: V2)
        requires
            i64::MIN <= self@.x + o@.x <= i64::MAX,
            i64::MIN <= self@.y + o@.y <= i64::MAX,
        ensures
            r@ == vadd(self@, o@),
    {
        V2 { x: self.x + o.x, y: self.y + o.y }
    }

    pub fn minus(self, o: V2) -> (r: V2)
        requires
            i64::MIN <= self@.x - o@.x <= i64::MAX,
            i64::MIN <= self@.y - o@.y <= i64::MAX,
        ensures
            r@ == vsub(self@, o@),
    {
        V2 { x: self.x - o.x, y: self.y - o.y }
    }

    /// Length in ticks, rounded down.
    pub fn magnitude(self) -> (m: i64)
        requires
            in_box(self@, VEC_LIMIT as int),
        ensures
            m == vmag(self@),
            0 <= m <= 4_300_000_000i64,
    {
        let ax = abs64(self.x);
        let ay = abs64(self.y);
        proof {
            assert(ax * ax == self@.x * self@.x && ay * ay == self@.y * self@.y)
                by (nonlinear_arith)
                requires
                    ax == self@.x || ax == -self@.x,
                    ay == self@.y || ay == -self@.y,
            ;
            assert((ax as int) * (ax as int) <= 9_000_000_000_000_000_000) by (nonlinear_arith)
                requires
                    0 <= ax <= 3_000_000_000,
            ;
            assert((ay as int) * (ay as int) <= 9_000_000_000_000_000_000) by (nonlinear_arith)
                requires
                    0 <= ay <= 3_000_000_000,
            ;
        }
        let s = ax * ax + ay * ay;
        let m = isqrt(s);
        proof {
            lemma_sqrt_bounds(s as nat);
            if m > 4_300_000_000u64 {
                lemma_sq_monotone(4_300_000_001, m as int);
                assert(4_300_000_001int * 4_300_000_001int > 18_000_000_000_000_000_000int)
                    by (nonlinear_arith);
                assert(false);
            }
        }
        m as i64
    }

    /// Unit vector in fixed point; the zero vector yields zero.
    pub fn normalized(self) -> (r: V2)
        requires
            in_box(self@, VEC_LIMIT as int),
        ensures
            r@ == vnorm(self@),
            in_box(r@, UNIT as int),
    {
        proof {
            lemma_vnorm_unit(self@);
        }
        if self.x == 0 && self.y == 0 {
            return V2 { x: 0, y: 0 };
        }
        let m = self.magnitude();
        proof {
            lemma_mag_pos(self@);
            lemma_mul_abs_bound(self@.x, UNIT as int, VEC_LIMIT as int, UNIT as int);
            lemma_mul_abs_bound(self@.y, UNIT as int, VEC_LIMIT as int, UNIT as int);
        }
        let qx = mul_div(self.x, UNIT, m);
        let qy = mul_div(self.y, UNIT, m);
        V2 { x: qx, y: qy }
    }

    /// Multiply by a fixed-point scalar `k` in `[0, 10^8]`.
    pub fn scaled(self, k: i64) -> (r: V2)
        requires
            in_box(self@, VEC_LIMIT as int),
            0 <= k <= 100_000_000,
        ensures
            r@ == vscale(self@, k as int),
            in_box(self@, UNIT as int) ==> in_box(r@, k as int),
    {
        proof {
            lemma_mul_abs_bound(self@.x, k as int, VEC_LIMIT as int, 100_000_000);
            lemma_mul_abs_bound(self@.y, k as int, VEC_LIMIT as int, 100_000_000);
            if in_box(self@, UNIT as int) {
                lemma_tdiv_bound(self@.x, UNIT as int, k as int);
                lemma_tdiv_bound(self@.y, UNIT as int, k as int);
            }
        }
        V2 { x: mul_div(self.x, k, UNIT), y: mul_div(self.y, k, UNIT) }
    }

    /// Displacement of this velocity over `dt` microseconds.
    pub fn displacement(self, dt: i64) -> (r: V2)
        requires
            in_box(self@, VEL_LIMIT as int),
            0 <= dt <= DT_LIMIT,
        ensures
            r@ == vdisp(self@, dt as int),
            in_box(r@, 5_000_000),
    {
        proof {
            lemma_mul_abs_bound(self@.x, dt as int, VEL_LIMIT as int, DT_LIMIT as int);
            lemma_mul_abs_bound(self@.y, dt as int, VEL_LIMIT as int, DT_LIMIT as int);
        }
        V2 { x: mul_div(self.x, dt, MICROS_PER_SEC), y: mul_div(self.y, dt, MICROS_PER_SEC) }
    }

    /// Dot product of two fixed-point unit vectors, in ticks.
    pub fn dot_unit(self, o: V2) -> (r: i64)
        requires
            in_box(self@, 2_000_000),
            in_box(o@, 2_000_000),
        ensures
            r == vdot_unit(self@, o@),
    {
        proof {
            lemma_mul_abs_bound(self@.x, o@.x, 2_000_000, 2_000_000);
            lemma_mul_abs_bound(self@.y, o@.y, 2_000_000, 2_000_000);
        }
        let n = self.x * o.x + self.y * o.y;
        mul_div(n, 1, UNIT)
    }
}

/// Executable rectangle: origin and size in fixed-point ticks.
#[derive(Clone, Copy, PartialEq, Eq, Structural, Debug)]
pub struct Rect {
    pub x: i64,
    pub y: i64,
    pub w: i64,
    pub h: i64,
}

impl View for Rect {
    type V = GRect;

    open spec fn view(&self) -> GRect {
        GRect { x: self.x as int, y: self.y as int, w: self.w as int, h: self.h as int }
    }
}

impl Rect {
    pub fn new(x: i64, y: i64, w: i64, h: i64) -> (r: Rect)
        ensures
            r@ == (GRect { x: x as int, y: y as int, w: w as int, h: h as int }),
    {
        Rect { x, y, w, h }
    }

    pub fn right(self) -> (r: i64)
        requires
            i64::MIN <= self@.x + self@.w <= i64::MAX,
        ensures
            r == grect_right(self@),
    {
        self.x + self.w
    }

    pub fn bot(self) -> (r: i64)
        requires
            i64::MIN <= self@.y + self@.h <= i64::MAX,
        ensures
            r == grect_bot(self@),
    {
        self.y + self.h
    }

    pub fn centroid(self) -> (c: V2)
        requires
            -1_000_000_000_000 <= self@.x <= 1_000_000_000_000,
            -1_000_000_000_000 <= self@.y <= 1_000_000_000_000,
            -1_000_000_000_000 <= self@.w <= 1_000_000_000_000,
            -1_000_000_000_000 <= self@.h <= 1_000_000_000_000,
        ensures
            c@ == gcentroid(self@),
    {
        V2 { x: self.x + mul_div(self.w, 1, 2), y: self.y + mul_div(self.h, 1, 2) }
    }

    /// The inset play field: five percent of the size trimmed on each side.
    pub fn play_area(self) -> (g: Rect)
        requires
            -1_000_000_000_000 <= self@.x <= 1_000_000_000_000,
            -1_000_000_000_000 <= self@.y <= 1_000_000_000_000,
            -1_000_000_000_000 <= self@.w <= 1_000_000_000_000,
            -1_000_000_000_000 <= self@.h <= 1_000_000_000_000,
        ensures
            g@ == gplay_area(self@),
    {
        Rect {
            x: self.x + mul_div(self.w, 5, 100),
            y: self.y + mul_div(self.h, 5, 100),
            w: mul_div(self.w, 90, 100),
            h: mul_div(self.h, 90, 100),
        }
    }
}

} // verus!
