//! Fixed-point arithmetic: truncated division, integer square root, clamping,
//! and the global machine limits that keep every product inside `i64`.

use vstd::prelude::*;

verus! {

use vstd::arithmetic::div_mod::{lemma_div_is_ordered, lemma_div_by_multiple};
use vstd::arithmetic::mul::lemma_mul_inequality;

/// One field unit, in fixed-point ticks (a length of 1.0 is `UNIT` ticks).
pub const UNIT: i64 = 1_000_000;

/// One second, in microseconds (times and durations are microseconds).
pub const MICROS_PER_SEC: i64 = 1_000_000;

/// Largest magnitude accepted for a screen-rectangle coordinate or size,
/// and for a mouse coordinate (500 field units).
pub const MAX_COORD: i64 = 500_000_000;

/// Largest delta time accepted for one step (10 seconds).
pub const DT_LIMIT: i64 = 10_000_000;

/// Largest accumulated elapsed time (about 126 years of play); keeps every
/// time difference inside `i64`.
pub const T_LIMIT: i64 = 4_000_000_000_000_000;

/// Bound kept on player and ball positions between steps.
pub const POS_LIMIT: i64 = 1_100_000_000;

/// Bound kept on velocity components between steps.
pub const VEL_LIMIT: i64 = 500_000;

/// Largest component magnitude accepted by `magnitude` and `normalized`:
/// the sum of the two squares still fits in `u64`.
pub const VEC_LIMIT: i64 = 3_000_000_000;

/// Absolute value of a mathematical integer.
pub open spec fn absi(a: int) -> int {
    if a < 0 {
        -a
    } else {
        a
    }
}

/// Division truncated toward zero, as the executable code performs it
/// (ghost `/` alone is Euclidean).  Meaningful for `b >= 1`.
pub open spec fn tdiv(a: int, b: int) -> int {
    if a >= 0 {
        a / b
    } else {
        -((-a) / b)
    }
}

/// Floor of the square root of a natural number.
pub open spec fn sqrt(n: nat) -> nat
    decreases n,
{
    if n == 0 {
        0
    } else {
        let r = sqrt((n - 1) as nat);
        if (r + 1) * (r + 1) <= n {
            (r + 1) as nat
        } else {
            r
        }
    }
}

/// Squaring is monotone on the non-negative integers.
pub proof fn lemma_sq_monotone(a: int, b: int)
    by (nonlinear_arith)
    requires
        0 <= a <= b,
    ensures
        a * a <= b * b,
{
}

/// `sqrt(n)` is the floor of the real square root.
pub proof fn lemma_sqrt_bounds(n: nat)
    ensures
        (sqrt(n) as int) * (sqrt(n) as int) <= n as int,
        (n as int) < (sqrt(n) as int + 1) * (sqrt(n) as int + 1),
    decreases n,
{
    let s = sqrt(n) as int;
    if n == 0 {
        assert(s == 0);
        assert((s + 1) * (s + 1) == 1) by (nonlinear_arith)
            requires
                s == 0,
        ;
    } else {
        lemma_sqrt_bounds((n - 1) as nat);
        let r = sqrt((n - 1) as nat) as int;
        if (r + 1) * (r + 1) <= n {
            assert(s == r + 1);
            assert(n == (r + 1) * (r + 1));
            assert((r + 1) * (r + 1) < (r + 2) * (r + 2)) by (nonlinear_arith)
                requires
                    r >= 0,
            ;
        } else {
            assert(s == r);
        }
    }
}

/// Any integer bracketed the way `sqrt(n)` is equals `sqrt(n)`.
pub proof fn lemma_sqrt_unique(n: nat, r: int)
    requires
        0 <= r,
        r * r <= n,
        n < (r + 1) * (r + 1),
    ensures
        r == sqrt(n),
{
    lemma_sqrt_bounds(n);
    let s = sqrt(n) as int;
    if r < s {
        lemma_sq_monotone(r + 1, s);
        assert(false);
    }
    if s < r {
        lemma_sq_monotone(s + 1, r);
        assert(false);
    }
}

/// Sign rules of multiplication, used to relate a product to the product of
/// the absolute values.
pub proof fn lemma_mul_signs(a: int, b: int)
    by (nonlinear_arith)
    ensures
        (-a) * b == -(a * b),
        a * (-b) == -(a * b),
        (-a) * (-b) == a * b,
        a >= 0 && b >= 0 ==> a * b >= 0,
        a <= 0 && b <= 0 ==> a * b >= 0,
        a >= 0 && b <= 0 ==> a * b <= 0,
        a <= 0 && b >= 0 ==> a * b <= 0,
{
}

/// A product of two boxed factors is boxed by the product of the boxes.
pub proof fn lemma_mul_abs_bound(a: int, b: int, ca: int, cb: int)
    by (nonlinear_arith)
    requires
        -ca <= a <= ca,
        -cb <= b <= cb,
    ensures
        -(ca * cb) <= a * b <= ca * cb,
{
}

/// Truncated division of a scaled component stays inside the scale:
/// `|x| <= m` gives `|x * s / m| <= s`.
pub proof fn lemma_tdiv_bound(x: int, m: int, s: int)
    requires
        1 <= m,
        0 <= s,
        -m <= x <= m,
    ensures
        -s <= tdiv(x * s, m) <= s,
{
    lemma_mul_signs(x, s);
    if x >= 0 {
        lemma_mul_inequality(x, m, s);
        lemma_div_is_ordered(x * s, m * s, m);
        lemma_div_by_multiple(s, m);
        assert(s * m == m * s) by (nonlinear_arith);
        assert(tdiv(x * s, m) == (x * s) / m);
        assert((x * s) / m >= 0) by {
            vstd::arithmetic::div_mod::lemma_div_pos_is_pos(x * s, m);
        }
    } else {
        let p = (-x) * s;
        assert(p == -(x * s));
        lemma_mul_inequality(-x, m, s);
        lemma_div_is_ordered(p, m * s, m);
        lemma_div_by_multiple(s, m);
        assert(s * m == m * s) by (nonlinear_arith);
        assert(tdiv(x * s, m) == -(p / m));
        assert(p / m >= 0) by {
            vstd::arithmetic::div_mod::lemma_div_pos_is_pos(p, m);
        }
    }
}

/// Absolute value, widened to `u64`.
pub fn abs64(a: i64) -> (r: u64)
    requires
        a != i64::MIN,
    ensures
        r == absi(a as int),
{
    if a < 0 {
        (-a) as u64
    } else {
        a as u64
    }
}

/// Multiply then divide, truncating toward zero: `a * b / d` as a float
/// pipeline would round it toward zero, exact over the integers.
pub fn mul_div(a: i64, b: i64, d: i64) -> (q: i64)
    requires
        1 <= d,
        a != i64::MIN,
        b != i64::MIN,
        -0x7fff_ffff_ffff_ffff <= a * b <= 0x7fff_ffff_ffff_ffff,
    ensures
        q == tdiv(a as int * b as int, d as int),
{
    let ua = abs64(a);
    let ub = abs64(b);
    proof {
        lemma_mul_signs(a as int, b as int);
        assert(ua * ub == absi(a as int * b as int));
    }
    let p = ua * ub;
    let q0 = p / (d as u64);
    proof {
        lemma_div_is_ordered(p as int, 0x7fff_ffff_ffff_ffff, d as int);
        lemma_div_is_ordered(0, p as int, d as int);
        assert(0x7fff_ffff_ffff_ffffint / (d as int) <= 0x7fff_ffff_ffff_ffff) by {
            vstd::arithmetic::div_mod::lemma_div_is_ordered_by_denominator(
                0x7fff_ffff_ffff_ffff,
                1,
                d as int,
            );
        }
    }
    let qi = q0 as i64;
    if (a < 0) != (b < 0) {
        -qi
    } else {
        qi
    }
}

/// Clamp into `[lo, hi]` the way a chained `max` then `min` does: when
/// `lo > hi`, the upper bound wins.
pub open spec fn clamp_spec(v: int, lo: int, hi: int) -> int {
    let m = if v >= lo {
        v
    } else {
        lo
    };
    if m <= hi {
        m
    } else {
        hi
    }
}

/// Executable clamp matching `clamp_spec`.
pub fn clamp64(v: i64, lo: i64, hi: i64) -> (r: i64)
    ensures
        r == clamp_spec(v as int, lo as int, hi as int),
{
    let m = if v >= lo {
        v
    } else {
        lo
    };
    if m <= hi {
        m
    } else {
        hi
    }
}

/// Integer square root by bisection.
pub fn isqrt(s: u64) -> (r: u64)
    ensures
        r == sqrt(s as nat),
{
    let mut lo: u64 = 0;
    let mut hi: u64 = 0x1_0000_0000;
    while lo + 1 < hi
        invariant
            lo < hi <= 0x1_0000_0000,
            lo * lo <= s,
            (s as int) < (hi as int) * (hi as int),
        decreases hi - lo,
    {
        let mid = lo + (hi - lo) / 2;
        proof {
            assert((mid as int) * (mid as int) < 0x1_0000_0000_0000_0000) by (nonlinear_arith)
                requires
                    0 <= (mid as int) < 0x1_0000_0000,
            ;
        }
        let sq = mid * mid;
        if sq <= s {
            lo = mid;
        } else {
            hi = mid;
        }
    }
    proof {
        lemma_sqrt_unique(s as nat, lo as int);
    }
    lo
}

} // verus!
