//! Unit-level behavior: fixed-point vectors, clamping, rectangles, and the
//! swing hit predicate.

use swingball::game::swing_hits;
use swingball::geom::{Rect, V2};
use swingball::num::{clamp64, mul_div};

fn v(x: i64, y: i64) -> V2 {
    V2 { x, y }
}

#[test]
fn magnitude_of_3_4_5_triangle() {
    assert_eq!(v(300_000, 400_000).magnitude(), 500_000);
}

#[test]
fn magnitude_of_zero_vector() {
    assert_eq!(v(0, 0).magnitude(), 0);
}

#[test]
fn magnitude_rounds_down() {
    assert_eq!(v(1, 1).magnitude(), 1);
}

#[test]
fn normalized_3_4_5() {
    assert_eq!(v(300_000, 400_000).normalized(), v(600_000, 800_000));
}

#[test]
fn normalized_zero_vector_is_zero() {
    assert_eq!(v(0, 0).normalized(), v(0, 0));
}

#[test]
fn normalized_negative_truncates_toward_zero() {
    assert_eq!(v(-300_000, -400_000).normalized(), v(-600_000, -800_000));
}

#[test]
fn normalized_diagonal() {
    assert_eq!(v(1_000_000, 1_000_000).normalized(), v(707_107, 707_107));
}

#[test]
fn dot_unit_parallel_and_orthogonal() {
    assert_eq!(v(1_000_000, 0).dot_unit(v(1_000_000, 0)), 1_000_000);
    assert_eq!(v(1_000_000, 0).dot_unit(v(0, 1_000_000)), 0);
}

#[test]
fn mul_div_truncates_toward_zero() {
    assert_eq!(mul_div(7, 3, 2), 10);
    assert_eq!(mul_div(-7, 3, 2), -10);
    assert_eq!(mul_div(0, 5, 9), 0);
}

#[test]
fn clamp_within_below_above() {
    assert_eq!(clamp64(5, 0, 10), 5);
    assert_eq!(clamp64(-3, 0, 10), 0);
    assert_eq!(clamp64(42, 0, 10), 10);
}

#[test]
fn clamp_upper_bound_wins_when_bounds_cross() {
    assert_eq!(clamp64(5, 20, 10), 10);
}

#[test]
fn clamp_is_idempotent() {
    for p in [-50i64, 0, 3, 10, 99] {
        let once = clamp64(p, 0, 10);
        assert_eq!(clamp64(once, 0, 10), once);
    }
}

#[test]
fn centroid_rounds_down() {
    let r = Rect { x: 10, y: 20, w: 7, h: 9 };
    assert_eq!(r.centroid(), v(13, 24));
}

#[test]
fn play_area_insets_five_percent() {
    let r = Rect { x: 0, y: 0, w: 1000, h: 2000 };
    assert_eq!(r.play_area(), Rect { x: 50, y: 100, w: 900, h: 1800 });
}

#[test]
fn swing_hits_inside_radius_along_facing() {
    // Ball at distance 0.1 straight along the facing vector: connects.
    assert!(swing_hits(v(0, 0), v(100_000, 0), v(1_000_000, 0)));
}

#[test]
fn swing_misses_outside_radius() {
    // Ball at distance 0.3, outside the 0.25 radius: no hit.
    assert!(!swing_hits(v(0, 0), v(300_000, 0), v(1_000_000, 0)));
}

#[test]
fn swing_misses_outside_arc() {
    // Ball inside the radius but at 90 degrees off the facing: no hit.
    assert!(!swing_hits(v(0, 0), v(0, 100_000), v(1_000_000, 0)));
}
