//! Laws of the simulation step, stated over the model and proved from the
//! spec functions that `Game::frame`'s contract uses.

use vstd::prelude::*;

verus! {

use vstd::arithmetic::div_mod::{lemma_div_basics_1, lemma_div_multiples_vanish};
use crate::game::{
    ball_radius, contain_player, initial_state, player_radius, resolve_axis, step_state,
    step_work, GState, PLAYER_SPEED, SWING_COOLDOWN,
};
use crate::geom::{gcentroid, gplay_area, grect_bot, grect_right, vadd, vdisp, vsub, GRect, GV2};
use crate::input::{GInputs, KeyStatus};
use crate::num::{lemma_sqrt_unique, tdiv, UNIT};

/// Frame-0 initialization: on the first step with no movement keys held,
/// and a screen rectangle whose centroid lies inside the containment
/// bounds, the player ends the step exactly on the rectangle's centroid.
pub proof fn lemma_frame_zero_centers_player(seed: u32, i: GInputs)
    requires
        !i.held_w,
        !i.held_a,
        !i.held_s,
        !i.held_d,
        ({
            let f = gplay_area(i.rect);
            let pr = player_radius(i.rect);
            let c = gcentroid(i.rect);
            &&& f.x + pr <= c.x <= grect_right(f) - pr
            &&& f.y + pr <= c.y <= grect_right(f) - pr
        }),
    ensures
        step_state(initial_state(seed), i).player_pos == gcentroid(i.rect),
{
    let s = initial_state(seed);
    let w = step_work(s, i);
    assert(w.move_unit == (GV2 { x: 0, y: 0 }));
    assert(w.vel.x == tdiv(0, UNIT as int) && w.vel.y == tdiv(0, UNIT as int));
    assert(w.vel == (GV2 { x: 0, y: 0 }));
    assert(0 * i.dt == 0);
    assert(w.p_moved == gcentroid(i.rect));
}

/// Idempotent containment: clamping an already-clamped player position is
/// a no-op.
pub proof fn lemma_containment_idempotent(p: GV2, field: GRect, pr: int)
    ensures
        contain_player(contain_player(p, field, pr), field, pr) == contain_player(p, field, pr),
{
}

/// One axis of the wall pass never leaves the inset interval when that
/// interval is non-empty: the ball stays within the play field after
/// collision resolution.
pub proof fn lemma_resolve_axis_contained(p: int, v: int, lo: int, hi: int)
    requires
        lo <= hi,
    ensures
        lo <= resolve_axis(p, v, lo, hi).0 <= hi,
{
}

/// Wall reflection: a ball that crossed the right boundary while moving
/// right, without touching the top or bottom, ends the wall pass clamped
/// exactly to the boundary with its horizontal velocity negated and its
/// vertical state untouched.
pub proof fn lemma_wall_reflection(p: GV2, v: GV2, field: GRect, br: int)
    requires
        v.x > 0,
        field.x + br <= grect_right(field) - br,
        p.x > grect_right(field) - br,
        field.y + br <= p.y <= grect_bot(field) - br,
    ensures
        resolve_axis(p.x, v.x, field.x + br, grect_right(field) - br)
            == (grect_right(field) - br, -v.x),
        resolve_axis(p.y, v.y, field.y + br, grect_bot(field) - br) == (p.y, v.y),
{
}

/// The ball ends every step inside the inset play field, whenever that
/// field is wide enough to hold it.
pub proof fn lemma_step_ball_contained(s: GState, i: GInputs)
    requires
        ({
            let f = gplay_area(i.rect);
            let br = ball_radius(i.rect);
            &&& f.x + br <= grect_right(f) - br
            &&& f.y + br <= grect_bot(f) - br
        }),
    ensures
        ({
            let f = gplay_area(i.rect);
            let br = ball_radius(i.rect);
            let b = step_state(s, i).ball_pos;
            &&& f.x + br <= b.x <= grect_right(f) - br
            &&& f.y + br <= b.y <= grect_bot(f) - br
        }),
{
    let w = step_work(s, i);
    let f = gplay_area(i.rect);
    let br = ball_radius(i.rect);
    let moved = vadd(w.b0, vdisp(w.ball_vel_mid, i.dt));
    lemma_resolve_axis_contained(moved.x, w.ball_vel_mid.x, f.x + br, grect_right(f) - br);
    lemma_resolve_axis_contained(moved.y, w.ball_vel_mid.y, f.y + br, grect_bot(f) - br);
}

/// Wall reflection at step level: with no swing pressed, a ball moving
/// right whose integrated position crosses only the right boundary ends
/// the step clamped to `right_edge - ball_radius`, with its x velocity
/// exactly negated and its y position and velocity untouched.
pub proof fn lemma_step_wall_reflection(s: GState, i: GInputs)
    requires
        s.frame_no != 0,
        i.lmb != KeyStatus::JustPressed,
        s.ball_vel.x > 0,
        ({
            let f = gplay_area(i.rect);
            let br = ball_radius(i.rect);
            let moved = vadd(s.ball_pos, vdisp(s.ball_vel, i.dt));
            &&& f.x + br <= grect_right(f) - br
            &&& moved.x > grect_right(f) - br
            &&& f.y + br <= moved.y <= grect_bot(f) - br
        }),
    ensures
        step_state(s, i).ball_pos.x == grect_right(gplay_area(i.rect)) - ball_radius(i.rect),
        step_state(s, i).ball_pos.y == vadd(s.ball_pos, vdisp(s.ball_vel, i.dt)).y,
        step_state(s, i).ball_vel.x == -s.ball_vel.x,
        step_state(s, i).ball_vel.y == s.ball_vel.y,
{
    let w = step_work(s, i);
    assert(!w.accept && !w.connect);
    assert(w.ball_vel_mid == s.ball_vel);
}

/// A step draws seven primitives, eight while the swing arc is visible.
pub proof fn lemma_primitive_count(s: GState, i: GInputs)
    ensures
        crate::game::step_prims(s, i).len() == if step_work(s, i).arc_shown {
            8int
        } else {
            7int
        },
{
}

/// Cooldown gating: when two just-pressed button events arrive less than
/// the cooldown apart, only the first resets the swing timestamp.
pub proof fn lemma_cooldown_gating(s: GState, i1: GInputs, i2: GInputs)
    requires
        i1.lmb == KeyStatus::JustPressed,
        i2.lmb == KeyStatus::JustPressed,
        s.t - s.t_swing > SWING_COOLDOWN,
        0 <= i1.dt,
        i1.dt < SWING_COOLDOWN,
    ensures
        step_state(s, i1).t_swing == s.t,
        step_state(step_state(s, i1), i2).t_swing == s.t,
{
    let s1 = step_state(s, i1);
    assert(s1.t_swing == s.t && s1.t == s.t + i1.dt);
    assert(!(s1.t - s1.t_swing > SWING_COOLDOWN));
}

/// Swing hit: a connecting swing overwrites the ball velocity with the
/// facing direction at the hit speed; a swing that does not connect leaves
/// the ball velocity untouched going into the wall pass.
pub proof fn lemma_swing_outcome(s: GState, i: GInputs)
    ensures
        step_work(s, i).connect ==> step_work(s, i).ball_vel_mid == crate::geom::vscale(
            step_work(s, i).facing,
            crate::game::HIT_BALL_SPEED as int,
        ),
        !step_work(s, i).connect ==> step_work(s, i).ball_vel_mid == s.ball_vel,
{
}

/// Total time of a sequence of steps.
pub open spec fn total_time(ins: Seq<GInputs>) -> int
    decreases ins.len(),
{
    if ins.len() == 0 {
        0
    } else {
        ins[0].dt + total_time(ins.skip(1))
    }
}

/// The state after running a whole sequence of steps.
pub open spec fn run_steps(s: GState, ins: Seq<GInputs>) -> GState
    decreases ins.len(),
{
    if ins.len() == 0 {
        s
    } else {
        run_steps(step_state(s, ins[0]), ins.skip(1))
    }
}

/// Monotonic counters: over any sequence of steps the frame counter grows
/// by exactly the number of steps and the elapsed time by exactly the sum
/// of the delta times.
pub proof fn lemma_monotonic_counters(s: GState, ins: Seq<GInputs>)
    ensures
        run_steps(s, ins).frame_no == s.frame_no + ins.len(),
        run_steps(s, ins).t == s.t + total_time(ins),
    decreases ins.len(),
{
    if ins.len() != 0 {
        lemma_monotonic_counters(step_state(s, ins[0]), ins.skip(1));
    }
}

/// The swing timestamp never moves backward.
pub proof fn lemma_swing_time_monotonic(s: GState, i: GInputs)
    requires
        s.t_swing <= s.t,
    ensures
        step_state(s, i).t_swing >= s.t_swing,
{
}

/// Facing independence: holding only the up key while the mouse sits level
/// with and strictly to the right of the player moves the player straight
/// up and makes it face exactly right, in the same step.
pub proof fn lemma_facing_independence(s: GState, i: GInputs)
    requires
        s.frame_no != 0,
        i.held_w,
        !i.held_s,
        !i.held_a,
        !i.held_d,
        i.mouse.y == s.player_pos.y,
        i.mouse.x > s.player_pos.x,
    ensures
        step_state(s, i).player_vel == (GV2 { x: 0, y: -(PLAYER_SPEED as int) }),
        step_state(s, i).player_vel.y < 0,
        step_state(s, i).player_facing == (GV2 { x: UNIT as int, y: 0 }),
{
    let w = step_work(s, i);
    let u = UNIT as int;

    // Movement: the raw direction is (0, -UNIT); its length is exactly UNIT.
    let mv = crate::game::move_raw(i);
    assert(mv == (GV2 { x: 0, y: -u }));
    crate::num::lemma_mul_signs(u, u);
    assert(crate::geom::vmag_sq(mv) == u * u);
    lemma_sqrt_unique((u * u) as nat, u);
    assert(crate::geom::vmag(mv) == u);
    lemma_div_multiples_vanish(u, u);
    lemma_div_basics_1(u);
    assert(tdiv(0 * u, u) == 0);
    assert(tdiv((-u) * u, u) == -u);
    assert(w.move_unit == (GV2 { x: 0, y: -u }));
    assert(w.vel == (GV2 { x: 0, y: -(PLAYER_SPEED as int) }));

    // Facing: the vector to the mouse is (dx, 0) with dx >= 1, so the
    // normalized facing is exactly (UNIT, 0).
    let to_mouse = vsub(i.mouse, s.player_pos);
    let dx = to_mouse.x;
    assert(to_mouse == (GV2 { x: dx, y: 0 }));
    assert(crate::geom::vmag_sq(to_mouse) == dx * dx);
    assert(dx * dx < (dx + 1) * (dx + 1)) by (nonlinear_arith)
        requires
            dx >= 1,
    ;
    lemma_sqrt_unique((dx * dx) as nat, dx);
    assert(crate::geom::vmag(to_mouse) == dx);
    lemma_div_multiples_vanish(u, dx);
    assert(dx * u == u * dx) by (nonlinear_arith);
    assert(tdiv(dx * u, dx) == u);
    lemma_div_basics_1(dx);
    assert(tdiv(0 * u, dx) == 0);
    assert(w.facing == (GV2 { x: u, y: 0 }));
}

} // verus!
