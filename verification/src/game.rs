//! The simulation step: game state, its mathematical model, and the
//! deterministic per-frame transition `Game::frame`.
//!
//! The whole step is specified by two spec functions over the model:
//! `step_state` gives the next state, `step_prims` the primitives drawn.

use vstd::prelude::*;

verus! {

use crate::draw::{Color, FrameOutputs, GColor, GPrim};
use crate::geom::{
    gcentroid, gplay_area, grect_bot, grect_right, in_box, vadd, vdisp, vdot_unit, vmag,
    vnorm, vscale, vsub, GRect, GV2, Rect, V2,
};
use crate::input::{FrameInputs, GInputs, KeyStatus};
use crate::num::{
    clamp_spec, clamp64, mul_div, tdiv, POS_LIMIT, T_LIMIT, UNIT, VEL_LIMIT, VEC_LIMIT,
};

/// Player speed while a key is held: 0.3 field units per second.
pub const PLAYER_SPEED: i64 = 300_000;

/// Time a new swing is refused after an accepted one: 0.5 s.
pub const SWING_COOLDOWN: i64 = 500_000;

/// Reach of the melee swing: 0.25 field units.
pub const SWING_RADIUS: i64 = 250_000;

/// Full opening angle of the swing arc, in degrees.
pub const SWING_DEGREES: i64 = 90;

/// Cosine of half the swing arc (45 degrees), in millionths.  The swing
/// connects when the angle between the facing vector and the direction to
/// the ball is below half the arc, that is, when its cosine is above this.
pub const COS_HALF_ARC: i64 = 707_106;

/// How long the swing arc stays visible after an accepted swing: 0.05 s.
pub const ARC_SHOW_TIME: i64 = 50_000;

/// Speed given to the ball by a connecting swing: 0.5 field units per second.
pub const HIT_BALL_SPEED: i64 = 500_000;

/// Starting player health: 100, in millionths.
pub const START_HEALTH: i64 = 100_000_000;

/// Starting swing timestamp, far enough in the past that the first swing is
/// always allowed: -100 s.
pub const START_SWING_T: i64 = -100_000_000;

/// Starting ball offset from the player, set on frame 0.
pub const BALL_START_X: i64 = 150_000;

pub const BALL_START_Y: i64 = 200_000;

/// Starting ball velocity.
pub const BALL_VEL_X: i64 = 100_000;

pub const BALL_VEL_Y: i64 = 210_000;

/// Compositing depths, in hundredths.
pub const DEPTH_BORDER: i64 = 101;

pub const DEPTH_FIELD: i64 = 102;

pub const DEPTH_BODY: i64 = 103;

pub const DEPTH_RING: i64 = 104;

pub const DEPTH_ARC: i64 = 105;

/// Foreground color (1.0, 0.25, 0.0, 1.0), in thousandths.
pub open spec fn fg_spec() -> GColor {
    GColor { r: 1000, g: 250, b: 0, a: 1000 }
}

/// Background color (1.0, 0.9, 0.8, 1.0), in thousandths.
pub open spec fn bg_spec() -> GColor {
    GColor { r: 1000, g: 900, b: 800, a: 1000 }
}

/// The foreground color as a value.
pub fn foreground() -> (c: Color)
    ensures
        c@ == fg_spec(),
{
    Color { r: 1000, g: 250, b: 0, a: 1000 }
}

/// The background color as a value.
pub fn background() -> (c: Color)
    ensures
        c@ == bg_spec(),
{
    Color { r: 1000, g: 900, b: 800, a: 1000 }
}

/// Mathematical model of the whole game state.
pub ghost struct GState {
    pub frame_no: nat,
    pub t: int,
    pub seed: int,
    pub player_pos: GV2,
    pub player_vel: GV2,
    pub player_facing: GV2,
    pub player_health: int,
    pub t_swing: int,
    pub ball_pos: GV2,
    pub ball_vel: GV2,
    pub enemy_pos: Seq<GV2>,
    pub enemy_vel: Seq<GV2>,
    pub enemy_health: Seq<int>,
}

impl GState {
    /// Well-formedness kept across steps: times ordered and bounded,
    /// positions and velocities inside the machine limits.
    pub open spec fn wf(self) -> bool {
        &&& 0 <= self.t <= T_LIMIT
        &&& START_SWING_T <= self.t_swing <= self.t
        &&& in_box(self.player_pos, POS_LIMIT as int)
        &&& in_box(self.ball_pos, POS_LIMIT as int)
        &&& in_box(self.player_vel, PLAYER_SPEED as int)
        &&& in_box(self.ball_vel, VEL_LIMIT as int)
        &&& in_box(self.player_facing, UNIT as int)
    }
}

/// The state a new game starts in.
pub open spec fn initial_state(seed: u32) -> GState {
    GState {
        frame_no: 0,
        t: 0,
        seed: seed as int,
        player_pos: GV2 { x: 0, y: 0 },
        player_vel: GV2 { x: 0, y: 0 },
        player_facing: GV2 { x: 0, y: 0 },
        player_health: START_HEALTH as int,
        t_swing: START_SWING_T as int,
        ball_pos: GV2 { x: BALL_START_X as int, y: BALL_START_Y as int },
        ball_vel: GV2 { x: BALL_VEL_X as int, y: BALL_VEL_Y as int },
        enemy_pos: Seq::empty(),
        enemy_vel: Seq::empty(),
        enemy_health: Seq::empty(),
    }
}

/// Radius of the player circle: 2.5 percent of the screen height.
pub open spec fn player_radius(r: GRect) -> int {
    tdiv(r.h * 25, 1000)
}

/// Radius of the ball circle: 3.5 percent of the screen height.
pub open spec fn ball_radius(r: GRect) -> int {
    tdiv(r.h * 35, 1000)
}

/// Raw movement direction from the held keys, one `UNIT` per axis.
pub open spec fn move_raw(i: GInputs) -> GV2 {
    GV2 {
        x: (if i.held_a {
            -(UNIT as int)
        } else {
            0
        }) + (if i.held_d {
            UNIT as int
        } else {
            0
        }),
        y: (if i.held_w {
            -(UNIT as int)
        } else {
            0
        }) + (if i.held_s {
            UNIT as int
        } else {
            0
        }),
    }
}

/// Whether a swing from `player` facing along `facing` connects with a ball
/// at `ball`: inside the swing radius, and within half the arc of the facing
/// direction (the cosine of the angle above `COS_HALF_ARC`).
pub open spec fn swing_hits_spec(player: GV2, ball: GV2, facing: GV2) -> bool {
    let to_ball = vsub(ball, player);
    &&& vmag(to_ball) < SWING_RADIUS
    &&& vdot_unit(vnorm(to_ball), facing) > COS_HALF_ARC
}

/// Containment of the player inside the play field, inset by the player
/// radius.  Known quirk, kept deliberately: both axes clamp below the
/// field's right edge, so the vertical upper bound is the right edge, not
/// the bottom edge.  On the square screens the game targets the two
/// coincide; changing it would alter containment on non-square screens.
pub open spec fn contain_player(p: GV2, field: GRect, pr: int) -> GV2 {
    GV2 {
        x: clamp_spec(p.x, field.x + pr, grect_right(field) - pr),
        y: clamp_spec(p.y, field.y + pr, grect_right(field) - pr),
    }
}

/// One wall pass on one axis: the low side, then the high side, each tested
/// independently; on penetration the position is clamped to the boundary and
/// the velocity component inverted.
pub open spec fn resolve_axis(p: int, v: int, lo: int, hi: int) -> (int, int) {
    let pv = if p < lo {
        (lo, -v)
    } else {
        (p, v)
    };
    if pv.0 > hi {
        (hi, -pv.1)
    } else {
        pv
    }
}

/// Every intermediate value of one step, in order of computation.
pub ghost struct StepWork {
    pub player_r: int,
    pub ball_r: int,
    pub field: GRect,
    pub p0: GV2,
    pub b0: GV2,
    pub move_unit: GV2,
    pub vel: GV2,
    pub facing: GV2,
    pub p_moved: GV2,
    pub accept: bool,
    pub t_swing: int,
    pub connect: bool,
    pub ball_vel_mid: GV2,
    pub arc_shown: bool,
    pub p_clamped: GV2,
    pub ball_pos_end: GV2,
    pub ball_vel_end: GV2,
}

/// The full data flow of one step, mirroring the executable code exactly.
pub open spec fn step_work(s: GState, i: GInputs) -> StepWork {
    let player_r = player_radius(i.rect);
    let ball_r = ball_radius(i.rect);
    let field = gplay_area(i.rect);
    let p0 = if s.frame_no == 0 {
        gcentroid(i.rect)
    } else {
        s.player_pos
    };
    let b0 = if s.frame_no == 0 {
        vadd(gcentroid(i.rect), s.ball_pos)
    } else {
        s.ball_pos
    };
    let move_unit = vnorm(move_raw(i));
    let vel = vscale(move_unit, PLAYER_SPEED as int);
    let facing = vnorm(vsub(i.mouse, p0));
    let p_moved = vadd(p0, vdisp(vel, i.dt));
    let accept = i.lmb == KeyStatus::JustPressed && s.t - s.t_swing > SWING_COOLDOWN;
    let t_swing = if accept {
        s.t
    } else {
        s.t_swing
    };
    let connect = accept && swing_hits_spec(p_moved, b0, facing);
    let ball_vel_mid = if connect {
        vscale(facing, HIT_BALL_SPEED as int)
    } else {
        s.ball_vel
    };
    let arc_shown = s.t - t_swing < ARC_SHOW_TIME;
    let p_clamped = contain_player(p_moved, field, player_r);
    let ball_moved = vadd(b0, vdisp(ball_vel_mid, i.dt));
    let rx = resolve_axis(ball_moved.x, ball_vel_mid.x, field.x + ball_r,
        grect_right(field) - ball_r);
    let ry = resolve_axis(ball_moved.y, ball_vel_mid.y, field.y + ball_r,
        grect_bot(field) - ball_r);
    StepWork {
        player_r,
        ball_r,
        field,
        p0,
        b0,
        move_unit,
        vel,
        facing,
        p_moved,
        accept,
        t_swing,
        connect,
        ball_vel_mid,
        arc_shown,
        p_clamped,
        ball_pos_end: GV2 { x: rx.0, y: ry.0 },
        ball_vel_end: GV2 { x: rx.1, y: ry.1 },
    }
}

/// The state after one step.
pub open spec fn step_state(s: GState, i: GInputs) -> GState {
    let w = step_work(s, i);
    GState {
        frame_no: s.frame_no + 1,
        t: s.t + i.dt,
        seed: s.seed,
        player_pos: w.p_clamped,
        player_vel: w.vel,
        player_facing: w.facing,
        player_health: s.player_health,
        t_swing: w.t_swing,
        ball_pos: w.ball_pos_end,
        ball_vel: w.ball_vel_end,
        enemy_pos: s.enemy_pos,
        enemy_vel: s.enemy_vel,
        enemy_health: s.enemy_health,
    }
}

/// The primitives one step appends to the canvas, in order: the swing arc
/// while visible, the screen border, the play field, the player body and its
/// two ear circles, the ball and its inner ring.
pub open spec fn step_prims(s: GState, i: GInputs) -> Seq<GPrim> {
    let w = step_work(s, i);
    let tail = seq![
        GPrim::Rect { rect: i.rect, depth: DEPTH_BORDER as int, color: fg_spec() },
        GPrim::Rect { rect: w.field, depth: DEPTH_FIELD as int, color: bg_spec() },
        GPrim::Circle {
            center: w.p_clamped,
            radius: w.player_r,
            depth: DEPTH_BODY as int,
            color: fg_spec(),
        },
        GPrim::Circle {
            center: vadd(w.p_clamped, vscale(GV2 { x: w.facing.y, y: -w.facing.x }, w.player_r)),
            radius: tdiv(w.player_r, 2),
            depth: DEPTH_BODY as int,
            color: fg_spec(),
        },
        GPrim::Circle {
            center: vadd(w.p_clamped, vscale(GV2 { x: -w.facing.y, y: w.facing.x }, w.player_r)),
            radius: tdiv(w.player_r, 2),
            depth: DEPTH_BODY as int,
            color: fg_spec(),
        },
        GPrim::Circle {
            center: w.ball_pos_end,
            radius: w.ball_r,
            depth: DEPTH_BODY as int,
            color: fg_spec(),
        },
        GPrim::Circle {
            center: w.ball_pos_end,
            radius: tdiv(w.ball_r * 8, 10),
            depth: DEPTH_RING as int,
            color: bg_spec(),
        },
    ];
    if w.arc_shown {
        seq![
            GPrim::CircleArc {
                center: w.p_moved,
                radius: SWING_RADIUS as int,
                dir: w.facing,
                degrees: SWING_DEGREES as int,
                depth: DEPTH_ARC as int,
                color: fg_spec(),
            },
        ] + tail
    } else {
        tail
    }
}

/// Whether a swing from `player` facing along `facing` connects with a ball
/// at `ball`.
pub fn swing_hits(player: V2, ball: V2, facing: V2) -> (r: bool)
    requires
        in_box(vsub(ball@, player@), VEC_LIMIT as int),
        in_box(facing@, UNIT as int),
        i64::MIN <= ball@.x - player@.x,
        i64::MIN <= ball@.y - player@.y,
    ensures
        r == swing_hits_spec(player@, ball@, facing@),
{
    let to_ball = ball.minus(player);
    let d = to_ball.magnitude();
    let dp = to_ball.normalized().dot_unit(facing);
    d < SWING_RADIUS && dp > COS_HALF_ARC
}

/// The authoritative game state: created once, mutated only by `frame`.
pub struct Game {
    frame_no: u64,
    seed: u32,
    t: i64,
    player_pos: V2,
    player_vel: V2,
    player_facing: V2,
    player_health: i64,
    t_swing: i64,
    ball_pos: V2,
    ball_vel: V2,
    enemy_pos: Vec<V2>,
    enemy_vel: Vec<V2>,
    enemy_health: Vec<i64>,
}

impl View for Game {
    type V = GState;

    closed spec fn view(&self) -> GState {
        GState {
            frame_no: self.frame_no as nat,
            t: self.t as int,
            seed: self.seed as int,
            player_pos: self.player_pos@,
            player_vel: self.player_vel@,
            player_facing: self.player_facing@,
            player_health: self.player_health as int,
            t_swing: self.t_swing as int,
            ball_pos: self.ball_pos@,
            ball_vel: self.ball_vel@,
            enemy_pos: self.enemy_pos@.map_values(|v: V2| v@),
            enemy_vel: self.enemy_vel@.map_values(|v: V2| v@),
            enemy_health: self.enemy_health@.map_values(|h: i64| h as int),
        }
    }
}

impl Game {
    pub fn new(seed: u32) -> (g: Game)
        ensures
            g@ == initial_state(seed),
            g@.wf(),
    {
        let g = Game {
            frame_no: 0,
            seed,
            t: 0,
            player_pos: V2 { x: 0, y: 0 },
            player_vel: V2 { x: 0, y: 0 },
            player_facing: V2 { x: 0, y: 0 },
            player_health: START_HEALTH,
            t_swing: START_SWING_T,
            ball_pos: V2 { x: BALL_START_X, y: BALL_START_Y },
            ball_vel: V2 { x: BALL_VEL_X, y: BALL_VEL_Y },
            enemy_pos: Vec::new(),
            enemy_vel: Vec::new(),
            enemy_health: Vec::new(),
        };
        proof {
            assert(g@.enemy_pos =~= Seq::<GV2>::empty());
            assert(g@.enemy_vel =~= Seq::<GV2>::empty());
            assert(g@.enemy_health =~= Seq::<int>::empty());
        }
        g
    }

    pub fn frame_count(&self) -> (n: u64)
        ensures
            n == self@.frame_no,
    {
        self.frame_no
    }

    pub fn seed(&self) -> (s: u32)
        ensures
            s == self@.seed,
    {
        self.seed
    }

    /// Elapsed time in microseconds.
    pub fn elapsed_micros(&self) -> (t: i64)
        ensures
            t == self@.t,
    {
        self.t
    }

    /// Timestamp of the last accepted swing, in microseconds.
    pub fn last_swing_micros(&self) -> (t: i64)
        ensures
            t == self@.t_swing,
    {
        self.t_swing
    }

    pub fn player_pos(&self) -> (p: V2)
        ensures
            p@ == self@.player_pos,
    {
        self.player_pos
    }

    pub fn player_vel(&self) -> (v: V2)
        ensures
            v@ == self@.player_vel,
    {
        self.player_vel
    }

    pub fn player_facing(&self) -> (f: V2)
        ensures
            f@ == self@.player_facing,
    {
        self.player_facing
    }

    /// Player health in millionths.
    pub fn player_health(&self) -> (h: i64)
        ensures
            h == self@.player_health,
    {
        self.player_health
    }

    pub fn ball_pos(&self) -> (p: V2)
        ensures
            p@ == self@.ball_pos,
    {
        self.ball_pos
    }

    pub fn ball_vel(&self) -> (v: V2)
        ensures
            v@ == self@.ball_vel,
    {
        self.ball_vel
    }

    /// Reserved extension point: no current rule creates enemies.
    pub fn enemy_count(&self) -> (n: usize)
        ensures
            n == self@.enemy_pos.len(),
    {
        self.enemy_pos.len()
    }

    /// The state transition of one step, without the drawing: movement,
    /// swing, containment, ball physics, then the unconditional frame and
    /// time advance.  Returns the frame's radii, play field, pre-containment
    /// player position and arc visibility for the drawing pass.
    #[verifier::rlimit(100)]
    fn advance(&mut self, inputs: &FrameInputs) -> (r: (i64, i64, Rect, V2, bool))
        requires
            old(self)@.wf(),
            inputs@.valid(),
            old(self)@.t + inputs@.dt <= T_LIMIT,
            old(self)@.frame_no < u64::MAX,
        ensures
            final(self)@ == step_state(old(self)@, inputs@),
            final(self)@.wf(),
            r.0 == step_work(old(self)@, inputs@).player_r,
            r.1 == step_work(old(self)@, inputs@).ball_r,
            r.2@ == step_work(old(self)@, inputs@).field,
            r.3@ == step_work(old(self)@, inputs@).p_moved,
            r.4 == step_work(old(self)@, inputs@).arc_shown,
            0 <= r.0 <= 12_500_000,
            0 <= r.1 <= 17_500_000,
    {
        let ghost w = step_work(old(self)@, inputs@);
        let dt = inputs.dt;
        let rect = inputs.screen_rect;
        let player_r = mul_div(rect.h, 25, 1000);
        let ball_r = mul_div(rect.h, 35, 1000);
        let game_rect = rect.play_area();
        proof {
            assert(player_r == w.player_r && ball_r == w.ball_r && game_rect@ == w.field);
            assert(0 <= player_r <= 12_500_000);
            assert(0 <= ball_r <= 17_500_000);
        }

        if self.frame_no == 0 {
            self.player_pos = rect.centroid();
            self.ball_pos = self.player_pos.plus(self.ball_pos);
        }
        proof {
            assert(self.player_pos@ == w.p0 && self.ball_pos@ == w.b0);
            assert(in_box(w.p0, 1_100_000_000));
            assert(in_box(w.b0, 1_850_000_000));
        }

        let mut mx: i64 = 0;
        let mut my: i64 = 0;
        if inputs.held_w {
            my = my - UNIT;
        }
        if inputs.held_s {
            my = my + UNIT;
        }
        if inputs.held_a {
            mx = mx - UNIT;
        }
        if inputs.held_d {
            mx = mx + UNIT;
        }
        let mv = V2 { x: mx, y: my };
        proof {
            assert(mv@ == move_raw(inputs@));
        }
        let mu = mv.normalized();
        self.player_vel = mu.scaled(PLAYER_SPEED);
        self.player_facing = inputs.mouse_pos.minus(self.player_pos).normalized();
        self.player_pos = self.player_pos.plus(self.player_vel.displacement(dt));
        proof {
            assert(self.player_vel@ == w.vel && self.player_facing@ == w.facing);
            assert(self.player_pos@ == w.p_moved);
            assert(in_box(w.p_moved, 1_105_000_000));
        }

        let hit = swing_hits(self.player_pos, self.ball_pos, self.player_facing);
        if inputs.lmb == KeyStatus::JustPressed {
            if self.t - self.t_swing > SWING_COOLDOWN {
                self.t_swing = self.t;
                if hit {
                    self.ball_vel = self.player_facing.scaled(HIT_BALL_SPEED);
                }
            }
        }
        proof {
            assert(self.t_swing == w.t_swing && self.ball_vel@ == w.ball_vel_mid);
            assert(in_box(w.ball_vel_mid, VEL_LIMIT as int));
        }
        let arc_shown = self.t - self.t_swing < ARC_SHOW_TIME;
        let p_moved = self.player_pos;

        let lo_x = game_rect.x + player_r;
        let lo_y = game_rect.y + player_r;
        // Both axes clamp below the field's right edge; see contain_player.
        let hi_p = game_rect.right() - player_r;
        self.player_pos = V2 {
            x: clamp64(self.player_pos.x, lo_x, hi_p),
            y: clamp64(self.player_pos.y, lo_y, hi_p),
        };
        proof {
            assert(self.player_pos@ == w.p_clamped);
            assert(in_box(w.p_clamped, POS_LIMIT as int));
        }

        self.ball_pos = self.ball_pos.plus(self.ball_vel.displacement(dt));
        let blo_x = game_rect.x + ball_r;
        let bhi_x = game_rect.right() - ball_r;
        let blo_y = game_rect.y + ball_r;
        let bhi_y = game_rect.bot() - ball_r;
        if self.ball_pos.x < blo_x {
            self.ball_pos = V2 { x: blo_x, y: self.ball_pos.y };
            self.ball_vel = V2 { x: -self.ball_vel.x, y: self.ball_vel.y };
        }
        if self.ball_pos.x > bhi_x {
            self.ball_pos = V2 { x: bhi_x, y: self.ball_pos.y };
            self.ball_vel = V2 { x: -self.ball_vel.x, y: self.ball_vel.y };
        }
        if self.ball_pos.y < blo_y {
            self.ball_pos = V2 { x: self.ball_pos.x, y: blo_y };
            self.ball_vel = V2 { x: self.ball_vel.x, y: -self.ball_vel.y };
        }
        if self.ball_pos.y > bhi_y {
            self.ball_pos = V2 { x: self.ball_pos.x, y: bhi_y };
            self.ball_vel = V2 { x: self.ball_vel.x, y: -self.ball_vel.y };
        }
        proof {
            assert(self.ball_pos@ == w.ball_pos_end && self.ball_vel@ == w.ball_vel_end);
            assert(in_box(w.ball_pos_end, POS_LIMIT as int));
        }

        self.frame_no = self.frame_no + 1;
        self.t = self.t + dt;

        proof {
            assert(self@ == step_state(old(self)@, inputs@));
            assert(self@.wf());
        }
        (player_r, ball_r, game_rect, p_moved, arc_shown)
    }

    /// One simulation step: movement, swing, containment, ball physics, and
    /// drawing, then the unconditional frame and time advance.
    #[verifier::rlimit(100)]
    pub fn frame(&mut self, inputs: &FrameInputs, outputs: &mut FrameOutputs)
        requires
            old(self)@.wf(),
            inputs@.valid(),
            old(self)@.t + inputs@.dt <= T_LIMIT,
            old(self)@.frame_no < u64::MAX,
        ensures
            final(self)@ == step_state(old(self)@, inputs@),
            final(self)@.wf(),
            final(outputs).canvas@ == old(outputs).canvas@ + step_prims(old(self)@, inputs@),
    {
        let ghost s0 = old(self)@;
        let ghost w = step_work(s0, inputs@);
        let ghost base = outputs.canvas@;
        let fg = foreground();
        let bg = background();
        let rect = inputs.screen_rect;

        let (player_r, ball_r, game_rect, p_moved, arc_shown) = self.advance(inputs);

        let facing = self.player_facing;
        let body = self.player_pos;
        let ball = self.ball_pos;
        proof {
            assert(facing@ == w.facing && body@ == w.p_clamped && ball@ == w.ball_pos_end);
            assert(in_box(facing@, UNIT as int) && in_box(body@, POS_LIMIT as int));
        }

        if arc_shown {
            outputs.canvas.put_circle_arc(p_moved, SWING_RADIUS, facing, SWING_DEGREES,
                DEPTH_ARC, fg);
        }
        outputs.canvas.put_rect(rect, DEPTH_BORDER, fg);
        outputs.canvas.put_rect(game_rect, DEPTH_FIELD, bg);
        outputs.canvas.put_circle(body, player_r, DEPTH_BODY, fg);
        let ear_r = mul_div(player_r, 1, 2);
        let perp_a = V2 { x: facing.y, y: -facing.x };
        let perp_b = V2 { x: -facing.y, y: facing.x };
        outputs.canvas.put_circle(body.plus(perp_a.scaled(player_r)), ear_r, DEPTH_BODY, fg);
        outputs.canvas.put_circle(body.plus(perp_b.scaled(player_r)), ear_r, DEPTH_BODY, fg);
        outputs.canvas.put_circle(ball, ball_r, DEPTH_BODY, fg);
        let ring_r = mul_div(ball_r, 8, 10);
        outputs.canvas.put_circle(ball, ring_r, DEPTH_RING, bg);

        proof {
            assert(outputs.canvas@ =~= base + step_prims(s0, inputs@));
        }
    }
}

} // verus!
