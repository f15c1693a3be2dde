//! Frame-level behavior of the simulation step.

use swingball::draw::{Color, FrameOutputs, Prim};
use swingball::game::Game;
use swingball::geom::{Rect, V2};
use swingball::input::{FrameInputs, KeyStatus};

fn v(x: i64, y: i64) -> V2 {
    V2 { x, y }
}

fn square_screen() -> Rect {
    Rect { x: 0, y: 0, w: 2_000_000, h: 2_000_000 }
}

fn quiet(dt: i64) -> FrameInputs {
    FrameInputs {
        dt,
        screen_rect: square_screen(),
        held_w: false,
        held_a: false,
        held_s: false,
        held_d: false,
        mouse_pos: v(0, 0),
        lmb: KeyStatus::Up,
    }
}

fn fg() -> Color {
    Color { r: 1000, g: 250, b: 0, a: 1000 }
}

fn bg() -> Color {
    Color { r: 1000, g: 900, b: 800, a: 1000 }
}

#[test]
fn new_game_initial_state() {
    let g = Game::new(42);
    assert_eq!(g.seed(), 42);
    assert_eq!(g.frame_count(), 0);
    assert_eq!(g.elapsed_micros(), 0);
    assert_eq!(g.last_swing_micros(), -100_000_000);
    assert_eq!(g.player_pos(), v(0, 0));
    assert_eq!(g.player_health(), 100_000_000);
    assert_eq!(g.ball_pos(), v(150_000, 200_000));
    assert_eq!(g.ball_vel(), v(100_000, 210_000));
    assert_eq!(g.enemy_count(), 0);
}

#[test]
fn frame_zero_places_player_on_centroid() {
    let mut g = Game::new(0);
    let mut out = FrameOutputs::new();
    g.frame(&quiet(0), &mut out);
    assert_eq!(g.player_pos(), v(1_000_000, 1_000_000));
    // The ball starts at its configured offset from the player.
    assert_eq!(g.ball_pos(), v(1_150_000, 1_200_000));
    assert_eq!(g.frame_count(), 1);
}

#[test]
fn containment_keeps_player_fixed_across_quiet_frames() {
    let mut g = Game::new(0);
    let mut out = FrameOutputs::new();
    g.frame(&quiet(0), &mut out);
    let before = g.player_pos();
    g.frame(&quiet(0), &mut out);
    g.frame(&quiet(0), &mut out);
    assert_eq!(g.player_pos(), before);
}

#[test]
fn wall_reflection_on_right_boundary() {
    let mut g = Game::new(0);
    let mut out = FrameOutputs::new();
    g.frame(&quiet(0), &mut out);
    // Bottom wall first: y would reach 1_935_000, past 1_830_000.
    g.frame(&quiet(3_500_000), &mut out);
    assert_eq!(g.ball_pos(), v(1_500_000, 1_830_000));
    assert_eq!(g.ball_vel(), v(100_000, -210_000));
    // Then the right wall: x would reach 1_900_000, past 1_830_000; the
    // position is clamped to the boundary and only the x velocity flips.
    g.frame(&quiet(4_000_000), &mut out);
    assert_eq!(g.ball_pos(), v(1_830_000, 990_000));
    assert_eq!(g.ball_vel(), v(-100_000, -210_000));
}

#[test]
fn cooldown_gates_second_swing() {
    let mut g = Game::new(0);
    let mut out = FrameOutputs::new();
    let mut press = quiet(400_000);
    press.lmb = KeyStatus::JustPressed;
    // First press: far past the initial timestamp, accepted at t = 0.
    g.frame(&press, &mut out);
    assert_eq!(g.last_swing_micros(), 0);
    // Second press 0.4 s later: inside the 0.5 s cooldown, refused.
    let mut press_again = quiet(0);
    press_again.lmb = KeyStatus::JustPressed;
    g.frame(&press_again, &mut out);
    assert_eq!(g.last_swing_micros(), 0);
    // After 0.4 s more the window has passed: accepted at t = 0.8 s.
    g.frame(&quiet(400_000), &mut out);
    let mut third = quiet(0);
    third.lmb = KeyStatus::JustPressed;
    g.frame(&third, &mut out);
    assert_eq!(g.last_swing_micros(), 800_000);
}

#[test]
fn connecting_swing_overwrites_ball_velocity() {
    let mut g = Game::new(0);
    let mut out = FrameOutputs::new();
    g.frame(&quiet(0), &mut out);
    // Move down-right for one second while pressing, with the mouse placed
    // so the facing points exactly at where the ball will be relative to
    // the moved player: distance 63_305 ticks, well inside the swing.
    let swing = FrameInputs {
        dt: 1_000_000,
        screen_rect: square_screen(),
        held_w: false,
        held_a: false,
        held_s: true,
        held_d: true,
        mouse_pos: v(937_868, 987_868),
        lmb: KeyStatus::JustPressed,
    };
    let mut out2 = FrameOutputs::new();
    g.frame(&swing, &mut out2);
    assert_eq!(g.player_pos(), v(1_212_132, 1_212_132));
    assert_eq!(g.last_swing_micros(), 0);
    // Ball velocity is exactly facing * 0.5, then integrated this frame.
    assert_eq!(g.ball_vel(), v(-490_735, -95_821));
    assert_eq!(g.ball_pos(), v(659_265, 1_104_179));
    // The swing arc is drawn this frame, ahead of the other primitives.
    assert_eq!(out2.canvas.len(), 8);
    match out2.canvas.item(0) {
        Prim::CircleArc { center, radius, dir, degrees, depth, color } => {
            assert_eq!(center, v(1_212_132, 1_212_132));
            assert_eq!(radius, 250_000);
            assert_eq!(dir, v(-981_470, -191_643));
            assert_eq!(degrees, 90);
            assert_eq!(depth, 105);
            assert_eq!(color, fg());
        }
        other => panic!("expected the swing arc first, got {:?}", other),
    }
}

#[test]
fn missing_swing_leaves_ball_velocity() {
    let mut g = Game::new(0);
    let mut out = FrameOutputs::new();
    g.frame(&quiet(0), &mut out);
    // Press with the ball at distance 0.25, exactly on the radius: the
    // strict inequality refuses the hit, but the swing is still accepted.
    let mut press = quiet(0);
    press.mouse_pos = v(1_150_000, 1_200_000);
    press.lmb = KeyStatus::JustPressed;
    g.frame(&press, &mut out);
    assert_eq!(g.last_swing_micros(), 0);
    assert_eq!(g.ball_vel(), v(100_000, 210_000));
}

#[test]
fn counters_advance_once_per_step() {
    let mut g = Game::new(0);
    let mut out = FrameOutputs::new();
    let dts = [100i64, 250_000, 3_333_333, 0];
    for (i, dt) in dts.iter().enumerate() {
        g.frame(&quiet(*dt), &mut out);
        assert_eq!(g.frame_count(), (i + 1) as u64);
    }
    assert_eq!(g.elapsed_micros(), 3_583_433);
}

#[test]
fn facing_is_independent_of_movement() {
    let mut g = Game::new(0);
    let mut out = FrameOutputs::new();
    g.frame(&quiet(0), &mut out);
    // Hold W while the mouse sits level with and to the right of the player.
    let up = FrameInputs {
        dt: 500_000,
        screen_rect: square_screen(),
        held_w: true,
        held_a: false,
        held_s: false,
        held_d: false,
        mouse_pos: v(1_500_000, 1_000_000),
        lmb: KeyStatus::Up,
    };
    g.frame(&up, &mut out);
    assert!(g.player_vel().y < 0);
    assert_eq!(g.player_vel(), v(0, -300_000));
    assert_eq!(g.player_facing(), v(1_000_000, 0));
    assert_eq!(g.player_pos(), v(1_000_000, 850_000));
}

#[test]
fn quiet_frame_emits_seven_primitives() {
    let mut g = Game::new(0);
    let mut out = FrameOutputs::new();
    g.frame(&quiet(0), &mut out);
    assert_eq!(out.canvas.len(), 7);
    assert_eq!(
        out.canvas.item(0),
        Prim::Rect { rect: square_screen(), depth: 101, color: fg() },
    );
    assert_eq!(
        out.canvas.item(1),
        Prim::Rect {
            rect: Rect { x: 100_000, y: 100_000, w: 1_800_000, h: 1_800_000 },
            depth: 102,
            color: bg(),
        },
    );
    assert_eq!(
        out.canvas.item(2),
        Prim::Circle { center: v(1_000_000, 1_000_000), radius: 50_000, depth: 103, color: fg() },
    );
    // Two ear circles offset perpendicular to the facing direction.
    assert_eq!(
        out.canvas.item(3),
        Prim::Circle { center: v(964_645, 1_035_355), radius: 25_000, depth: 103, color: fg() },
    );
    assert_eq!(
        out.canvas.item(4),
        Prim::Circle { center: v(1_035_355, 964_645), radius: 25_000, depth: 103, color: fg() },
    );
    assert_eq!(
        out.canvas.item(5),
        Prim::Circle { center: v(1_150_000, 1_200_000), radius: 70_000, depth: 103, color: fg() },
    );
    assert_eq!(
        out.canvas.item(6),
        Prim::Circle { center: v(1_150_000, 1_200_000), radius: 56_000, depth: 104, color: bg() },
    );
}

#[test]
fn canvas_appends_across_frames() {
    let mut g = Game::new(0);
    let mut out = FrameOutputs::new();
    g.frame(&quiet(0), &mut out);
    g.frame(&quiet(1000), &mut out);
    assert_eq!(out.canvas.len(), 14);
}

#[test]
fn vertical_clamp_uses_right_edge_on_tall_screens() {
    // Known quirk, pinned here: the vertical containment bound is the play
    // field's right edge.  On this tall screen the centroid's y (1_000_000)
    // is clamped down to right_edge - player_radius = 380_000 - 50_000.
    let mut g = Game::new(0);
    let mut out = FrameOutputs::new();
    let mut i = quiet(0);
    i.screen_rect = Rect { x: 0, y: 0, w: 400_000, h: 2_000_000 };
    g.frame(&i, &mut out);
    assert_eq!(g.player_pos(), v(200_000, 330_000));
}

#[test]
fn degenerate_rect_pins_everything_to_origin() {
    let mut g = Game::new(0);
    let mut out = FrameOutputs::new();
    let mut i = quiet(0);
    i.screen_rect = Rect { x: 0, y: 0, w: 0, h: 0 };
    g.frame(&i, &mut out);
    assert_eq!(g.player_pos(), v(0, 0));
    // The ball spawns at its offset, penetrates both zero-width walls, and
    // is clamped back with both velocity components flipped.
    assert_eq!(g.ball_pos(), v(0, 0));
    assert_eq!(g.ball_vel(), v(-100_000, -210_000));
}
