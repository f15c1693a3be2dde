//! Per-frame simulation core of a minimal arcade game: a player circle that
//! moves on a bounded field, swings a melee arc at a ball, and a ball that
//! bounces elastically off the field walls.
//!
//! All quantities are fixed-point integers: lengths in millionths of a field
//! unit, times in microseconds.  The whole step is a deterministic state
//! transition, specified by `game::step_state` and `game::step_prims`.

pub mod draw;
pub mod game;
pub mod geom;
pub mod input;
pub mod laws;
pub mod num;
