//! Per-frame inputs: elapsed time, screen rectangle, held keys, mouse.

use vstd::prelude::*;

verus! {

use crate::geom::{V2, GV2, Rect, GRect};
use crate::num::{DT_LIMIT, MAX_COORD};

/// Level and edge state of a button.
#[derive(Clone, Copy, PartialEq, Eq, Structural, Debug)]
pub enum KeyStatus {
    Up,
    JustPressed,
    Held,
    JustReleased,
}

/// Mathematical model of one frame's inputs.
pub ghost struct GInputs {
    pub dt: int,
    pub rect: GRect,
    pub held_w: bool,
    pub held_a: bool,
    pub held_s: bool,
    pub held_d: bool,
    pub mouse: GV2,
    pub lmb: KeyStatus,
}

impl GInputs {
    /// What the step accepts: a non-negative bounded delta time, and screen
    /// and mouse coordinates within the machine limits.
    pub open spec fn valid(self) -> bool {
        &&& 0 <= self.dt <= DT_LIMIT
        &&& -MAX_COORD <= self.rect.x <= MAX_COORD
        &&& -MAX_COORD <= self.rect.y <= MAX_COORD
        &&& 0 <= self.rect.w <= MAX_COORD
        &&& 0 <= self.rect.h <= MAX_COORD
        &&& -MAX_COORD <= self.mouse.x <= MAX_COORD
        &&& -MAX_COORD <= self.mouse.y <= MAX_COORD
    }
}

/// One frame's inputs: delta time in microseconds, the screen rectangle,
/// which of the four movement keys are held, the mouse position, and the
/// left-mouse-button status.
#[derive(Clone, Copy)]
pub struct FrameInputs {
    pub dt: i64,
    pub screen_rect: Rect,
    pub held_w: bool,
    pub held_a: bool,
    pub held_s: bool,
    pub held_d: bool,
    pub mouse_pos: V2,
    pub lmb: KeyStatus,
}

impl View for FrameInputs {
    type V = GInputs;

    open spec fn view(&self) -> GInputs {
        GInputs {
            dt: self.dt as int,
            rect: self.screen_rect@,
            held_w: self.held_w,
            held_a: self.held_a,
            held_s: self.held_s,
            held_d: self.held_d,
            mouse: self.mouse_pos@,
            lmb: self.lmb,
        }
    }
}

} // verus!
