//! The movement state machine and the keyboard-to-step mapping.
use vstd::prelude::*;
use crate::keyboard::{Key, Keyboard};

verus! {

/// Which way the player faces and whether it is walking.
#[derive(Clone, Copy, Debug, PartialEq, Eq, Structural)]
pub enum MovementState {
    Left,
    Right,
    IdleLeft,
    IdleRight,
}

impl MovementState {
    /// The state a freshly spawned player starts in.
    pub fn initial() -> (r: MovementState)
        ensures
            r == MovementState::IdleRight,
    {
        MovementState::IdleRight
    }
}

/// How far the player walks in one frame while a direction key is held.
pub const WALK_STEP: i32 = 4;

/// How far the circle moves along an axis in one frame.
pub const CIRCLE_STEP: i32 = 5;

/// The state after one frame of input: left wins over right, and releasing
/// a direction with neither held settles into the matching idle state.
pub open spec fn next_state(s: MovementState, kb: Keyboard) -> MovementState {
    if kb.left_held() {
        MovementState::Left
    } else if kb.right_held() {
        MovementState::Right
    } else if kb.left_released() {
        MovementState::IdleLeft
    } else if kb.right_released() {
        MovementState::IdleRight
    } else {
        s
    }
}

/// The horizontal step of the player in one frame.
pub open spec fn walk_dx(kb: Keyboard) -> int {
    if kb.left_held() {
        -WALK_STEP
    } else if kb.right_held() {
        WALK_STEP as int
    } else {
        0
    }
}

/// What one frame of input does to the player.
#[derive(Clone, Copy, Debug, PartialEq, Eq, Structural)]
pub struct PlayerStep {
    pub state: MovementState,
    pub dx: i32,
}

/// Decides the player's new movement state and horizontal step from the
/// keys of this frame.
pub fn move_hello(state: MovementState, kb: &Keyboard) -> (r: PlayerStep)
    ensures
        r.state == next_state(state, *kb),
        r.dx == walk_dx(*kb),
{
    if kb.pressed(Key::KeyA) || kb.pressed(Key::ArrowLeft) {
        PlayerStep { state: MovementState::Left, dx: -WALK_STEP }
    } else if kb.pressed(Key::KeyD) || kb.pressed(Key::ArrowRight) {
        PlayerStep { state: MovementState::Right, dx: WALK_STEP }
    } else if kb.just_released(Key::KeyA) || kb.just_released(Key::ArrowLeft) {
        PlayerStep { state: MovementState::IdleLeft, dx: 0 }
    } else if kb.just_released(Key::KeyD) || kb.just_released(Key::ArrowRight) {
        PlayerStep { state: MovementState::IdleRight, dx: 0 }
    } else {
        PlayerStep { state, dx: 0 }
    }
}

/// The step of the circle along one axis: plus for the first direction,
/// minus for the second, nothing when both or neither are held.
pub open spec fn axis_step(plus: bool, minus: bool) -> int {
    (if plus { CIRCLE_STEP as int } else { 0 }) - (if minus { CIRCLE_STEP as int } else { 0 })
}

/// What one frame of input does to the circle.
#[derive(Clone, Copy, Debug, PartialEq, Eq, Structural)]
pub struct CircleStep {
    pub dx: i32,
    pub dy: i32,
}

/// Decides the circle's step from the keys of this frame: up and right
/// count positive, down and left negative.
pub fn move_circle(kb: &Keyboard) -> (r: CircleStep)
    ensures
        r.dx == axis_step(kb.right_held(), kb.left_held()),
        r.dy == axis_step(kb.up_held(), kb.down_held()),
{
    let mut dx: i32 = 0;
    let mut dy: i32 = 0;
    if kb.pressed(Key::KeyW) || kb.pressed(Key::ArrowUp) {
        dy = dy + CIRCLE_STEP;
    }
    if kb.pressed(Key::KeyS) || kb.pressed(Key::ArrowDown) {
        dy = dy - CIRCLE_STEP;
    }
    if kb.pressed(Key::KeyA) || kb.pressed(Key::ArrowLeft) {
        dx = dx - CIRCLE_STEP;
    }
    if kb.pressed(Key::KeyD) || kb.pressed(Key::ArrowRight) {
        dx = dx + CIRCLE_STEP;
    }
    CircleStep { dx, dy }
}

} // verus!
