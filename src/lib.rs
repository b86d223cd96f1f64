//! Movement and sprite-animation rules of a small 2D walking demo.
//!
//! The library holds the decisions the demo makes each frame: how the
//! keyboard turns into a movement state and a step, and which sprite-sheet
//! frame to show when the animation timer fires. Rendering, windowing, the
//! timer itself and reading the keyboard belong to the host engine.
use vstd::prelude::*;

pub mod animation;
pub mod keyboard;
pub mod movement;

verus! {

/// Marker for the player entity.
#[derive(Clone, Copy, Debug, PartialEq, Eq, Structural)]
pub struct Player {}

} // verus!
