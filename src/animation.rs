//! Which sprite-sheet frame to show when the animation timer fires.
use vstd::prelude::*;
use crate::movement::MovementState;

verus! {

/// Frames on the sprite sheet: one row, walking right then walking left.
pub const SHEET_FRAMES: usize = 16;

/// The frame shown while standing, facing right.
pub const IDLE_RIGHT_FRAME: usize = 2;

/// The frame shown while standing, facing left.
pub const IDLE_LEFT_FRAME: usize = 10;

/// How far the left-facing strip lies from the right-facing one.
pub const LEFT_STRIP_OFFSET: usize = 8;

/// The range of frames, `first` to `last` inclusive, that makes up the
/// walk cycle of the right-facing strip.
#[derive(Clone, Copy, Debug, PartialEq, Eq, Structural)]
pub struct AnimationIndices {
    pub first: usize,
    pub last: usize,
}

impl AnimationIndices {
    /// The cycle is not empty and its mirrored copy still lies on the sheet.
    pub open spec fn fits_sheet(self) -> bool {
        &&& self.first <= self.last
        &&& self.last + LEFT_STRIP_OFFSET < SHEET_FRAMES
    }

    /// The walk cycle of the player's sheet: frames 0 to 7.
    pub fn walk_cycle() -> (r: AnimationIndices)
        ensures
            r.first == 0,
            r.last == 7,
            r.fits_sheet(),
    {
        AnimationIndices { first: 0, last: 7 }
    }
}

/// The shift of the frame window for a state: the left strip for `Left`,
/// none otherwise.
pub open spec fn strip_offset(s: MovementState) -> int {
    if s == MovementState::Left {
        LEFT_STRIP_OFFSET as int
    } else {
        0
    }
}

/// The frame after `index` when the timer fires. Idle states show their
/// fixed frame; walking steps through `[first + off, last + off]` and starts
/// over at `first + off` from the end of that window or from below it.
pub open spec fn next_frame_of(s: MovementState, ind: AnimationIndices, index: int) -> int {
    match s {
        MovementState::IdleRight => IDLE_RIGHT_FRAME as int,
        MovementState::IdleLeft => IDLE_LEFT_FRAME as int,
        _ => {
            let off = strip_offset(s);
            if index >= ind.last + off || index < ind.first + off {
                ind.first + off
            } else {
                index + 1
            }
        },
    }
}

/// The frame to show after `index` when the animation timer fires.
pub fn next_frame(state: MovementState, indices: &AnimationIndices, index: usize) -> (r: usize)
    requires
        state == MovementState::Left ==> indices.first + LEFT_STRIP_OFFSET <= usize::MAX,
        state == MovementState::Left ==> indices.last + LEFT_STRIP_OFFSET <= usize::MAX,
    ensures
        r == next_frame_of(state, *indices, index as int),
{
    match state {
        MovementState::IdleRight => IDLE_RIGHT_FRAME,
        MovementState::IdleLeft => IDLE_LEFT_FRAME,
        _ => {
            let offset: usize = if state == MovementState::Left {
                LEFT_STRIP_OFFSET
            } else {
                0
            };
            let start: usize = indices.first + offset;
            if index >= indices.last + offset || index < start {
                start
            } else {
                index + 1
            }
        },
    }
}

/// While walking, the next frame lies inside the walk window, whatever the
/// frame before it.
pub proof fn lemma_walk_stays_in_window(s: MovementState, ind: AnimationIndices, index: int)
    requires
        s == MovementState::Left || s == MovementState::Right,
        ind.first <= ind.last,
    ensures
        ind.first + strip_offset(s) <= next_frame_of(s, ind, index) <= ind.last + strip_offset(s),
{
}

/// On a cycle that fits the sheet, a frame on the sheet is followed by a
/// frame on the sheet.
pub proof fn lemma_frame_stays_on_sheet(s: MovementState, ind: AnimationIndices, index: int)
    requires
        ind.fits_sheet(),
        0 <= index < SHEET_FRAMES,
    ensures
        0 <= next_frame_of(s, ind, index) < SHEET_FRAMES,
{
}

} // verus!
