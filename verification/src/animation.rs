//! The player's sprite sheets and the stepping through their frames.

use crate::timer::{advance, just_finished, reset, spec_advance, spec_just_finished, spec_reset};
use bevy::time::Timer;
use std::time::Duration;
use vstd::prelude::*;

verus! {

/// Edge of one frame of a sprite sheet.
pub const FRAME_SIZE: u32 = 32;

/// The animations of the player.
#[derive(Clone, Copy, Debug, PartialEq, Eq, Hash, Structural)]
pub enum AnimationType {
    Run,
    Jump,
    Idle,
    Grapple,
}

impl Default for AnimationType {
    fn default() -> (out: AnimationType)
        ensures
            out == AnimationType::Run,
    {
        AnimationType::Run
    }
}

/// The grid of frames of a sprite sheet, and how long each frame shows.
#[derive(Clone, Copy, Debug, PartialEq, Eq, Structural)]
pub struct SheetLayout {
    pub columns: u32,
    pub rows: u32,
    pub frame_millis: u32,
}

impl SheetLayout {
    pub open spec fn spec_frame_count(self) -> int {
        self.columns * self.rows
    }
}

/// Jumping and running have a sheet of their own; idling shows the first
/// frame of the running sheet. No sheet was drawn for the hook.
pub open spec fn spec_sheet_layout(animation: AnimationType) -> Option<SheetLayout> {
    match animation {
        AnimationType::Jump => Some(SheetLayout { columns: 3, rows: 3, frame_millis: 100 }),
        AnimationType::Run => Some(SheetLayout { columns: 3, rows: 2, frame_millis: 100 }),
        AnimationType::Idle => Some(SheetLayout { columns: 1, rows: 1, frame_millis: 0 }),
        AnimationType::Grapple => None,
    }
}

/// The grid of the sprite sheet of an animation, if it has a sheet.
pub fn sheet_layout(animation: AnimationType) -> (out: Option<SheetLayout>)
    ensures
        out == spec_sheet_layout(animation),
{
    match animation {
        AnimationType::Jump => Some(SheetLayout { columns: 3, rows: 3, frame_millis: 100 }),
        AnimationType::Run => Some(SheetLayout { columns: 3, rows: 2, frame_millis: 100 }),
        AnimationType::Idle => Some(SheetLayout { columns: 1, rows: 1, frame_millis: 0 }),
        AnimationType::Grapple => None,
    }
}

impl AnimationType {
    pub open spec fn spec_sheet_path(self) -> Option<Seq<char>> {
        match self {
            AnimationType::Jump => Some(
                "industrialAssets/6. Character Animations - Free/Anim_Robot_Jump1_v1.1_spritesheet.png"@,
            ),
            AnimationType::Run => Some(
                "industrialAssets/6. Character Animations - Free/Anim_Robot_Walk1_v1.1_spritesheet.png"@,
            ),
            AnimationType::Idle => Some(
                "industrialAssets/6. Character Animations - Free/Anim_Robot_Walk1_v1.1_spritesheet.png"@,
            ),
            AnimationType::Grapple => None,
        }
    }

    /// The file of the sprite sheet of an animation.
    pub fn sheet_path(self) -> (out: Option<&'static str>)
        ensures
            match out {
                Some(path) => self.spec_sheet_path() == Some(path@),
                None => self.spec_sheet_path() is None,
            },
    {
        match self {
            AnimationType::Jump => Some(
                "industrialAssets/6. Character Animations - Free/Anim_Robot_Jump1_v1.1_spritesheet.png",
            ),
            AnimationType::Run => Some(
                "industrialAssets/6. Character Animations - Free/Anim_Robot_Walk1_v1.1_spritesheet.png",
            ),
            AnimationType::Idle => Some(
                "industrialAssets/6. Character Animations - Free/Anim_Robot_Walk1_v1.1_spritesheet.png",
            ),
            AnimationType::Grapple => None,
        }
    }

    /// Idling shows one frame; every other animation steps through its
    /// sheet.
    pub open spec fn spec_is_animated(self) -> bool {
        self != AnimationType::Idle
    }

    /// Tells whether the animation steps through its sheet.
    #[verifier::when_used_as_spec(spec_is_animated)]
    pub fn is_animated(self) -> (out: bool)
        ensures
            out == self.spec_is_animated(),
    {
        self != AnimationType::Idle
    }
}

/// Every animation that has a sheet has at least one frame on it, and a
/// sheet and a file come together.
pub proof fn lemma_sheets_have_frames(animation: AnimationType)
    ensures
        spec_sheet_layout(animation) is Some <==> animation.spec_sheet_path() is Some,
        spec_sheet_layout(animation) is Some ==> spec_sheet_layout(
            animation,
        )->0.spec_frame_count() >= 1,
{
    assert(3 * 3 == 9 && 3 * 2 == 6 && 1 * 1 == 1);
}

/// The frame after `index` on a sheet of `frame_count` frames, the first
/// frame following the last.
pub open spec fn spec_next_frame(index: usize, frame_count: usize) -> int {
    (index + 1) % (frame_count as int)
}

/// Steps from a frame of a sheet to the next.
pub fn next_frame(index: usize, frame_count: usize) -> (out: usize)
    requires
        frame_count > 0,
        index < usize::MAX,
    ensures
        out == spec_next_frame(index, frame_count),
        out < frame_count,
{
    (index + 1) % frame_count
}

/// The frame to show after a frame of the game. An animation that was
/// switched to begins with its first frame; one that steps through its sheet
/// goes a frame on when the time of the frame on show has just run out and
/// the sheet is at hand.
pub open spec fn spec_frame_after(
    animation: AnimationType,
    switched: bool,
    just_finished: bool,
    index: usize,
    frame_count: Option<usize>,
) -> int {
    let start: usize = if switched {
        0
    } else {
        index
    };
    match frame_count {
        Some(count) if animation.is_animated() && just_finished => spec_next_frame(start, count),
        _ => start as int,
    }
}

/// Decides the frame to show once the frame timer has run for the frame of
/// the game.
pub fn frame_after(
    animation: AnimationType,
    switched: bool,
    just_finished: bool,
    index: usize,
    frame_count: Option<usize>,
) -> (out: usize)
    requires
        frame_count matches Some(count) ==> count > 0,
        !switched ==> index < usize::MAX,
    ensures
        out == spec_frame_after(animation, switched, just_finished, index, frame_count),
{
    let start: usize = if switched {
        0
    } else {
        index
    };
    match frame_count {
        Some(count) if animation.is_animated() && just_finished => next_frame(start, count),
        _ => start,
    }
}

/// The frame timer after a frame of the game: set back when the animation
/// was switched to, and run on if the animation steps through its sheet.
pub open spec fn spec_timer_after(
    timer: Timer,
    delta: Duration,
    animation: AnimationType,
    switched: bool,
) -> Timer {
    let start = if switched {
        spec_reset(timer)
    } else {
        timer
    };
    if animation.is_animated() {
        spec_advance(start, delta)
    } else {
        start
    }
}

/// One frame of the player's animation: runs the frame timer of `animation`
/// for a frame of `delta` and answers with the frame to show.
///
/// `switched` says that the player showed another sheet up to now, `index`
/// is the frame on show and `frame_count` the number of frames on the sheet
/// of `animation`, if the sheet is at hand.
pub fn animate(
    timer: &mut Timer,
    delta: Duration,
    animation: AnimationType,
    switched: bool,
    index: usize,
    frame_count: Option<usize>,
) -> (out: usize)
    requires
        frame_count matches Some(count) ==> count > 0,
        !switched ==> index < usize::MAX,
    ensures
        *final(timer) == spec_timer_after(*old(timer), delta, animation, switched),
        out == spec_frame_after(
            animation,
            switched,
            spec_just_finished(*final(timer)),
            index,
            frame_count,
        ),
{
    if switched {
        reset(timer);
    }
    if animation.is_animated() {
        advance(timer, delta);
        frame_after(animation, switched, just_finished(timer), index, frame_count)
    } else {
        frame_after(animation, switched, false, index, frame_count)
    }
}

/// On its sheet an animation steps from each frame to the next and from the
/// last frame to the first.
pub proof fn lemma_frames_go_round(index: usize, frame_count: usize)
    requires
        index < frame_count,
    ensures
        spec_next_frame(index, frame_count) == if index + 1 == frame_count {
            0
        } else {
            index + 1
        },
{
    if index + 1 == frame_count {
        vstd::arithmetic::div_mod::lemma_mod_self_0(frame_count as int);
    } else {
        vstd::arithmetic::div_mod::lemma_small_mod((index + 1) as nat, frame_count as nat);
    }
}

} // verus!
