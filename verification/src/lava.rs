//! Lava: a player who stays in it burns, flashes red and is sent back to the
//! start.

use crate::physics::{any_overlap, spec_any_overlap};
use crate::player::{reset_position, Position};
use crate::timer::{advance, just_finished, spec_advance, spec_just_finished};
use bevy::time::Timer;
use std::time::Duration;
use vstd::prelude::*;

verus! {

/// The value of a lava cell in the grid of a level.
pub const LAVA_CELL: i32 = 2;

/// How long the player may stay in lava.
pub const LAVA_CONTACT_MILLIS: u32 = 600;

/// How long a burning player shows each colour.
pub const BURN_FLASH_MILLIS: u32 = 100;

/// What a frame finds out about the player and the lava.
#[derive(Clone, Copy, Debug, PartialEq, Eq, Structural)]
pub enum LavaChange {
    /// The player stepped into lava: the countdown of
    /// [`LAVA_CONTACT_MILLIS`] begins, and the player burns, flashing every
    /// [`BURN_FLASH_MILLIS`], the colour of this moment kept for later.
    Entered,
    /// The player got out: the countdown and the burning end, and the
    /// player is shown in white.
    Left,
    Unchanged,
}

pub open spec fn spec_detect_lava(contacts: Seq<Option<bool>>, is_burning: bool) -> LavaChange {
    let in_lava = spec_any_overlap(contacts);
    if in_lava && !is_burning {
        LavaChange::Entered
    } else if !in_lava && is_burning {
        LavaChange::Left
    } else {
        LavaChange::Unchanged
    }
}

/// Finds out whether the player entered or left the lava.
///
/// `contacts` holds, for each piece of lava there is, what the physics
/// engine says of it and the player.
pub fn detect_lava(contacts: &Vec<Option<bool>>, is_burning: bool) -> (out: LavaChange)
    ensures
        out == spec_detect_lava(contacts@, is_burning),
{
    let in_lava = any_overlap(contacts);
    if in_lava && !is_burning {
        LavaChange::Entered
    } else if !in_lava && is_burning {
        LavaChange::Left
    } else {
        LavaChange::Unchanged
    }
}

/// The end of a player who stayed in the lava.
#[derive(Clone, Copy, Debug, PartialEq, Eq, Structural)]
pub struct Respawn {
    /// Where the player is put, at rest.
    pub position: Position,
    /// The player gets the colour from before the burning back.
    pub restore_color: bool,
}

/// When the countdown has just run out the player starts again, and both
/// the countdown and the burning end.
pub open spec fn spec_respawn(just_finished: bool, burning: bool) -> Option<Respawn> {
    if just_finished {
        Some(Respawn { position: reset_position(), restore_color: burning })
    } else {
        None
    }
}

/// Decides the end of a player in lava once the countdown has run for the
/// frame.
pub fn respawn(just_finished: bool, burning: bool) -> (out: Option<Respawn>)
    ensures
        out == spec_respawn(just_finished, burning),
{
    if just_finished {
        Some(Respawn { position: reset_position(), restore_color: burning })
    } else {
        None
    }
}

/// Runs the countdown of a player in lava for a frame of `delta`, and sends
/// the player back to the start when it has just run out.
pub fn check_lava_timer(timer: &mut Timer, delta: Duration, burning: bool) -> (out: Option<
    Respawn,
>)
    ensures
        *final(timer) == spec_advance(*old(timer), delta),
        out == spec_respawn(spec_just_finished(*final(timer)), burning),
{
    advance(timer, delta);
    respawn(just_finished(timer), burning)
}

/// The colours of a burning player.
#[derive(Clone, Copy, Debug, PartialEq, Eq, Structural)]
pub enum Tint {
    /// The colour from before the burning.
    Original,
    Red,
}

/// Each time the flashing comes round, a red player takes the colour from
/// before the burning and any other turns red.
pub open spec fn spec_flash(just_finished: bool, is_red: bool) -> Option<Tint> {
    if !just_finished {
        None
    } else if is_red {
        Some(Tint::Original)
    } else {
        Some(Tint::Red)
    }
}

/// Decides the colour of a burning player once the flashing has run for the
/// frame.
pub fn flash(just_finished: bool, is_red: bool) -> (out: Option<Tint>)
    ensures
        out == spec_flash(just_finished, is_red),
{
    if !just_finished {
        None
    } else if is_red {
        Some(Tint::Original)
    } else {
        Some(Tint::Red)
    }
}

/// The flashing runs only while the countdown does.
pub open spec fn spec_flashing_after(timer: Timer, delta: Duration, has_contact: bool) -> Timer {
    if has_contact {
        spec_advance(timer, delta)
    } else {
        timer
    }
}

/// One frame of a burning player: the new colour, if the colour changes.
///
/// While the countdown runs, the flashing runs for a frame of `delta` and
/// the player flashes when its time has just come. Without a countdown the
/// player takes the colour from before the burning and the flashing rests.
pub fn burning_effect(timer: &mut Timer, delta: Duration, has_contact: bool, is_red: bool) -> (out:
    Option<Tint>)
    ensures
        *final(timer) == spec_flashing_after(*old(timer), delta, has_contact),
        out == if has_contact {
            spec_flash(spec_just_finished(*final(timer)), is_red)
        } else {
            Some(Tint::Original)
        },
{
    if !has_contact {
        return Some(Tint::Original);
    }
    advance(timer, delta);
    flash(just_finished(timer), is_red)
}

/// A player who burns already does not begin to burn again, and one who
/// does not burn cannot leave the lava.
pub proof fn lemma_burning_flips(contacts: Seq<Option<bool>>, is_burning: bool)
    ensures
        spec_detect_lava(contacts, is_burning) == LavaChange::Entered ==> !is_burning,
        spec_detect_lava(contacts, is_burning) == LavaChange::Left ==> is_burning,
        spec_detect_lava(contacts, is_burning) == LavaChange::Unchanged ==> is_burning
            == spec_any_overlap(contacts),
{
}

} // verus!
