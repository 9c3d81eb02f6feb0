//! The player: what the keyboard asks for and what the rules grant.

use crate::animation::AnimationType;
use crate::keyboard::{keyboard, spec_keyboard, Keyboard};
use bevy::input::keyboard::KeyCode;
use bevy::input::ButtonInput;
use vstd::prelude::*;

verus! {

/// Horizontal force per unit of missing speed.
pub const PLAYER_ACCELERATION_MULTIPLIER: u32 = 400;

/// The speed the player runs at once the force has done its work.
pub const PLAYER_TOP_SPEED: u32 = 250;

/// Upward speed at the start of a jump.
pub const PLAYER_JUMP_STRENGTH: u32 = 270;

/// Gravity while the jump key is held on the way up.
pub const GRAVITY_FLOATING: u32 = 55;

/// Gravity otherwise.
pub const GRAVITY_NORMAL: u32 = 100;

/// Gravity while the player asks to fall fast.
pub const GRAVITY_FAST_FALL: u32 = 200;

/// Damping that holds the player to a wall.
pub const CLING_DAMPING: u32 = 15;

/// Collectibles needed before the player may jump once in mid-air.
pub const DOUBLE_JUMP_AT: u8 = 1;

/// Collectibles needed before the player may cling to walls and jump off them.
pub const WALL_CLIMB_AT: u8 = 2;

/// Collectibles needed before the hook shows in the player's animation.
pub const GRAPPLE_AT: u8 = 3;

/// Collectibles after which the trial is over and a restart is no longer offered.
pub const TRIAL_COMPLETE_AT: u8 = 4;

/// Below this height the player has fallen out of the arena.
pub const DEATH_Y_THRESHOLD: i32 = -1257;

/// The player's progress through the arena.
#[derive(Clone, Copy, Debug, PartialEq, Eq, Structural)]
pub struct Player {
    /// How many collectibles were picked up so far.
    pub progression: u8,
    /// The one jump in mid-air is used up.
    pub double_jumped: bool,
}

impl Default for Player {
    fn default() -> (out: Player)
        ensures
            out == (Player { progression: 0, double_jumped: false }),
    {
        Player { progression: 0, double_jumped: false }
    }
}

/// What the player asks for in one frame.
#[derive(Clone, Copy, Debug, PartialEq, Eq, Structural)]
pub struct PlayerInput {
    pub move_left: bool,
    pub move_right: bool,
    pub jump: bool,
    pub jump_held: bool,
    pub fast_fall: bool,
    pub grapple: bool,
    pub grapple_held: bool,
    pub grapple_released: bool,
    pub restart: bool,
}

impl Default for PlayerInput {
    fn default() -> (out: PlayerInput)
        ensures
            out == spec_no_input(),
    {
        PlayerInput {
            move_left: false,
            move_right: false,
            jump: false,
            jump_held: false,
            fast_fall: false,
            grapple: false,
            grapple_held: false,
            grapple_released: false,
            restart: false,
        }
    }
}

/// The input of a player who touches no key.
pub open spec fn spec_no_input() -> PlayerInput {
    PlayerInput {
        move_left: false,
        move_right: false,
        jump: false,
        jump_held: false,
        fast_fall: false,
        grapple: false,
        grapple_held: false,
        grapple_released: false,
        restart: false,
    }
}

/// The key bindings: A or Left and D or Right run, Space jumps, S or Down
/// falls fast, J or the left Shift throws the hook and R restarts.
pub open spec fn spec_key_bindings(keyboard: Keyboard) -> PlayerInput {
    PlayerInput {
        move_left: keyboard.key_a.pressed || keyboard.arrow_left.pressed,
        move_right: keyboard.key_d.pressed || keyboard.arrow_right.pressed,
        jump: keyboard.space.just_pressed,
        jump_held: keyboard.space.pressed,
        fast_fall: keyboard.arrow_down.pressed || keyboard.key_s.pressed,
        grapple: keyboard.key_j.just_pressed || keyboard.shift_left.just_pressed,
        grapple_held: keyboard.key_j.pressed || keyboard.shift_left.pressed,
        grapple_released: keyboard.key_j.just_released || keyboard.shift_left.just_released,
        restart: keyboard.key_r.just_pressed,
    }
}

/// Reads the player's wishes off the keys.
pub fn key_bindings(keyboard: &Keyboard) -> (out: PlayerInput)
    ensures
        out == spec_key_bindings(*keyboard),
{
    PlayerInput {
        move_left: keyboard.key_a.pressed || keyboard.arrow_left.pressed,
        move_right: keyboard.key_d.pressed || keyboard.arrow_right.pressed,
        jump: keyboard.space.just_pressed,
        jump_held: keyboard.space.pressed,
        fast_fall: keyboard.arrow_down.pressed || keyboard.key_s.pressed,
        grapple: keyboard.key_j.just_pressed || keyboard.shift_left.just_pressed,
        grapple_held: keyboard.key_j.pressed || keyboard.shift_left.pressed,
        grapple_released: keyboard.key_j.just_released || keyboard.shift_left.just_released,
        restart: keyboard.key_r.just_pressed,
    }
}

/// Reads the player's wishes off the input that the engine collected.
pub fn player_input(keyboard_input: &ButtonInput<KeyCode>) -> (out: PlayerInput)
    ensures
        out == spec_key_bindings(spec_keyboard(*keyboard_input)),
{
    key_bindings(&keyboard(keyboard_input))
}

/// How the horizontal force on the player is set in a frame.
#[derive(Clone, Copy, Debug, PartialEq, Eq, Structural)]
pub enum Steering {
    /// Push towards the top speed to the right, and face right.
    Right,
    /// Push towards the top speed to the left, and face left.
    Left,
    /// No key is held and the player still drifts: push against the drift.
    Brake,
    /// Leave the force as it is.
    Coast,
}

/// What a frame of movement asks of the player's body.
#[derive(Clone, Copy, Debug, PartialEq, Eq, Structural)]
pub struct Movement {
    pub steering: Steering,
    /// The player leaves the ground, a wall or thin air with
    /// [`PLAYER_JUMP_STRENGTH`].
    pub wants_to_jump: bool,
    pub gravity_scale: u32,
    pub linear_damping: u32,
    /// Put the player back at [`reset_position`], at rest and with no force.
    pub restart: bool,
}

/// The surface that lets the player jump although not on the ground.
pub open spec fn spec_on_wall(player: Player, climbing: bool) -> bool {
    climbing && player.progression >= WALL_CLIMB_AT
}

/// A press of the jump key is granted on the ground, on a wall once walls can
/// be climbed, and once in mid-air once the double jump is unlocked.
pub open spec fn spec_wants_to_jump(
    input: PlayerInput,
    player: Player,
    on_ground: bool,
    climbing: bool,
) -> bool {
    input.jump && (on_ground || spec_on_wall(player, climbing) || (!player.double_jumped
        && player.progression >= DOUBLE_JUMP_AT))
}

/// The jump in mid-air comes back on the ground (once it is unlocked) and on a
/// wall; any granted jump uses it up otherwise.
pub open spec fn spec_player_after_movement(
    input: PlayerInput,
    player: Player,
    on_ground: bool,
    climbing: bool,
) -> Player {
    let restored = (on_ground && player.progression >= DOUBLE_JUMP_AT) || spec_on_wall(
        player,
        climbing,
    );
    Player {
        progression: player.progression,
        double_jumped: if restored {
            false
        } else if spec_wants_to_jump(input, player, on_ground, climbing) {
            true
        } else {
            player.double_jumped
        },
    }
}

pub open spec fn spec_steering(input: PlayerInput, drifting: bool) -> Steering {
    if input.move_right {
        Steering::Right
    } else if input.move_left {
        Steering::Left
    } else if drifting {
        Steering::Brake
    } else {
        Steering::Coast
    }
}

/// `rising` is whether the player moves upwards once a granted jump has taken
/// effect.
pub open spec fn spec_gravity_scale(input: PlayerInput, rising: bool) -> u32 {
    if input.fast_fall {
        GRAVITY_FAST_FALL
    } else if input.jump_held && rising {
        GRAVITY_FLOATING
    } else {
        GRAVITY_NORMAL
    }
}

pub open spec fn spec_linear_damping(
    input: PlayerInput,
    player: Player,
    on_ground: bool,
    climbing: bool,
) -> u32 {
    if spec_on_wall(player, climbing) && !on_ground && !input.jump_held {
        CLING_DAMPING
    } else {
        0
    }
}

pub open spec fn spec_player_movement(
    input: PlayerInput,
    player: Player,
    on_ground: bool,
    climbing: bool,
    drifting: bool,
    rising: bool,
) -> Movement {
    let wants_to_jump = spec_wants_to_jump(input, player, on_ground, climbing);
    Movement {
        steering: spec_steering(input, drifting),
        wants_to_jump,
        gravity_scale: spec_gravity_scale(input, wants_to_jump || rising),
        linear_damping: spec_linear_damping(input, player, on_ground, climbing),
        restart: input.restart && player.progression < TRIAL_COMPLETE_AT,
    }
}

/// One frame of the player's movement.
///
/// `drifting` says that the player's horizontal speed is more than a
/// hundredth of a unit either way, `rising` that the vertical speed is above
/// zero, both as the frame begins.
pub fn player_movement(
    input: &PlayerInput,
    player: &mut Player,
    on_ground: bool,
    climbing: bool,
    drifting: bool,
    rising: bool,
) -> (out: Movement)
    ensures
        out == spec_player_movement(*input, *old(player), on_ground, climbing, drifting, rising),
        *final(player) == spec_player_after_movement(*input, *old(player), on_ground, climbing),
{
    let steering = if input.move_right {
        Steering::Right
    } else if input.move_left {
        Steering::Left
    } else if drifting {
        Steering::Brake
    } else {
        Steering::Coast
    };

    let on_wall = climbing && player.progression >= WALL_CLIMB_AT;
    let wants_to_jump = input.jump && (on_ground || on_wall || (!player.double_jumped
        && player.progression >= DOUBLE_JUMP_AT));
    if wants_to_jump {
        player.double_jumped = true;
    }
    if (on_ground && player.progression >= DOUBLE_JUMP_AT) || on_wall {
        player.double_jumped = false;
    }

    let mut gravity_scale = if input.jump_held && (wants_to_jump || rising) {
        GRAVITY_FLOATING
    } else {
        GRAVITY_NORMAL
    };
    if input.fast_fall {
        gravity_scale = GRAVITY_FAST_FALL;
    }

    let linear_damping = if on_wall && !on_ground {
        if input.jump_held {
            0
        } else {
            CLING_DAMPING
        }
    } else {
        0
    };

    Movement {
        steering,
        wants_to_jump,
        gravity_scale,
        linear_damping,
        restart: input.restart && player.progression < TRIAL_COMPLETE_AT,
    }
}

/// A place in the world, in whole units.
#[derive(Clone, Copy, Debug, PartialEq, Eq, Structural)]
pub struct Position {
    pub x: i32,
    pub y: i32,
    pub z: i32,
}

/// Where the player starts, and starts again.
pub open spec fn spec_reset_position() -> Position {
    Position { x: 463, y: -344i32, z: 10 }
}

/// The place where the player starts.
#[verifier::when_used_as_spec(spec_reset_position)]
pub fn reset_position() -> (out: Position)
    ensures
        out == spec_reset_position(),
{
    Position { x: 463, y: -344, z: 10 }
}

/// The hook shows while its key is held, once it is unlocked; else a player
/// who moves up or down jumps, one who moves sideways runs, and one at rest
/// idles.
pub open spec fn spec_player_animation(
    player: Player,
    input: PlayerInput,
    airborne: bool,
    running: bool,
) -> AnimationType {
    if input.grapple_held && player.progression >= GRAPPLE_AT {
        AnimationType::Grapple
    } else if airborne {
        AnimationType::Jump
    } else if running {
        AnimationType::Run
    } else {
        AnimationType::Idle
    }
}

/// Picks the animation for this frame.
///
/// `airborne` says that the player's vertical speed is more than a tenth of a
/// unit either way, `running` the same of the horizontal speed.
pub fn update_player_animation(
    player: &Player,
    input: &PlayerInput,
    airborne: bool,
    running: bool,
) -> (out: AnimationType)
    ensures
        out == spec_player_animation(*player, *input, airborne, running),
{
    if input.grapple_held && player.progression >= GRAPPLE_AT {
        AnimationType::Grapple
    } else if airborne {
        AnimationType::Jump
    } else if running {
        AnimationType::Run
    } else {
        AnimationType::Idle
    }
}

/// Before the first collectible a jump is granted on the ground and nowhere
/// else.
pub proof fn lemma_first_jump_needs_ground(
    input: PlayerInput,
    player: Player,
    on_ground: bool,
    climbing: bool,
)
    requires
        player.progression == 0,
    ensures
        spec_wants_to_jump(input, player, on_ground, climbing) <==> input.jump && on_ground,
{
}

/// Away from ground and wall, a granted jump is the last one: in the next
/// frame away from ground and wall no jump is granted, whatever the keys.
pub proof fn lemma_one_jump_in_mid_air(
    player: Player,
    first: PlayerInput,
    first_climbing: bool,
    second: PlayerInput,
    second_climbing: bool,
)
    requires
        !spec_on_wall(player, first_climbing),
        !spec_on_wall(player, second_climbing),
        spec_wants_to_jump(first, player, false, first_climbing),
    ensures
        !spec_wants_to_jump(
            second,
            spec_player_after_movement(first, player, false, first_climbing),
            false,
            second_climbing,
        ),
{
}

/// What a frame of movement goes by, besides the player.
pub struct Frame {
    pub input: PlayerInput,
    pub on_ground: bool,
    pub climbing: bool,
}

/// The player after a run of frames.
pub open spec fn spec_after_frames(player: Player, frames: Seq<Frame>) -> Player
    decreases frames.len(),
{
    if frames.len() == 0 {
        player
    } else {
        let frame = frames.last();
        spec_player_after_movement(
            frame.input,
            spec_after_frames(player, frames.drop_last()),
            frame.on_ground,
            frame.climbing,
        )
    }
}

/// The number of jumps that a run of frames grants.
pub open spec fn spec_jumps(player: Player, frames: Seq<Frame>) -> nat
    decreases frames.len(),
{
    if frames.len() == 0 {
        0
    } else {
        let frame = frames.last();
        let before = spec_after_frames(player, frames.drop_last());
        spec_jumps(player, frames.drop_last()) + if spec_wants_to_jump(
            frame.input,
            before,
            frame.on_ground,
            frame.climbing,
        ) {
            1nat
        } else {
            0nat
        }
    }
}

/// However long the player stays away from ground and wall and whatever
/// the keys, the air grants one jump at most, and none to a player who has
/// used it up or has not unlocked it.
pub proof fn lemma_the_air_grants_one_jump(player: Player, frames: Seq<Frame>)
    requires
        forall|i: int|
            0 <= i < frames.len() ==> !(#[trigger] frames[i]).on_ground && !spec_on_wall(
                player,
                frames[i].climbing,
            ),
    ensures
        spec_jumps(player, frames) <= 1,
        player.double_jumped || player.progression < DOUBLE_JUMP_AT ==> spec_jumps(player, frames)
            == 0,
        spec_jumps(player, frames) == 1 ==> spec_after_frames(player, frames).double_jumped,
        spec_after_frames(player, frames).progression == player.progression,
        player.double_jumped ==> spec_after_frames(player, frames).double_jumped,
    decreases frames.len(),
{
    if frames.len() > 0 {
        lemma_the_air_grants_one_jump(player, frames.drop_last());
    }
}

/// Movement never changes how far the player has come.
pub proof fn lemma_movement_keeps_progression(
    input: PlayerInput,
    player: Player,
    on_ground: bool,
    climbing: bool,
)
    ensures
        spec_player_after_movement(input, player, on_ground, climbing).progression
            == player.progression,
{
}

} // verus!
