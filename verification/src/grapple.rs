//! The grappling hook: thrown, it flies until it hits something, latches on
//! and lets the player swing on a rope.

use crate::physics::CollisionEvent;
use crate::player::{Player, PlayerInput};
use vstd::prelude::*;

verus! {

/// How far from the player the hook appears, sideways and upwards.
pub const HOOK_OFFSET: i32 = 10;

/// The speed the throw adds to the player's own, sideways and upwards.
pub const THROW_SPEED: i32 = 300;

/// The speed of the hook in flight, sideways on top of the player's and
/// upwards.
pub const FLIGHT_SPEED: i32 = 700;

/// The speed at which a player in the air drops into the rope.
pub const DROP_SPEED: i32 = 300;

/// A player slower than this is set swinging at this speed.
pub const SWING_SPEED: i32 = 100;

/// What each frame on the rope adds to the player's speed.
pub const SWING_PUSH: i32 = 5;

/// The side to which the player looks and the hook flies.
#[derive(Clone, Copy, Debug, PartialEq, Eq, Structural)]
pub enum Direction {
    Right,
    Left,
}

impl Direction {
    /// One to the right, minus one to the left.
    pub open spec fn spec_sign(self) -> int {
        match self {
            Direction::Right => 1,
            Direction::Left => -1,
        }
    }

    /// The direction as a factor for speeds and distances.
    pub fn sign(self) -> (out: i32)
        ensures
            out == self.spec_sign(),
    {
        match self {
            Direction::Right => 1,
            Direction::Left => -1,
        }
    }
}

/// A hook in the world.
#[derive(Clone, Copy, Debug, PartialEq, Eq, Structural)]
pub struct Grapple {
    pub flying_direction: Direction,
}

impl Default for Grapple {
    fn default() -> (out: Grapple)
        ensures
            out == (Grapple { flying_direction: Direction::Right }),
    {
        Grapple { flying_direction: Direction::Right }
    }
}

/// The phases of a hook.
#[derive(Clone, Copy, Debug, PartialEq, Eq, Hash, Structural)]
pub enum HookState {
    Shooting,
    Latched,
    Swinging,
}

impl Default for HookState {
    fn default() -> (out: HookState)
        ensures
            out == HookState::Shooting,
    {
        HookState::Shooting
    }
}

impl HookState {
    /// The place of a phase in the life of a hook.
    pub open spec fn spec_rank(self) -> int {
        match self {
            HookState::Shooting => 0,
            HookState::Latched => 1,
            HookState::Swinging => 2,
        }
    }
}

/// A hook to be put into the world.
#[derive(Clone, Copy, Debug, PartialEq, Eq, Structural)]
pub struct Launch {
    pub grapple: Grapple,
    pub state: HookState,
    /// Where the hook appears, counted from the player.
    pub offset_x: i32,
    pub offset_y: i32,
    /// The speed of the hook on top of the player's.
    pub speed_x: i32,
    pub speed_y: i32,
}

pub open spec fn spec_direction(facing_left: bool) -> Direction {
    if facing_left {
        Direction::Left
    } else {
        Direction::Right
    }
}

/// A press of the hook's key throws a hook to the side to which the player
/// looks.
pub open spec fn spec_grapple_launch(input: PlayerInput, facing_left: bool) -> Option<Launch> {
    if input.grapple {
        let direction = spec_direction(facing_left);
        Some(
            Launch {
                grapple: Grapple { flying_direction: direction },
                state: HookState::Shooting,
                offset_x: (HOOK_OFFSET * direction.spec_sign()) as i32,
                offset_y: HOOK_OFFSET,
                speed_x: (THROW_SPEED * direction.spec_sign()) as i32,
                speed_y: THROW_SPEED,
            },
        )
    } else {
        None
    }
}

/// Decides whether a hook is thrown in this frame, and how.
pub fn grapple_launch(input: &PlayerInput, facing_left: bool) -> (out: Option<Launch>)
    ensures
        out == spec_grapple_launch(*input, facing_left),
{
    if input.grapple {
        let direction = if facing_left {
            Direction::Left
        } else {
            Direction::Right
        };
        let sign = direction.sign();
        Some(
            Launch {
                grapple: Grapple { flying_direction: direction },
                state: HookState::Shooting,
                offset_x: HOOK_OFFSET * sign,
                offset_y: HOOK_OFFSET,
                speed_x: THROW_SPEED * sign,
                speed_y: THROW_SPEED,
            },
        )
    } else {
        None
    }
}

/// What a frame asks of the hook and of the player on it.
#[derive(Clone, Copy, Debug, PartialEq, Eq, Structural)]
pub enum HookAction {
    /// The hook flies on: sideways at the player's speed plus `speed_x`,
    /// upwards at `speed_y`. The rope is drawn.
    Fly { speed_x: i32, speed_y: i32 },
    /// The hook holds fast from now on, and a rope as long as the two are
    /// apart ties the player to it. The player's speed downwards becomes
    /// `drop` and the speed sideways `swing`, each where there is one.
    Attach { drop: Option<i32>, swing: Option<i32> },
    /// The hook holds fast and the player's speed sideways grows by `push`.
    /// The rope is drawn.
    Swing { push: i32 },
}

/// The outcome of a frame for one hook.
#[derive(Clone, Copy, Debug, PartialEq, Eq, Structural)]
pub struct GrappleStep {
    /// The phase in which the hook begins the next frame.
    pub state: HookState,
    pub action: HookAction,
    /// The rope is cut and the hook taken out of the world.
    pub release: bool,
}

/// One of the events reports that the hook has hit something.
pub open spec fn spec_hook_hit(events: Seq<CollisionEvent>, hook: u64) -> bool {
    exists|i: int| 0 <= i < events.len() && #[trigger] events[i].spec_starts_contact_with(hook)
}

/// A flying hook latches on when it hits something; a latched hook swings
/// from the next frame on.
pub open spec fn spec_next_state(
    state: HookState,
    events: Seq<CollisionEvent>,
    hook: u64,
) -> HookState {
    match state {
        HookState::Shooting => if spec_hook_hit(events, hook) {
            HookState::Latched
        } else {
            HookState::Shooting
        },
        HookState::Latched => HookState::Swinging,
        HookState::Swinging => HookState::Swinging,
    }
}

pub open spec fn spec_hook_action(
    state: HookState,
    grapple: Grapple,
    on_ground: bool,
    slow: bool,
) -> HookAction {
    let sign = grapple.flying_direction.spec_sign();
    match state {
        HookState::Shooting => HookAction::Fly {
            speed_x: (FLIGHT_SPEED * sign) as i32,
            speed_y: FLIGHT_SPEED,
        },
        HookState::Latched => HookAction::Attach {
            drop: if on_ground {
                None
            } else {
                Some(DROP_SPEED)
            },
            swing: if slow {
                Some((SWING_SPEED * sign) as i32)
            } else {
                None
            },
        },
        HookState::Swinging => HookAction::Swing { push: (SWING_PUSH * sign) as i32 },
    }
}

/// The player lets go by releasing the hook's key or by jumping; a swinging
/// player who reaches a wall to cling to is let go as well.
pub open spec fn spec_release(state: HookState, input: PlayerInput, climbing: bool) -> bool {
    input.grapple_released || input.jump || (state == HookState::Swinging && climbing)
}

pub open spec fn spec_update_grapple(
    state: HookState,
    grapple: Grapple,
    hook: u64,
    events: Seq<CollisionEvent>,
    input: PlayerInput,
    on_ground: bool,
    climbing: bool,
    slow: bool,
) -> GrappleStep {
    let next = spec_next_state(state, events, hook);
    GrappleStep {
        state: next,
        action: spec_hook_action(state, grapple, on_ground, slow),
        release: spec_release(next, input, climbing),
    }
}

/// Latching on gives the player the jump in mid-air back.
pub open spec fn spec_player_after_grapple(state: HookState, player: Player) -> Player {
    Player {
        progression: player.progression,
        double_jumped: if state == HookState::Latched {
            false
        } else {
            player.double_jumped
        },
    }
}

/// Looks through the events of a frame for the hook's first contact.
pub fn hook_hit(events: &Vec<CollisionEvent>, hook: u64) -> (out: bool)
    ensures
        out == spec_hook_hit(events@, hook),
{
    let mut i: usize = 0;
    while i < events.len()
        invariant
            i <= events.len(),
            forall|k: int| 0 <= k < i ==> !(#[trigger] events@[k]).spec_starts_contact_with(hook),
        decreases events.len() - i,
    {
        if events[i].starts_contact_with(hook) {
            return true;
        }
        i = i + 1;
    }
    false
}

/// One frame in the life of a hook.
///
/// `hook` is the id of the hook's entity and `events` are the collision
/// events of the frame. `slow` says that the player's speed sideways is
/// under [`SWING_SPEED`] either way.
pub fn update_grapple(
    state: HookState,
    grapple: &Grapple,
    hook: u64,
    events: &Vec<CollisionEvent>,
    player: &mut Player,
    input: &PlayerInput,
    on_ground: bool,
    climbing: bool,
    slow: bool,
) -> (out: GrappleStep)
    ensures
        out == spec_update_grapple(
            state,
            *grapple,
            hook,
            events@,
            *input,
            on_ground,
            climbing,
            slow,
        ),
        *final(player) == spec_player_after_grapple(state, *old(player)),
{
    let sign = grapple.flying_direction.sign();
    let (next, action) = match state {
        HookState::Shooting => {
            let action = HookAction::Fly { speed_x: FLIGHT_SPEED * sign, speed_y: FLIGHT_SPEED };
            if hook_hit(events, hook) {
                (HookState::Latched, action)
            } else {
                (HookState::Shooting, action)
            }
        },
        HookState::Latched => {
            player.double_jumped = false;
            let drop = if on_ground {
                None
            } else {
                Some(DROP_SPEED)
            };
            let swing = if slow {
                Some(SWING_SPEED * sign)
            } else {
                None
            };
            (HookState::Swinging, HookAction::Attach { drop, swing })
        },
        HookState::Swinging => (HookState::Swinging, HookAction::Swing { push: SWING_PUSH * sign }),
    };
    let release = input.grapple_released || input.jump || (next == HookState::Swinging && climbing);
    GrappleStep { state: next, action, release }
}

/// A hook never falls back into an earlier phase.
pub proof fn lemma_hook_moves_forward(state: HookState, events: Seq<CollisionEvent>, hook: u64)
    ensures
        state.spec_rank() <= spec_next_state(state, events, hook).spec_rank(),
        spec_next_state(state, events, hook).spec_rank() <= state.spec_rank() + 1,
{
}

/// A flying hook that nothing touches flies on.
pub proof fn lemma_untouched_hook_flies_on(events: Seq<CollisionEvent>, hook: u64)
    requires
        forall|i: int|
            0 <= i < events.len() ==> match #[trigger] events[i] {
                CollisionEvent::Started(first, second) => first != hook && second != hook,
                CollisionEvent::Stopped(_, _) => true,
            },
    ensures
        spec_next_state(HookState::Shooting, events, hook) == HookState::Shooting,
{
}

/// One event that reports the hook's contact is enough for it to latch on,
/// whichever side of the event names the hook.
pub proof fn lemma_touched_hook_latches(events: Seq<CollisionEvent>, hook: u64, i: int, other: u64)
    requires
        0 <= i < events.len(),
        events[i] == CollisionEvent::Started(hook, other) || events[i] == CollisionEvent::Started(
            other,
            hook,
        ),
    ensures
        spec_next_state(HookState::Shooting, events, hook) == HookState::Latched,
{
    assert(events[i].spec_starts_contact_with(hook));
}

/// Once latched, a hook swings in every later frame, whatever happens.
pub proof fn lemma_latched_hook_swings(
    first: Seq<CollisionEvent>,
    second: Seq<CollisionEvent>,
    hook: u64,
)
    ensures
        spec_next_state(HookState::Latched, first, hook) == HookState::Swinging,
        spec_next_state(spec_next_state(HookState::Latched, first, hook), second, hook)
            == HookState::Swinging,
{
}

/// The phase of a hook after a run of frames, each with its collision
/// events.
pub open spec fn spec_state_after(
    state: HookState,
    frames: Seq<Seq<CollisionEvent>>,
    hook: u64,
) -> HookState
    decreases frames.len(),
{
    if frames.len() == 0 {
        state
    } else {
        spec_next_state(spec_state_after(state, frames.drop_last(), hook), frames.last(), hook)
    }
}

/// Over any run of frames a hook moves forward through its phases, and a
/// swinging hook swings on.
pub proof fn lemma_hook_never_turns_back(
    state: HookState,
    frames: Seq<Seq<CollisionEvent>>,
    hook: u64,
)
    ensures
        state.spec_rank() <= spec_state_after(state, frames, hook).spec_rank(),
        state == HookState::Swinging ==> spec_state_after(state, frames, hook)
            == HookState::Swinging,
    decreases frames.len(),
{
    if frames.len() > 0 {
        lemma_hook_never_turns_back(state, frames.drop_last(), hook);
    }
}

/// A hook flies until the first frame in which it hits something. It is
/// latched at the end of that frame and swings from the frame after.
pub proof fn lemma_first_hit_latches(frames: Seq<Seq<CollisionEvent>>, hook: u64, first: int)
    requires
        0 <= first < frames.len(),
        spec_hook_hit(frames[first], hook),
        forall|earlier: int| 0 <= earlier < first ==> !spec_hook_hit(#[trigger] frames[earlier], hook),
    ensures
        spec_state_after(HookState::Shooting, frames.take(first), hook) == HookState::Shooting,
        spec_state_after(HookState::Shooting, frames, hook) == if first == frames.len() - 1 {
            HookState::Latched
        } else {
            HookState::Swinging
        },
    decreases frames.len(),
{
    let shorter = frames.drop_last();
    if first == frames.len() - 1 {
        assert(frames.take(first) =~= shorter);
        lemma_no_hit_no_latch(shorter, hook);
    } else {
        lemma_first_hit_latches(shorter, hook, first);
        assert(shorter.take(first) =~= frames.take(first));
    }
}

/// A hook that hits nothing flies on, however long.
pub proof fn lemma_no_hit_no_latch(frames: Seq<Seq<CollisionEvent>>, hook: u64)
    requires
        forall|i: int| 0 <= i < frames.len() ==> !spec_hook_hit(#[trigger] frames[i], hook),
    ensures
        spec_state_after(HookState::Shooting, frames, hook) == HookState::Shooting,
    decreases frames.len(),
{
    if frames.len() > 0 {
        lemma_no_hit_no_latch(frames.drop_last(), hook);
    }
}

/// A jump always lets go of the hook, and so does the release of its key.
pub proof fn lemma_jump_lets_go(
    state: HookState,
    grapple: Grapple,
    hook: u64,
    events: Seq<CollisionEvent>,
    input: PlayerInput,
    on_ground: bool,
    climbing: bool,
    slow: bool,
)
    requires
        input.jump || input.grapple_released,
    ensures
        spec_update_grapple(state, grapple, hook, events, input, on_ground, climbing, slow).release,
{
}

} // verus!
