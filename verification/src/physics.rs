//! Collision events and the bodies that level entities are given.

use vstd::prelude::*;
use vstd::string::*;

verus! {

/// Two colliders started or stopped touching. The fields are the ids of the
/// two entities, in the order in which the physics engine reported them.
#[derive(Clone, Copy, Debug, PartialEq, Eq, Structural)]
pub enum CollisionEvent {
    Started(u64, u64),
    Stopped(u64, u64),
}

impl CollisionEvent {
    /// The event reports the start of a contact in which `entity` takes part.
    pub open spec fn spec_starts_contact_with(self, entity: u64) -> bool {
        match self {
            CollisionEvent::Started(first, second) => first == entity || second == entity,
            CollisionEvent::Stopped(_, _) => false,
        }
    }

    /// Tells whether the event is the start of a contact of `entity`.
    #[verifier::when_used_as_spec(spec_starts_contact_with)]
    pub fn starts_contact_with(self, entity: u64) -> (out: bool)
        ensures
            out == self.spec_starts_contact_with(entity),
    {
        match self {
            CollisionEvent::Started(first, second) => first == entity || second == entity,
            CollisionEvent::Stopped(_, _) => false,
        }
    }
}

/// The physics engine is asked of two entities whether they intersect. They
/// do if it knows the pair and says so.
pub open spec fn spec_overlaps(pair: Option<bool>) -> bool {
    pair == Some(true)
}

/// Reads the answer of the physics engine about one pair.
#[verifier::when_used_as_spec(spec_overlaps)]
pub fn overlaps(pair: Option<bool>) -> (out: bool)
    ensures
        out == spec_overlaps(pair),
{
    match pair {
        Some(true) => true,
        _ => false,
    }
}

/// One of the pairs intersects.
pub open spec fn spec_any_overlap(pairs: Seq<Option<bool>>) -> bool {
    exists|i: int| 0 <= i < pairs.len() && spec_overlaps(#[trigger] pairs[i])
}

/// Looks through the answers of the physics engine for a pair that
/// intersects.
pub fn any_overlap(pairs: &Vec<Option<bool>>) -> (out: bool)
    ensures
        out == spec_any_overlap(pairs@),
{
    let mut i: usize = 0;
    while i < pairs.len()
        invariant
            i <= pairs.len(),
            forall|k: int| 0 <= k < i ==> !spec_overlaps(#[trigger] pairs@[k]),
        decreases pairs.len() - i,
    {
        if overlaps(pairs[i]) {
            return true;
        }
        i = i + 1;
    }
    false
}

/// Half the width of the player's body.
pub const PLAYER_HALF_WIDTH: u32 = 10;

/// Half the height of the player's body.
pub const PLAYER_HALF_HEIGHT: u32 = 16;

/// Half the edge of a cell of the grid of a level.
pub const CELL_HALF_SIZE: u32 = 16;

/// The value of the cells of the grid that get a sensor.
pub const SENSOR_CELL: i32 = 2;

/// The body an entity of a level gets when it is spawned.
#[derive(Clone, Copy, Debug, PartialEq, Eq, Structural)]
pub enum BodyKind {
    /// A body that moves under forces and never turns, a box of
    /// [`PLAYER_HALF_WIDTH`] by [`PLAYER_HALF_HEIGHT`].
    Player,
    /// Whatever the physics engine gives a body by default.
    Plain,
}

/// The sensor a cell of the grid of a level gets.
#[derive(Clone, Copy, Debug, PartialEq, Eq, Structural)]
pub enum SensorKind {
    /// A sensor that fills the cell, never turns and reports what begins and
    /// ceases to touch it.
    Cell,
    /// Whatever the physics engine gives a sensor by default.
    Plain,
}

pub open spec fn spec_sensor_kind(cell: i32) -> SensorKind {
    if cell == SENSOR_CELL {
        SensorKind::Cell
    } else {
        SensorKind::Plain
    }
}

/// Chooses the sensor for a cell of the grid by the value of the cell.
pub fn sensor_kind(cell: i32) -> (out: SensorKind)
    ensures
        out == spec_sensor_kind(cell),
{
    if cell == SENSOR_CELL {
        SensorKind::Cell
    } else {
        SensorKind::Plain
    }
}

/// The identifier under which the level editor knows the player.
pub open spec fn player_identifier() -> Seq<char> {
    seq!['P', 'l', 'a', 'y', 'e', 'r']
}

pub open spec fn spec_body_kind(identifier: Seq<char>) -> BodyKind {
    if identifier == player_identifier() {
        BodyKind::Player
    } else {
        BodyKind::Plain
    }
}

/// Chooses the body for the entity that the level editor calls `identifier`.
pub fn body_kind(identifier: &str) -> (out: BodyKind)
    ensures
        out == spec_body_kind(identifier@),
{
    let wanted = String::from_str("Player");
    let given = String::from_str(identifier);
    proof {
        reveal_strlit("Player");
        assert("Player"@ =~= player_identifier());
    }
    if given == wanted {
        BodyKind::Player
    } else {
        BodyKind::Plain
    }
}

} // verus!
