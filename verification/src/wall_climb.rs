//! Wall climbing: a sensor at the player's side keeps track of the walls it
//! overlaps, and the player clings while there is one.

use crate::physics::CollisionEvent;
use std::collections::HashSet;
use vstd::prelude::*;

verus! {

broadcast use vstd::std_specs::hash::group_hash_axioms;

/// A sensor that belongs to a climber and remembers what it overlaps.
#[derive(Debug)]
pub struct ClimbSensor {
    /// The entity whose climbing this sensor decides.
    pub climb_detection_entity: u64,
    /// The solid entities that the sensor overlaps.
    pub intersecting_climbables: HashSet<u64>,
}

impl View for ClimbSensor {
    type V = Set<u64>;

    /// The solid entities that the sensor overlaps.
    open spec fn view(&self) -> Set<u64> {
        self.intersecting_climbables@
    }
}

/// Whether an entity clings to a wall.
#[derive(Clone, Copy, Debug, PartialEq, Eq, Structural)]
pub struct ClimbDetection {
    pub climbing: bool,
}

impl Default for ClimbDetection {
    fn default() -> (out: ClimbDetection)
        ensures
            out == (ClimbDetection { climbing: false }),
    {
        ClimbDetection { climbing: false }
    }
}

/// A solid entity came to overlap a sensor, or ceased to.
#[derive(Clone, Copy, Debug, PartialEq, Eq, Structural)]
pub struct Contact {
    /// The entity that may be a sensor.
    pub sensor: u64,
    /// The solid entity.
    pub climbable: u64,
    /// The overlap began; else it ended.
    pub started: bool,
}

/// Of the two entities of an event the solid one is what a sensor may have
/// met, and the other one is the sensor if any is. Where both are solid the
/// first is taken for the solid one; where neither is, no sensor is
/// concerned.
pub open spec fn spec_climb_detection(
    event: CollisionEvent,
    first_solid: bool,
    second_solid: bool,
) -> Option<Contact> {
    let (first, second, started) = match event {
        CollisionEvent::Started(first, second) => (first, second, true),
        CollisionEvent::Stopped(first, second) => (first, second, false),
    };
    if first_solid {
        Some(Contact { sensor: second, climbable: first, started })
    } else if second_solid {
        Some(Contact { sensor: first, climbable: second, started })
    } else {
        None
    }
}

/// Reads a collision event as the contact of a sensor.
///
/// `first_solid` and `second_solid` say of the event's first and second
/// entity whether it has a collider that is no sensor.
pub fn climb_detection(event: &CollisionEvent, first_solid: bool, second_solid: bool) -> (out:
    Option<Contact>)
    ensures
        out == spec_climb_detection(*event, first_solid, second_solid),
{
    let (first, second, started) = match event {
        CollisionEvent::Started(first, second) => (*first, *second, true),
        CollisionEvent::Stopped(first, second) => (*first, *second, false),
    };
    if first_solid {
        Some(Contact { sensor: second, climbable: first, started })
    } else if second_solid {
        Some(Contact { sensor: first, climbable: second, started })
    } else {
        None
    }
}

/// What a sensor overlaps after a contact, given what it overlapped before.
pub open spec fn spec_record(climbables: Set<u64>, contact: Contact) -> Set<u64> {
    if contact.started {
        climbables.insert(contact.climbable)
    } else {
        climbables.remove(contact.climbable)
    }
}

impl ClimbSensor {
    /// A sensor for `climb_detection_entity` that overlaps nothing yet.
    pub fn new(climb_detection_entity: u64) -> (out: ClimbSensor)
        ensures
            out.climb_detection_entity == climb_detection_entity,
            out@ == Set::<u64>::empty(),
    {
        ClimbSensor { climb_detection_entity, intersecting_climbables: HashSet::new() }
    }

    /// Takes note of a contact of this sensor.
    pub fn record(&mut self, contact: &Contact)
        ensures
            final(self)@ == spec_record(old(self)@, *contact),
            final(self).climb_detection_entity == old(self).climb_detection_entity,
    {
        if contact.started {
            self.intersecting_climbables.insert(contact.climbable);
        } else {
            self.intersecting_climbables.remove(&contact.climbable);
        }
    }

    /// The sensor overlaps something to cling to.
    pub open spec fn spec_touches_wall(&self) -> bool {
        exists|climbable: u64| self@.contains(climbable)
    }

    /// Tells whether the sensor overlaps something to cling to.
    #[verifier::when_used_as_spec(spec_touches_wall)]
    pub fn touches_wall(&self) -> (out: bool)
        ensures
            out == self.spec_touches_wall(),
    {
        let empty = self.intersecting_climbables.is_empty();
        proof {
            if !empty {
                let climbable = choose|climbable: u64| self@.contains(climbable);
                assert(self@.contains(climbable));
            }
        }
        !empty
    }
}

/// The owner of a sensor climbs exactly while the sensor overlaps something
/// solid.
pub fn update_climbing(sensor: &ClimbSensor, detection: &mut ClimbDetection)
    ensures
        final(detection).climbing == sensor.spec_touches_wall(),
{
    detection.climbing = sensor.touches_wall();
}

/// A wall that is met and then left is forgotten, unless the sensor
/// overlapped it before.
pub proof fn lemma_leaving_undoes_meeting(climbables: Set<u64>, sensor: u64, climbable: u64)
    requires
        !climbables.contains(climbable),
    ensures
        spec_record(
            spec_record(climbables, Contact { sensor, climbable, started: true }),
            Contact { sensor, climbable, started: false },
        ) == climbables,
{
    assert(climbables.insert(climbable).remove(climbable) =~= climbables);
}

/// Meeting a wall twice is meeting it once.
pub proof fn lemma_meeting_twice(climbables: Set<u64>, contact: Contact)
    requires
        contact.started,
    ensures
        spec_record(spec_record(climbables, contact), contact) == spec_record(climbables, contact),
{
    assert(climbables.insert(contact.climbable).insert(contact.climbable) =~= climbables.insert(
        contact.climbable,
    ));
}

/// The contacts of other walls do not make a sensor forget a wall.
pub proof fn lemma_other_walls_do_not_matter(climbables: Set<u64>, wall: u64, contact: Contact)
    requires
        contact.climbable != wall,
    ensures
        spec_record(climbables, contact).contains(wall) == climbables.contains(wall),
{
}

/// What a sensor overlaps after a run of contacts, taken in their order.
pub open spec fn spec_record_all(climbables: Set<u64>, contacts: Seq<Contact>) -> Set<u64>
    decreases contacts.len(),
{
    if contacts.len() == 0 {
        climbables
    } else {
        spec_record(spec_record_all(climbables, contacts.drop_last()), contacts.last())
    }
}

/// After a run of contacts a sensor overlaps a wall exactly if the last
/// contact with that wall was the start of one.
pub proof fn lemma_last_contact_decides(
    climbables: Set<u64>,
    contacts: Seq<Contact>,
    wall: u64,
    last: int,
)
    requires
        0 <= last < contacts.len(),
        contacts[last].climbable == wall,
        forall|later: int|
            last < later < contacts.len() ==> (#[trigger] contacts[later]).climbable != wall,
    ensures
        spec_record_all(climbables, contacts).contains(wall) == contacts[last].started,
    decreases contacts.len(),
{
    if last < contacts.len() - 1 {
        lemma_last_contact_decides(climbables, contacts.drop_last(), wall, last);
    }
}

/// A wall that no contact of a run is about is overlapped after the run
/// exactly if it was before.
pub proof fn lemma_untouched_wall_stays(climbables: Set<u64>, contacts: Seq<Contact>, wall: u64)
    requires
        forall|i: int| 0 <= i < contacts.len() ==> (#[trigger] contacts[i]).climbable != wall,
    ensures
        spec_record_all(climbables, contacts).contains(wall) == climbables.contains(wall),
    decreases contacts.len(),
{
    if contacts.len() > 0 {
        lemma_untouched_wall_stays(climbables, contacts.drop_last(), wall);
    }
}

} // verus!
