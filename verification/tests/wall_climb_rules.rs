use grapple_arena::physics::CollisionEvent;
use grapple_arena::wall_climb::{
    climb_detection, update_climbing, ClimbDetection, ClimbSensor, Contact,
};
use std::collections::HashSet;

#[test]
fn a_new_sensor_overlaps_nothing() {
    let sensor = ClimbSensor::new(5);
    assert_eq!(sensor.climb_detection_entity, 5);
    assert!(sensor.intersecting_climbables.is_empty());
    assert!(!sensor.touches_wall());
    assert_eq!(ClimbDetection::default(), ClimbDetection { climbing: false });
}

#[test]
fn the_solid_entity_is_what_the_other_one_met() {
    assert_eq!(
        climb_detection(&CollisionEvent::Started(1, 2), true, false),
        Some(Contact { sensor: 2, climbable: 1, started: true })
    );
    assert_eq!(
        climb_detection(&CollisionEvent::Started(1, 2), false, true),
        Some(Contact { sensor: 1, climbable: 2, started: true })
    );
    assert_eq!(
        climb_detection(&CollisionEvent::Stopped(1, 2), true, false),
        Some(Contact { sensor: 2, climbable: 1, started: false })
    );
    assert_eq!(
        climb_detection(&CollisionEvent::Stopped(1, 2), false, true),
        Some(Contact { sensor: 1, climbable: 2, started: false })
    );
}

#[test]
fn of_two_solid_entities_the_first_is_taken() {
    assert_eq!(
        climb_detection(&CollisionEvent::Started(1, 2), true, true),
        Some(Contact { sensor: 2, climbable: 1, started: true })
    );
    assert_eq!(
        climb_detection(&CollisionEvent::Stopped(1, 2), true, true),
        Some(Contact { sensor: 2, climbable: 1, started: false })
    );
}

#[test]
fn two_sensors_are_no_contact() {
    assert_eq!(climb_detection(&CollisionEvent::Started(1, 2), false, false), None);
    assert_eq!(climb_detection(&CollisionEvent::Stopped(1, 2), false, false), None);
}

#[test]
fn a_sensor_remembers_what_it_met() {
    let mut sensor = ClimbSensor::new(5);
    sensor.record(&Contact { sensor: 9, climbable: 1, started: true });
    sensor.record(&Contact { sensor: 9, climbable: 2, started: true });
    sensor.record(&Contact { sensor: 9, climbable: 1, started: true });
    assert_eq!(sensor.intersecting_climbables, HashSet::from([1, 2]));
    assert_eq!(sensor.climb_detection_entity, 5);
    assert!(sensor.touches_wall());
}

#[test]
fn a_sensor_forgets_what_it_left() {
    let mut sensor = ClimbSensor::new(5);
    sensor.record(&Contact { sensor: 9, climbable: 1, started: true });
    sensor.record(&Contact { sensor: 9, climbable: 2, started: true });
    sensor.record(&Contact { sensor: 9, climbable: 1, started: false });
    assert_eq!(sensor.intersecting_climbables, HashSet::from([2]));
    sensor.record(&Contact { sensor: 9, climbable: 3, started: false });
    assert_eq!(sensor.intersecting_climbables, HashSet::from([2]));
    sensor.record(&Contact { sensor: 9, climbable: 2, started: false });
    assert!(sensor.intersecting_climbables.is_empty());
    assert!(!sensor.touches_wall());
}

#[test]
fn the_owner_climbs_while_the_sensor_overlaps_a_wall() {
    let mut sensor = ClimbSensor::new(5);
    let mut detection = ClimbDetection { climbing: true };
    update_climbing(&sensor, &mut detection);
    assert!(!detection.climbing);
    sensor.record(&Contact { sensor: 9, climbable: 1, started: true });
    update_climbing(&sensor, &mut detection);
    assert!(detection.climbing);
    sensor.record(&Contact { sensor: 9, climbable: 1, started: false });
    update_climbing(&sensor, &mut detection);
    assert!(!detection.climbing);
}

#[test]
fn events_of_a_frame_run_through_a_sensor() {
    let sensor_entity = 9;
    let solid = [1u64, 2];
    let mut sensor = ClimbSensor::new(5);
    let events = vec![
        CollisionEvent::Started(1, 9),
        CollisionEvent::Started(9, 2),
        CollisionEvent::Started(9, 8),
        CollisionEvent::Stopped(9, 1),
    ];
    for event in &events {
        let (first, second) = match event {
            CollisionEvent::Started(first, second) => (*first, *second),
            CollisionEvent::Stopped(first, second) => (*first, *second),
        };
        let contact = climb_detection(event, solid.contains(&first), solid.contains(&second));
        if let Some(contact) = contact {
            if contact.sensor == sensor_entity {
                sensor.record(&contact);
            }
        }
    }
    assert_eq!(sensor.intersecting_climbables, HashSet::from([2]));
}

#[test]
fn the_last_contact_with_a_wall_decides() {
    let runs: Vec<(Vec<(u64, bool)>, Vec<u64>)> = vec![
        (vec![(1, true), (1, false), (1, true)], vec![1]),
        (vec![(1, true), (2, true), (1, false)], vec![2]),
        (vec![(1, false), (2, false)], vec![]),
        (vec![(3, true), (3, true), (4, false), (3, false), (4, true)], vec![4]),
    ];
    for (contacts, left) in runs {
        let mut sensor = ClimbSensor::new(5);
        for (climbable, started) in contacts {
            sensor.record(&Contact { sensor: 9, climbable, started });
        }
        assert_eq!(sensor.intersecting_climbables, left.into_iter().collect::<HashSet<u64>>());
    }
}
