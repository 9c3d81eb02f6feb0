use bevy::time::{Timer, TimerMode};
use grapple_arena::animation::{
    animate, frame_after, next_frame, sheet_layout, AnimationType, SheetLayout, FRAME_SIZE,
};
use grapple_arena::timer::advance;
use std::time::Duration;

#[test]
fn the_sheets_of_the_player() {
    assert_eq!(FRAME_SIZE, 32);
    assert_eq!(AnimationType::default(), AnimationType::Run);
    assert_eq!(
        sheet_layout(AnimationType::Jump),
        Some(SheetLayout { columns: 3, rows: 3, frame_millis: 100 })
    );
    assert_eq!(
        sheet_layout(AnimationType::Run),
        Some(SheetLayout { columns: 3, rows: 2, frame_millis: 100 })
    );
    assert_eq!(
        sheet_layout(AnimationType::Idle),
        Some(SheetLayout { columns: 1, rows: 1, frame_millis: 0 })
    );
    assert_eq!(sheet_layout(AnimationType::Grapple), None);
}

#[test]
fn the_files_of_the_sheets() {
    assert_eq!(
        AnimationType::Jump.sheet_path(),
        Some("industrialAssets/6. Character Animations - Free/Anim_Robot_Jump1_v1.1_spritesheet.png")
    );
    assert_eq!(
        AnimationType::Run.sheet_path(),
        Some("industrialAssets/6. Character Animations - Free/Anim_Robot_Walk1_v1.1_spritesheet.png")
    );
    assert_eq!(AnimationType::Idle.sheet_path(), AnimationType::Run.sheet_path());
    assert_eq!(AnimationType::Grapple.sheet_path(), None);
}

#[test]
fn idling_stands_still() {
    assert!(!AnimationType::Idle.is_animated());
    assert!(AnimationType::Run.is_animated());
    assert!(AnimationType::Jump.is_animated());
    assert!(AnimationType::Grapple.is_animated());
}

#[test]
fn frames_go_round() {
    assert_eq!(next_frame(0, 6), 1);
    assert_eq!(next_frame(4, 6), 5);
    assert_eq!(next_frame(5, 6), 0);
    assert_eq!(next_frame(0, 1), 0);
    assert_eq!(next_frame(8, 9), 0);
}

#[test]
fn a_frame_beyond_the_sheet_comes_back_onto_it() {
    assert_eq!(next_frame(8, 6), 3);
    assert_eq!(next_frame(11, 6), 0);
    assert_eq!(next_frame(usize::MAX - 1, 2), 1);
}

#[test]
fn an_animation_begins_with_its_first_frame() {
    assert_eq!(frame_after(AnimationType::Run, true, false, 4, Some(6)), 0);
    assert_eq!(frame_after(AnimationType::Run, true, true, 4, Some(6)), 1);
    assert_eq!(frame_after(AnimationType::Idle, true, true, 4, Some(1)), 0);
    assert_eq!(frame_after(AnimationType::Jump, true, true, usize::MAX, Some(9)), 1);
    assert_eq!(frame_after(AnimationType::Jump, true, true, 7, None), 0);
}

#[test]
fn an_animation_goes_a_frame_on_when_the_time_has_come() {
    assert_eq!(frame_after(AnimationType::Run, false, true, 4, Some(6)), 5);
    assert_eq!(frame_after(AnimationType::Run, false, true, 5, Some(6)), 0);
    assert_eq!(frame_after(AnimationType::Run, false, false, 4, Some(6)), 4);
    assert_eq!(frame_after(AnimationType::Run, false, true, 4, None), 4);
    assert_eq!(frame_after(AnimationType::Idle, false, true, 0, Some(1)), 0);
    assert_eq!(frame_after(AnimationType::Idle, false, true, 3, Some(6)), 3);
}

#[test]
fn running_steps_through_the_sheet_every_tenth_of_a_second() {
    let mut frames = Timer::new(Duration::from_millis(100), TimerMode::Repeating);
    let delta = Duration::from_millis(50);
    let mut index = 0;
    let mut seen = Vec::new();
    for _ in 0..14 {
        index = animate(&mut frames, delta, AnimationType::Run, false, index, Some(6));
        seen.push(index);
    }
    assert_eq!(seen, vec![0, 1, 1, 2, 2, 3, 3, 4, 4, 5, 5, 0, 0, 1]);
}

#[test]
fn switching_sets_the_timer_back() {
    let mut frames = Timer::new(Duration::from_millis(100), TimerMode::Repeating);
    assert_eq!(
        animate(&mut frames, Duration::from_millis(90), AnimationType::Jump, false, 3, Some(9)),
        3
    );
    assert_eq!(frames.elapsed(), Duration::from_millis(90));
    assert_eq!(
        animate(&mut frames, Duration::from_millis(20), AnimationType::Jump, true, 3, Some(9)),
        0
    );
    assert_eq!(frames.elapsed(), Duration::from_millis(20));
    assert_eq!(
        animate(&mut frames, Duration::from_millis(80), AnimationType::Jump, false, 0, Some(9)),
        1
    );
}

#[test]
fn idling_leaves_the_timer_alone() {
    let mut frames = Timer::new(Duration::from_millis(100), TimerMode::Repeating);
    assert_eq!(
        animate(&mut frames, Duration::from_millis(250), AnimationType::Idle, false, 0, Some(1)),
        0
    );
    assert_eq!(frames.elapsed(), Duration::ZERO);
    frames.set_elapsed(Duration::from_millis(40));
    assert_eq!(
        animate(&mut frames, Duration::from_millis(250), AnimationType::Idle, true, 5, Some(1)),
        0
    );
    assert_eq!(frames.elapsed(), Duration::ZERO);
}

#[test]
fn a_sheet_that_is_not_at_hand_keeps_its_frame() {
    let mut frames = Timer::new(Duration::from_millis(100), TimerMode::Repeating);
    assert_eq!(
        animate(&mut frames, Duration::from_millis(150), AnimationType::Run, false, 2, None),
        2
    );
    assert_eq!(frames.elapsed(), Duration::from_millis(50));
    assert!(frames.just_finished());
}

#[test]
fn a_timer_runs_on_while_the_time_fits() {
    let mut timer = Timer::new(Duration::from_secs(10), TimerMode::Once);
    assert!(advance(&mut timer, Duration::from_secs(3)));
    assert_eq!(timer.elapsed(), Duration::from_secs(3));
    assert!(advance(&mut timer, Duration::ZERO));
    assert_eq!(timer.elapsed(), Duration::from_secs(3));
}

#[test]
fn a_timer_that_cannot_hold_more_time_is_left_alone() {
    let mut timer = Timer::new(Duration::MAX, TimerMode::Once);
    timer.set_elapsed(Duration::MAX - Duration::from_nanos(5));
    let before = timer.clone();
    assert!(!advance(&mut timer, Duration::from_nanos(6)));
    assert_eq!(timer, before);
    assert!(advance(&mut timer, Duration::from_nanos(5)));
    assert_eq!(timer.elapsed(), Duration::MAX);
    assert!(timer.just_finished());
}
