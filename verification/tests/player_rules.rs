use bevy::input::keyboard::KeyCode;
use bevy::input::ButtonInput;
use grapple_arena::animation::AnimationType;
use grapple_arena::keyboard::{key_state, keyboard, KeyState, Keyboard};
use grapple_arena::player::{
    key_bindings, player_input, player_movement, reset_position, update_player_animation,
    Movement, Player, PlayerInput, Position, Steering, CLING_DAMPING, DEATH_Y_THRESHOLD,
    GRAVITY_FAST_FALL, GRAVITY_FLOATING, GRAVITY_NORMAL, PLAYER_ACCELERATION_MULTIPLIER,
    PLAYER_JUMP_STRENGTH, PLAYER_TOP_SPEED,
};

fn up() -> KeyState {
    KeyState { pressed: false, just_pressed: false, just_released: false }
}

fn held() -> KeyState {
    KeyState { pressed: true, just_pressed: false, just_released: false }
}

fn hit() -> KeyState {
    KeyState { pressed: true, just_pressed: true, just_released: false }
}

fn let_go() -> KeyState {
    KeyState { pressed: false, just_pressed: false, just_released: true }
}

fn quiet() -> Keyboard {
    Keyboard {
        key_a: up(),
        key_d: up(),
        key_s: up(),
        key_j: up(),
        key_r: up(),
        space: up(),
        shift_left: up(),
        arrow_left: up(),
        arrow_right: up(),
        arrow_down: up(),
    }
}

fn idle() -> PlayerInput {
    PlayerInput::default()
}

#[test]
fn default_player_has_no_progress() {
    assert_eq!(Player::default(), Player { progression: 0, double_jumped: false });
}

#[test]
fn default_input_asks_for_nothing() {
    let input = PlayerInput::default();
    assert!(!input.move_left && !input.move_right && !input.jump && !input.jump_held);
    assert!(!input.fast_fall && !input.grapple && !input.grapple_held);
    assert!(!input.grapple_released && !input.restart);
    assert_eq!(key_bindings(&quiet()), input);
}

#[test]
fn letters_and_arrows_both_run() {
    let mut keys = quiet();
    keys.key_a = held();
    assert!(key_bindings(&keys).move_left);
    assert!(!key_bindings(&keys).move_right);
    let mut keys = quiet();
    keys.arrow_left = held();
    assert!(key_bindings(&keys).move_left);
    let mut keys = quiet();
    keys.key_d = held();
    assert!(key_bindings(&keys).move_right);
    let mut keys = quiet();
    keys.arrow_right = held();
    assert!(key_bindings(&keys).move_right);
    assert!(!key_bindings(&keys).move_left);
}

#[test]
fn space_jumps_once_and_holds() {
    let mut keys = quiet();
    keys.space = hit();
    let input = key_bindings(&keys);
    assert!(input.jump && input.jump_held);
    keys.space = held();
    let input = key_bindings(&keys);
    assert!(!input.jump && input.jump_held);
}

#[test]
fn down_and_s_fall_fast() {
    let mut keys = quiet();
    keys.arrow_down = held();
    assert!(key_bindings(&keys).fast_fall);
    let mut keys = quiet();
    keys.key_s = held();
    assert!(key_bindings(&keys).fast_fall);
}

#[test]
fn j_and_shift_throw_hold_and_release_the_hook() {
    let mut keys = quiet();
    keys.key_j = hit();
    let input = key_bindings(&keys);
    assert!(input.grapple && input.grapple_held && !input.grapple_released);
    let mut keys = quiet();
    keys.shift_left = hit();
    let input = key_bindings(&keys);
    assert!(input.grapple && input.grapple_held);
    let mut keys = quiet();
    keys.shift_left = held();
    let input = key_bindings(&keys);
    assert!(!input.grapple && input.grapple_held);
    let mut keys = quiet();
    keys.key_j = let_go();
    let input = key_bindings(&keys);
    assert!(!input.grapple && !input.grapple_held && input.grapple_released);
    let mut keys = quiet();
    keys.shift_left = let_go();
    assert!(key_bindings(&keys).grapple_released);
}

#[test]
fn r_restarts_on_the_press_only() {
    let mut keys = quiet();
    keys.key_r = hit();
    assert!(key_bindings(&keys).restart);
    keys.key_r = held();
    assert!(!key_bindings(&keys).restart);
}

#[test]
fn the_engine_tells_which_keys_are_down() {
    let mut keys = ButtonInput::<KeyCode>::default();
    assert_eq!(key_state(&keys, KeyCode::KeyA), up());
    keys.press(KeyCode::KeyA);
    assert_eq!(key_state(&keys, KeyCode::KeyA), hit());
    assert_eq!(key_state(&keys, KeyCode::KeyD), up());
    keys.clear();
    assert_eq!(key_state(&keys, KeyCode::KeyA), held());
    keys.release(KeyCode::KeyA);
    assert_eq!(key_state(&keys, KeyCode::KeyA), let_go());
    keys.clear();
    assert_eq!(key_state(&keys, KeyCode::KeyA), up());
}

#[test]
fn every_key_of_the_game_is_read_off_its_own_key() {
    let all = [
        KeyCode::KeyA,
        KeyCode::KeyD,
        KeyCode::KeyS,
        KeyCode::KeyJ,
        KeyCode::KeyR,
        KeyCode::Space,
        KeyCode::ShiftLeft,
        KeyCode::ArrowLeft,
        KeyCode::ArrowRight,
        KeyCode::ArrowDown,
    ];
    for (place, key) in all.iter().enumerate() {
        let mut keys = ButtonInput::<KeyCode>::default();
        keys.press(*key);
        let read = keyboard(&keys);
        let states = [
            read.key_a,
            read.key_d,
            read.key_s,
            read.key_j,
            read.key_r,
            read.space,
            read.shift_left,
            read.arrow_left,
            read.arrow_right,
            read.arrow_down,
        ];
        for (other, state) in states.iter().enumerate() {
            assert_eq!(*state, if other == place { hit() } else { up() });
        }
    }
}

#[test]
fn keys_that_the_game_does_not_listen_to_change_nothing() {
    let mut keys = ButtonInput::<KeyCode>::default();
    keys.press(KeyCode::KeyW);
    keys.press(KeyCode::ArrowUp);
    keys.press(KeyCode::ShiftRight);
    keys.press(KeyCode::Enter);
    assert_eq!(keyboard(&keys), quiet());
    assert_eq!(player_input(&keys), PlayerInput::default());
}

#[test]
fn a_frame_of_keys_from_the_engine() {
    let mut keys = ButtonInput::<KeyCode>::default();
    keys.press(KeyCode::ArrowRight);
    keys.press(KeyCode::ShiftLeft);
    keys.clear();
    keys.press(KeyCode::Space);
    keys.release(KeyCode::ShiftLeft);
    let input = player_input(&keys);
    assert_eq!(
        input,
        PlayerInput {
            move_left: false,
            move_right: true,
            jump: true,
            jump_held: true,
            fast_fall: false,
            grapple: false,
            grapple_held: false,
            grapple_released: true,
            restart: false,
        }
    );
}

#[test]
fn the_hook_and_the_restart_from_the_engine() {
    let mut keys = ButtonInput::<KeyCode>::default();
    keys.press(KeyCode::KeyJ);
    keys.press(KeyCode::KeyR);
    keys.press(KeyCode::KeyS);
    keys.press(KeyCode::KeyA);
    let input = player_input(&keys);
    assert!(input.grapple && input.grapple_held && !input.grapple_released);
    assert!(input.restart && input.fast_fall && input.move_left && !input.move_right);
    assert!(!input.jump && !input.jump_held);
    keys.clear();
    let input = player_input(&keys);
    assert!(!input.grapple && input.grapple_held);
    assert!(!input.restart && input.fast_fall && input.move_left);
}

#[test]
fn constants_of_the_run() {
    assert_eq!(PLAYER_ACCELERATION_MULTIPLIER, 400);
    assert_eq!(PLAYER_TOP_SPEED, 250);
    assert_eq!(PLAYER_JUMP_STRENGTH, 270);
    assert_eq!(DEATH_Y_THRESHOLD, -1257);
}

#[test]
fn a_player_at_rest_coasts() {
    let mut player = Player::default();
    let out = player_movement(&idle(), &mut player, true, false, false, false);
    assert_eq!(
        out,
        Movement {
            steering: Steering::Coast,
            wants_to_jump: false,
            gravity_scale: 100,
            linear_damping: 0,
            restart: false,
        }
    );
    assert_eq!(player, Player::default());
}

#[test]
fn right_wins_over_left_and_both_over_braking() {
    let mut player = Player::default();
    let mut input = idle();
    input.move_right = true;
    input.move_left = true;
    assert_eq!(player_movement(&input, &mut player, true, false, true, false).steering, Steering::Right);
    input.move_right = false;
    assert_eq!(player_movement(&input, &mut player, true, false, true, false).steering, Steering::Left);
    input.move_left = false;
    assert_eq!(player_movement(&input, &mut player, true, false, true, false).steering, Steering::Brake);
    assert_eq!(player_movement(&input, &mut player, true, false, false, false).steering, Steering::Coast);
}

#[test]
fn the_first_jump_needs_the_ground() {
    let mut input = idle();
    input.jump = true;
    let mut player = Player::default();
    assert!(player_movement(&input, &mut player, true, false, false, false).wants_to_jump);
    let mut player = Player::default();
    assert!(!player_movement(&input, &mut player, false, false, false, false).wants_to_jump);
    let mut player = Player::default();
    assert!(!player_movement(&input, &mut player, false, true, false, false).wants_to_jump);
}

#[test]
fn a_jump_from_the_ground_without_double_jump_uses_the_air_jump_up() {
    let mut input = idle();
    input.jump = true;
    let mut player = Player { progression: 0, double_jumped: false };
    let out = player_movement(&input, &mut player, true, false, false, false);
    assert!(out.wants_to_jump);
    assert!(player.double_jumped);
}

#[test]
fn one_jump_in_mid_air_once_unlocked() {
    let mut input = idle();
    input.jump = true;
    let mut player = Player { progression: 1, double_jumped: false };
    let first = player_movement(&input, &mut player, false, false, false, false);
    assert!(first.wants_to_jump);
    assert!(player.double_jumped);
    let second = player_movement(&input, &mut player, false, false, false, true);
    assert!(!second.wants_to_jump);
    assert!(player.double_jumped);
}

#[test]
fn the_ground_gives_the_air_jump_back_once_unlocked() {
    let mut player = Player { progression: 1, double_jumped: true };
    player_movement(&idle(), &mut player, true, false, false, false);
    assert!(!player.double_jumped);
    let mut player = Player { progression: 0, double_jumped: true };
    player_movement(&idle(), &mut player, true, false, false, false);
    assert!(player.double_jumped);
}

#[test]
fn a_jump_from_the_ground_keeps_the_air_jump_once_unlocked() {
    let mut input = idle();
    input.jump = true;
    let mut player = Player { progression: 1, double_jumped: false };
    let out = player_movement(&input, &mut player, true, false, false, false);
    assert!(out.wants_to_jump);
    assert!(!player.double_jumped);
}

#[test]
fn walls_let_jump_from_the_second_collectible_on() {
    let mut input = idle();
    input.jump = true;
    let mut player = Player { progression: 1, double_jumped: true };
    assert!(!player_movement(&input, &mut player, false, true, false, false).wants_to_jump);
    let mut player = Player { progression: 2, double_jumped: true };
    assert!(player_movement(&input, &mut player, false, true, false, false).wants_to_jump);
    assert!(!player.double_jumped);
}

#[test]
fn gravity_is_light_on_the_way_up_with_the_key_held() {
    let mut player = Player::default();
    let mut input = idle();
    input.jump_held = true;
    assert_eq!(player_movement(&input, &mut player, false, false, false, true).gravity_scale, 55);
    assert_eq!(player_movement(&input, &mut player, false, false, false, false).gravity_scale, 100);
    input.jump_held = false;
    assert_eq!(player_movement(&input, &mut player, false, false, false, true).gravity_scale, 100);
    assert_eq!(GRAVITY_FLOATING, 55);
    assert_eq!(GRAVITY_NORMAL, 100);
}

#[test]
fn a_granted_jump_counts_as_rising() {
    let mut player = Player::default();
    let mut input = idle();
    input.jump = true;
    input.jump_held = true;
    let out = player_movement(&input, &mut player, true, false, false, false);
    assert!(out.wants_to_jump);
    assert_eq!(out.gravity_scale, 55);
}

#[test]
fn fast_fall_beats_everything() {
    let mut player = Player::default();
    let mut input = idle();
    input.fast_fall = true;
    input.jump_held = true;
    assert_eq!(player_movement(&input, &mut player, false, false, false, true).gravity_scale, 200);
    assert_eq!(GRAVITY_FAST_FALL, 200);
}

#[test]
fn clinging_damps_unless_the_jump_key_is_held() {
    let mut player = Player { progression: 2, double_jumped: false };
    let mut input = idle();
    assert_eq!(player_movement(&input, &mut player, false, true, false, false).linear_damping, 15);
    assert_eq!(player_movement(&input, &mut player, true, true, false, false).linear_damping, 0);
    assert_eq!(player_movement(&input, &mut player, false, false, false, false).linear_damping, 0);
    input.jump_held = true;
    assert_eq!(player_movement(&input, &mut player, false, true, false, false).linear_damping, 0);
    let mut player = Player { progression: 1, double_jumped: false };
    assert_eq!(player_movement(&idle(), &mut player, false, true, false, false).linear_damping, 0);
    assert_eq!(CLING_DAMPING, 15);
}

#[test]
fn restart_is_offered_until_the_trial_is_complete() {
    let mut input = idle();
    input.restart = true;
    let mut player = Player { progression: 3, double_jumped: false };
    assert!(player_movement(&input, &mut player, true, false, false, false).restart);
    let mut player = Player { progression: 4, double_jumped: false };
    assert!(!player_movement(&input, &mut player, true, false, false, false).restart);
    let mut player = Player { progression: 0, double_jumped: false };
    assert!(!player_movement(&idle(), &mut player, true, false, false, false).restart);
}

#[test]
fn movement_keeps_the_progression() {
    let mut input = idle();
    input.jump = true;
    input.restart = true;
    let mut player = Player { progression: 3, double_jumped: false };
    player_movement(&input, &mut player, false, true, true, true);
    assert_eq!(player.progression, 3);
}

#[test]
fn the_player_starts_again_at_the_start() {
    assert_eq!(reset_position(), Position { x: 463, y: -344, z: 10 });
}

#[test]
fn animation_follows_the_motion() {
    let player = Player::default();
    assert_eq!(update_player_animation(&player, &idle(), false, false), AnimationType::Idle);
    assert_eq!(update_player_animation(&player, &idle(), false, true), AnimationType::Run);
    assert_eq!(update_player_animation(&player, &idle(), true, false), AnimationType::Jump);
    assert_eq!(update_player_animation(&player, &idle(), true, true), AnimationType::Jump);
}

#[test]
fn the_hook_shows_from_the_third_collectible_on() {
    let mut input = idle();
    input.grapple_held = true;
    let player = Player { progression: 2, double_jumped: false };
    assert_eq!(update_player_animation(&player, &input, true, true), AnimationType::Jump);
    let player = Player { progression: 3, double_jumped: false };
    assert_eq!(update_player_animation(&player, &input, true, true), AnimationType::Grapple);
    assert_eq!(update_player_animation(&player, &input, false, false), AnimationType::Grapple);
    assert_eq!(update_player_animation(&player, &idle(), false, false), AnimationType::Idle);
}

#[test]
fn the_air_grants_one_jump_however_often_the_key_is_hit() {
    let mut input = idle();
    input.jump = true;
    let mut player = Player { progression: 3, double_jumped: false };
    let mut granted = 0;
    for frame in 0..10 {
        let climbing = false;
        let out = player_movement(&input, &mut player, false, climbing, frame % 2 == 0, frame < 5);
        if out.wants_to_jump {
            granted += 1;
        }
    }
    assert_eq!(granted, 1);
    assert!(player.double_jumped);
    let mut player = Player { progression: 0, double_jumped: false };
    for _ in 0..10 {
        assert!(!player_movement(&input, &mut player, false, true, false, false).wants_to_jump);
    }
}
