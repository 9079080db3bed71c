use ball_game::controls::Keys;
use ball_game::player::{
    can_step, player_animation_system, player_landing_system, player_movement, Facing, PlayerActionState,
    PlayerJumpState, PlayerState,
};

fn idle() -> PlayerState {
    PlayerState { action_state: PlayerActionState::Idle }
}

#[test]
fn defaults_stand_still_and_may_jump() {
    assert_eq!(PlayerActionState::default(), PlayerActionState::Idle);
    let jump_state = PlayerJumpState::default();
    assert!(jump_state.can_jump);
    assert_eq!(jump_state.jump_force, 500);
}

#[test]
fn no_keys_leave_the_runner_idle() {
    let mut state = PlayerState { action_state: PlayerActionState::Moving };
    let mut jump_state = PlayerJumpState::default();
    let movement = player_movement(&Keys::default(), true, &mut state, &mut jump_state);
    assert_eq!(movement.turn, None);
    assert_eq!((movement.heading.x, movement.heading.y), (0, 0));
    assert_eq!(movement.speed, 300);
    assert_eq!(movement.playback_tenths, 8);
    assert!(!movement.jump);
    assert!(jump_state.can_jump);
    assert_eq!(state.action_state, PlayerActionState::Idle);
}

#[test]
fn walking_left_turns_a_runner_that_faces_right() {
    let keys = Keys { a: true, ..Keys::default() };
    let mut state = idle();
    let mut jump_state = PlayerJumpState::default();
    let movement = player_movement(&keys, true, &mut state, &mut jump_state);
    assert_eq!(movement.turn, Some(Facing::Left));
    assert_eq!((movement.heading.x, movement.heading.y), (-1, 0));
    assert_eq!(movement.speed, 300);
    assert_eq!(state.action_state, PlayerActionState::Moving);
}

#[test]
fn walking_left_leaves_a_runner_that_faces_left() {
    let keys = Keys { left: true, ..Keys::default() };
    let mut state = idle();
    let mut jump_state = PlayerJumpState::default();
    let movement = player_movement(&keys, false, &mut state, &mut jump_state);
    assert_eq!(movement.turn, None);
    assert_eq!(movement.heading.x, -1);
}

#[test]
fn walking_right_turns_a_runner_that_faces_left() {
    let keys = Keys { d: true, ..Keys::default() };
    let mut state = idle();
    let mut jump_state = PlayerJumpState::default();
    let movement = player_movement(&keys, false, &mut state, &mut jump_state);
    assert_eq!(movement.turn, Some(Facing::Right));
    assert_eq!(movement.heading.x, 1);
    let movement = player_movement(&keys, true, &mut state, &mut jump_state);
    assert_eq!(movement.turn, None);
}

#[test]
fn left_and_right_together_cancel_and_turn_right() {
    let keys = Keys { left: true, right: true, ..Keys::default() };
    let mut state = idle();
    let mut jump_state = PlayerJumpState::default();
    let movement = player_movement(&keys, true, &mut state, &mut jump_state);
    assert_eq!(movement.turn, Some(Facing::Right));
    assert_eq!(movement.heading.x, 0);
    assert_eq!(state.action_state, PlayerActionState::Moving);
    let movement = player_movement(&keys, false, &mut state, &mut jump_state);
    assert_eq!(movement.turn, Some(Facing::Right));
}

#[test]
fn down_steers_and_up_does_not() {
    let mut state = idle();
    let mut jump_state = PlayerJumpState::default();
    let down = Keys { s: true, ..Keys::default() };
    let movement = player_movement(&down, true, &mut state, &mut jump_state);
    assert_eq!((movement.heading.x, movement.heading.y), (0, -1));
    assert_eq!(state.action_state, PlayerActionState::Moving);
    let up = Keys { up: true, w: true, ..Keys::default() };
    let movement = player_movement(&up, true, &mut state, &mut jump_state);
    assert_eq!((movement.heading.x, movement.heading.y), (0, 0));
    assert_eq!(state.action_state, PlayerActionState::Idle);
}

#[test]
fn shift_runs_at_double_speed() {
    let keys = Keys { right: true, shift_right: true, ..Keys::default() };
    let mut state = idle();
    let mut jump_state = PlayerJumpState::default();
    let movement = player_movement(&keys, true, &mut state, &mut jump_state);
    assert_eq!(movement.speed, 600);
    assert_eq!(movement.playback_tenths, 8);
    assert_eq!(state.action_state, PlayerActionState::Running);
    let movement = player_movement(&keys, true, &mut state, &mut jump_state);
    assert_eq!(movement.playback_tenths, 14);
}

#[test]
fn playback_goes_by_the_state_at_the_start_of_the_frame() {
    let walking = Keys::default();
    let running = Keys { shift_left: true, ..Keys::default() };
    let cases = [
        (false, PlayerActionState::Idle, 8),
        (false, PlayerActionState::Moving, 8),
        (false, PlayerActionState::Jumping, 2),
        (false, PlayerActionState::Running, 8),
        (false, PlayerActionState::RunningAndJumping, 8),
        (true, PlayerActionState::Idle, 8),
        (true, PlayerActionState::Moving, 8),
        (true, PlayerActionState::Jumping, 2),
        (true, PlayerActionState::Running, 14),
        (true, PlayerActionState::RunningAndJumping, 6),
    ];
    for (runs, action_state, tenths) in cases {
        let mut state = PlayerState { action_state };
        let mut jump_state = PlayerJumpState::default();
        let keys = if runs { &running } else { &walking };
        let movement = player_movement(keys, true, &mut state, &mut jump_state);
        assert_eq!(movement.playback_tenths, tenths);
    }
}

#[test]
fn space_starts_a_jump_once() {
    let keys = Keys { space_just_pressed: true, space: true, ..Keys::default() };
    let mut state = idle();
    let mut jump_state = PlayerJumpState::default();
    let movement = player_movement(&keys, true, &mut state, &mut jump_state);
    assert!(movement.jump);
    assert!(!jump_state.can_jump);
    assert_eq!(jump_state.jump_force, 500);
    assert_eq!(state.action_state, PlayerActionState::Jumping);
    let movement = player_movement(&keys, true, &mut state, &mut jump_state);
    assert!(!movement.jump);
    assert_eq!(state.action_state, PlayerActionState::Jumping);
}

#[test]
fn a_jump_while_running_is_a_running_jump() {
    let keys = Keys { right: true, shift_left: true, space_just_pressed: true, ..Keys::default() };
    let mut state = PlayerState { action_state: PlayerActionState::Running };
    let mut jump_state = PlayerJumpState::default();
    let movement = player_movement(&keys, true, &mut state, &mut jump_state);
    assert!(movement.jump);
    assert_eq!(movement.playback_tenths, 14);
    assert_eq!(state.action_state, PlayerActionState::RunningAndJumping);
}

#[test]
fn a_runner_in_the_air_keeps_its_state() {
    let keys = Keys { left: true, shift_left: true, ..Keys::default() };
    let mut jump_state = PlayerJumpState { can_jump: false, jump_force: 500 };
    let mut state = PlayerState { action_state: PlayerActionState::Jumping };
    player_movement(&keys, true, &mut state, &mut jump_state);
    assert_eq!(state.action_state, PlayerActionState::Jumping);
    let mut state = PlayerState { action_state: PlayerActionState::RunningAndJumping };
    player_movement(&Keys::default(), true, &mut state, &mut jump_state);
    assert_eq!(state.action_state, PlayerActionState::RunningAndJumping);
}

#[test]
fn space_without_an_offer_does_not_jump() {
    let keys = Keys { space_just_pressed: true, ..Keys::default() };
    let mut state = idle();
    let mut jump_state = PlayerJumpState { can_jump: false, jump_force: 500 };
    let movement = player_movement(&keys, true, &mut state, &mut jump_state);
    assert!(!movement.jump);
    assert!(!jump_state.can_jump);
    assert_eq!(state.action_state, PlayerActionState::Idle);
}

#[test]
fn idle_strip_cycles_through_three_pictures() {
    let mut index = 0;
    let mut seen = Vec::new();
    for _ in 0..4 {
        let frame = player_animation_system(PlayerActionState::Idle, index);
        assert_eq!(frame.frame_count, 3);
        index = frame.index;
        seen.push(index);
    }
    assert_eq!(seen, vec![1, 2, 0, 1]);
}

#[test]
fn moving_strip_cycles_through_six_pictures() {
    let mut index = 3;
    let mut seen = Vec::new();
    for _ in 0..7 {
        let frame = player_animation_system(PlayerActionState::Moving, index);
        assert_eq!(frame.frame_count, 6);
        index = frame.index;
        seen.push(index);
    }
    assert_eq!(seen, vec![4, 5, 6, 7, 8, 3, 4]);
    assert_eq!(player_animation_system(PlayerActionState::Running, 8).index, 3);
}

#[test]
fn jumping_strip_cycles_through_four_pictures() {
    let mut index = 5;
    let mut seen = Vec::new();
    for _ in 0..5 {
        let frame = player_animation_system(PlayerActionState::Jumping, index);
        assert_eq!(frame.frame_count, 4);
        index = frame.index;
        seen.push(index);
    }
    assert_eq!(seen, vec![6, 7, 8, 5, 6]);
    assert_eq!(player_animation_system(PlayerActionState::RunningAndJumping, 8).index, 5);
}

#[test]
fn a_picture_past_the_strip_is_wrapped_into_it() {
    assert_eq!(player_animation_system(PlayerActionState::Idle, 7).index, 2);
    assert_eq!(player_animation_system(PlayerActionState::Moving, 20).index, 3);
    assert_eq!(player_animation_system(PlayerActionState::Jumping, 10).index, 7);
    assert_eq!(player_animation_system(PlayerActionState::Moving, usize::MAX).index, 3 + (usize::MAX - 2) % 6);
}

#[test]
fn no_contact_changes_nothing() {
    let mut state = PlayerState { action_state: PlayerActionState::Jumping };
    let mut jump_state = PlayerJumpState { can_jump: false, jump_force: 500 };
    assert_eq!(player_landing_system(&vec![], &mut state, &mut jump_state), None);
    assert_eq!(player_landing_system(&vec![false, false], &mut state, &mut jump_state), None);
    assert!(!jump_state.can_jump);
    assert_eq!(state.action_state, PlayerActionState::Jumping);
}

#[test]
fn landing_ends_a_plain_jump_on_the_last_platform_touched() {
    let mut state = PlayerState { action_state: PlayerActionState::Jumping };
    let mut jump_state = PlayerJumpState { can_jump: false, jump_force: 500 };
    let contacts = vec![false, true, false, true, false];
    assert_eq!(player_landing_system(&contacts, &mut state, &mut jump_state), Some(3));
    assert!(jump_state.can_jump);
    assert_eq!(jump_state.jump_force, 500);
    assert_eq!(state.action_state, PlayerActionState::Idle);
}

#[test]
fn landing_does_not_end_a_running_jump() {
    let mut state = PlayerState { action_state: PlayerActionState::RunningAndJumping };
    let mut jump_state = PlayerJumpState { can_jump: false, jump_force: 500 };
    assert_eq!(player_landing_system(&vec![true], &mut state, &mut jump_state), Some(0));
    assert!(jump_state.can_jump);
    assert_eq!(state.action_state, PlayerActionState::RunningAndJumping);
}

#[test]
fn standing_on_a_platform_keeps_the_state() {
    let mut state = PlayerState { action_state: PlayerActionState::Running };
    let mut jump_state = PlayerJumpState::default();
    assert_eq!(player_landing_system(&vec![true, false], &mut state, &mut jump_state), Some(0));
    assert!(jump_state.can_jump);
    assert_eq!(state.action_state, PlayerActionState::Running);
}

#[test]
fn a_picture_before_the_strip_cannot_be_stepped_on() {
    assert!(can_step(PlayerActionState::Idle, 0));
    assert!(can_step(PlayerActionState::Idle, usize::MAX - 1));
    assert!(!can_step(PlayerActionState::Idle, usize::MAX));
    assert!(!can_step(PlayerActionState::Moving, 2));
    assert!(can_step(PlayerActionState::Moving, 3));
    assert!(!can_step(PlayerActionState::Running, 0));
    assert!(can_step(PlayerActionState::Running, usize::MAX));
    assert!(!can_step(PlayerActionState::Jumping, 4));
    assert!(can_step(PlayerActionState::Jumping, 5));
    assert!(!can_step(PlayerActionState::RunningAndJumping, 3));
    assert!(can_step(PlayerActionState::RunningAndJumping, usize::MAX));
}
