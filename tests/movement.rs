use skull_arena::geometry::{isqrt, Vec2};
use skull_arena::motion::{
    chase, integrate, steer, AccumulatedInput, CharacterController, CharacterControllerState,
    InputAction, InputSettings, InputState, ReadHeading, Rotation,
};
use skull_arena::timer::{Timer, TimerMode};

#[test]
fn integer_square_roots() {
    assert_eq!(isqrt(0), 0);
    assert_eq!(isqrt(1), 1);
    assert_eq!(isqrt(15), 3);
    assert_eq!(isqrt(16), 4);
    assert_eq!(isqrt(2_000_000), 1414);
    assert_eq!(isqrt(u64::MAX), 4_294_967_295);
}

#[test]
fn planar_distances() {
    let a = Vec2::new(0, 0);
    let b = Vec2::new(3000, -4000);
    assert_eq!(a.distance_squared(&b), 25_000_000);
    assert_eq!(a.distance(&b), 5000);
    assert_eq!(b.distance(&a), 5000);
    assert_eq!(a.distance(&Vec2::new(1, 1)), 1);
}

#[test]
fn once_timer_finishes_once() {
    let mut t = Timer::from_millis(100, TimerMode::Once);
    t.tick(60);
    assert!(!t.is_finished());
    assert_eq!(t.elapsed, 60);
    t.tick(60);
    assert!(t.is_finished());
    assert!(t.just_finished());
    assert_eq!(t.elapsed, 100);
    t.tick(10);
    assert!(t.is_finished());
    assert!(!t.just_finished());
    t.reset();
    assert!(!t.is_finished());
    assert_eq!(t.elapsed, 0);
}

#[test]
fn repeating_timer_wraps() {
    let mut t = Timer::from_millis(750, TimerMode::Repeating);
    t.tick(1600);
    assert_eq!(t.times_finished_this_tick, 2);
    assert_eq!(t.elapsed, 100);
    t.tick(100);
    assert!(!t.just_finished());
    assert_eq!(t.elapsed, 200);
}

#[test]
fn velocity_approaches_desired() {
    let controller = CharacterController { acceleration: 10_000, max_speed: 15_000 };
    let mut state = CharacterControllerState::new();
    state.desired_velocity = Vec2::new(15_000, -15_000);
    let mut heading = ReadHeading { heading: 0 };
    let mut v = Vec2::new(0, 0);
    integrate(&controller, &mut state, &mut heading, &mut v, 16);
    assert_eq!(v, Vec2::new(2400, -2400));
    integrate(&controller, &mut state, &mut heading, &mut v, 16);
    assert_eq!(v, Vec2::new(4416, -4416));
}

#[test]
fn velocity_never_overshoots_at_full_factor() {
    let controller = CharacterController { acceleration: 100_000, max_speed: 15_000 };
    let mut state = CharacterControllerState::new();
    state.desired_velocity = Vec2::new(-7, 12_345);
    let mut heading = ReadHeading { heading: 0 };
    let mut v = Vec2::new(9000, -9000);
    integrate(&controller, &mut state, &mut heading, &mut v, 10);
    assert_eq!(v, Vec2::new(-7, 12_345));
    let mut w = Vec2::new(1000, 0);
    state.desired_velocity = Vec2::new(-999, 0);
    let half = CharacterController { acceleration: 50_000, max_speed: 15_000 };
    integrate(&half, &mut state, &mut heading, &mut w, 10);
    assert_eq!(w, Vec2::new(1, 0));
}

#[test]
fn heading_turns_and_wraps() {
    let controller = CharacterController { acceleration: 0, max_speed: 0 };
    let mut state = CharacterControllerState::new();
    state.heading = 995_000;
    state.desired_turn = 500;
    let mut heading = ReadHeading { heading: 0 };
    let mut v = Vec2::new(0, 0);
    integrate(&controller, &mut state, &mut heading, &mut v, 16);
    assert_eq!(state.heading, 3000);
    assert_eq!(heading.heading, 3000);
    state.desired_turn = -500;
    state.heading = 1000;
    integrate(&controller, &mut state, &mut heading, &mut v, 16);
    assert_eq!(state.heading, 993_000);
}

#[test]
fn input_accumulates_keys_and_pointer() {
    let settings = InputSettings::new();
    let mut acc = AccumulatedInput::new();
    let pressed = vec![InputAction::MoveForward, InputAction::StrafeRight, InputAction::TurnLeft];
    acc.accumulate(&pressed, 2000, &settings, &InputState { locked_cursor: true });
    assert_eq!(acc.movement, Vec2::new(1, -1));
    assert_eq!(acc.turn, 900);
    acc.clear();
    acc.accumulate(&pressed, 2000, &settings, &InputState { locked_cursor: false });
    assert_eq!(acc.turn, 1000);
    acc.clear();
    let both = vec![InputAction::MoveForward, InputAction::MoveBackward, InputAction::TurnRight];
    acc.accumulate(&both, -3, &settings, &InputState { locked_cursor: true });
    assert_eq!(acc.movement, Vec2::new(0, 0));
    assert_eq!(acc.turn, -1000);
}

#[test]
fn steering_scales_and_rotates_input() {
    let controller = CharacterController { acceleration: 10_000, max_speed: 15_000 };
    let settings = InputSettings::new();
    let mut state = CharacterControllerState::new();
    let forward = AccumulatedInput { movement: Vec2::new(0, -1), turn: 900 };
    steer(&controller, &settings, &forward, &Rotation::identity(), false, &mut state);
    assert_eq!(state.desired_velocity, Vec2::new(0, -15_000));
    assert_eq!(state.desired_turn, 450);
    let quarter = Rotation { cos: 0, sin: 1_000_000 };
    steer(&controller, &settings, &forward, &quarter, false, &mut state);
    assert_eq!(state.desired_velocity, Vec2::new(-15_000, 0));
    let diagonal = AccumulatedInput { movement: Vec2::new(1, -1), turn: 0 };
    steer(&controller, &settings, &diagonal, &Rotation::identity(), false, &mut state);
    assert_eq!(state.desired_velocity, Vec2::new(10_608, -10_608));
    assert_eq!(state.desired_turn, 0);
}

#[test]
fn dead_body_stands_still() {
    let controller = CharacterController { acceleration: 10_000, max_speed: 15_000 };
    let settings = InputSettings::new();
    let mut state = CharacterControllerState::new();
    state.desired_velocity = Vec2::new(5, 5);
    state.desired_turn = 77;
    let forward = AccumulatedInput { movement: Vec2::new(0, -1), turn: 900 };
    steer(&controller, &settings, &forward, &Rotation::identity(), true, &mut state);
    assert_eq!(state.desired_velocity, Vec2::new(0, 0));
    assert_eq!(state.desired_turn, 77);
}

#[test]
fn chasing_heads_for_the_target() {
    assert_eq!(chase(&Vec2::new(0, 0), &Vec2::new(3000, 4000), 5000), Vec2::new(3000, 4000));
    assert_eq!(chase(&Vec2::new(0, -20_000), &Vec2::new(0, 0), 5000), Vec2::new(0, 5000));
    assert_eq!(chase(&Vec2::new(10, 10), &Vec2::new(10, 10), 5000), Vec2::new(0, 0));
}
