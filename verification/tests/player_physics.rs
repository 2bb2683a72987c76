use dedend::fixed::{LIMIT, SCALE};
use dedend::player::{Player, PlayerAnimationState, PlayerControl, PlayerState, SolverRules, Vec2};

fn rules() -> SolverRules {
    SolverRules {
        gravity: Vec2 { x: 0, y: -9_800_000 },
        buffer_time: 100_000,
        coyote_time: 120_000,
        move_speed: 5_000_000,
        acceleration_ground: 50_000_000,
        acceleration_air: 20_000_000,
        deceleration_ground: 40_000_000,
        deceleration_air: 10_000_000,
        jump_push: 1_000_000,
        jump_strength: 7_000_000,
        fall_multiplier: 2_500_000,
        low_multiplier: 2_000_000,
        free_fall_speed: 2_000_000,
    }
}

fn control(jump: bool, hold: bool, x: i64) -> PlayerControl {
    PlayerControl { jump, hold_jump: hold, move_dir: Vec2 { x: x * SCALE, y: 0 }, pickup: false }
}

#[test]
fn new_player_is_at_rest_in_the_air() {
    let p = Player::new(7u8);
    assert_eq!(p.collider, 7);
    assert_eq!(p.velocity, Vec2 { x: 0, y: 0 });
    assert_eq!(p.state, PlayerState::Airborn);
    assert_eq!(p.coyote_time, None);
    assert_eq!(p.jump_buffer, None);
    assert_eq!(p.control_timeout, None);
    assert_eq!(p.animation_time, 0);
}

#[test]
fn timers_count_down_and_expire() {
    let mut p = Player::new(());
    p.coyote_time = Some(100_000);
    p.jump_buffer = Some(50_000);
    p.control_timeout = Some(200_000);
    p.update_timers(50_000);
    assert_eq!(p.coyote_time, Some(50_000));
    assert_eq!(p.jump_buffer, None);
    assert_eq!(p.control_timeout, Some(150_000));
    assert_eq!(p.animation_time, 50_000);
    p.update_timers(60_000);
    assert_eq!(p.coyote_time, None);
    assert_eq!(p.control_timeout, Some(90_000));
    assert_eq!(p.animation_time, 110_000);
}

#[test]
fn animation_clock_saturates() {
    let mut p = Player::new(());
    p.animation_time = LIMIT - 5;
    p.update_timers(10);
    assert_eq!(p.animation_time, LIMIT);
}

#[test]
fn animation_state_follows_motion() {
    let mut p = Player::new(());
    assert_eq!(p.animation_state(), PlayerAnimationState::Jumping);
    p.state = PlayerState::Grounded;
    p.velocity.x = 10_000;
    assert_eq!(p.animation_state(), PlayerAnimationState::Idle);
    p.velocity.x = 10_001;
    assert_eq!(p.animation_state(), PlayerAnimationState::Running);
    p.velocity.x = -20_000;
    assert_eq!(p.animation_state(), PlayerAnimationState::Running);
}

#[test]
fn begin_update_buffers_turns_and_falls() {
    let r = rules();
    let mut p = Player::new(());
    p.velocity = Vec2 { x: -1_000_000, y: 0 };
    p.can_hold_jump = true;
    p.begin_update(&control(true, false, 0), &r, 16_000);
    assert_eq!(p.jump_buffer, Some(100_000));
    assert!(!p.can_hold_jump);
    assert!(p.facing_left);
    assert_eq!(p.velocity.y, -156_800);
    assert_eq!(p.velocity.x, -1_000_000);
}

#[test]
fn falling_speeds_up_up_to_free_fall() {
    let r = rules();
    let mut p = Player::new(());
    p.velocity.y = -1_000_000;
    p.variable_jump(&control(false, false, 0), &r, 10_000);
    // -1 + (-9.8 * 1.5) * 0.01 = -1.147
    assert_eq!(p.velocity.y, -1_147_000);
    p.variable_jump(&control(false, false, 0), &r, 100_000);
    assert_eq!(p.velocity.y, -2_000_000);
}

#[test]
fn releasing_jump_cuts_the_rise() {
    let r = rules();
    let mut p = Player::new(());
    p.velocity.y = 3_000_000;
    p.can_hold_jump = true;
    p.variable_jump(&control(false, true, 0), &r, 100_000);
    assert_eq!(p.velocity.y, 3_000_000);
    p.variable_jump(&control(false, false, 0), &r, 100_000);
    // 3 + (-9.8 * 1.0) * 0.1 = 2.02
    assert_eq!(p.velocity.y, 2_020_000);
}

#[test]
fn steering_accelerates_towards_the_target() {
    let r = rules();
    let mut p = Player::new(());
    p.state = PlayerState::Grounded;
    p.horizontal_control(&control(false, false, 1), &r, 16_000);
    assert_eq!(p.velocity.x, 800_000);
    p.state = PlayerState::Airborn;
    p.horizontal_control(&control(false, false, 1), &r, 16_000);
    assert_eq!(p.velocity.x, 1_120_000);
}

#[test]
fn steering_never_overshoots() {
    let r = rules();
    let mut p = Player::new(());
    p.state = PlayerState::Grounded;
    p.velocity.x = 4_900_000;
    p.horizontal_control(&control(false, false, 1), &r, 1_000_000);
    assert_eq!(p.velocity.x, 5_000_000);
    p.horizontal_control(&control(false, false, 0), &r, 1_000_000);
    assert_eq!(p.velocity.x, 0);
}

#[test]
fn steering_waits_for_control_timeout() {
    let r = rules();
    let mut p = Player::new(());
    p.control_timeout = Some(1);
    p.horizontal_control(&control(false, false, 1), &r, 16_000);
    assert_eq!(p.velocity.x, 0);
}

#[test]
fn jump_from_the_ground() {
    let r = rules();
    let mut p = Player::new(());
    p.state = PlayerState::Grounded;
    p.jump_buffer = Some(50_000);
    p.coyote_time = Some(10);
    p.velocity.x = 2_000_000;
    p.jump(&control(false, true, -1), &r);
    assert_eq!(p.velocity, Vec2 { x: 1_000_000, y: 7_000_000 });
    assert_eq!(p.state, PlayerState::Airborn);
    assert_eq!(p.jump_buffer, None);
    assert_eq!(p.coyote_time, None);
    assert!(p.can_hold_jump);
}

#[test]
fn no_jump_in_the_air_without_coyote_time() {
    let r = rules();
    let mut p = Player::new(());
    p.jump_buffer = Some(50_000);
    p.jump(&control(false, false, 1), &r);
    assert_eq!(p.velocity, Vec2 { x: 0, y: 0 });
    assert_eq!(p.jump_buffer, Some(50_000));
    p.coyote_time = Some(1);
    p.jump(&control(false, false, 1), &r);
    assert_eq!(p.velocity, Vec2 { x: 1_000_000, y: 7_000_000 });
}

#[test]
fn no_jump_without_a_buffered_press() {
    let r = rules();
    let mut p = Player::new(());
    p.state = PlayerState::Grounded;
    p.jump(&control(false, false, 0), &r);
    assert_eq!(p.state, PlayerState::Grounded);
    assert_eq!(p.velocity.y, 0);
}

#[test]
fn landing_needs_ground_and_no_rise() {
    let r = rules();
    let mut p = Player::new(());
    p.velocity.y = -1;
    p.check_ground(&r, true);
    assert_eq!(p.state, PlayerState::Grounded);
    assert_eq!(p.coyote_time, Some(120_000));
    p.velocity.y = 1;
    p.check_ground(&r, true);
    assert_eq!(p.state, PlayerState::Airborn);
    p.velocity.y = 0;
    p.check_ground(&r, false);
    assert_eq!(p.state, PlayerState::Airborn);
}

#[test]
fn animation_restarts_on_change() {
    let mut p = Player::new(());
    p.animation_time = 500;
    p.restart_animation_if_changed(PlayerAnimationState::Jumping);
    assert_eq!(p.animation_time, 500);
    p.restart_animation_if_changed(PlayerAnimationState::Idle);
    assert_eq!(p.animation_time, 0);
}

#[test]
fn control_take_hands_out_and_resets() {
    let mut c = control(true, true, 1);
    c.pickup = true;
    let taken = c.take();
    assert!(taken.jump && taken.hold_jump && taken.pickup);
    assert_eq!(taken.move_dir.x, SCALE);
    assert!(!c.jump && !c.hold_jump && !c.pickup);
    assert_eq!(c.move_dir, Vec2 { x: 0, y: 0 });
    let d: PlayerControl = Default::default();
    assert!(!d.jump);
}
