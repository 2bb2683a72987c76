//! The solver's avatar: timers, steering, jumping and landing.
//!
//! Positions and colliders are geometry that the library does not inspect:
//! a player carries its collider as an opaque value of type `C`. Velocities,
//! timers and rule parameters are fixed-point numbers (see `fixed`).
use vstd::prelude::*;

use crate::fixed::{
    abs_spec, clamp_abs, clamp_abs_spec, fx_mul, in_range, mul_spec, sat, sat_add, sat_sub, signum_spec,
    SCALE,
};

verus! {

/// A fixed-point 2D vector.
#[derive(Clone, Copy, Debug, PartialEq, Eq, Structural)]
pub struct Vec2 {
    pub x: i64,
    pub y: i64,
}

impl Vec2 {
    pub open spec fn wf(self) -> bool {
        in_range(self.x as int) && in_range(self.y as int)
    }

    pub fn zero() -> (r: Vec2)
        ensures
            r.x == 0,
            r.y == 0,
    {
        Vec2 { x: 0, y: 0 }
    }
}

#[derive(Clone, Copy, Debug, PartialEq, Eq, Structural)]
pub enum PlayerState {
    Grounded,
    Airborn,
}

#[derive(Clone, Copy, Debug, PartialEq, Eq, Structural)]
pub enum PlayerAnimationState {
    Idle,
    Running,
    Jumping,
}

/// Horizontal speed above which a grounded player counts as running (0.01).
pub const RUN_THRESHOLD: i64 = 10_000;

/// `Some` timer within the representable range, or `None`.
pub open spec fn timer_wf(t: Option<i64>) -> bool {
    match t {
        Some(x) => in_range(x as int),
        None => true,
    }
}

/// A countdown after `dt` has passed: it expires once it reaches zero.
pub open spec fn countdown(t: Option<i64>, dt: int) -> Option<i64> {
    match t {
        Some(x) => if x - dt <= 0 {
            None
        } else {
            Some(sat(x - dt) as i64)
        },
        None => None,
    }
}

fn tick_countdown(t: Option<i64>, dt: i64) -> (r: Option<i64>)
    requires
        timer_wf(t),
        in_range(dt as int),
    ensures
        r == countdown(t, dt as int),
        timer_wf(r),
{
    match t {
        Some(x) => {
            let left = sat_sub(x, dt);
            if left <= 0 {
                None
            } else {
                Some(left)
            }
        },
        None => None,
    }
}

/// The parameters of the platformer physics, in fixed point.
#[derive(Clone, Copy, Debug)]
pub struct SolverRules {
    pub gravity: Vec2,
    pub buffer_time: i64,
    pub coyote_time: i64,
    pub move_speed: i64,
    pub acceleration_ground: i64,
    pub acceleration_air: i64,
    pub deceleration_ground: i64,
    pub deceleration_air: i64,
    pub jump_push: i64,
    pub jump_strength: i64,
    pub fall_multiplier: i64,
    pub low_multiplier: i64,
    pub free_fall_speed: i64,
}

impl SolverRules {
    pub open spec fn wf(self) -> bool {
        &&& self.gravity.wf()
        &&& in_range(self.buffer_time as int)
        &&& in_range(self.coyote_time as int)
        &&& in_range(self.move_speed as int)
        &&& in_range(self.acceleration_ground as int)
        &&& in_range(self.acceleration_air as int)
        &&& in_range(self.deceleration_ground as int)
        &&& in_range(self.deceleration_air as int)
        &&& in_range(self.jump_push as int)
        &&& in_range(self.jump_strength as int)
        &&& in_range(self.fall_multiplier as int)
        &&& in_range(self.low_multiplier as int)
        &&& in_range(self.free_fall_speed as int)
    }
}

/// The input gathered during one frame.
#[derive(Clone, Copy, Debug)]
pub struct PlayerControl {
    pub jump: bool,
    pub hold_jump: bool,
    pub move_dir: Vec2,
    pub pickup: bool,
}

impl PlayerControl {
    pub open spec fn is_default(self) -> bool {
        !self.jump && !self.hold_jump && self.move_dir == Vec2 { x: 0, y: 0 } && !self.pickup
    }

    pub fn new() -> (r: PlayerControl)
        ensures
            r.is_default(),
    {
        PlayerControl { jump: false, hold_jump: false, move_dir: Vec2::zero(), pickup: false }
    }

    /// Hands out the input of this frame and leaves a fresh one.
    pub fn take(&mut self) -> (r: PlayerControl)
        ensures
            r == *old(self),
            final(self).is_default(),
    {
        let r = *self;
        *self = PlayerControl::new();
        r
    }
}

impl Default for PlayerControl {
    fn default() -> (r: PlayerControl)
        ensures
            r.is_default(),
    {
        PlayerControl::new()
    }
}

/// The solver's avatar.
#[derive(Clone, Debug)]
pub struct Player<C> {
    pub collider: C,
    pub velocity: Vec2,
    pub state: PlayerState,
    pub control_timeout: Option<i64>,
    pub facing_left: bool,
    pub can_hold_jump: bool,
    pub coyote_time: Option<i64>,
    pub jump_buffer: Option<i64>,
    pub animation_time: i64,
}

/// The animation a player in `state` moving at horizontal speed `vx` shows.
pub open spec fn animation_of(state: PlayerState, vx: int) -> PlayerAnimationState {
    match state {
        PlayerState::Grounded => if abs_spec(vx) > RUN_THRESHOLD {
            PlayerAnimationState::Running
        } else {
            PlayerAnimationState::Idle
        },
        PlayerState::Airborn => PlayerAnimationState::Jumping,
    }
}

/// The way a player faces after moving at horizontal speed `vx`: it turns
/// towards the direction of motion, and keeps its facing when standing still.
pub open spec fn facing_after(facing_left: bool, vx: int) -> bool {
    if facing_left && vx > 0 || !facing_left && vx < 0 {
        !facing_left
    } else {
        facing_left
    }
}

/// Vertical speed after the variable-jump adjustment: a falling player falls
/// faster, capped at the free-fall speed; a rising player who no longer holds
/// jump is pulled down harder.
pub open spec fn variable_jump_vy(
    vy: int,
    holding: bool,
    rules: SolverRules,
    delta_time: int,
) -> int {
    if vy < 0 {
        clamp_abs_spec(
            sat(
                vy + mul_spec(
                    mul_spec(rules.gravity.y as int, sat(rules.fall_multiplier - SCALE)),
                    delta_time,
                ),
            ),
            rules.free_fall_speed as int,
        )
    } else if vy > 0 && !holding {
        sat(
            vy + mul_spec(
                mul_spec(rules.gravity.y as int, sat(rules.low_multiplier - SCALE)),
                delta_time,
            ),
        )
    } else {
        vy
    }
}

/// The horizontal speed the input asks for.
pub open spec fn target_speed(control: PlayerControl, rules: SolverRules) -> int {
    mul_spec(control.move_dir.x as int, rules.move_speed as int)
}

/// Whether the player speeds up towards `target` rather than slows down:
/// always, unless the target points the same way as `current` and is not faster.
pub open spec fn accelerating(target: int, current: int) -> bool {
    target == 0 || signum_spec(target) != signum_spec(current) || abs_spec(target)
        > abs_spec(current)
}

/// The rate of change of horizontal speed that applies.
pub open spec fn horizontal_rate(grounded: bool, accelerate: bool, rules: SolverRules) -> int {
    if accelerate {
        if grounded {
            rules.acceleration_ground as int
        } else {
            rules.acceleration_air as int
        }
    } else {
        if grounded {
            rules.deceleration_ground as int
        } else {
            rules.deceleration_air as int
        }
    }
}

/// Horizontal speed after steering: it moves towards the target speed by at
/// most the rate times `delta_time`.
pub open spec fn steered_vx(
    vx: int,
    grounded: bool,
    control: PlayerControl,
    rules: SolverRules,
    delta_time: int,
) -> int {
    let target = target_speed(control, rules);
    let rate = horizontal_rate(grounded, accelerating(target, vx), rules);
    sat(vx + clamp_abs_spec(sat(target - vx), mul_spec(rate, delta_time)))
}

/// The sideways push of a jump: `jump_push` in the direction of the input.
pub open spec fn jump_push_of(move_x: int, rules: SolverRules) -> int {
    if move_x == 0 {
        0
    } else if move_x > 0 {
        rules.jump_push as int
    } else {
        -rules.jump_push
    }
}

/// A jump is possible from the ground, or in the air while coyote time lasts.
pub open spec fn can_jump<C>(p: Player<C>) -> bool {
    p.state == PlayerState::Grounded || p.coyote_time is Some
}

impl<C> Player<C> {
    /// All numbers lie in the representable range.
    pub open spec fn wf(&self) -> bool {
        &&& self.velocity.wf()
        &&& timer_wf(self.control_timeout)
        &&& timer_wf(self.coyote_time)
        &&& timer_wf(self.jump_buffer)
        &&& in_range(self.animation_time as int)
    }

    /// At rest in the air with `collider`, facing right, every timer off.
    pub open spec fn is_fresh(&self, collider: C) -> bool {
        &&& self.collider == collider
        &&& self.velocity == Vec2 { x: 0, y: 0 }
        &&& self.state == PlayerState::Airborn
        &&& self.control_timeout is None
        &&& !self.facing_left
        &&& !self.can_hold_jump
        &&& self.coyote_time is None
        &&& self.jump_buffer is None
        &&& self.animation_time == 0
    }

    /// A player at rest in the air, with every timer off.
    pub fn new(collider: C) -> (p: Player<C>)
        ensures
            p.wf(),
            p.is_fresh(collider),
    {
        Player {
            collider,
            velocity: Vec2::zero(),
            state: PlayerState::Airborn,
            control_timeout: None,
            facing_left: false,
            can_hold_jump: false,
            coyote_time: None,
            jump_buffer: None,
            animation_time: 0,
        }
    }

    /// Advances the animation clock and the three countdowns (coyote time,
    /// jump buffer, control timeout) by `delta_time`.
    pub fn update_timers(&mut self, delta_time: i64)
        requires
            old(self).wf(),
            in_range(delta_time as int),
        ensures
            final(self).wf(),
            final(self).animation_time == sat(old(self).animation_time + delta_time),
            final(self).coyote_time == countdown(old(self).coyote_time, delta_time as int),
            final(self).jump_buffer == countdown(old(self).jump_buffer, delta_time as int),
            final(self).control_timeout == countdown(
                old(self).control_timeout,
                delta_time as int,
            ),
            final(self).collider == old(self).collider,
            final(self).velocity == old(self).velocity,
            final(self).state == old(self).state,
            final(self).facing_left == old(self).facing_left,
            final(self).can_hold_jump == old(self).can_hold_jump,
    {
        self.animation_time = sat_add(self.animation_time, delta_time);
        self.coyote_time = tick_countdown(self.coyote_time, delta_time);
        self.jump_buffer = tick_countdown(self.jump_buffer, delta_time);
        self.control_timeout = tick_countdown(self.control_timeout, delta_time);
    }

    pub fn animation_state(&self) -> (r: PlayerAnimationState)
        ensures
            r == animation_of(self.state, self.velocity.x as int),
    {
        match self.state {
            PlayerState::Grounded => {
                let vx = self.velocity.x;
                if vx > RUN_THRESHOLD || vx < -RUN_THRESHOLD {
                    PlayerAnimationState::Running
                } else {
                    PlayerAnimationState::Idle
                }
            },
            PlayerState::Airborn => PlayerAnimationState::Jumping,
        }
    }

    /// `self` is `old` after `begin_update` with `control`, `rules` and `delta_time`.
    pub open spec fn begun_from(
        &self,
        old: Player<C>,
        control: PlayerControl,
        rules: SolverRules,
        delta_time: int,
    ) -> bool {
        &&& self.animation_time == sat(old.animation_time + delta_time)
        &&& self.coyote_time == countdown(old.coyote_time, delta_time)
        &&& self.jump_buffer == (if control.jump {
            Some(rules.buffer_time)
        } else {
            countdown(old.jump_buffer, delta_time)
        })
        &&& self.control_timeout == countdown(old.control_timeout, delta_time)
        &&& self.can_hold_jump == (old.can_hold_jump && control.hold_jump)
        &&& self.facing_left == facing_after(old.facing_left, old.velocity.x as int)
        &&& self.velocity.x == sat(old.velocity.x + mul_spec(rules.gravity.x as int, delta_time))
        &&& self.velocity.y == sat(old.velocity.y + mul_spec(rules.gravity.y as int, delta_time))
        &&& self.collider == old.collider
        &&& self.state == old.state
    }

    /// The start of a frame: timers run, the jump press is buffered, a
    /// released jump key ends the held jump, the player turns to face its
    /// motion, and gravity acts.
    pub fn begin_update(&mut self, control: &PlayerControl, rules: &SolverRules, delta_time: i64)
        requires
            old(self).wf(),
            control.move_dir.wf(),
            rules.wf(),
            in_range(delta_time as int),
        ensures
            final(self).wf(),
            final(self).animation_time == sat(old(self).animation_time + delta_time),
            final(self).coyote_time == countdown(old(self).coyote_time, delta_time as int),
            final(self).jump_buffer == (if control.jump {
                Some(rules.buffer_time)
            } else {
                countdown(old(self).jump_buffer, delta_time as int)
            }),
            final(self).control_timeout == countdown(
                old(self).control_timeout,
                delta_time as int,
            ),
            final(self).can_hold_jump == (old(self).can_hold_jump && control.hold_jump),
            final(self).facing_left == facing_after(
                old(self).facing_left,
                old(self).velocity.x as int,
            ),
            final(self).velocity.x == sat(
                old(self).velocity.x + mul_spec(rules.gravity.x as int, delta_time as int),
            ),
            final(self).velocity.y == sat(
                old(self).velocity.y + mul_spec(rules.gravity.y as int, delta_time as int),
            ),
            final(self).collider == old(self).collider,
            final(self).state == old(self).state,
    {
        self.update_timers(delta_time);
        if control.jump {
            self.jump_buffer = Some(rules.buffer_time);
        }
        if self.can_hold_jump && !control.hold_jump {
            self.can_hold_jump = false;
        }
        if self.facing_left && self.velocity.x > 0 || !self.facing_left && self.velocity.x < 0 {
            self.facing_left = !self.facing_left;
        }
        let gx = fx_mul(rules.gravity.x, delta_time);
        let gy = fx_mul(rules.gravity.y, delta_time);
        self.velocity = Vec2 { x: sat_add(self.velocity.x, gx), y: sat_add(self.velocity.y, gy) };
    }

    /// Variable jump height: see `variable_jump_vy`.
    pub fn variable_jump(&mut self, control: &PlayerControl, rules: &SolverRules, delta_time: i64)
        requires
            old(self).wf(),
            rules.wf(),
            in_range(delta_time as int),
        ensures
            final(self).wf(),
            final(self).velocity.y == variable_jump_vy(
                old(self).velocity.y as int,
                control.hold_jump && old(self).can_hold_jump,
                *rules,
                delta_time as int,
            ),
            final(self).velocity.x == old(self).velocity.x,
            final(self).collider == old(self).collider,
            final(self).state == old(self).state,
            final(self).control_timeout == old(self).control_timeout,
            final(self).facing_left == old(self).facing_left,
            final(self).can_hold_jump == old(self).can_hold_jump,
            final(self).coyote_time == old(self).coyote_time,
            final(self).jump_buffer == old(self).jump_buffer,
            final(self).animation_time == old(self).animation_time,
    {
        let vy = self.velocity.y;
        if vy < 0 {
            let factor = fx_mul(rules.gravity.y, sat_sub(rules.fall_multiplier, SCALE));
            let faster = sat_add(vy, fx_mul(factor, delta_time));
            self.velocity.y = clamp_abs(faster, rules.free_fall_speed);
        } else if vy > 0 && !(control.hold_jump && self.can_hold_jump) {
            let factor = fx_mul(rules.gravity.y, sat_sub(rules.low_multiplier, SCALE));
            self.velocity.y = sat_add(vy, fx_mul(factor, delta_time));
        }
    }

    /// Horizontal steering, skipped while the control timeout runs: see `steered_vx`.
    pub fn horizontal_control(
        &mut self,
        control: &PlayerControl,
        rules: &SolverRules,
        delta_time: i64,
    )
        requires
            old(self).wf(),
            control.move_dir.wf(),
            rules.wf(),
            in_range(delta_time as int),
        ensures
            final(self).wf(),
            final(self).velocity.x == (if old(self).control_timeout is Some {
                old(self).velocity.x as int
            } else {
                steered_vx(
                    old(self).velocity.x as int,
                    old(self).state == PlayerState::Grounded,
                    *control,
                    *rules,
                    delta_time as int,
                )
            }),
            final(self).velocity.y == old(self).velocity.y,
            final(self).collider == old(self).collider,
            final(self).state == old(self).state,
            final(self).control_timeout == old(self).control_timeout,
            final(self).facing_left == old(self).facing_left,
            final(self).can_hold_jump == old(self).can_hold_jump,
            final(self).coyote_time == old(self).coyote_time,
            final(self).jump_buffer == old(self).jump_buffer,
            final(self).animation_time == old(self).animation_time,
    {
        if self.control_timeout.is_some() {
            return;
        }
        let current = self.velocity.x;
        let target = fx_mul(control.move_dir.x, rules.move_speed);
        let grounded = match self.state {
            PlayerState::Grounded => true,
            PlayerState::Airborn => false,
        };
        let target_sign: i64 = if target < 0 { -1 } else { 1 };
        let current_sign: i64 = if current < 0 { -1 } else { 1 };
        let target_abs = if target < 0 { -target } else { target };
        let current_abs = if current < 0 { -current } else { current };
        let rate = if target == 0 || target_sign != current_sign || target_abs > current_abs {
            if grounded {
                rules.acceleration_ground
            } else {
                rules.acceleration_air
            }
        } else {
            if grounded {
                rules.deceleration_ground
            } else {
                rules.deceleration_air
            }
        };
        let step = clamp_abs(sat_sub(target, current), fx_mul(rate, delta_time));
        self.velocity.x = sat_add(current, step);
    }

    /// Uses a buffered jump press when a jump is possible (`can_jump`): the
    /// buffer and coyote time are spent, the jump can be held, and the player
    /// leaves the ground at `jump_strength` with a sideways push.
    pub fn jump(&mut self, control: &PlayerControl, rules: &SolverRules)
        requires
            old(self).wf(),
            control.move_dir.wf(),
            rules.wf(),
        ensures
            final(self).wf(),
            final(self).collider == old(self).collider,
            final(self).control_timeout == old(self).control_timeout,
            final(self).facing_left == old(self).facing_left,
            final(self).animation_time == old(self).animation_time,
            (old(self).jump_buffer is Some && can_jump(*old(self))) ==> {
                &&& final(self).coyote_time is None
                &&& final(self).jump_buffer is None
                &&& final(self).can_hold_jump
                &&& final(self).velocity.x == sat(
                    old(self).velocity.x + jump_push_of(control.move_dir.x as int, *rules),
                )
                &&& final(self).velocity.y == rules.jump_strength
                &&& final(self).state == PlayerState::Airborn
            },
            !(old(self).jump_buffer is Some && can_jump(*old(self))) ==> {
                &&& final(self).coyote_time == old(self).coyote_time
                &&& final(self).jump_buffer == old(self).jump_buffer
                &&& final(self).can_hold_jump == old(self).can_hold_jump
                &&& final(self).velocity == old(self).velocity
                &&& final(self).state == old(self).state
            },
    {
        if self.jump_buffer.is_none() {
            return;
        }
        let jump = match self.state {
            PlayerState::Grounded => true,
            PlayerState::Airborn => self.coyote_time.is_some(),
        };
        if !jump {
            return;
        }
        self.coyote_time = None;
        self.jump_buffer = None;
        self.can_hold_jump = true;
        let push = if control.move_dir.x == 0 {
            0
        } else if control.move_dir.x > 0 {
            rules.jump_push
        } else {
            -rules.jump_push
        };
        self.velocity = Vec2 { x: sat_add(self.velocity.x, push), y: rules.jump_strength };
        self.state = PlayerState::Airborn;
    }

    /// Landing: the player counts as airborne unless it is not moving up and
    /// its feet touch ground (`feet_on_ground`, which is only consulted then);
    /// landing restarts coyote time.
    pub fn check_ground(&mut self, rules: &SolverRules, feet_on_ground: bool)
        requires
            old(self).wf(),
            rules.wf(),
        ensures
            final(self).wf(),
            (old(self).velocity.y <= 0 && feet_on_ground) ==> {
                &&& final(self).state == PlayerState::Grounded
                &&& final(self).coyote_time == Some(rules.coyote_time)
            },
            !(old(self).velocity.y <= 0 && feet_on_ground) ==> {
                &&& final(self).state == PlayerState::Airborn
                &&& final(self).coyote_time == old(self).coyote_time
            },
            final(self).collider == old(self).collider,
            final(self).velocity == old(self).velocity,
            final(self).control_timeout == old(self).control_timeout,
            final(self).facing_left == old(self).facing_left,
            final(self).can_hold_jump == old(self).can_hold_jump,
            final(self).jump_buffer == old(self).jump_buffer,
            final(self).animation_time == old(self).animation_time,
    {
        let was_grounded = match self.state {
            PlayerState::Grounded => true,
            PlayerState::Airborn => false,
        };
        if was_grounded {
            self.state = PlayerState::Airborn;
        }
        let airborn = match self.state {
            PlayerState::Grounded => false,
            PlayerState::Airborn => true,
        };
        let update_state = (airborn || was_grounded) && self.velocity.y <= 0;
        if update_state && feet_on_ground {
            self.state = PlayerState::Grounded;
            self.coyote_time = Some(rules.coyote_time);
        }
    }

    /// Restarts the animation clock when the animation shown changed from `before`.
    pub fn restart_animation_if_changed(&mut self, before: PlayerAnimationState)
        requires
            old(self).wf(),
        ensures
            final(self).wf(),
            final(self).animation_time == (if animation_of(
                old(self).state,
                old(self).velocity.x as int,
            ) != before {
                0
            } else {
                old(self).animation_time as int
            }),
            final(self).collider == old(self).collider,
            final(self).velocity == old(self).velocity,
            final(self).state == old(self).state,
            final(self).control_timeout == old(self).control_timeout,
            final(self).facing_left == old(self).facing_left,
            final(self).can_hold_jump == old(self).can_hold_jump,
            final(self).coyote_time == old(self).coyote_time,
            final(self).jump_buffer == old(self).jump_buffer,
    {
        let now = self.animation_state();
        if now != before {
            self.animation_time = 0;
        }
    }
}

} // verus!
