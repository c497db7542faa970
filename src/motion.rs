use vstd::prelude::*;
use crate::geometry::{Vec2, dist_squared, isqrt, sqrt_floor, lemma_sqrt_floor_at_least};

verus! {

/// Millionths: the scale of headings (of a turn), of rotation components and
/// of the per-tick approach factor.
pub const MICRO: i64 = 1_000_000;

/// Largest speed any body may have, in millimetres per second.
pub const SPEED_LIMIT: i64 = 4_000_000_000_000;

/// Largest top speed a controller may be configured with, in millimetres per second.
pub const MAX_SPEED_LIMIT: u64 = 1_000_000_000;

/// Largest accumulated movement along one axis, in whole steps.
pub const MOVE_LIMIT: i64 = 999;

/// Largest accumulated turn, in thousandths.
pub const TURN_LIMIT: i64 = 1_000_000_000_000;

/// Division rounding toward zero, as integer division does on machine integers.
pub open spec fn trunc_div(a: int, b: int) -> int {
    if a >= 0 {
        a / b
    } else {
        -((-a) / b)
    }
}

/// One component of velocity after a tick: it moves toward the desired value
/// by the fraction `k` (in millionths) of the remaining difference.
pub open spec fn approach(v: int, d: int, k: int) -> int {
    v + trunc_div((d - v) * k, MICRO as int)
}

/// The velocity component after `n` ticks with the same desired value and factor.
pub open spec fn approach_n(v: int, d: int, k: int, n: nat) -> int
    decreases n,
{
    if n == 0 {
        v
    } else {
        approach(approach_n(v, d, k, (n - 1) as nat), d, k)
    }
}

/// Heading after turning by `delta`, both in millionths of a turn, kept within one turn.
pub open spec fn turned(heading: int, delta: int) -> int {
    (heading + delta) % (MICRO as int)
}

pub open spec fn fits_i64(x: int) -> bool {
    i64::MIN <= x <= i64::MAX
}

pub open spec fn speed_ok(v: Vec2) -> bool {
    -SPEED_LIMIT <= v.x <= SPEED_LIMIT && -SPEED_LIMIT <= v.z <= SPEED_LIMIT
}

/// Tuning of a mobile body: `acceleration` in thousandths per second, and
/// `max_speed` in millimetres per second.
#[derive(Clone, Copy, Debug, PartialEq, Eq, Structural)]
pub struct CharacterController {
    pub acceleration: u64,
    pub max_speed: u64,
}

/// What the controller wants this tick: `heading` in millionths of a turn,
/// `desired_turn` in thousandths of a turn per second, `desired_velocity` in
/// millimetres per second.
#[derive(Clone, Copy, Debug, PartialEq, Eq, Structural)]
pub struct CharacterControllerState {
    pub heading: i64,
    pub desired_turn: i64,
    pub desired_velocity: Vec2,
}

/// The heading published for other systems, in millionths of a turn.
#[derive(Clone, Copy, Debug, PartialEq, Eq, Structural)]
pub struct ReadHeading {
    pub heading: i64,
}

/// Cosine and sine of a heading, in millionths.
#[derive(Clone, Copy, Debug, PartialEq, Eq, Structural)]
pub struct Rotation {
    pub cos: i64,
    pub sin: i64,
}

impl Rotation {
    pub open spec fn wf(self) -> bool {
        -MICRO <= self.cos <= MICRO && -MICRO <= self.sin <= MICRO
    }

    /// Facing straight ahead.
    pub fn identity() -> (r: Rotation)
        ensures
            r.wf(),
            r.cos == MICRO && r.sin == 0,
    {
        Rotation { cos: MICRO, sin: 0 }
    }
}

/// Rotation of a planar vector about the vertical axis.
pub open spec fn rotated(rot: Rotation, v: (int, int)) -> (int, int) {
    (
        trunc_div(v.0 * rot.cos + v.1 * rot.sin, MICRO as int),
        trunc_div(v.1 * rot.cos - v.0 * rot.sin, MICRO as int),
    )
}

/// Movement in the body's own frame scaled to top speed: input longer than one
/// step is brought back to unit length first, shorter input is kept as it is.
pub open spec fn scaled_movement(m: Vec2, max_speed: u64) -> (int, int) {
    let len2 = m.x * m.x + m.z * m.z;
    if len2 > 1 {
        let len = sqrt_floor((len2 * 1_000_000) as nat);
        (trunc_div(m.x * max_speed * 1000, len as int), trunc_div(m.z * max_speed * 1000, len as int))
    } else {
        (m.x * max_speed, m.z * max_speed)
    }
}

impl CharacterControllerState {
    pub fn new() -> (r: CharacterControllerState)
        ensures
            r.heading == 0,
            r.desired_turn == 0,
            r.desired_velocity == (Vec2 { x: 0, z: 0 }),
    {
        CharacterControllerState { heading: 0, desired_turn: 0, desired_velocity: Vec2 { x: 0, z: 0 } }
    }
}

/// Velocity component after one tick with approach factor `k` in millionths.
fn approach_component(v: i64, d: i64, k: u64) -> (r: i64)
    requires
        -SPEED_LIMIT <= v <= SPEED_LIMIT,
        -SPEED_LIMIT <= d <= SPEED_LIMIT,
        fits_i64(approach(v as int, d as int, k as int)),
    ensures
        r == approach(v as int, d as int, k as int),
{
    let diff: i64 = d - v;
    assert(-0x8000_0000_0000_0000_0000_0000_0000_0000int <= diff * k
        <= 0x7fff_ffff_ffff_ffff_ffff_ffff_ffff_ffffint) by (nonlinear_arith)
        requires
            -2 * SPEED_LIMIT <= diff <= 2 * SPEED_LIMIT,
            0 <= k <= u64::MAX,
    ;
    let prod: i128 = diff as i128 * k as i128;
    let step: i128 = prod / 1_000_000;
    (v as i128 + step) as i64
}

/// One fixed tick of motion: velocity approaches the desired velocity by the
/// fraction `acceleration * dt` of the difference, and the heading turns by
/// `desired_turn * dt`, kept within one turn.
pub fn integrate(
    controller: &CharacterController,
    state: &mut CharacterControllerState,
    read_heading: &mut ReadHeading,
    velocity: &mut Vec2,
    dt: u64,
)
    requires
        controller.acceleration * dt <= u64::MAX,
        speed_ok(*old(velocity)),
        speed_ok(old(state).desired_velocity),
        fits_i64(
            approach(
                old(velocity).x as int,
                old(state).desired_velocity.x as int,
                controller.acceleration * dt,
            ),
        ),
        fits_i64(
            approach(
                old(velocity).z as int,
                old(state).desired_velocity.z as int,
                controller.acceleration * dt,
            ),
        ),
    ensures
        final(velocity).x == approach(
            old(velocity).x as int,
            old(state).desired_velocity.x as int,
            controller.acceleration * dt,
        ),
        final(velocity).z == approach(
            old(velocity).z as int,
            old(state).desired_velocity.z as int,
            controller.acceleration * dt,
        ),
        final(state).heading == turned(old(state).heading as int, old(state).desired_turn * dt),
        final(state).desired_turn == old(state).desired_turn,
        final(state).desired_velocity == old(state).desired_velocity,
        final(read_heading).heading == final(state).heading,
{
    let k: u64 = controller.acceleration * dt;
    let d = state.desired_velocity;
    let vx = approach_component(velocity.x, d.x, k);
    let vz = approach_component(velocity.z, d.z, k);
    *velocity = Vec2 { x: vx, z: vz };
    assert(-0x8000_0000_0000_0000_0000_0000_0000_0000int <= state.heading + state.desired_turn * dt
        <= 0x7fff_ffff_ffff_ffff_ffff_ffff_ffff_ffffint) by (nonlinear_arith)
        requires
            i64::MIN <= state.heading <= i64::MAX,
            i64::MIN <= state.desired_turn <= i64::MAX,
            0 <= dt <= u64::MAX,
    ;
    assert(-0x8000_0000_0000_0000_0000_0000_0000_0000int <= state.desired_turn * dt
        <= 0x7fff_ffff_ffff_ffff_ffff_ffff_ffff_ffffint) by (nonlinear_arith)
        requires
            i64::MIN <= state.desired_turn <= i64::MAX,
            0 <= dt <= u64::MAX,
    ;
    let total: i128 = state.heading as i128 + state.desired_turn as i128 * dt as i128;
    let wrapped = total.checked_rem_euclid(1_000_000);
    match wrapped {
        Some(h) => {
            state.heading = h as i64;
        },
        None => {},
    }
    read_heading.heading = state.heading;
}

/// Without overshoot: when `k` is at most one million (acceleration times tick
/// length at most one), each tick leaves the velocity between where it was and
/// where it is headed, never farther from the target than before; over any
/// number of ticks the distance to the target never grows.
pub proof fn law_approach_without_overshoot(v: int, d: int, k: int, n: nat)
    requires
        0 <= k <= MICRO,
    ensures
        v <= d ==> v <= approach(v, d, k) <= d,
        d <= v ==> d <= approach(v, d, k) <= v,
        v <= d ==> v <= approach_n(v, d, k, n) <= d,
        d <= v ==> d <= approach_n(v, d, k, n) <= v,
        v <= d ==> approach_n(v, d, k, n) <= approach_n(v, d, k, n + 1),
        d <= v ==> approach_n(v, d, k, n + 1) <= approach_n(v, d, k, n),
{
    lemma_approach_step(v, d, k);
    lemma_approach_n_bounds(v, d, k, n);
    lemma_approach_step(approach_n(v, d, k, n), d, k);
}

proof fn lemma_approach_n_bounds(v: int, d: int, k: int, n: nat)
    requires
        0 <= k <= MICRO,
    ensures
        v <= d ==> v <= approach_n(v, d, k, n) <= d,
        d <= v ==> d <= approach_n(v, d, k, n) <= v,
    decreases n,
{
    if n > 0 {
        lemma_approach_n_bounds(v, d, k, (n - 1) as nat);
        lemma_approach_step(approach_n(v, d, k, (n - 1) as nat), d, k);
    }
}

proof fn lemma_approach_step(v: int, d: int, k: int)
    requires
        0 <= k <= MICRO,
    ensures
        v <= d ==> v <= approach(v, d, k) <= d,
        d <= v ==> d <= approach(v, d, k) <= v,
{
    if v <= d {
        assert(0 <= (d - v) * k <= (d - v) * MICRO) by (nonlinear_arith)
            requires v <= d, 0 <= k <= MICRO;
        vstd::arithmetic::div_mod::lemma_div_is_ordered(0, (d - v) * k, MICRO as int);
        vstd::arithmetic::div_mod::lemma_div_is_ordered((d - v) * k, (d - v) * MICRO, MICRO as int);
        vstd::arithmetic::div_mod::lemma_div_by_multiple(d - v, MICRO as int);
    }
    if d <= v {
        assert(0 <= (v - d) * k <= (v - d) * MICRO) by (nonlinear_arith)
            requires d <= v, 0 <= k <= MICRO;
        assert(-((d - v) * k) == (v - d) * k) by (nonlinear_arith);
        vstd::arithmetic::div_mod::lemma_div_is_ordered(0, (v - d) * k, MICRO as int);
        vstd::arithmetic::div_mod::lemma_div_is_ordered((v - d) * k, (v - d) * MICRO, MICRO as int);
        vstd::arithmetic::div_mod::lemma_div_by_multiple(v - d, MICRO as int);
    }
}

/// Logical actions delivered by the input collaborator.
#[derive(Clone, Copy, Debug, PartialEq, Eq, Structural)]
pub enum InputAction {
    MoveForward,
    MoveBackward,
    StrafeLeft,
    StrafeRight,
    TurnLeft,
    TurnRight,
    TurnAxis,
    Fire,
    Focus,
    Pause,
}

/// Turning tuning, in thousandths: `turn_rate` in turns per second at full
/// input, `mouse_sensitivity` per unit of pointer travel.
#[derive(Clone, Copy, Debug, PartialEq, Eq, Structural)]
pub struct InputSettings {
    pub turn_rate: u64,
    pub mouse_sensitivity: u64,
}

impl InputSettings {
    pub open spec fn wf(self) -> bool {
        self.turn_rate <= 1_000_000 && self.mouse_sensitivity <= 1_000_000
    }

    /// Half a turn per second; 0.05 of a turn unit per unit of pointer travel.
    pub fn new() -> (r: InputSettings)
        ensures
            r.wf(),
            r.turn_rate == 500,
            r.mouse_sensitivity == 50,
    {
        InputSettings { turn_rate: 500, mouse_sensitivity: 50 }
    }
}

/// Whether the pointer is captured, so that its travel turns the player.
#[derive(Clone, Copy, Debug, PartialEq, Eq, Structural)]
pub struct InputState {
    pub locked_cursor: bool,
}

/// Input gathered since the last tick: movement in whole steps in the body's own
/// frame (forward is negative z), and turn in thousandths (left is positive).
#[derive(Clone, Copy, Debug, PartialEq, Eq, Structural)]
pub struct AccumulatedInput {
    pub movement: Vec2,
    pub turn: i64,
}

/// Pointer travel beyond this, in thousandths, is not taken in one frame.
pub const AXIS_LIMIT: i64 = 1_000_000_000;

pub open spec fn step(pressed: Seq<InputAction>, plus: InputAction, minus: InputAction) -> int {
    (if pressed.contains(plus) { 1int } else { 0int }) - (if pressed.contains(minus) { 1int } else { 0int })
}

/// Whether `action` is among the pressed actions.
pub fn is_pressed(pressed: &Vec<InputAction>, action: InputAction) -> (r: bool)
    ensures
        r == pressed@.contains(action),
{
    let mut i: usize = 0;
    while i < pressed.len()
        invariant
            i <= pressed.len(),
            forall|j: int| 0 <= j < i ==> pressed@[j] != action,
        decreases pressed.len() - i,
    {
        if pressed[i] == action {
            return true;
        }
        i = i + 1;
    }
    false
}

impl AccumulatedInput {
    pub open spec fn wf(self) -> bool {
        &&& -MOVE_LIMIT <= self.movement.x <= MOVE_LIMIT
        &&& -MOVE_LIMIT <= self.movement.z <= MOVE_LIMIT
        &&& -TURN_LIMIT <= self.turn <= TURN_LIMIT
    }

    pub fn new() -> (r: AccumulatedInput)
        ensures
            r.wf(),
            r.movement == (Vec2 { x: 0, z: 0 }),
            r.turn == 0,
    {
        AccumulatedInput { movement: Vec2 { x: 0, z: 0 }, turn: 0 }
    }

    /// Empties the accumulator once a tick has consumed it.
    pub fn clear(&mut self)
        ensures
            final(self).movement == (Vec2 { x: 0, z: 0 }),
            final(self).turn == 0,
    {
        self.movement = Vec2 { x: 0, z: 0 };
        self.turn = 0;
    }

    /// Adds one frame of input: each held direction moves one step, each held
    /// turn key a full unit of turn, and captured pointer travel `turn_axis`
    /// (in thousandths) turns right in proportion to the sensitivity.
    pub fn accumulate(
        &mut self,
        pressed: &Vec<InputAction>,
        turn_axis: i64,
        settings: &InputSettings,
        input_state: &InputState,
    )
        requires
            old(self).wf(),
            settings.wf(),
            -AXIS_LIMIT <= turn_axis <= AXIS_LIMIT,
        ensures
            final(self).movement.x == old(self).movement.x + step(
                pressed@,
                InputAction::StrafeRight,
                InputAction::StrafeLeft,
            ),
            final(self).movement.z == old(self).movement.z + step(
                pressed@,
                InputAction::MoveBackward,
                InputAction::MoveForward,
            ),
            final(self).turn == old(self).turn + 1000 * step(
                pressed@,
                InputAction::TurnLeft,
                InputAction::TurnRight,
            ) - (if input_state.locked_cursor {
                trunc_div(turn_axis * settings.mouse_sensitivity, 1000)
            } else {
                0
            }),
    {
        let mut mx: i64 = self.movement.x;
        let mut mz: i64 = self.movement.z;
        let mut turn: i64 = self.turn;
        if is_pressed(pressed, InputAction::MoveForward) {
            mz = mz - 1;
        }
        if is_pressed(pressed, InputAction::MoveBackward) {
            mz = mz + 1;
        }
        if is_pressed(pressed, InputAction::StrafeLeft) {
            mx = mx - 1;
        }
        if is_pressed(pressed, InputAction::StrafeRight) {
            mx = mx + 1;
        }
        if is_pressed(pressed, InputAction::TurnLeft) {
            turn = turn + 1000;
        }
        if is_pressed(pressed, InputAction::TurnRight) {
            turn = turn - 1000;
        }
        if input_state.locked_cursor {
            assert(-1_000_000_000_000_000 <= turn_axis * settings.mouse_sensitivity
                <= 1_000_000_000_000_000) by (nonlinear_arith)
                requires
                    -AXIS_LIMIT <= turn_axis <= AXIS_LIMIT,
                    0 <= settings.mouse_sensitivity <= 1_000_000,
            ;
            let scaled: i64 = turn_axis * settings.mouse_sensitivity as i64;
            turn = turn - scaled / 1000;
        }
        self.movement = Vec2 { x: mx, z: mz };
        self.turn = turn;
    }
}

/// Bound on a truncated quotient.
proof fn lemma_trunc_div_bound(a: int, b: int, m: int)
    requires
        b > 0,
        -m <= a <= m,
    ensures
        -(m / b) <= trunc_div(a, b) <= m / b,
{
    if a >= 0 {
        vstd::arithmetic::div_mod::lemma_div_is_ordered(a, m, b);
        vstd::arithmetic::div_mod::lemma_div_is_ordered(0, a, b);
    } else {
        vstd::arithmetic::div_mod::lemma_div_is_ordered(-a, m, b);
        vstd::arithmetic::div_mod::lemma_div_is_ordered(0, -a, b);
    }
}

/// Rotates a planar vector about the vertical axis.
fn rotate(rot: &Rotation, x: i64, z: i64) -> (r: Vec2)
    requires
        rot.wf(),
        -1_000_000_000_000 <= x <= 1_000_000_000_000,
        -1_000_000_000_000 <= z <= 1_000_000_000_000,
    ensures
        (r.x as int, r.z as int) == rotated(*rot, (x as int, z as int)),
        speed_ok(r),
{
    assert(-1_000_000_000_000_000_000 <= x * rot.cos <= 1_000_000_000_000_000_000) by (nonlinear_arith)
        requires -1_000_000_000_000 <= x <= 1_000_000_000_000, -MICRO <= rot.cos <= MICRO;
    assert(-1_000_000_000_000_000_000 <= x * rot.sin <= 1_000_000_000_000_000_000) by (nonlinear_arith)
        requires -1_000_000_000_000 <= x <= 1_000_000_000_000, -MICRO <= rot.sin <= MICRO;
    assert(-1_000_000_000_000_000_000 <= z * rot.cos <= 1_000_000_000_000_000_000) by (nonlinear_arith)
        requires -1_000_000_000_000 <= z <= 1_000_000_000_000, -MICRO <= rot.cos <= MICRO;
    assert(-1_000_000_000_000_000_000 <= z * rot.sin <= 1_000_000_000_000_000_000) by (nonlinear_arith)
        requires -1_000_000_000_000 <= z <= 1_000_000_000_000, -MICRO <= rot.sin <= MICRO;
    let a: i64 = x * rot.cos + z * rot.sin;
    let b: i64 = z * rot.cos - x * rot.sin;
    proof {
        lemma_trunc_div_bound(a as int, MICRO as int, 2_000_000_000_000_000_000);
        lemma_trunc_div_bound(b as int, MICRO as int, 2_000_000_000_000_000_000);
    }
    Vec2 { x: a / MICRO, z: b / MICRO }
}

/// Scales body-frame movement to top speed, bringing input longer than one
/// step back to unit length.
fn scale_movement(m: &Vec2, max_speed: u64) -> (r: (i64, i64))
    requires
        -MOVE_LIMIT <= m.x <= MOVE_LIMIT,
        -MOVE_LIMIT <= m.z <= MOVE_LIMIT,
        max_speed <= MAX_SPEED_LIMIT,
    ensures
        (r.0 as int, r.1 as int) == scaled_movement(*m, max_speed),
        -1_000_000_000_000 <= r.0 <= 1_000_000_000_000,
        -1_000_000_000_000 <= r.1 <= 1_000_000_000_000,
{
    assert(0 <= m.x * m.x <= 998_001) by (nonlinear_arith)
        requires -MOVE_LIMIT <= m.x <= MOVE_LIMIT;
    assert(0 <= m.z * m.z <= 998_001) by (nonlinear_arith)
        requires -MOVE_LIMIT <= m.z <= MOVE_LIMIT;
    let len2: i64 = m.x * m.x + m.z * m.z;
    let speed: i64 = max_speed as i64;
    assert(-999_000_000_000 <= m.x * speed <= 999_000_000_000) by (nonlinear_arith)
        requires -MOVE_LIMIT <= m.x <= MOVE_LIMIT, 0 <= speed <= 1_000_000_000;
    assert(-999_000_000_000 <= m.z * speed <= 999_000_000_000) by (nonlinear_arith)
        requires -MOVE_LIMIT <= m.z <= MOVE_LIMIT, 0 <= speed <= 1_000_000_000;
    if len2 > 1 {
        let len: u64 = isqrt((len2 * 1_000_000) as u64);
        proof {
            lemma_sqrt_floor_at_least((len2 * 1_000_000) as nat, 1000);
            assert(len <= 2_000_000) by (nonlinear_arith)
                requires len * len <= len2 * 1_000_000, len2 <= 1_996_002;
        }
        let lenx: i64 = len as i64;
        let nx: i64 = m.x * speed * 1000;
        let nz: i64 = m.z * speed * 1000;
        proof {
            lemma_trunc_div_bound(nx as int, lenx as int, 999_000_000_000_000);
            lemma_trunc_div_bound(nz as int, lenx as int, 999_000_000_000_000);
            vstd::arithmetic::div_mod::lemma_div_is_ordered_by_denominator(
                999_000_000_000_000,
                1000,
                lenx as int,
            );
        }
        (nx / lenx, nz / lenx)
    } else {
        (m.x * speed, m.z * speed)
    }
}

/// Sets what a body wants this tick from the gathered input: a dead body stands
/// still; otherwise the scaled movement is turned to the body's heading, and
/// the turn is scaled by the turn rate.
pub fn steer(
    controller: &CharacterController,
    settings: &InputSettings,
    input: &AccumulatedInput,
    rot: &Rotation,
    dead: bool,
    state: &mut CharacterControllerState,
)
    requires
        input.wf(),
        settings.wf(),
        rot.wf(),
        controller.max_speed <= MAX_SPEED_LIMIT,
    ensures
        final(state).heading == old(state).heading,
        dead ==> final(state).desired_velocity == (Vec2 { x: 0, z: 0 }) && final(state).desired_turn
            == old(state).desired_turn,
        !dead ==> (final(state).desired_velocity.x as int, final(state).desired_velocity.z as int)
            == rotated(*rot, scaled_movement(input.movement, controller.max_speed)),
        !dead ==> final(state).desired_turn == trunc_div(input.turn * settings.turn_rate, 1000),
        speed_ok(final(state).desired_velocity),
{
    if dead {
        state.desired_velocity = Vec2 { x: 0, z: 0 };
        return;
    }
    let scaled = scale_movement(&input.movement, controller.max_speed);
    state.desired_velocity = rotate(rot, scaled.0, scaled.1);
    assert(-1_000_000_000_000_000_000 <= input.turn * settings.turn_rate
        <= 1_000_000_000_000_000_000) by (nonlinear_arith)
        requires -TURN_LIMIT <= input.turn <= TURN_LIMIT, 0 <= settings.turn_rate <= 1_000_000;
    let t: i64 = input.turn * settings.turn_rate as i64;
    state.desired_turn = t / 1000;
}

/// Velocity that heads straight from `from` toward `to` at `max_speed`, or
/// stands still when the two points coincide.
pub open spec fn chase_velocity(from: Vec2, to: Vec2, max_speed: u64) -> (int, int) {
    let dx = to.x - from.x;
    let dz = to.z - from.z;
    let len = sqrt_floor((dx * dx + dz * dz) as nat);
    if len == 0 {
        (0, 0)
    } else {
        (trunc_div(dx * max_speed, len as int), trunc_div(dz * max_speed, len as int))
    }
}

/// Scaling by a component over a length at least that component never exceeds the scale.
proof fn lemma_share_bound(d: int, s: int, len: int)
    requires
        0 <= s,
        0 < len,
        -len <= d <= len,
    ensures
        -s <= trunc_div(d * s, len) <= s,
{
    let a: int = if d >= 0 { d } else { -d };
    assert(a * s <= len * s) by (nonlinear_arith) requires 0 <= a <= len, 0 <= s;
    assert(0 <= a * s) by (nonlinear_arith) requires 0 <= a, 0 <= s;
    assert(d * s == a * s || d * s == -(a * s)) by (nonlinear_arith) requires a == d || a == -d;
    vstd::arithmetic::div_mod::lemma_div_is_ordered(a * s, len * s, len);
    vstd::arithmetic::div_mod::lemma_div_is_ordered(0, a * s, len);
    vstd::arithmetic::div_mod::lemma_div_by_multiple(s, len);
    assert(len * s == s * len) by (nonlinear_arith);
}

/// Steers a pursuer from `from` toward `to` at `max_speed`.
pub fn chase(from: &Vec2, to: &Vec2, max_speed: u64) -> (r: Vec2)
    requires
        crate::geometry::in_bounds(*from),
        crate::geometry::in_bounds(*to),
        max_speed <= MAX_SPEED_LIMIT,
    ensures
        (r.x as int, r.z as int) == chase_velocity(*from, *to, max_speed),
        speed_ok(r),
{
    let len = from.distance(to);
    assert((from.x - to.x) * (from.x - to.x) == (to.x - from.x) * (to.x - from.x)) by (nonlinear_arith);
    assert((from.z - to.z) * (from.z - to.z) == (to.z - from.z) * (to.z - from.z)) by (nonlinear_arith);
    if len == 0 {
        return Vec2 { x: 0, z: 0 };
    }
    let dx: i64 = to.x - from.x;
    let dz: i64 = to.z - from.z;
    let speed: i64 = max_speed as i64;
    assert(-2_000_000_000_000_000_000 <= dx * speed <= 2_000_000_000_000_000_000) by (nonlinear_arith)
        requires -2_000_000_000 <= dx <= 2_000_000_000, 0 <= speed <= 1_000_000_000;
    assert(-2_000_000_000_000_000_000 <= dz * speed <= 2_000_000_000_000_000_000) by (nonlinear_arith)
        requires -2_000_000_000 <= dz <= 2_000_000_000, 0 <= speed <= 1_000_000_000;
    assert(dx * dx <= 4_000_000_000_000_000_000) by (nonlinear_arith)
        requires -2_000_000_000 <= dx <= 2_000_000_000;
    assert(dz * dz <= 4_000_000_000_000_000_000) by (nonlinear_arith)
        requires -2_000_000_000 <= dz <= 2_000_000_000;
    assert(len <= 4_000_000_000) by (nonlinear_arith)
        requires len * len <= dx * dx + dz * dz, dx * dx <= 4_000_000_000_000_000_000,
            dz * dz <= 4_000_000_000_000_000_000;
    let lenx: i64 = len as i64;
    proof {
        let ax: int = if dx >= 0 { dx as int } else { -dx };
        let az: int = if dz >= 0 { dz as int } else { -dz };
        assert(ax * ax == dx * dx) by (nonlinear_arith) requires ax == dx || ax == -dx;
        assert(az * az == dz * dz) by (nonlinear_arith) requires az == dz || az == -dz;
        assert(dz * dz >= 0) by (nonlinear_arith);
        assert(dx * dx >= 0) by (nonlinear_arith);
        lemma_sqrt_floor_at_least(dist_squared(*from, *to), ax as nat);
        lemma_sqrt_floor_at_least(dist_squared(*from, *to), az as nat);
        lemma_share_bound(dx as int, speed as int, lenx as int);
        lemma_share_bound(dz as int, speed as int, lenx as int);
    }
    Vec2 { x: (dx * speed) / lenx, z: (dz * speed) / lenx }
}

} // verus!
