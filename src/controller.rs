use vstd::prelude::*;

use crate::geometry::{along, along_exec, Dir, Vec3, COORD_LIMIT};
use crate::intent::{intents_of, map_intents, move_intent_of, turn_intent_of, KeyState};

verus! {

/// Shortest frame time the integrator uses, in microseconds.
pub const MIN_FRAME_US: u64 = 1_000;

/// Longest frame time the integrator uses, in microseconds.
pub const MAX_FRAME_US: u64 = 100_000;

/// Largest accepted move speed, in micrometres per second.
pub const MAX_MOVE_SPEED: u64 = 1_000_000_000;

/// Largest accepted turn speed, in microradians per second.
pub const MAX_TURN_SPEED: u64 = 1_000_000_000;

/// Largest turn of one frame, in picoradians.
pub const MAX_TURN_STEP: i64 = 100_000_000_000_000;

pub open spec fn clamp_frame(dt: int) -> int {
    if dt < MIN_FRAME_US {
        MIN_FRAME_US as int
    } else if dt > MAX_FRAME_US {
        MAX_FRAME_US as int
    } else {
        dt
    }
}

/// Clamps an elapsed frame time to `[MIN_FRAME_US, MAX_FRAME_US]`.
pub fn clamp_frame_time(dt_us: u64) -> (r: u64)
    ensures
        r == clamp_frame(dt_us as int),
        MIN_FRAME_US <= r <= MAX_FRAME_US,
        MIN_FRAME_US <= dt_us <= MAX_FRAME_US ==> r == dt_us,
{
    if dt_us < MIN_FRAME_US {
        MIN_FRAME_US
    } else if dt_us > MAX_FRAME_US {
        MAX_FRAME_US
    } else {
        dt_us
    }
}

/// Per-entity movement tuning: micrometres per second and microradians
/// per second.
#[derive(Clone, Copy, Debug, PartialEq, Eq, Structural)]
pub struct FpsController {
    pub speed_move: u64,
    pub speed_turn: u64,
}

impl FpsController {
    pub open spec fn wf(self) -> bool {
        self.speed_move <= MAX_MOVE_SPEED && self.speed_turn <= MAX_TURN_SPEED
    }

    pub fn new(speed_move: u64, speed_turn: u64) -> (r: FpsController)
        requires
            speed_move <= MAX_MOVE_SPEED,
            speed_turn <= MAX_TURN_SPEED,
        ensures
            r == (FpsController { speed_move, speed_turn }),
            r.wf(),
    {
        FpsController { speed_move, speed_turn }
    }
}

/// Where the player stands (picometres) and its yaw about the up axis
/// (picoradians, counter-clockwise).
#[derive(Clone, Copy, Debug, PartialEq, Eq, Structural)]
pub struct Pose {
    pub position: Vec3,
    pub yaw: i64,
}

impl Pose {
    /// The yaw leaves room for one more frame of turning.
    pub open spec fn can_turn(self) -> bool {
        i64::MIN + MAX_TURN_STEP <= self.yaw <= i64::MAX - MAX_TURN_STEP
    }
}

/// What the integrator decided in the first half of a frame.
#[derive(Clone, Copy, Debug, PartialEq, Eq, Structural)]
pub struct FramePlan {
    /// The clamped frame time, in microseconds.
    pub dt_us: u64,
    /// The yaw after this frame's turn; the translation follows it.
    pub heading: i64,
    /// Signed length to travel along `heading`, in picometres.
    pub distance: i64,
}

pub open spec fn turn_delta(turn_intent: int, speed_turn: int, dt: int) -> int {
    turn_intent * speed_turn * dt
}

pub open spec fn travel(move_intent: int, speed_move: int, dt: int) -> int {
    move_intent * speed_move * dt
}

/// The plan of a frame from the controller, the yaw before it, the keys
/// held and the raw frame time.
pub open spec fn plan_of(c: FpsController, yaw: int, keys: KeyState, dt_us: int) -> FramePlan {
    let i = intents_of(keys);
    let dt = clamp_frame(dt_us);
    FramePlan {
        dt_us: dt as u64,
        heading: (yaw + turn_delta(i.turn_intent as int, c.speed_turn as int, dt)) as i64,
        distance: travel(i.move_intent as int, c.speed_move as int, dt) as i64,
    }
}

/// The displacement requested from the resolver, if any.
pub open spec fn request_of(plan: FramePlan, forward: Dir) -> Option<Vec3> {
    let d = along(forward, plan.distance as int);
    if d.is_zero() {
        None
    } else {
        Some(d)
    }
}

proof fn lemma_step_bounds(intent: int, speed: int, dt: int)
    requires
        -1 <= intent <= 1,
        0 <= speed <= 1_000_000_000,
        0 <= dt <= MAX_FRAME_US,
    ensures
        -1_000_000_000 <= intent * speed <= 1_000_000_000,
        -MAX_TURN_STEP <= intent * speed * dt <= MAX_TURN_STEP,
{
    assert(0 <= speed * dt <= 1_000_000_000 * 100_000) by (nonlinear_arith)
        requires
            0 <= speed <= 1_000_000_000,
            0 <= dt <= 100_000,
    ;
    if intent == 0 {
        assert(intent * speed == 0);
        assert(intent * speed * dt == 0);
    } else if intent == 1 {
        assert(intent * speed == speed);
        assert(intent * speed * dt == speed * dt);
    } else {
        assert(intent == -1);
        assert(intent * speed == -speed) by (nonlinear_arith)
            requires
                intent == -1,
        ;
        assert(intent * speed * dt == -(speed * dt)) by (nonlinear_arith)
            requires
                intent == -1,
        ;
    }
}

/// First half of a frame: reads the intents, clamps the frame time and
/// turns the pose. The position is left alone; the returned plan says how
/// far to travel along the new heading.
pub fn begin_frame(c: &FpsController, pose: &mut Pose, keys: &KeyState, dt_us: u64) -> (plan:
    FramePlan)
    requires
        c.wf(),
        old(pose).can_turn(),
    ensures
        plan == plan_of(*c, old(pose).yaw as int, *keys, dt_us as int),
        plan.dt_us == clamp_frame(dt_us as int),
        plan.heading == old(pose).yaw + turn_delta(
            turn_intent_of(*keys),
            c.speed_turn as int,
            clamp_frame(dt_us as int),
        ),
        plan.distance == travel(move_intent_of(*keys), c.speed_move as int, clamp_frame(dt_us as int)),
        final(pose).yaw == plan.heading,
        final(pose).position == old(pose).position,
        -COORD_LIMIT <= plan.distance <= COORD_LIMIT,
{
    let intents = map_intents(keys);
    let t = clamp_frame_time(dt_us);
    proof {
        lemma_step_bounds(intents.turn_intent as int, c.speed_turn as int, t as int);
        lemma_step_bounds(intents.move_intent as int, c.speed_move as int, t as int);
    }
    let delta_turn: i64 = (intents.turn_intent as i64) * (c.speed_turn as i64) * (t as i64);
    if delta_turn != 0 {
        pose.yaw = pose.yaw + delta_turn;
    }
    let distance: i64 = (intents.move_intent as i64) * (c.speed_move as i64) * (t as i64);
    FramePlan { dt_us: t, heading: pose.yaw, distance }
}

/// Second half of a frame: `plan.distance` along `forward`, or `None` when
/// that has zero length. The caller passes the direction of
/// `plan.heading`; the contract holds for any `Dir` whose components lie
/// in [-1, 1], unit or not.
pub fn request_displacement(plan: &FramePlan, forward: Dir) -> (r: Option<Vec3>)
    requires
        forward.wf(),
        -COORD_LIMIT <= plan.distance <= COORD_LIMIT,
    ensures
        r == request_of(*plan, forward),
        r matches Some(d) ==> d.bounded(),
{
    let d = along_exec(forward, plan.distance);
    if d.is_zero_exec() {
        None
    } else {
        Some(d)
    }
}

} // verus!
