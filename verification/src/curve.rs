//! Timed animation curves.
//!
//! A curve owns an `active`/`timer` pair, phrased as an explicit run state,
//! and evaluates a closed-form pose from the elapsed time: a decaying
//! vertical jiggle, a three-phase flip (sine-eased rise, hover, sine-eased
//! fall, with a continuous roll), an eased slide between two points, or a
//! perpetual tilted orbit that records its positions in a trace buffer.
//!
//! `activate` restarts a curve at time zero. `advance` adds the frame's
//! elapsed time: an idle curve stays put and reports its rest pose; a
//! running curve whose timer reaches its duration goes idle and reports the
//! rest pose on that final call, not the mid-curve value.

use crate::fx::{
    fx_div, fx_div_spec, fx_mul, fx_mul_spec, lemma_fx_div_unit, lemma_fx_mul_comm,
    lemma_fx_mul_nonneg, lemma_fx_mul_unit_factor, lemma_lerp_bounds, FX_ONE,
};
use crate::trace::{trace_push_spec, TraceBuffer};
use crate::trig::{
    cos_fx, cos_fx_spec, lemma_sin_first_half, sin_fx, sin_fx_spec, wrap_angle, wrap_tau,
    FX_HALF_PI, FX_PI, FX_TAU,
};
use crate::vec3::{Vec3Fx, COORD_BOUND};
use vstd::prelude::*;

verus! {

/// Largest duration or per-frame time step the curves accept
/// (ten thousand seconds).
pub const TIME_BOUND: i64 = 10_000_000_000;

/// Largest magnitude accepted for amplitudes, heights, frequencies and
/// angular speeds (one thousand units).
pub const PARAM_BOUND: i64 = 1_000_000_000;

/// Every pose coordinate a curve reports stays within this raw magnitude.
pub const POSE_BOUND: i64 = 4_000_000_000;

/// What a curve hands back each frame: a position (an offset or an absolute
/// point, depending on the kind) and a rotation angle about the roll axis,
/// zero meaning identity.
#[derive(Clone, Copy, PartialEq, Eq, Structural, Debug)]
pub struct Pose {
    pub pos: Vec3Fx,
    pub rot: i64,
}

impl Pose {
    /// Bounded coordinates and a rotation within one turn.
    pub open spec fn wf(self) -> bool {
        &&& -POSE_BOUND <= self.pos.x <= POSE_BOUND
        &&& -POSE_BOUND <= self.pos.y <= POSE_BOUND
        &&& -POSE_BOUND <= self.pos.z <= POSE_BOUND
        &&& -FX_TAU <= self.rot <= FX_TAU
    }
}

/// Whether a curve is idle or partway through a run.
#[derive(Clone, Copy, PartialEq, Eq, Structural, Debug)]
pub enum RunState {
    Idle,
    Running { timer: i64 },
}

/// The timer of a running state; zero when idle.
pub open spec fn timer_of(state: RunState) -> int {
    match state {
        RunState::Idle => 0,
        RunState::Running { timer } => timer as int,
    }
}

/// One time step of the run state: an idle curve stays idle, a running one
/// adds `dt` and goes idle when the timer reaches the duration `eff`.
pub open spec fn step_state(state: RunState, eff: int, dt: int) -> RunState {
    match state {
        RunState::Idle => RunState::Idle,
        RunState::Running { timer } => {
            if timer + dt >= eff {
                RunState::Idle
            } else {
                RunState::Running { timer: (timer + dt) as i64 }
            }
        },
    }
}

/// A curve's kind with its parameters; the slide's start point and the
/// orbit's angles and trace evolve with the curve.
pub enum CurveKind {
    Jiggle { amplitude: i64, frequency: i64 },
    Flip { base_height: i64, jump_height: i64, hover_time: i64 },
    Slide { start: Vec3Fx, end: Vec3Fx },
    Orbit {
        radius: i64,
        speed: i64,
        tilt_amplitude: i64,
        tilt_speed: i64,
        angle: i64,
        tilt_phase: i64,
        trace: TraceBuffer,
    },
}

/// Acceptable jiggle parameters.
pub open spec fn jiggle_params_ok(amplitude: int, frequency: int, duration: int) -> bool {
    &&& 0 < duration <= TIME_BOUND
    &&& -PARAM_BOUND <= amplitude <= PARAM_BOUND
    &&& -PARAM_BOUND <= frequency <= PARAM_BOUND
}

/// Acceptable flip parameters: the hover must leave at least one raw time
/// step of rise and fall on each side.
pub open spec fn flip_params_ok(
    base_height: int,
    jump_height: int,
    hover_time: int,
    duration: int,
) -> bool {
    &&& 0 < duration <= TIME_BOUND
    &&& 0 <= base_height <= PARAM_BOUND
    &&& 0 <= jump_height <= PARAM_BOUND
    &&& 0 <= hover_time
    &&& hover_time + 2 <= duration
}

/// Acceptable slide parameters.
pub open spec fn slide_params_ok(start: Vec3Fx, end: Vec3Fx, duration: int) -> bool {
    &&& 0 < duration <= TIME_BOUND
    &&& start.wf()
    &&& end.wf()
}

/// Acceptable orbit parameters.
pub open spec fn orbit_params_ok(
    radius: int,
    speed: int,
    tilt_amplitude: int,
    tilt_speed: int,
) -> bool {
    &&& 0 <= radius <= COORD_BOUND
    &&& -PARAM_BOUND <= speed <= PARAM_BOUND
    &&& -PARAM_BOUND <= tilt_amplitude <= PARAM_BOUND
    &&& -PARAM_BOUND <= tilt_speed <= PARAM_BOUND
}

/// How long the flip's rise (and, symmetrically, its fall) lasts.
pub open spec fn flip_up_spec(duration: int, hover_time: int) -> int {
    (duration - hover_time) / 2
}

/// The decay factor of the jiggle: the remaining fraction of its duration,
/// clamped below at zero.
pub open spec fn jiggle_decay_spec(duration: int, t: int) -> int {
    let d0 = fx_div_spec(duration - t, duration);
    if d0 < 0 {
        0
    } else {
        d0
    }
}

/// The jiggle's vertical offset at time `t`: a sine at the jiggle frequency,
/// scaled by the amplitude and the squared decay.
pub open spec fn jiggle_offset_spec(amplitude: int, frequency: int, duration: int, t: int) -> int {
    let decay = jiggle_decay_spec(duration, t);
    let scaled = fx_mul_spec(fx_mul_spec(amplitude, decay), decay);
    fx_mul_spec(sin_fx_spec(fx_mul_spec(t, frequency)), scaled)
}

/// The flip's height at time `t`: a sine-eased rise, a flat hover at the
/// peak, and a sine-eased fall.
pub open spec fn flip_y_spec(
    base_height: int,
    jump_height: int,
    hover_time: int,
    duration: int,
    t: int,
) -> int {
    let up = flip_up_spec(duration, hover_time);
    if t < up {
        let s = sin_fx_spec(fx_mul_spec(fx_div_spec(t, up), FX_HALF_PI as int));
        base_height + fx_mul_spec(jump_height, s)
    } else if t < up + hover_time {
        base_height + jump_height
    } else {
        let s = sin_fx_spec(
            fx_mul_spec(fx_div_spec(t - (up + hover_time), up), FX_HALF_PI as int),
        );
        base_height + fx_mul_spec(jump_height, FX_ONE - s)
    }
}

/// The flip's roll at time `t`: one continuous full turn over the whole run.
pub open spec fn flip_rot_spec(hover_time: int, duration: int, t: int) -> int {
    let total = 2 * flip_up_spec(duration, hover_time) + hover_time;
    fx_mul_spec(FX_TAU as int, fx_div_spec(t, total))
}

/// The slide's easing at time `t`: a sine of the clamped progress fraction
/// carried to half a turn.
pub open spec fn slide_ease_spec(duration: int, t: int) -> int {
    let f0 = fx_div_spec(t, duration);
    let f = if f0 < 0 {
        0
    } else if f0 > FX_ONE {
        FX_ONE as int
    } else {
        f0
    };
    sin_fx_spec(fx_mul_spec(f, FX_PI as int))
}

/// One coordinate of the slide's interpolation.
pub open spec fn lerp_coord_spec(a: int, b: int, e: int) -> int {
    a + fx_mul_spec(b - a, e)
}

/// The slide's position at time `t`: each coordinate eased from the start
/// toward the end.
pub open spec fn slide_pos_spec(start: Vec3Fx, end: Vec3Fx, duration: int, t: int) -> Vec3Fx {
    let e = slide_ease_spec(duration, t);
    Vec3Fx {
        x: lerp_coord_spec(start.x as int, end.x as int, e) as i64,
        y: lerp_coord_spec(start.y as int, end.y as int, e) as i64,
        z: lerp_coord_spec(start.z as int, end.z as int, e) as i64,
    }
}

/// The orbit's tilt angle for a given phase of its slow oscillation.
pub open spec fn orbit_tilt_spec(tilt_amplitude: int, tilt_phase: int) -> int {
    fx_mul_spec(tilt_amplitude, sin_fx_spec(tilt_phase))
}

/// A point on the orbit: the circle point at `angle`, rolled out of the
/// horizontal plane about the z axis by `tilt`.
pub open spec fn orbit_pos_spec(radius: int, angle: int, tilt: int) -> Vec3Fx {
    let cx = fx_mul_spec(radius, cos_fx_spec(angle));
    let cz = fx_mul_spec(radius, sin_fx_spec(angle));
    Vec3Fx {
        x: fx_mul_spec(cx, cos_fx_spec(tilt)) as i64,
        y: fx_mul_spec(cx, sin_fx_spec(tilt)) as i64,
        z: cz as i64,
    }
}

/// An accumulated angle after one time step, reduced to one turn.
pub open spec fn angle_after_spec(angle: int, rate: int, dt: int) -> int {
    wrap_tau(angle + fx_mul_spec(rate, dt))
}

/// A timed animation curve: its kind and parameters, its run state, and its
/// duration. The orbit is perpetual and ignores the duration.
pub struct AnimationCurve {
    pub kind: CurveKind,
    pub state: RunState,
    pub duration: i64,
}

impl AnimationCurve {
    /// Parameters in range, orbit angles reduced to one turn, and a running
    /// timer that has not yet reached the duration.
    pub open spec fn wf(self) -> bool {
        &&& match self.kind {
            CurveKind::Jiggle { amplitude, frequency } => jiggle_params_ok(
                amplitude as int,
                frequency as int,
                self.duration as int,
            ),
            CurveKind::Flip { base_height, jump_height, hover_time } => flip_params_ok(
                base_height as int,
                jump_height as int,
                hover_time as int,
                self.duration as int,
            ),
            CurveKind::Slide { start, end } => slide_params_ok(start, end, self.duration as int),
            CurveKind::Orbit { radius, speed, tilt_amplitude, tilt_speed, angle, tilt_phase, trace } => {
                &&& orbit_params_ok(
                    radius as int,
                    speed as int,
                    tilt_amplitude as int,
                    tilt_speed as int,
                )
                &&& 0 < self.duration <= TIME_BOUND
                &&& 0 <= angle < FX_TAU
                &&& 0 <= tilt_phase < FX_TAU
                &&& trace.wf()
            },
        }
        &&& match self.state {
            RunState::Idle => true,
            RunState::Running { timer } => {
                &&& 0 <= timer
                &&& if self.kind is Orbit {
                    timer == 0
                } else {
                    (timer as int) < self.eff_duration_spec()
                }
            },
        }
    }

    /// The duration the run state counts against: the flip completes at the
    /// end of its fall, every other timed kind at its stated duration.
    pub open spec fn eff_duration_spec(self) -> int {
        match self.kind {
            CurveKind::Flip { hover_time, .. } => 2 * flip_up_spec(
                self.duration as int,
                hover_time as int,
            ) + hover_time,
            _ => self.duration as int,
        }
    }

    /// Whether the curve is partway through a run.
    pub open spec fn is_active_spec(self) -> bool {
        self.state is Running
    }

    /// The pose of a curve at rest: no jiggle offset, the flip settled at
    /// its base height with no roll, the slide at its start point, the
    /// orbit at its current position.
    pub open spec fn rest_pose_spec(self) -> Pose {
        match self.kind {
            CurveKind::Jiggle { .. } => Pose { pos: Vec3Fx { x: 0, y: 0, z: 0 }, rot: 0 },
            CurveKind::Flip { base_height, .. } => Pose {
                pos: Vec3Fx { x: 0, y: base_height, z: 0 },
                rot: 0,
            },
            CurveKind::Slide { start, .. } => Pose { pos: start, rot: 0 },
            CurveKind::Orbit { radius, tilt_amplitude, angle, tilt_phase, .. } => Pose {
                pos: orbit_pos_spec(
                    radius as int,
                    angle as int,
                    orbit_tilt_spec(tilt_amplitude as int, tilt_phase as int),
                ),
                rot: 0,
            },
        }
    }

    /// The pose of a running curve at timer `t`. For the orbit this is the
    /// position at its current angle and tilt; its timer is not used.
    pub open spec fn eval_pose_spec(self, t: int) -> Pose {
        match self.kind {
            CurveKind::Jiggle { amplitude, frequency } => Pose {
                pos: Vec3Fx {
                    x: 0,
                    y: jiggle_offset_spec(
                        amplitude as int,
                        frequency as int,
                        self.duration as int,
                        t,
                    ) as i64,
                    z: 0,
                },
                rot: 0,
            },
            CurveKind::Flip { base_height, jump_height, hover_time } => Pose {
                pos: Vec3Fx {
                    x: 0,
                    y: flip_y_spec(
                        base_height as int,
                        jump_height as int,
                        hover_time as int,
                        self.duration as int,
                        t,
                    ) as i64,
                    z: 0,
                },
                rot: flip_rot_spec(hover_time as int, self.duration as int, t) as i64,
            },
            CurveKind::Slide { start, end } => Pose {
                pos: slide_pos_spec(start, end, self.duration as int, t),
                rot: 0,
            },
            CurveKind::Orbit { radius, tilt_amplitude, angle, tilt_phase, .. } => Pose {
                pos: orbit_pos_spec(
                    radius as int,
                    angle as int,
                    orbit_tilt_spec(tilt_amplitude as int, tilt_phase as int),
                ),
                rot: 0,
            },
        }
    }

    /// The position the animated entity shows right now: the rest pose when
    /// idle, the evaluated pose when running.
    pub open spec fn current_pose_spec(self) -> Pose {
        match self.state {
            RunState::Idle => self.rest_pose_spec(),
            RunState::Running { timer } => self.eval_pose_spec(timer as int),
        }
    }
}

/// How one `advance` call relates the curve before, the curve after, and
/// the reported pose. Idle curves are untouched and report their rest pose.
/// A running timed curve steps its timer, evaluates at the new time, and on
/// completion goes idle and reports the rest pose — the slide's start point
/// becoming its end point. A running orbit steps its angle and tilt phase,
/// reports the point there (with the tilt of the phase before the step),
/// and appends that point to its trace.
pub open spec fn advance_rel(pre: AnimationCurve, post: AnimationCurve, dt: int, pose: Pose) -> bool {
    &&& post.duration == pre.duration
    &&& match pre.state {
        RunState::Idle => post == pre && pose == pre.rest_pose_spec(),
        RunState::Running { timer } => match pre.kind {
            CurveKind::Jiggle { .. } | CurveKind::Flip { .. } => {
                &&& post.kind == pre.kind
                &&& post.state == step_state(pre.state, pre.eff_duration_spec(), dt)
                &&& pose == if timer + dt >= pre.eff_duration_spec() {
                    pre.rest_pose_spec()
                } else {
                    pre.eval_pose_spec(timer + dt)
                }
            },
            CurveKind::Slide { start, end } => {
                &&& post.state == step_state(pre.state, pre.eff_duration_spec(), dt)
                &&& if timer + dt >= pre.eff_duration_spec() {
                    &&& post.kind == (CurveKind::Slide { start: end, end })
                    &&& pose == (Pose { pos: end, rot: 0 })
                } else {
                    &&& post.kind == pre.kind
                    &&& pose == pre.eval_pose_spec(timer + dt)
                }
            },
            CurveKind::Orbit { radius, speed, tilt_amplitude, tilt_speed, angle, tilt_phase, trace } => {
                match post.kind {
                    CurveKind::Orbit {
                        radius: radius2,
                        speed: speed2,
                        tilt_amplitude: tilt_amplitude2,
                        tilt_speed: tilt_speed2,
                        angle: angle2,
                        tilt_phase: tilt_phase2,
                        trace: trace2,
                    } => {
                        let a2 = angle_after_spec(angle as int, speed as int, dt);
                        let p = orbit_pos_spec(
                            radius as int,
                            a2,
                            orbit_tilt_spec(tilt_amplitude as int, tilt_phase as int),
                        );
                        &&& radius2 == radius
                        &&& speed2 == speed
                        &&& tilt_amplitude2 == tilt_amplitude
                        &&& tilt_speed2 == tilt_speed
                        &&& angle2 == a2
                        &&& tilt_phase2 == angle_after_spec(tilt_phase as int, tilt_speed as int, dt)
                        &&& trace2.cap() == trace.cap()
                        &&& trace2.contents() == trace_push_spec(trace.contents(), p, trace.cap())
                        &&& post.state == pre.state
                        &&& pose == (Pose { pos: p, rot: 0 })
                    },
                    _ => false,
                }
            },
        },
    }
}

/// The jiggle's vertical offset, computed.
fn jiggle_val(amplitude: i64, frequency: i64, duration: i64, t: i64) -> (y: i64)
    requires
        jiggle_params_ok(amplitude as int, frequency as int, duration as int),
        0 <= t < duration,
    ensures
        y == jiggle_offset_spec(amplitude as int, frequency as int, duration as int, t as int),
        -PARAM_BOUND <= y <= PARAM_BOUND,
{
    let decay0 = fx_div(duration - t, duration);
    proof {
        lemma_fx_div_unit(duration - t, duration as int);
    }
    let decay = if decay0 < 0 {
        0
    } else {
        decay0
    };
    let a1 = fx_mul(amplitude, decay);
    proof {
        lemma_fx_mul_unit_factor(amplitude as int, decay as int, PARAM_BOUND as int);
    }
    let a2 = fx_mul(a1, decay);
    proof {
        lemma_fx_mul_unit_factor(a1 as int, decay as int, PARAM_BOUND as int);
    }
    let s = sin_fx(fx_mul(t, frequency));
    let y = fx_mul(s, a2);
    proof {
        lemma_fx_mul_comm(s as int, a2 as int);
        lemma_fx_mul_unit_factor(a2 as int, s as int, PARAM_BOUND as int);
    }
    y
}

/// The flip's pose, computed: height from the three phases, roll from the
/// overall progress.
fn flip_eval(base_height: i64, jump_height: i64, hover_time: i64, duration: i64, t: i64) -> (p:
    Pose)
    requires
        flip_params_ok(base_height as int, jump_height as int, hover_time as int, duration as int),
        0 <= t,
        t < 2 * flip_up_spec(duration as int, hover_time as int) + hover_time,
    ensures
        p == (Pose {
            pos: Vec3Fx {
                x: 0,
                y: flip_y_spec(
                    base_height as int,
                    jump_height as int,
                    hover_time as int,
                    duration as int,
                    t as int,
                ) as i64,
                z: 0,
            },
            rot: flip_rot_spec(hover_time as int, duration as int, t as int) as i64,
        }),
        p.wf(),
{
    let up = (duration - hover_time) / 2;
    let total = 2 * up + hover_time;
    let y: i64 = if t < up {
        let pr = fx_div(t, up);
        proof {
            lemma_fx_div_unit(t as int, up as int);
            lemma_fx_mul_nonneg(pr as int, FX_HALF_PI as int);
            lemma_fx_mul_comm(pr as int, FX_HALF_PI as int);
            lemma_fx_mul_unit_factor(FX_HALF_PI as int, pr as int, FX_HALF_PI as int);
        }
        let ang = fx_mul(pr, FX_HALF_PI);
        let s = sin_fx(ang);
        proof {
            lemma_sin_first_half(ang as int);
            lemma_fx_mul_unit_factor(jump_height as int, s as int, PARAM_BOUND as int);
        }
        base_height + fx_mul(jump_height, s)
    } else if t < up + hover_time {
        base_height + jump_height
    } else {
        let pr = fx_div(t - up - hover_time, up);
        proof {
            lemma_fx_div_unit(t - up - hover_time, up as int);
            lemma_fx_mul_nonneg(pr as int, FX_HALF_PI as int);
            lemma_fx_mul_comm(pr as int, FX_HALF_PI as int);
            lemma_fx_mul_unit_factor(FX_HALF_PI as int, pr as int, FX_HALF_PI as int);
        }
        let ang = fx_mul(pr, FX_HALF_PI);
        let s = sin_fx(ang);
        proof {
            lemma_sin_first_half(ang as int);
            lemma_fx_mul_unit_factor(jump_height as int, FX_ONE - s, PARAM_BOUND as int);
        }
        base_height + fx_mul(jump_height, FX_ONE - s)
    };
    let fr = fx_div(t, total);
    proof {
        lemma_fx_div_unit(t as int, total as int);
        lemma_fx_mul_unit_factor(FX_TAU as int, fr as int, FX_TAU as int);
    }
    let rot = fx_mul(FX_TAU, fr);
    Pose { pos: Vec3Fx { x: 0, y, z: 0 }, rot }
}

/// The slide's interpolated point, computed.
fn slide_point(start: Vec3Fx, end: Vec3Fx, duration: i64, t: i64) -> (p: Vec3Fx)
    requires
        slide_params_ok(start, end, duration as int),
        0 <= t <= TIME_BOUND,
    ensures
        p == slide_pos_spec(start, end, duration as int, t as int),
        p.wf(),
{
    let f0 = fx_div(t, duration);
    let f = if f0 < 0 {
        0
    } else if f0 > FX_ONE {
        FX_ONE
    } else {
        f0
    };
    proof {
        lemma_fx_mul_nonneg(f as int, FX_PI as int);
        lemma_fx_mul_comm(f as int, FX_PI as int);
        lemma_fx_mul_unit_factor(FX_PI as int, f as int, FX_PI as int);
    }
    let ang = fx_mul(f, FX_PI);
    let e = sin_fx(ang);
    proof {
        lemma_sin_first_half(ang as int);
        lemma_lerp_bounds(start.x as int, end.x as int, e as int);
        lemma_lerp_bounds(start.y as int, end.y as int, e as int);
        lemma_lerp_bounds(start.z as int, end.z as int, e as int);
    }
    Vec3Fx {
        x: start.x + fx_mul(end.x - start.x, e),
        y: start.y + fx_mul(end.y - start.y, e),
        z: start.z + fx_mul(end.z - start.z, e),
    }
}

/// A point of the orbit, computed: the circle point at `angle`, rolled
/// about the z axis by `tilt`.
fn orbit_point(radius: i64, angle: i64, tilt: i64) -> (v: Vec3Fx)
    requires
        0 <= radius <= COORD_BOUND,
    ensures
        v == orbit_pos_spec(radius as int, angle as int, tilt as int),
        v.wf(),
{
    let ca = cos_fx(angle);
    let sa = sin_fx(angle);
    proof {
        lemma_fx_mul_unit_factor(radius as int, ca as int, COORD_BOUND as int);
        lemma_fx_mul_unit_factor(radius as int, sa as int, COORD_BOUND as int);
    }
    let cx = fx_mul(radius, ca);
    let cz = fx_mul(radius, sa);
    let ct = cos_fx(tilt);
    let st = sin_fx(tilt);
    proof {
        lemma_fx_mul_unit_factor(cx as int, ct as int, COORD_BOUND as int);
        lemma_fx_mul_unit_factor(cx as int, st as int, COORD_BOUND as int);
    }
    Vec3Fx { x: fx_mul(cx, ct), y: fx_mul(cx, st), z: cz }
}

impl AnimationCurve {
    /// Builds an idle jiggle curve, rejecting out-of-range parameters.
    pub fn jiggle(amplitude: i64, frequency: i64, duration: i64) -> (r: Option<AnimationCurve>)
        ensures
            match r {
                Some(c) => {
                    &&& jiggle_params_ok(amplitude as int, frequency as int, duration as int)
                    &&& c == (AnimationCurve {
                        kind: CurveKind::Jiggle { amplitude, frequency },
                        state: RunState::Idle,
                        duration,
                    })
                    &&& c.wf()
                },
                None => !jiggle_params_ok(amplitude as int, frequency as int, duration as int),
            },
    {
        if duration <= 0 || duration > TIME_BOUND || amplitude < -PARAM_BOUND || amplitude
            > PARAM_BOUND || frequency < -PARAM_BOUND || frequency > PARAM_BOUND {
            None
        } else {
            Some(
                AnimationCurve {
                    kind: CurveKind::Jiggle { amplitude, frequency },
                    state: RunState::Idle,
                    duration,
                },
            )
        }
    }

    /// Builds an idle flip curve, rejecting out-of-range parameters.
    pub fn flip(base_height: i64, jump_height: i64, hover_time: i64, duration: i64) -> (r: Option<
        AnimationCurve,
    >)
        ensures
            match r {
                Some(c) => {
                    &&& flip_params_ok(
                        base_height as int,
                        jump_height as int,
                        hover_time as int,
                        duration as int,
                    )
                    &&& c == (AnimationCurve {
                        kind: CurveKind::Flip { base_height, jump_height, hover_time },
                        state: RunState::Idle,
                        duration,
                    })
                    &&& c.wf()
                },
                None => !flip_params_ok(
                    base_height as int,
                    jump_height as int,
                    hover_time as int,
                    duration as int,
                ),
            },
    {
        if duration <= 0 || duration > TIME_BOUND || base_height < 0 || base_height > PARAM_BOUND
            || jump_height < 0 || jump_height > PARAM_BOUND || hover_time < 0 || hover_time
            > duration - 2 {
            None
        } else {
            proof {
                assert(flip_up_spec(duration as int, hover_time as int) >= 1);
            }
            Some(
                AnimationCurve {
                    kind: CurveKind::Flip { base_height, jump_height, hover_time },
                    state: RunState::Idle,
                    duration,
                },
            )
        }
    }

    /// Builds an idle slide curve, rejecting out-of-range parameters.
    pub fn slide(start: Vec3Fx, end: Vec3Fx, duration: i64) -> (r: Option<AnimationCurve>)
        ensures
            match r {
                Some(c) => {
                    &&& slide_params_ok(start, end, duration as int)
                    &&& c == (AnimationCurve {
                        kind: CurveKind::Slide { start, end },
                        state: RunState::Idle,
                        duration,
                    })
                    &&& c.wf()
                },
                None => !slide_params_ok(start, end, duration as int),
            },
    {
        if duration <= 0 || duration > TIME_BOUND || start.x < -COORD_BOUND || start.x
            > COORD_BOUND || start.y < -COORD_BOUND || start.y > COORD_BOUND || start.z
            < -COORD_BOUND || start.z > COORD_BOUND || end.x < -COORD_BOUND || end.x > COORD_BOUND
            || end.y < -COORD_BOUND || end.y > COORD_BOUND || end.z < -COORD_BOUND || end.z
            > COORD_BOUND {
            None
        } else {
            Some(
                AnimationCurve {
                    kind: CurveKind::Slide { start, end },
                    state: RunState::Idle,
                    duration,
                },
            )
        }
    }

    /// Builds an idle orbit curve with an empty trace of the given capacity,
    /// rejecting out-of-range parameters. The orbit is perpetual, so it has
    /// no meaningful duration.
    pub fn orbit(radius: i64, speed: i64, tilt_amplitude: i64, tilt_speed: i64, max_points: usize)
        -> (r: Option<AnimationCurve>)
        ensures
            match r {
                Some(c) => {
                    &&& orbit_params_ok(
                        radius as int,
                        speed as int,
                        tilt_amplitude as int,
                        tilt_speed as int,
                    )
                    &&& c.state == RunState::Idle
                    &&& c.wf()
                    &&& c.kind matches CurveKind::Orbit {
                        radius: radius2,
                        speed: speed2,
                        tilt_amplitude: tilt_amplitude2,
                        tilt_speed: tilt_speed2,
                        angle,
                        tilt_phase,
                        trace,
                    } && radius2 == radius && speed2 == speed && tilt_amplitude2 == tilt_amplitude
                        && tilt_speed2 == tilt_speed && angle == 0 && tilt_phase == 0
                        && trace.cap() == max_points as nat && trace.contents() == Seq::<
                        Vec3Fx,
                    >::empty()
                },
                None => !orbit_params_ok(
                    radius as int,
                    speed as int,
                    tilt_amplitude as int,
                    tilt_speed as int,
                ),
            },
    {
        if radius < 0 || radius > COORD_BOUND || speed < -PARAM_BOUND || speed > PARAM_BOUND
            || tilt_amplitude < -PARAM_BOUND || tilt_amplitude > PARAM_BOUND || tilt_speed
            < -PARAM_BOUND || tilt_speed > PARAM_BOUND {
            None
        } else {
            Some(
                AnimationCurve {
                    kind: CurveKind::Orbit {
                        radius,
                        speed,
                        tilt_amplitude,
                        tilt_speed,
                        angle: 0,
                        tilt_phase: 0,
                        trace: TraceBuffer::new(max_points),
                    },
                    state: RunState::Idle,
                    duration: FX_ONE,
                },
            )
        }
    }

    /// Whether the curve is partway through a run.
    pub fn is_active(&self) -> (b: bool)
        ensures
            b == self.is_active_spec(),
    {
        match self.state {
            RunState::Idle => false,
            RunState::Running { .. } => true,
        }
    }

    /// The running timer, or zero when idle.
    pub fn timer(&self) -> (t: i64)
        ensures
            t == timer_of(self.state),
    {
        match self.state {
            RunState::Idle => 0,
            RunState::Running { timer } => timer,
        }
    }

    /// The curve's rest pose, computed.
    pub fn rest_pose(&self) -> (p: Pose)
        requires
            self.wf(),
        ensures
            p == self.rest_pose_spec(),
            p.wf(),
    {
        match &self.kind {
            CurveKind::Jiggle { .. } => Pose { pos: Vec3Fx { x: 0, y: 0, z: 0 }, rot: 0 },
            CurveKind::Flip { base_height, .. } => Pose {
                pos: Vec3Fx { x: 0, y: *base_height, z: 0 },
                rot: 0,
            },
            CurveKind::Slide { start, .. } => Pose { pos: *start, rot: 0 },
            CurveKind::Orbit { radius, tilt_amplitude, angle, tilt_phase, .. } => {
                let tilt = fx_mul(*tilt_amplitude, sin_fx(*tilt_phase));
                Pose { pos: orbit_point(*radius, *angle, tilt), rot: 0 }
            },
        }
    }

    /// Restarts the curve at time zero. A restarted slide departs from
    /// wherever its output currently sits.
    pub fn activate(&mut self)
        requires
            old(self).wf(),
        ensures
            final(self).wf(),
            activate_rel(*old(self), *final(self)),
    {
        let st = self.state;
        let duration = self.duration;
        match &mut self.kind {
            CurveKind::Slide { start, end } => {
                if let RunState::Running { timer } = st {
                    let p = slide_point(*start, *end, duration, timer);
                    *start = p;
                }
            },
            _ => {},
        }
        self.state = RunState::Running { timer: 0 };
    }

    /// Adds the frame's elapsed time and reports the curve's pose, as
    /// `advance_rel` describes.
    pub fn advance(&mut self, dt: i64) -> (pose: Pose)
        requires
            old(self).wf(),
            0 <= dt <= TIME_BOUND,
        ensures
            final(self).wf(),
            advance_rel(*old(self), *final(self), dt as int, pose),
            pose.wf(),
    {
        let st = self.state;
        let timer = match st {
            RunState::Idle => {
                return self.rest_pose();
            },
            RunState::Running { timer } => timer,
        };
        let duration = self.duration;
        match &mut self.kind {
            CurveKind::Jiggle { amplitude, frequency } => {
                let t2 = timer + dt;
                if t2 >= duration {
                    self.state = RunState::Idle;
                    Pose { pos: Vec3Fx { x: 0, y: 0, z: 0 }, rot: 0 }
                } else {
                    self.state = RunState::Running { timer: t2 };
                    let y = jiggle_val(*amplitude, *frequency, duration, t2);
                    Pose { pos: Vec3Fx { x: 0, y, z: 0 }, rot: 0 }
                }
            },
            CurveKind::Flip { base_height, jump_height, hover_time } => {
                let up = (duration - *hover_time) / 2;
                let total = 2 * up + *hover_time;
                let t2 = timer + dt;
                if t2 >= total {
                    self.state = RunState::Idle;
                    Pose { pos: Vec3Fx { x: 0, y: *base_height, z: 0 }, rot: 0 }
                } else {
                    self.state = RunState::Running { timer: t2 };
                    flip_eval(*base_height, *jump_height, *hover_time, duration, t2)
                }
            },
            CurveKind::Slide { start, end } => {
                let t2 = timer + dt;
                if t2 >= duration {
                    self.state = RunState::Idle;
                    let e = *end;
                    *start = e;
                    Pose { pos: e, rot: 0 }
                } else {
                    self.state = RunState::Running { timer: t2 };
                    Pose { pos: slide_point(*start, *end, duration, t2), rot: 0 }
                }
            },
            CurveKind::Orbit { radius, speed, tilt_amplitude, tilt_speed, angle, tilt_phase, trace } => {
                let a2 = wrap_angle(*angle + fx_mul(*speed, dt));
                let p2 = wrap_angle(*tilt_phase + fx_mul(*tilt_speed, dt));
                let tilt = fx_mul(*tilt_amplitude, sin_fx(*tilt_phase));
                let pos = orbit_point(*radius, a2, tilt);
                *angle = a2;
                *tilt_phase = p2;
                trace.push(pos);
                Pose { pos, rot: 0 }
            },
        }
    }
}

/// How `activate` relates the curve before and after: the run restarts at
/// time zero; the slide's start point becomes wherever the curve's output
/// currently sits; everything else is kept.
pub open spec fn activate_rel(pre: AnimationCurve, post: AnimationCurve) -> bool {
    &&& post.duration == pre.duration
    &&& post.state == (RunState::Running { timer: 0 })
    &&& match pre.kind {
        CurveKind::Slide { start, end } => post.kind == (CurveKind::Slide {
            start: pre.current_pose_spec().pos,
            end,
        }),
        _ => post.kind == pre.kind,
    }
}

/// The sum of a run of time steps.
pub open spec fn total_time_spec(dts: Seq<i64>) -> int
    decreases dts.len(),
{
    if dts.len() == 0 {
        0
    } else {
        dts[0] + total_time_spec(dts.drop_first())
    }
}

/// The run state after a whole run of time steps: `advance` realizes one
/// `step_state` per call for every timed kind.
pub open spec fn run_after(state: RunState, eff: int, dts: Seq<i64>) -> RunState
    decreases dts.len(),
{
    if dts.len() == 0 {
        state
    } else {
        run_after(step_state(state, eff, dts[0] as int), eff, dts.drop_first())
    }
}

/// An idle curve stays idle through any run of time steps.
proof fn lemma_idle_stays_idle(eff: int, dts: Seq<i64>)
    ensures
        run_after(RunState::Idle, eff, dts) is Idle,
    decreases dts.len(),
{
    if dts.len() > 0 {
        lemma_idle_stays_idle(eff, dts.drop_first());
    }
}

/// A running state whose timer plus the remaining time covers the duration
/// ends idle.
proof fn lemma_run_crosses(state: RunState, eff: int, dts: Seq<i64>)
    requires
        0 < eff <= TIME_BOUND,
        forall|i: int| 0 <= i < dts.len() ==> 0 <= #[trigger] dts[i],
        state matches RunState::Running { timer } ==> 0 <= timer && dts.len() > 0 && timer
            + total_time_spec(dts) >= eff,
    ensures
        run_after(state, eff, dts) is Idle,
    decreases dts.len(),
{
    match state {
        RunState::Idle => {
            lemma_idle_stays_idle(eff, dts);
        },
        RunState::Running { timer } => {
            let dt0 = dts[0] as int;
            let rest = dts.drop_first();
            assert forall|i: int| 0 <= i < rest.len() implies 0 <= #[trigger] rest[i] by {
                assert(rest[i] == dts[i + 1]);
            }
            if timer + dt0 >= eff {
                lemma_idle_stays_idle(eff, rest);
            } else {
                if rest.len() == 0 {
                    assert(total_time_spec(rest) == 0);
                    assert(false);
                }
                lemma_run_crosses(RunState::Running { timer: (timer + dt0) as i64 }, eff, rest);
            }
        },
    }
}

/// Law: a run started by `activate` (time zero) and advanced by steps that
/// sum to exactly its duration ends idle — `active` is false and the timer
/// reads zero again.
pub proof fn lemma_run_completes_exactly(eff: int, dts: Seq<i64>)
    requires
        0 < eff <= TIME_BOUND,
        dts.len() > 0,
        forall|i: int| 0 <= i < dts.len() ==> 0 <= #[trigger] dts[i],
        total_time_spec(dts) == eff,
    ensures
        run_after(RunState::Running { timer: 0 }, eff, dts) is Idle,
        timer_of(run_after(RunState::Running { timer: 0 }, eff, dts)) == 0,
{
    lemma_run_crosses(RunState::Running { timer: 0 }, eff, dts);
}

/// Along any chain of `advance` calls, a timed (non-orbit) curve keeps its
/// kind and duration, and its run state is the fold of `step_state` over
/// the time steps.
proof fn lemma_timed_chain_states(cs: Seq<AnimationCurve>, dts: Seq<i64>, poses: Seq<Pose>)
    requires
        cs.len() == dts.len() + 1,
        poses.len() == dts.len(),
        !(cs[0].kind is Orbit),
        forall|i: int|
            0 <= i < dts.len() ==> advance_rel(cs[i], cs[i + 1], dts[i] as int, #[trigger] poses[i]),
    ensures
        !(cs.last().kind is Orbit),
        cs.last().duration == cs[0].duration,
        cs.last().eff_duration_spec() == cs[0].eff_duration_spec(),
        cs.last().state == run_after(cs[0].state, cs[0].eff_duration_spec(), dts),
    decreases dts.len(),
{
    if dts.len() == 0 {
        assert(cs.last() == cs[0]);
    } else {
        assert(advance_rel(cs[0], cs[1], dts[0] as int, poses[0]));
        if cs[0].state is Running {
            match cs[0].kind {
                CurveKind::Slide { .. } => {
                    assert(cs[1].kind is Slide);
                    assert(cs[1].eff_duration_spec() == cs[0].eff_duration_spec());
                },
                _ => {
                    assert(cs[1].kind == cs[0].kind);
                },
            }
        }
        let cs2 = cs.drop_first();
        let dts2 = dts.drop_first();
        let poses2 = poses.drop_first();
        assert forall|i: int|
            0 <= i < dts2.len() implies advance_rel(
            cs2[i],
            cs2[i + 1],
            dts2[i] as int,
            #[trigger] poses2[i],
        ) by {
            assert(cs2[i] == cs[i + 1] && cs2[i + 1] == cs[i + 2] && dts2[i] == dts[i + 1]
                && poses2[i] == poses[i + 1]);
        }
        lemma_timed_chain_states(cs2, dts2, poses2);
        assert(cs2.last() == cs.last());
    }
}

/// Law: a jiggle that is activated and then advanced repeatedly, by steps
/// that sum to exactly its duration, ends with `active` false and its
/// timer reset to zero.
pub proof fn lemma_jiggle_chain_completes(cs: Seq<AnimationCurve>, dts: Seq<i64>, poses: Seq<Pose>)
    requires
        cs.len() == dts.len() + 1,
        poses.len() == dts.len(),
        dts.len() > 0,
        cs[0].wf(),
        cs[0].kind is Jiggle,
        cs[0].state == (RunState::Running { timer: 0 }),
        forall|i: int| 0 <= i < dts.len() ==> 0 <= #[trigger] dts[i],
        total_time_spec(dts) == cs[0].duration,
        forall|i: int|
            0 <= i < dts.len() ==> advance_rel(cs[i], cs[i + 1], dts[i] as int, #[trigger] poses[i]),
    ensures
        cs.last().state is Idle,
        timer_of(cs.last().state) == 0,
{
    lemma_timed_chain_states(cs, dts, poses);
    lemma_run_crosses(RunState::Running { timer: 0 }, cs[0].eff_duration_spec(), dts);
}

/// Law: advancing a curve that was never activated — or whose run has
/// ended — leaves it untouched and reports its rest pose, whatever the
/// time step.
pub proof fn lemma_idle_advance_returns_rest(
    pre: AnimationCurve,
    post: AnimationCurve,
    dt: int,
    pose: Pose,
)
    requires
        pre.state is Idle,
        advance_rel(pre, post, dt, pose),
    ensures
        post == pre,
        pose == pre.rest_pose_spec(),
{
}

/// Law: the moment a flip's timer reaches its rise time, its height is
/// exactly the base height plus the jump height — the hover holds the peak,
/// and the fall starts from it.
pub proof fn lemma_flip_peak(c: AnimationCurve)
    requires
        c.wf(),
        c.kind is Flip,
    ensures
        c.kind matches CurveKind::Flip { base_height, jump_height, hover_time } ==> c.eval_pose_spec(
            flip_up_spec(c.duration as int, hover_time as int),
        ).pos.y == base_height + jump_height,
{
    if let CurveKind::Flip { base_height, jump_height, hover_time } = c.kind {
        let up = flip_up_spec(c.duration as int, hover_time as int);
        if hover_time == 0 {
            vstd::arithmetic::div_mod::lemma_div_of0(up);
            assert(fx_div_spec(0, up) == 0);
            assert(fx_mul_spec(0, FX_HALF_PI as int) == 0);
            crate::trig::lemma_sin_zero();
            vstd::arithmetic::div_mod::lemma_div_by_multiple(
                jump_height as int,
                FX_ONE as int,
            );
            assert(fx_mul_spec(jump_height as int, FX_ONE as int) == jump_height);
        }
    }
}

/// Law (and a caution): the slide's `sin(pi * t)` easing is not monotonic.
/// At exactly half its duration the easing parameter is one — the sine is
/// exact at a quarter turn — so the slide touches its end point already at
/// half time, then eases back toward where it started.
pub proof fn lemma_slide_touches_end_at_half_time(
    start: Vec3Fx,
    end: Vec3Fx,
    duration: int,
    t: int,
)
    requires
        slide_params_ok(start, end, duration),
        fx_div_spec(t, duration) == 500_000,
    ensures
        slide_pos_spec(start, end, duration, t) == end,
{
    assert(fx_mul_spec(500_000, FX_PI as int) == FX_HALF_PI);
    crate::trig::lemma_sin_quarter_turn();
    assert(slide_ease_spec(duration, t) == FX_ONE);
    crate::fx::lemma_fx_mul_one(end.x - start.x);
    crate::fx::lemma_fx_mul_one(end.y - start.y);
    crate::fx::lemma_fx_mul_one(end.z - start.z);
}

/// Law: when a running flip's timer reaches its total time, the curve goes
/// idle and the final pose is the rest pose — identity rotation, at the
/// base height.
pub proof fn lemma_flip_completion(pre: AnimationCurve, post: AnimationCurve, dt: int, pose: Pose)
    requires
        pre.wf(),
        pre.kind is Flip,
        pre.state is Running,
        timer_of(pre.state) + dt >= pre.eff_duration_spec(),
        advance_rel(pre, post, dt, pose),
    ensures
        post.state is Idle,
        pose.rot == 0,
        pre.kind matches CurveKind::Flip { base_height, .. } ==> pose == (Pose {
            pos: Vec3Fx { x: 0, y: base_height, z: 0 },
            rot: 0,
        }),
{
}

} // verus!
