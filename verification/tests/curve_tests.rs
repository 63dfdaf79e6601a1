use animkit::curve::{AnimationCurve, CurveKind, Pose, RunState};
use animkit::fx::FX_ONE;
use animkit::vec3::Vec3Fx;

fn v(x: i64, y: i64, z: i64) -> Vec3Fx {
    Vec3Fx { x, y, z }
}

/// A curve that was never activated reports its rest pose, whatever the
/// time step, and stays idle.
#[test]
fn advance_before_activation_is_rest_pose() {
    let mut c = AnimationCurve::jiggle(FX_ONE, 16 * FX_ONE, 1_500_000).unwrap();
    for dt in [0i64, 1, 16_000, 10_000_000_000] {
        let pose = c.advance(dt);
        assert_eq!(pose, Pose { pos: v(0, 0, 0), rot: 0 });
        assert!(!c.is_active());
    }
}

/// Activating and advancing by steps that sum to exactly the duration
/// leaves the jiggle inactive with its timer reset.
#[test]
fn jiggle_run_completes_exactly() {
    let mut c = AnimationCurve::jiggle(FX_ONE, 16 * FX_ONE, 1_500_000).unwrap();
    c.activate();
    assert!(c.is_active());
    c.advance(500_000);
    assert!(c.is_active());
    c.advance(500_000);
    assert!(c.is_active());
    let pose = c.advance(500_000);
    assert!(!c.is_active());
    assert_eq!(c.timer(), 0);
    assert_eq!(pose, Pose { pos: v(0, 0, 0), rot: 0 });
}

/// The jiggle's offset at 0.1 s, with amplitude 1.0, frequency 16 and
/// duration 1.5 s, is the exact fixed-point value of
/// `amplitude * decay^2 * sin(timer * frequency)`.
#[test]
fn jiggle_offset_exact_value() {
    let mut c = AnimationCurve::jiggle(FX_ONE, 16 * FX_ONE, 1_500_000).unwrap();
    c.activate();
    let pose = c.advance(100_000);
    assert_eq!(pose.pos, v(0, 870_732, 0));
    assert_eq!(pose.rot, 0);
    // Against the real-valued formula.
    let expect = ((1.4f64 / 1.5) * (1.4 / 1.5)) * (0.1f64 * 16.0).sin();
    assert!((pose.pos.y as f64 / 1e6 - expect).abs() < 0.01);
}

/// At its rise time the flip sits exactly at base plus jump height, with
/// the roll partway through its full turn.
#[test]
fn flip_peak_is_exact() {
    let mut c = AnimationCurve::flip(FX_ONE, 3 * FX_ONE, 250_000, 1_200_000).unwrap();
    c.activate();
    let pose = c.advance(475_000);
    assert_eq!(pose.pos.y, 4_000_000);
    assert_eq!(pose.rot, 2_487_091);
    assert!(c.is_active());
}

/// Throughout the hover the flip holds its peak.
#[test]
fn flip_hover_holds_peak() {
    let mut c = AnimationCurve::flip(FX_ONE, 3 * FX_ONE, 250_000, 1_200_000).unwrap();
    c.activate();
    c.advance(500_000);
    let pose = c.advance(100_000);
    assert_eq!(pose.pos.y, 4_000_000);
}

/// When the flip's timer reaches its total time the curve goes idle and
/// the pose is the rest pose: base height, identity rotation.
#[test]
fn flip_completion_resets_rotation() {
    let mut c = AnimationCurve::flip(FX_ONE, 3 * FX_ONE, 250_000, 1_200_000).unwrap();
    c.activate();
    c.advance(600_000);
    let pose = c.advance(600_000);
    assert!(!c.is_active());
    assert_eq!(c.timer(), 0);
    assert_eq!(pose, Pose { pos: v(0, FX_ONE, 0), rot: 0 });
}

/// The slide lands on its end point when its duration elapses, and stays
/// there: the end point becomes its new resting position.
#[test]
fn slide_reaches_end_and_rests_there() {
    let start = v(-5_000_000, 975_000, 0);
    let end = v(0, 950_000, 0);
    let mut c = AnimationCurve::slide(start, end, 2_000_000).unwrap();
    c.activate();
    let pose = c.advance(2_000_000);
    assert!(!c.is_active());
    assert_eq!(pose.pos, end);
    let pose2 = c.advance(700_000);
    assert_eq!(pose2.pos, end);
}

/// The slide's sine easing reaches the end point already at half time —
/// `sin(pi * 1/2)` is exactly one — and then eases back, matching the
/// formula rather than a monotonic interpolation.
#[test]
fn slide_touches_end_at_half_time() {
    let start = v(-5_000_000, 975_000, 0);
    let end = v(0, 950_000, 0);
    let mut c = AnimationCurve::slide(start, end, 2_000_000).unwrap();
    c.activate();
    let pose = c.advance(1_000_000);
    assert!(c.is_active());
    assert_eq!(pose.pos, end);
}

/// A restarted slide departs from wherever its output currently sits.
#[test]
fn slide_restart_departs_from_current_point() {
    let start = v(-4_000_000, 0, 0);
    let end = v(4_000_000, 0, 0);
    let mut c = AnimationCurve::slide(start, end, 2_000_000).unwrap();
    c.activate();
    let pose = c.advance(200_000);
    let mid = pose.pos;
    assert!(mid.x > start.x && mid.x < end.x);
    c.activate();
    assert_eq!(c.timer(), 0);
    match c.kind {
        CurveKind::Slide { start: s2, end: e2 } => {
            assert_eq!(s2, mid);
            assert_eq!(e2, end);
        }
        _ => panic!("expected a slide curve"),
    }
}

/// The orbit advances its angle at its angular speed: after one second at
/// speed 1 the electron sits at angle one radian, tilt still zero.
#[test]
fn orbit_position_after_one_second() {
    let mut c = AnimationCurve::orbit(2_000_000, FX_ONE, FX_ONE, 100_000, 100).unwrap();
    c.activate();
    let pose = c.advance(FX_ONE);
    assert_eq!(pose.pos, v(1_080_002, 0, 1_680_436));
    let (ex, ez) = (2.0 * 1.0f64.cos(), 2.0 * 1.0f64.sin());
    assert!((pose.pos.x as f64 / 1e6 - ex).abs() < 0.01);
    assert!((pose.pos.z as f64 / 1e6 - ez).abs() < 0.01);
}

/// The orbit never completes: it stays active through long advances.
#[test]
fn orbit_is_perpetual() {
    let mut c = AnimationCurve::orbit(2_000_000, FX_ONE, FX_ONE, 100_000, 8).unwrap();
    c.activate();
    for _ in 0..20 {
        c.advance(10_000_000);
        assert!(c.is_active());
    }
}

/// Every advance of a running orbit appends one position to its trace,
/// which never outgrows its capacity.
#[test]
fn orbit_trace_grows_then_saturates() {
    let mut c = AnimationCurve::orbit(2_000_000, FX_ONE, FX_ONE, 100_000, 3).unwrap();
    c.activate();
    for i in 1..=5u64 {
        c.advance(250_000);
        match &c.kind {
            CurveKind::Orbit { trace, .. } => {
                assert_eq!(trace.len() as u64, i.min(3));
            }
            _ => panic!("expected an orbit curve"),
        }
    }
}

/// Constructors reject out-of-range parameters instead of misbehaving at
/// evaluation time.
#[test]
fn constructors_reject_bad_parameters() {
    assert!(AnimationCurve::jiggle(FX_ONE, 16 * FX_ONE, 0).is_none());
    assert!(AnimationCurve::jiggle(FX_ONE, 16 * FX_ONE, -5).is_none());
    assert!(AnimationCurve::jiggle(2_000_000_000, FX_ONE, FX_ONE).is_none());
    assert!(AnimationCurve::flip(FX_ONE, 3 * FX_ONE, 1_200_000, 1_200_000).is_none());
    assert!(AnimationCurve::flip(-1, 3 * FX_ONE, 0, 1_200_000).is_none());
    assert!(AnimationCurve::slide(v(0, 0, 0), v(200_000_000, 0, 0), FX_ONE).is_none());
    assert!(AnimationCurve::orbit(-1, FX_ONE, FX_ONE, FX_ONE, 10).is_none());
    assert!(AnimationCurve::orbit(2_000_000, 2_000_000_000, FX_ONE, FX_ONE, 10).is_none());
}

/// Activating an already-running jiggle restarts its timer.
#[test]
fn activate_restarts_running_curve() {
    let mut c = AnimationCurve::jiggle(FX_ONE, 16 * FX_ONE, 1_500_000).unwrap();
    c.activate();
    c.advance(700_000);
    assert_eq!(c.timer(), 700_000);
    c.activate();
    assert_eq!(c.timer(), 0);
    assert!(matches!(c.state, RunState::Running { timer: 0 }));
}
