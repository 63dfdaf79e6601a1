use animkit::curve::{AnimationCurve, CurveKind, Pose, RunState};
use animkit::director::{net_pose, Director, PoseUpdate};
use animkit::fx::FX_ONE;
use animkit::picker::{HitTarget, Ray};
use animkit::vec3::Vec3Fx;

fn v(x: i64, y: i64, z: i64) -> Vec3Fx {
    Vec3Fx { x, y, z }
}

fn hitting_ray() -> Ray {
    Ray { origin: v(0, 0, 5_000_000), direction: v(0, 0, -1_000_000) }
}

fn missing_ray() -> Ray {
    Ray { origin: v(50_000_000, 0, 5_000_000), direction: v(0, 0, -1_000_000) }
}

/// One target bound to two curves on two entities: a single click
/// activates both, and one tick advances both independently.
#[test]
fn click_activates_both_bound_curves() {
    let mut d = Director::new();
    assert!(d.add_target(HitTarget { id: 7, center: v(0, 0, 0), radius: 1_000_000 }));
    let flip = AnimationCurve::flip(FX_ONE, 3 * FX_ONE, 250_000, 1_200_000).unwrap();
    let slide = AnimationCurve::slide(v(-5_000_000, 975_000, 0), v(0, 950_000, 0), 2_000_000)
        .unwrap();
    assert!(d.bind(1, 7, flip));
    assert!(d.bind(2, 7, slide));

    assert_eq!(d.on_click(&hitting_ray()), Some(7));
    assert!(d.curves[0].curve.is_active());
    assert!(d.curves[1].curve.is_active());

    let out = d.tick(100_000);
    assert_eq!(out.len(), 2);
    assert_eq!(out[0].entity, 1);
    assert_eq!(out[1].entity, 2);
    // The flip lifted its entity off the base; the slide moved its own.
    assert!(out[0].pose.pos.y > FX_ONE);
    assert!(out[0].pose.rot > 0);
    assert!(out[1].pose.pos.x > -5_000_000);
    assert_eq!(out[1].pose.rot, 0);
    assert_eq!(d.curves[0].curve.timer(), 100_000);
    assert_eq!(d.curves[1].curve.timer(), 100_000);
}

/// A click that picks nothing activates nothing.
#[test]
fn missed_click_activates_nothing() {
    let mut d = Director::new();
    assert!(d.add_target(HitTarget { id: 7, center: v(0, 0, 0), radius: 1_000_000 }));
    let jiggle = AnimationCurve::jiggle(FX_ONE, 16 * FX_ONE, 1_500_000).unwrap();
    assert!(d.bind(1, 7, jiggle));
    assert_eq!(d.on_click(&missing_ray()), None);
    assert!(!d.curves[0].curve.is_active());
}

/// A second click mid-run restarts a jiggle but leaves a running flip
/// alone.
#[test]
fn retrigger_policy_per_kind() {
    let mut d = Director::new();
    assert!(d.add_target(HitTarget { id: 7, center: v(0, 0, 0), radius: 1_000_000 }));
    let flip = AnimationCurve::flip(FX_ONE, 3 * FX_ONE, 250_000, 1_200_000).unwrap();
    let jiggle = AnimationCurve::jiggle(FX_ONE, 16 * FX_ONE, 1_500_000).unwrap();
    assert!(d.bind(1, 7, flip));
    assert!(d.bind(1, 7, jiggle));

    d.on_click(&hitting_ray());
    d.tick(400_000);
    assert_eq!(d.curves[0].curve.timer(), 400_000);
    assert_eq!(d.curves[1].curve.timer(), 400_000);

    d.on_click(&hitting_ray());
    assert_eq!(d.curves[0].curve.timer(), 400_000);
    assert_eq!(d.curves[1].curve.timer(), 0);
}

/// A second click mid-run leaves a running slide alone too: only the
/// jiggle restarts while mid-run.
#[test]
fn slide_not_retriggered_mid_run() {
    let mut d = Director::new();
    assert!(d.add_target(HitTarget { id: 7, center: v(0, 0, 0), radius: 1_000_000 }));
    let slide = AnimationCurve::slide(v(-5_000_000, 975_000, 0), v(0, 950_000, 0), 2_000_000)
        .unwrap();
    assert!(d.bind(2, 7, slide));

    d.on_click(&hitting_ray());
    d.tick(300_000);
    assert_eq!(d.curves[0].curve.timer(), 300_000);

    d.on_click(&hitting_ray());
    assert_eq!(d.curves[0].curve.timer(), 300_000);
    match d.curves[0].curve.kind {
        CurveKind::Slide { start, .. } => assert_eq!(start, v(-5_000_000, 975_000, 0)),
        _ => panic!("expected a slide curve"),
    }
}

/// Once a flip has finished, a new click starts it again.
#[test]
fn flip_retriggers_after_completion() {
    let mut d = Director::new();
    assert!(d.add_target(HitTarget { id: 7, center: v(0, 0, 0), radius: 1_000_000 }));
    let flip = AnimationCurve::flip(FX_ONE, 3 * FX_ONE, 250_000, 1_200_000).unwrap();
    assert!(d.bind(1, 7, flip));

    d.on_click(&hitting_ray());
    d.tick(1_200_000);
    assert!(!d.curves[0].curve.is_active());
    d.on_click(&hitting_ray());
    assert!(d.curves[0].curve.is_active());
}

/// Ticking advances idle curves too; they just report their rest poses.
#[test]
fn tick_reports_rest_poses_for_idle_curves() {
    let mut d = Director::new();
    let flip = AnimationCurve::flip(FX_ONE, 3 * FX_ONE, 250_000, 1_200_000).unwrap();
    assert!(d.bind(4, 9, flip));
    let out = d.tick(250_000);
    assert_eq!(out.len(), 1);
    assert_eq!(out[0].entity, 4);
    assert_eq!(out[0].pose, Pose { pos: v(0, FX_ONE, 0), rot: 0 });
    assert!(matches!(d.curves[0].curve.state, RunState::Idle));
}

/// Targets with out-of-range geometry are rejected at registration.
#[test]
fn add_target_rejects_bad_geometry() {
    let mut d = Director::new();
    assert!(!d.add_target(HitTarget { id: 1, center: v(0, 0, 0), radius: -5 }));
    assert!(!d.add_target(HitTarget { id: 2, center: v(200_000_000, 0, 0), radius: FX_ONE }));
    assert_eq!(d.targets.len(), 0);
}

/// Poses reported for the same entity compose by addition, in order;
/// other entities' poses are left out.
#[test]
fn net_pose_composes_per_entity() {
    let out = vec![
        PoseUpdate { entity: 1, pose: Pose { pos: v(0, 250_000, 0), rot: 100_000 } },
        PoseUpdate { entity: 2, pose: Pose { pos: v(9, 9, 9), rot: 9 } },
        PoseUpdate { entity: 1, pose: Pose { pos: v(-50_000, 30_000, 1), rot: -40_000 } },
    ];
    let p = net_pose(&out, 1);
    assert_eq!(p, Pose { pos: v(-50_000, 280_000, 1), rot: 60_000 });
    let q = net_pose(&out, 3);
    assert_eq!(q, Pose { pos: v(0, 0, 0), rot: 0 });
}
