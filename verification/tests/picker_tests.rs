use animkit::picker::{pick, HitTarget, Ray};
use animkit::vec3::Vec3Fx;

fn v(x: i64, y: i64, z: i64) -> Vec3Fx {
    Vec3Fx { x, y, z }
}

/// Target at the origin with radius 1.0, ray from (0,0,5) looking down -z:
/// the center sits on the ray's line, so the scaled distance is zero and
/// the pick hits.
#[test]
fn pick_hits_target_on_axis() {
    let ray = Ray { origin: v(0, 0, 5_000_000), direction: v(0, 0, -1_000_000) };
    let targets = vec![HitTarget { id: 42, center: v(0, 0, 0), radius: 1_000_000 }];
    assert_eq!(pick(&ray, &targets), Some(42));
}

/// The closest-approach comparison is scale-invariant in the direction:
/// the same ray with a direction a million times shorter picks the same.
#[test]
fn pick_direction_scale_invariant() {
    let ray = Ray { origin: v(0, 0, 5_000_000), direction: v(0, 0, -1) };
    let targets = vec![HitTarget { id: 42, center: v(0, 0, 0), radius: 1_000_000 }];
    assert_eq!(pick(&ray, &targets), Some(42));
}

/// The test has no forward check: a target dead behind the ray origin is
/// still on the ray's line, so it registers a hit.
#[test]
fn pick_hits_target_behind_origin() {
    let ray = Ray { origin: v(0, 0, 5_000_000), direction: v(0, 0, 1_000_000) };
    let targets = vec![HitTarget { id: 7, center: v(0, 0, 0), radius: 1_000_000 }];
    assert_eq!(pick(&ray, &targets), Some(7));
}

/// Ray from (5,5,5) along (-1,-1,-1), normalized to fixed point: the
/// origin-to-center offset is exactly collinear with the direction, so the
/// formula gives a scaled distance of exactly zero — a hit.
#[test]
fn pick_diagonal_scenario_matches_formula() {
    let ray = Ray {
        origin: v(5_000_000, 5_000_000, 5_000_000),
        direction: v(-577_350, -577_350, -577_350),
    };
    let t = HitTarget { id: 3, center: v(0, 0, 0), radius: 1_000_000 };

    // The formula, replicated bit for bit.
    let oc = [-5_000_000i128, -5_000_000, -5_000_000];
    let d = [-577_350i128, -577_350, -577_350];
    let n_oc: i128 = oc.iter().map(|a| a * a).sum();
    let n_d: i128 = d.iter().map(|a| a * a).sum();
    let tca: i128 = oc.iter().zip(d.iter()).map(|(a, b)| a * b).sum();
    let lhs = n_oc * n_d - tca * tca;
    let rhs = 1_000_000i128 * 1_000_000 * n_d;
    assert_eq!(lhs, 0);
    let expect = if lhs <= rhs { Some(3) } else { None };

    assert_eq!(pick(&ray, &vec![t]), expect);
}

/// When every target misses, pick returns none.
#[test]
fn pick_returns_none_when_all_miss() {
    let ray = Ray { origin: v(0, 0, 5_000_000), direction: v(0, 0, -1_000_000) };
    let targets = vec![
        HitTarget { id: 1, center: v(3_000_000, 0, 0), radius: 500_000 },
        HitTarget { id: 2, center: v(0, -2_000_000, 0), radius: 900_000 },
    ];
    assert_eq!(pick(&ray, &targets), None);
}

/// A zero-radius target centered on the ray's line is a boundary hit:
/// the computed scaled distance is exactly zero, not merely small.
#[test]
fn pick_zero_radius_boundary_hit() {
    let ray = Ray { origin: v(1_000_000, 2_000_000, 3_000_000), direction: v(250_000, -125_000, 750_000) };
    // Center = origin + 4 * direction.
    let targets = vec![HitTarget { id: 9, center: v(2_000_000, 1_500_000, 6_000_000), radius: 0 }];
    assert_eq!(pick(&ray, &targets), Some(9));
}

/// With several overlapping hits, the first target in order wins.
#[test]
fn pick_first_match_wins() {
    let ray = Ray { origin: v(0, 0, 5_000_000), direction: v(0, 0, -1_000_000) };
    let targets = vec![
        HitTarget { id: 10, center: v(0, 0, 1_000_000), radius: 1_000_000 },
        HitTarget { id: 11, center: v(0, 0, 0), radius: 1_000_000 },
    ];
    assert_eq!(pick(&ray, &targets), Some(10));
}

/// No targets, no pick.
#[test]
fn pick_empty_targets() {
    let ray = Ray { origin: v(0, 0, 5_000_000), direction: v(0, 0, -1_000_000) };
    assert_eq!(pick(&ray, &Vec::new()), None);
}
