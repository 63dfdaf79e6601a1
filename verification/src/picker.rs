//! Ray/sphere picking.
//!
//! A click becomes a ray; each clickable object is approximated by a sphere.
//! The test is the classic closest-approach comparison: with `oc` the vector
//! from the ray origin to the sphere center, the squared distance from the
//! center to the ray's line is `|oc|^2 - (oc . d)^2 / |d|^2`, and the sphere
//! is hit when that is at most `radius^2`. The library compares both sides
//! multiplied by `|d|^2`, which is the same test in exact integers and does
//! not ask the direction to be normalized. Deliberately, the test does not
//! check that the closest approach lies ahead of the origin, and `pick`
//! reports the first matching target in order, not the nearest.

use crate::vec3::{dot3, Vec3Fx, COORD_BOUND};
use vstd::prelude::*;

verus! {

/// A click ray: an origin and a (not necessarily unit) direction.
#[derive(Clone, Copy, PartialEq, Eq, Structural, Debug)]
pub struct Ray {
    pub origin: Vec3Fx,
    pub direction: Vec3Fx,
}

impl Ray {
    /// In-range coordinates and a direction that points somewhere.
    pub open spec fn wf(self) -> bool {
        &&& self.origin.wf()
        &&& self.direction.wf()
        &&& !self.direction.is_zero()
    }
}

/// A spherical stand-in for a clickable object.
#[derive(Clone, Copy, PartialEq, Eq, Structural, Debug)]
pub struct HitTarget {
    pub id: u64,
    pub center: Vec3Fx,
    pub radius: i64,
}

impl HitTarget {
    /// In-range center and a nonnegative in-range radius.
    pub open spec fn wf(self) -> bool {
        &&& self.center.wf()
        &&& 0 <= self.radius <= COORD_BOUND
    }
}

/// The vector from the ray origin to the target center.
pub open spec fn center_offset(ray: Ray, t: HitTarget) -> Vec3Fx {
    Vec3Fx {
        x: (t.center.x - ray.origin.x) as i64,
        y: (t.center.y - ray.origin.y) as i64,
        z: (t.center.z - ray.origin.z) as i64,
    }
}

/// The squared distance from the target center to the ray's line, scaled by
/// the squared length of the direction: `|oc|^2 |d|^2 - (oc . d)^2`.
pub open spec fn dist2_scaled(ray: Ray, t: HitTarget) -> int {
    let oc = center_offset(ray, t);
    let d = ray.direction;
    oc.norm2_spec() * d.norm2_spec() - oc.dot_spec(d) * oc.dot_spec(d)
}

/// The closest-approach test: the scaled squared distance is at most the
/// squared radius scaled the same way.
pub open spec fn target_hit(ray: Ray, t: HitTarget) -> bool {
    dist2_scaled(ray, t) <= t.radius * t.radius * ray.direction.norm2_spec()
}

/// The identifier of the first target the ray hits, in order.
pub open spec fn pick_spec(ray: Ray, ts: Seq<HitTarget>) -> Option<u64>
    decreases ts.len(),
{
    if ts.len() == 0 {
        None
    } else if target_hit(ray, ts[0]) {
        Some(ts[0].id)
    } else {
        pick_spec(ray, ts.drop_first())
    }
}

/// `pick_spec` comes up empty exactly when no target passes the hit test.
pub proof fn lemma_pick_none_iff_all_miss(ray: Ray, ts: Seq<HitTarget>)
    ensures
        pick_spec(ray, ts) is None <==> (forall|i: int|
            0 <= i < ts.len() ==> !target_hit(ray, ts[i])),
    decreases ts.len(),
{
    if ts.len() > 0 {
        let rest = ts.drop_first();
        lemma_pick_none_iff_all_miss(ray, rest);
        if forall|i: int| 0 <= i < ts.len() ==> !target_hit(ray, ts[i]) {
            assert(!target_hit(ray, ts[0]));
            assert forall|j: int| 0 <= j < rest.len() implies !target_hit(ray, rest[j]) by {
                assert(rest[j] == ts[j + 1]);
                assert(!target_hit(ray, ts[j + 1]));
            }
        }
        if pick_spec(ray, ts) is None {
            assert forall|i: int| 0 <= i < ts.len() implies !target_hit(ray, ts[i]) by {
                if i >= 1 {
                    assert(ts[i] == rest[i - 1]);
                    assert(!target_hit(ray, rest[i - 1]));
                }
            }
        }
    }
}

/// A target centered on the ray's line itself sits at scaled squared
/// distance zero, so even a radius of zero registers a boundary hit.
pub proof fn lemma_on_axis_boundary_hit(ray: Ray, t: HitTarget, k: int)
    requires
        ray.wf(),
        t.wf(),
        t.radius == 0,
        k >= 0,
        t.center.x == ray.origin.x + k * ray.direction.x,
        t.center.y == ray.origin.y + k * ray.direction.y,
        t.center.z == ray.origin.z + k * ray.direction.z,
    ensures
        dist2_scaled(ray, t) == 0,
        target_hit(ray, t),
{
    let oc = center_offset(ray, t);
    let d = ray.direction;
    let s = d.norm2_spec();
    let ox = oc.x as int;
    let oy = oc.y as int;
    let oz = oc.z as int;
    let dx = d.x as int;
    let dy = d.y as int;
    let dz = d.z as int;
    assert(ox == k * dx && oy == k * dy && oz == k * dz);
    assert((k * dx) * (k * dx) == (k * k) * (dx * dx)) by (nonlinear_arith);
    assert((k * dy) * (k * dy) == (k * k) * (dy * dy)) by (nonlinear_arith);
    assert((k * dz) * (k * dz) == (k * k) * (dz * dz)) by (nonlinear_arith);
    assert((k * dx) * dx == k * (dx * dx)) by (nonlinear_arith);
    assert((k * dy) * dy == k * (dy * dy)) by (nonlinear_arith);
    assert((k * dz) * dz == k * (dz * dz)) by (nonlinear_arith);
    assert((k * k) * (dx * dx) + (k * k) * (dy * dy) + (k * k) * (dz * dz) == (k * k) * s)
        by (nonlinear_arith)
        requires
            s == dx * dx + dy * dy + dz * dz,
    ;
    assert(k * (dx * dx) + k * (dy * dy) + k * (dz * dz) == k * s) by (nonlinear_arith)
        requires
            s == dx * dx + dy * dy + dz * dz,
    ;
    assert(ox * ox + oy * oy + oz * oz == (k * k) * s);
    assert(ox * dx + oy * dy + oz * dz == k * s);
    assert(oc.norm2_spec() == ox * ox + oy * oy + oz * oz);
    assert(oc.dot_spec(d) == ox * dx + oy * dy + oz * dz);
    assert(((k * k) * s) * s - (k * s) * (k * s) == 0) by (nonlinear_arith);
    assert(t.radius * t.radius * s == 0);
}

/// Resolves a ray against a set of targets: the identifier of the first
/// target whose sphere passes the closest-approach test, if any.
pub fn pick(ray: &Ray, targets: &Vec<HitTarget>) -> (r: Option<u64>)
    requires
        ray.wf(),
        forall|i: int| 0 <= i < targets@.len() ==> (#[trigger] targets@[i]).wf(),
    ensures
        r == pick_spec(*ray, targets@),
        r is None <==> (forall|i: int|
            0 <= i < targets@.len() ==> !target_hit(*ray, targets@[i])),
{
    proof {
        lemma_pick_none_iff_all_miss(*ray, targets@);
        assert(targets@.skip(0) =~= targets@);
    }
    let n = targets.len();
    let mut i: usize = 0;
    while i < n
        invariant
            n == targets@.len(),
            0 <= i <= n,
            ray.wf(),
            forall|j: int| 0 <= j < targets@.len() ==> (#[trigger] targets@[j]).wf(),
            pick_spec(*ray, targets@) == pick_spec(*ray, targets@.skip(i as int)),
        decreases n - i,
    {
        let t = targets[i];
        let hit = hit_test(ray, &t);
        proof {
            assert(targets@.skip(i as int)[0] == targets@[i as int]);
            assert(targets@.skip(i as int).drop_first() =~= targets@.skip(i as int + 1));
        }
        if hit {
            return Some(t.id);
        }
        i = i + 1;
    }
    proof {
        assert(targets@.skip(n as int).len() == 0);
    }
    None
}

/// Runs the closest-approach test for one target.
fn hit_test(ray: &Ray, t: &HitTarget) -> (r: bool)
    requires
        ray.wf(),
        t.wf(),
    ensures
        r == target_hit(*ray, *t),
{
    let oc = Vec3Fx {
        x: t.center.x - ray.origin.x,
        y: t.center.y - ray.origin.y,
        z: t.center.z - ray.origin.z,
    };
    let d = ray.direction;
    let noc: i64 = dot3(&oc, &oc);
    let nd: i64 = dot3(&d, &d);
    let tca: i64 = dot3(&oc, &d);
    proof {
        let big = 480_000_000_000_000_000int;
        crate::fx::lemma_product_bound(noc as int, nd as int, big, big);
        crate::fx::lemma_product_bound(tca as int, tca as int, big, big);
        crate::fx::lemma_product_bound(t.radius as int, t.radius as int, 100_000_000, 100_000_000);
        crate::fx::lemma_product_bound(
            (t.radius as int) * (t.radius as int),
            nd as int,
            10_000_000_000_000_000,
            big,
        );
    }
    let lhs: i128 = (noc as i128) * (nd as i128) - (tca as i128) * (tca as i128);
    let rhs: i128 = ((t.radius as i128) * (t.radius as i128)) * (nd as i128);
    lhs <= rhs
}

} // verus!
