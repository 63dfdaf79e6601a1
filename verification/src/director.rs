//! The animation director.
//!
//! The director owns the clickable targets and a registry of curves, each
//! bound to the entity whose transform it drives and to the target whose
//! click activates it. `on_click` resolves a ray against the targets and
//! activates every curve bound to the hit target — one click may start
//! several curves on several entities — while a curve already mid-run is
//! left to finish, except the jiggle, which a click always restarts.
//! `tick` advances every curve by the
//! frame's elapsed time and reports one pose per curve; poses of curves
//! that drive the same entity are composed with `net_pose`, not overwritten.

use crate::curve::{activate_rel, advance_rel, AnimationCurve, CurveKind, Pose, TIME_BOUND};
use crate::picker::{pick, pick_spec, HitTarget, Ray};
use crate::vec3::Vec3Fx;
use vstd::prelude::*;

verus! {

/// Most curves one director will drive: keeps composed poses far from the
/// edge of the machine's integer range.
pub const MAX_CURVES: usize = 1024;

/// One entry of the registry: the driven entity, the activating target,
/// and the curve itself.
pub struct CurveBinding {
    pub entity: u64,
    pub target_id: u64,
    pub curve: AnimationCurve,
}

/// One entry of a frame's output: the pose to write onto an entity's
/// transform.
#[derive(Clone, Copy, PartialEq, Eq, Structural, Debug)]
pub struct PoseUpdate {
    pub entity: u64,
    pub pose: Pose,
}

/// Whether a click may restart a curve: an idle curve of any kind starts,
/// but a curve already mid-run is left alone — except the jiggle, which
/// always restarts.
pub open spec fn retrigger_allowed(c: AnimationCurve) -> bool {
    c.kind is Jiggle || c.state is Idle
}

/// How one click relates a binding before and after: a curve bound to the
/// hit target is activated — unless it is mid-run and its kind refuses the
/// re-trigger — and every other curve is untouched.
pub open spec fn click_binding_rel(pre: CurveBinding, post: CurveBinding, hit: Option<
    u64,
>) -> bool {
    &&& post.entity == pre.entity
    &&& post.target_id == pre.target_id
    &&& if hit == Some(pre.target_id) && retrigger_allowed(pre.curve) {
        activate_rel(pre.curve, post.curve)
    } else {
        post.curve == pre.curve
    }
}

/// Two poses composed: offsets add, rolls add.
pub open spec fn pose_plus_spec(a: Pose, b: Pose) -> Pose {
    Pose {
        pos: Vec3Fx {
            x: (a.pos.x + b.pos.x) as i64,
            y: (a.pos.y + b.pos.y) as i64,
            z: (a.pos.z + b.pos.z) as i64,
        },
        rot: (a.rot + b.rot) as i64,
    }
}

/// The identity pose.
pub open spec fn identity_pose_spec() -> Pose {
    Pose { pos: Vec3Fx { x: 0, y: 0, z: 0 }, rot: 0 }
}

/// The net pose of one entity over a frame's output: the composition, in
/// order, of every pose reported for it.
pub open spec fn net_pose_spec(out: Seq<PoseUpdate>, entity: u64) -> Pose
    decreases out.len(),
{
    if out.len() == 0 {
        identity_pose_spec()
    } else {
        let prev = net_pose_spec(out.drop_last(), entity);
        if out.last().entity == entity {
            pose_plus_spec(prev, out.last().pose)
        } else {
            prev
        }
    }
}

/// The director: the clickable targets and the curve registry.
pub struct Director {
    pub targets: Vec<HitTarget>,
    pub curves: Vec<CurveBinding>,
}

impl Director {
    /// Every target and curve well-formed, and few enough curves that
    /// composed poses cannot overflow.
    pub open spec fn wf(self) -> bool {
        &&& forall|i: int| 0 <= i < self.targets@.len() ==> (#[trigger] self.targets@[i]).wf()
        &&& forall|j: int| 0 <= j < self.curves@.len() ==> (#[trigger] self.curves@[j]).curve.wf()
        &&& self.curves@.len() <= MAX_CURVES
    }

    /// An empty director.
    pub fn new() -> (d: Director)
        ensures
            d.wf(),
            d.targets@ == Seq::<HitTarget>::empty(),
            d.curves@ == Seq::<CurveBinding>::empty(),
    {
        Director { targets: Vec::new(), curves: Vec::new() }
    }

    /// Registers a clickable target, rejecting one with out-of-range
    /// geometry.
    pub fn add_target(&mut self, t: HitTarget) -> (ok: bool)
        requires
            old(self).wf(),
        ensures
            final(self).wf(),
            final(self).curves@ == old(self).curves@,
            ok == t.wf(),
            ok ==> final(self).targets@ == old(self).targets@.push(t),
            !ok ==> final(self).targets@ == old(self).targets@,
    {
        if t.center.x < -crate::vec3::COORD_BOUND || t.center.x > crate::vec3::COORD_BOUND
            || t.center.y < -crate::vec3::COORD_BOUND || t.center.y > crate::vec3::COORD_BOUND
            || t.center.z < -crate::vec3::COORD_BOUND || t.center.z > crate::vec3::COORD_BOUND
            || t.radius < 0 || t.radius > crate::vec3::COORD_BOUND {
            false
        } else {
            self.targets.push(t);
            true
        }
    }

    /// Binds a curve to the entity it drives and the target that triggers
    /// it, rejecting the binding when the registry is full.
    pub fn bind(&mut self, entity: u64, target_id: u64, curve: AnimationCurve) -> (ok: bool)
        requires
            old(self).wf(),
            curve.wf(),
        ensures
            final(self).wf(),
            final(self).targets@ == old(self).targets@,
            ok == (old(self).curves@.len() < MAX_CURVES),
            ok ==> final(self).curves@ == old(self).curves@.push(
                CurveBinding { entity, target_id, curve },
            ),
            !ok ==> final(self).curves@ == old(self).curves@,
    {
        if self.curves.len() < MAX_CURVES {
            self.curves.push(CurveBinding { entity, target_id, curve });
            true
        } else {
            false
        }
    }

    /// Resolves a click ray against the targets; on a hit, activates every
    /// curve bound to the hit target, subject to each kind's re-trigger
    /// policy. Returns what the picker saw.
    pub fn on_click(&mut self, ray: &Ray) -> (hit: Option<u64>)
        requires
            old(self).wf(),
            ray.wf(),
        ensures
            final(self).wf(),
            final(self).targets@ == old(self).targets@,
            hit == pick_spec(*ray, old(self).targets@),
            final(self).curves@.len() == old(self).curves@.len(),
            forall|j: int|
                0 <= j < old(self).curves@.len() ==> click_binding_rel(
                    old(self).curves@[j],
                    #[trigger] final(self).curves@[j],
                    hit,
                ),
    {
        let hit = pick(ray, &self.targets);
        if let Some(id) = hit {
            let n = self.curves.len();
            let mut j: usize = 0;
            while j < n
                invariant
                    n == old(self).curves@.len(),
                    0 <= j <= n,
                    hit == Some(id),
                    self.targets@ == old(self).targets@,
                    self.curves@.len() == n,
                    forall|i: int| 0 <= i < self.targets@.len() ==> (#[trigger] self.targets@[i]).wf(),
                    forall|k: int|
                        0 <= k < self.curves@.len() ==> (#[trigger] self.curves@[k]).curve.wf(),
                    forall|k: int|
                        0 <= k < j ==> click_binding_rel(
                            old(self).curves@[k],
                            #[trigger] self.curves@[k],
                            hit,
                        ),
                    forall|k: int| j <= k < n ==> #[trigger] self.curves@[k] == old(self).curves@[k],
                decreases n - j,
            {
                if self.curves[j].target_id == id {
                    let always_restarts = match &self.curves[j].curve.kind {
                        CurveKind::Jiggle { .. } => true,
                        _ => false,
                    };
                    if always_restarts || !self.curves[j].curve.is_active() {
                        self.curves[j].curve.activate();
                    }
                }
                j = j + 1;
            }
        }
        hit
    }

    /// Advances every curve by the frame's elapsed time and reports one
    /// pose per curve, in registry order, each tagged with its entity.
    pub fn tick(&mut self, dt: i64) -> (out: Vec<PoseUpdate>)
        requires
            old(self).wf(),
            0 <= dt <= TIME_BOUND,
        ensures
            final(self).wf(),
            final(self).targets@ == old(self).targets@,
            final(self).curves@.len() == old(self).curves@.len(),
            out@.len() == old(self).curves@.len(),
            forall|j: int|
                0 <= j < old(self).curves@.len() ==> {
                    &&& (#[trigger] out@[j]).entity == old(self).curves@[j].entity
                    &&& out@[j].pose.wf()
                    &&& final(self).curves@[j].entity == old(self).curves@[j].entity
                    &&& final(self).curves@[j].target_id == old(self).curves@[j].target_id
                    &&& advance_rel(
                        old(self).curves@[j].curve,
                        final(self).curves@[j].curve,
                        dt as int,
                        out@[j].pose,
                    )
                },
    {
        let n = self.curves.len();
        let mut out: Vec<PoseUpdate> = Vec::new();
        let mut j: usize = 0;
        while j < n
            invariant
                n == old(self).curves@.len(),
                0 <= j <= n,
                0 <= dt <= TIME_BOUND,
                self.targets@ == old(self).targets@,
                self.curves@.len() == n,
                out@.len() == j,
                forall|i: int| 0 <= i < self.targets@.len() ==> (#[trigger] self.targets@[i]).wf(),
                forall|k: int|
                    0 <= k < self.curves@.len() ==> (#[trigger] self.curves@[k]).curve.wf(),
                forall|k: int|
                    0 <= k < j ==> {
                        &&& (#[trigger] out@[k]).entity == old(self).curves@[k].entity
                        &&& out@[k].pose.wf()
                        &&& self.curves@[k].entity == old(self).curves@[k].entity
                        &&& self.curves@[k].target_id == old(self).curves@[k].target_id
                        &&& advance_rel(
                            old(self).curves@[k].curve,
                            self.curves@[k].curve,
                            dt as int,
                            out@[k].pose,
                        )
                    },
                forall|k: int| j <= k < n ==> #[trigger] self.curves@[k] == old(self).curves@[k],
            decreases n - j,
        {
            let entity = self.curves[j].entity;
            let pose = self.curves[j].curve.advance(dt);
            out.push(PoseUpdate { entity, pose });
            j = j + 1;
        }
        out
    }
}

/// Composes, in order, every pose a frame's output reports for one entity.
pub fn net_pose(out: &Vec<PoseUpdate>, entity: u64) -> (p: Pose)
    requires
        out@.len() <= MAX_CURVES,
        forall|j: int| 0 <= j < out@.len() ==> (#[trigger] out@[j]).pose.wf(),
    ensures
        p == net_pose_spec(out@, entity),
{
    let n = out.len();
    let mut p = Pose { pos: Vec3Fx { x: 0, y: 0, z: 0 }, rot: 0 };
    let mut j: usize = 0;
    while j < n
        invariant
            n == out@.len(),
            n <= MAX_CURVES,
            0 <= j <= n,
            forall|k: int| 0 <= k < out@.len() ==> (#[trigger] out@[k]).pose.wf(),
            p == net_pose_spec(out@.take(j as int), entity),
            -4_000_000_000 * j <= p.pos.x <= 4_000_000_000 * j,
            -4_000_000_000 * j <= p.pos.y <= 4_000_000_000 * j,
            -4_000_000_000 * j <= p.pos.z <= 4_000_000_000 * j,
            -6_283_184 * j <= p.rot <= 6_283_184 * j,
        decreases n - j,
    {
        proof {
            assert(out@.take(j as int + 1).drop_last() =~= out@.take(j as int));
            assert(out@.take(j as int + 1).last() == out@[j as int]);
        }
        if out[j].entity == entity {
            let q = out[j].pose;
            p =
            Pose {
                pos: Vec3Fx { x: p.pos.x + q.pos.x, y: p.pos.y + q.pos.y, z: p.pos.z + q.pos.z },
                rot: p.rot + q.rot,
            };
        }
        j = j + 1;
    }
    proof {
        assert(out@.take(n as int) =~= out@);
    }
    p
}

} // verus!
