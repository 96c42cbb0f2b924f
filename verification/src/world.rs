//! The world: an ordered collection of spheres, its aggregate hit test,
//! and the per-frame physics pipeline.

use vstd::prelude::*;
use crate::hit::Hit;
use crate::physics::{
    PhysicsSettings, bounce, dim, friction, gravitate, move_positions,
    solve_non_overlapping_constraint, world_time_from_real_time,
    spec_world_time, spec_move_positions, spec_gravitate, spec_bounce,
    spec_friction_factor, spec_dim_value, spec_moved_sphere, spec_gravitated_sphere,
    spec_frictioned_sphere, spec_dimmed_sphere,
    same_identity, same_identities, same_placement, no_pair_overlaps,
    lemma_bounce_placements,
};
use crate::fixed::fsub;
use crate::fixed::fx_sub;
use crate::ray::Ray;
use crate::sphere::{Sphere, spec_sphere_hit};
use crate::vector3d::vscale;

verus! {

/// What the scan over spheres `i..` returns, given the closest hit found
/// among spheres `..i` (`cur`, with ray parameter bound `closest`).
pub open spec fn spec_world_hit_scan(
    spheres: Seq<Sphere>,
    ray: Ray,
    t_min: int,
    i: int,
    closest: int,
    cur: Option<Hit>,
) -> Option<Hit>
    decreases spheres.len() - i,
{
    if i < 0 || i >= spheres.len() {
        cur
    } else {
        match spec_sphere_hit(spheres[i], ray, t_min, closest) {
            Some(h) => spec_world_hit_scan(spheres, ray, t_min, i + 1, h.t as int, Some(h)),
            None => spec_world_hit_scan(spheres, ray, t_min, i + 1, closest, cur),
        }
    }
}

/// What `World::hit` returns: the scan started with no hit and bound `t_max`.
pub open spec fn spec_world_hit(
    spheres: Seq<Sphere>,
    ray: Ray,
    t_min: int,
    t_max: int,
) -> Option<Hit> {
    spec_world_hit_scan(spheres, ray, t_min, 0, t_max, None)
}

/// The sphere scene; order carries no physical meaning.
pub struct World {
    pub spheres: Vec<Sphere>,
}

impl World {
    /// The closest hit of `ray` against any sphere, with parameter strictly
    /// between `t_min` and `t_max`; `None` when every sphere misses.
    pub fn hit(&self, ray: &Ray, t_min: i64, t_max: i64) -> (r: Option<Hit>)
        ensures
            r == spec_world_hit(self.spheres@, *ray, t_min as int, t_max as int),
    {
        let mut closest_so_far = t_max;
        let mut rec: Option<Hit> = None;
        let n = self.spheres.len();
        let mut i: usize = 0;
        while i < n
            invariant
                n == self.spheres@.len(),
                i <= n,
                spec_world_hit(self.spheres@, *ray, t_min as int, t_max as int)
                    == spec_world_hit_scan(
                    self.spheres@,
                    *ray,
                    t_min as int,
                    i as int,
                    closest_so_far as int,
                    rec,
                ),
            decreases n - i,
        {
            match self.spheres[i].hit(ray, t_min, closest_so_far) {
                Some(temp_rec) => {
                    closest_so_far = temp_rec.t;
                    rec = Some(temp_rec);
                }
                None => {}
            }
            i = i + 1;
        }
        rec
    }

    /// One physics step: move, gravitate, bounce, separate overlaps, apply
    /// friction, decay the glow — in that order, which is part of the
    /// contract. The result is a brand-new world; the input is untouched.
    ///
    /// The step interval is `world_time(t_real) - world_time(t_real_previous_frame)`
    /// and must be positive; that is the caller's obligation.
    pub fn advance(&self, t_real: i64, t_real_previous_frame: i64, physics: &PhysicsSettings)
        -> (r: World)
        requires
            spec_world_time(t_real as int) > spec_world_time(t_real_previous_frame as int),
        ensures
            r.spheres@.len() == self.spheres@.len(),
            same_identities(self.spheres@, r.spheres@),
            forall|k: int|
                0 <= k < self.spheres@.len() ==> (#[trigger] r.spheres@[k]).center_old
                    == spec_pre_solve(
                    self.spheres@,
                    spec_advance_delta(t_real as int, t_real_previous_frame as int),
                    *physics,
                )[k].center_old,
            forall|k: int|
                0 <= k < self.spheres@.len() ==> (#[trigger] r.spheres@[k]).speed == vscale(
                    spec_pre_solve(
                        self.spheres@,
                        spec_advance_delta(t_real as int, t_real_previous_frame as int),
                        *physics,
                    )[k].speed,
                    spec_friction_factor(
                        spec_advance_delta(t_real as int, t_real_previous_frame as int),
                        physics.friction as int,
                    ),
                ),
            forall|k: int|
                0 <= k < self.spheres@.len() ==> (#[trigger] r.spheres@[k]).extra_brightness
                    as int == spec_dim_value(
                    spec_pre_solve(
                        self.spheres@,
                        spec_advance_delta(t_real as int, t_real_previous_frame as int),
                        *physics,
                    )[k].extra_brightness as int,
                    spec_advance_delta(t_real as int, t_real_previous_frame as int),
                    physics.dim_factor as int,
                    physics.dim_constant as int,
                ),
            forall|k: int|
                0 <= k < self.spheres@.len() ==> (#[trigger] r.spheres@[k]).extra_brightness
                    >= 0,
            no_pair_overlaps(
                spec_pre_solve(
                    self.spheres@,
                    spec_advance_delta(t_real as int, t_real_previous_frame as int),
                    *physics,
                ),
            ) ==> forall|k: int|
                0 <= k < self.spheres@.len() ==> (#[trigger] r.spheres@[k]).center
                    == spec_pre_solve(
                    self.spheres@,
                    spec_advance_delta(t_real as int, t_real_previous_frame as int),
                    *physics,
                )[k].center,
    {
        let delta_t = fx_sub(
            world_time_from_real_time(t_real),
            world_time_from_real_time(t_real_previous_frame),
        );
        let moved = move_positions(&self.spheres, delta_t);
        let gravitated = gravitate(&moved, delta_t, physics.gravity_constant);
        let bounced = bounce(
            &gravitated,
            physics.bounciness,
            physics.flash_strength,
            physics.bounce_round_to_zero_threshold,
        );
        let solver_result = solve_non_overlapping_constraint(&bounced);
        let solved = solver_result.0;
        let slowed = friction(&solved, delta_t, physics.friction);
        let dimmed = dim(&slowed, delta_t, physics.dim_factor, physics.dim_constant);
        proof {
            let s0 = self.spheres@;
            let dt = spec_advance_delta(t_real as int, t_real_previous_frame as int);
            assert(bounced@ == spec_pre_solve(s0, dt, *physics));
            lemma_bounce_placements(
                gravitated@,
                physics.bounciness as int,
                physics.flash_strength as int,
                physics.bounce_round_to_zero_threshold as int,
            );
            assert forall|k: int| 0 <= k < s0.len() implies same_identity(s0[k], dimmed@[k]) by {
                assert(moved@[k] == spec_moved_sphere(s0[k], dt));
                assert(gravitated@[k] == spec_gravitated_sphere(moved@, k, dt,
                    physics.gravity_constant as int));
                assert(same_placement(gravitated@[k], bounced@[k]));
                assert(slowed@[k] == spec_frictioned_sphere(solved@[k], dt,
                    physics.friction as int));
                assert(dimmed@[k] == spec_dimmed_sphere(slowed@[k], dt,
                    physics.dim_factor as int, physics.dim_constant as int));
            }
        }
        World { spheres: dimmed }
    }
}

/// The step interval of one advance call.
pub open spec fn spec_advance_delta(t_real: int, t_real_previous_frame: int) -> int {
    fsub(spec_world_time(t_real), spec_world_time(t_real_previous_frame))
}

/// The sphere list after the stages that precede the overlap solver: moved,
/// gravitated, bounced.
pub open spec fn spec_pre_solve(s: Seq<Sphere>, delta_t: int, physics: PhysicsSettings) -> Seq<
    Sphere,
> {
    spec_bounce(
        spec_gravitate(spec_move_positions(s, delta_t), delta_t, physics.gravity_constant as int),
        physics.bounciness as int,
        physics.flash_strength as int,
        physics.bounce_round_to_zero_threshold as int,
    )
}

} // verus!
