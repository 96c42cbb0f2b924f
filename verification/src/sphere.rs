//! Spheres: geometry, material and kinematic state, with analytic
//! ray intersection under per-sample motion-blur interpolation.

use vstd::prelude::*;
use crate::color::{Color, cadd, cscale};
use crate::fixed::{fadd, fsub, fneg, fmul, fdiv, fsqrt, absv, tdiv, FX_ONE};
use crate::fixed::{fx_add, fx_sub, fx_neg, fx_mul, fx_div, fx_sqrt};
use crate::fixed::{lemma_fmul_zero, lemma_fsqrt_bounds};
use crate::hit::{Hit, spec_front_face, spec_face_normal, face_normal};
use crate::material::Material;
use crate::ray::{Ray, ray_at};
use crate::vector3d::{
    Vector3d, vzero, vsub, vdiv, vdot, vlen_sq, vblend, in_interval,
    dot, blend_vectors, is_in_interval,
};

verus! {

/// A sphere of the scene. The radius, mass, id and material are fixed at
/// creation; the kinematic fields are replaced each physics step.
#[derive(Clone, Copy, Debug, PartialEq, Eq, Structural)]
pub struct Sphere {
    /// Identity of the sphere, unique within a world.
    pub id: u64,
    /// Center after the latest physics step.
    pub center: Vector3d,
    /// Radius; never changes once the sphere exists.
    pub radius: i64,
    pub material: Material,
    pub speed: Vector3d,
    /// Mass, fixed at creation as the cube of the radius.
    pub mass: i64,
    /// Transient glow raised by hard collisions, decaying toward zero.
    pub extra_brightness: i64,
    /// Center before the latest physics step, for motion-blur interpolation.
    pub center_old: Vector3d,
}

/// The center at an instant of the inter-frame interval: current and
/// previous centers interpolated by the ray's frame time.
pub open spec fn spec_center_at(s: Sphere, frame_time: int) -> Vector3d {
    vblend(s.center, s.center_old, frame_time)
}

/// The material as resolved at hit time: the transient glow brightens the
/// albedo, lowers the reflectiveness and roughens the specular lobe.
pub open spec fn spec_resolved_material(s: Sphere) -> Material {
    Material {
        albedo: cadd(s.material.albedo, cscale(s.material.albedo, s.extra_brightness as int)),
        reflectiveness: fsub(s.material.reflectiveness as int, s.extra_brightness as int) as i64,
        reflection_fuzz: fadd(s.material.reflection_fuzz as int, s.extra_brightness as int) as i64,
    }
}

/// The hit record for a ray meeting sphere `s` at parameter `t`, with the
/// sphere's center taken at the ray's frame time.
pub open spec fn spec_calculate_hit(s: Sphere, ray: Ray, t: int, center: Vector3d) -> Hit {
    let p = ray_at(ray, t);
    let outward_normal = vdiv(vsub(p, center), s.radius as int);
    Hit {
        position: p,
        t: t as i64,
        normal: spec_face_normal(ray, outward_normal),
        front_face: spec_front_face(ray, outward_normal),
        material: spec_resolved_material(s),
    }
}

/// The discriminant of the quadratic the intersection solves.
pub open spec fn spec_hit_discriminant(s: Sphere, ray: Ray) -> int {
    let oc = vsub(ray.origin, spec_center_at(s, ray.frame_time as int));
    let half_b = vdot(oc, ray.direction);
    let c = fsub(vlen_sq(oc), fmul(s.radius as int, s.radius as int));
    fsub(fmul(half_b, half_b), fmul(vlen_sq(ray.direction), c))
}

/// What `Sphere::hit` returns: the nearer root of the quadratic if it lies
/// in `(t_min, t_max)`, else the farther root if it does, else a miss.
pub open spec fn spec_sphere_hit(s: Sphere, ray: Ray, t_min: int, t_max: int) -> Option<Hit> {
    let center = spec_center_at(s, ray.frame_time as int);
    let oc = vsub(ray.origin, center);
    let dir_sq_len = vlen_sq(ray.direction);
    let half_b = vdot(oc, ray.direction);
    let disc = spec_hit_discriminant(s, ray);
    if disc > 0 {
        let root = fsqrt(disc);
        let t_front = fdiv(fsub(fneg(half_b), root), dir_sq_len);
        if in_interval(t_front, t_min, t_max) {
            Some(spec_calculate_hit(s, ray, t_front, center))
        } else {
            let t_back = fdiv(fadd(fneg(half_b), root), dir_sq_len);
            if in_interval(t_back, t_min, t_max) {
                Some(spec_calculate_hit(s, ray, t_back, center))
            } else {
                None
            }
        }
    } else {
        None
    }
}

/// A sphere of radius `r` centered at the origin, hit by a ray fired from
/// distance `d > r` straight along the connecting line, reports a
/// front-face hit at `t = d - r`, up to one millionth of a unit of
/// truncation. Radii below half a unit, and distances beyond a million
/// units, are left out: there truncation or the fixed-point range could
/// bend the bound.
pub proof fn lemma_axial_hit(s: Sphere, ray: Ray, t_min: int, t_max: int, d: int, r: int)
    requires
        s.center == vzero(),
        s.center_old == vzero(),
        s.radius as int == r,
        500_000 <= r < d,
        d <= 1_000_000_000_000,
        ray.origin == (Vector3d { x: 0, y: 0, z: d as i64 }),
        ray.direction == (Vector3d { x: 0, y: 0, z: -1_000_000i64 }),
        0 <= t_min < d - r,
        d - r + 1 < t_max,
    ensures
        spec_sphere_hit(s, ray, t_min, t_max) is Some,
        spec_sphere_hit(s, ray, t_min, t_max)->Some_0.front_face,
        d - r <= spec_sphere_hit(s, ray, t_min, t_max)->Some_0.t as int <= d - r + 1,
{
    let one = FX_ONE as int;
    let ft = ray.frame_time as int;

    // The sphere sits still at the origin at every instant.
    lemma_fmul_zero(ft);
    lemma_fmul_zero(fsub(one, ft));
    assert(spec_center_at(s, ft) == vzero());

    let oc = vsub(ray.origin, vzero());
    assert(oc == ray.origin);

    // Lengths and dot products along the axis.
    lemma_fmul_zero(0);
    assert((-1_000_000) * (-1_000_000) == 1_000_000_000_000) by (nonlinear_arith);
    assert(tdiv(1_000_000_000_000, 1_000_000) == 1_000_000);
    assert(vlen_sq(ray.direction) == one);

    vstd::arithmetic::div_mod::lemma_div_multiples_vanish(d, 1_000_000);
    assert(d * (-1_000_000) == -(1_000_000 * d)) by (nonlinear_arith);
    assert(absv(d * (-1_000_000)) == 1_000_000 * d);
    assert(tdiv(d * (-1_000_000), one) == -d);
    assert(fmul(d, -1_000_000) == -d);
    let half_b = vdot(oc, ray.direction);
    assert(half_b == -d);

    // Squared terms, without saturation.
    let q_d = tdiv(d * d, one);
    let q_r = tdiv(r * r, one);
    assert(0 <= d * d <= 1_000_000_000_000_000_000_000_000) by (nonlinear_arith)
        requires
            0 < d <= 1_000_000_000_000,
    ;
    assert(0 <= r * r < d * d) by (nonlinear_arith)
        requires
            0 < r < d,
    ;
    vstd::arithmetic::div_mod::lemma_div_is_ordered(d * d, 1_000_000_000_000_000_000_000_000,
        1_000_000);
    vstd::arithmetic::div_mod::lemma_div_is_ordered(r * r, d * d, 1_000_000);
    assert(q_d == (d * d) / 1_000_000);
    assert(q_r == (r * r) / 1_000_000);
    assert(q_d <= 1_000_000_000_000_000_000);
    assert(fmul(d, d) == q_d);
    assert(fmul(r, r) == q_r);
    assert(vlen_sq(oc) == q_d);

    let c = fsub(q_d, q_r);
    assert(c == q_d - q_r);

    // The discriminant collapses to the squared radius term.
    assert((-d) * (-d) == d * d) by (nonlinear_arith);
    assert(fmul(half_b, half_b) == q_d);
    vstd::arithmetic::div_mod::lemma_div_multiples_vanish(q_d - q_r, 1_000_000);
    assert(1_000_000 * c == c * 1_000_000) by (nonlinear_arith);
    assert(fmul(one, c) == c);
    let disc = spec_hit_discriminant(s, ray);
    assert(disc == q_r);

    // The discriminant is positive: the ray cannot miss.
    assert(500_000 * 500_000 <= r * r) by (nonlinear_arith)
        requires
            500_000 <= r,
    ;
    vstd::arithmetic::div_mod::lemma_div_is_ordered(250_000_000_000, r * r, 1_000_000);
    assert(q_r >= 250_000);

    // The computed root lies within one millionth of the radius.
    let root = fsqrt(disc);
    lemma_fsqrt_bounds(q_r);
    vstd::arithmetic::div_mod::lemma_fundamental_div_mod(r * r, 1_000_000);
    let rem = (r * r) % 1_000_000;
    vstd::arithmetic::div_mod::lemma_mod_bound(r * r, 1_000_000);
    assert(q_r * 1_000_000 == r * r - rem) by (nonlinear_arith)
        requires
            r * r == 1_000_000 * q_r + rem,
    ;
    assert(root <= r) by (nonlinear_arith)
        requires
            0 <= root,
            0 < r,
            root * root <= r * r,
    ;
    assert((r - 1) * (r - 1) <= q_r * 1_000_000) by (nonlinear_arith)
        requires
            q_r * 1_000_000 == r * r - rem,
            rem <= 2 * r - 1,
            r >= 1,
    ;
    assert(r - 1 <= root) by (nonlinear_arith)
        requires
            0 <= r - 1,
            0 <= root,
            (r - 1) * (r - 1) < (root + 1) * (root + 1),
    ;

    // The near intersection parameter is within a millionth of d - r.
    assert(fneg(half_b) == d);
    let tf = fsub(d, root);
    assert(tf == d - root);
    vstd::arithmetic::div_mod::lemma_div_multiples_vanish(d - root, 1_000_000);
    assert((d - root) * 1_000_000 == 1_000_000 * (d - root)) by (nonlinear_arith);
    assert(absv((d - root) * 1_000_000) == 1_000_000 * (d - root));
    assert(tdiv((d - root) * 1_000_000, one) == d - root);
    let t_front = fdiv(tf, one);
    assert(t_front == d - root);
    assert(d - r <= t_front <= d - r + 1);
    assert(in_interval(t_front, t_min, t_max));

    // The hit is on the front face: the outward normal points back along
    // the ray.
    let p = ray_at(ray, t_front);
    lemma_fmul_zero(t_front);
    assert(t_front * (-1_000_000) == -(1_000_000 * t_front)) by (nonlinear_arith);
    vstd::arithmetic::div_mod::lemma_div_multiples_vanish(t_front, 1_000_000);
    assert(fmul(-1_000_000, t_front) == fmul(t_front, -1_000_000));
    assert(absv(t_front * (-1_000_000)) == 1_000_000 * t_front);
    assert(tdiv(t_front * (-1_000_000), one) == -t_front);
    assert(fmul(-1_000_000, t_front) == -t_front);
    assert(p == (Vector3d { x: 0, y: 0, z: (d - t_front) as i64 }));
    assert(d - t_front == root);
    let outward = vdiv(vsub(p, vzero()), r);
    assert(tdiv(0, r) == 0);
    assert(fdiv(0, r) == 0);
    let oz = fdiv(root, r);
    assert(root * 1_000_000 >= r) by (nonlinear_arith)
        requires
            root >= r - 1,
            r >= 2,
    ;
    assert(absv(root * 1_000_000) == root * 1_000_000) by (nonlinear_arith)
        requires
            root >= 0,
    ;
    vstd::arithmetic::div_mod::lemma_div_is_ordered(r, root * 1_000_000, r);
    vstd::arithmetic::div_mod::lemma_div_by_self(r);
    assert((root * 1_000_000) / r >= 1);
    assert(oz >= 1);
    assert(outward == (Vector3d { x: 0, y: 0, z: oz as i64 }));
    assert(oz * (-1_000_000) == -(1_000_000 * oz)) by (nonlinear_arith);
    vstd::arithmetic::div_mod::lemma_div_multiples_vanish(oz, 1_000_000);
    assert(absv(oz * (-1_000_000)) == 1_000_000 * oz) by (nonlinear_arith)
        requires
            oz >= 0,
    ;
    assert(tdiv((-1_000_000) * oz, one) == tdiv(oz * (-1_000_000), one)) by (nonlinear_arith);
    assert(tdiv(oz * (-1_000_000), one) == -oz);
    assert(fmul(-1_000_000, oz) == -oz);
    assert(vdot(ray.direction, outward) == -oz);
    assert(spec_front_face(ray, outward));

    let hit = spec_calculate_hit(s, ray, t_front, vzero());
    assert(hit.front_face);
    assert(hit.t as int == t_front);
    assert(spec_sphere_hit(s, ray, t_min, t_max) == Some(hit));
}

impl Sphere {
    fn calculate_hit(&self, ray: &Ray, t: i64, center: &Vector3d) -> (r: Hit)
        ensures
            r == spec_calculate_hit(*self, *ray, t as int, *center),
    {
        let p = ray.at(t);
        let outward_normal = p.sub(center).div(self.radius);
        let (front_face, normal) = face_normal(ray, &outward_normal);
        Hit {
            position: p,
            t,
            normal,
            front_face,
            material: Material {
                albedo: self.material.albedo.add(
                    &self.material.albedo.scale(self.extra_brightness),
                ),
                reflectiveness: fx_sub(self.material.reflectiveness, self.extra_brightness),
                reflection_fuzz: fx_add(self.material.reflection_fuzz, self.extra_brightness),
            },
        }
    }

    /// Intersect a ray with this sphere, reporting the nearest hit whose
    /// parameter lies strictly between `t_min` and `t_max`.
    pub fn hit(&self, ray: &Ray, t_min: i64, t_max: i64) -> (r: Option<Hit>)
        ensures
            r == spec_sphere_hit(*self, *ray, t_min as int, t_max as int),
    {
        let frame_time_center = self.center_at_frame_time(ray.frame_time);
        let ray_origin_to_center = ray.origin.sub(&frame_time_center);
        let direction_squared_length = ray.direction.length_squared();
        let half_b = dot(&ray_origin_to_center, &ray.direction);
        let c = fx_sub(
            ray_origin_to_center.length_squared(),
            fx_mul(self.radius, self.radius),
        );
        let discriminant = fx_sub(fx_mul(half_b, half_b), fx_mul(direction_squared_length, c));
        if discriminant > 0 {
            let root = fx_sqrt(discriminant);
            let t_front = fx_div(fx_sub(fx_neg(half_b), root), direction_squared_length);
            if is_in_interval(t_front, t_min, t_max) {
                return Some(self.calculate_hit(ray, t_front, &frame_time_center));
            }
            let t_back = fx_div(fx_add(fx_neg(half_b), root), direction_squared_length);
            if is_in_interval(t_back, t_min, t_max) {
                return Some(self.calculate_hit(ray, t_back, &frame_time_center));
            }
        }
        None
    }

    /// The center at an instant of the inter-frame interval.
    pub fn center_at_frame_time(&self, frame_time: i64) -> (r: Vector3d)
        ensures
            r == spec_center_at(*self, frame_time as int),
    {
        blend_vectors(&self.center, &self.center_old, frame_time)
    }
}

} // verus!
