//! Materials and probabilistic scattering.
//!
//! A material scatters diffusely with probability `1 - reflectiveness` and
//! specularly with probability `reflectiveness`; a specular ray that ends up
//! pointing into the surface is absorbed.

use vstd::prelude::*;
use crate::color::Color;
use crate::hit::Hit;
use crate::ray::Ray;
use crate::rng::{Rng, rng_next_state, rng_unit};
use crate::vector3d::{
    Vector3d, vadd, vdot, vscale, vunit, vreflect, spec_random_unit_vector,
    dot, random_unit_vector, reflect, unit_vector,
};

verus! {

/// A two-lobe diffuse/specular material.
#[derive(Clone, Copy, Debug, PartialEq, Eq, Structural)]
pub struct Material {
    /// Base color, also the attenuation applied to scattered light.
    pub albedo: Color,
    /// Probability, in `[0, 1]`, of a specular rather than diffuse bounce.
    pub reflectiveness: i64,
    /// Roughness of the specular lobe, in `[0, 1]`.
    pub reflection_fuzz: i64,
}

/// What a diffuse bounce returns: a ray from the hit point along
/// `normal + u` for a random unit direction `u`, attenuated by the albedo.
pub open spec fn spec_scatter_lambertian(s0: u64, m: Material, ray: Ray, rec: Hit) -> (
    Option<(Ray, Color)>,
    u64,
) {
    let (u, s1) = spec_random_unit_vector(s0);
    (
        Some(
            (
                Ray {
                    origin: rec.position,
                    direction: vadd(rec.normal, u),
                    frame_time: ray.frame_time,
                },
                m.albedo,
            ),
        ),
        s1,
    )
}

/// What a specular bounce returns: the reflected direction perturbed by
/// `reflection_fuzz`, or absorption when the perturbed ray points into the
/// surface.
pub open spec fn spec_scatter_reflective(s0: u64, m: Material, ray: Ray, rec: Hit) -> (
    Option<(Ray, Color)>,
    u64,
) {
    let reflected = vreflect(vunit(ray.direction), rec.normal);
    let (u, s1) = spec_random_unit_vector(s0);
    let direction = vadd(reflected, vscale(u, m.reflection_fuzz as int));
    if vdot(direction, rec.normal) > 0 {
        (
            Some(
                (Ray { origin: rec.position, direction, frame_time: ray.frame_time }, m.albedo),
            ),
            s1,
        )
    } else {
        (None, s1)
    }
}

/// What `Material::scatter` returns for a generator in state `s0`: one draw
/// chooses the lobe, then the lobe runs.
pub open spec fn spec_scatter(s0: u64, m: Material, ray: Ray, rec: Hit) -> (
    Option<(Ray, Color)>,
    u64,
) {
    let s1 = rng_next_state(s0);
    if rng_unit(s1) >= m.reflectiveness as int {
        spec_scatter_lambertian(s1, m, ray, rec)
    } else {
        spec_scatter_reflective(s1, m, ray, rec)
    }
}

impl Material {
    fn scatter_lambertian(&self, rng: &mut Rng, ray: &Ray, rec: &Hit) -> (r: Option<(Ray, Color)>)
        ensures
            r == spec_scatter_lambertian(old(rng).state, *self, *ray, *rec).0,
            final(rng).state == spec_scatter_lambertian(old(rng).state, *self, *ray, *rec).1,
    {
        let scatter_direction = rec.normal.add(&random_unit_vector(rng));
        let scattered = Ray {
            origin: rec.position,
            direction: scatter_direction,
            frame_time: ray.frame_time,
        };
        Some((scattered, self.albedo))
    }

    fn scatter_reflective(&self, rng: &mut Rng, ray: &Ray, rec: &Hit) -> (r: Option<(Ray, Color)>)
        ensures
            r == spec_scatter_reflective(old(rng).state, *self, *ray, *rec).0,
            final(rng).state == spec_scatter_reflective(old(rng).state, *self, *ray, *rec).1,
    {
        let reflected = reflect(&unit_vector(&ray.direction), &rec.normal);
        let scattered = Ray {
            origin: rec.position,
            direction: reflected.add(&random_unit_vector(rng).mul(self.reflection_fuzz)),
            frame_time: ray.frame_time,
        };
        if dot(&scattered.direction, &rec.normal) > 0 {
            Some((scattered, self.albedo))
        } else {
            None
        }
    }

    /// Scatter an incoming ray at a hit: diffuse with probability
    /// `1 - reflectiveness`, specular otherwise; `None` means absorption.
    pub fn scatter(&self, rng: &mut Rng, ray: &Ray, rec: &Hit) -> (r: Option<(Ray, Color)>)
        ensures
            r == spec_scatter(old(rng).state, *self, *ray, *rec).0,
            final(rng).state == spec_scatter(old(rng).state, *self, *ray, *rec).1,
            self.reflectiveness <= 0 ==> r is Some,
    {
        let coin = rng.next_unit();
        if coin >= self.reflectiveness {
            self.scatter_lambertian(rng, ray, rec)
        } else {
            self.scatter_reflective(rng, ray, rec)
        }
    }
}

} // verus!
