//! Hit records: where a ray met a sphere, with the oriented surface normal
//! and the material resolved at the moment of the hit.

use vstd::prelude::*;
use crate::material::Material;
use crate::ray::Ray;
use crate::vector3d::{Vector3d, vdot, vneg, dot};

verus! {

/// The result of a ray striking a surface.
#[derive(Clone, Copy, Debug, PartialEq, Eq, Structural)]
pub struct Hit {
    pub position: Vector3d,
    pub t: i64,
    pub normal: Vector3d,
    pub front_face: bool,
    pub material: Material,
}

/// Whether the ray meets the surface from outside.
pub open spec fn spec_front_face(ray: Ray, outward_normal: Vector3d) -> bool {
    vdot(ray.direction, outward_normal) < 0
}

/// The outward normal oriented against the incoming ray.
pub open spec fn spec_face_normal(ray: Ray, outward_normal: Vector3d) -> Vector3d {
    if spec_front_face(ray, outward_normal) {
        outward_normal
    } else {
        vneg(outward_normal)
    }
}

/// Orient `outward_normal` against the ray; report whether the ray came
/// from outside.
pub fn face_normal(r: &Ray, outward_normal: &Vector3d) -> (res: (bool, Vector3d))
    ensures
        res.0 == spec_front_face(*r, *outward_normal),
        res.1 == spec_face_normal(*r, *outward_normal),
{
    let front_face = dot(&r.direction, outward_normal) < 0;
    let normal = if front_face {
        *outward_normal
    } else {
        outward_normal.neg()
    };
    (front_face, normal)
}

} // verus!
