//! Rays: an origin, a direction, and the instant within the current
//! inter-frame interval that the sample belongs to.

use vstd::prelude::*;
use crate::vector3d::{Vector3d, vadd, vscale};

verus! {

/// A ray with a sample time in `[0, 1]` for motion blur.
#[derive(Clone, Copy, Debug, PartialEq, Eq, Structural)]
pub struct Ray {
    pub origin: Vector3d,
    pub direction: Vector3d,
    pub frame_time: i64,
}

/// The point `origin + direction * t`.
pub open spec fn ray_at(ray: Ray, t: int) -> Vector3d {
    vadd(ray.origin, vscale(ray.direction, t))
}

impl Ray {
    /// The point this ray reaches at parameter `t`.
    pub fn at(&self, t: i64) -> (r: Vector3d)
        ensures
            r == ray_at(*self, t as int),
    {
        self.origin.add(&self.direction.mul(t))
    }
}

} // verus!
