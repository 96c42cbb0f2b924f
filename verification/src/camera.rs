//! The thin-lens camera and the motion-blur camera pair.
//!
//! A camera holds a derived orthonormal basis and viewport extents. A
//! `CameraRange` bundles the camera at the start and at the end of the
//! inter-frame interval; each sample draws one instant, blends the two
//! cameras' rays by it, and stamps the ray with it, so camera motion and
//! sphere motion blur consistently.

use vstd::prelude::*;
use crate::fixed::{fadd, fsub, fmul, fdiv, FX_ONE};
use crate::fixed::{fx_add, fx_sub, fx_mul, fx_div};
use crate::ray::Ray;
use crate::rng::{Rng, rng_next_state, rng_unit};
use crate::vector3d::{
    Vector3d, vadd, vsub, vscale, vdiv, vunit, vcross, spec_random_in_unit_disk,
    cross, unit_vector, random_in_unit_disk,
};

verus! {

/// A thin-lens camera: position, viewport frame and lens radius.
#[derive(Clone, Copy, Debug, PartialEq, Eq, Structural)]
pub struct Camera {
    pub origin: Vector3d,
    pub lower_left_corner: Vector3d,
    pub horizontal: Vector3d,
    pub vertical: Vector3d,
    pub lens_radius: i64,
    pub u: Vector3d,
    pub v: Vector3d,
    pub w: Vector3d,
}

/// The camera at the start of the interval (`cam_a`) and at its end
/// (`cam_b`).
#[derive(Clone, Copy, Debug, PartialEq, Eq, Structural)]
pub struct CameraRange {
    pub cam_a: Camera,
    pub cam_b: Camera,
}

/// What `Camera::new` builds from the position, the aim, the up direction,
/// the tangent of half the vertical field of view, the aspect ratio, the
/// aperture and the focus distance.
pub open spec fn spec_camera_new(
    position: Vector3d,
    looks_at: Vector3d,
    up_direction: Vector3d,
    tan_half_fov: int,
    aspect_ratio: int,
    aperture: int,
    focus_dist: int,
) -> Camera {
    let viewport_height = fmul(2 * FX_ONE as int, tan_half_fov);
    let viewport_width = fmul(aspect_ratio, viewport_height);
    let w = vunit(vsub(position, looks_at));
    let u = vunit(vcross(up_direction, w));
    let v = vcross(w, u);
    let horizontal = vscale(vscale(u, viewport_width), focus_dist);
    let vertical = vscale(vscale(v, viewport_height), focus_dist);
    Camera {
        origin: position,
        lower_left_corner: vsub(
            vsub(
                vsub(position, vdiv(horizontal, 2 * FX_ONE as int)),
                vdiv(vertical, 2 * FX_ONE as int),
            ),
            vscale(w, focus_dist),
        ),
        horizontal,
        vertical,
        lens_radius: fdiv(aperture, 2 * FX_ONE as int) as i64,
        u,
        v,
        w,
    }
}

/// What `Camera::get_ray_rd` returns: the ray through the viewport point at
/// the given fractions, from the origin offset by the lens-disk sample.
pub open spec fn spec_get_ray_rd(
    cam: Camera,
    horizontal_fraction: int,
    vertical_fraction: int,
    rd: Vector3d,
    frame_time: int,
) -> Ray {
    let offset = vadd(vscale(cam.u, rd.x as int), vscale(cam.v, rd.y as int));
    Ray {
        origin: vadd(cam.origin, offset),
        direction: vsub(
            vsub(
                vadd(
                    vadd(cam.lower_left_corner, vscale(cam.horizontal, horizontal_fraction)),
                    vscale(cam.vertical, vertical_fraction),
                ),
                cam.origin,
            ),
            offset,
        ),
        frame_time: frame_time as i64,
    }
}

/// What `get_ray_camera_blend` returns for a generator in state `s0`: one
/// drawn instant, one lens-disk sample scaled by the interpolated lens
/// radius, and the two cameras' rays blended by the instant.
pub open spec fn spec_get_ray_camera_blend(
    s0: u64,
    horizontal_fraction: int,
    vertical_fraction: int,
    cams: CameraRange,
) -> (Ray, u64) {
    let s1 = rng_next_state(s0);
    let frame_time = rng_unit(s1);
    let (disk, s2) = spec_random_in_unit_disk(s1);
    let lens = fadd(
        fmul(frame_time, cams.cam_b.lens_radius as int),
        fmul(fsub(FX_ONE as int, frame_time), cams.cam_a.lens_radius as int),
    );
    let rd = vscale(disk, lens);
    let ray_a = spec_get_ray_rd(cams.cam_a, horizontal_fraction, vertical_fraction, rd, frame_time);
    let ray_b = spec_get_ray_rd(cams.cam_b, horizontal_fraction, vertical_fraction, rd, frame_time);
    (
        Ray {
            origin: vadd(
                vscale(ray_b.origin, frame_time),
                vscale(ray_a.origin, fsub(FX_ONE as int, frame_time)),
            ),
            direction: vadd(
                vscale(ray_b.direction, frame_time),
                vscale(ray_a.direction, fsub(FX_ONE as int, frame_time)),
            ),
            frame_time: frame_time as i64,
        },
        s2,
    )
}

/// One motion-blurred sample ray: draw an instant in `[0, 1)`, sample the
/// lens disk with the radius interpolated between the two cameras, and
/// blend origin and direction of the two cameras' rays by the instant.
pub fn get_ray_camera_blend(
    rng: &mut Rng,
    horizontal_fraction: i64,
    vertical_fraction: i64,
    cams: &CameraRange,
) -> (r: Ray)
    ensures
        r == spec_get_ray_camera_blend(
            old(rng).state,
            horizontal_fraction as int,
            vertical_fraction as int,
            *cams,
        ).0,
        final(rng).state == spec_get_ray_camera_blend(
            old(rng).state,
            horizontal_fraction as int,
            vertical_fraction as int,
            *cams,
        ).1,
{
    let frame_time = rng.next_unit();
    let lens = fx_add(
        fx_mul(frame_time, cams.cam_b.lens_radius),
        fx_mul(fx_sub(1_000_000, frame_time), cams.cam_a.lens_radius),
    );
    let rd = random_in_unit_disk(rng).mul(lens);
    let ray_a = cams.cam_a.get_ray_rd(horizontal_fraction, vertical_fraction, rd, frame_time);
    let ray_b = cams.cam_b.get_ray_rd(horizontal_fraction, vertical_fraction, rd, frame_time);
    Ray {
        origin: ray_b.origin.mul(frame_time).add(&ray_a.origin.mul(fx_sub(1_000_000, frame_time))),
        direction: ray_b.direction.mul(frame_time).add(
            &ray_a.direction.mul(fx_sub(1_000_000, frame_time)),
        ),
        frame_time,
    }
}

impl Camera {
    /// The ray through the viewport point at the given fractions, offset by
    /// a lens-disk sample for depth of field.
    pub fn get_ray_rd(
        &self,
        horizontal_fraction: i64,
        vertical_fraction: i64,
        rd: Vector3d,
        frame_time: i64,
    ) -> (r: Ray)
        ensures
            r == spec_get_ray_rd(
                *self,
                horizontal_fraction as int,
                vertical_fraction as int,
                rd,
                frame_time as int,
            ),
    {
        let offset = self.u.mul(rd.x).add(&self.v.mul(rd.y));
        Ray {
            origin: self.origin.add(&offset),
            direction: self
                .lower_left_corner
                .add(&self.horizontal.mul(horizontal_fraction))
                .add(&self.vertical.mul(vertical_fraction))
                .sub(&self.origin)
                .sub(&offset),
            frame_time,
        }
    }

    /// Build a camera. `tan_half_fov` is the tangent of half the vertical
    /// field of view, as a fixed-point scalar; the caller computes it from
    /// the angle it prefers.
    pub fn new(
        position: &Vector3d,
        looks_at: &Vector3d,
        up_direction: &Vector3d,
        tan_half_fov: i64,
        aspect_ratio: i64,
        aperture: i64,
        focus_dist: i64,
    ) -> (r: Camera)
        ensures
            r == spec_camera_new(
                *position,
                *looks_at,
                *up_direction,
                tan_half_fov as int,
                aspect_ratio as int,
                aperture as int,
                focus_dist as int,
            ),
    {
        let viewport_height = fx_mul(2_000_000, tan_half_fov);
        let viewport_width = fx_mul(aspect_ratio, viewport_height);

        let w = unit_vector(&position.sub(looks_at));
        let u = unit_vector(&cross(up_direction, &w));
        let v = cross(&w, &u);

        let origin = *position;
        let horizontal = u.mul(viewport_width).mul(focus_dist);
        let vertical = v.mul(viewport_height).mul(focus_dist);
        let lower_left_corner = origin
            .sub(&horizontal.div(2_000_000))
            .sub(&vertical.div(2_000_000))
            .sub(&w.mul(focus_dist));
        let lens_radius = fx_div(aperture, 2_000_000);

        Camera { origin, horizontal, vertical, lower_left_corner, lens_radius, u, v, w }
    }
}

} // verus!
