//! Three-component fixed-point vectors and their arithmetic.
//!
//! Every executable operation is pinned to a spec-function mirror, so a
//! chain of vector operations has a single, exactly determined result.

use vstd::prelude::*;
use crate::fixed::{fadd, fsub, fneg, fmul, fdiv, fsqrt, FX_ONE};
use crate::fixed::{fx_add, fx_sub, fx_neg, fx_mul, fx_div, fx_sqrt};
use crate::rng::{Rng, rng_next_state, rng_unit};

verus! {

/// A vector of three fixed-point scalars (millionths of a unit).
#[derive(Clone, Copy, Debug, PartialEq, Eq, Structural)]
pub struct Vector3d {
    pub x: i64,
    pub y: i64,
    pub z: i64,
}

/// The zero vector.
pub open spec fn vzero() -> Vector3d {
    Vector3d { x: 0, y: 0, z: 0 }
}

/// Componentwise sum.
pub open spec fn vadd(a: Vector3d, b: Vector3d) -> Vector3d {
    Vector3d {
        x: fadd(a.x as int, b.x as int) as i64,
        y: fadd(a.y as int, b.y as int) as i64,
        z: fadd(a.z as int, b.z as int) as i64,
    }
}

/// Componentwise difference.
pub open spec fn vsub(a: Vector3d, b: Vector3d) -> Vector3d {
    Vector3d {
        x: fsub(a.x as int, b.x as int) as i64,
        y: fsub(a.y as int, b.y as int) as i64,
        z: fsub(a.z as int, b.z as int) as i64,
    }
}

/// Componentwise negation.
pub open spec fn vneg(a: Vector3d) -> Vector3d {
    Vector3d {
        x: fneg(a.x as int) as i64,
        y: fneg(a.y as int) as i64,
        z: fneg(a.z as int) as i64,
    }
}

/// Scaling by a fixed-point scalar.
pub open spec fn vscale(a: Vector3d, t: int) -> Vector3d {
    Vector3d {
        x: fmul(a.x as int, t) as i64,
        y: fmul(a.y as int, t) as i64,
        z: fmul(a.z as int, t) as i64,
    }
}

/// Componentwise division by a fixed-point scalar.
pub open spec fn vdiv(a: Vector3d, t: int) -> Vector3d {
    Vector3d {
        x: fdiv(a.x as int, t) as i64,
        y: fdiv(a.y as int, t) as i64,
        z: fdiv(a.z as int, t) as i64,
    }
}

/// Dot product, accumulated left to right.
pub open spec fn vdot(a: Vector3d, b: Vector3d) -> int {
    fadd(
        fadd(fmul(a.x as int, b.x as int), fmul(a.y as int, b.y as int)),
        fmul(a.z as int, b.z as int),
    )
}

/// Cross product.
pub open spec fn vcross(a: Vector3d, b: Vector3d) -> Vector3d {
    Vector3d {
        x: fsub(fmul(a.y as int, b.z as int), fmul(a.z as int, b.y as int)) as i64,
        y: fsub(fmul(a.z as int, b.x as int), fmul(a.x as int, b.z as int)) as i64,
        z: fsub(fmul(a.x as int, b.y as int), fmul(a.y as int, b.x as int)) as i64,
    }
}

/// Squared length.
pub open spec fn vlen_sq(a: Vector3d) -> int {
    vdot(a, a)
}

/// Length: the fixed-point square root of the squared length.
pub open spec fn vlen(a: Vector3d) -> int {
    fsqrt(vlen_sq(a))
}

/// Direction of `a` normalized to unit length (zero vector for length zero).
pub open spec fn vunit(a: Vector3d) -> Vector3d {
    vdiv(a, vlen(a))
}

/// Mirror of `v` about the plane with normal `n`.
pub open spec fn vreflect(v: Vector3d, n: Vector3d) -> Vector3d {
    vsub(v, vscale(vscale(n, vdot(v, n)), 2 * FX_ONE as int))
}

/// Linear interpolation of scalars: `a * f + b * (1 - f)`.
pub open spec fn fblend(a: int, b: int, factor_a: int) -> int {
    fadd(fmul(a, factor_a), fmul(b, fsub(FX_ONE as int, factor_a)))
}

/// Linear interpolation of vectors, componentwise.
pub open spec fn vblend(v1: Vector3d, v2: Vector3d, factor_v1: int) -> Vector3d {
    Vector3d {
        x: fblend(v1.x as int, v2.x as int, factor_v1) as i64,
        y: fblend(v1.y as int, v2.y as int, factor_v1) as i64,
        z: fblend(v1.z as int, v2.z as int, factor_v1) as i64,
    }
}

/// Whether `x` lies strictly between `min` and `max`.
pub open spec fn in_interval(x: int, min: int, max: int) -> bool {
    min < x && x < max
}

/// `x`, except snapped to zero when within `dist_to_zero` of it.
pub open spec fn snap_to_zero(dist_to_zero: int, x: int) -> int {
    if in_interval(x, fneg(dist_to_zero), dist_to_zero) {
        0
    } else {
        x
    }
}

impl Vector3d {
    /// Squared length of this vector.
    pub fn length_squared(&self) -> (r: i64)
        ensures
            r as int == vlen_sq(*self),
    {
        dot(self, self)
    }

    /// Length of this vector.
    pub fn length(&self) -> (r: i64)
        ensures
            r as int == vlen(*self),
    {
        fx_sqrt(self.length_squared())
    }

    /// The zero vector.
    pub fn null() -> (r: Vector3d)
        ensures
            r == vzero(),
    {
        Vector3d { x: 0, y: 0, z: 0 }
    }

    /// Componentwise sum.
    pub fn add(&self, other: &Vector3d) -> (r: Vector3d)
        ensures
            r == vadd(*self, *other),
    {
        Vector3d {
            x: fx_add(self.x, other.x),
            y: fx_add(self.y, other.y),
            z: fx_add(self.z, other.z),
        }
    }

    /// Componentwise difference.
    pub fn sub(&self, other: &Vector3d) -> (r: Vector3d)
        ensures
            r == vsub(*self, *other),
    {
        Vector3d {
            x: fx_sub(self.x, other.x),
            y: fx_sub(self.y, other.y),
            z: fx_sub(self.z, other.z),
        }
    }

    /// Componentwise negation.
    pub fn neg(&self) -> (r: Vector3d)
        ensures
            r == vneg(*self),
    {
        Vector3d { x: fx_neg(self.x), y: fx_neg(self.y), z: fx_neg(self.z) }
    }

    /// Scaling by a fixed-point scalar.
    pub fn mul(&self, t: i64) -> (r: Vector3d)
        ensures
            r == vscale(*self, t as int),
    {
        Vector3d { x: fx_mul(self.x, t), y: fx_mul(self.y, t), z: fx_mul(self.z, t) }
    }

    /// Componentwise division by a fixed-point scalar.
    pub fn div(&self, t: i64) -> (r: Vector3d)
        ensures
            r == vdiv(*self, t as int),
    {
        Vector3d { x: fx_div(self.x, t), y: fx_div(self.y, t), z: fx_div(self.z, t) }
    }
}

/// Dot product of two vectors.
pub fn dot(a: &Vector3d, b: &Vector3d) -> (r: i64)
    ensures
        r as int == vdot(*a, *b),
{
    fx_add(fx_add(fx_mul(a.x, b.x), fx_mul(a.y, b.y)), fx_mul(a.z, b.z))
}

/// Cross product of two vectors.
pub fn cross(a: &Vector3d, b: &Vector3d) -> (r: Vector3d)
    ensures
        r == vcross(*a, *b),
{
    Vector3d {
        x: fx_sub(fx_mul(a.y, b.z), fx_mul(a.z, b.y)),
        y: fx_sub(fx_mul(a.z, b.x), fx_mul(a.x, b.z)),
        z: fx_sub(fx_mul(a.x, b.y), fx_mul(a.y, b.x)),
    }
}

/// Direction of `v` normalized to unit length (zero vector for length zero).
pub fn unit_vector(v: &Vector3d) -> (r: Vector3d)
    ensures
        r == vunit(*v),
{
    let len = v.length();
    v.div(len)
}

/// Mirror of `v` about the plane with normal `n`.
pub fn reflect(v: &Vector3d, n: &Vector3d) -> (r: Vector3d)
    ensures
        r == vreflect(*v, *n),
{
    let d = dot(v, n);
    v.sub(&n.mul(d).mul(2 * FX_ONE))
}

/// Whether `x` lies strictly between `min` and `max`.
pub fn is_in_interval(x: i64, min: i64, max: i64) -> (r: bool)
    ensures
        r == in_interval(x as int, min as int, max as int),
{
    x > min && x < max
}

/// `x`, except snapped to zero when within `dist_to_zero` of it.
pub fn zero_in(dist_to_zero: i64, x: i64) -> (r: i64)
    ensures
        r as int == snap_to_zero(dist_to_zero as int, x as int),
{
    if is_in_interval(x, fx_neg(dist_to_zero), dist_to_zero) {
        0
    } else {
        x
    }
}

/// Linear interpolation of scalars: `a * factor_a + b * (1 - factor_a)`.
pub fn blend(a: i64, b: i64, factor_a: i64) -> (r: i64)
    ensures
        r as int == fblend(a as int, b as int, factor_a as int),
{
    fx_add(fx_mul(a, factor_a), fx_mul(b, fx_sub(FX_ONE, factor_a)))
}

/// Linear interpolation of vectors, componentwise.
pub fn blend_vectors(v1: &Vector3d, v2: &Vector3d, factor_v1: i64) -> (r: Vector3d)
    ensures
        r == vblend(*v1, *v2, factor_v1 as int),
{
    Vector3d {
        x: blend(v1.x, v2.x, factor_v1),
        y: blend(v1.y, v2.y, factor_v1),
        z: blend(v1.z, v2.z, factor_v1),
    }
}

/// A symmetric draw in `[-1, 1)` from the output word of state `s`.
pub open spec fn rng_symmetric(s: u64) -> int {
    2 * rng_unit(s) - FX_ONE as int
}

/// Three symmetric draws as a point of the cube `[-1, 1)^3`, with the
/// generator state after them.
pub open spec fn cube_sample(s0: u64) -> (Vector3d, u64) {
    let s1 = rng_next_state(s0);
    let s2 = rng_next_state(s1);
    let s3 = rng_next_state(s2);
    (
        Vector3d {
            x: rng_symmetric(s1) as i64,
            y: rng_symmetric(s2) as i64,
            z: rng_symmetric(s3) as i64,
        },
        s3,
    )
}

/// Two symmetric draws as a point of the disk plane `z = 0`, with the
/// generator state after them.
pub open spec fn disk_sample(s0: u64) -> (Vector3d, u64) {
    let s1 = rng_next_state(s0);
    let s2 = rng_next_state(s1);
    (Vector3d { x: rng_symmetric(s1) as i64, y: rng_symmetric(s2) as i64, z: 0 }, s2)
}

/// Rejection sampling of a unit direction: cube points are drawn until one
/// falls inside the unit ball (and is not the zero vector), then normalized.
/// When the budget runs out, the upward axis stands in, which keeps the
/// sampler total.
pub open spec fn unit_sample_from(s0: u64, budget: nat) -> (Vector3d, u64)
    decreases budget,
{
    if budget == 0 {
        (Vector3d { x: 0, y: 0, z: FX_ONE }, s0)
    } else {
        let (p, s1) = cube_sample(s0);
        if 0 < vlen_sq(p) && vlen_sq(p) <= FX_ONE as int {
            (vunit(p), s1)
        } else {
            unit_sample_from(s1, (budget - 1) as nat)
        }
    }
}

/// Rejection sampling of a point in the unit disk: plane points are drawn
/// until one falls strictly inside. When the budget runs out, the center
/// stands in, which keeps the sampler total.
pub open spec fn disk_point_from(s0: u64, budget: nat) -> (Vector3d, u64)
    decreases budget,
{
    if budget == 0 {
        (vzero(), s0)
    } else {
        let (p, s1) = disk_sample(s0);
        if vlen_sq(p) < FX_ONE as int {
            (p, s1)
        } else {
            disk_point_from(s1, (budget - 1) as nat)
        }
    }
}

/// How many rejection rounds the samplers try before falling back.
pub const SAMPLE_BUDGET: u32 = 32;

/// What `random_unit_vector` returns for a generator in state `s0`.
pub open spec fn spec_random_unit_vector(s0: u64) -> (Vector3d, u64) {
    unit_sample_from(s0, SAMPLE_BUDGET as nat)
}

/// What `random_in_unit_disk` returns for a generator in state `s0`.
pub open spec fn spec_random_in_unit_disk(s0: u64) -> (Vector3d, u64) {
    disk_point_from(s0, SAMPLE_BUDGET as nat)
}

fn unit_sample_rec(rng: &mut Rng, budget: u32) -> (r: Vector3d)
    ensures
        r == unit_sample_from(old(rng).state, budget as nat).0,
        final(rng).state == unit_sample_from(old(rng).state, budget as nat).1,
    decreases budget,
{
    if budget == 0 {
        Vector3d { x: 0, y: 0, z: FX_ONE }
    } else {
        let x = rng.next_symmetric();
        let y = rng.next_symmetric();
        let z = rng.next_symmetric();
        let p = Vector3d { x, y, z };
        let lsq = p.length_squared();
        if 0 < lsq && lsq <= FX_ONE {
            unit_vector(&p)
        } else {
            unit_sample_rec(rng, budget - 1)
        }
    }
}

fn disk_point_rec(rng: &mut Rng, budget: u32) -> (r: Vector3d)
    ensures
        r == disk_point_from(old(rng).state, budget as nat).0,
        final(rng).state == disk_point_from(old(rng).state, budget as nat).1,
    decreases budget,
{
    if budget == 0 {
        Vector3d { x: 0, y: 0, z: 0 }
    } else {
        let x = rng.next_symmetric();
        let y = rng.next_symmetric();
        let p = Vector3d { x, y, z: 0 };
        let lsq = p.length_squared();
        if lsq < FX_ONE {
            p
        } else {
            disk_point_rec(rng, budget - 1)
        }
    }
}

/// A pseudo-random direction of unit length, drawn from `rng`.
pub fn random_unit_vector(rng: &mut Rng) -> (r: Vector3d)
    ensures
        r == spec_random_unit_vector(old(rng).state).0,
        final(rng).state == spec_random_unit_vector(old(rng).state).1,
{
    unit_sample_rec(rng, SAMPLE_BUDGET)
}

/// A pseudo-random point inside the unit disk of the lens plane.
pub fn random_in_unit_disk(rng: &mut Rng) -> (r: Vector3d)
    ensures
        r == spec_random_in_unit_disk(old(rng).state).0,
        final(rng).state == spec_random_in_unit_disk(old(rng).state).1,
{
    disk_point_rec(rng, SAMPLE_BUDGET)
}

} // verus!
