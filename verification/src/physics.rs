//! The physics pipeline: position integration, pairwise gravity, collision
//! response, overlap correction, friction and glow decay.
//!
//! Each stage is a pure function from a sphere list to a new sphere list,
//! pinned to a spec-function mirror. The collision response applies the
//! momentum-conserving update in impulse form,
//! `v_i' = v_i - (1 + bounciness) * (m_j / (m_i + m_j)) * (v_i - v_j)`,
//! which equals the textbook weighted form in real arithmetic and keeps the
//! equal-mass, bounciness-one exchange exact in fixed point.

use vstd::prelude::*;
use vstd::pervasive::VecAdditionalExecFns;
use crate::fixed::{fadd, fsub, fmul, fdiv, fabs, absv, tdiv, FX_ONE};
use crate::fixed::{fx_add, fx_sub, fx_mul, fx_div, fx_abs, lemma_fmul_one, lemma_fmul_zero};
use crate::sphere::Sphere;
use crate::vector3d::{
    Vector3d, vzero, vadd, vsub, vscale, vunit, vlen, vdot, snap_to_zero,
    dot, unit_vector, zero_in,
};

verus! {

/// The numeric knobs of one physics step; all values are fixed-point.
#[derive(Clone, Copy, Debug, PartialEq, Eq, Structural)]
pub struct PhysicsSettings {
    pub gravity_constant: i64,
    pub bounciness: i64,
    /// Contact-normal speeds closer to zero than this snap to zero, which
    /// avoids infinite bouncing.
    pub bounce_round_to_zero_threshold: i64,
    pub flash_strength: i64,
    pub dim_factor: i64,
    pub dim_constant: i64,
    pub friction: i64,
}

/// World time as a function of real time; the identity mapping.
pub open spec fn spec_world_time(t_real: int) -> int {
    t_real
}

/// World time of a real-time instant.
pub fn world_time_from_real_time(t_real: i64) -> (r: i64)
    ensures
        r as int == spec_world_time(t_real as int),
{
    t_real
}

/// A sphere after position integration: the previous center is remembered
/// and the center advances by `speed * delta_t`.
pub open spec fn spec_moved_sphere(s: Sphere, delta_t: int) -> Sphere {
    Sphere { center_old: s.center, center: vadd(s.center, vscale(s.speed, delta_t)), ..s }
}

/// The whole list after position integration.
pub open spec fn spec_move_positions(s: Seq<Sphere>, delta_t: int) -> Seq<Sphere> {
    Seq::new(s.len(), |i: int| spec_moved_sphere(s[i], delta_t))
}

/// Advance every center by its speed, remembering the previous centers.
pub fn move_positions(spheres: &Vec<Sphere>, delta_t: i64) -> (r: Vec<Sphere>)
    ensures
        r@ == spec_move_positions(spheres@, delta_t as int),
{
    let n = spheres.len();
    let mut result: Vec<Sphere> = Vec::new();
    let mut i: usize = 0;
    while i < n
        invariant
            n == spheres@.len(),
            i <= n,
            result@.len() == i,
            forall|k: int|
                0 <= k < i ==> result@[k] == spec_moved_sphere(spheres@[k], delta_t as int),
        decreases n - i,
    {
        let sphere = spheres[i];
        result.push(
            Sphere {
                center_old: sphere.center,
                center: sphere.center.add(&sphere.speed.mul(delta_t)),
                ..sphere
            },
        );
        i = i + 1;
    }
    proof {
        assert(result@ =~= spec_move_positions(spheres@, delta_t as int));
    }
    result
}

/// The gravitational pull of sphere `j` on sphere `i` over one step:
/// `unit(c_j - c_i) * ((delta_t * g * m_j) / dist^2)`; a sphere exerts no
/// pull on itself, and coincident centers contribute nothing.
pub open spec fn spec_grav_term(s: Seq<Sphere>, i: int, j: int, delta_t: int, g: int) -> Vector3d {
    if i == j {
        vzero()
    } else {
        let d = vsub(s[j].center, s[i].center);
        let dist = vlen(d);
        let factor = fdiv(fmul(fmul(delta_t, g), s[j].mass as int), fmul(dist, dist));
        vscale(vunit(d), factor)
    }
}

/// The pull of spheres `0..j` on sphere `i`, accumulated in index order.
pub open spec fn spec_grav_acc(s: Seq<Sphere>, i: int, j: int, delta_t: int, g: int) -> Vector3d
    decreases j,
{
    if j <= 0 {
        vzero()
    } else {
        vadd(spec_grav_acc(s, i, j - 1, delta_t, g), spec_grav_term(s, i, j - 1, delta_t, g))
    }
}

/// Sphere `i` with the accumulated pull of every other sphere added to its
/// speed.
pub open spec fn spec_gravitated_sphere(s: Seq<Sphere>, i: int, delta_t: int, g: int) -> Sphere {
    Sphere { speed: vadd(s[i].speed, spec_grav_acc(s, i, s.len() as int, delta_t, g)), ..s[i] }
}

/// The whole list after the gravity stage.
pub open spec fn spec_gravitate(s: Seq<Sphere>, delta_t: int, g: int) -> Seq<Sphere> {
    Seq::new(s.len(), |i: int| spec_gravitated_sphere(s, i, delta_t, g))
}

/// Add every pairwise pull to the speeds, using the post-move positions.
/// A gravity constant of zero leaves every sphere unchanged.
pub fn gravitate(spheres: &Vec<Sphere>, delta_t: i64, gravity_constant: i64) -> (r: Vec<Sphere>)
    ensures
        r@ == spec_gravitate(spheres@, delta_t as int, gravity_constant as int),
        gravity_constant == 0 ==> r@ == spheres@,
{
    let n = spheres.len();
    let mut result: Vec<Sphere> = Vec::new();
    let mut i: usize = 0;
    while i < n
        invariant
            n == spheres@.len(),
            i <= n,
            result@.len() == i,
            forall|k: int|
                0 <= k < i ==> result@[k] == spec_gravitated_sphere(
                    spheres@,
                    k,
                    delta_t as int,
                    gravity_constant as int,
                ),
        decreases n - i,
    {
        let sphere = spheres[i];
        let mut acceleration = Vector3d::null();
        let mut j: usize = 0;
        while j < n
            invariant
                n == spheres@.len(),
                i < n,
                j <= n,
                sphere == spheres@[i as int],
                acceleration == spec_grav_acc(
                    spheres@,
                    i as int,
                    j as int,
                    delta_t as int,
                    gravity_constant as int,
                ),
            decreases n - j,
        {
            if j != i {
                let other = spheres[j];
                let d = other.center.sub(&sphere.center);
                let dist = d.length();
                let factor = fx_div(
                    fx_mul(fx_mul(delta_t, gravity_constant), other.mass),
                    fx_mul(dist, dist),
                );
                acceleration = acceleration.add(&unit_vector(&d).mul(factor));
            } else {
                proof {
                    assert(vadd(acceleration, vzero()) == acceleration);
                }
            }
            j = j + 1;
        }
        result.push(Sphere { speed: sphere.speed.add(&acceleration), ..sphere });
        i = i + 1;
    }
    proof {
        assert(result@ =~= spec_gravitate(spheres@, delta_t as int, gravity_constant as int));
        if gravity_constant == 0 {
            lemma_gravitate_zero(spheres@, delta_t as int);
            assert(result@ == spheres@);
        }
    }
    result
}

/// With a gravity constant of zero every accumulated pull is the zero
/// vector, so the gravity stage is the identity.
pub proof fn lemma_gravitate_zero(s: Seq<Sphere>, delta_t: int)
    ensures
        spec_gravitate(s, delta_t, 0) =~= s,
{
    assert forall|i: int| 0 <= i < s.len() implies spec_gravitated_sphere(s, i, delta_t, 0)
        == s[i] by {
        lemma_grav_acc_zero(s, i, s.len() as int, delta_t);
        assert(vadd(s[i].speed, vzero()) == s[i].speed);
    }
}

proof fn lemma_grav_acc_zero(s: Seq<Sphere>, i: int, j: int, delta_t: int)
    ensures
        spec_grav_acc(s, i, j, delta_t, 0) == vzero(),
    decreases j,
{
    if j > 0 {
        lemma_grav_acc_zero(s, i, j - 1, delta_t);
        if i != j - 1 {
            let d = vsub(s[j - 1].center, s[i].center);
            let dist = vlen(d);
            lemma_fmul_zero(delta_t);
            lemma_fmul_zero(s[j - 1].mass as int);
            assert(fdiv(0, fmul(dist, dist)) == 0);
            lemma_fmul_zero(vunit(d).x as int);
            lemma_fmul_zero(vunit(d).y as int);
            lemma_fmul_zero(vunit(d).z as int);
        }
        assert(spec_grav_term(s, i, j - 1, delta_t, 0) == vzero());
        assert(vadd(vzero(), vzero()) == vzero());
    }
}

/// The larger of two values.
pub open spec fn fmaxi(a: int, b: int) -> int {
    if a >= b {
        a
    } else {
        b
    }
}

/// Whether the fields fixed at creation agree: identity, radius, mass and
/// material.
pub open spec fn same_identity(a: Sphere, b: Sphere) -> bool {
    a.id == b.id && a.radius == b.radius && a.mass == b.mass && a.material == b.material
}

/// `same_identity`, pointwise over two sphere lists of equal length.
pub open spec fn same_identities(x: Seq<Sphere>, y: Seq<Sphere>) -> bool {
    x.len() == y.len() && forall|k: int| 0 <= k < x.len() ==> same_identity(x[k], y[k])
}

/// `same_identity` and unchanged centers: only speed and glow may differ.
pub open spec fn same_placement(a: Sphere, b: Sphere) -> bool {
    same_identity(a, b) && a.center == b.center && a.center_old == b.center_old
}

/// `same_placement`, pointwise over two sphere lists of equal length.
pub open spec fn same_placements(x: Seq<Sphere>, y: Seq<Sphere>) -> bool {
    x.len() == y.len() && forall|k: int| 0 <= k < x.len() ==> same_placement(x[k], y[k])
}

/// Whether two spheres overlap: their center distance is below the sum of
/// their radii.
pub open spec fn spec_pair_overlaps(a: Sphere, b: Sphere) -> bool {
    vlen(vsub(b.center, a.center)) < fadd(a.radius as int, b.radius as int)
}

/// The contact-normal speed of one collision partner after the bounce, in
/// impulse form:
/// `v_self - (1 + bounciness) * (m_other / (m_self + m_other)) * (v_self - v_other)`.
pub open spec fn spec_bounce_scalar(
    v_self: int,
    v_other: int,
    m_self: int,
    m_other: int,
    bounciness: int,
) -> int {
    fsub(
        v_self,
        fmul(
            fmul(fadd(FX_ONE as int, bounciness), fdiv(m_other, fadd(m_self, m_other))),
            fsub(v_self, v_other),
        ),
    )
}

/// The glow after a bounce: raised to `|dv| * flash_strength` when the
/// speed change exceeds ten units, never lowered.
pub open spec fn spec_bounce_flash(eb: int, dv: int, flash_strength: int) -> int {
    if fabs(dv) > 10 * (FX_ONE as int) {
        fmaxi(eb, fmul(fabs(dv), flash_strength))
    } else {
        eb
    }
}

/// One collision pair resolved: when spheres `i` and `j` overlap, each
/// sphere's contact-normal speed component is replaced by the bounced value
/// (snapped to zero within the threshold) and a hard impact raises the glow;
/// otherwise the list is unchanged.
pub open spec fn spec_bounce_pair(
    s: Seq<Sphere>,
    i: int,
    j: int,
    bounciness: int,
    flash_strength: int,
    threshold: int,
) -> Seq<Sphere> {
    let a = s[i];
    let b = s[j];
    if spec_pair_overlaps(a, b) {
        let dir = vunit(vsub(b.center, a.center));
        let va = vdot(a.speed, dir);
        let vb = vdot(b.speed, dir);
        let va2 = snap_to_zero(
            threshold,
            spec_bounce_scalar(va, vb, a.mass as int, b.mass as int, bounciness),
        );
        let vb2 = snap_to_zero(
            threshold,
            spec_bounce_scalar(vb, va, b.mass as int, a.mass as int, bounciness),
        );
        let da = fsub(va2, va);
        let db = fsub(vb2, vb);
        let a2 = Sphere {
            speed: vadd(a.speed, vscale(dir, da)),
            extra_brightness: spec_bounce_flash(
                a.extra_brightness as int,
                da,
                flash_strength,
            ) as i64,
            ..a
        };
        let b2 = Sphere {
            speed: vadd(b.speed, vscale(dir, db)),
            extra_brightness: spec_bounce_flash(
                b.extra_brightness as int,
                db,
                flash_strength,
            ) as i64,
            ..b
        };
        s.update(i, a2).update(j, b2)
    } else {
        s
    }
}

/// The pairs `(i, j)` for `j` from the given index upward, resolved in
/// order; `n` is the sphere count.
pub open spec fn spec_bounce_inner(
    s: Seq<Sphere>,
    n: int,
    i: int,
    j: int,
    bounciness: int,
    flash_strength: int,
    threshold: int,
) -> Seq<Sphere>
    decreases n - j,
{
    if !(0 <= i < j < n) {
        s
    } else {
        spec_bounce_inner(
            spec_bounce_pair(s, i, j, bounciness, flash_strength, threshold),
            n,
            i,
            j + 1,
            bounciness,
            flash_strength,
            threshold,
        )
    }
}

/// The pairs with first index from `i` upward, resolved in order; `n` is
/// the sphere count.
pub open spec fn spec_bounce_outer(
    s: Seq<Sphere>,
    n: int,
    i: int,
    bounciness: int,
    flash_strength: int,
    threshold: int,
) -> Seq<Sphere>
    decreases n - i,
{
    if !(0 <= i < n) {
        s
    } else {
        spec_bounce_outer(
            spec_bounce_inner(s, n, i, i + 1, bounciness, flash_strength, threshold),
            n,
            i + 1,
            bounciness,
            flash_strength,
            threshold,
        )
    }
}

/// The whole list after one collision pass over all pairs, in index order,
/// using the positions as they stand before the overlap solver.
pub open spec fn spec_bounce(
    s: Seq<Sphere>,
    bounciness: int,
    flash_strength: int,
    threshold: int,
) -> Seq<Sphere> {
    spec_bounce_outer(s, s.len() as int, 0, bounciness, flash_strength, threshold)
}

fn bounce_scalar(v_self: i64, v_other: i64, m_self: i64, m_other: i64, bounciness: i64) -> (r:
    i64)
    ensures
        r as int == spec_bounce_scalar(
            v_self as int,
            v_other as int,
            m_self as int,
            m_other as int,
            bounciness as int,
        ),
{
    fx_sub(
        v_self,
        fx_mul(
            fx_mul(fx_add(1_000_000, bounciness), fx_div(m_other, fx_add(m_self, m_other))),
            fx_sub(v_self, v_other),
        ),
    )
}

fn flash_value(eb: i64, dv: i64, flash_strength: i64) -> (r: i64)
    ensures
        r as int == spec_bounce_flash(eb as int, dv as int, flash_strength as int),
{
    let magnitude = fx_abs(dv);
    if magnitude > 10_000_000 {
        let raised = fx_mul(magnitude, flash_strength);
        if eb >= raised {
            eb
        } else {
            raised
        }
    } else {
        eb
    }
}

/// Resolve every overlapping pair once: replace contact-normal speed
/// components by the momentum-conserving bounced values and flash hard
/// impacts. A single pass in pair order; positions are not moved here.
pub fn bounce(
    spheres: &Vec<Sphere>,
    bounciness: i64,
    flash_strength: i64,
    bounce_round_to_zero_threshold: i64,
) -> (r: Vec<Sphere>)
    ensures
        r@ == spec_bounce(
            spheres@,
            bounciness as int,
            flash_strength as int,
            bounce_round_to_zero_threshold as int,
        ),
        r@.len() == spheres@.len(),
{
    let n = spheres.len();
    let ghost goal = spec_bounce(
        spheres@,
        bounciness as int,
        flash_strength as int,
        bounce_round_to_zero_threshold as int,
    );
    let mut working: Vec<Sphere> = Vec::new();
    let mut c: usize = 0;
    while c < n
        invariant
            n == spheres@.len(),
            c <= n,
            working@.len() == c,
            forall|k: int| 0 <= k < c ==> working@[k] == spheres@[k],
        decreases n - c,
    {
        working.push(spheres[c]);
        c = c + 1;
    }
    proof {
        assert(working@ =~= spheres@);
    }
    let mut i: usize = 0;
    while i < n
        invariant
            n == working@.len(),
            i <= n,
            spec_bounce_outer(
                working@,
                n as int,
                i as int,
                bounciness as int,
                flash_strength as int,
                bounce_round_to_zero_threshold as int,
            ) == goal,
        decreases n - i,
    {
        let mut j: usize = i + 1;
        while j < n
            invariant
                n == working@.len(),
                i < n,
                i < j <= n,
                spec_bounce_outer(
                    spec_bounce_inner(
                        working@,
                        n as int,
                        i as int,
                        j as int,
                        bounciness as int,
                        flash_strength as int,
                        bounce_round_to_zero_threshold as int,
                    ),
                    n as int,
                    i as int + 1,
                    bounciness as int,
                    flash_strength as int,
                    bounce_round_to_zero_threshold as int,
                ) == goal,
            decreases n - j,
        {
            let ghost before = working@;
            let a = working[i];
            let b = working[j];
            let diff = b.center.sub(&a.center);
            let dist = diff.length();
            let min_dist = fx_add(a.radius, b.radius);
            if dist < min_dist {
                let dir = unit_vector(&diff);
                let va = dot(&a.speed, &dir);
                let vb = dot(&b.speed, &dir);
                let va2 = zero_in(
                    bounce_round_to_zero_threshold,
                    bounce_scalar(va, vb, a.mass, b.mass, bounciness),
                );
                let vb2 = zero_in(
                    bounce_round_to_zero_threshold,
                    bounce_scalar(vb, va, b.mass, a.mass, bounciness),
                );
                let da = fx_sub(va2, va);
                let db = fx_sub(vb2, vb);
                let new_a = Sphere {
                    speed: a.speed.add(&dir.mul(da)),
                    extra_brightness: flash_value(a.extra_brightness, da, flash_strength),
                    ..a
                };
                let new_b = Sphere {
                    speed: b.speed.add(&dir.mul(db)),
                    extra_brightness: flash_value(b.extra_brightness, db, flash_strength),
                    ..b
                };
                working.set(i, new_a);
                working.set(j, new_b);
            }
            proof {
                assert(working@ == spec_bounce_pair(
                    before,
                    i as int,
                    j as int,
                    bounciness as int,
                    flash_strength as int,
                    bounce_round_to_zero_threshold as int,
                ));
            }
            j = j + 1;
        }
        i = i + 1;
    }
    working
}

/// With bounciness one and equal masses the bounced contact-normal speeds
/// are exactly exchanged: each sphere leaves with the other's component.
/// Speeds or masses so large that the fixed-point range saturates are left
/// out by the preconditions.
pub proof fn lemma_equal_mass_full_bounce_swaps(v1: int, v2: int, m: int)
    requires
        0 < m,
        m + m <= i64::MAX as int,
        i64::MIN as int <= v1 <= i64::MAX as int,
        i64::MIN as int <= v2 <= i64::MAX as int,
        -(i64::MAX as int) <= v1 - v2 <= i64::MAX as int,
    ensures
        spec_bounce_scalar(v1, v2, m, m, FX_ONE as int) == v2,
        spec_bounce_scalar(v2, v1, m, m, FX_ONE as int) == v1,
        snap_to_zero(0, spec_bounce_scalar(v1, v2, m, m, FX_ONE as int)) == v2,
        snap_to_zero(0, spec_bounce_scalar(v2, v1, m, m, FX_ONE as int)) == v1,
{
    let total = m + m;
    assert(fadd(m, m) == total);
    assert(m * 1_000_000 == total * 500_000);
    vstd::arithmetic::div_mod::lemma_div_multiples_vanish(500_000, total);
    assert((total * 500_000) / total == 500_000);
    assert(fdiv(m, total) == 500_000);
    assert(fadd(FX_ONE as int, FX_ONE as int) == 2_000_000);
    assert(2_000_000int * 500_000int == 1_000_000_000_000int) by (nonlinear_arith);
    assert(absv(1_000_000_000_000int) == 1_000_000_000_000int);
    assert(1_000_000_000_000int / 1_000_000int == 1_000_000int) by (nonlinear_arith);
    assert(tdiv(1_000_000_000_000int, 1_000_000int) == 1_000_000int);
    assert(fmul(2_000_000, 500_000) == 1_000_000);
    let dv1 = fsub(v1, v2);
    let dv2 = fsub(v2, v1);
    assert(dv1 == v1 - v2);
    assert(dv2 == v2 - v1);
    lemma_fmul_one(dv1);
    lemma_fmul_one(dv2);
    assert(1_000_000 * dv1 == dv1 * 1_000_000);
    assert(fmul(1_000_000, dv1) == dv1);
    assert(fmul(1_000_000, dv2) == dv2);
    assert(spec_bounce_scalar(v1, v2, m, m, FX_ONE as int) == fsub(v1, v1 - v2));
    assert(spec_bounce_scalar(v2, v1, m, m, FX_ONE as int) == fsub(v2, v2 - v1));
}

proof fn lemma_same_placements_refl(x: Seq<Sphere>)
    ensures
        same_placements(x, x),
{
}

proof fn lemma_same_placements_trans(x: Seq<Sphere>, y: Seq<Sphere>, z: Seq<Sphere>)
    requires
        same_placements(x, y),
        same_placements(y, z),
    ensures
        same_placements(x, z),
{
}

proof fn lemma_bounce_pair_placements(
    s: Seq<Sphere>,
    i: int,
    j: int,
    bounciness: int,
    flash_strength: int,
    threshold: int,
)
    requires
        0 <= i < j < s.len(),
    ensures
        same_placements(s, spec_bounce_pair(s, i, j, bounciness, flash_strength, threshold)),
{
    let r = spec_bounce_pair(s, i, j, bounciness, flash_strength, threshold);
    assert forall|k: int| 0 <= k < s.len() implies same_placement(s[k], r[k]) by {}
}

proof fn lemma_bounce_inner_placements(
    s: Seq<Sphere>,
    n: int,
    i: int,
    j: int,
    bounciness: int,
    flash_strength: int,
    threshold: int,
)
    requires
        n == s.len(),
    ensures
        same_placements(s, spec_bounce_inner(s, n, i, j, bounciness, flash_strength, threshold)),
    decreases n - j,
{
    if !(0 <= i < j < n) {
        lemma_same_placements_refl(s);
    } else {
        let mid = spec_bounce_pair(s, i, j, bounciness, flash_strength, threshold);
        lemma_bounce_pair_placements(s, i, j, bounciness, flash_strength, threshold);
        lemma_bounce_inner_placements(mid, n, i, j + 1, bounciness, flash_strength, threshold);
        lemma_same_placements_trans(
            s,
            mid,
            spec_bounce_inner(mid, n, i, j + 1, bounciness, flash_strength, threshold),
        );
    }
}

proof fn lemma_bounce_outer_placements(
    s: Seq<Sphere>,
    n: int,
    i: int,
    bounciness: int,
    flash_strength: int,
    threshold: int,
)
    requires
        n == s.len(),
    ensures
        same_placements(s, spec_bounce_outer(s, n, i, bounciness, flash_strength, threshold)),
    decreases n - i,
{
    if !(0 <= i < n) {
        lemma_same_placements_refl(s);
    } else {
        let mid = spec_bounce_inner(s, n, i, i + 1, bounciness, flash_strength, threshold);
        lemma_bounce_inner_placements(s, n, i, i + 1, bounciness, flash_strength, threshold);
        lemma_bounce_outer_placements(mid, n, i + 1, bounciness, flash_strength, threshold);
        lemma_same_placements_trans(
            s,
            mid,
            spec_bounce_outer(mid, n, i + 1, bounciness, flash_strength, threshold),
        );
    }
}

/// The collision pass moves no sphere and changes no permanent field: only
/// speeds and glows differ between input and output.
pub proof fn lemma_bounce_placements(
    s: Seq<Sphere>,
    bounciness: int,
    flash_strength: int,
    threshold: int,
)
    ensures
        same_placements(s, spec_bounce(s, bounciness, flash_strength, threshold)),
{
    lemma_bounce_outer_placements(
        s,
        s.len() as int,
        0,
        bounciness,
        flash_strength,
        threshold,
    );
}

/// Identity fields are invariant across any chain of physics steps: in a
/// sequence of sphere lists where each list preserves the identity fields
/// of the one before — as every `advance` step does, by its contract — the
/// last list keeps the id, radius, mass and material of the first. In
/// particular, every radius is invariant across any sequence of `advance`
/// calls, whatever the step intervals were.
pub proof fn lemma_identity_invariant_chain(steps: Seq<Seq<Sphere>>)
    requires
        steps.len() > 0,
        forall|k: int|
            0 <= k < steps.len() - 1 ==> same_identities(#[trigger] steps[k], steps[k + 1]),
    ensures
        same_identities(steps.first(), steps.last()),
    decreases steps.len(),
{
    if steps.len() == 1 {
    } else {
        let rest = steps.drop_first();
        assert forall|k: int|
            0 <= k < rest.len() - 1 implies same_identities(#[trigger] rest[k], rest[k + 1]) by {
            assert(rest[k] == steps[k + 1]);
            assert(rest[k + 1] == steps[k + 2]);
        }
        lemma_identity_invariant_chain(rest);
        assert(same_identities(steps[0], steps[1]));
        assert(rest.first() == steps[1]);
        assert(rest.last() == steps.last());
    }
}

/// Whether no two distinct spheres of the list overlap.
pub open spec fn no_pair_overlaps(s: Seq<Sphere>) -> bool {
    forall|i: int, j: int| 0 <= i < j < s.len() ==> !spec_pair_overlaps(s[i], s[j])
}

/// `same_identity` with speed, glow and previous center also unchanged:
/// only the current center may differ.
pub open spec fn same_motion(a: Sphere, b: Sphere) -> bool {
    same_identity(a, b) && a.speed == b.speed && a.extra_brightness == b.extra_brightness
        && a.center_old == b.center_old
}

/// `same_motion`, pointwise over two sphere lists of equal length.
pub open spec fn same_motions(x: Seq<Sphere>, y: Seq<Sphere>) -> bool {
    x.len() == y.len() && forall|k: int| 0 <= k < x.len() ==> same_motion(x[k], y[k])
}

/// The most relaxation passes the overlap solver runs before giving up.
pub const SOLVER_MAX_PASSES: u32 = 64;

/// The tiny extra push past exact contact, in millionths of a unit, that
/// keeps a corrected pair from being flagged again by truncation.
pub const SOLVER_EPSILON: i64 = 10;

/// Push overlapping spheres apart along their contact normal, each by the
/// penetration depth weighted by the other body's share of the pair's mass,
/// repeating passes until one finds nothing to correct or the pass budget
/// runs out. The second result reports convergence: `true` means no two
/// spheres of the result overlap. Non-convergence is recoverable — the
/// partially corrected list is still returned. Only centers move; an
/// already separated list comes back unchanged.
pub fn solve_non_overlapping_constraint(spheres: &Vec<Sphere>) -> (r: (Vec<Sphere>, bool))
    ensures
        same_motions(spheres@, r.0@),
        r.1 ==> no_pair_overlaps(r.0@),
        no_pair_overlaps(spheres@) ==> r.0@ == spheres@ && r.1,
{
    let n = spheres.len();
    let mut working: Vec<Sphere> = Vec::new();
    let mut c: usize = 0;
    while c < n
        invariant
            n == spheres@.len(),
            c <= n,
            working@.len() == c,
            forall|k: int| 0 <= k < c ==> working@[k] == spheres@[k],
        decreases n - c,
    {
        working.push(spheres[c]);
        c = c + 1;
    }
    proof {
        assert(working@ =~= spheres@);
    }
    let mut change = true;
    let mut passes: u32 = 0;
    while change && passes < SOLVER_MAX_PASSES
        invariant
            n == working@.len(),
            same_motions(spheres@, working@),
            passes <= SOLVER_MAX_PASSES,
            !change ==> no_pair_overlaps(working@),
            no_pair_overlaps(spheres@) ==> working@ == spheres@ && (passes > 0 ==> !change),
        decreases SOLVER_MAX_PASSES - passes,
    {
        change = false;
        let ghost snap = working@;
        let mut i: usize = 0;
        while i < n
            invariant
                n == working@.len(),
                i <= n,
                same_motions(spheres@, working@),
                !change ==> working@ == snap,
                no_pair_overlaps(spheres@) ==> snap == spheres@ && !change,
                !change ==> forall|p: int, q: int|
                    0 <= p < q < n && p < i ==> !spec_pair_overlaps(working@[p], working@[q]),
            decreases n - i,
        {
            let mut j: usize = i + 1;
            while j < n
                invariant
                    n == working@.len(),
                    i < j <= n,
                    same_motions(spheres@, working@),
                    !change ==> working@ == snap,
                    no_pair_overlaps(spheres@) ==> snap == spheres@ && !change,
                    !change ==> forall|p: int, q: int|
                        0 <= p < q < n && (p < i || (p == i && q < j))
                            ==> !spec_pair_overlaps(working@[p], working@[q]),
                decreases n - j,
            {
                let a = working[i];
                let b = working[j];
                let diff = b.center.sub(&a.center);
                let dist = diff.length();
                let min_dist = fx_add(a.radius, b.radius);
                proof {
                    if no_pair_overlaps(spheres@) {
                        assert(!spec_pair_overlaps(spheres@[i as int], spheres@[j as int]));
                    }
                }
                if dist < min_dist {
                    let move_fraction_a = fx_div(b.mass, fx_add(b.mass, a.mass));
                    let move_fraction_b = fx_sub(1_000_000, move_fraction_a);
                    let move_dist = fx_sub(min_dist, dist);
                    let dir_b_to_a = unit_vector(&a.center.sub(&b.center));
                    let dir_a_to_b = unit_vector(&b.center.sub(&a.center));
                    let new_a_center = a
                        .center
                        .add(&dir_b_to_a.mul(move_dist).mul(move_fraction_a))
                        .add(&dir_b_to_a.mul(SOLVER_EPSILON));
                    let new_b_center = b
                        .center
                        .add(&dir_a_to_b.mul(move_dist).mul(move_fraction_b))
                        .add(&dir_a_to_b.mul(SOLVER_EPSILON));
                    working.set(i, Sphere { center: new_a_center, ..a });
                    working.set(j, Sphere { center: new_b_center, ..b });
                    change = true;
                }
                j = j + 1;
            }
            i = i + 1;
        }
        passes = passes + 1;
    }
    let converged = !change;
    proof {
        if no_pair_overlaps(spheres@) {
            assert(passes > 0 || !change);
        }
    }
    (working, converged)
}

/// The decay factor applied to speeds by friction: `1 - delta_t * friction`.
pub open spec fn spec_friction_factor(delta_t: int, friction: int) -> int {
    fsub(FX_ONE as int, fmul(delta_t, friction))
}

/// A sphere with its speed scaled by the friction decay factor.
pub open spec fn spec_frictioned_sphere(s: Sphere, delta_t: int, friction: int) -> Sphere {
    Sphere { speed: vscale(s.speed, spec_friction_factor(delta_t, friction)), ..s }
}

/// The whole list after the friction stage.
pub open spec fn spec_friction(s: Seq<Sphere>, delta_t: int, friction: int) -> Seq<Sphere> {
    Seq::new(s.len(), |i: int| spec_frictioned_sphere(s[i], delta_t, friction))
}

/// Scale every speed by `1 - delta_t * friction`, an exponential decay.
/// A friction of zero leaves every speed unchanged.
pub fn friction(spheres: &Vec<Sphere>, delta_t: i64, friction_strength: i64) -> (r: Vec<Sphere>)
    ensures
        r@ == spec_friction(spheres@, delta_t as int, friction_strength as int),
        friction_strength == 0 ==> r@ == spheres@,
{
    let n = spheres.len();
    let mut result: Vec<Sphere> = Vec::new();
    let mut i: usize = 0;
    while i < n
        invariant
            n == spheres@.len(),
            i <= n,
            result@.len() == i,
            forall|k: int|
                0 <= k < i ==> result@[k] == spec_frictioned_sphere(
                    spheres@[k],
                    delta_t as int,
                    friction_strength as int,
                ),
        decreases n - i,
    {
        let sphere = spheres[i];
        let factor = fx_sub(1_000_000, fx_mul(delta_t, friction_strength));
        result.push(Sphere { speed: sphere.speed.mul(factor), ..sphere });
        i = i + 1;
    }
    proof {
        assert(result@ =~= spec_friction(spheres@, delta_t as int, friction_strength as int));
        if friction_strength == 0 {
            lemma_friction_zero(spheres@, delta_t as int);
            assert(result@ == spheres@);
        }
    }
    result
}

/// With a friction of zero the decay factor is exactly one, and scaling by
/// one is the identity, so the friction stage changes no speed.
pub proof fn lemma_friction_zero(s: Seq<Sphere>, delta_t: int)
    ensures
        spec_friction(s, delta_t, 0) =~= s,
{
    assert forall|i: int| 0 <= i < s.len() implies spec_frictioned_sphere(s[i], delta_t, 0)
        == s[i] by {
        lemma_fmul_zero(delta_t);
        assert(spec_friction_factor(delta_t, 0) == FX_ONE as int);
        lemma_vscale_one(s[i].speed);
    }
}

/// Scaling a vector by exactly one changes nothing.
proof fn lemma_vscale_one(v: Vector3d)
    ensures
        vscale(v, FX_ONE as int) == v,
{
    lemma_fmul_one(v.x as int);
    lemma_fmul_one(v.y as int);
    lemma_fmul_one(v.z as int);
}

/// Zero if `x` is negative, else `x`: the floor applied to the glow.
pub open spec fn fmax0(x: int) -> int {
    if x < 0 {
        0
    } else {
        x
    }
}

/// The glow after one decay step:
/// `extra_brightness - (extra_brightness * dim_factor + dim_constant) * delta_t`,
/// floored at zero.
pub open spec fn spec_dim_value(eb: int, delta_t: int, dim_factor: int, dim_constant: int) -> int {
    fmax0(fsub(eb, fadd(fmul(fmul(eb, dim_factor), delta_t), fmul(dim_constant, delta_t))))
}

/// A sphere with its glow decayed.
pub open spec fn spec_dimmed_sphere(s: Sphere, delta_t: int, dim_factor: int, dim_constant: int)
    -> Sphere {
    Sphere {
        extra_brightness: spec_dim_value(
            s.extra_brightness as int,
            delta_t,
            dim_factor,
            dim_constant,
        ) as i64,
        ..s
    }
}

/// The whole list after the glow-decay stage.
pub open spec fn spec_dim(s: Seq<Sphere>, delta_t: int, dim_factor: int, dim_constant: int)
    -> Seq<Sphere> {
    Seq::new(s.len(), |i: int| spec_dimmed_sphere(s[i], delta_t, dim_factor, dim_constant))
}

/// Decay every sphere's transient glow toward zero, never below it.
pub fn dim(spheres: &Vec<Sphere>, delta_t: i64, dim_factor: i64, dim_constant: i64) -> (r: Vec<
    Sphere,
>)
    ensures
        r@ == spec_dim(spheres@, delta_t as int, dim_factor as int, dim_constant as int),
        forall|k: int| 0 <= k < r@.len() ==> r@[k].extra_brightness >= 0,
{
    let n = spheres.len();
    let mut result: Vec<Sphere> = Vec::new();
    let mut i: usize = 0;
    while i < n
        invariant
            n == spheres@.len(),
            i <= n,
            result@.len() == i,
            forall|k: int|
                0 <= k < i ==> result@[k] == spec_dimmed_sphere(
                    spheres@[k],
                    delta_t as int,
                    dim_factor as int,
                    dim_constant as int,
                ),
            forall|k: int| 0 <= k < i ==> result@[k].extra_brightness >= 0,
        decreases n - i,
    {
        let sphere = spheres[i];
        let decayed = fx_sub(
            sphere.extra_brightness,
            fx_add(
                fx_mul(fx_mul(sphere.extra_brightness, dim_factor), delta_t),
                fx_mul(dim_constant, delta_t),
            ),
        );
        let floored: i64 = if decayed < 0 {
            0
        } else {
            decayed
        };
        result.push(Sphere { extra_brightness: floored, ..sphere });
        i = i + 1;
    }
    proof {
        assert(result@ =~= spec_dim(
            spheres@,
            delta_t as int,
            dim_factor as int,
            dim_constant as int,
        ));
    }
    result
}

} // verus!
