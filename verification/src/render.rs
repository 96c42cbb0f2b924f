//! The Monte Carlo path tracer.
//!
//! Each pixel averages jittered samples; each sample traces a motion-blurred
//! camera ray through the scene, bouncing until it is absorbed, escapes to
//! the sky gradient, or runs out of depth. Each row draws from a generator
//! seeded with the row index, so the whole image is a pure function of the
//! render inputs — repeated calls with identical inputs are bit-identical.
//! Rows are independent of one another; a driver may compute them in any
//! order or in parallel and join them, without changing a pixel.

use vstd::prelude::*;
use crate::camera::{CameraRange, spec_get_ray_camera_blend, get_ray_camera_blend};
use crate::color::{
    Color, cadd, cmul, cdiv, csqrt, cblack, cblend, black, blend_colors,
};
use crate::fixed::{fadd, fmul, fdiv, FX_ONE};
use crate::fixed::{fx_add, fx_mul, fx_div};
use crate::image::{Image, image_wf};
use crate::material::spec_scatter;
use crate::ray::Ray;
use crate::rng::{Rng, rng_next_state, rng_unit};
use crate::sphere::Sphere;
use crate::vector3d::{vunit, unit_vector};
use crate::world::{World, spec_world_hit};

verus! {

/// The sky: the gradient runs from `col1` for rays aimed straight down
/// to `col2` for rays aimed straight up.
#[derive(Clone, Copy, Debug, PartialEq, Eq, Structural)]
pub struct Sky {
    pub col1: Color,
    pub col2: Color,
}

/// The lower bound on accepted ray parameters, which avoids self-shadowing
/// at the hit point.
pub const RAY_T_MIN: i64 = 1_000;

/// The upper bound on accepted ray parameters; far enough to count as
/// infinity for any scene.
pub const RAY_T_MAX: i64 = 9_999_999_999_900_000;

/// The sky color of a ray: the vertical gradient
/// `blend(col2, col1, (unit(direction).y + 1) / 2)`.
pub open spec fn spec_sky_color(ray: Ray, sky: Sky) -> Color {
    cblend(
        sky.col2,
        sky.col1,
        fmul(500_000, fadd(vunit(ray.direction).y as int, FX_ONE as int)),
    )
}

/// What `ray_color` returns for a generator in state `s0`: black when the
/// depth is spent; else the nearest hit scatters and attenuates the color
/// of the scattered ray, an absorbed ray is black, and a ray that escapes
/// every sphere takes the sky gradient.
pub open spec fn spec_ray_color(
    s0: u64,
    ray: Ray,
    spheres: Seq<Sphere>,
    depth: int,
    sky: Sky,
) -> (Color, u64)
    decreases depth,
{
    if depth <= 0 {
        (cblack(), s0)
    } else {
        match spec_world_hit(spheres, ray, RAY_T_MIN as int, RAY_T_MAX as int) {
            Some(rec) => {
                let (scattered, s1) = spec_scatter(s0, rec.material, ray, rec);
                match scattered {
                    Some(pair) => {
                        let (rest, s2) = spec_ray_color(s1, pair.0, spheres, depth - 1, sky);
                        (cmul(pair.1, rest), s2)
                    },
                    None => (cblack(), s1),
                }
            },
            None => (spec_sky_color(ray, sky), s0),
        }
    }
}

/// The color one bounced ray contributes, recursively; advances `rng` by
/// exactly the draws the traced path needed.
pub fn ray_color(rng: &mut Rng, ray: &Ray, world: &World, depth: usize, sky: &Sky) -> (r: Color)
    ensures
        r == spec_ray_color(old(rng).state, *ray, world.spheres@, depth as int, *sky).0,
        final(rng).state == spec_ray_color(old(rng).state, *ray, world.spheres@, depth as int, *sky).1,
    decreases depth,
{
    if depth == 0 {
        return black();
    }
    match world.hit(ray, RAY_T_MIN, RAY_T_MAX) {
        Some(rec) => {
            match rec.material.scatter(rng, ray, &rec) {
                Some((scattered, attenuation)) => {
                    let rest = ray_color(rng, &scattered, world, depth - 1, sky);
                    attenuation.mul(&rest)
                },
                None => black(),
            }
        },
        None => {
            let unit = unit_vector(&ray.direction);
            blend_colors(&sky.col2, &sky.col1, fx_mul(500_000, fx_add(unit.y, 1_000_000)))
        },
    }
}

/// What one pixel sample returns for a generator in state `s0`: a jittered
/// viewport position, a motion-blurred camera ray, and its traced color.
pub open spec fn spec_sample(
    s0: u64,
    x: int,
    y: int,
    width: int,
    height: int,
    max_depth: int,
    spheres: Seq<Sphere>,
    cams: CameraRange,
    sky: Sky,
) -> (Color, u64) {
    let s_h = rng_next_state(s0);
    let jitter_h = rng_unit(s_h);
    let s_v = rng_next_state(s_h);
    let jitter_v = rng_unit(s_v);
    let horizontal_fraction = fdiv(
        fadd(x * (FX_ONE as int), jitter_h),
        (width - 1) * (FX_ONE as int),
    );
    let vertical_fraction = fdiv(
        fadd(y * (FX_ONE as int), jitter_v),
        (height - 1) * (FX_ONE as int),
    );
    let (ray, s1) = spec_get_ray_camera_blend(s_v, horizontal_fraction, vertical_fraction, cams);
    spec_ray_color(s1, ray, spheres, max_depth, sky)
}

fn render_sample(
    rng: &mut Rng,
    x: usize,
    y: usize,
    width: usize,
    height: usize,
    max_depth: usize,
    world: &World,
    cams: &CameraRange,
    sky: &Sky,
) -> (r: Color)
    requires
        width <= 1_000_000,
        height <= 1_000_000,
        x < width,
        y < height,
    ensures
        r == spec_sample(
            old(rng).state,
            x as int,
            y as int,
            width as int,
            height as int,
            max_depth as int,
            world.spheres@,
            *cams,
            *sky,
        ).0,
        final(rng).state == spec_sample(
            old(rng).state,
            x as int,
            y as int,
            width as int,
            height as int,
            max_depth as int,
            world.spheres@,
            *cams,
            *sky,
        ).1,
{
    let jitter_h = rng.next_unit();
    let jitter_v = rng.next_unit();
    let horizontal_fraction = fx_div(
        fx_add((x as i64) * 1_000_000, jitter_h),
        (width as i64 - 1) * 1_000_000,
    );
    let vertical_fraction = fx_div(
        fx_add((y as i64) * 1_000_000, jitter_v),
        (height as i64 - 1) * 1_000_000,
    );
    let ray = get_ray_camera_blend(rng, horizontal_fraction, vertical_fraction, cams);
    ray_color(rng, &ray, world, max_depth, sky)
}

/// The sum of the first `count` samples of a pixel, with the generator
/// state after them.
pub open spec fn spec_pixel_sum(
    s0: u64,
    x: int,
    y: int,
    width: int,
    height: int,
    max_depth: int,
    spheres: Seq<Sphere>,
    cams: CameraRange,
    sky: Sky,
    count: int,
) -> (Color, u64)
    decreases count,
{
    if count <= 0 {
        (cblack(), s0)
    } else {
        let (acc, s1) = spec_pixel_sum(s0, x, y, width, height, max_depth, spheres, cams, sky,
            count - 1);
        let (sample, s2) = spec_sample(s1, x, y, width, height, max_depth, spheres, cams, sky);
        (cadd(acc, sample), s2)
    }
}

/// One finished pixel for a generator in state `s0`: the sample average,
/// tone-mapped by the square root; and the generator state after it.
pub open spec fn spec_pixel(
    s0: u64,
    x: int,
    y: int,
    width: int,
    height: int,
    samples_per_pixel: int,
    max_depth: int,
    spheres: Seq<Sphere>,
    cams: CameraRange,
    sky: Sky,
) -> (Color, u64) {
    let (sum, s1) = spec_pixel_sum(s0, x, y, width, height, max_depth, spheres, cams, sky,
        samples_per_pixel);
    (csqrt(cdiv(sum, samples_per_pixel * (FX_ONE as int))), s1)
}

/// The generator state at which the pixel of column `x` in row `y` starts:
/// the row is seeded with the row index and the pixels before `x` have
/// drawn their samples.
pub open spec fn spec_pixel_state(
    x: int,
    y: int,
    width: int,
    height: int,
    samples_per_pixel: int,
    max_depth: int,
    spheres: Seq<Sphere>,
    cams: CameraRange,
    sky: Sky,
) -> u64
    decreases x,
{
    if x <= 0 {
        y as u64
    } else {
        spec_pixel(
            spec_pixel_state(x - 1, y, width, height, samples_per_pixel, max_depth, spheres,
                cams, sky),
            x - 1,
            y,
            width,
            height,
            samples_per_pixel,
            max_depth,
            spheres,
            cams,
            sky,
        ).1
    }
}

/// The finished pixel of column `x` in row `y`.
#[verifier::opaque]
pub open spec fn spec_pixel_color(
    x: int,
    y: int,
    width: int,
    height: int,
    samples_per_pixel: int,
    max_depth: int,
    spheres: Seq<Sphere>,
    cams: CameraRange,
    sky: Sky,
) -> Color {
    spec_pixel(
        spec_pixel_state(x, y, width, height, samples_per_pixel, max_depth, spheres, cams, sky),
        x,
        y,
        width,
        height,
        samples_per_pixel,
        max_depth,
        spheres,
        cams,
        sky,
    ).0
}

/// The whole image buffer, row-major with row `0` at the bottom.
pub open spec fn spec_render_data(
    width: int,
    height: int,
    samples_per_pixel: int,
    max_depth: int,
    spheres: Seq<Sphere>,
    cams: CameraRange,
    sky: Sky,
) -> Seq<Color> {
    Seq::new(
        (width * height) as nat,
        |idx: int|
            spec_pixel_color(
                idx % width,
                idx / width,
                width,
                height,
                samples_per_pixel,
                max_depth,
                spheres,
                cams,
                sky,
            ),
    )
}

fn render_pixel(
    rng: &mut Rng,
    x: usize,
    y: usize,
    width: usize,
    height: usize,
    samples_per_pixel: usize,
    max_depth: usize,
    world: &World,
    cams: &CameraRange,
    sky: &Sky,
) -> (r: Color)
    requires
        width <= 1_000_000,
        height <= 1_000_000,
        samples_per_pixel <= 1_000_000,
        x < width,
        y < height,
    ensures
        r == spec_pixel(
            old(rng).state,
            x as int,
            y as int,
            width as int,
            height as int,
            samples_per_pixel as int,
            max_depth as int,
            world.spheres@,
            *cams,
            *sky,
        ).0,
        final(rng).state == spec_pixel(
            old(rng).state,
            x as int,
            y as int,
            width as int,
            height as int,
            samples_per_pixel as int,
            max_depth as int,
            world.spheres@,
            *cams,
            *sky,
        ).1,
{
    let ghost pixel_start = rng.state;
    let mut acc = black();
    let mut s: usize = 0;
    while s < samples_per_pixel
        invariant
            width <= 1_000_000,
            height <= 1_000_000,
            x < width,
            y < height,
            s <= samples_per_pixel,
            acc == spec_pixel_sum(
                pixel_start,
                x as int,
                y as int,
                width as int,
                height as int,
                max_depth as int,
                world.spheres@,
                *cams,
                *sky,
                s as int,
            ).0,
            rng.state == spec_pixel_sum(
                pixel_start,
                x as int,
                y as int,
                width as int,
                height as int,
                max_depth as int,
                world.spheres@,
                *cams,
                *sky,
                s as int,
            ).1,
        decreases samples_per_pixel - s,
    {
        let sample = render_sample(rng, x, y, width, height, max_depth, world, cams, sky);
        acc = acc.add(&sample);
        s = s + 1;
    }
    acc.div((samples_per_pixel as i64) * 1_000_000).sqrt_gamma_correct()
}

/// One scanline of the image: the pixels of row `y`, left to right, each
/// pinned to its spec value. Rows are independent — each seeds its own
/// generator from the row index — so a driver may compute them in any
/// order, or in parallel, and join them.
pub fn render_row(
    y: usize,
    width: usize,
    height: usize,
    samples_per_pixel: usize,
    max_depth: usize,
    world: &World,
    cams: &CameraRange,
    sky: &Sky,
) -> (r: Vec<Color>)
    requires
        width <= 1_000_000,
        height <= 1_000_000,
        samples_per_pixel <= 1_000_000,
        y < height,
    ensures
        r@.len() == width,
        forall|xx: int|
            0 <= xx < width ==> r@[xx] == spec_pixel_color(
                xx,
                y as int,
                width as int,
                height as int,
                samples_per_pixel as int,
                max_depth as int,
                world.spheres@,
                *cams,
                *sky,
            ),
{
    let mut rng = Rng::seed_from(y as u64);
    let mut row: Vec<Color> = Vec::new();
    let mut x: usize = 0;
    while x < width
        invariant
            width <= 1_000_000,
            height <= 1_000_000,
            samples_per_pixel <= 1_000_000,
            y < height,
            x <= width,
            row@.len() == x,
            rng.state == spec_pixel_state(
                x as int,
                y as int,
                width as int,
                height as int,
                samples_per_pixel as int,
                max_depth as int,
                world.spheres@,
                *cams,
                *sky,
            ),
            forall|xx: int|
                0 <= xx < x ==> row@[xx] == spec_pixel_color(
                    xx,
                    y as int,
                    width as int,
                    height as int,
                    samples_per_pixel as int,
                    max_depth as int,
                    world.spheres@,
                    *cams,
                    *sky,
                ),
        decreases width - x,
    {
        let pixel = render_pixel(&mut rng, x, y, width, height, samples_per_pixel, max_depth,
            world, cams, sky);
        proof {
            reveal(spec_pixel_color);
        }
        row.push(pixel);
        x = x + 1;
    }
    row
}

/// Render the scene: `width * height` pixels, row-major, row `0` at the
/// bottom, each the tone-mapped average of `samples_per_pixel` jittered
/// samples. Every pixel is pinned to its spec value, so the image is a
/// pure function of the arguments.
#[verifier::rlimit(100)]
pub fn render(
    width: usize,
    height: usize,
    samples_per_pixel: usize,
    max_depth: usize,
    world: &World,
    cams: &CameraRange,
    sky: &Sky,
) -> (r: Image)
    requires
        width <= 1_000_000,
        height <= 1_000_000,
        samples_per_pixel <= 1_000_000,
    ensures
        image_wf(r),
        r.width == width,
        r.height == height,
        r.data@ == spec_render_data(
            width as int,
            height as int,
            samples_per_pixel as int,
            max_depth as int,
            world.spheres@,
            *cams,
            *sky,
        ),
        forall|x: int, y: int|
            0 <= x < width && 0 <= y < height ==> r.data@[y * width + x] == spec_pixel_color(
                x,
                y,
                width as int,
                height as int,
                samples_per_pixel as int,
                max_depth as int,
                world.spheres@,
                *cams,
                *sky,
            ),
{
    let mut data: Vec<Color> = Vec::new();
    let mut y: usize = 0;
    while y < height
        invariant
            width <= 1_000_000,
            height <= 1_000_000,
            samples_per_pixel <= 1_000_000,
            y <= height,
            data@.len() == y * width,
            forall|xx: int, yy: int|
                0 <= xx < width && 0 <= yy < y ==> data@[yy * width + xx] == spec_pixel_color(
                    xx,
                    yy,
                    width as int,
                    height as int,
                    samples_per_pixel as int,
                    max_depth as int,
                    world.spheres@,
                    *cams,
                    *sky,
                ),
        decreases height - y,
    {
        let row = render_row(y, width, height, samples_per_pixel, max_depth, world, cams, sky);
        proof {
            assert(y * width + width == (y + 1) * width) by (nonlinear_arith);
        }
        let mut k: usize = 0;
        while k < width
            invariant
                width <= 1_000_000,
                height <= 1_000_000,
                y < height,
                k <= width,
                row@.len() == width,
                data@.len() == y * width + k,
                forall|xx: int, yy: int|
                    0 <= xx < width && 0 <= yy < y ==> data@[yy * width + xx] == spec_pixel_color(
                        xx,
                        yy,
                        width as int,
                        height as int,
                        samples_per_pixel as int,
                        max_depth as int,
                        world.spheres@,
                        *cams,
                        *sky,
                    ),
                forall|xx: int| 0 <= xx < k ==> data@[y * width + xx] == row@[xx],
                forall|xx: int|
                    0 <= xx < width ==> row@[xx] == spec_pixel_color(
                        xx,
                        y as int,
                        width as int,
                        height as int,
                        samples_per_pixel as int,
                        max_depth as int,
                        world.spheres@,
                        *cams,
                        *sky,
                    ),
            decreases width - k,
        {
            proof {
                assert forall|xx: int, yy: int|
                    0 <= xx < width && 0 <= yy < y implies #[trigger] (yy * width + xx)
                        < y * width by {
                    assert(yy * width + xx < y * width) by (nonlinear_arith)
                        requires
                            0 <= xx < width,
                            0 <= yy < y,
                    ;
                }
            }
            data.push(row[k]);
            k = k + 1;
        }
        proof {
            assert forall|xx: int, yy: int|
                0 <= xx < width && 0 <= yy < y + 1 implies #[trigger] data@[yy * width + xx]
                    == spec_pixel_color(
                    xx,
                    yy,
                    width as int,
                    height as int,
                    samples_per_pixel as int,
                    max_depth as int,
                    world.spheres@,
                    *cams,
                    *sky,
                ) by {
                if yy == y {
                    assert(data@[yy * width + xx] == row@[xx]);
                }
            }
        }
        y = y + 1;
    }
    proof {
        lemma_render_data_complete(
            data@,
            width as int,
            height as int,
            samples_per_pixel as int,
            max_depth as int,
            world.spheres@,
            *cams,
            *sky,
        );
    }
    Image { data, width, height }
}

proof fn lemma_render_data_complete(
    data: Seq<Color>,
    width: int,
    height: int,
    samples_per_pixel: int,
    max_depth: int,
    spheres: Seq<Sphere>,
    cams: CameraRange,
    sky: Sky,
)
    requires
        width >= 0,
        height >= 0,
        data.len() == height * width,
        forall|xx: int, yy: int|
            0 <= xx < width && 0 <= yy < height ==> data[yy * width + xx] == spec_pixel_color(
                xx,
                yy,
                width,
                height,
                samples_per_pixel,
                max_depth,
                spheres,
                cams,
                sky,
            ),
    ensures
        data == spec_render_data(
            width,
            height,
            samples_per_pixel,
            max_depth,
            spheres,
            cams,
            sky,
        ),
{
    assert(height * width == width * height) by (nonlinear_arith);
    let goal = spec_render_data(width, height, samples_per_pixel, max_depth, spheres, cams, sky);
    assert forall|idx: int| 0 <= idx < data.len() implies data[idx] == goal[idx] by {
        assert(width > 0) by (nonlinear_arith)
            requires
                width >= 0,
                height >= 0,
                0 <= idx < height * width,
        ;
        vstd::arithmetic::div_mod::lemma_fundamental_div_mod(idx, width);
        vstd::arithmetic::div_mod::lemma_mod_bound(idx, width);
        let xx = idx % width;
        let yy = idx / width;
        assert(0 <= yy < height) by (nonlinear_arith)
            requires
                width > 0,
                idx == width * yy + xx,
                0 <= xx < width,
                0 <= idx < height * width,
        ;
        assert(idx == yy * width + xx) by (nonlinear_arith)
            requires
                idx == width * yy + xx,
        ;
    }
    assert(data =~= goal);
}

/// Rendering an empty world involves no recursion: a ray meets nothing, so
/// it takes the sky-gradient color at once and the generator is untouched.
pub proof fn lemma_empty_world_ray_color(
    s0: u64,
    ray: Ray,
    spheres: Seq<Sphere>,
    depth: int,
    sky: Sky,
)
    requires
        spheres.len() == 0,
        depth >= 1,
    ensures
        spec_ray_color(s0, ray, spheres, depth, sky) == (spec_sky_color(ray, sky), s0),
{
}

/// Rendering is deterministic: the image contents are a function of the
/// render inputs alone, so repeated renders of identical inputs produce
/// bit-identical images.
pub proof fn lemma_render_deterministic(
    first: Image,
    second: Image,
    width: int,
    height: int,
    samples_per_pixel: int,
    max_depth: int,
    spheres: Seq<Sphere>,
    cams: CameraRange,
    sky: Sky,
)
    requires
        first.data@ == spec_render_data(
            width,
            height,
            samples_per_pixel,
            max_depth,
            spheres,
            cams,
            sky,
        ),
        second.data@ == spec_render_data(
            width,
            height,
            samples_per_pixel,
            max_depth,
            spheres,
            cams,
            sky,
        ),
    ensures
        first.data@ == second.data@,
{
}

} // verus!
