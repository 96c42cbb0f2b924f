use bouncing_spheres::camera::{Camera, CameraRange};
use bouncing_spheres::color::Color;
use bouncing_spheres::hit::Hit;
use bouncing_spheres::image::Image;
use bouncing_spheres::material::Material;
use bouncing_spheres::ray::Ray;
use bouncing_spheres::render::{ray_color, render, render_row, Sky};
use bouncing_spheres::rng::Rng;
use bouncing_spheres::sphere::Sphere;
use bouncing_spheres::vector3d::{random_in_unit_disk, random_unit_vector, Vector3d};
use bouncing_spheres::world::World;

const FX: i64 = 1_000_000;

fn v(x: i64, y: i64, z: i64) -> Vector3d {
    Vector3d { x, y, z }
}

fn c(r: i64, g: i64, b: i64) -> Color {
    Color { r, g, b }
}

fn matte(albedo: Color) -> Material {
    Material { albedo, reflectiveness: 0, reflection_fuzz: 0 }
}

fn still_sphere(center: Vector3d, radius: i64) -> Sphere {
    Sphere {
        id: 1,
        center,
        radius,
        material: matte(c(500_000, 400_000, 300_000)),
        speed: v(0, 0, 0),
        mass: radius,
        extra_brightness: 0,
        center_old: center,
    }
}

fn test_camera(aspect_ratio: i64) -> Camera {
    Camera::new(
        &v(0, 0, 21 * FX),
        &v(0, 0, 0),
        &v(0, FX, 0),
        839_099,  // tan of half of an 80-degree field of view
        aspect_ratio,
        0,
        21 * FX,
    )
}

fn test_cams() -> CameraRange {
    CameraRange { cam_a: test_camera(1_333_333), cam_b: test_camera(1_333_333) }
}

#[test]
fn test_axial_hit_reports_front_face_at_d_minus_r() {
    // A unit sphere at the origin, a ray fired from five units away along
    // the axis: the hit is on the front face at t = 4, exactly here since
    // the radius is a whole unit.
    let sphere = still_sphere(v(0, 0, 0), FX);
    let ray = Ray { origin: v(0, 0, 5 * FX), direction: v(0, 0, -FX), frame_time: 0 };
    let hit: Hit = sphere.hit(&ray, 0, 100 * FX).expect("the ray points at the sphere");
    assert!(hit.front_face);
    assert_eq!(hit.t, 4 * FX);
    assert_eq!(hit.position, v(0, 0, FX));
}

#[test]
fn test_miss_returns_none() {
    let sphere = still_sphere(v(0, 0, 0), FX);
    let ray = Ray { origin: v(0, 5 * FX, 5 * FX), direction: v(0, 0, -FX), frame_time: 0 };
    assert!(sphere.hit(&ray, 0, 100 * FX).is_none());
}

#[test]
fn test_world_hit_picks_nearest_sphere() {
    let near = still_sphere(v(0, 0, 0), FX);
    let mut far = still_sphere(v(0, 0, -10 * FX), FX);
    far.id = 2;
    let world = World { spheres: vec![far, near] };
    let ray = Ray { origin: v(0, 0, 5 * FX), direction: v(0, 0, -FX), frame_time: 0 };
    let hit = world.hit(&ray, 0, 1_000 * FX).expect("both spheres lie on the axis");
    assert_eq!(hit.t, 4 * FX);
}

#[test]
fn test_matte_scatter_always_returns_some() {
    // With reflectiveness zero the diffuse lobe is always chosen, and a
    // diffuse bounce never absorbs the ray.
    let material = matte(c(500_000, 400_000, 300_000));
    let ray = Ray { origin: v(0, 0, 5 * FX), direction: v(0, 0, -FX), frame_time: 0 };
    let hit = Hit {
        position: v(0, 0, FX),
        t: 4 * FX,
        normal: v(0, 0, FX),
        front_face: true,
        material,
    };
    for seed in 0..64u64 {
        let mut rng = Rng::seed_from(seed);
        assert!(material.scatter(&mut rng, &ray, &hit).is_some());
    }
}

#[test]
fn test_empty_world_ray_takes_sky_color_without_recursion() {
    let world = World { spheres: vec![] };
    let sky = Sky { col1: c(600_000, 600_000, 600_000), col2: c(300_000, 400_000, 500_000) };
    let ray = Ray { origin: v(0, 0, 0), direction: v(0, FX, 0), frame_time: 0 };
    let mut rng = Rng::seed_from(7);
    let color = ray_color(&mut rng, &ray, &world, 5, &sky);
    // Straight up the gradient factor is one, which selects col2; and the
    // generator was never consulted.
    assert_eq!(color, c(300_000, 400_000, 500_000));
    assert_eq!(rng.state, 7);
}

#[test]
fn test_empty_world_renders_to_sky() {
    // A white sky blends to white whatever the gradient factor, so every
    // pixel of an empty world is exactly white.
    let world = World { spheres: vec![] };
    let white = c(FX, FX, FX);
    let sky = Sky { col1: white, col2: white };
    let image: Image = render(4, 3, 1, 5, &world, &test_cams(), &sky);
    assert_eq!(image.width, 4);
    assert_eq!(image.height, 3);
    assert_eq!(image.data.len(), 12);
    for pixel in &image.data {
        assert_eq!(*pixel, white);
    }
}

#[test]
fn test_render_is_deterministic() {
    let world = World { spheres: vec![still_sphere(v(0, 0, 0), 2 * FX)] };
    let sky = Sky { col1: c(600_000, 600_000, 600_000), col2: c(300_000, 400_000, 500_000) };
    let first = render(6, 4, 1, 4, &world, &test_cams(), &sky);
    let second = render(6, 4, 1, 4, &world, &test_cams(), &sky);
    assert_eq!(first.data, second.data);
    assert_eq!(first.width, second.width);
    assert_eq!(first.height, second.height);
}

#[test]
fn test_render_rows_compose_the_image() {
    // Rows are independent: rendering row by row gives the same pixels as
    // the whole-image call, whatever order the rows are computed in.
    let world = World { spheres: vec![still_sphere(v(0, 0, 0), 2 * FX)] };
    let sky = Sky { col1: c(600_000, 600_000, 600_000), col2: c(300_000, 400_000, 500_000) };
    let image = render(5, 3, 2, 3, &world, &test_cams(), &sky);
    for y in (0..3usize).rev() {
        let row = render_row(y, 5, 3, 2, 3, &world, &test_cams(), &sky);
        assert_eq!(&image.data[y * 5..(y + 1) * 5], &row[..]);
    }
}

#[test]
fn test_image_get_and_set() {
    let mut image = Image::new(3, 2);
    assert_eq!(*image.get(2, 1), c(0, 0, 0));
    image.set(2, 1, c(1, 2, 3));
    assert_eq!(*image.get(2, 1), c(1, 2, 3));
    assert_eq!(*image.get(1, 1), c(0, 0, 0));
}

#[test]
fn test_rng_is_seeded_and_deterministic() {
    let mut a = Rng::seed_from(42);
    let mut b = Rng::seed_from(42);
    let first: Vec<u64> = (0..8).map(|_| a.next_u64()).collect();
    let second: Vec<u64> = (0..8).map(|_| b.next_u64()).collect();
    assert_eq!(first, second);
    let mut other = Rng::seed_from(43);
    assert_ne!(other.next_u64(), Rng::seed_from(42).next_u64());
    for _ in 0..100 {
        let u = a.next_unit();
        assert!(0 <= u && u < FX);
        let s = a.next_symmetric();
        assert!(-FX <= s && s < FX);
    }
}

#[test]
fn test_random_samplers_stay_in_bounds() {
    let mut rng = Rng::seed_from(9);
    for _ in 0..50 {
        let u = random_unit_vector(&mut rng);
        let len = u.length();
        // The normalized sample is a unit vector up to truncation.
        assert!((len - FX).abs() <= 2_000, "length was {len}");
        let d = random_in_unit_disk(&mut rng);
        assert_eq!(d.z, 0);
        assert!(d.length_squared() < FX);
    }
}
