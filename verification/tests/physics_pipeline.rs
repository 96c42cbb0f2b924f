use bouncing_spheres::color::Color;
use bouncing_spheres::material::Material;
use bouncing_spheres::physics::{
    bounce, dim, friction, gravitate, move_positions, solve_non_overlapping_constraint,
    PhysicsSettings,
};
use bouncing_spheres::sphere::Sphere;
use bouncing_spheres::vector3d::Vector3d;
use bouncing_spheres::world::World;

const FX: i64 = 1_000_000;

fn v(x: i64, y: i64, z: i64) -> Vector3d {
    Vector3d { x, y, z }
}

fn plain_material() -> Material {
    Material {
        albedo: Color { r: 500_000, g: 500_000, b: 500_000 },
        reflectiveness: 0,
        reflection_fuzz: 0,
    }
}

fn sphere_at(id: u64, center: Vector3d, radius: i64, speed: Vector3d) -> Sphere {
    Sphere {
        id,
        center,
        radius,
        material: plain_material(),
        speed,
        mass: radius,
        extra_brightness: 0,
        center_old: center,
    }
}

fn zero_settings() -> PhysicsSettings {
    PhysicsSettings {
        gravity_constant: 0,
        bounciness: 0,
        bounce_round_to_zero_threshold: 0,
        flash_strength: 0,
        dim_factor: 0,
        dim_constant: 0,
        friction: 0,
    }
}

#[test]
fn test_move_positions_advances_centers() {
    let spheres = vec![sphere_at(1, v(0, 0, 0), FX, v(2 * FX, 0, 0))];
    let moved = move_positions(&spheres, 500_000);
    assert_eq!(moved[0].center, v(FX, 0, 0));
    assert_eq!(moved[0].center_old, v(0, 0, 0));
    assert_eq!(moved[0].speed, v(2 * FX, 0, 0));
}

#[test]
fn test_gravitate_zero_constant_changes_nothing() {
    let spheres = vec![
        sphere_at(1, v(0, 0, 0), FX, v(FX, 0, 0)),
        sphere_at(2, v(5 * FX, 0, 0), FX, v(0, 0, 0)),
    ];
    let pulled = gravitate(&spheres, FX, 0);
    assert_eq!(pulled[0].speed, spheres[0].speed);
    assert_eq!(pulled[1].speed, spheres[1].speed);
}

#[test]
fn test_gravitate_pulls_spheres_together() {
    let spheres = vec![
        sphere_at(1, v(0, 0, 0), FX, v(0, 0, 0)),
        sphere_at(2, v(2 * FX, 0, 0), FX, v(0, 0, 0)),
    ];
    // One step with unit gravity: each sphere accelerates toward the other
    // by g * m / dist^2 = 1 * 1 / 4 of a unit.
    let pulled = gravitate(&spheres, FX, FX);
    assert_eq!(pulled[0].speed, v(250_000, 0, 0));
    assert_eq!(pulled[1].speed, v(-250_000, 0, 0));
}

#[test]
fn test_friction_zero_changes_nothing() {
    let spheres = vec![sphere_at(1, v(0, 0, 0), FX, v(123_456, -654_321, 7))];
    let slowed = friction(&spheres, FX, 0);
    assert_eq!(slowed[0].speed, spheres[0].speed);
}

#[test]
fn test_friction_decays_speed() {
    let spheres = vec![sphere_at(1, v(0, 0, 0), FX, v(FX, -2 * FX, 0))];
    let slowed = friction(&spheres, FX, 500_000);
    assert_eq!(slowed[0].speed, v(500_000, -FX, 0));
}

#[test]
fn test_dim_decays_and_floors_at_zero() {
    let mut glowing = sphere_at(1, v(0, 0, 0), FX, v(0, 0, 0));
    glowing.extra_brightness = FX;
    let dimmed = dim(&vec![glowing], FX, 500_000, 0);
    assert_eq!(dimmed[0].extra_brightness, 500_000);
    let crushed = dim(&vec![glowing], FX, 0, 5 * FX);
    assert_eq!(crushed[0].extra_brightness, 0);
}

#[test]
fn test_equal_mass_full_bounce_swaps_speeds() {
    // Two overlapping equal spheres, one moving straight at the other:
    // with bounciness one the contact-normal speeds are exchanged exactly.
    let a = sphere_at(1, v(0, 0, 0), FX, v(FX, 0, 0));
    let b = sphere_at(2, v(1_500_000, 0, 0), FX, v(0, 0, 0));
    let bounced = bounce(&vec![a, b], FX, 0, 0);
    assert_eq!(bounced[0].speed, v(0, 0, 0));
    assert_eq!(bounced[1].speed, v(FX, 0, 0));
}

#[test]
fn test_bounce_ignores_separated_pairs() {
    let a = sphere_at(1, v(0, 0, 0), FX, v(FX, 0, 0));
    let b = sphere_at(2, v(5 * FX, 0, 0), FX, v(0, 0, 0));
    let bounced = bounce(&vec![a, b], FX, 0, 0);
    assert_eq!(bounced[0].speed, a.speed);
    assert_eq!(bounced[1].speed, b.speed);
}

#[test]
fn test_solver_separates_overlapping_pair() {
    let a = sphere_at(1, v(0, 0, 0), FX, v(0, 0, 0));
    let b = sphere_at(2, v(FX, 0, 0), FX, v(0, 0, 0));
    let (solved, converged) = solve_non_overlapping_constraint(&vec![a, b]);
    assert!(converged);
    let gap = solved[1].center.sub(&solved[0].center);
    assert!(gap.length() >= 2 * FX);
    // Only centers moved.
    assert_eq!(solved[0].speed, a.speed);
    assert_eq!(solved[0].center_old, a.center_old);
    assert_eq!(solved[1].radius, b.radius);
}

#[test]
fn test_solver_leaves_separated_spheres_alone() {
    let a = sphere_at(1, v(0, 0, 0), FX, v(0, 0, 0));
    let b = sphere_at(2, v(5 * FX, 0, 0), FX, v(0, 0, 0));
    let (solved, converged) = solve_non_overlapping_constraint(&vec![a, b]);
    assert!(converged);
    assert_eq!(solved[0], a);
    assert_eq!(solved[1], b);
}

#[test]
fn test_solver_reports_non_convergence_for_coincident_centers() {
    // Two spheres sharing a center have no contact normal to push along:
    // the solver cannot separate them, reports that it did not converge,
    // and still returns the list instead of failing.
    let a = sphere_at(1, v(FX, FX, FX), FX, v(0, 0, 0));
    let b = sphere_at(2, v(FX, FX, FX), FX, v(0, 0, 0));
    let (solved, converged) = solve_non_overlapping_constraint(&vec![a, b]);
    assert!(!converged);
    assert_eq!(solved.len(), 2);
    assert_eq!(solved[0].center, a.center);
    assert_eq!(solved[1].center, b.center);
}

#[test]
fn test_all_zero_settings_advance_is_identity() {
    // One resting sphere and all-zero settings: every stage is a no-op, so
    // one step of one unit of time returns an identical sphere.
    let sphere = sphere_at(7, v(0, 0, -5 * FX), FX, v(0, 0, 0));
    let world = World { spheres: vec![sphere] };
    let next = world.advance(FX, 0, &zero_settings());
    assert_eq!(next.spheres.len(), 1);
    assert_eq!(next.spheres[0], sphere);
}

#[test]
fn test_radius_invariant_across_advances() {
    let settings = PhysicsSettings {
        gravity_constant: 2 * FX,
        bounciness: 800_000,
        bounce_round_to_zero_threshold: 10,
        flash_strength: 6_000,
        dim_factor: 5 * FX,
        dim_constant: 1_320_000,
        friction: 500_000,
    };
    let mut world = World {
        spheres: vec![
            sphere_at(1, v(0, 0, 0), FX, v(FX, 0, 0)),
            sphere_at(2, v(3 * FX, 0, 0), 2 * FX, v(-FX, 0, 0)),
            sphere_at(3, v(0, 3 * FX, 0), 500_000, v(0, 0, FX)),
        ],
    };
    let radii: Vec<i64> = world.spheres.iter().map(|s| s.radius).collect();
    let masses: Vec<i64> = world.spheres.iter().map(|s| s.mass).collect();
    let ids: Vec<u64> = world.spheres.iter().map(|s| s.id).collect();
    let mut t: i64 = 0;
    for step in 1..6i64 {
        let t_next = t + step * 250_000;
        world = world.advance(t_next, t, &settings);
        t = t_next;
    }
    assert_eq!(world.spheres.iter().map(|s| s.radius).collect::<Vec<i64>>(), radii);
    assert_eq!(world.spheres.iter().map(|s| s.mass).collect::<Vec<i64>>(), masses);
    assert_eq!(world.spheres.iter().map(|s| s.id).collect::<Vec<u64>>(), ids);
}
