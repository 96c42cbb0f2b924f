//! Fixed parameters of the bundled animation.

use vstd::prelude::*;
use crate::color::{cblend, blend_colors, Color};
use crate::physics::PhysicsSettings;
use crate::render::Sky;

verus! {

/// How many frames the bundled animation runs for.
pub fn num_frames() -> (r: usize)
    ensures
        r == 480,
{
    480
}

/// The physics knobs the bundled animation runs with: no gravity and no
/// bounce, a slight collision flash, a fast glow decay and strong friction.
pub fn physics_settings() -> (r: PhysicsSettings)
    ensures
        r == (PhysicsSettings {
            gravity_constant: 0,
            bounciness: 0,
            bounce_round_to_zero_threshold: 0,
            flash_strength: 6_000,
            dim_factor: 5_000_000,
            dim_constant: 1_320_000,
            friction: 12_100_000,
        }),
{
    PhysicsSettings {
        gravity_constant: 0,
        bounciness: 0,
        bounce_round_to_zero_threshold: 0,
        flash_strength: 6_000,
        dim_factor: 5_000_000,
        dim_constant: 1_320_000,
        friction: 12_100_000,
    }
}

/// The sky of the bundled animation at world time `t_real`: night colors
/// fading into day colors as time runs from zero to one.
pub fn sky(t_real: i64) -> (r: Sky)
    ensures
        r.col1 == cblend(
            (Color { r: 600_000, g: 500_000, b: 500_000 }),
            (Color { r: 600_000, g: 600_000, b: 600_000 }),
            t_real as int,
        ),
        r.col2 == cblend(
            (Color { r: 400_000, g: 100_000, b: 150_000 }),
            (Color { r: 300_000, g: 400_000, b: 500_000 }),
            t_real as int,
        ),
{
    let sky_factor = t_real;
    let day1 = Color { r: 600_000, g: 600_000, b: 600_000 };
    let day2 = Color { r: 300_000, g: 400_000, b: 500_000 };
    let night1 = Color { r: 600_000, g: 500_000, b: 500_000 };
    let night2 = Color { r: 400_000, g: 100_000, b: 150_000 };
    Sky {
        col1: blend_colors(&night1, &day1, sky_factor),
        col2: blend_colors(&night2, &day2, sky_factor),
    }
}

} // verus!
