use bouncing_spheres::color::{black, blend_colors, Color};

fn c(r: i64, g: i64, b: i64) -> Color {
    Color { r, g, b }
}

#[test]
fn test_blend() {
    let result = blend_colors(&c(1_000_000, 0, 0), &c(0, 1_000_000, 0), 300_000);
    assert_eq!(result, c(300_000, 700_000, 0));
}

#[test]
fn test_color_arithmetic() {
    let a = c(250_000, 500_000, 1_000_000);
    let b = c(1_000_000, 500_000, 2_000_000);
    assert_eq!(a.add(&b), c(1_250_000, 1_000_000, 3_000_000));
    assert_eq!(a.mul(&b), c(250_000, 250_000, 2_000_000));
    assert_eq!(a.scale(2_000_000), c(500_000, 1_000_000, 2_000_000));
    assert_eq!(a.div(2_000_000), c(125_000, 250_000, 500_000));
    assert_eq!(black(), c(0, 0, 0));
}

#[test]
fn test_gamma_correct() {
    assert_eq!(c(1_000_000, 250_000, 0).sqrt_gamma_correct(), c(1_000_000, 500_000, 0));
}

#[test]
fn test_to_canvas_color_clamps() {
    // Negative channels clamp to zero, channels past one clamp to full.
    assert_eq!(c(-500_000, 500_000, 2_000_000).to_canvas_color(), (0, 127, 255));
    assert_eq!(c(1_000_000, 0, 1_000_000).to_canvas_color(), (255, 0, 255));
}
