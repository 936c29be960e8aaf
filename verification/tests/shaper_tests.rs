use vpad::shaper::{shape, MotionDelta, Profile, MOUSE_SENSITIVITY, VERTICAL_BIAS_TENTHS};

fn delta(dx_milli: i64, dy_milli: i64) -> MotionDelta {
    MotionDelta { dx_milli, dy_milli }
}

#[test]
fn default_profile_matches_the_shipped_constants() {
    let p = Profile::default();
    assert_eq!(p.sensitivity, 250);
    assert_eq!(p.sensitivity, MOUSE_SENSITIVITY);
    assert_eq!(p.vertical_bias_tenths, 15);
    assert_eq!(p.vertical_bias_tenths, VERTICAL_BIAS_TENTHS);
}

#[test]
fn zero_delta_shapes_to_dead_center() {
    assert_eq!(shape(delta(0, 0), Profile::default()), (0, 0));
    // For any sensitivity: the curve's offset never moves a resting stick.
    for sensitivity in [1, 2, 10, 250, 1000, 4_000_000_000] {
        for bias in [12, 13, 14, 15] {
            let p = Profile { sensitivity, vertical_bias_tenths: bias };
            assert_eq!(shape(delta(0, 0), p), (0, 0));
        }
    }
}

#[test]
fn five_unit_horizontal_delta_at_sensitivity_250() {
    // Remap of 5 units from [-0.04, 0.04] onto [-127, 128] gives 15938;
    // the square-root compression truncates to 126.
    let (x, y) = shape(delta(5000, 0), Profile::default());
    assert_eq!(x, 126);
    assert_eq!(y, 0);
}

#[test]
fn sign_is_preserved() {
    let p = Profile::default();
    assert_eq!(shape(delta(-5000, 0), p).0, -126);
    let (x, y) = shape(delta(0, 1000), p);
    assert_eq!(x, 0);
    assert_eq!(y, 69);
    assert_eq!(shape(delta(0, -1000), p).1, -69);
}

#[test]
fn exact_small_values() {
    let p = Profile::default();
    // Remap of 1 unit gives 3188; isqrt(3188) == 56.
    assert_eq!(shape(delta(1000, 0), p).0, 56);
    // Vertically the remap is further scaled by 1.5: 4782; isqrt == 69.
    assert_eq!(shape(delta(0, 1000), p).1, 69);
}

#[test]
fn large_deltas_clamp_to_the_axis_range() {
    let p = Profile::default();
    assert_eq!(shape(delta(1_000_000, 0), p).0, 128);
    assert_eq!(shape(delta(-1_000_000, 0), p).0, -127);
    assert_eq!(shape(delta(0, 1_000_000), p).1, 128);
    assert_eq!(shape(delta(0, -1_000_000), p).1, -127);
    // Even absurd deltas stay in range.
    assert_eq!(shape(delta(i64::MAX, i64::MIN), p), (128, -127));
    assert_eq!(shape(delta(i64::MIN, i64::MAX), p), (-127, 128));
}

#[test]
fn magnitude_is_monotone_in_the_delta() {
    let p = Profile::default();
    let mut previous: i32 = 0;
    for step in 0..200 {
        let (x, _) = shape(delta(step * 100, 0), p);
        assert!(x >= previous);
        previous = x;
    }
    let mut previous: i32 = 0;
    for step in 0..200 {
        let (_, y) = shape(delta(0, -step * 100), p);
        assert!(-y >= previous);
        previous = -y;
    }
}

#[test]
fn every_shaped_value_is_in_axis_range() {
    let p = Profile::default();
    for dx in [-8_000_000, -20_000, -1, 0, 1, 377, 20_000, 8_000_000] {
        for dy in [-8_000_000, -20_000, -1, 0, 1, 377, 20_000, 8_000_000] {
            let (x, y) = shape(delta(dx, dy), p);
            assert!((-127..=128).contains(&x));
            assert!((-127..=128).contains(&y));
        }
    }
}

#[test]
fn vertical_bias_scales_the_vertical_axis_up() {
    let p = Profile::default();
    let (x, y) = shape(delta(1000, 1000), p);
    assert!(y > x);
}
