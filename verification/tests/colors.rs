use lyapunov_fractal::binary64::Binary64;
use lyapunov_fractal::color::{gradient, quantize, ramp_of, singular, unit_interval, Ramp};

fn val(x: f64) -> Binary64 {
    Binary64 { bits: x.to_bits() }
}

/// The colour for the ratio `t` of exponent to scale: the library decides,
/// the arithmetic between its decisions is done here on doubles.
fn color_of_ratio(t: f64) -> [u8; 3] {
    let position = unit_interval(val(t));
    let p = f64::from_bits(position.bits);
    let ramp = ramp_of(position);
    let k = match ramp {
        Ramp::BlackToBlue => p / 0.5,
        Ramp::BlueToWhite => (p - 0.5) / 0.5,
    };
    gradient(ramp, val(255.0 * k)).0
}

#[test]
fn gradient_starts_black() {
    assert_eq!(color_of_ratio(0.0), [0, 0, 0]);
}

#[test]
fn gradient_is_blue_at_one_half() {
    assert_eq!(color_of_ratio(0.5), [0, 0, 255]);
}

#[test]
fn gradient_ends_white() {
    assert_eq!(color_of_ratio(1.0), [255, 255, 255]);
}

#[test]
fn gradient_quarter_points() {
    assert_eq!(color_of_ratio(0.25), [0, 0, 127]);
    assert_eq!(color_of_ratio(0.75), [127, 127, 255]);
    assert_eq!(color_of_ratio(0.1), [0, 0, 51]);
    assert_eq!(color_of_ratio(0.9), [204, 204, 255]);
}

#[test]
fn ratios_outside_the_unit_interval_are_clamped() {
    assert_eq!(color_of_ratio(-3.0), [0, 0, 0]);
    assert_eq!(color_of_ratio(-0.0), [0, 0, 0]);
    assert_eq!(color_of_ratio(1.0000000000000002), [255, 255, 255]);
    assert_eq!(color_of_ratio(17.0), [255, 255, 255]);
    assert_eq!(color_of_ratio(f64::MAX), [255, 255, 255]);
}

#[test]
fn ratios_that_are_not_finite_get_the_top_of_the_gradient() {
    assert_eq!(color_of_ratio(f64::NAN), [255, 255, 255]);
    assert_eq!(color_of_ratio(f64::INFINITY), [255, 255, 255]);
    assert_eq!(color_of_ratio(f64::NEG_INFINITY), [255, 255, 255]);
}

#[test]
fn unit_interval_returns_inner_ratios_unchanged() {
    for t in [5e-324, 1e-8, 0.25, 0.5, 0.75, 0.9999999999999999] {
        assert_eq!(unit_interval(val(t)), val(t));
    }
}

#[test]
fn unit_interval_clamps_to_zero_and_one() {
    assert_eq!(unit_interval(val(-1.0)), val(0.0));
    assert_eq!(unit_interval(val(-0.0)), val(0.0));
    assert_eq!(unit_interval(val(0.0)), val(0.0));
    assert_eq!(unit_interval(val(1.0)), val(1.0));
    assert_eq!(unit_interval(val(2.5)), val(1.0));
    assert_eq!(unit_interval(val(f64::NAN)), val(1.0));
    assert_eq!(unit_interval(val(f64::INFINITY)), val(1.0));
    assert_eq!(unit_interval(val(f64::NEG_INFINITY)), val(1.0));
}

#[test]
fn one_half_ends_the_lower_ramp() {
    assert_eq!(ramp_of(val(0.0)), Ramp::BlackToBlue);
    assert_eq!(ramp_of(val(0.49999999999999994)), Ramp::BlackToBlue);
    assert_eq!(ramp_of(val(0.5)), Ramp::BlackToBlue);
    assert_eq!(ramp_of(val(0.5000000000000001)), Ramp::BlueToWhite);
    assert_eq!(ramp_of(val(1.0)), Ramp::BlueToWhite);
    assert_eq!(ramp_of(val(f64::NAN)), Ramp::BlueToWhite);
}

#[test]
fn gradient_truncates_the_scaled_position() {
    assert_eq!(gradient(Ramp::BlackToBlue, val(0.0)).0, [0, 0, 0]);
    assert_eq!(gradient(Ramp::BlackToBlue, val(0.999)).0, [0, 0, 0]);
    assert_eq!(gradient(Ramp::BlackToBlue, val(127.5)).0, [0, 0, 127]);
    assert_eq!(gradient(Ramp::BlackToBlue, val(254.99999999999997)).0, [0, 0, 254]);
    assert_eq!(gradient(Ramp::BlackToBlue, val(255.0)).0, [0, 0, 255]);
    assert_eq!(gradient(Ramp::BlueToWhite, val(0.0)).0, [0, 0, 255]);
    assert_eq!(gradient(Ramp::BlueToWhite, val(12.75)).0, [12, 12, 255]);
    assert_eq!(gradient(Ramp::BlueToWhite, val(254.5)).0, [254, 254, 255]);
    assert_eq!(gradient(Ramp::BlueToWhite, val(255.0)).0, [255, 255, 255]);
}

#[test]
fn gradient_is_continuous_at_one_half() {
    assert_eq!(
        gradient(Ramp::BlackToBlue, val(255.0)).0,
        gradient(Ramp::BlueToWhite, val(0.0)).0
    );
}

#[test]
fn channels_rise_within_each_ramp() {
    let mut previous = color_of_ratio(0.0);
    let mut i = 0;
    while i <= 2048 {
        let t = (i as f64) / 4096.0;
        let c = color_of_ratio(t);
        assert_eq!(c[0], 0);
        assert_eq!(c[1], 0);
        assert!(previous[2] <= c[2]);
        previous = c;
        i += 1;
    }
    assert_eq!(previous, [0, 0, 255]);
    while i <= 4096 {
        let t = (i as f64) / 4096.0;
        let c = color_of_ratio(t);
        assert_eq!(c[2], 255);
        assert_eq!(c[0], c[1]);
        if i > 2049 {
            assert!(previous[0] <= c[0]);
        }
        previous = c;
        i += 1;
    }
    assert_eq!(previous, [255, 255, 255]);
}

#[test]
fn singular_pixels_are_white() {
    assert_eq!(singular().0, [255, 255, 255]);
    assert_eq!(singular(), image::Rgb([255u8, 255u8, 255u8]));
}

#[test]
fn quantize_truncates_each_channel() {
    assert_eq!(quantize(val(1.9), val(128.2), val(255.0)).0, [1, 128, 255]);
    assert_eq!(quantize(val(-4.0), val(f64::NAN), val(1e9)).0, [0, 0, 255]);
    assert_eq!(quantize(val(10.0), val(20.0), val(30.0)), image::Rgb([10u8, 20u8, 30u8]));
}

#[test]
fn colors_are_repeatable() {
    for t in [0.0, 0.123, 0.5, 0.77, 1.0, f64::NAN] {
        assert_eq!(color_of_ratio(t), color_of_ratio(t));
    }
}
