use lyapunov_fractal::binary64::Binary64;
use lyapunov_fractal::color::{gradient, ramp_of, singular, unit_interval, Ramp};
use lyapunov_fractal::estimator::{Ending, LyapunovEstimator, Phase};
use lyapunov_fractal::params::{ConfigError, DoublePendulum};
use lyapunov_fractal::phase::PhaseState;

fn pack(x: f64) -> Binary64 {
    Binary64 { bits: x.to_bits() }
}

fn unpack(x: Binary64) -> f64 {
    f64::from_bits(x.bits)
}

fn coords(s: &PhaseState) -> [f64; 4] {
    [unpack(s.theta1), unpack(s.theta2), unpack(s.omega1), unpack(s.omega2)]
}

fn from_coords(c: [f64; 4]) -> PhaseState {
    PhaseState { theta1: pack(c[0]), theta2: pack(c[1]), omega1: pack(c[2]), omega2: pack(c[3]) }
}

fn add_scaled(a: &PhaseState, b: &PhaseState, s: f64) -> PhaseState {
    let (a, b) = (coords(a), coords(b));
    from_coords([a[0] + b[0] * s, a[1] + b[1] * s, a[2] + b[2] * s, a[3] + b[3] * s])
}

fn difference(a: &PhaseState, b: &PhaseState) -> PhaseState {
    let (a, b) = (coords(a), coords(b));
    from_coords([a[0] - b[0], a[1] - b[1], a[2] - b[2], a[3] - b[3]])
}

fn norm(a: &PhaseState) -> f64 {
    let a = coords(a);
    (a[0] * a[0] + a[1] * a[1] + a[2] * a[2] + a[3] * a[3]).sqrt()
}

fn deriv(g: f64, s: &PhaseState) -> PhaseState {
    let [th1, th2, w1, w2] = coords(s);
    let delta = th1 - th2;
    let den = 2.0 - (2.0 * delta).cos();
    let num1 = -g * (2.0 * th1.sin())
        - g * (th1 - 2.0 * th2).sin()
        - 2.0 * delta.sin() * (w2 * w2 + w1 * w1 * delta.cos());
    let num2 = 2.0 * delta.sin() * (w1 * w1 + g * th1.cos() + w2 * w2 * delta.cos());
    s.derivative(pack(num1 / den), pack(num2 / den))
}

fn rk4_step(g: f64, s: &PhaseState, dt: f64) -> PhaseState {
    let k1 = deriv(g, s);
    let k2 = deriv(g, &add_scaled(s, &k1, dt * 0.5));
    let k3 = deriv(g, &add_scaled(s, &k2, dt * 0.5));
    let k4 = deriv(g, &add_scaled(s, &k3, dt));
    let (s, k1, k2, k3, k4) = (coords(s), coords(&k1), coords(&k2), coords(&k3), coords(&k4));
    let mut out = [0.0f64; 4];
    for i in 0..4 {
        out[i] = s[i] + (dt / 6.0) * (k1[i] + 2.0 * k2[i] + 2.0 * k3[i] + k4[i]);
    }
    from_coords(out)
}

struct Estimate {
    lambda: f64,
    ending: Ending,
    steps: usize,
    measurements: usize,
}

/// The finite-time exponent of the pendulum released at the given angles.
fn estimate(p: DoublePendulum, th1: f64, th2: f64) -> Result<Estimate, ConfigError> {
    let mut schedule = LyapunovEstimator::new(p)?;
    let (dt, delta0, g) = (unpack(p.dt), unpack(p.delta0), unpack(p.g));
    let base = PhaseState::at_rest(pack(th1), pack(th2));
    let mut s = base;
    let mut sp = add_scaled(&base, &PhaseState::along_theta1(p.delta0), 1.0);
    let mut sum_log = 0.0f64;
    let mut time = 0.0f64;
    let mut measurements = 0usize;
    loop {
        match schedule.phase() {
            Phase::Integrating => {
                s = rk4_step(g, &s, dt);
                sp = rk4_step(g, &sp, dt);
                time += dt;
                schedule.advance(&s, &sp);
            }
            Phase::Renormalizing => {
                let diff = difference(&sp, &s);
                let d = norm(&diff);
                measurements += 1;
                if schedule.measure(pack(d)).contributes() {
                    sum_log += (d / delta0).ln();
                    let factor = delta0 / d;
                    let c = coords(&diff);
                    let unit =
                        from_coords([c[0] * factor, c[1] * factor, c[2] * factor, c[3] * factor]);
                    sp = add_scaled(&s, &unit, 1.0);
                }
            }
            Phase::Done => break,
        }
    }
    let lambda =
        if LyapunovEstimator::exponent_defined(pack(time)) { sum_log / time } else { 0.0 };
    Ok(Estimate {
        lambda,
        ending: schedule.ending().unwrap(),
        steps: schedule.steps(),
        measurements,
    })
}

fn color_at(p: DoublePendulum, px: f64, py: f64) -> [u8; 3] {
    let (low, high) = PhaseState::angle_range();
    let (min, max) = (unpack(low), unpack(high));
    let th1 = min + (max - min) * px;
    let th2 = min + (max - min) * py;
    let e = estimate(p, th1, th2).unwrap();
    if e.ending == Ending::Singular {
        return singular().0;
    }
    let position = unit_interval(pack(e.lambda / unpack(p.lyap_scale)));
    let t = unpack(position);
    let ramp = ramp_of(position);
    let k = match ramp {
        Ramp::BlackToBlue => t / 0.5,
        Ramp::BlueToWhite => (t - 0.5) / 0.5,
    };
    gradient(ramp, pack(255.0 * k)).0
}

#[test]
fn stable_equilibrium_has_a_small_exponent() {
    let e = estimate(DoublePendulum::default(), 0.0, 0.0).unwrap();
    assert_eq!(e.ending, Ending::Exhausted);
    assert_eq!(e.steps, 900);
    assert_eq!(e.measurements, 17);
    assert!(e.lambda.is_finite());
    assert!(e.lambda.abs() < 0.2, "lambda = {}", e.lambda);
    assert!((e.lambda - 0.0954686).abs() < 1e-4, "lambda = {}", e.lambda);
}

#[test]
fn released_near_the_top_the_pendulum_is_chaotic() {
    let e = estimate(DoublePendulum::default(), 3.0, 3.0).unwrap();
    assert_eq!(e.ending, Ending::Exhausted);
    assert!(e.lambda > 1.0, "lambda = {}", e.lambda);
    assert!((e.lambda - 1.9448).abs() < 0.05, "lambda = {}", e.lambda);
}

#[test]
fn invalid_parameters_stop_the_estimate_before_any_step() {
    let mut p = DoublePendulum::default();
    p.delta0 = pack(0.0);
    assert!(matches!(estimate(p, 0.0, 0.0), Err(ConfigError::NonPositivePerturbation)));
    assert!(matches!(estimate(p, 1.0, 2.0), Err(ConfigError::NonPositivePerturbation)));
}

#[test]
fn a_singular_gravity_gives_a_white_pixel() {
    let mut p = DoublePendulum::default();
    p.g = pack(f64::INFINITY);
    let e = estimate(p, 1.0, 0.5).unwrap();
    assert_eq!(e.ending, Ending::Singular);
    assert_eq!(e.steps, 1);
    assert_eq!(color_at(p, 0.7, 0.3), [255, 255, 255]);
}

#[test]
fn a_coarse_timestep_escapes_early() {
    let mut p = DoublePendulum::default();
    p.renorm_every = 1;
    p.dt = pack(1.0);
    let e = estimate(p, 3.0, 1.0).unwrap();
    assert_eq!(e.ending, Ending::Escaped);
    assert_eq!(e.steps, 2);
    assert_eq!(e.measurements, 1);
    // the exponent is taken over the two seconds that passed, not over 900
    assert!((e.lambda - 13.368).abs() < 0.01, "lambda = {}", e.lambda);
}

#[test]
fn the_centre_pixel_is_dark() {
    let c = color_at(DoublePendulum::default(), 0.5, 0.5);
    assert_eq!(c[0], 0);
    assert_eq!(c[1], 0);
    assert_eq!(c, [0, 0, 32]);
}

#[test]
fn a_chaotic_pixel_is_bright() {
    let c = color_at(DoublePendulum::default(), 0.9, 0.9);
    assert_eq!(c, [255, 255, 255]);
}

#[test]
fn a_pixel_is_the_same_each_time() {
    let p = DoublePendulum::default();
    let first = color_at(p, 0.31, 0.62);
    let other = color_at(p, 0.8, 0.1);
    let second = color_at(p, 0.31, 0.62);
    assert_eq!(first, second);
    assert_eq!(other, color_at(p, 0.8, 0.1));
}

#[test]
fn the_perturbed_trajectory_starts_delta0_away() {
    let p = DoublePendulum::default();
    let base = PhaseState::at_rest(pack(1.0), pack(2.0));
    let sp = add_scaled(&base, &PhaseState::along_theta1(p.delta0), 1.0);
    assert_eq!(coords(&sp), [1.0 + 1e-8, 2.0, 0.0, 0.0]);
}

fn small_angle_energy(g: f64, s: &PhaseState) -> f64 {
    let [th1, th2, w1, w2] = coords(s);
    0.5 * (w1 * w1 + w2 * w2) + 0.5 * g * (3.0 * th1 * th1 - 4.0 * th1 * th2 + 2.0 * th2 * th2)
}

fn energy_drift(steps: usize) -> f64 {
    let g = 9.81;
    let start = from_coords([1e-4, 2e-4, 0.0, 0.0]);
    let e0 = small_angle_energy(g, &start);
    let dt = 1.0 / steps as f64;
    let mut s = start;
    for _ in 0..steps {
        s = rk4_step(g, &s, dt);
    }
    (small_angle_energy(g, &s) - e0).abs() / e0
}

#[test]
fn small_oscillations_keep_their_energy_better_with_smaller_steps() {
    let coarse = energy_drift(10);
    let medium = energy_drift(20);
    let fine = energy_drift(40);
    assert!(coarse < 1e-2, "drift = {}", coarse);
    assert!(medium * 10.0 < coarse, "{} against {}", medium, coarse);
    assert!(fine * 10.0 < medium, "{} against {}", fine, medium);
    assert!(fine < 1e-5, "drift = {}", fine);
}

#[test]
fn halving_the_step_divides_the_error_by_about_sixteen() {
    let g = 9.81;
    let start = from_coords([0.01, 0.02, 0.0, 0.0]);
    let run = |steps: usize| {
        let dt = 0.5 / steps as f64;
        let mut s = start;
        for _ in 0..steps {
            s = rk4_step(g, &s, dt);
        }
        s
    };
    let exact = run(4096);
    let error = |steps: usize| norm(&difference(&run(steps), &exact));
    let (e8, e16, e32) = (error(8), error(16), error(32));
    assert!(e8 / e16 > 12.0 && e8 / e16 < 20.0, "ratio = {}", e8 / e16);
    assert!(e16 / e32 > 12.0 && e16 / e32 < 20.0, "ratio = {}", e16 / e32);
}

#[test]
fn a_step_does_not_change_its_input() {
    let s = from_coords([0.3, -0.4, 0.5, -0.6]);
    let copy = s;
    let next = rk4_step(9.81, &s, 0.005);
    assert_eq!(s, copy);
    assert_ne!(next, s);
}

#[test]
fn renormalisation_keeps_the_direction() {
    let delta0 = 1e-8;
    let s = from_coords([0.7, -1.1, 2.5, -0.3]);
    let sp = from_coords([0.7 + 3e-6, -1.1 - 4e-6, 2.5 + 1.2e-5, -0.3 + 5e-7]);
    let before = difference(&sp, &s);
    let d = norm(&before);
    let factor = delta0 / d;
    let b = coords(&before);
    let unit = from_coords([b[0] * factor, b[1] * factor, b[2] * factor, b[3] * factor]);
    let rescaled = add_scaled(&s, &unit, 1.0);
    let after = difference(&rescaled, &s);
    let len = norm(&after);
    assert!((len - delta0).abs() < 1e-6 * delta0, "separation = {}", len);
    let a = coords(&after);
    for i in 0..4 {
        assert!((a[i] / len - b[i] / d).abs() < 1e-6, "coordinate {}", i);
    }
}

#[test]
fn pixels_span_the_angles_from_minus_pi_to_pi() {
    let (low, high) = PhaseState::angle_range();
    assert_eq!(unpack(low), -std::f64::consts::PI);
    assert_eq!(unpack(high), std::f64::consts::PI);
    assert!(low.lt(high));
}
