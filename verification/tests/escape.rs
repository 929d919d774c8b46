use lyapunov_fractal::binary64::Binary64;
use lyapunov_fractal::mandelbrot::{EscapeScan, Mandelbrot};

fn sq(x: f64) -> Binary64 {
    Binary64 { bits: x.to_bits() }
}

/// The escape iteration of the point `x + iy`, with the orbit's arithmetic
/// done here and the decisions taken by the library.
fn escape_iteration_of(max_iter: u32, x: f64, y: f64) -> u32 {
    let mut scan = Mandelbrot { max_iter }.scan();
    let (mut z_real, mut z_img) = (0.0f64, 0.0f64);
    while !scan.is_done() {
        let real = z_real * z_real - z_img * z_img + x;
        let img = z_real * z_img * 2.0 + y;
        if !scan.observe(sq(real * real + img * img)) {
            z_real = real;
            z_img = img;
        }
    }
    scan.escape_iteration()
}

#[test]
fn a_point_is_outside_above_four() {
    assert!(!Mandelbrot::escaped(sq(0.0)));
    assert!(!Mandelbrot::escaped(sq(3.9999999999999996)));
    assert!(!Mandelbrot::escaped(sq(4.0)));
    assert!(Mandelbrot::escaped(sq(4.000000000000001)));
    assert!(Mandelbrot::escaped(sq(f64::INFINITY)));
    assert!(!Mandelbrot::escaped(sq(f64::NAN)));
    assert!(!Mandelbrot::escaped(sq(-5.0)));
}

#[test]
fn a_scan_without_iterations_is_over_at_once() {
    let scan = Mandelbrot { max_iter: 0 }.scan();
    assert!(scan.is_done());
    assert_eq!(scan.escape_iteration(), 0);
}

#[test]
fn a_fresh_scan_starts_at_iteration_zero() {
    let scan = Mandelbrot { max_iter: 7 }.scan();
    assert_eq!(
        scan,
        EscapeScan { max_iter: 7, iteration: 0, escape_iteration: 0, done: false }
    );
}

#[test]
fn an_orbit_that_stays_inside_has_escape_iteration_zero() {
    assert_eq!(escape_iteration_of(100, 0.0, 0.0), 0);
    assert_eq!(escape_iteration_of(100, -1.0, 0.0), 0);
    assert_eq!(escape_iteration_of(1, 0.25, 0.25), 0);
}

#[test]
fn a_far_point_escapes_at_the_first_iteration() {
    assert_eq!(escape_iteration_of(100, 3.0, 0.0), 0);
    assert_eq!(escape_iteration_of(100, 0.0, -2.5), 0);
}

#[test]
fn escape_iterations_of_known_points() {
    // 1, 2, 5: the third point has modulus above two
    assert_eq!(escape_iteration_of(100, 1.0, 0.0), 2);
    // 0.5, 0.75, 1.0625, 1.62890625, 3.1533...
    assert_eq!(escape_iteration_of(100, 0.5, 0.0), 4);
    assert_eq!(escape_iteration_of(4, 0.5, 0.0), 0);
    assert_eq!(escape_iteration_of(5, 0.5, 0.0), 4);
}

#[test]
fn observing_counts_iterations() {
    let mut scan = Mandelbrot { max_iter: 3 }.scan();
    assert!(!scan.observe(sq(1.0)));
    assert_eq!(scan.iteration, 1);
    assert!(!scan.is_done());
    assert!(!scan.observe(sq(4.0)));
    assert_eq!(scan.iteration, 2);
    assert!(scan.observe(sq(4.5)));
    assert!(scan.is_done());
    assert_eq!(scan.escape_iteration(), 2);
    assert_eq!(scan.iteration, 2);
}

#[test]
fn observing_ends_when_iterations_run_out() {
    let mut scan = Mandelbrot { max_iter: 2 }.scan();
    assert!(!scan.observe(sq(0.5)));
    assert!(!scan.observe(sq(f64::NAN)));
    assert!(scan.is_done());
    assert_eq!(scan.escape_iteration(), 0);
    assert_eq!(scan.iteration, 2);
}
