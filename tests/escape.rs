use fractal_raster::escape::EscapeCounter;
use num_complex::Complex;

fn julia_count(cx: f32, cy: f32, max_iterations: u8) -> u8 {
    let c = Complex::new(-0.4f32, 0.6f32);
    let mut z = Complex::new(cx, cy);
    let mut counter = EscapeCounter::new(max_iterations);
    while counter.advance(z.norm() <= 2.0) {
        z = z * z + c;
    }
    counter.count()
}

fn reference_count(cx: f32, cy: f32) -> u8 {
    let c = Complex::new(-0.4f32, 0.6f32);
    let mut z = Complex::new(cx, cy);
    let mut n: u8 = 0;
    while n < 255 && z.norm() <= 2.0 {
        z = z * z + c;
        n += 1;
    }
    n
}

#[test]
fn counter_starts_at_zero() {
    let c = EscapeCounter::new(255);
    assert_eq!(c.count(), 0);
}

#[test]
fn counter_stops_at_first_escape_and_stays_stopped() {
    let mut c = EscapeCounter::new(255);
    assert!(c.advance(true));
    assert!(c.advance(true));
    assert!(!c.advance(false));
    assert!(!c.advance(true));
    assert_eq!(c.count(), 2);
}

#[test]
fn counter_never_passes_the_cap() {
    let mut c = EscapeCounter::new(255);
    let mut steps = 0u32;
    while c.advance(true) {
        steps += 1;
        assert!(steps <= 255);
    }
    assert_eq!(c.count(), 255);
    assert_eq!(steps, 255);
}

#[test]
fn counter_with_zero_cap_takes_no_step() {
    let mut c = EscapeCounter::new(0);
    assert!(!c.advance(true));
    assert_eq!(c.count(), 0);
}

#[test]
fn origin_pixel_escapes_immediately() {
    // Pixel (0, 0) of the 800 by 800 canvas maps to (-1.5, -1.5), whose
    // modulus already exceeds the escape radius.
    let scale = 3.0f32 / 800.0;
    let cx = 0.0f32 * scale - 1.5;
    let cy = 0.0f32 * scale - 1.5;
    assert_eq!((cx, cy), (-1.5, -1.5));
    assert_eq!(julia_count(cx, cy, 255), 0);
    assert_eq!(reference_count(cx, cy), 0);
}

#[test]
fn counter_agrees_with_direct_loop() {
    let scale = 3.0f32 / 800.0;
    for y in (0..800u32).step_by(37) {
        for x in (0..800u32).step_by(41) {
            let cx = y as f32 * scale - 1.5;
            let cy = x as f32 * scale - 1.5;
            assert_eq!(julia_count(cx, cy, 255), reference_count(cx, cy), "pixel ({}, {})", x, y);
        }
    }
}

#[test]
fn cap_cuts_a_longer_orbit_short() {
    // The orbit of the origin escapes only after more than ten steps, so a
    // cap of ten stops it at the cap.
    let full = julia_count(0.0, 0.0, 255);
    assert_eq!(full, reference_count(0.0, 0.0));
    assert!(full > 10);
    assert_eq!(julia_count(0.0, 0.0, 10), 10);
}
