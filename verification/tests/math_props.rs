//! Tests of the fixed-point math: integer square roots, the seek-steering
//! velocity and motion integration.

use shooter_core::math::{compute_seek_velocity, integrate, isqrt};

#[test]
fn isqrt_small_values() {
    assert_eq!(isqrt(0), 0);
    assert_eq!(isqrt(1), 1);
    assert_eq!(isqrt(2), 1);
    assert_eq!(isqrt(3), 1);
    assert_eq!(isqrt(4), 2);
    assert_eq!(isqrt(2500), 50);
    assert_eq!(isqrt(2501), 50);
}

#[test]
fn isqrt_largest_input() {
    // floor(sqrt(8 * 10^18)) = 2_828_427_124
    let r = isqrt(8_000_000_000_000_000_000);
    assert_eq!(r, 2_828_427_124);
    assert!(r * r <= 8_000_000_000_000_000_000);
    assert!((r + 1) * (r + 1) > 8_000_000_000_000_000_000);
}

#[test]
fn seek_velocity_pythagorean_triple_is_exact() {
    // Displacement (30, 40) has length 50: speed 5 splits exactly as (3, 4).
    let (vx, vy) = compute_seek_velocity(5, 30, 40, 0, 0);
    assert_eq!((vx, vy), (3, 4));
    assert_eq!(vx * vx + vy * vy, 25);
}

#[test]
fn seek_velocity_axis_aligned_has_full_magnitude() {
    // Straight along an axis, the magnitude is exactly the speed.
    let (vx, vy) = compute_seek_velocity(7, -10, 0, 0, 0);
    assert_eq!((vx, vy), (-7, 0));
    let (vx, vy) = compute_seek_velocity(7, 0, 123, 0, 123_456);
    assert_eq!((vx, vy), (0, -7));
}

#[test]
fn seek_velocity_magnitude_never_exceeds_speed() {
    let speed: i64 = 1000;
    let targets = [
        (1, 1),
        (-3, 17),
        (100_000, 1),
        (-250_000, -250_000),
        (999_999_999, -999_999_999),
    ];
    for (tx, ty) in targets {
        let (vx, vy) = compute_seek_velocity(speed, tx, ty, 0, 0);
        assert!(vx * vx + vy * vy <= speed * speed);
        // Sign follows the displacement.
        assert!(vx.signum() == tx.signum() || vx == 0);
        assert!(vy.signum() == ty.signum() || vy == 0);
    }
}

#[test]
fn seek_velocity_zero_cases() {
    // Zero speed and zero displacement both give a zero vector.
    assert_eq!(compute_seek_velocity(0, 500, 600, 0, 0), (0, 0));
    assert_eq!(compute_seek_velocity(250, 42, -7, 42, -7), (0, 0));
}

#[test]
fn integration_is_exact() {
    assert_eq!(integrate(100, 7, 10), 170);
    assert_eq!(integrate(0, -500, 1000), -500_000);
    assert_eq!(integrate(-1_000_000_000, 1_000_000, 1_000_000), 999_000_000_000);
}

#[test]
fn integration_commutes_with_splitting_a_tick() {
    // Two ticks of dt/2 land exactly where one tick of dt does, even for an
    // odd dt.
    let (pos, vel, dt) = (12_345i64, -987i64, 1001i64);
    let whole = integrate(pos, vel, dt);
    let halved = integrate(integrate(pos, vel, dt / 2), vel, dt - dt / 2);
    assert_eq!(whole, halved);
    assert_eq!(whole, pos + vel * dt);
}

#[test]
fn integration_n_ticks_is_linear() {
    // After N ticks of dt at constant velocity: initial + v * (N * dt).
    let (mut x, vel, dt) = (1_000i64, 250i64, 16i64);
    let n = 100;
    for _ in 0..n {
        x = integrate(x, vel, dt);
    }
    assert_eq!(x, 1_000 + vel * n * dt);
}
