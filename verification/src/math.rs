//! Fixed-point coordinate arithmetic: integer square roots, the seek-steering
//! velocity computation, and straight-line motion integration.
//!
//! Coordinates and velocities are `i64` values in milli-units; elapsed time is
//! in milliseconds. A velocity of `v` milli-units per millisecond equals `v`
//! game units per second, so a laser with speed 500 crosses 500 game units in
//! one second of ticks.

use vstd::prelude::*;

verus! {

/// Milli-units per game unit.
pub const COORD_SCALE: i64 = 1000;

/// Largest coordinate magnitude the simulation admits (one million game units).
pub const MAX_COORD: i64 = 1_000_000_000;

/// Largest speed the simulation admits (one thousand game units per second).
pub const MAX_SPEED: i64 = 1_000_000;

/// Largest elapsed time of a single tick, in milliseconds.
pub const MAX_DT: i64 = 1_000_000;

/// Largest squared distance `isqrt` accepts; covers any pair of in-range
/// coordinate differences, since `(2 * MAX_COORD)^2 * 2 == 8 * 10^18`.
pub const MAX_D2: i64 = 8_000_000_000_000_000_000;

/// Absolute value of a mathematical integer.
pub open spec fn abs_int(x: int) -> int {
    if x < 0 {
        -x
    } else {
        x
    }
}

/// The integer square root of `n`, rounded down: the largest `r` with
/// `r * r <= n`.
pub open spec fn sqrt_floor(n: nat) -> nat
    decreases n,
{
    if n == 0 {
        0
    } else {
        let r = sqrt_floor((n - 1) as nat);
        if (r + 1) * (r + 1) <= n {
            r + 1
        } else {
            r
        }
    }
}

/// `sqrt_floor(n)` really is the floor of the square root of `n`.
pub proof fn lemma_sqrt_floor_bounds(n: nat)
    ensures
        sqrt_floor(n) * sqrt_floor(n) <= n,
        n < (sqrt_floor(n) + 1) * (sqrt_floor(n) + 1),
    decreases n,
{
    if n == 0 {
        assert(sqrt_floor(n) == 0);
        assert(sqrt_floor(n) * sqrt_floor(n) <= n);
        assert((sqrt_floor(n) + 1) * (sqrt_floor(n) + 1) == 1) by (nonlinear_arith)
            requires
                sqrt_floor(n) == 0,
        ;
    } else {
        lemma_sqrt_floor_bounds((n - 1) as nat);
        let r = sqrt_floor((n - 1) as nat);
        if (r + 1) * (r + 1) <= n {
            assert(sqrt_floor(n) == r + 1);
            assert(((n - 1) as nat) < (r + 1) * (r + 1));
            assert(n <= (r + 1) * (r + 1));
            assert((r + 1) * (r + 1) < (r + 2) * (r + 2)) by (nonlinear_arith);
            assert(sqrt_floor(n) * sqrt_floor(n) <= n);
            assert(n < (sqrt_floor(n) + 1) * (sqrt_floor(n) + 1));
        } else {
            assert(sqrt_floor(n) == r);
            assert(r * r <= (n - 1) as nat);
            assert(sqrt_floor(n) * sqrt_floor(n) <= n);
            assert(n < (sqrt_floor(n) + 1) * (sqrt_floor(n) + 1));
        }
    }
}

/// Any `r` squeezed between `r^2 <= n < (r+1)^2` equals `sqrt_floor(n)`.
pub proof fn lemma_sqrt_floor_unique(n: nat, r: nat)
    requires
        r * r <= n,
        n < (r + 1) * (r + 1),
    ensures
        r == sqrt_floor(n),
{
    let s = sqrt_floor(n);
    lemma_sqrt_floor_bounds(n);
    if r < s {
        assert((r + 1) * (r + 1) <= s * s) by (nonlinear_arith)
            requires
                r + 1 <= s,
        ;
    }
    if s < r {
        assert((s + 1) * (s + 1) <= r * r) by (nonlinear_arith)
            requires
                s + 1 <= r,
        ;
    }
}

/// `sqrt_floor` recovers a perfect square exactly.
pub proof fn lemma_sqrt_floor_square(k: nat)
    ensures
        sqrt_floor(k * k) == k,
{
    assert(k * k < (k + 1) * (k + 1)) by (nonlinear_arith);
    lemma_sqrt_floor_unique(k * k, k);
}

/// `sqrt_floor` is monotone.
pub proof fn lemma_sqrt_floor_monotone(a: nat, b: nat)
    requires
        a <= b,
    ensures
        sqrt_floor(a) <= sqrt_floor(b),
{
    let sa = sqrt_floor(a);
    let sb = sqrt_floor(b);
    lemma_sqrt_floor_bounds(a);
    lemma_sqrt_floor_bounds(b);
    if sb < sa {
        assert((sb + 1) * (sb + 1) <= sa * sa) by (nonlinear_arith)
            requires
                sb + 1 <= sa,
        ;
    }
}

/// Integer square root, rounded down.
pub fn isqrt(n: i64) -> (r: i64)
    requires
        0 <= n <= MAX_D2,
    ensures
        r == sqrt_floor(n as nat),
        0 <= r <= 2_828_427_125,
        r * r <= n < (r + 1) * (r + 1),
{
    let mut lo: i64 = 0;
    let mut hi: i64 = 2_828_427_125;
    assert(2_828_427_125i64 * 2_828_427_125i64 > MAX_D2) by (nonlinear_arith);
    while lo + 1 < hi
        invariant
            0 <= lo < hi <= 2_828_427_125,
            lo * lo <= n,
            n < hi * hi,
            n <= MAX_D2,
        decreases hi - lo,
    {
        let mid: i64 = lo + (hi - lo) / 2;
        assert(mid * mid <= 2_828_427_125i64 * 2_828_427_125i64) by (nonlinear_arith)
            requires
                0 < mid <= 2_828_427_125,
        ;
        if mid * mid <= n {
            lo = mid;
        } else {
            hi = mid;
        }
    }
    proof {
        lemma_sqrt_floor_unique(n as nat, lo as nat);
    }
    lo
}

/// The ceiling of the length of the vector `(dx, dy)`: the smallest integer
/// `c` with `c * c >= dx * dx + dy * dy`.
pub open spec fn hypot_ceil(dx: int, dy: int) -> int {
    let d2 = dx * dx + dy * dy;
    let r = sqrt_floor(d2 as nat) as int;
    if r * r == d2 {
        r
    } else {
        r + 1
    }
}

/// Basic facts about `hypot_ceil`: it dominates both components and its
/// square dominates the squared length.
pub proof fn lemma_hypot_ceil_bounds(dx: int, dy: int)
    ensures
        hypot_ceil(dx, dy) >= abs_int(dx),
        hypot_ceil(dx, dy) >= abs_int(dy),
        hypot_ceil(dx, dy) * hypot_ceil(dx, dy) >= dx * dx + dy * dy,
        hypot_ceil(dx, dy) * hypot_ceil(dx, dy) == dx * dx + dy * dy || (hypot_ceil(dx, dy) - 1)
            * (hypot_ceil(dx, dy) - 1) < dx * dx + dy * dy,
        (dx != 0 || dy != 0) ==> hypot_ceil(dx, dy) >= 1,
        hypot_ceil(dx, dy) >= 0,
{
    let d2 = dx * dx + dy * dy;
    assert(dx * dx >= 0 && dy * dy >= 0) by (nonlinear_arith);
    let r = sqrt_floor(d2 as nat) as int;
    lemma_sqrt_floor_bounds(d2 as nat);
    assert(abs_int(dx) * abs_int(dx) == dx * dx) by (nonlinear_arith);
    assert(abs_int(dy) * abs_int(dy) == dy * dy) by (nonlinear_arith);
    assert(abs_int(dx) * abs_int(dx) <= d2 as nat);
    lemma_sqrt_floor_monotone((abs_int(dx) * abs_int(dx)) as nat, d2 as nat);
    lemma_sqrt_floor_square(abs_int(dx) as nat);
    assert(abs_int(dy) * abs_int(dy) <= d2 as nat);
    lemma_sqrt_floor_monotone((abs_int(dy) * abs_int(dy)) as nat, d2 as nat);
    lemma_sqrt_floor_square(abs_int(dy) as nat);
    if r * r == d2 {
    } else {
        assert((r + 1) * (r + 1) > d2);
    }
    if dx != 0 || dy != 0 {
        assert(dx * dx + dy * dy >= 1) by (nonlinear_arith)
            requires
                dx != 0 || dy != 0,
        ;
    }
}

/// One signed component of the seek velocity: the magnitude is
/// `speed * |d| / hypot_ceil(dx, dy)` and the sign follows `d`, where `d` is
/// either `dx` or `dy`.
pub open spec fn seek_component(speed: int, d: int, dx: int, dy: int) -> int {
    if dx == 0 && dy == 0 {
        0
    } else {
        let m = (speed * abs_int(d)) / hypot_ceil(dx, dy);
        if d < 0 {
            -m
        } else {
            m
        }
    }
}

/// The horizontal seek-velocity component toward displacement `(dx, dy)`.
pub open spec fn seek_vx(speed: int, dx: int, dy: int) -> int {
    seek_component(speed, dx, dx, dy)
}

/// The vertical seek-velocity component toward displacement `(dx, dy)`.
pub open spec fn seek_vy(speed: int, dx: int, dy: int) -> int {
    seek_component(speed, dy, dx, dy)
}

/// Each seek-velocity component is bounded by the speed, and its sign agrees
/// with the displacement component it follows.
pub proof fn lemma_seek_component_bounds(speed: int, dx: int, dy: int)
    requires
        speed >= 0,
    ensures
        -speed <= seek_vx(speed, dx, dy) <= speed,
        -speed <= seek_vy(speed, dx, dy) <= speed,
        dx > 0 ==> seek_vx(speed, dx, dy) >= 0,
        dx < 0 ==> seek_vx(speed, dx, dy) <= 0,
        dx == 0 ==> seek_vx(speed, dx, dy) == 0,
        dy > 0 ==> seek_vy(speed, dx, dy) >= 0,
        dy < 0 ==> seek_vy(speed, dx, dy) <= 0,
        dy == 0 ==> seek_vy(speed, dx, dy) == 0,
{
    if dx == 0 && dy == 0 {
    } else {
        let c = hypot_ceil(dx, dy);
        lemma_hypot_ceil_bounds(dx, dy);
        lemma_seek_magnitude_le_speed(speed, abs_int(dx), c);
        lemma_seek_magnitude_le_speed(speed, abs_int(dy), c);
    }
}

/// For `0 <= a <= c` and `c >= 1`, the truncated quotient
/// `speed * a / c` lies in `[0, speed]`.
proof fn lemma_seek_magnitude_le_speed(speed: int, a: int, c: int)
    requires
        speed >= 0,
        0 <= a <= c,
        c >= 1,
    ensures
        0 <= (speed * a) / c <= speed,
        a == 0 ==> (speed * a) / c == 0,
{
    if a == 0 {
        assert((speed * 0) / c == 0) by (nonlinear_arith)
            requires
                c >= 1,
        ;
    }
    assert(speed * a >= 0) by (nonlinear_arith)
        requires
            speed >= 0 && a >= 0,
    ;
    assert(speed * a <= speed * c) by (nonlinear_arith)
        requires
            speed >= 0 && a <= c,
    ;
    assert((speed * a) / c >= 0) by (nonlinear_arith)
        requires
            speed * a >= 0 && c >= 1,
    ;
    assert((speed * a) / c <= (speed * c) / c) by (nonlinear_arith)
        requires
            speed * a <= speed * c && c >= 1,
    ;
    assert((speed * c) / c == speed) by (nonlinear_arith)
        requires
            c >= 1,
    ;
}

/// Law: for every speed `s >= 0`, target and position, the seek velocity has
/// magnitude at most `s` (its squared length never exceeds `s * s`), and the
/// magnitude is exactly `s` whenever the displacement lies on a coordinate
/// axis. Together with `lemma_seek_velocity_direction` this is the integer
/// rendering of "a vector of magnitude `s` pointed from the position toward
/// the target".
pub proof fn lemma_seek_velocity_magnitude(speed: int, dx: int, dy: int)
    requires
        speed >= 0,
    ensures
        seek_vx(speed, dx, dy) * seek_vx(speed, dx, dy) + seek_vy(speed, dx, dy) * seek_vy(
            speed,
            dx,
            dy,
        ) <= speed * speed,
        dx == 0 && dy == 0 ==> seek_vx(speed, dx, dy) == 0 && seek_vy(speed, dx, dy) == 0,
        dy == 0 && dx != 0 ==> abs_int(seek_vx(speed, dx, dy)) == speed && seek_vy(speed, dx, dy)
            == 0,
        dx == 0 && dy != 0 ==> abs_int(seek_vy(speed, dx, dy)) == speed && seek_vx(speed, dx, dy)
            == 0,
{
    if dx == 0 && dy == 0 {
        assert(speed * speed >= 0) by (nonlinear_arith);
    } else {
        let c = hypot_ceil(dx, dy);
        let ax = abs_int(dx);
        let ay = abs_int(dy);
        let m1 = (speed * ax) / c;
        let m2 = (speed * ay) / c;
        lemma_hypot_ceil_bounds(dx, dy);
        lemma_seek_magnitude_le_speed(speed, ax, c);
        lemma_seek_magnitude_le_speed(speed, ay, c);
        assert(speed * ax >= 0 && speed * ay >= 0) by (nonlinear_arith)
            requires
                speed >= 0 && ax >= 0 && ay >= 0,
        ;
        assert(c * m1 <= speed * ax) by (nonlinear_arith)
            requires
                c >= 1 && speed * ax >= 0 && m1 == (speed * ax) / c,
        ;
        assert(c * m2 <= speed * ay) by (nonlinear_arith)
            requires
                c >= 1 && speed * ay >= 0 && m2 == (speed * ay) / c,
        ;
        assert((c * m1) * (c * m1) <= (speed * ax) * (speed * ax)) by (nonlinear_arith)
            requires
                0 <= c * m1 <= speed * ax,
        ;
        assert((c * m2) * (c * m2) <= (speed * ay) * (speed * ay)) by (nonlinear_arith)
            requires
                0 <= c * m2 <= speed * ay,
        ;
        assert(ax * ax + ay * ay == dx * dx + dy * dy) by (nonlinear_arith)
            requires
                (ax == dx || ax == -dx) && (ay == dy || ay == -dy),
        ;
        assert((c * c) * (m1 * m1) <= (speed * speed) * (ax * ax)) by (nonlinear_arith)
            requires
                0 <= c * m1 <= speed * ax,
        ;
        assert((c * c) * (m2 * m2) <= (speed * speed) * (ay * ay)) by (nonlinear_arith)
            requires
                0 <= c * m2 <= speed * ay,
        ;
        assert((speed * speed) * (ax * ax) + (speed * speed) * (ay * ay) <= (speed * speed) * (c
            * c)) by (nonlinear_arith)
            requires
                ax * ax + ay * ay <= c * c,
        ;
        assert(m1 * m1 + m2 * m2 <= speed * speed) by (nonlinear_arith)
            requires
                c >= 1,
                (c * c) * (m1 * m1) + (c * c) * (m2 * m2) <= (speed * speed) * (c * c),
        ;
        assert(seek_vx(speed, dx, dy) * seek_vx(speed, dx, dy) == m1 * m1) by (nonlinear_arith)
            requires
                seek_vx(speed, dx, dy) == m1 || seek_vx(speed, dx, dy) == -m1,
        ;
        assert(seek_vy(speed, dx, dy) * seek_vy(speed, dx, dy) == m2 * m2) by (nonlinear_arith)
            requires
                seek_vy(speed, dx, dy) == m2 || seek_vy(speed, dx, dy) == -m2,
        ;
        if dy == 0 {
            assert(ax * ax == dx * dx + dy * dy) by (nonlinear_arith)
                requires
                    (ax == dx || ax == -dx) && dy == 0,
            ;
            lemma_sqrt_floor_square(ax as nat);
            assert(c == ax);
            assert((speed * ax) / ax == speed) by (nonlinear_arith)
                requires
                    ax >= 1,
            ;
        }
        if dx == 0 {
            assert(ay * ay == dx * dx + dy * dy) by (nonlinear_arith)
                requires
                    (ay == dy || ay == -dy) && dx == 0,
            ;
            lemma_sqrt_floor_square(ay as nat);
            assert(c == ay);
            assert((speed * ay) / ay == speed) by (nonlinear_arith)
                requires
                    ay >= 1,
            ;
        }
    }
}

/// Law: the seek velocity points from the position toward the target. Each
/// component has the sign of the matching displacement component, and the
/// cross product of the velocity with the displacement vanishes up to the
/// integer rounding of one division: `|vx * dy - vy * dx| <= |dx| + |dy|`.
pub proof fn lemma_seek_velocity_direction(speed: int, dx: int, dy: int)
    requires
        speed >= 0,
    ensures
        seek_vx(speed, dx, dy) * dx >= 0,
        seek_vy(speed, dx, dy) * dy >= 0,
        abs_int(
            seek_vx(speed, dx, dy) * dy - seek_vy(speed, dx, dy) * dx,
        ) <= abs_int(dx) + abs_int(dy),
{
    lemma_seek_component_bounds(speed, dx, dy);
    let vx = seek_vx(speed, dx, dy);
    let vy = seek_vy(speed, dx, dy);
    assert(vx * dx >= 0) by (nonlinear_arith)
        requires
            (dx > 0 && vx >= 0) || (dx < 0 && vx <= 0) || dx == 0,
    ;
    assert(vy * dy >= 0) by (nonlinear_arith)
        requires
            (dy > 0 && vy >= 0) || (dy < 0 && vy <= 0) || dy == 0,
    ;
    if dx == 0 && dy == 0 {
    } else {
        let c = hypot_ceil(dx, dy);
        let ax = abs_int(dx);
        let ay = abs_int(dy);
        let m1 = (speed * ax) / c;
        let m2 = (speed * ay) / c;
        lemma_hypot_ceil_bounds(dx, dy);
        lemma_seek_magnitude_le_speed(speed, ax, c);
        lemma_seek_magnitude_le_speed(speed, ay, c);
        assert(speed * ax >= 0 && speed * ay >= 0) by (nonlinear_arith)
            requires
                speed >= 0 && ax >= 0 && ay >= 0,
        ;
        assert(c * m1 <= speed * ax && speed * ax < c * (m1 + 1)) by (nonlinear_arith)
            requires
                c >= 1 && speed * ax >= 0 && m1 == (speed * ax) / c,
        ;
        assert(c * m2 <= speed * ay && speed * ay < c * (m2 + 1)) by (nonlinear_arith)
            requires
                c >= 1 && speed * ay >= 0 && m2 == (speed * ay) / c,
        ;
        // From the division bounds: |m1 * ay - m2 * ax| <= ax + ay.
        assert(m1 * ay - m2 * ax <= ax && m2 * ax - m1 * ay <= ay) by (nonlinear_arith)
            requires
                c >= 1,
                ax >= 0,
                ay >= 0,
                c * m1 <= speed * ax,
                speed * ax < c * (m1 + 1),
                c * m2 <= speed * ay,
                speed * ay < c * (m2 + 1),
        ;
        // The signed cross product is the unsigned one up to the sign of
        // dx * dy.
        assert(vx * dy - vy * dx == m1 * ay - m2 * ax || vx * dy - vy * dx == -(m1 * ay - m2 * ax))
            by (nonlinear_arith)
            requires
                (dx >= 0 && ax == dx && vx == m1) || (dx < 0 && ax == -dx && vx == -m1),
                (dy >= 0 && ay == dy && vy == m2) || (dy < 0 && ay == -dy && vy == -m2),
        ;
    }
}

/// The coordinate after `n` ticks, each integrating the same velocity over
/// the same elapsed time.
pub open spec fn position_after_ticks(pos: int, vel: int, dt: int, n: nat) -> int
    decreases n,
{
    if n == 0 {
        pos
    } else {
        position_after_ticks(pos + vel * dt, vel, dt, (n - 1) as nat)
    }
}

/// Law: after `n` ticks of elapsed time `dt` at constant velocity, the
/// coordinate is exactly the initial one plus `vel * (n * dt)`.
pub proof fn lemma_integration_linear(pos: int, vel: int, dt: int, n: nat)
    ensures
        position_after_ticks(pos, vel, dt, n) == pos + vel * (n * dt),
    decreases n,
{
    if n == 0 {
        assert(vel * (0 * dt) == 0) by (nonlinear_arith);
    } else {
        lemma_integration_linear(pos + vel * dt, vel, dt, (n - 1) as nat);
        assert(vel * dt + vel * (((n - 1) as nat) * dt) == vel * (n * dt)) by (nonlinear_arith)
            requires
                n >= 1,
        ;
    }
}

/// Law: integration commutes with splitting a tick. Two ticks of elapsed
/// times `a` and `b` move a coordinate exactly as far as one tick of
/// `a + b`; in particular two ticks of `dt / 2` equal one tick of `dt`.
pub proof fn lemma_integration_split(pos: int, vel: int, a: int, b: int)
    ensures
        (pos + vel * a) + vel * b == pos + vel * (a + b),
{
    assert(vel * a + vel * b == vel * (a + b)) by (nonlinear_arith);
}

/// Computes the velocity that steers an entity at `(current_x, current_y)`
/// toward `(target_x, target_y)` at the given speed: the integer analogue of
/// `speed * (cos(angle), sin(angle))` for the heading angle of the
/// displacement. The result is exactly `(seek_vx, seek_vy)` of the
/// displacement.
pub fn compute_seek_velocity(speed: i64, target_x: i64, target_y: i64, current_x: i64, current_y: i64) -> (v: (
    i64,
    i64,
))
    requires
        0 <= speed <= MAX_SPEED,
        -MAX_COORD <= target_x <= MAX_COORD,
        -MAX_COORD <= target_y <= MAX_COORD,
        -MAX_COORD <= current_x <= MAX_COORD,
        -MAX_COORD <= current_y <= MAX_COORD,
    ensures
        v.0 == seek_vx(speed as int, target_x - current_x, target_y - current_y),
        v.1 == seek_vy(speed as int, target_x - current_x, target_y - current_y),
        -speed <= v.0 <= speed,
        -speed <= v.1 <= speed,
{
    let dx = target_x - current_x;
    let dy = target_y - current_y;
    proof {
        lemma_seek_component_bounds(speed as int, dx as int, dy as int);
    }
    if dx == 0 && dy == 0 {
        return (0, 0);
    }
    let ax: i64 = if dx < 0 {
        -dx
    } else {
        dx
    };
    let ay: i64 = if dy < 0 {
        -dy
    } else {
        dy
    };
    assert(ax * ax + ay * ay <= MAX_D2) by (nonlinear_arith)
        requires
            0 <= ax <= 2 * MAX_COORD && 0 <= ay <= 2 * MAX_COORD,
    ;
    assert(ax * ax >= 0 && ay * ay >= 0) by (nonlinear_arith);
    assert(ax * ax == dx * dx && ay * ay == dy * dy) by (nonlinear_arith)
        requires
            (ax == dx || ax == -dx) && (ay == dy || ay == -dy),
    ;
    let d2: i64 = ax * ax + ay * ay;
    let r = isqrt(d2);
    let c: i64 = if r * r == d2 {
        r
    } else {
        r + 1
    };
    proof {
        lemma_hypot_ceil_bounds(dx as int, dy as int);
        assert(c == hypot_ceil(dx as int, dy as int));
    }
    assert(speed * ax <= MAX_SPEED * (2 * MAX_COORD)) by (nonlinear_arith)
        requires
            0 <= speed <= MAX_SPEED && 0 <= ax <= 2 * MAX_COORD,
    ;
    assert(speed * ay <= MAX_SPEED * (2 * MAX_COORD)) by (nonlinear_arith)
        requires
            0 <= speed <= MAX_SPEED && 0 <= ay <= 2 * MAX_COORD,
    ;
    assert(speed * ax >= 0 && speed * ay >= 0) by (nonlinear_arith)
        requires
            speed >= 0 && ax >= 0 && ay >= 0,
    ;
    let vx_mag: i64 = (speed * ax) / c;
    let vy_mag: i64 = (speed * ay) / c;
    let vx: i64 = if dx < 0 {
        -vx_mag
    } else {
        vx_mag
    };
    let vy: i64 = if dy < 0 {
        -vy_mag
    } else {
        vy_mag
    };
    (vx, vy)
}

/// Straight-line motion over one tick: the new coordinate is exactly the old
/// one plus velocity times elapsed time.
pub fn integrate(pos: i64, vel: i64, dt: i64) -> (p: i64)
    requires
        -MAX_COORD <= pos <= MAX_COORD,
        -MAX_SPEED <= vel <= MAX_SPEED,
        0 <= dt <= MAX_DT,
    ensures
        p == pos + vel * dt,
{
    assert(-(MAX_SPEED * MAX_DT) <= vel * dt <= MAX_SPEED * MAX_DT) by (nonlinear_arith)
        requires
            -MAX_SPEED <= vel <= MAX_SPEED && 0 <= dt <= MAX_DT,
    ;
    pos + vel * dt
}

} // verus!
