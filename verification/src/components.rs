//! The component types that entities carry: spatial transforms, the two kinds
//! of steering data (`Enemy` and `Movement`), projectiles, and the opaque
//! reference a rendering collaborator uses to pick a sprite.

use vstd::prelude::*;
use crate::math::{
    MAX_COORD, MAX_SPEED, seek_vx, seek_vy, compute_seek_velocity,
};

verus! {

/// Milliturns per full revolution; rotations are stored normalized to
/// `[0, FULL_TURN)`.
pub const FULL_TURN: i64 = 1000;

/// Half a revolution (the angle of the one-shot locked-direction rotation).
pub const HALF_TURN: i64 = 500;

/// Position, rotation and scale of an entity. `z` only orders drawing; the
/// rotation is in milliturns, normalized; the scale is in thousandths.
#[derive(Clone, Copy, Debug)]
pub struct Transform {
    pub x: i64,
    pub y: i64,
    pub z: i64,
    pub rotation: i64,
    pub scale: i64,
}

impl Transform {
    /// All coordinates in simulation range, rotation normalized, scale
    /// positive.
    pub open spec fn wf(self) -> bool {
        &&& -MAX_COORD <= self.x <= MAX_COORD
        &&& -MAX_COORD <= self.y <= MAX_COORD
        &&& -MAX_COORD <= self.z <= MAX_COORD
        &&& 0 <= self.rotation < FULL_TURN
        &&& 0 < self.scale <= MAX_COORD
    }

    /// An unrotated transform at the given position and scale.
    pub fn new(x: i64, y: i64, z: i64, scale: i64) -> (t: Transform)
        requires
            -MAX_COORD <= x <= MAX_COORD,
            -MAX_COORD <= y <= MAX_COORD,
            -MAX_COORD <= z <= MAX_COORD,
            0 < scale <= MAX_COORD,
        ensures
            t == (Transform { x, y, z, rotation: 0, scale }),
            t.wf(),
    {
        Transform { x, y, z, rotation: 0, scale }
    }
}

/// A tracking enemy: a fixed speed and the velocity the seek algorithm
/// derived for the current tick.
#[derive(Clone, Copy, Debug)]
pub struct Enemy {
    pub speed: i64,
    pub velocity_x: i64,
    pub velocity_y: i64,
}

impl Enemy {
    /// Speed in range and never negative; the derived velocity components
    /// never exceed the speed.
    pub open spec fn wf(self) -> bool {
        &&& 0 <= self.speed <= MAX_SPEED
        &&& -self.speed <= self.velocity_x <= self.speed
        &&& -self.speed <= self.velocity_y <= self.speed
    }

    /// A new enemy at rest.
    pub fn new(speed: i64) -> (e: Enemy)
        requires
            0 <= speed <= MAX_SPEED,
        ensures
            e.speed == speed,
            e.velocity_x == 0,
            e.velocity_y == 0,
            e.wf(),
    {
        Enemy { speed, velocity_x: 0, velocity_y: 0 }
    }

    /// The enemy's speed; read-only so callers cannot modify it directly.
    pub fn get_speed(&self) -> (s: i64)
        ensures
            s == self.speed,
    {
        self.speed
    }

    /// Recomputes this enemy's velocity so that it heads from
    /// `(current_x, current_y)` toward `(target_x, target_y)` at its speed.
    pub fn move_towards(&mut self, target_x: i64, target_y: i64, current_x: i64, current_y: i64)
        requires
            old(self).wf(),
            -MAX_COORD <= target_x <= MAX_COORD,
            -MAX_COORD <= target_y <= MAX_COORD,
            -MAX_COORD <= current_x <= MAX_COORD,
            -MAX_COORD <= current_y <= MAX_COORD,
        ensures
            final(self).speed == old(self).speed,
            final(self).velocity_x == seek_vx(
                old(self).speed as int,
                target_x - current_x,
                target_y - current_y,
            ),
            final(self).velocity_y == seek_vy(
                old(self).speed as int,
                target_x - current_x,
                target_y - current_y,
            ),
            final(self).wf(),
    {
        let (vx, vy) = compute_seek_velocity(self.speed, target_x, target_y, current_x, current_y);
        self.velocity_x = vx;
        self.velocity_y = vy;
    }
}

/// Steering data for movement-driven entities: a fixed speed, the velocity
/// derived each tick, and an optional locked direction whose one-shot visual
/// rotation is recorded by `already_rotated`.
#[derive(Clone, Copy, Debug)]
pub struct Movement {
    pub speed: i64,
    pub velocity_x: i64,
    pub velocity_y: i64,
    pub locked_direction: Option<(i64, i64)>,
    pub already_rotated: bool,
}

impl Movement {
    /// Speed in range; derived velocity bounded by the speed.
    pub open spec fn wf(self) -> bool {
        &&& 0 <= self.speed <= MAX_SPEED
        &&& -self.speed <= self.velocity_x <= self.speed
        &&& -self.speed <= self.velocity_y <= self.speed
    }

    /// A new movement component at rest, not yet rotated.
    pub fn new(speed: i64, locked_direction: Option<(i64, i64)>) -> (m: Movement)
        requires
            0 <= speed <= MAX_SPEED,
        ensures
            m.speed == speed,
            m.velocity_x == 0,
            m.velocity_y == 0,
            m.locked_direction == locked_direction,
            m.already_rotated == false,
            m.wf(),
    {
        Movement { speed, velocity_x: 0, velocity_y: 0, locked_direction, already_rotated: false }
    }

    /// Recomputes the velocity so the entity heads from
    /// `(current_x, current_y)` toward `(target_x, target_y)` at its speed.
    /// The locked direction and the rotation flag are untouched.
    pub fn next_move(&mut self, target_x: i64, target_y: i64, current_x: i64, current_y: i64)
        requires
            old(self).wf(),
            -MAX_COORD <= target_x <= MAX_COORD,
            -MAX_COORD <= target_y <= MAX_COORD,
            -MAX_COORD <= current_x <= MAX_COORD,
            -MAX_COORD <= current_y <= MAX_COORD,
        ensures
            final(self).speed == old(self).speed,
            final(self).velocity_x == seek_vx(
                old(self).speed as int,
                target_x - current_x,
                target_y - current_y,
            ),
            final(self).velocity_y == seek_vy(
                old(self).speed as int,
                target_x - current_x,
                target_y - current_y,
            ),
            final(self).locked_direction == old(self).locked_direction,
            final(self).already_rotated == old(self).already_rotated,
            final(self).wf(),
    {
        let (vx, vy) = compute_seek_velocity(self.speed, target_x, target_y, current_x, current_y);
        self.velocity_x = vx;
        self.velocity_y = vy;
    }
}

/// The eight compass-ish directions a laser can travel in.
#[derive(Clone, Copy, Debug, PartialEq, Eq, Structural)]
pub enum Direction {
    Left,
    Right,
    Up,
    Down,
    RightUp,
    LeftUp,
    LeftDown,
    RightDown,
}

/// A projectile: immutable direction and speed after spawn.
#[derive(Clone, Copy, Debug)]
pub struct Laser {
    pub direction: Direction,
    pub speed: i64,
}

impl Laser {
    pub open spec fn wf(self) -> bool {
        0 <= self.speed <= MAX_SPEED
    }

    pub fn new(direction: Direction, speed: i64) -> (l: Laser)
        requires
            0 <= speed <= MAX_SPEED,
        ensures
            l == (Laser { direction, speed }),
            l.wf(),
    {
        Laser { direction, speed }
    }
}

/// How far a laser travels in one tick: full speed along each axis named by
/// its direction (diagonals are not normalized).
pub open spec fn laser_displacement(direction: Direction, speed: int, dt: int) -> (int, int) {
    match direction {
        Direction::Left => (-(speed * dt), 0),
        Direction::Right => (speed * dt, 0),
        Direction::Up => (0, speed * dt),
        Direction::Down => (0, -(speed * dt)),
        Direction::RightUp => (speed * dt, speed * dt),
        Direction::LeftUp => (-(speed * dt), speed * dt),
        Direction::LeftDown => (-(speed * dt), -(speed * dt)),
        Direction::RightDown => (speed * dt, -(speed * dt)),
    }
}

/// The handle a rendering collaborator gave out for a sprite sheet, plus a
/// sprite index; opaque to the core.
#[derive(Clone, Copy, Debug)]
pub struct RenderRef {
    pub sheet: u64,
    pub sprite_number: u64,
}

} // verus!
