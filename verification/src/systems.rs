//! The per-tick behavior pipeline: tracking, movement integration,
//! projectile travel, locked-direction rotation, lifecycle bounds checks and
//! the fade behavior.
//!
//! Each behavior declares its component access in its contract and runs in a
//! fixed sequence within a tick (the scheduling is single-threaded; the
//! contracts state exactly which components each behavior reads and
//! rewrites). Every behavior's effect on the store is a pointwise function
//! of the records, stated below as a spec-level step function.

use vstd::prelude::*;
use crate::components::{
    Direction, Enemy, Laser, Movement, Transform, laser_displacement, FULL_TURN, HALF_TURN,
};
use crate::fade::{Fader, FadeStatus, fader_advanced};
use crate::level::{EnemyCount, LevelMetadata};
use crate::math::{integrate, seek_vx, seek_vy, MAX_COORD, MAX_DT, MAX_SPEED};
use crate::store::{EntityRec, Store};

verus! {

/// Enemies live while their x and y stay inside this range (a generous
/// margin around the screen).
pub const ENEMY_BOUND_MIN: i64 = -500_000;

/// Upper edge of the enemy bounds range.
pub const ENEMY_BOUND_MAX: i64 = 2_500_000;

/// Lasers live while their x and y stay inside this tighter range.
pub const LASER_BOUND_MIN: i64 = 0;

/// Upper edge of the laser bounds range.
pub const LASER_BOUND_MAX: i64 = 2_500_000;

/// Whether a position is outside the enemy lifecycle bounds.
pub open spec fn out_of_enemy_bounds(x: int, y: int) -> bool {
    x < ENEMY_BOUND_MIN || x > ENEMY_BOUND_MAX || y < ENEMY_BOUND_MIN || y > ENEMY_BOUND_MAX
}

/// Whether a position is outside the laser lifecycle bounds.
pub open spec fn out_of_laser_bounds(x: int, y: int) -> bool {
    x < LASER_BOUND_MIN || x > LASER_BOUND_MAX || y < LASER_BOUND_MIN || y > LASER_BOUND_MAX
}

/// The transform of the last live player (in record order) that carries one;
/// with a single player per session this is the player's position, and with
/// several the last one visited wins, mirroring the iteration the tracking
/// behavior performs.
pub open spec fn last_player_transform(s: Seq<EntityRec>) -> Option<Transform>
    decreases s.len(),
{
    if s.len() == 0 {
        None
    } else if s.last().alive && s.last().player && s.last().transform is Some {
        s.last().transform
    } else {
        last_player_transform(s.drop_last())
    }
}

/// If the store is well formed, so is the player transform found in it.
pub proof fn lemma_last_player_transform_wf(s: Seq<EntityRec>)
    requires
        forall|i: int| 0 <= i < s.len() ==> (#[trigger] s[i]).wf(),
    ensures
        last_player_transform(s) is Some ==> last_player_transform(s)->Some_0.wf(),
    decreases s.len(),
{
    if s.len() > 0 {
        assert(s.last() == s[s.len() - 1]);
        assert(forall|i: int| 0 <= i < s.drop_last().len() ==> (#[trigger] s.drop_last()[i]).wf());
        lemma_last_player_transform_wf(s.drop_last());
    }
}

/// Extending a sequence by one record either takes that record's transform
/// (if it is a live player carrying one) or keeps the previous answer.
pub proof fn lemma_last_player_transform_extend(s: Seq<EntityRec>, i: int)
    requires
        0 <= i < s.len(),
    ensures
        last_player_transform(s.subrange(0, i + 1)) == if s[i].alive && s[i].player
            && s[i].transform is Some {
            s[i].transform
        } else {
            last_player_transform(s.subrange(0, i))
        },
{
    assert(s.subrange(0, i + 1).drop_last() =~= s.subrange(0, i));
    assert(s.subrange(0, i + 1).last() == s[i]);
}

/// A record after the enemy tracking behavior: a live enemy with a transform
/// re-derives its velocity toward the target; everything else is untouched.
pub open spec fn tracked_rec(r: EntityRec, target: Option<Transform>) -> EntityRec {
    if r.alive && r.enemy is Some && r.transform is Some && target is Some {
        let e = r.enemy->Some_0;
        let t = r.transform->Some_0;
        let pt = target->Some_0;
        EntityRec {
            enemy: Some(
                Enemy {
                    speed: e.speed,
                    velocity_x: seek_vx(e.speed as int, pt.x - t.x, pt.y - t.y) as i64,
                    velocity_y: seek_vy(e.speed as int, pt.x - t.x, pt.y - t.y) as i64,
                },
            ),
            ..r
        }
    } else {
        r
    }
}

/// The whole store after the enemy tracking behavior.
pub open spec fn tracking_step(s: Seq<EntityRec>) -> Seq<EntityRec> {
    s.map_values(|r: EntityRec| tracked_rec(r, last_player_transform(s)))
}

/// Recomputes every enemy's velocity from the seek algorithm, aiming at the
/// player's current position. Reads transforms and the player marker,
/// rewrites Enemy components only; no entity is created or deleted.
pub struct EnemyTrackingSystem;

impl EnemyTrackingSystem {
    pub fn run(&self, store: &mut Store)
        requires
            old(store).wf(),
        ensures
            final(store)@ == tracking_step(old(store)@),
            final(store).wf(),
    {
        let ghost orig = store@;
        let ghost target_g = last_player_transform(orig);
        proof {
            lemma_last_player_transform_wf(orig);
        }
        // First pass: find the target (the last live player's transform).
        let mut target: Option<Transform> = None;
        let mut i: usize = 0;
        assert(orig.subrange(0, 0) =~= Seq::<EntityRec>::empty());
        while i < store.recs.len()
            invariant
                i <= orig.len(),
                orig == store@,
                target == last_player_transform(orig.subrange(0, i as int)),
            decreases orig.len() - i,
        {
            proof {
                lemma_last_player_transform_extend(orig, i as int);
            }
            let r = store.recs[i];
            if r.alive && r.player && r.transform.is_some() {
                target = r.transform;
            }
            i = i + 1;
        }
        assert(orig.subrange(0, orig.len() as int) =~= orig);
        assert(target == target_g);
        match target {
            None => {
                assert(final(store)@ =~= tracking_step(orig));
            },
            Some(pt) => {
                // Second pass: re-derive each live enemy's velocity.
                let mut j: usize = 0;
                while j < store.recs.len()
                    invariant
                        j <= orig.len(),
                        store@.len() == orig.len(),
                        pt.wf(),
                        target_g == Some(pt),
                        forall|k: int|
                            0 <= k < j ==> store@[k] == tracked_rec(#[trigger] orig[k], target_g),
                        forall|k: int| j <= k < orig.len() ==> store@[k] == orig[k],
                        forall|k: int| 0 <= k < orig.len() ==> (#[trigger] orig[k]).wf(),
                        forall|k: int| 0 <= k < j ==> (#[trigger] store@[k]).wf(),
                    decreases orig.len() - j,
                {
                    let r = store.recs[j];
                    if r.alive && r.enemy.is_some() && r.transform.is_some() {
                        let mut e = r.enemy.unwrap();
                        let t = r.transform.unwrap();
                        e.move_towards(pt.x, pt.y, t.x, t.y);
                        let mut r2 = r;
                        r2.enemy = Some(e);
                        store.recs[j] = r2;
                        assert(store@[j as int] == tracked_rec(orig[j as int], target_g));
                    }
                    j = j + 1;
                }
                assert(final(store)@ =~= tracking_step(orig));
            },
        }
    }
}

/// How many records of `s` satisfy `p`.
pub open spec fn count_matching(s: Seq<EntityRec>, p: spec_fn(EntityRec) -> bool) -> nat
    decreases s.len(),
{
    if s.len() == 0 {
        0
    } else {
        count_matching(s.drop_last(), p) + if p(s.last()) {
            1nat
        } else {
            0nat
        }
    }
}

/// Counting one more record extends the count by that record's contribution.
pub proof fn lemma_count_matching_extend(s: Seq<EntityRec>, p: spec_fn(EntityRec) -> bool, i: int)
    requires
        0 <= i < s.len(),
    ensures
        count_matching(s.subrange(0, i + 1), p) == count_matching(s.subrange(0, i), p) + if p(
            s[i],
        ) {
            1nat
        } else {
            0nat
        },
{
    assert(s.subrange(0, i + 1).drop_last() =~= s.subrange(0, i));
    assert(s.subrange(0, i + 1).last() == s[i]);
}

/// `a - b`, saturating at zero (how the destruction counters decrement).
pub open spec fn sat_sub(a: int, b: int) -> int {
    if a >= b {
        a - b
    } else {
        0
    }
}

/// Where a live enemy with a transform ends up after one tick of travel.
pub open spec fn enemy_next_pos(r: EntityRec, dt: int) -> (int, int)
    recommends
        r.enemy is Some && r.transform is Some,
{
    let e = r.enemy->Some_0;
    let t = r.transform->Some_0;
    (t.x + e.velocity_x * dt, t.y + e.velocity_y * dt)
}

/// A record after the enemy movement behavior: a live enemy with a transform
/// travels at its derived velocity and is deleted if it leaves the enemy
/// bounds; everything else is untouched.
pub open spec fn moved_enemy_rec(r: EntityRec, dt: int) -> EntityRec {
    if r.alive && r.enemy is Some && r.transform is Some {
        let p = enemy_next_pos(r, dt);
        let t = r.transform->Some_0;
        let nt = Transform { x: p.0 as i64, y: p.1 as i64, ..t };
        if out_of_enemy_bounds(p.0, p.1) {
            EntityRec { alive: false, transform: Some(nt), ..r }
        } else {
            EntityRec { transform: Some(nt), ..r }
        }
    } else {
        r
    }
}

/// Whether the enemy movement behavior deletes this record this tick.
pub open spec fn enemy_deleted_by_move(dt: int) -> spec_fn(EntityRec) -> bool {
    |r: EntityRec|
        r.alive && r.enemy is Some && r.transform is Some && out_of_enemy_bounds(
            enemy_next_pos(r, dt).0,
            enemy_next_pos(r, dt).1,
        )
}

/// The whole store after the enemy movement behavior.
pub open spec fn enemy_move_step(s: Seq<EntityRec>, dt: int) -> Seq<EntityRec> {
    s.map_values(|r: EntityRec| moved_enemy_rec(r, dt))
}

/// Integrates every live enemy's transform over the elapsed time, deletes
/// the ones that leave the enemy bounds and decrements the live-enemy
/// counter once per deletion. Reads Enemy components, rewrites transforms
/// and the alive flags of enemies, and is the tick's single writer of the
/// counter.
pub struct EnemyMoveSystem;

impl EnemyMoveSystem {
    pub fn run(&self, store: &mut Store, dt: i64, enemy_count: &mut EnemyCount)
        requires
            old(store).wf(),
            0 <= dt <= MAX_DT,
        ensures
            final(store)@ == enemy_move_step(old(store)@, dt as int),
            final(store).wf(),
            final(enemy_count).count == sat_sub(
                old(enemy_count).count as int,
                count_matching(old(store)@, enemy_deleted_by_move(dt as int)) as int,
            ),
    {
        let ghost orig = store@;
        let ghost pred = enemy_deleted_by_move(dt as int);
        let ghost count0 = enemy_count.count as int;
        let mut j: usize = 0;
        assert(orig.subrange(0, 0) =~= Seq::<EntityRec>::empty());
        while j < store.recs.len()
            invariant
                j <= orig.len(),
                store@.len() == orig.len(),
                0 <= dt <= MAX_DT,
                pred == enemy_deleted_by_move(dt as int),
                forall|k: int|
                    0 <= k < j ==> store@[k] == moved_enemy_rec(#[trigger] orig[k], dt as int),
                forall|k: int| j <= k < orig.len() ==> store@[k] == orig[k],
                forall|k: int| 0 <= k < orig.len() ==> (#[trigger] orig[k]).wf(),
                forall|k: int| 0 <= k < j ==> (#[trigger] store@[k]).wf(),
                enemy_count.count == sat_sub(count0, count_matching(orig.subrange(0, j as int), pred) as int),
            decreases orig.len() - j,
        {
            proof {
                lemma_count_matching_extend(orig, pred, j as int);
            }
            let r = store.recs[j];
            if r.alive && r.enemy.is_some() && r.transform.is_some() {
                let e = r.enemy.unwrap();
                let t = r.transform.unwrap();
                let nx = integrate(t.x, e.velocity_x, dt);
                let ny = integrate(t.y, e.velocity_y, dt);
                let mut nt = t;
                nt.x = nx;
                nt.y = ny;
                let mut r2 = r;
                r2.transform = Some(nt);
                let out_of_bounds = nx < ENEMY_BOUND_MIN || nx > ENEMY_BOUND_MAX
                    || ny < ENEMY_BOUND_MIN || ny > ENEMY_BOUND_MAX;
                if out_of_bounds {
                    r2.alive = false;
                    store.recs[j] = r2;
                    enemy_count.decrement_by(1);
                } else {
                    store.recs[j] = r2;
                }
                assert(store@[j as int] == moved_enemy_rec(orig[j as int], dt as int));
            }
            j = j + 1;
        }
        assert(orig.subrange(0, orig.len() as int) =~= orig);
        assert(final(store)@ =~= enemy_move_step(orig, dt as int));
    }
}

/// Where a live laser with a transform ends up after one tick of travel
/// along its compass direction.
pub open spec fn laser_next_pos(r: EntityRec, dt: int) -> (int, int)
    recommends
        r.laser is Some && r.transform is Some,
{
    let l = r.laser->Some_0;
    let t = r.transform->Some_0;
    let d = laser_displacement(l.direction, l.speed as int, dt);
    (t.x + d.0, t.y + d.1)
}

/// A record after the projectile travel behavior: a live laser with a
/// transform travels along its fixed direction at constant speed and is
/// deleted once it exits the laser bounds; everything else is untouched.
pub open spec fn moved_laser_rec(r: EntityRec, dt: int) -> EntityRec {
    if r.alive && r.laser is Some && r.transform is Some {
        let p = laser_next_pos(r, dt);
        let t = r.transform->Some_0;
        let nt = Transform { x: p.0 as i64, y: p.1 as i64, ..t };
        if out_of_laser_bounds(p.0, p.1) {
            EntityRec { alive: false, transform: Some(nt), ..r }
        } else {
            EntityRec { transform: Some(nt), ..r }
        }
    } else {
        r
    }
}

/// The whole store after the projectile travel behavior.
pub open spec fn laser_step(s: Seq<EntityRec>, dt: int) -> Seq<EntityRec> {
    s.map_values(|r: EntityRec| moved_laser_rec(r, dt))
}

/// Moves every live laser along its fixed compass direction at its constant
/// speed and deletes the ones that exit the laser bounds. Reads Laser
/// components, rewrites transforms and the alive flags of lasers. A delete
/// of an already-dead record would be ignored, never an abort of the tick.
pub struct LaserSystem;

impl LaserSystem {
    pub fn run(&self, store: &mut Store, dt: i64)
        requires
            old(store).wf(),
            0 <= dt <= MAX_DT,
        ensures
            final(store)@ == laser_step(old(store)@, dt as int),
            final(store).wf(),
    {
        let ghost orig = store@;
        let mut j: usize = 0;
        while j < store.recs.len()
            invariant
                j <= orig.len(),
                store@.len() == orig.len(),
                0 <= dt <= MAX_DT,
                forall|k: int|
                    0 <= k < j ==> store@[k] == moved_laser_rec(#[trigger] orig[k], dt as int),
                forall|k: int| j <= k < orig.len() ==> store@[k] == orig[k],
                forall|k: int| 0 <= k < orig.len() ==> (#[trigger] orig[k]).wf(),
                forall|k: int| 0 <= k < j ==> (#[trigger] store@[k]).wf(),
            decreases orig.len() - j,
        {
            let r = store.recs[j];
            if r.alive && r.laser.is_some() && r.transform.is_some() {
                let l = r.laser.unwrap();
                let t = r.transform.unwrap();
                assert(0 <= l.speed * dt <= MAX_SPEED * MAX_DT) by (nonlinear_arith)
                    requires
                        0 <= l.speed <= MAX_SPEED && 0 <= dt <= MAX_DT,
                ;
                let travel: i64 = l.speed * dt;
                let (nx, ny): (i64, i64) = match l.direction {
                    Direction::Left => (t.x - travel, t.y),
                    Direction::Right => (t.x + travel, t.y),
                    Direction::Up => (t.x, t.y + travel),
                    Direction::Down => (t.x, t.y - travel),
                    Direction::RightUp => (t.x + travel, t.y + travel),
                    Direction::LeftUp => (t.x - travel, t.y + travel),
                    Direction::LeftDown => (t.x - travel, t.y - travel),
                    Direction::RightDown => (t.x + travel, t.y - travel),
                };
                let mut nt = t;
                nt.x = nx;
                nt.y = ny;
                let mut r2 = r;
                r2.transform = Some(nt);
                if nx < LASER_BOUND_MIN || nx > LASER_BOUND_MAX || ny < LASER_BOUND_MIN || ny
                    > LASER_BOUND_MAX {
                    r2.alive = false;
                }
                store.recs[j] = r2;
                assert(store@[j as int] == moved_laser_rec(orig[j as int], dt as int));
            }
            j = j + 1;
        }
        assert(final(store)@ =~= laser_step(orig, dt as int));
    }
}

/// A record after the movement tracking behavior: a live movement-driven
/// entity with a transform re-derives its velocity toward the target;
/// everything else is untouched.
pub open spec fn movement_tracked_rec(r: EntityRec, target: Option<Transform>) -> EntityRec {
    if r.alive && r.movement is Some && r.transform is Some && target is Some {
        let m = r.movement->Some_0;
        let t = r.transform->Some_0;
        let pt = target->Some_0;
        EntityRec {
            movement: Some(
                Movement {
                    velocity_x: seek_vx(m.speed as int, pt.x - t.x, pt.y - t.y) as i64,
                    velocity_y: seek_vy(m.speed as int, pt.x - t.x, pt.y - t.y) as i64,
                    ..m
                },
            ),
            ..r
        }
    } else {
        r
    }
}

/// The whole store after the movement tracking behavior.
pub open spec fn movement_tracking_step(s: Seq<EntityRec>) -> Seq<EntityRec> {
    s.map_values(|r: EntityRec| movement_tracked_rec(r, last_player_transform(s)))
}

/// Recomputes every movement-driven entity's velocity from the seek
/// algorithm, aiming at the player's current position. Reads transforms and
/// the player marker, rewrites Movement components only.
pub struct MovementTrackingSystem;

impl MovementTrackingSystem {
    pub fn run(&self, store: &mut Store)
        requires
            old(store).wf(),
        ensures
            final(store)@ == movement_tracking_step(old(store)@),
            final(store).wf(),
    {
        let ghost orig = store@;
        let ghost target_g = last_player_transform(orig);
        proof {
            lemma_last_player_transform_wf(orig);
        }
        let mut target: Option<Transform> = None;
        let mut i: usize = 0;
        assert(orig.subrange(0, 0) =~= Seq::<EntityRec>::empty());
        while i < store.recs.len()
            invariant
                i <= orig.len(),
                orig == store@,
                target == last_player_transform(orig.subrange(0, i as int)),
            decreases orig.len() - i,
        {
            proof {
                lemma_last_player_transform_extend(orig, i as int);
            }
            let r = store.recs[i];
            if r.alive && r.player && r.transform.is_some() {
                target = r.transform;
            }
            i = i + 1;
        }
        assert(orig.subrange(0, orig.len() as int) =~= orig);
        assert(target == target_g);
        match target {
            None => {
                assert(final(store)@ =~= movement_tracking_step(orig));
            },
            Some(pt) => {
                let mut j: usize = 0;
                while j < store.recs.len()
                    invariant
                        j <= orig.len(),
                        store@.len() == orig.len(),
                        pt.wf(),
                        target_g == Some(pt),
                        forall|k: int|
                            0 <= k < j ==> store@[k] == movement_tracked_rec(
                                #[trigger] orig[k],
                                target_g,
                            ),
                        forall|k: int| j <= k < orig.len() ==> store@[k] == orig[k],
                        forall|k: int| 0 <= k < orig.len() ==> (#[trigger] orig[k]).wf(),
                        forall|k: int| 0 <= k < j ==> (#[trigger] store@[k]).wf(),
                    decreases orig.len() - j,
                {
                    let r = store.recs[j];
                    if r.alive && r.movement.is_some() && r.transform.is_some() {
                        let mut m = r.movement.unwrap();
                        let t = r.transform.unwrap();
                        m.next_move(pt.x, pt.y, t.x, t.y);
                        let mut r2 = r;
                        r2.movement = Some(m);
                        store.recs[j] = r2;
                        assert(store@[j as int] == movement_tracked_rec(orig[j as int], target_g));
                    }
                    j = j + 1;
                }
                assert(final(store)@ =~= movement_tracking_step(orig));
            },
        }
    }
}

/// A rotation advanced by half a turn, kept normalized to `[0, FULL_TURN)`.
pub open spec fn rotated_half_turn(rot: int) -> int {
    if rot + HALF_TURN >= FULL_TURN {
        rot + HALF_TURN - FULL_TURN
    } else {
        rot + HALF_TURN
    }
}

/// Where a live movement-driven entity with a transform ends up after one
/// tick of travel.
pub open spec fn movement_next_pos(r: EntityRec, dt: int) -> (int, int)
    recommends
        r.movement is Some && r.transform is Some,
{
    let m = r.movement->Some_0;
    let t = r.transform->Some_0;
    (t.x + m.velocity_x * dt, t.y + m.velocity_y * dt)
}

/// A record after the transform update behavior: a live movement-driven
/// entity with a transform travels at its derived velocity; if it carries a
/// locked direction whose one-shot rotation has not yet been applied, its
/// transform turns half a revolution exactly once and the flag is set; an
/// entity leaving the enemy bounds is deleted. Everything else is untouched.
pub open spec fn transform_updated_rec(r: EntityRec, dt: int) -> EntityRec {
    if r.alive && r.movement is Some && r.transform is Some {
        let m = r.movement->Some_0;
        let t = r.transform->Some_0;
        let p = movement_next_pos(r, dt);
        let rotate_now = m.locked_direction is Some && !m.already_rotated;
        let nrot = if rotate_now {
            rotated_half_turn(t.rotation as int)
        } else {
            t.rotation as int
        };
        let nm = if rotate_now {
            Movement { already_rotated: true, ..m }
        } else {
            m
        };
        let nt = Transform { x: p.0 as i64, y: p.1 as i64, rotation: nrot as i64, ..t };
        if out_of_enemy_bounds(p.0, p.1) {
            EntityRec { alive: false, transform: Some(nt), movement: Some(nm), ..r }
        } else {
            EntityRec { transform: Some(nt), movement: Some(nm), ..r }
        }
    } else {
        r
    }
}

/// Whether the transform update behavior deletes this record this tick.
pub open spec fn movement_deleted_by_update(dt: int) -> spec_fn(EntityRec) -> bool {
    |r: EntityRec|
        r.alive && r.movement is Some && r.transform is Some && out_of_enemy_bounds(
            movement_next_pos(r, dt).0,
            movement_next_pos(r, dt).1,
        )
}

/// The whole store after the transform update behavior.
pub open spec fn transform_update_step(s: Seq<EntityRec>, dt: int) -> Seq<EntityRec> {
    s.map_values(|r: EntityRec| transform_updated_rec(r, dt))
}

/// Integrates every movement-driven transform, applies the one-shot
/// locked-direction rotation, deletes entities that leave the enemy bounds
/// and records each deletion on the level's wave counter. Reads and
/// rewrites Movement components and transforms, and is the tick's single
/// writer of the level metadata.
pub struct TransformUpdateSystem;

impl TransformUpdateSystem {
    pub fn run(&self, store: &mut Store, dt: i64, level_metadata: &mut LevelMetadata)
        requires
            old(store).wf(),
            0 <= dt <= MAX_DT,
        ensures
            final(store)@ == transform_update_step(old(store)@, dt as int),
            final(store).wf(),
            final(level_metadata).remaining == sat_sub(
                old(level_metadata).remaining as int,
                count_matching(old(store)@, movement_deleted_by_update(dt as int)) as int,
            ),
            final(level_metadata).layout == old(level_metadata).layout,
    {
        let ghost orig = store@;
        let ghost pred = movement_deleted_by_update(dt as int);
        let ghost remaining0 = level_metadata.remaining as int;
        let mut j: usize = 0;
        assert(orig.subrange(0, 0) =~= Seq::<EntityRec>::empty());
        while j < store.recs.len()
            invariant
                j <= orig.len(),
                store@.len() == orig.len(),
                0 <= dt <= MAX_DT,
                pred == movement_deleted_by_update(dt as int),
                forall|k: int|
                    0 <= k < j ==> store@[k] == transform_updated_rec(#[trigger] orig[k], dt as int),
                forall|k: int| j <= k < orig.len() ==> store@[k] == orig[k],
                forall|k: int| 0 <= k < orig.len() ==> (#[trigger] orig[k]).wf(),
                forall|k: int| 0 <= k < j ==> (#[trigger] store@[k]).wf(),
                level_metadata.remaining == sat_sub(
                    remaining0,
                    count_matching(orig.subrange(0, j as int), pred) as int,
                ),
                level_metadata.layout == old(level_metadata).layout,
            decreases orig.len() - j,
        {
            proof {
                lemma_count_matching_extend(orig, pred, j as int);
            }
            let r = store.recs[j];
            if r.alive && r.movement.is_some() && r.transform.is_some() {
                let m = r.movement.unwrap();
                let t = r.transform.unwrap();
                let nx = integrate(t.x, m.velocity_x, dt);
                let ny = integrate(t.y, m.velocity_y, dt);
                let mut nt = t;
                nt.x = nx;
                nt.y = ny;
                let mut m2 = m;
                if m.locked_direction.is_some() && !m.already_rotated {
                    let mut nrot: i64 = t.rotation + HALF_TURN;
                    if nrot >= FULL_TURN {
                        nrot = nrot - FULL_TURN;
                    }
                    nt.rotation = nrot;
                    m2.already_rotated = true;
                }
                let mut r2 = r;
                r2.transform = Some(nt);
                r2.movement = Some(m2);
                let out_of_bounds = nx < ENEMY_BOUND_MIN || nx > ENEMY_BOUND_MAX
                    || ny < ENEMY_BOUND_MIN || ny > ENEMY_BOUND_MAX;
                if out_of_bounds {
                    r2.alive = false;
                    store.recs[j] = r2;
                    level_metadata.enemy_destroyed();
                } else {
                    store.recs[j] = r2;
                }
                assert(store@[j as int] == transform_updated_rec(orig[j as int], dt as int));
            }
            j = j + 1;
        }
        assert(orig.subrange(0, orig.len() as int) =~= orig);
        assert(final(store)@ =~= transform_update_step(orig, dt as int));
    }
}

/// A record after the fade behavior: every live fader advances one tick.
pub open spec fn faded_rec(r: EntityRec, dt: int) -> EntityRec {
    if r.alive && r.fader is Some {
        EntityRec { fader: Some(fader_advanced(r.fader->Some_0, dt)), ..r }
    } else {
        r
    }
}

/// The whole store after the fade behavior.
pub open spec fn fade_step(s: Seq<EntityRec>, dt: int) -> Seq<EntityRec> {
    s.map_values(|r: EntityRec| faded_rec(r, dt))
}

/// Whether some live fader in the store has reached its extreme.
pub open spec fn has_finished_fader(s: Seq<EntityRec>) -> bool {
    exists|i: int|
        0 <= i < s.len() && (#[trigger] s[i]).alive && s[i].fader is Some
            && s[i].fader->Some_0.finished
}

/// The same property as `has_finished_fader`, computed record by record.
pub open spec fn any_finished_fader(s: Seq<EntityRec>) -> bool
    decreases s.len(),
{
    if s.len() == 0 {
        false
    } else {
        any_finished_fader(s.drop_last()) || (s.last().alive && s.last().fader is Some
            && s.last().fader->Some_0.finished)
    }
}

/// The two readings of "some live fader finished" agree.
pub proof fn lemma_any_finished_fader_exists(s: Seq<EntityRec>)
    ensures
        any_finished_fader(s) == has_finished_fader(s),
    decreases s.len(),
{
    if s.len() > 0 {
        lemma_any_finished_fader_exists(s.drop_last());
        let last = s.len() - 1;
        if s[last].alive && s[last].fader is Some && s[last].fader->Some_0.finished {
            assert(has_finished_fader(s));
        }
        if has_finished_fader(s.drop_last()) {
            let k = choose|k: int|
                0 <= k < s.drop_last().len() && (#[trigger] s.drop_last()[k]).alive
                    && s.drop_last()[k].fader is Some && s.drop_last()[k].fader->Some_0.finished;
            assert(s[k] == s.drop_last()[k]);
            assert(has_finished_fader(s));
        }
        if has_finished_fader(s) && !any_finished_fader(s) {
            let k = choose|k: int|
                0 <= k < s.len() && (#[trigger] s[k]).alive && s[k].fader is Some
                    && s[k].fader->Some_0.finished;
            assert(k < last);
            assert(s.drop_last()[k] == s[k]);
            assert(has_finished_fader(s.drop_last()));
        }
    }
}

/// Advances every live fader by the elapsed time and reports on the shared
/// status once any of them completes; the status then stays set until its
/// consumer explicitly clears it. Rewrites Fader components and is the
/// tick's single writer of the status.
pub struct FadeSystem;

impl FadeSystem {
    pub fn run(&self, store: &mut Store, dt: i64, status: &mut FadeStatus)
        requires
            old(store).wf(),
            0 <= dt <= MAX_DT,
        ensures
            final(store)@ == fade_step(old(store)@, dt as int),
            final(store).wf(),
            final(status).complete == (old(status).complete || has_finished_fader(final(store)@)),
    {
        let ghost orig = store@;
        let mut found = false;
        let mut j: usize = 0;
        assert(store@.subrange(0, 0) =~= Seq::<EntityRec>::empty());
        while j < store.recs.len()
            invariant
                j <= orig.len(),
                store@.len() == orig.len(),
                0 <= dt <= MAX_DT,
                forall|k: int| 0 <= k < j ==> store@[k] == faded_rec(#[trigger] orig[k], dt as int),
                forall|k: int| j <= k < orig.len() ==> store@[k] == orig[k],
                forall|k: int| 0 <= k < orig.len() ==> (#[trigger] orig[k]).wf(),
                forall|k: int| 0 <= k < j ==> (#[trigger] store@[k]).wf(),
                found == any_finished_fader(store@.subrange(0, j as int)),
            decreases orig.len() - j,
        {
            let ghost pre = store@;
            let r = store.recs[j];
            if r.alive && r.fader.is_some() {
                let mut f = r.fader.unwrap();
                f.advance(dt);
                let mut r2 = r;
                r2.fader = Some(f);
                store.recs[j] = r2;
                assert(store@[j as int] == faded_rec(orig[j as int], dt as int));
                if f.finished {
                    found = true;
                }
            }
            proof {
                let jj = j as int;
                assert(store@.subrange(0, jj) =~= pre.subrange(0, jj));
                assert(store@.subrange(0, jj + 1).drop_last() =~= store@.subrange(0, jj));
                assert(store@.subrange(0, jj + 1).last() == store@[jj]);
            }
            j = j + 1;
        }
        assert(final(store)@ =~= fade_step(orig, dt as int));
        proof {
            assert(store@.subrange(0, store@.len() as int) =~= store@);
            lemma_any_finished_fader_exists(store@);
        }
        if found {
            status.set_complete();
        }
    }
}

/// The store after one full gameplay tick: enemy tracking, enemy movement,
/// projectile travel, movement tracking, then transform update, in the fixed
/// pipeline order.
pub open spec fn gameplay_pipeline_step(s: Seq<EntityRec>, dt: int) -> Seq<EntityRec> {
    transform_update_step(
        movement_tracking_step(laser_step(enemy_move_step(tracking_step(s), dt), dt)),
        dt,
    )
}

/// Law (bounds invariant over a whole tick): no enemy or laser observed
/// after a full gameplay tick sits outside its kind's bound range. A laser
/// (a record carrying only a Laser component beside its transform) that
/// survives the tick is inside the laser bounds; an enemy — tracking or
/// movement-driven — that survives is inside the enemy bounds. The
/// per-behavior laws below add that an entity crossing its boundary is
/// deleted within the same tick.
pub proof fn lemma_tick_bounds_invariant(s: Seq<EntityRec>, dt: int)
    ensures
        forall|i: int|
            0 <= i < s.len() ==> {
                let r2 = #[trigger] gameplay_pipeline_step(s, dt)[i];
                &&& (r2.alive && r2.laser is Some && r2.enemy is None && r2.movement is None
                    && r2.transform is Some && s[i].transform is Some
                    ==> LASER_BOUND_MIN <= r2.transform->Some_0.x <= LASER_BOUND_MAX
                    && LASER_BOUND_MIN <= r2.transform->Some_0.y <= LASER_BOUND_MAX)
                &&& (r2.alive && r2.enemy is Some && r2.laser is None && r2.transform is Some
                    && s[i].transform is Some
                    ==> ENEMY_BOUND_MIN <= r2.transform->Some_0.x <= ENEMY_BOUND_MAX
                    && ENEMY_BOUND_MIN <= r2.transform->Some_0.y <= ENEMY_BOUND_MAX)
            },
{
    let s1 = tracking_step(s);
    let s2 = enemy_move_step(s1, dt);
    let s3 = laser_step(s2, dt);
    let s4 = movement_tracking_step(s3);
    let s5 = transform_update_step(s4, dt);
    assert forall|i: int| 0 <= i < s.len() implies {
        let r2 = #[trigger] gameplay_pipeline_step(s, dt)[i];
        &&& (r2.alive && r2.laser is Some && r2.enemy is None && r2.movement is None
            && r2.transform is Some && s[i].transform is Some
            ==> LASER_BOUND_MIN <= r2.transform->Some_0.x <= LASER_BOUND_MAX
            && LASER_BOUND_MIN <= r2.transform->Some_0.y <= LASER_BOUND_MAX)
        &&& (r2.alive && r2.enemy is Some && r2.laser is None && r2.transform is Some
            && s[i].transform is Some
            ==> ENEMY_BOUND_MIN <= r2.transform->Some_0.x <= ENEMY_BOUND_MAX
            && ENEMY_BOUND_MIN <= r2.transform->Some_0.y <= ENEMY_BOUND_MAX)
    } by {
        let a = tracked_rec(s[i], last_player_transform(s));
        let b = moved_enemy_rec(a, dt);
        let c = moved_laser_rec(b, dt);
        let d = movement_tracked_rec(c, last_player_transform(s3));
        let e = transform_updated_rec(d, dt);
        assert(s5[i] == e);
    }
}

/// Law (enemy half of the bounds invariant): after the enemy movement
/// behavior runs, no surviving enemy sits outside the enemy bounds, and any
/// enemy whose tick of travel crosses the boundary is deleted that same
/// tick.
pub proof fn lemma_enemy_bounds_invariant(s: Seq<EntityRec>, dt: int)
    ensures
        forall|i: int|
            0 <= i < s.len() && (#[trigger] s[i]).alive && s[i].enemy is Some
                && s[i].transform is Some ==> {
                let r2 = enemy_move_step(s, dt)[i];
                &&& (r2.alive ==> ENEMY_BOUND_MIN <= r2.transform->Some_0.x <= ENEMY_BOUND_MAX
                    && ENEMY_BOUND_MIN <= r2.transform->Some_0.y <= ENEMY_BOUND_MAX)
                &&& (out_of_enemy_bounds(enemy_next_pos(s[i], dt).0, enemy_next_pos(s[i], dt).1)
                    ==> !r2.alive)
            },
{
}

/// Law (laser half of the bounds invariant): after the projectile travel
/// behavior runs, no surviving laser sits outside the laser bounds, and any
/// laser whose tick of travel crosses the boundary is deleted that same
/// tick.
pub proof fn lemma_laser_bounds_invariant(s: Seq<EntityRec>, dt: int)
    ensures
        forall|i: int|
            0 <= i < s.len() && (#[trigger] s[i]).alive && s[i].laser is Some
                && s[i].transform is Some ==> {
                let r2 = laser_step(s, dt)[i];
                &&& (r2.alive ==> LASER_BOUND_MIN <= r2.transform->Some_0.x <= LASER_BOUND_MAX
                    && LASER_BOUND_MIN <= r2.transform->Some_0.y <= LASER_BOUND_MAX)
                &&& (out_of_laser_bounds(laser_next_pos(s[i], dt).0, laser_next_pos(s[i], dt).1)
                    ==> !r2.alive)
            },
{
}

/// Law (movement-driven entities obey the same bounds): after the transform
/// update behavior runs, no surviving movement-driven entity sits outside
/// the enemy bounds, and one that crosses the boundary is deleted that same
/// tick. Moreover the locked-direction rotation is applied at most once: a
/// record whose rotation flag is already set keeps its rotation unchanged.
pub proof fn lemma_movement_bounds_invariant(s: Seq<EntityRec>, dt: int)
    ensures
        forall|i: int|
            0 <= i < s.len() && (#[trigger] s[i]).alive && s[i].movement is Some
                && s[i].transform is Some ==> {
                let r2 = transform_update_step(s, dt)[i];
                &&& (r2.alive ==> ENEMY_BOUND_MIN <= r2.transform->Some_0.x <= ENEMY_BOUND_MAX
                    && ENEMY_BOUND_MIN <= r2.transform->Some_0.y <= ENEMY_BOUND_MAX)
                &&& (out_of_enemy_bounds(
                    movement_next_pos(s[i], dt).0,
                    movement_next_pos(s[i], dt).1,
                ) ==> !r2.alive)
                &&& (s[i].movement->Some_0.already_rotated ==> r2.transform->Some_0.rotation
                    == s[i].transform->Some_0.rotation)
                &&& r2.movement->Some_0.already_rotated == (s[i].movement->Some_0.already_rotated
                    || s[i].movement->Some_0.locked_direction is Some)
            },
{
}

} // verus!
