//! Tests of the entity store and the per-tick behaviors: tracking, movement,
//! projectile travel, bounds-based deletion and fading.

use shooter_core::components::{Direction, Enemy, Laser, Movement, Transform};
use shooter_core::fade::{Fade, Fader, FadeStatus, OPACITY_SCALE};
use shooter_core::level::EnemyCount;
use shooter_core::level::LevelMetadata;
use shooter_core::store::{EntityRec, Store};
use shooter_core::systems::{
    EnemyMoveSystem, EnemyTrackingSystem, FadeSystem, LaserSystem, MovementTrackingSystem,
    TransformUpdateSystem,
};

fn entity_at(x: i64, y: i64) -> EntityRec {
    let mut rec = EntityRec::blank();
    rec.transform = Some(Transform::new(x, y, 0, 1000));
    rec
}

#[test]
fn tracking_aims_enemy_at_player() {
    let mut store = Store::new();
    let mut enemy = entity_at(100_000, 0);
    enemy.enemy = Some(Enemy::new(100));
    store.spawn(enemy);
    let mut player = entity_at(0, 0);
    player.player = true;
    store.spawn(player);

    EnemyTrackingSystem.run(&mut store);

    let e = store.get(0).enemy.unwrap();
    // The player sits due left: the enemy heads left at full speed.
    assert_eq!(e.velocity_x, -100);
    assert_eq!(e.velocity_y, 0);
}

#[test]
fn tracking_without_player_changes_nothing() {
    let mut store = Store::new();
    let mut enemy = entity_at(100_000, 50_000);
    enemy.enemy = Some(Enemy::new(100));
    store.spawn(enemy);

    EnemyTrackingSystem.run(&mut store);

    let e = store.get(0).enemy.unwrap();
    assert_eq!(e.velocity_x, 0);
    assert_eq!(e.velocity_y, 0);
}

#[test]
fn enemy_moves_and_survives_inside_bounds() {
    let mut store = Store::new();
    let mut enemy = entity_at(100_000, 0);
    enemy.enemy = Some(Enemy::new(100));
    store.spawn(enemy);
    let mut player = entity_at(0, 0);
    player.player = true;
    store.spawn(player);
    let mut count = EnemyCount::new(1);

    EnemyTrackingSystem.run(&mut store);
    EnemyMoveSystem.run(&mut store, 1000, &mut count);

    let rec = store.get(0);
    assert!(rec.alive);
    // One second at 100 units/s toward the player: 100 game units left.
    assert_eq!(rec.transform.unwrap().x, 0);
    assert_eq!(count.count, 1);
}

#[test]
fn enemy_crossing_bound_is_deleted_and_counted() {
    let mut store = Store::new();
    let mut enemy = entity_at(2_499_000, 0);
    enemy.enemy = Some(Enemy::new(1000));
    store.spawn(enemy);
    // A live player far to the right pulls the enemy across the bound.
    let mut player = entity_at(900_000_000, 0);
    player.player = true;
    store.spawn(player);
    let mut count = EnemyCount::new(1);

    EnemyTrackingSystem.run(&mut store);
    EnemyMoveSystem.run(&mut store, 1000, &mut count);

    let rec = store.get(0);
    assert!(!rec.alive);
    // It moved at full speed (1000 units/s for one second) before the check.
    assert_eq!(rec.transform.unwrap().x, 3_499_000);
    assert_eq!(count.count, 0);
}

#[test]
fn laser_travels_left_and_is_deleted_at_bound() {
    // A laser at (10, 10) with direction Left and speed 500 over one second
    // moves to x = -490 game units, fails the x >= 0 check and is deleted.
    let mut store = Store::new();
    let mut laser = entity_at(10_000, 10_000);
    laser.laser = Some(Laser::new(Direction::Left, 500));
    store.spawn(laser);

    LaserSystem.run(&mut store, 1000);

    let rec = store.get(0);
    assert!(!rec.alive);
    assert_eq!(rec.transform.unwrap().x, -490_000);
    assert_eq!(rec.transform.unwrap().y, 10_000);
}

#[test]
fn laser_inside_bounds_survives() {
    let mut store = Store::new();
    let mut laser = entity_at(1_000_000, 1_000_000);
    laser.laser = Some(Laser::new(Direction::RightUp, 500));
    store.spawn(laser);

    LaserSystem.run(&mut store, 100);

    let rec = store.get(0);
    assert!(rec.alive);
    // Diagonal travel moves both axes at full speed.
    assert_eq!(rec.transform.unwrap().x, 1_050_000);
    assert_eq!(rec.transform.unwrap().y, 1_050_000);
}

#[test]
fn movement_tracking_and_update_move_entity() {
    let mut store = Store::new();
    let mut flyer = entity_at(0, 200_000);
    flyer.movement = Some(Movement::new(150, None));
    store.spawn(flyer);
    let mut player = entity_at(0, 0);
    player.player = true;
    store.spawn(player);
    let mut meta = LevelMetadata::new(Vec::new());

    MovementTrackingSystem.run(&mut store);
    TransformUpdateSystem.run(&mut store, 1000, &mut meta);

    let rec = store.get(0);
    assert!(rec.alive);
    // The player sits due down: 150 game units of travel downward.
    assert_eq!(rec.transform.unwrap().y, 50_000);
    assert_eq!(rec.movement.unwrap().velocity_y, -150);
}

#[test]
fn locked_direction_rotates_exactly_once() {
    let mut store = Store::new();
    let mut flyer = entity_at(500_000, 500_000);
    flyer.movement = Some(Movement::new(0, Some((0, -1))));
    store.spawn(flyer);
    let mut meta = LevelMetadata::new(Vec::new());

    TransformUpdateSystem.run(&mut store, 16, &mut meta);
    let after_one = store.get(0);
    assert_eq!(after_one.transform.unwrap().rotation, 500);
    assert!(after_one.movement.unwrap().already_rotated);

    TransformUpdateSystem.run(&mut store, 16, &mut meta);
    let after_two = store.get(0);
    // The half-turn is a one-shot: a second tick leaves the rotation alone.
    assert_eq!(after_two.transform.unwrap().rotation, 500);
}

#[test]
fn movement_deletion_decrements_level_counter() {
    let mut store = Store::new();
    let mut flyer = entity_at(2_499_000, 0);
    let mut m = Movement::new(1000, None);
    // Aim it across the bound.
    m.next_move(900_000_000, 0, 2_499_000, 0);
    flyer.movement = Some(m);
    store.spawn(flyer);
    let mut layout = Vec::new();
    layout.push(shooter_core::level::SpawnRecord {
        kind: shooter_core::level::EntityType::FlyingEnemy,
        x: 2_499_000,
        y: 0,
    });
    let mut meta = LevelMetadata::new(layout);
    assert_eq!(meta.remaining, 1);

    TransformUpdateSystem.run(&mut store, 1000, &mut meta);

    assert!(!store.get(0).alive);
    assert_eq!(meta.remaining, 0);

    // A second sweep finds nothing to destroy and the counter stays at
    // zero, never negative.
    TransformUpdateSystem.run(&mut store, 1000, &mut meta);
    assert_eq!(meta.remaining, 0);
}

#[test]
fn darken_fader_is_monotone_until_complete() {
    let mut f = Fader::new(6_000, Fade::Darken);
    assert_eq!(f.value, 0);
    let mut prev = f.value;
    let mut completions = 0;
    for _ in 0..20 {
        let was_finished = f.finished;
        f.advance(100);
        assert!(f.value >= prev);
        prev = f.value;
        if f.finished && !was_finished {
            completions += 1;
        }
    }
    // 6000 per ms for 100 ms steps: 600_000 per tick, complete on tick two,
    // and completion fires exactly once.
    assert!(f.finished);
    assert_eq!(f.value, OPACITY_SCALE);
    assert_eq!(completions, 1);
}

#[test]
fn lighten_fader_is_monotone_down() {
    let mut f = Fader::new(1_000, Fade::Lighten);
    assert_eq!(f.value, OPACITY_SCALE);
    let mut prev = f.value;
    while !f.finished {
        f.advance(300);
        assert!(f.value <= prev);
        prev = f.value;
    }
    assert_eq!(f.value, 0);
}

#[test]
fn fade_system_reports_completion_on_status() {
    let mut store = Store::new();
    let mut overlay = entity_at(0, 0);
    overlay.fader = Some(Fader::new(6_000, Fade::Darken));
    store.spawn(overlay);
    let mut status = FadeStatus::new();

    FadeSystem.run(&mut store, 100, &mut status);
    assert!(!status.is_completed());
    assert_eq!(store.get(0).fader.unwrap().value, 600_000);

    FadeSystem.run(&mut store, 100, &mut status);
    assert!(status.is_completed());
    assert_eq!(store.get(0).fader.unwrap().value, OPACITY_SCALE);

    status.clear();
    assert!(!status.is_completed());
}

#[test]
fn deleting_twice_reports_false_the_second_time() {
    // A double delete is the ignorable error of the lifecycle behaviors:
    // the first succeeds, the second is a no-op.
    let mut store = Store::new();
    store.spawn(entity_at(0, 0));
    assert!(store.delete(0));
    assert!(!store.delete(0));
    // Deleting a never-created entity is also a no-op.
    assert!(!store.delete(99));
}

#[test]
fn enemy_component_api() {
    let mut e = Enemy::new(250);
    assert_eq!(e.get_speed(), 250);
    assert_eq!((e.velocity_x, e.velocity_y), (0, 0));
    // Target on the 3-4-5 diagonal: the speed splits exactly.
    e.move_towards(30_000, 40_000, 0, 0);
    assert_eq!((e.velocity_x, e.velocity_y), (150, 200));
    assert_eq!(e.get_speed(), 250);
}

#[test]
fn cleanup_sweep_removes_only_tagged_entities() {
    let mut store = Store::new();
    let mut tagged = entity_at(1_000, 0);
    tagged.cleanup = true;
    store.spawn(tagged);
    let plain = entity_at(2_000, 0);
    store.spawn(plain);

    store.delete_tagged();

    assert!(!store.get(0).alive);
    assert!(store.get(1).alive);
}
