//! Tests of the level queue, the playable area, the two states and the game
//! state machine's transitions.

use shooter_core::game::{ActiveState, Game};
use shooter_core::level::{
    EntityType, GameplayHandles, LevelMetadata, Levels, PlayableArea, ScreenDimensions,
    SpawnRecord,
};
use shooter_core::states::{InputEvent, Key, Trans};

fn rec(kind: EntityType, x: i64, y: i64) -> SpawnRecord {
    SpawnRecord { kind, x, y }
}

fn demo_dims() -> ScreenDimensions {
    ScreenDimensions { width: 1_920_000, height: 1_080_000 }
}

fn demo_handles() -> GameplayHandles {
    GameplayHandles {
        background_sprite_handle: 1,
        overlay_sprite_handle: 2,
        enemy_sprites_handle: 3,
        player_sprites_handle: 4,
    }
}

/// The first wave: three enemies and one player.
fn first_level() -> LevelMetadata {
    let mut layout = Vec::new();
    layout.push(rec(EntityType::SquareEnemy, 100_000, 100_000));
    layout.push(rec(EntityType::SquareEnemy, 200_000, 200_000));
    layout.push(rec(EntityType::SquareEnemy, 300_000, 300_000));
    layout.push(rec(EntityType::Player, 0, 0));
    LevelMetadata::new(layout)
}

fn second_level() -> LevelMetadata {
    let mut layout = Vec::new();
    layout.push(rec(EntityType::Boss, 500_000, 500_000));
    layout.push(rec(EntityType::Player, 0, 0));
    LevelMetadata::new(layout)
}

fn demo_game() -> Game {
    let mut levels = Levels::new();
    levels.push(first_level());
    levels.push(second_level());
    Game::new(levels, demo_dims(), demo_handles())
}

#[test]
fn levels_queue_round_trip_preserves_fifo_order() {
    let mut levels = Levels::new();
    levels.push(first_level());
    levels.push(second_level());
    levels.push(LevelMetadata::new(Vec::new()));
    let original_layout_lens = [4usize, 2, 0];

    // Pop everything, front first, then push the same sequence back.
    let mut popped = Vec::new();
    while levels.len() > 0 {
        popped.push(levels.pop().unwrap());
    }
    assert!(levels.pop().is_none());
    let mut rebuilt = Levels::new();
    for level in popped {
        rebuilt.push(level);
    }

    assert_eq!(rebuilt.len(), 3);
    let mut i = 0;
    while rebuilt.len() > 0 {
        let level = rebuilt.pop().unwrap();
        assert_eq!(level.get_layout().len(), original_layout_lens[i]);
        i += 1;
    }
}

#[test]
fn level_metadata_counts_enemy_spawns() {
    assert_eq!(first_level().remaining, 3);
    assert_eq!(second_level().remaining, 1);
    assert_eq!(LevelMetadata::new(Vec::new()).remaining, 0);
}

#[test]
fn playable_area_is_the_inner_screen_rectangle() {
    let area = PlayableArea::from_dimensions(&demo_dims());
    assert_eq!(area.x_min, 633_600);
    assert_eq!(area.x_max, 1_286_400);
    assert_eq!(area.y_min, 237_600);
    assert_eq!(area.y_max, 842_400);
}

#[test]
fn new_game_spawns_the_first_level() {
    let game = demo_game();
    assert!(!game.quit);
    assert!(!game.paused);
    assert_eq!(game.store.count_enemies(), 3);
    match &game.state {
        ActiveState::Gameplay(gs) => {
            assert_eq!(gs.levels.len(), 1);
            assert!(!gs.level_is_loaded);
        },
        ActiveState::Transition(_) => panic!("a new session starts in gameplay"),
    }
    // The popped level became the session's current level metadata.
    assert_eq!(game.level_metadata.remaining, 3);
}

#[test]
fn wave_completion_switches_to_transition_with_same_queue() {
    // Spawn three enemies and one player; once all three are gone the
    // machine switches to the transition state carrying the same pending
    // level queue.
    let mut game = demo_game();
    let t1 = game.tick(16, true);
    assert_eq!(t1, Trans::Stay);

    // Simulate the wave dying out (as out-of-bounds deletion would).
    let n = game.store.len();
    for id in 0..n {
        let r = game.store.get(id);
        if r.alive && r.enemy.is_some() {
            game.store.delete(id);
        }
    }

    let t2 = game.tick(16, true);
    assert_eq!(t2, Trans::SwitchToTransition);
    match &game.state {
        ActiveState::Transition(ts) => {
            assert_eq!(ts.levels.len(), 1);
            assert_eq!(ts.overlay_sprite_handle, 2);
        },
        ActiveState::Gameplay(_) => panic!("expected the transition state"),
    }
    // Cleanup-tagged entities (player, enemies) were swept on exit.
    for id in 0..game.store.len() {
        let r = game.store.get(id);
        assert!(!(r.alive && r.cleanup));
    }
}

#[test]
fn completed_wave_issues_no_second_transition_request() {
    let mut game = demo_game();
    game.tick(16, true);
    let n = game.store.len();
    for id in 0..n {
        let r = game.store.get(id);
        if r.alive && r.enemy.is_some() {
            game.store.delete(id);
        }
    }
    assert_eq!(game.tick(16, true), Trans::SwitchToTransition);
    // Later ticks run the transition state: whatever they request, it is
    // never another Gameplay-to-Transition switch.
    for _ in 0..5 {
        assert_ne!(game.tick(16, true), Trans::SwitchToTransition);
    }
}

#[test]
fn transition_fade_completes_and_spawns_next_level() {
    let mut game = demo_game();
    let n = game.store.len();
    game.tick(16, true);
    for id in 0..n {
        let r = game.store.get(id);
        if r.alive && r.enemy.is_some() {
            game.store.delete(id);
        }
    }
    assert_eq!(game.tick(16, true), Trans::SwitchToTransition);

    // The overlay darkens at 6000 per ms: one 200 ms tick completes it.
    let t = game.tick(200, true);
    assert_eq!(t, Trans::SwitchToGameplay);
    match &game.state {
        ActiveState::Gameplay(gs) => {
            assert_eq!(gs.levels.len(), 0);
            assert!(!gs.level_is_loaded);
        },
        ActiveState::Transition(_) => panic!("expected gameplay after the fade"),
    }
    // The boss wave of the second level is live now.
    assert_eq!(game.store.count_enemies(), 1);
    assert_eq!(game.level_metadata.remaining, 1);
    assert_eq!(game.enemy_count.count, 1);
}

#[test]
fn load_incomplete_tick_is_a_gameplay_no_op() {
    let mut game = demo_game();
    let before: Vec<(bool, i64, i64)> = (0..game.store.len())
        .map(|id| {
            let r = game.store.get(id);
            let t = r.transform.unwrap();
            (r.alive, t.x, t.y)
        })
        .collect();
    game.tick(1000, false);
    for (id, (alive, x, y)) in before.iter().enumerate() {
        let r = game.store.get(id);
        let t = r.transform.unwrap();
        assert_eq!((r.alive, t.x, t.y), (*alive, *x, *y));
    }
}

#[test]
fn escape_quits_from_gameplay() {
    let mut game = demo_game();
    game.handle_event(InputEvent::KeyDown(Key::Escape));
    assert!(game.quit);
    // A quit machine ignores ticks.
    assert_eq!(game.tick(16, true), Trans::Stay);
}

#[test]
fn close_request_quits() {
    let mut game = demo_game();
    game.handle_event(InputEvent::CloseRequested);
    assert!(game.quit);
}

#[test]
fn pause_key_toggles_the_pause_overlay() {
    let mut game = demo_game();
    game.handle_event(InputEvent::KeyDown(Key::P));
    assert!(game.paused);
    // Ticks do nothing while paused.
    assert_eq!(game.tick(16, true), Trans::Stay);
    assert_eq!(game.store.count_enemies(), 3);
    // The pause key pops the overlay and play resumes.
    game.handle_event(InputEvent::KeyDown(Key::P));
    assert!(!game.paused);
}

#[test]
fn space_key_forces_the_transition() {
    let mut game = demo_game();
    game.handle_event(InputEvent::KeyDown(Key::Space));
    match &game.state {
        ActiveState::Transition(ts) => assert_eq!(ts.levels.len(), 1),
        ActiveState::Gameplay(_) => panic!("space should force the transition"),
    }
}

#[test]
fn transition_entry_places_a_fading_overlay() {
    let mut game = demo_game();
    game.handle_event(InputEvent::KeyDown(Key::Space));
    let mut overlays = 0;
    for id in 0..game.store.len() {
        let r = game.store.get(id);
        if r.alive && r.fader.is_some() {
            overlays += 1;
            let f = r.fader.unwrap();
            assert_eq!(f.value, 0);
            assert!(!f.finished);
            assert_eq!(r.render.unwrap().sheet, 2);
        }
    }
    assert_eq!(overlays, 1);
}

#[test]
fn exhausted_queue_spawns_nothing() {
    let game = Game::new(Levels::new(), demo_dims(), demo_handles());
    // Only the camera and background exist; no enemies, no player.
    assert_eq!(game.store.count_enemies(), 0);
    assert_eq!(game.level_metadata.remaining, 0);
    assert_eq!(game.level_metadata.get_layout().len(), 0);
}
