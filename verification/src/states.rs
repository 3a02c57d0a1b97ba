//! The two pipeline-owning states of the game: `GameplayState`, which spawns
//! a level and runs the gameplay behaviors each tick, and `TransitionState`,
//! which darkens the scene between levels. Each returns transition requests
//! that the state machine applies.

use vstd::prelude::*;
use crate::components::{Enemy, Movement, RenderRef, Transform};
use crate::fade::{Fade, Fader, FadeStatus};
use crate::level::{
    EnemyCount, EntityType, GameplayHandles, LevelMetadata, Levels, PlayableArea, ScreenDimensions,
    SpawnRecord, BOSS_SPEED, FLYING_ENEMY_SPEED, SQUARE_ENEMY_SPEED,
};
use crate::math::MAX_DT;
use crate::store::{count_live_enemies, cleanup_swept, EntityRec, Store};
use crate::systems::{
    count_matching, enemy_deleted_by_move, enemy_move_step, fade_step, gameplay_pipeline_step,
    has_finished_fader, movement_deleted_by_update, movement_tracking_step, laser_step, sat_sub,
    tracking_step, EnemyMoveSystem, EnemyTrackingSystem, FadeSystem, LaserSystem,
    MovementTrackingSystem, TransformUpdateSystem,
};

verus! {

/// Draw-order depth of the camera.
pub const CAMERA_Z: i64 = 1_000;

/// Draw-order depth of the background (under everything else).
pub const BACKGROUND_Z: i64 = -25_000;

/// Unit scale, in thousandths.
pub const UNIT_SCALE: i64 = 1_000;

/// Scale of level entities, in thousandths (a quarter of their sprite size).
pub const LEVEL_ENTITY_SCALE: i64 = 250;

/// Scale of the transition overlay, in thousandths (it covers the screen).
pub const OVERLAY_SCALE: i64 = 100_000;

/// Rate of the transition overlay's darkening fade, in opacity units per
/// millisecond (the full fade takes well under a second).
pub const OVERLAY_FADE_RATE: i64 = 6_000;

/// The keys the state machine reacts to.
#[derive(Clone, Copy, Debug, PartialEq, Eq, Structural)]
pub enum Key {
    Escape,
    P,
    Space,
}

/// A discrete input or window event handed in by the windowing collaborator.
#[derive(Clone, Copy, Debug, PartialEq, Eq, Structural)]
pub enum InputEvent {
    CloseRequested,
    KeyDown(Key),
}

/// A state's request to the state machine: stay, quit the game, push the
/// pause overlay, or switch to the other pipeline-owning state.
#[derive(Clone, Copy, Debug, PartialEq, Eq, Structural)]
pub enum Trans {
    Stay,
    Quit,
    PushPause,
    SwitchToTransition,
    SwitchToGameplay,
}

/// The camera entity: centered on the screen, above the scene. It carries no
/// cleanup marker, so it survives state transitions.
pub open spec fn camera_rec(dims: ScreenDimensions) -> EntityRec {
    EntityRec {
        transform: Some(
            Transform {
                x: (dims.width / 2) as i64,
                y: (dims.height / 2) as i64,
                z: CAMERA_Z,
                rotation: 0,
                scale: UNIT_SCALE,
            },
        ),
        camera: true,
        ..EntityRec::spec_blank()
    }
}

/// The background entity: centered, under everything else.
pub open spec fn background_rec(dims: ScreenDimensions, handles: GameplayHandles) -> EntityRec {
    EntityRec {
        transform: Some(
            Transform {
                x: (dims.width / 2) as i64,
                y: (dims.height / 2) as i64,
                z: BACKGROUND_Z,
                rotation: 0,
                scale: UNIT_SCALE,
            },
        ),
        render: Some(RenderRef { sheet: handles.background_sprite_handle, sprite_number: 0 }),
        ..EntityRec::spec_blank()
    }
}

/// The transition overlay entity: a screen-covering sprite with a darkening
/// fader, transparent at first.
pub open spec fn overlay_rec(dims: ScreenDimensions, overlay_sprite_handle: u64) -> EntityRec {
    EntityRec {
        transform: Some(
            Transform {
                x: (dims.width / 2) as i64,
                y: (dims.height / 2) as i64,
                z: 0,
                rotation: 0,
                scale: OVERLAY_SCALE,
            },
        ),
        render: Some(RenderRef { sheet: overlay_sprite_handle, sprite_number: 0 }),
        fader: Some(Fader { rate: OVERLAY_FADE_RATE, value: 0, mode: Fade::Darken, finished: false }),
        ..EntityRec::spec_blank()
    }
}

/// The entity one spawn record of a level layout creates. Every level entity
/// carries the cleanup marker, so none survives a state transition. Flying
/// enemies move through their `Movement` component (with a locked downward
/// direction), and carry a zero-speed `Enemy` component so the wave tracker
/// counts them.
pub open spec fn level_entity_rec(rec: SpawnRecord, handles: GameplayHandles) -> EntityRec {
    let t = Transform { x: rec.x, y: rec.y, z: 0, rotation: 0, scale: LEVEL_ENTITY_SCALE };
    match rec.kind {
        EntityType::Boss => EntityRec {
            transform: Some(t),
            enemy: Some(Enemy { speed: BOSS_SPEED, velocity_x: 0, velocity_y: 0 }),
            cleanup: true,
            render: Some(RenderRef { sheet: handles.enemy_sprites_handle, sprite_number: 0 }),
            ..EntityRec::spec_blank()
        },
        EntityType::SquareEnemy => EntityRec {
            transform: Some(t),
            enemy: Some(Enemy { speed: SQUARE_ENEMY_SPEED, velocity_x: 0, velocity_y: 0 }),
            cleanup: true,
            render: Some(RenderRef { sheet: handles.enemy_sprites_handle, sprite_number: 1 }),
            ..EntityRec::spec_blank()
        },
        EntityType::FlyingEnemy => EntityRec {
            transform: Some(t),
            enemy: Some(Enemy { speed: 0, velocity_x: 0, velocity_y: 0 }),
            movement: Some(
                Movement {
                    speed: FLYING_ENEMY_SPEED,
                    velocity_x: 0,
                    velocity_y: 0,
                    locked_direction: Some((0i64, -1i64)),
                    already_rotated: false,
                },
            ),
            cleanup: true,
            render: Some(RenderRef { sheet: handles.enemy_sprites_handle, sprite_number: 2 }),
            ..EntityRec::spec_blank()
        },
        EntityType::Player => EntityRec {
            transform: Some(t),
            player: true,
            cleanup: true,
            render: Some(RenderRef { sheet: handles.player_sprites_handle, sprite_number: 0 }),
            ..EntityRec::spec_blank()
        },
    }
}

/// The entities a whole layout creates, in layout order.
pub open spec fn spawned_level(layout: Seq<SpawnRecord>, handles: GameplayHandles) -> Seq<
    EntityRec,
> {
    layout.map_values(|r: SpawnRecord| level_entity_rec(r, handles))
}

/// The store after `GameplayState::on_start`: camera, background, then the
/// entities of the next pending level (if one is left).
pub open spec fn gameplay_started_store(
    s: Seq<EntityRec>,
    dims: ScreenDimensions,
    handles: GameplayHandles,
    levels: Seq<LevelMetadata>,
) -> Seq<EntityRec> {
    let base = s.push(camera_rec(dims)).push(background_rec(dims, handles));
    if levels.len() > 0 {
        base + spawned_level(levels[0].layout@, handles)
    } else {
        base
    }
}

/// Places the camera entity, centered on the screen.
pub fn init_camera(store: &mut Store, dims: &ScreenDimensions)
    requires
        old(store).wf(),
        dims.wf(),
    ensures
        final(store)@ == old(store)@.push(camera_rec(*dims)),
        final(store).wf(),
{
    let mut rec = EntityRec::blank();
    rec.transform = Some(Transform::new(dims.width / 2, dims.height / 2, CAMERA_Z, UNIT_SCALE));
    rec.camera = true;
    store.spawn(rec);
}

/// Places the background entity, centered and under everything else.
pub fn init_background(store: &mut Store, dims: &ScreenDimensions, handles: &GameplayHandles)
    requires
        old(store).wf(),
        dims.wf(),
    ensures
        final(store)@ == old(store)@.push(background_rec(*dims, *handles)),
        final(store).wf(),
{
    let mut rec = EntityRec::blank();
    rec.transform = Some(
        Transform::new(dims.width / 2, dims.height / 2, BACKGROUND_Z, UNIT_SCALE),
    );
    rec.render = Some(RenderRef { sheet: handles.background_sprite_handle, sprite_number: 0 });
    store.spawn(rec);
}

/// Places the transition overlay entity with its darkening fader.
pub fn init_overlay(store: &mut Store, dims: &ScreenDimensions, overlay_sprite_handle: u64)
    requires
        old(store).wf(),
        dims.wf(),
    ensures
        final(store)@ == old(store)@.push(overlay_rec(*dims, overlay_sprite_handle)),
        final(store).wf(),
{
    let mut rec = EntityRec::blank();
    rec.transform = Some(Transform::new(dims.width / 2, dims.height / 2, 0, OVERLAY_SCALE));
    rec.render = Some(RenderRef { sheet: overlay_sprite_handle, sprite_number: 0 });
    rec.fader = Some(Fader::new(OVERLAY_FADE_RATE, Fade::Darken));
    store.spawn(rec);
}

/// Spawns every entity of a level layout, in layout order, each carrying the
/// cleanup marker.
pub fn init_level(store: &mut Store, level_metadata: &LevelMetadata, handles: &GameplayHandles)
    requires
        old(store).wf(),
        level_metadata.wf(),
    ensures
        final(store)@ == old(store)@ + spawned_level(level_metadata.layout@, *handles),
        final(store).wf(),
{
    let ghost orig = store@;
    let ghost layout = level_metadata.layout@;
    let n = level_metadata.layout.len();
    let mut i: usize = 0;
    while i < n
        invariant
            i <= n,
            n == layout.len(),
            layout == level_metadata.layout@,
            level_metadata.wf(),
            store.wf(),
            store@.len() == orig.len() + i,
            forall|k: int| 0 <= k < orig.len() ==> store@[k] == orig[k],
            forall|k: int|
                0 <= k < i ==> store@[orig.len() + k] == level_entity_rec(
                    #[trigger] layout[k],
                    *handles,
                ),
        decreases n - i,
    {
        let sr = level_metadata.layout[i];
        let mut rec = EntityRec::blank();
        rec.transform = Some(Transform::new(sr.x, sr.y, 0, LEVEL_ENTITY_SCALE));
        rec.cleanup = true;
        match sr.kind {
            EntityType::Boss => {
                rec.enemy = Some(Enemy::new(BOSS_SPEED));
                rec.render = Some(
                    RenderRef { sheet: handles.enemy_sprites_handle, sprite_number: 0 },
                );
            },
            EntityType::SquareEnemy => {
                rec.enemy = Some(Enemy::new(SQUARE_ENEMY_SPEED));
                rec.render = Some(
                    RenderRef { sheet: handles.enemy_sprites_handle, sprite_number: 1 },
                );
            },
            EntityType::FlyingEnemy => {
                rec.enemy = Some(Enemy::new(0));
                rec.movement = Some(Movement::new(FLYING_ENEMY_SPEED, Some((0i64, -1i64))));
                rec.render = Some(
                    RenderRef { sheet: handles.enemy_sprites_handle, sprite_number: 2 },
                );
            },
            EntityType::Player => {
                rec.player = true;
                rec.render = Some(
                    RenderRef { sheet: handles.player_sprites_handle, sprite_number: 0 },
                );
            },
        }
        assert(rec == level_entity_rec(layout[i as int], *handles));
        store.spawn(rec);
        i = i + 1;
    }
    assert(final(store)@ =~= orig + spawned_level(layout, *handles));
}

/// The transition request an event produces while gameplay runs: quit on a
/// close request or escape, pause on the pause key, and (as an explicit
/// debug input) skip straight to the transition on the space key.
pub open spec fn gameplay_event_trans(event: InputEvent) -> Trans {
    match event {
        InputEvent::CloseRequested => Trans::Quit,
        InputEvent::KeyDown(Key::Escape) => Trans::Quit,
        InputEvent::KeyDown(Key::P) => Trans::PushPause,
        InputEvent::KeyDown(Key::Space) => Trans::SwitchToTransition,
    }
}

/// The transition request an event produces during a transition: as in
/// gameplay, but the space key does nothing.
pub open spec fn transition_event_trans(event: InputEvent) -> Trans {
    match event {
        InputEvent::CloseRequested => Trans::Quit,
        InputEvent::KeyDown(Key::Escape) => Trans::Quit,
        InputEvent::KeyDown(Key::P) => Trans::PushPause,
        InputEvent::KeyDown(Key::Space) => Trans::Stay,
    }
}

/// The playing state: owns the pending level queue, spawns the next level on
/// entry, runs the gameplay pipeline each tick, and requests a switch to the
/// transition state once the spawned wave is gone.
pub struct GameplayState {
    /// The levels still pending, front first.
    pub levels: Levels,
    /// Set once the spawned wave has been observed (the level's entities may
    /// take a few ticks to appear while assets load).
    pub level_is_loaded: bool,
    /// The render handles received on entry.
    pub handles: Option<GameplayHandles>,
}

impl GameplayState {
    /// A fresh gameplay state over a pending level queue.
    pub fn new(levels: Levels) -> (s: GameplayState)
        ensures
            s.levels == levels,
            s.level_is_loaded == false,
            s.handles is None,
    {
        GameplayState { levels, level_is_loaded: false, handles: None }
    }

    /// Entering gameplay: place the camera and background, derive the
    /// playable area from the screen, pop the next pending level and spawn
    /// its entities. The popped level becomes the session's current level
    /// metadata; with the queue exhausted an empty level is installed and
    /// nothing is spawned.
    pub fn on_start(
        &mut self,
        store: &mut Store,
        dims: &ScreenDimensions,
        handles: GameplayHandles,
        level_metadata: &mut LevelMetadata,
    ) -> (area: PlayableArea)
        requires
            old(store).wf(),
            dims.wf(),
            old(self).levels.wf(),
        ensures
            final(store)@ == gameplay_started_store(old(store)@, *dims, handles, old(self).levels@),
            final(store).wf(),
            final(self).levels@ == if old(self).levels@.len() > 0 {
                old(self).levels@.subrange(1, old(self).levels@.len() as int)
            } else {
                old(self).levels@
            },
            final(self).level_is_loaded == old(self).level_is_loaded,
            final(self).handles == Some(handles),
            old(self).levels@.len() > 0 ==> *final(level_metadata) == old(self).levels@[0],
            old(self).levels@.len() == 0 ==> final(level_metadata).layout@ == Seq::<
                SpawnRecord,
            >::empty() && final(level_metadata).remaining == 0,
            final(level_metadata).wf(),
            area.x_min == dims.width * 33 / 100,
            area.x_max == dims.width * 67 / 100,
            area.y_min == dims.height * 22 / 100,
            area.y_max == dims.height * 78 / 100,
            area.wf(),
    {
        init_camera(store, dims);
        init_background(store, dims, &handles);
        self.handles = Some(handles);
        let area = PlayableArea::from_dimensions(dims);
        let next_level = self.levels.pop();
        match next_level {
            Some(next) => {
                init_level(store, &next, &handles);
                *level_metadata = next;
            },
            None => {
                *level_metadata = LevelMetadata { layout: Vec::new(), remaining: 0 };
            },
        }
        area
    }

    /// One gameplay tick. While the asset-load signal reports completion the
    /// full behavior pipeline runs; otherwise the tick is a no-op for
    /// gameplay (nothing moves or is deleted). The live enemies are then
    /// counted: a wave that has been seen (`level_is_loaded`) and is now
    /// empty requests the switch to the transition state.
    pub fn update(
        &mut self,
        store: &mut Store,
        dt: i64,
        load_complete: bool,
        enemy_count: &mut EnemyCount,
        level_metadata: &mut LevelMetadata,
    ) -> (t: Trans)
        requires
            old(store).wf(),
            0 <= dt <= MAX_DT,
        ensures
            final(store)@ == if load_complete {
                gameplay_pipeline_step(old(store)@, dt as int)
            } else {
                old(store)@
            },
            final(store).wf(),
            final(self).levels == old(self).levels,
            final(self).handles == old(self).handles,
            final(self).level_is_loaded == (old(self).level_is_loaded || count_live_enemies(
                final(store)@,
            ) > 0),
            t == (if count_live_enemies(final(store)@) == 0 && old(self).level_is_loaded {
                Trans::SwitchToTransition
            } else {
                Trans::Stay
            }),
            final(enemy_count).count == if load_complete {
                sat_sub(
                    old(enemy_count).count as int,
                    count_matching(
                        tracking_step(old(store)@),
                        enemy_deleted_by_move(dt as int),
                    ) as int,
                )
            } else {
                old(enemy_count).count as int
            },
            final(level_metadata).layout == old(level_metadata).layout,
            final(level_metadata).remaining == if load_complete {
                sat_sub(
                    old(level_metadata).remaining as int,
                    count_matching(
                        movement_tracking_step(
                            laser_step(
                                enemy_move_step(tracking_step(old(store)@), dt as int),
                                dt as int,
                            ),
                        ),
                        movement_deleted_by_update(dt as int),
                    ) as int,
                )
            } else {
                old(level_metadata).remaining as int
            },
    {
        if load_complete {
            (EnemyTrackingSystem).run(store);
            (EnemyMoveSystem).run(store, dt, enemy_count);
            (LaserSystem).run(store, dt);
            (MovementTrackingSystem).run(store);
            (TransformUpdateSystem).run(store, dt, level_metadata);
        }
        let total = store.count_enemies();
        if total > 0 {
            self.level_is_loaded = true;
        }
        if total == 0 && self.level_is_loaded {
            Trans::SwitchToTransition
        } else {
            Trans::Stay
        }
    }

    /// Reacts to a window or input event: close or escape quits, the pause
    /// key pushes the pause overlay, and the space key (a debug input)
    /// forces the switch to the transition state.
    pub fn handle_event(&self, event: InputEvent) -> (t: Trans)
        ensures
            t == gameplay_event_trans(event),
    {
        match event {
            InputEvent::CloseRequested => Trans::Quit,
            InputEvent::KeyDown(Key::Escape) => Trans::Quit,
            InputEvent::KeyDown(Key::P) => Trans::PushPause,
            InputEvent::KeyDown(Key::Space) => Trans::SwitchToTransition,
        }
    }

    /// Leaving gameplay: every entity carrying the cleanup marker (players,
    /// enemies, lasers) is deleted, so no transient entity leaks across the
    /// transition boundary.
    pub fn on_stop(&self, store: &mut Store)
        requires
            old(store).wf(),
        ensures
            final(store)@ == cleanup_swept(old(store)@),
            forall|i: int|
                0 <= i < final(store)@.len() ==> !((#[trigger] final(store)@[i]).alive
                    && final(store)@[i].cleanup),
            final(store).wf(),
    {
        store.delete_tagged();
    }
}

/// The between-levels state: darkens the scene with a fading overlay and,
/// once the fade completes, hands the remaining level queue back to a fresh
/// gameplay state.
pub struct TransitionState {
    /// The sprite-sheet handle of the screen-covering overlay.
    pub overlay_sprite_handle: u64,
    /// The levels still pending, carried through the transition.
    pub levels: Levels,
}

impl TransitionState {
    /// A fresh transition state over the overlay handle and the pending
    /// levels carried forward from gameplay.
    pub fn new(overlay_sprite_handle: u64, levels: Levels) -> (s: TransitionState)
        ensures
            s.overlay_sprite_handle == overlay_sprite_handle,
            s.levels == levels,
    {
        TransitionState { overlay_sprite_handle, levels }
    }

    /// Entering the transition: reset the shared fade status and place the
    /// overlay entity with its darkening fader.
    pub fn on_start(&self, store: &mut Store, dims: &ScreenDimensions, status: &mut FadeStatus)
        requires
            old(store).wf(),
            dims.wf(),
        ensures
            final(store)@ == old(store)@.push(overlay_rec(*dims, self.overlay_sprite_handle)),
            final(store).wf(),
            final(status).complete == false,
    {
        status.clear();
        init_overlay(store, dims, self.overlay_sprite_handle);
    }

    /// One transition tick: the fade behavior advances every fader and
    /// reports on the shared status. Observed completion is cleared (so it
    /// fires exactly once) and answered with the switch back to gameplay.
    pub fn update(&self, store: &mut Store, dt: i64, status: &mut FadeStatus) -> (t: Trans)
        requires
            old(store).wf(),
            0 <= dt <= MAX_DT,
        ensures
            final(store)@ == fade_step(old(store)@, dt as int),
            final(store).wf(),
            t == (if old(status).complete || has_finished_fader(fade_step(old(store)@, dt as int)) {
                Trans::SwitchToGameplay
            } else {
                Trans::Stay
            }),
            final(status).complete == false,
    {
        (FadeSystem).run(store, dt, status);
        if status.is_completed() {
            status.clear();
            Trans::SwitchToGameplay
        } else {
            Trans::Stay
        }
    }

    /// Reacts to a window or input event: close or escape quits, the pause
    /// key pushes the pause overlay.
    pub fn handle_event(&self, event: InputEvent) -> (t: Trans)
        ensures
            t == transition_event_trans(event),
    {
        match event {
            InputEvent::CloseRequested => Trans::Quit,
            InputEvent::KeyDown(Key::Escape) => Trans::Quit,
            InputEvent::KeyDown(Key::P) => Trans::PushPause,
            InputEvent::KeyDown(Key::Space) => Trans::Stay,
        }
    }

    /// Leaving the transition: every fader-carrying entity (the overlay) is
    /// deleted.
    pub fn on_stop(&self, store: &mut Store)
        requires
            old(store).wf(),
        ensures
            final(store)@ == crate::store::faders_swept(old(store)@),
            final(store).wf(),
    {
        store.delete_faders();
    }
}

} // verus!
