//! The game state machine: owns the store and the session resources, runs
//! the active state's pipeline each tick, and applies the transition
//! requests the states return (switch, pause, quit).

use vstd::prelude::*;
use crate::fade::FadeStatus;
use crate::level::{
    EnemyCount, GameplayHandles, LevelMetadata, Levels, PlayableArea, ScreenDimensions,
    SpawnRecord,
};
use crate::math::MAX_DT;
use crate::states::{
    gameplay_event_trans, gameplay_started_store, overlay_rec, transition_event_trans,
    GameplayState, InputEvent, Key, Trans, TransitionState,
};
use crate::store::{cleanup_swept, count_live_enemies, faders_swept, EntityRec, Store};
use crate::systems::{
    count_matching, enemy_deleted_by_move, enemy_move_step, fade_step, gameplay_pipeline_step,
    has_finished_fader, laser_step, movement_deleted_by_update, movement_tracking_step, sat_sub,
    tracking_step,
};

verus! {

/// The state that owns the current pipeline. Pausing does not replace it: it
/// is an overlay tracked by the machine itself.
pub enum ActiveState {
    Gameplay(GameplayState),
    Transition(TransitionState),
}

/// The whole session: the store, the active state, the pause overlay and
/// quit flags, and the session-scoped resources the behaviors share (each
/// with a single writer per tick).
pub struct Game {
    pub store: Store,
    pub state: ActiveState,
    pub paused: bool,
    pub quit: bool,
    pub enemy_count: EnemyCount,
    pub level_metadata: LevelMetadata,
    pub fade_status: FadeStatus,
    pub playable_area: PlayableArea,
    pub dims: ScreenDimensions,
    pub handles: GameplayHandles,
}

/// The store a gameplay tick produces: the full pipeline if assets are
/// loaded, untouched otherwise (a tick proceeds fully or not at all).
pub open spec fn gameplay_ticked_store(s: Seq<EntityRec>, dt: int, load_complete: bool) -> Seq<
    EntityRec,
> {
    if load_complete {
        gameplay_pipeline_step(s, dt)
    } else {
        s
    }
}

impl Game {
    /// The store, screen, current level and pending queues are well formed.
    pub open spec fn wf(self) -> bool {
        &&& self.store.wf()
        &&& self.dims.wf()
        &&& self.level_metadata.wf()
        &&& match self.state {
            ActiveState::Gameplay(gs) => gs.levels.wf(),
            ActiveState::Transition(ts) => ts.levels.wf(),
        }
    }

    /// Starts a session: builds the store, enters gameplay (spawning the
    /// first pending level) and seeds the session resources.
    pub fn new(levels: Levels, dims: ScreenDimensions, handles: GameplayHandles) -> (g: Game)
        requires
            dims.wf(),
            levels.wf(),
        ensures
            g.wf(),
            g.quit == false,
            g.paused == false,
            g.state is Gameplay,
            g.state->Gameplay_0.level_is_loaded == false,
            g.state->Gameplay_0.levels@ == if levels@.len() > 0 {
                levels@.subrange(1, levels@.len() as int)
            } else {
                levels@
            },
            g.store@ == gameplay_started_store(Seq::<EntityRec>::empty(), dims, handles, levels@),
            g.enemy_count.count == count_live_enemies(g.store@),
            levels@.len() > 0 ==> g.level_metadata == levels@[0],
            g.fade_status.complete == false,
            g.dims == dims,
            g.handles == handles,
    {
        let mut store = Store::new();
        let mut gs = GameplayState::new(levels);
        let mut meta = LevelMetadata { layout: Vec::new(), remaining: 0 };
        let area = gs.on_start(&mut store, &dims, handles, &mut meta);
        let n = store.count_enemies();
        Game {
            store,
            state: ActiveState::Gameplay(gs),
            paused: false,
            quit: false,
            enemy_count: EnemyCount::new(n as u64),
            level_metadata: meta,
            fade_status: FadeStatus::new(),
            playable_area: area,
            dims,
            handles,
        }
    }

    /// What one tick does, as a relation between the machine before and
    /// after it and the transition request it applied. A paused or quit
    /// machine ticks as a no-op. A gameplay tick runs the pipeline (when
    /// assets are loaded) and switches to the transition state exactly when
    /// the loaded wave has died out, carrying the pending level queue along
    /// unchanged and sweeping every cleanup-tagged entity. A transition tick
    /// advances the fade and, once it completes, switches back to a fresh
    /// gameplay state seeded with the same queue, which pops and spawns the
    /// next level.
    pub open spec fn tick_post(
        pre: Game,
        post: Game,
        issued: Trans,
        dt: int,
        load_complete: bool,
    ) -> bool {
        &&& post.quit == pre.quit
        &&& post.paused == pre.paused
        &&& post.dims == pre.dims
        &&& post.handles == pre.handles
        &&& ((pre.quit || pre.paused) ==> post == pre && issued == Trans::Stay)
        &&& (!pre.quit && !pre.paused ==> match pre.state {
            ActiveState::Gameplay(gs) => {
                let s2 = gameplay_ticked_store(pre.store@, dt, load_complete);
                let complete = count_live_enemies(s2) == 0 && gs.level_is_loaded;
                &&& issued == (if complete {
                    Trans::SwitchToTransition
                } else {
                    Trans::Stay
                })
                &&& post.enemy_count.count == (if load_complete {
                    sat_sub(
                        pre.enemy_count.count as int,
                        count_matching(
                            tracking_step(pre.store@),
                            enemy_deleted_by_move(dt),
                        ) as int,
                    )
                } else {
                    pre.enemy_count.count as int
                })
                &&& post.level_metadata.layout == pre.level_metadata.layout
                &&& post.level_metadata.remaining == (if load_complete {
                    sat_sub(
                        pre.level_metadata.remaining as int,
                        count_matching(
                            movement_tracking_step(
                                laser_step(enemy_move_step(tracking_step(pre.store@), dt), dt),
                            ),
                            movement_deleted_by_update(dt),
                        ) as int,
                    )
                } else {
                    pre.level_metadata.remaining as int
                })
                &&& (!complete ==> {
                    &&& post.state is Gameplay
                    &&& post.state->Gameplay_0.levels == gs.levels
                    &&& post.state->Gameplay_0.level_is_loaded == (gs.level_is_loaded
                        || count_live_enemies(s2) > 0)
                    &&& post.store@ == s2
                })
                &&& (complete ==> {
                    &&& post.state is Transition
                    &&& post.state->Transition_0.levels == gs.levels
                    &&& post.state->Transition_0.overlay_sprite_handle
                        == pre.handles.overlay_sprite_handle
                    &&& post.store@ == cleanup_swept(s2).push(
                        overlay_rec(pre.dims, pre.handles.overlay_sprite_handle),
                    )
                    &&& post.fade_status.complete == false
                })
            },
            ActiveState::Transition(ts) => {
                let s2 = fade_step(pre.store@, dt);
                let complete = pre.fade_status.complete || has_finished_fader(s2);
                &&& issued == (if complete {
                    Trans::SwitchToGameplay
                } else {
                    Trans::Stay
                })
                &&& (!complete ==> {
                    &&& post.state is Transition
                    &&& post.state->Transition_0 == ts
                    &&& post.store@ == s2
                    &&& post.fade_status.complete == false
                })
                &&& (complete ==> {
                    &&& post.state is Gameplay
                    &&& post.state->Gameplay_0.level_is_loaded == false
                    &&& post.state->Gameplay_0.levels@ == (if ts.levels@.len() > 0 {
                        ts.levels@.subrange(1, ts.levels@.len() as int)
                    } else {
                        ts.levels@
                    })
                    &&& post.store@ == gameplay_started_store(
                        faders_swept(s2),
                        pre.dims,
                        pre.handles,
                        ts.levels@,
                    )
                    &&& post.enemy_count.count == count_live_enemies(post.store@)
                    &&& (ts.levels@.len() > 0 ==> post.level_metadata == ts.levels@[0])
                    &&& (ts.levels@.len() == 0 ==> post.level_metadata.layout@ == Seq::<
                        SpawnRecord,
                    >::empty() && post.level_metadata.remaining == 0)
                })
            },
        })
    }

    /// One tick of the session: runs the active state's update and applies
    /// the transition request it returns.
    pub fn tick(&mut self, dt: i64, load_complete: bool) -> (issued: Trans)
        requires
            old(self).wf(),
            0 <= dt <= MAX_DT,
        ensures
            final(self).wf(),
            Game::tick_post(*old(self), *final(self), issued, dt as int, load_complete),
    {
        if self.quit || self.paused {
            return Trans::Stay;
        }
        let mut taken = ActiveState::Gameplay(GameplayState::new(Levels::new()));
        core::mem::swap(&mut self.state, &mut taken);
        match taken {
            ActiveState::Gameplay(mut gs) => {
                let t = gs.update(
                    &mut self.store,
                    dt,
                    load_complete,
                    &mut self.enemy_count,
                    &mut self.level_metadata,
                );
                match t {
                    Trans::SwitchToTransition => {
                        gs.on_stop(&mut self.store);
                        let ts = TransitionState::new(self.handles.overlay_sprite_handle, gs.levels);
                        ts.on_start(&mut self.store, &self.dims, &mut self.fade_status);
                        self.state = ActiveState::Transition(ts);
                        Trans::SwitchToTransition
                    },
                    _ => {
                        self.state = ActiveState::Gameplay(gs);
                        Trans::Stay
                    },
                }
            },
            ActiveState::Transition(ts) => {
                let t = ts.update(&mut self.store, dt, &mut self.fade_status);
                match t {
                    Trans::SwitchToGameplay => {
                        ts.on_stop(&mut self.store);
                        let mut gs = GameplayState::new(ts.levels);
                        let area = gs.on_start(
                            &mut self.store,
                            &self.dims,
                            self.handles,
                            &mut self.level_metadata,
                        );
                        self.playable_area = area;
                        let n = self.store.count_enemies();
                        self.enemy_count = EnemyCount::new(n as u64);
                        self.state = ActiveState::Gameplay(gs);
                        Trans::SwitchToGameplay
                    },
                    _ => {
                        self.state = ActiveState::Transition(ts);
                        Trans::Stay
                    },
                }
            },
        }
    }

    /// What handling one event does. While paused, the pause key resumes
    /// the underlying state and close or escape quits. Otherwise the active
    /// state's event rules decide: quit, push the pause overlay, or (from
    /// gameplay, on the debug space key) switch to the transition state at
    /// once.
    pub open spec fn event_post(pre: Game, post: Game, event: InputEvent) -> bool {
        &&& post.dims == pre.dims
        &&& post.handles == pre.handles
        &&& (pre.quit ==> post == pre)
        &&& (!pre.quit && pre.paused ==> match event {
            InputEvent::CloseRequested => post == Game { quit: true, ..pre },
            InputEvent::KeyDown(Key::Escape) => post == Game { quit: true, ..pre },
            InputEvent::KeyDown(Key::P) => post == Game { paused: false, ..pre },
            InputEvent::KeyDown(Key::Space) => post == pre,
        })
        &&& (!pre.quit && !pre.paused ==> match pre.state {
            ActiveState::Gameplay(gs) => match gameplay_event_trans(event) {
                Trans::Quit => post == Game { quit: true, ..pre },
                Trans::PushPause => post == Game { paused: true, ..pre },
                Trans::SwitchToTransition => {
                    &&& post.quit == false
                    &&& post.paused == false
                    &&& post.state is Transition
                    &&& post.state->Transition_0.levels == gs.levels
                    &&& post.state->Transition_0.overlay_sprite_handle
                        == pre.handles.overlay_sprite_handle
                    &&& post.store@ == cleanup_swept(pre.store@).push(
                        overlay_rec(pre.dims, pre.handles.overlay_sprite_handle),
                    )
                    &&& post.fade_status.complete == false
                },
                _ => false,
            },
            ActiveState::Transition(ts) => match transition_event_trans(event) {
                Trans::Quit => post == Game { quit: true, ..pre },
                Trans::PushPause => post == Game { paused: true, ..pre },
                Trans::Stay => post == pre,
                _ => false,
            },
        })
    }

    /// Feeds one window or input event to the machine.
    pub fn handle_event(&mut self, event: InputEvent)
        requires
            old(self).wf(),
        ensures
            final(self).wf(),
            Game::event_post(*old(self), *final(self), event),
    {
        if self.quit {
            return ;
        }
        if self.paused {
            match event {
                InputEvent::CloseRequested => {
                    self.quit = true;
                },
                InputEvent::KeyDown(Key::Escape) => {
                    self.quit = true;
                },
                InputEvent::KeyDown(Key::P) => {
                    self.paused = false;
                },
                InputEvent::KeyDown(Key::Space) => {},
            }
            return ;
        }
        let t = match &self.state {
            ActiveState::Gameplay(gs) => gs.handle_event(event),
            ActiveState::Transition(ts) => ts.handle_event(event),
        };
        match t {
            Trans::Quit => {
                self.quit = true;
            },
            Trans::PushPause => {
                self.paused = true;
            },
            Trans::SwitchToTransition => {
                let mut taken = ActiveState::Gameplay(GameplayState::new(Levels::new()));
                core::mem::swap(&mut self.state, &mut taken);
                match taken {
                    ActiveState::Gameplay(gs) => {
                        gs.on_stop(&mut self.store);
                        let ts = TransitionState::new(self.handles.overlay_sprite_handle, gs.levels);
                        ts.on_start(&mut self.store, &self.dims, &mut self.fade_status);
                        self.state = ActiveState::Transition(ts);
                    },
                    ActiveState::Transition(ts) => {
                        self.state = ActiveState::Transition(ts);
                    },
                }
            },
            _ => {},
        }
    }
}

/// Law: wave completion issues exactly one Gameplay-to-Transition request.
/// Once the live-enemy count reaches zero after a wave was seen, the tick
/// that observes it requests the switch, carries the pending level queue
/// into the transition state unchanged, and replaces the gameplay state —
/// so the next tick, whatever it does, cannot issue a second
/// Gameplay-to-Transition request.
pub proof fn lemma_wave_completion_single_switch(
    g0: Game,
    g1: Game,
    r1: Trans,
    g2: Game,
    r2: Trans,
    dt1: int,
    l1: bool,
    dt2: int,
    l2: bool,
)
    requires
        !g0.quit,
        !g0.paused,
        g0.state is Gameplay,
        g0.state->Gameplay_0.level_is_loaded,
        count_live_enemies(gameplay_ticked_store(g0.store@, dt1, l1)) == 0,
        Game::tick_post(g0, g1, r1, dt1, l1),
        Game::tick_post(g1, g2, r2, dt2, l2),
    ensures
        r1 == Trans::SwitchToTransition,
        g1.state is Transition,
        g1.state->Transition_0.levels == g0.state->Gameplay_0.levels,
        r2 != Trans::SwitchToTransition,
{
}

} // verus!
