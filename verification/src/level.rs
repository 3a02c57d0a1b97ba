//! Wave and level progression: the declarative spawn layout of a level, the
//! FIFO queue of pending levels, the live-enemy counter, and the playable
//! area derived from the screen at session start.

use vstd::prelude::*;
use crate::math::MAX_COORD;

verus! {

/// Speed of a boss enemy, in game units per second.
pub const BOSS_SPEED: i64 = 50;

/// Speed of a square enemy, in game units per second.
pub const SQUARE_ENEMY_SPEED: i64 = 100;

/// Speed of a flying enemy, in game units per second.
pub const FLYING_ENEMY_SPEED: i64 = 150;

/// Speed of a laser, in game units per second.
pub const LASER_SPEED: i64 = 500;

/// The kinds of entity a level layout can ask to spawn.
#[derive(Clone, Copy, Debug, PartialEq, Eq, Structural)]
pub enum EntityType {
    Boss,
    SquareEnemy,
    FlyingEnemy,
    Player,
}

/// One spawn request of a level layout: a kind and a position.
#[derive(Clone, Copy, Debug)]
pub struct SpawnRecord {
    pub kind: EntityType,
    pub x: i64,
    pub y: i64,
}

impl SpawnRecord {
    /// The position lies in the simulation's coordinate range.
    pub open spec fn wf(self) -> bool {
        &&& -MAX_COORD <= self.x <= MAX_COORD
        &&& -MAX_COORD <= self.y <= MAX_COORD
    }
}

/// How many records of a layout spawn enemies (everything but the player).
pub open spec fn count_enemy_spawns(s: Seq<SpawnRecord>) -> nat
    decreases s.len(),
{
    if s.len() == 0 {
        0
    } else {
        count_enemy_spawns(s.drop_last()) + if s.last().kind is Player {
            0nat
        } else {
            1nat
        }
    }
}

/// The layout of one level plus the count of its enemies still standing;
/// the count starts at the wave size and only destruction events lower it,
/// saturating at zero so it can never go negative.
#[derive(Clone, Debug)]
pub struct LevelMetadata {
    pub layout: Vec<SpawnRecord>,
    pub remaining: u64,
}

impl LevelMetadata {
    /// Every spawn position is in range.
    pub open spec fn wf(self) -> bool {
        forall|i: int| 0 <= i < self.layout@.len() ==> (#[trigger] self.layout@[i]).wf()
    }

    /// Wraps a layout; the wave initially counts every enemy record of it.
    pub fn new(layout: Vec<SpawnRecord>) -> (m: LevelMetadata)
        requires
            layout@.len() <= u64::MAX,
        ensures
            m.layout == layout,
            m.remaining == count_enemy_spawns(layout@),
    {
        let ghost s = layout@;
        let mut remaining: u64 = 0;
        let mut i: usize = 0;
        assert(s.subrange(0, 0) =~= Seq::<SpawnRecord>::empty());
        while i < layout.len()
            invariant
                i <= s.len(),
                s == layout@,
                s.len() <= u64::MAX,
                remaining == count_enemy_spawns(s.subrange(0, i as int)),
                remaining <= i,
            decreases s.len() - i,
        {
            proof {
                assert(s.subrange(0, i + 1).drop_last() =~= s.subrange(0, i as int));
                assert(s.subrange(0, i + 1).last() == s[i as int]);
            }
            let is_player = match layout[i].kind {
                EntityType::Player => true,
                _ => false,
            };
            if !is_player {
                remaining = remaining + 1;
            }
            i = i + 1;
        }
        proof {
            assert(s.subrange(0, s.len() as int) =~= s);
        }
        LevelMetadata { layout, remaining }
    }

    /// The ordered spawn layout of this level.
    pub fn get_layout(&self) -> (l: &Vec<SpawnRecord>)
        ensures
            l == &self.layout,
    {
        &self.layout
    }

    /// Records one enemy destroyed; the count never drops below zero.
    pub fn enemy_destroyed(&mut self)
        ensures
            final(self).remaining == if old(self).remaining > 0 {
                (old(self).remaining - 1) as u64
            } else {
                0u64
            },
            final(self).layout == old(self).layout,
    {
        if self.remaining > 0 {
            self.remaining = self.remaining - 1;
        }
    }
}

/// The FIFO queue of pending levels: levels are played front to back.
#[derive(Clone, Debug)]
pub struct Levels {
    pub queue: Vec<LevelMetadata>,
}

impl View for Levels {
    type V = Seq<LevelMetadata>;

    open spec fn view(&self) -> Seq<LevelMetadata> {
        self.queue@
    }
}

impl Levels {
    /// Every queued level is well formed.
    pub open spec fn wf(self) -> bool {
        forall|i: int| 0 <= i < self@.len() ==> (#[trigger] self@[i]).wf()
    }

    /// An empty queue.
    pub fn new() -> (l: Levels)
        ensures
            l@ == Seq::<LevelMetadata>::empty(),
    {
        Levels { queue: Vec::new() }
    }

    /// Appends a level at the back of the queue.
    pub fn push(&mut self, level: LevelMetadata)
        ensures
            final(self)@ == old(self)@.push(level),
    {
        self.queue.push(level);
    }

    /// Removes and returns the next pending level, front first; `None` is
    /// the terminal signal that the whole game is complete.
    pub fn pop(&mut self) -> (next: Option<LevelMetadata>)
        ensures
            old(self)@.len() == 0 ==> next is None && final(self)@ == old(self)@,
            old(self)@.len() > 0 ==> next == Some(old(self)@[0]) && final(self)@ == old(
                self,
            )@.subrange(1, old(self)@.len() as int),
    {
        if self.queue.len() == 0 {
            None
        } else {
            Some(self.queue.remove(0))
        }
    }

    /// How many levels are still pending.
    pub fn len(&self) -> (n: usize)
        ensures
            n == self@.len(),
    {
        self.queue.len()
    }
}

/// The queue after pushing the levels of `xs`, in order, at the back of `q`.
pub open spec fn pushed_all(q: Seq<LevelMetadata>, xs: Seq<LevelMetadata>) -> Seq<LevelMetadata>
    decreases xs.len(),
{
    if xs.len() == 0 {
        q
    } else {
        pushed_all(q.push(xs.first()), xs.drop_first())
    }
}

/// Pushing a sequence element by element appends it.
pub proof fn lemma_pushed_all_append(q: Seq<LevelMetadata>, xs: Seq<LevelMetadata>)
    ensures
        pushed_all(q, xs) == q + xs,
    decreases xs.len(),
{
    if xs.len() == 0 {
        assert(q + xs =~= q);
    } else {
        lemma_pushed_all_append(q.push(xs.first()), xs.drop_first());
        assert(q.push(xs.first()) + xs.drop_first() =~= q + xs);
    }
}

/// Law: popping every level off the queue yields its contents front to back,
/// and pushing that same sequence, in the same order, onto an empty queue
/// reproduces the original queue exactly (FIFO order is preserved).
pub proof fn lemma_levels_round_trip(s: Seq<LevelMetadata>)
    ensures
        pushed_all(Seq::<LevelMetadata>::empty(), s) == s,
{
    lemma_pushed_all_append(Seq::<LevelMetadata>::empty(), s);
    assert(Seq::<LevelMetadata>::empty() + s =~= s);
}

/// The live count of enemies a behavior may decrement when it destroys one;
/// decrements saturate at zero, so the count can never go negative.
#[derive(Clone, Copy, Debug)]
pub struct EnemyCount {
    pub count: u64,
}

impl EnemyCount {
    /// A counter starting at the given value.
    pub fn new(count: u64) -> (c: EnemyCount)
        ensures
            c.count == count,
    {
        EnemyCount { count }
    }

    /// Records `n` enemies destroyed, never dropping below zero.
    pub fn decrement_by(&mut self, n: u64)
        ensures
            final(self).count == if old(self).count >= n {
                (old(self).count - n) as u64
            } else {
                0u64
            },
    {
        if self.count >= n {
            self.count = self.count - n;
        } else {
            self.count = 0;
        }
    }
}

/// The screen size a windowing collaborator reports at session start, in
/// milli-units.
#[derive(Clone, Copy, Debug)]
pub struct ScreenDimensions {
    pub width: i64,
    pub height: i64,
}

impl ScreenDimensions {
    pub open spec fn wf(self) -> bool {
        &&& 0 < self.width <= MAX_COORD
        &&& 0 < self.height <= MAX_COORD
    }
}

/// The rectangle of the background an entity may be expected to stay in:
/// 33%-67% of the screen width and 22%-78% of its height. It is derived once
/// per session and read-only thereafter; movement is not clamped to it.
#[derive(Clone, Copy, Debug)]
pub struct PlayableArea {
    pub x_min: i64,
    pub x_max: i64,
    pub y_min: i64,
    pub y_max: i64,
}

impl PlayableArea {
    pub open spec fn wf(self) -> bool {
        &&& 0 <= self.x_min <= self.x_max <= MAX_COORD
        &&& 0 <= self.y_min <= self.y_max <= MAX_COORD
    }

    /// A rectangle from explicit corner coordinates.
    pub fn new(x_min: i64, x_max: i64, y_min: i64, y_max: i64) -> (a: PlayableArea)
        requires
            0 <= x_min <= x_max <= MAX_COORD,
            0 <= y_min <= y_max <= MAX_COORD,
        ensures
            a == (PlayableArea { x_min, x_max, y_min, y_max }),
            a.wf(),
    {
        PlayableArea { x_min, x_max, y_min, y_max }
    }

    /// The session's playable rectangle, as fixed percentages of the screen.
    pub fn from_dimensions(dims: &ScreenDimensions) -> (a: PlayableArea)
        requires
            dims.wf(),
        ensures
            a.x_min == dims.width * 33 / 100,
            a.x_max == dims.width * 67 / 100,
            a.y_min == dims.height * 22 / 100,
            a.y_max == dims.height * 78 / 100,
            a.wf(),
    {
        let w = dims.width;
        let h = dims.height;
        assert(0 <= w * 33 <= w * 67 <= w * 100 && 0 <= h * 22 <= h * 78 <= h * 100)
            by (nonlinear_arith)
            requires
                0 < w && 0 < h,
        ;
        assert(w * 33 / 100 <= w * 67 / 100 && w * 67 / 100 <= w * 100 / 100) by (nonlinear_arith)
            requires
                0 <= w * 33 <= w * 67 <= w * 100,
        ;
        assert(h * 22 / 100 <= h * 78 / 100 && h * 78 / 100 <= h * 100 / 100) by (nonlinear_arith)
            requires
                0 <= h * 22 <= h * 78 <= h * 100,
        ;
        assert(w * 100 / 100 == w && h * 100 / 100 == h) by (nonlinear_arith);
        assert(w * 33 / 100 >= 0 && h * 22 / 100 >= 0) by (nonlinear_arith)
            requires
                w * 33 >= 0 && h * 22 >= 0,
        ;
        PlayableArea {
            x_min: w * 33 / 100,
            x_max: w * 67 / 100,
            y_min: h * 22 / 100,
            y_max: h * 78 / 100,
        }
    }
}

/// The opaque sprite-sheet handles a rendering collaborator hands the core
/// at session start; spawn logic attaches them to entities untouched.
#[derive(Clone, Copy, Debug)]
pub struct GameplayHandles {
    pub background_sprite_handle: u64,
    pub overlay_sprite_handle: u64,
    pub enemy_sprites_handle: u64,
    pub player_sprites_handle: u64,
}

} // verus!
