//! The entity/component store: the shared database of game objects every
//! behavior reads and writes through.
//!
//! Entities are indices into a record vector. Deletion only clears the
//! `alive` flag, so indices stay stable within a tick and a delete requested
//! mid-iteration never invalidates the iteration (the deferred-safe
//! discipline the behaviors rely on). Deleting an already-dead entity is a
//! no-op, never an error that aborts a tick.

use vstd::prelude::*;
use crate::components::{Enemy, Laser, Movement, RenderRef, Transform};
use crate::fade::Fader;

verus! {

/// One entity: an alive flag plus every component it may carry. Marker
/// components (`player`, `camera`, `cleanup`) are plain flags.
#[derive(Clone, Copy, Debug)]
pub struct EntityRec {
    pub alive: bool,
    pub transform: Option<Transform>,
    pub enemy: Option<Enemy>,
    pub movement: Option<Movement>,
    pub laser: Option<Laser>,
    pub fader: Option<Fader>,
    pub render: Option<RenderRef>,
    pub player: bool,
    pub camera: bool,
    pub cleanup: bool,
}

impl EntityRec {
    /// A record with no components: nothing attached, alive.
    pub fn blank() -> (r: EntityRec)
        ensures
            r == EntityRec::spec_blank(),
    {
        EntityRec {
            alive: true,
            transform: None,
            enemy: None,
            movement: None,
            laser: None,
            fader: None,
            render: None,
            player: false,
            camera: false,
            cleanup: false,
        }
    }

    /// The record `blank` returns.
    pub open spec fn spec_blank() -> EntityRec {
        EntityRec {
            alive: true,
            transform: None,
            enemy: None,
            movement: None,
            laser: None,
            fader: None,
            render: None,
            player: false,
            camera: false,
            cleanup: false,
        }
    }

    /// Every component a live record carries is well formed.
    pub open spec fn wf(self) -> bool {
        self.alive ==> {
            &&& (self.transform is Some ==> self.transform->Some_0.wf())
            &&& (self.enemy is Some ==> self.enemy->Some_0.wf())
            &&& (self.movement is Some ==> self.movement->Some_0.wf())
            &&& (self.laser is Some ==> self.laser->Some_0.wf())
            &&& (self.fader is Some ==> self.fader->Some_0.wf())
        }
    }

    /// The same record with its alive flag cleared.
    pub open spec fn deactivated(self) -> EntityRec {
        EntityRec { alive: false, ..self }
    }
}

/// A record counted by the wave tracker: alive and carrying an Enemy
/// component.
pub open spec fn is_live_enemy(r: EntityRec) -> bool {
    r.alive && r.enemy is Some
}

/// How many live enemies a record sequence holds.
pub open spec fn count_live_enemies(s: Seq<EntityRec>) -> nat
    decreases s.len(),
{
    if s.len() == 0 {
        0
    } else {
        count_live_enemies(s.drop_last()) + if is_live_enemy(s.last()) {
            1nat
        } else {
            0nat
        }
    }
}

/// Counting one more record extends the count by that record's contribution.
pub proof fn lemma_count_live_enemies_extend(s: Seq<EntityRec>, i: int)
    requires
        0 <= i < s.len(),
    ensures
        count_live_enemies(s.subrange(0, i + 1)) == count_live_enemies(s.subrange(0, i)) + if is_live_enemy(
            s[i],
        ) {
            1nat
        } else {
            0nat
        },
{
    assert(s.subrange(0, i + 1).drop_last() =~= s.subrange(0, i));
    assert(s.subrange(0, i + 1).last() == s[i]);
}

/// The count never exceeds the number of records.
pub proof fn lemma_count_live_enemies_le_len(s: Seq<EntityRec>)
    ensures
        count_live_enemies(s) <= s.len(),
    decreases s.len(),
{
    if s.len() > 0 {
        lemma_count_live_enemies_le_len(s.drop_last());
    }
}

/// A record sequence after sweeping: every live record carrying the cleanup
/// marker is deactivated, everything else is untouched.
pub open spec fn cleanup_swept(s: Seq<EntityRec>) -> Seq<EntityRec> {
    s.map_values(
        |r: EntityRec|
            if r.alive && r.cleanup {
                r.deactivated()
            } else {
                r
            },
    )
}

/// A record sequence after deactivating every live record that carries a
/// fader.
pub open spec fn faders_swept(s: Seq<EntityRec>) -> Seq<EntityRec> {
    s.map_values(
        |r: EntityRec|
            if r.alive && r.fader is Some {
                r.deactivated()
            } else {
                r
            },
    )
}

/// The entity/component store. Behaviors iterate it in index order, which is
/// stable within a tick because deletion never moves records.
#[derive(Clone, Debug)]
pub struct Store {
    pub recs: Vec<EntityRec>,
}

impl View for Store {
    type V = Seq<EntityRec>;

    open spec fn view(&self) -> Seq<EntityRec> {
        self.recs@
    }
}

impl Store {
    /// Every record is well formed.
    pub open spec fn wf(self) -> bool {
        forall|i: int| 0 <= i < self@.len() ==> (#[trigger] self@[i]).wf()
    }

    /// An empty store.
    pub fn new() -> (s: Store)
        ensures
            s@ == Seq::<EntityRec>::empty(),
            s.wf(),
    {
        Store { recs: Vec::new() }
    }

    /// The number of records ever created (live or not).
    pub fn len(&self) -> (n: usize)
        ensures
            n == self@.len(),
    {
        self.recs.len()
    }

    /// A copy of the record at `id`.
    pub fn get(&self, id: usize) -> (r: EntityRec)
        requires
            id < self@.len(),
        ensures
            r == self@[id as int],
    {
        self.recs[id]
    }

    /// Creates an entity from an initial set of components; returns its id.
    pub fn spawn(&mut self, rec: EntityRec) -> (id: usize)
        requires
            rec.wf(),
        ensures
            final(self)@ == old(self)@.push(rec),
            id == old(self)@.len(),
            old(self).wf() ==> final(self).wf(),
    {
        let id = self.recs.len();
        self.recs.push(rec);
        id
    }

    /// Deletes an entity: clears its alive flag, leaving every other record
    /// untouched. Deleting an out-of-range or already-dead entity does
    /// nothing and reports `false` (a double delete is ignorable, never an
    /// abort).
    pub fn delete(&mut self, id: usize) -> (was_alive: bool)
        ensures
            was_alive == (id < old(self)@.len() && old(self)@[id as int].alive),
            final(self)@ == if id < old(self)@.len() && old(self)@[id as int].alive {
                old(self)@.update(id as int, old(self)@[id as int].deactivated())
            } else {
                old(self)@
            },
            old(self).wf() ==> final(self).wf(),
    {
        if id < self.recs.len() {
            if self.recs[id].alive {
                let mut r = self.recs[id];
                r.alive = false;
                self.recs[id] = r;
                assert(final(self)@ =~= old(self)@.update(
                    id as int,
                    old(self)@[id as int].deactivated(),
                ));
                return true;
            }
        }
        false
    }

    /// Counts the live enemies (the wave tracker's live count).
    pub fn count_enemies(&self) -> (n: usize)
        ensures
            n == count_live_enemies(self@),
    {
        let ghost s = self@;
        let mut n: usize = 0;
        let mut i: usize = 0;
        assert(s.subrange(0, 0) =~= Seq::<EntityRec>::empty());
        while i < self.recs.len()
            invariant
                i <= s.len(),
                s == self@,
                n == count_live_enemies(s.subrange(0, i as int)),
                n <= i,
            decreases s.len() - i,
        {
            proof {
                lemma_count_live_enemies_extend(s, i as int);
                lemma_count_live_enemies_le_len(s.subrange(0, i as int));
            }
            let r = self.recs[i];
            if r.alive && r.enemy.is_some() {
                n = n + 1;
            }
            i = i + 1;
        }
        proof {
            assert(s.subrange(0, s.len() as int) =~= s);
        }
        n
    }

    /// Deletes every entity carrying the cleanup marker: the teardown sweep
    /// a state runs on exit, guaranteeing no transient entity survives a
    /// transition.
    pub fn delete_tagged(&mut self)
        ensures
            final(self)@ == cleanup_swept(old(self)@),
            forall|i: int|
                0 <= i < final(self)@.len() ==> !((#[trigger] final(self)@[i]).alive
                    && final(self)@[i].cleanup),
            old(self).wf() ==> final(self).wf(),
    {
        let ghost orig = self@;
        let mut i: usize = 0;
        while i < self.recs.len()
            invariant
                i <= orig.len(),
                self@.len() == orig.len(),
                forall|j: int|
                    0 <= j < i ==> self@[j] == (if orig[j].alive && orig[j].cleanup {
                        (#[trigger] orig[j]).deactivated()
                    } else {
                        orig[j]
                    }),
                forall|j: int| i <= j < orig.len() ==> self@[j] == orig[j],
            decreases orig.len() - i,
        {
            let r = self.recs[i];
            if r.alive && r.cleanup {
                let mut dead = r;
                dead.alive = false;
                self.recs[i] = dead;
            }
            i = i + 1;
        }
        assert(final(self)@ =~= cleanup_swept(orig));
    }

    /// Deletes every entity carrying a fader: the transition state's
    /// teardown sweep.
    pub fn delete_faders(&mut self)
        ensures
            final(self)@ == faders_swept(old(self)@),
            old(self).wf() ==> final(self).wf(),
    {
        let ghost orig = self@;
        let mut i: usize = 0;
        while i < self.recs.len()
            invariant
                i <= orig.len(),
                self@.len() == orig.len(),
                forall|j: int|
                    0 <= j < i ==> self@[j] == (if orig[j].alive && orig[j].fader is Some {
                        (#[trigger] orig[j]).deactivated()
                    } else {
                        orig[j]
                    }),
                forall|j: int| i <= j < orig.len() ==> self@[j] == orig[j],
            decreases orig.len() - i,
        {
            let r = self.recs[i];
            if r.alive && r.fader.is_some() {
                let mut dead = r;
                dead.alive = false;
                self.recs[i] = dead;
            }
            i = i + 1;
        }
        assert(final(self)@ =~= faders_swept(orig));
    }
}

} // verus!
