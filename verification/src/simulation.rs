//! The flock's bookkeeping.
//!
//! A simulation owns its boids, one flight-path trail per boid held at the
//! same index, and the discrete settings. The type of a boid and of a recorded
//! position are generic: the bookkeeping never looks inside them, and new
//! boids, each frame's movement and a boid's position come from functions
//! supplied by the caller.

use vstd::prelude::*;

use crate::config::{default_settings, Settings};
use crate::trail::{recorded, Trail};
use crate::ui::ControlOutcome;

verus! {

/// The recorded positions of each trail in `trails`.
pub open spec fn trail_views<P>(trails: Seq<Trail<P>>) -> Seq<Seq<P>> {
    trails.map_values(|t: Trail<P>| t@)
}

/// Running simulation state.
pub struct Simulation<B, P> {
    /// All boids currently participating in the flock.
    boids: Vec<B>,
    /// Recorded flight paths, held at the same index as their boid.
    trails: Vec<Trail<P>>,
    /// Discrete settings, edited live by the control panel.
    settings: Settings,
}

/// Resizes `boids` and `trails` together to `target` entries: entries beyond
/// it are dropped from the end, and new boids made by `spawn` are appended
/// with empty trails.
fn resize_flock<B, P, F: Fn() -> B>(
    boids: &mut Vec<B>,
    trails: &mut Vec<Trail<P>>,
    target: usize,
    spawn: F,
)
    requires
        old(boids)@.len() == old(trails)@.len(),
        spawn.requires(()),
    ensures
        final(boids)@.len() == target,
        final(trails)@.len() == target,
        forall|i: int|
            #![trigger final(boids)@[i]]
            #![trigger final(trails)@[i]]
            0 <= i < old(boids)@.len() && i < target ==> {
                &&& final(boids)@[i] == old(boids)@[i]
                &&& final(trails)@[i]@ == old(trails)@[i]@
            },
        forall|i: int|
            #![trigger final(boids)@[i]]
            #![trigger final(trails)@[i]]
            old(boids)@.len() <= i < target ==> {
                &&& spawn.ensures((), final(boids)@[i])
                &&& final(trails)@[i]@ == Seq::<P>::empty()
            },
{
    let ghost old_boids = boids@;
    let ghost old_trails = trails@;

    while boids.len() > target
        invariant
            boids@.len() == trails@.len(),
            boids@.len() <= old_boids.len(),
            old_boids.len() == old_trails.len(),
            boids@.len() >= target || boids@.len() == old_boids.len(),
            forall|i: int| 0 <= i < boids@.len() ==> #[trigger] boids@[i] == old_boids[i],
            forall|i: int| 0 <= i < trails@.len() ==> #[trigger] trails@[i] == old_trails[i],
        decreases boids@.len(),
    {
        boids.pop();
        trails.pop();
    }

    let ghost kept = boids@.len();
    while boids.len() < target
        invariant
            boids@.len() == trails@.len(),
            spawn.requires(()),
            old_boids.len() == old_trails.len(),
            kept == if old_boids.len() <= target { old_boids.len() } else { target as nat },
            kept <= boids@.len() <= target,
            forall|i: int| 0 <= i < kept ==> #[trigger] boids@[i] == old_boids[i],
            forall|i: int| 0 <= i < kept ==> #[trigger] trails@[i] == old_trails[i],
            forall|i: int| kept <= i < boids@.len() ==> spawn.ensures((), #[trigger] boids@[i]),
            forall|i: int| kept <= i < trails@.len() ==> #[trigger] trails@[i]@ == Seq::<P>::empty(),
        decreases target - boids@.len(),
    {
        let boid = spawn();
        boids.push(boid);
        trails.push(Trail::new());
    }
}

/// Empties every trail in `trails`, keeping their number.
fn clear_all<P>(trails: &mut Vec<Trail<P>>)
    ensures
        final(trails)@.len() == old(trails)@.len(),
        forall|i: int| 0 <= i < final(trails)@.len() ==> #[trigger] final(trails)@[i]@ == Seq::<P>::empty(),
{
    let n = trails.len();
    let mut i: usize = 0;
    while i < n
        invariant
            n == trails@.len(),
            i <= n,
            forall|j: int| 0 <= j < i ==> #[trigger] trails@[j]@ == Seq::<P>::empty(),
        decreases n - i,
    {
        trails[i].clear();
        i = i + 1;
    }
}

impl<B, P> Simulation<B, P> {
    /// Every simulation holds exactly one trail per boid.
    #[verifier::type_invariant]
    spec fn one_trail_per_boid(self) -> bool {
        self.boids@.len() == self.trails@.len()
    }

    /// The boids, in flock order.
    pub closed spec fn boids_view(&self) -> Seq<B> {
        self.boids@
    }

    /// The recorded positions of each boid's trail, at the boid's index.
    pub closed spec fn trails_view(&self) -> Seq<Seq<P>> {
        trail_views(self.trails@)
    }

    /// The current discrete settings.
    pub closed spec fn settings_view(&self) -> Settings {
        self.settings
    }

    /// Trails are kept index-aligned with boids: there is exactly one trail
    /// per boid.
    pub open spec fn wf(&self) -> bool {
        self.boids_view().len() == self.trails_view().len()
    }

    /// Moves the boids and trails out, leaving an empty flock with the same
    /// settings behind.
    fn take_flock(&mut self) -> (parts: (Vec<B>, Vec<Trail<P>>))
        ensures
            parts.0@ == old(self).boids@,
            parts.1@ == old(self).trails@,
            parts.0@.len() == parts.1@.len(),
            final(self).settings == old(self).settings,
    {
        proof {
            use_type_invariant(&*self);
        }
        let mut taken = Simulation { boids: Vec::new(), trails: Vec::new(), settings: self.settings };
        std::mem::swap(self, &mut taken);
        proof {
            use_type_invariant(&taken);
        }
        let Simulation { boids, trails, settings: _ } = taken;
        (boids, trails)
    }

    /// Creates a flock of the default size with the default settings; each
    /// boid comes from `spawn` and starts with an empty trail.
    pub fn new<F: Fn() -> B>(spawn: F) -> (sim: Simulation<B, P>)
        requires
            spawn.requires(()),
        ensures
            sim.wf(),
            sim.settings_view() == default_settings(),
            sim.boids_view().len() == default_settings().boid_count,
            forall|i: int|
                0 <= i < sim.boids_view().len() ==> spawn.ensures((), #[trigger] sim.boids_view()[i]),
            forall|i: int|
                0 <= i < sim.trails_view().len() ==> #[trigger] sim.trails_view()[i] == Seq::<P>::empty(),
    {
        let settings = Settings::default();
        let mut boids: Vec<B> = Vec::new();
        let mut trails: Vec<Trail<P>> = Vec::new();
        resize_flock(&mut boids, &mut trails, settings.boid_count, spawn);
        Simulation { boids, trails, settings }
    }

    /// Number of boids, which is also the number of trails.
    pub fn len(&self) -> (n: usize)
        ensures
            n == self.boids_view().len(),
            n == self.trails_view().len(),
    {
        proof {
            use_type_invariant(&*self);
        }
        self.boids.len()
    }

    /// Grows or shrinks the flock so its size matches the `boid_count`
    /// setting.
    ///
    /// Trails are kept index-aligned with boids, so both are resized together:
    /// boids and trails beyond the count are dropped from the end, and new
    /// boids, made by `spawn`, are appended with empty trails. A flock that
    /// already has the right size is left unchanged.
    pub fn reconcile_flock_size<F: Fn() -> B>(&mut self, spawn: F)
        requires
            spawn.requires(()),
        ensures
            final(self).wf(),
            final(self).settings_view() == old(self).settings_view(),
            final(self).boids_view().len() == old(self).settings_view().boid_count,
            forall|i: int|
                #![trigger final(self).boids_view()[i]]
                #![trigger final(self).trails_view()[i]]
                0 <= i < old(self).boids_view().len() && i < final(self).boids_view().len() ==> {
                    &&& final(self).boids_view()[i] == old(self).boids_view()[i]
                    &&& final(self).trails_view()[i] == old(self).trails_view()[i]
                },
            forall|i: int|
                #![trigger final(self).boids_view()[i]]
                #![trigger final(self).trails_view()[i]]
                old(self).boids_view().len() <= i < final(self).boids_view().len() ==> {
                    &&& spawn.ensures((), final(self).boids_view()[i])
                    &&& final(self).trails_view()[i] == Seq::<P>::empty()
                },
            old(self).boids_view().len() == old(self).settings_view().boid_count ==> {
                &&& final(self).boids_view() == old(self).boids_view()
                &&& final(self).trails_view() == old(self).trails_view()
            },
    {
        let settings = self.settings;
        let ghost old_trails = self.trails_view();
        let (mut boids, mut trails) = self.take_flock();
        let ghost old_boids = boids@;
        resize_flock(&mut boids, &mut trails, settings.boid_count, spawn);
        *self = Simulation { boids, trails, settings };
        proof {
            if old_boids.len() == settings.boid_count {
                assert(self.boids@ =~= old_boids);
                assert(self.trails_view() =~= old_trails);
            }
        }
    }

    /// Carries out the reset and clear actions requested by the control
    /// panel.
    ///
    /// A reset restores the default settings and rebuilds the flock from
    /// scratch with `spawn`, every boid with an empty trail. Clearing trails
    /// erases every recorded flight path and changes nothing else. An outcome
    /// that requests nothing leaves the simulation as it was.
    pub fn apply_outcome<F: Fn() -> B>(&mut self, outcome: ControlOutcome, spawn: F)
        requires
            spawn.requires(()),
        ensures
            final(self).wf(),
            outcome.reset_requested ==> {
                &&& final(self).settings_view() == default_settings()
                &&& final(self).boids_view().len() == default_settings().boid_count
                &&& forall|i: int|
                    0 <= i < final(self).boids_view().len() ==> spawn.ensures(
                        (),
                        #[trigger] final(self).boids_view()[i],
                    )
            },
            !outcome.reset_requested ==> {
                &&& final(self).settings_view() == old(self).settings_view()
                &&& final(self).boids_view() == old(self).boids_view()
            },
            outcome.reset_requested || outcome.clear_trails_requested ==> forall|i: int|
                0 <= i < final(self).trails_view().len() ==> #[trigger] final(self).trails_view()[i]
                    == Seq::<P>::empty(),
            !outcome.reset_requested && !outcome.clear_trails_requested
                ==> final(self).trails_view() == old(self).trails_view(),
    {
        proof {
            use_type_invariant(&*self);
        }
        if outcome.reset_requested {
            let (_, _) = self.take_flock();
            let settings = Settings::default();
            let mut boids: Vec<B> = Vec::new();
            let mut trails: Vec<Trail<P>> = Vec::new();
            resize_flock(&mut boids, &mut trails, settings.boid_count, spawn);
            *self = Simulation { boids, trails, settings };
        }
        if outcome.clear_trails_requested {
            self.clear_trails();
        }
        proof {
            use_type_invariant(&*self);
        }
    }

    /// The bookkeeping that starts a frame: the panel's reset and clear
    /// requests are carried out, then the flock is resized to the current
    /// `boid_count` setting.
    ///
    /// Afterwards the flock has exactly `boid_count` boids (the default count
    /// after a reset), one trail per boid. New boids start with empty trails.
    /// Without a reset, the boids that stay keep their place; with a reset or
    /// a clear request every trail is empty, and with neither every boid that
    /// stays keeps its trail.
    pub fn begin_frame<F: Fn() -> B>(&mut self, outcome: ControlOutcome, spawn: &F)
        requires
            spawn.requires(()),
        ensures
            final(self).wf(),
            final(self).boids_view().len() == final(self).settings_view().boid_count,
            outcome.reset_requested ==> {
                &&& final(self).settings_view() == default_settings()
                &&& forall|i: int|
                    0 <= i < final(self).boids_view().len() ==> spawn.ensures(
                        (),
                        #[trigger] final(self).boids_view()[i],
                    )
            },
            !outcome.reset_requested ==> {
                &&& final(self).settings_view() == old(self).settings_view()
                &&& forall|i: int|
                    0 <= i < old(self).boids_view().len() && i < final(self).boids_view().len()
                        ==> #[trigger] final(self).boids_view()[i] == old(self).boids_view()[i]
                &&& forall|i: int|
                    old(self).boids_view().len() <= i < final(self).boids_view().len()
                        ==> spawn.ensures((), #[trigger] final(self).boids_view()[i])
            },
            forall|i: int|
                old(self).boids_view().len() <= i < final(self).trails_view().len()
                    ==> #[trigger] final(self).trails_view()[i] == Seq::<P>::empty(),
            outcome.reset_requested || outcome.clear_trails_requested ==> forall|i: int|
                0 <= i < final(self).trails_view().len() ==> #[trigger] final(self).trails_view()[i]
                    == Seq::<P>::empty(),
            !outcome.reset_requested && !outcome.clear_trails_requested ==> forall|i: int|
                0 <= i < old(self).trails_view().len() && i < final(self).trails_view().len()
                    ==> #[trigger] final(self).trails_view()[i] == old(self).trails_view()[i],
    {
        self.apply_outcome(outcome, spawn);
        self.reconcile_flock_size(spawn);
    }

    /// Erases every recorded flight path, keeping one empty trail per boid.
    pub fn clear_trails(&mut self)
        ensures
            final(self).wf(),
            final(self).boids_view() == old(self).boids_view(),
            final(self).settings_view() == old(self).settings_view(),
            final(self).trails_view().len() == old(self).trails_view().len(),
            forall|i: int|
                0 <= i < final(self).trails_view().len() ==> #[trigger] final(self).trails_view()[i]
                    == Seq::<P>::empty(),
    {
        let settings = self.settings;
        let (boids, mut trails) = self.take_flock();
        clear_all(&mut trails);
        *self = Simulation { boids, trails, settings };
    }

    /// The current discrete settings.
    pub fn settings(&self) -> (s: Settings)
        ensures
            s == self.settings_view(),
    {
        self.settings
    }

    /// Replaces the discrete settings; a new boid count or trail length takes
    /// effect when the flock is next reconciled or a trail next records.
    pub fn set_settings(&mut self, settings: Settings)
        ensures
            final(self).wf(),
            final(self).settings_view() == settings,
            final(self).boids_view() == old(self).boids_view(),
            final(self).trails_view() == old(self).trails_view(),
    {
        proof {
            use_type_invariant(&*self);
        }
        self.settings = settings;
    }

    /// The boid at `index`.
    pub fn boid(&self, index: usize) -> (b: &B)
        requires
            index < self.boids_view().len(),
        ensures
            *b == self.boids_view()[index as int],
    {
        &self.boids[index]
    }

    /// The trail of the boid at `index`.
    pub fn trail(&self, index: usize) -> (t: &Trail<P>)
        requires
            index < self.trails_view().len(),
        ensures
            t@ == self.trails_view()[index as int],
    {
        &self.trails[index]
    }

    /// Replaces the boid at `index`, leaving every trail as it was.
    pub fn set_boid(&mut self, index: usize, boid: B)
        requires
            index < old(self).boids_view().len(),
        ensures
            final(self).wf(),
            final(self).boids_view() == old(self).boids_view().update(index as int, boid),
            final(self).trails_view() == old(self).trails_view(),
            final(self).settings_view() == old(self).settings_view(),
    {
        let settings = self.settings;
        let (mut boids, trails) = self.take_flock();
        boids.set(index, boid);
        *self = Simulation { boids, trails, settings };
    }

    /// Records `position` into the trail of the boid at `index`, keeping at
    /// most `trail_length` positions of the current settings.
    pub fn record_trail(&mut self, index: usize, position: P)
        requires
            index < old(self).trails_view().len(),
        ensures
            final(self).wf(),
            final(self).trails_view() == old(self).trails_view().update(
                index as int,
                recorded(
                    old(self).trails_view()[index as int],
                    position,
                    old(self).settings_view().trail_length as nat,
                ),
            ),
            final(self).boids_view() == old(self).boids_view(),
            final(self).settings_view() == old(self).settings_view(),
    {
        let settings = self.settings;
        let ghost before = self.trails_view();
        let (boids, mut trails) = self.take_flock();
        trails[index].record(position, settings.trail_length);
        *self = Simulation { boids, trails, settings };
        proof {
            assert(self.trails_view() =~= before.update(
                index as int,
                recorded(before[index as int], position, settings.trail_length as nat),
            ));
        }
    }
}

impl<B: Copy, P> Simulation<B, P> {
    /// A copy of the whole flock, giving the steering rules a stable
    /// snapshot for the frame.
    pub fn snapshot(&self) -> (flock: Vec<B>)
        ensures
            flock@ == self.boids_view(),
    {
        let n = self.boids.len();
        let mut flock: Vec<B> = Vec::new();
        let mut i: usize = 0;
        while i < n
            invariant
                n == self.boids@.len(),
                i <= n,
                flock@ == self.boids@.subrange(0, i as int),
            decreases n - i,
        {
            flock.push(self.boids[i]);
            i = i + 1;
            proof {
                assert(flock@ =~= self.boids@.subrange(0, i as int));
            }
        }
        proof {
            assert(flock@ =~= self.boids@);
        }
        flock
    }

    /// Moves every boid one frame and records where it ends up.
    ///
    /// Each boid is replaced by `step` applied to it, and the position of the
    /// moved boid, given by `position`, is recorded into that boid's trail,
    /// keeping at most `trail_length` positions of the current settings: after
    /// the call each trail ends with its boid's new position (or is empty when
    /// the trail length is zero). The number of boids and the settings do not
    /// change.
    pub fn advance<S: Fn(B) -> B, Q: Fn(&B) -> P>(&mut self, step: S, position: Q)
        requires
            forall|b: B| step.requires((b,)),
            forall|b: &B| position.requires((b,)),
        ensures
            final(self).wf(),
            final(self).settings_view() == old(self).settings_view(),
            final(self).boids_view().len() == old(self).boids_view().len(),
            forall|i: int|
                0 <= i < final(self).boids_view().len() ==> step.ensures(
                    (old(self).boids_view()[i],),
                    #[trigger] final(self).boids_view()[i],
                ),
            old(self).settings_view().trail_length > 0 ==> forall|i: int|
                0 <= i < final(self).trails_view().len() ==> {
                    &&& position.ensures(
                        (&final(self).boids_view()[i],),
                        #[trigger] final(self).trails_view()[i].last(),
                    )
                    &&& final(self).trails_view()[i] == recorded(
                        old(self).trails_view()[i],
                        final(self).trails_view()[i].last(),
                        old(self).settings_view().trail_length as nat,
                    )
                },
            old(self).settings_view().trail_length == 0 ==> forall|i: int|
                0 <= i < final(self).trails_view().len() ==> #[trigger] final(self).trails_view()[i]
                    == Seq::<P>::empty(),
    {
        let settings = self.settings;
        let ghost keep = settings.trail_length as nat;
        let ghost old_trails = self.trails_view();
        let (mut boids, mut trails) = self.take_flock();
        let ghost old_boids = boids@;
        let n = boids.len();
        let mut i: usize = 0;
        while i < n
            invariant
                n == boids@.len(),
                n == trails@.len(),
                n == old_boids.len(),
                n == old_trails.len(),
                i <= n,
                keep == settings.trail_length,
                forall|b: B| step.requires((b,)),
                forall|b: &B| position.requires((b,)),
                forall|j: int| i <= j < n ==> #[trigger] boids@[j] == old_boids[j],
                forall|j: int| i <= j < n ==> #[trigger] trails@[j]@ == old_trails[j],
                forall|j: int| 0 <= j < i ==> step.ensures((old_boids[j],), #[trigger] boids@[j]),
                keep > 0 ==> forall|j: int|
                    0 <= j < i ==> {
                        &&& position.ensures((&boids@[j],), #[trigger] trails@[j]@.last())
                        &&& trails@[j]@ == recorded(old_trails[j], trails@[j]@.last(), keep)
                    },
                keep == 0 ==> forall|j: int| 0 <= j < i ==> #[trigger] trails@[j]@ == Seq::<P>::empty(),
            decreases n - i,
        {
            let moved = step(boids[i]);
            let at = position(&moved);
            boids.set(i, moved);
            trails[i].record(at, settings.trail_length);
            proof {
                crate::trail::lemma_record_keeps_most_recent(old_trails[i as int], at, keep);
                if keep == 0 {
                    assert(trails@[i as int]@ =~= Seq::<P>::empty());
                }
            }
            i = i + 1;
        }
        *self = Simulation { boids, trails, settings };
        proof {
            assert forall|j: int| 0 <= j < self.trails@.len() implies #[trigger] self.trails_view()[j]
                == self.trails@[j]@ by {}
        }
    }
}

} // verus!
