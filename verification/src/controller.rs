//! The animation controller: the timers, the cursor and the particles
//! under one owner, moved on frame by frame.

use vstd::prelude::*;
use crate::animation::{
    outcome_of, perlin_step, run_perlin, run_perlin_with, state_of, update_due, update_is_due,
    FieldState, FrameOutcome,
};
use crate::cursor::SequenceCursor;
use crate::field::{
    are_points_of, in_reach, lemma_inside_is_in_reach, sample_points, updated, FramePoints,
    FrameSamples,
};
use crate::grid::{lattice, lemma_grid_fills_world, setup_perlin};
use crate::particle::{views, Particle, ParticleView};
use crate::timer::{SeqTimer, StartTimer, START_DELAY_NANOS};
use crate::world::{Extent, World, MAX_PARTICLES};
use crate::wrap::{inside, lemma_wraparound_boundary, wraparound, wraparound_of, wrapped_all};

verus! {

/// An animation as mathematical values: a world and the state in it.
pub struct Animation {
    pub world: Extent,
    pub field: FieldState,
}

/// What goes into one frame: its length in nanoseconds, the field's
/// values, and the random draw for the cursor.
pub struct FrameInput {
    pub delta: nat,
    pub samples: FrameSamples,
    pub raw: u64,
}

/// The state after a whole frame: the timers, the update rule and the
/// cursor first, wraparound after them.
pub open spec fn frame_step(
    world: Extent,
    s: FieldState,
    delta: nat,
    samples: FrameSamples,
    raw: u64,
) -> FieldState {
    let t = perlin_step(s, delta, samples, raw);
    FieldState { particles: wraparound_of(t.particles, t.start, world), ..t }
}

/// The state after the frames `frames`, in order.
pub open spec fn after_frames(world: Extent, s: FieldState, frames: Seq<FrameInput>) -> FieldState
    decreases frames.len(),
{
    if frames.len() == 0 {
        s
    } else {
        let f = frames.last();
        frame_step(world, after_frames(world, s, frames.drop_last()), f.delta, f.samples, f.raw)
    }
}

/// The time that the frames `frames` take together.
pub open spec fn total_time(frames: Seq<FrameInput>) -> nat
    decreases frames.len(),
{
    if frames.len() == 0 {
        0
    } else {
        total_time(frames.drop_last()) + frames.last().delta
    }
}

/// Whether every particle of `ps` lies inside `world`.
pub open spec fn all_inside(ps: Seq<ParticleView>, world: Extent) -> bool {
    forall|i: int| 0 <= i < ps.len() ==> inside(#[trigger] ps[i], world)
}

/// For as long as the frames together take less than the start delay,
/// nothing moves: no particle changes its position or its opacity, the
/// cursor stays, and the animation timer does not run. Only the start
/// timer counts the time.
pub proof fn lemma_still_during_start_delay(
    world: Extent,
    s: FieldState,
    frames: Seq<FrameInput>,
)
    requires
        s.start + total_time(frames) < START_DELAY_NANOS,
    ensures
        after_frames(world, s, frames) == (FieldState {
            start: s.start + total_time(frames),
            ..s
        }),
    decreases frames.len(),
{
    if frames.len() > 0 {
        lemma_still_during_start_delay(world, s, frames.drop_last());
    }
}

/// A frame that ends at or after the start delay is active: wraparound
/// runs in it, and the update rule runs before wraparound where the
/// animation timer fires.
pub proof fn lemma_active_after_start_delay(
    world: Extent,
    s: FieldState,
    delta: nat,
    samples: FrameSamples,
    raw: u64,
)
    requires
        world.valid(),
        s.start <= START_DELAY_NANOS,
        s.start + delta >= START_DELAY_NANOS,
    ensures
        outcome_of(s, delta, samples) != FrameOutcome::Dormant,
        outcome_of(s, delta, samples) != FrameOutcome::Rejected ==> frame_step(
            world,
            s,
            delta,
            samples,
            raw,
        ).particles == wrapped_all(perlin_step(s, delta, samples, raw).particles, world),
        outcome_of(s, delta, samples) == FrameOutcome::Updated ==> frame_step(
            world,
            s,
            delta,
            samples,
            raw,
        ).particles == wrapped_all(updated(s.particles, samples), world),
        outcome_of(s, delta, samples) != FrameOutcome::Rejected ==> all_inside(
            frame_step(world, s, delta, samples, raw).particles,
            world,
        ),
{
    let after = frame_step(world, s, delta, samples, raw);
    let mid = perlin_step(s, delta, samples, raw);
    if outcome_of(s, delta, samples) != FrameOutcome::Rejected {
        assert forall|i: int| 0 <= i < after.particles.len() implies inside(
            #[trigger] after.particles[i],
            world,
        ) by {
            lemma_wraparound_boundary(mid.particles[i], world);
        }
    }
}

/// A frame keeps every particle inside the world that was inside before.
pub proof fn lemma_frame_keeps_inside(
    world: Extent,
    s: FieldState,
    delta: nat,
    samples: FrameSamples,
    raw: u64,
)
    requires
        world.valid(),
        all_inside(s.particles, world),
    ensures
        all_inside(frame_step(world, s, delta, samples, raw).particles, world),
        frame_step(world, s, delta, samples, raw).particles.len() == s.particles.len(),
{
    let after = frame_step(world, s, delta, samples, raw);
    let mid = perlin_step(s, delta, samples, raw);
    assert forall|i: int| 0 <= i < after.particles.len() implies inside(
        #[trigger] after.particles[i],
        world,
    ) by {
        lemma_wraparound_boundary(mid.particles[i], world);
    }
}

/// The owner of one animation: a world, the two timers, the sequence
/// cursor and the particles. Between frames every particle lies inside
/// the world.
pub struct AnimationController {
    world: World,
    start_timer: StartTimer,
    timer: SeqTimer,
    seq: SequenceCursor,
    particles: Vec<Particle>,
}

impl View for AnimationController {
    type V = Animation;

    closed spec fn view(&self) -> Animation {
        Animation {
            world: self.world@,
            field: FieldState {
                start: self.start_timer@,
                timer: self.timer@,
                seq: self.seq@,
                particles: views(self.particles@),
            },
        }
    }
}

impl AnimationController {
    /// What every controller satisfies between frames.
    #[verifier::type_invariant]
    pub open spec fn well_formed(self) -> bool {
        &&& self@.world.valid()
        &&& self@.field.particles.len() <= MAX_PARTICLES
        &&& all_inside(self@.field.particles, self@.world)
    }

    /// A controller at the start of its animation: the particles on the
    /// lattice of `world`, both timers and the cursor at 0.
    pub fn new(world: World) -> (controller: AnimationController)
        ensures
            controller@ == (Animation {
                world: world@,
                field: FieldState { start: 0, timer: 0, seq: 0, particles: lattice(world@) },
            }),
    {
        proof {
            use_type_invariant(&world);
            lemma_grid_fills_world(world@);
        }
        let particles: Vec<Particle> = setup_perlin(&world);
        AnimationController {
            world,
            start_timer: StartTimer::new(),
            timer: SeqTimer::new(),
            seq: SequenceCursor::new(),
            particles,
        }
    }

    /// The world.
    pub fn world(&self) -> (world: &World)
        ensures
            world@ == self@.world,
    {
        &self.world
    }

    /// The particles, in the order in which they are sampled.
    pub fn particles(&self) -> (particles: &Vec<Particle>)
        ensures
            views(particles@) == self@.field.particles,
    {
        &self.particles
    }

    /// The sequence cursor.
    pub fn seq(&self) -> (seq: SequenceCursor)
        ensures
            seq@ == self@.field.seq,
    {
        self.seq
    }

    /// The start timer.
    pub fn start_timer(&self) -> (timer: StartTimer)
        ensures
            timer@ == self@.field.start,
    {
        self.start_timer
    }

    /// The animation timer.
    pub fn timer(&self) -> (timer: SeqTimer)
        ensures
            timer@ == self@.field.timer,
    {
        self.timer
    }

    /// Whether a frame of `delta` nanoseconds would move the particles,
    /// so that the field must be sampled for it.
    pub fn update_is_due(&self, delta: u64) -> (due: bool)
        ensures
            due == update_due(self@.field.start, self@.field.timer, delta as nat),
    {
        update_is_due(&self.start_timer, &self.timer, delta)
    }

    /// Every point at which the field must be sampled before the
    /// particles can make their next move.
    pub fn sample_points(&self) -> (points: FramePoints)
        ensures
            are_points_of(points, self@.world, self@.field.particles, self@.field.seq),
    {
        proof {
            use_type_invariant(self);
            assert forall|i: int| 0 <= i < self.particles@.len() implies in_reach(
                #[trigger] self.particles@[i]@,
            ) by {
                assert(inside(views(self.particles@)[i], self.world@));
                lemma_inside_is_in_reach(self.particles@[i]@, self.world@);
            }
        }
        sample_points(&self.world, &self.particles, &self.seq)
    }

    /// One frame of `delta` nanoseconds: the update rule where it is due,
    /// then wraparound. The cursor is reseeded from `draw` where one is
    /// given, and from a fresh random draw where none is.
    fn run(&mut self, delta: u64, samples: &FrameSamples, draw: Option<u64>) -> (outcome:
        FrameOutcome)
        ensures
            outcome == outcome_of(old(self)@.field, delta as nat, *samples),
            final(self)@.world == old(self)@.world,
            exists|raw: u64|
                final(self)@.field == #[trigger] frame_step(
                    old(self)@.world,
                    old(self)@.field,
                    delta as nat,
                    *samples,
                    raw,
                ),
            draw matches Some(raw) ==> final(self)@.field == frame_step(
                old(self)@.world,
                old(self)@.field,
                delta as nat,
                *samples,
                raw,
            ),
    {
        proof {
            use_type_invariant(&*self);
            assert forall|i: int| 0 <= i < self.particles@.len() implies in_reach(
                #[trigger] self.particles@[i]@,
            ) by {
                assert(inside(views(self.particles@)[i], self.world@));
                lemma_inside_is_in_reach(self.particles@[i]@, self.world@);
            }
        }
        let ghost before = self@.field;
        let mut start_timer: StartTimer = self.start_timer;
        let mut timer: SeqTimer = self.timer;
        let mut seq: SequenceCursor = self.seq;
        let mut particles: Vec<Particle> = Vec::new();
        std::mem::swap(&mut particles, &mut self.particles);
        let outcome: FrameOutcome = match draw {
            Some(raw) => run_perlin_with(
                delta,
                &mut particles,
                samples,
                &mut timer,
                &mut seq,
                &mut start_timer,
                raw,
            ),
            None => run_perlin(
                delta,
                &mut particles,
                samples,
                &mut timer,
                &mut seq,
                &mut start_timer,
            ),
        };
        let ghost mid = state_of(start_timer, timer, seq, particles@);
        wraparound(&mut particles, &start_timer, &self.world);
        proof {
            let raw: u64 = choose|raw: u64|
                mid == #[trigger] perlin_step(before, delta as nat, *samples, raw);
            assert(mid == perlin_step(before, delta as nat, *samples, raw));
            lemma_frame_keeps_inside(self.world@, before, delta as nat, *samples, raw);
            assert(state_of(start_timer, timer, seq, particles@) == frame_step(
                self.world@,
                before,
                delta as nat,
                *samples,
                raw,
            ));
        }
        self.start_timer = start_timer;
        self.timer = timer;
        self.seq = seq;
        self.particles = particles;
        outcome
    }

    /// One frame of `delta` nanoseconds. While the start delay lasts,
    /// nothing moves. After it, the particles move by the update rule
    /// whenever the animation timer fires, and wraparound follows in every
    /// frame. Where the cursor is reseeded, it is from a fresh random
    /// draw.
    ///
    /// `samples` holds the field's values at the points that
    /// `sample_points` gives before the call. They are read only where
    /// `update_is_due` says that the particles move.
    pub fn frame(&mut self, delta: u64, samples: &FrameSamples) -> (outcome: FrameOutcome)
        ensures
            outcome == outcome_of(old(self)@.field, delta as nat, *samples),
            final(self)@.world == old(self)@.world,
            exists|raw: u64|
                final(self)@.field == #[trigger] frame_step(
                    old(self)@.world,
                    old(self)@.field,
                    delta as nat,
                    *samples,
                    raw,
                ),
    {
        self.run(delta, samples, None)
    }

    /// One frame of `delta` nanoseconds with the random draw given: as
    /// `frame`, but where the cursor is reseeded, it is from `raw`.
    pub fn frame_with(&mut self, delta: u64, samples: &FrameSamples, raw: u64) -> (outcome:
        FrameOutcome)
        ensures
            outcome == outcome_of(old(self)@.field, delta as nat, *samples),
            final(self)@.world == old(self)@.world,
            final(self)@.field == frame_step(
                old(self)@.world,
                old(self)@.field,
                delta as nat,
                *samples,
                raw,
            ),
    {
        self.run(delta, samples, Some(raw))
    }
}

} // verus!
