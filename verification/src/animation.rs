//! One frame of the animation: the timers decide whether the particles
//! move, the update rule moves them, and the cursor steps on.

use vstd::prelude::*;
use crate::cursor::{next_value, SequenceCursor};
use crate::field::{in_reach, update_particles, updated, FrameSamples};
use crate::particle::{views, Particle, ParticleView};
use crate::timer::{
    seq_elapsed_after, seq_fires, start_elapsed_after, start_finished, SeqTimer, StartTimer,
};

verus! {

/// What a frame did.
#[derive(Clone, Copy, Debug, PartialEq, Eq, Structural)]
pub enum FrameOutcome {
    /// The start delay is not over: only the start timer ran.
    Dormant,
    /// The start delay is over, but the animation timer did not fire.
    Waiting,
    /// The animation timer fired: the particles moved and the cursor
    /// stepped on.
    Updated,
    /// The particles were due to move, but there was not one set of
    /// samples for each of them: nothing changed, not even the timers.
    Rejected,
}

/// What the update rule reads and changes, as mathematical values.
pub struct FieldState {
    /// What the start timer shows, in nanoseconds.
    pub start: nat,
    /// What the animation timer shows, in nanoseconds.
    pub timer: nat,
    /// The sequence cursor, in ticks.
    pub seq: int,
    /// The particles.
    pub particles: Seq<ParticleView>,
}

/// Whether a frame of `delta` nanoseconds moves the particles: the start
/// delay is over by the end of the frame, and the animation timer fires.
pub open spec fn update_due(start: nat, timer: nat, delta: nat) -> bool {
    start_finished(start_elapsed_after(start, delta)) && seq_fires(timer, delta)
}

/// What a frame of `delta` nanoseconds does in state `s`.
pub open spec fn outcome_of(s: FieldState, delta: nat, samples: FrameSamples) -> FrameOutcome {
    if !start_finished(start_elapsed_after(s.start, delta)) {
        FrameOutcome::Dormant
    } else if !seq_fires(s.timer, delta) {
        FrameOutcome::Waiting
    } else if samples.particles@.len() != s.particles.len() {
        FrameOutcome::Rejected
    } else {
        FrameOutcome::Updated
    }
}

/// The state after the timers and the update rule have run for a frame of
/// `delta` nanoseconds in state `s`, before the cursor steps.
///
/// While the start delay lasts only the start timer runs. After it, the
/// animation timer runs too, and when it fires each particle moves once.
pub open spec fn rule_step(s: FieldState, delta: nat, samples: FrameSamples) -> FieldState {
    match outcome_of(s, delta, samples) {
        FrameOutcome::Rejected => s,
        FrameOutcome::Dormant => FieldState { start: start_elapsed_after(s.start, delta), ..s },
        FrameOutcome::Waiting => FieldState {
            start: start_elapsed_after(s.start, delta),
            timer: seq_elapsed_after(s.timer, delta),
            ..s
        },
        FrameOutcome::Updated => FieldState {
            start: start_elapsed_after(s.start, delta),
            timer: seq_elapsed_after(s.timer, delta),
            particles: updated(s.particles, samples),
            ..s
        },
    }
}

/// The state after a frame of `delta` nanoseconds in state `s`, with the
/// field's values `samples` and the random draw `raw`: the timers and the
/// update rule run, and where the particles moved the cursor takes one
/// step.
pub open spec fn perlin_step(
    s: FieldState,
    delta: nat,
    samples: FrameSamples,
    raw: u64,
) -> FieldState {
    let t = rule_step(s, delta, samples);
    if outcome_of(s, delta, samples) == FrameOutcome::Updated {
        FieldState { seq: next_value(s.seq, raw), ..t }
    } else {
        t
    }
}

/// The state that the four values make up.
pub open spec fn state_of(
    start_timer: StartTimer,
    timer: SeqTimer,
    seq: SequenceCursor,
    particles: Seq<Particle>,
) -> FieldState {
    FieldState { start: start_timer@, timer: timer@, seq: seq@, particles: views(particles) }
}

/// Whether a frame of `delta` nanoseconds would move the particles, so
/// that the field must be sampled for it.
pub fn update_is_due(start_timer: &StartTimer, timer: &SeqTimer, delta: u64) -> (due: bool)
    ensures
        due == update_due(start_timer@, timer@, delta as nat),
{
    let mut start: StartTimer = *start_timer;
    let finished: bool = start.tick(delta);
    finished && timer.fires_within(delta)
}

/// Runs the timers and, where they say so, the update rule: all of a
/// frame but the cursor's step.
fn run_timers_and_rule(
    delta: u64,
    particles: &mut Vec<Particle>,
    samples: &FrameSamples,
    timer: &mut SeqTimer,
    seq: &SequenceCursor,
    start_timer: &mut StartTimer,
) -> (outcome: FrameOutcome)
    requires
        forall|i: int| 0 <= i < old(particles)@.len() ==> in_reach(#[trigger] old(particles)@[i]@),
    ensures
        outcome == outcome_of(
            state_of(*old(start_timer), *old(timer), *seq, old(particles)@),
            delta as nat,
            *samples,
        ),
        state_of(*final(start_timer), *final(timer), *seq, final(particles)@) == rule_step(
            state_of(*old(start_timer), *old(timer), *seq, old(particles)@),
            delta as nat,
            *samples,
        ),
{
    if update_is_due(start_timer, timer, delta) && samples.particles.len() != particles.len() {
        return FrameOutcome::Rejected;
    }
    if !start_timer.tick(delta) {
        return FrameOutcome::Dormant;
    }
    if !timer.tick(delta) {
        return FrameOutcome::Waiting;
    }
    let _done: bool = update_particles(particles, samples);
    FrameOutcome::Updated
}

/// One frame of the animation with the random draw given: runs the
/// timers, moves the particles where the animation timer fires after the
/// start delay, and then steps the cursor, reseeding it from `raw` where
/// the step would reach one.
pub fn run_perlin_with(
    delta: u64,
    particles: &mut Vec<Particle>,
    samples: &FrameSamples,
    timer: &mut SeqTimer,
    seq: &mut SequenceCursor,
    start_timer: &mut StartTimer,
    raw: u64,
) -> (outcome: FrameOutcome)
    requires
        forall|i: int| 0 <= i < old(particles)@.len() ==> in_reach(#[trigger] old(particles)@[i]@),
    ensures
        outcome == outcome_of(
            state_of(*old(start_timer), *old(timer), *old(seq), old(particles)@),
            delta as nat,
            *samples,
        ),
        state_of(*final(start_timer), *final(timer), *final(seq), final(particles)@)
            == perlin_step(
            state_of(*old(start_timer), *old(timer), *old(seq), old(particles)@),
            delta as nat,
            *samples,
            raw,
        ),
{
    let outcome: FrameOutcome = run_timers_and_rule(
        delta,
        particles,
        samples,
        timer,
        seq,
        start_timer,
    );
    if outcome == FrameOutcome::Updated {
        seq.advance_with(raw);
    }
    outcome
}

/// One frame of the animation: runs the timers, moves the particles where
/// the animation timer fires after the start delay, and then steps the
/// cursor. Where that step would reach one, the cursor is reseeded from a
/// fresh random draw.
///
/// `samples` holds the field's values at the points that `sample_points`
/// gives for the particles and the cursor as they are before the call.
/// They are read only where the particles move.
pub fn run_perlin(
    delta: u64,
    particles: &mut Vec<Particle>,
    samples: &FrameSamples,
    timer: &mut SeqTimer,
    seq: &mut SequenceCursor,
    start_timer: &mut StartTimer,
) -> (outcome: FrameOutcome)
    requires
        forall|i: int| 0 <= i < old(particles)@.len() ==> in_reach(#[trigger] old(particles)@[i]@),
    ensures
        outcome == outcome_of(
            state_of(*old(start_timer), *old(timer), *old(seq), old(particles)@),
            delta as nat,
            *samples,
        ),
        exists|raw: u64|
            state_of(*final(start_timer), *final(timer), *final(seq), final(particles)@)
                == #[trigger] perlin_step(
                state_of(*old(start_timer), *old(timer), *old(seq), old(particles)@),
                delta as nat,
                *samples,
                raw,
            ),
{
    let ghost before = state_of(*start_timer, *timer, *seq, particles@);
    let outcome: FrameOutcome = run_timers_and_rule(
        delta,
        particles,
        samples,
        timer,
        seq,
        start_timer,
    );
    if outcome == FrameOutcome::Updated {
        seq.advance();
        let ghost raw: u64 = choose|raw: u64| seq@ == next_value(before.seq, raw);
        assert(state_of(*start_timer, *timer, *seq, particles@) == perlin_step(
            before,
            delta as nat,
            *samples,
            raw,
        ));
    } else {
        assert(state_of(*start_timer, *timer, *seq, particles@) == perlin_step(
            before,
            delta as nat,
            *samples,
            0u64,
        ));
    }
    outcome
}

} // verus!
