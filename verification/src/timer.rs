//! The two timers that gate the animation, counting nanoseconds.

use vstd::prelude::*;

verus! {

/// How long the animation waits before its first move: three seconds.
pub const START_DELAY_NANOS: u64 = 3_000_000_000;

/// The time between two animation ticks: a fiftieth of a second.
pub const ANIMATION_PERIOD_NANOS: u64 = 20_000_000;

/// The time a start timer shows `delta` after it showed `elapsed`: it runs
/// up to the start delay and stays there.
pub open spec fn start_elapsed_after(elapsed: nat, delta: nat) -> nat {
    if elapsed + delta >= START_DELAY_NANOS {
        START_DELAY_NANOS as nat
    } else {
        elapsed + delta
    }
}

/// Whether a start timer that shows `elapsed` has run out.
pub open spec fn start_finished(elapsed: nat) -> bool {
    elapsed >= START_DELAY_NANOS
}

/// Whether an animation timer that shows `elapsed` fires within `delta`.
pub open spec fn seq_fires(elapsed: nat, delta: nat) -> bool {
    elapsed + delta >= ANIMATION_PERIOD_NANOS
}

/// The time an animation timer shows `delta` after it showed `elapsed`:
/// what is left over once every whole period has been taken out.
pub open spec fn seq_elapsed_after(elapsed: nat, delta: nat) -> nat {
    (elapsed + delta) % (ANIMATION_PERIOD_NANOS as nat)
}

/// A start timer never runs backwards and never counts past the delay,
/// and once it has finished it stays finished.
pub proof fn lemma_start_timer_runs_up(elapsed: nat, delta: nat)
    requires
        elapsed <= START_DELAY_NANOS,
    ensures
        elapsed <= start_elapsed_after(elapsed, delta) <= START_DELAY_NANOS,
        start_finished(start_elapsed_after(elapsed, delta)) <==> elapsed + delta
            >= START_DELAY_NANOS,
        start_finished(elapsed) ==> start_elapsed_after(elapsed, delta) == elapsed,
{
}

/// Until it fires, an animation timer counts every nanosecond; when it
/// fires it starts over, and either way it shows less than a period.
pub proof fn lemma_seq_timer_cycles(elapsed: nat, delta: nat)
    requires
        elapsed < ANIMATION_PERIOD_NANOS,
    ensures
        !seq_fires(elapsed, delta) ==> seq_elapsed_after(elapsed, delta) == elapsed + delta,
        seq_elapsed_after(elapsed, delta) < ANIMATION_PERIOD_NANOS,
        seq_fires(elapsed, delta) ==> seq_elapsed_after(elapsed, delta) <= elapsed + delta
            - ANIMATION_PERIOD_NANOS,
{
}

/// The one-shot warm-up timer. Its view is the time it has counted, which
/// never passes the start delay; once finished it stays finished.
#[derive(Clone, Copy, Debug)]
pub struct StartTimer {
    elapsed: u64,
}

impl View for StartTimer {
    type V = nat;

    closed spec fn view(&self) -> nat {
        self.elapsed as nat
    }
}

impl StartTimer {
    /// What every start timer satisfies: it never counts past the delay.
    #[verifier::type_invariant]
    pub open spec fn well_formed(self) -> bool {
        self@ <= START_DELAY_NANOS
    }

    /// A timer that has counted nothing yet.
    pub fn new() -> (timer: StartTimer)
        ensures
            timer@ == 0,
    {
        StartTimer { elapsed: 0 }
    }

    /// Counts `delta` nanoseconds more and says whether the delay is over.
    pub fn tick(&mut self, delta: u64) -> (finished: bool)
        ensures
            final(self)@ == start_elapsed_after(old(self)@, delta as nat),
            finished == start_finished(final(self)@),
    {
        proof {
            use_type_invariant(&*self);
        }
        if delta >= START_DELAY_NANOS - self.elapsed {
            self.elapsed = START_DELAY_NANOS;
            true
        } else {
            self.elapsed = self.elapsed + delta;
            false
        }
    }

    /// Whether the delay is over.
    pub fn finished(&self) -> (finished: bool)
        ensures
            finished == start_finished(self@),
    {
        self.elapsed >= START_DELAY_NANOS
    }

    /// The nanoseconds counted so far.
    pub fn elapsed(&self) -> (nanos: u64)
        ensures
            nanos == self@,
            nanos <= START_DELAY_NANOS,
    {
        proof {
            use_type_invariant(self);
        }
        self.elapsed
    }
}

/// The repeating animation timer. Its view is the time counted since it
/// last fired, always less than one period.
#[derive(Clone, Copy, Debug)]
pub struct SeqTimer {
    elapsed: u64,
}

impl View for SeqTimer {
    type V = nat;

    closed spec fn view(&self) -> nat {
        self.elapsed as nat
    }
}

impl SeqTimer {
    /// What every animation timer satisfies: it shows less than a period.
    #[verifier::type_invariant]
    pub open spec fn well_formed(self) -> bool {
        self@ < ANIMATION_PERIOD_NANOS
    }

    /// A timer at the start of its period.
    pub fn new() -> (timer: SeqTimer)
        ensures
            timer@ == 0,
    {
        SeqTimer { elapsed: 0 }
    }

    /// Counts `delta` nanoseconds more and says whether the timer fired,
    /// that is, whether at least one period ran out. However many ran out,
    /// it fires once.
    pub fn tick(&mut self, delta: u64) -> (fired: bool)
        ensures
            final(self)@ == seq_elapsed_after(old(self)@, delta as nat),
            fired == seq_fires(old(self)@, delta as nat),
    {
        proof {
            use_type_invariant(&*self);
        }
        let rest: u64 = delta % ANIMATION_PERIOD_NANOS;
        let fired: bool = delta >= ANIMATION_PERIOD_NANOS - self.elapsed;
        self.elapsed = (self.elapsed + rest) % ANIMATION_PERIOD_NANOS;
        fired
    }

    /// Whether counting `delta` nanoseconds more would fire the timer.
    pub fn fires_within(&self, delta: u64) -> (fired: bool)
        ensures
            fired == seq_fires(self@, delta as nat),
    {
        proof {
            use_type_invariant(self);
        }
        delta >= ANIMATION_PERIOD_NANOS - self.elapsed
    }

    /// The nanoseconds counted since the timer last fired.
    pub fn elapsed(&self) -> (nanos: u64)
        ensures
            nanos == self@,
            nanos < ANIMATION_PERIOD_NANOS,
    {
        proof {
            use_type_invariant(self);
        }
        self.elapsed
    }
}

} // verus!
