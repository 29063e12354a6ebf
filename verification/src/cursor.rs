//! The sequence cursor: the slowly advancing third coordinate of the field.

use vstd::prelude::*;
use crate::scalar::UNIT;

verus! {

/// How far the cursor moves on each animation tick: a hundredth.
pub const SEQ_STEP: i64 = 10_000;

/// Two to the power of 53: the number of fractions a draw can stand for.
pub const FRACTIONS: u64 = 0x20_0000_0000_0000;

/// The cursor value that the draw `raw` stands for. The top 53 bits of
/// `raw`, read as a fraction of one, are scaled to ticks and rounded down.
pub open spec fn reseed_value(raw: u64) -> int {
    ((raw / 2048) * UNIT) / (FRACTIONS as int)
}

/// The cursor after one animation tick: a step further, or, where that
/// step would reach one, the value that the draw stands for.
pub open spec fn next_value(current: int, raw: u64) -> int {
    if current + SEQ_STEP >= UNIT {
        reseed_value(raw)
    } else {
        current + SEQ_STEP
    }
}

/// The cursor after one tick for each draw of `draws`, in order.
pub open spec fn value_after(start: int, draws: Seq<u64>) -> int
    decreases draws.len(),
{
    if draws.len() == 0 {
        start
    } else {
        next_value(value_after(start, draws.drop_last()), draws.last())
    }
}

/// A draw stands for a value from 0 up to, but not reaching, one.
pub proof fn lemma_reseed_in_range(raw: u64)
    ensures
        0 <= reseed_value(raw) < UNIT,
{
}

/// Every cursor value can come out of a reseed: for each there is a draw
/// that stands for it.
pub proof fn lemma_reseed_reaches(target: int) -> (raw: u64)
    requires
        0 <= target < UNIT,
    ensures
        reseed_value(raw) == target,
{
    let fraction: int = (target * FRACTIONS + UNIT - 1) / (UNIT as int);
    assert(0 <= fraction < FRACTIONS);
    let raw: u64 = (fraction * 2048) as u64;
    assert(raw / 2048 == fraction);
    raw
}

/// One tick keeps the cursor from 0 up to, but not reaching, one.
pub proof fn lemma_next_in_range(current: int, raw: u64)
    requires
        0 <= current < UNIT,
    ensures
        0 <= next_value(current, raw) < UNIT,
{
}

/// From 0 the cursor climbs a step per tick for as long as fewer than a
/// hundred ticks have passed.
pub proof fn lemma_climb(draws: Seq<u64>)
    requires
        draws.len() < 100,
    ensures
        value_after(0, draws) == draws.len() * SEQ_STEP,
    decreases draws.len(),
{
    if draws.len() > 0 {
        lemma_climb(draws.drop_last());
    }
}

/// After exactly a hundred ticks from 0 the cursor holds what the
/// hundredth draw stands for: a value from 0 up to, but not reaching, one.
pub proof fn lemma_hundredth_tick_reseeds(draws: Seq<u64>)
    requires
        draws.len() == 100,
    ensures
        value_after(0, draws) == reseed_value(draws[99]),
        0 <= value_after(0, draws) < UNIT,
{
    lemma_climb(draws.drop_last());
}

/// The cursor is not reset to a fixed value: whatever value below one is
/// named, there are a hundred draws after which the cursor holds it.
pub proof fn lemma_hundredth_tick_is_not_fixed(target: int) -> (draws: Seq<u64>)
    requires
        0 <= target < UNIT,
    ensures
        draws.len() == 100,
        value_after(0, draws) == target,
{
    let raw = lemma_reseed_reaches(target);
    let draws = Seq::new(100, |i: int| raw);
    lemma_hundredth_tick_reseeds(draws);
    draws
}

/// Calls `rand::random::<u64>()`, which draws 64 bits from the thread's
/// generator. Nothing is claimed of the value: any 64 bits may come back.
/// The call panics only where the operating system cannot seed the
/// generator.
#[verifier::external_body]
fn random_bits() -> (raw: u64) {
    rand::random::<u64>()
}

/// The sequence cursor. Its view is its value in ticks, from 0 up to, but
/// not reaching, `UNIT`.
#[derive(Clone, Copy, Debug)]
pub struct SequenceCursor {
    value: i64,
}

impl View for SequenceCursor {
    type V = int;

    closed spec fn view(&self) -> int {
        self.value as int
    }
}

impl SequenceCursor {
    /// What every cursor satisfies: it lies from 0 up to, but not on, one.
    #[verifier::type_invariant]
    pub open spec fn well_formed(self) -> bool {
        0 <= self@ < UNIT
    }

    /// A cursor at 0.
    pub fn new() -> (cursor: SequenceCursor)
        ensures
            cursor@ == 0,
    {
        SequenceCursor { value: 0 }
    }

    /// The cursor in ticks.
    pub fn value(&self) -> (ticks: i64)
        ensures
            ticks == self@,
            0 <= ticks < UNIT,
    {
        proof {
            use_type_invariant(self);
        }
        self.value
    }

    /// Moves the cursor by one animation tick, reseeding it from `raw`
    /// where the step would reach one.
    pub fn advance_with(&mut self, raw: u64)
        ensures
            final(self)@ == next_value(old(self)@, raw),
    {
        proof {
            use_type_invariant(&*self);
        }
        if self.value + SEQ_STEP >= UNIT {
            let fraction: u128 = (raw / 2048) as u128;
            assert(fraction == raw as int / 2048);
            assert(fraction < 0x20_0000_0000_0000u128);
            assert(fraction * 1_000_000 < 9_007_199_254_740_992_000_000int);
            let scaled: u128 = fraction * (UNIT as u128) / (FRACTIONS as u128);
            assert(scaled == reseed_value(raw));
            assert(scaled < UNIT);
            self.value = scaled as i64;
        } else {
            self.value = self.value + SEQ_STEP;
        }
    }

    /// Moves the cursor by one animation tick. Where the step would reach
    /// one, the cursor is reseeded from a fresh random draw.
    pub fn advance(&mut self)
        ensures
            exists|raw: u64| final(self)@ == next_value(old(self)@, raw),
    {
        proof {
            use_type_invariant(&*self);
        }
        if self.value + SEQ_STEP >= UNIT {
            let raw: u64 = random_bits();
            self.advance_with(raw);
            assert(self@ == next_value(old(self)@, raw));
        } else {
            self.advance_with(0);
            assert(self@ == next_value(old(self)@, 0u64));
        }
    }
}

} // verus!
