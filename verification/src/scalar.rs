//! Fixed-point scalars: ticks, noise samples and rounding.

use vstd::prelude::*;

verus! {

/// Ticks in one world unit, and in a noise amplitude of one.
pub const UNIT: i64 = 1_000_000;

/// `v` held to the noise range `[-UNIT, UNIT]`.
pub open spec fn clamp_unit(v: int) -> int {
    if v < -UNIT {
        -UNIT as int
    } else if v > UNIT {
        UNIT as int
    } else {
        v
    }
}

/// The smallest `n` with `n * b >= a`, for `a >= 0` and `b > 0`.
pub open spec fn ceil_div(a: int, b: int) -> int {
    (a + b - 1) / b
}

/// One value of the noise field, in ticks, always within `[-UNIT, UNIT]`.
#[derive(Clone, Copy, Debug)]
pub struct Sample {
    ticks: i64,
}

impl View for Sample {
    type V = int;

    closed spec fn view(&self) -> int {
        self.ticks as int
    }
}

impl Sample {
    #[verifier::type_invariant]
    spec fn in_range(self) -> bool {
        -UNIT <= self.ticks <= UNIT
    }

    /// A sample of `raw` ticks, clamped to the noise range.
    pub fn new(raw: i64) -> (s: Sample)
        ensures
            s@ == clamp_unit(raw as int),
    {
        if raw < -UNIT {
            Sample { ticks: -UNIT }
        } else if raw > UNIT {
            Sample { ticks: UNIT }
        } else {
            Sample { ticks: raw }
        }
    }

    /// The sample in ticks.
    pub fn ticks(&self) -> (t: i64)
        ensures
            t == self@,
            -UNIT <= t <= UNIT,
    {
        proof {
            use_type_invariant(self);
        }
        self.ticks
    }
}

/// `a / b` rounded toward negative infinity.
pub(crate) fn floor_div(a: i64, b: i64) -> (q: i64)
    requires
        b > 0,
    ensures
        q == a as int / b as int,
{
    proof {
        lemma_floor_div_fits(a as int, b as int);
    }
    match a.checked_div_euclid(b) {
        Some(q) => q,
        None => 0,
    }
}

/// A quotient by a positive divisor is no larger in size than the dividend.
proof fn lemma_floor_div_fits(a: int, b: int)
    requires
        b > 0,
    ensures
        a >= 0 ==> 0 <= a / b <= a,
        a < 0 ==> a <= a / b < 0,
{
    assert(a >= 0 ==> 0 <= a / b <= a) by (nonlinear_arith)
        requires
            b > 0,
    ;
    assert(a < 0 ==> a <= a / b < 0) by (nonlinear_arith)
        requires
            b > 0,
    ;
}

} // verus!
