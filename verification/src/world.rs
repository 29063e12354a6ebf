//! The world rectangle and the lattice laid over it.

use vstd::prelude::*;
use crate::scalar::{ceil_div, UNIT};

verus! {

/// The most particles a world may hold: a particle's index, counted in
/// ticks, must fit a coordinate.
pub const MAX_PARTICLES: u64 = 9_223_372_036_854;

/// The measures of a world: width, height and lattice step, in world units.
pub struct Extent {
    pub width: int,
    pub height: int,
    pub step: int,
}

impl Extent {
    /// Lattice points along the x axis: `0, step, 2 * step, ..` below `width`.
    pub open spec fn columns(self) -> int {
        ceil_div(self.width, self.step)
    }

    /// Lattice points along the y axis.
    pub open spec fn rows(self) -> int {
        ceil_div(self.height, self.step)
    }

    /// Lattice points in all.
    pub open spec fn count(self) -> int {
        self.columns() * self.rows()
    }

    /// The right edge, in ticks: half the width from the centred origin.
    pub open spec fn right(self) -> int {
        self.width * UNIT / 2
    }

    /// The left edge, in ticks.
    pub open spec fn left(self) -> int {
        -self.right()
    }

    /// The top edge, in ticks: half the height from the centred origin.
    pub open spec fn top(self) -> int {
        self.height * UNIT / 2
    }

    /// The bottom edge, in ticks.
    pub open spec fn bottom(self) -> int {
        -self.top()
    }

    /// Every measure is positive and fits 32 bits, and the lattice holds no
    /// more than [`MAX_PARTICLES`] points.
    pub open spec fn valid(self) -> bool {
        &&& 0 < self.width <= u32::MAX
        &&& 0 < self.height <= u32::MAX
        &&& 0 < self.step <= u32::MAX
        &&& self.count() <= MAX_PARTICLES
    }
}

/// `ceil_div` is the ceiling of the quotient: the last multiple of `b`
/// before it is still below `a`, and it is itself no larger than `a`.
pub proof fn lemma_ceil_div(a: int, b: int)
    requires
        a > 0,
        b > 0,
    ensures
        1 <= ceil_div(a, b) <= a,
        (ceil_div(a, b) - 1) * b < a <= ceil_div(a, b) * b,
{
    let n = ceil_div(a, b);
    assert(n == (a + b - 1) / b);
    assert((n - 1) * b < a <= n * b && 1 <= n <= a) by (nonlinear_arith)
        requires
            a > 0,
            b > 0,
            n == (a + b - 1) / b,
    ;
}

/// A validated world: a rectangle centred on the origin with a lattice step.
#[derive(Clone, Copy, Debug)]
pub struct World {
    width: u32,
    height: u32,
    step: u32,
}

impl View for World {
    type V = Extent;

    closed spec fn view(&self) -> Extent {
        Extent { width: self.width as int, height: self.height as int, step: self.step as int }
    }
}

impl World {
    /// What every world satisfies: its measures are valid.
    #[verifier::type_invariant]
    pub open spec fn well_formed(self) -> bool {
        self@.valid()
    }

    /// A world of the given measures, or `None` where they are not valid.
    pub fn new(width: u32, height: u32, step: u32) -> (world: Option<World>)
        ensures
            world.is_some() <==> (Extent {
                width: width as int,
                height: height as int,
                step: step as int,
            }).valid(),
            world matches Some(w) ==> w@ == (Extent {
                width: width as int,
                height: height as int,
                step: step as int,
            }),
    {
        if width == 0 || height == 0 || step == 0 {
            return None;
        }
        let columns: u64 = (width as u64 + step as u64 - 1) / (step as u64);
        let rows: u64 = (height as u64 + step as u64 - 1) / (step as u64);
        proof {
            lemma_ceil_div(width as int, step as int);
            lemma_ceil_div(height as int, step as int);
            assert(columns * rows <= 0xffff_ffff * 0xffff_ffff) by (nonlinear_arith)
                requires
                    0 <= columns <= 0xffff_ffff,
                    0 <= rows <= 0xffff_ffff,
            ;
        }
        if columns * rows > MAX_PARTICLES {
            return None;
        }
        Some(World { width, height, step })
    }

    /// The width in world units.
    pub fn width(&self) -> (w: u32)
        ensures
            w == self@.width,
    {
        self.width
    }

    /// The height in world units.
    pub fn height(&self) -> (h: u32)
        ensures
            h == self@.height,
    {
        self.height
    }

    /// The lattice step in world units.
    pub fn step(&self) -> (s: u32)
        ensures
            s == self@.step,
    {
        self.step
    }

    /// Lattice points along the x axis.
    pub fn columns(&self) -> (n: u64)
        ensures
            n == self@.columns(),
            1 <= n <= self@.width,
    {
        proof {
            use_type_invariant(self);
            lemma_ceil_div(self.width as int, self.step as int);
        }
        (self.width as u64 + self.step as u64 - 1) / (self.step as u64)
    }

    /// Lattice points along the y axis.
    pub fn rows(&self) -> (n: u64)
        ensures
            n == self@.rows(),
            1 <= n <= self@.height,
    {
        proof {
            use_type_invariant(self);
            lemma_ceil_div(self.height as int, self.step as int);
        }
        (self.height as u64 + self.step as u64 - 1) / (self.step as u64)
    }

    /// The right edge, in ticks.
    pub fn right(&self) -> (edge: i64)
        ensures
            edge == self@.right(),
    {
        (self.width as i64) * UNIT / 2
    }

    /// The left edge, in ticks.
    pub fn left(&self) -> (edge: i64)
        ensures
            edge == self@.left(),
    {
        -((self.width as i64) * UNIT / 2)
    }

    /// The top edge, in ticks.
    pub fn top(&self) -> (edge: i64)
        ensures
            edge == self@.top(),
    {
        (self.height as i64) * UNIT / 2
    }

    /// The bottom edge, in ticks.
    pub fn bottom(&self) -> (edge: i64)
        ensures
            edge == self@.bottom(),
    {
        -((self.height as i64) * UNIT / 2)
    }
}

impl Default for World {
    /// A world 2560 wide and 1440 high with a lattice step of 15.
    fn default() -> (world: World)
        ensures
            world@ == (Extent { width: 2560, height: 1440, step: 15 }),
    {
        assert(ceil_div(2560, 15) == 171 && ceil_div(1440, 15) == 96);
        World { width: 2560, height: 1440, step: 15 }
    }
}

} // verus!
