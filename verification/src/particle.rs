//! Particles: a position and an opacity.

use vstd::prelude::*;
use crate::scalar::UNIT;

verus! {

/// A colour with four channels, each in ticks: `UNIT` is full intensity.
#[derive(Clone, Copy, Debug, PartialEq, Eq, Structural)]
pub struct Color {
    pub red: i64,
    pub green: i64,
    pub blue: i64,
    pub alpha: i64,
}

/// One animated point. Its colour is white; only the opacity varies.
#[derive(Clone, Copy, Debug, PartialEq, Eq, Structural)]
pub struct Particle {
    /// Horizontal position in ticks, from the centre of the world.
    pub x: i64,
    /// Vertical position in ticks, from the centre of the world.
    pub y: i64,
    /// Opacity in ticks, as the noise field gave it: it may be negative.
    pub alpha: i64,
}

/// A particle as three integers.
pub struct ParticleView {
    pub x: int,
    pub y: int,
    pub alpha: int,
}

impl View for Particle {
    type V = ParticleView;

    open spec fn view(&self) -> ParticleView {
        ParticleView { x: self.x as int, y: self.y as int, alpha: self.alpha as int }
    }
}

/// The particles of `ps` as integers, in order.
pub open spec fn views(ps: Seq<Particle>) -> Seq<ParticleView> {
    Seq::new(ps.len(), |i: int| ps[i]@)
}

/// `alpha` as a renderer shows it: nothing below transparent, nothing above
/// opaque.
pub open spec fn visible(alpha: int) -> int {
    if alpha < 0 {
        0
    } else if alpha > UNIT {
        UNIT as int
    } else {
        alpha
    }
}

impl Particle {
    /// The particle's colour: white at the particle's own opacity.
    pub fn color(&self) -> (c: Color)
        ensures
            c == (Color { red: UNIT, green: UNIT, blue: UNIT, alpha: self.alpha }),
    {
        Color { red: UNIT, green: UNIT, blue: UNIT, alpha: self.alpha }
    }

    /// The opacity clamped to what can be shown, from 0 to `UNIT`.
    pub fn opacity(&self) -> (a: i64)
        ensures
            a == visible(self.alpha as int),
    {
        if self.alpha < 0 {
            0
        } else if self.alpha > UNIT {
            UNIT
        } else {
            self.alpha
        }
    }
}

/// Equal views mean equal particles.
pub proof fn lemma_views_injective(a: Seq<Particle>, b: Seq<Particle>)
    requires
        views(a) == views(b),
    ensures
        a == b,
{
    assert(a.len() == views(a).len());
    assert(b.len() == views(b).len());
    assert forall|i: int| 0 <= i < a.len() implies a[i] == b[i] by {
        assert(views(a)[i] == a[i]@);
        assert(views(b)[i] == b[i]@);
    }
    assert(a =~= b);
}

} // verus!
