//! Wraparound: a particle that leaves the world comes back on the
//! opposite edge.

use vstd::prelude::*;
use crate::particle::{views, Particle, ParticleView};
use crate::timer::{start_finished, StartTimer};
use crate::world::{Extent, World};

verus! {

/// A coordinate after wraparound between `low` and `high`: past the high
/// edge it lands on the low edge, past the low edge on the high edge, and
/// how far it overshot is forgotten.
pub open spec fn wrapped(v: int, low: int, high: int) -> int {
    if v > high {
        low
    } else if v < low {
        high
    } else {
        v
    }
}

/// A particle after wraparound in `world`. Its opacity is kept.
pub open spec fn wrapped_particle(p: ParticleView, world: Extent) -> ParticleView {
    ParticleView {
        x: wrapped(p.x, world.left(), world.right()),
        y: wrapped(p.y, world.bottom(), world.top()),
        alpha: p.alpha,
    }
}

/// All particles after wraparound in `world`.
pub open spec fn wrapped_all(ps: Seq<ParticleView>, world: Extent) -> Seq<ParticleView> {
    Seq::new(ps.len(), |i: int| wrapped_particle(ps[i], world))
}

/// What a frame's wraparound leaves of `ps` when the start timer shows
/// `start`: nothing moves before the start delay is over.
pub open spec fn wraparound_of(ps: Seq<ParticleView>, start: nat, world: Extent) -> Seq<
    ParticleView,
> {
    if start_finished(start) {
        wrapped_all(ps, world)
    } else {
        ps
    }
}

/// Whether a particle lies inside `world`, edges included.
pub open spec fn inside(p: ParticleView, world: Extent) -> bool {
    &&& world.left() <= p.x <= world.right()
    &&& world.bottom() <= p.y <= world.top()
}

/// A coordinate between the edges is left where it is, and a wrapped
/// coordinate lies between the edges.
pub proof fn lemma_wrapped_settles(v: int, low: int, high: int)
    requires
        low <= high,
    ensures
        low <= v <= high ==> wrapped(v, low, high) == v,
        low <= wrapped(v, low, high) <= high,
        wrapped(wrapped(v, low, high), low, high) == wrapped(v, low, high),
{
}

/// Past the high edge a coordinate lands on the low edge, and past the low
/// edge on the high edge: so it is one tick beyond either.
pub proof fn lemma_wrapped_crosses(v: int, low: int, high: int)
    requires
        low <= high,
    ensures
        v > high ==> wrapped(v, low, high) == low,
        v < low ==> wrapped(v, low, high) == high,
        wrapped(high + 1, low, high) == low,
        wrapped(low - 1, low, high) == high,
{
}

/// In a world, a particle beyond an edge, by one unit or by any distance,
/// lands on the opposite edge, along either axis; a particle inside the
/// world stays where it is; and after wraparound every particle is inside.
pub proof fn lemma_wraparound_boundary(p: ParticleView, world: Extent)
    requires
        world.valid(),
    ensures
        p.x > world.right() ==> wrapped_particle(p, world).x == world.left(),
        p.x < world.left() ==> wrapped_particle(p, world).x == world.right(),
        p.y > world.top() ==> wrapped_particle(p, world).y == world.bottom(),
        p.y < world.bottom() ==> wrapped_particle(p, world).y == world.top(),
        inside(p, world) ==> wrapped_particle(p, world) == p,
        inside(wrapped_particle(p, world), world),
{
}

/// Wraparound twice in a row, with nothing moved in between, leaves what
/// wraparound once leaves; particles that are inside the world are not
/// touched at all.
pub proof fn lemma_wraparound_idempotent(ps: Seq<ParticleView>, start: nat, world: Extent)
    requires
        world.valid(),
    ensures
        wraparound_of(wraparound_of(ps, start, world), start, world) == wraparound_of(
            ps,
            start,
            world,
        ),
        (forall|i: int| 0 <= i < ps.len() ==> inside(#[trigger] ps[i], world))
            ==> wraparound_of(ps, start, world) == ps,
{
    let once = wraparound_of(ps, start, world);
    let twice = wraparound_of(once, start, world);
    assert(twice =~= once) by {
        assert forall|i: int| 0 <= i < ps.len() implies twice[i] == once[i] by {
            lemma_wraparound_boundary(ps[i], world);
            lemma_wraparound_boundary(once[i], world);
        }
    }
    if forall|i: int| 0 <= i < ps.len() ==> inside(#[trigger] ps[i], world) {
        assert(once =~= ps);
    }
}

/// One coordinate after wraparound between `low` and `high`.
pub fn wrap_coordinate(v: i64, low: i64, high: i64) -> (w: i64)
    ensures
        w == wrapped(v as int, low as int, high as int),
{
    let mut w: i64 = v;
    if w > high {
        w = low;
    }
    if w < low {
        w = high;
    }
    w
}

/// Once the start delay is over, carries every particle that has left the
/// world back to the opposite edge. Before that it moves nothing.
pub fn wraparound(particles: &mut Vec<Particle>, start_timer: &StartTimer, world: &World)
    ensures
        views(final(particles)@) == wraparound_of(
            views(old(particles)@),
            start_timer@,
            world@,
        ),
{
    if !start_timer.finished() {
        assert(views(particles@) =~= views(old(particles)@));
        return ;
    }
    let left: i64 = world.left();
    let right: i64 = world.right();
    let bottom: i64 = world.bottom();
    let top: i64 = world.top();
    let count: usize = particles.len();
    let mut i: usize = 0;
    while i < count
        invariant
            i <= count,
            count == old(particles)@.len(),
            particles@.len() == count,
            left == world@.left(),
            right == world@.right(),
            bottom == world@.bottom(),
            top == world@.top(),
            forall|j: int| i <= j < count ==> particles@[j] == old(particles)@[j],
            forall|j: int|
                0 <= j < i ==> (#[trigger] particles@[j])@ == wrapped_particle(
                    old(particles)@[j]@,
                    world@,
                ),
        decreases count - i,
    {
        let p: Particle = particles[i];
        let y: i64 = wrap_coordinate(p.y, bottom, top);
        let x: i64 = wrap_coordinate(p.x, left, right);
        particles[i] = Particle { x, y, alpha: p.alpha };
        i = i + 1;
    }
    proof {
        assert(views(particles@) =~= wrapped_all(views(old(particles)@), world@));
    }
}

} // verus!
