//! The noise-driven update rule: where the field is sampled, and what the
//! samples do to the particles.

use vstd::prelude::*;
use crate::cursor::SequenceCursor;
use crate::particle::{lemma_views_injective, views, Particle, ParticleView};
use crate::scalar::{floor_div, Sample, UNIT};
use crate::world::{Extent, World, MAX_PARTICLES};

verus! {

/// The greatest distance from the origin, in ticks, at which a particle can
/// still be moved and sampled without leaving the range of a coordinate.
pub const COORD_LIMIT: i64 = 900_000_000_000_000_000;

/// A point of the plane at which the field is sampled, in ticks.
#[derive(Clone, Copy, Debug, PartialEq, Eq, Structural)]
pub struct PlanePoint {
    pub x: i64,
    pub y: i64,
}

impl View for PlanePoint {
    type V = (int, int);

    open spec fn view(&self) -> (int, int) {
        (self.x as int, self.y as int)
    }
}

/// A point of space at which the field is sampled, in ticks.
#[derive(Clone, Copy, Debug, PartialEq, Eq, Structural)]
pub struct SpacePoint {
    pub x: i64,
    pub y: i64,
    pub z: i64,
}

impl View for SpacePoint {
    type V = (int, int, int);

    open spec fn view(&self) -> (int, int, int) {
        (self.x as int, self.y as int, self.z as int)
    }
}

/// The three points at which the field is sampled for one particle.
#[derive(Clone, Copy, Debug, PartialEq, Eq, Structural)]
pub struct ParticlePoints {
    /// For the horizontal displacement.
    pub shift_x: SpacePoint,
    /// For the vertical displacement.
    pub shift_y: SpacePoint,
    /// For the opacity.
    pub alpha: SpacePoint,
}

/// The three sample points of one particle as integers.
pub struct ParticlePointsView {
    pub shift_x: (int, int, int),
    pub shift_y: (int, int, int),
    pub alpha: (int, int, int),
}

impl View for ParticlePoints {
    type V = ParticlePointsView;

    open spec fn view(&self) -> ParticlePointsView {
        ParticlePointsView {
            shift_x: self.shift_x@,
            shift_y: self.shift_y@,
            alpha: self.alpha@,
        }
    }
}

/// Every point at which the field is sampled for one animation tick.
#[derive(Clone, Debug)]
pub struct FramePoints {
    /// For the horizontal part of the force on all particles.
    pub force_x: PlanePoint,
    /// For the vertical part of the force on all particles.
    pub force_y: PlanePoint,
    /// For each particle in turn.
    pub particles: Vec<ParticlePoints>,
}

/// The field's values at the three sample points of one particle.
#[derive(Clone, Copy, Debug)]
pub struct ParticleSamples {
    pub shift_x: Sample,
    pub shift_y: Sample,
    pub alpha: Sample,
}

/// The field's values at every sample point of one animation tick.
#[derive(Clone, Debug)]
pub struct FrameSamples {
    pub force_x: Sample,
    pub force_y: Sample,
    pub particles: Vec<ParticleSamples>,
}

/// Whether a particle is close enough to the origin to be moved and sampled.
pub open spec fn in_reach(p: ParticleView) -> bool {
    &&& -COORD_LIMIT <= p.x <= COORD_LIMIT
    &&& -COORD_LIMIT <= p.y <= COORD_LIMIT
}

/// Where the force on all particles is sampled: at the cursor, on the
/// lines `y = 0` and `y = 1`.
pub open spec fn force_points(seq: int) -> ((int, int), (int, int)) {
    ((seq, 0), (seq, UNIT as int))
}

/// Where the field is sampled for the particle `p` with index `index`.
///
/// The two displacement points differ in more than the axis: the
/// horizontal one varies `x` with the cursor in the second place, the
/// vertical one varies `y` with the cursor in the first place, and both
/// take the index as third coordinate. The opacity is sampled at the
/// position scaled down by a tenth of the world's measures, rounded down to
/// a whole tick, with the cursor as third coordinate.
pub open spec fn particle_points(
    world: Extent,
    p: ParticleView,
    seq: int,
    index: int,
) -> ParticlePointsView {
    ParticlePointsView {
        shift_x: (p.x, seq, index * UNIT),
        shift_y: (seq, p.y, index * UNIT),
        alpha: ((10 * p.x) / world.width, (10 * p.y) / world.height, seq),
    }
}

/// The displacement along one axis: one and a half times the particle's
/// own sample, rounded down to a whole tick, and twice the force sample.
pub open spec fn drift(sample: int, force: int) -> int {
    (3 * sample) / 2 + 2 * force
}

/// The particle `p` after one animation tick: displaced along both axes,
/// its opacity the opacity sample as it is.
pub open spec fn moved(
    p: ParticleView,
    force_x: int,
    force_y: int,
    samples: ParticleSamples,
) -> ParticleView {
    ParticleView {
        x: p.x + drift(samples.shift_x@, force_x),
        y: p.y + drift(samples.shift_y@, force_y),
        alpha: samples.alpha@,
    }
}

/// All particles after one animation tick, each moved by its own samples
/// and the common force.
pub open spec fn updated(ps: Seq<ParticleView>, samples: FrameSamples) -> Seq<ParticleView>
    recommends
        ps.len() == samples.particles@.len(),
{
    Seq::new(
        ps.len(),
        |i: int| moved(ps[i], samples.force_x@, samples.force_y@, samples.particles@[i]),
    )
}

/// Whether `points` are the sample points of `ps` at the cursor `seq`.
pub open spec fn are_points_of(
    points: FramePoints,
    world: Extent,
    ps: Seq<ParticleView>,
    seq: int,
) -> bool {
    &&& (points.force_x@, points.force_y@) == force_points(seq)
    &&& points.particles@.len() == ps.len()
    &&& forall|i: int|
        0 <= i < ps.len() ==> (#[trigger] points.particles@[i])@ == particle_points(
            world,
            ps[i],
            seq,
            i,
        )
}

/// Whether every particle of `particles` is in reach, so that all of them
/// can be moved and sampled.
pub fn all_in_reach(particles: &Vec<Particle>) -> (ok: bool)
    ensures
        ok == (forall|i: int| 0 <= i < particles@.len() ==> in_reach(#[trigger] particles@[i]@)),
{
    let mut i: usize = 0;
    while i < particles.len()
        invariant
            i <= particles@.len(),
            forall|j: int| 0 <= j < i ==> in_reach(#[trigger] particles@[j]@),
        decreases particles@.len() - i,
    {
        let p: &Particle = &particles[i];
        if p.x < -COORD_LIMIT || p.x > COORD_LIMIT || p.y < -COORD_LIMIT || p.y > COORD_LIMIT {
            assert(!in_reach(particles@[i as int]@));
            return false;
        }
        i = i + 1;
    }
    true
}

/// A particle inside a world is in reach.
pub proof fn lemma_inside_is_in_reach(p: ParticleView, world: Extent)
    requires
        world.valid(),
        world.left() <= p.x <= world.right(),
        world.bottom() <= p.y <= world.top(),
    ensures
        in_reach(p),
{
}

/// The sample points of one particle.
pub fn points_of(world: &World, p: &Particle, seq: &SequenceCursor, index: usize) -> (points:
    ParticlePoints)
    requires
        in_reach(p@),
        index <= MAX_PARTICLES,
    ensures
        points@ == particle_points(world@, p@, seq@, index as int),
{
    proof {
        use_type_invariant(world);
    }
    let at: i64 = seq.value();
    let rank: i64 = (index as i64) * UNIT;
    ParticlePoints {
        shift_x: SpacePoint { x: p.x, y: at, z: rank },
        shift_y: SpacePoint { x: at, y: p.y, z: rank },
        alpha: SpacePoint {
            x: floor_div(10 * p.x, world.width() as i64),
            y: floor_div(10 * p.y, world.height() as i64),
            z: at,
        },
    }
}

/// Every point at which the field must be sampled before the particles
/// can make their next move.
pub fn sample_points(world: &World, particles: &Vec<Particle>, seq: &SequenceCursor) -> (points:
    FramePoints)
    requires
        particles@.len() <= MAX_PARTICLES,
        forall|i: int| 0 <= i < particles@.len() ==> in_reach(#[trigger] particles@[i]@),
    ensures
        are_points_of(points, world@, views(particles@), seq@),
{
    let at: i64 = seq.value();
    let mut list: Vec<ParticlePoints> = Vec::new();
    let mut i: usize = 0;
    while i < particles.len()
        invariant
            i <= particles@.len() <= MAX_PARTICLES,
            forall|j: int| 0 <= j < particles@.len() ==> in_reach(#[trigger] particles@[j]@),
            list@.len() == i,
            forall|j: int|
                0 <= j < i ==> (#[trigger] list@[j])@ == particle_points(
                    world@,
                    particles@[j]@,
                    seq@,
                    j,
                ),
        decreases particles@.len() - i,
    {
        let points: ParticlePoints = points_of(world, &particles[i], seq, i);
        list.push(points);
        i = i + 1;
    }
    FramePoints {
        force_x: PlanePoint { x: at, y: 0 },
        force_y: PlanePoint { x: at, y: UNIT },
        particles: list,
    }
}

/// Moves one particle by its samples and the common force.
pub fn move_particle(
    p: &Particle,
    force_x: &Sample,
    force_y: &Sample,
    samples: &ParticleSamples,
) -> (after: Particle)
    requires
        in_reach(p@),
    ensures
        after@ == moved(p@, force_x@, force_y@, *samples),
{
    let dx: i64 = floor_div(3 * samples.shift_x.ticks(), 2) + 2 * force_x.ticks();
    let dy: i64 = floor_div(3 * samples.shift_y.ticks(), 2) + 2 * force_y.ticks();
    Particle { x: p.x + dx, y: p.y + dy, alpha: samples.alpha.ticks() }
}

/// Moves every particle by its own samples and the common force, each
/// sample point having been taken at the particle's position before the
/// move. Where there is not one set of samples for each particle, nothing
/// moves and the answer is `false`.
pub fn update_particles(particles: &mut Vec<Particle>, samples: &FrameSamples) -> (done: bool)
    requires
        forall|i: int| 0 <= i < old(particles)@.len() ==> in_reach(#[trigger] old(particles)@[i]@),
    ensures
        done == (old(particles)@.len() == samples.particles@.len()),
        done ==> views(final(particles)@) == updated(views(old(particles)@), *samples),
        !done ==> final(particles)@ == old(particles)@,
{
    let count: usize = particles.len();
    if samples.particles.len() != count {
        return false;
    }
    let mut i: usize = 0;
    while i < count
        invariant
            i <= count,
            count == old(particles)@.len(),
            particles@.len() == count,
            samples.particles@.len() == count,
            forall|j: int| i <= j < count ==> particles@[j] == old(particles)@[j],
            forall|j: int| 0 <= j < count ==> in_reach(#[trigger] old(particles)@[j]@),
            forall|j: int|
                0 <= j < i ==> (#[trigger] particles@[j])@ == moved(
                    old(particles)@[j]@,
                    samples.force_x@,
                    samples.force_y@,
                    samples.particles@[j],
                ),
        decreases count - i,
    {
        let after: Particle = move_particle(
            &particles[i],
            &samples.force_x,
            &samples.force_y,
            &samples.particles[i],
        );
        particles[i] = after;
        i = i + 1;
    }
    proof {
        assert(views(particles@) =~= updated(views(old(particles)@), *samples));
    }
    true
}

/// The update rule is a function of its inputs: from the same particles
/// and the same samples it reaches the same particles, field by field.
pub proof fn lemma_update_rule_deterministic(
    before: Seq<Particle>,
    samples: FrameSamples,
    first: Seq<Particle>,
    second: Seq<Particle>,
)
    requires
        views(first) == updated(views(before), samples),
        views(second) == updated(views(before), samples),
    ensures
        first == second,
{
    lemma_views_injective(first, second);
}

} // verus!
