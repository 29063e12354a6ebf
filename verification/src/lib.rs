//! A noise field animator in fixed-point arithmetic.
//!
//! A grid of particles drifts through a smooth pseudo-random field: on every
//! animation tick each particle is displaced by noise sampled at its own
//! position, takes its opacity from the same field, and is carried back to
//! the opposite edge when it leaves the world rectangle.
//!
//! Every length, coordinate and noise value is a whole number of ticks,
//! [`UNIT`] of them to one world unit, and every time span a whole number of
//! nanoseconds. The field itself is evaluated by the caller: the library
//! says where to sample it and what to do with the values.

pub mod animation;
pub mod controller;
pub mod cursor;
pub mod field;
pub mod grid;
pub mod particle;
pub mod scalar;
pub mod timer;
pub mod world;
pub mod wrap;

pub use animation::{run_perlin, run_perlin_with, update_is_due, FieldState, FrameOutcome};
pub use controller::{Animation, AnimationController, FrameInput};
pub use cursor::{SequenceCursor, SEQ_STEP};
pub use field::{
    all_in_reach, move_particle, points_of, sample_points, update_particles, FramePoints,
    FrameSamples, ParticlePoints, ParticleSamples, PlanePoint, SpacePoint, COORD_LIMIT,
};
pub use grid::setup_perlin;
pub use particle::{Color, Particle, ParticleView};
pub use scalar::{Sample, UNIT};
pub use timer::{SeqTimer, StartTimer, ANIMATION_PERIOD_NANOS, START_DELAY_NANOS};
pub use world::{Extent, World, MAX_PARTICLES};
pub use wrap::{wrap_coordinate, wraparound};
