use noise_animator::{
    all_in_reach, move_particle, points_of, sample_points, update_particles, Color, FrameSamples, Particle,
    ParticlePoints, ParticleSamples, PlanePoint, Sample, SequenceCursor, SpacePoint, World,
    COORD_LIMIT, UNIT,
};

fn default_world() -> World {
    World::new(2560, 1440, 15).expect("valid measures")
}

fn cursor_at(steps: u32) -> SequenceCursor {
    let mut cursor = SequenceCursor::new();
    for _ in 0..steps {
        cursor.advance_with(0);
    }
    cursor
}

fn samples(shift_x: i64, shift_y: i64, alpha: i64) -> ParticleSamples {
    ParticleSamples {
        shift_x: Sample::new(shift_x),
        shift_y: Sample::new(shift_y),
        alpha: Sample::new(alpha),
    }
}

#[test]
fn sample_keeps_a_value_in_the_noise_range() {
    assert_eq!(Sample::new(0).ticks(), 0);
    assert_eq!(Sample::new(123_456).ticks(), 123_456);
    assert_eq!(Sample::new(-999_999).ticks(), -999_999);
    assert_eq!(Sample::new(UNIT).ticks(), UNIT);
    assert_eq!(Sample::new(-UNIT).ticks(), -UNIT);
}

#[test]
fn sample_clamps_a_value_outside_the_noise_range() {
    assert_eq!(Sample::new(UNIT + 1).ticks(), UNIT);
    assert_eq!(Sample::new(-UNIT - 1).ticks(), -UNIT);
    assert_eq!(Sample::new(i64::MAX).ticks(), UNIT);
    assert_eq!(Sample::new(i64::MIN).ticks(), -UNIT);
}

#[test]
fn displacement_points_order_their_axes_differently() {
    let p = Particle { x: 123_000_000, y: -45_500_000, alpha: UNIT };
    let points = points_of(&default_world(), &p, &cursor_at(3), 7);
    // x varies in the first place, the cursor stands in the second
    assert_eq!(points.shift_x, SpacePoint { x: 123_000_000, y: 30_000, z: 7_000_000 });
    // the cursor stands in the first place, y varies in the second
    assert_eq!(points.shift_y, SpacePoint { x: 30_000, y: -45_500_000, z: 7_000_000 });
}

#[test]
fn opacity_point_is_the_position_over_a_tenth_of_the_world() {
    let p = Particle { x: 123_000_000, y: -45_500_000, alpha: UNIT };
    let points = points_of(&default_world(), &p, &cursor_at(3), 7);
    // 123 / 256 = 0.48046875 and -45.5 / 144 = -0.31597222.., rounded down
    assert_eq!(points.alpha, SpacePoint { x: 480_468, y: -315_973, z: 30_000 });
}

#[test]
fn opacity_point_rounds_toward_negative_infinity() {
    let world = default_world();
    let seq = SequenceCursor::new();
    let p = Particle { x: -1, y: 1, alpha: 0 };
    assert_eq!(points_of(&world, &p, &seq, 0).alpha, SpacePoint { x: -1, y: 0, z: 0 });
    let p = Particle { x: -256, y: -144, alpha: 0 };
    assert_eq!(points_of(&world, &p, &seq, 0).alpha, SpacePoint { x: -1, y: -1, z: 0 });
    let p = Particle { x: -257, y: 144, alpha: 0 };
    assert_eq!(points_of(&world, &p, &seq, 0).alpha, SpacePoint { x: -2, y: 1, z: 0 });
    let p = Particle { x: 255, y: 143, alpha: 0 };
    assert_eq!(points_of(&world, &p, &seq, 0).alpha, SpacePoint { x: 0, y: 0, z: 0 });
}

#[test]
fn opacity_point_at_the_world_edges_is_five_units_out() {
    let world = default_world();
    let seq = SequenceCursor::new();
    let p = Particle { x: world.right(), y: world.bottom(), alpha: 0 };
    assert_eq!(
        points_of(&world, &p, &seq, 0).alpha,
        SpacePoint { x: 5 * UNIT, y: -5 * UNIT, z: 0 }
    );
}

#[test]
fn points_at_the_limit_of_reach_fit() {
    let world = World::new(1, 1, 1).expect("valid measures");
    let p = Particle { x: COORD_LIMIT, y: -COORD_LIMIT, alpha: 0 };
    let points = points_of(&world, &p, &SequenceCursor::new(), 9_223_372_036_854);
    assert_eq!(points.alpha.x, 9_000_000_000_000_000_000);
    assert_eq!(points.alpha.y, -9_000_000_000_000_000_000);
    assert_eq!(points.shift_x.z, 9_223_372_036_854_000_000);
}

#[test]
fn force_is_sampled_at_the_cursor_on_two_lines() {
    let world = default_world();
    let points = sample_points(&world, &Vec::new(), &cursor_at(42));
    assert_eq!(points.force_x, PlanePoint { x: 420_000, y: 0 });
    assert_eq!(points.force_y, PlanePoint { x: 420_000, y: UNIT });
    assert!(points.particles.is_empty());
}

#[test]
fn every_particle_is_sampled_under_its_own_index() {
    let world = default_world();
    let seq = cursor_at(1);
    let particles = vec![
        Particle { x: 10 * UNIT, y: 20 * UNIT, alpha: UNIT },
        Particle { x: 10 * UNIT, y: 20 * UNIT, alpha: UNIT },
        Particle { x: -512 * UNIT, y: 288 * UNIT, alpha: 0 },
    ];
    let points = sample_points(&world, &particles, &seq);
    assert_eq!(points.particles.len(), 3);
    for (i, p) in particles.iter().enumerate() {
        assert_eq!(points.particles[i], points_of(&world, p, &seq, i));
    }
    // two particles in one place differ in the third coordinate only
    assert_eq!(points.particles[0].shift_x.z, 0);
    assert_eq!(points.particles[1].shift_x.z, UNIT);
    assert_eq!(points.particles[0].alpha, points.particles[1].alpha);
    assert_eq!(
        points.particles[2],
        ParticlePoints {
            shift_x: SpacePoint { x: -512 * UNIT, y: 10_000, z: 2 * UNIT },
            shift_y: SpacePoint { x: 10_000, y: 288 * UNIT, z: 2 * UNIT },
            alpha: SpacePoint { x: -2 * UNIT, y: 2 * UNIT, z: 10_000 },
        }
    );
}

#[test]
fn a_particle_moves_by_one_and_a_half_samples_and_two_forces() {
    let p = Particle { x: 100 * UNIT, y: -200 * UNIT, alpha: UNIT };
    let after = move_particle(
        &p,
        &Sample::new(500_000),
        &Sample::new(-250_000),
        &samples(200_000, -400_000, 333_333),
    );
    // dx = 0.2 * 1.5 + 0.5 * 2 = 1.3 and dy = -0.4 * 1.5 - 0.25 * 2 = -1.1
    assert_eq!(after, Particle { x: 101_300_000, y: -201_100_000, alpha: 333_333 });
}

#[test]
fn a_displacement_is_rounded_down_to_a_whole_tick() {
    let p = Particle { x: 0, y: 0, alpha: 0 };
    let rest = Sample::new(0);
    // 1.5 * 3 = 4.5 and 1.5 * -3 = -4.5
    let after = move_particle(&p, &rest, &rest, &samples(3, -3, 0));
    assert_eq!((after.x, after.y), (4, -5));
    let after = move_particle(&p, &rest, &rest, &samples(1, -1, 0));
    assert_eq!((after.x, after.y), (1, -2));
    let after = move_particle(&p, &rest, &rest, &samples(2, -2, 0));
    assert_eq!((after.x, after.y), (3, -3));
}

#[test]
fn the_largest_displacement_is_three_and_a_half_units() {
    let p = Particle { x: COORD_LIMIT, y: -COORD_LIMIT, alpha: 0 };
    let after = move_particle(
        &p,
        &Sample::new(UNIT),
        &Sample::new(-UNIT),
        &samples(UNIT, -UNIT, -UNIT),
    );
    assert_eq!(after.x, COORD_LIMIT + 3_500_000);
    assert_eq!(after.y, -COORD_LIMIT - 3_500_000);
    assert_eq!(after.alpha, -UNIT);
}

#[test]
fn opacity_is_the_sample_as_it_is_and_shown_clamped() {
    let p = Particle { x: 0, y: 0, alpha: UNIT };
    let rest = Sample::new(0);
    let after = move_particle(&p, &rest, &rest, &samples(0, 0, -700_000));
    assert_eq!(after.alpha, -700_000);
    assert_eq!(after.opacity(), 0);
    assert_eq!(
        after.color(),
        Color { red: UNIT, green: UNIT, blue: UNIT, alpha: -700_000 }
    );
    let after = move_particle(&p, &rest, &rest, &samples(0, 0, 250_000));
    assert_eq!(after.opacity(), 250_000);
    assert_eq!((Particle { x: 0, y: 0, alpha: UNIT + 5 }).opacity(), UNIT);
}

#[test]
fn all_particles_move_by_their_own_samples_and_the_common_force() {
    let mut particles = vec![
        Particle { x: 0, y: 0, alpha: UNIT },
        Particle { x: 5 * UNIT, y: 5 * UNIT, alpha: UNIT },
        Particle { x: -5 * UNIT, y: 7 * UNIT, alpha: UNIT },
    ];
    let frame = FrameSamples {
        force_x: Sample::new(100_000),
        force_y: Sample::new(-100_000),
        particles: vec![
            samples(0, 0, 0),
            samples(1_000_000, -1_000_000, 500_000),
            samples(-2, 2, -500_000),
        ],
    };
    assert!(update_particles(&mut particles, &frame));
    assert_eq!(
        particles,
        vec![
            Particle { x: 200_000, y: -200_000, alpha: 0 },
            Particle { x: 6_700_000, y: 3_300_000, alpha: 500_000 },
            Particle { x: -5_000_000 - 3 + 200_000, y: 7_000_000 + 3 - 200_000, alpha: -500_000 },
        ]
    );
}

#[test]
fn nothing_moves_without_one_set_of_samples_for_each_particle() {
    let before = vec![
        Particle { x: 0, y: 0, alpha: UNIT },
        Particle { x: 5 * UNIT, y: 5 * UNIT, alpha: UNIT },
    ];
    let mut particles = before.clone();
    let frame = FrameSamples {
        force_x: Sample::new(100_000),
        force_y: Sample::new(-100_000),
        particles: vec![samples(1, 1, 1)],
    };
    assert!(!update_particles(&mut particles, &frame));
    assert_eq!(particles, before);
    let frame = FrameSamples {
        force_x: Sample::new(100_000),
        force_y: Sample::new(-100_000),
        particles: vec![samples(1, 1, 1), samples(1, 1, 1), samples(1, 1, 1)],
    };
    assert!(!update_particles(&mut particles, &frame));
    assert_eq!(particles, before);
}

#[test]
fn the_update_rule_gives_the_same_result_for_the_same_inputs() {
    let before = vec![
        Particle { x: 17, y: -4, alpha: UNIT },
        Particle { x: 5 * UNIT, y: 5 * UNIT, alpha: UNIT },
    ];
    let frame = FrameSamples {
        force_x: Sample::new(-77_777),
        force_y: Sample::new(123_457),
        particles: vec![samples(999_999, -1, 3), samples(-333_333, 7, -9)],
    };
    let mut first = before.clone();
    let mut second = before.clone();
    assert!(update_particles(&mut first, &frame));
    assert!(update_particles(&mut second, &frame));
    assert_eq!(first, second);
    assert_eq!(first[0], Particle { x: 17 + 1_499_998 - 155_554, y: -4 - 2 + 246_914, alpha: 3 });
}

#[test]
fn particles_are_in_reach_up_to_the_limit() {
    let near = vec![
        Particle { x: 0, y: 0, alpha: 0 },
        Particle { x: COORD_LIMIT, y: -COORD_LIMIT, alpha: i64::MAX },
        Particle { x: -COORD_LIMIT, y: COORD_LIMIT, alpha: i64::MIN },
    ];
    assert!(all_in_reach(&near));
    assert!(all_in_reach(&Vec::new()));
    for far in [
        Particle { x: COORD_LIMIT + 1, y: 0, alpha: 0 },
        Particle { x: -COORD_LIMIT - 1, y: 0, alpha: 0 },
        Particle { x: 0, y: COORD_LIMIT + 1, alpha: 0 },
        Particle { x: 0, y: -COORD_LIMIT - 1, alpha: 0 },
    ] {
        let mut particles = near.clone();
        particles.push(far);
        assert!(!all_in_reach(&particles));
    }
}

#[test]
fn the_starting_grid_is_in_reach() {
    let widest = World::new(u32::MAX, 2, 1_000_000).expect("valid measures");
    assert!(all_in_reach(&noise_animator::setup_perlin(&widest)));
    assert!(all_in_reach(&noise_animator::setup_perlin(&default_world())));
}
