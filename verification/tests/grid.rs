use noise_animator::{setup_perlin, Color, Particle, World, MAX_PARTICLES, UNIT};

fn world(width: u32, height: u32, step: u32) -> World {
    World::new(width, height, step).expect("valid measures")
}

#[test]
fn default_grid_has_one_particle_for_each_column_and_row() {
    let grid = setup_perlin(&world(2560, 1440, 15));
    // ceil(2560 / 15) = 171, ceil(1440 / 15) = 96
    assert_eq!(grid.len(), 171 * 96);
    assert_eq!(grid.len(), 16416);
}

#[test]
fn default_grid_lies_inside_the_half_open_world() {
    let grid = setup_perlin(&world(2560, 1440, 15));
    for p in &grid {
        assert!(-1280 * UNIT <= p.x && p.x < 1280 * UNIT);
        assert!(-720 * UNIT <= p.y && p.y < 720 * UNIT);
    }
}

#[test]
fn grid_runs_row_by_row_from_the_bottom_left() {
    let grid = setup_perlin(&world(2560, 1440, 15));
    assert_eq!(grid[0], Particle { x: -1280 * UNIT, y: -720 * UNIT, alpha: UNIT });
    assert_eq!(grid[1], Particle { x: -1265 * UNIT, y: -720 * UNIT, alpha: UNIT });
    assert_eq!(grid[170], Particle { x: 1270 * UNIT, y: -720 * UNIT, alpha: UNIT });
    assert_eq!(grid[171], Particle { x: -1280 * UNIT, y: -705 * UNIT, alpha: UNIT });
    assert_eq!(grid[16415], Particle { x: 1270 * UNIT, y: 705 * UNIT, alpha: UNIT });
}

#[test]
fn grid_starts_fully_opaque_and_white() {
    let grid = setup_perlin(&world(2560, 1440, 15));
    for p in &grid {
        assert_eq!(p.alpha, UNIT);
        assert_eq!(p.opacity(), UNIT);
        assert_eq!(p.color(), Color { red: UNIT, green: UNIT, blue: UNIT, alpha: UNIT });
    }
}

#[test]
fn grid_of_measures_that_the_step_does_not_divide() {
    // columns at 0, 3, 6, 9 and rows at 0, 3, 6, around the centre (5, 3.5)
    let grid = setup_perlin(&world(10, 7, 3));
    assert_eq!(grid.len(), 4 * 3);
    let xs = [-5_000_000, -2_000_000, 1_000_000, 4_000_000];
    let ys = [-3_500_000, -500_000, 2_500_000];
    for (k, p) in grid.iter().enumerate() {
        assert_eq!(p.x, xs[k % 4]);
        assert_eq!(p.y, ys[k / 4]);
    }
}

#[test]
fn grid_with_a_step_wider_than_the_world_holds_one_particle() {
    let grid = setup_perlin(&world(10, 10, 100));
    assert_eq!(grid, vec![Particle { x: -5 * UNIT, y: -5 * UNIT, alpha: UNIT }]);
}

#[test]
fn grid_with_a_step_equal_to_the_width_holds_one_column() {
    let grid = setup_perlin(&world(8, 4, 8));
    assert_eq!(grid, vec![Particle { x: -4 * UNIT, y: -2 * UNIT, alpha: UNIT }]);
    let grid = setup_perlin(&world(9, 4, 8));
    assert_eq!(grid.len(), 2);
    assert_eq!(grid[1].x, 8 * UNIT - 4_500_000);
}

#[test]
fn grid_is_the_same_on_every_call() {
    let w = world(320, 200, 7);
    assert_eq!(setup_perlin(&w), setup_perlin(&w));
}

#[test]
fn world_keeps_its_measures() {
    let w = world(2560, 1440, 15);
    assert_eq!((w.width(), w.height(), w.step()), (2560, 1440, 15));
    assert_eq!((w.columns(), w.rows()), (171, 96));
}

#[test]
fn default_world_is_2560_by_1440_with_step_15() {
    let w = World::default();
    assert_eq!((w.width(), w.height(), w.step()), (2560, 1440, 15));
}

#[test]
fn world_edges_are_half_the_measures_from_the_centre() {
    let w = world(2560, 1440, 15);
    assert_eq!(w.left(), -1_280_000_000);
    assert_eq!(w.right(), 1_280_000_000);
    assert_eq!(w.bottom(), -720_000_000);
    assert_eq!(w.top(), 720_000_000);
    let odd = world(3, 5, 1);
    assert_eq!((odd.left(), odd.right()), (-1_500_000, 1_500_000));
    assert_eq!((odd.bottom(), odd.top()), (-2_500_000, 2_500_000));
}

#[test]
fn world_edges_of_the_widest_world_fit() {
    let w = world(u32::MAX, u32::MAX, u32::MAX);
    assert_eq!(w.right(), 4_294_967_295 * UNIT / 2);
    assert_eq!(w.left(), -(4_294_967_295 * UNIT / 2));
    assert_eq!((w.columns(), w.rows()), (1, 1));
}

#[test]
fn world_refuses_a_measure_of_zero() {
    assert!(World::new(0, 1440, 15).is_none());
    assert!(World::new(2560, 0, 15).is_none());
    assert!(World::new(2560, 1440, 0).is_none());
    assert!(World::new(1, 1, 1).is_some());
}

#[test]
fn world_refuses_more_particles_than_can_be_indexed() {
    // 4294967295 columns: 2147 rows stay within the limit, 2148 do not
    assert!(4_294_967_295u64 * 2147 <= MAX_PARTICLES);
    assert!(4_294_967_295u64 * 2148 > MAX_PARTICLES);
    assert!(World::new(u32::MAX, 2147, 1).is_some());
    assert!(World::new(u32::MAX, 2148, 1).is_none());
    assert!(World::new(u32::MAX, u32::MAX, 1).is_none());
}
