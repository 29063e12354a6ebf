//! The starting grid: one particle on every lattice point.

use vstd::prelude::*;
use vstd::arithmetic::div_mod::lemma_fundamental_div_mod_converse;
use crate::particle::{views, Particle, ParticleView};
use crate::scalar::{ceil_div, UNIT};
use crate::world::{lemma_ceil_div, Extent, World};

verus! {

/// The particle on lattice point `k`, counted row by row from the bottom
/// left: column `k % columns`, row `k / columns`, each `step` apart, the
/// whole centred on the origin and fully opaque.
pub open spec fn lattice_point(world: Extent, k: int) -> ParticleView {
    ParticleView {
        x: (k % world.columns()) * world.step * UNIT - world.right(),
        y: (k / world.columns()) * world.step * UNIT - world.top(),
        alpha: UNIT as int,
    }
}

/// The starting grid of `world`.
pub open spec fn lattice(world: Extent) -> Seq<ParticleView> {
    Seq::new(world.count() as nat, |k: int| lattice_point(world, k))
}

/// In row `row` and column `col` the lattice index splits back into both.
proof fn lemma_index_splits(row: int, col: int, columns: int)
    requires
        0 <= row,
        0 <= col < columns,
    ensures
        (row * columns + col) / columns == row,
        (row * columns + col) % columns == col,
{
    assert(row * columns == columns * row) by (nonlinear_arith);
    lemma_fundamental_div_mod_converse(row * columns + col, columns, row, col);
}

/// A lattice coordinate stays below the measure it runs along.
proof fn lemma_offset_below(index: int, count: int, step: int, measure: int)
    requires
        0 <= index < count,
        step > 0,
        (count - 1) * step < measure,
    ensures
        0 <= index * step < measure,
        0 <= index * step * UNIT < measure * UNIT,
{
    assert(0 <= index * step <= (count - 1) * step) by (nonlinear_arith)
        requires
            0 <= index <= count - 1,
            step > 0,
    ;
    assert(index * step * UNIT < measure * UNIT) by (nonlinear_arith)
        requires
            index * step < measure,
    ;
    assert(0 <= index * step * UNIT) by (nonlinear_arith)
        requires
            0 <= index * step,
    ;
}

/// The starting grid has one particle for each pair of a column and a row,
/// `ceil(width / step) * ceil(height / step)` in all, and every one of them
/// lies inside the world: from the left edge up to, but not on, the right
/// edge, and from the bottom edge up to, but not on, the top edge.
pub proof fn lemma_grid_fills_world(world: Extent)
    requires
        world.valid(),
    ensures
        lattice(world).len() == ceil_div(world.width, world.step) * ceil_div(
            world.height,
            world.step,
        ),
        forall|k: int|
            0 <= k < lattice(world).len() ==> {
                &&& world.left() <= (#[trigger] lattice(world)[k]).x < world.right()
                &&& world.bottom() <= lattice(world)[k].y < world.top()
            },
{
    let columns = world.columns();
    let rows = world.rows();
    lemma_ceil_div(world.width, world.step);
    lemma_ceil_div(world.height, world.step);
    assert(columns * rows >= 0) by (nonlinear_arith)
        requires
            columns >= 1,
            rows >= 1,
    ;
    assert forall|k: int| 0 <= k < lattice(world).len() implies {
        &&& world.left() <= (#[trigger] lattice(world)[k]).x < world.right()
        &&& world.bottom() <= lattice(world)[k].y < world.top()
    } by {
        let col = k % columns;
        let row = k / columns;
        assert(0 <= col < columns && 0 <= row < rows) by (nonlinear_arith)
            requires
                0 <= k < columns * rows,
                columns >= 1,
                col == k % columns,
                row == k / columns,
        ;
        lemma_offset_below(col, columns, world.step, world.width);
        lemma_offset_below(row, rows, world.step, world.height);
        assert(lattice(world)[k] == lattice_point(world, k));
    }
}

/// Neighbours on the lattice are one step apart: along a row from one
/// column to the next, and from one row to the row above it.
pub proof fn lemma_lattice_spacing(world: Extent, k: int)
    requires
        world.valid(),
        0 <= k < world.count(),
    ensures
        k % world.columns() + 1 < world.columns() ==> {
            &&& lattice_point(world, k + 1).x == lattice_point(world, k).x + world.step * UNIT
            &&& lattice_point(world, k + 1).y == lattice_point(world, k).y
        },
        k + world.columns() < world.count() ==> {
            &&& lattice_point(world, k + world.columns()).x == lattice_point(world, k).x
            &&& lattice_point(world, k + world.columns()).y == lattice_point(world, k).y
                + world.step * UNIT
        },
{
    let columns = world.columns();
    lemma_ceil_div(world.width, world.step);
    let col = k % columns;
    let row = k / columns;
    assert(k == row * columns + col && 0 <= col < columns && 0 <= row) by (nonlinear_arith)
        requires
            0 <= k,
            columns >= 1,
            col == k % columns,
            row == k / columns,
    ;
    if col + 1 < columns {
        lemma_index_splits(row, col + 1, columns);
        assert((col + 1) * world.step * UNIT == col * world.step * UNIT + world.step * UNIT)
            by (nonlinear_arith);
    }
    if k + columns < world.count() {
        assert((row + 1) * columns + col == k + columns) by (nonlinear_arith)
            requires
                k == row * columns + col,
        ;
        lemma_index_splits(row + 1, col, columns);
        assert((row + 1) * world.step * UNIT == row * world.step * UNIT + world.step * UNIT)
            by (nonlinear_arith);
    }
}

/// Lays out the starting grid: a particle on every lattice point of
/// `world`, row by row, each fully opaque.
pub fn setup_perlin(world: &World) -> (grid: Vec<Particle>)
    ensures
        views(grid@) == lattice(world@),
{
    let columns: u64 = world.columns();
    let rows: u64 = world.rows();
    let step: i64 = world.step() as i64;
    let right: i64 = world.right();
    let top: i64 = world.top();
    proof {
        use_type_invariant(world);
        lemma_ceil_div(world@.width, world@.step);
        lemma_ceil_div(world@.height, world@.step);
    }
    let mut grid: Vec<Particle> = Vec::new();
    let mut row: u64 = 0;
    while row < rows
        invariant
            row <= rows,
            columns == world@.columns(),
            rows == world@.rows(),
            step == world@.step,
            right == world@.right(),
            top == world@.top(),
            0 < world@.step <= u32::MAX,
            0 < world@.width <= u32::MAX,
            0 < world@.height <= u32::MAX,
            (columns - 1) * world@.step < world@.width,
            (rows - 1) * world@.step < world@.height,
            1 <= columns,
            grid@.len() == row * columns,
            forall|k: int| 0 <= k < grid@.len() ==> grid@[k]@ == lattice_point(world@, k),
        decreases rows - row,
    {
        proof {
            lemma_offset_below(row as int, rows as int, step as int, world@.height);
        }
        let y: i64 = (row as i64) * step * UNIT - top;
        let mut col: u64 = 0;
        while col < columns
            invariant
                col <= columns,
                row < rows,
                columns == world@.columns(),
                rows == world@.rows(),
                step == world@.step,
                right == world@.right(),
                0 < world@.step <= u32::MAX,
                0 < world@.width <= u32::MAX,
                (columns - 1) * world@.step < world@.width,
                y == row * world@.step * UNIT - world@.top(),
                grid@.len() == row * columns + col,
                forall|k: int| 0 <= k < grid@.len() ==> grid@[k]@ == lattice_point(world@, k),
            decreases columns - col,
        {
            proof {
                lemma_offset_below(col as int, columns as int, step as int, world@.width);
                lemma_index_splits(row as int, col as int, columns as int);
            }
            let x: i64 = (col as i64) * step * UNIT - right;
            grid.push(Particle { x, y, alpha: UNIT });
            col = col + 1;
        }
        proof {
            assert((row + 1) * columns == row * columns + columns) by (nonlinear_arith);
        }
        row = row + 1;
    }
    proof {
        assert(rows * columns == world@.count()) by (nonlinear_arith)
            requires
                rows == world@.rows(),
                columns == world@.columns(),
                world@.count() == world@.columns() * world@.rows(),
        ;
        assert(views(grid@) =~= lattice(world@));
    }
    grid
}

} // verus!
