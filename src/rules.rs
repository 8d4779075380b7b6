//! The mathematical model of the game: how a coordinate maps to a cell, how
//! a neighbour coordinate resolves under each boundary mode, and the
//! transition rule.
use crate::world::{Cell, WorldBound, CELL_DEAD};
use vstd::prelude::*;

verus! {

/// Flat row-major index of the in-grid coordinate `(ix, iy)`.
pub open spec fn cell_index(nx: int, ix: int, iy: int) -> int {
    iy * nx + ix
}

/// Whether `(x, y)` lies inside an `nx` by `ny` grid.
pub open spec fn in_grid(nx: int, ny: int, x: int, y: int) -> bool {
    0 <= x < nx && 0 <= y < ny
}

/// The state that the possibly out-of-grid coordinate `(x, y)` resolves to.
/// Under `Plane` everything outside the grid is dead; under `Torus` each
/// coordinate wraps by the proper (non-negative) modulo of its axis.
pub open spec fn neighbour_state(
    cells: Seq<bool>,
    nx: int,
    ny: int,
    bound: WorldBound,
    x: int,
    y: int,
) -> bool {
    match bound {
        WorldBound::Plane => in_grid(nx, ny, x, y) && cells[cell_index(nx, x, y)],
        WorldBound::Torus => cells[cell_index(nx, x % nx, y % ny)],
    }
}

/// One for an alive cell, zero for a dead one.
pub open spec fn alive_as_nat(b: bool) -> nat {
    if b {
        1
    } else {
        0
    }
}

/// The number of alive cells among the eight Moore neighbours of `(x, y)`.
pub open spec fn alive_neighbours(
    cells: Seq<bool>,
    nx: int,
    ny: int,
    bound: WorldBound,
    x: int,
    y: int,
) -> nat {
    alive_as_nat(neighbour_state(cells, nx, ny, bound, x - 1, y - 1))
        + alive_as_nat(neighbour_state(cells, nx, ny, bound, x, y - 1))
        + alive_as_nat(neighbour_state(cells, nx, ny, bound, x + 1, y - 1))
        + alive_as_nat(neighbour_state(cells, nx, ny, bound, x - 1, y))
        + alive_as_nat(neighbour_state(cells, nx, ny, bound, x + 1, y))
        + alive_as_nat(neighbour_state(cells, nx, ny, bound, x - 1, y + 1))
        + alive_as_nat(neighbour_state(cells, nx, ny, bound, x, y + 1))
        + alive_as_nat(neighbour_state(cells, nx, ny, bound, x + 1, y + 1))
}

/// The transition rule: a cell is alive in the next generation iff it has
/// exactly three alive neighbours, or it is alive and has exactly two.
pub open spec fn next_state(current: bool, count: nat) -> bool {
    count == 3 || (count == 2 && current)
}

/// The whole next generation of a row-major `nx`-wide grid, every cell
/// computed from the grid as it stands.
pub open spec fn next_generation(cells: Seq<bool>, nx: int, ny: int, bound: WorldBound) -> Seq<
    bool,
> {
    Seq::new(
        cells.len(),
        |i: int|
            next_state(cells[i], alive_neighbours(cells, nx, ny, bound, i % nx, i / nx)),
    )
}

/// Whether `(x, y)` is off the outermost ring of an `nx` by `ny` grid.
pub open spec fn is_interior(nx: int, ny: int, x: int, y: int) -> bool {
    1 <= x < nx - 1 && 1 <= y < ny - 1
}

/// Wraps `ix` into `[0, bound)` by the proper modulo, so that negative
/// coordinates land at the high end of the axis.
pub fn get_index_with_cyclic_bound(ix: isize, bound: isize) -> (r: isize)
    requires
        bound > 0,
    ensures
        r == ix as int % bound as int,
        0 <= r < bound,
{
    if 0 <= ix && ix < bound {
        proof {
            vstd::arithmetic::div_mod::lemma_small_mod(ix as nat, bound as nat);
        }
        ix
    } else {
        match ix.checked_rem_euclid(bound) {
            Some(r) => r,
            None => 0,
        }
    }
}

/// The column and row of the flat index `iy * nx + ix` are `ix` and `iy`.
pub(crate) proof fn lemma_index_coords(nx: int, ix: int, iy: int)
    requires
        0 <= ix < nx,
        0 <= iy,
    ensures
        cell_index(nx, ix, iy) % nx == ix,
        cell_index(nx, ix, iy) / nx == iy,
{
    vstd::arithmetic::div_mod::lemma_fundamental_div_mod_converse(cell_index(nx, ix, iy), nx, iy, ix);
}

/// The flat index of an in-grid coordinate lies inside the grid's storage.
pub(crate) proof fn lemma_index_in_grid(nx: int, ny: int, ix: int, iy: int)
    requires
        in_grid(nx, ny, ix, iy),
    ensures
        0 <= cell_index(nx, ix, iy) < nx * ny,
        cell_index(nx, ix, iy) + 1 <= (iy + 1) * nx,
{
    assert(0 <= iy * nx + ix < nx * ny) by (nonlinear_arith)
        requires
            0 <= ix < nx,
            0 <= iy < ny,
    ;
    assert((iy + 1) * nx == iy * nx + nx) by (nonlinear_arith);
}

/// Copies a row-major `nx` by `ny` grid with its outermost ring cleared to
/// dead, as used by storage that keeps a permanently dead border.
pub fn process_boundary_cells(nx: usize, ny: usize, cells: &[Cell]) -> (r: Vec<Cell>)
    requires
        cells@.len() == nx * ny,
    ensures
        r@.len() == cells@.len(),
        forall|i: int|
            0 <= i < r@.len() ==> #[trigger] r@[i] == (is_interior(
                nx as int,
                ny as int,
                i % nx as int,
                i / nx as int,
            ) && cells@[i]),
{
    let n = cells.len();
    let mut processed_cells: Vec<Cell> = Vec::new();
    let mut iy: usize = 0;
    while iy < ny
        invariant
            iy <= ny,
            n == cells@.len() == nx * ny,
            processed_cells@.len() == iy * nx,
            forall|j: int|
                0 <= j < processed_cells@.len() ==> #[trigger] processed_cells@[j] == (
                is_interior(nx as int, ny as int, j % nx as int, j / nx as int) && cells@[j]),
        decreases ny - iy,
    {
        let mut ix: usize = 0;
        while ix < nx
            invariant
                iy < ny,
                ix <= nx,
                n == cells@.len() == nx * ny,
                processed_cells@.len() == iy * nx + ix,
                forall|j: int|
                    0 <= j < processed_cells@.len() ==> #[trigger] processed_cells@[j] == (
                    is_interior(nx as int, ny as int, j % nx as int, j / nx as int) && cells@[j]),
            decreases nx - ix,
        {
            proof {
                lemma_index_in_grid(nx as int, ny as int, ix as int, iy as int);
                lemma_index_coords(nx as int, ix as int, iy as int);
            }
            let i = iy * nx + ix;
            let interior = 1 <= ix && ix + 1 < nx && 1 <= iy && iy + 1 < ny;
            let cell = if interior {
                cells[i]
            } else {
                CELL_DEAD
            };
            processed_cells.push(cell);
            ix = ix + 1;
        }
        assert((iy + 1) * nx == iy * nx + nx) by (nonlinear_arith);
        iy = iy + 1;
    }
    assert(ny * nx == nx * ny) by (nonlinear_arith);
    processed_cells
}

} // verus!
