//! Properties of the game that hold for every grid, proved over the model
//! that the contracts of `World` speak of.
use crate::rules::{
    alive_as_nat, alive_neighbours, cell_index, in_grid, lemma_index_in_grid,
    neighbour_state, next_generation,
};
use crate::world::{WorldBound, WorldView};
use vstd::prelude::*;

verus! {

/// A world built from valid input reads the input back: each in-grid
/// coordinate reads the entry of the input at its row-major index, and
/// that index lies inside the input.
pub proof fn lemma_new_reproduces_cells(nx: nat, ny: nat, cells: Seq<bool>)
    requires
        nx > 0,
        ny > 0,
        cells.len() == nx * ny,
    ensures
        forall|ix: int, iy: int|
            #![trigger WorldView::initial(nx, ny, cells).cell(ix, iy)]
            in_grid(nx as int, ny as int, ix, iy) ==> 0 <= cell_index(nx as int, ix, iy)
                < cells.len() && WorldView::initial(nx, ny, cells).cell(ix, iy) == cells[cell_index(
                nx as int,
                ix,
                iy,
            )],
{
    assert forall|ix: int, iy: int| in_grid(nx as int, ny as int, ix, iy) implies 0 <= cell_index(
        nx as int,
        ix,
        iy,
    ) < cells.len() by {
        lemma_index_in_grid(nx as int, ny as int, ix, iy);
    }
}

/// Under either boundary mode, a neighbour coordinate of an in-range grid
/// resolves to a cell stored inside the grid (or, under `Plane`, to dead).
proof fn lemma_neighbour_reads_grid(nx: int, ny: int, bound: WorldBound, x: int, y: int)
    requires
        nx > 0,
        ny > 0,
    ensures
        bound == WorldBound::Torus ==> 0 <= cell_index(nx, x % nx, y % ny) < nx * ny,
        bound == WorldBound::Plane && in_grid(nx, ny, x, y) ==> 0 <= cell_index(nx, x, y) < nx
            * ny,
{
    vstd::arithmetic::div_mod::lemma_mod_bound(x, nx);
    vstd::arithmetic::div_mod::lemma_mod_bound(y, ny);
    lemma_index_in_grid(nx, ny, x % nx, y % ny);
    if in_grid(nx, ny, x, y) {
        lemma_index_in_grid(nx, ny, x, y);
    }
}

/// An all-dead grid stays all dead for one generation, under either
/// boundary mode.
pub proof fn lemma_dead_grid_stays_dead(cells: Seq<bool>, nx: nat, ny: nat, bound: WorldBound)
    requires
        nx > 0,
        ny > 0,
        cells.len() == nx * ny,
        forall|i: int| 0 <= i < cells.len() ==> !(#[trigger] cells[i]),
    ensures
        next_generation(cells, nx as int, ny as int, bound).len() == cells.len(),
        forall|i: int|
            0 <= i < cells.len() ==> !(#[trigger] next_generation(
                cells,
                nx as int,
                ny as int,
                bound,
            )[i]),
{
    assert forall|x: int, y: int| !#[trigger] neighbour_state(cells, nx as int, ny as int, bound, x, y) by {
        lemma_neighbour_reads_grid(nx as int, ny as int, bound, x, y);
    }
}

/// Two worlds whose dimensions, cells and boundary mode agree have the same
/// grid after one generation and after two, whatever their generation
/// counters say.
pub proof fn lemma_next_deterministic(a: WorldView, b: WorldView)
    requires
        a.nx == b.nx,
        a.ny == b.ny,
        a.cells == b.cells,
        a.bound == b.bound,
    ensures
        a.next().cells == b.next().cells,
        a.next().next().cells == b.next().next().cells,
{
}

/// Under `Plane` a neighbour reads alive only where it also reads alive
/// under `Torus`: inside the grid both read the same cell.
proof fn lemma_plane_neighbour_implies_torus(cells: Seq<bool>, nx: int, ny: int, x: int, y: int)
    requires
        nx > 0,
        ny > 0,
    ensures
        neighbour_state(cells, nx, ny, WorldBound::Plane, x, y) ==> neighbour_state(
            cells,
            nx,
            ny,
            WorldBound::Torus,
            x,
            y,
        ),
{
    if in_grid(nx, ny, x, y) {
        vstd::arithmetic::div_mod::lemma_small_mod(x as nat, nx as nat);
        vstd::arithmetic::div_mod::lemma_small_mod(y as nat, ny as nat);
    }
}

/// The grid whose only alive cell is the corner `(0, 0)`.
pub open spec fn single_corner_cell(nx: nat, ny: nat) -> Seq<bool> {
    Seq::new(nx * ny, |i: int| i == 0)
}

/// With a single alive cell at the corner `(0, 0)`, the opposite corner
/// `(nx - 1, ny - 1)` counts fewer alive neighbours under `Plane` than
/// under `Torus`, where the grid wraps it next to `(0, 0)`.
pub proof fn lemma_corner_plane_fewer_than_torus(nx: nat, ny: nat)
    requires
        nx > 0,
        ny > 0,
    ensures
        alive_neighbours(
            single_corner_cell(nx, ny),
            nx as int,
            ny as int,
            WorldBound::Plane,
            nx - 1,
            ny - 1,
        ) < alive_neighbours(
            single_corner_cell(nx, ny),
            nx as int,
            ny as int,
            WorldBound::Torus,
            nx - 1,
            ny - 1,
        ),
{
    let cells = single_corner_cell(nx, ny);
    let x = nx - 1;
    let y = ny - 1;
    assert forall|dx: int, dy: int|
        alive_as_nat(#[trigger] neighbour_state(cells, nx as int, ny as int, WorldBound::Plane, x + dx, y + dy))
            <= alive_as_nat(neighbour_state(cells, nx as int, ny as int, WorldBound::Torus, x + dx, y + dy)) by {
        lemma_plane_neighbour_implies_torus(cells, nx as int, ny as int, x + dx, y + dy);
    }
    assert(0 < nx * ny) by (nonlinear_arith)
        requires
            nx > 0,
            ny > 0,
    ;
    vstd::arithmetic::div_mod::lemma_mod_self_0(nx as int);
    vstd::arithmetic::div_mod::lemma_mod_self_0(ny as int);
    assert(neighbour_state(cells, nx as int, ny as int, WorldBound::Torus, x + 1, y + 1));
    assert(!neighbour_state(cells, nx as int, ny as int, WorldBound::Plane, x + 1, y + 1));
    assert(x - 1 == x + -1 && y - 1 == y + -1 && x == x + 0 && y == y + 0);
}

} // verus!
