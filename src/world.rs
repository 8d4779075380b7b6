//! The grid-state engine.
use vstd::prelude::*;

verus! {

/// A cell's state: `true` for alive, `false` for dead.
pub type Cell = bool;

/// The dead state.
pub const CELL_DEAD: Cell = false;

/// The alive state.
pub const CELL_ALIVE: Cell = true;

/// How coordinates outside the grid resolve.
#[derive(Debug, Clone, Copy, PartialEq, Eq, Structural)]
pub enum WorldBound {
    /// Outside the grid every cell is permanently dead.
    Plane,
    /// Coordinates wrap around both axes.
    Torus,
}

} // verus!

use crate::rules::{
    alive_neighbours, cell_index, get_index_with_cyclic_bound, in_grid, lemma_index_coords,
    lemma_index_in_grid, neighbour_state, next_generation, next_state,
};
use crate::storage::{bits_filled, bits_get, bits_len, bits_of, bits_set};
use bit_vec::BitVec;

verus! {

/// Why a world operation was refused.
#[derive(Debug, Clone, Copy, PartialEq, Eq, Structural)]
pub enum WorldError {
    /// The cell count given to the constructor is not `nx * ny`, or a
    /// dimension is zero.
    InvalidSize,
    /// A direct cell read named a coordinate outside the grid.
    OutOfBounds,
}

/// The abstract state of a world.
pub ghost struct WorldView {
    pub nx: nat,
    pub ny: nat,
    /// The cells in row-major order.
    pub cells: Seq<bool>,
    pub bound: WorldBound,
    pub generation: nat,
}

impl WorldView {
    /// A freshly built world: `Plane` boundary, generation zero.
    pub open spec fn initial(nx: nat, ny: nat, cells: Seq<bool>) -> WorldView {
        WorldView { nx, ny, cells, bound: WorldBound::Plane, generation: 0 }
    }

    /// The dimensions are positive, the cell sequence has exactly `nx * ny`
    /// entries, and a coordinate fits in an `isize`.
    pub open spec fn valid(self) -> bool {
        &&& self.nx > 0
        &&& self.ny > 0
        &&& self.cells.len() == self.nx * self.ny
        &&& self.nx * self.ny <= isize::MAX
    }

    /// The stored state of the in-grid coordinate `(ix, iy)`.
    pub open spec fn cell(self, ix: int, iy: int) -> bool {
        self.cells[cell_index(self.nx as int, ix, iy)]
    }

    /// What the possibly out-of-grid coordinate `(x, y)` resolves to under
    /// the current boundary mode.
    pub open spec fn neighbour(self, x: int, y: int) -> bool {
        neighbour_state(self.cells, self.nx as int, self.ny as int, self.bound, x, y)
    }

    /// The number of alive Moore neighbours of `(x, y)`.
    pub open spec fn alive_neighbours(self, x: int, y: int) -> nat {
        alive_neighbours(self.cells, self.nx as int, self.ny as int, self.bound, x, y)
    }

    /// The world one generation later.
    pub open spec fn next(self) -> WorldView {
        WorldView {
            cells: next_generation(self.cells, self.nx as int, self.ny as int, self.bound),
            generation: if self.generation < u64::MAX {
                self.generation + 1
            } else {
                self.generation
            },
            ..self
        }
    }
}

/// A Game of Life grid of fixed size. The current generation and a spare
/// buffer of the same size are kept side by side; each step fills the spare
/// buffer from the current one and then swaps the two.
#[derive(Debug)]
pub struct World {
    nx: usize,
    ny: usize,
    present: BitVec,
    spare: BitVec,
    bound: WorldBound,
    generation: u64,
}

impl View for World {
    type V = WorldView;

    closed spec fn view(&self) -> WorldView {
        WorldView {
            nx: self.nx as nat,
            ny: self.ny as nat,
            cells: bits_of(self.present),
            bound: self.bound,
            generation: self.generation as nat,
        }
    }
}

impl World {
    /// The world's internal invariant: its view is valid and the spare
    /// buffer has the same size as the grid.
    pub closed spec fn wf(&self) -> bool {
        &&& self@.valid()
        &&& bits_of(self.spare).len() == bits_of(self.present).len()
        &&& self.nx <= isize::MAX
        &&& self.ny <= isize::MAX
    }

    /// Creates a world of `nx` by `ny` cells from `cells` in row-major
    /// order, with the `Plane` boundary and generation zero. Fails with
    /// `InvalidSize` unless both dimensions are positive and `cells` holds
    /// exactly `nx * ny` entries. (A slice of cells never holds more than
    /// `isize::MAX` entries, which the precondition records.)
    pub fn new(nx: usize, ny: usize, cells: &[Cell]) -> (r: Result<World, WorldError>)
        requires
            cells@.len() <= isize::MAX,
        ensures
            r is Ok <==> (nx > 0 && ny > 0 && cells@.len() == nx * ny),
            r matches Err(e) ==> e == WorldError::InvalidSize,
            r matches Ok(w) ==> w.wf() && w@ == WorldView::initial(nx as nat, ny as nat, cells@),
    {
        let size = match nx.checked_mul(ny) {
            Some(size) => size,
            None => {
                return Err(WorldError::InvalidSize);
            },
        };
        if nx == 0 || ny == 0 || cells.len() != size {
            return Err(WorldError::InvalidSize);
        }
        assert(nx <= nx * ny && ny <= nx * ny) by (nonlinear_arith)
            requires
                nx > 0,
                ny > 0,
        ;
        let present = to_bitvec(cells);
        let spare = bits_filled(size, CELL_DEAD);
        Ok(World { nx, ny, present, spare, bound: WorldBound::Plane, generation: 0 })
    }

    /// Switches the boundary mode; cells and generation stay as they are.
    pub fn set_bound(&mut self, wb: WorldBound)
        requires
            old(self).wf(),
        ensures
            final(self).wf(),
            final(self)@ == (WorldView { bound: wb, ..old(self)@ }),
    {
        self.bound = wb;
    }

    /// Advances one generation: every cell takes its next state computed
    /// from the grid as it stood before the call, and the generation
    /// counter grows by one (it saturates at `u64::MAX`).
    pub fn next(&mut self)
        requires
            old(self).wf(),
        ensures
            final(self).wf(),
            final(self)@ == old(self)@.next(),
    {
        let ghost before = self@;
        let nx = self.nx;
        let ny = self.ny;
        let mut iy: usize = 0;
        while iy < ny
            invariant
                self.wf(),
                self@ == before,
                nx == self.nx,
                ny == self.ny,
                iy <= ny,
                forall|j: int|
                    0 <= j < iy * nx ==> #[trigger] bits_of(self.spare)[j]
                        == next_generation(before.cells, nx as int, ny as int, before.bound)[j],
            decreases ny - iy,
        {
            let mut ix: usize = 0;
            while ix < nx
                invariant
                    self.wf(),
                    self@ == before,
                    nx == self.nx,
                    ny == self.ny,
                    iy < ny,
                    ix <= nx,
                    forall|j: int|
                        0 <= j < iy * nx + ix ==> #[trigger] bits_of(self.spare)[j]
                            == next_generation(before.cells, nx as int, ny as int, before.bound)[j],
                decreases nx - ix,
            {
                proof {
                    lemma_index_in_grid(nx as int, ny as int, ix as int, iy as int);
                    lemma_index_coords(nx as int, ix as int, iy as int);
                }
                let cell = self.get_present_cell(ix, iy);
                let num_alive_neighbours = self.count_alive_neighbours(ix, iy);
                let next_cell = num_alive_neighbours == 3 || (num_alive_neighbours == 2
                    && cell == CELL_ALIVE);
                let i = self.cell_index(ix, iy);
                bits_set(&mut self.spare, i, next_cell);
                ix = ix + 1;
            }
            assert((iy + 1) * nx == iy * nx + nx) by (nonlinear_arith);
            iy = iy + 1;
        }
        assert(ny * nx == nx * ny) by (nonlinear_arith);
        assert(bits_of(self.spare) =~= next_generation(
            before.cells,
            nx as int,
            ny as int,
            before.bound,
        ));
        std::mem::swap(&mut self.present, &mut self.spare);
        self.generation = self.generation.saturating_add(1);
    }

    /// Flat index of the in-grid coordinate `(ix, iy)`.
    fn cell_index(&self, ix: usize, iy: usize) -> (r: usize)
        requires
            self.wf(),
            in_grid(self@.nx as int, self@.ny as int, ix as int, iy as int),
        ensures
            r == cell_index(self@.nx as int, ix as int, iy as int),
            r < self@.cells.len(),
    {
        proof {
            lemma_index_in_grid(self.nx as int, self.ny as int, ix as int, iy as int);
        }
        iy * self.nx + ix
    }

    /// The state of the cell at `(ix, iy)`, or `OutOfBounds` when the
    /// coordinate is outside the grid.
    pub fn get_cell(&self, ix: usize, iy: usize) -> (r: Result<Cell, WorldError>)
        requires
            self.wf(),
        ensures
            r is Ok <==> in_grid(self@.nx as int, self@.ny as int, ix as int, iy as int),
            r matches Ok(c) ==> c == self@.cell(ix as int, iy as int),
            r matches Err(e) ==> e == WorldError::OutOfBounds,
    {
        if ix < self.nx && iy < self.ny {
            Ok(self.get_present_cell(ix, iy))
        } else {
            Err(WorldError::OutOfBounds)
        }
    }

    /// The state of the in-grid cell at `(ix, iy)`.
    pub fn get_present_cell(&self, ix: usize, iy: usize) -> (r: Cell)
        requires
            self.wf(),
            in_grid(self@.nx as int, self@.ny as int, ix as int, iy as int),
        ensures
            r == self@.cell(ix as int, iy as int),
    {
        let i = self.cell_index(ix, iy);
        match bits_get(&self.present, i) {
            Some(cell) => cell,
            None => CELL_DEAD,
        }
    }

    /// What `(ix, iy)` resolves to under the boundary mode: under `Plane`
    /// a coordinate outside the grid is dead; under `Torus` each coordinate
    /// wraps around its axis.
    pub fn get_neighbour_cell(&self, ix: isize, iy: isize) -> (r: Cell)
        requires
            self.wf(),
        ensures
            r == self@.neighbour(ix as int, iy as int),
    {
        match self.bound {
            WorldBound::Plane => {
                if ix < 0 || iy < 0 || ix as usize >= self.nx || iy as usize >= self.ny {
                    CELL_DEAD
                } else {
                    self.get_present_cell(ix as usize, iy as usize)
                }
            },
            WorldBound::Torus => {
                let x = get_index_with_cyclic_bound(ix, self.nx as isize);
                let y = get_index_with_cyclic_bound(iy, self.ny as isize);
                self.get_present_cell(x as usize, y as usize)
            },
        }
    }

    /// The number of alive Moore neighbours of the in-grid cell `(ix, iy)`.
    pub fn count_alive_neighbours(&self, ix: usize, iy: usize) -> (r: u8)
        requires
            self.wf(),
            in_grid(self@.nx as int, self@.ny as int, ix as int, iy as int),
        ensures
            r == self@.alive_neighbours(ix as int, iy as int),
    {
        let x = ix as isize;
        let y = iy as isize;
        self.get_neighbour_cell(x - 1, y - 1) as u8 // NW
         + self.get_neighbour_cell(x, y - 1) as u8 // N
         + self.get_neighbour_cell(x + 1, y - 1) as u8 // NE
         + self.get_neighbour_cell(x - 1, y) as u8 // W
         + self.get_neighbour_cell(x + 1, y) as u8 // E
         + self.get_neighbour_cell(x - 1, y + 1) as u8 // SW
         + self.get_neighbour_cell(x, y + 1) as u8 // S
         + self.get_neighbour_cell(x + 1, y + 1) as u8  // SE
    }

    /// Width of the grid.
    pub fn nx(&self) -> (r: usize)
        ensures
            r == self@.nx,
    {
        self.nx
    }

    /// Height of the grid.
    pub fn ny(&self) -> (r: usize)
        ensures
            r == self@.ny,
    {
        self.ny
    }

    /// The current boundary mode.
    pub fn bound(&self) -> (r: WorldBound)
        ensures
            r == self@.bound,
    {
        self.bound
    }

    /// The number of generations computed so far.
    pub fn generation(&self) -> (r: u64)
        ensures
            r == self@.generation,
    {
        self.generation
    }

    /// All cells of the current generation, in row-major order.
    pub fn cells(&self) -> (r: Vec<Cell>)
        requires
            self.wf(),
        ensures
            r@ == self@.cells,
    {
        let n = bits_len(&self.present);
        let mut out: Vec<Cell> = Vec::new();
        let mut i: usize = 0;
        while i < n
            invariant
                n == self@.cells.len(),
                i <= n,
                out@ == self@.cells.subrange(0, i as int),
            decreases n - i,
        {
            let cell = match bits_get(&self.present, i) {
                Some(cell) => cell,
                None => CELL_DEAD,
            };
            out.push(cell);
            i = i + 1;
        }
        out
    }
}

/// Packs `cells` into a bit vector, one bit per cell, in the same order.
fn to_bitvec(cells: &[Cell]) -> (r: BitVec)
    ensures
        bits_of(r) == cells@,
{
    let n = cells.len();
    let mut bits = bits_filled(n, CELL_DEAD);
    let mut i: usize = 0;
    while i < n
        invariant
            n == cells@.len(),
            i <= n,
            bits_of(bits).len() == n,
            forall|j: int| 0 <= j < i ==> #[trigger] bits_of(bits)[j] == cells@[j],
        decreases n - i,
    {
        bits_set(&mut bits, i, cells[i]);
        i = i + 1;
    }
    assert(bits_of(bits) =~= cells@);
    bits
}

} // verus!
