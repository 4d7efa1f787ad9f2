//! The board: one snapshot of the simulation.

use vstd::prelude::*;
use crate::cell::Cell;

verus! {

/// Number of columns of the board.
pub const WIDTH: usize = 300;

/// Number of rows of the board.
pub const HEIGHT: usize = 150;

/// The mathematical board: `HEIGHT` rows of `WIDTH` positions each, a
/// position holding the colour of its living cell or nothing.
pub type Grid = Seq<Seq<Option<Cell>>>;

/// Whether `(row, col)` is a position of the board.
pub open spec fn in_bounds(row: int, col: int) -> bool {
    0 <= row < HEIGHT && 0 <= col < WIDTH
}

/// Whether `grid` has the dimensions of the board.
pub open spec fn is_board(grid: Grid) -> bool {
    &&& grid.len() == HEIGHT
    &&& forall|row: int| 0 <= row < HEIGHT ==> (#[trigger] grid[row]).len() == WIDTH
}

/// What `grid` holds at `(row, col)`. Beyond the edges of the board there is
/// nothing: the board does not wrap around.
pub open spec fn cell_at(grid: Grid, row: int, col: int) -> Option<Cell> {
    if in_bounds(row, col) {
        grid[row][col]
    } else {
        None
    }
}

/// The board on which every position is dead.
pub open spec fn empty_grid() -> Grid {
    Seq::new(HEIGHT as nat, |row: int| Seq::new(WIDTH as nat, |col: int| None))
}

/// One generation of the simulation, stored row by row.
#[derive(Debug)]
pub struct Generation {
    cells: Vec<Option<Cell>>,
}

impl View for Generation {
    type V = Grid;

    closed spec fn view(&self) -> Grid {
        Seq::new(
            HEIGHT as nat,
            |row: int| Seq::new(WIDTH as nat, |col: int| self.cells@[row * WIDTH + col]),
        )
    }
}

impl Clone for Generation {
    /// A second generation that holds the same cells.
    fn clone(&self) -> (copy: Self)
        ensures
            copy@ == self@,
    {
        proof {
            use_type_invariant(self);
        }
        let copy = Generation { cells: self.cells.clone() };
        assert(copy@ =~~= self@);
        copy
    }
}

impl Generation {
    #[verifier::type_invariant]
    spec fn well_formed(self) -> bool {
        self.cells.len() == WIDTH * HEIGHT
    }

    /// The view of a generation always has the dimensions of the board.
    pub proof fn lemma_view_is_board(self)
        ensures
            is_board(self@),
    {
    }

    /// The generation in which every position is dead.
    pub fn empty() -> (generation: Self)
        ensures
            generation@ == empty_grid(),
    {
        let mut cells: Vec<Option<Cell>> = Vec::with_capacity(WIDTH * HEIGHT);
        while cells.len() < WIDTH * HEIGHT
            invariant
                cells.len() <= WIDTH * HEIGHT,
                forall|k: int| 0 <= k < cells.len() ==> cells[k] is None,
            decreases WIDTH * HEIGHT - cells.len(),
        {
            cells.push(None);
        }
        let generation = Generation { cells };
        assert(generation@ =~~= empty_grid());
        generation
    }

    /// What the position `(row, col)` holds.
    pub fn get(&self, row: usize, col: usize) -> (cell: Option<Cell>)
        requires
            row < HEIGHT,
            col < WIDTH,
        ensures
            cell == self@[row as int][col as int],
    {
        proof {
            use_type_invariant(self);
        }
        self.cells[row * WIDTH + col]
    }

    /// Replaces what the position `(row, col)` holds by `cell`, and leaves
    /// every other position as it was.
    pub fn set(&mut self, row: usize, col: usize, cell: Option<Cell>)
        requires
            row < HEIGHT,
            col < WIDTH,
        ensures
            final(self)@ == old(self)@.update(
                row as int,
                old(self)@[row as int].update(col as int, cell),
            ),
    {
        proof {
            use_type_invariant(&*self);
        }
        self.cells[row * WIDTH + col] = cell;
        assert(self@ =~~= old(self)@.update(
            row as int,
            old(self)@[row as int].update(col as int, cell),
        ));
    }
}

} // verus!
