//! One step of the simulation: survival, death and birth with colour.

use vstd::prelude::*;
use crate::cell::{blue_of, count_of, green_of, lemma_weights, red_of, Cell, ProtoCell};
use crate::generation::{cell_at, in_bounds, is_board, Generation, Grid, HEIGHT, WIDTH};
use crate::neighbourhood::{
    blue_sum,
    green_sum,
    lemma_neighbour_bounds,
    live_neighbours,
    red_sum,
};

verus! {

/// The colour of a cell born at `(row, col)`: channel by channel the mean of
/// its three living neighbours, rounded towards zero.
pub open spec fn birth_colour(grid: Grid, row: int, col: int) -> Cell {
    Cell {
        red: (red_sum(grid, row, col) / 3) as u8,
        green: (green_sum(grid, row, col) / 3) as u8,
        blue: (blue_sum(grid, row, col) / 3) as u8,
    }
}

/// What `(row, col)` holds one step after `grid`.
///
/// A living cell with two or three living neighbours stays as it is, a dead
/// position with exactly three becomes a cell of their mean colour, and
/// every other position is dead.
pub open spec fn next_cell(grid: Grid, row: int, col: int) -> Option<Cell> {
    let n = live_neighbours(grid, row, col);
    match cell_at(grid, row, col) {
        Some(cell) => if n == 2 || n == 3 {
            Some(cell)
        } else {
            None
        },
        None => if n == 3 {
            Some(birth_colour(grid, row, col))
        } else {
            None
        },
    }
}

/// The board one step after `grid`: every position is decided from `grid`
/// alone, all at once.
pub open spec fn next_grid(grid: Grid) -> Grid {
    Seq::new(
        HEIGHT as nat,
        |row: int| Seq::new(WIDTH as nat, |col: int| next_cell(grid, row, col)),
    )
}

/// Whether the living cells of `grid` are the four of the square block
/// whose upper left corner is `(row, col)`, and no others.
pub open spec fn is_block(grid: Grid, row: int, col: int) -> bool {
    &&& is_board(grid)
    &&& in_bounds(row, col)
    &&& in_bounds(row + 1, col + 1)
    &&& forall|r: int, c: int|
        in_bounds(r, c) ==> ((#[trigger] grid[r][c]) is Some <==> row <= r <= row + 1 && col <= c
            <= col + 1)
}

/// A square block of four cells is a still life: wherever it stands on the
/// board and whatever its colours, the next generation is the same board,
/// and so is every generation after it.
pub proof fn lemma_block_is_still(grid: Grid, row: int, col: int)
    requires
        is_block(grid, row, col),
    ensures
        next_grid(grid) == grid,
{
    reveal(count_of);
    assert forall|r: int, c: int| in_bounds(r, c) implies next_cell(grid, r, c)
        == #[trigger] grid[r][c] by {
        let inside = row <= r <= row + 1 && col <= c <= col + 1;
        assert(inside ==> live_neighbours(grid, r, c) == 3);
        assert(!inside ==> live_neighbours(grid, r, c) <= 2);
    }
    assert(next_grid(grid) =~~= grid);
}

/// Takes one neighbour into account: a living one is counted in `n` and its
/// colour added to `proto_cell`, a dead one changes nothing.
pub fn process_cell(n: &mut u16, proto_cell: &mut ProtoCell, cell: &Option<Cell>)
    requires
        *old(n) + count_of(*cell) <= u16::MAX,
        old(proto_cell).red + red_of(*cell) <= u16::MAX,
        old(proto_cell).green + green_of(*cell) <= u16::MAX,
        old(proto_cell).blue + blue_of(*cell) <= u16::MAX,
    ensures
        *final(n) == *old(n) + count_of(*cell),
        final(proto_cell).red == old(proto_cell).red + red_of(*cell),
        final(proto_cell).green == old(proto_cell).green + green_of(*cell),
        final(proto_cell).blue == old(proto_cell).blue + blue_of(*cell),
{
    proof {
        lemma_weights(*cell);
    }
    match cell {
        Some(c) => {
            *n += 1;
            proto_cell.add(c);
        },
        None => (),
    }
}

/// Counts the living cells around `(j, i)` and adds up their colours.
/// Positions beyond an edge of the board are passed over.
#[verifier::rlimit(20)]
pub fn survey(previous_gen: &Generation, j: usize, i: usize) -> (found: (u16, ProtoCell))
    requires
        j < HEIGHT,
        i < WIDTH,
    ensures
        found.0 == live_neighbours(previous_gen@, j as int, i as int),
        found.1.red == red_sum(previous_gen@, j as int, i as int),
        found.1.green == green_sum(previous_gen@, j as int, i as int),
        found.1.blue == blue_sum(previous_gen@, j as int, i as int),
{
    let mut neighbours: u16 = 0;
    let mut proto_cell = ProtoCell::new();
    proof {
        // What one position can add, and that a dead one adds nothing.
        assert forall|cell: Option<Cell>| 0 <= #[trigger] count_of(cell) <= 1 by {
            lemma_weights(cell);
        }
        assert forall|cell: Option<Cell>| 0 <= #[trigger] red_of(cell) <= 255 by {
            lemma_weights(cell);
        }
        assert forall|cell: Option<Cell>| 0 <= #[trigger] green_of(cell) <= 255 by {
            lemma_weights(cell);
        }
        assert forall|cell: Option<Cell>| 0 <= #[trigger] blue_of(cell) <= 255 by {
            lemma_weights(cell);
        }
        lemma_weights(None);
    }

    if j > 0 {
        process_cell(&mut neighbours, &mut proto_cell, &previous_gen.get(j - 1, i));
        if i > 0 {
            process_cell(&mut neighbours, &mut proto_cell, &previous_gen.get(j - 1, i - 1));
        }
        if i < WIDTH - 1 {
            process_cell(&mut neighbours, &mut proto_cell, &previous_gen.get(j - 1, i + 1));
        }
    }
    if j < HEIGHT - 1 {
        process_cell(&mut neighbours, &mut proto_cell, &previous_gen.get(j + 1, i));
        if i > 0 {
            process_cell(&mut neighbours, &mut proto_cell, &previous_gen.get(j + 1, i - 1));
        }
        if i < WIDTH - 1 {
            process_cell(&mut neighbours, &mut proto_cell, &previous_gen.get(j + 1, i + 1));
        }
    }
    if i > 0 {
        process_cell(&mut neighbours, &mut proto_cell, &previous_gen.get(j, i - 1));
    }
    if i < WIDTH - 1 {
        process_cell(&mut neighbours, &mut proto_cell, &previous_gen.get(j, i + 1));
    }
    (neighbours, proto_cell)
}

/// Computes the generation that follows `previous_gen`. Every position is
/// decided from `previous_gen` alone, whatever was decided for the others.
pub fn tick(previous_gen: Generation) -> (generation: Generation)
    ensures
        generation@ == next_grid(previous_gen@),
        (forall|row: int, col: int|
            #![trigger cell_at(generation@, row, col)]
            in_bounds(row, col) ==> {
                let before = cell_at(previous_gen@, row, col);
                let after = cell_at(generation@, row, col);
                let n = live_neighbours(previous_gen@, row, col);
                // A living cell with two or three living neighbours stays,
                // in its colour.
                &&& before is Some && (n == 2 || n == 3) ==> after == before
                // With fewer or with more it dies.
                &&& before is Some && n != 2 && n != 3 ==> after is None
                // A dead position with exactly three living neighbours comes
                // alive, each channel the mean of theirs, rounded towards zero.
                &&& before is None && n == 3 ==> {
                    &&& after matches Some(born)
                    &&& born.red == red_sum(previous_gen@, row, col) / 3
                    &&& born.green == green_sum(previous_gen@, row, col) / 3
                    &&& born.blue == blue_sum(previous_gen@, row, col) / 3
                }
                // With any other number it stays dead.
                &&& before is None && n != 3 ==> after is None
            }),
{
    let mut generation = Generation::empty();

    let mut j: usize = 0;
    while j < HEIGHT
        invariant
            j <= HEIGHT,
            forall|r: int, c: int|
                0 <= r < j && 0 <= c < WIDTH ==> #[trigger] generation@[r][c] == next_cell(
                    previous_gen@,
                    r,
                    c,
                ),
        decreases HEIGHT - j,
    {
        let mut i: usize = 0;
        while i < WIDTH
            invariant
                j < HEIGHT,
                i <= WIDTH,
                forall|r: int, c: int|
                    0 <= r < j && 0 <= c < WIDTH ==> #[trigger] generation@[r][c] == next_cell(
                        previous_gen@,
                        r,
                        c,
                    ),
                forall|c: int|
                    0 <= c < i ==> #[trigger] generation@[j as int][c] == next_cell(
                        previous_gen@,
                        j as int,
                        c,
                    ),
            decreases WIDTH - i,
        {
            let (neighbours, proto_cell) = survey(&previous_gen, j, i);
            let here = previous_gen.get(j, i);
            let cell = match here {
                Some(_) => if neighbours == 2 || neighbours == 3 {
                    here
                } else {
                    None
                },
                None => if neighbours == 3 {
                    Some(proto_cell.into_cell(neighbours))
                } else {
                    None
                },
            };
            proof {
                previous_gen.lemma_view_is_board();
                generation.lemma_view_is_board();
            }
            generation.set(j, i, cell);
            i += 1;
        }
        j += 1;
    }

    proof {
        generation.lemma_view_is_board();
        assert(generation@ =~~= next_grid(previous_gen@));
        assert forall|row: int, col: int| in_bounds(row, col) implies {
            let n = live_neighbours(previous_gen@, row, col);
            &&& 0 <= #[trigger] red_sum(previous_gen@, row, col) <= 255 * n
            &&& 0 <= green_sum(previous_gen@, row, col) <= 255 * n
            &&& 0 <= blue_sum(previous_gen@, row, col) <= 255 * n
        } by {
            lemma_neighbour_bounds(previous_gen@, row, col);
        }
    }
    generation
}

} // verus!
