//! The eight positions around a position, and what is counted over them.

use vstd::prelude::*;
use crate::cell::{blue_of, count_of, green_of, lemma_weights, red_of};
use crate::generation::{cell_at, in_bounds, Grid, HEIGHT, WIDTH};

verus! {

/// The sum of `weight` over `(row, col)` and the positions to its left and
/// to its right.
pub open spec fn row_sum(weight: spec_fn(int, int) -> int, row: int, col: int) -> int {
    weight(row, col - 1) + weight(row, col) + weight(row, col + 1)
}

/// The sum of `weight` over the eight positions that surround `(row, col)`:
/// three in the row above, three in the row below, one to each side.
pub open spec fn sum_around(weight: spec_fn(int, int) -> int, row: int, col: int) -> int {
    row_sum(weight, row - 1, col) + row_sum(weight, row + 1, col) + weight(row, col - 1) + weight(
        row,
        col + 1,
    )
}

/// How many of the positions around `(row, col)` lie on the board.
pub open spec fn neighbour_positions(row: int, col: int) -> int {
    sum_around(
        |r: int, c: int|
            if in_bounds(r, c) {
                1int
            } else {
                0int
            },
        row,
        col,
    )
}

/// How many of the positions around `(row, col)` hold a living cell.
pub open spec fn live_neighbours(grid: Grid, row: int, col: int) -> int {
    sum_around(|r: int, c: int| count_of(cell_at(grid, r, c)), row, col)
}

/// The red channels of the living cells around `(row, col)`, added up.
pub open spec fn red_sum(grid: Grid, row: int, col: int) -> int {
    sum_around(|r: int, c: int| red_of(cell_at(grid, r, c)), row, col)
}

/// The green channels of the living cells around `(row, col)`, added up.
pub open spec fn green_sum(grid: Grid, row: int, col: int) -> int {
    sum_around(|r: int, c: int| green_of(cell_at(grid, r, c)), row, col)
}

/// The blue channels of the living cells around `(row, col)`, added up.
pub open spec fn blue_sum(grid: Grid, row: int, col: int) -> int {
    sum_around(|r: int, c: int| blue_of(cell_at(grid, r, c)), row, col)
}

/// Whether `(row, col)` is one of the four corners of the board.
pub open spec fn is_corner(row: int, col: int) -> bool {
    (row == 0 || row == HEIGHT - 1) && (col == 0 || col == WIDTH - 1)
}

/// Whether `(row, col)` lies on an edge of the board without being a corner.
pub open spec fn is_edge(row: int, col: int) -> bool {
    in_bounds(row, col) && !is_corner(row, col) && (row == 0 || row == HEIGHT - 1 || col == 0
        || col == WIDTH - 1)
}

/// Whether `(other_row, other_col)` is a position of the board next to
/// `(row, col)`: at most one row and one column away, and not the same.
pub open spec fn is_neighbour(row: int, col: int, other_row: int, other_col: int) -> bool {
    &&& in_bounds(other_row, other_col)
    &&& row - 1 <= other_row <= row + 1
    &&& col - 1 <= other_col <= col + 1
    &&& (other_row != row || other_col != col)
}

/// A corner has three neighbours on the board, any other position of an
/// edge has five, and a position inside has eight.
pub proof fn lemma_neighbour_positions(row: int, col: int)
    requires
        in_bounds(row, col),
    ensures
        is_corner(row, col) ==> neighbour_positions(row, col) == 3,
        is_edge(row, col) ==> neighbour_positions(row, col) == 5,
        !is_corner(row, col) && !is_edge(row, col) ==> neighbour_positions(row, col) == 8,
{
}

/// No more cells live around a position than it has neighbours on the
/// board, and each of them adds at most 255 to the sum of a channel.
pub proof fn lemma_neighbour_bounds(grid: Grid, row: int, col: int)
    ensures
        0 <= live_neighbours(grid, row, col) <= neighbour_positions(row, col) <= 8,
        0 <= red_sum(grid, row, col) <= 255 * live_neighbours(grid, row, col),
        0 <= green_sum(grid, row, col) <= 255 * live_neighbours(grid, row, col),
        0 <= blue_sum(grid, row, col) <= 255 * live_neighbours(grid, row, col),
{
    assert forall|r: int, c: int|
        {
            let cell = #[trigger] cell_at(grid, r, c);
            &&& 0 <= count_of(cell) <= 1
            &&& !in_bounds(r, c) ==> count_of(cell) == 0
            &&& 0 <= red_of(cell) <= 255 * count_of(cell)
            &&& 0 <= green_of(cell) <= 255 * count_of(cell)
            &&& 0 <= blue_of(cell) <= 255 * count_of(cell)
        } by {
        lemma_weights(cell_at(grid, r, c));
    }
}

/// The count and the sums around a position depend on its neighbours on the
/// board alone: two boards that agree on those give the same count and the
/// same sums, whatever they hold elsewhere, on the far side of the board too.
pub proof fn lemma_only_neighbours_count(first: Grid, second: Grid, row: int, col: int)
    requires
        forall|r: int, c: int|
            is_neighbour(row, col, r, c) ==> #[trigger] cell_at(first, r, c) == cell_at(
                second,
                r,
                c,
            ),
    ensures
        live_neighbours(first, row, col) == live_neighbours(second, row, col),
        red_sum(first, row, col) == red_sum(second, row, col),
        green_sum(first, row, col) == green_sum(second, row, col),
        blue_sum(first, row, col) == blue_sum(second, row, col),
{
}

} // verus!
