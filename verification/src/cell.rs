//! Coloured cells and the accumulator that blends neighbouring colours.

use vstd::prelude::*;

verus! {

/// The colour of a living cell.
#[derive(Copy, Clone, Debug, PartialEq, Eq, Structural)]
pub struct Cell {
    pub red: u8,
    pub green: u8,
    pub blue: u8,
}

/// Running per-channel sums of the colours of a cell's living neighbours.
///
/// Each channel is sixteen bits wide, so eight neighbours at full intensity
/// (8 * 255 = 2040) fit with room to spare.
#[derive(Debug, PartialEq, Eq, Structural)]
pub struct ProtoCell {
    pub red: u16,
    pub green: u16,
    pub blue: u16,
}

/// What a position adds to the number of living cells: one if it holds a
/// cell, nothing if it is dead.
#[verifier::opaque]
pub open spec fn count_of(cell: Option<Cell>) -> int {
    if cell is Some {
        1
    } else {
        0
    }
}

/// What a position adds to a sum of red channels: the red of its cell, or
/// nothing if it is dead.
#[verifier::opaque]
pub open spec fn red_of(cell: Option<Cell>) -> int {
    match cell {
        Some(c) => c.red as int,
        None => 0,
    }
}

/// What a position adds to a sum of green channels.
#[verifier::opaque]
pub open spec fn green_of(cell: Option<Cell>) -> int {
    match cell {
        Some(c) => c.green as int,
        None => 0,
    }
}

/// What a position adds to a sum of blue channels.
#[verifier::opaque]
pub open spec fn blue_of(cell: Option<Cell>) -> int {
    match cell {
        Some(c) => c.blue as int,
        None => 0,
    }
}

/// What the four weights of a position are worth.
pub proof fn lemma_weights(cell: Option<Cell>)
    ensures
        cell is None ==> count_of(cell) == 0 && red_of(cell) == 0 && green_of(cell) == 0
            && blue_of(cell) == 0,
        cell matches Some(c) ==> count_of(cell) == 1 && red_of(cell) == c.red && green_of(cell)
            == c.green && blue_of(cell) == c.blue,
        0 <= count_of(cell) <= 1,
        0 <= red_of(cell) <= 255 * count_of(cell),
        0 <= green_of(cell) <= 255 * count_of(cell),
        0 <= blue_of(cell) <= 255 * count_of(cell),
{
    reveal(count_of);
    reveal(red_of);
    reveal(green_of);
    reveal(blue_of);
}

/// `sum / count`, rounded towards zero and cut down to its low eight bits:
/// the quotient itself whenever `sum <= 255 * count`.
pub open spec fn channel_mean(sum: u16, count: u16) -> u8 {
    (sum / count) as u8
}

/// The mean of `count` channel values is a channel value.
pub proof fn lemma_channel_mean_exact(sum: u16, count: u16)
    requires
        count > 0,
        sum <= 255 * count,
    ensures
        channel_mean(sum, count) == sum / count,
{
    assert(sum / count <= 255) by (nonlinear_arith)
        requires
            count > 0,
            sum <= 255 * count,
    ;
}

impl ProtoCell {
    /// The accumulator with nothing added to it.
    pub fn new() -> (proto: Self)
        ensures
            proto == (ProtoCell { red: 0, green: 0, blue: 0 }),
    {
        ProtoCell { red: 0, green: 0, blue: 0 }
    }

    /// Adds the colour of `cell` to the sums.
    pub fn add(&mut self, cell: &Cell)
        requires
            old(self).red + cell.red <= u16::MAX,
            old(self).green + cell.green <= u16::MAX,
            old(self).blue + cell.blue <= u16::MAX,
        ensures
            final(self).red == old(self).red + cell.red,
            final(self).green == old(self).green + cell.green,
            final(self).blue == old(self).blue + cell.blue,
    {
        self.red += cell.red as u16;
        self.green += cell.green as u16;
        self.blue += cell.blue as u16;
    }

    /// The colour whose channels are the sums divided by `neighbours`,
    /// rounded towards zero.
    pub fn into_cell(self, neighbours: u16) -> (cell: Cell)
        requires
            neighbours > 0,
        ensures
            cell == (Cell {
                red: channel_mean(self.red, neighbours),
                green: channel_mean(self.green, neighbours),
                blue: channel_mean(self.blue, neighbours),
            }),
            self.red <= 255 * neighbours ==> cell.red == self.red / neighbours,
            self.green <= 255 * neighbours ==> cell.green == self.green / neighbours,
            self.blue <= 255 * neighbours ==> cell.blue == self.blue / neighbours,
    {
        proof {
            if self.red <= 255 * neighbours {
                lemma_channel_mean_exact(self.red, neighbours);
            }
            if self.green <= 255 * neighbours {
                lemma_channel_mean_exact(self.green, neighbours);
            }
            if self.blue <= 255 * neighbours {
                lemma_channel_mean_exact(self.blue, neighbours);
            }
        }
        Cell {
            red: #[verifier::truncate] ((self.red / neighbours) as u8),
            green: #[verifier::truncate] ((self.green / neighbours) as u8),
            blue: #[verifier::truncate] ((self.blue / neighbours) as u8),
        }
    }
}

} // verus!
