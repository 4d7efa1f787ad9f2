//! The first generation: cells scattered at random, in random colours.

use vstd::prelude::*;
use rand::{Rng, ThreadRng};
use crate::cell::Cell;
use crate::generation::{in_bounds, Generation, Grid, HEIGHT, WIDTH};

verus! {

/// The odds that are asked of the generator for each position: one chance
/// in this many that it starts alive.
pub const BIRTH_ODDS: u32 = 6;

/// The least intensity a channel of a seeded cell can have.
pub const CHANNEL_FLOOR: u8 = 50;

/// The first intensity above those a channel of a seeded cell can have.
pub const CHANNEL_CEILING: u8 = 255;

/// Whether each channel of `cell` is at least `CHANNEL_FLOOR` and below
/// `CHANNEL_CEILING`.
pub open spec fn is_seed_colour(cell: Cell) -> bool {
    &&& CHANNEL_FLOOR <= cell.red < CHANNEL_CEILING
    &&& CHANNEL_FLOOR <= cell.green < CHANNEL_CEILING
    &&& CHANNEL_FLOOR <= cell.blue < CHANNEL_CEILING
}

/// Whether every living cell of `grid` has a seed colour.
pub open spec fn is_seeded(grid: Grid) -> bool {
    forall|row: int, col: int|
        in_bounds(row, col) ==> (#[trigger] grid[row][col] matches Some(cell) ==> is_seed_colour(
            cell,
        ))
}

/// How many of the first `k` draws of `alive` came out true.
pub open spec fn living_among(alive: Seq<bool>, k: int) -> int
    decreases k,
{
    if k <= 0 {
        0
    } else {
        living_among(alive, k - 1) + if alive[k - 1] {
            1int
        } else {
            0int
        }
    }
}

/// The colour of the living position that has `n` living positions before
/// it: the three channel draws made for it, red first, then green, then blue.
pub open spec fn drawn_colour(channels: Seq<u8>, n: int) -> Cell {
    Cell { red: channels[3 * n], green: channels[3 * n + 1], blue: channels[3 * n + 2] }
}

/// What the draws give the `k`-th position, counted row by row: a cell if
/// its own draw of `alive` came out true, in the colour drawn for it.
pub open spec fn drawn_cell(alive: Seq<bool>, channels: Seq<u8>, k: int) -> Option<Cell> {
    if alive[k] {
        Some(drawn_colour(channels, living_among(alive, k)))
    } else {
        None
    }
}

/// The board that the draws give.
pub open spec fn drawn_grid(alive: Seq<bool>, channels: Seq<u8>) -> Grid {
    Seq::new(
        HEIGHT as nat,
        |row: int|
            Seq::new(WIDTH as nat, |col: int| drawn_cell(alive, channels, row * WIDTH + col)),
    )
}

/// No more draws came out true among the first `k` than there are.
pub proof fn lemma_living_among_bounds(alive: Seq<bool>, k: int)
    requires
        0 <= k,
    ensures
        0 <= living_among(alive, k) <= k,
    decreases k,
{
    if k > 0 {
        lemma_living_among_bounds(alive, k - 1);
    }
}

/// The count of living draws never falls as more draws are looked at, and
/// a living draw raises it by one.
pub proof fn lemma_living_among_grows(alive: Seq<bool>, from: int, to: int)
    requires
        0 <= from <= to,
    ensures
        living_among(alive, from) <= living_among(alive, to),
        from < to && alive[from] ==> living_among(alive, from) < living_among(alive, to),
    decreases to - from,
{
    if from < to {
        lemma_living_among_grows(alive, from, to - 1);
    }
}

/// The count over the first `k` draws depends on those draws alone.
pub proof fn lemma_living_among_prefix(first: Seq<bool>, second: Seq<bool>, k: int)
    requires
        forall|n: int| 0 <= n < k ==> first[n] == second[n],
    ensures
        living_among(first, k) == living_among(second, k),
    decreases k,
{
    if k > 0 {
        lemma_living_among_prefix(first, second, k - 1);
    }
}

/// The handle to the random number generator of the current thread.
#[verifier::external_type_specification]
#[verifier::external_body]
pub struct ExThreadRng(ThreadRng);

/// `rand::thread_rng` hands out the generator of the current thread, which
/// the operating system seeds on first use. Nothing is claimed of it. It
/// panics if the system offers no entropy at all.
pub assume_specification[ rand::thread_rng ]() -> ThreadRng;

/// `Rng::gen_weighted_bool` returns `true` with one chance in `n`. The
/// outcome is random: nothing is claimed of it.
#[verifier::external_body]
fn weighted_bool(rng: &mut ThreadRng, n: u32) -> bool {
    rng.gen_weighted_bool(n)
}

/// `Rng::gen_range` draws uniformly from `low` up to, not including, `high`;
/// it panics unless `low < high`. Only the range of the outcome is claimed.
#[verifier::external_body]
fn channel_between(rng: &mut ThreadRng, low: u8, high: u8) -> (value: u8)
    requires
        low < high,
    ensures
        low <= value < high,
{
    rng.gen_range(low, high)
}

/// The generation that a run of draws gives.
///
/// `alive` holds one draw for each position, row by row: the position
/// lives exactly if its draw is true. `channels` holds three draws for
/// each living position, in the same order: its red, its green and its
/// blue.
pub fn seed_from(alive: &Vec<bool>, channels: &Vec<u8>) -> (generation: Generation)
    requires
        alive.len() == WIDTH * HEIGHT,
        channels.len() == 3 * living_among(alive@, WIDTH * HEIGHT),
    ensures
        generation@ == drawn_grid(alive@, channels@),
        forall|row: int, col: int|
            in_bounds(row, col) ==> (#[trigger] generation@[row][col] is Some) == alive[row
                * WIDTH + col],
{
    let mut generation = Generation::empty();
    let mut taken: usize = 0;

    let mut j: usize = 0;
    while j < HEIGHT
        invariant
            j <= HEIGHT,
            alive.len() == WIDTH * HEIGHT,
            channels.len() == 3 * living_among(alive@, WIDTH * HEIGHT),
            taken == 3 * living_among(alive@, j * WIDTH),
            forall|r: int, c: int|
                0 <= r < j && 0 <= c < WIDTH ==> #[trigger] generation@[r][c] == drawn_cell(
                    alive@,
                    channels@,
                    r * WIDTH + c,
                ),
        decreases HEIGHT - j,
    {
        let mut i: usize = 0;
        while i < WIDTH
            invariant
                j < HEIGHT,
                i <= WIDTH,
                alive.len() == WIDTH * HEIGHT,
                channels.len() == 3 * living_among(alive@, WIDTH * HEIGHT),
                taken == 3 * living_among(alive@, j * WIDTH + i),
                forall|r: int, c: int|
                    0 <= r < j && 0 <= c < WIDTH ==> #[trigger] generation@[r][c] == drawn_cell(
                        alive@,
                        channels@,
                        r * WIDTH + c,
                    ),
                forall|c: int|
                    0 <= c < i ==> #[trigger] generation@[j as int][c] == drawn_cell(
                        alive@,
                        channels@,
                        j * WIDTH + c,
                    ),
            decreases WIDTH - i,
        {
            let k = j * WIDTH + i;
            proof {
                lemma_living_among_bounds(alive@, k as int);
                lemma_living_among_grows(alive@, k as int, (WIDTH * HEIGHT) as int);
            }
            let cell = if alive[k] {
                let colour = Cell {
                    red: channels[taken],
                    green: channels[taken + 1],
                    blue: channels[taken + 2],
                };
                taken += 3;
                Some(colour)
            } else {
                None
            };
            proof {
                generation.lemma_view_is_board();
            }
            generation.set(j, i, cell);
            i += 1;
        }
        j += 1;
    }

    proof {
        generation.lemma_view_is_board();
        assert(generation@ =~~= drawn_grid(alive@, channels@));
    }
    generation
}

/// A generation made of fresh draws from the generator of the current
/// thread. Going through the positions row by row, it asks for each
/// whether the position lives, at odds of one in `BIRTH_ODDS`, and for a
/// living one draws its red, its green and its blue between
/// `CHANNEL_FLOOR` and `CHANNEL_CEILING`; the board is what `seed_from`
/// makes of these draws.
///
/// The draws are random, so the contract states what holds of every
/// outcome: the colour range.
pub fn seed() -> (generation: Generation)
    ensures
        is_seeded(generation@),
{
    let mut rng = rand::thread_rng();
    let mut alive: Vec<bool> = Vec::new();
    let mut channels: Vec<u8> = Vec::new();

    let mut k: usize = 0;
    while k < WIDTH * HEIGHT
        invariant
            k <= WIDTH * HEIGHT,
            alive.len() == k,
            channels.len() == 3 * living_among(alive@, k as int),
            forall|n: int|
                0 <= n < channels.len() ==> CHANNEL_FLOOR <= #[trigger] channels[n]
                    < CHANNEL_CEILING,
        decreases WIDTH * HEIGHT - k,
    {
        let ghost before = alive@;
        let lives = weighted_bool(&mut rng, BIRTH_ODDS);
        if lives {
            channels.push(channel_between(&mut rng, CHANNEL_FLOOR, CHANNEL_CEILING));
            channels.push(channel_between(&mut rng, CHANNEL_FLOOR, CHANNEL_CEILING));
            channels.push(channel_between(&mut rng, CHANNEL_FLOOR, CHANNEL_CEILING));
        }
        alive.push(lives);
        proof {
            lemma_living_among_prefix(before, alive@, k as int);
        }
        k += 1;
    }

    let generation = seed_from(&alive, &channels);
    proof {
        assert forall|row: int, col: int| in_bounds(row, col) implies (
        #[trigger] generation@[row][col] matches Some(cell) ==> is_seed_colour(cell)) by {
            lemma_living_among_bounds(alive@, row * WIDTH + col);
            lemma_living_among_grows(alive@, row * WIDTH + col, (WIDTH * HEIGHT) as int);
        }
    }
    generation
}

} // verus!
