use game_of_life::cell::Cell;
use game_of_life::generation::{Generation, HEIGHT, WIDTH};
use game_of_life::seed::{seed, seed_from, BIRTH_ODDS, CHANNEL_CEILING, CHANNEL_FLOOR};

fn living(generation: &Generation) -> Vec<Cell> {
    let mut found = Vec::new();
    for row in 0..HEIGHT {
        for col in 0..WIDTH {
            if let Some(cell) = generation.get(row, col) {
                found.push(cell);
            }
        }
    }
    found
}

#[test]
fn seed_constants() {
    assert_eq!(BIRTH_ODDS, 6);
    assert_eq!(CHANNEL_FLOOR, 50);
    assert_eq!(CHANNEL_CEILING, 255);
}

#[test]
fn seeded_channels_are_between_floor_and_ceiling() {
    for _ in 0..5 {
        for cell in living(&seed()) {
            for channel in [cell.red, cell.green, cell.blue] {
                assert!(channel >= 50);
                assert!(channel <= 254);
            }
        }
    }
}

#[test]
fn about_one_position_in_six_is_seeded_alive() {
    // 45000 positions: 7500 expected, with a standard deviation of 79.
    let alive = living(&seed()).len();
    assert!(alive > 6700, "{} alive", alive);
    assert!(alive < 8300, "{} alive", alive);
}

#[test]
fn seeded_channels_take_many_values() {
    let cells = living(&seed());
    let mut seen = [false; 256];
    for cell in &cells {
        seen[cell.red as usize] = true;
    }
    let distinct = seen.iter().filter(|&&s| s).count();
    // Some 7500 draws from 205 values: all but a few turn up.
    assert!(distinct > 150, "{} distinct red values", distinct);
    assert!(cells.iter().any(|cell| cell.red != cell.green));
    assert!(cells.iter().any(|cell| cell.green != cell.blue));
}

#[test]
fn seeded_channels_reach_towards_both_ends_of_the_range() {
    let cells = living(&seed());
    assert!(cells.iter().any(|cell| cell.red < 60));
    assert!(cells.iter().any(|cell| cell.red > 244));
    assert!(cells.iter().any(|cell| cell.blue < 60));
    assert!(cells.iter().any(|cell| cell.green > 244));
}

#[test]
fn two_seeds_differ() {
    let first = seed();
    let second = seed();
    let mut differences = 0;
    for row in 0..HEIGHT {
        for col in 0..WIDTH {
            if first.get(row, col) != second.get(row, col) {
                differences += 1;
            }
        }
    }
    assert!(differences > 1000, "{} positions differ", differences);
}

#[test]
fn seeded_cells_are_spread_over_the_board() {
    let generation = seed();
    let mut in_first_row = 0;
    let mut in_last_row = 0;
    let mut in_first_column = 0;
    let mut in_last_column = 0;
    for col in 0..WIDTH {
        if generation.get(0, col).is_some() {
            in_first_row += 1;
        }
        if generation.get(HEIGHT - 1, col).is_some() {
            in_last_row += 1;
        }
    }
    for row in 0..HEIGHT {
        if generation.get(row, 0).is_some() {
            in_first_column += 1;
        }
        if generation.get(row, WIDTH - 1).is_some() {
            in_last_column += 1;
        }
    }
    // 300 positions in a row, 150 in a column: 50 and 25 expected.
    assert!(in_first_row > 10 && in_first_row < 110);
    assert!(in_last_row > 10 && in_last_row < 110);
    assert!(in_first_column > 2 && in_first_column < 70);
    assert!(in_last_column > 2 && in_last_column < 70);
}

/// The draws in which the given positions, listed row by row, live in the
/// given colours and every other position is dead.
fn draws(living: &[(usize, usize, Cell)]) -> (Vec<bool>, Vec<u8>) {
    let mut alive = vec![false; WIDTH * HEIGHT];
    let mut channels = Vec::new();
    for &(row, col, cell) in living {
        alive[row * WIDTH + col] = true;
        channels.push(cell.red);
        channels.push(cell.green);
        channels.push(cell.blue);
    }
    (alive, channels)
}

fn cells(generation: &Generation) -> Vec<Option<Cell>> {
    let mut found = Vec::new();
    for row in 0..HEIGHT {
        for col in 0..WIDTH {
            found.push(generation.get(row, col));
        }
    }
    found
}

#[test]
fn no_living_draw_gives_the_empty_board() {
    let (alive, channels) = draws(&[]);
    let generation = seed_from(&alive, &channels);
    assert_eq!(living(&generation), vec![]);
}

#[test]
fn a_cell_takes_its_own_three_draws_in_order() {
    let alive_at = [(0, 0), (0, 1), (0, WIDTH - 1), (1, 0), (75, 150), (HEIGHT - 1, WIDTH - 1)];
    let mut alive = vec![false; WIDTH * HEIGHT];
    for &(row, col) in &alive_at {
        alive[row * WIDTH + col] = true;
    }
    let channels: Vec<u8> = (1..=18).collect();
    let generation = seed_from(&alive, &channels);

    assert_eq!(generation.get(0, 0), Some(Cell { red: 1, green: 2, blue: 3 }));
    assert_eq!(generation.get(0, 1), Some(Cell { red: 4, green: 5, blue: 6 }));
    assert_eq!(generation.get(0, WIDTH - 1), Some(Cell { red: 7, green: 8, blue: 9 }));
    assert_eq!(generation.get(1, 0), Some(Cell { red: 10, green: 11, blue: 12 }));
    assert_eq!(generation.get(75, 150), Some(Cell { red: 13, green: 14, blue: 15 }));
    assert_eq!(
        generation.get(HEIGHT - 1, WIDTH - 1),
        Some(Cell { red: 16, green: 17, blue: 18 })
    );
    assert_eq!(living(&generation).len(), 6);
}

#[test]
fn a_position_lives_exactly_if_its_draw_is_true() {
    let alive: Vec<bool> = (0..WIDTH * HEIGHT).map(|k| k % 7 == 3 || k % 11 == 0).collect();
    let count = alive.iter().filter(|&&lives| lives).count();
    let channels: Vec<u8> = (0..3 * count).map(|n| (n % 256) as u8).collect();
    let generation = seed_from(&alive, &channels);

    let mut before = 0;
    for row in 0..HEIGHT {
        for col in 0..WIDTH {
            let k = row * WIDTH + col;
            let expected = if alive[k] {
                let cell = Cell {
                    red: channels[3 * before],
                    green: channels[3 * before + 1],
                    blue: channels[3 * before + 2],
                };
                before += 1;
                Some(cell)
            } else {
                None
            };
            assert_eq!(generation.get(row, col), expected);
        }
    }
    assert_eq!(before, count);
}

#[test]
fn every_draw_true_fills_the_board() {
    let alive = vec![true; WIDTH * HEIGHT];
    let channels: Vec<u8> = (0..3 * WIDTH * HEIGHT).map(|n| (n % 251) as u8).collect();
    let generation = seed_from(&alive, &channels);
    assert_eq!(living(&generation).len(), WIDTH * HEIGHT);
    assert_eq!(generation.get(0, 0), Some(Cell { red: 0, green: 1, blue: 2 }));
    // Position 301 takes the draws 903, 904 and 905.
    assert_eq!(generation.get(1, 1), Some(Cell { red: 150, green: 151, blue: 152 }));
    // The last position takes the draws 134997, 134998 and 134999.
    assert_eq!(
        generation.get(HEIGHT - 1, WIDTH - 1),
        Some(Cell { red: 210, green: 211, blue: 212 })
    );
}

#[test]
fn equal_draws_give_equal_boards() {
    let (alive, channels) = draws(&[
        (3, 4, Cell { red: 50, green: 60, blue: 70 }),
        (3, 5, Cell { red: 254, green: 50, blue: 128 }),
        (100, 200, Cell { red: 99, green: 98, blue: 97 }),
    ]);
    let first = seed_from(&alive, &channels);
    let second = seed_from(&alive.clone(), &channels.clone());
    assert_eq!(cells(&first), cells(&second));
    assert_eq!(
        living(&first),
        vec![
            Cell { red: 50, green: 60, blue: 70 },
            Cell { red: 254, green: 50, blue: 128 },
            Cell { red: 99, green: 98, blue: 97 },
        ]
    );
}

#[test]
fn different_draws_change_cells_and_not_the_shape() {
    let (alive, channels) = draws(&[(3, 4, Cell { red: 50, green: 60, blue: 70 })]);
    let (other_alive, other_channels) = draws(&[(4, 3, Cell { red: 50, green: 60, blue: 71 })]);
    let first = cells(&seed_from(&alive, &channels));
    let second = cells(&seed_from(&other_alive, &other_channels));
    assert_eq!(first.len(), WIDTH * HEIGHT);
    assert_eq!(second.len(), WIDTH * HEIGHT);
    assert_ne!(first, second);
}

#[test]
fn seed_from_takes_any_channel_value() {
    let (alive, channels) = draws(&[
        (0, 0, Cell { red: 0, green: 255, blue: 49 }),
        (149, 0, Cell { red: 255, green: 0, blue: 1 }),
    ]);
    let generation = seed_from(&alive, &channels);
    assert_eq!(generation.get(0, 0), Some(Cell { red: 0, green: 255, blue: 49 }));
    assert_eq!(generation.get(149, 0), Some(Cell { red: 255, green: 0, blue: 1 }));
}
