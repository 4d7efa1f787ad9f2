//! Conway's Game of Life on a fixed rectangular board, in which a newborn
//! cell takes the average colour of the three neighbours that gave birth to it.

pub mod cell;
pub mod driver;
pub mod generation;
pub mod neighbourhood;
pub mod seed;
pub mod tick;
