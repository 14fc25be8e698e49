//! Conway's Game of Life on a finite, non-wrapping rectangular grid.
//!
//! A [`GolBoard`] owns a fixed `height x width` grid of binary cells and
//! advances one generation at a time under the standard B3/S23 rule: a dead
//! cell with exactly 3 live neighbors is born, a live cell with 2 or 3 live
//! neighbors survives, and every other cell is dead in the next generation.
//! Cells outside the grid do not exist: border cells simply have fewer
//! neighbors.

mod board;
mod cell;
mod laws;

pub use board::GolBoard;
pub use board::GolError;
pub use board::count_one;
pub use board::is_moore_neighbor;
pub use cell::GolCell;
pub use cell::cell_of_u8;
pub use laws::lemma_all_dead_stays_dead;
pub use laws::lemma_birth;
pub use laws::lemma_blinker_horizontal_step;
pub use laws::lemma_blinker_period_two;
pub use laws::lemma_blinker_vertical_step;
pub use laws::lemma_block_still_life;
pub use laws::lemma_empty_board_enumerates_nothing;
pub use laws::lemma_lone_cell_dies;
pub use laws::lemma_matrix_round_trip;
