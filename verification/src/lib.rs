//! Playfield simulation of a falling-block puzzle on a 5x5 indicator grid.

pub mod font;
pub mod game;
pub mod grid;
pub mod input;
pub mod pixeldisplay;
pub mod placement;
pub mod rand;
pub mod rows;
pub mod tetrominos;
