//! Frames for the 5x5 pixel display.

use crate::grid::Cell;
use crate::grid::Grid;
use crate::grid::GRID_SIZE;
use vstd::prelude::*;

verus! {

/// A frame of the display: the brightness of each pixel, from 0 (dark) to 9, indexed
/// by row and then by column.
pub type Raster = [[u8; 5]; 5];

/// Brightness of a pixel of the falling piece.
pub const FALLING_BRIGHTNESS: u8 = 9;

/// Brightness of a pixel of the stack.
pub const LANDED_BRIGHTNESS: u8 = 5;

/// The brightness at which a cell is shown.
pub open spec fn spec_brightness(cell: Cell) -> u8 {
    match cell {
        Cell::Empty => 0,
        Cell::Falling => FALLING_BRIGHTNESS,
        Cell::Landed => LANDED_BRIGHTNESS,
    }
}

/// The brightness at which a cell is shown.
#[verifier::when_used_as_spec(spec_brightness)]
pub fn brightness(cell: Cell) -> (level: u8)
    ensures
        level == spec_brightness(cell),
{
    match cell {
        Cell::Empty => 0,
        Cell::Falling => FALLING_BRIGHTNESS,
        Cell::Landed => LANDED_BRIGHTNESS,
    }
}

/// The frame that shows a playfield: each pixel has the brightness of its cell.
pub fn frame_of(grid: &Grid) -> (frame: Raster)
    ensures
        forall|r: int, c: int|
            0 <= r < 5 && 0 <= c < 5 ==> #[trigger] frame[r][c] == spec_brightness(grid@[r][c]),
{
    let mut frame: Raster = [[0; 5]; 5];
    let mut row: usize = 0;
    while row < GRID_SIZE
        invariant
            row <= 5,
            forall|r: int, c: int|
                0 <= r < row && 0 <= c < 5 ==> #[trigger] frame[r][c] == spec_brightness(
                    grid@[r][c],
                ),
        decreases GRID_SIZE - row,
    {
        let mut col: usize = 0;
        while col < GRID_SIZE
            invariant
                row < 5,
                col <= 5,
                forall|r: int, c: int|
                    0 <= r < 5 && 0 <= c < 5 && (r < row || (r == row && c < col))
                        ==> #[trigger] frame[r][c] == spec_brightness(grid@[r][c]),
            decreases GRID_SIZE - col,
        {
            frame[row][col] = brightness(grid.get(row, col));
            col += 1;
        }
        row += 1;
    }
    frame
}

/// An image for the display.
#[derive(Clone, Copy, PartialEq, Eq, Debug)]
pub struct Render {
    raster: Raster,
}

impl View for Render {
    type V = Seq<Seq<u8>>;

    closed spec fn view(&self) -> Seq<Seq<u8>> {
        Seq::new(5, |r: int| self.raster[r]@)
    }
}

impl Render {
    /// Makes an image from a frame.
    pub fn new_from(raster: &Raster) -> (render: Render)
        ensures
            render@.len() == 5,
            forall|r: int| 0 <= r < 5 ==> #[trigger] render@[r] == raster[r]@,
    {
        Render { raster: *raster }
    }

    /// The frame of the image.
    pub fn get(&self) -> (raster: &Raster)
        ensures
            self@.len() == 5,
            forall|r: int| 0 <= r < 5 ==> #[trigger] raster[r]@ == self@[r],
    {
        &self.raster
    }
}

} // verus!
