//! The 5x5 playfield and the states a cell of it can take.

use vstd::prelude::*;

verus! {

/// Number of rows of the playfield, and of its columns.
pub const GRID_SIZE: usize = 5;

/// The bottom row of the playfield: the floor.
pub const FLOOR_ROW: usize = GRID_SIZE - 1;

/// The rightmost column of the playfield.
pub const LAST_COL: usize = GRID_SIZE - 1;

/// State of one cell of the playfield.
#[derive(Clone, Copy, PartialEq, Eq, Debug, Structural)]
pub enum Cell {
    /// Nothing occupies the cell.
    Empty,
    /// The cell belongs to the piece that is currently falling.
    Falling,
    /// The cell belongs to the stack of committed pieces.
    Landed,
}

/// The playfield, indexed by row (top to bottom) and then by column.
#[derive(Clone, Copy, PartialEq, Eq, Debug)]
pub struct Grid {
    pub cells: [[Cell; GRID_SIZE]; GRID_SIZE],
}

impl View for Grid {
    type V = Seq<Seq<Cell>>;

    open spec fn view(&self) -> Seq<Seq<Cell>> {
        Seq::new(GRID_SIZE as nat, |r: int| self.cells[r]@)
    }
}

impl Grid {
    /// A playfield in which every cell is empty.
    pub fn new() -> (grid: Grid)
        ensures
            forall|r: int, c: int|
                0 <= r < GRID_SIZE && 0 <= c < GRID_SIZE ==> grid@[r][c] == Cell::Empty,
    {
        Grid { cells: [[Cell::Empty; GRID_SIZE]; GRID_SIZE] }
    }

    /// The cell in the given row and column.
    pub fn get(&self, row: usize, col: usize) -> (cell: Cell)
        requires
            row < GRID_SIZE,
            col < GRID_SIZE,
        ensures
            cell == self@[row as int][col as int],
    {
        self.cells[row][col]
    }

    /// Writes the cell in the given row and column; every other cell stays as it is.
    pub fn set(&mut self, row: usize, col: usize, cell: Cell)
        requires
            row < GRID_SIZE,
            col < GRID_SIZE,
        ensures
            final(self)@ == old(self)@.update(
                row as int,
                old(self)@[row as int].update(col as int, cell),
            ),
    {
        self.cells[row][col] = cell;
    }
}

} // verus!
