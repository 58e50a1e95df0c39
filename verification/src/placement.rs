//! Drawing a piece into the playfield and taking it out again.

use crate::game::PieceLocation;
use crate::grid::Cell;
use crate::grid::Grid;
use crate::grid::GRID_SIZE;
use crate::grid::LAST_COL;
use crate::tetrominos::PieceShape;
use vstd::prelude::*;

verus! {

impl PieceShape {
    /// True when the mask, anchored at `anchor`, selects the playfield cell at row `r`
    /// and column `c`.
    pub open spec fn covers(self, anchor: PieceLocation, r: int, c: int) -> bool {
        ||| self.bottom_left && r == anchor.row && c == anchor.col
        ||| self.top_left && r == anchor.row - 1 && c == anchor.col
        ||| self.bottom_right && r == anchor.row && c == anchor.col + 1
        ||| self.top_right && r == anchor.row - 1 && c == anchor.col + 1
    }

    /// The anchors a piece may have. The bounding box lies in the playfield, or, for a
    /// piece with nothing in its bottom row, it hangs over the floor by that empty row.
    pub open spec fn fits(self, anchor: PieceLocation) -> bool {
        &&& 1 <= anchor.row <= GRID_SIZE
        &&& anchor.col < LAST_COL
        &&& anchor.row == GRID_SIZE ==> !self.bottom_left && !self.bottom_right
    }
}

/// A piece that fits its anchor selects cells of the playfield only.
pub proof fn fitting_piece_stays_in_grid(piece: PieceShape, anchor: PieceLocation)
    requires
        piece.fits(anchor),
    ensures
        forall|r: int, c: int|
            piece.covers(anchor, r, c) ==> 0 <= r < GRID_SIZE && 0 <= c < GRID_SIZE,
{
}

/// The playfield after a piece was drawn into it: each selected cell that was empty
/// holds `mark_as`, every other cell is as before.
pub open spec fn spec_place(
    grid: Seq<Seq<Cell>>,
    piece: PieceShape,
    anchor: PieceLocation,
    mark_as: Cell,
) -> Seq<Seq<Cell>> {
    Seq::new(
        GRID_SIZE as nat,
        |r: int|
            Seq::new(
                GRID_SIZE as nat,
                |c: int|
                    if piece.covers(anchor, r, c) && grid[r][c] == Cell::Empty {
                        mark_as
                    } else {
                        grid[r][c]
                    },
            ),
    )
}

/// The playfield after a piece was taken out of it: each selected cell is empty,
/// whatever it held, every other cell is as before.
pub open spec fn spec_erase(grid: Seq<Seq<Cell>>, piece: PieceShape, anchor: PieceLocation) -> Seq<
    Seq<Cell>,
> {
    Seq::new(
        GRID_SIZE as nat,
        |r: int|
            Seq::new(
                GRID_SIZE as nat,
                |c: int|
                    if piece.covers(anchor, r, c) {
                        Cell::Empty
                    } else {
                        grid[r][c]
                    },
            ),
    )
}

/// The playfield after a piece joined the stack: each selected cell is landed,
/// whatever it held, every other cell is as before.
pub open spec fn spec_commit(grid: Seq<Seq<Cell>>, piece: PieceShape, anchor: PieceLocation) -> Seq<
    Seq<Cell>,
> {
    Seq::new(
        GRID_SIZE as nat,
        |r: int|
            Seq::new(
                GRID_SIZE as nat,
                |c: int|
                    if piece.covers(anchor, r, c) {
                        Cell::Landed
                    } else {
                        grid[r][c]
                    },
            ),
    )
}

/// Taking a piece out and drawing it as landed in the same place is committing it.
pub proof fn erase_then_place_landed_commits(
    grid: Seq<Seq<Cell>>,
    piece: PieceShape,
    anchor: PieceLocation,
)
    ensures
        spec_place(spec_erase(grid, piece, anchor), piece, anchor, Cell::Landed) == spec_commit(
            grid,
            piece,
            anchor,
        ),
{
    assert(spec_place(spec_erase(grid, piece, anchor), piece, anchor, Cell::Landed) =~~= spec_commit(
        grid,
        piece,
        anchor,
    ));
}

/// Drawing a piece that is already drawn changes nothing.
pub proof fn place_is_idempotent(
    grid: Seq<Seq<Cell>>,
    piece: PieceShape,
    anchor: PieceLocation,
    mark_as: Cell,
)
    ensures
        spec_place(spec_place(grid, piece, anchor, mark_as), piece, anchor, mark_as) == spec_place(
            grid,
            piece,
            anchor,
            mark_as,
        ),
{
    assert(spec_place(spec_place(grid, piece, anchor, mark_as), piece, anchor, mark_as)
        =~~= spec_place(grid, piece, anchor, mark_as));
}

impl Grid {
    /// Writes `mark_as` to one cell, if the cell is selected and empty.
    fn mark_if_empty(&mut self, selected: bool, row: usize, col: usize, mark_as: Cell)
        requires
            selected ==> row < GRID_SIZE && col < GRID_SIZE,
        ensures
            forall|r: int, c: int|
                0 <= r < GRID_SIZE && 0 <= c < GRID_SIZE ==> #[trigger] final(self)@[r][c] == if selected
                    && r == row && c == col && old(self)@[r][c] == Cell::Empty {
                    mark_as
                } else {
                    old(self)@[r][c]
                },
    {
        if selected && self.get(row, col) == Cell::Empty {
            self.set(row, col, mark_as);
        }
    }

    /// Empties one cell, if the cell is selected.
    fn empty_if(&mut self, selected: bool, row: usize, col: usize)
        requires
            selected ==> row < GRID_SIZE && col < GRID_SIZE,
        ensures
            forall|r: int, c: int|
                0 <= r < GRID_SIZE && 0 <= c < GRID_SIZE ==> #[trigger] final(self)@[r][c] == if selected
                    && r == row && c == col {
                    Cell::Empty
                } else {
                    old(self)@[r][c]
                },
    {
        if selected {
            self.set(row, col, Cell::Empty);
        }
    }

    /// Draws a piece: writes `mark_as` to each cell that the mask selects and that is
    /// empty. A selected cell that holds anything else is left alone.
    pub fn place(&mut self, piece: PieceShape, anchor: PieceLocation, mark_as: Cell)
        requires
            piece.fits(anchor),
        ensures
            final(self)@ == spec_place(old(self)@, piece, anchor, mark_as),
    {
        let row = anchor.row;
        let col = anchor.col;
        self.mark_if_empty(piece.bottom_left, row, col, mark_as);
        self.mark_if_empty(piece.top_left, row - 1, col, mark_as);
        self.mark_if_empty(piece.bottom_right, row, col + 1, mark_as);
        self.mark_if_empty(piece.top_right, row - 1, col + 1, mark_as);
        assert(self@ =~~= spec_place(old(self)@, piece, anchor, mark_as));
    }

    /// Takes a piece out: empties each cell that the mask selects, whatever it holds.
    pub fn erase(&mut self, piece: PieceShape, anchor: PieceLocation)
        requires
            piece.fits(anchor),
        ensures
            final(self)@ == spec_erase(old(self)@, piece, anchor),
    {
        let row = anchor.row;
        let col = anchor.col;
        self.empty_if(piece.bottom_left, row, col);
        self.empty_if(piece.top_left, row - 1, col);
        self.empty_if(piece.bottom_right, row, col + 1);
        self.empty_if(piece.top_right, row - 1, col + 1);
        assert(self@ =~~= spec_erase(old(self)@, piece, anchor));
    }
}

} // verus!
