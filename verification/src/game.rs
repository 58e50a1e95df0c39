//! The state of a game and the rules that move it on by one tick.

use crate::grid::Cell;
use crate::grid::Grid;
use crate::grid::FLOOR_ROW;
use crate::grid::GRID_SIZE;
use crate::grid::LAST_COL;
use crate::input::requested;
use crate::input::InputSnapshot;
use crate::placement::spec_commit;
use crate::placement::spec_erase;
use crate::placement::spec_place;
use crate::rows::full_row_count;
use crate::rows::spec_check_rows;
use crate::tetrominos::get_random_tetromino;
use crate::tetrominos::rotate_clockwise;
use crate::tetrominos::spec_rotate_clockwise;
use crate::tetrominos::PieceShape;
use nanorand::Pcg64;
use vstd::prelude::*;

verus! {

/// Where a piece is: the row and column of the bottom left cell of its bounding box.
/// The other three cells of the box are one row up, one column right, and both.
#[derive(Clone, Copy, PartialEq, Eq, Debug, Structural)]
pub struct PieceLocation {
    pub row: usize,
    pub col: usize,
}

/// Row in which a piece starts.
pub const INITIAL_ROW: usize = 1;

/// Column in which a piece starts.
pub const INITIAL_COL: usize = 2;

/// Where a piece starts: top middle.
pub open spec fn spec_initial_location() -> PieceLocation {
    PieceLocation { row: INITIAL_ROW, col: INITIAL_COL }
}

/// Where a piece starts: top middle.
#[verifier::when_used_as_spec(spec_initial_location)]
pub fn initial_location() -> (anchor: PieceLocation)
    ensures
        anchor == spec_initial_location(),
{
    PieceLocation { row: INITIAL_ROW, col: INITIAL_COL }
}

/// What one tick came to.
#[derive(Clone, Copy, PartialEq, Eq, Debug, Structural)]
pub enum StepOutcome {
    /// The game goes on; so many rows were cleared in this tick.
    RowsCleared(u8),
    /// The stack has reached the top row.
    GameOver,
}

/// Number of beeps that a tick calls for: one for each row cleared, none when the
/// game is over.
pub open spec fn spec_beeps_due(outcome: StepOutcome) -> u8 {
    match outcome {
        StepOutcome::RowsCleared(count) => count,
        StepOutcome::GameOver => 0,
    }
}

/// Number of beeps that a tick calls for: one for each row cleared, none when the
/// game is over.
#[verifier::when_used_as_spec(spec_beeps_due)]
pub fn beeps_due(outcome: StepOutcome) -> (beeps: u8)
    ensures
        beeps == spec_beeps_due(outcome),
{
    match outcome {
        StepOutcome::RowsCleared(count) => count,
        StepOutcome::GameOver => 0,
    }
}

/// True when the top row holds a landed cell.
pub open spec fn top_row_landed(grid: Seq<Seq<Cell>>) -> bool {
    ||| grid[0][0] == Cell::Landed
    ||| grid[0][1] == Cell::Landed
    ||| grid[0][2] == Cell::Landed
    ||| grid[0][3] == Cell::Landed
    ||| grid[0][4] == Cell::Landed
}

/// A game as the rules see it: the falling piece, where it is, and the playfield.
pub struct Game {
    pub piece: PieceShape,
    pub anchor: PieceLocation,
    pub grid: Seq<Seq<Cell>>,
}

impl Game {
    /// The piece selects cells of the playfield only.
    pub open spec fn wf(self) -> bool {
        self.piece.fits(self.anchor)
    }

    /// The game after a request to move left: nothing changes in the leftmost column;
    /// elsewhere the piece is taken out, put one column to the left and drawn again.
    pub open spec fn move_left(self) -> Game {
        if self.anchor.col == 0 {
            self
        } else {
            let anchor = PieceLocation { row: self.anchor.row, col: (self.anchor.col - 1) as usize };
            Game {
                piece: self.piece,
                anchor,
                grid: spec_place(
                    spec_erase(self.grid, self.piece, self.anchor),
                    self.piece,
                    anchor,
                    Cell::Falling,
                ),
            }
        }
    }

    /// The game after a request to move right: nothing changes where the bounding box
    /// touches the right edge; elsewhere the piece is taken out, put one column to the
    /// right and drawn again.
    pub open spec fn move_right(self) -> Game {
        if self.anchor.col + 1 == LAST_COL {
            self
        } else {
            let anchor = PieceLocation { row: self.anchor.row, col: (self.anchor.col + 1) as usize };
            Game {
                piece: self.piece,
                anchor,
                grid: spec_place(
                    spec_erase(self.grid, self.piece, self.anchor),
                    self.piece,
                    anchor,
                    Cell::Falling,
                ),
            }
        }
    }

    /// The game after a request to rotate: the piece is taken out, turned clockwise
    /// and drawn again in the same place. An anchor in column 4 would block the turn.
    pub open spec fn rotate(self) -> Game {
        if self.anchor.col == LAST_COL {
            self
        } else {
            let piece = spec_rotate_clockwise(self.piece);
            Game {
                piece,
                anchor: self.anchor,
                grid: spec_place(
                    spec_erase(self.grid, self.piece, self.anchor),
                    piece,
                    self.anchor,
                    Cell::Falling,
                ),
            }
        }
    }

    /// The game after the requests of one tick were served: first the move to the
    /// left, then the move to the right, then the turn.
    pub open spec fn steer(self, input: InputSnapshot) -> Game {
        let left = if requested(input.move_left) {
            self.move_left()
        } else {
            self
        };
        let right = if requested(input.move_right) {
            left.move_right()
        } else {
            left
        };
        if requested(input.rotate) {
            right.rotate()
        } else {
            right
        }
    }

    /// True when the piece cannot fall any further. A piece with a cell in its bottom
    /// row rests in row 4, or where a landed cell lies right under one of its cells.
    /// A piece without one rests in row 5, or where a landed cell lies in the bottom
    /// row of its bounding box.
    pub open spec fn rests(self) -> bool {
        let row = self.anchor.row as int;
        let col = self.anchor.col as int;
        if self.piece.bottom_left || self.piece.bottom_right {
            ||| row == FLOOR_ROW
            ||| self.piece.bottom_left && self.grid[row + 1][col] == Cell::Landed
            ||| self.piece.bottom_right && self.grid[row + 1][col + 1] == Cell::Landed
            ||| self.piece.top_left && self.grid[row][col] == Cell::Landed
            ||| self.piece.top_right && self.grid[row][col + 1] == Cell::Landed
        } else {
            ||| row == GRID_SIZE
            ||| self.grid[row][col] == Cell::Landed
            ||| self.grid[row][col + 1] == Cell::Landed
        }
    }

    /// The game after the piece joined the stack, and whether the game is over. The
    /// cells of the piece are landed. If the top row then holds a landed cell the game
    /// is over and the piece stays as it is; else no piece is left and the anchor is
    /// back at its start.
    pub open spec fn commit(self) -> (Game, bool) {
        let grid = spec_commit(self.grid, self.piece, self.anchor);
        if top_row_landed(grid) {
            (Game { piece: self.piece, anchor: self.anchor, grid }, true)
        } else {
            (Game { piece: PieceShape::none(), anchor: initial_location(), grid }, false)
        }
    }

    /// The game after gravity acted once, and whether the game is over: a piece that
    /// rests joins the stack, any other falls by one row.
    pub open spec fn fall(self) -> (Game, bool) {
        if self.rests() {
            self.commit()
        } else {
            let anchor = PieceLocation { row: (self.anchor.row + 1) as usize, col: self.anchor.col };
            (
                Game {
                    piece: self.piece,
                    anchor,
                    grid: spec_place(
                        spec_erase(self.grid, self.piece, self.anchor),
                        self.piece,
                        anchor,
                        Cell::Falling,
                    ),
                },
                false,
            )
        }
    }

    /// The game after a new piece of the given shape came in at the start anchor.
    pub open spec fn spawn(self, shape: PieceShape) -> Game {
        Game {
            piece: shape,
            anchor: initial_location(),
            grid: spec_place(self.grid, shape, initial_location(), Cell::Falling),
        }
    }

    /// The game after a tick in which a piece is falling, and what the tick came to:
    /// gravity acts once; unless the game is over, full rows are cleared and counted.
    pub open spec fn advance(self) -> (Game, StepOutcome) {
        let (fallen, over) = self.fall();
        if over {
            (fallen, StepOutcome::GameOver)
        } else {
            (
                Game {
                    piece: fallen.piece,
                    anchor: fallen.anchor,
                    grid: spec_check_rows(fallen.grid),
                },
                StepOutcome::RowsCleared(full_row_count(fallen.grid, GRID_SIZE as int) as u8),
            )
        }
    }

    /// The game after one tick, and what the tick came to. With no piece falling, the
    /// drawn shape comes in and gravity waits for the next tick; else see `advance`.
    pub open spec fn step(self, drawn: PieceShape) -> (Game, StepOutcome) {
        if self.piece.is_none() {
            (self.spawn(drawn), StepOutcome::RowsCleared(0))
        } else {
            self.advance()
        }
    }
}

/// No rule moves the piece out of the playfield: from a game in which the piece
/// selects cells of the playfield only, every rule leads to such a game again. A
/// piece that hangs over the floor is not turned.
pub proof fn rules_keep_piece_in_grid(game: Game, drawn: PieceShape)
    requires
        game.wf(),
    ensures
        game.move_left().wf(),
        game.move_right().wf(),
        game.anchor.row <= FLOOR_ROW ==> game.rotate().wf(),
        forall|input: InputSnapshot|
            game.anchor.row <= FLOOR_ROW || !requested(input.rotate) ==> (#[trigger] game.steer(
                input,
            )).wf(),
        game.commit().0.wf(),
        game.fall().0.wf(),
        game.spawn(drawn).wf(),
        game.advance().0.wf(),
        game.step(drawn).0.wf(),
{
}

/// A move to the side never changes the row, and does nothing at all at the edge
/// it moves towards.
pub proof fn moves_keep_row(game: Game)
    ensures
        game.move_left().anchor.row == game.anchor.row,
        game.move_right().anchor.row == game.anchor.row,
        game.anchor.col == 0 ==> game.move_left() == game,
        game.anchor.col + 1 == LAST_COL ==> game.move_right() == game,
{
}

/// Once a tick has ended the game, every further tick ends it again and changes
/// nothing: no piece comes in until the caller starts from a new state.
pub proof fn game_over_is_final(game: Game, drawn: PieceShape, later: PieceShape)
    requires
        game.wf(),
        game.step(drawn).1 == StepOutcome::GameOver,
    ensures
        game.step(drawn).0.step(later) == game.step(drawn),
{
    let over = game.step(drawn).0;
    assert(!game.piece.is_none());
    assert(game.rests());
    assert(over.grid == spec_commit(game.grid, game.piece, game.anchor));
    assert(over.rests());
    assert(spec_commit(over.grid, over.piece, over.anchor) =~~= over.grid);
}

/// The falling piece of a game and where it is. The playfield is not part of it: the
/// caller owns it and hands it in with each call.
pub struct GameState {
    falling_piece: PieceShape,
    fall_loc: PieceLocation,
}

impl GameState {
    #[verifier::type_invariant]
    spec fn anchored(&self) -> bool {
        self.falling_piece.fits(self.fall_loc)
    }

    /// The falling piece; the mask with no cell set when none is falling.
    pub closed spec fn piece(&self) -> PieceShape {
        self.falling_piece
    }

    /// The anchor of the falling piece.
    pub closed spec fn anchor(&self) -> PieceLocation {
        self.fall_loc
    }

    /// The game that this state and a playfield make up.
    pub open spec fn with(&self, grid: &Grid) -> Game {
        Game { piece: self.piece(), anchor: self.anchor(), grid: grid@ }
    }

    /// A game in which no piece is falling yet.
    pub fn new() -> (state: GameState)
        ensures
            state.piece() == PieceShape::none(),
            state.anchor() == initial_location(),
    {
        GameState { falling_piece: PieceShape::none(), fall_loc: initial_location() }
    }

    /// The falling piece; the mask with no cell set when none is falling.
    pub fn falling_piece(&self) -> (piece: PieceShape)
        ensures
            piece == self.piece(),
            piece.fits(self.anchor()),
    {
        proof {
            use_type_invariant(self);
        }
        self.falling_piece
    }

    /// The anchor of the falling piece.
    pub fn fall_loc(&self) -> (anchor: PieceLocation)
        ensures
            anchor == self.anchor(),
            self.piece().fits(anchor),
    {
        proof {
            use_type_invariant(self);
        }
        self.fall_loc
    }

    /// Draws the falling piece into the playfield.
    pub fn place_piece(&self, grid: &mut Grid)
        ensures
            final(grid)@ == spec_place(old(grid)@, self.piece(), self.anchor(), Cell::Falling),
    {
        proof {
            use_type_invariant(self);
        }
        grid.place(self.falling_piece, self.fall_loc, Cell::Falling);
    }

    /// Moves the falling piece one column to the left, unless it is in the leftmost
    /// column already.
    pub fn move_left(&mut self, grid: &mut Grid)
        ensures
            final(self).with(final(grid)) == old(self).with(old(grid)).move_left(),
            final(self).with(final(grid)).wf(),
            final(self).anchor().row == old(self).anchor().row,
            old(self).anchor().col == 0 ==> *final(self) == *old(self) && final(grid)@ == old(
                grid,
            )@,
    {
        proof {
            use_type_invariant(&*self);
        }
        if self.fall_loc.col != 0 {
            grid.erase(self.falling_piece, self.fall_loc);
            self.fall_loc.col -= 1;
            self.place_piece(grid);
        }
    }

    /// Moves the falling piece one column to the right, unless its bounding box touches
    /// the right edge already.
    pub fn move_right(&mut self, grid: &mut Grid)
        ensures
            final(self).with(final(grid)) == old(self).with(old(grid)).move_right(),
            final(self).with(final(grid)).wf(),
            final(self).anchor().row == old(self).anchor().row,
            old(self).anchor().col + 1 == LAST_COL ==> *final(self) == *old(self) && final(grid)@ == old(
                grid,
            )@,
    {
        proof {
            use_type_invariant(&*self);
        }
        if self.fall_loc.col + 1 != LAST_COL {
            grid.erase(self.falling_piece, self.fall_loc);
            self.fall_loc.col += 1;
            self.place_piece(grid);
        }
    }

    /// Turns the falling piece clockwise by 90 degrees, in place. The bounding box must
    /// lie in the playfield: a piece that hangs over the floor cannot be turned.
    pub fn rotate_piece(&mut self, grid: &mut Grid)
        requires
            old(self).anchor().row <= FLOOR_ROW,
        ensures
            final(self).with(final(grid)) == old(self).with(old(grid)).rotate(),
            final(self).with(final(grid)).wf(),
            final(self).piece() == rotate_clockwise(old(self).piece()),
            final(self).anchor() == old(self).anchor(),
    {
        proof {
            use_type_invariant(&*self);
        }
        if self.fall_loc.col != LAST_COL {
            grid.erase(self.falling_piece, self.fall_loc);
            self.falling_piece = rotate_clockwise(self.falling_piece);
            self.place_piece(grid);
        }
    }

    /// Serves the requests of one tick: the move to the left, the move to the right
    /// and the turn, in this order. A turn may be asked for only while the bounding
    /// box of the piece lies in the playfield.
    pub fn steer(&mut self, grid: &mut Grid, input: &InputSnapshot)
        requires
            requested(input.rotate) ==> old(self).anchor().row <= FLOOR_ROW,
        ensures
            final(self).with(final(grid)) == old(self).with(old(grid)).steer(*input),
            final(self).with(final(grid)).wf(),
            final(self).anchor().row == old(self).anchor().row,
    {
        if requested(input.move_left) {
            self.move_left(grid);
        }
        if requested(input.move_right) {
            self.move_right(grid);
        }
        if requested(input.rotate) {
            self.rotate_piece(grid);
        }
        proof {
            use_type_invariant(&*self);
        }
    }

    /// Tells whether the top row holds a landed cell.
    pub fn check_column(&self, grid: &Grid) -> (reached: bool)
        ensures
            reached == top_row_landed(grid@),
    {
        let mut col: usize = 0;
        while col < GRID_SIZE
            invariant
                col <= GRID_SIZE,
                forall|c: int| 0 <= c < col ==> grid@[0][c] != Cell::Landed,
            decreases GRID_SIZE - col,
        {
            if grid.get(0, col) == Cell::Landed {
                return true;
            }
            col += 1;
        }
        false
    }

    /// Adds the falling piece to the stack: its cells become landed. Returns false,
    /// and leaves the state as it is, if the stack has then reached the top row: the
    /// game is over. Else no piece is falling any more, the anchor is back at its
    /// start, and true is returned.
    pub fn add_piece(&mut self, grid: &mut Grid) -> (added: bool)
        ensures
            (final(self).with(final(grid)), !added) == old(self).with(old(grid)).commit(),
            final(self).with(final(grid)).wf(),
    {
        proof {
            use_type_invariant(&*self);
            crate::placement::erase_then_place_landed_commits(
                grid@,
                self.falling_piece,
                self.fall_loc,
            );
        }
        grid.erase(self.falling_piece, self.fall_loc);
        grid.place(self.falling_piece, self.fall_loc, Cell::Landed);
        if self.check_column(grid) {
            return false;
        }
        self.falling_piece = PieceShape::none();
        self.fall_loc = initial_location();
        true
    }

    /// Lets gravity act once on the falling piece. A piece that rests on the floor or
    /// on the stack is added to the stack; any other moves down by one row. Returns
    /// true if the game is over.
    pub fn drop_piece(&mut self, grid: &mut Grid) -> (over: bool)
        ensures
            (final(self).with(final(grid)), over) == old(self).with(old(grid)).fall(),
            final(self).with(final(grid)).wf(),
    {
        proof {
            use_type_invariant(&*self);
        }
        let piece = self.falling_piece;
        let row = self.fall_loc.row;
        let col = self.fall_loc.col;
        let rests = if piece.bottom_left || piece.bottom_right {
            row == FLOOR_ROW
                || (piece.bottom_left && grid.get(row + 1, col) == Cell::Landed)
                || (piece.bottom_right && grid.get(row + 1, col + 1) == Cell::Landed)
                || (piece.top_left && grid.get(row, col) == Cell::Landed)
                || (piece.top_right && grid.get(row, col + 1) == Cell::Landed)
        } else {
            row == GRID_SIZE
                || grid.get(row, col) == Cell::Landed
                || grid.get(row, col + 1) == Cell::Landed
        };
        if rests {
            return !self.add_piece(grid);
        }
        grid.erase(self.falling_piece, self.fall_loc);
        self.fall_loc.row += 1;
        self.place_piece(grid);
        false
    }

    /// Clears the full rows of the playfield and lets the stack settle. Returns the
    /// number of rows cleared. The falling piece is not touched.
    pub fn check_rows(&mut self, grid: &mut Grid) -> (count: u8)
        ensures
            final(grid)@ == spec_check_rows(old(grid)@),
            count == full_row_count(old(grid)@, GRID_SIZE as int),
            count <= GRID_SIZE,
            *final(self) == *old(self),
    {
        grid.clear_full_rows()
    }

    /// Brings in a new piece of the given shape at the start anchor and draws it.
    pub fn spawn(&mut self, grid: &mut Grid, shape: PieceShape)
        ensures
            final(self).with(final(grid)) == old(self).with(old(grid)).spawn(shape),
            final(self).with(final(grid)).wf(),
    {
        self.fall_loc = initial_location();
        self.falling_piece = shape;
        self.place_piece(grid);
    }

    /// Moves the game on by one tick once a piece is falling: gravity acts once, then
    /// full rows are cleared, unless the game is over.
    pub fn advance(&mut self, grid: &mut Grid) -> (outcome: StepOutcome)
        ensures
            (final(self).with(final(grid)), outcome) == old(self).with(old(grid)).advance(),
            final(self).with(final(grid)).wf(),
    {
        if self.drop_piece(grid) {
            return StepOutcome::GameOver;
        }
        StepOutcome::RowsCleared(self.check_rows(grid))
    }

    /// Moves the game on by one tick. With no piece falling, a shape is drawn from a
    /// generator made from `seed` and comes in at the start anchor; gravity does not
    /// act in that tick. Else the tick is that of `advance`.
    pub fn step(&mut self, grid: &mut Grid, seed: u128) -> (outcome: StepOutcome)
        ensures
            old(self).piece().is_none() ==> {
                &&& final(self).piece().in_catalog()
                &&& final(self).with(final(grid)) == old(self).with(old(grid)).spawn(
                    final(self).piece(),
                )
                &&& outcome == StepOutcome::RowsCleared(0)
            },
            !old(self).piece().is_none() ==> (final(self).with(final(grid)), outcome) == old(
                self,
            ).with(old(grid)).advance(),
            final(self).with(final(grid)).wf(),
    {
        let mut rng = Pcg64::new_seed(seed);
        if self.falling_piece.is_none() {
            let shape = get_random_tetromino(&mut rng);
            self.spawn(grid, shape);
            StepOutcome::RowsCleared(0)
        } else {
            self.advance(grid)
        }
    }
}

} // verus!
