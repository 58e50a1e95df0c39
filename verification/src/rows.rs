//! Clearing full rows and letting the stack settle.

use crate::grid::Cell;
use crate::grid::Grid;
use crate::grid::FLOOR_ROW;
use crate::grid::GRID_SIZE;
use vstd::prelude::*;

verus! {

/// A row is full when each of its five cells is landed.
pub open spec fn row_full(grid: Seq<Seq<Cell>>, r: int) -> bool {
    &&& grid[r][0] == Cell::Landed
    &&& grid[r][1] == Cell::Landed
    &&& grid[r][2] == Cell::Landed
    &&& grid[r][3] == Cell::Landed
    &&& grid[r][4] == Cell::Landed
}

/// Number of full rows among the rows above row `below`.
pub open spec fn full_row_count(grid: Seq<Seq<Cell>>, below: int) -> int
    decreases below,
{
    if below <= 0 {
        0
    } else if row_full(grid, below - 1) {
        full_row_count(grid, below - 1) + 1
    } else {
        full_row_count(grid, below - 1)
    }
}

/// The playfield with each full row emptied.
pub open spec fn spec_clear_full(grid: Seq<Seq<Cell>>) -> Seq<Seq<Cell>> {
    Seq::new(
        GRID_SIZE as nat,
        |r: int|
            Seq::new(
                GRID_SIZE as nat,
                |c: int|
                    if row_full(grid, r) {
                        Cell::Empty
                    } else {
                        grid[r][c]
                    },
            ),
    )
}

/// One column of the playfield, from top to bottom.
pub open spec fn column_of(grid: Seq<Seq<Cell>>, c: int) -> Seq<Cell> {
    Seq::new(GRID_SIZE as nat, |r: int| grid[r][c])
}

/// 1 for a landed cell, 0 for any other.
pub open spec fn stack_cell(cell: Cell) -> int {
    if cell == Cell::Landed {
        1
    } else {
        0
    }
}

/// Number of cells under row `r` of a column that a stack cell could sink through: the
/// cells down to the floor, or down to the next falling cell, which holds its place.
pub open spec fn depth_below(col: Seq<Cell>, r: int) -> int
    decreases FLOOR_ROW - r,
{
    if r >= FLOOR_ROW || col[r + 1] == Cell::Falling {
        0
    } else {
        1 + depth_below(col, r + 1)
    }
}

/// Number of landed cells from row `r` upwards, as far as row `limit` and no further
/// than the next falling cell.
pub open spec fn stack_up(col: Seq<Cell>, r: int, limit: int) -> int
    decreases r - limit + 1,
{
    if r < limit || r < 0 || col[r] == Cell::Falling {
        0
    } else {
        stack_cell(col[r]) + stack_up(col, r - 1, limit)
    }
}

/// Number of landed cells from row `r` downwards, no further than the next falling
/// cell.
pub open spec fn stack_down(col: Seq<Cell>, r: int) -> int
    decreases GRID_SIZE - r,
{
    if r > FLOOR_ROW || col[r] == Cell::Falling {
        0
    } else {
        stack_cell(col[r]) + stack_down(col, r + 1)
    }
}

/// What row `r` of a column holds once the landed cells of the rows from `limit` down
/// have sunk as far as they can. A falling cell holds its place. Any other cell ends
/// landed exactly when the landed cells that share its stretch of the column, between
/// two falling cells or the ends of the column, outnumber the cells under it.
pub open spec fn settled_from(col: Seq<Cell>, limit: int, r: int) -> Cell {
    if col[r] == Cell::Falling {
        Cell::Falling
    } else if depth_below(col, r) < stack_up(col, r, limit) + stack_down(col, r + 1) {
        Cell::Landed
    } else {
        Cell::Empty
    }
}

/// What row `r` of a column holds once all its landed cells have sunk.
pub open spec fn settled_cell(col: Seq<Cell>, r: int) -> Cell {
    settled_from(col, 0, r)
}

/// The playfield with the landed cells of every column sunk as far as they can.
pub open spec fn spec_settle(grid: Seq<Seq<Cell>>) -> Seq<Seq<Cell>> {
    Seq::new(
        GRID_SIZE as nat,
        |r: int| Seq::new(GRID_SIZE as nat, |c: int| settled_cell(column_of(grid, c), r)),
    )
}

/// The playfield after its full rows were emptied and the stack has settled.
pub open spec fn spec_check_rows(grid: Seq<Seq<Cell>>) -> Seq<Seq<Cell>> {
    spec_settle(spec_clear_full(grid))
}

/// True when the cell in row `r` and column `c` is landed and the cell right under it
/// is empty.
pub open spec fn overhangs(grid: Seq<Seq<Cell>>, r: int, c: int) -> bool {
    grid[r][c] == Cell::Landed && grid[r + 1][c] == Cell::Empty
}

/// No landed cell has an empty cell right under it.
pub open spec fn settled(grid: Seq<Seq<Cell>>) -> bool {
    forall|r: int, c: int|
        0 <= r < FLOOR_ROW && 0 <= c < GRID_SIZE ==> !#[trigger] overhangs(grid, r, c)
}

/// Number of landed cells in the rows of a column from row `from` down.
pub open spec fn landed_from(col: Seq<Cell>, from: int) -> int
    decreases GRID_SIZE - from,
{
    if from >= GRID_SIZE {
        0
    } else {
        stack_cell(col[from]) + landed_from(col, from + 1)
    }
}

/// True when settling fills row `r` again after the clear: in every column, row `r`
/// ends landed.
pub open spec fn refills(grid: Seq<Seq<Cell>>, r: int) -> bool {
    let cleared = spec_clear_full(grid);
    forall|c: int|
        0 <= c < GRID_SIZE ==> {
            let column = #[trigger] column_of(cleared, c);
            &&& column[r] != Cell::Falling
            &&& depth_below(column, r) < stack_up(column, r, 0) + stack_down(column, r + 1)
        }
}

impl Grid {
    /// Tells whether all five cells of a row are landed.
    pub fn row_is_full(&self, row: usize) -> (full: bool)
        requires
            row < GRID_SIZE,
        ensures
            full == row_full(self@, row as int),
    {
        self.get(row, 0) == Cell::Landed
            && self.get(row, 1) == Cell::Landed
            && self.get(row, 2) == Cell::Landed
            && self.get(row, 3) == Cell::Landed
            && self.get(row, 4) == Cell::Landed
    }

    /// Empties every full row, then lets the landed cells of every column sink until
    /// each rests on the floor, on another landed cell or on a falling cell. Returns the
    /// number of rows that were full.
    pub fn clear_full_rows(&mut self) -> (count: u8)
        ensures
            final(self)@ == spec_check_rows(old(self)@),
            count == full_row_count(old(self)@, GRID_SIZE as int),
            count <= GRID_SIZE,
    {
        let ghost before = self@;
        let mut count: u8 = 0;
        let mut full_rows: [bool; GRID_SIZE] = [false; GRID_SIZE];
        let mut row: usize = 0;
        while row < GRID_SIZE
            invariant
                row <= GRID_SIZE,
                self@ == before,
                count <= row,
                count == full_row_count(before, row as int),
                forall|r: int| 0 <= r < row ==> full_rows[r] == row_full(before, r),
            decreases GRID_SIZE - row,
        {
            let full = self.row_is_full(row);
            full_rows[row] = full;
            if full {
                count += 1;
            }
            row += 1;
        }
        let mut row: usize = GRID_SIZE;
        while row > 0
            invariant
                row <= GRID_SIZE,
                forall|r: int| 0 <= r < GRID_SIZE ==> full_rows[r] == row_full(before, r),
                forall|r: int, c: int|
                    0 <= r < GRID_SIZE && 0 <= c < GRID_SIZE ==> #[trigger] self@[r][c] == if r >= row {
                        spec_clear_full(before)[r][c]
                    } else {
                        before[r][c]
                    },
            decreases row,
        {
            row -= 1;
            if full_rows[row] {
                let mut col: usize = 0;
                while col < GRID_SIZE
                    invariant
                        row < GRID_SIZE,
                        col <= GRID_SIZE,
                        row_full(before, row as int),
                        forall|r: int, c: int|
                            0 <= r < GRID_SIZE && 0 <= c < GRID_SIZE ==> #[trigger] self@[r][c] == if r > row || (r == row
                                && c < col) {
                                spec_clear_full(before)[r][c]
                            } else {
                                before[r][c]
                            },
                    decreases GRID_SIZE - col,
                {
                    self.set(row, col, Cell::Empty);
                    col += 1;
                }
            }
        }
        assert(self@ =~~= spec_clear_full(before));
        let ghost cleared = self@;
        let mut col: usize = 0;
        while col < GRID_SIZE
            invariant
                col <= GRID_SIZE,
                forall|r: int, c: int|
                    0 <= r < GRID_SIZE && 0 <= c < GRID_SIZE ==> #[trigger] self@[r][c] == if c < col {
                        settled_cell(column_of(cleared, c), r)
                    } else {
                        cleared[r][c]
                    },
            decreases GRID_SIZE - col,
        {
            let ghost column = column_of(cleared, col as int);
            let mut row: usize = GRID_SIZE;
            while row > 0
                invariant
                    row <= GRID_SIZE,
                    col < GRID_SIZE,
                    column == column_of(cleared, col as int),
                    forall|r: int|
                        0 <= r < GRID_SIZE ==> #[trigger] self@[r][col as int] == pass_cell(
                            column,
                            row as int,
                            r,
                        ),
                    forall|r: int, c: int|
                        0 <= r < GRID_SIZE && 0 <= c < GRID_SIZE && c != col ==> #[trigger] self@[r][c] == if c < col {
                            settled_cell(column_of(cleared, c), r)
                        } else {
                            cleared[r][c]
                        },
                decreases row,
            {
                row -= 1;
                if self.get(row, col) == Cell::Landed {
                    let mut curr: usize = row;
                    proof {
                        lemma_stack_down_bounded(column, row as int);
                    }
                    while curr != FLOOR_ROW && self.get(curr + 1, col) == Cell::Empty
                        invariant
                            row <= curr <= FLOOR_ROW,
                            col < GRID_SIZE,
                            column == column_of(cleared, col as int),
                            column[row as int] == Cell::Landed,
                            free_stretch(column, row as int, curr as int),
                            depth_below(column, curr as int) >= stack_up(
                                column,
                                curr as int,
                                row + 1,
                            ) + stack_down(column, curr + 1),
                            forall|r: int|
                                0 <= r < GRID_SIZE ==> #[trigger] self@[r][col as int] == sink_cell(
                                    column,
                                    row as int,
                                    curr as int,
                                    r,
                                ),
                            forall|r: int, c: int|
                                0 <= r < GRID_SIZE && 0 <= c < GRID_SIZE && c != col ==> #[trigger] self@[r][c] == if c
                                    < col {
                                    settled_cell(column_of(cleared, c), r)
                                } else {
                                    cleared[r][c]
                                },
                        decreases FLOOR_ROW - curr,
                    {
                        self.set(curr + 1, col, Cell::Landed);
                        self.set(curr, col, Cell::Empty);
                        curr += 1;
                    }
                    proof {
                        lemma_sink_done(column, row as int, curr as int);
                    }
                } else {
                    proof {
                        lemma_pass_keeps(column, row as int);
                    }
                }
            }
            col += 1;
        }
        assert(self@ =~~= spec_settle(cleared));
        count
    }
}

/// After a clear the stack is settled: no landed cell has an empty cell right under it.
pub proof fn check_rows_settles(grid: Seq<Seq<Cell>>)
    ensures
        settled(spec_check_rows(grid)),
{
    let cleared = spec_clear_full(grid);
    let after = spec_check_rows(grid);
    assert forall|r: int, c: int| 0 <= r < FLOOR_ROW && 0 <= c < GRID_SIZE implies !#[trigger] overhangs(
        after,
        r,
        c,
    ) by {
        let column = column_of(cleared, c);
        if overhangs(after, r, c) {
            assert(free_stretch(column, r, r + 1));
            lemma_stretch(column, 0, r, r + 1);
        }
    }
}

/// Where no piece is falling, no landed cell lies anywhere above an empty cell after a
/// clear.
pub proof fn check_rows_leaves_no_gap_under_the_stack(
    grid: Seq<Seq<Cell>>,
    c: int,
    upper: int,
    lower: int,
)
    requires
        0 <= upper < lower < GRID_SIZE,
        0 <= c < GRID_SIZE,
        forall|i: int, j: int|
            0 <= i < GRID_SIZE && 0 <= j < GRID_SIZE ==> #[trigger] grid[i][j] != Cell::Falling,
    ensures
        !(spec_check_rows(grid)[upper][c] == Cell::Landed && spec_check_rows(grid)[lower][c]
            == Cell::Empty),
{
    let after = spec_check_rows(grid);
    check_rows_settles(grid);
    assert forall|i: int, j: int| 0 <= i < GRID_SIZE && 0 <= j < GRID_SIZE implies #[trigger] after[i][j]
        != Cell::Falling by {
        check_rows_keeps_falling_cells(grid, i, j);
    }
    if after[lower][c] == Cell::Empty {
        lemma_nothing_overhangs(after, lower, c, upper);
    }
}

/// A clear leaves the falling piece alone: a cell is falling after it exactly when it
/// was falling before.
pub proof fn check_rows_keeps_falling_cells(grid: Seq<Seq<Cell>>, r: int, c: int)
    requires
        0 <= r < GRID_SIZE,
        0 <= c < GRID_SIZE,
    ensures
        (spec_check_rows(grid)[r][c] == Cell::Falling) == (grid[r][c] == Cell::Falling),
{
}

/// Settling keeps every stack cell: each column holds as many landed cells after it
/// as before.
pub proof fn settling_keeps_stack_cells(grid: Seq<Seq<Cell>>, c: int)
    requires
        0 <= c < GRID_SIZE,
    ensures
        landed_from(column_of(spec_settle(grid), c), 0) == landed_from(column_of(grid, c), 0),
{
    let col = column_of(grid, c);
    lemma_pass_keeps_count(col, 4);
    lemma_pass_keeps_count(col, 3);
    lemma_pass_keeps_count(col, 2);
    lemma_pass_keeps_count(col, 1);
    lemma_pass_keeps_count(col, 0);
    assert(pass_column(col, 5) =~= col);
    assert(pass_column(col, 0) =~= column_of(spec_settle(grid), c));
}

/// Emptying the full rows leaves no full row.
pub proof fn clear_leaves_no_full_row(grid: Seq<Seq<Cell>>, r: int)
    requires
        0 <= r < GRID_SIZE,
    ensures
        !row_full(spec_clear_full(grid), r),
{
}

/// After a clear no row is full, unless the stack cells left over sank into one: the
/// columns settle each for itself, so cells from different rows can come to lie side by
/// side.
pub proof fn no_full_row_after_check_rows(grid: Seq<Seq<Cell>>, r: int)
    requires
        0 <= r < GRID_SIZE,
        !refills(grid, r),
    ensures
        !row_full(spec_check_rows(grid), r),
{
    let cleared = spec_clear_full(grid);
    let c = choose|c: int|
        0 <= c < GRID_SIZE && !{
            let column = #[trigger] column_of(cleared, c);
            &&& column[r] != Cell::Falling
            &&& depth_below(column, r) < stack_up(column, r, 0) + stack_down(column, r + 1)
        };
    assert(spec_check_rows(grid)[r][c] != Cell::Landed);
}

/// A row is full after a clear exactly when settling has filled it.
pub proof fn full_after_check_rows_is_refilled(grid: Seq<Seq<Cell>>, r: int)
    requires
        0 <= r < GRID_SIZE,
    ensures
        row_full(spec_check_rows(grid), r) == refills(grid, r),
{
    let cleared = spec_clear_full(grid);
    let after = spec_check_rows(grid);
    if row_full(after, r) {
        assert forall|c: int| 0 <= c < GRID_SIZE implies {
            let column = #[trigger] column_of(cleared, c);
            &&& column[r] != Cell::Falling
            &&& depth_below(column, r) < stack_up(column, r, 0) + stack_down(column, r + 1)
        } by {
            assert(c == 0 || c == 1 || c == 2 || c == 3 || c == 4);
            assert(after[r][c] == Cell::Landed);
        }
    }
    if refills(grid, r) {
        assert(after[r][0] == settled_cell(column_of(cleared, 0), r));
        assert(after[r][1] == settled_cell(column_of(cleared, 1), r));
        assert(after[r][2] == settled_cell(column_of(cleared, 2), r));
        assert(after[r][3] == settled_cell(column_of(cleared, 3), r));
        assert(after[r][4] == settled_cell(column_of(cleared, 4), r));
    }
}

/// Where no piece is falling and nothing overhangs before the clear, no row is full
/// after it.
pub proof fn settled_stack_has_no_full_row_after(grid: Seq<Seq<Cell>>, r: int)
    requires
        0 <= r < GRID_SIZE,
        settled(grid),
        forall|i: int, j: int| 0 <= i < GRID_SIZE && 0 <= j < GRID_SIZE ==> #[trigger] grid[i][j] != Cell::Falling,
    ensures
        !row_full(spec_check_rows(grid), r),
{
    let low = lemma_lowest_open_row(grid);
    if low < 0 {
        lemma_all_rows_cleared(grid);
        lemma_column_stays_open(grid, r, 0);
    } else {
        let c = lemma_open_cell(grid, low);
        lemma_column_without_stack(grid, low, c);
        lemma_column_stays_open(grid, r, c);
    }
}

/// What row `r` of a column holds while the column is being settled from the bottom
/// up, when the rows from `next` down are done.
spec fn pass_cell(col: Seq<Cell>, next: int, r: int) -> Cell {
    if r < next {
        col[r]
    } else {
        settled_from(col, next, r)
    }
}

/// What row `r` of a column holds while the landed cell of row `from` sinks and has
/// come to row `at`.
spec fn sink_cell(col: Seq<Cell>, from: int, at: int, r: int) -> Cell {
    if r < from {
        col[r]
    } else if r < at {
        Cell::Empty
    } else if r == at {
        Cell::Landed
    } else {
        settled_from(col, from + 1, r)
    }
}

/// No falling cell lies in the rows `from..=to` of the column.
spec fn free_stretch(col: Seq<Cell>, from: int, to: int) -> bool {
    forall|i: int| from <= i <= to ==> #[trigger] col[i] != Cell::Falling
}

/// The landed cells under a row never outnumber the cells under it.
proof fn lemma_stack_down_bounded(col: Seq<Cell>, r: int)
    requires
        col.len() == GRID_SIZE,
        0 <= r <= FLOOR_ROW,
    ensures
        0 <= stack_down(col, r + 1) <= depth_below(col, r),
    decreases FLOOR_ROW - r,
{
    if r < FLOOR_ROW && col[r + 1] != Cell::Falling {
        lemma_stack_down_bounded(col, r + 1);
    }
}

/// Along a stretch without falling cells the depth grows by one per row upwards, and
/// the landed cells counted from a row both ways are the same from every row.
proof fn lemma_stretch(col: Seq<Cell>, limit: int, from: int, to: int)
    requires
        col.len() == GRID_SIZE,
        0 <= from <= to <= FLOOR_ROW,
        limit <= from + 1,
        free_stretch(col, from, to),
    ensures
        depth_below(col, from) == depth_below(col, to) + (to - from),
        stack_up(col, from, limit) + stack_down(col, from + 1) == stack_up(col, to, limit)
            + stack_down(col, to + 1),
    decreases to - from,
{
    if from < to {
        assert(col[from + 1] != Cell::Falling);
        lemma_stretch(col, limit, from + 1, to);
    }
}

/// Counting up to one row further takes in that row's cell, where no falling cell
/// lies between.
proof fn lemma_stack_up_joined(col: Seq<Cell>, k: int, r: int)
    requires
        col.len() == GRID_SIZE,
        0 <= k <= r <= FLOOR_ROW,
        free_stretch(col, k, r),
    ensures
        stack_up(col, r, k) == stack_up(col, r, k + 1) + stack_cell(col[k]),
    decreases r - k,
{
    assert(col[r] != Cell::Falling);
    if k < r {
        lemma_stack_up_joined(col, k, r - 1);
    } else {
        assert(stack_up(col, k - 1, k) == 0);
    }
}

/// A count of landed cells is not negative.
proof fn lemma_stack_up_nonnegative(col: Seq<Cell>, r: int, limit: int)
    ensures
        0 <= stack_up(col, r, limit),
    decreases r - limit + 1,
{
    if !(r < limit || r < 0 || col[r] == Cell::Falling) {
        lemma_stack_up_nonnegative(col, r - 1, limit);
    }
}

/// Counting up to one row further changes nothing where a falling cell lies between.
proof fn lemma_stack_up_apart(col: Seq<Cell>, k: int, r: int)
    requires
        col.len() == GRID_SIZE,
        0 <= k < r <= FLOOR_ROW,
        !free_stretch(col, k + 1, r),
    ensures
        stack_up(col, r, k) == stack_up(col, r, k + 1),
    decreases r - k,
{
    if col[r] != Cell::Falling {
        lemma_stack_up_apart(col, k, r - 1);
    }
}

/// Counting up to one row further changes nothing where that row holds a falling
/// cell.
proof fn lemma_stack_up_blocked(col: Seq<Cell>, k: int, r: int)
    requires
        col.len() == GRID_SIZE,
        0 <= k <= r <= FLOOR_ROW,
        col[k] == Cell::Falling,
    ensures
        stack_up(col, r, k) == stack_up(col, r, k + 1),
    decreases r - k,
{
    if k < r && col[r] != Cell::Falling {
        lemma_stack_up_blocked(col, k, r - 1);
    }
}

/// A row that holds no landed cell leaves the rows under it as they are.
proof fn lemma_pass_keeps(col: Seq<Cell>, k: int)
    requires
        col.len() == GRID_SIZE,
        0 <= k <= FLOOR_ROW,
        col[k] != Cell::Landed,
    ensures
        forall|r: int| 0 <= r < GRID_SIZE ==> pass_cell(col, k + 1, r) == pass_cell(col, k, r),
{
    assert forall|r: int| 0 <= r < GRID_SIZE implies pass_cell(col, k + 1, r) == pass_cell(col, k, r) by {
        if r == k {
            lemma_stack_down_bounded(col, k);
            assert(stack_up(col, k - 1, k) == 0);
        } else if r > k {
            if col[k] == Cell::Falling {
                lemma_stack_up_blocked(col, k, r);
            } else if free_stretch(col, k, r) {
                lemma_stack_up_joined(col, k, r);
            } else {
                assert(!free_stretch(col, k + 1, r));
                lemma_stack_up_apart(col, k, r);
            }
        }
    }
}

/// Where a sinking cell comes to rest, the column is settled one row further up.
proof fn lemma_sink_done(col: Seq<Cell>, k: int, at: int)
    requires
        col.len() == GRID_SIZE,
        0 <= k <= at <= FLOOR_ROW,
        col[k] == Cell::Landed,
        free_stretch(col, k, at),
        depth_below(col, at) >= stack_up(col, at, k + 1) + stack_down(col, at + 1),
        at == FLOOR_ROW || settled_from(col, k + 1, at + 1) != Cell::Empty,
    ensures
        forall|r: int| 0 <= r < GRID_SIZE ==> sink_cell(col, k, at, r) == pass_cell(col, k, r),
{
    let under = stack_up(col, at, k + 1) + stack_down(col, at + 1);
    lemma_stack_down_bounded(col, at);
    lemma_stack_up_nonnegative(col, at, k + 1);
    lemma_stack_up_joined(col, k, at);
    assert(depth_below(col, at) == under) by {
        if at < FLOOR_ROW && col[at + 1] != Cell::Falling {
            assert(free_stretch(col, at, at + 1));
            lemma_stretch(col, k + 1, at, at + 1);
        }
    }
    assert forall|r: int| 0 <= r < GRID_SIZE implies sink_cell(col, k, at, r) == pass_cell(col, k, r) by {
        if k <= r <= at {
            assert(free_stretch(col, k, r));
            assert(free_stretch(col, r, at));
            lemma_stretch(col, k + 1, r, at);
            lemma_stack_up_joined(col, k, r);
        } else if r > at && col[r] != Cell::Falling {
            if free_stretch(col, k, r) {
                assert(free_stretch(col, at, r));
                lemma_stretch(col, k + 1, at, r);
                lemma_stack_up_joined(col, k, r);
            } else {
                assert(!free_stretch(col, k + 1, r));
                lemma_stack_up_apart(col, k, r);
            }
        }
    }
}

/// The column as it stands when the rows from `next` down are settled.
spec fn pass_column(col: Seq<Cell>, next: int) -> Seq<Cell> {
    Seq::new(GRID_SIZE as nat, |r: int| pass_cell(col, next, r))
}

/// A cell never has more room under it than the column has rows, and no falling cell
/// lies in that room.
proof fn lemma_depth_is_free(col: Seq<Cell>, r: int)
    requires
        col.len() == GRID_SIZE,
        0 <= r <= FLOOR_ROW,
        col[r] != Cell::Falling,
    ensures
        0 <= depth_below(col, r) <= FLOOR_ROW - r,
        free_stretch(col, r, r + depth_below(col, r)),
    decreases FLOOR_ROW - r,
{
    if r < FLOOR_ROW && col[r + 1] != Cell::Falling {
        lemma_depth_is_free(col, r + 1);
        assert forall|i: int| r <= i <= r + depth_below(col, r) implies #[trigger] col[i]
            != Cell::Falling by {
            if i > r {
                assert(r + 1 <= i <= r + 1 + depth_below(col, r + 1));
            }
        }
    }
}

/// Two columns that differ in two rows only, where one holds a landed cell above an
/// empty one and the other holds them the other way round, hold as many landed cells.
proof fn lemma_swap_keeps_count(a: Seq<Cell>, b: Seq<Cell>, i: int, j: int)
    requires
        a.len() == GRID_SIZE,
        b.len() == GRID_SIZE,
        0 <= i < j <= FLOOR_ROW,
        a[i] == Cell::Landed,
        a[j] == Cell::Empty,
        b[i] == Cell::Empty,
        b[j] == Cell::Landed,
        forall|r: int| 0 <= r < GRID_SIZE && r != i && r != j ==> #[trigger] a[r] == b[r],
    ensures
        landed_from(a, 0) == landed_from(b, 0),
{
    reveal_with_fuel(landed_from, 6);
    assert(a[0] == b[0] || i == 0);
    assert(a[1] == b[1] || i == 1 || j == 1);
    assert(a[2] == b[2] || i == 2 || j == 2);
    assert(a[3] == b[3] || i == 3 || j == 3);
    assert(a[4] == b[4] || j == 4);
}

/// Settling one more row of a column keeps the number of its landed cells.
proof fn lemma_pass_keeps_count(col: Seq<Cell>, k: int)
    requires
        col.len() == GRID_SIZE,
        0 <= k <= FLOOR_ROW,
    ensures
        landed_from(pass_column(col, k), 0) == landed_from(pass_column(col, k + 1), 0),
{
    let before = pass_column(col, k + 1);
    let after = pass_column(col, k);
    if col[k] != Cell::Landed {
        lemma_pass_keeps(col, k);
        assert(after =~= before);
    } else {
        let under = stack_down(col, k + 1);
        lemma_stack_down_bounded(col, k);
        lemma_depth_is_free(col, k);
        let at = k + depth_below(col, k) - under;
        assert(free_stretch(col, k, at));
        lemma_stretch(col, k + 1, k, at);
        assert(stack_up(col, k, k + 1) == 0);
        assert(depth_below(col, at) == under);
        if at < FLOOR_ROW && col[at + 1] != Cell::Falling {
            assert(free_stretch(col, at, at + 1));
            lemma_stretch(col, k + 1, at, at + 1);
        }
        lemma_sink_done(col, k, at);
        if at == k {
            assert(after =~= before);
        } else {
            assert forall|r: int| 0 <= r < GRID_SIZE && r != k && r != at implies #[trigger] before[r]
                == after[r] by {
                assert(after[r] == sink_cell(col, k, at, r));
                if k < r < at {
                    assert(free_stretch(col, r, at));
                    lemma_stretch(col, k + 1, r, at);
                }
            }
            assert(after[k] == sink_cell(col, k, at, k));
            assert(after[at] == sink_cell(col, k, at, at));
            lemma_swap_keeps_count(before, after, k, at);
        }
    }
}

/// A column without landed cells has none to count upwards.
proof fn lemma_no_stack_up(col: Seq<Cell>, r: int)
    requires
        col.len() == GRID_SIZE,
        -1 <= r <= FLOOR_ROW,
        forall|i: int| 0 <= i < GRID_SIZE ==> #[trigger] col[i] != Cell::Landed,
    ensures
        stack_up(col, r, 0) == 0,
    decreases r + 1,
{
    if r >= 0 {
        lemma_no_stack_up(col, r - 1);
    }
}

/// A column without landed cells has none to count downwards.
proof fn lemma_no_stack_down(col: Seq<Cell>, r: int)
    requires
        col.len() == GRID_SIZE,
        0 <= r <= GRID_SIZE,
        forall|i: int| 0 <= i < GRID_SIZE ==> #[trigger] col[i] != Cell::Landed,
    ensures
        stack_down(col, r) == 0,
    decreases GRID_SIZE - r,
{
    if r <= FLOOR_ROW {
        lemma_no_stack_down(col, r + 1);
    }
}

/// The depth under a row is not negative.
proof fn lemma_depth_nonnegative(col: Seq<Cell>, r: int)
    ensures
        0 <= depth_below(col, r),
    decreases FLOOR_ROW - r,
{
    if !(r >= FLOOR_ROW || col[r + 1] == Cell::Falling) {
        lemma_depth_nonnegative(col, r + 1);
    }
}

/// In a settled playfield without falling cells, the cells above a cell that is not
/// landed are not landed either.
proof fn lemma_nothing_overhangs(grid: Seq<Seq<Cell>>, r: int, c: int, above: int)
    requires
        0 <= above <= r < GRID_SIZE,
        0 <= c < GRID_SIZE,
        settled(grid),
        forall|i: int, j: int| 0 <= i < GRID_SIZE && 0 <= j < GRID_SIZE ==> #[trigger] grid[i][j] != Cell::Falling,
        grid[r][c] != Cell::Landed,
    ensures
        grid[above][c] != Cell::Landed,
    decreases r - above,
{
    if above < r {
        lemma_nothing_overhangs(grid, r, c, above + 1);
        assert(grid[above + 1][c] == Cell::Empty);
        assert(!overhangs(grid, above, c));
    }
}

/// A column that holds no landed cell in the lowest row that is not full holds none
/// at all once the full rows are emptied.
proof fn lemma_column_without_stack(grid: Seq<Seq<Cell>>, low: int, c: int)
    requires
        0 <= low < GRID_SIZE,
        0 <= c < GRID_SIZE,
        settled(grid),
        forall|i: int, j: int| 0 <= i < GRID_SIZE && 0 <= j < GRID_SIZE ==> #[trigger] grid[i][j] != Cell::Falling,
        grid[low][c] != Cell::Landed,
        forall|i: int| low < i < GRID_SIZE ==> row_full(grid, i),
    ensures
        forall|i: int| 0 <= i < GRID_SIZE ==> #[trigger] column_of(spec_clear_full(grid), c)[i] != Cell::Landed,
{
    let column = column_of(spec_clear_full(grid), c);
    assert forall|i: int| 0 <= i < GRID_SIZE implies #[trigger] column[i] != Cell::Landed by {
        if i <= low {
            lemma_nothing_overhangs(grid, low, c, i);
        }
    }
}

/// A column that holds no landed cell once the full rows are emptied holds none after
/// the clear.
proof fn lemma_column_stays_open(grid: Seq<Seq<Cell>>, r: int, c: int)
    requires
        0 <= r < GRID_SIZE,
        0 <= c < GRID_SIZE,
        forall|i: int| 0 <= i < GRID_SIZE ==> #[trigger] column_of(spec_clear_full(grid), c)[i] != Cell::Landed,
    ensures
        !row_full(spec_check_rows(grid), r),
{
    let column = column_of(spec_clear_full(grid), c);
    lemma_no_stack_up(column, r);
    lemma_no_stack_down(column, r + 1);
    lemma_depth_nonnegative(column, r);
    assert(spec_check_rows(grid)[r][c] != Cell::Landed);
}

/// A row that is not full has a cell that is not landed.
proof fn lemma_open_cell(grid: Seq<Seq<Cell>>, r: int) -> (c: int)
    requires
        !row_full(grid, r),
    ensures
        0 <= c < GRID_SIZE,
        grid[r][c] != Cell::Landed,
{
    if grid[r][0] != Cell::Landed {
        0
    } else if grid[r][1] != Cell::Landed {
        1
    } else if grid[r][2] != Cell::Landed {
        2
    } else if grid[r][3] != Cell::Landed {
        3
    } else {
        4
    }
}

/// The lowest row that is not full, or -1 where every row is full.
proof fn lemma_lowest_open_row(grid: Seq<Seq<Cell>>) -> (low: int)
    ensures
        -1 <= low < GRID_SIZE,
        low >= 0 ==> !row_full(grid, low),
        forall|i: int| low < i < GRID_SIZE ==> #[trigger] row_full(grid, i),
{
    if !row_full(grid, 4) {
        4
    } else if !row_full(grid, 3) {
        3
    } else if !row_full(grid, 2) {
        2
    } else if !row_full(grid, 1) {
        1
    } else if !row_full(grid, 0) {
        0
    } else {
        -1
    }
}

/// Where every row is full, no column holds a landed cell once the rows are emptied.
proof fn lemma_all_rows_cleared(grid: Seq<Seq<Cell>>)
    requires
        forall|i: int| 0 <= i < GRID_SIZE ==> #[trigger] row_full(grid, i),
    ensures
        forall|i: int| 0 <= i < GRID_SIZE ==> #[trigger] column_of(spec_clear_full(grid), 0)[i] != Cell::Landed,
{
    let column = column_of(spec_clear_full(grid), 0);
    assert forall|i: int| 0 <= i < GRID_SIZE implies #[trigger] column[i] != Cell::Landed by {
        assert(row_full(grid, i));
    }
}

} // verus!
