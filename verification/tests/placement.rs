use microbit_tetris::game::PieceLocation;
use microbit_tetris::grid::Cell;
use microbit_tetris::grid::Grid;
use microbit_tetris::tetrominos::PieceShape;
use microbit_tetris::tetrominos::Tetromino;

fn grid_of(rows: [&str; 5]) -> Grid {
    let mut grid = Grid::new();
    for (r, text) in rows.iter().enumerate() {
        assert_eq!(text.len(), 5);
        for (c, symbol) in text.chars().enumerate() {
            grid.cells[r][c] = match symbol {
                '.' => Cell::Empty,
                'F' => Cell::Falling,
                'L' => Cell::Landed,
                _ => panic!("unknown cell {}", symbol),
            };
        }
    }
    grid
}

fn at(row: usize, col: usize) -> PieceLocation {
    PieceLocation { row, col }
}

#[test]
fn new_grid_is_empty() {
    assert_eq!(Grid::new(), grid_of([".....", ".....", ".....", ".....", "....."]));
    let grid = Grid::new();
    for row in 0..5 {
        for col in 0..5 {
            assert_eq!(grid.get(row, col), Cell::Empty);
        }
    }
}

#[test]
fn set_changes_one_cell() {
    let mut grid = Grid::new();
    grid.set(3, 1, Cell::Landed);
    grid.set(0, 4, Cell::Falling);
    assert_eq!(grid, grid_of(["....F", ".....", ".....", ".L...", "....."]));
    assert_eq!(grid.get(3, 1), Cell::Landed);
    grid.set(3, 1, Cell::Empty);
    assert_eq!(grid, grid_of(["....F", ".....", ".....", ".....", "....."]));
}

#[test]
fn place_draws_the_four_cells_around_the_anchor() {
    let mut grid = Grid::new();
    grid.place(Tetromino::Square.shape(), at(1, 2), Cell::Falling);
    assert_eq!(grid, grid_of(["..FF.", "..FF.", ".....", ".....", "....."]));
}

#[test]
fn place_draws_each_catalog_shape() {
    let mut grid = Grid::new();
    grid.place(Tetromino::Straight.shape(), at(4, 0), Cell::Falling);
    assert_eq!(grid, grid_of([".....", ".....", ".....", "F....", "F...."]));
    let mut grid = Grid::new();
    grid.place(Tetromino::L.shape(), at(4, 3), Cell::Falling);
    assert_eq!(grid, grid_of([".....", ".....", ".....", "...F.", "...FF"]));
    let mut grid = Grid::new();
    grid.place(Tetromino::S.shape(), at(2, 1), Cell::Falling);
    assert_eq!(grid, grid_of([".....", "..F..", ".F...", ".....", "....."]));
    let mut grid = Grid::new();
    grid.place(Tetromino::T.shape(), at(1, 0), Cell::Falling);
    assert_eq!(grid, grid_of(["FF...", ".F...", ".....", ".....", "....."]));
}

#[test]
fn place_leaves_occupied_cells_alone() {
    let mut grid = grid_of([".....", ".....", "..L..", "..LF.", "LLLLL"]);
    grid.place(Tetromino::Square.shape(), at(3, 2), Cell::Falling);
    assert_eq!(grid, grid_of([".....", ".....", "..LF.", "..LF.", "LLLLL"]));
}

#[test]
fn place_is_idempotent() {
    let mut grid = grid_of([".....", ".....", "..L..", ".....", "....."]);
    grid.place(Tetromino::T.shape(), at(2, 2), Cell::Falling);
    let once = grid;
    grid.place(Tetromino::T.shape(), at(2, 2), Cell::Falling);
    assert_eq!(grid, once);
    assert_eq!(grid, grid_of([".....", "..FF.", "..LF.", ".....", "....."]));
}

#[test]
fn place_can_mark_cells_as_landed() {
    let mut grid = grid_of([".....", ".....", ".....", "...F.", "....."]);
    grid.place(Tetromino::Square.shape(), at(4, 2), Cell::Landed);
    assert_eq!(grid, grid_of([".....", ".....", ".....", "..LF.", "..LL."]));
}

#[test]
fn place_of_no_piece_draws_nothing() {
    let mut grid = grid_of([".....", ".LF..", ".....", ".....", "....."]);
    let before = grid;
    grid.place(PieceShape::none(), at(1, 2), Cell::Falling);
    assert_eq!(grid, before);
}

#[test]
fn place_draws_a_flat_piece_that_hangs_over_the_floor() {
    let flat = PieceShape { top_left: true, top_right: true, bottom_left: false, bottom_right: false };
    let mut grid = Grid::new();
    grid.place(flat, at(5, 3), Cell::Falling);
    assert_eq!(grid, grid_of([".....", ".....", ".....", ".....", "...FF"]));
    grid.erase(flat, at(5, 3));
    assert_eq!(grid, Grid::new());
}

#[test]
fn place_reaches_every_corner_of_the_grid() {
    let mut grid = Grid::new();
    grid.place(Tetromino::Square.shape(), at(1, 0), Cell::Falling);
    grid.place(Tetromino::Square.shape(), at(1, 3), Cell::Falling);
    grid.place(Tetromino::Square.shape(), at(4, 0), Cell::Falling);
    grid.place(Tetromino::Square.shape(), at(4, 3), Cell::Falling);
    assert_eq!(grid, grid_of(["FF.FF", "FF.FF", ".....", "FF.FF", "FF.FF"]));
}

#[test]
fn erase_empties_the_selected_cells_whatever_they_hold() {
    let mut grid = grid_of([".....", "..FL.", "..LF.", ".....", "LLLLL"]);
    grid.erase(Tetromino::Square.shape(), at(2, 2));
    assert_eq!(grid, grid_of([".....", ".....", ".....", ".....", "LLLLL"]));
}

#[test]
fn erase_leaves_cells_outside_the_mask_alone() {
    let mut grid = grid_of([".....", "..FL.", "..LF.", ".....", "LLLLL"]);
    grid.erase(Tetromino::S.shape(), at(2, 2));
    assert_eq!(grid, grid_of([".....", "..F..", "...F.", ".....", "LLLLL"]));
}

#[test]
fn erase_then_place_landed_overwrites_the_piece() {
    let mut grid = grid_of([".....", ".....", ".....", "..FF.", "..FF."]);
    grid.erase(Tetromino::Square.shape(), at(4, 2));
    grid.place(Tetromino::Square.shape(), at(4, 2), Cell::Landed);
    assert_eq!(grid, grid_of([".....", ".....", ".....", "..LL.", "..LL."]));
}

#[test]
fn row_is_full_wants_five_landed_cells() {
    let grid = grid_of(["LLLLL", "LLLL.", "LLFLL", ".....", "FFFFF"]);
    assert!(grid.row_is_full(0));
    assert!(!grid.row_is_full(1));
    assert!(!grid.row_is_full(2));
    assert!(!grid.row_is_full(3));
    assert!(!grid.row_is_full(4));
}
