use microbit_tetris::game::GameState;
use microbit_tetris::game::PieceLocation;
use microbit_tetris::grid::Cell;
use microbit_tetris::grid::Grid;
use microbit_tetris::tetrominos::rotate_clockwise;
use microbit_tetris::tetrominos::PieceShape;
use microbit_tetris::tetrominos::Tetromino;

fn grid_of(rows: [&str; 5]) -> Grid {
    let mut grid = Grid::new();
    for (r, text) in rows.iter().enumerate() {
        assert_eq!(text.len(), 5);
        for (c, symbol) in text.chars().enumerate() {
            grid.cells[r][c] = match symbol {
                '.' => Cell::Empty,
                'F' => Cell::Falling,
                'L' => Cell::Landed,
                _ => panic!("unknown cell {}", symbol),
            };
        }
    }
    grid
}

fn at(row: usize, col: usize) -> PieceLocation {
    PieceLocation { row, col }
}

fn spawned(grid: &mut Grid, shape: PieceShape) -> GameState {
    let mut state = GameState::new();
    state.spawn(grid, shape);
    state
}

#[test]
fn new_state_has_no_piece_at_the_start_anchor() {
    let state = GameState::new();
    assert!(state.falling_piece().is_none());
    assert_eq!(state.fall_loc(), at(1, 2));
}

#[test]
fn spawn_brings_the_piece_in_at_the_top_middle() {
    let mut grid = Grid::new();
    let state = spawned(&mut grid, Tetromino::L.shape());
    assert_eq!(state.falling_piece(), Tetromino::L.shape());
    assert_eq!(state.fall_loc(), at(1, 2));
    assert_eq!(grid, grid_of(["..F..", "..FF.", ".....", ".....", "....."]));
}

#[test]
fn spawn_goes_back_to_the_start_anchor() {
    let mut grid = Grid::new();
    let mut state = GameState::new();
    state.move_left(&mut grid);
    state.move_left(&mut grid);
    assert_eq!(state.fall_loc(), at(1, 0));
    state.spawn(&mut grid, Tetromino::Square.shape());
    assert_eq!(state.fall_loc(), at(1, 2));
    assert_eq!(grid, grid_of(["..FF.", "..FF.", ".....", ".....", "....."]));
}

#[test]
fn place_piece_draws_the_falling_piece() {
    let mut grid = Grid::new();
    let state = spawned(&mut grid, Tetromino::S.shape());
    let mut other = grid_of([".....", "..L..", ".....", ".....", "....."]);
    state.place_piece(&mut other);
    assert_eq!(other, grid_of(["...F.", "..L..", ".....", ".....", "....."]));
}

#[test]
fn move_left_shifts_the_piece_by_one_column() {
    let mut grid = Grid::new();
    let mut state = spawned(&mut grid, Tetromino::T.shape());
    state.move_left(&mut grid);
    assert_eq!(state.fall_loc(), at(1, 1));
    assert_eq!(state.falling_piece(), Tetromino::T.shape());
    assert_eq!(grid, grid_of([".FF..", "..F..", ".....", ".....", "....."]));
}

#[test]
fn move_left_from_column_zero_is_a_no_op() {
    let mut grid = Grid::new();
    let mut state = spawned(&mut grid, Tetromino::Square.shape());
    state.move_left(&mut grid);
    state.move_left(&mut grid);
    assert_eq!(state.fall_loc(), at(1, 0));
    let before = grid;
    state.move_left(&mut grid);
    assert_eq!(state.fall_loc(), at(1, 0));
    assert_eq!(state.falling_piece(), Tetromino::Square.shape());
    assert_eq!(grid, before);
    assert_eq!(grid, grid_of(["FF...", "FF...", ".....", ".....", "....."]));
}

#[test]
fn move_right_shifts_the_piece_by_one_column() {
    let mut grid = Grid::new();
    let mut state = spawned(&mut grid, Tetromino::Straight.shape());
    state.move_right(&mut grid);
    assert_eq!(state.fall_loc(), at(1, 3));
    assert_eq!(grid, grid_of(["...F.", "...F.", ".....", ".....", "....."]));
}

#[test]
fn move_right_from_column_three_is_a_no_op() {
    let mut grid = Grid::new();
    let mut state = spawned(&mut grid, Tetromino::Straight.shape());
    state.move_right(&mut grid);
    let before = grid;
    state.move_right(&mut grid);
    assert_eq!(state.fall_loc(), at(1, 3));
    assert_eq!(state.falling_piece(), Tetromino::Straight.shape());
    assert_eq!(grid, before);
}

#[test]
fn moves_never_change_the_row() {
    let mut grid = Grid::new();
    let mut state = spawned(&mut grid, Tetromino::L.shape());
    for _ in 0..3 {
        assert!(!state.drop_piece(&mut grid));
        let row = state.fall_loc().row;
        for _ in 0..5 {
            state.move_left(&mut grid);
            assert_eq!(state.fall_loc().row, row);
        }
        for _ in 0..5 {
            state.move_right(&mut grid);
            assert_eq!(state.fall_loc().row, row);
        }
    }
    assert_eq!(state.fall_loc(), at(4, 3));
}

#[test]
fn move_does_not_draw_over_the_stack() {
    let mut grid = grid_of([".....", ".L...", ".....", ".....", "....."]);
    let mut state = spawned(&mut grid, Tetromino::Square.shape());
    state.move_left(&mut grid);
    assert_eq!(state.fall_loc(), at(1, 1));
    assert_eq!(grid, grid_of([".FF..", ".LF..", ".....", ".....", "....."]));
}

#[test]
fn move_erases_whatever_the_piece_covered() {
    let mut grid = grid_of([".....", ".L...", ".....", ".....", "....."]);
    let mut state = spawned(&mut grid, Tetromino::Square.shape());
    state.move_left(&mut grid);
    state.move_right(&mut grid);
    assert_eq!(state.fall_loc(), at(1, 2));
    assert_eq!(grid, grid_of(["..FF.", "..FF.", ".....", ".....", "....."]));
}

#[test]
fn move_of_no_piece_moves_the_anchor_only() {
    let mut grid = grid_of([".....", ".LF..", ".....", ".....", "....."]);
    let before = grid;
    let mut state = GameState::new();
    state.move_right(&mut grid);
    assert_eq!(state.fall_loc(), at(1, 3));
    assert!(state.falling_piece().is_none());
    assert_eq!(grid, before);
}

#[test]
fn rotate_piece_turns_the_piece_in_place() {
    let mut grid = Grid::new();
    let mut state = spawned(&mut grid, Tetromino::Straight.shape());
    state.rotate_piece(&mut grid);
    assert_eq!(state.fall_loc(), at(1, 2));
    assert_eq!(state.falling_piece(), rotate_clockwise(Tetromino::Straight.shape()));
    assert_eq!(grid, grid_of(["..FF.", ".....", ".....", ".....", "....."]));
    state.rotate_piece(&mut grid);
    assert_eq!(grid, grid_of(["...F.", "...F.", ".....", ".....", "....."]));
    state.rotate_piece(&mut grid);
    assert_eq!(grid, grid_of([".....", "..FF.", ".....", ".....", "....."]));
    state.rotate_piece(&mut grid);
    assert_eq!(state.falling_piece(), Tetromino::Straight.shape());
    assert_eq!(grid, grid_of(["..F..", "..F..", ".....", ".....", "....."]));
}

#[test]
fn rotate_piece_works_in_column_three() {
    let mut grid = Grid::new();
    let mut state = spawned(&mut grid, Tetromino::L.shape());
    state.move_right(&mut grid);
    assert_eq!(state.fall_loc(), at(1, 3));
    state.rotate_piece(&mut grid);
    assert_eq!(state.falling_piece(), rotate_clockwise(Tetromino::L.shape()));
    assert_eq!(grid, grid_of(["...FF", "...F.", ".....", ".....", "....."]));
}

#[test]
fn rotate_piece_leaves_the_stack_beside_the_piece_alone() {
    let mut grid = grid_of([".....", "...L.", ".....", ".....", "....."]);
    let mut state = spawned(&mut grid, Tetromino::Straight.shape());
    assert_eq!(grid, grid_of(["..F..", "..FL.", ".....", ".....", "....."]));
    state.rotate_piece(&mut grid);
    assert_eq!(grid, grid_of(["..FF.", "...L.", ".....", ".....", "....."]));
    state.rotate_piece(&mut grid);
    assert_eq!(grid, grid_of(["...F.", "...L.", ".....", ".....", "....."]));
}

#[test]
fn rotate_piece_in_the_bottom_rows() {
    let mut grid = Grid::new();
    let mut state = spawned(&mut grid, Tetromino::T.shape());
    for _ in 0..3 {
        assert!(!state.drop_piece(&mut grid));
    }
    assert_eq!(state.fall_loc(), at(4, 2));
    assert_eq!(grid, grid_of([".....", ".....", ".....", "..FF.", "...F."]));
    state.rotate_piece(&mut grid);
    assert_eq!(state.fall_loc(), at(4, 2));
    assert_eq!(grid, grid_of([".....", ".....", ".....", "...F.", "..FF."]));
}
