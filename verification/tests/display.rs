use microbit_tetris::font::font_entry;
use microbit_tetris::font::wide_char;
use microbit_tetris::grid::Cell;
use microbit_tetris::grid::Grid;
use microbit_tetris::pixeldisplay::brightness;
use microbit_tetris::pixeldisplay::frame_of;
use microbit_tetris::pixeldisplay::Raster;
use microbit_tetris::pixeldisplay::Render;

#[test]
fn brightness_of_each_cell_state() {
    assert_eq!(brightness(Cell::Empty), 0);
    assert_eq!(brightness(Cell::Falling), 9);
    assert_eq!(brightness(Cell::Landed), 5);
}

#[test]
fn frame_of_shows_each_cell_at_its_brightness() {
    let mut grid = Grid::new();
    grid.cells[0][2] = Cell::Falling;
    grid.cells[1][2] = Cell::Falling;
    grid.cells[4][0] = Cell::Landed;
    grid.cells[4][4] = Cell::Landed;
    grid.cells[3][4] = Cell::Landed;
    let frame = frame_of(&grid);
    assert_eq!(
        frame,
        [[0, 0, 9, 0, 0], [0, 0, 9, 0, 0], [0, 0, 0, 0, 0], [0, 0, 0, 0, 5], [5, 0, 0, 0, 5]]
    );
    assert_eq!(frame_of(&Grid::new()), Raster::default());
}

#[test]
fn render_hands_its_frame_back() {
    let raster: Raster =
        [[1, 2, 3, 4, 5], [6, 7, 8, 9, 0], [0, 0, 0, 0, 0], [9, 9, 9, 9, 9], [5, 4, 3, 2, 1]];
    let render = Render::new_from(&raster);
    assert_eq!(*render.get(), raster);
}

#[test]
fn font_entry_reads_the_five_low_bits_from_left_to_right() {
    let render = font_entry([0b10000, 0b01000, 0b00100, 0b00010, 0b00001]);
    assert_eq!(
        *render.get(),
        [[9, 0, 0, 0, 0], [0, 9, 0, 0, 0], [0, 0, 9, 0, 0], [0, 0, 0, 9, 0], [0, 0, 0, 0, 9]]
    );
}

#[test]
fn font_entry_ignores_the_three_high_bits() {
    let render = font_entry([0xe0, 0xff, 0x1f, 0x00, 0xea]);
    assert_eq!(
        *render.get(),
        [[0, 0, 0, 0, 0], [9, 9, 9, 9, 9], [9, 9, 9, 9, 9], [0, 0, 0, 0, 0], [0, 9, 0, 9, 0]]
    );
}

#[test]
fn font_entry_of_an_exclamation_mark() {
    let render = font_entry([0x8, 0x8, 0x8, 0x0, 0x8]);
    assert_eq!(
        *render.get(),
        [[0, 9, 0, 0, 0], [0, 9, 0, 0, 0], [0, 9, 0, 0, 0], [0, 0, 0, 0, 0], [0, 9, 0, 0, 0]]
    );
}

#[test]
fn wide_char_knows_the_nine_wide_characters() {
    for c in ['G', 'g', 'a', 'M', 'm', 'V', 'v', 'N', 'T'] {
        assert!(wide_char(c));
    }
}

#[test]
fn wide_char_rejects_every_other_character() {
    let wide = ['G', 'g', 'a', 'M', 'm', 'V', 'v', 'N', 'T'];
    for code in 0..=0x7fu8 {
        let c = code as char;
        assert_eq!(wide_char(c), wide.contains(&c));
    }
    assert!(!wide_char(' '));
    assert!(!wide_char('t'));
    assert!(!wide_char('n'));
    assert!(!wide_char('A'));
}
