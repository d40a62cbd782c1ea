use tetris::board::{Board, Cell, Color, BOARD_HEIGHT, BOARD_WIDTH};
use tetris::tetramino::{Tetramino, TetrominoType};

fn filled(color: Color) -> Cell {
    Cell { filled: true, color }
}

fn fill_row(board: &mut Board, row: usize) {
    for x in 0..BOARD_WIDTH {
        board.grid[row][x] = filled(Color::Red);
    }
}

#[test]
fn new_board_is_empty() {
    let board = Board::new();
    for y in 0..BOARD_HEIGHT {
        for x in 0..BOARD_WIDTH {
            assert!(!board.grid[y][x].filled);
            assert_eq!(board.grid[y][x].color, Color::DarkGray);
        }
    }
}

#[test]
fn collision_at_left_right_and_bottom_bounds() {
    let board = Board::new();
    let mut piece = Tetramino::new(TetrominoType::O);
    // O occupies columns x+1 and x+2, rows y and y+1.
    piece.x = -1;
    assert!(!board.check_collision(&piece));
    piece.x = -2;
    assert!(board.check_collision(&piece));
    piece.x = 7;
    assert!(!board.check_collision(&piece));
    piece.x = 8;
    assert!(board.check_collision(&piece));
    piece.x = 3;
    piece.y = 18;
    assert!(!board.check_collision(&piece));
    piece.y = 19;
    assert!(board.check_collision(&piece));
}

#[test]
fn no_collision_above_the_top() {
    let mut board = Board::new();
    fill_row(&mut board, 0);
    let mut piece = Tetramino::new(TetrominoType::I);
    piece.y = -5;
    assert!(!board.check_collision(&piece));
    piece.y = -2;
    assert!(!board.check_collision(&piece));
    // Row 0 is filled: a block on it collides.
    piece.y = -1;
    assert!(board.check_collision(&piece));
}

#[test]
fn collision_with_filled_cell_only_when_overlapping() {
    let mut board = Board::new();
    board.grid[10][5] = filled(Color::Blue);
    let mut piece = Tetramino::new(TetrominoType::T);
    // T rotation 0: (1,0), (0,1), (1,1), (2,1).
    piece.x = 4;
    piece.y = 9;
    assert!(board.check_collision(&piece));
    piece.x = 0;
    assert!(!board.check_collision(&piece));
    piece.x = 4;
    piece.y = 10;
    assert!(board.check_collision(&piece));
    piece.y = 11;
    assert!(!board.check_collision(&piece));
}

#[test]
fn place_piece_fills_covered_cells_with_its_color() {
    let mut board = Board::new();
    let mut piece = Tetramino::new(TetrominoType::T);
    piece.x = 2;
    piece.y = 5;
    board.place_piece(&piece);
    let covered = [(3, 5), (2, 6), (3, 6), (4, 6)];
    let mut count = 0;
    for y in 0..BOARD_HEIGHT {
        for x in 0..BOARD_WIDTH {
            let c = board.grid[y][x];
            if covered.contains(&(x, y)) {
                assert_eq!(c, filled(Color::Purple));
                count += 1;
            } else {
                assert!(!c.filled);
            }
        }
    }
    assert_eq!(count, 4);
}

#[test]
fn place_piece_drops_blocks_above_the_top() {
    let mut board = Board::new();
    let mut piece = Tetramino::new(TetrominoType::I);
    piece.rotation = 1;
    // I rotation 1: column x+2, rows y..y+3.
    piece.x = 0;
    piece.y = -2;
    board.place_piece(&piece);
    assert_eq!(board.grid[0][2], filled(Color::SkyBlue));
    assert_eq!(board.grid[1][2], filled(Color::SkyBlue));
    let total: usize = (0..BOARD_HEIGHT)
        .map(|y| (0..BOARD_WIDTH).filter(|&x| board.grid[y][x].filled).count())
        .sum();
    assert_eq!(total, 2);
}

#[test]
fn clear_on_empty_board_removes_nothing() {
    let mut board = Board::new();
    assert_eq!(board.clear_full_lines(), 0);
    assert!(board.grid.iter().all(|row| row.iter().all(|c| !c.filled)));
}

#[test]
fn clear_twice_returns_zero_the_second_time() {
    let mut board = Board::new();
    fill_row(&mut board, 19);
    fill_row(&mut board, 17);
    board.grid[18][0] = filled(Color::Green);
    board.grid[3][4] = filled(Color::Green);
    assert_eq!(board.clear_full_lines(), 2);
    let after: Vec<Vec<Cell>> = board.grid.iter().map(|r| r.to_vec()).collect();
    assert_eq!(board.clear_full_lines(), 0);
    let again: Vec<Vec<Cell>> = board.grid.iter().map(|r| r.to_vec()).collect();
    assert_eq!(after, again);
}

#[test]
fn clear_rows_two_and_five_shifts_rows_down() {
    let mut board = Board::new();
    // Every row partial: a marker cell whose column is the row number mod 10,
    // and column 9 left empty.
    for y in 0..BOARD_HEIGHT {
        board.grid[y][y % 9] = filled(Color::Blue);
    }
    fill_row(&mut board, 2);
    fill_row(&mut board, 5);
    let before: Vec<Vec<Cell>> = board.grid.iter().map(|r| r.to_vec()).collect();
    assert_eq!(board.clear_full_lines(), 2);
    for y in 0..2 {
        assert!(board.grid[y].iter().all(|c| !c.filled));
    }
    // Rows 0 and 1 move down by two, rows 3 and 4 by one, rows below 5 stay.
    assert_eq!(board.grid[2].to_vec(), before[0]);
    assert_eq!(board.grid[3].to_vec(), before[1]);
    assert_eq!(board.grid[4].to_vec(), before[3]);
    assert_eq!(board.grid[5].to_vec(), before[4]);
    for y in 6..BOARD_HEIGHT {
        assert_eq!(board.grid[y].to_vec(), before[y]);
    }
}

#[test]
fn clear_four_rows_at_once() {
    let mut board = Board::new();
    for y in 16..20 {
        fill_row(&mut board, y);
    }
    board.grid[15][3] = filled(Color::Orange);
    assert_eq!(board.clear_full_lines(), 4);
    assert_eq!(board.grid[19][3], filled(Color::Orange));
    let total: usize = board.grid.iter().map(|r| r.iter().filter(|c| c.filled).count()).sum();
    assert_eq!(total, 1);
}
