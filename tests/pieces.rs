use tetris::board::{Board, Cell, Color};
use tetris::tetramino::{kind_excluding, kind_from_index, Tetramino, TetrominoType};

const KINDS: [TetrominoType; 7] = [
    TetrominoType::I,
    TetrominoType::O,
    TetrominoType::T,
    TetrominoType::S,
    TetrominoType::Z,
    TetrominoType::J,
    TetrominoType::L,
];

#[test]
fn new_piece_is_at_spawn_origin() {
    let piece = Tetramino::new(TetrominoType::S);
    assert_eq!(piece.x, 3);
    assert_eq!(piece.y, 0);
    assert_eq!(piece.rotation, 0);
    assert_eq!(piece.color, Color::Green);
    assert_eq!(piece.get_type(), TetrominoType::S);
    assert_eq!(piece.blocks[0], [(1, 0), (2, 0), (0, 1), (1, 1)]);
}

#[test]
fn colors_per_kind() {
    let colors = [
        Color::SkyBlue,
        Color::Yellow,
        Color::Purple,
        Color::Green,
        Color::Red,
        Color::Blue,
        Color::Orange,
    ];
    for (k, c) in KINDS.iter().zip(colors.iter()) {
        assert_eq!(Tetramino::new(*k).color, *c);
    }
}

#[test]
fn o_piece_tables_are_identical() {
    let piece = Tetramino::new(TetrominoType::O);
    for r in 1..4 {
        assert_eq!(piece.blocks[r], piece.blocks[0]);
    }
}

#[test]
fn absolute_blocks_add_the_origin() {
    let mut piece = Tetramino::new(TetrominoType::L);
    piece.x = 5;
    piece.y = -1;
    assert_eq!(piece.absolute_blocks(), [(7, -1), (5, 0), (6, 0), (7, 0)]);
}

#[test]
fn moves_stop_at_walls() {
    let board = Board::new();
    let mut piece = Tetramino::new(TetrominoType::O);
    for _ in 0..10 {
        piece.move_left(&board);
    }
    assert_eq!(piece.x, -1);
    for _ in 0..10 {
        piece.move_right(&board);
    }
    assert_eq!(piece.x, 7);
    let mut falls = 0;
    while piece.move_down(&board) {
        falls += 1;
    }
    assert_eq!(falls, 18);
    assert_eq!(piece.y, 18);
}

#[test]
fn try_move_rolls_back_on_collision() {
    let mut board = Board::new();
    board.grid[1][0] = Cell { filled: true, color: Color::Red };
    let mut piece = Tetramino::new(TetrominoType::T);
    piece.x = 1;
    assert!(!piece.try_move(-1, 0, &board));
    assert_eq!((piece.x, piece.y), (1, 0));
    assert!(piece.try_move(1, 1, &board));
    assert_eq!((piece.x, piece.y), (2, 1));
}

#[test]
fn rotation_against_wall_is_rejected() {
    let board = Board::new();
    let mut piece = Tetramino::new(TetrominoType::I);
    piece.rotation = 1;
    // Vertical I in column 0.
    piece.x = -2;
    piece.y = 5;
    assert!(!board.check_collision(&piece));
    assert!(!piece.try_rotate(true, &board));
    assert_eq!((piece.x, piece.y, piece.rotation), (-2, 5, 1));
    piece.rotate(&board);
    assert_eq!((piece.x, piece.y, piece.rotation), (-2, 5, 1));
    // Counter-clockwise goes to rotation 0: row y+1, columns -2..1: rejected too.
    piece.rotate_counter_clockwise(&board);
    assert_eq!(piece.rotation, 1);
}

#[test]
fn rotation_against_filled_neighbours_is_rejected() {
    let mut board = Board::new();
    for x in 0..10 {
        if x != 5 {
            board.grid[11][x] = Cell { filled: true, color: Color::Red };
        }
    }
    let mut piece = Tetramino::new(TetrominoType::I);
    piece.rotation = 1;
    piece.x = 3;
    piece.y = 9;
    assert!(!board.check_collision(&piece));
    assert!(!piece.try_rotate(true, &board));
    assert_eq!((piece.x, piece.y, piece.rotation), (3, 9, 1));
}

#[test]
fn rotation_cycles_in_open_space() {
    let board = Board::new();
    let mut piece = Tetramino::new(TetrominoType::T);
    piece.y = 5;
    for expected in [1u8, 2, 3, 0] {
        assert!(piece.try_rotate(true, &board));
        assert_eq!(piece.rotation, expected);
    }
    piece.rotate_counter_clockwise(&board);
    assert_eq!(piece.rotation, 3);
}

#[test]
fn kind_from_index_order() {
    for (i, k) in KINDS.iter().enumerate() {
        assert_eq!(kind_from_index(i as u32), *k);
    }
    assert_eq!(kind_from_index(100), TetrominoType::L);
}

#[test]
fn kind_excluding_reaches_each_other_kind_once() {
    for prev in KINDS {
        let picked: Vec<TetrominoType> = (0..6).map(|r| kind_excluding(prev, r)).collect();
        for k in KINDS {
            let n = picked.iter().filter(|&&p| p == k).count();
            assert_eq!(n, if k == prev { 0 } else { 1 });
        }
        assert_eq!(kind_excluding(prev, 6), kind_excluding(prev, 0));
    }
}

#[test]
fn random_excluding_never_repeats() {
    for prev in KINDS {
        for _ in 0..500 {
            let piece = Tetramino::random_excluding(prev);
            assert_ne!(piece.kind, prev);
            assert_eq!((piece.x, piece.y, piece.rotation), (3, 0, 0));
        }
    }
}

#[test]
fn random_piece_is_spawned() {
    for _ in 0..100 {
        let piece = Tetramino::random();
        let fresh = Tetramino::new(piece.kind);
        assert_eq!(piece.blocks, fresh.blocks);
        assert_eq!((piece.x, piece.y, piece.rotation), (3, 0, 0));
    }
}
