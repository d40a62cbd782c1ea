use vstd::prelude::*;

use crate::tetramino::Tetramino;

verus! {

pub const BOARD_WIDTH: usize = 10;

pub const BOARD_HEIGHT: usize = 20;

/// Display colours: the background of empty cells and one per piece kind.
#[derive(Clone, Copy, Debug, PartialEq, Eq, Structural)]
pub enum Color {
    DarkGray,
    SkyBlue,
    Yellow,
    Purple,
    Green,
    Red,
    Blue,
    Orange,
}

#[derive(Clone, Copy, Debug, PartialEq, Eq, Structural)]
pub struct Cell {
    pub filled: bool,
    pub color: Color,
}

/// One row of the board, column 0 first.
pub type Row = [Cell; BOARD_WIDTH];

/// The board: `grid[row][col]`, row 0 at the top.
pub struct Board {
    pub grid: [Row; BOARD_HEIGHT],
}

pub open spec fn empty_cell() -> Cell {
    Cell { filled: false, color: Color::DarkGray }
}

pub open spec fn empty_row() -> Row {
    [empty_cell(); BOARD_WIDTH]
}

pub open spec fn row_is_full(row: Row) -> bool {
    forall|c: int| 0 <= c < BOARD_WIDTH ==> #[trigger] row[c].filled
}

/// The rows that are not full, in their order.
pub open spec fn kept_rows(rows: Seq<Row>) -> Seq<Row>
    decreases rows.len(),
{
    if rows.len() == 0 {
        rows
    } else if row_is_full(rows[0]) {
        kept_rows(rows.drop_first())
    } else {
        seq![rows[0]] + kept_rows(rows.drop_first())
    }
}

/// How many rows are full.
pub open spec fn full_row_count(rows: Seq<Row>) -> int {
    rows.len() - kept_rows(rows).len()
}

/// The rows once the full ones are removed, the rest moved down in their
/// order, and empty rows put on top.
pub open spec fn cleared_rows(rows: Seq<Row>) -> Seq<Row> {
    Seq::new(full_row_count(rows) as nat, |i: int| empty_row()) + kept_rows(rows)
}

/// Whether a block at column `x`, row `y` is out of bounds on the left, the
/// right or the bottom, or lies on a filled cell. Rows above the top are free.
pub open spec fn cell_blocked(rows: Seq<Row>, x: int, y: int) -> bool {
    x < 0 || x >= BOARD_WIDTH || y >= BOARD_HEIGHT || (y >= 0 && rows[y][x].filled)
}

/// The rows with the cell at column `x`, row `y` set, when it is on the board.
pub open spec fn with_cell(rows: Seq<Row>, x: int, y: int, cell: Cell) -> Seq<Row> {
    if 0 <= x < BOARD_WIDTH && 0 <= y < BOARD_HEIGHT {
        rows.update(y, vstd::array::spec_array_update(rows[y], x, cell))
    } else {
        rows
    }
}

/// The rows once the first `n` blocks of `p` are written as filled cells of
/// its colour; blocks off the board are dropped.
pub open spec fn locked_rows(rows: Seq<Row>, p: Tetramino, n: nat) -> Seq<Row>
    decreases n,
{
    if n == 0 {
        rows
    } else {
        with_cell(
            locked_rows(rows, p, (n - 1) as nat),
            p.block_x(n - 1),
            p.block_y(n - 1),
            Cell { filled: true, color: p.color },
        )
    }
}

/// Whether one of the first `n` blocks of `p` lies at column `x`, row `y`.
pub open spec fn covers(p: Tetramino, n: int, x: int, y: int) -> bool {
    exists|i: int| 0 <= i < n && #[trigger] p.block_x(i) == x && p.block_y(i) == y
}

proof fn lemma_kept_len(rows: Seq<Row>)
    ensures
        kept_rows(rows).len() <= rows.len(),
    decreases rows.len(),
{
    if rows.len() > 0 {
        lemma_kept_len(rows.drop_first());
    }
}

proof fn lemma_kept_suffix(rows: Seq<Row>, y: int)
    requires
        0 <= y < rows.len(),
    ensures
        kept_rows(rows.subrange(y, rows.len() as int)) == if row_is_full(rows[y]) {
            kept_rows(rows.subrange(y + 1, rows.len() as int))
        } else {
            seq![rows[y]] + kept_rows(rows.subrange(y + 1, rows.len() as int))
        },
{
    let s = rows.subrange(y, rows.len() as int);
    assert(s.drop_first() =~= rows.subrange(y + 1, rows.len() as int));
    assert(s[0] == rows[y]);
}

proof fn lemma_kept_not_full(rows: Seq<Row>)
    ensures
        forall|i: int| 0 <= i < kept_rows(rows).len() ==> !row_is_full(#[trigger] kept_rows(rows)[i]),
    decreases rows.len(),
{
    if rows.len() > 0 {
        lemma_kept_not_full(rows.drop_first());
        let rest = kept_rows(rows.drop_first());
        if !row_is_full(rows[0]) {
            assert forall|i: int| 0 <= i < kept_rows(rows).len() implies !row_is_full(
                #[trigger] kept_rows(rows)[i],
            ) by {
                if i > 0 {
                    assert(kept_rows(rows)[i] == rest[i - 1]);
                }
            }
        }
    }
}

proof fn lemma_kept_all(rows: Seq<Row>)
    requires
        forall|i: int| 0 <= i < rows.len() ==> !row_is_full(#[trigger] rows[i]),
    ensures
        kept_rows(rows) == rows,
    decreases rows.len(),
{
    if rows.len() > 0 {
        let rest = rows.drop_first();
        assert forall|i: int| 0 <= i < rest.len() implies !row_is_full(#[trigger] rest[i]) by {
            assert(rest[i] == rows[i + 1]);
        }
        lemma_kept_all(rest);
        assert(seq![rows[0]] + rest =~= rows);
    }
}

proof fn lemma_locked_cells(rows: Seq<Row>, p: Tetramino, n: nat)
    requires
        rows.len() == BOARD_HEIGHT,
    ensures
        locked_rows(rows, p, n).len() == BOARD_HEIGHT,
        forall|y: int, x: int|
            0 <= y < BOARD_HEIGHT && 0 <= x < BOARD_WIDTH ==> #[trigger] locked_rows(rows, p, n)[y][x]
                == if covers(p, n as int, x, y) {
                Cell { filled: true, color: p.color }
            } else {
                rows[y][x]
            },
    decreases n,
{
    if n > 0 {
        let m = (n - 1) as nat;
        lemma_locked_cells(rows, p, m);
        let prev = locked_rows(rows, p, m);
        let bx = p.block_x(m as int);
        let by = p.block_y(m as int);
        let cell = Cell { filled: true, color: p.color };
        assert forall|y: int, x: int|
            0 <= y < BOARD_HEIGHT && 0 <= x < BOARD_WIDTH implies #[trigger] locked_rows(
                rows,
                p,
                n,
            )[y][x] == if covers(p, n as int, x, y) {
                cell
            } else {
                rows[y][x]
            } by {
            if bx == x && by == y {
                assert(covers(p, n as int, x, y));
            } else {
                if covers(p, n as int, x, y) {
                    let i = choose|i: int| 0 <= i < n && #[trigger] p.block_x(i) == x && p.block_y(i) == y;
                    assert(covers(p, m as int, x, y));
                } else {
                    assert(!covers(p, m as int, x, y));
                }
                if 0 <= by < BOARD_HEIGHT && 0 <= bx < BOARD_WIDTH && by == y {
                    assert(prev[y][x] == locked_rows(rows, p, n)[y][x]);
                }
            }
        }
    }
}

/// Whether every cell of `row` is filled.
fn row_full(row: &Row) -> (r: bool)
    ensures
        r == row_is_full(*row),
{
    let mut c: usize = 0;
    while c < BOARD_WIDTH
        invariant
            c <= BOARD_WIDTH,
            forall|j: int| 0 <= j < c ==> #[trigger] row[j].filled,
        decreases BOARD_WIDTH - c,
    {
        if !row[c].filled {
            return false;
        }
        c += 1;
    }
    true
}

impl Board {
    /// Whether a block at column `x`, row `y` cannot stand on this board.
    pub open spec fn blocked(&self, x: int, y: int) -> bool {
        cell_blocked(self.grid@, x, y)
    }

    /// Whether some block of `p` is out of bounds (left, right, bottom) or on
    /// a filled cell.
    pub open spec fn collides(&self, p: Tetramino) -> bool {
        exists|i: int| 0 <= i < 4 && #[trigger] self.blocked(p.block_x(i), p.block_y(i))
    }

    /// `p` shifted by (dx, dy) where that does not collide, else `p` as it is.
    pub open spec fn after_move(&self, p: Tetramino, dx: int, dy: int) -> Tetramino {
        if self.collides(p.shifted(dx, dy)) {
            p
        } else {
            p.shifted(dx, dy)
        }
    }

    /// `p` after `n` attempts to shift it by `dx` columns, each one on its own.
    pub open spec fn after_moves(&self, p: Tetramino, dx: int, n: nat) -> Tetramino
        decreases n,
    {
        if n == 0 {
            p
        } else {
            self.after_move(self.after_moves(p, dx, (n - 1) as nat), dx, 0)
        }
    }

    /// `p` turned where that does not collide, else `p` as it is.
    pub open spec fn after_turn(&self, p: Tetramino, clockwise: bool) -> Tetramino {
        if self.collides(p.turned(clockwise)) {
            p
        } else {
            p.turned(clockwise)
        }
    }

    /// An empty board.
    pub fn new() -> (b: Board)
        ensures
            forall|y: int| 0 <= y < BOARD_HEIGHT ==> #[trigger] b.grid[y] == empty_row(),
    {
        Board { grid: [[Cell { filled: false, color: Color::DarkGray }; BOARD_WIDTH]; BOARD_HEIGHT] }
    }

    /// Whether `piece` collides with this board.
    pub fn check_collision(&self, piece: &Tetramino) -> (r: bool)
        requires
            piece.rotation < 4,
        ensures
            r == self.collides(*piece),
    {
        let offsets = piece.blocks[piece.rotation as usize];
        let mut i: usize = 0;
        while i < 4
            invariant
                i <= 4,
                piece.rotation < 4,
                offsets == piece.blocks[piece.rotation as int],
                forall|j: int| 0 <= j < i ==> !#[trigger] self.blocked(piece.block_x(j), piece.block_y(j)),
            decreases 4 - i,
        {
            let x = piece.x as i64 + offsets[i].0 as i64;
            let y = piece.y as i64 + offsets[i].1 as i64;
            assert(x == piece.block_x(i as int) && y == piece.block_y(i as int));
            if x < 0 || x >= BOARD_WIDTH as i64 || y >= BOARD_HEIGHT as i64 {
                assert(self.blocked(piece.block_x(i as int), piece.block_y(i as int)));
                return true;
            }
            if y >= 0 && self.grid[y as usize][x as usize].filled {
                assert(self.blocked(piece.block_x(i as int), piece.block_y(i as int)));
                return true;
            }
            i += 1;
        }
        false
    }

    /// Writes each block of `piece` that lies on the board as a filled cell of
    /// the piece's colour; blocks off the board are dropped.
    pub fn place_piece(&mut self, piece: &Tetramino)
        requires
            piece.rotation < 4,
        ensures
            final(self).grid@ == locked_rows(old(self).grid@, *piece, 4),
            forall|y: int, x: int|
                0 <= y < BOARD_HEIGHT && 0 <= x < BOARD_WIDTH ==> #[trigger] final(self).grid[y][x]
                    == if covers(*piece, 4, x, y) {
                    Cell { filled: true, color: piece.color }
                } else {
                    old(self).grid[y][x]
                },
    {
        let offsets = piece.blocks[piece.rotation as usize];
        let mut i: usize = 0;
        while i < 4
            invariant
                i <= 4,
                piece.rotation < 4,
                offsets == piece.blocks[piece.rotation as int],
                self.grid@ == locked_rows(old(self).grid@, *piece, i as nat),
            decreases 4 - i,
        {
            let x = piece.x as i64 + offsets[i].0 as i64;
            let y = piece.y as i64 + offsets[i].1 as i64;
            if y >= 0 && y < BOARD_HEIGHT as i64 && x >= 0 && x < BOARD_WIDTH as i64 {
                self.grid[y as usize][x as usize] = Cell { filled: true, color: piece.color };
            }
            proof {
                let prev = locked_rows(old(self).grid@, *piece, i as nat);
                assert(locked_rows(old(self).grid@, *piece, (i + 1) as nat) == with_cell(
                    prev,
                    piece.block_x(i as int),
                    piece.block_y(i as int),
                    Cell { filled: true, color: piece.color },
                ));
                assert(self.grid@ =~= locked_rows(old(self).grid@, *piece, (i + 1) as nat));
            }
            i += 1;
        }
        proof {
            lemma_locked_cells(old(self).grid@, *piece, 4);
        }
    }

    /// Removes every full row, moves the rows above down in their order, puts
    /// empty rows on top, and returns how many rows were removed.
    pub fn clear_full_lines(&mut self) -> (n: u32)
        ensures
            n == full_row_count(old(self).grid@),
            final(self).grid@ == cleared_rows(old(self).grid@),
    {
        let ghost rows = self.grid@;
        let mut new_grid: [Row; BOARD_HEIGHT] = [[Cell { filled: false, color: Color::DarkGray }; BOARD_WIDTH]; BOARD_HEIGHT];
        let mut kept: usize = 0;
        let mut y: usize = BOARD_HEIGHT;
        while y > 0
            invariant
                y <= BOARD_HEIGHT,
                rows == self.grid@,
                kept == kept_rows(rows.subrange(y as int, BOARD_HEIGHT as int)).len(),
                kept <= BOARD_HEIGHT - y,
                forall|r: int| 0 <= r < BOARD_HEIGHT - kept ==> #[trigger] new_grid[r] == empty_row(),
                forall|r: int|
                    BOARD_HEIGHT - kept <= r < BOARD_HEIGHT ==> #[trigger] new_grid[r] == kept_rows(
                        rows.subrange(y as int, BOARD_HEIGHT as int),
                    )[r - (BOARD_HEIGHT - kept)],
            decreases y,
        {
            y -= 1;
            proof {
                lemma_kept_suffix(rows, y as int);
                lemma_kept_len(rows.subrange(y + 1, BOARD_HEIGHT as int));
            }
            let full = row_full(&self.grid[y]);
            if !full {
                new_grid[BOARD_HEIGHT - 1 - kept] = self.grid[y];
                kept += 1;
            }
        }
        proof {
            assert(rows.subrange(0, BOARD_HEIGHT as int) =~= rows);
            assert(new_grid@ =~= cleared_rows(rows));
        }
        self.grid = new_grid;
        (BOARD_HEIGHT - kept) as u32
    }
}

/// After a clear no row is full, so a second clear removes nothing and leaves
/// the board as it is.
pub proof fn lemma_clear_twice(rows: Seq<Row>)
    ensures
        full_row_count(cleared_rows(rows)) == 0,
        cleared_rows(cleared_rows(rows)) == cleared_rows(rows),
{
    let c = cleared_rows(rows);
    lemma_kept_len(rows);
    lemma_kept_not_full(rows);
    assert forall|i: int| 0 <= i < c.len() implies !row_is_full(#[trigger] c[i]) by {
        if i < full_row_count(rows) {
            assert(c[i] == empty_row());
            assert(!c[i][0].filled);
        } else {
            assert(c[i] == kept_rows(rows)[i - full_row_count(rows)]);
        }
    }
    lemma_kept_all(c);
    assert(cleared_rows(c) =~= c);
}

} // verus!
