use vstd::prelude::*;

use crate::board::{Board, Color};

verus! {

/// The seven piece kinds.
#[derive(Clone, Copy, Debug, PartialEq, Eq, Structural)]
pub enum TetrominoType {
    I,
    O,
    T,
    S,
    Z,
    J,
    L,
}

/// Four rotation states of four block offsets each, in a 4x4 local frame.
pub type Shape = [[(i32, i32); 4]; 4];

/// Column of the local frame's origin when a piece spawns.
pub const SPAWN_X: i32 = 3;

/// Row of the local frame's origin when a piece spawns.
pub const SPAWN_Y: i32 = 0;

/// The rotation tables of each kind; rotating switches between them.
pub open spec fn shape_of(kind: TetrominoType) -> Shape {
    match kind {
        TetrominoType::I => [
            [(0, 1), (1, 1), (2, 1), (3, 1)],
            [(2, 0), (2, 1), (2, 2), (2, 3)],
            [(0, 2), (1, 2), (2, 2), (3, 2)],
            [(1, 0), (1, 1), (1, 2), (1, 3)],
        ],
        TetrominoType::O => [
            [(1, 0), (2, 0), (1, 1), (2, 1)],
            [(1, 0), (2, 0), (1, 1), (2, 1)],
            [(1, 0), (2, 0), (1, 1), (2, 1)],
            [(1, 0), (2, 0), (1, 1), (2, 1)],
        ],
        TetrominoType::T => [
            [(1, 0), (0, 1), (1, 1), (2, 1)],
            [(1, 0), (1, 1), (2, 1), (1, 2)],
            [(0, 1), (1, 1), (2, 1), (1, 2)],
            [(1, 0), (0, 1), (1, 1), (1, 2)],
        ],
        TetrominoType::S => [
            [(1, 0), (2, 0), (0, 1), (1, 1)],
            [(1, 0), (1, 1), (2, 1), (2, 2)],
            [(1, 1), (2, 1), (0, 2), (1, 2)],
            [(0, 0), (0, 1), (1, 1), (1, 2)],
        ],
        TetrominoType::Z => [
            [(0, 0), (1, 0), (1, 1), (2, 1)],
            [(2, 0), (1, 1), (2, 1), (1, 2)],
            [(0, 1), (1, 1), (1, 2), (2, 2)],
            [(1, 0), (0, 1), (1, 1), (0, 2)],
        ],
        TetrominoType::J => [
            [(0, 0), (0, 1), (1, 1), (2, 1)],
            [(1, 0), (2, 0), (1, 1), (1, 2)],
            [(0, 1), (1, 1), (2, 1), (2, 2)],
            [(1, 0), (1, 1), (0, 2), (1, 2)],
        ],
        TetrominoType::L => [
            [(2, 0), (0, 1), (1, 1), (2, 1)],
            [(1, 0), (1, 1), (1, 2), (2, 2)],
            [(0, 1), (1, 1), (2, 1), (0, 2)],
            [(0, 0), (1, 0), (1, 1), (1, 2)],
        ],
    }
}

/// The display colour of each kind.
pub open spec fn color_of(kind: TetrominoType) -> Color {
    match kind {
        TetrominoType::I => Color::SkyBlue,
        TetrominoType::O => Color::Yellow,
        TetrominoType::T => Color::Purple,
        TetrominoType::S => Color::Green,
        TetrominoType::Z => Color::Red,
        TetrominoType::J => Color::Blue,
        TetrominoType::L => Color::Orange,
    }
}

/// The position of each kind in the order I, O, T, S, Z, J, L.
pub open spec fn kind_index(kind: TetrominoType) -> int {
    match kind {
        TetrominoType::I => 0,
        TetrominoType::O => 1,
        TetrominoType::T => 2,
        TetrominoType::S => 3,
        TetrominoType::Z => 4,
        TetrominoType::J => 5,
        TetrominoType::L => 6,
    }
}

/// The kind at position `i` of the order I, O, T, S, Z, J, L; positions past
/// the end give L.
pub open spec fn kind_at(i: int) -> TetrominoType {
    if i <= 0 {
        TetrominoType::I
    } else if i == 1 {
        TetrominoType::O
    } else if i == 2 {
        TetrominoType::T
    } else if i == 3 {
        TetrominoType::S
    } else if i == 4 {
        TetrominoType::Z
    } else if i == 5 {
        TetrominoType::J
    } else {
        TetrominoType::L
    }
}

/// The kind picked by draw `i` (in 0..6) when `prev` may not come again: the
/// six other kinds in order, so each of them has exactly one draw.
pub open spec fn kind_other_than(prev: TetrominoType, i: int) -> TetrominoType {
    if i < kind_index(prev) {
        kind_at(i)
    } else {
        kind_at(i + 1)
    }
}

/// Every offset of every rotation table lies in the 4x4 local frame.
pub proof fn lemma_shape_in_frame(kind: TetrominoType)
    ensures
        forall|r: int, i: int|
            0 <= r < 4 && 0 <= i < 4 ==> 0 <= #[trigger] shape_of(kind)[r][i].0 <= 3 && 0
                <= shape_of(kind)[r][i].1 <= 3,
{
}

/// Relies on macroquad::rand::gen_range (quad-rand): for integers it scales a
/// 32-bit draw from [0, 1) onto [low, high) and truncates.
#[verifier::external_body]
pub(crate) fn random_below(high: u32) -> (r: u32)
    requires
        0 < high,
    ensures
        r < high,
{
    macroquad::rand::gen_range::<u32>(0, high)
}

/// One falling piece: a kind, its local frame's origin on the board, and the
/// index of its current rotation table.
#[derive(Clone, Copy, Debug)]
pub struct Tetramino {
    pub kind: TetrominoType,
    pub x: i32,
    pub y: i32,
    pub rotation: u8,
    pub blocks: Shape,
    pub color: Color,
}

impl Tetramino {
    /// A piece of `kind` at the spawn origin, in rotation 0.
    pub open spec fn spawned(kind: TetrominoType) -> Tetramino {
        Tetramino {
            kind,
            x: SPAWN_X,
            y: SPAWN_Y,
            rotation: 0,
            blocks: shape_of(kind),
            color: color_of(kind),
        }
    }

    /// The piece carries the tables and colour of its kind and a valid rotation.
    pub open spec fn wf(&self) -> bool {
        &&& self.rotation < 4
        &&& self.blocks == shape_of(self.kind)
        &&& self.color == color_of(self.kind)
    }

    /// Column of block `i` on the board.
    pub open spec fn block_x(&self, i: int) -> int {
        self.x + self.blocks[self.rotation as int][i].0
    }

    /// Row of block `i` on the board.
    pub open spec fn block_y(&self, i: int) -> int {
        self.y + self.blocks[self.rotation as int][i].1
    }

    /// The piece with its origin moved by (dx, dy).
    pub open spec fn shifted(&self, dx: int, dy: int) -> Tetramino {
        Tetramino { x: (self.x + dx) as i32, y: (self.y + dy) as i32, ..*self }
    }

    /// The piece with its rotation advanced one step clockwise or back.
    pub open spec fn turned(&self, clockwise: bool) -> Tetramino {
        Tetramino {
            rotation: (if clockwise {
                (self.rotation + 1) % 4
            } else {
                (self.rotation + 3) % 4
            }) as u8,
            ..*self
        }
    }

    /// Moving by (dx, dy) keeps the origin inside i32.
    pub open spec fn can_shift(&self, dx: int, dy: int) -> bool {
        &&& i32::MIN <= self.x + dx <= i32::MAX
        &&& i32::MIN <= self.y + dy <= i32::MAX
    }

    /// Every block's board coordinates fit in i32.
    pub open spec fn blocks_fit(&self) -> bool {
        forall|i: int|
            0 <= i < 4 ==> i32::MIN <= #[trigger] self.block_x(i) <= i32::MAX && i32::MIN
                <= self.block_y(i) <= i32::MAX
    }

    /// A piece of a uniformly drawn kind at the spawn origin.
    pub fn random() -> (r: Tetramino)
        ensures
            r == Tetramino::spawned(r.kind),
            r.wf(),
    {
        Tetramino::new(kind_from_index(random_below(7)))
    }

    /// A piece at the spawn origin whose kind is drawn uniformly from the six
    /// kinds other than `prev`.
    pub fn random_excluding(prev: TetrominoType) -> (r: Tetramino)
        ensures
            r == Tetramino::spawned(r.kind),
            r.wf(),
            r.kind != prev,
    {
        Tetramino::new(kind_excluding(prev, random_below(6)))
    }

    /// A piece of `kind` at the spawn origin, in rotation 0, with the kind's
    /// tables and colour.
    pub fn new(kind: TetrominoType) -> (r: Tetramino)
        ensures
            r == Tetramino::spawned(kind),
            r.wf(),
    {
        let (blocks, color) = match kind {
            TetrominoType::I => (
                [
                    [(0, 1), (1, 1), (2, 1), (3, 1)],
                    [(2, 0), (2, 1), (2, 2), (2, 3)],
                    [(0, 2), (1, 2), (2, 2), (3, 2)],
                    [(1, 0), (1, 1), (1, 2), (1, 3)],
                ],
                Color::SkyBlue,
            ),
            TetrominoType::O => (
                [
                    [(1, 0), (2, 0), (1, 1), (2, 1)],
                    [(1, 0), (2, 0), (1, 1), (2, 1)],
                    [(1, 0), (2, 0), (1, 1), (2, 1)],
                    [(1, 0), (2, 0), (1, 1), (2, 1)],
                ],
                Color::Yellow,
            ),
            TetrominoType::T => (
                [
                    [(1, 0), (0, 1), (1, 1), (2, 1)],
                    [(1, 0), (1, 1), (2, 1), (1, 2)],
                    [(0, 1), (1, 1), (2, 1), (1, 2)],
                    [(1, 0), (0, 1), (1, 1), (1, 2)],
                ],
                Color::Purple,
            ),
            TetrominoType::S => (
                [
                    [(1, 0), (2, 0), (0, 1), (1, 1)],
                    [(1, 0), (1, 1), (2, 1), (2, 2)],
                    [(1, 1), (2, 1), (0, 2), (1, 2)],
                    [(0, 0), (0, 1), (1, 1), (1, 2)],
                ],
                Color::Green,
            ),
            TetrominoType::Z => (
                [
                    [(0, 0), (1, 0), (1, 1), (2, 1)],
                    [(2, 0), (1, 1), (2, 1), (1, 2)],
                    [(0, 1), (1, 1), (1, 2), (2, 2)],
                    [(1, 0), (0, 1), (1, 1), (0, 2)],
                ],
                Color::Red,
            ),
            TetrominoType::J => (
                [
                    [(0, 0), (0, 1), (1, 1), (2, 1)],
                    [(1, 0), (2, 0), (1, 1), (1, 2)],
                    [(0, 1), (1, 1), (2, 1), (2, 2)],
                    [(1, 0), (1, 1), (0, 2), (1, 2)],
                ],
                Color::Blue,
            ),
            TetrominoType::L => (
                [
                    [(2, 0), (0, 1), (1, 1), (2, 1)],
                    [(1, 0), (1, 1), (1, 2), (2, 2)],
                    [(0, 1), (1, 1), (2, 1), (0, 2)],
                    [(0, 0), (1, 0), (1, 1), (1, 2)],
                ],
                Color::Orange,
            ),
        };
        Tetramino { kind, x: SPAWN_X, y: SPAWN_Y, rotation: 0, blocks, color }
    }

    /// The kind of this piece.
    pub fn get_type(&self) -> (r: TetrominoType)
        ensures
            r == self.kind,
    {
        self.kind
    }

    /// Shifts the piece by (dx, dy) unless the shifted piece collides with
    /// `board`; returns whether it moved.
    pub fn try_move(&mut self, dx: i32, dy: i32, board: &Board) -> (moved: bool)
        requires
            old(self).rotation < 4,
            old(self).can_shift(dx as int, dy as int),
        ensures
            moved == !board.collides(old(self).shifted(dx as int, dy as int)),
            *final(self) == if moved {
                old(self).shifted(dx as int, dy as int)
            } else {
                *old(self)
            },
    {
        let x = self.x;
        let y = self.y;
        self.x = x + dx;
        self.y = y + dy;
        if board.check_collision(self) {
            self.x = x;
            self.y = y;
            false
        } else {
            true
        }
    }

    /// Moves one column left unless that collides.
    pub fn move_left(&mut self, board: &Board)
        requires
            old(self).rotation < 4,
            old(self).can_shift(-1, 0),
        ensures
            *final(self) == board.after_move(*old(self), -1, 0),
    {
        self.try_move(-1, 0, board);
    }

    /// Moves one column right unless that collides.
    pub fn move_right(&mut self, board: &Board)
        requires
            old(self).rotation < 4,
            old(self).can_shift(1, 0),
        ensures
            *final(self) == board.after_move(*old(self), 1, 0),
    {
        self.try_move(1, 0, board);
    }

    /// Moves one row down unless that collides; returns whether it moved.
    pub fn move_down(&mut self, board: &Board) -> (moved: bool)
        requires
            old(self).rotation < 4,
            old(self).can_shift(0, 1),
        ensures
            moved == !board.collides(old(self).shifted(0, 1)),
            *final(self) == board.after_move(*old(self), 0, 1),
    {
        self.try_move(0, 1, board)
    }

    /// Switches to the next (clockwise) or previous rotation table unless the
    /// turned piece collides; no other position is tried. Returns whether it
    /// turned.
    pub fn try_rotate(&mut self, clockwise: bool, board: &Board) -> (turned: bool)
        requires
            old(self).rotation < 4,
        ensures
            turned == !board.collides(old(self).turned(clockwise)),
            *final(self) == if turned {
                old(self).turned(clockwise)
            } else {
                *old(self)
            },
            final(self).rotation < 4,
    {
        let old_rotation = self.rotation;
        self.rotation = if clockwise {
            (old_rotation + 1) % 4
        } else {
            (old_rotation + 3) % 4
        };
        if board.check_collision(self) {
            self.rotation = old_rotation;
            false
        } else {
            true
        }
    }

    /// Turns clockwise unless that collides.
    pub fn rotate(&mut self, board: &Board)
        requires
            old(self).rotation < 4,
        ensures
            *final(self) == board.after_turn(*old(self), true),
    {
        self.try_rotate(true, board);
    }

    /// Turns counter-clockwise unless that collides.
    pub fn rotate_counter_clockwise(&mut self, board: &Board)
        requires
            old(self).rotation < 4,
        ensures
            *final(self) == board.after_turn(*old(self), false),
    {
        self.try_rotate(false, board);
    }

    /// The board coordinates (column, row) of the four blocks.
    pub fn absolute_blocks(&self) -> (r: [(i32, i32); 4])
        requires
            self.rotation < 4,
            self.blocks_fit(),
        ensures
            forall|i: int| 0 <= i < 4 ==> #[trigger] r[i] == (self.block_x(i) as i32, self.block_y(i) as i32),
    {
        let offsets = self.blocks[self.rotation as usize];
        proof {
            assert(self.block_x(0) == self.x + offsets[0].0);
            assert(self.block_x(1) == self.x + offsets[1].0);
            assert(self.block_x(2) == self.x + offsets[2].0);
            assert(self.block_x(3) == self.x + offsets[3].0);
        }
        [
            (self.x + offsets[0].0, self.y + offsets[0].1),
            (self.x + offsets[1].0, self.y + offsets[1].1),
            (self.x + offsets[2].0, self.y + offsets[2].1),
            (self.x + offsets[3].0, self.y + offsets[3].1),
        ]
    }
}

/// The kind at position `i` of the order I, O, T, S, Z, J, L (L from 6 on).
pub fn kind_from_index(i: u32) -> (r: TetrominoType)
    ensures
        r == kind_at(i as int),
{
    match i {
        0 => TetrominoType::I,
        1 => TetrominoType::O,
        2 => TetrominoType::T,
        3 => TetrominoType::S,
        4 => TetrominoType::Z,
        5 => TetrominoType::J,
        _ => TetrominoType::L,
    }
}

/// The kind that draw `roll` (taken modulo 6) picks among the kinds other
/// than `prev`.
pub fn kind_excluding(prev: TetrominoType, roll: u32) -> (r: TetrominoType)
    ensures
        r == kind_other_than(prev, roll as int % 6),
        r != prev,
{
    let i = roll % 6;
    let p: u32 = match prev {
        TetrominoType::I => 0,
        TetrominoType::O => 1,
        TetrominoType::T => 2,
        TetrominoType::S => 3,
        TetrominoType::Z => 4,
        TetrominoType::J => 5,
        TetrominoType::L => 6,
    };
    if i < p {
        kind_from_index(i)
    } else {
        kind_from_index(i + 1)
    }
}

} // verus!
