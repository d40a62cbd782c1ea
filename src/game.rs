use vstd::prelude::*;

use crate::board::{
    cleared_rows, empty_row, full_row_count, locked_rows, Board, BOARD_HEIGHT,
};
use crate::tetramino::{
    kind_at, kind_excluding, kind_from_index, kind_other_than, lemma_shape_in_frame, random_below,
    Tetramino, TetrominoType,
};

verus! {

// All durations are in microseconds.
/// Drop interval at level 1.
pub const BASE_DROP_INTERVAL: u64 = 800_000;

/// Drop interval while soft drop is held.
pub const SOFT_DROP_INTERVAL: u64 = 50_000;

/// How long a move key is held before it starts to repeat.
pub const MOVE_REPEAT_DELAY: u64 = 150_000;

/// Time between two repeats of a held move key.
pub const MOVE_REPEAT_RATE: u64 = 50_000;

pub const LINES_PER_LEVEL: u32 = 10;

pub const SCORE_SINGLE: u32 = 100;

pub const SCORE_DOUBLE: u32 = 300;

pub const SCORE_TRIPLE: u32 = 500;

pub const SCORE_TETRIS: u32 = 800;

/// Points for clearing `lines` rows at once, at level 1.
pub open spec fn score_for(lines: int) -> int {
    if lines == 1 {
        SCORE_SINGLE as int
    } else if lines == 2 {
        SCORE_DOUBLE as int
    } else if lines == 3 {
        SCORE_TRIPLE as int
    } else if lines == 4 {
        SCORE_TETRIS as int
    } else {
        0
    }
}

/// The level reached after `lines` cleared rows.
pub open spec fn level_for(lines: int) -> int {
    lines / LINES_PER_LEVEL as int + 1
}

/// The drop interval of a level: each level takes nine tenths of the one
/// before, rounded up, so it never reaches zero.
pub open spec fn level_interval(level: int) -> int
    decreases level,
{
    if level <= 1 {
        BASE_DROP_INTERVAL as int
    } else {
        (level_interval(level - 1) * 9 + 9) / 10
    }
}

/// How many repeats a move key held for `held` has earned: the first comes
/// one repeat period after the initial delay.
pub open spec fn repeats_due(held: int) -> int {
    if held < MOVE_REPEAT_DELAY {
        0
    } else {
        (held - MOVE_REPEAT_DELAY) / MOVE_REPEAT_RATE as int
    }
}

/// How many move attempts a move key makes this tick: one on the press, then
/// the repeats earned while held.
pub open spec fn held_moves(held: bool, pressed: bool, timer: int, elapsed: int) -> nat {
    if !held {
        0
    } else if pressed {
        1
    } else {
        repeats_due(timer + elapsed) as nat
    }
}

/// The key's repeat timer after this tick: the held time, less the repeat
/// periods already spent.
pub open spec fn held_timer(held: bool, pressed: bool, timer: int, elapsed: int) -> int {
    if !held || pressed {
        0
    } else {
        timer + elapsed - repeats_due(timer + elapsed) * MOVE_REPEAT_RATE
    }
}

pub open spec fn min_int(a: int, b: int) -> int {
    if a < b {
        a
    } else {
        b
    }
}

/// The actions pressed or held during one tick.
#[derive(Clone, Copy, Debug, Default, PartialEq, Eq, Structural)]
pub struct Input {
    /// The move-left key is down.
    pub left_held: bool,
    /// The move-left key went down this tick.
    pub left_pressed: bool,
    pub right_held: bool,
    pub right_pressed: bool,
    pub rotate_cw: bool,
    pub rotate_ccw: bool,
    /// Soft drop is held.
    pub soft_drop: bool,
    pub pause: bool,
    pub restart: bool,
    pub quit: bool,
}

#[derive(Clone, Copy, Debug, PartialEq, Eq, Structural)]
pub enum GameState {
    Running,
    Paused,
    GameOver,
}

/// One game session.
pub struct Game {
    pub board: Board,
    pub current_piece: Tetramino,
    /// Time since the last forced descent.
    pub drop_timer: u64,
    /// The drop interval in effect (soft drop or the level's).
    pub drop_interval: u64,
    /// The drop interval of the current level.
    pub level_interval: u64,
    pub game_over: bool,
    pub paused: bool,
    pub score: u32,
    pub lines_cleared: u32,
    pub level: u32,
    pub left_move_timer: u64,
    pub right_move_timer: u64,
}

/// A piece that collides with nothing lies within the board's columns and
/// above its floor.
proof fn lemma_free_piece_bounds(b: Board, p: Tetramino)
    requires
        p.wf(),
        !b.collides(p),
    ensures
        -3 <= p.x <= 9,
        p.y <= 19,
{
    lemma_shape_in_frame(p.kind);
    assert(!b.blocked(p.block_x(0), p.block_y(0)));
}

proof fn lemma_level_interval_bounds(level: int)
    ensures
        1 <= level_interval(level) <= BASE_DROP_INTERVAL,
    decreases level,
{
    if level > 1 {
        lemma_level_interval_bounds(level - 1);
    }
}

/// A freshly spawned piece never collides with an empty board.
pub proof fn lemma_spawn_fits_empty(b: Board, kind: TetrominoType)
    requires
        forall|y: int| 0 <= y < BOARD_HEIGHT ==> #[trigger] b.grid[y] == empty_row(),
    ensures
        !b.collides(Tetramino::spawned(kind)),
{
    let p = Tetramino::spawned(kind);
    lemma_shape_in_frame(kind);
    assert forall|i: int| 0 <= i < 4 implies !#[trigger] b.blocked(p.block_x(i), p.block_y(i)) by {
        assert(b.grid[p.block_y(i)] == empty_row());
    }
}

/// A board whose top four rows are full blocks every piece at the spawn
/// origin.
pub proof fn lemma_full_top_blocks_spawn(b: Board, kind: TetrominoType)
    requires
        forall|y: int, x: int| 0 <= y < 4 && 0 <= x < 10 ==> #[trigger] b.grid[y][x].filled,
    ensures
        b.collides(Tetramino::spawned(kind)),
{
    let p = Tetramino::spawned(kind);
    lemma_shape_in_frame(kind);
    assert(b.grid[p.block_y(0)][p.block_x(0)].filled);
    assert(b.blocked(p.block_x(0), p.block_y(0)));
}

/// A move key held for the initial delay plus `k` repeat periods, with no
/// tick in between, makes one attempt on the press and `k` repeats after.
pub proof fn lemma_hold_repeats(k: nat, press_elapsed: int)
    requires
        press_elapsed >= 0,
    ensures
        held_moves(true, true, 0, press_elapsed) + held_moves(
            true,
            false,
            held_timer(true, true, 0, press_elapsed),
            MOVE_REPEAT_DELAY + k * MOVE_REPEAT_RATE,
        ) == 1 + k,
{
    assert((k * MOVE_REPEAT_RATE) / MOVE_REPEAT_RATE as int == k) by (nonlinear_arith);
}

/// The move attempts and new repeat timer of one move key this tick.
fn key_repeat(held: bool, pressed: bool, timer: u64, elapsed: u32) -> (r: (u64, u64))
    requires
        timer < MOVE_REPEAT_DELAY + MOVE_REPEAT_RATE,
    ensures
        r.0 == held_moves(held, pressed, timer as int, elapsed as int),
        r.1 == held_timer(held, pressed, timer as int, elapsed as int),
        r.1 < MOVE_REPEAT_DELAY + MOVE_REPEAT_RATE,
{
    if !held {
        (0, 0)
    } else if pressed {
        (1, 0)
    } else {
        let t = timer + elapsed as u64;
        if t < MOVE_REPEAT_DELAY {
            (0, t)
        } else {
            let n = (t - MOVE_REPEAT_DELAY) / MOVE_REPEAT_RATE;
            let rest = (t - MOVE_REPEAT_DELAY) % MOVE_REPEAT_RATE;
            assert(t - n * MOVE_REPEAT_RATE == MOVE_REPEAT_DELAY + rest);
            (n, MOVE_REPEAT_DELAY + rest)
        }
    }
}

impl Game {
    /// The session's invariant.
    pub open spec fn wf(&self) -> bool {
        &&& self.current_piece.wf()
        &&& !self.game_over ==> !self.board.collides(self.current_piece)
        &&& self.level == level_for(self.lines_cleared as int)
        &&& self.level_interval == level_interval(self.level as int)
        &&& 1 <= self.drop_interval <= BASE_DROP_INTERVAL
        &&& self.drop_timer <= BASE_DROP_INTERVAL
        &&& self.left_move_timer < MOVE_REPEAT_DELAY + MOVE_REPEAT_RATE
        &&& self.right_move_timer < MOVE_REPEAT_DELAY + MOVE_REPEAT_RATE
    }

    /// Score, lines, level, timers and flags as at the start of a session.
    pub open spec fn counters_reset(&self) -> bool {
        &&& self.score == 0
        &&& self.lines_cleared == 0
        &&& self.level == 1
        &&& self.level_interval == BASE_DROP_INTERVAL
        &&& self.drop_interval == BASE_DROP_INTERVAL
        &&& self.drop_timer == 0
        &&& self.left_move_timer == 0
        &&& self.right_move_timer == 0
        &&& !self.paused
    }

    /// A fresh session: empty board, a piece of `kind` at the spawn origin,
    /// counters reset, running.
    pub open spec fn is_start(&self, kind: TetrominoType) -> bool {
        &&& forall|y: int| 0 <= y < BOARD_HEIGHT ==> #[trigger] self.board.grid[y] == empty_row()
        &&& self.current_piece == Tetramino::spawned(kind)
        &&& self.counters_reset()
        &&& !self.game_over
    }

    /// The active piece after this tick's move and rotation inputs: left
    /// moves, right moves, then a counter-clockwise and a clockwise turn, each
    /// attempt validated on its own.
    pub open spec fn piece_after_input(&self, input: Input, elapsed: int) -> Tetramino {
        let b = self.board;
        let p1 = b.after_moves(
            self.current_piece,
            -1,
            held_moves(input.left_held, input.left_pressed, self.left_move_timer as int, elapsed),
        );
        let p2 = b.after_moves(
            p1,
            1,
            held_moves(input.right_held, input.right_pressed, self.right_move_timer as int, elapsed),
        );
        let p3 = if input.rotate_ccw {
            b.after_turn(p2, false)
        } else {
            p2
        };
        if input.rotate_cw {
            b.after_turn(p3, true)
        } else {
            p3
        }
    }

    /// The running session once this tick's inputs are handled.
    pub open spec fn after_input(&self, input: Input, elapsed: int) -> Game {
        Game {
            current_piece: self.piece_after_input(input, elapsed),
            left_move_timer: held_timer(
                input.left_held,
                input.left_pressed,
                self.left_move_timer as int,
                elapsed,
            ) as u64,
            right_move_timer: held_timer(
                input.right_held,
                input.right_pressed,
                self.right_move_timer as int,
                elapsed,
            ) as u64,
            drop_interval: if input.soft_drop {
                SOFT_DROP_INTERVAL
            } else {
                self.level_interval
            },
            paused: false,
            ..*self
        }
    }

    /// `next` is this session once its piece is locked, full rows cleared and
    /// scored, the level updated, and a piece of a kind other than the last
    /// one spawned by draw `roll`.
    pub open spec fn locked_into(&self, next: Game, roll: int) -> bool {
        let rows = locked_rows(self.board.grid@, self.current_piece, 4);
        let n = full_row_count(rows);
        &&& next.board.grid@ == cleared_rows(rows)
        &&& next.score == min_int(self.score + score_for(n) * self.level, u32::MAX as int)
        &&& next.lines_cleared == min_int(self.lines_cleared + n, u32::MAX as int)
        &&& next.level == level_for(next.lines_cleared as int)
        &&& next.level_interval == level_interval(next.level as int)
        &&& next.current_piece == Tetramino::spawned(
            kind_other_than(self.current_piece.kind, roll % 6),
        )
        &&& next.game_over == next.board.collides(next.current_piece)
        &&& next.drop_timer == self.drop_timer
        &&& next.drop_interval == self.drop_interval
        &&& next.paused == self.paused
        &&& next.left_move_timer == self.left_move_timer
        &&& next.right_move_timer == self.right_move_timer
    }

    /// `next` is this session after the timed part of a tick: the drop timer
    /// grows by `elapsed`; once it reaches the drop interval it restarts and
    /// the piece falls a row, or locks where it cannot.
    pub open spec fn dropped(&self, next: Game, elapsed: int, roll: int) -> bool {
        let t = self.drop_timer + elapsed;
        let reset = Game { drop_timer: 0, ..*self };
        if t < self.drop_interval {
            next == Game { drop_timer: t as u64, ..*self }
        } else if !self.board.collides(self.current_piece.shifted(0, 1)) {
            next == Game { current_piece: self.current_piece.shifted(0, 1), ..reset }
        } else {
            reset.locked_into(next, roll)
        }
    }

    /// `next` is this session after one tick with `input`, `elapsed` time,
    /// and the draws `spawn_roll` (for a spawn) and `restart_roll` (for a
    /// restart). Restart is always taken; a finished session ignores the
    /// rest; pause toggles and, while paused, nothing else happens.
    pub open spec fn stepped(
        &self,
        next: Game,
        elapsed: int,
        input: Input,
        spawn_roll: int,
        restart_roll: int,
    ) -> bool {
        if input.restart {
            next.is_start(kind_at(restart_roll % 7))
        } else if self.game_over {
            next == *self
        } else if self.paused != input.pause {
            next == Game { paused: true, ..*self }
        } else {
            self.after_input(input, elapsed).dropped(next, elapsed, spawn_roll)
        }
    }

    /// A session on `board` whose first piece is of `first_kind`; it is over
    /// at once if that piece collides.
    pub fn from_board(board: Board, first_kind: TetrominoType) -> (g: Game)
        ensures
            g.wf(),
            g.board == board,
            g.current_piece == Tetramino::spawned(first_kind),
            g.counters_reset(),
            g.game_over == board.collides(g.current_piece),
    {
        let piece = Tetramino::new(first_kind);
        let game_over = board.check_collision(&piece);
        proof {
            assert(level_interval(1) == BASE_DROP_INTERVAL);
        }
        Game {
            board,
            current_piece: piece,
            drop_timer: 0,
            drop_interval: BASE_DROP_INTERVAL,
            level_interval: BASE_DROP_INTERVAL,
            game_over,
            paused: false,
            score: 0,
            lines_cleared: 0,
            level: 1,
            left_move_timer: 0,
            right_move_timer: 0,
        }
    }

    /// A fresh session whose first piece is of `first_kind`.
    pub fn with_first_kind(first_kind: TetrominoType) -> (g: Game)
        ensures
            g.wf(),
            g.is_start(first_kind),
    {
        let board = Board::new();
        proof {
            lemma_spawn_fits_empty(board, first_kind);
        }
        Game::from_board(board, first_kind)
    }

    /// A fresh session with a piece of a random kind.
    pub fn new() -> (g: Game)
        ensures
            g.wf(),
            g.is_start(g.current_piece.kind),
    {
        let first = Tetramino::random();
        Game::with_first_kind(first.get_type())
    }

    /// The points for clearing `lines_cleared` rows at once at the current
    /// level.
    pub fn calculate_score(&self, lines_cleared: u32) -> (r: u64)
        ensures
            r == score_for(lines_cleared as int) * self.level,
    {
        let base_score: u32 = match lines_cleared {
            1 => SCORE_SINGLE,
            2 => SCORE_DOUBLE,
            3 => SCORE_TRIPLE,
            4 => SCORE_TETRIS,
            _ => 0,
        };
        proof {
            assert(base_score * self.level <= 800 * u32::MAX) by (nonlinear_arith)
                requires
                    base_score <= 800,
                    self.level <= u32::MAX,
            ;
        }
        base_score as u64 * self.level as u64
    }

    /// Sets the level from the lines cleared, and the level's drop interval.
    pub fn update_level(&mut self)
        requires
            1 <= old(self).level <= level_for(old(self).lines_cleared as int),
            old(self).level_interval == level_interval(old(self).level as int),
        ensures
            *final(self) == (Game {
                level: level_for(old(self).lines_cleared as int) as u32,
                level_interval: level_interval(level_for(old(self).lines_cleared as int)) as u64,
                ..*old(self)
            }),
    {
        let new_level = self.lines_cleared / LINES_PER_LEVEL + 1;
        let mut interval = self.level_interval;
        let mut level = self.level;
        while level < new_level
            invariant
                1 <= level <= new_level,
                new_level == level_for(self.lines_cleared as int),
                interval == level_interval(level as int),
            decreases new_level - level,
        {
            proof {
                lemma_level_interval_bounds(level as int);
            }
            interval = (interval * 9 + 9) / 10;
            level += 1;
        }
        self.level = new_level;
        self.level_interval = interval;
    }

    /// Handles one tick's move, rotation and soft-drop inputs.
    fn handle_input(&mut self, input: &Input, elapsed: u32)
        requires
            old(self).wf(),
            !old(self).game_over,
            !old(self).paused,
        ensures
            final(self).wf(),
            *final(self) == old(self).after_input(*input, elapsed as int),
    {
        let (left_moves, left_timer) = key_repeat(
            input.left_held,
            input.left_pressed,
            self.left_move_timer,
            elapsed,
        );
        let (right_moves, right_timer) = key_repeat(
            input.right_held,
            input.right_pressed,
            self.right_move_timer,
            elapsed,
        );
        let ghost p0 = self.current_piece;
        let mut k: u64 = 0;
        while k < left_moves
            invariant
                k <= left_moves,
                self.current_piece.wf(),
                !self.board.collides(self.current_piece),
                self.current_piece == self.board.after_moves(p0, -1, k as nat),
                *self == (Game { current_piece: self.current_piece, ..*old(self) }),
            decreases left_moves - k,
        {
            proof {
                lemma_free_piece_bounds(self.board, self.current_piece);
            }
            self.current_piece.move_left(&self.board);
            k += 1;
        }
        let ghost p1 = self.current_piece;
        let mut k: u64 = 0;
        while k < right_moves
            invariant
                k <= right_moves,
                self.current_piece.wf(),
                !self.board.collides(self.current_piece),
                self.current_piece == self.board.after_moves(p1, 1, k as nat),
                *self == (Game { current_piece: self.current_piece, ..*old(self) }),
            decreases right_moves - k,
        {
            proof {
                lemma_free_piece_bounds(self.board, self.current_piece);
            }
            self.current_piece.move_right(&self.board);
            k += 1;
        }
        if input.rotate_ccw {
            self.current_piece.rotate_counter_clockwise(&self.board);
        }
        if input.rotate_cw {
            self.current_piece.rotate(&self.board);
        }
        self.left_move_timer = left_timer;
        self.right_move_timer = right_timer;
        proof {
            lemma_level_interval_bounds(self.level as int);
        }
        self.drop_interval = if input.soft_drop {
            SOFT_DROP_INTERVAL
        } else {
            self.level_interval
        };
    }

    /// Locks the piece, clears and scores full rows, updates the level, and
    /// spawns a piece of a kind other than the last, chosen by `spawn_roll`;
    /// the session is over if that piece collides.
    fn lock_piece(&mut self, spawn_roll: u32)
        requires
            old(self).wf(),
        ensures
            final(self).wf(),
            old(self).locked_into(*final(self), spawn_roll as int),
    {
        self.board.place_piece(&self.current_piece);
        let cleared = self.board.clear_full_lines();
        let points = self.calculate_score(cleared);
        proof {
            let base = score_for(cleared as int);
            assert(base * self.level <= 800 * u32::MAX) by (nonlinear_arith)
                requires
                    0 <= base <= 800,
                    self.level <= u32::MAX,
            ;
        }
        let score = self.score as u64 + points;
        self.score = if score > u32::MAX as u64 {
            u32::MAX
        } else {
            score as u32
        };
        let lines = self.lines_cleared as u64 + cleared as u64;
        self.lines_cleared = if lines > u32::MAX as u64 {
            u32::MAX
        } else {
            lines as u32
        };
        self.update_level();
        proof {
            lemma_level_interval_bounds(self.level as int);
        }
        self.current_piece = Tetramino::new(kind_excluding(self.current_piece.kind, spawn_roll));
        self.game_over = self.board.check_collision(&self.current_piece);
    }

    /// The timed part of a tick: the drop timer grows by `elapsed`; once it
    /// reaches the drop interval it restarts and the piece falls a row, or
    /// locks where it cannot.
    fn update(&mut self, elapsed: u32, spawn_roll: u32)
        requires
            old(self).wf(),
            !old(self).game_over,
        ensures
            final(self).wf(),
            old(self).dropped(*final(self), elapsed as int, spawn_roll as int),
    {
        let t = self.drop_timer + elapsed as u64;
        if t < self.drop_interval {
            self.drop_timer = t;
        } else {
            self.drop_timer = 0;
            proof {
                lemma_free_piece_bounds(self.board, self.current_piece);
            }
            if !self.current_piece.move_down(&self.board) {
                self.lock_piece(spawn_roll);
            }
        }
    }

    /// Advances the session by one tick of `elapsed` microseconds with
    /// `input`. `spawn_roll` picks the kind of a piece spawned this tick
    /// (modulo 6, among the kinds other than the last) and `restart_roll`
    /// the first kind after a restart (modulo 7).
    pub fn step(&mut self, elapsed: u32, input: &Input, spawn_roll: u32, restart_roll: u32)
        requires
            old(self).wf(),
        ensures
            final(self).wf(),
            old(self).stepped(
                *final(self),
                elapsed as int,
                *input,
                spawn_roll as int,
                restart_roll as int,
            ),
    {
        if input.restart {
            *self = Game::with_first_kind(kind_from_index(restart_roll % 7));
            return;
        }
        if self.game_over {
            return;
        }
        if input.pause {
            self.paused = !self.paused;
        }
        if self.paused {
            return;
        }
        self.handle_input(input, elapsed);
        self.update(elapsed, spawn_roll);
    }

    /// Advances the session by one tick, drawing at random the kind of any
    /// piece spawned.
    pub fn tick(&mut self, elapsed: u32, input: &Input)
        requires
            old(self).wf(),
        ensures
            final(self).wf(),
            exists|spawn_roll: int, restart_roll: int|
                0 <= spawn_roll < 6 && 0 <= restart_roll < 7 && old(self).stepped(
                    *final(self),
                    elapsed as int,
                    *input,
                    spawn_roll,
                    restart_roll,
                ),
    {
        let spawn_roll = random_below(6);
        let restart_roll = random_below(7);
        self.step(elapsed, input, spawn_roll, restart_roll);
    }

    /// The session's state.
    pub fn state(&self) -> (r: GameState)
        ensures
            r == if self.game_over {
                GameState::GameOver
            } else if self.paused {
                GameState::Paused
            } else {
                GameState::Running
            },
    {
        if self.game_over {
            GameState::GameOver
        } else if self.paused {
            GameState::Paused
        } else {
            GameState::Running
        }
    }
}

} // verus!
