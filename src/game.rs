//! The game's state, and the operations that move, turn, lock and clear,
//! each proved to do what the rules say.
use vstd::prelude::*;

use crate::piece::{piece_shape, shape_of, PieceType};
use crate::random::{get_random_piece, get_random_piece_except};
use crate::rules::{
    STAGE_ROWS, STAGE_COLS, SPAWN_X, START_Y, SPAWN_Y, GameStatus, Board, initial_status, scored, cell_fits, fits_spec, cell_clear, unobstructed_spec, legal, covers, overlay_cell, overlay, board_wf, DownOutcome, locked, down_step, drop_step, shift_step, rotate_step, fresh_board, Controls, Msg, Effect, restarts, model_step,
};
use crate::vec2d::{rotate_spec, Vec2D};

verus! {

/// Where the top-left corner of the active piece's shape stands on the board.
#[derive(Clone, Copy, Debug, PartialEq, Eq, Structural)]
pub struct Position {
    pub x: isize,
    pub y: isize,
}

/// The falling piece.
pub struct Player {
    pub piece_type: PieceType,
    pub piece_shape: Vec2D,
    pub position: Position,
    pub collided: bool,
}

/// The whole game: the board, the active piece and the status.
pub struct State {
    pub stage: Vec2D,
    pub player: Player,
    pub game_status: GameStatus,
}

impl View for State {
    type V = Board;

    open spec fn view(&self) -> Board {
        Board {
            stage: self.stage@,
            n_rows: self.stage.n_rows as int,
            n_cols: self.stage.n_cols as int,
            piece_type: self.player.piece_type,
            shape: self.player.piece_shape@,
            x: self.player.position.x as int,
            y: self.player.position.y as int,
            collided: self.player.collided,
            status: self.game_status,
        }
    }
}

impl State {
    /// The arrays are well formed and the game is consistent.
    pub open spec fn wf(&self) -> bool {
        &&& self.stage.wf()
        &&& self.player.piece_shape.wf()
        &&& self.player.piece_shape.n_rows == self.player.piece_shape.n_cols
        &&& board_wf(self@)
    }

    /// A new game: an empty board, `first` one row above it, and the
    /// initial status.
    pub fn new(first: PieceType) -> (r: State)
        requires
            first != PieceType::E,
        ensures
            r.wf(),
            r@ == fresh_board(first),
    {
        let stage = Vec2D::new(STAGE_ROWS, STAGE_COLS);
        let player = Player {
            piece_type: first,
            piece_shape: piece_shape(first),
            position: Position { x: SPAWN_X, y: START_Y },
            collided: false,
        };
        let r = State { stage, player, game_status: initialize_game_status() };
        assert(r@.stage =~= fresh_board(first).stage);
        r
    }

    /// Whether the shape `piece` placed at `x`, `y` stays within the left,
    /// right and bottom edges of the board.
    pub fn is_player_position_valid(&self, x: isize, y: isize, piece: &Vec2D) -> (r: bool)
        requires
            self.stage.wf(),
            piece.wf(),
        ensures
            r == fits_spec(self@.n_rows, self@.n_cols, piece@, x as int, y as int),
    {
        let rows = self.stage.n_rows as i128;
        let cols = self.stage.n_cols as i128;
        let mut r: usize = 0;
        while r < piece.n_rows
            invariant
                piece.wf(),
                rows == self@.n_rows,
                cols == self@.n_cols,
                r <= piece.n_rows,
                forall|rr: int, cc: int|
                    0 <= rr < r && 0 <= cc < piece.n_cols ==> #[trigger] cell_fits(
                        rows as int,
                        cols as int,
                        piece@,
                        x as int,
                        y as int,
                        rr,
                        cc,
                    ),
            decreases piece.n_rows - r,
        {
            let mut c: usize = 0;
            while c < piece.n_cols
                invariant
                    piece.wf(),
                    rows == self@.n_rows,
                    cols == self@.n_cols,
                    r < piece.n_rows,
                    c <= piece.n_cols,
                    forall|rr: int, cc: int|
                        0 <= rr < r && 0 <= cc < piece.n_cols ==> #[trigger] cell_fits(
                            rows as int,
                            cols as int,
                            piece@,
                            x as int,
                            y as int,
                            rr,
                            cc,
                        ),
                    forall|cc: int|
                        0 <= cc < c ==> #[trigger] cell_fits(
                            rows as int,
                            cols as int,
                            piece@,
                            x as int,
                            y as int,
                            r as int,
                            cc,
                        ),
                decreases piece.n_cols - c,
            {
                if piece.get(r, c) != PieceType::E {
                    let col = x as i128 + c as i128;
                    let row = y as i128 + r as i128;
                    if col < 0 || col >= cols || row >= rows {
                        assert(!cell_fits(
                            rows as int,
                            cols as int,
                            piece@,
                            x as int,
                            y as int,
                            r as int,
                            c as int,
                        ));
                        return false;
                    }
                }
                c = c + 1;
            }
            r = r + 1;
        }
        true
    }

    /// Whether no block of the shape `piece` placed at `x`, `y` meets a
    /// block of the board.
    pub fn is_position_empty(&self, x: isize, y: isize, piece: &Vec2D) -> (r: bool)
        requires
            self.stage.wf(),
            piece.wf(),
        ensures
            r == unobstructed_spec(self@.stage, piece@, x as int, y as int),
    {
        let rows = self.stage.n_rows as i128;
        let cols = self.stage.n_cols as i128;
        let mut r: usize = 0;
        while r < piece.n_rows
            invariant
                piece.wf(),
                self.stage.wf(),
                rows == self@.n_rows,
                cols == self@.n_cols,
                r <= piece.n_rows,
                forall|rr: int, cc: int|
                    0 <= rr < r && 0 <= cc < piece.n_cols ==> #[trigger] cell_clear(
                        self@.stage,
                        piece@,
                        x as int,
                        y as int,
                        rr,
                        cc,
                    ),
            decreases piece.n_rows - r,
        {
            let mut c: usize = 0;
            while c < piece.n_cols
                invariant
                    piece.wf(),
                    self.stage.wf(),
                    rows == self@.n_rows,
                    cols == self@.n_cols,
                    r < piece.n_rows,
                    c <= piece.n_cols,
                    forall|rr: int, cc: int|
                        0 <= rr < r && 0 <= cc < piece.n_cols ==> #[trigger] cell_clear(
                            self@.stage,
                            piece@,
                            x as int,
                            y as int,
                            rr,
                            cc,
                        ),
                    forall|cc: int|
                        0 <= cc < c ==> #[trigger] cell_clear(
                            self@.stage,
                            piece@,
                            x as int,
                            y as int,
                            r as int,
                            cc,
                        ),
                decreases piece.n_cols - c,
            {
                let row = y as i128 + r as i128;
                let col = x as i128 + c as i128;
                if 0 <= row && row < rows && 0 <= col && col < cols {
                    if self.stage.get(row as usize, col as usize) != PieceType::E && piece.get(r, c)
                        != PieceType::E {
                        assert(!cell_clear(
                            self@.stage,
                            piece@,
                            x as int,
                            y as int,
                            r as int,
                            c as int,
                        ));
                        return false;
                    }
                }
                c = c + 1;
            }
            r = r + 1;
        }
        true
    }

    /// Whether the active piece may stand with shape `piece` at `x`, `y`.
    pub fn is_move_allowed(&self, x: isize, y: isize, piece: &Vec2D) -> (r: bool)
        requires
            self.stage.wf(),
            piece.wf(),
        ensures
            r == legal(self@, piece@, x as int, y as int),
    {
        self.is_player_position_valid(x, y, piece) && self.is_position_empty(x, y, piece)
    }

    /// Draws the active piece into the board where it stands; blocks that
    /// fall off the board are left out.
    fn merge_player(&mut self)
        requires
            old(self).wf(),
        ensures
            final(self).wf(),
            final(self).stage.n_rows == old(self).stage.n_rows,
            final(self).stage.n_cols == old(self).stage.n_cols,
            final(self)@ == (Board {
                stage: overlay(old(self)@.stage, old(self)@.shape, old(self)@.x, old(self)@.y),
                ..old(self)@
            }),
    {
        let ghost g0 = self@.stage;
        let ghost shp = self@.shape;
        let ghost b0 = self@;
        let x = self.player.position.x;
        let y = self.player.position.y;
        let n = self.player.piece_shape.n_rows;
        let rows = self.stage.n_rows as i128;
        let cols = self.stage.n_cols as i128;
        let mut r: usize = 0;
        while r < n
            invariant
                self.wf(),
                self@ == (Board { stage: self@.stage, ..b0 }),
                self.stage.n_rows == rows,
                self.stage.n_cols == cols,
                shp == self@.shape,
                n == self.player.piece_shape.n_rows,
                x == b0.x,
                y == b0.y,
                r <= n,
                forall|gr: int, gc: int|
                    0 <= gr < rows && 0 <= gc < cols ==> #[trigger] self@.stage[gr][gc] == (if covers(
                        shp,
                        x as int,
                        y as int,
                        gr,
                        gc,
                    ) && gr - y < r {
                        shp[gr - y][gc - x]
                    } else {
                        g0[gr][gc]
                    }),
            decreases n - r,
        {
            let mut c: usize = 0;
            while c < n
                invariant
                    self.wf(),
                    self@ == (Board { stage: self@.stage, ..b0 }),
                    self.stage.n_rows == rows,
                    self.stage.n_cols == cols,
                    shp == self@.shape,
                    n == self.player.piece_shape.n_rows,
                    x == b0.x,
                    y == b0.y,
                    r < n,
                    c <= n,
                    forall|gr: int, gc: int|
                        0 <= gr < rows && 0 <= gc < cols ==> #[trigger] self@.stage[gr][gc] == (
                        if covers(shp, x as int, y as int, gr, gc) && (gr - y < r || (gr - y == r
                            && gc - x < c)) {
                            shp[gr - y][gc - x]
                        } else {
                            g0[gr][gc]
                        }),
                decreases n - c,
            {
                let row = y as i128 + r as i128;
                let col = x as i128 + c as i128;
                if 0 <= row && row < rows && 0 <= col && col < cols {
                    let cell = self.player.piece_shape.get(r, c);
                    if cell != PieceType::E {
                        self.stage.set(row as usize, col as usize, cell);
                    }
                }
                c = c + 1;
            }
            r = r + 1;
        }
        assert(self@.stage =~~= overlay(g0, shp, x as int, y as int));
    }

    /// Sets the counters after `rows_cleared` rows were cleared at once.
    pub fn update_game_state(&mut self, rows_cleared: usize)
        requires
            old(self).wf(),
        ensures
            final(self).wf(),
            final(self)@ == (Board {
                status: scored(old(self)@.status, rows_cleared as int),
                ..old(self)@
            }),
    {
        if rows_cleared > 0 {
            let level = self.game_status.level;
            let factor: usize = match rows_cleared {
                1 => 40,
                2 => 100,
                3 => 300,
                _ => 1200,
            };
            let delta: usize = if level <= usize::MAX / factor {
                proof {
                    lemma_product_fits(level as int, factor as int);
                }
                factor * level
            } else {
                proof {
                    lemma_product_exceeds(level as int, factor as int);
                }
                usize::MAX
            };
            let rows = self.game_status.rows_cleared.saturating_add(rows_cleared);
            self.game_status = GameStatus {
                level: rows / 10 + 1,
                rows_cleared: rows,
                score: self.game_status.score.saturating_add(delta),
                game_over: self.game_status.game_over,
            };
        }
    }

    /// Ends the game.
    pub fn game_over(&mut self)
        requires
            old(self).wf(),
        ensures
            final(self).wf(),
            final(self)@ == (Board {
                status: GameStatus { game_over: true, ..old(self)@.status },
                ..old(self)@
            }),
    {
        self.game_status.game_over = true;
    }

    /// Locks the active piece into the board where it stands and spawns
    /// `next` at the spawn position.
    pub fn add_player_piece_stage(&mut self, next: PieceType)
        requires
            old(self).wf(),
            next != PieceType::E,
        ensures
            final(self).wf(),
            final(self).stage.n_rows == old(self).stage.n_rows,
            final(self).stage.n_cols == old(self).stage.n_cols,
            final(self)@ == (Board {
                stage: overlay(old(self)@.stage, old(self)@.shape, old(self)@.x, old(self)@.y),
                piece_type: next,
                shape: shape_of(next),
                x: SPAWN_X as int,
                y: SPAWN_Y as int,
                collided: false,
                ..old(self)@
            }),
    {
        self.merge_player();
        self.player.piece_type = next;
        self.player.piece_shape = piece_shape(next);
        self.player.position = Position { x: SPAWN_X, y: SPAWN_Y };
        self.player.collided = false;
    }

    /// The indices of the full rows of the board, in ascending order.
    pub fn get_completed_rows(&self) -> (r: Vec<usize>)
        requires
            self.wf(),
        ensures
            forall|i: int|
                0 <= i < r.len() ==> #[trigger] r@[i] < self@.n_rows && crate::vec2d::row_full(
                    self@.stage[r@[i] as int],
                ),
            forall|i: int, j: int| 0 <= i < j < r.len() ==> r@[i] < r@[j],
            forall|k: int|
                0 <= k < self@.n_rows && crate::vec2d::row_full(#[trigger] self@.stage[k])
                    ==> crate::vec2d::is_listed(r@, k),
    {
        self.stage.full_rows()
    }

    /// Locks the active piece, clears and scores the full rows, and spawns `next`.
    pub fn lock_in(&mut self, next: PieceType)
        requires
            old(self).wf(),
            next != PieceType::E,
        ensures
            final(self).wf(),
            final(self)@ == locked(old(self)@, next),
    {
        self.add_player_piece_stage(next);
        let ghost merged = self@.stage;
        let rows = self.get_completed_rows();
        proof {
            crate::vec2d::lemma_kept_rows_full(merged, rows@);
        }
        let count = self.stage.remove_rows(rows);
        self.update_game_state(count);
    }

    /// One step down: move, or lock the piece and spawn `next`, or end the
    /// game when the piece cannot leave the top.
    pub fn move_down(&mut self, next: PieceType) -> (r: DownOutcome)
        requires
            old(self).wf(),
            next != PieceType::E,
        ensures
            final(self).wf(),
            (final(self)@, r) == down_step(old(self)@, next),
    {
        let x = self.player.position.x;
        let y = self.player.position.y;
        if y < isize::MAX && self.is_move_allowed(x, y + 1, &self.player.piece_shape) {
            self.player.position.y = y + 1;
            DownOutcome::Moved
        } else if y <= 0 {
            self.game_over();
            DownOutcome::ToppedOut
        } else {
            self.lock_in(next);
            DownOutcome::Locked
        }
    }

    /// Steps down until the piece locks or the game ends.
    pub fn hard_drop(&mut self, next: PieceType) -> (r: DownOutcome)
        requires
            old(self).wf(),
            next != PieceType::E,
        ensures
            final(self).wf(),
            (final(self)@, r) == drop_step(old(self)@, next),
    {
        loop
            invariant
                self.wf(),
                next != PieceType::E,
                drop_step(self@, next) == drop_step(old(self)@, next),
            decreases isize::MAX - self.player.position.y,
        {
            let outcome = self.move_down(next);
            if outcome != DownOutcome::Moved {
                return outcome;
            }
        }
    }

    /// One column to the left (`dx` is -1) or right (`dx` is 1), where free.
    pub fn shift(&mut self, dx: isize)
        requires
            old(self).wf(),
            dx == -1 || dx == 1,
        ensures
            final(self).wf(),
            final(self)@ == shift_step(old(self)@, dx as int),
    {
        let x = self.player.position.x;
        let y = self.player.position.y;
        if (dx == -1 && x == isize::MIN) || (dx == 1 && x == isize::MAX) {
            return;
        }
        if self.is_move_allowed(x + dx, y, &self.player.piece_shape) {
            self.player.position.x = x + dx;
        }
    }

    /// Turns the active piece a quarter clockwise where it stands, else one
    /// row higher; returns whether it turned.
    pub fn rotate_player_piece(&mut self) -> (r: bool)
        requires
            old(self).wf(),
        ensures
            final(self).wf(),
            final(self)@ == rotate_step(old(self)@),
            r == (legal(old(self)@, rotate_spec(old(self)@.shape), old(self)@.x, old(self)@.y)
                || legal(
                old(self)@,
                rotate_spec(old(self)@.shape),
                old(self)@.x,
                old(self)@.y - 1,
            )),
    {
        let x = self.player.position.x;
        let y = self.player.position.y;
        let turned = self.player.piece_shape.rotated();
        if self.is_move_allowed(x, y, &turned) {
            self.player.piece_shape = turned;
            true
        } else if y > isize::MIN && self.is_move_allowed(x, y - 1, &turned) {
            self.player.piece_shape = turned;
            self.player.position.y = y - 1;
            true
        } else {
            false
        }
    }

    /// Starts a new game whose first piece is `first`.
    pub fn initialize_game(&mut self, first: PieceType)
        requires
            first != PieceType::E,
        ensures
            final(self).wf(),
            final(self)@ == fresh_board(first),
    {
        *self = State::new(first);
    }
}

/// The game together with whether its automatic drop runs.
pub struct Model {
    pub state: State,
    pub job: bool,
}

impl Model {
    pub open spec fn wf(&self) -> bool {
        self.state.wf()
    }

    /// A new game, paused, whose first piece is `first`.
    pub fn create(first: PieceType) -> (r: Model)
        requires
            first != PieceType::E,
        ensures
            r.wf(),
            r.state@ == fresh_board(first),
            !r.job,
    {
        Model { state: State::new(first), job: false }
    }

    /// A new game, paused, whose first piece is drawn at random.
    pub fn new() -> (r: Model)
        ensures
            r.wf(),
            r.state@ == fresh_board(r.state@.piece_type),
            !r.job,
    {
        Model::create(get_random_piece())
    }

    /// Carries out `msg`; `next` is the piece that spawns if one does.
    pub fn apply(&mut self, msg: Msg, next: PieceType) -> (r: Effect)
        requires
            old(self).wf(),
            next != PieceType::E,
        ensures
            final(self).wf(),
            (final(self).state@, final(self).job, r) == model_step(
                old(self).state@,
                old(self).job,
                msg,
                next,
            ),
    {
        match msg {
            Msg::StartPause => {
                if self.job {
                    self.job = false;
                    Effect::EndAutoDrop
                } else {
                    if self.state.game_status.game_over {
                        self.state.initialize_game(next);
                    }
                    self.job = true;
                    Effect::BeginAutoDrop(self.state.game_status.level)
                }
            },
            Msg::StartInterval => {
                self.job = true;
                Effect::BeginAutoDrop(self.state.game_status.level)
            },
            Msg::Cancel => {
                self.job = false;
                Effect::EndAutoDrop
            },
            Msg::Tick => {
                if self.state.game_status.game_over {
                    Effect::Nothing
                } else {
                    let outcome = self.state.move_down(next);
                    self.after_down(outcome)
                }
            },
            Msg::Move(control) => {
                if self.state.game_status.game_over {
                    return Effect::Nothing;
                }
                match control {
                    Controls::Left => {
                        self.state.shift(-1);
                        Effect::Nothing
                    },
                    Controls::Right => {
                        self.state.shift(1);
                        Effect::Nothing
                    },
                    Controls::Down => {
                        let outcome = self.state.move_down(next);
                        self.after_down(outcome)
                    },
                    Controls::Bottom => {
                        let outcome = self.state.hard_drop(next);
                        self.after_down(outcome)
                    },
                    Controls::Rotate => {
                        self.state.rotate_player_piece();
                        Effect::Nothing
                    },
                    Controls::Pause => {
                        if self.job {
                            self.job = false;
                            Effect::EndAutoDrop
                        } else {
                            Effect::Nothing
                        }
                    },
                }
            },
        }
    }

    fn after_down(&mut self, outcome: DownOutcome) -> (r: Effect)
        ensures
            final(self).state == old(self).state,
            (final(self).job, r) == (if outcome == DownOutcome::ToppedOut {
                (false, Effect::EndAutoDrop)
            } else {
                (old(self).job, Effect::Nothing)
            }),
    {
        if outcome == DownOutcome::ToppedOut {
            self.job = false;
            Effect::EndAutoDrop
        } else {
            Effect::Nothing
        }
    }

    /// Carries out `msg`. A piece that spawns after a lock is drawn at random
    /// among the six other than the one that locked; the first piece of a
    /// new game among all seven.
    pub fn update(&mut self, msg: Msg) -> (r: Effect)
        requires
            old(self).wf(),
        ensures
            final(self).wf(),
            exists|next: PieceType|
                {
                    &&& next != PieceType::E
                    &&& (!restarts(old(self).state@, old(self).job, msg) ==> next
                        != old(self).state@.piece_type)
                    &&& (final(self).state@, final(self).job, r) == model_step(
                        old(self).state@,
                        old(self).job,
                        msg,
                        next,
                    )
                },
    {
        let next = if msg == Msg::StartPause && !self.job && self.state.game_status.game_over {
            get_random_piece()
        } else {
            get_random_piece_except(self.state.player.piece_type)
        };
        self.apply(msg, next)
    }

    /// What a renderer draws at board cell `row`, `col`: the active piece's
    /// block there, else the board's cell.
    pub fn cell_at(&self, row: usize, col: usize) -> (r: PieceType)
        requires
            self.wf(),
            row < self.state.stage.n_rows,
            col < self.state.stage.n_cols,
        ensures
            r == overlay_cell(
                self.state@.stage,
                self.state@.shape,
                self.state@.x,
                self.state@.y,
                row as int,
                col as int,
            ),
    {
        let shape = &self.state.player.piece_shape;
        let sr = row as i128 - self.state.player.position.y as i128;
        let sc = col as i128 - self.state.player.position.x as i128;
        if 0 <= sr && sr < shape.n_rows as i128 && 0 <= sc && sc < shape.n_cols as i128 {
            let cell = shape.get(sr as usize, sc as usize);
            if cell != PieceType::E {
                return cell;
            }
        }
        self.state.stage.get(row, col)
    }
}

proof fn lemma_product_fits(level: int, factor: int)
    requires
        0 <= level <= (usize::MAX as int) / factor,
        0 < factor,
    ensures
        factor * level <= (usize::MAX as int),
{
    assert(factor * level <= factor * ((usize::MAX as int) / factor)) by (nonlinear_arith)
        requires
            0 <= level <= (usize::MAX as int) / factor,
            0 < factor,
    ;
    assert(factor * ((usize::MAX as int) / factor) <= (usize::MAX as int)) by (nonlinear_arith)
        requires
            0 < factor,
    ;
}

proof fn lemma_product_exceeds(level: int, factor: int)
    requires
        level > (usize::MAX as int) / factor,
        0 < factor,
    ensures
        factor * level > (usize::MAX as int),
{
    assert(factor * level > (usize::MAX as int)) by (nonlinear_arith)
        requires
            level > (usize::MAX as int) / factor,
            0 < factor,
    ;
}

/// The status of a new game.
fn initialize_game_status() -> (r: GameStatus)
    ensures
        r == initial_status(),
{
    GameStatus { level: 1, rows_cleared: 0, score: 0, game_over: false }
}

} // verus!
