//! The rules as mathematical functions: the board as values, the tests a
//! placement must pass, what each command does to the game, and the laws
//! that follow.
use vstd::prelude::*;

use crate::piece::{shape_of, PieceType};
use crate::vec2d::{cleared, empty_row, full_count, rotate_spec};

verus! {

/// Rows of the board.
pub const STAGE_ROWS: usize = 21;

/// Columns of the board.
pub const STAGE_COLS: usize = 10;

/// Column at which every piece spawns.
pub const SPAWN_X: isize = 4;

/// Row at which the first piece of a game spawns, one above the board.
pub const START_Y: isize = -1;

/// Row at which each later piece spawns.
pub const SPAWN_Y: isize = 0;

/// Level, rows cleared so far, score, and whether the game is over.
#[derive(Clone, Copy, Debug, PartialEq, Eq, Structural)]
pub struct GameStatus {
    pub level: usize,
    pub rows_cleared: usize,
    pub score: usize,
    pub game_over: bool,
}

/// The game as mathematical values.
pub struct Board {
    pub stage: Seq<Seq<PieceType>>,
    pub n_rows: int,
    pub n_cols: int,
    pub piece_type: PieceType,
    pub shape: Seq<Seq<PieceType>>,
    pub x: int,
    pub y: int,
    pub collided: bool,
    pub status: GameStatus,
}

/// The level that goes with a number of cleared rows: one more per ten.
pub open spec fn level_for(rows_cleared: int) -> int {
    rows_cleared / 10 + 1
}

/// The status of a new game.
pub open spec fn initial_status() -> GameStatus {
    GameStatus { level: 1, rows_cleared: 0, score: 0, game_over: false }
}

/// What clearing `n` rows at once earns at `level`.
pub open spec fn score_delta(n: int, level: int) -> int {
    if n == 1 {
        40 * level
    } else if n == 2 {
        100 * level
    } else if n == 3 {
        300 * level
    } else {
        1200 * level
    }
}

/// `v`, or the largest `usize` where `v` is larger.
pub open spec fn saturate(v: int) -> usize {
    if v > usize::MAX {
        usize::MAX
    } else {
        v as usize
    }
}

/// The status after `n` more rows were cleared at once. The counters stop
/// at the largest `usize`.
pub open spec fn scored(s: GameStatus, n: int) -> GameStatus {
    if n <= 0 {
        s
    } else {
        let rows = saturate(s.rows_cleared + n);
        GameStatus {
            level: level_for(rows as int) as usize,
            rows_cleared: rows,
            score: saturate(s.score + score_delta(n, s.level as int)),
            game_over: s.game_over,
        }
    }
}

/// Whether the shape cell at `r`, `c`, placed with its corner at `x`, `y`,
/// is empty or lies left of the board, right of it, or below it.
pub open spec fn cell_fits(
    n_rows: int,
    n_cols: int,
    shape: Seq<Seq<PieceType>>,
    x: int,
    y: int,
    r: int,
    c: int,
) -> bool {
    shape[r][c] != PieceType::E ==> 0 <= x + c < n_cols && y + r < n_rows
}

/// No block of the shape lies left of the board, right of it or below it.
/// Blocks above the top row are allowed.
pub open spec fn fits_spec(
    n_rows: int,
    n_cols: int,
    shape: Seq<Seq<PieceType>>,
    x: int,
    y: int,
) -> bool {
    forall|r: int, c: int|
        0 <= r < shape.len() && 0 <= c < shape[r].len() ==> #[trigger] cell_fits(
            n_rows,
            n_cols,
            shape,
            x,
            y,
            r,
            c,
        )
}

/// Whether the shape cell at `r`, `c` meets no block of the board; places
/// off the board block nothing.
pub open spec fn cell_clear(
    stage: Seq<Seq<PieceType>>,
    shape: Seq<Seq<PieceType>>,
    x: int,
    y: int,
    r: int,
    c: int,
) -> bool {
    (shape[r][c] != PieceType::E && 0 <= y + r < stage.len() && 0 <= x + c < stage[y + r].len())
        ==> stage[y + r][x + c] == PieceType::E
}

/// No block of the shape meets a block of the board.
pub open spec fn unobstructed_spec(
    stage: Seq<Seq<PieceType>>,
    shape: Seq<Seq<PieceType>>,
    x: int,
    y: int,
) -> bool {
    forall|r: int, c: int|
        0 <= r < shape.len() && 0 <= c < shape[r].len() ==> #[trigger] cell_clear(
            stage,
            shape,
            x,
            y,
            r,
            c,
        )
}

/// Whether a position can be held as a `Position`.
pub open spec fn representable(x: int, y: int) -> bool {
    isize::MIN <= x <= isize::MAX && isize::MIN <= y <= isize::MAX
}

/// The active piece may stand with shape `shape` at `x`, `y`.
pub open spec fn legal(b: Board, shape: Seq<Seq<PieceType>>, x: int, y: int) -> bool {
    &&& fits_spec(b.n_rows, b.n_cols, shape, x, y)
    &&& unobstructed_spec(b.stage, shape, x, y)
    &&& representable(x, y)
}

/// Whether the shape placed at `x`, `y` has a block on board cell `gr`, `gc`.
pub open spec fn covers(shape: Seq<Seq<PieceType>>, x: int, y: int, gr: int, gc: int) -> bool {
    &&& 0 <= gr - y < shape.len()
    &&& 0 <= gc - x < shape[gr - y].len()
    &&& shape[gr - y][gc - x] != PieceType::E
}

/// The board cell `gr`, `gc` with the shape placed at `x`, `y` drawn over it.
pub open spec fn overlay_cell(
    stage: Seq<Seq<PieceType>>,
    shape: Seq<Seq<PieceType>>,
    x: int,
    y: int,
    gr: int,
    gc: int,
) -> PieceType {
    if covers(shape, x, y, gr, gc) {
        shape[gr - y][gc - x]
    } else {
        stage[gr][gc]
    }
}

/// The board with the shape placed at `x`, `y` drawn over it; blocks off
/// the board are left out.
pub open spec fn overlay(
    stage: Seq<Seq<PieceType>>,
    shape: Seq<Seq<PieceType>>,
    x: int,
    y: int,
) -> Seq<Seq<PieceType>> {
    Seq::new(
        stage.len(),
        |gr: int| Seq::new(stage[gr].len(), |gc: int| overlay_cell(stage, shape, x, y, gr, gc)),
    )
}

/// The board is rectangular, the shape square and a real piece's, and the
/// level agrees with the rows cleared.
pub open spec fn board_wf(b: Board) -> bool {
    &&& b.stage.len() == b.n_rows
    &&& forall|r: int| 0 <= r < b.n_rows ==> (#[trigger] b.stage[r]).len() == b.n_cols
    &&& forall|r: int| 0 <= r < b.shape.len() ==> (#[trigger] b.shape[r]).len() == b.shape.len()
    &&& b.piece_type != PieceType::E
    &&& b.status.level == level_for(b.status.rows_cleared as int)
}

/// What became of a step down.
#[derive(Clone, Copy, Debug, PartialEq, Eq, Structural)]
pub enum DownOutcome {
    /// The piece went one row down.
    Moved,
    /// The piece could not leave the top of the board: the game is over.
    ToppedOut,
    /// The piece was locked into the board and a new one spawned.
    Locked,
}

/// The board with the piece moved to `x`, `y`.
pub open spec fn moved(b: Board, x: int, y: int) -> Board {
    Board { x, y, ..b }
}

/// The board after the piece locks where it stands: it is drawn into the
/// board, the full rows are cleared and scored, and `next` spawns.
pub open spec fn locked(b: Board, next: PieceType) -> Board {
    let merged = overlay(b.stage, b.shape, b.x, b.y);
    Board {
        stage: cleared(merged, b.n_cols),
        piece_type: next,
        shape: shape_of(next),
        x: SPAWN_X as int,
        y: SPAWN_Y as int,
        collided: false,
        status: scored(b.status, full_count(merged)),
        ..b
    }
}

/// One step down: move when the row below is free; else end the game when
/// the piece is at or above the top row, and lock it otherwise.
pub open spec fn down_step(b: Board, next: PieceType) -> (Board, DownOutcome) {
    if legal(b, b.shape, b.x, b.y + 1) {
        (moved(b, b.x, b.y + 1), DownOutcome::Moved)
    } else if b.y <= 0 {
        (Board { status: GameStatus { game_over: true, ..b.status }, ..b }, DownOutcome::ToppedOut)
    } else {
        (locked(b, next), DownOutcome::Locked)
    }
}

/// Steps down until the piece locks or the game ends.
pub open spec fn drop_step(b: Board, next: PieceType) -> (Board, DownOutcome)
    decreases isize::MAX - b.y,
{
    if legal(b, b.shape, b.x, b.y + 1) && b.y + 1 <= isize::MAX {
        drop_step(moved(b, b.x, b.y + 1), next)
    } else {
        down_step(b, next)
    }
}

/// A sideways step by `dx` where the place is free.
pub open spec fn shift_step(b: Board, dx: int) -> Board {
    if legal(b, b.shape, b.x + dx, b.y) {
        moved(b, b.x + dx, b.y)
    } else {
        b
    }
}

/// A quarter turn clockwise where it stands, else one row higher, else nothing.
pub open spec fn rotate_step(b: Board) -> Board {
    let turned = rotate_spec(b.shape);
    if legal(b, turned, b.x, b.y) {
        Board { shape: turned, ..b }
    } else if legal(b, turned, b.x, b.y - 1) {
        Board { shape: turned, y: b.y - 1, ..b }
    } else {
        b
    }
}

/// A new game whose first piece is `first`.
pub open spec fn fresh_board(first: PieceType) -> Board {
    Board {
        stage: Seq::new(STAGE_ROWS as nat, |r: int| empty_row(STAGE_COLS as int)),
        n_rows: STAGE_ROWS as int,
        n_cols: STAGE_COLS as int,
        piece_type: first,
        shape: shape_of(first),
        x: SPAWN_X as int,
        y: START_Y as int,
        collided: false,
        status: initial_status(),
    }
}

/// A player's input.
#[derive(Clone, Copy, Debug, PartialEq, Eq, Structural)]
pub enum Controls {
    Left,
    Right,
    Down,
    Bottom,
    Rotate,
    Pause,
}

/// A command to the game.
#[derive(Clone, Copy, Debug, PartialEq, Eq, Structural)]
pub enum Msg {
    Move(Controls),
    StartPause,
    StartInterval,
    Cancel,
    Tick,
}

/// What the game asks of its host after a command.
#[derive(Clone, Copy, Debug, PartialEq, Eq, Structural)]
pub enum Effect {
    Nothing,
    /// Start sending `Tick` at the pace of this level.
    BeginAutoDrop(usize),
    /// Stop sending `Tick`.
    EndAutoDrop,
}

/// Whether `msg` starts a new game.
pub open spec fn restarts(b: Board, job: bool, msg: Msg) -> bool {
    msg == Msg::StartPause && !job && b.status.game_over
}

/// A step down as a command: when the game ends, the automatic drop stops.
pub open spec fn down_command(step: (Board, DownOutcome), job: bool) -> (Board, bool, Effect) {
    if step.1 == DownOutcome::ToppedOut {
        (step.0, false, Effect::EndAutoDrop)
    } else {
        (step.0, job, Effect::Nothing)
    }
}

/// The game after `msg`, with whether the automatic drop runs and what the
/// host is asked; `next` is the piece that spawns if one does.
pub open spec fn model_step(b: Board, job: bool, msg: Msg, next: PieceType) -> (Board, bool, Effect) {
    match msg {
        Msg::StartPause => {
            if job {
                (b, false, Effect::EndAutoDrop)
            } else if b.status.game_over {
                let f = fresh_board(next);
                (f, true, Effect::BeginAutoDrop(f.status.level))
            } else {
                (b, true, Effect::BeginAutoDrop(b.status.level))
            }
        },
        Msg::StartInterval => (b, true, Effect::BeginAutoDrop(b.status.level)),
        Msg::Cancel => (b, false, Effect::EndAutoDrop),
        Msg::Tick => {
            if b.status.game_over {
                (b, job, Effect::Nothing)
            } else {
                down_command(down_step(b, next), job)
            }
        },
        Msg::Move(control) => {
            if b.status.game_over {
                (b, job, Effect::Nothing)
            } else {
                match control {
                    Controls::Left => (shift_step(b, -1), job, Effect::Nothing),
                    Controls::Right => (shift_step(b, 1), job, Effect::Nothing),
                    Controls::Down => down_command(down_step(b, next), job),
                    Controls::Bottom => down_command(drop_step(b, next), job),
                    Controls::Rotate => (rotate_step(b), job, Effect::Nothing),
                    Controls::Pause => {
                        if job {
                            (b, false, Effect::EndAutoDrop)
                        } else {
                            (b, job, Effect::Nothing)
                        }
                    },
                }
            }
        },
    }
}

/// A shape with a block left of the board, right of it or below it does
/// not fit.
pub proof fn lemma_block_outside_does_not_fit(
    n_rows: int,
    n_cols: int,
    shape: Seq<Seq<PieceType>>,
    x: int,
    y: int,
    r: int,
    c: int,
)
    requires
        0 <= r < shape.len(),
        0 <= c < shape[r].len(),
        shape[r][c] != PieceType::E,
        x + c < 0 || x + c >= n_cols || y + r >= n_rows,
    ensures
        !fits_spec(n_rows, n_cols, shape, x, y),
{
    assert(!cell_fits(n_rows, n_cols, shape, x, y, r, c));
}

/// Blocks above the top row never make a shape fail to fit: a shape that
/// fits still fits when raised by any number of rows.
pub proof fn lemma_raised_still_fits(
    n_rows: int,
    n_cols: int,
    shape: Seq<Seq<PieceType>>,
    x: int,
    y: int,
    up: int,
)
    requires
        fits_spec(n_rows, n_cols, shape, x, y),
        up >= 0,
    ensures
        fits_spec(n_rows, n_cols, shape, x, y - up),
{
    assert forall|r: int, c: int| 0 <= r < shape.len() && 0 <= c < shape[r].len() implies #[trigger] cell_fits(
        n_rows,
        n_cols,
        shape,
        x,
        y - up,
        r,
        c,
    ) by {
        assert(cell_fits(n_rows, n_cols, shape, x, y, r, c));
    }
}

/// A shape whose blocks all lie within the columns and above the top row
/// fits.
pub proof fn lemma_above_top_fits(
    n_rows: int,
    n_cols: int,
    shape: Seq<Seq<PieceType>>,
    x: int,
    y: int,
)
    requires
        0 <= n_rows,
        y + shape.len() <= 0,
        forall|r: int, c: int|
            0 <= r < shape.len() && 0 <= c < shape[r].len() && shape[r][c] != PieceType::E ==> 0
                <= x + c < n_cols,
    ensures
        fits_spec(n_rows, n_cols, shape, x, y),
{
}

/// The piece that spawns after a lock is never the piece that locked, when
/// `next` is drawn among the others.
pub proof fn lemma_spawn_differs(b: Board, next: PieceType)
    requires
        next != b.piece_type,
    ensures
        down_step(b, next).1 == DownOutcome::Locked ==> down_step(b, next).0.piece_type
            != b.piece_type,
        drop_step(b, next).1 == DownOutcome::Locked ==> drop_step(b, next).0.piece_type
            != b.piece_type,
    decreases isize::MAX - b.y,
{
    if legal(b, b.shape, b.x, b.y + 1) && b.y + 1 <= isize::MAX {
        lemma_spawn_differs(moved(b, b.x, b.y + 1), next);
    }
}

/// A piece at or above the top row with a block right above a filled cell
/// cannot step down: the game ends, and the piece and the board stay as
/// they are.
pub proof fn lemma_game_over_trigger(b: Board, next: PieceType, r: int, c: int)
    requires
        board_wf(b),
        !b.status.game_over,
        b.y <= 0,
        0 <= r < b.shape.len(),
        0 <= c < b.shape[r].len(),
        b.shape[r][c] != PieceType::E,
        0 <= b.y + r + 1 < b.n_rows,
        0 <= b.x + c < b.n_cols,
        b.stage[b.y + r + 1][b.x + c] != PieceType::E,
    ensures
        down_step(b, next).1 == DownOutcome::ToppedOut,
        down_step(b, next).0 == (Board { status: GameStatus { game_over: true, ..b.status }, ..b }),
        model_step(b, true, Msg::Tick, next).0.status.game_over,
        model_step(b, true, Msg::Tick, next).0.piece_type == b.piece_type,
        model_step(b, true, Msg::Tick, next).2 == Effect::EndAutoDrop,
{
    assert(!cell_clear(b.stage, b.shape, b.x, b.y + 1, r, c));
}

/// Clearing one to four rows at once earns 40, 100, 300 or 1200 times the
/// level before the clear, and adds the rows to the count, as long as the
/// counters stay below the largest `usize`.
pub proof fn lemma_score_table(s: GameStatus, n: int)
    requires
        1 <= n,
        s.rows_cleared + n <= usize::MAX,
        s.score + score_delta(n, s.level as int) <= usize::MAX,
    ensures
        scored(s, n).score == s.score + (if n == 1 {
            40int
        } else if n == 2 {
            100int
        } else if n == 3 {
            300int
        } else {
            1200int
        }) * s.level,
        scored(s, n).rows_cleared == s.rows_cleared + n,
        scored(s, n).level == (s.rows_cleared + n) / 10 + 1,
        scored(s, n).game_over == s.game_over,
{
}

/// Clearing rows never lowers the level.
pub proof fn lemma_level_never_drops(s: GameStatus, n: int)
    requires
        s.level == level_for(s.rows_cleared as int),
    ensures
        scored(s, n).level >= s.level,
        scored(s, n).level == level_for(scored(s, n).rows_cleared as int),
{
}

} // verus!
