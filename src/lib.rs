//! A falling-block puzzle engine: the board, the pieces, the rules that move
//! and lock them, line clearing and scoring, and a command-driven game model.
pub mod entries;
pub mod game;
pub mod piece;
pub mod random;
pub mod rules;
pub mod vec2d;

pub use entries::{Entry, Filter};
pub use game::{Model, Player, Position, State};
pub use rules::{
    Controls, DownOutcome, Effect, GameStatus, Msg, SPAWN_X, SPAWN_Y, STAGE_COLS, STAGE_ROWS,
    START_Y,
};
pub use piece::{piece_from_index, piece_other_than, piece_shape, PieceType};
pub use random::{get_random_piece, get_random_piece_except};
pub use vec2d::Vec2D;
