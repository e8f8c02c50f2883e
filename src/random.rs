//! Drawing the next piece.
use vstd::prelude::*;

use rand::Rng;

use crate::piece::{piece_from_index, piece_other_than, PieceType};

verus! {

/// Relies on rand's `thread_rng` and `Rng::gen_range(low, high)`, which
/// returns a value in `[low, high)` and panics only when `low >= high`.
#[verifier::external_body]
fn random_below(high: usize) -> (r: usize)
    requires
        0 < high,
    ensures
        r < high,
{
    rand::thread_rng().gen_range(0, high)
}

/// One of the seven pieces, each equally likely.
pub fn get_random_piece() -> (r: PieceType)
    ensures
        r != PieceType::E,
{
    piece_from_index(random_below(7))
}

/// One of the six pieces other than `prev`, each equally likely.
pub fn get_random_piece_except(prev: PieceType) -> (r: PieceType)
    requires
        prev != PieceType::E,
    ensures
        r != PieceType::E,
        r != prev,
{
    piece_other_than(prev, random_below(6))
}

} // verus!
