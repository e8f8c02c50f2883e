//! The seven pieces, the empty cell, and the shape of each piece.
use vstd::prelude::*;

use crate::vec2d::Vec2D;

verus! {

/// What a cell of the board or of a shape holds: nothing (`E`) or a block of
/// one of the seven pieces.
#[derive(Clone, Copy, Debug, PartialEq, Eq, Structural)]
pub enum PieceType {
    E,
    I,
    J,
    L,
    T,
    O,
    S,
    Z,
}

/// The pieces in their fixed order, `I` first; `E` for any other index.
pub open spec fn piece_at(n: int) -> PieceType {
    if n == 0 {
        PieceType::I
    } else if n == 1 {
        PieceType::J
    } else if n == 2 {
        PieceType::L
    } else if n == 3 {
        PieceType::T
    } else if n == 4 {
        PieceType::O
    } else if n == 5 {
        PieceType::S
    } else if n == 6 {
        PieceType::Z
    } else {
        PieceType::E
    }
}

/// The place of a piece in that order; the empty cell has none.
pub open spec fn piece_index(t: PieceType) -> int {
    match t {
        PieceType::E => -1,
        PieceType::I => 0,
        PieceType::J => 1,
        PieceType::L => 2,
        PieceType::T => 3,
        PieceType::O => 4,
        PieceType::S => 5,
        PieceType::Z => 6,
    }
}

/// The `k`-th piece of the order once `prev` is left out of it.
pub open spec fn piece_other_than_spec(prev: PieceType, k: int) -> PieceType {
    if k < piece_index(prev) {
        piece_at(k)
    } else {
        piece_at(k + 1)
    }
}

/// The canonical shape of each piece, as it spawns; a single empty cell for `E`.
pub open spec fn shape_of(t: PieceType) -> Seq<Seq<PieceType>> {
    let e = PieceType::E;
    match t {
        PieceType::E => seq![seq![e]],
        PieceType::I => {
            let i = PieceType::I;
            seq![seq![e, i, e, e], seq![e, i, e, e], seq![e, i, e, e], seq![e, i, e, e]]
        },
        PieceType::J => {
            let j = PieceType::J;
            seq![seq![e, j, e], seq![e, j, e], seq![j, j, e]]
        },
        PieceType::L => {
            let l = PieceType::L;
            seq![seq![e, l, e], seq![e, l, e], seq![e, l, l]]
        },
        PieceType::T => {
            let t = PieceType::T;
            seq![seq![e, t, e], seq![t, t, t], seq![e, e, e]]
        },
        PieceType::O => {
            let o = PieceType::O;
            seq![seq![o, o], seq![o, o]]
        },
        PieceType::S => {
            let s = PieceType::S;
            seq![seq![e, e, e], seq![e, s, s], seq![s, s, e]]
        },
        PieceType::Z => {
            let z = PieceType::Z;
            seq![seq![e, e, e], seq![z, z, e], seq![e, z, z]]
        },
    }
}

/// The piece at place `n` of the order.
pub fn piece_from_index(n: usize) -> (r: PieceType)
    requires
        n < 7,
    ensures
        r == piece_at(n as int),
        r != PieceType::E,
{
    match n {
        0 => PieceType::I,
        1 => PieceType::J,
        2 => PieceType::L,
        3 => PieceType::T,
        4 => PieceType::O,
        5 => PieceType::S,
        _ => PieceType::Z,
    }
}

/// The `k`-th of the six pieces other than `prev`.
pub fn piece_other_than(prev: PieceType, k: usize) -> (r: PieceType)
    requires
        prev != PieceType::E,
        k < 6,
    ensures
        r == piece_other_than_spec(prev, k as int),
        r != prev,
        r != PieceType::E,
{
    let skip: usize = match prev {
        PieceType::I => 0,
        PieceType::J => 1,
        PieceType::L => 2,
        PieceType::T => 3,
        PieceType::O => 4,
        PieceType::S => 5,
        _ => 6,
    };
    if k < skip {
        piece_from_index(k)
    } else {
        piece_from_index(k + 1)
    }
}

fn row_of(cells: &[PieceType]) -> (r: Vec<PieceType>)
    ensures
        r@ == cells@,
{
    let mut line: Vec<PieceType> = Vec::new();
    let mut i: usize = 0;
    while i < cells.len()
        invariant
            i <= cells@.len(),
            line@ == cells@.take(i as int),
        decreases cells@.len() - i,
    {
        line.push(cells[i]);
        i = i + 1;
        assert(line@ =~= cells@.take(i as int));
    }
    assert(cells@.take(i as int) =~= cells@);
    line
}

/// A fresh copy of the canonical shape of `t`.
pub fn piece_shape(t: PieceType) -> (r: Vec2D)
    ensures
        r.wf(),
        r.n_rows == r.n_cols,
        r@ == shape_of(t),
{
    let e = PieceType::E;
    let mut data: Vec<Vec<PieceType>> = Vec::new();
    match t {
        PieceType::E => {
            data.push(row_of(&[e]));
        },
        PieceType::I => {
            let i = PieceType::I;
            data.push(row_of(&[e, i, e, e]));
            data.push(row_of(&[e, i, e, e]));
            data.push(row_of(&[e, i, e, e]));
            data.push(row_of(&[e, i, e, e]));
        },
        PieceType::J => {
            let j = PieceType::J;
            data.push(row_of(&[e, j, e]));
            data.push(row_of(&[e, j, e]));
            data.push(row_of(&[j, j, e]));
        },
        PieceType::L => {
            let l = PieceType::L;
            data.push(row_of(&[e, l, e]));
            data.push(row_of(&[e, l, e]));
            data.push(row_of(&[e, l, l]));
        },
        PieceType::T => {
            let tt = PieceType::T;
            data.push(row_of(&[e, tt, e]));
            data.push(row_of(&[tt, tt, tt]));
            data.push(row_of(&[e, e, e]));
        },
        PieceType::O => {
            let o = PieceType::O;
            data.push(row_of(&[o, o]));
            data.push(row_of(&[o, o]));
        },
        PieceType::S => {
            let s = PieceType::S;
            data.push(row_of(&[e, e, e]));
            data.push(row_of(&[e, s, s]));
            data.push(row_of(&[s, s, e]));
        },
        PieceType::Z => {
            let z = PieceType::Z;
            data.push(row_of(&[e, e, e]));
            data.push(row_of(&[z, z, e]));
            data.push(row_of(&[e, z, z]));
        },
    }
    let n = data.len();
    let r = Vec2D { n_rows: n, n_cols: n, data };
    assert(r@ =~~= shape_of(t));
    r
}

} // verus!
