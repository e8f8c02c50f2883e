//! A rectangular array of cells, used both for the board and for the shapes.
use vstd::prelude::*;

use crate::piece::PieceType;

verus! {

/// A row of `n` empty cells.
pub open spec fn empty_row(n: int) -> Seq<PieceType> {
    Seq::new(n as nat, |c: int| PieceType::E)
}

/// A row is full when none of its cells is empty.
pub open spec fn row_full(row: Seq<PieceType>) -> bool {
    forall|c: int| 0 <= c < row.len() ==> row[c] != PieceType::E
}

/// The clockwise quarter turn of a square array: the columns, read bottom to
/// top, become the rows.
pub open spec fn rotate_spec(s: Seq<Seq<PieceType>>) -> Seq<Seq<PieceType>> {
    Seq::new(s.len(), |r: int| Seq::new(s.len(), |c: int| s[s.len() - 1 - c][r]))
}

/// Whether `i` is one of the entries of `rows`.
pub open spec fn is_listed(rows: Seq<usize>, i: int) -> bool {
    exists|j: int| 0 <= j < rows.len() && rows[j] as int == i
}

/// The rows of `g` whose index is not listed in `cleared`, in their order.
pub open spec fn kept_rows(g: Seq<Seq<PieceType>>, cleared: Seq<usize>) -> Seq<Seq<PieceType>>
    decreases g.len(),
{
    if g.len() == 0 {
        Seq::empty()
    } else {
        let front = kept_rows(g.drop_last(), cleared);
        if is_listed(cleared, g.len() - 1) {
            front
        } else {
            front.push(g.last())
        }
    }
}

/// The board after the listed rows are taken out: as many empty rows on top
/// as were taken out, then the other rows in their order.
pub open spec fn compacted(g: Seq<Seq<PieceType>>, cleared: Seq<usize>, n_cols: int) -> Seq<
    Seq<PieceType>,
> {
    let kept = kept_rows(g, cleared);
    Seq::new((g.len() - kept.len()) as nat, |r: int| empty_row(n_cols)) + kept
}

/// The rows of `g` that are not full, in their order.
pub open spec fn non_full_rows(g: Seq<Seq<PieceType>>) -> Seq<Seq<PieceType>>
    decreases g.len(),
{
    if g.len() == 0 {
        Seq::empty()
    } else {
        let front = non_full_rows(g.drop_last());
        if row_full(g.last()) {
            front
        } else {
            front.push(g.last())
        }
    }
}

/// The board with its full rows cleared: as many empty rows on top as there
/// were full rows, then the other rows in their order.
pub open spec fn cleared(g: Seq<Seq<PieceType>>, n_cols: int) -> Seq<Seq<PieceType>> {
    let kept = non_full_rows(g);
    Seq::new((g.len() - kept.len()) as nat, |r: int| empty_row(n_cols)) + kept
}

/// How many rows of `g` are full.
pub open spec fn full_count(g: Seq<Seq<PieceType>>) -> int {
    g.len() - non_full_rows(g).len()
}

/// Taking out the rows listed by index is taking out the full rows, when
/// exactly the full rows are listed.
pub proof fn lemma_kept_rows_full(g: Seq<Seq<PieceType>>, rows: Seq<usize>)
    requires
        forall|i: int| 0 <= i < g.len() ==> (is_listed(rows, i) <==> row_full(#[trigger] g[i])),
    ensures
        kept_rows(g, rows) == non_full_rows(g),
        non_full_rows(g).len() <= g.len(),
    decreases g.len(),
{
    if g.len() > 0 {
        let front = g.drop_last();
        assert forall|i: int| 0 <= i < front.len() implies (is_listed(rows, i) <==> row_full(
            #[trigger] front[i],
        )) by {
            assert(front[i] == g[i]);
        }
        lemma_kept_rows_full(front, rows);
        assert(row_full(g.last()) <==> row_full(g[g.len() - 1]));
    }
}

/// A rectangular array of `n_rows` rows of `n_cols` cells each; row 0 is the top.
pub struct Vec2D {
    pub n_rows: usize,
    pub n_cols: usize,
    pub data: Vec<Vec<PieceType>>,
}

impl View for Vec2D {
    type V = Seq<Seq<PieceType>>;

    open spec fn view(&self) -> Seq<Seq<PieceType>> {
        self.data@.map_values(|row: Vec<PieceType>| row@)
    }
}

impl Vec2D {
    /// The dimensions agree with the rows held.
    pub open spec fn wf(&self) -> bool {
        &&& self.data@.len() == self.n_rows
        &&& forall|r: int| 0 <= r < self.n_rows ==> (#[trigger] self.data@[r])@.len() == self.n_cols
    }

    /// An array of `rows` by `columns` empty cells.
    pub fn new(rows: usize, columns: usize) -> (r: Vec2D)
        ensures
            r.wf(),
            r.n_rows == rows,
            r.n_cols == columns,
            r@ == Seq::new(rows as nat, |i: int| empty_row(columns as int)),
    {
        let mut data: Vec<Vec<PieceType>> = Vec::new();
        let mut i: usize = 0;
        while i < rows
            invariant
                i <= rows,
                data@.len() == i,
                forall|k: int| 0 <= k < i ==> (#[trigger] data@[k])@ == empty_row(columns as int),
            decreases rows - i,
        {
            let row = empty_line(columns);
            data.push(row);
            i = i + 1;
        }
        let r = Vec2D { n_rows: rows, n_cols: columns, data };
        assert(r@ =~= Seq::new(rows as nat, |i: int| empty_row(columns as int)));
        r
    }

    /// The cell at `row`, `col`.
    pub fn get(&self, row: usize, col: usize) -> (r: PieceType)
        requires
            self.wf(),
            row < self.n_rows,
            col < self.n_cols,
        ensures
            r == self@[row as int][col as int],
    {
        self.data[row][col]
    }

    /// Overwrites the cell at `row`, `col`.
    pub fn set(&mut self, row: usize, col: usize, piece: PieceType)
        requires
            old(self).wf(),
            row < old(self).n_rows,
            col < old(self).n_cols,
        ensures
            final(self).wf(),
            final(self).n_rows == old(self).n_rows,
            final(self).n_cols == old(self).n_cols,
            final(self)@ == old(self)@.update(
                row as int,
                old(self)@[row as int].update(col as int, piece),
            ),
    {
        let mut line = self.data[row].clone();
        line.set(col, piece);
        self.data.set(row, line);
        assert(self@ =~= old(self)@.update(
            row as int,
            old(self)@[row as int].update(col as int, piece),
        ));
    }

    /// The indices of the full rows, in ascending order.
    pub fn full_rows(&self) -> (r: Vec<usize>)
        requires
            self.wf(),
        ensures
            forall|i: int|
                0 <= i < r.len() ==> #[trigger] r@[i] < self.n_rows && row_full(self@[r@[i] as int]),
            forall|i: int, j: int| 0 <= i < j < r.len() ==> r@[i] < r@[j],
            forall|k: int| 0 <= k < self.n_rows && row_full(#[trigger] self@[k]) ==> is_listed(r@, k),
    {
        let mut full: Vec<usize> = Vec::new();
        let mut row: usize = 0;
        while row < self.n_rows
            invariant
                self.wf(),
                row <= self.n_rows,
                forall|i: int|
                    0 <= i < full.len() ==> #[trigger] full@[i] < row && row_full(self@[full@[i] as int]),
                forall|i: int, j: int| 0 <= i < j < full.len() ==> full@[i] < full@[j],
                forall|k: int| 0 <= k < row && row_full(#[trigger] self@[k]) ==> is_listed(full@, k),
            decreases self.n_rows - row,
        {
            let mut empty_cell_exists = false;
            let mut col: usize = 0;
            while col < self.n_cols
                invariant
                    self.wf(),
                    row < self.n_rows,
                    col <= self.n_cols,
                    empty_cell_exists <==> exists|c: int| 0 <= c < col && self@[row as int][c] == PieceType::E,
                decreases self.n_cols - col,
            {
                if self.get(row, col) == PieceType::E {
                    empty_cell_exists = true;
                }
                col = col + 1;
            }
            if !empty_cell_exists {
                assert(row_full(self@[row as int])) by {
                    assert forall|c: int| 0 <= c < self@[row as int].len() implies self@[row as int][c]
                        != PieceType::E by {
                        if self@[row as int][c] == PieceType::E {
                            assert(exists|c: int| 0 <= c < col && self@[row as int][c] == PieceType::E);
                        }
                    }
                }
                let ghost before = full@;
                full.push(row);
                assert forall|i: int| 0 <= i < before.len() implies full@[i] == before[i] by {}
                assert forall|k: int| 0 <= k < row + 1 && row_full(#[trigger] self@[k]) implies is_listed(full@, k) by {
                    if k < row {
                        let j = choose|j: int| 0 <= j < before.len() && before[j] as int == k;
                        assert(full@[j] as int == k);
                    } else {
                        assert(full@[full@.len() - 1] as int == k);
                    }
                }
            }
            row = row + 1;
        }
        full
    }

    /// Takes the listed rows out, moves the rows above them down and fills
    /// the top with empty rows.
    pub fn remove_rows(&mut self, rows: Vec<usize>) -> (n: usize)
        requires
            old(self).wf(),
        ensures
            n == old(self)@.len() - kept_rows(old(self)@, rows@).len(),
            final(self).wf(),
            final(self).n_rows == old(self).n_rows,
            final(self).n_cols == old(self).n_cols,
            final(self)@ == compacted(old(self)@, rows@, old(self).n_cols as int),
    {
        let ghost g = self@;
        let mut kept: Vec<Vec<PieceType>> = Vec::new();
        let mut i: usize = 0;
        while i < self.n_rows
            invariant
                self.wf(),
                self@ == g,
                i <= self.n_rows,
                kept@.len() <= i,
                kept@.map_values(|row: Vec<PieceType>| row@) == kept_rows(g.take(i as int), rows@),
                forall|k: int| 0 <= k < kept@.len() ==> (#[trigger] kept@[k])@.len() == self.n_cols,
            decreases self.n_rows - i,
        {
            assert(g.take(i + 1).drop_last() =~= g.take(i as int));
            let listed = row_listed(&rows, i);
            if !listed {
                let line = self.data[i].clone();
                kept.push(line);
            }
            i = i + 1;
            assert(kept@.map_values(|row: Vec<PieceType>| row@) =~= kept_rows(g.take(i as int), rows@));
        }
        assert(g.take(i as int) =~= g);
        let n_cleared = self.n_rows - kept.len();
        let mut data: Vec<Vec<PieceType>> = Vec::new();
        let mut j: usize = 0;
        while j < n_cleared
            invariant
                j <= n_cleared,
                data@.len() == j,
                forall|k: int| 0 <= k < j ==> (#[trigger] data@[k])@ == empty_row(self.n_cols as int),
            decreases n_cleared - j,
        {
            data.push(empty_line(self.n_cols));
            j = j + 1;
        }
        data.append(&mut kept);
        self.data = data;
        assert(self@ =~= compacted(g, rows@, self.n_cols as int));
        n_cleared
    }

    /// The array turned a quarter clockwise.
    pub fn rotated(&self) -> (r: Vec2D)
        requires
            self.wf(),
            self.n_rows == self.n_cols,
        ensures
            r.wf(),
            r.n_rows == self.n_rows,
            r.n_cols == self.n_cols,
            r@ == rotate_spec(self@),
    {
        let n = self.n_rows;
        let mut data: Vec<Vec<PieceType>> = Vec::new();
        let mut n_col: usize = 0;
        while n_col < n
            invariant
                self.wf(),
                n == self.n_rows,
                n == self.n_cols,
                n_col <= n,
                data@.len() == n_col,
                forall|k: int| 0 <= k < n_col ==> (#[trigger] data@[k])@ == rotate_spec(self@)[k],
            decreases n - n_col,
        {
            let mut line: Vec<PieceType> = Vec::new();
            let mut n_row: usize = n;
            while n_row > 0
                invariant
                    self.wf(),
                    n == self.n_rows,
                    n == self.n_cols,
                    n_col < n,
                    n_row <= n,
                    line@.len() == n - n_row,
                    forall|c: int| 0 <= c < n - n_row ==> #[trigger] line@[c] == self@[n - 1 - c][n_col as int],
                decreases n_row,
            {
                n_row = n_row - 1;
                line.push(self.get(n_row, n_col));
            }
            assert(line@ =~= rotate_spec(self@)[n_col as int]);
            data.push(line);
            n_col = n_col + 1;
        }
        let r = Vec2D { n_rows: n, n_cols: n, data };
        assert(r@ =~= rotate_spec(self@));
        r
    }
}

/// A row of `n` empty cells.
fn empty_line(n: usize) -> (r: Vec<PieceType>)
    ensures
        r@ == empty_row(n as int),
{
    let mut line: Vec<PieceType> = Vec::new();
    let mut j: usize = 0;
    while j < n
        invariant
            j <= n,
            line@ == empty_row(j as int),
        decreases n - j,
    {
        line.push(PieceType::E);
        j = j + 1;
        assert(line@ =~= empty_row(j as int));
    }
    line
}

/// Whether `i` is one of the entries of `rows`.
fn row_listed(rows: &Vec<usize>, i: usize) -> (b: bool)
    ensures
        b == is_listed(rows@, i as int),
{
    let mut j: usize = 0;
    while j < rows.len()
        invariant
            j <= rows.len(),
            forall|k: int| 0 <= k < j ==> rows@[k] != i,
        decreases rows.len() - j,
    {
        if rows[j] == i {
            return true;
        }
        j = j + 1;
    }
    false
}

/// Four quarter turns bring a square array back to itself.
pub proof fn lemma_rotate_four_times(s: Seq<Seq<PieceType>>)
    requires
        forall|r: int| 0 <= r < s.len() ==> (#[trigger] s[r]).len() == s.len(),
    ensures
        rotate_spec(rotate_spec(rotate_spec(rotate_spec(s)))) == s,
{
    let s1 = rotate_spec(s);
    let s2 = rotate_spec(s1);
    let s3 = rotate_spec(s2);
    let s4 = rotate_spec(s3);
    let n = s.len();
    assert forall|r: int| 0 <= r < n implies #[trigger] s4[r] =~= s[r] by {
        assert forall|c: int| 0 <= c < n implies s4[r][c] == s[r][c] by {
            assert(s4[r][c] == s3[n - 1 - c][r]);
            assert(s3[n - 1 - c][r] == s2[n - 1 - r][n - 1 - c]);
            assert(s2[n - 1 - r][n - 1 - c] == s1[c][n - 1 - r]);
            assert(s1[c][n - 1 - r] == s[r][c]);
        }
    }
    assert(s4 =~= s);
}

} // verus!
