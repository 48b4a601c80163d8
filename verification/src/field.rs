//! The game field: a fixed grid of cells, each empty or holding one coin.
//!
//! The grid is stored row-major in a single vector; the spec view addresses
//! cells by `(row, column)`, with row `0` at the top. This module also
//! defines the spec-level notions the engine's contracts are stated over:
//! where a dropped coin lands in a column, when a column is full, and what
//! counts as a winning run of four.

use vstd::prelude::*;

verus! {

use crate::symbol::Coin;

/// A `rows x cols` grid of cells. Dimensions never change after creation.
#[derive(Debug)]
pub struct Field {
    rows: usize,
    cols: usize,
    tiles: Vec<Option<Coin>>,
}

/// A row-major cell index is within the grid.
proof fn lemma_grid_index_bounds(rows: int, cols: int, r: int, c: int)
    by (nonlinear_arith)
    requires
        0 <= r < rows,
        0 <= c < cols,
        rows <= 255,
        cols <= 255,
    ensures
        0 <= r * cols + c < rows * cols,
        rows * cols <= 65025,
{
}

/// Distinct in-range cells have distinct row-major indices.
proof fn lemma_grid_index_injective(cols: int, r1: int, c1: int, r2: int, c2: int)
    by (nonlinear_arith)
    requires
        0 <= c1 < cols,
        0 <= c2 < cols,
        0 <= r1,
        0 <= r2,
        r1 * cols + c1 == r2 * cols + c2,
    ensures
        r1 == r2,
        c1 == c2,
{
}

impl Field {
    /// Number of rows of the grid.
    pub closed spec fn spec_rows(&self) -> int {
        self.rows as int
    }

    /// Number of columns of the grid.
    pub closed spec fn spec_cols(&self) -> int {
        self.cols as int
    }

    /// The cells of the grid, row-major.
    pub closed spec fn grid(&self) -> Seq<Option<Coin>> {
        self.tiles@
    }

    /// The cell at `(r, c)`: row `0` is the top row, row `rows - 1` the bottom.
    pub open spec fn spec_at(&self, r: int, c: int) -> Option<Coin> {
        self.grid()[r * self.spec_cols() + c]
    }

    /// The grid's dimensions are bounded, its storage matches them, and every
    /// coin on it is well formed.
    pub open spec fn wf(&self) -> bool {
        &&& 0 <= self.spec_rows() <= 255
        &&& 0 <= self.spec_cols() <= 255
        &&& self.grid().len() == self.spec_rows() * self.spec_cols()
        &&& forall|r: int, c: int|
            0 <= r < self.spec_rows() && 0 <= c < self.spec_cols()
                ==> ((#[trigger] self.spec_at(r, c)) matches Some(coin) ==> coin.wf())
    }

    /// Every cell of column `c` is occupied.
    pub open spec fn spec_col_full(&self, c: int) -> bool {
        forall|r: int| 0 <= r < self.spec_rows() ==> (#[trigger] self.spec_at(r, c)) is Some
    }

    /// Row `r` is where a coin dropped into column `c` lands: the lowest
    /// unoccupied cell of the column, i.e. the empty cell below which every
    /// cell is occupied.
    pub open spec fn is_landing_row(&self, c: int, r: int) -> bool {
        &&& 0 <= r < self.spec_rows()
        &&& self.spec_at(r, c) is None
        &&& forall|r2: int| r < r2 < self.spec_rows() ==> (#[trigger] self.spec_at(r2, c)) is Some
    }

    /// Cell `(r, c)` is inside the grid and holds a coin of player `p`.
    pub open spec fn cell_is(&self, r: int, c: int, p: u8) -> bool {
        &&& 0 <= r < self.spec_rows()
        &&& 0 <= c < self.spec_cols()
        &&& self.spec_at(r, c) matches Some(coin) && coin.spec_player_id() == p
    }

    /// Four coins of player `p` in row `r`, columns `c` to `c + 3`.
    pub open spec fn horiz_win_at(&self, p: u8, r: int, c: int) -> bool {
        &&& self.cell_is(r, c, p)
        &&& self.cell_is(r, c + 1, p)
        &&& self.cell_is(r, c + 2, p)
        &&& self.cell_is(r, c + 3, p)
    }

    /// Four coins of player `p` in column `c`, rows `r` to `r + 3`.
    pub open spec fn vert_win_at(&self, p: u8, r: int, c: int) -> bool {
        &&& self.cell_is(r, c, p)
        &&& self.cell_is(r + 1, c, p)
        &&& self.cell_is(r + 2, c, p)
        &&& self.cell_is(r + 3, c, p)
    }

    /// Four coins of player `p` on the diagonal running down-right from `(r, c)`.
    pub open spec fn diag_down_right_win_at(&self, p: u8, r: int, c: int) -> bool {
        &&& self.cell_is(r, c, p)
        &&& self.cell_is(r + 1, c + 1, p)
        &&& self.cell_is(r + 2, c + 2, p)
        &&& self.cell_is(r + 3, c + 3, p)
    }

    /// Four coins of player `p` on the diagonal running down-left from `(r, c)`.
    pub open spec fn diag_down_left_win_at(&self, p: u8, r: int, c: int) -> bool {
        &&& self.cell_is(r, c, p)
        &&& self.cell_is(r + 1, c - 1, p)
        &&& self.cell_is(r + 2, c - 2, p)
        &&& self.cell_is(r + 3, c - 3, p)
    }

    /// A run of four coins of player `p` starts at `(r, c)` in one of the
    /// four scan directions.
    pub open spec fn win_at(&self, p: u8, r: int, c: int) -> bool {
        ||| self.horiz_win_at(p, r, c)
        ||| self.vert_win_at(p, r, c)
        ||| self.diag_down_right_win_at(p, r, c)
        ||| self.diag_down_left_win_at(p, r, c)
    }

    /// Player `p` has a contiguous run of four coins somewhere on the grid,
    /// lying entirely inside it, in one of the four scan directions.
    pub open spec fn has_won(&self, p: u8) -> bool {
        exists|r: int, c: int| #[trigger] self.win_at(p, r, c)
    }

    /// Creates an empty `rows x cols` grid.
    pub fn new(cols: u8, rows: u8) -> (f: Field)
        ensures
            f.wf(),
            f.spec_rows() == rows as int,
            f.spec_cols() == cols as int,
            forall|r: int, c: int|
                0 <= r < rows as int && 0 <= c < cols as int ==> f.spec_at(r, c) is None,
    {
        proof {
            assert((rows as int) * (cols as int) <= 65025) by (nonlinear_arith)
                requires
                    rows as int <= 255,
                    cols as int <= 255,
                    0 <= rows as int,
                    0 <= cols as int,
            ;
        }
        let total: usize = (rows as usize) * (cols as usize);
        let mut tiles: Vec<Option<Coin>> = Vec::new();
        while tiles.len() < total
            invariant
                tiles@.len() <= total,
                forall|i: int| 0 <= i < tiles@.len() ==> tiles@[i] is None,
            decreases total - tiles@.len(),
        {
            tiles.push(None);
        }
        let f = Field { rows: rows as usize, cols: cols as usize, tiles };
        proof {
            assert forall|r: int, c: int|
                0 <= r < rows as int && 0 <= c < cols as int implies f.spec_at(r, c) is None by {
                lemma_grid_index_bounds(rows as int, cols as int, r, c);
            }
        }
        f
    }

    /// Number of rows of the grid.
    pub fn rows(&self) -> (n: usize)
        ensures
            n == self.spec_rows(),
    {
        self.rows
    }

    /// Number of columns of the grid.
    pub fn cols(&self) -> (n: usize)
        ensures
            n == self.spec_cols(),
    {
        self.cols
    }

    /// Read access to the cell at `(r, c)`.
    pub fn at(&self, r: usize, c: usize) -> (cell: &Option<Coin>)
        requires
            self.wf(),
            r < self.spec_rows(),
            c < self.spec_cols(),
        ensures
            *cell == self.spec_at(r as int, c as int),
    {
        proof {
            lemma_grid_index_bounds(self.spec_rows(), self.spec_cols(), r as int, c as int);
        }
        &self.tiles[r * self.cols + c]
    }

    /// Puts `coin` into the cell at `(r, c)`, leaving every other cell as it was.
    pub(crate) fn set_cell(&mut self, r: usize, c: usize, coin: Coin)
        requires
            old(self).wf(),
            r < old(self).spec_rows(),
            c < old(self).spec_cols(),
            coin.wf(),
        ensures
            final(self).wf(),
            final(self).spec_rows() == old(self).spec_rows(),
            final(self).spec_cols() == old(self).spec_cols(),
            final(self).spec_at(r as int, c as int) == Some(coin),
            forall|r2: int, c2: int|
                0 <= r2 < old(self).spec_rows() && 0 <= c2 < old(self).spec_cols()
                    && !(r2 == r as int && c2 == c as int)
                    ==> final(self).spec_at(r2, c2) == old(self).spec_at(r2, c2),
    {
        proof {
            lemma_grid_index_bounds(self.spec_rows(), self.spec_cols(), r as int, c as int);
        }
        let i: usize = r * self.cols + c;
        self.tiles[i] = Some(coin);
        proof {
            assert forall|r2: int, c2: int|
                0 <= r2 < self.spec_rows() && 0 <= c2 < self.spec_cols()
                    && !(r2 == r as int && c2 == c as int)
                    implies self.spec_at(r2, c2) == old(self).spec_at(r2, c2) by {
                lemma_grid_index_bounds(self.spec_rows(), self.spec_cols(), r2, c2);
                if r2 * self.spec_cols() + c2 == i as int {
                    lemma_grid_index_injective(self.spec_cols(), r2, c2, r as int, c as int);
                }
            }
        }
    }
}

} // verus!
