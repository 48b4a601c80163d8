//! General laws of the board model, stated and proved once and for all:
//! where a dropped coin lands, how a column fills up move by move, and which
//! board positions are wins.

use vstd::prelude::*;

verus! {

use crate::field::Field;

/// Column `c` of `f` holds exactly `k` coins, packed against the bottom:
/// a cell of the column is occupied exactly when it is among the `k` lowest.
pub open spec fn col_filled_to(f: Field, c: int, k: int) -> bool {
    &&& 0 <= k <= f.spec_rows()
    &&& forall|r: int|
        0 <= r < f.spec_rows()
            ==> ((#[trigger] f.spec_at(r, c)) is Some <==> f.spec_rows() - k <= r)
}

/// A coin dropped into a completely empty column of height `h` lands on the
/// bottom row, row `h - 1` (rows are zero-indexed from the top).
pub proof fn lemma_empty_column_lands_bottom(f: Field, c: int)
    requires
        f.wf(),
        0 <= c < f.spec_cols(),
        1 <= f.spec_rows(),
        forall|r: int| 0 <= r < f.spec_rows() ==> (#[trigger] f.spec_at(r, c)) is None,
    ensures
        f.is_landing_row(c, f.spec_rows() - 1),
{
}

/// A completely empty column is packed with zero coins.
pub proof fn lemma_empty_column_packed(f: Field, c: int)
    requires
        f.wf(),
        0 <= c < f.spec_cols(),
        forall|r: int| 0 <= r < f.spec_rows() ==> (#[trigger] f.spec_at(r, c)) is None,
    ensures
        col_filled_to(f, c, 0),
{
}

/// A coin dropped into a column of height `h` packed with `k < h` coins
/// lands directly on top of the stack, on row `h - k - 1`; such a column is
/// not yet full.
pub proof fn lemma_packed_column_landing(f: Field, c: int, k: int)
    requires
        f.wf(),
        0 <= c < f.spec_cols(),
        col_filled_to(f, c, k),
        0 <= k < f.spec_rows(),
    ensures
        f.is_landing_row(c, f.spec_rows() - k - 1),
        !f.spec_col_full(c),
{
    assert(f.spec_at(f.spec_rows() - k - 1, c) is None);
}

/// Placing a coin on the landing row of a column packed with `k` coins
/// leaves the column packed with `k + 1` coins and every other cell as it
/// was. Repeated from an empty column, `h` insertions therefore fill it
/// completely, one cell per insertion from the bottom up.
pub proof fn lemma_packed_column_grows(f: Field, g: Field, c: int, k: int)
    requires
        f.wf(),
        0 <= c < f.spec_cols(),
        col_filled_to(f, c, k),
        0 <= k < f.spec_rows(),
        g.spec_rows() == f.spec_rows(),
        g.spec_cols() == f.spec_cols(),
        g.spec_at(f.spec_rows() - k - 1, c) is Some,
        forall|r2: int, c2: int|
            0 <= r2 < f.spec_rows() && 0 <= c2 < f.spec_cols()
                && !(c2 == c && f.is_landing_row(c, r2))
                ==> g.spec_at(r2, c2) == f.spec_at(r2, c2),
    ensures
        col_filled_to(g, c, k + 1),
{
    lemma_packed_column_landing(f, c, k);
    let lr = f.spec_rows() - k - 1;
    assert forall|r: int|
        0 <= r < g.spec_rows() implies ((#[trigger] g.spec_at(r, c)) is Some
        <==> g.spec_rows() - (k + 1) <= r) by {
        if r != lr {
            if f.is_landing_row(c, r) {
                if r < lr {
                    assert(f.spec_at(lr, c) is Some);
                } else {
                    assert(f.spec_at(r, c) is Some);
                }
            }
            assert(g.spec_at(r, c) == f.spec_at(r, c));
        }
    }
}

/// A column packed with as many coins as it has rows is full.
pub proof fn lemma_packed_column_full(f: Field, c: int)
    requires
        f.wf(),
        0 <= c < f.spec_cols(),
        col_filled_to(f, c, f.spec_rows()),
    ensures
        f.spec_col_full(c),
{
}

/// A horizontal run of four coins of player `p` in row `r`, columns `c` to
/// `c + 3`, is a win for `p`, whatever else is on the board.
pub proof fn lemma_horizontal_run_wins(f: Field, p: u8, r: int, c: int)
    requires
        f.cell_is(r, c, p),
        f.cell_is(r, c + 1, p),
        f.cell_is(r, c + 2, p),
        f.cell_is(r, c + 3, p),
    ensures
        f.has_won(p),
{
    assert(f.win_at(p, r, c));
}

/// Three coins in row `r`, columns `c` to `c + 2`, with every other cell of
/// the board empty, are not a win for any player: every run of four would
/// need a fourth occupied cell.
pub proof fn lemma_three_in_a_row_is_no_win(f: Field, p: u8, r: int, c: int)
    requires
        f.wf(),
        0 <= r < f.spec_rows(),
        0 <= c,
        c + 2 < f.spec_cols(),
        forall|r2: int, c2: int|
            0 <= r2 < f.spec_rows() && 0 <= c2 < f.spec_cols() && !(r2 == r && c <= c2 <= c + 2)
                ==> (#[trigger] f.spec_at(r2, c2)) is None,
    ensures
        !f.has_won(p),
{
    assert forall|r2: int, c2: int| !(#[trigger] f.win_at(p, r2, c2)) by {
        if f.horiz_win_at(p, r2, c2) {
            assert(f.spec_at(r2, c2) is Some);
            assert(f.spec_at(r2, c2 + 1) is Some);
            assert(f.spec_at(r2, c2 + 2) is Some);
            assert(f.spec_at(r2, c2 + 3) is Some);
            assert(false);
        }
        if f.vert_win_at(p, r2, c2) {
            assert(f.spec_at(r2, c2) is Some);
            assert(f.spec_at(r2 + 1, c2) is Some);
            assert(false);
        }
        if f.diag_down_right_win_at(p, r2, c2) {
            assert(f.spec_at(r2, c2) is Some);
            assert(f.spec_at(r2 + 1, c2 + 1) is Some);
            assert(false);
        }
        if f.diag_down_left_win_at(p, r2, c2) {
            assert(f.spec_at(r2, c2) is Some);
            assert(f.spec_at(r2 + 1, c2 - 1) is Some);
            assert(false);
        }
    }
}

/// On a completely occupied board every column is full, so no further coin
/// can be inserted: a full board without a run of four can only end the game
/// as a draw, never as a win.
pub proof fn lemma_full_board_columns_full(f: Field)
    requires
        f.wf(),
        forall|r: int, c: int|
            0 <= r < f.spec_rows() && 0 <= c < f.spec_cols()
                ==> (#[trigger] f.spec_at(r, c)) is Some,
    ensures
        forall|c: int| 0 <= c < f.spec_cols() ==> #[trigger] f.spec_col_full(c),
{
    assert forall|c: int| 0 <= c < f.spec_cols() implies #[trigger] f.spec_col_full(c) by {
        assert forall|r: int|
            0 <= r < f.spec_rows() implies (#[trigger] f.spec_at(r, c)) is Some by {
        }
    }
}

} // verus!
