//! The board engine: game state, column-drop insertion, turn rotation,
//! win detection, and the draw condition.

use vstd::prelude::*;

verus! {

use crate::field::Field;
use crate::symbol::Coin;
use crate::symbol::coin_has_player_id;

/// The domain errors of the engine.
#[derive(Clone, Copy, Debug, PartialEq, Eq, Structural)]
pub enum GameError {
    /// Player count outside `[2, 4]` at game creation.
    InvalidPlayerCount,
    /// Column index outside `[0, cols)`.
    InvalidColumn,
    /// Attempted insert into a full column.
    ColumnFull,
}

/// The whole state of one game: the field, the player count, whose turn it
/// is, the move counter, and whether (and by whom) the game has been won.
#[derive(Debug)]
pub struct Game {
    players: u8,
    current_player: u8,
    round: u32,
    finished: bool,
    winner: Option<u8>,
    field: Field,
}

impl Game {
    /// The number of players, in `[2, 4]`.
    pub closed spec fn spec_players(&self) -> u8 {
        self.players
    }

    /// The player whose turn it is, in `[1, players]`.
    pub closed spec fn spec_current_player(&self) -> u8 {
        self.current_player
    }

    /// The move counter; it starts at 1 and increments once per move.
    pub closed spec fn spec_round(&self) -> u32 {
        self.round
    }

    /// Whether the game has been won; a won game takes no further moves.
    pub closed spec fn spec_finished(&self) -> bool {
        self.finished
    }

    /// The winning player, once the game has been won.
    pub closed spec fn spec_winner(&self) -> Option<u8> {
        self.winner
    }

    /// The game field.
    pub closed spec fn spec_field(&self) -> Field {
        self.field
    }

    /// How many cells the field holds; the game is drawn once the move
    /// counter exceeds this.
    pub open spec fn spec_capacity(&self) -> int {
        self.spec_field().spec_rows() * self.spec_field().spec_cols()
    }

    /// The state invariant: the field is well formed, the player count and
    /// the current player are in range, the move counter never runs past one
    /// move beyond capacity, and a winner is recorded only on a finished game.
    pub open spec fn wf(&self) -> bool {
        &&& self.spec_field().wf()
        &&& 2 <= self.spec_players() <= 4
        &&& 1 <= self.spec_current_player() <= self.spec_players()
        &&& 1 <= self.spec_round() <= self.spec_capacity() + 1
        &&& (self.spec_winner() matches Some(p)
            ==> self.spec_finished() && 1 <= p <= self.spec_players())
    }

    /// The player after the current one: one higher, wrapping to 1 after the
    /// last player.
    pub open spec fn spec_next_player(&self) -> u8 {
        if self.spec_current_player() == self.spec_players() {
            1u8
        } else {
            (self.spec_current_player() + 1) as u8
        }
    }

    /// Creates a fresh game: an empty `rows x cols` grid, player 1 to move,
    /// round 1. Rejects any player count outside `[2, 4]`.
    pub fn new(players: u8, cols: u8, rows: u8) -> (r: Result<Game, GameError>)
        ensures
            match r {
                Ok(g) => {
                    &&& 2 <= players <= 4
                    &&& g.wf()
                    &&& g.spec_players() == players
                    &&& g.spec_current_player() == 1
                    &&& g.spec_round() == 1
                    &&& !g.spec_finished()
                    &&& g.spec_winner() is None
                    &&& g.spec_field().spec_rows() == rows as int
                    &&& g.spec_field().spec_cols() == cols as int
                    &&& forall|rr: int, cc: int|
                        0 <= rr < rows as int && 0 <= cc < cols as int
                            ==> g.spec_field().spec_at(rr, cc) is None
                },
                Err(e) => e == GameError::InvalidPlayerCount && !(2 <= players <= 4),
            },
    {
        if players < 2 || players > 4 {
            return Err(GameError::InvalidPlayerCount);
        }
        Ok(
            Game {
                players,
                current_player: 1,
                round: 1,
                finished: false,
                winner: None,
                field: Field::new(cols, rows),
            },
        )
    }

    /// True iff every cell in column `col` is occupied.
    pub fn is_col_full(&self, col: usize) -> (b: bool)
        requires
            self.wf(),
            col < self.spec_field().spec_cols(),
        ensures
            b == self.spec_field().spec_col_full(col as int),
    {
        let rows = self.field.rows();
        let mut r: usize = 0;
        while r < rows
            invariant
                self.wf(),
                col < self.spec_field().spec_cols(),
                rows == self.spec_field().spec_rows(),
                r <= rows,
                forall|r2: int|
                    0 <= r2 < r ==> (#[trigger] self.spec_field().spec_at(r2, col as int)) is Some,
            decreases rows - r,
        {
            if self.field.at(r, col).is_none() {
                return false;
            }
            r += 1;
        }
        true
    }

    /// Drops the current player's coin into column `col`. The coin lands in
    /// the lowest unoccupied cell of the column; the board is mutated and
    /// nothing else, so the caller can check for a win between the insertion
    /// and the turn advance. Fails with `ColumnFull` on a full column and
    /// with `InvalidColumn` on an out-of-range one, leaving the field as it
    /// was.
    pub fn insert_coin(&mut self, col: usize) -> (res: Result<(), GameError>)
        requires
            old(self).wf(),
            !old(self).spec_finished(),
            old(self).spec_round() <= old(self).spec_capacity(),
        ensures
            final(self).wf(),
            final(self).spec_players() == old(self).spec_players(),
            final(self).spec_current_player() == old(self).spec_current_player(),
            final(self).spec_round() == old(self).spec_round(),
            final(self).spec_finished() == old(self).spec_finished(),
            final(self).spec_winner() == old(self).spec_winner(),
            final(self).spec_field().spec_rows() == old(self).spec_field().spec_rows(),
            final(self).spec_field().spec_cols() == old(self).spec_field().spec_cols(),
            match res {
                Ok(()) => {
                    &&& col < old(self).spec_field().spec_cols()
                    &&& !old(self).spec_field().spec_col_full(col as int)
                    &&& exists|lr: int|
                        #[trigger] old(self).spec_field().is_landing_row(col as int, lr)
                    &&& forall|lr: int|
                        old(self).spec_field().is_landing_row(col as int, lr)
                            ==> (final(self).spec_field().spec_at(lr, col as int) matches Some(coin)
                                && coin.wf()
                                && coin.spec_player_id() == old(self).spec_current_player())
                    &&& forall|r2: int, c2: int|
                        0 <= r2 < old(self).spec_field().spec_rows()
                            && 0 <= c2 < old(self).spec_field().spec_cols()
                            && !(c2 == col as int
                                && old(self).spec_field().is_landing_row(col as int, r2))
                            ==> final(self).spec_field().spec_at(r2, c2)
                                == old(self).spec_field().spec_at(r2, c2)
                },
                Err(GameError::ColumnFull) => {
                    &&& col < old(self).spec_field().spec_cols()
                    &&& old(self).spec_field().spec_col_full(col as int)
                    &&& final(self).spec_field() == old(self).spec_field()
                },
                Err(GameError::InvalidColumn) => {
                    &&& col >= old(self).spec_field().spec_cols()
                    &&& final(self).spec_field() == old(self).spec_field()
                },
                Err(GameError::InvalidPlayerCount) => false,
            },
    {
        if col >= self.field.cols() {
            return Err(GameError::InvalidColumn);
        }
        let rows = self.field.rows();
        let mut r: usize = rows;
        while r > 0
            invariant
                *self == *old(self),
                self.wf(),
                col < self.spec_field().spec_cols(),
                rows == self.spec_field().spec_rows(),
                r <= rows,
                forall|r2: int|
                    r <= r2 < rows
                        ==> (#[trigger] self.spec_field().spec_at(r2, col as int)) is Some,
            decreases r,
        {
            if self.field.at(r - 1, col).is_none() {
                let coin = Coin::new(self.current_player);
                proof {
                    assert(old(self).spec_field().is_landing_row(col as int, r - 1));
                }
                self.field.set_cell(r - 1, col, coin);
                proof {
                    assert forall|lr: int|
                        old(self).spec_field().is_landing_row(col as int, lr) implies lr == r - 1 by {
                        if lr < r - 1 {
                            assert(old(self).spec_field().spec_at(r - 1, col as int) is Some);
                        } else if lr > r - 1 {
                            assert(old(self).spec_field().spec_at(lr, col as int) is Some);
                        }
                    }
                }
                return Ok(());
            }
            r -= 1;
        }
        Err(GameError::ColumnFull)
    }

    /// True iff a horizontal run of four for `p` starts at `(r, c)`.
    fn wins_horiz(&self, p: u8, r: usize, c: usize) -> (b: bool)
        requires
            self.wf(),
            r < self.spec_field().spec_rows(),
            c < self.spec_field().spec_cols(),
        ensures
            b == self.spec_field().horiz_win_at(p, r as int, c as int),
    {
        let cols = self.field.cols();
        c + 3 < cols && coin_has_player_id(self.field.at(r, c), p)
            && coin_has_player_id(self.field.at(r, c + 1), p)
            && coin_has_player_id(self.field.at(r, c + 2), p)
            && coin_has_player_id(self.field.at(r, c + 3), p)
    }

    /// True iff a vertical run of four for `p` starts at `(r, c)`.
    fn wins_vert(&self, p: u8, r: usize, c: usize) -> (b: bool)
        requires
            self.wf(),
            r < self.spec_field().spec_rows(),
            c < self.spec_field().spec_cols(),
        ensures
            b == self.spec_field().vert_win_at(p, r as int, c as int),
    {
        let rows = self.field.rows();
        r + 3 < rows && coin_has_player_id(self.field.at(r, c), p)
            && coin_has_player_id(self.field.at(r + 1, c), p)
            && coin_has_player_id(self.field.at(r + 2, c), p)
            && coin_has_player_id(self.field.at(r + 3, c), p)
    }

    /// True iff a down-right diagonal run of four for `p` starts at `(r, c)`.
    fn wins_diag_down_right(&self, p: u8, r: usize, c: usize) -> (b: bool)
        requires
            self.wf(),
            r < self.spec_field().spec_rows(),
            c < self.spec_field().spec_cols(),
        ensures
            b == self.spec_field().diag_down_right_win_at(p, r as int, c as int),
    {
        let rows = self.field.rows();
        let cols = self.field.cols();
        r + 3 < rows && c + 3 < cols && coin_has_player_id(self.field.at(r, c), p)
            && coin_has_player_id(self.field.at(r + 1, c + 1), p)
            && coin_has_player_id(self.field.at(r + 2, c + 2), p)
            && coin_has_player_id(self.field.at(r + 3, c + 3), p)
    }

    /// True iff a down-left diagonal run of four for `p` starts at `(r, c)`.
    fn wins_diag_down_left(&self, p: u8, r: usize, c: usize) -> (b: bool)
        requires
            self.wf(),
            r < self.spec_field().spec_rows(),
            c < self.spec_field().spec_cols(),
        ensures
            b == self.spec_field().diag_down_left_win_at(p, r as int, c as int),
    {
        let rows = self.field.rows();
        r + 3 < rows && c >= 3 && coin_has_player_id(self.field.at(r, c), p)
            && coin_has_player_id(self.field.at(r + 1, c - 1), p)
            && coin_has_player_id(self.field.at(r + 2, c - 2), p)
            && coin_has_player_id(self.field.at(r + 3, c - 3), p)
    }

    /// True iff a run of four for `p` starts at `(r, c)` in any direction.
    fn wins_at(&self, p: u8, r: usize, c: usize) -> (b: bool)
        requires
            self.wf(),
            r < self.spec_field().spec_rows(),
            c < self.spec_field().spec_cols(),
        ensures
            b == self.spec_field().win_at(p, r as int, c as int),
    {
        self.wins_horiz(p, r, c) || self.wins_vert(p, r, c)
            || self.wins_diag_down_right(p, r, c) || self.wins_diag_down_left(p, r, c)
    }

    /// Scans the whole grid for a contiguous run of four coins of
    /// `player_id` in one of the four directions: horizontal, vertical,
    /// diagonal down-right, diagonal down-left. Returns as soon as one run is
    /// found. Meant to be called for the player who just moved, after their
    /// insertion and before the turn is advanced.
    pub fn check_if_player_won(&self, player_id: u8) -> (b: bool)
        requires
            self.wf(),
        ensures
            b == self.spec_field().has_won(player_id),
    {
        let rows = self.field.rows();
        let cols = self.field.cols();
        let mut r: usize = 0;
        while r < rows
            invariant
                self.wf(),
                rows == self.spec_field().spec_rows(),
                cols == self.spec_field().spec_cols(),
                r <= rows,
                forall|r2: int, c2: int|
                    0 <= r2 < r && 0 <= c2 < cols
                        ==> !(#[trigger] self.spec_field().win_at(player_id, r2, c2)),
            decreases rows - r,
        {
            let mut c: usize = 0;
            while c < cols
                invariant
                    self.wf(),
                    rows == self.spec_field().spec_rows(),
                    cols == self.spec_field().spec_cols(),
                    r < rows,
                    c <= cols,
                    forall|r2: int, c2: int|
                        0 <= r2 < r && 0 <= c2 < cols
                            ==> !(#[trigger] self.spec_field().win_at(player_id, r2, c2)),
                    forall|c2: int|
                        0 <= c2 < c
                            ==> !(#[trigger] self.spec_field().win_at(player_id, r as int, c2)),
                decreases cols - c,
            {
                if self.wins_at(player_id, r, c) {
                    return true;
                }
                c += 1;
            }
            r += 1;
        }
        proof {
            assert forall|r2: int, c2: int|
                !(#[trigger] self.spec_field().win_at(player_id, r2, c2)) by {
                if !(0 <= r2 < rows && 0 <= c2 < cols) {
                    assert(!self.spec_field().cell_is(r2, c2, player_id));
                }
            }
        }
        false
    }

    /// The player count this game was created with.
    pub fn players(&self) -> (n: u8)
        ensures
            n == self.spec_players(),
    {
        self.players
    }

    /// The player whose turn it is.
    pub fn current_player(&self) -> (p: u8)
        ensures
            p == self.spec_current_player(),
    {
        self.current_player
    }

    /// The move counter.
    pub fn round(&self) -> (r: u32)
        ensures
            r == self.spec_round(),
    {
        self.round
    }

    /// Whether the game has been won.
    pub fn is_finished(&self) -> (b: bool)
        ensures
            b == self.spec_finished(),
    {
        self.finished
    }

    /// The recorded winner, if the game has been won.
    pub fn winner(&self) -> (w: Option<u8>)
        ensures
            w == self.spec_winner(),
    {
        self.winner
    }

    /// Number of rows of the field.
    pub fn rows(&self) -> (n: usize)
        ensures
            n == self.spec_field().spec_rows(),
    {
        self.field.rows()
    }

    /// Number of columns of the field.
    pub fn cols(&self) -> (n: usize)
        ensures
            n == self.spec_field().spec_cols(),
    {
        self.field.cols()
    }

    /// The content of the cell at `(row, col)`, for rendering.
    pub fn coin_at(&self, row: usize, col: usize) -> (cell: Option<Coin>)
        requires
            self.wf(),
            row < self.spec_field().spec_rows(),
            col < self.spec_field().spec_cols(),
        ensures
            cell == self.spec_field().spec_at(row as int, col as int),
    {
        *self.field.at(row, col)
    }

    /// The player who moves after the current one, the current state left
    /// untouched: players rotate in id order, from the last back to player 1.
    pub fn next_player(&self) -> (p: u8)
        requires
            self.wf(),
        ensures
            p == self.spec_next_player(),
            1 <= p <= self.spec_players(),
    {
        if self.current_player == self.players {
            return 1;
        }
        self.current_player + 1
    }

    /// The move counter of the next move, the current state left untouched.
    pub fn next_round(&self) -> (r: u32)
        requires
            self.wf(),
        ensures
            r == self.spec_round() + 1,
    {
        proof {
            lemma_capacity_bound(*self);
        }
        self.round + 1
    }

    /// Hands the turn to the next player and increments the move counter.
    /// Only permitted while the game is neither won nor drawn.
    pub fn advance_turn(&mut self)
        requires
            old(self).wf(),
            !old(self).spec_finished(),
            old(self).spec_round() <= old(self).spec_capacity(),
        ensures
            final(self).wf(),
            final(self).spec_current_player() == old(self).spec_next_player(),
            final(self).spec_round() == old(self).spec_round() + 1,
            final(self).spec_players() == old(self).spec_players(),
            final(self).spec_finished() == old(self).spec_finished(),
            final(self).spec_winner() == old(self).spec_winner(),
            final(self).spec_field() == old(self).spec_field(),
    {
        let next = self.next_player();
        let round = self.next_round();
        self.current_player = next;
        self.round = round;
    }

    /// Records that `player_id` has won: the game becomes finished with that
    /// winner, and the board, the turn, and the move counter stay as they
    /// are. Only a player with a run of four on the field can be recorded.
    pub fn mark_won(&mut self, player_id: u8)
        requires
            old(self).wf(),
            1 <= player_id <= old(self).spec_players(),
            old(self).spec_field().has_won(player_id),
        ensures
            final(self).wf(),
            final(self).spec_finished(),
            final(self).spec_winner() == Some(player_id),
            final(self).spec_players() == old(self).spec_players(),
            final(self).spec_current_player() == old(self).spec_current_player(),
            final(self).spec_round() == old(self).spec_round(),
            final(self).spec_field() == old(self).spec_field(),
    {
        self.finished = true;
        self.winner = Some(player_id);
    }

    /// True iff the game is drawn: the move counter has run past the number
    /// of cells, so every cell has been filled without a win. To be checked
    /// before prompting for the next move.
    pub fn is_draw(&self) -> (b: bool)
        requires
            self.wf(),
        ensures
            b == (self.spec_round() > self.spec_capacity()),
    {
        proof {
            lemma_capacity_bound(*self);
        }
        let capacity: usize = self.field.rows() * self.field.cols();
        self.round as usize > capacity
    }

    /// Puts a coin of `player_id` directly into the cell at `(row, col)`,
    /// bypassing the gravity drop; every other part of the state stays as it
    /// was. This is the direct way to build a board position.
    pub fn place_coin(&mut self, row: usize, col: usize, player_id: u8)
        requires
            old(self).wf(),
            row < old(self).spec_field().spec_rows(),
            col < old(self).spec_field().spec_cols(),
            1 <= player_id <= old(self).spec_players(),
        ensures
            final(self).wf(),
            final(self).spec_field().spec_at(row as int, col as int) matches Some(coin)
                && coin.wf()
                && coin.spec_player_id() == player_id,
            forall|r2: int, c2: int|
                0 <= r2 < old(self).spec_field().spec_rows()
                    && 0 <= c2 < old(self).spec_field().spec_cols()
                    && !(r2 == row as int && c2 == col as int)
                    ==> final(self).spec_field().spec_at(r2, c2)
                        == old(self).spec_field().spec_at(r2, c2),
            final(self).spec_field().spec_rows() == old(self).spec_field().spec_rows(),
            final(self).spec_field().spec_cols() == old(self).spec_field().spec_cols(),
            final(self).spec_players() == old(self).spec_players(),
            final(self).spec_current_player() == old(self).spec_current_player(),
            final(self).spec_round() == old(self).spec_round(),
            final(self).spec_finished() == old(self).spec_finished(),
            final(self).spec_winner() == old(self).spec_winner(),
    {
        let coin = Coin::new(player_id);
        self.field.set_cell(row, col, coin);
    }
}

/// A field of at most 255 rows and columns holds at most 65025 cells.
proof fn lemma_capacity_bound(g: Game)
    requires
        g.wf(),
    ensures
        0 <= g.spec_capacity() <= 65025,
{
    assert(g.spec_field().spec_rows() * g.spec_field().spec_cols() <= 65025) by (nonlinear_arith)
        requires
            0 <= g.spec_field().spec_rows() <= 255,
            0 <= g.spec_field().spec_cols() <= 255,
    ;
}

} // verus!
