use connect_four::game::{Game, GameError};

fn fresh(players: u8) -> Game {
    Game::new(players, 8, 8).unwrap()
}

#[test]
fn new_gives_an_empty_board_and_player_one_to_move() {
    for players in 2u8..=4 {
        let g = Game::new(players, 8, 8).unwrap();
        assert_eq!(g.players(), players);
        assert_eq!(g.current_player(), 1);
        assert_eq!(g.round(), 1);
        assert!(!g.is_finished());
        assert_eq!(g.winner(), None);
        assert_eq!(g.rows(), 8);
        assert_eq!(g.cols(), 8);
        for r in 0..8 {
            for c in 0..8 {
                assert!(g.coin_at(r, c).is_none());
            }
        }
    }
}

#[test]
fn new_rejects_player_counts_outside_two_to_four() {
    assert_eq!(Game::new(0, 8, 8).unwrap_err(), GameError::InvalidPlayerCount);
    assert_eq!(Game::new(1, 8, 8).unwrap_err(), GameError::InvalidPlayerCount);
    assert_eq!(Game::new(5, 8, 8).unwrap_err(), GameError::InvalidPlayerCount);
    assert_eq!(Game::new(255, 8, 8).unwrap_err(), GameError::InvalidPlayerCount);
}

#[test]
fn insert_into_an_empty_column_lands_on_the_bottom_row() {
    let mut g = fresh(2);
    assert!(g.insert_coin(2).is_ok());
    let coin = g.coin_at(7, 2).expect("the coin lands on the bottom row");
    assert_eq!(coin.player_id(), 1);
    for r in 0..7 {
        assert!(g.coin_at(r, 2).is_none());
    }

    let mut small = Game::new(2, 5, 6).unwrap();
    assert!(small.insert_coin(0).is_ok());
    assert!(small.coin_at(5, 0).is_some());
    for r in 0..5 {
        assert!(small.coin_at(r, 0).is_none());
    }
}

#[test]
fn coins_stack_upwards_in_a_column() {
    let mut g = fresh(2);
    g.insert_coin(4).unwrap();
    g.advance_turn();
    g.insert_coin(4).unwrap();
    assert_eq!(g.coin_at(7, 4).unwrap().player_id(), 1);
    assert_eq!(g.coin_at(6, 4).unwrap().player_id(), 2);
    assert!(g.coin_at(5, 4).is_none());
}

#[test]
fn eight_inserts_fill_a_column_and_the_ninth_fails() {
    let mut g = fresh(2);
    for n in 0..8 {
        assert!(!g.is_col_full(4), "column must not be full after {} coins", n);
        assert!(g.insert_coin(4).is_ok());
    }
    assert!(g.is_col_full(4));
    assert_eq!(g.insert_coin(4).unwrap_err(), GameError::ColumnFull);
    // only that column is affected
    assert!(!g.is_col_full(3));
    assert!(g.insert_coin(3).is_ok());
}

#[test]
fn insert_rejects_an_out_of_range_column() {
    let mut g = fresh(2);
    assert_eq!(g.insert_coin(8).unwrap_err(), GameError::InvalidColumn);
    assert_eq!(g.insert_coin(100).unwrap_err(), GameError::InvalidColumn);
    // the board is untouched
    for c in 0..8 {
        assert!(g.coin_at(7, c).is_none());
    }
}

#[test]
fn next_player_cycles_through_three_players() {
    let mut g = fresh(3);
    let mut seen = Vec::new();
    for _ in 0..6 {
        seen.push(g.next_player());
        g.advance_turn();
    }
    assert_eq!(seen, vec![2, 3, 1, 2, 3, 1]);
    assert_eq!(g.current_player(), 1);
}

#[test]
fn next_player_wraps_for_two_and_four_players() {
    let g2 = fresh(2);
    assert_eq!(g2.next_player(), 2);
    let mut g4 = fresh(4);
    g4.advance_turn();
    g4.advance_turn();
    g4.advance_turn();
    assert_eq!(g4.current_player(), 4);
    assert_eq!(g4.next_player(), 1);
}

#[test]
fn next_round_counts_one_per_move() {
    let mut g = fresh(2);
    assert_eq!(g.round(), 1);
    assert_eq!(g.next_round(), 2);
    assert_eq!(g.round(), 1, "next_round is pure");
    g.advance_turn();
    assert_eq!(g.round(), 2);
}

#[test]
fn four_horizontal_coins_win_three_do_not() {
    let mut g = fresh(2);
    for c in 2..5 {
        g.place_coin(5, c, 1);
    }
    assert!(!g.check_if_player_won(1), "three in a row is no win");
    g.place_coin(5, 5, 1);
    assert!(g.check_if_player_won(1));
    assert!(!g.check_if_player_won(2));
}

#[test]
fn vertical_four_in_column_three_wins() {
    // direct engine calls; the turn is deliberately never advanced
    let mut g = fresh(2);
    for _ in 0..3 {
        g.insert_coin(3).unwrap();
    }
    assert!(!g.check_if_player_won(1), "three coins are no win");
    g.insert_coin(3).unwrap();
    // the run occupies column 3, rows 4 to 7
    for r in 4..8 {
        assert_eq!(g.coin_at(r, 3).unwrap().player_id(), 1);
    }
    assert!(g.check_if_player_won(1));
}

#[test]
fn down_left_to_up_right_diagonal_wins() {
    let mut g = fresh(2);
    g.place_coin(7, 0, 2);
    g.place_coin(6, 1, 2);
    g.place_coin(5, 2, 2);
    g.place_coin(4, 3, 2);
    assert!(g.check_if_player_won(2));
    assert!(!g.check_if_player_won(1));
}

#[test]
fn down_right_diagonal_wins() {
    let mut g = fresh(2);
    g.place_coin(2, 1, 1);
    g.place_coin(3, 2, 1);
    g.place_coin(4, 3, 1);
    assert!(!g.check_if_player_won(1));
    g.place_coin(5, 4, 1);
    assert!(g.check_if_player_won(1));
}

#[test]
fn a_win_near_the_bottom_right_corner_is_found() {
    let mut g = fresh(2);
    for c in 4..8 {
        g.place_coin(7, c, 1);
    }
    assert!(g.check_if_player_won(1));
}

#[test]
fn full_board_without_a_run_is_a_draw_and_never_a_win() {
    let mut g = fresh(2);
    // fill every cell with a pattern that has no run of four in any direction
    for r in 0..8 {
        for c in 0..8 {
            let p = if (c + 2 * r) % 4 < 2 { 1 } else { 2 };
            g.place_coin(r, c, p);
        }
    }
    assert!(!g.check_if_player_won(1));
    assert!(!g.check_if_player_won(2));
    // no column takes another coin
    for c in 0..8 {
        assert!(g.is_col_full(c));
        assert_eq!(g.insert_coin(c).unwrap_err(), GameError::ColumnFull);
    }
    // 64 moves later the move counter has run past the capacity: a draw
    assert!(!g.is_draw());
    for _ in 0..64 {
        g.advance_turn();
    }
    assert_eq!(g.round(), 65);
    assert!(g.is_draw());
}

#[test]
fn a_fresh_game_is_not_a_draw() {
    let g = fresh(2);
    assert!(!g.is_draw());
}

#[test]
fn mark_won_finishes_the_game_with_that_winner() {
    let mut g = fresh(3);
    for c in 0..4 {
        g.place_coin(7, c, 3);
    }
    assert!(g.check_if_player_won(3));
    g.mark_won(3);
    assert!(g.is_finished());
    assert_eq!(g.winner(), Some(3));
    assert_eq!(g.round(), 1, "marking the win leaves the counters alone");
    assert_eq!(g.current_player(), 1);
}
