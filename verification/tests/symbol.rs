use connect_four::symbol::{coin_has_player_id, Coin, PlayerSymbol};

#[test]
fn from_player_id_maps_the_four_valid_ids() {
    assert_eq!(PlayerSymbol::from_player_id(1), Some(PlayerSymbol::One));
    assert_eq!(PlayerSymbol::from_player_id(2), Some(PlayerSymbol::Two));
    assert_eq!(PlayerSymbol::from_player_id(3), Some(PlayerSymbol::Three));
    assert_eq!(PlayerSymbol::from_player_id(4), Some(PlayerSymbol::Four));
}

#[test]
fn from_player_id_rejects_other_ids() {
    assert_eq!(PlayerSymbol::from_player_id(0), None);
    assert_eq!(PlayerSymbol::from_player_id(5), None);
    assert_eq!(PlayerSymbol::from_player_id(255), None);
}

#[test]
fn as_str_gives_one_glyph_per_symbol() {
    assert_eq!(PlayerSymbol::One.as_str(), "x");
    assert_eq!(PlayerSymbol::Two.as_str(), "o");
    assert_eq!(PlayerSymbol::Three.as_str(), "+");
    assert_eq!(PlayerSymbol::Four.as_str(), "*");
}

#[test]
fn coin_carries_its_players_id_and_symbol() {
    let c = Coin::new(3);
    assert_eq!(c.player_id(), 3);
    assert_eq!(c.symbol(), PlayerSymbol::Three);
    let c1 = Coin::new(1);
    assert_eq!(c1.player_id(), 1);
    assert_eq!(c1.symbol(), PlayerSymbol::One);
}

#[test]
fn coin_has_player_id_checks_presence_and_owner() {
    let coin = Some(Coin::new(2));
    assert!(coin_has_player_id(&coin, 2));
    assert!(!coin_has_player_id(&coin, 1));
    assert!(!coin_has_player_id(&None, 2));
}
