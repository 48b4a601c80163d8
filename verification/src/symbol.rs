//! Player symbols and coins.
//!
//! Each player id in `[1, 4]` maps to a fixed display symbol; a coin pairs
//! the id of the player who placed it with that symbol.

use vstd::prelude::*;

verus! {

/// The display symbol of one of the (at most four) players.
#[derive(Clone, Copy, Debug, PartialEq, Eq, Structural)]
pub enum PlayerSymbol {
    One,
    Two,
    Three,
    Four,
}

impl PlayerSymbol {
    /// The symbol a player id maps to: ids in `[1, 4]` each have one,
    /// anything else has none.
    pub open spec fn spec_from_player_id(s: u8) -> Option<PlayerSymbol> {
        if s == 1 {
            Some(PlayerSymbol::One)
        } else if s == 2 {
            Some(PlayerSymbol::Two)
        } else if s == 3 {
            Some(PlayerSymbol::Three)
        } else if s == 4 {
            Some(PlayerSymbol::Four)
        } else {
            None
        }
    }

    /// The single-character text of a symbol.
    pub open spec fn spec_as_str(self) -> Seq<char> {
        match self {
            PlayerSymbol::One => "x"@,
            PlayerSymbol::Two => "o"@,
            PlayerSymbol::Three => "+"@,
            PlayerSymbol::Four => "*"@,
        }
    }

    /// Maps a player id to its symbol, if the id is one of the four valid ones.
    pub fn from_player_id(s: u8) -> (r: Option<PlayerSymbol>)
        ensures
            r == PlayerSymbol::spec_from_player_id(s),
    {
        match s {
            1 => Some(PlayerSymbol::One),
            2 => Some(PlayerSymbol::Two),
            3 => Some(PlayerSymbol::Three),
            4 => Some(PlayerSymbol::Four),
            _ => None,
        }
    }

    /// The string representative of this symbol.
    pub fn as_str(&self) -> (r: &'static str)
        ensures
            r@ == self.spec_as_str(),
    {
        match self {
            PlayerSymbol::One => "x",
            PlayerSymbol::Two => "o",
            PlayerSymbol::Three => "+",
            PlayerSymbol::Four => "*",
        }
    }
}

/// A placed token belonging to one player, occupying exactly one board cell.
#[derive(Clone, Copy, Debug, PartialEq, Eq, Structural)]
pub struct Coin {
    player_id: u8,
    symbol: PlayerSymbol,
}

impl Coin {
    /// The id of the player this coin belongs to.
    pub closed spec fn spec_player_id(self) -> u8 {
        self.player_id
    }

    /// The display symbol carried by this coin.
    pub closed spec fn spec_symbol(self) -> PlayerSymbol {
        self.symbol
    }

    /// A coin is well formed when its player id is one of the four valid ids
    /// and its symbol is the one that id maps to.
    pub open spec fn wf(self) -> bool {
        &&& 1 <= self.spec_player_id() <= 4
        &&& Some(self.spec_symbol()) == PlayerSymbol::spec_from_player_id(self.spec_player_id())
    }

    /// Creates the coin of the given player.
    pub fn new(player_id: u8) -> (c: Coin)
        requires
            1 <= player_id <= 4,
        ensures
            c.wf(),
            c.spec_player_id() == player_id,
    {
        let symbol = match PlayerSymbol::from_player_id(player_id) {
            Some(s) => s,
            None => {
                // a valid player id always has a symbol
                proof {
                    assert(false);
                }
                PlayerSymbol::One
            },
        };
        Coin { player_id, symbol }
    }

    /// The id of the player this coin belongs to.
    pub fn player_id(&self) -> (r: u8)
        ensures
            r == self.spec_player_id(),
    {
        self.player_id
    }

    /// The display symbol carried by this coin.
    pub fn symbol(&self) -> (r: PlayerSymbol)
        ensures
            r == self.spec_symbol(),
    {
        self.symbol
    }
}

/// True iff a cell holds a coin and that coin belongs to the given player.
pub fn coin_has_player_id(coin: &Option<Coin>, player_id: u8) -> (b: bool)
    ensures
        b == ((*coin) matches Some(c) && c.spec_player_id() == player_id),
{
    match coin {
        Some(c) => c.player_id == player_id,
        None => false,
    }
}

} // verus!
