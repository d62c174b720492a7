use vstd::prelude::*;

verus! {

/// One of the two sides of the game.
#[derive(Debug, Clone, Copy, PartialEq, Eq, Structural)]
pub enum Player {
    White,
    Black,
}

impl Player {
    /// Slot of this player in the bar and off counters: White 0, Black 1.
    pub open spec fn slot(self) -> int {
        match self {
            Player::White => 0,
            Player::Black => 1,
        }
    }

    /// The other side.
    pub open spec fn other(self) -> Player {
        match self {
            Player::White => Player::Black,
            Player::Black => Player::White,
        }
    }

    /// Slot of this player in the bar and off counters.
    pub fn index(self) -> (i: usize)
        ensures
            i == self.slot(),
    {
        match self {
            Player::White => 0,
            Player::Black => 1,
        }
    }

    /// The other side.
    pub fn opponent(self) -> (p: Player)
        ensures
            p == self.other(),
    {
        match self {
            Player::White => Player::Black,
            Player::Black => Player::White,
        }
    }
}

} // verus!
