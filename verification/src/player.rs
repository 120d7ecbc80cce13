use vstd::prelude::*;

verus! {

/// One of the two sides.
#[derive(Clone, Copy, PartialEq, Eq, Structural, Debug, Hash, PartialOrd, Ord)]
pub enum Player {
    White,
    Black,
}

/// The side that moves first.
pub const WHITE: Player = Player::White;

/// The side that moves second.
pub const BLACK: Player = Player::Black;

impl Player {
    /// The number of sides.
    pub const COUNT: usize = 2;

    /// The other side.
    pub open spec fn spec_switch(self) -> Player {
        match self {
            Player::White => Player::Black,
            Player::Black => Player::White,
        }
    }

    /// The place of the side in a table with one entry for each side.
    pub open spec fn spec_index(self) -> int {
        match self {
            Player::White => 0,
            Player::Black => 1,
        }
    }

    /// The other side.
    pub fn switch(self) -> (r: Player)
        ensures
            r == self.spec_switch(),
            r != self,
    {
        match self {
            Player::White => Player::Black,
            Player::Black => Player::White,
        }
    }

    /// Whether this is White.
    pub fn is_white(self) -> (r: bool)
        ensures
            r <==> self == Player::White,
    {
        match self {
            Player::White => true,
            Player::Black => false,
        }
    }

    /// Whether this is Black.
    pub fn is_black(self) -> (r: bool)
        ensures
            r <==> self == Player::Black,
    {
        !self.is_white()
    }

    /// The place of the side in a table with one entry for each side.
    pub fn index(self) -> (r: usize)
        ensures
            r == self.spec_index(),
            r < Player::COUNT,
    {
        self as usize
    }
}

} // verus!
