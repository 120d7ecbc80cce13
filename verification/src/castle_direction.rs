use vstd::prelude::*;

verus! {

/// The direction in which a side castles.
#[derive(Clone, Copy, PartialEq, Eq, Structural, Debug, Hash, PartialOrd, Ord)]
pub enum CastleDirection {
    /// Towards the rook on the king's side of the board.
    KingSide,
    /// Towards the rook on the queen's side of the board.
    QueenSide,
}

/// Castling towards the rook on the king's side.
pub const KING_SIDE: CastleDirection = CastleDirection::KingSide;

/// Castling towards the rook on the queen's side.
pub const QUEEN_SIDE: CastleDirection = CastleDirection::QueenSide;

} // verus!
