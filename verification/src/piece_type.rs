use vstd::prelude::*;

verus! {

/// The kind of a piece.
#[derive(Clone, Copy, PartialEq, Eq, Structural, Debug, Hash, PartialOrd, Ord)]
pub enum PieceType {
    Pawn,
    Knight,
    Bishop,
    Rook,
    Queen,
    King,
}

/// The kind of a piece that is no king. A king is kept by its square, the
/// other pieces by a bitboard for each kind.
#[derive(Clone, Copy, PartialEq, Eq, Structural, Debug, Hash, PartialOrd, Ord)]
pub enum NonKingPieceType {
    Pawn,
    Knight,
    Bishop,
    Rook,
    Queen,
}

/// The kind of a piece that a pawn can become on the last rank.
#[derive(Clone, Copy, PartialEq, Eq, Structural, Debug, Hash, PartialOrd, Ord)]
pub enum PromotionPieceType {
    Knight,
    Bishop,
    Rook,
    Queen,
}

impl PieceType {
    /// The number of kinds.
    pub const COUNT: usize = 6;

    /// The same kind among the kinds that are no king; `None` for the king.
    pub open spec fn spec_non_king(self) -> Option<NonKingPieceType> {
        match self {
            PieceType::Pawn => Some(NonKingPieceType::Pawn),
            PieceType::Knight => Some(NonKingPieceType::Knight),
            PieceType::Bishop => Some(NonKingPieceType::Bishop),
            PieceType::Rook => Some(NonKingPieceType::Rook),
            PieceType::Queen => Some(NonKingPieceType::Queen),
            PieceType::King => None,
        }
    }

    /// The same kind among the kinds that are no king; `None` for the king.
    pub fn non_king(self) -> (r: Option<NonKingPieceType>)
        ensures
            r == self.spec_non_king(),
            r is None <==> self == PieceType::King,
            r matches Some(piece) ==> piece.spec_to_piece_type() == self,
    {
        match self {
            PieceType::Pawn => Some(NonKingPieceType::Pawn),
            PieceType::Knight => Some(NonKingPieceType::Knight),
            PieceType::Bishop => Some(NonKingPieceType::Bishop),
            PieceType::Rook => Some(NonKingPieceType::Rook),
            PieceType::Queen => Some(NonKingPieceType::Queen),
            PieceType::King => None,
        }
    }
}

impl NonKingPieceType {
    /// The number of kinds.
    pub const COUNT: usize = 5;

    /// The same kind among all the kinds of pieces.
    pub open spec fn spec_to_piece_type(self) -> PieceType {
        match self {
            NonKingPieceType::Pawn => PieceType::Pawn,
            NonKingPieceType::Knight => PieceType::Knight,
            NonKingPieceType::Bishop => PieceType::Bishop,
            NonKingPieceType::Rook => PieceType::Rook,
            NonKingPieceType::Queen => PieceType::Queen,
        }
    }

    /// The place of the kind in a table with one entry for each kind.
    pub open spec fn spec_index(self) -> int {
        match self {
            NonKingPieceType::Pawn => 0,
            NonKingPieceType::Knight => 1,
            NonKingPieceType::Bishop => 2,
            NonKingPieceType::Rook => 3,
            NonKingPieceType::Queen => 4,
        }
    }

    /// The same kind among all the kinds of pieces.
    pub fn to_piece_type(self) -> (r: PieceType)
        ensures
            r == self.spec_to_piece_type(),
            r != PieceType::King,
    {
        match self {
            NonKingPieceType::Pawn => PieceType::Pawn,
            NonKingPieceType::Knight => PieceType::Knight,
            NonKingPieceType::Bishop => PieceType::Bishop,
            NonKingPieceType::Rook => PieceType::Rook,
            NonKingPieceType::Queen => PieceType::Queen,
        }
    }

    /// The place of the kind in a table with one entry for each kind.
    pub fn index(self) -> (r: usize)
        ensures
            r == self.spec_index(),
            r < NonKingPieceType::COUNT,
    {
        self as usize
    }
}

} // verus!
