use vstd::prelude::*;
use crate::bitboard::{contains, lemma_bitboard_algebra, Bitboard, EMPTY_BITBOARD};
use crate::castle_direction::CastleDirection;
use crate::player::Player;
use crate::square::Square;

verus! {

/// What a position holds beside the pieces: the side to move, whether the move
/// before was a pawn's double step, and which castling rights are left.
#[derive(Clone, Copy, PartialEq, Eq, Structural, Debug, Hash, PartialOrd, Ord)]
pub struct BoardStatus {
    pub side_to_move: Player,
    pub has_ep_pawn: bool,
    pub white_king_castle_rights: bool,
    pub white_queen_castle_rights: bool,
    pub black_king_castle_rights: bool,
    pub black_queen_castle_rights: bool,
}

/// One change of the status: there is one for each kind of move.
#[derive(Clone, Copy, PartialEq, Eq, Structural, Debug)]
pub enum StatusChange {
    /// The move passes to the other side, with no move made.
    SwitchSides,
    /// A move that touches no right and is no double step.
    QuietMove,
    /// A pawn's double step.
    DoublePawnPush,
    /// A move of the king, castling too.
    KingMove,
    /// A move of the rook of that direction.
    RookMove(CastleDirection),
    /// The capture of the other side's rook of that direction on its square.
    CaptureRook(CastleDirection),
}

/// The square on which the side's rook for that direction starts the game.
pub open spec fn castle_rook_square(player: Player, direction: CastleDirection) -> Square {
    match (player, direction) {
        (Player::White, CastleDirection::KingSide) => Square::H1,
        (Player::White, CastleDirection::QueenSide) => Square::A1,
        (Player::Black, CastleDirection::KingSide) => Square::H8,
        (Player::Black, CastleDirection::QueenSide) => Square::A8,
    }
}

/// The squares between the king and the rook, which must be empty for the side
/// to castle in that direction.
pub open spec fn castle_must_be_empty(player: Player, direction: CastleDirection) -> Bitboard {
    match (player, direction) {
        (Player::White, CastleDirection::KingSide) => Square::F1.spec_to_bit()
            | Square::G1.spec_to_bit(),
        (Player::White, CastleDirection::QueenSide) => Square::B1.spec_to_bit()
            | Square::C1.spec_to_bit() | Square::D1.spec_to_bit(),
        (Player::Black, CastleDirection::KingSide) => Square::F8.spec_to_bit()
            | Square::G8.spec_to_bit(),
        (Player::Black, CastleDirection::QueenSide) => Square::B8.spec_to_bit()
            | Square::C8.spec_to_bit() | Square::D8.spec_to_bit(),
    }
}

/// The squares that the king crosses and the one it lands on, none of which
/// may be attacked for the side to castle in that direction.
pub open spec fn castle_must_be_unattacked(player: Player, direction: CastleDirection) -> Bitboard {
    match (player, direction) {
        (Player::White, CastleDirection::KingSide) => Square::F1.spec_to_bit()
            | Square::G1.spec_to_bit(),
        (Player::White, CastleDirection::QueenSide) => Square::C1.spec_to_bit()
            | Square::D1.spec_to_bit(),
        (Player::Black, CastleDirection::KingSide) => Square::F8.spec_to_bit()
            | Square::G8.spec_to_bit(),
        (Player::Black, CastleDirection::QueenSide) => Square::C8.spec_to_bit()
            | Square::D8.spec_to_bit(),
    }
}

/// The bitboards of the squares between king and rook, and of the squares of
/// the king's path, as numbers.
pub proof fn lemma_castle_masks()
    ensures
        castle_must_be_empty(Player::White, CastleDirection::KingSide) == 0x60,
        castle_must_be_empty(Player::White, CastleDirection::QueenSide) == 0xE,
        castle_must_be_empty(Player::Black, CastleDirection::KingSide) == 0x6000_0000_0000_0000,
        castle_must_be_empty(Player::Black, CastleDirection::QueenSide) == 0x0E00_0000_0000_0000,
        castle_must_be_unattacked(Player::White, CastleDirection::KingSide) == 0x60,
        castle_must_be_unattacked(Player::White, CastleDirection::QueenSide) == 0xC,
        castle_must_be_unattacked(Player::Black, CastleDirection::KingSide)
            == 0x6000_0000_0000_0000,
        castle_must_be_unattacked(Player::Black, CastleDirection::QueenSide)
            == 0x0C00_0000_0000_0000,
{
    reveal(Square::spec_index);
    assert((1u64 << 5u64) | (1u64 << 6u64) == 0x60 && (1u64 << 1u64) | (1u64 << 2u64) | (1u64
        << 3u64) == 0xE && (1u64 << 2u64) | (1u64 << 3u64) == 0xC && (1u64 << 61u64) | (1u64
        << 62u64) == 0x6000_0000_0000_0000 && (1u64 << 57u64) | (1u64 << 58u64) | (1u64 << 59u64)
        == 0x0E00_0000_0000_0000 && (1u64 << 58u64) | (1u64 << 59u64) == 0x0C00_0000_0000_0000)
        by (bit_vector);
}

impl BoardStatus {
    const WHITE_QUEEN_SIDE_CASTLE_EMPTY: Bitboard = 0xE;

    const WHITE_QUEEN_SIDE_CASTLE_UNATTACKED: Bitboard = 0xC;

    const WHITE_KING_SIDE_CASTLE_EMPTY: Bitboard = 0x60;

    const WHITE_KING_SIDE_CASTLE_UNATTACKED: Bitboard = 0x60;

    const BLACK_KING_SIDE_CASTLE_EMPTY: Bitboard = 0x6000_0000_0000_0000;

    const BLACK_KING_SIDE_CASTLE_UNATTACKED: Bitboard = 0x6000_0000_0000_0000;

    const BLACK_QUEEN_SIDE_CASTLE_EMPTY: Bitboard = 0x0E00_0000_0000_0000;

    const BLACK_QUEEN_SIDE_CASTLE_UNATTACKED: Bitboard = 0x0C00_0000_0000_0000;

    /// Whether the side still has the right to castle in that direction.
    pub open spec fn spec_castle_right(self, player: Player, direction: CastleDirection) -> bool {
        match (player, direction) {
            (Player::White, CastleDirection::KingSide) => self.white_king_castle_rights,
            (Player::White, CastleDirection::QueenSide) => self.white_queen_castle_rights,
            (Player::Black, CastleDirection::KingSide) => self.black_king_castle_rights,
            (Player::Black, CastleDirection::QueenSide) => self.black_queen_castle_rights,
        }
    }

    /// Every right that this status has, the earlier status had.
    pub open spec fn rights_within(self, earlier: BoardStatus) -> bool {
        forall|player: Player, direction: CastleDirection| #[trigger]
            self.spec_castle_right(player, direction) ==> earlier.spec_castle_right(
                player,
                direction,
            )
    }

    /// This status without one right, and in all else the same.
    pub open spec fn spec_revoke(self, player: Player, direction: CastleDirection) -> BoardStatus {
        match (player, direction) {
            (Player::White, CastleDirection::KingSide) => BoardStatus {
                white_king_castle_rights: false,
                ..self
            },
            (Player::White, CastleDirection::QueenSide) => BoardStatus {
                white_queen_castle_rights: false,
                ..self
            },
            (Player::Black, CastleDirection::KingSide) => BoardStatus {
                black_king_castle_rights: false,
                ..self
            },
            (Player::Black, CastleDirection::QueenSide) => BoardStatus {
                black_queen_castle_rights: false,
                ..self
            },
        }
    }

    /// The status once the move has passed to the other side, with no move made.
    pub open spec fn spec_switch_sides(self) -> BoardStatus {
        BoardStatus { side_to_move: self.side_to_move.spec_switch(), ..self }
    }

    /// The status after a move that touches no right and is no double step.
    pub open spec fn spec_quiet_move(self) -> BoardStatus {
        BoardStatus { side_to_move: self.side_to_move.spec_switch(), has_ep_pawn: false, ..self }
    }

    /// The status after a pawn's double step.
    pub open spec fn spec_double_pawn_push(self) -> BoardStatus {
        BoardStatus { side_to_move: self.side_to_move.spec_switch(), has_ep_pawn: true, ..self }
    }

    /// The status after the side to move has moved its king: it has lost both
    /// its rights.
    pub open spec fn spec_king_move(self) -> BoardStatus {
        self.spec_revoke(self.side_to_move, CastleDirection::KingSide).spec_revoke(
            self.side_to_move,
            CastleDirection::QueenSide,
        ).spec_quiet_move()
    }

    /// The status after the side to move has moved its rook of that direction:
    /// it has lost that right.
    pub open spec fn spec_rook_move(self, direction: CastleDirection) -> BoardStatus {
        self.spec_revoke(self.side_to_move, direction).spec_quiet_move()
    }

    /// The status after the side to move has taken the other side's rook of
    /// that direction on its square: the other side has lost that right.
    pub open spec fn spec_capture_rook(self, direction: CastleDirection) -> BoardStatus {
        self.spec_revoke(self.side_to_move.spec_switch(), direction).spec_quiet_move()
    }

    /// The status after one change.
    pub open spec fn spec_apply(self, change: StatusChange) -> BoardStatus {
        match change {
            StatusChange::SwitchSides => self.spec_switch_sides(),
            StatusChange::QuietMove => self.spec_quiet_move(),
            StatusChange::DoublePawnPush => self.spec_double_pawn_push(),
            StatusChange::KingMove => self.spec_king_move(),
            StatusChange::RookMove(direction) => self.spec_rook_move(direction),
            StatusChange::CaptureRook(direction) => self.spec_capture_rook(direction),
        }
    }

    /// The status after a run of changes, the first of them first.
    pub open spec fn spec_apply_all(self, changes: Seq<StatusChange>) -> BoardStatus
        decreases changes.len(),
    {
        if changes.len() == 0 {
            self
        } else {
            self.spec_apply_all(changes.drop_last()).spec_apply(changes.last())
        }
    }

    /// Whether the side to move may castle in that direction, given the
    /// squares that are attacked, those that are occupied, and those on which
    /// its rooks stand: it has the right, the squares between king and rook
    /// are empty, the king's path is not attacked, and the rook is at home.
    pub open spec fn spec_can_castle(
        self,
        direction: CastleDirection,
        attacked: Bitboard,
        occupied: Bitboard,
        rooks: Bitboard,
    ) -> bool {
        &&& self.spec_castle_right(self.side_to_move, direction)
        &&& occupied & castle_must_be_empty(self.side_to_move, direction) == EMPTY_BITBOARD
        &&& attacked & castle_must_be_unattacked(self.side_to_move, direction) == EMPTY_BITBOARD
        &&& contains(rooks, castle_rook_square(self.side_to_move, direction))
    }

    /// Whether the side to move may castle in that direction.
    pub fn can_castle(
        self,
        direction: CastleDirection,
        attacked: Bitboard,
        occupied: Bitboard,
        rooks: Bitboard,
    ) -> (r: bool)
        ensures
            r == self.spec_can_castle(direction, attacked, occupied, rooks),
    {
        proof {
            lemma_castle_masks();
        }
        match (direction, self.side_to_move) {
            (CastleDirection::KingSide, Player::White) => {
                self.white_king_castle_rights && occupied & Self::WHITE_KING_SIDE_CASTLE_EMPTY
                    == EMPTY_BITBOARD && attacked & Self::WHITE_KING_SIDE_CASTLE_UNATTACKED
                    == EMPTY_BITBOARD && rooks & Square::H1.to_bit() != EMPTY_BITBOARD
            },
            (CastleDirection::QueenSide, Player::White) => {
                self.white_queen_castle_rights && occupied & Self::WHITE_QUEEN_SIDE_CASTLE_EMPTY
                    == EMPTY_BITBOARD && attacked & Self::WHITE_QUEEN_SIDE_CASTLE_UNATTACKED
                    == EMPTY_BITBOARD && rooks & Square::A1.to_bit() != EMPTY_BITBOARD
            },
            (CastleDirection::KingSide, Player::Black) => {
                self.black_king_castle_rights && occupied & Self::BLACK_KING_SIDE_CASTLE_EMPTY
                    == EMPTY_BITBOARD && attacked & Self::BLACK_KING_SIDE_CASTLE_UNATTACKED
                    == EMPTY_BITBOARD && rooks & Square::H8.to_bit() != EMPTY_BITBOARD
            },
            (CastleDirection::QueenSide, Player::Black) => {
                self.black_queen_castle_rights && occupied & Self::BLACK_QUEEN_SIDE_CASTLE_EMPTY
                    == EMPTY_BITBOARD && attacked & Self::BLACK_QUEEN_SIDE_CASTLE_UNATTACKED
                    == EMPTY_BITBOARD && rooks & Square::A8.to_bit() != EMPTY_BITBOARD
            },
        }
    }

    /// Passes the move to the other side, with no move made.
    pub fn switch_sides(self) -> (r: BoardStatus)
        ensures
            r == self.spec_switch_sides(),
            r.rights_within(self),
    {
        BoardStatus { side_to_move: self.side_to_move.switch(), ..self }
    }

    /// The status after a pawn's double step.
    pub fn double_pawn_push(self) -> (r: BoardStatus)
        ensures
            r == self.spec_double_pawn_push(),
            r.rights_within(self),
    {
        BoardStatus { side_to_move: self.side_to_move.switch(), has_ep_pawn: true, ..self }
    }

    /// The status after the side to move has moved its king: both its rights
    /// are gone, those of the other side are as they were.
    pub fn king_move(self) -> (r: BoardStatus)
        ensures
            r == self.spec_king_move(),
            r.side_to_move == self.side_to_move.spec_switch(),
            !r.has_ep_pawn,
            forall|player: Player, direction: CastleDirection| #[trigger]
                r.spec_castle_right(player, direction) == (self.spec_castle_right(player, direction)
                    && player != self.side_to_move),
            r.rights_within(self),
    {
        BoardStatus {
            side_to_move: self.side_to_move.switch(),
            has_ep_pawn: false,
            white_king_castle_rights: self.side_to_move.is_black()
                && self.white_king_castle_rights,
            white_queen_castle_rights: self.side_to_move.is_black()
                && self.white_queen_castle_rights,
            black_king_castle_rights: self.side_to_move.is_white()
                && self.black_king_castle_rights,
            black_queen_castle_rights: self.side_to_move.is_white()
                && self.black_queen_castle_rights,
        }
    }

    /// The status after a move that touches no right and is no double step.
    pub fn quiet_move(self) -> (r: BoardStatus)
        ensures
            r == self.spec_quiet_move(),
            r.rights_within(self),
    {
        BoardStatus { side_to_move: self.side_to_move.switch(), has_ep_pawn: false, ..self }
    }

    /// The status after the side to move has moved its rook of that direction:
    /// that one right is gone, the three others are as they were.
    pub fn rook_move(self, direction: CastleDirection) -> (r: BoardStatus)
        ensures
            r == self.spec_rook_move(direction),
            r.side_to_move == self.side_to_move.spec_switch(),
            !r.has_ep_pawn,
            forall|player: Player, other: CastleDirection| #[trigger]
                r.spec_castle_right(player, other) == (self.spec_castle_right(player, other) && !(
                player == self.side_to_move && other == direction)),
            r.rights_within(self),
    {
        let king_side = direction == CastleDirection::KingSide;
        let queen_side = direction == CastleDirection::QueenSide;
        let white_king_castle_rights = (self.side_to_move.is_black() || !king_side)
            && self.white_king_castle_rights;
        let white_queen_castle_rights = (self.side_to_move.is_black() || !queen_side)
            && self.white_queen_castle_rights;
        let black_king_castle_rights = (self.side_to_move.is_white() || !king_side)
            && self.black_king_castle_rights;
        let black_queen_castle_rights = (self.side_to_move.is_white() || !queen_side)
            && self.black_queen_castle_rights;
        BoardStatus {
            side_to_move: self.side_to_move.switch(),
            has_ep_pawn: false,
            white_king_castle_rights,
            white_queen_castle_rights,
            black_king_castle_rights,
            black_queen_castle_rights,
        }
    }

    /// The status after the side to move has taken the other side's rook of
    /// that direction on its square: that one right of the other side is gone,
    /// the three others are as they were.
    pub fn capture_rook(self, direction: CastleDirection) -> (r: BoardStatus)
        ensures
            r == self.spec_capture_rook(direction),
            r.side_to_move == self.side_to_move.spec_switch(),
            !r.has_ep_pawn,
            forall|player: Player, other: CastleDirection| #[trigger]
                r.spec_castle_right(player, other) == (self.spec_castle_right(player, other) && !(
                player != self.side_to_move && other == direction)),
            r.rights_within(self),
    {
        let king_side = direction == CastleDirection::KingSide;
        let queen_side = direction == CastleDirection::QueenSide;
        let white_king_castle_rights = (self.side_to_move.is_white() || !king_side)
            && self.white_king_castle_rights;
        let white_queen_castle_rights = (self.side_to_move.is_white() || !queen_side)
            && self.white_queen_castle_rights;
        let black_king_castle_rights = (self.side_to_move.is_black() || !king_side)
            && self.black_king_castle_rights;
        let black_queen_castle_rights = (self.side_to_move.is_black() || !queen_side)
            && self.black_queen_castle_rights;
        BoardStatus {
            side_to_move: self.side_to_move.switch(),
            has_ep_pawn: false,
            white_king_castle_rights,
            white_queen_castle_rights,
            black_king_castle_rights,
            black_queen_castle_rights,
        }
    }

    /// No change of the status gives a right back.
    pub proof fn lemma_change_keeps_rights_within(self, change: StatusChange)
        ensures
            self.spec_apply(change).rights_within(self),
    {
    }

    /// Over any run of changes the rights only go: the status after the first
    /// `j` changes has no right that the status after the first `i` of them
    /// lacked, for `i` up to `j`.
    pub proof fn lemma_rights_monotone(self, changes: Seq<StatusChange>, i: int, j: int)
        requires
            0 <= i <= j <= changes.len(),
        ensures
            self.spec_apply_all(changes.take(j)).rights_within(
                self.spec_apply_all(changes.take(i)),
            ),
        decreases j - i,
    {
        if i < j {
            self.lemma_rights_monotone(changes, i, j - 1);
            assert(changes.take(j).drop_last() =~= changes.take(j - 1));
            self.spec_apply_all(changes.take(j - 1)).lemma_change_keeps_rights_within(
                changes.take(j).last(),
            );
        }
    }

    /// Castling is refused where the right is gone, whatever the squares; where
    /// a square that must be empty is occupied; and where a square that must
    /// not be attacked is attacked.
    pub proof fn lemma_can_castle_needs(
        self,
        direction: CastleDirection,
        attacked: Bitboard,
        occupied: Bitboard,
        rooks: Bitboard,
        square: Square,
    )
        ensures
            !self.spec_castle_right(self.side_to_move, direction) ==> !self.spec_can_castle(
                direction,
                attacked,
                occupied,
                rooks,
            ),
            contains(castle_must_be_empty(self.side_to_move, direction), square) && contains(
                occupied,
                square,
            ) ==> !self.spec_can_castle(direction, attacked, occupied, rooks),
            contains(castle_must_be_unattacked(self.side_to_move, direction), square) && contains(
                attacked,
                square,
            ) ==> !self.spec_can_castle(direction, attacked, occupied, rooks),
    {
        lemma_bitboard_algebra();
        assert(contains(occupied & castle_must_be_empty(self.side_to_move, direction), square)
            <==> contains(occupied, square) && contains(
            castle_must_be_empty(self.side_to_move, direction),
            square,
        ));
        assert(contains(
            attacked & castle_must_be_unattacked(self.side_to_move, direction),
            square,
        ) <==> contains(attacked, square) && contains(
            castle_must_be_unattacked(self.side_to_move, direction),
            square,
        ));
    }
}

impl Default for BoardStatus {
    /// The status at the start of a game: White to move, no double step made,
    /// all four rights.
    fn default() -> (r: BoardStatus)
        ensures
            r == (BoardStatus {
                side_to_move: Player::White,
                has_ep_pawn: false,
                white_king_castle_rights: true,
                white_queen_castle_rights: true,
                black_king_castle_rights: true,
                black_queen_castle_rights: true,
            }),
    {
        BoardStatus {
            side_to_move: Player::White,
            has_ep_pawn: false,
            white_king_castle_rights: true,
            white_queen_castle_rights: true,
            black_king_castle_rights: true,
            black_queen_castle_rights: true,
        }
    }
}

} // verus!
