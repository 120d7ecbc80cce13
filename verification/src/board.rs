use vstd::prelude::*;
use crate::attack::{attacked_by, attacks};
use crate::bitboard::{
    contains, lemma_bitboard_algebra, lemma_bitboard_disjoint, squares, Bitboard, EMPTY_BITBOARD,
};
use crate::board_status::{
    castle_must_be_empty, castle_must_be_unattacked, castle_rook_square, BoardStatus,
};
use crate::castle_direction::CastleDirection;
use crate::fen::{append_placement, append_rights, fen_text};
use crate::piece_arrangement::PieceArrangement;
use crate::piece_type::{NonKingPieceType, PieceType};
use crate::player::Player;
use crate::square::Square;

verus! {

/// A position: the pieces on their squares, and the status that goes with
/// them. Each kind of move changes both in one step.
#[derive(Clone, Copy, PartialEq, Eq, Debug)]
pub struct Board {
    pieces: PieceArrangement,
    status: BoardStatus,
}

/// The square on which the side's king starts the game, and from which it
/// castles.
pub open spec fn castle_king_from(player: Player) -> Square {
    match player {
        Player::White => Square::E1,
        Player::Black => Square::E8,
    }
}

/// The square on which the side's king lands when it castles in that
/// direction.
pub open spec fn castle_king_to(player: Player, direction: CastleDirection) -> Square {
    match (player, direction) {
        (Player::White, CastleDirection::KingSide) => Square::G1,
        (Player::White, CastleDirection::QueenSide) => Square::C1,
        (Player::Black, CastleDirection::KingSide) => Square::G8,
        (Player::Black, CastleDirection::QueenSide) => Square::C8,
    }
}

/// The square on which the side's rook lands when the side castles in that
/// direction.
pub open spec fn castle_rook_to(player: Player, direction: CastleDirection) -> Square {
    match (player, direction) {
        (Player::White, CastleDirection::KingSide) => Square::F1,
        (Player::White, CastleDirection::QueenSide) => Square::D1,
        (Player::Black, CastleDirection::KingSide) => Square::F8,
        (Player::Black, CastleDirection::QueenSide) => Square::D8,
    }
}

/// The kind of the piece that starts the game on that file of a side's
/// first rank.
pub open spec fn initial_back_rank(file: int) -> PieceType {
    if file == 0 || file == 7 {
        PieceType::Rook
    } else if file == 1 || file == 6 {
        PieceType::Knight
    } else if file == 2 || file == 5 {
        PieceType::Bishop
    } else if file == 3 {
        PieceType::Queen
    } else {
        PieceType::King
    }
}

/// The piece that starts the game on the square, if there is one: White's
/// pieces on the first rank and pawns on the second, Black's pawns on the
/// seventh rank and pieces on the eighth.
pub open spec fn initial_piece(square: Square) -> Option<(Player, PieceType)> {
    let rank = square.spec_rank();
    if rank == 0 {
        Some((Player::White, initial_back_rank(square.spec_file())))
    } else if rank == 1 {
        Some((Player::White, PieceType::Pawn))
    } else if rank == 6 {
        Some((Player::Black, PieceType::Pawn))
    } else if rank == 7 {
        Some((Player::Black, initial_back_rank(square.spec_file())))
    } else {
        None
    }
}

/// The pieces at the start of a game.
pub open spec fn initial_pieces() -> Map<Square, (Player, PieceType)> {
    Map::new(
        |square: Square| initial_piece(square) is Some,
        |square: Square| initial_piece(square)->Some_0,
    )
}

/// The square from which the side's king castles.
pub fn king_from_square(player: Player) -> (r: Square)
    ensures
        r == castle_king_from(player),
{
    match player {
        Player::White => Square::E1,
        Player::Black => Square::E8,
    }
}

/// The square on which the side's king lands when it castles in that direction.
pub fn king_to_square(player: Player, direction: CastleDirection) -> (r: Square)
    ensures
        r == castle_king_to(player, direction),
{
    match (player, direction) {
        (Player::White, CastleDirection::KingSide) => Square::G1,
        (Player::White, CastleDirection::QueenSide) => Square::C1,
        (Player::Black, CastleDirection::KingSide) => Square::G8,
        (Player::Black, CastleDirection::QueenSide) => Square::C8,
    }
}

/// The square from which the side's rook of that direction castles.
pub fn rook_from_square(player: Player, direction: CastleDirection) -> (r: Square)
    ensures
        r == castle_rook_square(player, direction),
{
    match (player, direction) {
        (Player::White, CastleDirection::KingSide) => Square::H1,
        (Player::White, CastleDirection::QueenSide) => Square::A1,
        (Player::Black, CastleDirection::KingSide) => Square::H8,
        (Player::Black, CastleDirection::QueenSide) => Square::A8,
    }
}

/// The square on which the side's rook lands when the side castles in that
/// direction.
pub fn rook_to_square(player: Player, direction: CastleDirection) -> (r: Square)
    ensures
        r == castle_rook_to(player, direction),
{
    match (player, direction) {
        (Player::White, CastleDirection::KingSide) => Square::F1,
        (Player::White, CastleDirection::QueenSide) => Square::D1,
        (Player::Black, CastleDirection::KingSide) => Square::F8,
        (Player::Black, CastleDirection::QueenSide) => Square::D8,
    }
}

impl Board {
    /// The pieces of the position.
    pub closed spec fn spec_pieces(self) -> PieceArrangement {
        self.pieces
    }

    /// The status of the position.
    pub closed spec fn spec_status(self) -> BoardStatus {
        self.status
    }

    /// The records of the pieces agree with each other.
    pub open spec fn wf(self) -> bool {
        self.spec_pieces().wf()
    }

    /// The side and the kind of the piece on the square; to be read only
    /// where there is one.
    pub open spec fn piece_at(self, square: Square) -> (Player, PieceType) {
        self.spec_pieces()@[square]
    }

    /// Whether a piece of the side to move stands on the square.
    pub open spec fn holds_mover(self, square: Square) -> bool {
        self.spec_pieces()@.contains_key(square) && self.piece_at(square).0
            == self.spec_status().side_to_move
    }

    /// Whether a piece of the side not to move, and no king, stands on the
    /// square.
    pub open spec fn holds_victim(self, square: Square) -> bool {
        &&& self.spec_pieces()@.contains_key(square)
        &&& self.piece_at(square).0 == self.spec_status().side_to_move.spec_switch()
        &&& self.piece_at(square).1 != PieceType::King
    }

    /// Whether no piece stands on the square.
    pub open spec fn is_empty(self, square: Square) -> bool {
        !self.spec_pieces()@.contains_key(square)
    }

    /// A position is its pieces and its status: two positions that agree in
    /// both are equal.
    pub proof fn lemma_ext(self, other: Board)
        requires
            self.spec_pieces() == other.spec_pieces(),
            self.spec_status() == other.spec_status(),
        ensures
            self == other,
    {
    }

    /// In every position the bitboard of all the pieces holds the squares for
    /// which the table by square has a piece, and no others; and no square is
    /// in the bitboards of both sides.
    pub proof fn lemma_occupancy(self)
        requires
            self.wf(),
        ensures
            squares(self.spec_pieces().spec_occupied()) == Set::new(
                |square: Square| self.spec_pieces().spec_piece_type_on(square) is Some,
            ),
            self.spec_pieces().spec_mask_for_player(Player::White)
                & self.spec_pieces().spec_mask_for_player(Player::Black) == EMPTY_BITBOARD,
    {
        self.spec_pieces().lemma_occupancy();
    }

    /// The pieces of the position.
    pub fn pieces(&self) -> (r: PieceArrangement)
        ensures
            r == self.spec_pieces(),
            r.wf(),
    {
        proof {
            use_type_invariant(&self.pieces);
        }
        self.pieces
    }

    /// The status of the position.
    pub fn status(&self) -> (r: BoardStatus)
        ensures
            r == self.spec_status(),
    {
        self.status
    }

    /// Whether White is to move.
    pub fn is_white_to_move(&self) -> (r: bool)
        ensures
            r <==> self.spec_status().side_to_move == Player::White,
    {
        self.status.side_to_move.is_white()
    }

    /// Moves the piece on `from`, whatever its kind, to the empty square `to`.
    pub fn quiet_move(self, from: Square, to: Square) -> (r: Board)
        requires
            self.holds_mover(from),
            self.is_empty(to),
        ensures
            r.wf(),
            r.spec_pieces()@ == self.spec_pieces()@.remove(from).insert(to, self.piece_at(from)),
            r.spec_status() == self.spec_status().spec_quiet_move(),
            r.spec_status().rights_within(self.spec_status()),
    {
        Board {
            pieces: self.pieces.move_by_squares(self.status.side_to_move, from, to),
            status: self.status.quiet_move(),
        }
    }

    /// Takes the piece on `to` and moves the piece on `from`, whatever its
    /// kind, there. A pawn taken in passing does not stand on `to` and is not
    /// taken by this.
    pub fn capture(self, from: Square, to: Square) -> (r: Board)
        requires
            self.holds_mover(from),
            self.holds_victim(to),
        ensures
            r.wf(),
            r.spec_pieces()@ == self.spec_pieces()@.remove(from).insert(to, self.piece_at(from)),
            r.spec_status() == self.spec_status().spec_quiet_move(),
            r.spec_status().rights_within(self.spec_status()),
    {
        let mover = self.status.side_to_move;
        let pieces = self.pieces.remove_by_square(mover.switch(), to).move_by_squares(
            mover,
            from,
            to,
        );
        assert(pieces@ =~= self.spec_pieces()@.remove(from).insert(to, self.piece_at(from)));
        Board { pieces, status: self.status.quiet_move() }
    }

    /// Moves a pawn two squares forward, from `from` to the empty square `to`.
    pub fn double_pawn_push(self, from: Square, to: Square) -> (r: Board)
        requires
            self.holds_mover(from),
            self.piece_at(from).1 == PieceType::Pawn,
            self.is_empty(to),
        ensures
            r.wf(),
            r.spec_pieces()@ == self.spec_pieces()@.remove(from).insert(to, self.piece_at(from)),
            r.spec_status() == self.spec_status().spec_double_pawn_push(),
            r.spec_status().rights_within(self.spec_status()),
    {
        Board {
            pieces: self.pieces.move_piece(self.status.side_to_move, PieceType::Pawn, from, to),
            status: self.status.double_pawn_push(),
        }
    }

    /// Moves the king of the side to move from `from` to the empty square
    /// `to`. The side loses both its castling rights.
    pub fn king_move(self, from: Square, to: Square) -> (r: Board)
        requires
            self.holds_mover(from),
            self.piece_at(from).1 == PieceType::King,
            self.is_empty(to),
        ensures
            r.wf(),
            r.spec_pieces()@ == self.spec_pieces()@.remove(from).insert(to, self.piece_at(from)),
            r.spec_status() == self.spec_status().spec_king_move(),
            r.spec_status().rights_within(self.spec_status()),
    {
        Board {
            pieces: self.pieces.move_piece(self.status.side_to_move, PieceType::King, from, to),
            status: self.status.king_move(),
        }
    }

    /// Castles: moves the rook of that direction and the king of the side to
    /// move from the squares on which they start the game to those on which
    /// they stand after castling. The side loses both its castling rights.
    pub fn castle(self, direction: CastleDirection) -> (r: Board)
        requires
            self.spec_pieces()@.contains_pair(
                castle_rook_square(self.spec_status().side_to_move, direction),
                (self.spec_status().side_to_move, PieceType::Rook),
            ),
            self.spec_pieces()@.contains_pair(
                castle_king_from(self.spec_status().side_to_move),
                (self.spec_status().side_to_move, PieceType::King),
            ),
            self.is_empty(castle_rook_to(self.spec_status().side_to_move, direction)),
            self.is_empty(castle_king_to(self.spec_status().side_to_move, direction)),
        ensures
            r.wf(),
            r.spec_pieces()@ == self.spec_pieces()@.remove(
                castle_rook_square(self.spec_status().side_to_move, direction),
            ).remove(castle_king_from(self.spec_status().side_to_move)).insert(
                castle_rook_to(self.spec_status().side_to_move, direction),
                (self.spec_status().side_to_move, PieceType::Rook),
            ).insert(
                castle_king_to(self.spec_status().side_to_move, direction),
                (self.spec_status().side_to_move, PieceType::King),
            ),
            r.spec_status() == self.spec_status().spec_king_move(),
            r.spec_status().rights_within(self.spec_status()),
    {
        let mover = self.status.side_to_move;
        let pieces = self.pieces.move_piece(
            mover,
            PieceType::Rook,
            rook_from_square(mover, direction),
            rook_to_square(mover, direction),
        ).move_piece(
            mover,
            PieceType::King,
            king_from_square(mover),
            king_to_square(mover, direction),
        );
        assert(pieces@ =~= self.spec_pieces()@.remove(castle_rook_square(mover, direction)).remove(
            castle_king_from(mover),
        ).insert(castle_rook_to(mover, direction), (mover, PieceType::Rook)).insert(
            castle_king_to(mover, direction),
            (mover, PieceType::King),
        ));
        Board { pieces, status: self.status.king_move() }
    }

    /// Moves the rook of that direction of the side to move from `from` to the
    /// empty square `to`. The side loses its castling right of that direction.
    pub fn rook_move(self, direction: CastleDirection, from: Square, to: Square) -> (r: Board)
        requires
            self.holds_mover(from),
            self.piece_at(from).1 == PieceType::Rook,
            self.is_empty(to),
        ensures
            r.wf(),
            r.spec_pieces()@ == self.spec_pieces()@.remove(from).insert(to, self.piece_at(from)),
            r.spec_status() == self.spec_status().spec_rook_move(direction),
            r.spec_status().rights_within(self.spec_status()),
    {
        Board {
            pieces: self.pieces.move_piece(self.status.side_to_move, PieceType::Rook, from, to),
            status: self.status.rook_move(direction),
        }
    }

    /// Takes the other side's rook of that direction, which stands on `to`,
    /// and moves the piece on `from`, whatever its kind, there. The other side
    /// loses its castling right of that direction.
    pub fn capture_rook(self, direction: CastleDirection, from: Square, to: Square) -> (r: Board)
        requires
            self.holds_mover(from),
            self.holds_victim(to),
            self.piece_at(to).1 == PieceType::Rook,
        ensures
            r.wf(),
            r.spec_pieces()@ == self.spec_pieces()@.remove(from).insert(to, self.piece_at(from)),
            r.spec_status() == self.spec_status().spec_capture_rook(direction),
            r.spec_status().rights_within(self.spec_status()),
    {
        let mover = self.status.side_to_move;
        let pieces = self.pieces.remove_piece(
            mover.switch(),
            NonKingPieceType::Rook,
            to,
        ).move_by_squares(mover, from, to);
        assert(pieces@ =~= self.spec_pieces()@.remove(from).insert(to, self.piece_at(from)));
        Board { pieces, status: self.status.capture_rook(direction) }
    }

    /// Takes the pawn on `from` off the board and puts a piece of the chosen
    /// kind on `to`.
    pub fn promote(self, promotion: NonKingPieceType, from: Square, to: Square) -> (r: Board)
        requires
            self.holds_mover(from),
            self.piece_at(from).1 == PieceType::Pawn,
            to == from || self.is_empty(to),
        ensures
            r.wf(),
            r.spec_pieces()@ == self.spec_pieces()@.remove(from).insert(
                to,
                (self.spec_status().side_to_move, promotion.spec_to_piece_type()),
            ),
            r.spec_status() == self.spec_status().spec_quiet_move(),
            r.spec_status().rights_within(self.spec_status()),
    {
        let mover = self.status.side_to_move;
        Board {
            pieces: self.pieces.remove_piece(mover, NonKingPieceType::Pawn, from).add_piece(
                mover,
                promotion,
                to,
            ),
            status: self.status.quiet_move(),
        }
    }

    /// Takes the piece on `to`, takes the pawn on `from` off the board and
    /// puts a piece of the chosen kind on `to`.
    pub fn promote_capture(self, promotion: NonKingPieceType, from: Square, to: Square) -> (r:
        Board)
        requires
            self.holds_mover(from),
            self.piece_at(from).1 == PieceType::Pawn,
            self.holds_victim(to),
        ensures
            r.wf(),
            r.spec_pieces()@ == self.spec_pieces()@.remove(from).insert(
                to,
                (self.spec_status().side_to_move, promotion.spec_to_piece_type()),
            ),
            r.spec_status() == self.spec_status().spec_quiet_move(),
            r.spec_status().rights_within(self.spec_status()),
    {
        let mover = self.status.side_to_move;
        let pieces = self.pieces.remove_by_square(mover.switch(), to).remove_piece(
            mover,
            NonKingPieceType::Pawn,
            from,
        ).add_piece(mover, promotion, to);
        assert(pieces@ =~= self.spec_pieces()@.remove(from).insert(
            to,
            (mover, promotion.spec_to_piece_type()),
        ));
        Board { pieces, status: self.status.quiet_move() }
    }

    /// Takes the other side's rook of that direction, which stands on `to`,
    /// takes the pawn on `from` off the board and puts a piece of the chosen
    /// kind on `to`. The other side loses its castling right of that direction.
    pub fn promote_capture_rook(
        self,
        promotion: NonKingPieceType,
        direction: CastleDirection,
        from: Square,
        to: Square,
    ) -> (r: Board)
        requires
            self.holds_mover(from),
            self.piece_at(from).1 == PieceType::Pawn,
            self.holds_victim(to),
            self.piece_at(to).1 == PieceType::Rook,
        ensures
            r.wf(),
            r.spec_pieces()@ == self.spec_pieces()@.remove(from).insert(
                to,
                (self.spec_status().side_to_move, promotion.spec_to_piece_type()),
            ),
            r.spec_status() == self.spec_status().spec_capture_rook(direction),
            r.spec_status().rights_within(self.spec_status()),
    {
        let mover = self.status.side_to_move;
        let pieces = self.pieces.remove_piece(
            mover.switch(),
            NonKingPieceType::Rook,
            to,
        ).remove_piece(mover, NonKingPieceType::Pawn, from).add_piece(mover, promotion, to);
        assert(pieces@ =~= self.spec_pieces()@.remove(from).insert(
            to,
            (mover, promotion.spec_to_piece_type()),
        ));
        Board { pieces, status: self.status.capture_rook(direction) }
    }

    /// Passes the move to the other side, with no move made.
    pub fn switch_sides(self) -> (r: Board)
        ensures
            r.wf(),
            r.spec_pieces() == self.spec_pieces(),
            r.spec_status() == self.spec_status().spec_switch_sides(),
            r.spec_status().rights_within(self.spec_status()),
    {
        proof {
            use_type_invariant(&self.pieces);
        }
        Board { pieces: self.pieces, status: self.status.switch_sides() }
    }

    /// Whether White has the right to castle on the king's side once the side
    /// to move has moved its king or castled: White has it now and is not the
    /// side to move.
    pub fn white_king_castle_after(&self) -> (r: bool)
        ensures
            r == self.spec_status().spec_king_move().white_king_castle_rights,
            r <==> self.spec_status().white_king_castle_rights && self.spec_status().side_to_move
                != Player::White,
    {
        let mover = self.is_white_to_move();
        !mover && self.status.white_king_castle_rights
    }

    /// Whether White has the right to castle on the queen's side once the side
    /// to move has moved its king or castled: White has it now and is not the
    /// side to move.
    pub fn white_queen_castle_after(&self) -> (r: bool)
        ensures
            r == self.spec_status().spec_king_move().white_queen_castle_rights,
            r <==> self.spec_status().white_queen_castle_rights && self.spec_status().side_to_move
                != Player::White,
    {
        let mover = self.is_white_to_move();
        !mover && self.status.white_queen_castle_rights
    }

    /// Whether Black has the right to castle on the king's side once the side
    /// to move has moved its king or castled: Black has it now and is not the
    /// side to move.
    pub fn black_king_castle_after(&self) -> (r: bool)
        ensures
            r == self.spec_status().spec_king_move().black_king_castle_rights,
            r <==> self.spec_status().black_king_castle_rights && self.spec_status().side_to_move
                != Player::Black,
    {
        let mover = !self.is_white_to_move();
        !mover && self.status.black_king_castle_rights
    }

    /// Whether Black has the right to castle on the queen's side once the side
    /// to move has moved its king or castled: Black has it now and is not the
    /// side to move.
    pub fn black_queen_castle_after(&self) -> (r: bool)
        ensures
            r == self.spec_status().spec_king_move().black_queen_castle_rights,
            r <==> self.spec_status().black_queen_castle_rights && self.spec_status().side_to_move
                != Player::Black,
    {
        let mover = !self.is_white_to_move();
        !mover && self.status.black_queen_castle_rights
    }

    /// Whether White has the right to castle on the king's side once the side
    /// to move has taken the other side's rook of that direction: White has it
    /// now, and is the side to move or the rook is that of the other direction.
    pub fn white_capture_king_rook_after(&self, direction: CastleDirection) -> (r: bool)
        ensures
            r == self.spec_status().spec_capture_rook(direction).white_king_castle_rights,
            r <==> self.spec_status().white_king_castle_rights && (self.spec_status().side_to_move
                == Player::White || direction != CastleDirection::KingSide),
    {
        let mover = self.is_white_to_move();
        (mover || direction != CastleDirection::KingSide) && self.status.white_king_castle_rights
    }

    /// Whether White has the right to castle on the queen's side once the side
    /// to move has taken the other side's rook of that direction: White has it
    /// now, and is the side to move or the rook is that of the other direction.
    pub fn white_capture_queen_rook_after(&self, direction: CastleDirection) -> (r: bool)
        ensures
            r == self.spec_status().spec_capture_rook(direction).white_queen_castle_rights,
            r <==> self.spec_status().white_queen_castle_rights && (self.spec_status().side_to_move
                == Player::White || direction != CastleDirection::QueenSide),
    {
        let mover = self.is_white_to_move();
        (mover || direction != CastleDirection::QueenSide) && self.status.white_queen_castle_rights
    }

    /// Whether Black has the right to castle on the king's side once the side
    /// to move has taken the other side's rook of that direction: Black has it
    /// now, and is the side to move or the rook is that of the other direction.
    pub fn black_capture_king_rook_after(&self, direction: CastleDirection) -> (r: bool)
        ensures
            r == self.spec_status().spec_capture_rook(direction).black_king_castle_rights,
            r <==> self.spec_status().black_king_castle_rights && (self.spec_status().side_to_move
                == Player::Black || direction != CastleDirection::KingSide),
    {
        let mover = !self.is_white_to_move();
        (mover || direction != CastleDirection::KingSide) && self.status.black_king_castle_rights
    }

    /// Whether Black has the right to castle on the queen's side once the side
    /// to move has taken the other side's rook of that direction: Black has it
    /// now, and is the side to move or the rook is that of the other direction.
    pub fn black_capture_queen_rook_after(&self, direction: CastleDirection) -> (r: bool)
        ensures
            r == self.spec_status().spec_capture_rook(direction).black_queen_castle_rights,
            r <==> self.spec_status().black_queen_castle_rights && (self.spec_status().side_to_move
                == Player::Black || direction != CastleDirection::QueenSide),
    {
        let mover = !self.is_white_to_move();
        (mover || direction != CastleDirection::QueenSide) && self.status.black_queen_castle_rights
    }

    /// Whether White has the right to castle on the king's side once the side
    /// to move has moved its rook of that direction: White has it now, and is
    /// not the side to move or the rook is that of the other direction.
    pub fn white_king_rook_move_after(&self, direction: CastleDirection) -> (r: bool)
        ensures
            r == self.spec_status().spec_rook_move(direction).white_king_castle_rights,
            r <==> self.spec_status().white_king_castle_rights && (self.spec_status().side_to_move
                != Player::White || direction != CastleDirection::KingSide),
    {
        let mover = self.is_white_to_move();
        (!mover || direction != CastleDirection::KingSide) && self.status.white_king_castle_rights
    }

    /// Whether White has the right to castle on the queen's side once the side
    /// to move has moved its rook of that direction: White has it now, and is
    /// not the side to move or the rook is that of the other direction.
    pub fn white_queen_rook_move_after(&self, direction: CastleDirection) -> (r: bool)
        ensures
            r == self.spec_status().spec_rook_move(direction).white_queen_castle_rights,
            r <==> self.spec_status().white_queen_castle_rights && (self.spec_status().side_to_move
                != Player::White || direction != CastleDirection::QueenSide),
    {
        let mover = self.is_white_to_move();
        (!mover || direction != CastleDirection::QueenSide) && self.status.white_queen_castle_rights
    }

    /// Whether Black has the right to castle on the king's side once the side
    /// to move has moved its rook of that direction: Black has it now, and is
    /// not the side to move or the rook is that of the other direction.
    pub fn black_king_rook_move_after(&self, direction: CastleDirection) -> (r: bool)
        ensures
            r == self.spec_status().spec_rook_move(direction).black_king_castle_rights,
            r <==> self.spec_status().black_king_castle_rights && (self.spec_status().side_to_move
                != Player::Black || direction != CastleDirection::KingSide),
    {
        let mover = !self.is_white_to_move();
        (!mover || direction != CastleDirection::KingSide) && self.status.black_king_castle_rights
    }

    /// Whether Black has the right to castle on the queen's side once the side
    /// to move has moved its rook of that direction: Black has it now, and is
    /// not the side to move or the rook is that of the other direction.
    pub fn black_queen_rook_move_after(&self, direction: CastleDirection) -> (r: bool)
        ensures
            r == self.spec_status().spec_rook_move(direction).black_queen_castle_rights,
            r <==> self.spec_status().black_queen_castle_rights && (self.spec_status().side_to_move
                != Player::Black || direction != CastleDirection::QueenSide),
    {
        let mover = !self.is_white_to_move();
        (!mover || direction != CastleDirection::QueenSide) && self.status.black_queen_castle_rights
    }

    /// The squares that the side not to move attacks: those to which one of
    /// its pieces could move to take, whoever stands there, and whether or not
    /// its own king is attacked.
    pub fn attacked(&self) -> (r: Bitboard)
        ensures
            forall|square: Square|
                contains(r, square) <==> attacks(
                    self.spec_pieces()@,
                    self.spec_status().side_to_move.spec_switch(),
                    square,
                ),
    {
        attacked_by(&self.pieces, self.status.side_to_move.switch())
    }

    /// Whether the side to move may castle in that direction: it has the
    /// right, the squares between its king and its rook are empty, the other
    /// side attacks no square of the king's path, and its rook stands on the
    /// square on which it started the game.
    pub open spec fn spec_can_castle(self, direction: CastleDirection) -> bool {
        let mover = self.spec_status().side_to_move;
        &&& self.spec_status().spec_castle_right(mover, direction)
        &&& forall|square: Square|
            contains(castle_must_be_empty(mover, direction), square) ==> self.is_empty(square)
        &&& forall|square: Square|
            contains(castle_must_be_unattacked(mover, direction), square) ==> !attacks(
                self.spec_pieces()@,
                mover.spec_switch(),
                square,
            )
        &&& self.spec_pieces()@.contains_pair(
            castle_rook_square(mover, direction),
            (mover, PieceType::Rook),
        )
    }

    /// Whether the side to move may castle in that direction.
    pub fn can_castle(&self, direction: CastleDirection) -> (r: bool)
        ensures
            r == self.spec_can_castle(direction),
    {
        let mover = self.status.side_to_move;
        let attacked = self.attacked();
        let occupied = self.pieces.occupied();
        let rooks = self.pieces.mask_for_player_and_piece(mover, NonKingPieceType::Rook);
        proof {
            lemma_bitboard_algebra();
            lemma_bitboard_disjoint(occupied, castle_must_be_empty(mover, direction));
            lemma_bitboard_disjoint(attacked, castle_must_be_unattacked(mover, direction));
            assert forall|square: Square|
                contains(occupied, square) <==> !self.is_empty(square) by {
                assert(squares(occupied).contains(square) <==> contains(occupied, square));
            }
        }
        self.status.can_castle(direction, attacked, occupied, rooks)
    }

    /// The position as text, in the notation of Forsyth and Edwards. The
    /// square that a pawn has passed over is not kept, so the text cannot be
    /// written for a position in which a pawn has just made a double step.
    pub fn fen(self) -> (r: String)
        requires
            !self.spec_status().has_ep_pawn,
        ensures
            r@ == fen_text(self.spec_pieces()@, self.spec_status()),
    {
        let mut fen = String::new();
        append_placement(&mut fen, &self.pieces);
        proof {
            reveal_strlit(" w ");
            reveal_strlit(" b ");
            reveal_strlit(" - 0 1");
        }
        if self.is_white_to_move() {
            fen.append(" w ");
        } else {
            fen.append(" b ");
        }
        append_rights(&mut fen, self.status);
        fen.append(" - 0 1");
        assert(fen@ =~= fen_text(self.spec_pieces()@, self.spec_status()));
        fen
    }
}

impl Default for Board {
    /// The position at the start of a game.
    fn default() -> (r: Board)
        ensures
            r.wf(),
            r.spec_pieces()@ == initial_pieces(),
            r.spec_status() == (BoardStatus {
                side_to_move: Player::White,
                has_ep_pawn: false,
                white_king_castle_rights: true,
                white_queen_castle_rights: true,
                black_king_castle_rights: true,
                black_queen_castle_rights: true,
            }),
    {
        let pieces = PieceArrangement::new(Square::E1, Square::E8)
            .add_piece(Player::White, NonKingPieceType::Rook, Square::A1)
            .add_piece(Player::White, NonKingPieceType::Knight, Square::B1)
            .add_piece(Player::White, NonKingPieceType::Bishop, Square::C1)
            .add_piece(Player::White, NonKingPieceType::Queen, Square::D1)
            .add_piece(Player::White, NonKingPieceType::Bishop, Square::F1)
            .add_piece(Player::White, NonKingPieceType::Knight, Square::G1)
            .add_piece(Player::White, NonKingPieceType::Rook, Square::H1)
            .add_piece(Player::White, NonKingPieceType::Pawn, Square::A2)
            .add_piece(Player::White, NonKingPieceType::Pawn, Square::B2)
            .add_piece(Player::White, NonKingPieceType::Pawn, Square::C2)
            .add_piece(Player::White, NonKingPieceType::Pawn, Square::D2)
            .add_piece(Player::White, NonKingPieceType::Pawn, Square::E2)
            .add_piece(Player::White, NonKingPieceType::Pawn, Square::F2)
            .add_piece(Player::White, NonKingPieceType::Pawn, Square::G2)
            .add_piece(Player::White, NonKingPieceType::Pawn, Square::H2)
            .add_piece(Player::Black, NonKingPieceType::Rook, Square::A8)
            .add_piece(Player::Black, NonKingPieceType::Knight, Square::B8)
            .add_piece(Player::Black, NonKingPieceType::Bishop, Square::C8)
            .add_piece(Player::Black, NonKingPieceType::Queen, Square::D8)
            .add_piece(Player::Black, NonKingPieceType::Bishop, Square::F8)
            .add_piece(Player::Black, NonKingPieceType::Knight, Square::G8)
            .add_piece(Player::Black, NonKingPieceType::Rook, Square::H8)
            .add_piece(Player::Black, NonKingPieceType::Pawn, Square::A7)
            .add_piece(Player::Black, NonKingPieceType::Pawn, Square::B7)
            .add_piece(Player::Black, NonKingPieceType::Pawn, Square::C7)
            .add_piece(Player::Black, NonKingPieceType::Pawn, Square::D7)
            .add_piece(Player::Black, NonKingPieceType::Pawn, Square::E7)
            .add_piece(Player::Black, NonKingPieceType::Pawn, Square::F7)
            .add_piece(Player::Black, NonKingPieceType::Pawn, Square::G7)
            .add_piece(Player::Black, NonKingPieceType::Pawn, Square::H7);
        proof {
            reveal(Square::spec_index);
            assert(pieces@ =~= initial_pieces());
        }
        Board { pieces, status: BoardStatus::default() }
    }
}

} // verus!
