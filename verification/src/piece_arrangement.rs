use vstd::prelude::*;
use crate::bitboard::{
    contains, lemma_bitboard_algebra, lemma_bitboard_ext, squares, Bitboard, EMPTY_BITBOARD,
};
use crate::piece_type::{NonKingPieceType, PieceType};
use crate::player::Player;
use crate::square::Square;

verus! {

/// Where the pieces stand, kept three times over: the kind of the piece on
/// each square, a bitboard of the squares of each side, and a bitboard of the
/// squares of each kind of piece but the king, whose square is kept for each
/// side.
#[derive(Clone, Copy, PartialEq, Eq, Debug)]
pub struct PieceArrangement {
    king_squares: [Square; 2],
    occupied_by_player: [Bitboard; 2],
    occupied_by_piece: [Bitboard; 5],
    piece_by_square: [Option<PieceType>; 64],
}

impl PieceArrangement {
    /// The square of the side's king.
    pub closed spec fn spec_king_square(self, player: Player) -> Square {
        self.king_squares[player.spec_index()]
    }

    /// The kind of the piece on the square, as the table by square has it.
    pub closed spec fn spec_piece_type_on(self, square: Square) -> Option<PieceType> {
        self.piece_by_square[square.spec_index()]
    }

    /// The bitboard of the side's pieces.
    pub closed spec fn spec_mask_for_player(self, player: Player) -> Bitboard {
        self.occupied_by_player[player.spec_index()]
    }

    /// The bitboard of the pieces of one kind, of both sides.
    pub closed spec fn spec_mask_for_piece(self, piece: NonKingPieceType) -> Bitboard {
        self.occupied_by_piece[piece.spec_index()]
    }

    /// Whether the three records agree on one square: it is in the bitboard of
    /// at most one side, and of one side just where the table by square has a
    /// piece for it; it is the king's square of a side just where the table
    /// has a king for it and it is in the bitboard of that side; and it is in
    /// the bitboard of a kind just where the table has that kind for it.
    pub open spec fn consistent_at(self, square: Square) -> bool {
        let white = contains(self.spec_mask_for_player(Player::White), square);
        let black = contains(self.spec_mask_for_player(Player::Black), square);
        let pawns = self.spec_mask_for_piece(NonKingPieceType::Pawn);
        let knights = self.spec_mask_for_piece(NonKingPieceType::Knight);
        let bishops = self.spec_mask_for_piece(NonKingPieceType::Bishop);
        let rooks = self.spec_mask_for_piece(NonKingPieceType::Rook);
        let queens = self.spec_mask_for_piece(NonKingPieceType::Queen);
        let kind = self.spec_piece_type_on(square);
        let king = kind == Some(PieceType::King);
        &&& !(white && black)
        &&& (white || black) <==> kind is Some
        &&& self.spec_king_square(Player::White) == square <==> white && king
        &&& self.spec_king_square(Player::Black) == square <==> black && king
        &&& contains(pawns, square) <==> kind == Some(PieceType::Pawn)
        &&& contains(knights, square) <==> kind == Some(PieceType::Knight)
        &&& contains(bishops, square) <==> kind == Some(PieceType::Bishop)
        &&& contains(rooks, square) <==> kind == Some(PieceType::Rook)
        &&& contains(queens, square) <==> kind == Some(PieceType::Queen)
    }

    /// The three records agree on every square.
    #[verifier::type_invariant]
    pub open spec fn wf(self) -> bool {
        forall|square: Square| self.consistent_at(square)
    }

    /// The side and the kind of the piece on the square, if there is one.
    pub closed spec fn spec_occupant(self, square: Square) -> Option<(Player, PieceType)> {
        match self.spec_piece_type_on(square) {
            None => None,
            Some(kind) => Some(
                (
                    if contains(self.spec_mask_for_player(Player::White), square) {
                        Player::White
                    } else {
                        Player::Black
                    },
                    kind,
                ),
            ),
        }
    }

    /// The pieces on the board: for each occupied square, the side and the kind
    /// of the piece on it.
    pub closed spec fn view(self) -> Map<Square, (Player, PieceType)> {
        Map::new(
            |square: Square| self.spec_occupant(square) is Some,
            |square: Square| self.spec_occupant(square)->Some_0,
        )
    }

    /// The view holds what `spec_occupant` gives for each square.
    proof fn lemma_view_is(self, pieces: Map<Square, (Player, PieceType)>)
        requires
            forall|square: Square| #[trigger]
                self.spec_occupant(square) == (if pieces.contains_key(square) {
                    Some(pieces[square])
                } else {
                    None
                }),
        ensures
            self@ == pieces,
    {
        assert(self@ =~= pieces);
    }

    /// The bitboard of all the pieces.
    pub open spec fn spec_occupied(self) -> Bitboard {
        self.spec_mask_for_player(Player::White) | self.spec_mask_for_player(Player::Black)
    }

    /// The bitboard of the pieces of one side and one kind.
    pub open spec fn spec_mask_for_player_and_piece(
        self,
        player: Player,
        piece: NonKingPieceType,
    ) -> Bitboard {
        self.spec_mask_for_player(player) & self.spec_mask_for_piece(piece)
    }

    /// The three records say what the view says: the table by square has the
    /// kind of each piece, the bitboard of a side holds the squares of its
    /// pieces, the bitboard of a kind holds the squares of the pieces of that
    /// kind, and the king's square of a side is the one square on which its
    /// king stands.
    pub proof fn lemma_records_agree(self)
        requires
            self.wf(),
        ensures
            forall|square: Square| #[trigger]
                self.spec_piece_type_on(square) == (if self@.contains_key(square) {
                    Some(self@[square].1)
                } else {
                    None
                }),
            forall|player: Player, square: Square| #[trigger]
                contains(self.spec_mask_for_player(player), square) <==> self@.contains_key(square)
                    && self@[square].0 == player,
            forall|piece: NonKingPieceType, square: Square| #[trigger]
                contains(self.spec_mask_for_piece(piece), square) <==> self@.contains_key(square)
                    && self@[square].1 == piece.spec_to_piece_type(),
            forall|player: Player| #[trigger]
                self@.contains_pair(self.spec_king_square(player), (player, PieceType::King)),
            forall|player: Player, square: Square| #[trigger]
                self@.contains_pair(square, (player, PieceType::King)) ==> square
                    == self.spec_king_square(player),
    {
        assert forall|square: Square| #[trigger]
            self.spec_piece_type_on(square) == (if self@.contains_key(square) {
                Some(self@[square].1)
            } else {
                None
            }) by {
            assert(self.consistent_at(square));
        }
        assert forall|player: Player, square: Square| #[trigger]
            contains(self.spec_mask_for_player(player), square) <==> self@.contains_key(square)
                && self@[square].0 == player by {
            assert(self.consistent_at(square));
        }
        assert forall|piece: NonKingPieceType, square: Square| #[trigger]
            contains(self.spec_mask_for_piece(piece), square) <==> self@.contains_key(square)
                && self@[square].1 == piece.spec_to_piece_type() by {
            assert(self.consistent_at(square));
        }
        assert forall|player: Player| #[trigger]
            self@.contains_pair(self.spec_king_square(player), (player, PieceType::King)) by {
            assert(self.consistent_at(self.spec_king_square(player)));
        }
        assert forall|player: Player, square: Square| #[trigger]
            self@.contains_pair(square, (player, PieceType::King)) implies square
                == self.spec_king_square(player) by {
            assert(self.consistent_at(square));
        }
    }

    /// The bitboard of all the pieces holds the squares for which the table by
    /// square has a piece, and no others; and no square is in the bitboards of
    /// both sides.
    pub proof fn lemma_occupancy(self)
        requires
            self.wf(),
        ensures
            squares(self.spec_occupied()) == Set::new(
                |square: Square| self.spec_piece_type_on(square) is Some,
            ),
            self.spec_mask_for_player(Player::White) & self.spec_mask_for_player(Player::Black)
                == EMPTY_BITBOARD,
    {
        lemma_bitboard_algebra();
        let both = self.spec_mask_for_player(Player::White) & self.spec_mask_for_player(
            Player::Black,
        );
        assert forall|square: Square| #[trigger]
            contains(self.spec_occupied(), square) <==> self.spec_piece_type_on(square) is Some by {
            assert(self.consistent_at(square));
        }
        assert forall|square: Square|
            contains(both, square) == contains(EMPTY_BITBOARD, square) by {
            assert(self.consistent_at(square));
        }
        lemma_bitboard_ext(both, EMPTY_BITBOARD);
        assert(squares(self.spec_occupied()) =~= Set::new(
            |square: Square| self.spec_piece_type_on(square) is Some,
        ));
    }

    /// The bitboard of the pieces of the five kinds that are no king.
    pub open spec fn spec_mask_for_non_kings(self) -> Bitboard {
        self.spec_mask_for_piece(NonKingPieceType::Pawn) | self.spec_mask_for_piece(
            NonKingPieceType::Knight,
        ) | self.spec_mask_for_piece(NonKingPieceType::Bishop) | self.spec_mask_for_piece(
            NonKingPieceType::Rook,
        ) | self.spec_mask_for_piece(NonKingPieceType::Queen)
    }

    /// The bitboards of two kinds of piece share no square, and the bitboard of
    /// a side is made of the square of its king and of its share of the
    /// bitboards of the five other kinds.
    pub proof fn lemma_masks_partition(
        self,
        player: Player,
        one: NonKingPieceType,
        other: NonKingPieceType,
    )
        requires
            self.wf(),
        ensures
            one != other ==> self.spec_mask_for_piece(one) & self.spec_mask_for_piece(other)
                == EMPTY_BITBOARD,
            self.spec_mask_for_player(player) == self.spec_king_square(player).spec_to_bit() | (
            self.spec_mask_for_player(player) & self.spec_mask_for_non_kings()),
    {
        lemma_bitboard_algebra();
        let shared = self.spec_mask_for_piece(one) & self.spec_mask_for_piece(other);
        let side = self.spec_mask_for_player(player);
        let king = self.spec_king_square(player).spec_to_bit();
        let parts = king | (side & self.spec_mask_for_non_kings());
        if one != other {
            assert forall|square: Square|
                contains(shared, square) == contains(EMPTY_BITBOARD, square) by {
                assert(self.consistent_at(square));
            }
            lemma_bitboard_ext(shared, EMPTY_BITBOARD);
        }
        assert forall|square: Square| contains(side, square) == contains(parts, square) by {
            let kind = self.spec_piece_type_on(square);
            assert(self.consistent_at(square));
            assert(contains(king, square) <==> square == self.spec_king_square(player));
            assert(kind matches Some(piece) ==> piece == PieceType::King || piece.spec_non_king()
                is Some);
            assert(contains(self.spec_mask_for_non_kings(), square) <==> kind is Some && kind
                != Some(PieceType::King));
        }
        lemma_bitboard_ext(side, parts);
    }

    /// The view says all there is to say: two arrangements with the same
    /// pieces on the same squares are equal in every record.
    pub proof fn lemma_view_injective(self, other: PieceArrangement)
        requires
            self.wf(),
            other.wf(),
            self@ == other@,
        ensures
            self == other,
    {
        self.lemma_records_agree();
        other.lemma_records_agree();
        assert forall|i: int| 0 <= i < 64 implies self.piece_by_square[i]
            == other.piece_by_square[i] by {
            Square::lemma_index_of_from_index(i);
            let square = Square::spec_from_index(i);
            assert(self.spec_piece_type_on(square) == other.spec_piece_type_on(square));
        }
        assert(self.piece_by_square =~= other.piece_by_square);
        assert forall|i: int| 0 <= i < 2 implies self.occupied_by_player[i]
            == other.occupied_by_player[i] && self.king_squares[i] == other.king_squares[i] by {
            let player = if i == 0 {
                Player::White
            } else {
                Player::Black
            };
            assert forall|square: Square|
                contains(self.spec_mask_for_player(player), square) == contains(
                    other.spec_mask_for_player(player),
                    square,
                ) by {}
            lemma_bitboard_ext(
                self.spec_mask_for_player(player),
                other.spec_mask_for_player(player),
            );
            assert(other@.contains_pair(self.spec_king_square(player), (player, PieceType::King)));
        }
        assert(self.occupied_by_player =~= other.occupied_by_player);
        assert(self.king_squares =~= other.king_squares);
        assert forall|i: int| 0 <= i < 5 implies self.occupied_by_piece[i]
            == other.occupied_by_piece[i] by {
            let piece = if i == 0 {
                NonKingPieceType::Pawn
            } else if i == 1 {
                NonKingPieceType::Knight
            } else if i == 2 {
                NonKingPieceType::Bishop
            } else if i == 3 {
                NonKingPieceType::Rook
            } else {
                NonKingPieceType::Queen
            };
            assert forall|square: Square|
                contains(self.spec_mask_for_piece(piece), square) == contains(
                    other.spec_mask_for_piece(piece),
                    square,
                ) by {}
            lemma_bitboard_ext(self.spec_mask_for_piece(piece), other.spec_mask_for_piece(piece));
        }
        assert(self.occupied_by_piece =~= other.occupied_by_piece);
    }

    /// A piece that is put on an empty square and taken off it again leaves
    /// the arrangement as it was, in every record: where `added` is what
    /// `add_piece` gives for `self`, and `removed` what `remove_piece` gives
    /// for `added`, `removed` is `self`.
    pub proof fn lemma_add_then_remove(
        self,
        added: PieceArrangement,
        removed: PieceArrangement,
        player: Player,
        piece: NonKingPieceType,
        square: Square,
    )
        requires
            self.wf(),
            !self@.contains_key(square),
            added.wf(),
            added@ == self@.insert(square, (player, piece.spec_to_piece_type())),
            removed.wf(),
            removed@ == added@.remove(square),
        ensures
            added@.contains_pair(square, (player, piece.spec_to_piece_type())),
            removed == self,
    {
        assert(removed@ =~= self@);
        removed.lemma_view_injective(self);
    }

    /// The square of the side's king.
    pub fn king_square(&self, player: Player) -> (r: Square)
        ensures
            r == self.spec_king_square(player),
            self@.contains_pair(r, (player, PieceType::King)),
            forall|square: Square|
                self@.contains_pair(square, (player, PieceType::King)) ==> square == r,
    {
        proof {
            use_type_invariant(self);
            self.lemma_records_agree();
        }
        self.king_squares[player.index()]
    }

    /// The kind of the piece on the square, if there is one.
    pub fn piece_type_on(&self, square: Square) -> (r: Option<PieceType>)
        ensures
            r == self.spec_piece_type_on(square),
            r == (if self@.contains_key(square) {
                Some(self@[square].1)
            } else {
                None
            }),
    {
        proof {
            use_type_invariant(self);
            self.lemma_records_agree();
        }
        self.piece_by_square[square.index()]
    }

    /// The side of the piece on the square, if there is one.
    pub fn player_on(&self, square: Square) -> (r: Option<Player>)
        ensures
            r == (if self@.contains_key(square) {
                Some(self@[square].0)
            } else {
                None
            }),
    {
        proof {
            use_type_invariant(self);
            assert(self.consistent_at(square));
        }
        let bit = square.to_bit();
        if self.occupied_by_player[Player::White.index()] & bit != EMPTY_BITBOARD {
            Some(Player::White)
        } else if self.occupied_by_player[Player::Black.index()] & bit != EMPTY_BITBOARD {
            Some(Player::Black)
        } else {
            None
        }
    }

    /// The bitboard of all the pieces.
    pub fn occupied(&self) -> (r: Bitboard)
        ensures
            r == self.spec_occupied(),
            squares(r) == self@.dom(),
    {
        proof {
            use_type_invariant(self);
            self.lemma_records_agree();
            lemma_bitboard_algebra();
            assert(squares(self.spec_occupied()) =~= self@.dom());
        }
        let white = self.occupied_by_player[Player::White.index()];
        let black = self.occupied_by_player[Player::Black.index()];
        white | black
    }

    /// The bitboard of the pieces of one kind, of both sides.
    pub fn mask_for_piece(&self, piece: NonKingPieceType) -> (r: Bitboard)
        ensures
            r == self.spec_mask_for_piece(piece),
            forall|square: Square|
                contains(r, square) <==> self@.contains_key(square) && self@[square].1
                    == piece.spec_to_piece_type(),
    {
        let r = self.occupied_by_piece[piece.index()];
        proof {
            use_type_invariant(self);
            self.lemma_records_agree();
            assert(r == self.spec_mask_for_piece(piece));
        }
        r
    }

    /// The bitboard of the side's pieces.
    pub fn mask_for_player(&self, player: Player) -> (r: Bitboard)
        ensures
            r == self.spec_mask_for_player(player),
            forall|square: Square|
                contains(r, square) <==> self@.contains_key(square) && self@[square].0 == player,
    {
        let r = self.occupied_by_player[player.index()];
        proof {
            use_type_invariant(self);
            self.lemma_records_agree();
            assert(r == self.spec_mask_for_player(player));
        }
        r
    }

    /// The bitboard of the pieces of one side and one kind.
    pub fn mask_for_player_and_piece(&self, player: Player, piece: NonKingPieceType) -> (r:
        Bitboard)
        ensures
            r == self.spec_mask_for_player_and_piece(player, piece),
            forall|square: Square|
                contains(r, square) <==> self@.contains_pair(
                    square,
                    (player, piece.spec_to_piece_type()),
                ),
    {
        proof {
            use_type_invariant(self);
            self.lemma_records_agree();
            lemma_bitboard_algebra();
        }
        self.mask_for_player(player) & self.mask_for_piece(piece)
    }

    /// An arrangement of the two kings alone.
    pub fn new(white_king: Square, black_king: Square) -> (r: PieceArrangement)
        requires
            white_king != black_king,
        ensures
            r.wf(),
            r@ == Map::<Square, (Player, PieceType)>::empty().insert(
                white_king,
                (Player::White, PieceType::King),
            ).insert(black_king, (Player::Black, PieceType::King)),
    {
        let no_mask: Bitboard = EMPTY_BITBOARD;
        let no_piece: Option<PieceType> = None;
        let king_squares = [white_king, black_king];
        let occupied_by_player = [white_king.to_bit(), black_king.to_bit()];
        let occupied_by_piece = [no_mask; 5];
        let empty_table = [no_piece; 64];
        let mut piece_by_square = empty_table;
        piece_by_square[white_king.index()] = Some(PieceType::King);
        piece_by_square[black_king.index()] = Some(PieceType::King);
        proof {
            vstd::array::axiom_spec_array_fill_for_copy_type::<Option<PieceType>, 64>(no_piece);
            let built = PieceArrangement {
                king_squares,
                occupied_by_player,
                occupied_by_piece,
                piece_by_square,
            };
            assert forall|i: int| 0 <= i < 5 implies occupied_by_piece@[i] == EMPTY_BITBOARD by {}
            assert forall|i: int| 0 <= i < 64 implies #[trigger] piece_by_square@[i] == (if i
                == white_king.spec_index() || i == black_king.spec_index() {
                Some(PieceType::King)
            } else {
                None
            }) by {
                assert(empty_table@[i] == no_piece);
            }
            built.lemma_kings_alone(white_king, black_king);
        }
        PieceArrangement { king_squares, occupied_by_player, occupied_by_piece, piece_by_square }
    }

    /// What `new` builds is consistent and holds the two kings alone.
    proof fn lemma_kings_alone(self, white_king: Square, black_king: Square)
        requires
            white_king != black_king,
            self.king_squares@ == seq![white_king, black_king],
            self.occupied_by_player@ == seq![white_king.spec_to_bit(), black_king.spec_to_bit()],
            forall|i: int| 0 <= i < 5 ==> self.occupied_by_piece@[i] == EMPTY_BITBOARD,
            forall|i: int|
                0 <= i < 64 ==> #[trigger] self.piece_by_square@[i] == (if i
                    == white_king.spec_index() || i == black_king.spec_index() {
                    Some(PieceType::King)
                } else {
                    None::<PieceType>
                }),
        ensures
            self.wf(),
            self@ == Map::<Square, (Player, PieceType)>::empty().insert(
                white_king,
                (Player::White, PieceType::King),
            ).insert(black_king, (Player::Black, PieceType::King)),
    {
        let pieces = Map::<Square, (Player, PieceType)>::empty().insert(
            white_king,
            (Player::White, PieceType::King),
        ).insert(black_king, (Player::Black, PieceType::King));
        lemma_bitboard_algebra();
        assert(self.spec_mask_for_player(Player::White) == white_king.spec_to_bit());
        assert(self.spec_mask_for_player(Player::Black) == black_king.spec_to_bit());
        assert(self.spec_king_square(Player::White) == white_king);
        assert(self.spec_king_square(Player::Black) == black_king);
        assert forall|square: Square|
            #![trigger self.consistent_at(square)]
            #![trigger self.spec_occupant(square)]
            self.consistent_at(square) && self.spec_occupant(square) == (if pieces.contains_key(
                square,
            ) {
                Some(pieces[square])
            } else {
                None
            }) by {
            Square::lemma_index_injective(square, white_king);
            Square::lemma_index_injective(square, black_king);
            square.lemma_from_index_of_index();
            assert(self.spec_piece_type_on(square) == (if square == white_king || square
                == black_king {
                Some(PieceType::King)
            } else {
                None
            }));
            assert(self.spec_mask_for_piece(NonKingPieceType::Pawn) == EMPTY_BITBOARD);
            assert(self.spec_mask_for_piece(NonKingPieceType::Knight) == EMPTY_BITBOARD);
            assert(self.spec_mask_for_piece(NonKingPieceType::Bishop) == EMPTY_BITBOARD);
            assert(self.spec_mask_for_piece(NonKingPieceType::Rook) == EMPTY_BITBOARD);
            assert(self.spec_mask_for_piece(NonKingPieceType::Queen) == EMPTY_BITBOARD);
        }
        self.lemma_view_is(pieces);
    }

    /// Puts a piece on an empty square.
    pub fn add_piece(self, player: Player, piece: NonKingPieceType, square: Square) -> (r:
        PieceArrangement)
        requires
            !self@.contains_key(square),
        ensures
            r.wf(),
            r@ == self@.insert(square, (player, piece.spec_to_piece_type())),
    {
        let bit = square.to_bit();
        let king_squares = self.king_squares;
        let mut occupied_by_player = self.occupied_by_player;
        let mut occupied_by_piece = self.occupied_by_piece;
        let mut piece_by_square = self.piece_by_square;
        occupied_by_player[player.index()] |= bit;
        occupied_by_piece[piece.index()] |= bit;
        piece_by_square[square.index()] = Some(piece.to_piece_type());
        proof {
            use_type_invariant(&self);
            let r = PieceArrangement {
                king_squares,
                occupied_by_player,
                occupied_by_piece,
                piece_by_square,
            };
            let pieces = self@.insert(square, (player, piece.spec_to_piece_type()));
            lemma_bitboard_algebra();
            assert forall|other: Square|
                #![trigger r.consistent_at(other)]
                #![trigger r.spec_occupant(other)]
                r.consistent_at(other) && r.spec_occupant(other) == (
                if pieces.contains_key(other) {
                    Some(pieces[other])
                } else {
                    None
                }) by {
                Square::lemma_index_injective(other, square);
                other.lemma_from_index_of_index();
                assert(self.consistent_at(other));
            }
            r.lemma_view_is(pieces);
        }
        PieceArrangement { king_squares, occupied_by_player, occupied_by_piece, piece_by_square }
    }

    /// Takes a piece off its square.
    pub fn remove_piece(self, player: Player, piece: NonKingPieceType, square: Square) -> (r:
        PieceArrangement)
        requires
            self@.contains_pair(square, (player, piece.spec_to_piece_type())),
        ensures
            r.wf(),
            r@ == self@.remove(square),
    {
        let bit = square.to_bit();
        let king_squares = self.king_squares;
        let mut occupied_by_player = self.occupied_by_player;
        let mut occupied_by_piece = self.occupied_by_piece;
        let mut piece_by_square = self.piece_by_square;
        occupied_by_player[player.index()] &= !bit;
        occupied_by_piece[piece.index()] &= !bit;
        piece_by_square[square.index()] = None;
        proof {
            use_type_invariant(&self);
            let r = PieceArrangement {
                king_squares,
                occupied_by_player,
                occupied_by_piece,
                piece_by_square,
            };
            let pieces = self@.remove(square);
            lemma_bitboard_algebra();
            assert(self.consistent_at(square));
            assert forall|other: Square|
                #![trigger r.consistent_at(other)]
                #![trigger r.spec_occupant(other)]
                r.consistent_at(other) && r.spec_occupant(other) == (
                if pieces.contains_key(other) {
                    Some(pieces[other])
                } else {
                    None
                }) by {
                Square::lemma_index_injective(other, square);
                other.lemma_from_index_of_index();
                assert(self.consistent_at(other));
            }
            r.lemma_view_is(pieces);
        }
        PieceArrangement { king_squares, occupied_by_player, occupied_by_piece, piece_by_square }
    }

    /// Moves a piece to an empty square.
    pub fn move_piece(self, player: Player, piece: PieceType, from: Square, to: Square) -> (r:
        PieceArrangement)
        requires
            self@.contains_pair(from, (player, piece)),
            !self@.contains_key(to),
        ensures
            r.wf(),
            r@ == self@.remove(from).insert(to, (player, piece)),
            !r@.contains_key(from),
            r@.contains_pair(to, (player, piece)),
            forall|square: Square|
                square != from && square != to ==> (r@.contains_key(square) <==> self@.contains_key(
                    square,
                )) && r@[square] == self@[square],
    {
        let from_to = from.to_bit() | to.to_bit();
        let mut king_squares = self.king_squares;
        let mut occupied_by_player = self.occupied_by_player;
        let mut occupied_by_piece = self.occupied_by_piece;
        let mut piece_by_square = self.piece_by_square;
        match piece.non_king() {
            Some(kind) => {
                occupied_by_piece[kind.index()] ^= from_to;
            },
            None => {
                king_squares[player.index()] = to;
            },
        }
        occupied_by_player[player.index()] ^= from_to;
        piece_by_square[from.index()] = None;
        piece_by_square[to.index()] = Some(piece);
        proof {
            use_type_invariant(&self);
            let r = PieceArrangement {
                king_squares,
                occupied_by_player,
                occupied_by_piece,
                piece_by_square,
            };
            let pieces = self@.remove(from).insert(to, (player, piece));
            lemma_bitboard_algebra();
            assert(self.consistent_at(from));
            assert(self.consistent_at(to));
            assert forall|other: Square|
                #![trigger r.consistent_at(other)]
                #![trigger r.spec_occupant(other)]
                r.consistent_at(other) && r.spec_occupant(other) == (
                if pieces.contains_key(other) {
                    Some(pieces[other])
                } else {
                    None
                }) by {
                Square::lemma_index_injective(other, from);
                Square::lemma_index_injective(other, to);
                Square::lemma_index_injective(from, to);
                other.lemma_from_index_of_index();
                assert(self.consistent_at(other));
            }
            r.lemma_view_is(pieces);
        }
        PieceArrangement { king_squares, occupied_by_player, occupied_by_piece, piece_by_square }
    }

    /// Moves the piece that stands on `from`, whatever its kind, to an empty
    /// square.
    pub fn move_by_squares(self, player: Player, from: Square, to: Square) -> (r: PieceArrangement)
        requires
            self@.contains_key(from),
            self@[from].0 == player,
            !self@.contains_key(to),
        ensures
            r.wf(),
            r@ == self@.remove(from).insert(to, self@[from]),
    {
        proof {
            use_type_invariant(&self);
            self.lemma_records_agree();
        }
        match self.piece_type_on(from) {
            Some(piece) => self.move_piece(player, piece, from, to),
            None => self,
        }
    }

    /// Takes the piece that stands on the square, whatever its kind, off the
    /// board. The piece is no king: a king is never taken.
    pub fn remove_by_square(self, player: Player, from: Square) -> (r: PieceArrangement)
        requires
            self@.contains_key(from),
            self@[from].0 == player,
            self@[from].1 != PieceType::King,
        ensures
            r.wf(),
            r@ == self@.remove(from),
    {
        proof {
            use_type_invariant(&self);
            self.lemma_records_agree();
        }
        match self.piece_type_on(from) {
            Some(piece) => match piece.non_king() {
                Some(kind) => self.remove_piece(player, kind, from),
                None => self,
            },
            None => self,
        }
    }
}

} // verus!
