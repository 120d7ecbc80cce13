use chess_core::bitboard::{Bitboard, EMPTY_BITBOARD};
use chess_core::castle_direction::{CastleDirection, KING_SIDE, QUEEN_SIDE};
use chess_core::piece_type::{NonKingPieceType, PieceType, PromotionPieceType};
use chess_core::player::{Player, BLACK, WHITE};
use chess_core::square::Square;

#[test]
fn player_switch_flips_the_side() {
    assert_eq!(Player::White.switch(), Player::Black);
    assert_eq!(Player::Black.switch(), Player::White);
    assert_eq!(Player::White.switch().switch(), Player::White);
}

#[test]
fn player_is_white_and_is_black() {
    assert!(WHITE.is_white());
    assert!(!WHITE.is_black());
    assert!(BLACK.is_black());
    assert!(!BLACK.is_white());
}

#[test]
fn player_index_and_count() {
    assert_eq!(Player::COUNT, 2);
    assert_eq!(Player::White.index(), 0);
    assert_eq!(Player::Black.index(), 1);
}

#[test]
fn castle_direction_constants() {
    assert_eq!(KING_SIDE, CastleDirection::KingSide);
    assert_eq!(QUEEN_SIDE, CastleDirection::QueenSide);
    assert_ne!(KING_SIDE, QUEEN_SIDE);
}

#[test]
fn non_king_piece_type_keeps_its_kind() {
    assert_eq!(NonKingPieceType::Pawn.to_piece_type(), PieceType::Pawn);
    assert_eq!(NonKingPieceType::Knight.to_piece_type(), PieceType::Knight);
    assert_eq!(NonKingPieceType::Bishop.to_piece_type(), PieceType::Bishop);
    assert_eq!(NonKingPieceType::Rook.to_piece_type(), PieceType::Rook);
    assert_eq!(NonKingPieceType::Queen.to_piece_type(), PieceType::Queen);
}

#[test]
fn piece_type_non_king_is_the_way_back() {
    assert_eq!(PieceType::Pawn.non_king(), Some(NonKingPieceType::Pawn));
    assert_eq!(PieceType::Knight.non_king(), Some(NonKingPieceType::Knight));
    assert_eq!(PieceType::Bishop.non_king(), Some(NonKingPieceType::Bishop));
    assert_eq!(PieceType::Rook.non_king(), Some(NonKingPieceType::Rook));
    assert_eq!(PieceType::Queen.non_king(), Some(NonKingPieceType::Queen));
    assert_eq!(PieceType::King.non_king(), None);
}

#[test]
fn piece_type_counts_and_indices() {
    assert_eq!(PieceType::COUNT, 6);
    assert_eq!(NonKingPieceType::COUNT, 5);
    assert_eq!(NonKingPieceType::Pawn.index(), 0);
    assert_eq!(NonKingPieceType::Knight.index(), 1);
    assert_eq!(NonKingPieceType::Bishop.index(), 2);
    assert_eq!(NonKingPieceType::Rook.index(), 3);
    assert_eq!(NonKingPieceType::Queen.index(), 4);
}

#[test]
fn promotion_piece_types_are_four() {
    let kinds = vec![
        PromotionPieceType::Knight,
        PromotionPieceType::Bishop,
        PromotionPieceType::Rook,
        PromotionPieceType::Queen,
    ];
    for (i, a) in kinds.iter().enumerate() {
        for (j, b) in kinds.iter().enumerate() {
            assert_eq!(a == b, i == j);
        }
    }
}

#[test]
fn square_numbers() {
    assert_eq!(Square::COUNT, 64);
    assert_eq!(Square::A1.index(), 0);
    assert_eq!(Square::H1.index(), 7);
    assert_eq!(Square::A2.index(), 8);
    assert_eq!(Square::E4.index(), 28);
    assert_eq!(Square::A8.index(), 56);
    assert_eq!(Square::H8.index(), 63);
}

#[test]
fn square_from_index_is_the_way_back() {
    for i in 0..64 {
        assert_eq!(Square::from_index(i).index(), i);
    }
    assert_eq!(Square::from_index(0), Square::A1);
    assert_eq!(Square::from_index(6), Square::G1);
    assert_eq!(Square::from_index(36), Square::E5);
    assert_eq!(Square::from_index(63), Square::H8);
}

#[test]
fn square_bits() {
    assert_eq!(Square::A1.to_bit(), 0x1);
    assert_eq!(Square::F1.to_bit(), 0x20);
    assert_eq!(Square::G1.to_bit(), 0x40);
    assert_eq!(Square::H1.to_bit(), 0x80);
    assert_eq!(Square::A8.to_bit(), 0x0100_0000_0000_0000);
    assert_eq!(Square::H8.to_bit(), 0x8000_0000_0000_0000);
    let mut all: Bitboard = EMPTY_BITBOARD;
    for i in 0..64 {
        let bit = Square::from_index(i).to_bit();
        assert_eq!(bit.count_ones(), 1);
        assert_eq!(all & bit, EMPTY_BITBOARD);
        all |= bit;
    }
    assert_eq!(all, u64::MAX);
}

#[test]
fn square_files_and_ranks() {
    assert_eq!(Square::A1.file(), 0);
    assert_eq!(Square::A1.rank(), 0);
    assert_eq!(Square::H1.file(), 7);
    assert_eq!(Square::H1.rank(), 0);
    assert_eq!(Square::C5.file(), 2);
    assert_eq!(Square::C5.rank(), 4);
    assert_eq!(Square::H8.file(), 7);
    assert_eq!(Square::H8.rank(), 7);
    for i in 0..64 {
        let square = Square::from_index(i);
        assert_eq!(square.rank() * 8 + square.file(), i);
    }
}

#[test]
fn empty_bitboard_is_zero() {
    assert_eq!(EMPTY_BITBOARD, 0);
}
