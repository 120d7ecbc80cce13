use chess_core::bitboard::{Bitboard, EMPTY_BITBOARD};
use chess_core::board_status::BoardStatus;
use chess_core::castle_direction::CastleDirection;
use chess_core::player::{BLACK, WHITE};

const ALL_RIGHTS_WHITE_TO_MOVE: BoardStatus = BoardStatus {
    side_to_move: WHITE,
    has_ep_pawn: false,
    white_king_castle_rights: true,
    white_queen_castle_rights: true,
    black_king_castle_rights: true,
    black_queen_castle_rights: true,
};
const WHITE_MISSING_KING_WHITE_TO_MOVE: BoardStatus = BoardStatus {
    white_king_castle_rights: false,
    ..ALL_RIGHTS_WHITE_TO_MOVE
};
const WHITE_MISSING_QUEEN_WHITE_TO_MOVE: BoardStatus = BoardStatus {
    white_queen_castle_rights: false,
    ..ALL_RIGHTS_WHITE_TO_MOVE
};
const WHITE_MISSING_BOTH_WHITE_TO_MOVE: BoardStatus = BoardStatus {
    white_king_castle_rights: false,
    white_queen_castle_rights: false,
    ..ALL_RIGHTS_WHITE_TO_MOVE
};
const ALL_RIGHTS_BLACK_TO_MOVE: BoardStatus = BoardStatus {
    side_to_move: BLACK,
    ..ALL_RIGHTS_WHITE_TO_MOVE
};
const BLACK_MISSING_KING_BLACK_TO_MOVE: BoardStatus = BoardStatus {
    black_king_castle_rights: false,
    ..ALL_RIGHTS_BLACK_TO_MOVE
};
const BLACK_MISSING_QUEEN_BLACK_TO_MOVE: BoardStatus = BoardStatus {
    black_queen_castle_rights: false,
    ..ALL_RIGHTS_BLACK_TO_MOVE
};
const BLACK_MISSING_BOTH_BLACK_TO_MOVE: BoardStatus = BoardStatus {
    black_king_castle_rights: false,
    black_queen_castle_rights: false,
    ..ALL_RIGHTS_BLACK_TO_MOVE
};

fn can_castle_scenario(
    board_status: BoardStatus,
    castle_direction: CastleDirection,
    attacked: Bitboard,
    occupied: Bitboard,
    rooks: Bitboard,
    expected: bool,
) {
    let actual = board_status.can_castle(castle_direction, attacked, occupied, rooks);
    assert_eq!(
        actual, expected,
        "attacked = {attacked:X} occupied = {occupied:X} rooks = {rooks:X} {board_status:?}"
    );
}

#[test]
fn white_to_move_with_rights_and_unobstructed_unattacked_king_side() {
    can_castle_scenario(
        ALL_RIGHTS_WHITE_TO_MOVE,
        CastleDirection::KingSide,
        EMPTY_BITBOARD,
        0xFF91,
        0x81,
        true,
    );
}

#[test]
fn white_to_move_with_rights_and_unobstructed_unattacked_queen_side() {
    can_castle_scenario(
        ALL_RIGHTS_WHITE_TO_MOVE,
        CastleDirection::QueenSide,
        EMPTY_BITBOARD,
        0xFF91,
        0x81,
        true,
    );
}

#[test]
fn white_to_move_without_king_rights_and_unobstructed_unattacked_king_side() {
    can_castle_scenario(
        WHITE_MISSING_KING_WHITE_TO_MOVE,
        CastleDirection::KingSide,
        EMPTY_BITBOARD,
        0xFF51,
        0x41,
        false,
    );
}

#[test]
fn white_to_move_without_king_rights_and_unobstructed_unattacked_queen_side() {
    can_castle_scenario(
        WHITE_MISSING_KING_WHITE_TO_MOVE,
        CastleDirection::QueenSide,
        EMPTY_BITBOARD,
        0xFF51,
        0x41,
        true,
    );
}

#[test]
fn white_to_move_without_queen_rights_and_unobstructed_unattacked_king_side() {
    can_castle_scenario(
        WHITE_MISSING_QUEEN_WHITE_TO_MOVE,
        CastleDirection::KingSide,
        EMPTY_BITBOARD,
        0xFF92,
        0x82,
        true,
    );
}

#[test]
fn white_to_move_without_queen_rights_and_unobstructed_unattacked_queen_side() {
    can_castle_scenario(
        WHITE_MISSING_QUEEN_WHITE_TO_MOVE,
        CastleDirection::QueenSide,
        EMPTY_BITBOARD,
        0xFF92,
        0x82,
        false,
    );
}

#[test]
fn white_to_move_without_rights_and_unobstructed_unattacked_king_side() {
    can_castle_scenario(
        WHITE_MISSING_BOTH_WHITE_TO_MOVE,
        CastleDirection::KingSide,
        EMPTY_BITBOARD,
        0xFF52,
        0x42,
        false,
    );
}

#[test]
fn white_to_move_without_rights_and_unobstructed_unattacked_queen_side() {
    can_castle_scenario(
        WHITE_MISSING_BOTH_WHITE_TO_MOVE,
        CastleDirection::QueenSide,
        EMPTY_BITBOARD,
        0xFF52,
        0x42,
        false,
    );
}

#[test]
fn black_to_move_with_rights_and_unobstructed_unattacked_king_side() {
    can_castle_scenario(
        ALL_RIGHTS_BLACK_TO_MOVE,
        CastleDirection::KingSide,
        EMPTY_BITBOARD,
        0x91FF000000000000,
        0x8100000000000000,
        true,
    );
}

#[test]
fn black_to_move_with_rights_and_unobstructed_unattacked_queen_side() {
    can_castle_scenario(
        ALL_RIGHTS_BLACK_TO_MOVE,
        CastleDirection::QueenSide,
        EMPTY_BITBOARD,
        0x91FF000000000000,
        0x8100000000000000,
        true,
    );
}

#[test]
fn black_to_move_without_king_rights_and_unobstructed_unattacked_king_side() {
    can_castle_scenario(
        BLACK_MISSING_KING_BLACK_TO_MOVE,
        CastleDirection::KingSide,
        EMPTY_BITBOARD,
        0x51ff000000000000,
        0x4100000000000000,
        false,
    );
}

#[test]
fn black_to_move_without_king_rights_and_unobstructed_unattacked_queen_side() {
    can_castle_scenario(
        BLACK_MISSING_KING_BLACK_TO_MOVE,
        CastleDirection::QueenSide,
        EMPTY_BITBOARD,
        0x51ff000000000000,
        0x4100000000000000,
        true,
    );
}

#[test]
fn black_to_move_without_queen_rights_and_unobstructed_unattacked_king_side() {
    can_castle_scenario(
        BLACK_MISSING_QUEEN_BLACK_TO_MOVE,
        CastleDirection::KingSide,
        EMPTY_BITBOARD,
        0x92ff000000000000,
        0x8200000000000000,
        true,
    );
}

#[test]
fn black_to_move_without_queen_rights_and_unobstructed_unattacked_queen_side() {
    can_castle_scenario(
        BLACK_MISSING_QUEEN_BLACK_TO_MOVE,
        CastleDirection::QueenSide,
        EMPTY_BITBOARD,
        0x92ff000000000000,
        0x8200000000000000,
        false,
    );
}

#[test]
fn black_to_move_without_rights_and_unobstructed_unattacked_king_side() {
    can_castle_scenario(
        BLACK_MISSING_BOTH_BLACK_TO_MOVE,
        CastleDirection::KingSide,
        EMPTY_BITBOARD,
        0x52ff000000000000,
        0x4200000000000000,
        false,
    );
}

#[test]
fn black_to_move_without_rights_and_unobstructed_unattacked_queen_side() {
    can_castle_scenario(
        BLACK_MISSING_BOTH_BLACK_TO_MOVE,
        CastleDirection::QueenSide,
        EMPTY_BITBOARD,
        0x52ff000000000000,
        0x4200000000000000,
        false,
    );
}

#[test]
fn white_to_move_with_rights_and_obstructed_unattacked_king_side() {
    can_castle_scenario(
        ALL_RIGHTS_WHITE_TO_MOVE,
        CastleDirection::KingSide,
        EMPTY_BITBOARD,
        0xB1,
        0x81,
        false,
    );
}

#[test]
fn white_to_move_with_rights_and_obstructed_unattacked_queen_side() {
    can_castle_scenario(
        ALL_RIGHTS_WHITE_TO_MOVE,
        CastleDirection::QueenSide,
        EMPTY_BITBOARD,
        0x99,
        0x81,
        false,
    );
}

#[test]
fn black_to_move_with_rights_and_obstructed_unattacked_king_side() {
    can_castle_scenario(
        ALL_RIGHTS_BLACK_TO_MOVE,
        CastleDirection::KingSide,
        EMPTY_BITBOARD,
        0xb100000000000000,
        0x8100000000000000,
        false,
    );
}

#[test]
fn black_to_move_with_rights_and_obstructed_unattacked_queen_side() {
    can_castle_scenario(
        ALL_RIGHTS_BLACK_TO_MOVE,
        CastleDirection::QueenSide,
        EMPTY_BITBOARD,
        0x9900000000000000,
        0x8100000000000000,
        false,
    );
}

#[test]
fn white_to_move_with_rights_and_unobstructed_attacked_king_side() {
    can_castle_scenario(
        ALL_RIGHTS_WHITE_TO_MOVE,
        CastleDirection::KingSide,
        0x80412214001422,
        0x80091,
        0x81,
        false,
    );
}

#[test]
fn white_to_move_with_rights_and_unobstructed_attacked_queen_side() {
    can_castle_scenario(
        ALL_RIGHTS_WHITE_TO_MOVE,
        CastleDirection::QueenSide,
        0x404040404bb0404,
        0x40091,
        0x81,
        false,
    );
}

#[test]
fn black_to_move_with_rights_and_unobstructed_attacked_king_side() {
    can_castle_scenario(
        ALL_RIGHTS_BLACK_TO_MOVE,
        CastleDirection::KingSide,
        0x4428002844820100,
        0x9100100000000000,
        0x8100000000000000,
        false,
    );
}

#[test]
fn black_to_move_with_rights_and_unobstructed_attacked_queen_side() {
    can_castle_scenario(
        ALL_RIGHTS_BLACK_TO_MOVE,
        CastleDirection::QueenSide,
        0x4428002844820100,
        0x9100100000000000,
        0x8100000000000000,
        false,
    );
}

#[test]
fn white_to_move_with_black_missing_king_rights_unobstructed_unattacked_king_side() {
    can_castle_scenario(
        BLACK_MISSING_BOTH_BLACK_TO_MOVE.switch_sides(),
        CastleDirection::KingSide,
        EMPTY_BITBOARD,
        0xff91,
        0x81,
        true,
    );
}

#[test]
fn black_to_move_with_white_missing_king_rights_unobstructed_unattacked_king_side() {
    can_castle_scenario(
        WHITE_MISSING_BOTH_WHITE_TO_MOVE.switch_sides(),
        CastleDirection::KingSide,
        EMPTY_BITBOARD,
        0x91FF000000000000,
        0x8100000000000000,
        true,
    );
}

#[test]
fn white_to_move_with_black_missing_king_rights_unobstructed_unattacked_queen_side() {
    can_castle_scenario(
        BLACK_MISSING_BOTH_BLACK_TO_MOVE.switch_sides(),
        CastleDirection::QueenSide,
        EMPTY_BITBOARD,
        0xff91,
        0x81,
        true,
    );
}

#[test]
fn black_to_move_with_white_missing_king_rights_unobstructed_unattacked_queen_side() {
    can_castle_scenario(
        WHITE_MISSING_BOTH_WHITE_TO_MOVE.switch_sides(),
        CastleDirection::QueenSide,
        EMPTY_BITBOARD,
        0x91FF000000000000,
        0x8100000000000000,
        true,
    );
}
