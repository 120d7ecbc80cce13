use chess_core::board::Board;
use chess_core::castle_direction::CastleDirection;
use chess_core::fen::{append_placement, append_rank, append_rights};
use chess_core::piece_arrangement::PieceArrangement;
use chess_core::piece_type::NonKingPieceType;
use chess_core::player::Player;
use chess_core::square::Square;

#[test]
fn fen_of_the_start_of_a_game() {
    assert_eq!(
        Board::default().fen(),
        "rnbqkbnr/pppppppp/8/8/8/8/PPPPPPPP/RNBQKBNR w KQkq - 0 1"
    );
}

#[test]
fn fen_after_castle() {
    let board = Board::default()
        .quiet_move(Square::G1, Square::F3)
        .quiet_move(Square::G8, Square::F6)
        .double_pawn_push(Square::E2, Square::E4)
        .double_pawn_push(Square::E7, Square::E5)
        .quiet_move(Square::F1, Square::C4)
        .quiet_move(Square::F8, Square::C5)
        .castle(CastleDirection::KingSide);
    assert_eq!(
        board.fen(),
        "rnbqk2r/pppp1ppp/5n2/2b1p3/2B1P3/5N2/PPPP1PPP/RNBQ1RK1 b kq - 0 1"
    );
}

#[test]
fn fen_writes_each_right_by_its_own_flag() {
    let start = Board::default().quiet_move(Square::G1, Square::F3).switch_sides();
    let white_king_side = start.rook_move(CastleDirection::KingSide, Square::H1, Square::G1);
    assert_eq!(
        white_king_side.fen(),
        "rnbqkbnr/pppppppp/8/8/8/5N2/PPPPPPPP/RNBQKBR1 b Qkq - 0 1"
    );
    let black_queen_side = Board::default()
        .quiet_move(Square::G1, Square::F3)
        .quiet_move(Square::B8, Square::C6)
        .quiet_move(Square::F3, Square::G1)
        .rook_move(CastleDirection::QueenSide, Square::A8, Square::B8);
    assert_eq!(
        black_queen_side.fen(),
        "1rbqkbnr/pppppppp/2n5/8/8/8/PPPPPPPP/RNBQKBNR w KQk - 0 1"
    );
    let black_king_side = Board::default()
        .quiet_move(Square::G1, Square::F3)
        .quiet_move(Square::G8, Square::F6)
        .quiet_move(Square::F3, Square::G1)
        .rook_move(CastleDirection::KingSide, Square::H8, Square::G8);
    assert_eq!(
        black_king_side.fen(),
        "rnbqkbr1/pppppppp/5n2/8/8/8/PPPPPPPP/RNBQKBNR w KQq - 0 1"
    );
}

#[test]
fn fen_writes_a_dash_where_no_right_is_left() {
    let board = Board::default()
        .double_pawn_push(Square::E2, Square::E4)
        .double_pawn_push(Square::E7, Square::E5)
        .king_move(Square::E1, Square::E2)
        .king_move(Square::E8, Square::E7);
    assert_eq!(board.fen(), "rnbq1bnr/ppppkppp/8/4p3/4P3/8/PPPPKPPP/RNBQ1BNR w - - 0 1");
}

#[test]
fn append_rank_counts_the_empty_squares() {
    let pieces = PieceArrangement::new(Square::E1, Square::E8)
        .add_piece(Player::White, NonKingPieceType::Rook, Square::A1)
        .add_piece(Player::Black, NonKingPieceType::Pawn, Square::H3)
        .add_piece(Player::Black, NonKingPieceType::Queen, Square::B5)
        .add_piece(Player::White, NonKingPieceType::Knight, Square::C5)
        .add_piece(Player::White, NonKingPieceType::Bishop, Square::G5);
    let expected = ["R3K3", "8", "7p", "8", "1qN3B1", "8", "8", "4k3"];
    for rank in 0..8 {
        let mut text = String::from("x");
        append_rank(&mut text, &pieces, rank);
        assert_eq!(text, format!("x{}", expected[rank]));
    }
    let mut text = String::from(">");
    append_placement(&mut text, &pieces);
    assert_eq!(text, ">4k3/8/8/1qN3B1/8/7p/8/R3K3");
}

#[test]
fn append_rights_writes_each_set_of_rights() {
    let letters = ['K', 'Q', 'k', 'q'];
    for bits in 0..16u32 {
        let mut status = Board::default().status();
        status.white_king_castle_rights = bits & 1 != 0;
        status.white_queen_castle_rights = bits & 2 != 0;
        status.black_king_castle_rights = bits & 4 != 0;
        status.black_queen_castle_rights = bits & 8 != 0;
        let mut expected = String::from("r:");
        for (i, letter) in letters.iter().enumerate() {
            if bits & (1 << i) != 0 {
                expected.push(*letter);
            }
        }
        if bits == 0 {
            expected.push('-');
        }
        let mut text = String::from("r:");
        append_rights(&mut text, status);
        assert_eq!(text, expected);
    }
}
