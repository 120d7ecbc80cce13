use chess_core::bitboard::EMPTY_BITBOARD;
use chess_core::board_status::BoardStatus;
use chess_core::castle_direction::CastleDirection;
use chess_core::player::Player;

fn start() -> BoardStatus {
    BoardStatus::default()
}

fn rights(status: &BoardStatus) -> [bool; 4] {
    [
        status.white_king_castle_rights,
        status.white_queen_castle_rights,
        status.black_king_castle_rights,
        status.black_queen_castle_rights,
    ]
}

fn all_statuses() -> Vec<BoardStatus> {
    let mut all = Vec::new();
    for bits in 0..64u32 {
        all.push(BoardStatus {
            side_to_move: if bits & 1 == 0 { Player::White } else { Player::Black },
            has_ep_pawn: bits & 2 != 0,
            white_king_castle_rights: bits & 4 != 0,
            white_queen_castle_rights: bits & 8 != 0,
            black_king_castle_rights: bits & 16 != 0,
            black_queen_castle_rights: bits & 32 != 0,
        });
    }
    all
}

fn successors(status: BoardStatus) -> Vec<BoardStatus> {
    vec![
        status.switch_sides(),
        status.quiet_move(),
        status.double_pawn_push(),
        status.king_move(),
        status.rook_move(CastleDirection::KingSide),
        status.rook_move(CastleDirection::QueenSide),
        status.capture_rook(CastleDirection::KingSide),
        status.capture_rook(CastleDirection::QueenSide),
    ]
}

#[test]
fn default_status_is_the_start_of_a_game() {
    let status = start();
    assert_eq!(status.side_to_move, Player::White);
    assert!(!status.has_ep_pawn);
    assert_eq!(rights(&status), [true, true, true, true]);
}

#[test]
fn switch_sides_flips_the_side_only() {
    for status in all_statuses() {
        let next = status.switch_sides();
        assert_eq!(next.side_to_move, status.side_to_move.switch());
        assert_eq!(next.has_ep_pawn, status.has_ep_pawn);
        assert_eq!(rights(&next), rights(&status));
    }
}

#[test]
fn quiet_move_flips_the_side_and_clears_the_double_step() {
    for status in all_statuses() {
        let next = status.quiet_move();
        assert_eq!(next.side_to_move, status.side_to_move.switch());
        assert!(!next.has_ep_pawn);
        assert_eq!(rights(&next), rights(&status));
    }
}

#[test]
fn double_pawn_push_flips_the_side_and_sets_the_double_step() {
    for status in all_statuses() {
        let next = status.double_pawn_push();
        assert_eq!(next.side_to_move, status.side_to_move.switch());
        assert!(next.has_ep_pawn);
        assert_eq!(rights(&next), rights(&status));
    }
}

#[test]
fn king_move_revokes_both_rights_of_the_mover() {
    let white_moved = start().king_move();
    assert_eq!(white_moved.side_to_move, Player::Black);
    assert!(!white_moved.has_ep_pawn);
    assert_eq!(rights(&white_moved), [false, false, true, true]);
    let black_moved = start().switch_sides().double_pawn_push().switch_sides().king_move();
    assert_eq!(black_moved.side_to_move, Player::White);
    assert!(!black_moved.has_ep_pawn);
    assert_eq!(rights(&black_moved), [true, true, false, false]);
}

#[test]
fn rook_move_revokes_one_right_of_the_mover() {
    let white = start();
    let black = start().switch_sides();
    assert_eq!(
        rights(&white.rook_move(CastleDirection::KingSide)),
        [false, true, true, true]
    );
    assert_eq!(
        rights(&white.rook_move(CastleDirection::QueenSide)),
        [true, false, true, true]
    );
    assert_eq!(
        rights(&black.rook_move(CastleDirection::KingSide)),
        [true, true, false, true]
    );
    assert_eq!(
        rights(&black.rook_move(CastleDirection::QueenSide)),
        [true, true, true, false]
    );
    let next = white.double_pawn_push().switch_sides().rook_move(CastleDirection::KingSide);
    assert_eq!(next.side_to_move, Player::Black);
    assert!(!next.has_ep_pawn);
}

#[test]
fn capture_rook_revokes_one_right_of_the_other_side() {
    let white = start();
    let black = start().switch_sides();
    assert_eq!(
        rights(&white.capture_rook(CastleDirection::KingSide)),
        [true, true, false, true]
    );
    assert_eq!(
        rights(&white.capture_rook(CastleDirection::QueenSide)),
        [true, true, true, false]
    );
    assert_eq!(
        rights(&black.capture_rook(CastleDirection::KingSide)),
        [false, true, true, true]
    );
    assert_eq!(
        rights(&black.capture_rook(CastleDirection::QueenSide)),
        [true, false, true, true]
    );
    let next = black.double_pawn_push().switch_sides().capture_rook(CastleDirection::QueenSide);
    assert_eq!(next.side_to_move, Player::White);
    assert!(!next.has_ep_pawn);
}

#[test]
fn no_change_gives_a_right_back() {
    for status in all_statuses() {
        for next in successors(status) {
            let before = rights(&status);
            let after = rights(&next);
            for i in 0..4 {
                assert!(!after[i] || before[i]);
            }
        }
    }
}

#[test]
fn rights_only_go_over_a_run_of_changes() {
    let mut status = start();
    let mut seen = vec![rights(&status)];
    let mut seed: u32 = 12345;
    for _ in 0..200 {
        seed = seed.wrapping_mul(1103515245).wrapping_add(12345);
        let choice = ((seed >> 16) % 8) as usize;
        status = successors(status)[choice];
        seen.push(rights(&status));
    }
    for i in 0..seen.len() {
        for j in i..seen.len() {
            for k in 0..4 {
                assert!(!seen[j][k] || seen[i][k]);
            }
        }
    }
}

#[test]
fn can_castle_is_refused_without_the_right_whatever_the_squares() {
    let masks = [EMPTY_BITBOARD, 0x81, 0xFF91, u64::MAX, 0x8100_0000_0000_0000];
    for status in all_statuses() {
        for direction in [CastleDirection::KingSide, CastleDirection::QueenSide] {
            let right = match (status.side_to_move, direction) {
                (Player::White, CastleDirection::KingSide) => status.white_king_castle_rights,
                (Player::White, CastleDirection::QueenSide) => status.white_queen_castle_rights,
                (Player::Black, CastleDirection::KingSide) => status.black_king_castle_rights,
                (Player::Black, CastleDirection::QueenSide) => status.black_queen_castle_rights,
            };
            if right {
                continue;
            }
            for attacked in masks {
                for occupied in masks {
                    for rooks in masks {
                        assert!(!status.can_castle(direction, attacked, occupied, rooks));
                    }
                }
            }
        }
    }
}

#[test]
fn can_castle_is_refused_for_each_square_that_must_be_empty() {
    let white = start();
    let black = start().switch_sides();
    let rooks = 0x8100_0000_0000_0081;
    let cases = [
        (white, CastleDirection::KingSide, vec![5, 6]),
        (white, CastleDirection::QueenSide, vec![1, 2, 3]),
        (black, CastleDirection::KingSide, vec![61, 62]),
        (black, CastleDirection::QueenSide, vec![57, 58, 59]),
    ];
    for (status, direction, between) in cases {
        assert!(status.can_castle(direction, EMPTY_BITBOARD, rooks, rooks));
        for i in 0..64 {
            let occupied = rooks | (1u64 << i);
            let expected = !between.contains(&i);
            assert_eq!(
                status.can_castle(direction, EMPTY_BITBOARD, occupied, rooks),
                expected
            );
        }
    }
}

#[test]
fn can_castle_is_refused_for_each_attacked_square_of_the_path() {
    let white = start();
    let black = start().switch_sides();
    let rooks = 0x8100_0000_0000_0081;
    let cases = [
        (white, CastleDirection::KingSide, vec![5, 6]),
        (white, CastleDirection::QueenSide, vec![2, 3]),
        (black, CastleDirection::KingSide, vec![61, 62]),
        (black, CastleDirection::QueenSide, vec![58, 59]),
    ];
    for (status, direction, path) in cases {
        for i in 0..64 {
            let attacked = 1u64 << i;
            let expected = !path.contains(&i);
            assert_eq!(status.can_castle(direction, attacked, rooks, rooks), expected);
        }
    }
}

#[test]
fn can_castle_is_refused_without_the_rook_at_home() {
    let white = start();
    let black = start().switch_sides();
    assert!(!white.can_castle(CastleDirection::KingSide, 0, 0, 0x8100_0000_0000_0001));
    assert!(!white.can_castle(CastleDirection::QueenSide, 0, 0, 0x8100_0000_0000_0080));
    assert!(!black.can_castle(CastleDirection::KingSide, 0, 0, 0x0100_0000_0000_0081));
    assert!(!black.can_castle(CastleDirection::QueenSide, 0, 0, 0x8000_0000_0000_0081));
    assert!(white.can_castle(CastleDirection::KingSide, 0, 0, 0x80));
    assert!(white.can_castle(CastleDirection::QueenSide, 0, 0, 0x1));
    assert!(black.can_castle(CastleDirection::KingSide, 0, 0, 0x8000_0000_0000_0000));
    assert!(black.can_castle(CastleDirection::QueenSide, 0, 0, 0x0100_0000_0000_0000));
}
