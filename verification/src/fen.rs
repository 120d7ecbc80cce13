use vstd::prelude::*;
use crate::board_status::BoardStatus;
use crate::piece_arrangement::PieceArrangement;
use crate::piece_type::PieceType;
use crate::player::Player;
use crate::square::Square;

verus! {

/// The letter of a piece: upper case for White, lower case for Black.
pub open spec fn piece_char(player: Player, kind: PieceType) -> char {
    match (kind, player) {
        (PieceType::Pawn, Player::Black) => 'p',
        (PieceType::Knight, Player::Black) => 'n',
        (PieceType::Bishop, Player::Black) => 'b',
        (PieceType::Rook, Player::Black) => 'r',
        (PieceType::Queen, Player::Black) => 'q',
        (PieceType::King, Player::Black) => 'k',
        (PieceType::Pawn, Player::White) => 'P',
        (PieceType::Knight, Player::White) => 'N',
        (PieceType::Bishop, Player::White) => 'B',
        (PieceType::Rook, Player::White) => 'R',
        (PieceType::Queen, Player::White) => 'Q',
        (PieceType::King, Player::White) => 'K',
    }
}

/// The digit for a run of empty squares; a run in a rank has 1 to 8 squares.
pub open spec fn digit_char(count: int) -> char {
    if count == 1 {
        '1'
    } else if count == 2 {
        '2'
    } else if count == 3 {
        '3'
    } else if count == 4 {
        '4'
    } else if count == 5 {
        '5'
    } else if count == 6 {
        '6'
    } else if count == 7 {
        '7'
    } else {
        '8'
    }
}

/// What is written for a run of empty squares that has ended: its digit, or
/// nothing where the run has no square.
pub open spec fn gap_text(gap: int) -> Seq<char> {
    if gap > 0 {
        seq![digit_char(gap)]
    } else {
        Seq::empty()
    }
}

/// The text of a rank from one file on to file h, where the `gap` empty
/// squares just before that file are not yet written: a letter for each
/// piece, and for each longest run of empty squares the digit of its length.
pub open spec fn rank_text_from(
    pieces: Map<Square, (Player, PieceType)>,
    rank: int,
    file: int,
    gap: int,
) -> Seq<char>
    decreases 8 - file,
{
    if file >= 8 {
        gap_text(gap)
    } else {
        let square = Square::spec_from_index(rank * 8 + file);
        if pieces.contains_key(square) {
            gap_text(gap) + seq![piece_char(pieces[square].0, pieces[square].1)] + rank_text_from(
                pieces,
                rank,
                file + 1,
                0,
            )
        } else {
            rank_text_from(pieces, rank, file + 1, gap + 1)
        }
    }
}

/// The text of a rank, from file a to file h.
pub open spec fn rank_text(pieces: Map<Square, (Player, PieceType)>, rank: int) -> Seq<char> {
    rank_text_from(pieces, rank, 0, 0)
}

/// The text of the ranks from the given one down to the first, with a stroke
/// between two ranks.
pub open spec fn placement_text_from(pieces: Map<Square, (Player, PieceType)>, rank: int) -> Seq<
    char,
>
    decreases rank + 1,
{
    if rank < 0 {
        Seq::empty()
    } else if rank == 0 {
        rank_text(pieces, 0)
    } else {
        rank_text(pieces, rank) + seq!['/'] + placement_text_from(pieces, rank - 1)
    }
}

/// The text of the pieces on the board: the ranks from the eighth down to the
/// first.
pub open spec fn placement_text(pieces: Map<Square, (Player, PieceType)>) -> Seq<char> {
    placement_text_from(pieces, 7)
}

/// The letter of the side to move.
pub open spec fn side_char(player: Player) -> char {
    match player {
        Player::White => 'w',
        Player::Black => 'b',
    }
}

/// The text of the castling rights: a letter for each right that is left, in
/// the order `KQkq`, or a dash where none is left.
pub open spec fn rights_text(status: BoardStatus) -> Seq<char> {
    if !status.white_king_castle_rights && !status.white_queen_castle_rights
        && !status.black_king_castle_rights && !status.black_queen_castle_rights {
        seq!['-']
    } else {
        (if status.white_king_castle_rights {
            seq!['K']
        } else {
            Seq::empty()
        }) + (if status.white_queen_castle_rights {
            seq!['Q']
        } else {
            Seq::empty()
        }) + (if status.black_king_castle_rights {
            seq!['k']
        } else {
            Seq::empty()
        }) + (if status.black_queen_castle_rights {
            seq!['q']
        } else {
            Seq::empty()
        })
    }
}

/// The text of a position in which no pawn has just made a double step: the
/// pieces, the side to move, the castling rights, a dash for the square that
/// a pawn has passed over, and the two move counts, which are not kept and
/// are written as 0 and 1.
pub open spec fn fen_text(pieces: Map<Square, (Player, PieceType)>, status: BoardStatus) -> Seq<
    char,
> {
    placement_text(pieces) + seq![' ', side_char(status.side_to_move), ' '] + rights_text(status)
        + seq![' ', '-', ' ', '0', ' ', '1']
}

/// The letter of a piece, as text.
fn piece_str(player: Player, kind: PieceType) -> (r: &'static str)
    ensures
        r@ == seq![piece_char(player, kind)],
{
    proof {
        reveal_strlit("p");
        reveal_strlit("n");
        reveal_strlit("b");
        reveal_strlit("r");
        reveal_strlit("q");
        reveal_strlit("k");
        reveal_strlit("P");
        reveal_strlit("N");
        reveal_strlit("B");
        reveal_strlit("R");
        reveal_strlit("Q");
        reveal_strlit("K");
    }
    let r = match (kind, player) {
        (PieceType::Pawn, Player::Black) => "p",
        (PieceType::Knight, Player::Black) => "n",
        (PieceType::Bishop, Player::Black) => "b",
        (PieceType::Rook, Player::Black) => "r",
        (PieceType::Queen, Player::Black) => "q",
        (PieceType::King, Player::Black) => "k",
        (PieceType::Pawn, Player::White) => "P",
        (PieceType::Knight, Player::White) => "N",
        (PieceType::Bishop, Player::White) => "B",
        (PieceType::Rook, Player::White) => "R",
        (PieceType::Queen, Player::White) => "Q",
        (PieceType::King, Player::White) => "K",
    };
    assert(r@ =~= seq![piece_char(player, kind)]);
    r
}

/// What is written for a run of empty squares that has ended, as text.
fn gap_str(gap: usize) -> (r: &'static str)
    requires
        gap <= 8,
    ensures
        r@ == gap_text(gap as int),
{
    proof {
        reveal_strlit("");
        reveal_strlit("1");
        reveal_strlit("2");
        reveal_strlit("3");
        reveal_strlit("4");
        reveal_strlit("5");
        reveal_strlit("6");
        reveal_strlit("7");
        reveal_strlit("8");
    }
    let r = match gap {
        0 => "",
        1 => "1",
        2 => "2",
        3 => "3",
        4 => "4",
        5 => "5",
        6 => "6",
        7 => "7",
        _ => "8",
    };
    assert(r@ =~= gap_text(gap as int));
    r
}

/// Writes a rank at the end of the text.
pub fn append_rank(text: &mut String, pieces: &PieceArrangement, rank: usize)
    requires
        rank < 8,
    ensures
        final(text)@ == old(text)@ + rank_text(pieces@, rank as int),
{
    let ghost start = text@;
    let mut gap: usize = 0;
    let mut file: usize = 0;
    while file < 8
        invariant
            rank < 8,
            file <= 8,
            gap <= file,
            text@ + rank_text_from(pieces@, rank as int, file as int, gap as int) == start
                + rank_text(pieces@, rank as int),
        decreases 8 - file,
    {
        let square = Square::from_index(rank * 8 + file);
        let ghost before = text@;
        let ghost rest = rank_text_from(pieces@, rank as int, file as int + 1, 0);
        match pieces.piece_type_on(square) {
            Some(kind) => {
                let player = match pieces.player_on(square) {
                    Some(player) => player,
                    None => Player::White,
                };
                text.append(gap_str(gap));
                text.append(piece_str(player, kind));
                assert(text@ + rest =~= before + (gap_text(gap as int) + seq![
                    piece_char(player, kind),
                ] + rest));
                gap = 0;
            },
            None => {
                gap += 1;
            },
        }
        file += 1;
    }
    text.append(gap_str(gap));
}

/// Writes the pieces on the board at the end of the text: the ranks from the
/// eighth down to the first, with a stroke between two ranks.
pub fn append_placement(text: &mut String, pieces: &PieceArrangement)
    ensures
        final(text)@ == old(text)@ + placement_text(pieces@),
{
    let ghost start = text@;
    let mut rank: usize = 8;
    while rank > 0
        invariant
            rank <= 8,
            text@ + placement_text_from(pieces@, rank as int - 1) == start + placement_text(
                pieces@,
            ),
        decreases rank,
    {
        rank -= 1;
        let ghost before = text@;
        let ghost rest = placement_text_from(pieces@, rank as int - 1);
        append_rank(text, pieces, rank);
        if rank > 0 {
            text.append("/");
            proof {
                reveal_strlit("/");
            }
            assert(text@ + rest =~= before + (rank_text(pieces@, rank as int) + seq!['/']
                + rest));
        } else {
            assert(text@ + rest =~= before + rank_text(pieces@, 0));
        }
    }
    assert(text@ =~= start + placement_text(pieces@));
}

/// Writes the castling rights at the end of the text.
pub fn append_rights(text: &mut String, status: BoardStatus)
    ensures
        final(text)@ == old(text)@ + rights_text(status),
{
    let ghost start = text@;
    proof {
        reveal_strlit("K");
        reveal_strlit("Q");
        reveal_strlit("k");
        reveal_strlit("q");
        reveal_strlit("-");
    }
    if status.white_king_castle_rights {
        text.append("K");
    }
    if status.white_queen_castle_rights {
        text.append("Q");
    }
    if status.black_king_castle_rights {
        text.append("k");
    }
    if status.black_queen_castle_rights {
        text.append("q");
    }
    if !status.white_king_castle_rights && !status.white_queen_castle_rights
        && !status.black_king_castle_rights && !status.black_queen_castle_rights {
        text.append("-");
    }
    assert(text@ =~= start + rights_text(status));
}

} // verus!
