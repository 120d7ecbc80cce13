use vstd::prelude::*;
use crate::bitboard::{contains, lemma_bitboard_algebra, Bitboard, EMPTY_BITBOARD};
use crate::piece_arrangement::PieceArrangement;
use crate::piece_type::PieceType;
use crate::player::Player;
use crate::square::Square;

verus! {

/// Whether a file and a rank are those of a square of the board.
pub open spec fn on_board(file: int, rank: int) -> bool {
    0 <= file < 8 && 0 <= rank < 8
}

/// The square of a file and a rank of the board.
pub open spec fn square_at(file: int, rank: int) -> Square {
    Square::spec_from_index(rank * 8 + file)
}

/// Whether one step of `df` files and `dr` ranks leads from `from` to
/// `target`.
pub open spec fn step_hits(from: Square, df: int, dr: int, target: Square) -> bool {
    let file = from.spec_file() + df;
    let rank = from.spec_rank() + dr;
    on_board(file, rank) && target == square_at(file, rank)
}

/// Whether a walk of at most `reach` steps of `df` files and `dr` ranks each,
/// which starts beside the square of `file` and `rank` and ends on the first
/// occupied square or at the edge of the board, comes to `target`.
pub open spec fn ray_hits(
    pieces: Map<Square, (Player, PieceType)>,
    file: int,
    rank: int,
    df: int,
    dr: int,
    target: Square,
    reach: nat,
) -> bool
    decreases reach,
{
    let next_file = file + df;
    let next_rank = rank + dr;
    if reach == 0 || !on_board(next_file, next_rank) {
        false
    } else {
        let next = square_at(next_file, next_rank);
        target == next || (!pieces.contains_key(next) && ray_hits(
            pieces,
            next_file,
            next_rank,
            df,
            dr,
            target,
            (reach - 1) as nat,
        ))
    }
}

/// Whether a line of `df` files and `dr` ranks a step leads from `from` to
/// `target` with no piece between them. No line on the board has more than
/// seven steps.
pub open spec fn line_hits(
    pieces: Map<Square, (Player, PieceType)>,
    from: Square,
    df: int,
    dr: int,
    target: Square,
) -> bool {
    ray_hits(pieces, from.spec_file(), from.spec_rank(), df, dr, target, 7)
}

/// The file or rank to which `count` steps lead from `start`, where a step is
/// one forward, one back or none.
pub open spec fn along(start: int, step: int, count: int) -> int {
    if step > 0 {
        start + count
    } else if step < 0 {
        start - count
    } else {
        start
    }
}

/// Whether `target` is the square `count` steps of `df` files and `dr` ranks
/// away from the square of `file` and `rank`, with no piece on the squares
/// that the steps before the last lead to.
pub open spec fn reaches_in(
    pieces: Map<Square, (Player, PieceType)>,
    file: int,
    rank: int,
    df: int,
    dr: int,
    target: Square,
    count: int,
) -> bool {
    &&& on_board(along(file, df, count), along(rank, dr, count))
    &&& target == square_at(along(file, df, count), along(rank, dr, count))
    &&& forall|before: int|
        1 <= before < count ==> !pieces.contains_key(
            square_at(#[trigger] along(file, df, before), along(rank, dr, before)),
        )
}

/// A walk comes to `target` just where `target` lies some steps away in the
/// direction of the walk, no more than the walk may take, with none but empty
/// squares between.
pub proof fn lemma_ray_hits(
    pieces: Map<Square, (Player, PieceType)>,
    file: int,
    rank: int,
    df: int,
    dr: int,
    target: Square,
    reach: nat,
)
    requires
        on_board(file, rank),
        -1 <= df <= 1,
        -1 <= dr <= 1,
        df != 0 || dr != 0,
    ensures
        ray_hits(pieces, file, rank, df, dr, target, reach) <==> exists|count: int|
            1 <= count <= reach && #[trigger] reaches_in(
                pieces,
                file,
                rank,
                df,
                dr,
                target,
                count,
            ),
    decreases reach,
{
    let next_file = file + df;
    let next_rank = rank + dr;
    if reach > 0 && on_board(next_file, next_rank) {
        let next = square_at(next_file, next_rank);
        let less = (reach - 1) as nat;
        lemma_ray_hits(pieces, next_file, next_rank, df, dr, target, less);
        assert forall|count: int| #![trigger along(next_file, df, count)]
            along(next_file, df, count) == along(file, df, count + 1) && along(
                next_rank,
                dr,
                count,
            ) == along(rank, dr, count + 1) by {}
        assert(along(file, df, 1) == next_file && along(rank, dr, 1) == next_rank);
        if ray_hits(pieces, file, rank, df, dr, target, reach) {
            if target == next {
                assert(reaches_in(pieces, file, rank, df, dr, target, 1));
            } else {
                let count = choose|count: int|
                    1 <= count <= less && #[trigger] reaches_in(
                        pieces,
                        next_file,
                        next_rank,
                        df,
                        dr,
                        target,
                        count,
                    );
                assert forall|before: int| 1 <= before < count + 1 implies !pieces.contains_key(
                    square_at(#[trigger] along(file, df, before), along(rank, dr, before)),
                ) by {
                    if before > 1 {
                        assert(along(next_file, df, before - 1) == along(file, df, before));
                        assert(along(next_rank, dr, before - 1) == along(rank, dr, before));
                    }
                }
                assert(reaches_in(pieces, file, rank, df, dr, target, count + 1));
            }
        }
        if exists|count: int|
            1 <= count <= reach && #[trigger] reaches_in(
                pieces,
                file,
                rank,
                df,
                dr,
                target,
                count,
            ) {
            let count = choose|count: int|
                1 <= count <= reach && #[trigger] reaches_in(
                    pieces,
                    file,
                    rank,
                    df,
                    dr,
                    target,
                    count,
                );
            if count > 1 {
                assert(along(file, df, 1) == next_file);
                assert(!pieces.contains_key(next));
                assert forall|before: int| 1 <= before < count - 1 implies !pieces.contains_key(
                    square_at(
                        #[trigger] along(next_file, df, before),
                        along(next_rank, dr, before),
                    ),
                ) by {
                    assert(along(file, df, before + 1) == along(next_file, df, before));
                    assert(along(rank, dr, before + 1) == along(next_rank, dr, before));
                }
                assert(along(next_file, df, count - 1) == along(file, df, count));
                assert(along(next_rank, dr, count - 1) == along(rank, dr, count));
                assert(reaches_in(pieces, next_file, next_rank, df, dr, target, count - 1));
            }
        }
    } else {
        assert forall|count: int| 1 <= count <= reach implies !#[trigger] reaches_in(
            pieces,
            file,
            rank,
            df,
            dr,
            target,
            count,
        ) by {}
    }
}

/// A line leads from `from` to `target` just where `target` lies some steps
/// away along it, with none but empty squares between: the seven steps of a
/// walk are no bound on the board.
pub proof fn lemma_line_hits(
    pieces: Map<Square, (Player, PieceType)>,
    from: Square,
    df: int,
    dr: int,
    target: Square,
)
    requires
        -1 <= df <= 1,
        -1 <= dr <= 1,
        df != 0 || dr != 0,
    ensures
        line_hits(pieces, from, df, dr, target) <==> exists|count: int|
            1 <= count && #[trigger] reaches_in(
                pieces,
                from.spec_file(),
                from.spec_rank(),
                df,
                dr,
                target,
                count,
            ),
{
    let file = from.spec_file();
    let rank = from.spec_rank();
    from.lemma_from_index_of_index();
    lemma_ray_hits(pieces, file, rank, df, dr, target, 7);
    if exists|count: int|
        1 <= count && #[trigger] reaches_in(pieces, file, rank, df, dr, target, count) {
        let count = choose|count: int|
            1 <= count && #[trigger] reaches_in(pieces, file, rank, df, dr, target, count);
        assert(count <= 7);
    }
}

/// Whether a pawn of the side on `from` attacks `target`: the two squares
/// one step forward to either side.
pub open spec fn pawn_hits(by: Player, from: Square, target: Square) -> bool {
    let forward: int = if by == Player::White {
        1
    } else {
        -1
    };
    step_hits(from, -1, forward, target) || step_hits(from, 1, forward, target)
}

/// Whether a knight on `from` attacks `target`.
pub open spec fn knight_hits(from: Square, target: Square) -> bool {
    ||| step_hits(from, 1, 2, target)
    ||| step_hits(from, 2, 1, target)
    ||| step_hits(from, 2, -1, target)
    ||| step_hits(from, 1, -2, target)
    ||| step_hits(from, -1, -2, target)
    ||| step_hits(from, -2, -1, target)
    ||| step_hits(from, -2, 1, target)
    ||| step_hits(from, -1, 2, target)
}

/// Whether a king on `from` attacks `target`: the squares beside its own.
pub open spec fn king_hits(from: Square, target: Square) -> bool {
    ||| step_hits(from, 0, 1, target)
    ||| step_hits(from, 1, 1, target)
    ||| step_hits(from, 1, 0, target)
    ||| step_hits(from, 1, -1, target)
    ||| step_hits(from, 0, -1, target)
    ||| step_hits(from, -1, -1, target)
    ||| step_hits(from, -1, 0, target)
    ||| step_hits(from, -1, 1, target)
}

/// Whether a bishop on `from` attacks `target`: along the four diagonals, up
/// to the first occupied square.
pub open spec fn bishop_hits(
    pieces: Map<Square, (Player, PieceType)>,
    from: Square,
    target: Square,
) -> bool {
    ||| line_hits(pieces, from, 1, 1, target)
    ||| line_hits(pieces, from, 1, -1, target)
    ||| line_hits(pieces, from, -1, -1, target)
    ||| line_hits(pieces, from, -1, 1, target)
}

/// Whether a rook on `from` attacks `target`: along its file and its rank, up
/// to the first occupied square.
pub open spec fn rook_hits(
    pieces: Map<Square, (Player, PieceType)>,
    from: Square,
    target: Square,
) -> bool {
    ||| line_hits(pieces, from, 0, 1, target)
    ||| line_hits(pieces, from, 1, 0, target)
    ||| line_hits(pieces, from, 0, -1, target)
    ||| line_hits(pieces, from, -1, 0, target)
}

/// Whether a piece of the side stands on `from` and attacks `target`. A queen
/// attacks as a bishop and as a rook.
pub open spec fn attacks_from(
    pieces: Map<Square, (Player, PieceType)>,
    by: Player,
    from: Square,
    target: Square,
) -> bool {
    &&& pieces.contains_key(from)
    &&& pieces[from].0 == by
    &&& match pieces[from].1 {
        PieceType::Pawn => pawn_hits(by, from, target),
        PieceType::Knight => knight_hits(from, target),
        PieceType::Bishop => bishop_hits(pieces, from, target),
        PieceType::Rook => rook_hits(pieces, from, target),
        PieceType::Queen => bishop_hits(pieces, from, target) || rook_hits(pieces, from, target),
        PieceType::King => king_hits(from, target),
    }
}

/// Whether a piece of the side attacks `target`, whoever stands there and
/// whether or not the side's own king is attacked.
pub open spec fn attacks(
    pieces: Map<Square, (Player, PieceType)>,
    by: Player,
    target: Square,
) -> bool {
    exists|from: Square| attacks_from(pieces, by, from, target)
}

/// Whether a piece of the side on one of the first `count` squares attacks
/// `target`.
pub open spec fn attacks_below(
    pieces: Map<Square, (Player, PieceType)>,
    by: Player,
    target: Square,
    count: int,
) -> bool {
    exists|from: Square| from.spec_index() < count && attacks_from(pieces, by, from, target)
}

/// The attacks from the first `count + 1` squares are those from the first
/// `count` and those from the square numbered `count`.
proof fn lemma_attacks_below_next(
    pieces: Map<Square, (Player, PieceType)>,
    by: Player,
    target: Square,
    count: int,
)
    requires
        0 <= count < 64,
    ensures
        attacks_below(pieces, by, target, count + 1) <==> attacks_below(pieces, by, target, count)
            || attacks_from(pieces, by, Square::spec_from_index(count), target),
        !attacks_below(pieces, by, target, 0),
        attacks_below(pieces, by, target, 64) <==> attacks(pieces, by, target),
{
    let here = Square::spec_from_index(count);
    Square::lemma_index_of_from_index(count);
    if attacks_below(pieces, by, target, count + 1) {
        let from = choose|from: Square|
            from.spec_index() < count + 1 && attacks_from(pieces, by, from, target);
        from.lemma_from_index_of_index();
    }
    assert forall|from: Square| 0 <= #[trigger] from.spec_index() < 64 by {
        from.lemma_from_index_of_index();
    }
}

/// The bitboard of the square to which one step leads, if it is on the board.
fn step_mask(from: Square, df: i32, dr: i32) -> (r: Bitboard)
    requires
        -2 <= df <= 2,
        -2 <= dr <= 2,
    ensures
        forall|target: Square|
            contains(r, target) <==> step_hits(from, df as int, dr as int, target),
{
    proof {
        lemma_bitboard_algebra();
    }
    let file = from.file() as i32 + df;
    let rank = from.rank() as i32 + dr;
    if 0 <= file && file < 8 && 0 <= rank && rank < 8 {
        Square::from_index((rank * 8 + file) as usize).to_bit()
    } else {
        EMPTY_BITBOARD
    }
}

/// The bitboard of the squares of a line from `from`, up to the first
/// occupied square.
fn line_mask(pieces: &PieceArrangement, from: Square, df: i32, dr: i32) -> (r: Bitboard)
    requires
        -1 <= df <= 1,
        -1 <= dr <= 1,
    ensures
        forall|target: Square|
            contains(r, target) <==> line_hits(pieces@, from, df as int, dr as int, target),
{
    let mut mask = EMPTY_BITBOARD;
    let mut file = from.file() as i32;
    let mut rank = from.rank() as i32;
    let mut reach: u32 = 7;
    let mut open = true;
    proof {
        lemma_bitboard_algebra();
    }
    while reach > 0 && open
        invariant
            -1 <= df <= 1,
            -1 <= dr <= 1,
            0 <= file < 8,
            0 <= rank < 8,
            reach <= 7,
            forall|target: Square|
                (contains(mask, target) || (open && ray_hits(
                    pieces@,
                    file as int,
                    rank as int,
                    df as int,
                    dr as int,
                    target,
                    reach as nat,
                ))) <==> #[trigger] line_hits(pieces@, from, df as int, dr as int, target),
        decreases
                (if open {
                    reach + 1
                } else {
                    0
                }),
    {
        let next_file = file + df;
        let next_rank = rank + dr;
        if 0 <= next_file && next_file < 8 && 0 <= next_rank && next_rank < 8 {
            let next = Square::from_index((next_rank * 8 + next_file) as usize);
            let ghost before = mask;
            mask |= next.to_bit();
            if pieces.piece_type_on(next).is_some() {
                open = false;
            }
            proof {
                lemma_bitboard_algebra();
                assert forall|target: Square|
                    (contains(mask, target) || (open && ray_hits(
                        pieces@,
                        next_file as int,
                        next_rank as int,
                        df as int,
                        dr as int,
                        target,
                        (reach - 1) as nat,
                    ))) <==> #[trigger] line_hits(
                        pieces@,
                        from,
                        df as int,
                        dr as int,
                        target,
                    ) by {
                    assert(contains(mask, target) <==> contains(before, target) || target == next);
                }
            }
            file = next_file;
            rank = next_rank;
            reach -= 1;
        } else {
            open = false;
        }
    }
    mask
}

/// The bitboard of the squares that a pawn of the side on `from` attacks.
fn pawn_mask(by: Player, from: Square) -> (r: Bitboard)
    ensures
        forall|target: Square| contains(r, target) <==> pawn_hits(by, from, target),
{
    proof {
        lemma_bitboard_algebra();
    }
    let forward: i32 = if by.is_white() {
        1
    } else {
        -1
    };
    step_mask(from, -1, forward) | step_mask(from, 1, forward)
}

/// The bitboard of the squares that a knight on `from` attacks.
fn knight_mask(from: Square) -> (r: Bitboard)
    ensures
        forall|target: Square| contains(r, target) <==> knight_hits(from, target),
{
    proof {
        lemma_bitboard_algebra();
    }
    step_mask(from, 1, 2) | step_mask(from, 2, 1) | step_mask(from, 2, -1) | step_mask(from, 1, -2)
        | step_mask(from, -1, -2) | step_mask(from, -2, -1) | step_mask(from, -2, 1) | step_mask(
        from,
        -1,
        2,
    )
}

/// The bitboard of the squares that a king on `from` attacks.
fn king_mask(from: Square) -> (r: Bitboard)
    ensures
        forall|target: Square| contains(r, target) <==> king_hits(from, target),
{
    proof {
        lemma_bitboard_algebra();
    }
    step_mask(from, 0, 1) | step_mask(from, 1, 1) | step_mask(from, 1, 0) | step_mask(from, 1, -1)
        | step_mask(from, 0, -1) | step_mask(from, -1, -1) | step_mask(from, -1, 0) | step_mask(
        from,
        -1,
        1,
    )
}

/// The bitboard of the squares that a bishop on `from` attacks.
fn bishop_mask(pieces: &PieceArrangement, from: Square) -> (r: Bitboard)
    ensures
        forall|target: Square| contains(r, target) <==> bishop_hits(pieces@, from, target),
{
    proof {
        lemma_bitboard_algebra();
    }
    line_mask(pieces, from, 1, 1) | line_mask(pieces, from, 1, -1) | line_mask(pieces, from, -1, -1)
        | line_mask(pieces, from, -1, 1)
}

/// The bitboard of the squares that a rook on `from` attacks.
fn rook_mask(pieces: &PieceArrangement, from: Square) -> (r: Bitboard)
    ensures
        forall|target: Square| contains(r, target) <==> rook_hits(pieces@, from, target),
{
    proof {
        lemma_bitboard_algebra();
    }
    line_mask(pieces, from, 0, 1) | line_mask(pieces, from, 1, 0) | line_mask(pieces, from, 0, -1)
        | line_mask(pieces, from, -1, 0)
}

/// The bitboard of the squares that the piece on `from` attacks, if it is a
/// piece of the side; the empty bitboard if it is not.
pub fn attacked_from(pieces: &PieceArrangement, by: Player, from: Square) -> (r: Bitboard)
    ensures
        forall|target: Square| contains(r, target) <==> attacks_from(pieces@, by, from, target),
{
    proof {
        lemma_bitboard_algebra();
    }
    let of_side = match pieces.player_on(from) {
        Some(player) => player == by,
        None => false,
    };
    match pieces.piece_type_on(from) {
        Some(kind) => if of_side {
            match kind {
                PieceType::Pawn => pawn_mask(by, from),
                PieceType::Knight => knight_mask(from),
                PieceType::Bishop => bishop_mask(pieces, from),
                PieceType::Rook => rook_mask(pieces, from),
                PieceType::Queen => bishop_mask(pieces, from) | rook_mask(pieces, from),
                PieceType::King => king_mask(from),
            }
        } else {
            EMPTY_BITBOARD
        },
        None => EMPTY_BITBOARD,
    }
}

/// The bitboard of the squares that the pieces of the side attack.
pub fn attacked_by(pieces: &PieceArrangement, by: Player) -> (r: Bitboard)
    ensures
        forall|target: Square| contains(r, target) <==> attacks(pieces@, by, target),
{
    let mut mask = EMPTY_BITBOARD;
    let mut index: usize = 0;
    proof {
        lemma_bitboard_algebra();
        assert forall|target: Square| !attacks_below(pieces@, by, target, 0) by {
            lemma_attacks_below_next(pieces@, by, target, 0);
        }
    }
    while index < 64
        invariant
            index <= 64,
            forall|target: Square|
                contains(mask, target) <==> #[trigger] attacks_below(
                    pieces@,
                    by,
                    target,
                    index as int,
                ),
        decreases 64 - index,
    {
        let from = Square::from_index(index);
        let ghost before = mask;
        let here = attacked_from(pieces, by, from);
        mask |= here;
        proof {
            lemma_bitboard_algebra();
            assert forall|target: Square|
                contains(mask, target) <==> #[trigger] attacks_below(
                    pieces@,
                    by,
                    target,
                    index as int + 1,
                ) by {
                lemma_attacks_below_next(pieces@, by, target, index as int);
                assert(contains(mask, target) <==> contains(before, target) || contains(
                    here,
                    target,
                ));
            }
        }
        index += 1;
    }
    proof {
        assert forall|target: Square| contains(mask, target) <==> attacks(pieces@, by, target) by {
            lemma_attacks_below_next(pieces@, by, target, 0);
            assert(contains(mask, target) <==> attacks_below(pieces@, by, target, 64));
        }
    }
    mask
}

} // verus!
