use vstd::prelude::*;
use crate::square::Square;

verus! {

/// A set of squares, one bit for each: bit `i` stands for the square numbered `i`.
pub type Bitboard = u64;

/// A bitboard with a single bit set.
pub type Bit = u64;

/// The bitboard without any square.
pub const EMPTY_BITBOARD: Bitboard = 0u64;

/// Whether the bitboard holds the square.
pub open spec fn contains(board: Bitboard, square: Square) -> bool {
    board & square.spec_to_bit() != 0
}

/// The squares that the bitboard holds.
pub open spec fn squares(board: Bitboard) -> Set<Square> {
    Set::new(|square: Square| contains(board, square))
}

/// The facts of `lemma_bitboard_algebra` for single bits given by their
/// numbers.
proof fn lemma_bit_algebra(m: u64, n: u64, i: u64, j: u64)
    by (bit_vector)
    requires
        i < 64,
        j < 64,
    ensures
        0u64 & (1u64 << j) == 0,
        ((1u64 << i) & (1u64 << j) != 0) <==> i == j,
        ((m | n) & (1u64 << j) != 0) <==> (m & (1u64 << j) != 0 || n & (1u64 << j) != 0),
        ((m & n) & (1u64 << j) != 0) <==> (m & (1u64 << j) != 0 && n & (1u64 << j) != 0),
        ((m ^ n) & (1u64 << j) != 0) <==> ((m & (1u64 << j) != 0) != (n & (1u64 << j) != 0)),
        ((m & !n) & (1u64 << j) != 0) <==> (m & (1u64 << j) != 0 && n & (1u64 << j) == 0),
{
}

/// Whether bit `k` is set in one of the two words and not in the other.
spec fn differ(m: u64, n: u64, k: u64) -> bool {
    (m & (1u64 << k) != 0) != (n & (1u64 << k) != 0)
}

/// Two words that are not equal differ in one of their 64 bits.
proof fn lemma_distinct_words_differ(m: u64, n: u64)
    by (bit_vector)
    requires
        m != n,
    ensures
        differ(m, n, 0) || differ(m, n, 1) || differ(m, n, 2) || differ(m, n, 3)
        || differ(m, n, 4) || differ(m, n, 5) || differ(m, n, 6) || differ(m, n, 7)
        || differ(m, n, 8) || differ(m, n, 9) || differ(m, n, 10) || differ(m, n, 11)
        || differ(m, n, 12) || differ(m, n, 13) || differ(m, n, 14) || differ(m, n, 15)
        || differ(m, n, 16) || differ(m, n, 17) || differ(m, n, 18) || differ(m, n, 19)
        || differ(m, n, 20) || differ(m, n, 21) || differ(m, n, 22) || differ(m, n, 23)
        || differ(m, n, 24) || differ(m, n, 25) || differ(m, n, 26) || differ(m, n, 27)
        || differ(m, n, 28) || differ(m, n, 29) || differ(m, n, 30) || differ(m, n, 31)
        || differ(m, n, 32) || differ(m, n, 33) || differ(m, n, 34) || differ(m, n, 35)
        || differ(m, n, 36) || differ(m, n, 37) || differ(m, n, 38) || differ(m, n, 39)
        || differ(m, n, 40) || differ(m, n, 41) || differ(m, n, 42) || differ(m, n, 43)
        || differ(m, n, 44) || differ(m, n, 45) || differ(m, n, 46) || differ(m, n, 47)
        || differ(m, n, 48) || differ(m, n, 49) || differ(m, n, 50) || differ(m, n, 51)
        || differ(m, n, 52) || differ(m, n, 53) || differ(m, n, 54) || differ(m, n, 55)
        || differ(m, n, 56) || differ(m, n, 57) || differ(m, n, 58) || differ(m, n, 59)
        || differ(m, n, 60) || differ(m, n, 61) || differ(m, n, 62) || differ(m, n, 63),
{
}

/// A bitboard is the set of its squares: two bitboards that hold the same
/// squares are equal.
pub proof fn lemma_bitboard_ext(m: Bitboard, n: Bitboard)
    requires
        forall|square: Square| contains(m, square) == contains(n, square),
    ensures
        m == n,
{
    if m != n {
        assert forall|k: u64| k < 64 implies !#[trigger] differ(m, n, k) by {
            let square = Square::spec_from_index(k as int);
            Square::lemma_index_of_from_index(k as int);
            assert(contains(m, square) == contains(n, square));
        }
        lemma_distinct_words_differ(m, n);
    }
}

/// The facts of `lemma_bitboard_algebra` for given bitboards and squares.
proof fn lemma_square_bits(m: Bitboard, n: Bitboard, a: Square, b: Square)
    ensures
        !contains(EMPTY_BITBOARD, b),
        contains(a.spec_to_bit(), b) <==> a == b,
        contains(m | n, b) <==> contains(m, b) || contains(n, b),
        contains(m & n, b) <==> contains(m, b) && contains(n, b),
        contains(m ^ n, b) <==> contains(m, b) != contains(n, b),
        contains(m & !n, b) <==> contains(m, b) && !contains(n, b),
{
    Square::lemma_index_injective(a, b);
    a.lemma_from_index_of_index();
    b.lemma_from_index_of_index();
    lemma_bit_algebra(m, n, a.spec_index() as u64, b.spec_index() as u64);
}

/// What the operations on bitboards do to the squares they hold: `|` is the
/// union, `&` the intersection, `^` the symmetric difference and `& !` the
/// difference; the empty bitboard holds no square and the bit of a square
/// holds that square alone.
pub proof fn lemma_bitboard_algebra()
    ensures
        forall|square: Square| !#[trigger] contains(EMPTY_BITBOARD, square),
        forall|a: Square, b: Square| #[trigger] contains(a.spec_to_bit(), b) <==> a == b,
        forall|m: Bitboard, n: Bitboard, square: Square| #[trigger]
            contains(m | n, square) <==> contains(m, square) || contains(n, square),
        forall|m: Bitboard, n: Bitboard, square: Square| #[trigger]
            contains(m & n, square) <==> contains(m, square) && contains(n, square),
        forall|m: Bitboard, n: Bitboard, square: Square| #[trigger]
            contains(m ^ n, square) <==> contains(m, square) != contains(n, square),
        forall|m: Bitboard, n: Bitboard, square: Square| #[trigger]
            contains(m & !n, square) <==> contains(m, square) && !contains(n, square),
{
    assert forall|square: Square| !#[trigger] contains(EMPTY_BITBOARD, square) by {
        lemma_square_bits(0, 0, square, square);
    }
    assert forall|a: Square, b: Square| #[trigger] contains(a.spec_to_bit(), b) <==> a == b by {
        lemma_square_bits(0, 0, a, b);
    }
    assert forall|m: Bitboard, n: Bitboard, square: Square| #[trigger]
        contains(m | n, square) <==> contains(m, square) || contains(n, square) by {
        lemma_square_bits(m, n, square, square);
    }
    assert forall|m: Bitboard, n: Bitboard, square: Square| #[trigger]
        contains(m & n, square) <==> contains(m, square) && contains(n, square) by {
        lemma_square_bits(m, n, square, square);
    }
    assert forall|m: Bitboard, n: Bitboard, square: Square| #[trigger]
        contains(m ^ n, square) <==> contains(m, square) != contains(n, square) by {
        lemma_square_bits(m, n, square, square);
    }
    assert forall|m: Bitboard, n: Bitboard, square: Square| #[trigger]
        contains(m & !n, square) <==> contains(m, square) && !contains(n, square) by {
        lemma_square_bits(m, n, square, square);
    }
}

/// Two bitboards have no bit in common just where no square is in both.
pub proof fn lemma_bitboard_disjoint(m: Bitboard, n: Bitboard)
    ensures
        m & n == EMPTY_BITBOARD <==> forall|square: Square|
            !(contains(m, square) && contains(n, square)),
{
    lemma_bitboard_algebra();
    if forall|square: Square| !(contains(m, square) && contains(n, square)) {
        assert forall|square: Square|
            contains(m & n, square) == contains(EMPTY_BITBOARD, square) by {}
        lemma_bitboard_ext(m & n, EMPTY_BITBOARD);
    }
    if m & n == EMPTY_BITBOARD {
        assert forall|square: Square| !(contains(m, square) && contains(n, square)) by {
            assert(!contains(m & n, square));
        }
    }
}

} // verus!
