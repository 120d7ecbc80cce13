use vstd::prelude::*;
use crate::bitboard::Bit;

verus! {

/// A square of the board. The squares are numbered rank by rank from White's
/// side, file a first: `A1` is 0, `H1` is 7, `A2` is 8 and `H8` is 63.
#[derive(Clone, Copy, PartialEq, Eq, Structural, Debug, Hash, PartialOrd, Ord)]
pub enum Square {
    A1, B1, C1, D1, E1, F1, G1, H1,
    A2, B2, C2, D2, E2, F2, G2, H2,
    A3, B3, C3, D3, E3, F3, G3, H3,
    A4, B4, C4, D4, E4, F4, G4, H4,
    A5, B5, C5, D5, E5, F5, G5, H5,
    A6, B6, C6, D6, E6, F6, G6, H6,
    A7, B7, C7, D7, E7, F7, G7, H7,
    A8, B8, C8, D8, E8, F8, G8, H8,
}

impl Square {
    /// The number of squares.
    pub const COUNT: usize = 64;

    /// The number of the square, from 0 to 63.
    #[verifier::opaque]
    pub open spec fn spec_index(self) -> int {
        match self {
            Square::A1 => 0,
            Square::B1 => 1,
            Square::C1 => 2,
            Square::D1 => 3,
            Square::E1 => 4,
            Square::F1 => 5,
            Square::G1 => 6,
            Square::H1 => 7,
            Square::A2 => 8,
            Square::B2 => 9,
            Square::C2 => 10,
            Square::D2 => 11,
            Square::E2 => 12,
            Square::F2 => 13,
            Square::G2 => 14,
            Square::H2 => 15,
            Square::A3 => 16,
            Square::B3 => 17,
            Square::C3 => 18,
            Square::D3 => 19,
            Square::E3 => 20,
            Square::F3 => 21,
            Square::G3 => 22,
            Square::H3 => 23,
            Square::A4 => 24,
            Square::B4 => 25,
            Square::C4 => 26,
            Square::D4 => 27,
            Square::E4 => 28,
            Square::F4 => 29,
            Square::G4 => 30,
            Square::H4 => 31,
            Square::A5 => 32,
            Square::B5 => 33,
            Square::C5 => 34,
            Square::D5 => 35,
            Square::E5 => 36,
            Square::F5 => 37,
            Square::G5 => 38,
            Square::H5 => 39,
            Square::A6 => 40,
            Square::B6 => 41,
            Square::C6 => 42,
            Square::D6 => 43,
            Square::E6 => 44,
            Square::F6 => 45,
            Square::G6 => 46,
            Square::H6 => 47,
            Square::A7 => 48,
            Square::B7 => 49,
            Square::C7 => 50,
            Square::D7 => 51,
            Square::E7 => 52,
            Square::F7 => 53,
            Square::G7 => 54,
            Square::H7 => 55,
            Square::A8 => 56,
            Square::B8 => 57,
            Square::C8 => 58,
            Square::D8 => 59,
            Square::E8 => 60,
            Square::F8 => 61,
            Square::G8 => 62,
            Square::H8 => 63,
        }
    }

    /// The square with the given number; `H8` for a number that no square has.
    #[verifier::opaque]
    pub open spec fn spec_from_index(i: int) -> Square {
        if i == 0 {
            Square::A1
        } else if i == 1 {
            Square::B1
        } else if i == 2 {
            Square::C1
        } else if i == 3 {
            Square::D1
        } else if i == 4 {
            Square::E1
        } else if i == 5 {
            Square::F1
        } else if i == 6 {
            Square::G1
        } else if i == 7 {
            Square::H1
        } else if i == 8 {
            Square::A2
        } else if i == 9 {
            Square::B2
        } else if i == 10 {
            Square::C2
        } else if i == 11 {
            Square::D2
        } else if i == 12 {
            Square::E2
        } else if i == 13 {
            Square::F2
        } else if i == 14 {
            Square::G2
        } else if i == 15 {
            Square::H2
        } else if i == 16 {
            Square::A3
        } else if i == 17 {
            Square::B3
        } else if i == 18 {
            Square::C3
        } else if i == 19 {
            Square::D3
        } else if i == 20 {
            Square::E3
        } else if i == 21 {
            Square::F3
        } else if i == 22 {
            Square::G3
        } else if i == 23 {
            Square::H3
        } else if i == 24 {
            Square::A4
        } else if i == 25 {
            Square::B4
        } else if i == 26 {
            Square::C4
        } else if i == 27 {
            Square::D4
        } else if i == 28 {
            Square::E4
        } else if i == 29 {
            Square::F4
        } else if i == 30 {
            Square::G4
        } else if i == 31 {
            Square::H4
        } else if i == 32 {
            Square::A5
        } else if i == 33 {
            Square::B5
        } else if i == 34 {
            Square::C5
        } else if i == 35 {
            Square::D5
        } else if i == 36 {
            Square::E5
        } else if i == 37 {
            Square::F5
        } else if i == 38 {
            Square::G5
        } else if i == 39 {
            Square::H5
        } else if i == 40 {
            Square::A6
        } else if i == 41 {
            Square::B6
        } else if i == 42 {
            Square::C6
        } else if i == 43 {
            Square::D6
        } else if i == 44 {
            Square::E6
        } else if i == 45 {
            Square::F6
        } else if i == 46 {
            Square::G6
        } else if i == 47 {
            Square::H6
        } else if i == 48 {
            Square::A7
        } else if i == 49 {
            Square::B7
        } else if i == 50 {
            Square::C7
        } else if i == 51 {
            Square::D7
        } else if i == 52 {
            Square::E7
        } else if i == 53 {
            Square::F7
        } else if i == 54 {
            Square::G7
        } else if i == 55 {
            Square::H7
        } else if i == 56 {
            Square::A8
        } else if i == 57 {
            Square::B8
        } else if i == 58 {
            Square::C8
        } else if i == 59 {
            Square::D8
        } else if i == 60 {
            Square::E8
        } else if i == 61 {
            Square::F8
        } else if i == 62 {
            Square::G8
        } else {
            Square::H8
        }
    }

    /// The bitboard that holds this square alone.
    pub open spec fn spec_to_bit(self) -> Bit {
        1u64 << (self.spec_index() as u64)
    }

    /// The file of the square, from 0 for file a to 7 for file h.
    pub open spec fn spec_file(self) -> int {
        self.spec_index() % 8
    }

    /// The rank of the square, from 0 for the first rank to 7 for the eighth.
    pub open spec fn spec_rank(self) -> int {
        self.spec_index() / 8
    }

    /// The number of the square, from 0 to 63.
    pub fn index(self) -> (r: usize)
        ensures
            r == self.spec_index(),
            r < Square::COUNT,
    {
        proof {
            reveal(Square::spec_index);
        }
        self as usize
    }

    /// The square with the given number.
    pub fn from_index(i: usize) -> (r: Square)
        requires
            i < Square::COUNT,
        ensures
            r == Square::spec_from_index(i as int),
            r.spec_index() == i,
    {
        proof {
            reveal(Square::spec_index);
            reveal(Square::spec_from_index);
        }
        match i {
            0 => Square::A1,
            1 => Square::B1,
            2 => Square::C1,
            3 => Square::D1,
            4 => Square::E1,
            5 => Square::F1,
            6 => Square::G1,
            7 => Square::H1,
            8 => Square::A2,
            9 => Square::B2,
            10 => Square::C2,
            11 => Square::D2,
            12 => Square::E2,
            13 => Square::F2,
            14 => Square::G2,
            15 => Square::H2,
            16 => Square::A3,
            17 => Square::B3,
            18 => Square::C3,
            19 => Square::D3,
            20 => Square::E3,
            21 => Square::F3,
            22 => Square::G3,
            23 => Square::H3,
            24 => Square::A4,
            25 => Square::B4,
            26 => Square::C4,
            27 => Square::D4,
            28 => Square::E4,
            29 => Square::F4,
            30 => Square::G4,
            31 => Square::H4,
            32 => Square::A5,
            33 => Square::B5,
            34 => Square::C5,
            35 => Square::D5,
            36 => Square::E5,
            37 => Square::F5,
            38 => Square::G5,
            39 => Square::H5,
            40 => Square::A6,
            41 => Square::B6,
            42 => Square::C6,
            43 => Square::D6,
            44 => Square::E6,
            45 => Square::F6,
            46 => Square::G6,
            47 => Square::H6,
            48 => Square::A7,
            49 => Square::B7,
            50 => Square::C7,
            51 => Square::D7,
            52 => Square::E7,
            53 => Square::F7,
            54 => Square::G7,
            55 => Square::H7,
            56 => Square::A8,
            57 => Square::B8,
            58 => Square::C8,
            59 => Square::D8,
            60 => Square::E8,
            61 => Square::F8,
            62 => Square::G8,
            _ => Square::H8,
        }
    }

    /// The bitboard that holds this square alone.
    pub fn to_bit(self) -> (r: Bit)
        ensures
            r == self.spec_to_bit(),
    {
        1u64 << (self.index() as u64)
    }

    /// The file of the square, from 0 for file a to 7 for file h.
    pub fn file(self) -> (r: usize)
        ensures
            r == self.spec_file(),
            r < 8,
    {
        self.index() % 8
    }

    /// The rank of the square, from 0 for the first rank to 7 for the eighth.
    pub fn rank(self) -> (r: usize)
        ensures
            r == self.spec_rank(),
            r < 8,
    {
        self.index() / 8
    }

    /// Each square is the square of its own number.
    pub proof fn lemma_from_index_of_index(self)
        ensures
            Square::spec_from_index(self.spec_index()) == self,
            0 <= self.spec_index() < 64,
    {
        reveal(Square::spec_index);
        reveal(Square::spec_from_index);
    }

    /// Each number from 0 to 63 is the number of its own square.
    pub proof fn lemma_index_of_from_index(i: int)
        requires
            0 <= i < 64,
        ensures
            Square::spec_from_index(i).spec_index() == i,
    {
        reveal(Square::spec_index);
        reveal(Square::spec_from_index);
    }

    /// Two squares with one number are one square.
    pub proof fn lemma_index_injective(a: Square, b: Square)
        ensures
            a.spec_index() == b.spec_index() <==> a == b,
    {
        a.lemma_from_index_of_index();
        b.lemma_from_index_of_index();
    }
}

} // verus!
