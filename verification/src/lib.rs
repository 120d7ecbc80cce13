pub mod attack;
pub mod bitboard;
pub mod board;
pub mod board_status;
pub mod castle_direction;
pub mod fen;
pub mod piece_arrangement;
pub mod piece_type;
pub mod player;
pub mod square;
