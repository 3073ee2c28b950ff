//! The messages that host and client exchange, one JSON document each.

use vstd::prelude::*;

verus! {

/// A side of the board.
#[derive(Clone, Copy, Debug, PartialEq, Eq, Structural)]
pub enum Color {
    White,
    Black,
}

/// What stands on a square, as the messages name it.
#[derive(Clone, Copy, Debug, PartialEq, Eq, Structural)]
pub enum Piece {
    BlackPawn,
    BlackKnight,
    BlackBishop,
    BlackRook,
    BlackQueen,
    BlackKing,
    WhitePawn,
    WhiteKnight,
    WhiteBishop,
    WhiteRook,
    WhiteQueen,
    WhiteKing,
    /// No piece.
    Empty,
}

/// A board as the messages carry it: eight rows of eight squares, the
/// rows counted from the edge opposite to the one the game state counts
/// from.
pub type WireBoard = [[Piece; 8]; 8];

/// A move between two squares. `x` is the column; `y` is the row, counted
/// as in a `WireBoard`.
#[derive(Clone, Copy, Debug, PartialEq, Eq, Structural)]
pub struct Move {
    pub start_x: usize,
    pub start_y: usize,
    pub end_x: usize,
    pub end_y: usize,
    /// The piece a pawn turns into, `Piece::Empty` where the move promotes
    /// nothing.
    pub promotion: Piece,
}

/// How the game stands.
#[derive(Clone, Copy, Debug, PartialEq, Eq, Structural)]
pub enum Joever {
    White,
    Black,
    Draw,
    Indeterminate,
    Ongoing,
}

/// A rule that a host can announce.
#[derive(Debug, PartialEq, Eq)]
pub enum Features {
    EnPassant,
    Castling,
    Promotion,
    Stalemate,
    PossibleMoveGeneration,
    Other(String),
}

/// The first message of a client.
#[derive(Clone, Copy, Debug, PartialEq, Eq, Structural)]
pub struct ClientToServerHandshake {
    /// The side that the client wants the host to play.
    pub server_color: Color,
}

/// The first message of a host, in answer to the client's.
#[derive(Debug, PartialEq, Eq)]
pub struct ServerToClientHandshake {
    pub features: Vec<Features>,
    pub board: WireBoard,
    pub moves: Vec<Move>,
    pub joever: Joever,
}

/// A message of a client after the handshake.
#[derive(Clone, Copy, Debug, PartialEq, Eq, Structural)]
pub enum ClientToServer {
    Move(Move),
    Resign,
    Draw,
}

/// A message of a host after the handshake.
#[derive(Debug, PartialEq, Eq)]
pub enum ServerToClient {
    /// The board after a move.
    State { board: WireBoard, moves: Vec<Move>, joever: Joever, move_made: Move },
    /// The client's last move was refused; the board is as it was.
    Error { board: WireBoard, moves: Vec<Move>, joever: Joever, message: String },
    Resigned { board: WireBoard, moves: Vec<Move>, joever: Joever },
    Draw { board: WireBoard, moves: Vec<Move>, joever: Joever },
}

} // verus!
