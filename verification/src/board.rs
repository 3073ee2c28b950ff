//! The board of the game state and the board of the messages.
//!
//! The game state numbers its 64 squares row by row: square `row * 8 +
//! column`. Each square holds a pair: the kind of piece (0 for none, then
//! pawn, rook, knight, bishop, queen, king as 1 to 6) and its team (-1 for
//! white, 1 for black, 0 for none). The messages name each piece and
//! count the rows from the opposite edge.

use crate::wire::{Move, Piece, WireBoard};
use vstd::prelude::*;

verus! {

/// A square of the game state: the kind of piece and its team.
pub type Square = (i8, i8);

/// The board of the game state.
pub type Board = [Square; 64];

/// The kind of a pawn.
pub const PAWN: i8 = 1;

/// The kind of a rook.
pub const ROOK: i8 = 2;

/// The kind of a knight.
pub const KNIGHT: i8 = 3;

/// The kind of a bishop.
pub const BISHOP: i8 = 4;

/// The kind of a queen.
pub const QUEEN: i8 = 5;

/// The kind of a king.
pub const KING: i8 = 6;

/// The team of the white pieces.
pub const WHITE: i8 = -1;

/// The team of the black pieces.
pub const BLACK: i8 = 1;

/// Whether a square holds a piece: a kind from pawn to king, on one of
/// the two teams.
pub open spec fn is_piece(square: Square) -> bool {
    PAWN <= square.0 <= KING && (square.1 == WHITE || square.1 == BLACK)
}

/// The name that the messages give to what stands on a square. A square
/// that holds no piece is `Piece::Empty`.
pub open spec fn wire_piece(square: Square) -> Piece {
    if !is_piece(square) {
        Piece::Empty
    } else if square.1 == WHITE {
        if square.0 == PAWN {
            Piece::WhitePawn
        } else if square.0 == ROOK {
            Piece::WhiteRook
        } else if square.0 == KNIGHT {
            Piece::WhiteKnight
        } else if square.0 == BISHOP {
            Piece::WhiteBishop
        } else if square.0 == QUEEN {
            Piece::WhiteQueen
        } else {
            Piece::WhiteKing
        }
    } else {
        if square.0 == PAWN {
            Piece::BlackPawn
        } else if square.0 == ROOK {
            Piece::BlackRook
        } else if square.0 == KNIGHT {
            Piece::BlackKnight
        } else if square.0 == BISHOP {
            Piece::BlackBishop
        } else if square.0 == QUEEN {
            Piece::BlackQueen
        } else {
            Piece::BlackKing
        }
    }
}

/// The kind of a named piece, 0 for `Piece::Empty`.
pub open spec fn piece_kind(piece: Piece) -> i8 {
    match piece {
        Piece::WhitePawn | Piece::BlackPawn => PAWN,
        Piece::WhiteRook | Piece::BlackRook => ROOK,
        Piece::WhiteKnight | Piece::BlackKnight => KNIGHT,
        Piece::WhiteBishop | Piece::BlackBishop => BISHOP,
        Piece::WhiteQueen | Piece::BlackQueen => QUEEN,
        Piece::WhiteKing | Piece::BlackKing => KING,
        Piece::Empty => 0,
    }
}

/// The team of a named piece, 0 for `Piece::Empty`.
pub open spec fn piece_team(piece: Piece) -> i8 {
    match piece {
        Piece::WhitePawn
        | Piece::WhiteRook
        | Piece::WhiteKnight
        | Piece::WhiteBishop
        | Piece::WhiteQueen
        | Piece::WhiteKing => WHITE,
        Piece::BlackPawn
        | Piece::BlackRook
        | Piece::BlackKnight
        | Piece::BlackBishop
        | Piece::BlackQueen
        | Piece::BlackKing => BLACK,
        Piece::Empty => 0,
    }
}

/// The square of the game state that holds a named piece.
pub open spec fn piece_square(piece: Piece) -> Square {
    (piece_kind(piece), piece_team(piece))
}

/// The message board of a board of the game state: row `y`, column `x`
/// names what stands on square `(7 - y) * 8 + x`.
pub open spec fn wire_board(board: Seq<Square>) -> Seq<Seq<Piece>> {
    Seq::new(8, |y: int| Seq::new(8, |x: int| wire_piece(board[(7 - y) * 8 + x])))
}

/// The board of the game state of a message board: square `i` holds the
/// piece named in row `7 - i / 8`, column `i % 8`.
pub open spec fn chess_board(wire: Seq<Seq<Piece>>) -> Seq<Square> {
    Seq::new(64, |i: int| piece_square(wire[7 - i / 8][i % 8]))
}

/// A message board as rows of sequences.
pub open spec fn rows(wire: WireBoard) -> Seq<Seq<Piece>> {
    Seq::new(8, |y: int| wire@[y]@)
}

/// A piece goes to its name and back unchanged; any other square comes
/// back as the empty square.
pub proof fn lemma_square_round_trip(square: Square)
    ensures
        is_piece(square) ==> piece_square(wire_piece(square)) == square,
        !is_piece(square) ==> piece_square(wire_piece(square)) == (0i8, 0i8),
{
}

/// A name goes to its square and back unchanged, `Piece::Empty` too.
pub proof fn lemma_piece_round_trip(piece: Piece)
    ensures
        wire_piece(piece_square(piece)) == piece,
        piece != Piece::Empty ==> is_piece(piece_square(piece)),
{
}

/// A board of the game state goes to a message board and back with every
/// piece on its square, and with the empty square wherever no piece
/// stood.
pub proof fn lemma_board_round_trip(board: Seq<Square>)
    requires
        board.len() == 64,
    ensures
        chess_board(wire_board(board)).len() == 64,
        forall|i: int|
            0 <= i < 64 ==> #[trigger] chess_board(wire_board(board))[i] == if is_piece(board[i]) {
                board[i]
            } else {
                (0i8, 0i8)
            },
{
    assert forall|i: int| 0 <= i < 64 implies #[trigger] chess_board(wire_board(board))[i]
        == if is_piece(board[i]) {
        board[i]
    } else {
        (0i8, 0i8)
    } by {
        let y = 7 - i / 8;
        let x = i % 8;
        assert((7 - y) * 8 + x == i);
        assert(wire_board(board)[y][x] == wire_piece(board[i]));
        lemma_square_round_trip(board[i]);
    }
}

/// A message board goes to a board of the game state and back
/// unchanged.
pub proof fn lemma_wire_round_trip(wire: Seq<Seq<Piece>>)
    requires
        wire.len() == 8,
        forall|y: int| 0 <= y < 8 ==> (#[trigger] wire[y]).len() == 8,
    ensures
        wire_board(chess_board(wire)) == wire,
{
    let back = wire_board(chess_board(wire));
    assert forall|y: int| 0 <= y < 8 implies #[trigger] back[y] == wire[y] by {
        assert forall|x: int| 0 <= x < 8 implies #[trigger] back[y][x] == wire[y][x] by {
            let i = (7 - y) * 8 + x;
            assert(i / 8 == 7 - y && i % 8 == x);
            lemma_piece_round_trip(wire[y][x]);
        }
        assert(back[y] =~= wire[y]);
    }
    assert(back =~= wire);
}

/// The name that the messages give to what stands on a square.
pub fn chess_piece_to_wire(square: Square) -> (piece: Piece)
    ensures
        piece == wire_piece(square),
{
    let (kind, team) = square;
    if team == WHITE {
        if kind == PAWN {
            Piece::WhitePawn
        } else if kind == ROOK {
            Piece::WhiteRook
        } else if kind == KNIGHT {
            Piece::WhiteKnight
        } else if kind == BISHOP {
            Piece::WhiteBishop
        } else if kind == QUEEN {
            Piece::WhiteQueen
        } else if kind == KING {
            Piece::WhiteKing
        } else {
            Piece::Empty
        }
    } else if team == BLACK {
        if kind == PAWN {
            Piece::BlackPawn
        } else if kind == ROOK {
            Piece::BlackRook
        } else if kind == KNIGHT {
            Piece::BlackKnight
        } else if kind == BISHOP {
            Piece::BlackBishop
        } else if kind == QUEEN {
            Piece::BlackQueen
        } else if kind == KING {
            Piece::BlackKing
        } else {
            Piece::Empty
        }
    } else {
        Piece::Empty
    }
}

/// The square of the game state that holds a named piece.
pub fn wire_piece_to_chess(piece: Piece) -> (square: Square)
    ensures
        square == piece_square(piece),
{
    match piece {
        Piece::WhitePawn => (PAWN, WHITE),
        Piece::WhiteRook => (ROOK, WHITE),
        Piece::WhiteKnight => (KNIGHT, WHITE),
        Piece::WhiteBishop => (BISHOP, WHITE),
        Piece::WhiteQueen => (QUEEN, WHITE),
        Piece::WhiteKing => (KING, WHITE),
        Piece::BlackPawn => (PAWN, BLACK),
        Piece::BlackRook => (ROOK, BLACK),
        Piece::BlackKnight => (KNIGHT, BLACK),
        Piece::BlackBishop => (BISHOP, BLACK),
        Piece::BlackQueen => (QUEEN, BLACK),
        Piece::BlackKing => (KING, BLACK),
        Piece::Empty => (0, 0),
    }
}

/// The board of the game state as the messages carry it.
pub fn chess_representation_to_wire(data: &Board) -> (wire: WireBoard)
    ensures
        rows(wire) == wire_board(data@),
{
    let mut result: WireBoard = [[Piece::Empty; 8]; 8];
    let mut y: usize = 0;
    while y < 8
        invariant
            y <= 8,
            forall|r: int, c: int|
                0 <= r < y && 0 <= c < 8 ==> (#[trigger] result@[r]@[c]) == wire_piece(
                    data@[(7 - r) * 8 + c],
                ),
        decreases 8 - y,
    {
        let mut row: [Piece; 8] = [Piece::Empty; 8];
        let mut x: usize = 0;
        while x < 8
            invariant
                x <= 8,
                y < 8,
                forall|c: int|
                    0 <= c < x ==> (#[trigger] row@[c]) == wire_piece(data@[(7 - y) * 8 + c]),
            decreases 8 - x,
        {
            row[x] = chess_piece_to_wire(data[(7 - y) * 8 + x]);
            x = x + 1;
        }
        result[y] = row;
        y = y + 1;
    }
    proof {
        assert forall|r: int| 0 <= r < 8 implies #[trigger] rows(result)[r] == wire_board(
            data@,
        )[r] by {
            assert forall|c: int| 0 <= c < 8 implies #[trigger] rows(result)[r][c] == wire_board(
                data@,
            )[r][c] by {
                assert(result@[r]@[c] == wire_piece(data@[(7 - r) * 8 + c]));
            }
            assert(rows(result)[r] =~= wire_board(data@)[r]);
        }
        assert(rows(result) =~= wire_board(data@));
    }
    result
}

/// The board of the game state that a message board stands for.
pub fn wire_to_chess_representation(data: &WireBoard) -> (board: Board)
    ensures
        board@ == chess_board(rows(*data)),
{
    let mut result: Board = [(0, 0); 64];
    let mut i: usize = 0;
    while i < 64
        invariant
            i <= 64,
            forall|k: int|
                0 <= k < i ==> (#[trigger] result@[k]) == piece_square(
                    data@[7 - k / 8]@[k % 8],
                ),
        decreases 64 - i,
    {
        let row: usize = i / 8;
        let column: usize = i % 8;
        let line: &[Piece; 8] = &data[7 - row];
        result[i] = wire_piece_to_chess(line[column]);
        i = i + 1;
    }
    proof {
        assert forall|k: int| 0 <= k < 64 implies #[trigger] result@[k] == chess_board(
            rows(*data),
        )[k] by {
            assert(rows(*data)[7 - k / 8] == data@[7 - k / 8]@);
        }
        assert(result@ =~= chess_board(rows(*data)));
    }
    result
}

/// The move from square `from` to square `to` in the coordinates of the
/// messages, with no promotion.
pub open spec fn wire_move(from: int, to: int) -> Move {
    Move {
        start_x: (from % 8) as usize,
        start_y: (7 - from / 8) as usize,
        end_x: (to % 8) as usize,
        end_y: (7 - to / 8) as usize,
        promotion: Piece::Empty,
    }
}

/// Whether both squares of a move lie on the board.
pub open spec fn on_board(mv: Move) -> bool {
    mv.start_x < 8 && mv.start_y < 8 && mv.end_x < 8 && mv.end_y < 8
}

/// The square that a move starts from.
pub open spec fn start_square(mv: Move) -> int {
    (7 - mv.start_y) * 8 + mv.start_x
}

/// The square that a move ends on.
pub open spec fn end_square(mv: Move) -> int {
    (7 - mv.end_y) * 8 + mv.end_x
}

/// Two squares of the board go to the coordinates of the messages and
/// back unchanged.
pub proof fn lemma_move_round_trip(from: int, to: int)
    requires
        0 <= from < 64,
        0 <= to < 64,
    ensures
        on_board(wire_move(from, to)),
        start_square(wire_move(from, to)) == from,
        end_square(wire_move(from, to)) == to,
{
}

/// The coordinates of a move on the board go to two squares and back
/// unchanged.
pub proof fn lemma_coordinates_round_trip(mv: Move)
    requires
        on_board(mv),
    ensures
        0 <= start_square(mv) < 64,
        0 <= end_square(mv) < 64,
        wire_move(start_square(mv), end_square(mv)) == (Move { promotion: Piece::Empty, ..mv }),
{
}

/// The move from square `from` to square `to` as the messages carry it,
/// with no promotion.
pub fn net_move(from: usize, to: usize) -> (mv: Move)
    requires
        from < 64,
        to < 64,
    ensures
        mv == wire_move(from as int, to as int),
{
    assert(from >> 3 == from / 8 && from & 7 == from % 8) by (bit_vector);
    assert(to >> 3 == to / 8 && to & 7 == to % 8) by (bit_vector);
    Move {
        end_y: 7 - (to >> 3),
        end_x: to & 7,
        start_y: 7 - (from >> 3),
        start_x: from & 7,
        promotion: Piece::Empty,
    }
}

/// The squares that a move starts from and ends on, where both lie on
/// the board.
pub fn move_squares(mv: &Move) -> (squares: Option<(usize, usize)>)
    ensures
        on_board(*mv) ==> squares == Some((start_square(*mv) as usize, end_square(*mv) as usize)),
        on_board(*mv) ==> start_square(*mv) < 64 && end_square(*mv) < 64,
        !on_board(*mv) ==> squares is None,
{
    if mv.start_x < 8 && mv.start_y < 8 && mv.end_x < 8 && mv.end_y < 8 {
        let start_x = mv.start_x;
        let start_row = 7 - mv.start_y;
        let end_x = mv.end_x;
        let end_row = 7 - mv.end_y;
        assert((start_row << 3 | start_x) == start_row * 8 + start_x) by (bit_vector)
            requires
                start_row < 8,
                start_x < 8,
        ;
        assert((end_row << 3 | end_x) == end_row * 8 + end_x) by (bit_vector)
            requires
                end_row < 8,
                end_x < 8,
        ;
        Some((start_row << 3 | start_x, end_row << 3 | end_x))
    } else {
        None
    }
}

/// The label of the button that shows a piece of the given kind: the
/// chess symbol, followed by a mark that gives every button the same
/// identifier. A kind that names no piece has the mark alone.
pub open spec fn button_label(piece: i8) -> Seq<char> {
    if piece == PAWN {
        "\u{265F}###0"@
    } else if piece == ROOK {
        "\u{265C}###0"@
    } else if piece == KNIGHT {
        "\u{265E}###0"@
    } else if piece == BISHOP {
        "\u{265D}###0"@
    } else if piece == QUEEN {
        "\u{265B}###0"@
    } else if piece == KING {
        "\u{265A}###0"@
    } else {
        "###0"@
    }
}

/// The label of the button that shows a piece of the given kind.
pub fn piece_to_unicode(piece: i8) -> (label: &'static str)
    ensures
        label@ == button_label(piece),
{
    if piece == PAWN {
        "\u{265F}###0"
    } else if piece == ROOK {
        "\u{265C}###0"
    } else if piece == KNIGHT {
        "\u{265E}###0"
    } else if piece == BISHOP {
        "\u{265D}###0"
    } else if piece == QUEEN {
        "\u{265B}###0"
    } else if piece == KING {
        "\u{265A}###0"
    } else {
        "###0"
    }
}

} // verus!
