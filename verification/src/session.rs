//! The game state of one connection and the moves made on it.
//!
//! The host's state is authoritative: it asks the rules engine about every
//! move and takes the board from it. The client's state is a mirror: it
//! queues the client's own moves for the host and takes the board from
//! the host's messages. Of a move that brings a pawn to the far rank only
//! the squares are known at first; it is held back until the piece that
//! the pawn turns into has been chosen.

use crate::board::{
    chess_board, chess_piece_to_wire, end_square, move_squares, net_move, on_board, piece_kind,
    rows, start_square, wire_move, wire_piece, wire_piece_to_chess, wire_to_chess_representation,
    Board, Square, BLACK, PAWN, WHITE,
};
use crate::wire::{Joever, Move, WireBoard};
use vstd::prelude::*;

verus! {

/// The rules of the game, as far as the game state needs them. The engine
/// keeps its own position; the game state never judges a move itself.
///
/// An engine must be deterministic: what it answers, and the state it is
/// in afterwards, depend on the state it was in and on what it was
/// asked, and on nothing else. The contracts below say this and no more.
/// They give each answer a name; they do not say which moves the rules
/// allow.
///
/// The names are the first six functions. They are never called when
/// the program runs. An engine written in ordinary Rust still has to
/// give them bodies: each computes, without changing the engine, what
/// the operation of the same purpose answers or leaves behind.
pub trait RulesEngine: Sized {
    /// Whether the engine, in this state, makes the move from square
    /// `from` to square `to` when asked.
    spec fn accepts(&self, from: usize, to: usize) -> bool;

    /// The engine after it was asked for the move from `from` to `to`,
    /// whether it made the move or not.
    spec fn after_move(&self, from: usize, to: usize) -> Self;

    /// The position that the engine shows.
    spec fn shows(&self) -> Board;

    /// Whether the engine has a pawn that waits to be promoted.
    spec fn promotion_waits(&self) -> bool;

    /// The engine after it was asked to promote to the given kind of
    /// piece.
    spec fn after_promotion(&self, piece: i8) -> Self;

    /// Whether the engine takes the game to have ended.
    spec fn ended(&self) -> bool;

    /// Makes the move from square `from` to square `to` if the rules allow
    /// it, and says whether it did.
    fn apply_move(&mut self, from: usize, to: usize) -> (made: bool)
        ensures
            made == old(self).accepts(from, to),
            *final(self) == old(self).after_move(from, to),
    ;

    /// The position.
    fn current_board(&self) -> (board: Board)
        ensures
            board@ == self.shows()@,
    ;

    /// Whether a pawn waits to be promoted.
    fn can_promote_now(&self) -> (waits: bool)
        ensures
            waits == self.promotion_waits(),
    ;

    /// Turns the waiting pawn into a piece of the given kind.
    fn apply_promotion(&mut self, piece: i8)
        ensures
            *final(self) == old(self).after_promotion(piece),
    ;

    /// Whether the game has ended.
    fn is_game_over(&self) -> (over: bool)
        ensures
            over == self.ended(),
    ;
}

/// The one move that may wait to be sent to the peer.
#[derive(Clone, Copy, Debug, PartialEq, Eq, Structural)]
pub enum UnsentNetMove {
    /// No move waits.
    Nothing,
    /// A move that waits for the choice of a promotion piece.
    PendingPromotion(Move),
    /// A move that is ready to be sent.
    Unsent(Move),
}

/// A move as it is queued right after it was made.
pub open spec fn queued(mv: Move, promoting: bool) -> UnsentNetMove {
    if promoting {
        UnsentNetMove::PendingPromotion(mv)
    } else {
        UnsentNetMove::Unsent(mv)
    }
}

/// Whether the move from `from` to `to` takes a pawn to the first or the
/// last row.
pub open spec fn reaches_far_rank(board: Seq<Square>, from: int, to: int) -> bool {
    board[from].0 == PAWN && (to / 8 == 0 || to / 8 == 7)
}

/// The mathematical state of a game.
pub struct SessionView {
    /// The 64 squares.
    pub board: Seq<Square>,
    /// Whether white is to move.
    pub is_white_turn: bool,
    /// Whether a promotion piece has yet to be chosen.
    pub is_promoting: bool,
    /// Whether the game has ended.
    pub is_game_over: bool,
    /// Whether this state mirrors the state of a host.
    pub is_client: bool,
    /// The move that waits to be sent.
    pub unsent: UnsentNetMove,
}

impl SessionView {
    /// The invariant of a game state: a promotion is outstanding exactly
    /// when the waiting move waits for the promotion piece.
    pub open spec fn wf(self) -> bool {
        &&& self.board.len() == 64
        &&& self.is_promoting <==> self.unsent is PendingPromotion
    }

    /// The state of a new game on the given board.
    pub open spec fn initial(board: Seq<Square>) -> SessionView {
        SessionView {
            board,
            is_white_turn: true,
            is_promoting: false,
            is_game_over: false,
            is_client: false,
            unsent: UnsentNetMove::Nothing,
        }
    }

    /// Whether a move is turned down before anyone looks at the rules:
    /// the game is over, a promotion is outstanding, or a square is off
    /// the board.
    pub open spec fn refuses(self, from: int, to: int) -> bool {
        self.is_game_over || self.is_promoting || !(0 <= from < 64) || !(0 <= to < 64)
    }

    /// A mirror after a move of its own: the board stays, the move is
    /// queued, held back where it takes a pawn to the far rank.
    pub open spec fn mirror_moved(self, from: int, to: int) -> SessionView {
        let promoting = reaches_far_rank(self.board, from, to);
        SessionView {
            is_promoting: promoting,
            unsent: queued(wire_move(from, to), promoting),
            ..self
        }
    }

    /// An authoritative state after a move that the engine has made: the
    /// board, the need to promote and the end of the game are as the
    /// engine reports them, the turn passes, and the move is queued.
    pub open spec fn host_moved(
        self,
        from: int,
        to: int,
        board: Seq<Square>,
        promoting: bool,
        over: bool,
    ) -> SessionView {
        SessionView {
            board,
            is_white_turn: !self.is_white_turn,
            is_promoting: promoting,
            is_game_over: over,
            is_client: self.is_client,
            unsent: queued(wire_move(from, to), promoting),
        }
    }

    /// The team that made the move which is waiting. On a mirror the turn
    /// has not passed yet; on an authoritative state it has.
    pub open spec fn mover(self) -> i8 {
        if self.is_client == self.is_white_turn {
            WHITE
        } else {
            BLACK
        }
    }

    /// The waiting move, complete with the piece of the given kind on the
    /// mover's team.
    pub open spec fn promotion_move(self, piece: i8) -> Move {
        match self.unsent {
            UnsentNetMove::PendingPromotion(mv) => Move {
                promotion: wire_piece((piece, self.mover())),
                ..mv
            },
            UnsentNetMove::Unsent(mv) => mv,
            UnsentNetMove::Nothing => wire_move(0, 0),
        }
    }

    /// The state after the promotion piece was chosen: nothing is
    /// outstanding, and the move is ready to be sent.
    pub open spec fn promoted(self, piece: i8) -> SessionView {
        SessionView {
            is_promoting: false,
            unsent: UnsentNetMove::Unsent(self.promotion_move(piece)),
            ..self
        }
    }

    /// The state with the board and the end of the game as the engine
    /// reports them.
    pub open spec fn refreshed(self, board: Seq<Square>, over: bool) -> SessionView {
        SessionView { board, is_game_over: over, ..self }
    }

    /// What trying the move from `from` to `to` does to a game with the
    /// engine `engine`: the game and the engine afterwards, and whether
    /// the move was made.
    ///
    /// A move that the game refuses changes nothing and leaves the engine
    /// unasked. A mirror queues the move and leaves the engine unasked. An
    /// authoritative game asks the engine: where the engine makes the
    /// move, the game takes the board, the need to promote and the end of
    /// the game from the engine as it then is; where it does not, the
    /// game stays as it was.
    pub open spec fn moved<E: RulesEngine>(self, engine: E, from: int, to: int) -> (
        SessionView,
        E,
        bool,
    ) {
        if self.refuses(from, to) {
            (self, engine, false)
        } else if self.is_client {
            (self.mirror_moved(from, to), engine, true)
        } else {
            let asked = engine.after_move(from as usize, to as usize);
            if engine.accepts(from as usize, to as usize) {
                (
                    self.host_moved(
                        from,
                        to,
                        asked.shows()@,
                        asked.promotion_waits(),
                        asked.ended(),
                    ),
                    asked,
                    true,
                )
            } else {
                (self, asked, false)
            }
        }
    }

    /// What the choice of a promotion piece does to a game with the
    /// engine `engine`: the game and the engine afterwards. A mirror
    /// leaves the engine unasked and the board alone; an authoritative
    /// game has the engine promote and takes the board and the end of the
    /// game from it.
    pub open spec fn chosen<E: RulesEngine>(self, engine: E, piece: i8) -> (SessionView, E) {
        if self.is_client {
            (self.promoted(piece), engine)
        } else {
            let asked = engine.after_promotion(piece);
            (self.promoted(piece).refreshed(asked.shows()@, asked.ended()), asked)
        }
    }

    /// What a move of the peer, given in the coordinates of the messages,
    /// does to a game with the engine `engine`: the game and the engine
    /// afterwards, and whether the move was made. A move with a square
    /// off the board is not made. Where the move is made and leaves a
    /// promotion outstanding, the piece that the move names is chosen at
    /// once.
    pub open spec fn ingested<E: RulesEngine>(self, engine: E, mv: Move) -> (
        SessionView,
        E,
        bool,
    ) {
        if !on_board(mv) {
            (self, engine, false)
        } else {
            let tried = self.moved(engine, start_square(mv), end_square(mv));
            if tried.2 && tried.0.is_promoting {
                let done = tried.0.chosen(tried.1, piece_kind(mv.promotion));
                (done.0, done.1, true)
            } else {
                tried
            }
        }
    }

    /// The state with its waiting move taken out.
    pub open spec fn sent(self) -> SessionView {
        SessionView { unsent: UnsentNetMove::Nothing, ..self }
    }

    /// A mirror right after the host's handshake: it shows the host's
    /// board.
    pub open spec fn seeded(self, board: Seq<Square>) -> SessionView {
        SessionView { is_client: true, board, ..self }
    }

    /// A mirror after a message of the host that carries the board and how
    /// the game stands: the turn passes.
    pub open spec fn updated(self, board: Seq<Square>, joever: Joever) -> SessionView {
        SessionView {
            board,
            is_game_over: joever != Joever::Ongoing,
            is_white_turn: !self.is_white_turn,
            ..self
        }
    }

    /// A mirror after the host has declared a draw.
    pub open spec fn drawn(self, board: Seq<Square>) -> SessionView {
        SessionView { board, is_game_over: true, ..self }
    }

    /// How the game stands, as the messages put it.
    pub open spec fn joever(self) -> Joever {
        if self.is_game_over {
            Joever::Indeterminate
        } else {
            Joever::Ongoing
        }
    }
}

/// The state of one game: the board, whose turn it is, and the move that
/// waits to be sent to the peer.
pub struct ChessState<E: RulesEngine> {
    chess_board: E,
    chess_representation: Board,
    is_white_turn: bool,
    is_promoting: bool,
    is_game_over: bool,
    is_client: bool,
    unsent_net_move: UnsentNetMove,
}

impl<E: RulesEngine> View for ChessState<E> {
    type V = SessionView;

    closed spec fn view(&self) -> SessionView {
        SessionView {
            board: self.chess_representation@,
            is_white_turn: self.is_white_turn,
            is_promoting: self.is_promoting,
            is_game_over: self.is_game_over,
            is_client: self.is_client,
            unsent: self.unsent_net_move,
        }
    }
}

impl<E: RulesEngine> ChessState<E> {
    /// The rules engine of this game.
    pub closed spec fn engine(&self) -> E {
        self.chess_board
    }

    /// The state of a new game, with the board that the engine shows.
    pub fn new(engine: E) -> (state: Self)
        ensures
            state@ == SessionView::initial(engine.shows()@),
            state@.wf(),
            state.engine() == engine,
    {
        let chess_representation = engine.current_board();
        ChessState {
            chess_board: engine,
            chess_representation,
            unsent_net_move: UnsentNetMove::Nothing,
            is_white_turn: true,
            is_promoting: false,
            is_game_over: false,
            is_client: false,
        }
    }

    /// The rules engine of this game.
    pub fn chess_board(&self) -> (engine: &E)
        ensures
            *engine == self.engine(),
    {
        &self.chess_board
    }

    /// The 64 squares.
    pub fn board(&self) -> (board: &Board)
        ensures
            board@ == self@.board,
    {
        &self.chess_representation
    }

    /// Whether white is to move.
    pub fn is_white_turn(&self) -> (white: bool)
        ensures
            white == self@.is_white_turn,
    {
        self.is_white_turn
    }

    /// Whether a promotion piece has yet to be chosen.
    pub fn is_promoting(&self) -> (promoting: bool)
        ensures
            promoting == self@.is_promoting,
    {
        self.is_promoting
    }

    /// Whether the game has ended.
    pub fn is_game_over(&self) -> (over: bool)
        ensures
            over == self@.is_game_over,
    {
        self.is_game_over
    }

    /// Whether this state mirrors the state of a host.
    pub fn is_client(&self) -> (client: bool)
        ensures
            client == self@.is_client,
    {
        self.is_client
    }

    /// The move that waits to be sent.
    pub fn unsent_net_move(&self) -> (unsent: UnsentNetMove)
        ensures
            unsent == self@.unsent,
    {
        self.unsent_net_move
    }

    /// Records a move from `from` to `to` that the engine has made, with
    /// what the engine reports after it: the board, whether a pawn waits
    /// to be promoted, and whether the game has ended. The state must be
    /// authoritative and must not refuse the move.
    pub fn record_move(
        &mut self,
        from: usize,
        to: usize,
        board: Board,
        can_promote: bool,
        ended: bool,
    )
        requires
            !old(self)@.is_client,
            !old(self)@.refuses(from as int, to as int),
        ensures
            final(self)@ == old(self)@.host_moved(
                from as int,
                to as int,
                board@,
                can_promote,
                ended,
            ),
            final(self)@.wf(),
            final(self).engine() == old(self).engine(),
    {
        let net_move = net_move(from, to);
        self.chess_representation = board;
        self.is_white_turn = !self.is_white_turn;
        self.is_promoting = can_promote;
        self.unsent_net_move = if can_promote {
            UnsentNetMove::PendingPromotion(net_move)
        } else {
            UnsentNetMove::Unsent(net_move)
        };
        self.is_game_over = ended;
    }

    /// Tries the move from square `from` to square `to` and says whether
    /// it was made.
    ///
    /// Nothing happens when the game is over, when a promotion is
    /// outstanding, or when a square is off the board. A mirror leaves the
    /// board alone and queues the move for the host; the move is held back
    /// where it takes a pawn to the far rank. An authoritative state asks
    /// the engine: where the engine refuses, nothing changes; where it
    /// makes the move, the board, the need to promote and the end of the
    /// game are what the engine reports, the turn passes, and the move is
    /// queued.
    pub fn do_move(&mut self, from: usize, to: usize) -> (did_move: bool)
        requires
            old(self)@.wf(),
        ensures
            final(self)@.wf(),
            (final(self)@, final(self).engine(), did_move) == old(self)@.moved(
                old(self).engine(),
                from as int,
                to as int,
            ),
    {
        if self.is_game_over || self.is_promoting || from >= 64 || to >= 64 {
            return false;
        }
        if self.is_client {
            let to_rank = to >> 3;
            assert(to >> 3 == to / 8) by (bit_vector);
            let promoting = self.chess_representation[from].0 == PAWN && (to_rank == 0 || to_rank
                == 7);
            let net_move = net_move(from, to);
            self.is_promoting = promoting;
            self.unsent_net_move = if promoting {
                UnsentNetMove::PendingPromotion(net_move)
            } else {
                UnsentNetMove::Unsent(net_move)
            };
            true
        } else if self.chess_board.apply_move(from, to) {
            let board = self.chess_board.current_board();
            let can_promote = self.chess_board.can_promote_now();
            let ended = self.chess_board.is_game_over();
            self.record_move(from, to, board, can_promote, ended);
            true
        } else {
            false
        }
    }

    /// Completes the waiting move with the promotion piece of the given
    /// kind, on the team that made the move, and makes it ready to be
    /// sent.
    pub fn complete_promotion(&mut self, piece: i8)
        requires
            old(self)@.wf(),
            old(self)@.is_promoting,
        ensures
            final(self)@ == old(self)@.promoted(piece),
            final(self)@.wf(),
            final(self).engine() == old(self).engine(),
    {
        self.is_promoting = false;
        let color = if self.is_client == self.is_white_turn {
            WHITE
        } else {
            BLACK
        };
        match self.unsent_net_move {
            UnsentNetMove::PendingPromotion(mv) => {
                let promotion = chess_piece_to_wire((piece, color));
                self.unsent_net_move = UnsentNetMove::Unsent(Move { promotion, ..mv });
            },
            _ => {},
        }
    }

    /// Chooses the piece that the waiting pawn turns into. There must be
    /// a promotion outstanding.
    ///
    /// An authoritative state has the engine promote the pawn and takes
    /// the board and the end of the game from it; a mirror does not touch
    /// the engine or the board. Either way nothing is outstanding
    /// afterwards, and the waiting move is ready to be sent, complete with
    /// the piece of the chosen kind on the team that made the move.
    pub fn promote(&mut self, piece: i8)
        requires
            old(self)@.wf(),
            old(self)@.is_promoting,
        ensures
            final(self)@.wf(),
            (final(self)@, final(self).engine()) == old(self)@.chosen(old(self).engine(), piece),
    {
        if self.is_client {
            self.complete_promotion(piece);
        } else {
            self.chess_board.apply_promotion(piece);
            let board = self.chess_board.current_board();
            let ended = self.chess_board.is_game_over();
            self.record_promotion(piece, board, ended);
        }
    }

    /// Records that the engine of an authoritative state has promoted the
    /// waiting pawn to a piece of the given kind, with what the engine
    /// reports after it: the board, and whether the game has ended. The
    /// waiting move is completed as by `complete_promotion`. There must
    /// be a promotion outstanding.
    pub fn record_promotion(&mut self, piece: i8, board: Board, ended: bool)
        requires
            old(self)@.wf(),
            old(self)@.is_promoting,
            !old(self)@.is_client,
        ensures
            final(self)@ == old(self)@.promoted(piece).refreshed(board@, ended),
            final(self)@.wf(),
            final(self).engine() == old(self).engine(),
    {
        self.chess_representation = board;
        self.is_game_over = ended;
        self.complete_promotion(piece);
    }

    /// How the game stands, as the messages put it.
    pub fn to_joever(&self) -> (joever: Joever)
        ensures
            joever == self@.joever(),
    {
        if self.is_game_over {
            Joever::Indeterminate
        } else {
            Joever::Ongoing
        }
    }

    /// Takes a move of the peer, given in the coordinates of the messages,
    /// and says whether it was made. Where the move brings a pawn to the
    /// far rank, the pawn at once turns into the kind of piece that the
    /// move names.
    ///
    /// A move with a square off the board is turned down like one that the
    /// engine refuses: nothing changes.
    pub fn ingest_client_move(&mut self, mv: &Move) -> (accepted: bool)
        requires
            old(self)@.wf(),
        ensures
            final(self)@.wf(),
            (final(self)@, final(self).engine(), accepted) == old(self)@.ingested(
                old(self).engine(),
                *mv,
            ),
    {
        match move_squares(mv) {
            Some((from, to)) => {
                let result = self.do_move(from, to);
                if result && self.is_promoting {
                    let piece = wire_piece_to_chess(mv.promotion).0;
                    self.promote(piece);
                }
                result
            },
            None => false,
        }
    }

    /// Takes the move that is ready to be sent out of the queue. A move
    /// that waits for its promotion piece stays.
    pub fn take_unsent(&mut self) -> (mv: Option<Move>)
        ensures
            old(self)@.unsent matches UnsentNetMove::Unsent(ready) ==> mv == Some(ready)
                && final(self)@ == old(self)@.sent(),
            !(old(self)@.unsent is Unsent) ==> mv is None && final(self)@ == old(self)@,
            final(self).engine() == old(self).engine(),
            old(self)@.wf() ==> final(self)@.wf(),
    {
        match self.unsent_net_move {
            UnsentNetMove::Unsent(mv) => {
                self.unsent_net_move = UnsentNetMove::Nothing;
                Some(mv)
            },
            _ => None,
        }
    }

    /// Marks this state as the mirror of a host's; the board stays.
    pub fn keep_mirroring(&mut self)
        ensures
            final(self)@ == (SessionView { is_client: true, ..old(self)@ }),
            final(self).engine() == old(self).engine(),
            old(self)@.wf() ==> final(self)@.wf(),
    {
        self.is_client = true;
    }

    /// Turns this state into a mirror that shows the board of the host's
    /// handshake.
    pub fn mirror_handshake(&mut self, board: &WireBoard)
        ensures
            final(self)@ == old(self)@.seeded(chess_board(rows(*board))),
            final(self).engine() == old(self).engine(),
            old(self)@.wf() ==> final(self)@.wf(),
    {
        self.is_client = true;
        self.chess_representation = wire_to_chess_representation(board);
    }

    /// Takes over the board and the standing of the game from a message of
    /// the host, and passes the turn.
    pub fn mirror_update(&mut self, board: &WireBoard, joever: Joever)
        ensures
            final(self)@ == old(self)@.updated(chess_board(rows(*board)), joever),
            final(self).engine() == old(self).engine(),
            old(self)@.wf() ==> final(self)@.wf(),
    {
        self.chess_representation = wire_to_chess_representation(board);
        self.is_game_over = match joever {
            Joever::Ongoing => false,
            _ => true,
        };
        self.is_white_turn = !self.is_white_turn;
    }

    /// Takes over the board from the host's message of a draw, which ends
    /// the game.
    pub fn mirror_draw(&mut self, board: &WireBoard)
        ensures
            final(self)@ == old(self)@.drawn(chess_board(rows(*board))),
            final(self).engine() == old(self).engine(),
            old(self)@.wf() ==> final(self)@.wf(),
    {
        self.chess_representation = wire_to_chess_representation(board);
        self.is_game_over = true;
    }
}

} // verus!
